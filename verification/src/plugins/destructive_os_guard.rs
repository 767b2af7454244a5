//! The `destructive_os_guard` plugin: blocks destructive operating-system commands (recursive deletes, permission blow-ups, fork bombs, package installs, reads of system files).
use crate::signature::{agrees, all_compile, signature_violation, views, MatchKind};
use crate::{PluginModel, SecurityPlugin};
use vstd::prelude::*;

verus! {

/// The signatures of the `destructive_os_guard` plugin, in the order they are tried.
pub open spec fn destructive_os_signatures() -> Seq<Seq<char>> {
    seq![
        r"(?i)\brm\s+-rf\b"@,
        r"(?i)\bchmod\s+(?:-R\s+)?777\b"@,
        r"(?i):\(\)\{\s*:\|\s*:&\s*\}\s*;"@,
        r"(?i)\bcrontab\s+-e\b"@,
        r"(?i)\bapt-get\s+install\b"@,
        r"(?i)\byum\s+install\b"@,
        r"(?i)\bdocker\.sock\b"@,
        r"(?i)/etc/passwd"@,
        r"(?i)/etc/shadow"@,
        r"(?i)\bkill\s+-9\s+-1\b"@,
        r"(?i)\bwget\s+http"@,
        r"(?i)\bcurl\s+http"@,
        r"(?i)\bsystemctl\s+stop\b"@,
        r"(?i)\.ssh/authorized_keys"@,
        r"(?i)/usr/bin/"@,
        r"(?i)\balias\s+\w+="@,
        r"(?i)\bmkfs\.(?:ext\d|vfat|ntfs|xfs)\b"@,
        r"(?i)\bswapoff\s+-a\b"@,
        r"(?i)\brmmod\b"@,
        r"(?i)/var/log/"@,
        r"(?i)/etc/resolv\.conf"@,
        r"(?i)\bshutdown\s+-h\b"@
    ]
}

/// The model of a fresh `DestructiveOsGuard`.
pub open spec fn destructive_os_model() -> PluginModel {
    PluginModel {
        name: "destructive_os_guard"@,
        prefix: "OS Exploit Vector Blocked: Signature match '"@,
        kind: MatchKind::Regex,
        patterns: destructive_os_signatures(),
    }
}

/// The signature list, as strings.
pub fn destructive_os_signature_list() -> (v: Vec<String>)
    ensures
        views(v@) == destructive_os_signatures(),
{
    let v = vec![
        String::from_str(r"(?i)\brm\s+-rf\b"),
        String::from_str(r"(?i)\bchmod\s+(?:-R\s+)?777\b"),
        String::from_str(r"(?i):\(\)\{\s*:\|\s*:&\s*\}\s*;"),
        String::from_str(r"(?i)\bcrontab\s+-e\b"),
        String::from_str(r"(?i)\bapt-get\s+install\b"),
        String::from_str(r"(?i)\byum\s+install\b"),
        String::from_str(r"(?i)\bdocker\.sock\b"),
        String::from_str(r"(?i)/etc/passwd"),
        String::from_str(r"(?i)/etc/shadow"),
        String::from_str(r"(?i)\bkill\s+-9\s+-1\b"),
        String::from_str(r"(?i)\bwget\s+http"),
        String::from_str(r"(?i)\bcurl\s+http"),
        String::from_str(r"(?i)\bsystemctl\s+stop\b"),
        String::from_str(r"(?i)\.ssh/authorized_keys"),
        String::from_str(r"(?i)/usr/bin/"),
        String::from_str(r"(?i)\balias\s+\w+="),
        String::from_str(r"(?i)\bmkfs\.(?:ext\d|vfat|ntfs|xfs)\b"),
        String::from_str(r"(?i)\bswapoff\s+-a\b"),
        String::from_str(r"(?i)\brmmod\b"),
        String::from_str(r"(?i)/var/log/"),
        String::from_str(r"(?i)/etc/resolv\.conf"),
        String::from_str(r"(?i)\bshutdown\s+-h\b")
    ];
    assert(views(v@) =~= destructive_os_signatures());
    v
}

/// Blocks destructive operating-system commands (recursive deletes, permission blow-ups, fork bombs, package installs, reads of system files).
pub struct DestructiveOsGuard {
    signatures: Vec<String>,
}

impl DestructiveOsGuard {
    /// The guard holds its fixed signature list, and every signature compiles.
    #[verifier::type_invariant]
    spec fn well_formed(self) -> bool {
        &&& views(self.signatures@) == destructive_os_signatures()
        &&& all_compile(views(self.signatures@))
    }

    /// The plugin's name, message prefix and signatures.
    pub closed spec fn model(self) -> PluginModel {
        PluginModel {
            name: "destructive_os_guard"@,
            prefix: "OS Exploit Vector Blocked: Signature match '"@,
            kind: MatchKind::Regex,
            patterns: views(self.signatures@),
        }
    }

    /// The plugin with its fixed signature list.
    pub fn new() -> (g: Self)
        requires
            all_compile(destructive_os_signatures()),
        ensures
            g.model() == destructive_os_model(),
    {
        DestructiveOsGuard { signatures: destructive_os_signature_list() }
    }
}

impl SecurityPlugin for DestructiveOsGuard {
    fn name(&self) -> (r: &str)
        ensures
            r@ == self.model().name,
            self.model() == destructive_os_model(),
    {
        proof {
            use_type_invariant(self);
        }
        "destructive_os_guard"
    }

    fn validate(&self, method_name: &str, args: &[String]) -> (r: Result<(), String>)
        ensures
            agrees(r, self.model().outcome(views(args@))),
            self.model() == destructive_os_model(),
    {
        proof {
            use_type_invariant(self);
        }
        signature_violation(MatchKind::Regex, &self.signatures, args, "OS Exploit Vector Blocked: Signature match '")
    }
}

} // verus!
