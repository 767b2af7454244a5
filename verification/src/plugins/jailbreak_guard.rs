//! The `jailbreak_guard` plugin: blocks prompt-injection and jailbreak phrasing.
use crate::signature::{agrees, all_compile, signature_violation, views, MatchKind};
use crate::{PluginModel, SecurityPlugin};
use vstd::prelude::*;

verus! {

/// The signatures of the `jailbreak_guard` plugin, in the order they are tried.
pub open spec fn jailbreak_signatures() -> Seq<Seq<char>> {
    seq![
        r"(?i)ignore\s+(?:all\s+)?previous\s+(?:instructions|guidelines)"@,
        r"(?i)system\s+override"@,
        r"(?i)you\s+are\s+now\s+unrestricted"@,
        r"(?i)\bDAN\b"@,
        r"(?i)acting\s+as\s+a\s+fictional"@,
        r"(?i)decode\s+the\s+following\s+base64"@,
        r"(?i)translate\s+the\s+following\s+to\s+english"@,
        r"(?i)prove\s+you\s+aren't\s+bad"@,
        r"(?i)developer\s+testing\s+mode"@,
        r"(?i)simulate\s+a\s+linux\s+terminal"@,
        r"(?i)D3L3T3"@,
        r"(?i)ignore\s+safety\s+filters"@,
        r"(?i)breakout\s+of\s+json\s+schema"@
    ]
}

/// The model of a fresh `JailbreakGuard`.
pub open spec fn jailbreak_model() -> PluginModel {
    PluginModel {
        name: "jailbreak_guard"@,
        prefix: "Linguistic Jailbreak Vector Detected: Signature match '"@,
        kind: MatchKind::Regex,
        patterns: jailbreak_signatures(),
    }
}

/// The signature list, as strings.
pub fn jailbreak_signature_list() -> (v: Vec<String>)
    ensures
        views(v@) == jailbreak_signatures(),
{
    let v = vec![
        String::from_str(r"(?i)ignore\s+(?:all\s+)?previous\s+(?:instructions|guidelines)"),
        String::from_str(r"(?i)system\s+override"),
        String::from_str(r"(?i)you\s+are\s+now\s+unrestricted"),
        String::from_str(r"(?i)\bDAN\b"),
        String::from_str(r"(?i)acting\s+as\s+a\s+fictional"),
        String::from_str(r"(?i)decode\s+the\s+following\s+base64"),
        String::from_str(r"(?i)translate\s+the\s+following\s+to\s+english"),
        String::from_str(r"(?i)prove\s+you\s+aren't\s+bad"),
        String::from_str(r"(?i)developer\s+testing\s+mode"),
        String::from_str(r"(?i)simulate\s+a\s+linux\s+terminal"),
        String::from_str(r"(?i)D3L3T3"),
        String::from_str(r"(?i)ignore\s+safety\s+filters"),
        String::from_str(r"(?i)breakout\s+of\s+json\s+schema")
    ];
    assert(views(v@) =~= jailbreak_signatures());
    v
}

/// Blocks prompt-injection and jailbreak phrasing.
pub struct JailbreakGuard {
    signatures: Vec<String>,
}

impl JailbreakGuard {
    /// The guard holds its fixed signature list, and every signature compiles.
    #[verifier::type_invariant]
    spec fn well_formed(self) -> bool {
        &&& views(self.signatures@) == jailbreak_signatures()
        &&& all_compile(views(self.signatures@))
    }

    /// The plugin's name, message prefix and signatures.
    pub closed spec fn model(self) -> PluginModel {
        PluginModel {
            name: "jailbreak_guard"@,
            prefix: "Linguistic Jailbreak Vector Detected: Signature match '"@,
            kind: MatchKind::Regex,
            patterns: views(self.signatures@),
        }
    }

    /// The plugin with its fixed signature list.
    pub fn new() -> (g: Self)
        requires
            all_compile(jailbreak_signatures()),
        ensures
            g.model() == jailbreak_model(),
    {
        JailbreakGuard { signatures: jailbreak_signature_list() }
    }
}

impl SecurityPlugin for JailbreakGuard {
    fn name(&self) -> (r: &str)
        ensures
            r@ == self.model().name,
            self.model() == jailbreak_model(),
    {
        proof {
            use_type_invariant(self);
        }
        "jailbreak_guard"
    }

    fn validate(&self, method_name: &str, args: &[String]) -> (r: Result<(), String>)
        ensures
            agrees(r, self.model().outcome(views(args@))),
            self.model() == jailbreak_model(),
    {
        proof {
            use_type_invariant(self);
        }
        signature_violation(MatchKind::Regex, &self.signatures, args, "Linguistic Jailbreak Vector Detected: Signature match '")
    }
}

} // verus!
