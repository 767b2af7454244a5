//! The `pii_leakage_guard` plugin: blocks leaks of personal or secret data (card numbers, social security numbers, secret keys, cloud metadata).
use crate::signature::{agrees, all_compile, signature_violation, views, MatchKind};
use crate::{PluginModel, SecurityPlugin};
use vstd::prelude::*;

verus! {

/// The signatures of the `pii_leakage_guard` plugin, in the order they are tried.
pub open spec fn pii_leakage_signatures() -> Seq<Seq<char>> {
    seq![
        r"\b(?:4[0-9]{12}(?:[0-9]{3})?|5[1-5][0-9]{14})\b"@,
        r"\b\d{3}-\d{2}-\d{4}\b"@,
        r"(?i)\becho\s+\$?(?:AWS_SECRET_ACCESS_KEY|API_KEY|JWT_TOKEN)\b"@,
        r"http://169\.254\.169\.254/latest/meta-data/"@,
        r"(?i)\bos\.environ\b"@,
        r"\b\.git/config\b"@,
        r"(?i)\bexport_customer_csv\b"@,
        r"(?i)\bshow_payroll_chart\b"@,
        r"(?i)\bwp-config\.php\b"@,
        r"(?i)\bprivate_key\.pem\b"@,
        r"(?i)\bextract_gps_coordinates\b"@,
        r"(?i)\bdump_encryption_salt\b"@
    ]
}

/// The model of a fresh `PiiLeakageGuard`.
pub open spec fn pii_leakage_model() -> PluginModel {
    PluginModel {
        name: "pii_leakage_guard"@,
        prefix: "Critical Data Leakage Blocked: Signature match '"@,
        kind: MatchKind::Regex,
        patterns: pii_leakage_signatures(),
    }
}

/// The signature list, as strings.
pub fn pii_leakage_signature_list() -> (v: Vec<String>)
    ensures
        views(v@) == pii_leakage_signatures(),
{
    let v = vec![
        String::from_str(r"\b(?:4[0-9]{12}(?:[0-9]{3})?|5[1-5][0-9]{14})\b"),
        String::from_str(r"\b\d{3}-\d{2}-\d{4}\b"),
        String::from_str(r"(?i)\becho\s+\$?(?:AWS_SECRET_ACCESS_KEY|API_KEY|JWT_TOKEN)\b"),
        String::from_str(r"http://169\.254\.169\.254/latest/meta-data/"),
        String::from_str(r"(?i)\bos\.environ\b"),
        String::from_str(r"\b\.git/config\b"),
        String::from_str(r"(?i)\bexport_customer_csv\b"),
        String::from_str(r"(?i)\bshow_payroll_chart\b"),
        String::from_str(r"(?i)\bwp-config\.php\b"),
        String::from_str(r"(?i)\bprivate_key\.pem\b"),
        String::from_str(r"(?i)\bextract_gps_coordinates\b"),
        String::from_str(r"(?i)\bdump_encryption_salt\b")
    ];
    assert(views(v@) =~= pii_leakage_signatures());
    v
}

/// Blocks leaks of personal or secret data (card numbers, social security numbers, secret keys, cloud metadata).
pub struct PiiLeakageGuard {
    signatures: Vec<String>,
}

impl PiiLeakageGuard {
    /// The guard holds its fixed signature list, and every signature compiles.
    #[verifier::type_invariant]
    spec fn well_formed(self) -> bool {
        &&& views(self.signatures@) == pii_leakage_signatures()
        &&& all_compile(views(self.signatures@))
    }

    /// The plugin's name, message prefix and signatures.
    pub closed spec fn model(self) -> PluginModel {
        PluginModel {
            name: "pii_leakage_guard"@,
            prefix: "Critical Data Leakage Blocked: Signature match '"@,
            kind: MatchKind::Regex,
            patterns: views(self.signatures@),
        }
    }

    /// The plugin with its fixed signature list.
    pub fn new() -> (g: Self)
        requires
            all_compile(pii_leakage_signatures()),
        ensures
            g.model() == pii_leakage_model(),
    {
        PiiLeakageGuard { signatures: pii_leakage_signature_list() }
    }
}

impl SecurityPlugin for PiiLeakageGuard {
    fn name(&self) -> (r: &str)
        ensures
            r@ == self.model().name,
            self.model() == pii_leakage_model(),
    {
        proof {
            use_type_invariant(self);
        }
        "pii_leakage_guard"
    }

    fn validate(&self, method_name: &str, args: &[String]) -> (r: Result<(), String>)
        ensures
            agrees(r, self.model().outcome(views(args@))),
            self.model() == pii_leakage_model(),
    {
        proof {
            use_type_invariant(self);
        }
        signature_violation(MatchKind::Regex, &self.signatures, args, "Critical Data Leakage Blocked: Signature match '")
    }
}

} // verus!
