//! The `database_guard` plugin: blocks destructive or exfiltrating database statements (drops, truncates, bulk deletes, privilege grants, timing attacks).
use crate::signature::{agrees, all_compile, signature_violation, views, MatchKind};
use crate::{PluginModel, SecurityPlugin};
use vstd::prelude::*;

verus! {

/// The signatures of the `database_guard` plugin, in the order they are tried.
pub open spec fn database_signatures() -> Seq<Seq<char>> {
    seq![
        r"(?i)\bDROP\s+TABLE\b"@,
        r"(?i)\bTRUNCATE\s+TABLE\b"@,
        r"(?i)\bDELETE\s+FROM\b"@,
        r"(?i)\bSHUTDOWN\s+IMMEDIATE\b"@,
        r"(?i)\bGRANT\s+ALL\s+PRIVILEGES\b"@,
        r"(?i)\bDROP\s+PROCEDURE\b"@,
        r"(?i)\bDROP\s+INDEX\b"@,
        r"(?i)\binformation_schema\b"@,
        r"(?i)\bDROP\s+VIEW\b"@,
        r"(?i)\bALTER\s+TABLE\s+.*\s+DROP\s+CONSTRAINT\b"@,
        r"(?i)\bCREATE\s+FUNCTION\s+.*\s+RETURNS\s+STRING\b"@,
        r"(?i)\bINTO\s+OUTFILE\b"@,
        r"(?i)\btenant_id\s*=\s*\d+\s+OR\b"@,
        r"(?i)\bINSERT\s+INTO\s+.*admin\b"@,
        r"(?i)\bpg_sleep\(\d+\)\b"@,
        r"(?i)\bDBMS_LOCK\.SLEEP\b"@,
        r"(?i)\bALTER\s+SYSTEM\b"@,
        r"(?i)\bdb\.dropDatabase\(\)"@,
        r"(?i)\b\.drop\(\)\b"@
    ]
}

/// The model of a fresh `DatabaseGuard`.
pub open spec fn database_model() -> PluginModel {
    PluginModel {
        name: "database_guard"@,
        prefix: "Database Mutation Attempt Blocked: Signature match '"@,
        kind: MatchKind::Regex,
        patterns: database_signatures(),
    }
}

/// The signature list, as strings.
pub fn database_signature_list() -> (v: Vec<String>)
    ensures
        views(v@) == database_signatures(),
{
    let v = vec![
        String::from_str(r"(?i)\bDROP\s+TABLE\b"),
        String::from_str(r"(?i)\bTRUNCATE\s+TABLE\b"),
        String::from_str(r"(?i)\bDELETE\s+FROM\b"),
        String::from_str(r"(?i)\bSHUTDOWN\s+IMMEDIATE\b"),
        String::from_str(r"(?i)\bGRANT\s+ALL\s+PRIVILEGES\b"),
        String::from_str(r"(?i)\bDROP\s+PROCEDURE\b"),
        String::from_str(r"(?i)\bDROP\s+INDEX\b"),
        String::from_str(r"(?i)\binformation_schema\b"),
        String::from_str(r"(?i)\bDROP\s+VIEW\b"),
        String::from_str(r"(?i)\bALTER\s+TABLE\s+.*\s+DROP\s+CONSTRAINT\b"),
        String::from_str(r"(?i)\bCREATE\s+FUNCTION\s+.*\s+RETURNS\s+STRING\b"),
        String::from_str(r"(?i)\bINTO\s+OUTFILE\b"),
        String::from_str(r"(?i)\btenant_id\s*=\s*\d+\s+OR\b"),
        String::from_str(r"(?i)\bINSERT\s+INTO\s+.*admin\b"),
        String::from_str(r"(?i)\bpg_sleep\(\d+\)\b"),
        String::from_str(r"(?i)\bDBMS_LOCK\.SLEEP\b"),
        String::from_str(r"(?i)\bALTER\s+SYSTEM\b"),
        String::from_str(r"(?i)\bdb\.dropDatabase\(\)"),
        String::from_str(r"(?i)\b\.drop\(\)\b")
    ];
    assert(views(v@) =~= database_signatures());
    v
}

/// Blocks destructive or exfiltrating database statements (drops, truncates, bulk deletes, privilege grants, timing attacks).
pub struct DatabaseGuard {
    signatures: Vec<String>,
}

impl DatabaseGuard {
    /// The guard holds its fixed signature list, and every signature compiles.
    #[verifier::type_invariant]
    spec fn well_formed(self) -> bool {
        &&& views(self.signatures@) == database_signatures()
        &&& all_compile(views(self.signatures@))
    }

    /// The plugin's name, message prefix and signatures.
    pub closed spec fn model(self) -> PluginModel {
        PluginModel {
            name: "database_guard"@,
            prefix: "Database Mutation Attempt Blocked: Signature match '"@,
            kind: MatchKind::Regex,
            patterns: views(self.signatures@),
        }
    }

    /// The plugin with its fixed signature list.
    pub fn new() -> (g: Self)
        requires
            all_compile(database_signatures()),
        ensures
            g.model() == database_model(),
    {
        DatabaseGuard { signatures: database_signature_list() }
    }
}

impl SecurityPlugin for DatabaseGuard {
    fn name(&self) -> (r: &str)
        ensures
            r@ == self.model().name,
            self.model() == database_model(),
    {
        proof {
            use_type_invariant(self);
        }
        "database_guard"
    }

    fn validate(&self, method_name: &str, args: &[String]) -> (r: Result<(), String>)
        ensures
            agrees(r, self.model().outcome(views(args@))),
            self.model() == database_model(),
    {
        proof {
            use_type_invariant(self);
        }
        signature_violation(MatchKind::Regex, &self.signatures, args, "Database Mutation Attempt Blocked: Signature match '")
    }
}

} // verus!
