//! The built-in plugins and the enum through which the engine runs them.
pub mod cloud_sync;
pub mod database_guard;
pub mod destructive_os_guard;
pub mod jailbreak_guard;
pub mod pii_leakage_guard;
pub mod resource_exhaustion_guard;

use crate::engine::CustomUserPlugin;
use crate::plugins::database_guard::{
    database_model, database_signature_list, database_signatures, DatabaseGuard,
};
use crate::plugins::destructive_os_guard::{
    destructive_os_model, destructive_os_signature_list, destructive_os_signatures,
    DestructiveOsGuard,
};
use crate::plugins::jailbreak_guard::{
    jailbreak_model, jailbreak_signature_list, jailbreak_signatures, JailbreakGuard,
};
use crate::plugins::pii_leakage_guard::{
    pii_leakage_model, pii_leakage_signature_list, pii_leakage_signatures, PiiLeakageGuard,
};
use crate::plugins::resource_exhaustion_guard::{
    resource_exhaustion_model, resource_exhaustion_signature_list,
    resource_exhaustion_signatures, ResourceExhaustionGuard,
};
use crate::signature::{agrees, all_compile, check_outcome, check_patterns, views};
use crate::{PluginModel, SecurityPlugin};
use vstd::prelude::*;

verus! {

/// One of the plugins the engine runs.
pub enum Plugin {
    DestructiveOs(DestructiveOsGuard),
    Database(DatabaseGuard),
    Jailbreak(JailbreakGuard),
    ResourceExhaustion(ResourceExhaustionGuard),
    PiiLeakage(PiiLeakageGuard),
    Custom(CustomUserPlugin),
}

impl Plugin {
    /// The model of the plugin held.
    pub open spec fn model(self) -> PluginModel {
        match self {
            Plugin::DestructiveOs(g) => g.model(),
            Plugin::Database(g) => g.model(),
            Plugin::Jailbreak(g) => g.model(),
            Plugin::ResourceExhaustion(g) => g.model(),
            Plugin::PiiLeakage(g) => g.model(),
            Plugin::Custom(g) => g.model(),
        }
    }
}

/// The models of a sequence of plugins.
pub open spec fn models(ps: Seq<Plugin>) -> Seq<PluginModel> {
    ps.map_values(|p: Plugin| p.model())
}

impl SecurityPlugin for Plugin {
    fn name(&self) -> (r: &str)
        ensures
            r@ == self.model().name,
    {
        match self {
            Plugin::DestructiveOs(g) => g.name(),
            Plugin::Database(g) => g.name(),
            Plugin::Jailbreak(g) => g.name(),
            Plugin::ResourceExhaustion(g) => g.name(),
            Plugin::PiiLeakage(g) => g.name(),
            Plugin::Custom(g) => g.name(),
        }
    }

    fn validate(&self, method_name: &str, args: &[String]) -> (r: Result<(), String>)
        ensures
            agrees(r, self.model().outcome(views(args@))),
    {
        match self {
            Plugin::DestructiveOs(g) => g.validate(method_name, args),
            Plugin::Database(g) => g.validate(method_name, args),
            Plugin::Jailbreak(g) => g.validate(method_name, args),
            Plugin::ResourceExhaustion(g) => g.validate(method_name, args),
            Plugin::PiiLeakage(g) => g.validate(method_name, args),
            Plugin::Custom(g) => g.validate(method_name, args),
        }
    }

    fn redact(&self, output: &str) -> (r: Option<String>)
        ensures
            r is None,
    {
        match self {
            Plugin::DestructiveOs(g) => g.redact(output),
            Plugin::Database(g) => g.redact(output),
            Plugin::Jailbreak(g) => g.redact(output),
            Plugin::ResourceExhaustion(g) => g.redact(output),
            Plugin::PiiLeakage(g) => g.redact(output),
            Plugin::Custom(g) => g.redact(output),
        }
    }
}

/// The signature lists of the built-in plugins all compile.
pub open spec fn default_signatures_compile() -> bool {
    &&& all_compile(destructive_os_signatures())
    &&& all_compile(database_signatures())
    &&& all_compile(jailbreak_signatures())
    &&& all_compile(resource_exhaustion_signatures())
    &&& all_compile(pii_leakage_signatures())
}

/// The models of the built-in plugins, in the order they run.
pub open spec fn default_models() -> Seq<PluginModel> {
    seq![
        destructive_os_model(),
        database_model(),
        jailbreak_model(),
        resource_exhaustion_model(),
        pii_leakage_model(),
    ]
}

/// The built-in plugins, in the order they run.
pub fn get_default_plugins() -> (v: Vec<Plugin>)
    requires
        default_signatures_compile(),
    ensures
        models(v@) == default_models(),
{
    let v = vec![
        Plugin::DestructiveOs(DestructiveOsGuard::new()),
        Plugin::Database(DatabaseGuard::new()),
        Plugin::Jailbreak(JailbreakGuard::new()),
        Plugin::ResourceExhaustion(ResourceExhaustionGuard::new()),
        Plugin::PiiLeakage(PiiLeakageGuard::new()),
    ];
    assert(models(v@) =~= default_models());
    v
}

/// What checking the built-in signature lists reports: the message for the
/// first pattern that does not compile, taking the lists in the order the
/// plugins run, or `None` when all compile.
pub open spec fn default_check_outcome() -> Option<Seq<char>> {
    if check_outcome(destructive_os_signatures()) is Some {
        check_outcome(destructive_os_signatures())
    } else if check_outcome(database_signatures()) is Some {
        check_outcome(database_signatures())
    } else if check_outcome(jailbreak_signatures()) is Some {
        check_outcome(jailbreak_signatures())
    } else if check_outcome(resource_exhaustion_signatures()) is Some {
        check_outcome(resource_exhaustion_signatures())
    } else {
        check_outcome(pii_leakage_signatures())
    }
}

/// Checks that every built-in signature compiles.
pub fn check_default_signatures() -> (r: Result<(), String>)
    ensures
        agrees(r, default_check_outcome()),
        r is Ok <==> default_signatures_compile(),
{
    if let Err(e) = check_patterns(&destructive_os_signature_list()) {
        return Err(e);
    }
    if let Err(e) = check_patterns(&database_signature_list()) {
        return Err(e);
    }
    if let Err(e) = check_patterns(&jailbreak_signature_list()) {
        return Err(e);
    }
    if let Err(e) = check_patterns(&resource_exhaustion_signature_list()) {
        return Err(e);
    }
    if let Err(e) = check_patterns(&pii_leakage_signature_list()) {
        return Err(e);
    }
    Ok(())
}

} // verus!
