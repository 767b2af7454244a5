//! Argala: a deterministic policy engine that vets the tool calls of an AI
//! agent against an allow-list of methods and case-insensitive
//! regular-expression signatures.
pub mod engine;
pub mod laws;
pub mod limits;
pub mod matching_laws;
pub mod plugins;
pub mod signature;
pub mod text;

pub use engine::{ArgalaEngine, CustomUserPlugin, EngineConfig, PolicyLayout, ToolPolicyLayout};
pub use signature::MatchKind;
pub use plugins::get_default_plugins;

use vstd::prelude::*;

verus! {

/// What a plugin is, as the contracts see it: its name, the text that opens
/// each of its violation messages, how its patterns are read, and the
/// patterns.
pub struct PluginModel {
    pub name: Seq<char>,
    pub prefix: Seq<char>,
    pub kind: signature::MatchKind,
    pub patterns: Seq<Seq<char>>,
}

impl PluginModel {
    /// The violation message the plugin reports for these arguments, if any.
    pub open spec fn outcome(self, args: Seq<Seq<char>>) -> Option<Seq<char>> {
        signature::scan_outcome(self.kind, self.patterns, args, self.prefix)
    }
}

/// The extension interface of the engine: a plugin has a name, validates the
/// string arguments of a tool call, and may scrub tool output.
pub trait SecurityPlugin {
    /// The plugin's name, shown in block messages.
    fn name(&self) -> &str;

    /// `Ok(())` lets the call through; `Err(message)` blocks it.
    fn validate(&self, method_name: &str, args: &[String]) -> Result<(), String>;

    /// A scrubbed copy of `output`, or `None` to leave it as it is.
    fn redact(&self, output: &str) -> (r: Option<String>)
        default_ensures
            r is None,
    {
        None
    }
}

} // verus!
