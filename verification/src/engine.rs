//! The engine: an allow-list of tool methods, exact-value limits on keyword
//! parameters, and the plugins every call runs through, with the user's own
//! pattern plugin.
use crate::limits::{
    check_limits, contains_string, keyword_views, limit_models, limit_violation, max_message,
    LimitModel, ParamLimit,
};
use crate::plugins::{
    check_default_signatures, default_check_outcome, default_models, get_default_plugins, models,
    Plugin,
};
use crate::signature::{
    agrees, all_compile, check_outcome, check_patterns, signature_violation, usable, views,
    MatchKind,
};
use crate::{PluginModel, SecurityPlugin};
use vstd::prelude::*;

verus! {

/// The text that opens a violation message of the user plugin: patterns given
/// as text report a destructive command; patterns given as regular
/// expressions report a local rule.
pub open spec fn custom_prefix(kind: MatchKind) -> Seq<char> {
    match kind {
        MatchKind::Substring => "Destructive command anomaly detected: '"@,
        MatchKind::Regex => "Custom local restriction rule triggered: '"@,
    }
}

/// The model of a user plugin with these patterns, read as `kind` says.
pub open spec fn custom_model(kind: MatchKind, patterns: Seq<Seq<char>>) -> PluginModel {
    PluginModel { name: "user_custom_rules"@, prefix: custom_prefix(kind), kind, patterns }
}

/// The user's own patterns, matched ignoring case: either as text that must
/// occur in an argument, or as regular expressions.
pub struct CustomUserPlugin {
    kind: MatchKind,
    patterns: Vec<String>,
}

impl CustomUserPlugin {
    /// The patterns can be used as the plugin reads them.
    #[verifier::type_invariant]
    spec fn well_formed(self) -> bool {
        usable(self.kind, views(self.patterns@))
    }

    /// The plugin's name, message prefix, pattern reading and patterns.
    pub closed spec fn model(self) -> PluginModel {
        custom_model(self.kind, views(self.patterns@))
    }

    /// A plugin that blocks an argument in which one of `raw_patterns` occurs,
    /// ignoring case. Every string is a valid pattern, so this never fails.
    pub fn new(raw_patterns: Vec<String>) -> (r: Result<Self, String>)
        ensures
            r matches Ok(p) && p.model() == custom_model(MatchKind::Substring, views(raw_patterns@)),
    {
        Ok(CustomUserPlugin { kind: MatchKind::Substring, patterns: raw_patterns })
    }

    /// A plugin that blocks an argument that one of `raw_patterns`, read as a
    /// case-insensitive regular expression, matches; fails on the first
    /// pattern that does not compile, with `Invalid regex '<pattern>': <error>`.
    pub fn from_regexes(raw_patterns: Vec<String>) -> (r: Result<Self, String>)
        ensures
            r is Ok <==> all_compile(views(raw_patterns@)),
            r matches Ok(p) ==> p.model() == custom_model(MatchKind::Regex, views(raw_patterns@)),
            r matches Err(m) ==> check_outcome(views(raw_patterns@)) == Some(m@),
    {
        match check_patterns(&raw_patterns) {
            Ok(()) => Ok(CustomUserPlugin { kind: MatchKind::Regex, patterns: raw_patterns }),
            Err(e) => Err(e),
        }
    }
}

impl SecurityPlugin for CustomUserPlugin {
    fn name(&self) -> (r: &str)
        ensures
            r@ == self.model().name,
    {
        "user_custom_rules"
    }

    fn validate(&self, method_name: &str, args: &[String]) -> (r: Result<(), String>)
        ensures
            agrees(r, self.model().outcome(views(args@))),
    {
        proof {
            use_type_invariant(self);
        }
        let prefix = match self.kind {
            MatchKind::Substring => "Destructive command anomaly detected: '",
            MatchKind::Regex => "Custom local restriction rule triggered: '",
        };
        signature_violation(self.kind, &self.patterns, args, prefix)
    }
}

/// The settings an engine is built from: an allow-list of methods (none
/// allowed when unset), whether the built-in plugins run (they do when
/// unset), and the user's denied texts.
pub struct EngineConfig {
    pub allowed_methods: Option<Vec<String>>,
    pub enforce_defaults: Option<bool>,
    pub denied_patterns: Option<Vec<String>>,
}

/// The policy of one tool in a policy file: its methods, the regular
/// expressions denied in their arguments, and keyword parameters of its
/// methods that must take one exact value (name, value).
pub struct ToolPolicyLayout {
    pub allowed_methods: Vec<String>,
    pub denied_patterns: Vec<String>,
    pub exact_params: Vec<(String, String)>,
}

/// A policy file: whether the built-in plugins run, and the tools' policies.
pub struct PolicyLayout {
    pub enforce_defaults: bool,
    pub tools: Vec<ToolPolicyLayout>,
}

/// What an engine is, as the contracts see it: whether every method may be
/// called (an engine built without any configuration), the allowed methods
/// otherwise, the exact-value limits on keyword parameters, and the plugins,
/// in run order.
#[verifier::ext_equal]
pub struct EngineModel {
    pub allow_all: bool,
    pub allowed: Set<Seq<char>>,
    pub limits: Seq<LimitModel>,
    pub plugins: Seq<PluginModel>,
}

/// The message for a method outside the allow-list.
pub open spec fn unauthorized_message(method: Seq<char>) -> Seq<char> {
    "ARGALA BLOCK: Unauthorized tool target '"@ + method + "'"@
}

/// The message for a call that a plugin blocks.
pub open spec fn block_message(plugin_name: Seq<char>, violation: Seq<char>) -> Seq<char> {
    "ARGALA BLOCK ["@ + plugin_name + "] -> "@ + violation
}

/// Runs the plugins in order; the first that reports a violation blocks.
pub open spec fn run_plugins(plugins: Seq<PluginModel>, args: Seq<Seq<char>>) -> Option<Seq<char>>
    decreases plugins.len(),
{
    if plugins.len() == 0 {
        None
    } else {
        match plugins[0].outcome(args) {
            Some(m) => Some(block_message(plugins[0].name, m)),
            None => run_plugins(plugins.drop_first(), args),
        }
    }
}

/// The engine lets `method` be called.
pub open spec fn authorized(e: EngineModel, method: Seq<char>) -> bool {
    e.allow_all || e.allowed.contains(method)
}

/// The verdict on a call of `method` with the string arguments `args`, the
/// keyword arguments `kwargs` and the keyword parameters `exceeded` whose
/// numeric maximum the call exceeds: a method the engine does not allow is
/// refused first; then the first keyword argument that breaks an exact-value
/// limit blocks; then the first parameter above its maximum; then the first
/// plugin that finds a violation; otherwise the call passes.
pub open spec fn inspect_outcome(
    e: EngineModel,
    method: Seq<char>,
    args: Seq<Seq<char>>,
    kwargs: Seq<(Seq<char>, Option<Seq<char>>)>,
    exceeded: Seq<Seq<char>>,
) -> Result<bool, Seq<char>> {
    if !authorized(e, method) {
        Err(unauthorized_message(method))
    } else if limit_violation(e.limits, method, kwargs) is Some {
        Err(limit_violation(e.limits, method, kwargs).unwrap())
    } else if exceeded.len() > 0 {
        Err(max_message(exceeded[0]))
    } else {
        match run_plugins(e.plugins, args) {
            Some(m) => Err(m),
            None => Ok(true),
        }
    }
}

/// An executable verdict agrees with a spec verdict.
pub open spec fn same_verdict(r: Result<bool, String>, o: Result<bool, Seq<char>>) -> bool {
    match r {
        Ok(b) => o == Ok::<bool, Seq<char>>(b),
        Err(m) => o == Err::<bool, Seq<char>>(m@),
    }
}

/// An executable engine result agrees with a spec one.
pub open spec fn same_engine(r: Result<ArgalaEngine, String>, o: Result<EngineModel, Seq<char>>) -> bool {
    match r {
        Ok(e) => o == Ok::<EngineModel, Seq<char>>(e.model()),
        Err(m) => o == Err::<EngineModel, Seq<char>>(m@),
    }
}

/// The engine built without any configuration: every method may be called
/// and the built-in plugins run; or the message for the first built-in
/// signature that does not compile.
pub open spec fn unconfigured_outcome() -> Result<EngineModel, Seq<char>> {
    if default_check_outcome() is Some {
        Err(default_check_outcome().unwrap())
    } else {
        Ok(EngineModel { allow_all: true, allowed: Set::empty(), limits: seq![], plugins: default_models() })
    }
}

/// The allowed methods a configuration sets (none when unset).
pub open spec fn config_allowed(c: EngineConfig) -> Set<Seq<char>> {
    match c.allowed_methods {
        Some(v) => views(v@).to_set(),
        None => Set::empty(),
    }
}

/// Whether a configuration runs the built-in plugins (yes when unset).
pub open spec fn config_enforces_defaults(c: EngineConfig) -> bool {
    match c.enforce_defaults {
        Some(b) => b,
        None => true,
    }
}

/// The user plugins a configuration gives: one reading its denied texts as
/// text, when there are denied texts.
pub open spec fn config_custom(c: EngineConfig) -> Seq<PluginModel> {
    match c.denied_patterns {
        Some(v) => seq![custom_model(MatchKind::Substring, views(v@))],
        None => seq![],
    }
}

/// The engine a configuration yields (`None`: no configuration at all). A
/// configuration allows exactly its listed methods; the user plugin runs
/// first, then the built-in plugins when enforced.
pub open spec fn config_outcome(config: Option<EngineConfig>) -> Result<EngineModel, Seq<char>> {
    match config {
        None => unconfigured_outcome(),
        Some(c) => {
            let defaults: Seq<PluginModel> = if config_enforces_defaults(c) {
                default_models()
            } else {
                seq![]
            };
            if config_enforces_defaults(c) && default_check_outcome() is Some {
                Err(default_check_outcome().unwrap())
            } else {
                Ok(
                    EngineModel {
                        allow_all: false,
                        allowed: config_allowed(c),
                        limits: seq![],
                        plugins: config_custom(c) + defaults,
                    },
                )
            }
        },
    }
}

/// The methods that some tool of a policy allows.
pub open spec fn tools_allowed(tools: Seq<ToolPolicyLayout>) -> Set<Seq<char>> {
    Set::new(
        |m: Seq<char>|
            exists|t: int| 0 <= t < tools.len() && views(tools[t].allowed_methods@).contains(m),
    )
}

/// The denied patterns of all tools of a policy, tool after tool.
pub open spec fn tools_patterns(tools: Seq<ToolPolicyLayout>) -> Seq<Seq<char>> {
    tools.map_values(|t: ToolPolicyLayout| views(t.denied_patterns@)).flatten()
}

/// The exact-value limits of one tool: each covers all of the tool's methods.
pub open spec fn tool_limits(t: ToolPolicyLayout) -> Seq<LimitModel> {
    t.exact_params@.map_values(
        |pv: (String, String)|
            LimitModel { methods: views(t.allowed_methods@), param: pv.0@, value: pv.1@ },
    )
}

/// The exact-value limits of all tools of a policy, tool after tool.
pub open spec fn tools_limits(tools: Seq<ToolPolicyLayout>) -> Seq<LimitModel> {
    tools.map_values(|t: ToolPolicyLayout| tool_limits(t)).flatten()
}

/// The engine a policy file yields (`None`: no policy file, which is the
/// engine built without any configuration). With a file, exactly the methods
/// of its tools are allowed, their exact-value limits hold, the built-in
/// plugins run first (when enforced), then one user plugin reading the
/// patterns of all tools as regular expressions (when there are any).
pub open spec fn policy_outcome(layout: Option<PolicyLayout>) -> Result<EngineModel, Seq<char>> {
    match layout {
        None => unconfigured_outcome(),
        Some(l) => {
            let pats = tools_patterns(l.tools@);
            let defaults: Seq<PluginModel> = if l.enforce_defaults {
                default_models()
            } else {
                seq![]
            };
            let custom: Seq<PluginModel> = if pats.len() > 0 {
                seq![custom_model(MatchKind::Regex, pats)]
            } else {
                seq![]
            };
            if l.enforce_defaults && default_check_outcome() is Some {
                Err(default_check_outcome().unwrap())
            } else if pats.len() > 0 && check_outcome(pats) is Some {
                Err(check_outcome(pats).unwrap())
            } else {
                Ok(
                    EngineModel {
                        allow_all: false,
                        allowed: tools_allowed(l.tools@),
                        limits: tools_limits(l.tools@),
                        plugins: defaults + custom,
                    },
                )
            }
        },
    }
}

/// The policy engine: which methods may be called, exact-value limits on
/// keyword parameters, and the plugins that every call runs through.
pub struct ArgalaEngine {
    allow_all: bool,
    allowed_methods: Vec<String>,
    limits: Vec<ParamLimit>,
    plugins: Vec<Plugin>,
}

/// Appends the strings of `more` that `v` does not hold yet.
fn extend_unique(v: &mut Vec<String>, more: &Vec<String>)
    requires
        views(old(v)@).no_duplicates(),
    ensures
        views(final(v)@).no_duplicates(),
        views(final(v)@).to_set() == views(old(v)@).to_set() + views(more@).to_set(),
{
    broadcast use vstd::seq_lib::group_seq_properties;

    let n = more.len();
    let mut k: usize = 0;
    while k < n
        invariant
            n == more@.len(),
            k <= n,
            views(v@).no_duplicates(),
            views(v@).to_set() == views(old(v)@).to_set() + views(more@.take(k as int)).to_set(),
        decreases n - k,
    {
        let s = more[k].clone();
        let ghost before = views(v@);
        let ghost took = views(more@.take(k as int));
        assert(views(more@.take(k + 1)) =~= took.push(s@));
        proof {
            took.lemma_push_to_set_commute(s@);
        }
        if !contains_string(v, s.as_str()) {
            v.push(s);
            assert(views(v@) =~= before.push(s@));
            proof {
                before.lemma_push_to_set_commute(s@);
                assert forall|i: int, j: int|
                    0 <= i < views(v@).len() && 0 <= j < views(v@).len() && i != j implies views(v@)[i]
                    != views(v@)[j] by {
                    if i == before.len() as int {
                        assert(before.contains(views(v@)[j]));
                    } else if j == before.len() as int {
                        assert(before.contains(views(v@)[i]));
                    }
                }
            }
        } else {
            assert(before.to_set().contains(s@));
        }
        assert(views(v@).to_set() =~= views(old(v)@).to_set() + views(more@.take(k + 1)).to_set());
        k = k + 1;
    }
    assert(more@.take(n as int) =~= more@);
}

/// Appends copies of the strings of `more` to `v`.
fn append_strings(v: &mut Vec<String>, more: &Vec<String>)
    ensures
        views(final(v)@) == views(old(v)@) + views(more@),
{
    let n = more.len();
    let mut k: usize = 0;
    while k < n
        invariant
            n == more@.len(),
            k <= n,
            views(v@) == views(old(v)@) + views(more@.take(k as int)),
        decreases n - k,
    {
        let ghost before = views(v@);
        v.push(more[k].clone());
        assert(views(more@.take(k + 1)) =~= views(more@.take(k as int)).push(more@[k as int]@));
        assert(views(v@) =~= before.push(more@[k as int]@));
        assert(views(v@) =~= views(old(v)@) + views(more@.take(k + 1)));
        k = k + 1;
    }
    assert(more@.take(n as int) =~= more@);
}

impl ArgalaEngine {
    /// No method occurs twice in the allow-list.
    #[verifier::type_invariant]
    spec fn well_formed(self) -> bool {
        views(self.allowed_methods@).no_duplicates()
    }

    /// Whether every method may be called, the allowed methods, the limits and
    /// the plugins' models.
    pub closed spec fn model(self) -> EngineModel {
        EngineModel {
            allow_all: self.allow_all,
            allowed: views(self.allowed_methods@).to_set(),
            limits: limit_models(self.limits@),
            plugins: models(self.plugins@),
        }
    }

    /// The engine built without any configuration.
    fn unconfigured() -> (r: Result<Self, String>)
        ensures
            same_engine(r, unconfigured_outcome()),
    {
        if let Err(e) = check_default_signatures() {
            return Err(e);
        }
        let engine = ArgalaEngine {
            allow_all: true,
            allowed_methods: Vec::new(),
            limits: Vec::new(),
            plugins: get_default_plugins(),
        };
        assert(engine.model().allowed =~= Set::<Seq<char>>::empty());
        assert(engine.model().limits =~= Seq::<LimitModel>::empty());
        Ok(engine)
    }

    /// An engine built from `config` (`None`: no configuration at all).
    pub fn new(config: Option<EngineConfig>) -> (r: Result<Self, String>)
        ensures
            same_engine(r, config_outcome(config)),
    {
        match config {
            None => Self::unconfigured(),
            Some(c) => {
                let ghost cfg = c;
                let mut allowed: Vec<String> = Vec::new();
                let mut plugins: Vec<Plugin> = Vec::new();
                let mut enforce_defaults = true;
                if let Some(methods) = c.allowed_methods {
                    extend_unique(&mut allowed, &methods);
                }
                if let Some(flag) = c.enforce_defaults {
                    enforce_defaults = flag;
                }
                if let Some(patterns) = c.denied_patterns {
                    match CustomUserPlugin::new(patterns) {
                        Ok(p) => plugins.push(Plugin::Custom(p)),
                        Err(e) => return Err(e),
                    }
                }
                if enforce_defaults {
                    if let Err(e) = check_default_signatures() {
                        return Err(e);
                    }
                    let mut defaults = get_default_plugins();
                    plugins.append(&mut defaults);
                }
                let engine = ArgalaEngine {
                    allow_all: false,
                    allowed_methods: allowed,
                    limits: Vec::new(),
                    plugins,
                };
                assert(engine.model().allowed =~= config_allowed(cfg));
                assert(engine.model().limits =~= Seq::<LimitModel>::empty());
                assert(engine.model().plugins =~= config_outcome(Some(cfg))->Ok_0.plugins);
                Ok(engine)
            },
        }
    }

    /// An engine built from a policy file (`None`: there is no policy file).
    pub fn from_policy_layout(layout: Option<PolicyLayout>) -> (r: Result<Self, String>)
        ensures
            same_engine(r, policy_outcome(layout)),
    {
        let ghost lay = layout;
        match layout {
            None => Self::unconfigured(),
            Some(l) => {
                let mut plugins: Vec<Plugin> = Vec::new();
                if l.enforce_defaults {
                    if let Err(e) = check_default_signatures() {
                        return Err(e);
                    }
                    plugins = get_default_plugins();
                }
                let ghost tools = l.tools@;
                let mut allowed: Vec<String> = Vec::new();
                let mut local: Vec<String> = Vec::new();
                let mut limits: Vec<ParamLimit> = Vec::new();
                let n = l.tools.len();
                let mut k: usize = 0;
                assert(tools.take(0) =~= Seq::<ToolPolicyLayout>::empty());
                assert(views(allowed@).to_set() =~= tools_allowed(tools.take(0)));
                assert(tools.take(0).map_values(|t: ToolPolicyLayout| views(t.denied_patterns@))
                    =~= Seq::<Seq<Seq<char>>>::empty());
                assert(tools.take(0).map_values(|t: ToolPolicyLayout| tool_limits(t))
                    =~= Seq::<Seq<LimitModel>>::empty());
                assert(limit_models(limits@) =~= Seq::<LimitModel>::empty());
                while k < n
                    invariant
                        n == tools.len(),
                        tools == l.tools@,
                        k <= n,
                        views(allowed@).no_duplicates(),
                        views(allowed@).to_set() == tools_allowed(tools.take(k as int)),
                        views(local@) == tools_patterns(tools.take(k as int)),
                        limit_models(limits@) == tools_limits(tools.take(k as int)),
                    decreases n - k,
                {
                    let tool = &l.tools[k];
                    extend_unique(&mut allowed, &tool.allowed_methods);
                    append_strings(&mut local, &tool.denied_patterns);
                    let ghost limits_before = limit_models(limits@);
                    let np = tool.exact_params.len();
                    let mut j: usize = 0;
                    while j < np
                        invariant
                            np == tool.exact_params@.len(),
                            j <= np,
                            limit_models(limits@) == limits_before + tool_limits(*tool).take(j as int),
                        decreases np - j,
                    {
                        let mut methods: Vec<String> = Vec::new();
                        append_strings(&mut methods, &tool.allowed_methods);
                        let limit = ParamLimit {
                            methods,
                            param: tool.exact_params[j].0.clone(),
                            value: tool.exact_params[j].1.clone(),
                        };
                        let ghost before = limit_models(limits@);
                        limits.push(limit);
                        assert(limit_models(limits@) =~= before.push(limit.model()));
                        assert(tool_limits(*tool).take(j + 1) =~= tool_limits(*tool).take(j as int).push(
                            limit.model(),
                        ));
                        j = j + 1;
                    }
                    assert(tool_limits(*tool).take(np as int) =~= tool_limits(*tool));
                    proof {
                        let t0 = tools.take(k as int);
                        let t1 = tools.take(k + 1);
                        assert(t1 =~= t0.push(tools[k as int]));
                        assert forall|m: Seq<char>|
                            tools_allowed(t1).contains(m) <==> (tools_allowed(t0).contains(m)
                                || views(tools[k as int].allowed_methods@).to_set().contains(m)) by {
                            if tools_allowed(t1).contains(m) {
                                let t = choose|t: int|
                                    0 <= t < t1.len() && views(t1[t].allowed_methods@).contains(m);
                                if t < k {
                                    assert(views(t0[t].allowed_methods@).contains(m));
                                }
                            }
                            if tools_allowed(t0).contains(m) {
                                let t = choose|t: int|
                                    0 <= t < t0.len() && views(t0[t].allowed_methods@).contains(m);
                                assert(views(t1[t].allowed_methods@).contains(m));
                            }
                            if views(tools[k as int].allowed_methods@).to_set().contains(m) {
                                assert(views(t1[k as int].allowed_methods@).contains(m));
                            }
                        }
                        assert(views(allowed@).to_set() =~= tools_allowed(t1));
                        let f = |t: ToolPolicyLayout| views(t.denied_patterns@);
                        assert(t1.map_values(f) =~= t0.map_values(f).push(views(tools[k as int].denied_patterns@)));
                        t0.map_values(f).lemma_flatten_push(views(tools[k as int].denied_patterns@));
                        let g = |t: ToolPolicyLayout| tool_limits(t);
                        assert(t1.map_values(g) =~= t0.map_values(g).push(tool_limits(tools[k as int])));
                        t0.map_values(g).lemma_flatten_push(tool_limits(tools[k as int]));
                    }
                    k = k + 1;
                }
                assert(tools.take(n as int) =~= tools);
                if local.len() > 0 {
                    match CustomUserPlugin::from_regexes(local) {
                        Ok(p) => plugins.push(Plugin::Custom(p)),
                        Err(e) => return Err(e),
                    }
                }
                let engine = ArgalaEngine { allow_all: false, allowed_methods: allowed, limits, plugins };
                assert(engine.model().allowed =~= policy_outcome(lay)->Ok_0.allowed);
                assert(engine.model().plugins =~= policy_outcome(lay)->Ok_0.plugins);
                Ok(engine)
            },
        }
    }

    /// Checks a call of `method_name` with the string arguments `args`
    /// (positional, then keyword), the keyword arguments `keyword_args` (each
    /// value `None` when it is not a string) and the keyword parameters
    /// `exceeded` whose numeric maximum the call exceeds: `Ok(true)` lets it
    /// through, `Err(message)` blocks it.
    pub fn inspect_payload(
        &self,
        method_name: &str,
        args: &[String],
        keyword_args: &[(String, Option<String>)],
        exceeded: &[String],
    ) -> (r: Result<bool, String>)
        ensures
            same_verdict(
                r,
                inspect_outcome(
                    self.model(),
                    method_name@,
                    views(args@),
                    keyword_views(keyword_args@),
                    views(exceeded@),
                ),
            ),
    {
        proof {
            use_type_invariant(self);
        }
        let ghost e = self.model();
        let ghost a = views(args@);
        if !self.allow_all && !contains_string(&self.allowed_methods, method_name) {
            let mut m = String::from_str("ARGALA BLOCK: Unauthorized tool target '");
            m.append(method_name);
            m.append("'");
            return Err(m);
        }
        if let Some(m) = check_limits(&self.limits, method_name, keyword_args) {
            return Err(m);
        }
        if exceeded.len() > 0 {
            let mut m = String::from_str("ARGALA BLOCK [param_limits] -> Parameter '");
            m.append(exceeded[0].as_str());
            m.append("' exceeds its maximum");
            return Err(m);
        }
        let ghost ms = models(self.plugins@);
        assert(ms.skip(0) =~= ms);
        let n = self.plugins.len();
        let mut k: usize = 0;
        while k < n
            invariant
                n == self.plugins@.len(),
                ms == models(self.plugins@),
                a == views(args@),
                e == self.model(),
                authorized(e, method_name@),
                limit_violation(e.limits, method_name@, keyword_views(keyword_args@)) is None,
                exceeded@.len() == 0,
                k <= n,
                run_plugins(ms, a) == run_plugins(ms.skip(k as int), a),
            decreases n - k,
        {
            let plugin = &self.plugins[k];
            assert(ms.skip(k as int)[0] == plugin.model());
            assert(ms.skip(k as int).drop_first() =~= ms.skip(k + 1));
            match plugin.validate(method_name, args) {
                Ok(()) => {},
                Err(violation) => {
                    assert(run_plugins(ms.skip(k as int), a) == Some(block_message(plugin.model().name, violation@)));
                    let mut m = String::from_str("ARGALA BLOCK [");
                    m.append(plugin.name());
                    m.append("] -> ");
                    m.append(violation.as_str());
                    return Err(m);
                },
            }
            k = k + 1;
        }
        assert(ms.skip(n as int) =~= Seq::<PluginModel>::empty());
        Ok(true)
    }

    /// Passes tool output through every plugin's scrubber in turn. No plugin
    /// in this crate scrubs, so the output comes back unchanged.
    pub fn redact_output(&self, raw_output: String) -> (r: String)
        ensures
            r@ == raw_output@,
    {
        let ghost original = raw_output@;
        let mut current = raw_output;
        let n = self.plugins.len();
        let mut k: usize = 0;
        while k < n
            invariant
                n == self.plugins@.len(),
                k <= n,
                current@ == original,
            decreases n - k,
        {
            if let Some(clean) = self.plugins[k].redact(current.as_str()) {
                current = clean;
            }
            k = k + 1;
        }
        current
    }
}

} // verus!
