//! Properties of the engine that hold for every engine, method and argument
//! list, proved over the models the executable functions are specified by.
use crate::engine::{
    authorized, block_message, config_allowed, config_outcome, custom_model, inspect_outcome,
    policy_outcome, run_plugins, tool_limits, tools_allowed, tools_limits, tools_patterns,
    unauthorized_message, EngineConfig, EngineModel, PolicyLayout, ToolPolicyLayout,
};
use crate::limits::{breaks, first_broken_limit, limit_violation, LimitModel};
use crate::signature::{any_hit, hit, views, MatchKind};
use crate::PluginModel;
use vstd::prelude::*;

verus! {

/// No signature of any plugin matches any argument.
pub open spec fn clean(plugins: Seq<PluginModel>, args: Seq<Seq<char>>) -> bool {
    forall|k: int| 0 <= k < plugins.len() ==> !any_hit(#[trigger] plugins[k].kind, plugins[k].patterns, args)
}

/// The plugins find nothing exactly when no signature matches any argument.
pub proof fn lemma_run_plugins_none(plugins: Seq<PluginModel>, args: Seq<Seq<char>>)
    ensures
        run_plugins(plugins, args) is None <==> clean(plugins, args),
    decreases plugins.len(),
{
    if plugins.len() > 0 {
        lemma_run_plugins_none(plugins.drop_first(), args);
        if clean(plugins.drop_first(), args) && !any_hit(plugins[0].kind, plugins[0].patterns, args) {
            assert forall|k: int| 0 <= k < plugins.len() implies !any_hit(
                #[trigger] plugins[k].kind,
                plugins[k].patterns,
                args,
            ) by {
                if k > 0 {
                    assert(plugins[k] == plugins.drop_first()[k - 1]);
                }
            }
        }
        if clean(plugins, args) {
            assert forall|k: int| 0 <= k < plugins.drop_first().len() implies !any_hit(
                #[trigger] plugins.drop_first()[k].kind,
                plugins.drop_first()[k].patterns,
                args,
            ) by {
                assert(plugins.drop_first()[k] == plugins[k + 1]);
            }
            assert(!any_hit(plugins[0].kind, plugins[0].patterns, args));
        }
    }
}

/// With no limits, no keyword argument breaks one.
pub proof fn lemma_no_limits(method: Seq<char>, kwargs: Seq<(Seq<char>, Option<Seq<char>>)>)
    ensures
        limit_violation(seq![], method, kwargs) is None,
    decreases kwargs.len(),
{
    if kwargs.len() > 0 {
        lemma_no_limits(method, kwargs.drop_first());
    }
}

/// A keyword argument that breaks some limit breaks a first one.
pub proof fn lemma_first_broken_some(
    limits: Seq<LimitModel>,
    method: Seq<char>,
    name: Seq<char>,
    value: Option<Seq<char>>,
    idx: int,
)
    requires
        0 <= idx < limits.len(),
        breaks(limits[idx], method, name, value),
    ensures
        first_broken_limit(limits, method, name, value) is Some,
    decreases idx,
{
    if idx > 0 && !breaks(limits[0], method, name, value) {
        assert(limits.drop_first()[idx - 1] == limits[idx]);
        lemma_first_broken_some(limits.drop_first(), method, name, value, idx - 1);
    }
}

/// When some keyword argument breaks a limit, the call has a limit violation.
pub proof fn lemma_limit_violation_some(
    limits: Seq<LimitModel>,
    method: Seq<char>,
    kwargs: Seq<(Seq<char>, Option<Seq<char>>)>,
    k: int,
)
    requires
        0 <= k < kwargs.len(),
        first_broken_limit(limits, method, kwargs[k].0, kwargs[k].1) is Some,
    ensures
        limit_violation(limits, method, kwargs) is Some,
    decreases k,
{
    if k > 0 && first_broken_limit(limits, method, kwargs[0].0, kwargs[0].1) is None {
        assert(kwargs.drop_first()[k - 1] == kwargs[k]);
        lemma_limit_violation_some(limits, method, kwargs.drop_first(), k - 1);
    }
}

/// The limits of tool `t` stand among the limits of the whole policy.
pub proof fn lemma_tool_limit_in_policy(tools: Seq<ToolPolicyLayout>, t: int, p: int)
    requires
        0 <= t < tools.len(),
        0 <= p < tool_limits(tools[t]).len(),
    ensures
        exists|idx: int|
            0 <= idx < tools_limits(tools).len() && #[trigger] tools_limits(tools)[idx] == tool_limits(
                tools[t],
            )[p],
{
    let g = |x: ToolPolicyLayout| tool_limits(x);
    let front = tools.take(t).map_values(g);
    let back = tools.skip(t + 1).map_values(g);
    let mid: Seq<Seq<LimitModel>> = seq![tool_limits(tools[t])];
    assert(tools.map_values(g) =~= front + mid + back);
    vstd::seq_lib::lemma_flatten_concat(front + mid, back);
    vstd::seq_lib::lemma_flatten_concat(front, mid);
    mid.lemma_flatten_one_element();
    let idx = front.flatten().len() + p;
    assert(tools_limits(tools)[idx] == tool_limits(tools[t])[p]);
}

/// A method the engine does not allow is refused with the unauthorized-target
/// message, whatever the arguments.
pub proof fn law_unlisted_method_refused(
    e: EngineModel,
    method: Seq<char>,
    args: Seq<Seq<char>>,
    kwargs: Seq<(Seq<char>, Option<Seq<char>>)>,
    exceeded: Seq<Seq<char>>,
)
    requires
        !authorized(e, method),
    ensures
        inspect_outcome(e, method, args, kwargs, exceeded) == Err::<bool, Seq<char>>(
            unauthorized_message(method),
        ),
{
}

/// An engine built from a configuration allows exactly the methods it lists:
/// every other method is refused, also when the list is empty or missing.
pub proof fn law_configured_engine_allows_only_listed(
    config: EngineConfig,
    method: Seq<char>,
    args: Seq<Seq<char>>,
    kwargs: Seq<(Seq<char>, Option<Seq<char>>)>,
    exceeded: Seq<Seq<char>>,
)
    requires
        config_outcome(Some(config)) is Ok,
        !config_allowed(config).contains(method),
    ensures
        inspect_outcome(config_outcome(Some(config))->Ok_0, method, args, kwargs, exceeded)
            == Err::<bool, Seq<char>>(unauthorized_message(method)),
{
}

/// An engine built from a policy file allows exactly the methods its tools
/// list: every other method is refused.
pub proof fn law_policy_engine_allows_only_listed(
    layout: PolicyLayout,
    method: Seq<char>,
    args: Seq<Seq<char>>,
    kwargs: Seq<(Seq<char>, Option<Seq<char>>)>,
    exceeded: Seq<Seq<char>>,
)
    requires
        policy_outcome(Some(layout)) is Ok,
        !tools_allowed(layout.tools@).contains(method),
    ensures
        inspect_outcome(policy_outcome(Some(layout))->Ok_0, method, args, kwargs, exceeded)
            == Err::<bool, Seq<char>>(unauthorized_message(method)),
{
}

/// A call passes exactly when its method is allowed, no keyword argument
/// breaks a limit, no parameter exceeds its maximum and no signature of any
/// plugin matches any argument; a call is never answered `Ok(false)`.
pub proof fn law_pass_iff_authorized_and_clean(
    e: EngineModel,
    method: Seq<char>,
    args: Seq<Seq<char>>,
    kwargs: Seq<(Seq<char>, Option<Seq<char>>)>,
    exceeded: Seq<Seq<char>>,
)
    ensures
        inspect_outcome(e, method, args, kwargs, exceeded) == Ok::<bool, Seq<char>>(true) <==> (
        authorized(e, method) && limit_violation(e.limits, method, kwargs) is None && exceeded.len()
            == 0 && clean(e.plugins, args)),
        inspect_outcome(e, method, args, kwargs, exceeded) != Ok::<bool, Seq<char>>(false),
{
    lemma_run_plugins_none(e.plugins, args);
}

/// Once the method, the keyword limits and the maximums pass, whether a call
/// is blocked is decided argument by argument: it is blocked exactly when some
/// single argument, passed alone, would be blocked.
pub proof fn law_blocked_iff_some_argument_blocked(
    e: EngineModel,
    method: Seq<char>,
    args: Seq<Seq<char>>,
    kwargs: Seq<(Seq<char>, Option<Seq<char>>)>,
)
    requires
        authorized(e, method),
        limit_violation(e.limits, method, kwargs) is None,
    ensures
        inspect_outcome(e, method, args, kwargs, seq![]) is Err <==> exists|i: int|
            0 <= i < args.len() && (#[trigger] inspect_outcome(e, method, seq![args[i]], kwargs, seq![])) is Err,
{
    lemma_run_plugins_none(e.plugins, args);
    if inspect_outcome(e, method, args, kwargs, seq![]) is Err {
        let k = choose|k: int| 0 <= k < e.plugins.len() && any_hit(#[trigger] e.plugins[k].kind, e.plugins[k].patterns, args);
        let (i, j) = choose|i: int, j: int| hit(e.plugins[k].kind, e.plugins[k].patterns, args, i, j);
        assert(hit(e.plugins[k].kind, e.plugins[k].patterns, seq![args[i]], 0, j));
        lemma_run_plugins_none(e.plugins, seq![args[i]]);
        assert(inspect_outcome(e, method, seq![args[i]], kwargs, seq![]) is Err);
    }
    if exists|i: int| 0 <= i < args.len() && (#[trigger] inspect_outcome(e, method, seq![args[i]], kwargs, seq![])) is Err {
        let i = choose|i: int| 0 <= i < args.len() && (#[trigger] inspect_outcome(e, method, seq![args[i]], kwargs, seq![])) is Err;
        lemma_run_plugins_none(e.plugins, seq![args[i]]);
        let k = choose|k: int| 0 <= k < e.plugins.len() && any_hit(#[trigger] e.plugins[k].kind, e.plugins[k].patterns, seq![args[i]]);
        let (i2, j) = choose|i2: int, j: int| hit(e.plugins[k].kind, e.plugins[k].patterns, seq![args[i]], i2, j);
        assert(hit(e.plugins[k].kind, e.plugins[k].patterns, args, i, j));
    }
}

/// Adding string arguments to a blocked call never lets it through.
pub proof fn law_more_arguments_stay_blocked(
    e: EngineModel,
    method: Seq<char>,
    args: Seq<Seq<char>>,
    more: Seq<Seq<char>>,
    kwargs: Seq<(Seq<char>, Option<Seq<char>>)>,
    exceeded: Seq<Seq<char>>,
)
    requires
        inspect_outcome(e, method, args, kwargs, exceeded) is Err,
    ensures
        inspect_outcome(e, method, args + more, kwargs, exceeded) is Err,
{
    lemma_run_plugins_none(e.plugins, args);
    lemma_run_plugins_none(e.plugins, args + more);
    if authorized(e, method) && limit_violation(e.limits, method, kwargs) is None && exceeded.len() == 0 {
        let k = choose|k: int| 0 <= k < e.plugins.len() && any_hit(#[trigger] e.plugins[k].kind, e.plugins[k].patterns, args);
        let (i, j) = choose|i: int, j: int| hit(e.plugins[k].kind, e.plugins[k].patterns, args, i, j);
        assert(hit(e.plugins[k].kind, e.plugins[k].patterns, args + more, i, j));
    }
}

/// In an engine built from a configuration with denied texts, a call of a
/// listed method in which a denied text occurs (ignoring case) is blocked by
/// the user plugin, which runs before the built-in ones, with a
/// destructive-command message.
pub proof fn law_config_denied_text_blocks(
    config: EngineConfig,
    method: Seq<char>,
    args: Seq<Seq<char>>,
    kwargs: Seq<(Seq<char>, Option<Seq<char>>)>,
    i: int,
    j: int,
)
    requires
        config_outcome(Some(config)) is Ok,
        config.denied_patterns is Some,
        hit(MatchKind::Substring, views(config.denied_patterns.unwrap()@), args, i, j),
        config_allowed(config).contains(method),
    ensures
        inspect_outcome(config_outcome(Some(config))->Ok_0, method, args, kwargs, seq![]) == Err::<
            bool,
            Seq<char>,
        >(
            block_message(
                "user_custom_rules"@,
                custom_model(MatchKind::Substring, views(config.denied_patterns.unwrap()@)).outcome(
                    args,
                ).unwrap(),
            ),
        ),
{
    let e = config_outcome(Some(config))->Ok_0;
    lemma_no_limits(method, kwargs);
    assert(e.limits =~= seq![]);
    assert(e.plugins[0] == custom_model(MatchKind::Substring, views(config.denied_patterns.unwrap()@)));
}

/// In an engine built from a policy file, a call of a listed method with an
/// argument that some tool's denied pattern matches is blocked.
pub proof fn law_policy_denied_pattern_blocks(
    layout: PolicyLayout,
    method: Seq<char>,
    args: Seq<Seq<char>>,
    kwargs: Seq<(Seq<char>, Option<Seq<char>>)>,
    exceeded: Seq<Seq<char>>,
    i: int,
    j: int,
)
    requires
        policy_outcome(Some(layout)) is Ok,
        hit(MatchKind::Regex, tools_patterns(layout.tools@), args, i, j),
    ensures
        inspect_outcome(policy_outcome(Some(layout))->Ok_0, method, args, kwargs, exceeded) is Err,
{
    let e = policy_outcome(Some(layout))->Ok_0;
    let k = e.plugins.len() - 1;
    assert(e.plugins[k] == custom_model(MatchKind::Regex, tools_patterns(layout.tools@)));
    assert(any_hit(e.plugins[k].kind, e.plugins[k].patterns, args));
    lemma_run_plugins_none(e.plugins, args);
}

/// In an engine built from a policy file, a call of a tool's method that
/// passes a keyword parameter limited to an exact value with any other value
/// (or a value that is not a string) is blocked.
pub proof fn law_policy_exact_limit_blocks(
    layout: PolicyLayout,
    method: Seq<char>,
    args: Seq<Seq<char>>,
    kwargs: Seq<(Seq<char>, Option<Seq<char>>)>,
    exceeded: Seq<Seq<char>>,
    t: int,
    p: int,
    k: int,
)
    requires
        policy_outcome(Some(layout)) is Ok,
        0 <= t < layout.tools@.len(),
        views(layout.tools@[t].allowed_methods@).contains(method),
        0 <= p < layout.tools@[t].exact_params@.len(),
        0 <= k < kwargs.len(),
        kwargs[k].0 == layout.tools@[t].exact_params@[p].0@,
        kwargs[k].1 != Some(layout.tools@[t].exact_params@[p].1@),
    ensures
        inspect_outcome(policy_outcome(Some(layout))->Ok_0, method, args, kwargs, exceeded) is Err,
{
    let tools = layout.tools@;
    let e = policy_outcome(Some(layout))->Ok_0;
    assert(tools_allowed(tools).contains(method));
    let l = tool_limits(tools[t])[p];
    assert(breaks(l, method, kwargs[k].0, kwargs[k].1));
    lemma_tool_limit_in_policy(tools, t, p);
    let idx = choose|idx: int|
        0 <= idx < tools_limits(tools).len() && #[trigger] tools_limits(tools)[idx] == l;
    lemma_first_broken_some(e.limits, method, kwargs[k].0, kwargs[k].1, idx);
    lemma_limit_violation_some(e.limits, method, kwargs, k);
}

/// Plugin lists whose plugins have the same names and report the same
/// violations on these arguments reach the same result.
pub proof fn lemma_run_plugins_alike(p1: Seq<PluginModel>, p2: Seq<PluginModel>, args: Seq<Seq<char>>)
    requires
        p1.len() == p2.len(),
        forall|k: int|
            0 <= k < p1.len() ==> (#[trigger] p1[k]).name == p2[k].name && p1[k].outcome(args)
                == p2[k].outcome(args),
    ensures
        run_plugins(p1, args) == run_plugins(p2, args),
    decreases p1.len(),
{
    if p1.len() > 0 {
        assert(p1[0].name == p2[0].name);
        assert forall|k: int| 0 <= k < p1.drop_first().len() implies (#[trigger] p1.drop_first()[k]).name
            == p2.drop_first()[k].name && p1.drop_first()[k].outcome(args) == p2.drop_first()[k].outcome(
            args,
        ) by {
            assert(p1.drop_first()[k] == p1[k + 1]);
            assert(p2.drop_first()[k] == p2[k + 1]);
        }
        lemma_run_plugins_alike(p1.drop_first(), p2.drop_first(), args);
    }
}

/// Two engines that allow the same methods, hold the same limits and whose
/// plugins, in order, have the same names and report the same violations on
/// a call's arguments give that call the same answer. The verdict depends on
/// nothing but the engine's behaviour and the call.
pub proof fn law_alike_engines_give_equal_verdicts(
    e1: EngineModel,
    e2: EngineModel,
    method: Seq<char>,
    args: Seq<Seq<char>>,
    kwargs: Seq<(Seq<char>, Option<Seq<char>>)>,
    exceeded: Seq<Seq<char>>,
)
    requires
        authorized(e1, method) == authorized(e2, method),
        e1.limits == e2.limits,
        e1.plugins.len() == e2.plugins.len(),
        forall|k: int|
            0 <= k < e1.plugins.len() ==> (#[trigger] e1.plugins[k]).name == e2.plugins[k].name
                && e1.plugins[k].outcome(args) == e2.plugins[k].outcome(args),
    ensures
        inspect_outcome(e1, method, args, kwargs, exceeded) == inspect_outcome(
            e2,
            method,
            args,
            kwargs,
            exceeded,
        ),
{
    lemma_run_plugins_alike(e1.plugins, e2.plugins, args);
}

} // verus!
