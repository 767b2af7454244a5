//! What the pattern matching and the built-in plugins guarantee: text that
//! occurs in an argument is found whatever its case, a literal regular
//! expression matches where its text occurs, and an engine that runs the
//! built-in plugins blocks every argument that one of the listed signatures
//! matches.
use crate::engine::{
    authorized, config_enforces_defaults, config_outcome, inspect_outcome, policy_outcome,
    run_plugins, tools_patterns, EngineConfig, EngineModel, PolicyLayout,
};
use crate::laws::{law_config_denied_text_blocks, lemma_run_plugins_none};
use crate::limits::limit_violation;
use crate::plugins::default_models;
use crate::signature::{any_hit, hit, is_regex_literal, pattern_matches, views, MatchKind};
use crate::text::{ascii_lower, ascii_lower_char, contains_ignoring_case, contains_seq, is_ascii_text};
use vstd::prelude::*;

verus! {

/// Lowercasing ASCII text keeps every run of consecutive characters lined up.
pub proof fn lemma_ascii_lower_subrange(s: Seq<char>, i: int, j: int)
    requires
        0 <= i <= j <= s.len(),
    ensures
        ascii_lower(s).subrange(i, j) == ascii_lower(s.subrange(i, j)),
{
    assert(ascii_lower(s).subrange(i, j) =~= ascii_lower(s.subrange(i, j)));
}

/// Lowercasing ASCII text keeps it ASCII.
pub proof fn lemma_ascii_lower_ascii(s: Seq<char>)
    requires
        is_ascii_text(s),
    ensures
        is_ascii_text(ascii_lower(s)),
{
    assert forall|i: int| 0 <= i < ascii_lower(s).len() implies #[trigger] ascii_lower(s)[i] <= '\u{7f}' by {
        let c = s[i];
        assert(ascii_lower(s)[i] == ascii_lower_char(c));
    }
}

/// Text that occurs in an ASCII argument is found in it ignoring case: a
/// denied text is found wherever it stands in the argument, on any line.
pub proof fn law_text_in_argument_is_found(haystack: Seq<char>, needle: Seq<char>)
    requires
        is_ascii_text(haystack),
        is_ascii_text(needle),
        contains_seq(haystack, needle),
    ensures
        contains_ignoring_case(haystack, needle),
{
    let i = choose|i: int|
        0 <= i <= haystack.len() - needle.len() && #[trigger] haystack.subrange(i, i + needle.len()) == needle;
    lemma_ascii_lower_subrange(haystack, i, i + needle.len());
    let lh = crate::text::lower(haystack);
    let ln = crate::text::lower(needle);
    assert(lh == ascii_lower(haystack));
    assert(ln == ascii_lower(needle));
    assert(ln.len() == needle.len());
    assert(lh.subrange(i, i + ln.len()) == ln);
}

/// Case does not matter: ASCII text is found in an ASCII argument exactly
/// when it is found in the argument with its letters lowercased.
pub proof fn law_case_of_argument_does_not_matter(haystack: Seq<char>, needle: Seq<char>)
    requires
        is_ascii_text(haystack),
        is_ascii_text(needle),
    ensures
        contains_ignoring_case(haystack, needle) == contains_ignoring_case(ascii_lower(haystack), needle),
{
    lemma_ascii_lower_ascii(haystack);
    assert(ascii_lower(ascii_lower(haystack)) =~= ascii_lower(haystack));
}

/// A literal regular expression (ASCII, no meta characters) matches an ASCII
/// argument in which its text occurs, whatever the case of either, spaces
/// and all.
pub proof fn law_literal_regex_matches_its_text(pattern: Seq<char>, arg: Seq<char>)
    requires
        is_regex_literal(pattern),
        is_ascii_text(arg),
        contains_seq(arg, pattern),
    ensures
        pattern_matches(MatchKind::Regex, pattern, arg),
{
    law_text_in_argument_is_found(arg, pattern);
}

/// In an engine built from a configuration, a call of a listed method with an
/// ASCII argument in which an ASCII denied text occurs is blocked by the user
/// plugin.
pub proof fn law_config_denied_text_in_argument_blocks(
    config: EngineConfig,
    method: Seq<char>,
    args: Seq<Seq<char>>,
    kwargs: Seq<(Seq<char>, Option<Seq<char>>)>,
    i: int,
    j: int,
)
    requires
        config_outcome(Some(config)) is Ok,
        config.denied_patterns is Some,
        crate::engine::config_allowed(config).contains(method),
        0 <= i < args.len(),
        0 <= j < config.denied_patterns.unwrap()@.len(),
        is_ascii_text(args[i]),
        is_ascii_text(config.denied_patterns.unwrap()@[j]@),
        contains_seq(args[i], config.denied_patterns.unwrap()@[j]@),
    ensures
        inspect_outcome(config_outcome(Some(config))->Ok_0, method, args, kwargs, seq![]) is Err,
{
    let ps = views(config.denied_patterns.unwrap()@);
    assert(ps[j] == config.denied_patterns.unwrap()@[j]@);
    law_text_in_argument_is_found(args[i], ps[j]);
    assert(hit(MatchKind::Substring, ps, args, i, j));
    law_config_denied_text_blocks(config, method, args, kwargs, i, j);
}

/// In an engine built from a policy file, a call with an ASCII argument in
/// which the text of a literal denied pattern occurs, ignoring case, is
/// blocked.
pub proof fn law_policy_literal_pattern_in_argument_blocks(
    layout: PolicyLayout,
    method: Seq<char>,
    args: Seq<Seq<char>>,
    kwargs: Seq<(Seq<char>, Option<Seq<char>>)>,
    exceeded: Seq<Seq<char>>,
    i: int,
    j: int,
)
    requires
        policy_outcome(Some(layout)) is Ok,
        0 <= i < args.len(),
        0 <= j < tools_patterns(layout.tools@).len(),
        is_regex_literal(tools_patterns(layout.tools@)[j]),
        is_ascii_text(args[i]),
        contains_seq(ascii_lower(args[i]), ascii_lower(tools_patterns(layout.tools@)[j])),
    ensures
        inspect_outcome(policy_outcome(Some(layout))->Ok_0, method, args, kwargs, exceeded) is Err,
{
    assert(hit(MatchKind::Regex, tools_patterns(layout.tools@), args, i, j));
    crate::laws::law_policy_denied_pattern_blocks(layout, method, args, kwargs, exceeded, i, j);
}

/// The built-in plugins run, in their order, somewhere in the engine.
pub open spec fn runs_builtin_plugins(e: EngineModel) -> bool {
    exists|o: int| 0 <= o && o + 5 <= e.plugins.len() && #[trigger] e.plugins.subrange(o, o + 5) == default_models()
}

/// The engine built without any configuration runs the built-in plugins.
pub proof fn lemma_unconfigured_runs_builtin_plugins()
    requires
        config_outcome(None) is Ok,
    ensures
        runs_builtin_plugins(config_outcome(None)->Ok_0),
{
    let e = config_outcome(None)->Ok_0;
    let o: int = 0;
    assert(e.plugins.subrange(o, o + 5) =~= default_models());
}

/// An engine built from a configuration that enforces the defaults runs the
/// built-in plugins.
pub proof fn lemma_config_runs_builtin_plugins(config: EngineConfig)
    requires
        config_outcome(Some(config)) is Ok,
        config_enforces_defaults(config),
    ensures
        runs_builtin_plugins(config_outcome(Some(config))->Ok_0),
{
    let e = config_outcome(Some(config))->Ok_0;
    let o = e.plugins.len() - 5;
    assert(e.plugins.subrange(o, o + 5) =~= default_models());
}

/// An engine built from a policy file that enforces the defaults runs the
/// built-in plugins.
pub proof fn lemma_policy_runs_builtin_plugins(layout: PolicyLayout)
    requires
        policy_outcome(Some(layout)) is Ok,
        layout.enforce_defaults,
    ensures
        runs_builtin_plugins(policy_outcome(Some(layout))->Ok_0),
{
    let e = policy_outcome(Some(layout))->Ok_0;
    let o: int = 0;
    assert(e.plugins.subrange(o, o + 5) =~= default_models());
}

/// In an engine that runs the built-in plugins, a call of an allowed method
/// whose keyword arguments break no limit is blocked when the `k`-th
/// built-in plugin's signature `j` matches one of its arguments.
proof fn lemma_builtin_signature_blocks(
    e: EngineModel,
    method: Seq<char>,
    args: Seq<Seq<char>>,
    kwargs: Seq<(Seq<char>, Option<Seq<char>>)>,
    k: int,
    i: int,
    j: int,
)
    requires
        runs_builtin_plugins(e),
        authorized(e, method),
        limit_violation(e.limits, method, kwargs) is None,
        0 <= k < 5,
        0 <= i < args.len(),
        0 <= j < default_models()[k].patterns.len(),
        pattern_matches(MatchKind::Regex, default_models()[k].patterns[j], args[i]),
    ensures
        inspect_outcome(e, method, args, kwargs, seq![]) is Err,
{
    let o = choose|o: int| 0 <= o && o + 5 <= e.plugins.len() && #[trigger] e.plugins.subrange(o, o + 5) == default_models();
    assert(e.plugins[o + k] == e.plugins.subrange(o, o + 5)[k]);
    let p = e.plugins[o + k];
    assert(p.kind == MatchKind::Regex);
    assert(hit(p.kind, p.patterns, args, i, j));
    assert(any_hit(p.kind, p.patterns, args));
    lemma_run_plugins_none(e.plugins, args);
}

/// The signatures the `destructive_os_guard` plugin blocks on, listed here on their own.
pub open spec fn destructive_os_signature_catalogue() -> Seq<Seq<char>> {
    seq![
        r"(?i)\brm\s+-rf\b"@,
        r"(?i)\bchmod\s+(?:-R\s+)?777\b"@,
        r"(?i):\(\)\{\s*:\|\s*:&\s*\}\s*;"@,
        r"(?i)\bcrontab\s+-e\b"@,
        r"(?i)\bapt-get\s+install\b"@,
        r"(?i)\byum\s+install\b"@,
        r"(?i)\bdocker\.sock\b"@,
        r"(?i)/etc/passwd"@,
        r"(?i)/etc/shadow"@,
        r"(?i)\bkill\s+-9\s+-1\b"@,
        r"(?i)\bwget\s+http"@,
        r"(?i)\bcurl\s+http"@,
        r"(?i)\bsystemctl\s+stop\b"@,
        r"(?i)\.ssh/authorized_keys"@,
        r"(?i)/usr/bin/"@,
        r"(?i)\balias\s+\w+="@,
        r"(?i)\bmkfs\.(?:ext\d|vfat|ntfs|xfs)\b"@,
        r"(?i)\bswapoff\s+-a\b"@,
        r"(?i)\brmmod\b"@,
        r"(?i)/var/log/"@,
        r"(?i)/etc/resolv\.conf"@,
        r"(?i)\bshutdown\s+-h\b"@
    ]
}

/// An engine that runs the built-in plugins blocks a call of an allowed
/// method whose keyword arguments break no limit whenever one of the
/// `destructive_os_guard` signatures listed above matches one of its arguments.
pub proof fn law_destructive_os_signatures_block(
    e: EngineModel,
    method: Seq<char>,
    args: Seq<Seq<char>>,
    kwargs: Seq<(Seq<char>, Option<Seq<char>>)>,
    i: int,
    j: int,
)
    requires
        runs_builtin_plugins(e),
        authorized(e, method),
        limit_violation(e.limits, method, kwargs) is None,
        0 <= i < args.len(),
        0 <= j < destructive_os_signature_catalogue().len(),
        pattern_matches(MatchKind::Regex, destructive_os_signature_catalogue()[j], args[i]),
    ensures
        destructive_os_signature_catalogue().len() == 22,
        inspect_outcome(e, method, args, kwargs, seq![]) is Err,
{
    assert(default_models()[0].patterns =~= destructive_os_signature_catalogue());
    lemma_builtin_signature_blocks(e, method, args, kwargs, 0, i, j);
}

/// The signatures the `database_guard` plugin blocks on, listed here on their own.
pub open spec fn database_signature_catalogue() -> Seq<Seq<char>> {
    seq![
        r"(?i)\bDROP\s+TABLE\b"@,
        r"(?i)\bTRUNCATE\s+TABLE\b"@,
        r"(?i)\bDELETE\s+FROM\b"@,
        r"(?i)\bSHUTDOWN\s+IMMEDIATE\b"@,
        r"(?i)\bGRANT\s+ALL\s+PRIVILEGES\b"@,
        r"(?i)\bDROP\s+PROCEDURE\b"@,
        r"(?i)\bDROP\s+INDEX\b"@,
        r"(?i)\binformation_schema\b"@,
        r"(?i)\bDROP\s+VIEW\b"@,
        r"(?i)\bALTER\s+TABLE\s+.*\s+DROP\s+CONSTRAINT\b"@,
        r"(?i)\bCREATE\s+FUNCTION\s+.*\s+RETURNS\s+STRING\b"@,
        r"(?i)\bINTO\s+OUTFILE\b"@,
        r"(?i)\btenant_id\s*=\s*\d+\s+OR\b"@,
        r"(?i)\bINSERT\s+INTO\s+.*admin\b"@,
        r"(?i)\bpg_sleep\(\d+\)\b"@,
        r"(?i)\bDBMS_LOCK\.SLEEP\b"@,
        r"(?i)\bALTER\s+SYSTEM\b"@,
        r"(?i)\bdb\.dropDatabase\(\)"@,
        r"(?i)\b\.drop\(\)\b"@
    ]
}

/// An engine that runs the built-in plugins blocks a call of an allowed
/// method whose keyword arguments break no limit whenever one of the
/// `database_guard` signatures listed above matches one of its arguments.
pub proof fn law_database_signatures_block(
    e: EngineModel,
    method: Seq<char>,
    args: Seq<Seq<char>>,
    kwargs: Seq<(Seq<char>, Option<Seq<char>>)>,
    i: int,
    j: int,
)
    requires
        runs_builtin_plugins(e),
        authorized(e, method),
        limit_violation(e.limits, method, kwargs) is None,
        0 <= i < args.len(),
        0 <= j < database_signature_catalogue().len(),
        pattern_matches(MatchKind::Regex, database_signature_catalogue()[j], args[i]),
    ensures
        database_signature_catalogue().len() == 19,
        inspect_outcome(e, method, args, kwargs, seq![]) is Err,
{
    assert(default_models()[1].patterns =~= database_signature_catalogue());
    lemma_builtin_signature_blocks(e, method, args, kwargs, 1, i, j);
}

/// The signatures the `jailbreak_guard` plugin blocks on, listed here on their own.
pub open spec fn jailbreak_signature_catalogue() -> Seq<Seq<char>> {
    seq![
        r"(?i)ignore\s+(?:all\s+)?previous\s+(?:instructions|guidelines)"@,
        r"(?i)system\s+override"@,
        r"(?i)you\s+are\s+now\s+unrestricted"@,
        r"(?i)\bDAN\b"@,
        r"(?i)acting\s+as\s+a\s+fictional"@,
        r"(?i)decode\s+the\s+following\s+base64"@,
        r"(?i)translate\s+the\s+following\s+to\s+english"@,
        r"(?i)prove\s+you\s+aren't\s+bad"@,
        r"(?i)developer\s+testing\s+mode"@,
        r"(?i)simulate\s+a\s+linux\s+terminal"@,
        r"(?i)D3L3T3"@,
        r"(?i)ignore\s+safety\s+filters"@,
        r"(?i)breakout\s+of\s+json\s+schema"@
    ]
}

/// An engine that runs the built-in plugins blocks a call of an allowed
/// method whose keyword arguments break no limit whenever one of the
/// `jailbreak_guard` signatures listed above matches one of its arguments.
pub proof fn law_jailbreak_signatures_block(
    e: EngineModel,
    method: Seq<char>,
    args: Seq<Seq<char>>,
    kwargs: Seq<(Seq<char>, Option<Seq<char>>)>,
    i: int,
    j: int,
)
    requires
        runs_builtin_plugins(e),
        authorized(e, method),
        limit_violation(e.limits, method, kwargs) is None,
        0 <= i < args.len(),
        0 <= j < jailbreak_signature_catalogue().len(),
        pattern_matches(MatchKind::Regex, jailbreak_signature_catalogue()[j], args[i]),
    ensures
        jailbreak_signature_catalogue().len() == 13,
        inspect_outcome(e, method, args, kwargs, seq![]) is Err,
{
    assert(default_models()[2].patterns =~= jailbreak_signature_catalogue());
    lemma_builtin_signature_blocks(e, method, args, kwargs, 2, i, j);
}

/// The signatures the `resource_exhaustion_guard` plugin blocks on, listed here on their own.
pub open spec fn resource_exhaustion_signature_catalogue() -> Seq<Seq<char>> {
    seq![
        r"(?i)\bwhile\s*\(\s*true\s*\)\s*\{\s*execute_transfer"@,
        r"(?i)\bmax_transaction_limit\s*=\s*true\b"@,
        r"(?i)\btrigger_mass_refund\(\)"@,
        r"(?i)\bexecute_bulk_payout\b"@,
        r"(?i)\bcancel_all_subscriptions\b"@,
        r"(?i)\bprovision_max_gpu_instances\b"@,
        r"(?i)\btwilio_api_spam_flood\b"@,
        r"(?i)\bloop_expensive_reasoning_model\b"@,
        r"(?i)\bgenerate_infinite_gift_cards\b"@,
        r"(?i)\bapply_100_percent_discount\b"@,
        r"(?i)\bauto_pay_unverified_invoice\b"@,
        r"(?i)\bset_user_balance_zero\b"@,
        r"(?i)\bplace_max_micro_bids\b"@,
        r"(?i)\block_entire_inventory_carts\b"@
    ]
}

/// An engine that runs the built-in plugins blocks a call of an allowed
/// method whose keyword arguments break no limit whenever one of the
/// `resource_exhaustion_guard` signatures listed above matches one of its arguments.
pub proof fn law_resource_exhaustion_signatures_block(
    e: EngineModel,
    method: Seq<char>,
    args: Seq<Seq<char>>,
    kwargs: Seq<(Seq<char>, Option<Seq<char>>)>,
    i: int,
    j: int,
)
    requires
        runs_builtin_plugins(e),
        authorized(e, method),
        limit_violation(e.limits, method, kwargs) is None,
        0 <= i < args.len(),
        0 <= j < resource_exhaustion_signature_catalogue().len(),
        pattern_matches(MatchKind::Regex, resource_exhaustion_signature_catalogue()[j], args[i]),
    ensures
        resource_exhaustion_signature_catalogue().len() == 14,
        inspect_outcome(e, method, args, kwargs, seq![]) is Err,
{
    assert(default_models()[3].patterns =~= resource_exhaustion_signature_catalogue());
    lemma_builtin_signature_blocks(e, method, args, kwargs, 3, i, j);
}

/// The signatures the `pii_leakage_guard` plugin blocks on, listed here on their own.
pub open spec fn pii_leakage_signature_catalogue() -> Seq<Seq<char>> {
    seq![
        r"\b(?:4[0-9]{12}(?:[0-9]{3})?|5[1-5][0-9]{14})\b"@,
        r"\b\d{3}-\d{2}-\d{4}\b"@,
        r"(?i)\becho\s+\$?(?:AWS_SECRET_ACCESS_KEY|API_KEY|JWT_TOKEN)\b"@,
        r"http://169\.254\.169\.254/latest/meta-data/"@,
        r"(?i)\bos\.environ\b"@,
        r"\b\.git/config\b"@,
        r"(?i)\bexport_customer_csv\b"@,
        r"(?i)\bshow_payroll_chart\b"@,
        r"(?i)\bwp-config\.php\b"@,
        r"(?i)\bprivate_key\.pem\b"@,
        r"(?i)\bextract_gps_coordinates\b"@,
        r"(?i)\bdump_encryption_salt\b"@
    ]
}

/// An engine that runs the built-in plugins blocks a call of an allowed
/// method whose keyword arguments break no limit whenever one of the
/// `pii_leakage_guard` signatures listed above matches one of its arguments.
pub proof fn law_pii_leakage_signatures_block(
    e: EngineModel,
    method: Seq<char>,
    args: Seq<Seq<char>>,
    kwargs: Seq<(Seq<char>, Option<Seq<char>>)>,
    i: int,
    j: int,
)
    requires
        runs_builtin_plugins(e),
        authorized(e, method),
        limit_violation(e.limits, method, kwargs) is None,
        0 <= i < args.len(),
        0 <= j < pii_leakage_signature_catalogue().len(),
        pattern_matches(MatchKind::Regex, pii_leakage_signature_catalogue()[j], args[i]),
    ensures
        pii_leakage_signature_catalogue().len() == 12,
        inspect_outcome(e, method, args, kwargs, seq![]) is Err,
{
    assert(default_models()[4].patterns =~= pii_leakage_signature_catalogue());
    lemma_builtin_signature_blocks(e, method, args, kwargs, 4, i, j);
}

} // verus!
