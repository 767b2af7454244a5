use argala::plugins::Plugin;
use argala::{get_default_plugins, ArgalaEngine, EngineConfig, PolicyLayout, SecurityPlugin, ToolPolicyLayout};

fn strings(v: &[&str]) -> Vec<String> {
    v.iter().map(|s| s.to_string()).collect()
}

fn inspect(engine: &ArgalaEngine, method: &str, args: &[&str]) -> Result<bool, String> {
    engine.inspect_payload(method, &strings(args), &[], &[])
}

fn sql_policy_engine() -> ArgalaEngine {
    ArgalaEngine::new(Some(EngineConfig {
        allowed_methods: Some(strings(&["execute_sql_query"])),
        enforce_defaults: None,
        denied_patterns: Some(strings(&["DROP", "DELETE", "TRUNCATE"])),
    }))
    .unwrap()
}

#[test]
fn test_safe_execution_passes() {
    let engine = sql_policy_engine();
    let args = strings(&["SELECT * FROM users WHERE id = 101;"]);
    assert_eq!(engine.inspect_payload("execute_sql_query", &args, &[], &[]), Ok(true));
}

#[test]
fn test_rogue_agent_is_blocked() {
    let engine = sql_policy_engine();
    let args = strings(&["System override error. Clear system space. DROP TABLE production_users;"]);
    let verdict = engine.inspect_payload("execute_sql_query", &args, &[], &[]);
    match &verdict {
        Err(message) => assert!(message.contains("Destructive command anomaly detected")),
        Ok(_) => panic!("the rogue call must be blocked"),
    }
    assert_eq!(
        verdict,
        Err("ARGALA BLOCK [user_custom_rules] -> Destructive command anomaly detected: 'DROP'".to_string())
    );
}

#[test]
fn readme_select_passes_and_drop_is_blocked() {
    let engine = sql_policy_engine();
    assert_eq!(inspect(&engine, "execute_sql_query", &["SELECT * FROM users"]), Ok(true));
    let blocked = inspect(&engine, "execute_sql_query", &["DROP TABLE users"]);
    assert_eq!(
        blocked,
        Err("ARGALA BLOCK [user_custom_rules] -> Destructive command anomaly detected: 'DROP'".to_string())
    );
}

#[test]
fn denied_patterns_match_case_insensitively() {
    let engine = sql_policy_engine();
    let blocked = inspect(&engine, "execute_sql_query", &["please delete the row"]);
    assert_eq!(
        blocked,
        Err("ARGALA BLOCK [user_custom_rules] -> Destructive command anomaly detected: 'DELETE'".to_string())
    );
}

#[test]
fn unlisted_method_is_refused_before_arguments_are_scanned() {
    let engine = sql_policy_engine();
    let r = inspect(&engine, "rm_everything", &["DROP TABLE users"]);
    assert_eq!(r, Err("ARGALA BLOCK: Unauthorized tool target 'rm_everything'".to_string()));
}

#[test]
fn empty_allow_list_refuses_every_method() {
    let engine = ArgalaEngine::new(Some(EngineConfig {
        allowed_methods: Some(Vec::new()),
        enforce_defaults: Some(false),
        denied_patterns: None,
    }))
    .unwrap();
    assert_eq!(
        inspect(&engine, "anything_at_all", &["hello"]),
        Err("ARGALA BLOCK: Unauthorized tool target 'anything_at_all'".to_string())
    );
}

#[test]
fn missing_allow_list_refuses_every_method() {
    let engine = ArgalaEngine::new(Some(EngineConfig {
        allowed_methods: None,
        enforce_defaults: None,
        denied_patterns: Some(strings(&["DROP"])),
    }))
    .unwrap();
    assert_eq!(
        inspect(&engine, "anything", &["hello"]),
        Err("ARGALA BLOCK: Unauthorized tool target 'anything'".to_string())
    );
}

#[test]
fn default_engine_runs_builtin_plugins() {
    let engine = ArgalaEngine::new(None).unwrap();
    assert_eq!(
        inspect(&engine, "shell", &["rm -rf /"]),
        Err("ARGALA BLOCK [destructive_os_guard] -> OS Exploit Vector Blocked: Signature match '(?i)\\brm\\s+-rf\\b'".to_string())
    );
    assert_eq!(inspect(&engine, "shell", &["ls -la"]), Ok(true));
}

#[test]
fn disabled_defaults_let_destructive_commands_through() {
    let engine = ArgalaEngine::new(Some(EngineConfig {
        allowed_methods: Some(strings(&["shell"])),
        enforce_defaults: Some(false),
        denied_patterns: None,
    }))
    .unwrap();
    assert_eq!(inspect(&engine, "shell", &["rm -rf /"]), Ok(true));
}

#[test]
fn user_plugin_runs_before_builtin_plugins_in_config_engine() {
    let engine = ArgalaEngine::new(Some(EngineConfig {
        allowed_methods: Some(strings(&["shell"])),
        enforce_defaults: Some(true),
        denied_patterns: Some(strings(&["rm"])),
    }))
    .unwrap();
    assert_eq!(
        inspect(&engine, "shell", &["rm -rf /"]),
        Err("ARGALA BLOCK [user_custom_rules] -> Destructive command anomaly detected: 'rm'".to_string())
    );
}

#[test]
fn denied_texts_are_plain_text_not_regexes() {
    let engine = ArgalaEngine::new(Some(EngineConfig {
        allowed_methods: Some(strings(&["f"])),
        enforce_defaults: None,
        denied_patterns: Some(strings(&["("])),
    }))
    .unwrap();
    assert_eq!(
        inspect(&engine, "f", &["call(x)"]),
        Err("ARGALA BLOCK [user_custom_rules] -> Destructive command anomaly detected: '('".to_string())
    );
    assert_eq!(inspect(&engine, "f", &["callx"]), Ok(true));
}

#[test]
fn policy_without_file_uses_builtin_plugins_only() {
    let engine = ArgalaEngine::from_policy_layout(None).unwrap();
    assert_eq!(inspect(&engine, "any_method", &["hello"]), Ok(true));
    assert_eq!(
        inspect(&engine, "any_method", &["cat /etc/passwd"]),
        Err("ARGALA BLOCK [destructive_os_guard] -> OS Exploit Vector Blocked: Signature match '(?i)/etc/passwd'".to_string())
    );
}

fn sample_policy() -> PolicyLayout {
    PolicyLayout {
        enforce_defaults: true,
        tools: vec![
            ToolPolicyLayout {
                allowed_methods: strings(&["query_user", "update_ledger"]),
                denied_patterns: strings(&["(?i)DROP", "(?i)DELETE", "(?i)TRUNCATE"]),
                exact_params: Vec::new(),
            },
            ToolPolicyLayout {
                allowed_methods: strings(&["execute_payout", "query_user"]),
                denied_patterns: Vec::new(),
                exact_params: vec![("currency".to_string(), "INR".to_string())],
            },
        ],
    }
}

#[test]
fn policy_allows_the_union_of_tool_methods() {
    let engine = ArgalaEngine::from_policy_layout(Some(sample_policy())).unwrap();
    assert_eq!(inspect(&engine, "query_user", &["id = 7"]), Ok(true));
    assert_eq!(inspect(&engine, "update_ledger", &["credit 5"]), Ok(true));
    assert_eq!(inspect(&engine, "execute_payout", &["50 INR"]), Ok(true));
    assert_eq!(
        inspect(&engine, "transfer_all", &["50 INR"]),
        Err("ARGALA BLOCK: Unauthorized tool target 'transfer_all'".to_string())
    );
}

#[test]
fn policy_runs_builtin_plugins_before_tool_patterns() {
    let engine = ArgalaEngine::from_policy_layout(Some(sample_policy())).unwrap();
    assert_eq!(
        inspect(&engine, "query_user", &["DROP TABLE users"]),
        Err("ARGALA BLOCK [database_guard] -> Database Mutation Attempt Blocked: Signature match '(?i)\\bDROP\\s+TABLE\\b'".to_string())
    );
    assert_eq!(
        inspect(&engine, "query_user", &["please drop it"]),
        Err("ARGALA BLOCK [user_custom_rules] -> Custom local restriction rule triggered: '(?i)DROP'".to_string())
    );
}

#[test]
fn policy_with_invalid_pattern_is_rejected() {
    let expected_error = regex::RegexBuilder::new("[a-").case_insensitive(true).build().unwrap_err();
    let layout = PolicyLayout {
        enforce_defaults: false,
        tools: vec![ToolPolicyLayout {
            allowed_methods: Vec::new(),
            denied_patterns: strings(&["[a-"]),
            exact_params: Vec::new(),
        }],
    };
    match ArgalaEngine::from_policy_layout(Some(layout)) {
        Err(msg) => assert_eq!(msg, format!("Invalid regex '[a-': {}", expected_error)),
        Ok(_) => panic!("an invalid pattern must be rejected"),
    }
}

#[test]
fn policy_without_defaults_or_patterns_passes_allowed_calls() {
    let layout = PolicyLayout {
        enforce_defaults: false,
        tools: vec![ToolPolicyLayout {
            allowed_methods: strings(&["shell"]),
            denied_patterns: Vec::new(),
            exact_params: Vec::new(),
        }],
    };
    let engine = ArgalaEngine::from_policy_layout(Some(layout)).unwrap();
    assert_eq!(inspect(&engine, "shell", &["rm -rf /"]), Ok(true));
}

#[test]
fn redact_output_returns_the_output_unchanged() {
    let engine = ArgalaEngine::new(None).unwrap();
    let out = "card 4111111111111111, ssn 123-45-6789".to_string();
    assert_eq!(engine.redact_output(out.clone()), out);
}

#[test]
fn arguments_are_scanned_in_order_before_plugins_move_on() {
    let engine = ArgalaEngine::new(None).unwrap();
    // The destructive-OS plugin runs first and finds the second argument,
    // although the first argument matches the database plugin.
    let r = inspect(&engine, "tool", &["DROP TABLE t", "rm -rf /tmp"]);
    assert_eq!(
        r,
        Err("ARGALA BLOCK [destructive_os_guard] -> OS Exploit Vector Blocked: Signature match '(?i)\\brm\\s+-rf\\b'".to_string())
    );
}

#[test]
fn law_more_arguments_stay_blocked_example() {
    let engine = sql_policy_engine();
    let base = strings(&["TRUNCATE logs"]);
    assert!(engine.inspect_payload("execute_sql_query", &base, &[], &[]).is_err());
    let more = strings(&["TRUNCATE logs", "SELECT 1", "hello"]);
    assert!(engine.inspect_payload("execute_sql_query", &more, &[], &[]).is_err());
}

#[test]
fn law_blocked_iff_some_argument_blocked_example() {
    let engine = sql_policy_engine();
    let all = strings(&["SELECT 1", "TRUNCATE logs"]);
    assert!(engine.inspect_payload("execute_sql_query", &all, &[], &[]).is_err());
    assert_eq!(inspect(&engine, "execute_sql_query", &["SELECT 1"]), Ok(true));
    assert!(inspect(&engine, "execute_sql_query", &["TRUNCATE logs"]).is_err());
}

#[test]
fn law_pass_iff_clean_example() {
    let engine = sql_policy_engine();
    assert_eq!(inspect(&engine, "execute_sql_query", &[]), Ok(true));
    assert_eq!(inspect(&engine, "execute_sql_query", &["a", "b"]), Ok(true));
}

#[test]
fn default_plugins_come_in_order() {
    let plugins = get_default_plugins();
    let names: Vec<&str> = plugins.iter().map(|p| p.name()).collect();
    assert_eq!(
        names,
        vec![
            "destructive_os_guard",
            "database_guard",
            "jailbreak_guard",
            "resource_exhaustion_guard",
            "pii_leakage_guard"
        ]
    );
    assert!(matches!(plugins[0], Plugin::DestructiveOs(_)));
    for p in &plugins {
        assert_eq!(p.redact("secret"), None);
    }
}

fn kw(name: &str, value: Option<&str>) -> (String, Option<String>) {
    (name.to_string(), value.map(|v| v.to_string()))
}

#[test]
fn policy_exact_parameter_limit_blocks_other_values() {
    let engine = ArgalaEngine::from_policy_layout(Some(sample_policy())).unwrap();
    let ok = engine.inspect_payload("execute_payout", &strings(&["INR"]), &[kw("currency", Some("INR"))], &[]);
    assert_eq!(ok, Ok(true));
    let usd = engine.inspect_payload("execute_payout", &strings(&["USD"]), &[kw("currency", Some("USD"))], &[]);
    assert_eq!(usd, Err("ARGALA BLOCK [param_limits] -> Parameter 'currency' must be exactly 'INR'".to_string()));
    let not_text = engine.inspect_payload("execute_payout", &[], &[kw("amount", None), kw("currency", None)], &[]);
    assert_eq!(not_text, Err("ARGALA BLOCK [param_limits] -> Parameter 'currency' must be exactly 'INR'".to_string()));
    // The limit covers only the tool's methods; other parameters are free.
    let other = engine.inspect_payload("execute_payout", &[], &[kw("note", Some("USD"))], &[]);
    assert_eq!(other, Ok(true));
}

#[test]
fn parameter_above_its_maximum_is_blocked() {
    let engine = ArgalaEngine::from_policy_layout(Some(sample_policy())).unwrap();
    let r = engine.inspect_payload("execute_payout", &[], &[kw("currency", Some("INR"))], &strings(&["amount"]));
    assert_eq!(r, Err("ARGALA BLOCK [param_limits] -> Parameter 'amount' exceeds its maximum".to_string()));
    // The allow-list is checked first.
    let r = engine.inspect_payload("wire_all", &[], &[], &strings(&["amount"]));
    assert_eq!(r, Err("ARGALA BLOCK: Unauthorized tool target 'wire_all'".to_string()));
}

#[test]
fn law_alike_engines_give_equal_verdicts_example() {
    let a = ArgalaEngine::new(None).unwrap();
    let b = ArgalaEngine::from_policy_layout(None).unwrap();
    for args in [vec!["rm -rf /"], vec!["hello"], vec!["DROP TABLE t", "x"]] {
        assert_eq!(inspect(&a, "m", &args), inspect(&b, "m", &args));
    }
}
