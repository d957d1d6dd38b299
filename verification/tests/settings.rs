//! Settings: what they are called, and what the environment gives.
use exagent::config::{
    default_boundary_none, ninety_percent, parse_bool_value, parse_permission_profile_value,
    parse_positive_i64, parse_positive_usize, parse_thinking_mode_value, AgentConfig,
    ModelCapabilities, PermissionProfile, PolicyMode, ProviderProtocol, ResolvedCredential,
    ResolvedModelConfig, ThinkingMode,
};
use exagent::settings::{agent_config, web_search_config_from_env, Environment};
use exagent::types::ModelRef;
use serde_json::Value;

fn model() -> ResolvedModelConfig {
    ResolvedModelConfig {
        identity: ModelRef {
            provider_id: "openai".to_string(),
            model_id: "gpt-5.5".to_string(),
        },
        protocol: ProviderProtocol::OpenAiChatCompletions,
        credential: ResolvedCredential::Absent,
        capabilities: ModelCapabilities { context_window: None, supports_tools: true },
    }
}

fn environment(vars: &[(&str, &str)]) -> Environment {
    let mut env = Environment::new();
    for (name, value) in vars {
        env.insert(name.to_string(), value.to_string());
    }
    env
}

fn config(limit: Option<i64>, window: Option<i64>) -> AgentConfig {
    let mut config =
        agent_config(&environment(&[]), Some("/work".to_string()), model(), PolicyMode::Off);
    config.auto_compact_token_limit = limit;
    config.model.capabilities.context_window = window;
    config
}

#[test]
fn auto_compact_limit_uses_explicit_limit_without_context_window() {
    let config = config(Some(32_000), None);
    assert_eq!(config.resolved_auto_compact_token_limit(), Some(32_000));
}

#[test]
fn auto_compact_limit_derives_ninety_percent_of_context_window() {
    let config = config(None, Some(100_000));
    assert_eq!(config.resolved_auto_compact_token_limit(), Some(90_000));
}

#[test]
fn auto_compact_limit_clamps_explicit_limit_to_context_window_headroom() {
    let config = config(Some(95_000), Some(100_000));
    assert_eq!(config.resolved_auto_compact_token_limit(), Some(90_000));
}

#[test]
fn auto_compact_limit_is_none_without_limit_or_context_window() {
    let config = config(None, None);
    assert_eq!(config.resolved_auto_compact_token_limit(), None);
}

#[test]
fn auto_compact_limit_handles_large_context_window_without_overflow() {
    let config = config(None, Some(i64::MAX));
    assert_eq!(
        config.resolved_auto_compact_token_limit(),
        Some(((i64::MAX as i128 * 9) / 10) as i64)
    );
}

#[test]
fn nine_tenths_round_toward_zero() {
    assert_eq!(ninety_percent(0), 0);
    assert_eq!(ninety_percent(1), 0);
    assert_eq!(ninety_percent(19), 17);
    assert_eq!(ninety_percent(-19), -17);
    assert_eq!(ninety_percent(i64::MIN), ((i64::MIN as i128 * 9) / 10) as i64);
}

#[test]
fn token_budget_env_values_accept_positive_integers() {
    assert_eq!(parse_positive_i64("128000"), Some(128_000));
    assert_eq!(parse_positive_i64(" 64000 "), Some(64_000));
}

#[test]
fn token_budget_env_values_ignore_invalid_or_non_positive_values() {
    assert_eq!(parse_positive_i64(""), None);
    assert_eq!(parse_positive_i64("abc"), None);
    assert_eq!(parse_positive_i64("0"), None);
    assert_eq!(parse_positive_i64("-1"), None);
}

#[test]
fn numbers_that_do_not_fit_are_ignored() {
    assert_eq!(parse_positive_i64("9223372036854775807"), Some(i64::MAX));
    assert_eq!(parse_positive_i64("9223372036854775808"), None);
    assert_eq!(parse_positive_usize("18446744073709551616"), None);
    assert_eq!(parse_positive_usize("+7"), Some(7));
    assert_eq!(parse_positive_usize("+"), None);
    assert_eq!(parse_positive_usize("7 7"), None);
    assert_eq!(parse_positive_usize("0007"), Some(7));
}

#[test]
fn thinking_mode_values_accept_known_modes() {
    assert_eq!(parse_thinking_mode_value("auto"), Some(ThinkingMode::Auto));
    assert_eq!(parse_thinking_mode_value("low"), Some(ThinkingMode::Low));
    assert_eq!(
        parse_thinking_mode_value("medium"),
        Some(ThinkingMode::Medium)
    );
    assert_eq!(parse_thinking_mode_value("high"), Some(ThinkingMode::High));
}

#[test]
fn thinking_mode_values_accept_off_minimal_and_xhigh() {
    assert_eq!(parse_thinking_mode_value("off"), Some(ThinkingMode::Off));
    assert_eq!(
        parse_thinking_mode_value("minimal"),
        Some(ThinkingMode::Minimal)
    );
    assert_eq!(
        parse_thinking_mode_value("xhigh"),
        Some(ThinkingMode::XHigh)
    );
}

#[test]
fn thinking_mode_values_accept_none_as_off() {
    assert_eq!(parse_thinking_mode_value("none"), Some(ThinkingMode::Off));
}

#[test]
fn thinking_mode_values_ignore_invalid_or_empty_values() {
    assert_eq!(parse_thinking_mode_value(""), None);
    assert_eq!(parse_thinking_mode_value("maximum"), None);
}

#[test]
fn thinking_mode_labels_round_trip_through_serde() {
    for mode in ThinkingMode::all() {
        let text = Value::String(mode.label().to_string()).to_string();
        let label: String = serde_json::from_str(&text).expect("label must be a JSON string");
        let from_label =
            ThinkingMode::from_label(&label).expect("label must deserialize back to its variant");
        assert_eq!(from_label, mode);
    }
}

#[test]
fn modes_have_other_labels_too() {
    assert_eq!(ThinkingMode::from_label("none"), Some(ThinkingMode::Off));
    for label in ["x_high", "xhigh", "extra_high", "extra-high"] {
        assert_eq!(ThinkingMode::from_label(label), Some(ThinkingMode::XHigh));
    }
    for label in ["", "Auto", " auto", "maximum"] {
        assert_eq!(ThinkingMode::from_label(label), None);
    }
    assert_eq!(ThinkingMode::XHigh.label(), "x_high");
    assert_eq!(ThinkingMode::Off.label(), "off");
    assert_eq!(
        ThinkingMode::all(),
        [
            ThinkingMode::Auto,
            ThinkingMode::Off,
            ThinkingMode::Minimal,
            ThinkingMode::Low,
            ThinkingMode::Medium,
            ThinkingMode::High,
            ThinkingMode::XHigh,
        ]
    );
}

#[test]
fn labels_name_every_mode_but_the_longest() {
    for mode in ThinkingMode::all() {
        let named = parse_thinking_mode_value(mode.label());
        if mode == ThinkingMode::XHigh {
            assert_eq!(mode.label(), "x_high");
            assert_eq!(named, None);
        } else {
            assert_eq!(named, Some(mode));
        }
    }
    assert_eq!(parse_thinking_mode_value(" Extra-High\n"), Some(ThinkingMode::XHigh));
    assert_eq!(parse_thinking_mode_value("EXTRA_HIGH"), Some(ThinkingMode::XHigh));
}

#[test]
fn permission_profile_defaults_to_full_access() {
    assert_eq!(PermissionProfile::default(), PermissionProfile::FullAccess);
}

#[test]
fn permission_profile_values_parse_known_modes() {
    assert_eq!(
        parse_permission_profile_value("full_access"),
        Some(PermissionProfile::FullAccess)
    );
    assert_eq!(
        parse_permission_profile_value("external"),
        Some(PermissionProfile::External)
    );
    assert_eq!(
        parse_permission_profile_value("managed"),
        Some(PermissionProfile::Managed)
    );
}

#[test]
fn permission_profile_values_ignore_invalid_modes() {
    assert_eq!(parse_permission_profile_value(""), None);
    assert_eq!(parse_permission_profile_value("disabled"), None);
    assert_eq!(parse_permission_profile_value("sandbox"), None);
}

#[test]
fn only_full_access_is_supported_for_now() {
    assert!(PermissionProfile::FullAccess.is_supported());
    assert!(!PermissionProfile::External.is_supported());
    assert!(!PermissionProfile::Managed.is_supported());
    assert_eq!(
        PermissionProfile::supported_profiles(),
        vec![PermissionProfile::FullAccess]
    );
}

#[test]
fn profiles_say_what_holds_a_command_back() {
    assert_eq!(
        PermissionProfile::FullAccess.execution_boundary_summary(),
        "filesystem sandbox: none; network sandbox: none; env isolation: none"
    );
    assert_eq!(
        PermissionProfile::External.execution_boundary_summary(),
        "execution boundary: provided outside ExAgent"
    );
    assert_eq!(
        PermissionProfile::Managed.execution_boundary_summary(),
        "execution boundary: managed OS sandbox"
    );
    assert_eq!(default_boundary_none(), "none");
    for profile in [
        PermissionProfile::FullAccess,
        PermissionProfile::External,
        PermissionProfile::Managed,
    ] {
        assert_eq!(parse_permission_profile_value(profile.as_str()), Some(profile));
    }
}

#[test]
fn switches_have_several_words() {
    for word in ["1", "true", "YES", " on "] {
        assert_eq!(parse_bool_value(word), Some(true));
    }
    for word in ["0", "False", "no", "off\t"] {
        assert_eq!(parse_bool_value(word), Some(false));
    }
    assert_eq!(parse_bool_value("maybe"), None);
}

#[test]
fn web_search_config_from_env_requires_api_key_and_defaults_to_brave() {
    let env = environment(&[("EXAGENT_WEB_SEARCH_API_KEY", " search-key ")]);

    let config = web_search_config_from_env(&env).expect("web search config");

    assert_eq!(config.provider, "brave");
    assert_eq!(config.api_key, "search-key");
}

#[test]
fn web_search_config_from_env_normalizes_provider_and_ignores_empty_key() {
    let env = environment(&[
        ("EXAGENT_WEB_SEARCH_API_KEY", " "),
        ("EXAGENT_WEB_SEARCH_PROVIDER", " BRAVE "),
    ]);
    assert!(web_search_config_from_env(&env).is_none());

    let env = environment(&[
        ("EXAGENT_WEB_SEARCH_API_KEY", "key"),
        ("EXAGENT_WEB_SEARCH_PROVIDER", " BRAVE "),
    ]);
    let config = web_search_config_from_env(&env).expect("web search config");
    assert_eq!(config.provider, "brave");
}

#[test]
fn an_empty_environment_gives_the_defaults() {
    let config = agent_config(&environment(&[]), None, model(), PolicyMode::Enforced);

    assert_eq!(config.workspace_root, ".");
    assert_eq!(config.cwd, ".");
    assert_eq!(config.thinking_mode, None);
    assert_eq!(config.permission_profile, PermissionProfile::FullAccess);
    assert_eq!(config.command_timeout_secs, 30);
    assert_eq!(config.max_output_bytes, 8 * 1024);
    assert_eq!(config.policy_mode, PolicyMode::Enforced);
    assert_eq!(config.auto_compact_token_limit, None);
    assert!(config.project_docs_enabled);
    assert_eq!(config.project_docs_max_bytes, 64 * 1024);
    assert!(config.skills_enabled);
    assert_eq!(config.skills_metadata_max_chars, 8 * 1024);
    assert!(config.skills_user_roots.is_empty());
    assert!(config.mcp_servers.is_empty());
    assert!(config.web_search.is_none());
    assert!(!config.forge_review_gate_enabled);
    assert!(config.memory_enabled);
    assert!(config.memory_auto_inject_enabled);
    assert!(config.memory_frozen_inject_enabled);
    assert_eq!(config.memory_auto_context_max_chars, 2 * 1024);
    assert_eq!(config.memory_frozen_context_max_chars, 1024);
    assert_eq!(config.memory_tool_context_max_chars, 12 * 1024);
    assert_eq!(config.memory_auto_max_hits, 4);
    assert_eq!(config.memory_tool_max_hits, 20);
}

#[test]
fn the_environment_overrides_the_defaults() {
    let env = environment(&[
        ("EXAGENT_THINKING_MODE", "HIGH"),
        ("EXAGENT_PERMISSION_PROFILE", "managed"),
        ("EXAGENT_AUTO_COMPACT_TOKEN_LIMIT", "5000"),
        ("EXAGENT_PROJECT_DOCS_ENABLED", "off"),
        ("EXAGENT_PROJECT_DOCS_MAX_BYTES", "17"),
        ("EXAGENT_SKILLS_USER_ROOT", "/skills"),
        ("EXAGENT_MEMORY_TOOL_MAX_HITS", "not a number"),
        ("EXAGENT_FORGE_REVIEW_GATE_ENABLED", "yes"),
    ]);
    let config = agent_config(&env, Some("/work".to_string()), model(), PolicyMode::Off);

    assert_eq!(config.cwd, "/work");
    assert_eq!(config.thinking_mode, Some(ThinkingMode::High));
    assert_eq!(config.permission_profile, PermissionProfile::Managed);
    assert_eq!(config.auto_compact_token_limit, Some(5000));
    assert!(!config.project_docs_enabled);
    assert_eq!(config.project_docs_max_bytes, 17);
    assert_eq!(config.skills_user_roots, vec!["/skills".to_string()]);
    assert_eq!(config.memory_tool_max_hits, 20);
    assert!(config.forge_review_gate_enabled);
}
