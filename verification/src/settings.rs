//! The settings that the environment gives.
use vstd::prelude::*;

use crate::config;
use crate::config::{
    AgentConfig, AgentConfigModel, PermissionProfile, PolicyMode, ResolvedModelConfig,
    ThinkingMode, WebSearchConfig, WebSearchConfigModel,
};
use crate::data;
use crate::text;
use crate::text_map::TextMap;

verus! {

/// The variables of an environment.
pub type Environment = TextMap<String>;

/// The value of a variable, where it is set.
pub open spec fn var(env: Environment, name: Seq<char>) -> Option<Seq<char>> {
    if env@.contains_key(name) {
        Some(env@[name]@)
    } else {
        None
    }
}

/// The value of a variable, where it is set.
fn value<'a>(env: &'a Environment, name: &str) -> (res: Option<&'a String>)
    ensures
        match res {
            Some(value) => var(*env, name@) == Some(value@),
            None => var(*env, name@) is None,
        },
{
    env.get(&name.to_owned())
}

/// The switch that a variable holds, or else `otherwise`.
pub open spec fn switch(env: Environment, name: Seq<char>, otherwise: bool) -> bool {
    match var(env, name) {
        Some(value) => match config::bool_of(value) {
            Some(on) => on,
            None => otherwise,
        },
        None => otherwise,
    }
}

/// Computes `switch`.
pub fn parse_optional_bool_env(env: &Environment, key: &str, otherwise: bool) -> (res: bool)
    ensures
        res == switch(*env, key@, otherwise),
{
    match value(env, key) {
        Some(value) => match config::parse_bool_value(value.as_str()) {
            Some(on) => on,
            None => otherwise,
        },
        None => otherwise,
    }
}

/// The positive number that a variable holds, or else `otherwise`.
pub open spec fn number(env: Environment, name: Seq<char>, otherwise: nat) -> nat {
    match var(env, name) {
        Some(value) => match config::positive_of(value, usize::MAX as nat) {
            Some(number) => number,
            None => otherwise,
        },
        None => otherwise,
    }
}

/// Computes `number`.
pub fn parse_optional_usize_env(env: &Environment, key: &str, otherwise: usize) -> (res: usize)
    ensures
        res == number(*env, key@, otherwise as nat),
{
    match value(env, key) {
        Some(value) => match config::parse_positive_usize(value.as_str()) {
            Some(number) => number,
            None => otherwise,
        },
        None => otherwise,
    }
}

/// The positive number that a variable holds.
pub open spec fn limit(env: Environment, name: Seq<char>) -> Option<nat> {
    match var(env, name) {
        Some(value) => config::positive_of(value, i64::MAX as nat),
        None => None,
    }
}

/// Computes `limit`.
pub fn parse_optional_i64_env(env: &Environment, key: &str) -> (res: Option<i64>)
    ensures
        match res {
            Some(number) => number > 0 && limit(*env, key@) == Some(number as nat),
            None => limit(*env, key@) is None,
        },
{
    match value(env, key) {
        Some(value) => config::parse_positive_i64(value.as_str()),
        None => None,
    }
}

/// The thinking mode that a variable names.
pub open spec fn mode(env: Environment, name: Seq<char>) -> Option<ThinkingMode> {
    match var(env, name) {
        Some(value) => config::thinking_mode_of(value),
        None => None,
    }
}

/// Computes `mode`.
pub fn parse_optional_thinking_mode_env(env: &Environment, key: &str) -> (res: Option<ThinkingMode>)
    ensures
        res == mode(*env, key@),
{
    match value(env, key) {
        Some(value) => config::parse_thinking_mode_value(value.as_str()),
        None => None,
    }
}

/// The permission profile that a variable names, or else full access.
pub open spec fn profile(env: Environment, name: Seq<char>) -> PermissionProfile {
    match var(env, name) {
        Some(value) => match config::permission_profile_of(value) {
            Some(profile) => profile,
            None => PermissionProfile::FullAccess,
        },
        None => PermissionProfile::FullAccess,
    }
}

/// Computes `profile`.
pub fn parse_permission_profile_env(env: &Environment, key: &str) -> (res: PermissionProfile)
    ensures
        res == profile(*env, key@),
{
    match value(env, key) {
        Some(value) => match config::parse_permission_profile_value(value.as_str()) {
            Some(profile) => profile,
            None => PermissionProfile::default(),
        },
        None => PermissionProfile::default(),
    }
}

/// The web search that the environment gives: none without a key, and the Brave search where no
/// other is named.
pub open spec fn web_search_of(env: Environment) -> Option<WebSearchConfigModel> {
    match var(env, "EXAGENT_WEB_SEARCH_API_KEY"@) {
        Some(key) => if text::trim_of(key).len() == 0 {
            None
        } else {
            let named = match var(env, "EXAGENT_WEB_SEARCH_PROVIDER"@) {
                Some(provider) => config::word_of(provider),
                None => Seq::empty(),
            };
            Some(
                WebSearchConfigModel {
                    provider: if named.len() == 0 {
                        "brave"@
                    } else {
                        named
                    },
                    api_key: text::trim_of(key),
                },
            )
        },
        None => None,
    }
}

/// Computes `web_search_of`.
pub fn web_search_config_from_env(env: &Environment) -> (res: Option<WebSearchConfig>)
    ensures
        res.deep_view() == web_search_of(*env),
{
    let api_key = match value(env, "EXAGENT_WEB_SEARCH_API_KEY") {
        Some(key) => text::trim(key.as_str()),
        None => return None,
    };
    if api_key.unicode_len() == 0 {
        return None;
    }
    let mut provider = "brave".to_owned();
    if let Some(value) = value(env, "EXAGENT_WEB_SEARCH_PROVIDER") {
        let named = text::to_lower_case(text::trim(value.as_str()));
        if named.as_str().unicode_len() > 0 {
            provider = named;
        }
    }
    Some(WebSearchConfig { provider, api_key: api_key.to_owned() })
}

/// The settings that the environment gives to an agent that starts in `cwd`.
pub open spec fn config_of(
    env: Environment,
    cwd: Seq<char>,
    model: ResolvedModelConfig,
    policy_mode: PolicyMode,
) -> AgentConfigModel {
    AgentConfigModel {
        model: model.deep_view(),
        thinking_mode: mode(env, "EXAGENT_THINKING_MODE"@),
        permission_profile: profile(env, "EXAGENT_PERMISSION_PROFILE"@),
        workspace_root: cwd,
        cwd,
        command_timeout_secs: 30,
        max_output_bytes: 8192,
        policy_mode,
        auto_compact_token_limit: match limit(env, "EXAGENT_AUTO_COMPACT_TOKEN_LIMIT"@) {
            Some(limit) => Some(limit as i64),
            None => None,
        },
        project_docs_enabled: switch(env, "EXAGENT_PROJECT_DOCS_ENABLED"@, true),
        project_docs_max_bytes: number(env, "EXAGENT_PROJECT_DOCS_MAX_BYTES"@, 65536) as usize,
        skills_enabled: switch(env, "EXAGENT_SKILLS_ENABLED"@, true),
        skills_metadata_max_chars: number(
            env,
            "EXAGENT_SKILLS_METADATA_MAX_CHARS"@,
            8192,
        ) as usize,
        skills_user_roots: match var(env, "EXAGENT_SKILLS_USER_ROOT"@) {
            Some(root) => seq![root],
            None => Seq::empty(),
        },
        mcp_servers: Seq::empty(),
        web_search: web_search_of(env),
        forge_review_gate_enabled: switch(env, "EXAGENT_FORGE_REVIEW_GATE_ENABLED"@, false),
        memory_enabled: switch(env, "EXAGENT_MEMORY_ENABLED"@, true),
        memory_auto_inject_enabled: switch(env, "EXAGENT_MEMORY_AUTO_INJECT_ENABLED"@, true),
        memory_frozen_inject_enabled: switch(env, "EXAGENT_MEMORY_FROZEN_INJECT_ENABLED"@, true),
        memory_auto_context_max_chars: number(
            env,
            "EXAGENT_MEMORY_AUTO_CONTEXT_MAX_CHARS"@,
            2048,
        ) as usize,
        memory_frozen_context_max_chars: number(
            env,
            "EXAGENT_MEMORY_FROZEN_CONTEXT_MAX_CHARS"@,
            1024,
        ) as usize,
        memory_tool_context_max_chars: number(
            env,
            "EXAGENT_MEMORY_TOOL_CONTEXT_MAX_CHARS"@,
            12288,
        ) as usize,
        memory_auto_max_hits: number(env, "EXAGENT_MEMORY_AUTO_MAX_HITS"@, 4) as usize,
        memory_tool_max_hits: number(env, "EXAGENT_MEMORY_TOOL_MAX_HITS"@, 20) as usize,
    }
}

/// The settings that the environment gives to an agent that starts in `current_dir`, or else
/// where it stands. Values that cannot be read count as not set.
pub fn agent_config(
    env: &Environment,
    current_dir: Option<String>,
    model: ResolvedModelConfig,
    policy_mode: PolicyMode,
) -> (res: AgentConfig)
    ensures
        res.deep_view() == config_of(
            *env,
            match current_dir {
                Some(cwd) => cwd@,
                None => "."@,
            },
            model,
            policy_mode,
        ),
{
    let cwd = match current_dir {
        Some(cwd) => cwd,
        None => ".".to_owned(),
    };
    let mut skills_user_roots: Vec<String> = Vec::new();
    proof {
        assert(skills_user_roots.deep_view() =~= Seq::empty());
    }
    if let Some(root) = value(env, "EXAGENT_SKILLS_USER_ROOT") {
        data::append(&mut skills_user_roots, root.clone());
        proof {
            assert(skills_user_roots.deep_view() =~= seq![root@]);
        }
    }
    let auto_compact_token_limit = parse_optional_i64_env(env, "EXAGENT_AUTO_COMPACT_TOKEN_LIMIT");
    let res = AgentConfig {
        model,
        thinking_mode: parse_optional_thinking_mode_env(env, "EXAGENT_THINKING_MODE"),
        permission_profile: parse_permission_profile_env(env, "EXAGENT_PERMISSION_PROFILE"),
        workspace_root: cwd.clone(),
        cwd,
        command_timeout_secs: 30,
        max_output_bytes: 8192,
        policy_mode,
        auto_compact_token_limit,
        project_docs_enabled: parse_optional_bool_env(env, "EXAGENT_PROJECT_DOCS_ENABLED", true),
        project_docs_max_bytes: parse_optional_usize_env(
            env,
            "EXAGENT_PROJECT_DOCS_MAX_BYTES",
            65536,
        ),
        skills_enabled: parse_optional_bool_env(env, "EXAGENT_SKILLS_ENABLED", true),
        skills_metadata_max_chars: parse_optional_usize_env(
            env,
            "EXAGENT_SKILLS_METADATA_MAX_CHARS",
            8192,
        ),
        skills_user_roots,
        mcp_servers: Vec::new(),
        web_search: web_search_config_from_env(env),
        forge_review_gate_enabled: parse_optional_bool_env(
            env,
            "EXAGENT_FORGE_REVIEW_GATE_ENABLED",
            false,
        ),
        memory_enabled: parse_optional_bool_env(env, "EXAGENT_MEMORY_ENABLED", true),
        memory_auto_inject_enabled: parse_optional_bool_env(
            env,
            "EXAGENT_MEMORY_AUTO_INJECT_ENABLED",
            true,
        ),
        memory_frozen_inject_enabled: parse_optional_bool_env(
            env,
            "EXAGENT_MEMORY_FROZEN_INJECT_ENABLED",
            true,
        ),
        memory_auto_context_max_chars: parse_optional_usize_env(
            env,
            "EXAGENT_MEMORY_AUTO_CONTEXT_MAX_CHARS",
            2048,
        ),
        memory_frozen_context_max_chars: parse_optional_usize_env(
            env,
            "EXAGENT_MEMORY_FROZEN_CONTEXT_MAX_CHARS",
            1024,
        ),
        memory_tool_context_max_chars: parse_optional_usize_env(
            env,
            "EXAGENT_MEMORY_TOOL_CONTEXT_MAX_CHARS",
            12288,
        ),
        memory_auto_max_hits: parse_optional_usize_env(env, "EXAGENT_MEMORY_AUTO_MAX_HITS", 4),
        memory_tool_max_hits: parse_optional_usize_env(env, "EXAGENT_MEMORY_TOOL_MAX_HITS", 20),
    };
    proof {
        assert(res.mcp_servers.deep_view() =~= Seq::empty());
    }
    res
}

/// The label of every thinking mode is read back as that mode, so no two modes share a label.
pub proof fn labels_are_read_back(mode: ThinkingMode, other: ThinkingMode)
    ensures
        ThinkingMode::labelled(mode.label_of()) == Some(mode),
        mode.label_of() == other.label_of() ==> mode == other,
{
    label_is_read_back(mode);
    label_is_read_back(other);
}

proof fn label_is_read_back(mode: ThinkingMode)
    ensures
        ThinkingMode::labelled(mode.label_of()) == Some(mode),
{
    reveal_strlit("auto");
    reveal_strlit("off");
    reveal_strlit("none");
    reveal_strlit("minimal");
    reveal_strlit("low");
    reveal_strlit("medium");
    reveal_strlit("high");
    reveal_strlit("x_high");
    assert("auto"@[0] == 'a' && "off"@[0] == 'o' && "none"@[0] == 'n' && "x_high"@[0] == 'x');
    assert("minimal"@.len() == 7 && "medium"@.len() == 6 && "low"@[0] == 'l' && "high"@[0] == 'h');
    assert("minimal"@[0] == 'm' && "medium"@[0] == 'm');
}

/// As a setting, the label of a thinking mode names that mode, but for the longest one, whose
/// label is not among the words that name it.
pub proof fn labels_name_their_modes(mode: ThinkingMode)
    requires
        mode != ThinkingMode::XHigh,
    ensures
        config::thinking_mode_of(mode.label_of()) == Some(mode),
{
    label_is_a_word(mode);
    reveal_strlit("auto");
    reveal_strlit("off");
    reveal_strlit("none");
    reveal_strlit("minimal");
    reveal_strlit("low");
    reveal_strlit("medium");
    reveal_strlit("high");
    assert("auto"@[0] == 'a' && "off"@[0] == 'o' && "none"@[0] == 'n');
    assert("minimal"@.len() == 7 && "medium"@.len() == 6 && "low"@[0] == 'l' && "high"@[0] == 'h');
}

/// The label of a thinking mode is a word already.
proof fn label_is_a_word(mode: ThinkingMode)
    ensures
        config::word_of(mode.label_of()) == mode.label_of(),
{
    reveal_strlit("auto");
    reveal_strlit("off");
    reveal_strlit("minimal");
    reveal_strlit("low");
    reveal_strlit("medium");
    reveal_strlit("high");
    reveal_strlit("x_high");
    let label = mode.label_of();
    assert(text::trim_start_of(label) == label);
    assert(text::trim_end_of(label) == label);
    assert(text::lower_case_of(label) =~= label);
}

/// The name of a permission profile names that profile.
pub proof fn names_name_their_profiles(profile: PermissionProfile)
    ensures
        config::permission_profile_of(profile.name()) == Some(profile),
{
    reveal_strlit("full_access");
    reveal_strlit("external");
    reveal_strlit("managed");
    let name = profile.name();
    assert(text::trim_start_of(name) == name);
    assert(text::trim_end_of(name) == name);
    assert(text::lower_case_of(name) =~= name);
    assert("full_access"@[0] == 'f' && "external"@[0] == 'e' && "managed"@[0] == 'm');
}

/// A conversation is compacted by itself before it fills nine tenths of the context window, and
/// never later than configured.
pub proof fn compaction_comes_in_time(configured: Option<i64>, window: Option<i64>)
    ensures
        match config::auto_compact_limit_of(configured, window) {
            Some(limit) => {
                &&& window matches Some(window) ==> limit <= config::ninety_percent_of(
                    window as int,
                )
                &&& configured matches Some(configured) ==> limit <= configured
            },
            None => configured is None && window is None,
        },
{
}

} // verus!
