//! What the words of the environment set, and what is set without them.
use vstd::prelude::*;

use crate::config;
use crate::config::{PermissionProfile, PolicyMode, ResolvedModelConfig, ThinkingMode};
use crate::settings;
use crate::settings::Environment;
use crate::text;
use crate::text_laws;

verus! {

/// The words that switch something on.
pub open spec fn on_words() -> Seq<Seq<char>> {
    seq!["1"@, "true"@, "yes"@, "on"@]
}

/// The words that switch something off.
pub open spec fn off_words() -> Seq<Seq<char>> {
    seq!["0"@, "false"@, "no"@, "off"@]
}

/// The word that a variable holds, in lower case and without blanks round it.
pub open spec fn word(value: Seq<char>) -> Seq<char> {
    text::lower_case_of(text::trim_of(value))
}

/// Whether a switch stands where its variable puts it: on for a word that switches on, off for one
/// that switches off, and otherwise where it stands by itself.
pub open spec fn is_switched(
    env: Environment,
    name: Seq<char>,
    otherwise: bool,
    value: bool,
) -> bool {
    &&& !env@.contains_key(name) ==> value == otherwise
    &&& env@.contains_key(name) ==> {
        let word = word(env@[name]@);
        &&& on_words().contains(word) ==> value
        &&& off_words().contains(word) ==> !value
        &&& !on_words().contains(word) && !off_words().contains(word) ==> value == otherwise
    }
}

/// Whether a number is that of its variable, where the variable holds a positive decimal, and never
/// zero unless it is zero by itself.
pub open spec fn is_set(env: Environment, name: Seq<char>, otherwise: nat, value: usize) -> bool {
    &&& !env@.contains_key(name) ==> value == otherwise
    &&& forall|n: nat|
        env@.contains_key(name) && env@[name]@ == #[trigger] text::decimal_of(n) && 0 < n
            <= usize::MAX ==> value == n
    &&& value > 0 || value == otherwise
}

/// A text switches on exactly where its word is one of those that do, and off where it is one of
/// the others. Case and blanks do not matter, and no word does both.
pub proof fn switches_go_by_words(value: Seq<char>)
    ensures
        config::bool_of(value) == Some(true) <==> on_words().contains(word(value)),
        config::bool_of(value) == Some(false) <==> off_words().contains(word(value)),
        !(on_words().contains(word(value)) && off_words().contains(word(value))),
{
    reveal_strlit("1");
    reveal_strlit("true");
    reveal_strlit("yes");
    reveal_strlit("on");
    reveal_strlit("0");
    reveal_strlit("false");
    reveal_strlit("no");
    reveal_strlit("off");
    let w = word(value);
    let on = on_words();
    let off = off_words();
    assert(on[0] == "1"@ && on[1] == "true"@ && on[2] == "yes"@ && on[3] == "on"@);
    assert(off[0] == "0"@ && off[1] == "false"@ && off[2] == "no"@ && off[3] == "off"@);
    assert("1"@[0] == '1' && "0"@[0] == '0');
    assert("true"@[0] == 't' && "yes"@[0] == 'y' && "on"@[0] == 'o' && "on"@[1] == 'n');
    assert("false"@[0] == 'f' && "no"@[0] == 'n' && "off"@[0] == 'o');
    if on.contains(w) {
        let i = choose|i: int| 0 <= i < on.len() && on[i] == w;
        assert(i == 0 || i == 1 || i == 2 || i == 3);
    }
    if off.contains(w) {
        let i = choose|i: int| 0 <= i < off.len() && off[i] == w;
        assert(i == 0 || i == 1 || i == 2 || i == 3);
    }
}

/// A text without white space at its ends is its own trimmed text.
proof fn nothing_to_trim(s: Seq<char>)
    requires
        s.len() > 0,
        !text::is_white_space(s[0]),
        !text::is_white_space(s.last()),
    ensures
        text::trim_of(s) == s,
{
}

/// A positive decimal is read as its number, with a plus before it as without, where it is not too
/// large. Nothing is read as zero, nor as more than the largest.
pub proof fn positive_numbers_are_read(n: nat, max: nat, value: Seq<char>)
    ensures
        0 < n <= max ==> {
            &&& config::positive_of(text::decimal_of(n), max) == Some(n)
            &&& config::positive_of(seq!['+'] + text::decimal_of(n), max) == Some(n)
        },
        n == 0 || n > max ==> config::positive_of(text::decimal_of(n), max) is None,
        config::positive_of(value, max) matches Some(read) ==> 0 < read <= max,
        config::positive_of(value, max) == config::positive_of(text::trim_of(value), max),
{
    let s = text::decimal_of(n);
    text_laws::decimals_are_read_back(n);
    assert(s.len() > 0);
    assert('0' <= s[0] <= '9');
    assert('0' <= s[s.len() - 1] <= '9');
    nothing_to_trim(s);
    let plus = seq!['+'] + s;
    assert(plus[0] == '+');
    assert(plus.last() == s.last());
    nothing_to_trim(plus);
    assert(plus.skip(1) =~= s);
    text_laws::trimming_takes_blanks_from_both_ends(value);
    let trimmed = text::trim_of(value);
    if trimmed.len() > 0 {
        nothing_to_trim(trimmed);
    } else {
        assert(trimmed =~= Seq::empty());
        assert(text::trim_of(trimmed) =~= trimmed);
    }
}

/// A number of the environment is set by its variable.
proof fn setting_is_read(env: Environment, name: Seq<char>, otherwise: usize)
    requires
        otherwise > 0,
    ensures
        is_set(env, name, otherwise as nat, settings::number(env, name, otherwise as nat) as usize),
        settings::number(env, name, otherwise as nat) <= usize::MAX,
{
    let value = settings::number(env, name, otherwise as nat);
    if env@.contains_key(name) {
        positive_numbers_are_read(0, usize::MAX as nat, env@[name]@);
    }
    assert forall|n: nat|
        env@.contains_key(name) && env@[name]@ == #[trigger] text::decimal_of(n) && 0 < n
            <= usize::MAX implies value == n by {
        positive_numbers_are_read(n, usize::MAX as nat, env@[name]@);
    }
}

/// Each switch and each number of an agent goes by the variable of its own name, and by none other.
/// Without its variable everything but the review gate is switched on.
pub proof fn agents_are_set_up_by_name(
    env: Environment,
    cwd: Seq<char>,
    model: ResolvedModelConfig,
    policy_mode: PolicyMode,
)
    ensures
        ({
            let config = settings::config_of(env, cwd, model, policy_mode);
            &&& is_switched(env, "EXAGENT_PROJECT_DOCS_ENABLED"@, true, config.project_docs_enabled)
            &&& is_switched(env, "EXAGENT_SKILLS_ENABLED"@, true, config.skills_enabled)
            &&& is_switched(env, "EXAGENT_FORGE_REVIEW_GATE_ENABLED"@, false, config.forge_review_gate_enabled)
            &&& is_switched(env, "EXAGENT_MEMORY_ENABLED"@, true, config.memory_enabled)
            &&& is_switched(env, "EXAGENT_MEMORY_AUTO_INJECT_ENABLED"@, true, config.memory_auto_inject_enabled)
            &&& is_switched(env, "EXAGENT_MEMORY_FROZEN_INJECT_ENABLED"@, true, config.memory_frozen_inject_enabled)
            &&& is_set(env, "EXAGENT_PROJECT_DOCS_MAX_BYTES"@, 65536, config.project_docs_max_bytes)
            &&& is_set(env, "EXAGENT_SKILLS_METADATA_MAX_CHARS"@, 8192, config.skills_metadata_max_chars)
            &&& is_set(env, "EXAGENT_MEMORY_AUTO_CONTEXT_MAX_CHARS"@, 2048, config.memory_auto_context_max_chars)
            &&& is_set(env, "EXAGENT_MEMORY_FROZEN_CONTEXT_MAX_CHARS"@, 1024, config.memory_frozen_context_max_chars)
            &&& is_set(env, "EXAGENT_MEMORY_TOOL_CONTEXT_MAX_CHARS"@, 12288, config.memory_tool_context_max_chars)
            &&& is_set(env, "EXAGENT_MEMORY_AUTO_MAX_HITS"@, 4, config.memory_auto_max_hits)
            &&& is_set(env, "EXAGENT_MEMORY_TOOL_MAX_HITS"@, 20, config.memory_tool_max_hits)
        }),
{
    assert forall|value: Seq<char>| #[trigger]
        config::bool_of(value) == config::bool_of(value) implies {
        &&& config::bool_of(value) == Some(true) <==> on_words().contains(word(value))
        &&& config::bool_of(value) == Some(false) <==> off_words().contains(word(value))
        &&& !(on_words().contains(word(value)) && off_words().contains(word(value)))
    } by {
        switches_go_by_words(value);
    }
    setting_is_read(env, "EXAGENT_PROJECT_DOCS_MAX_BYTES"@, 65536);
    setting_is_read(env, "EXAGENT_SKILLS_METADATA_MAX_CHARS"@, 8192);
    setting_is_read(env, "EXAGENT_MEMORY_AUTO_CONTEXT_MAX_CHARS"@, 2048);
    setting_is_read(env, "EXAGENT_MEMORY_FROZEN_CONTEXT_MAX_CHARS"@, 1024);
    setting_is_read(env, "EXAGENT_MEMORY_TOOL_CONTEXT_MAX_CHARS"@, 12288);
    setting_is_read(env, "EXAGENT_MEMORY_AUTO_MAX_HITS"@, 4);
    setting_is_read(env, "EXAGENT_MEMORY_TOOL_MAX_HITS"@, 20);
}

/// An agent starts in the directory that it is started in, with the model and the policy that are
/// given. Its limits on commands are fixed, and it has no servers of its own.
pub proof fn agents_start_where_they_are(
    env: Environment,
    cwd: Seq<char>,
    model: ResolvedModelConfig,
    policy_mode: PolicyMode,
)
    ensures
        ({
            let config = settings::config_of(env, cwd, model, policy_mode);
            &&& config.cwd == cwd
            &&& config.workspace_root == config.cwd
            &&& config.model == model.deep_view()
            &&& config.policy_mode == policy_mode
            &&& config.command_timeout_secs == 30
            &&& config.max_output_bytes == 8192
            &&& config.mcp_servers.len() == 0
            &&& !env@.contains_key("EXAGENT_SKILLS_USER_ROOT"@) ==> config.skills_user_roots.len()
                == 0
            &&& env@.contains_key("EXAGENT_SKILLS_USER_ROOT"@) ==> config.skills_user_roots.len()
                == 1 && config.skills_user_roots[0] == env@["EXAGENT_SKILLS_USER_ROOT"@]@
            &&& !env@.contains_key("EXAGENT_THINKING_MODE"@) ==> config.thinking_mode is None
            &&& env@.contains_key("EXAGENT_THINKING_MODE"@) ==> config.thinking_mode
                == config::thinking_mode_of(env@["EXAGENT_THINKING_MODE"@]@)
            &&& !env@.contains_key("EXAGENT_PERMISSION_PROFILE"@) ==> config.permission_profile
                is FullAccess
            &&& env@.contains_key("EXAGENT_PERMISSION_PROFILE"@) ==> (
            config::permission_profile_of(env@["EXAGENT_PERMISSION_PROFILE"@]@) matches Some(
                profile,
            ) ==> config.permission_profile == profile)
            &&& !env@.contains_key("EXAGENT_AUTO_COMPACT_TOKEN_LIMIT"@)
                ==> config.auto_compact_token_limit is None
            &&& forall|n: nat|
                env@.contains_key("EXAGENT_AUTO_COMPACT_TOKEN_LIMIT"@)
                    && env@["EXAGENT_AUTO_COMPACT_TOKEN_LIMIT"@]@ == #[trigger] text::decimal_of(n)
                    && 0 < n <= i64::MAX ==> config.auto_compact_token_limit == Some(n as i64)
        }),
{
    let config = settings::config_of(env, cwd, model, policy_mode);
    let name = "EXAGENT_AUTO_COMPACT_TOKEN_LIMIT"@;
    assert forall|n: nat|
        env@.contains_key(name) && env@[name]@ == #[trigger] text::decimal_of(n) && 0 < n
            <= i64::MAX implies config.auto_compact_token_limit == Some(n as i64) by {
        positive_numbers_are_read(n, i64::MAX as nat, env@[name]@);
    }
}

/// The web is searched only with a key that is not blank. The key is used without the blanks round
/// it, and the provider is the one that is named, in lower case, or that which is used by default.
pub proof fn searches_need_a_key(env: Environment)
    ensures
        ({
            let found = settings::web_search_of(env);
            let key = "EXAGENT_WEB_SEARCH_API_KEY"@;
            let provider = "EXAGENT_WEB_SEARCH_PROVIDER"@;
            &&& found is Some <==> env@.contains_key(key) && !text_laws::is_blank(env@[key]@)
            &&& found matches Some(search) ==> {
                &&& search.api_key == text::trim_of(env@[key]@)
                &&& env@.contains_key(provider) && !text_laws::is_blank(env@[provider]@)
                    ==> search.provider == word(env@[provider]@)
                &&& !env@.contains_key(provider) || text_laws::is_blank(env@[provider]@)
                    ==> search.provider == "brave"@
            }
        }),
{
    let key = "EXAGENT_WEB_SEARCH_API_KEY"@;
    let provider = "EXAGENT_WEB_SEARCH_PROVIDER"@;
    if env@.contains_key(key) {
        text_laws::blanks_are_trimmed_away(env@[key]@);
    }
    if env@.contains_key(provider) {
        text_laws::blanks_are_trimmed_away(env@[provider]@);
        text_laws::case_does_not_matter(text::trim_of(env@[provider]@));
    }
}

/// A label is the word for its mode. The highest mode is also known without the mark between its
/// words, and by a longer name; no thinking is also known as none.
pub proof fn labels_go_by_their_modes(mode: ThinkingMode, label: Seq<char>)
    ensures
        mode is Auto <==> mode.label_of() == "auto"@,
        mode is Off <==> mode.label_of() == "off"@,
        mode is Minimal <==> mode.label_of() == "minimal"@,
        mode is Low <==> mode.label_of() == "low"@,
        mode is Medium <==> mode.label_of() == "medium"@,
        mode is High <==> mode.label_of() == "high"@,
        mode is XHigh <==> mode.label_of() == "x_high"@,
        ThinkingMode::labelled(label) == Some(mode) <==> label == mode.label_of() || mode is Off
            && label == "none"@ || mode is XHigh && (label == "xhigh"@ || label == "extra_high"@
            || label == "extra-high"@),
        ThinkingMode::labelled(label) is None <==> forall|mode: ThinkingMode|
            #[trigger] mode.label_of() != label && label != "none"@ && label != "xhigh"@ && label
                != "extra_high"@ && label != "extra-high"@,
{
    reveal_strlit("auto");
    reveal_strlit("off");
    reveal_strlit("minimal");
    reveal_strlit("low");
    reveal_strlit("medium");
    reveal_strlit("high");
    reveal_strlit("x_high");
    reveal_strlit("xhigh");
    reveal_strlit("none");
    reveal_strlit("extra_high");
    reveal_strlit("extra-high");
    assert("auto"@[0] == 'a' && "high"@[0] == 'h' && "none"@[0] == 'n');
    assert("off"@[0] == 'o' && "low"@[0] == 'l');
    assert("x_high"@[0] == 'x' && "medium"@[0] == 'm' && "xhigh"@[0] == 'x');
    assert("extra_high"@[5] == '_' && "extra-high"@[5] == '-');
    assert(ThinkingMode::Auto.label_of() == "auto"@);
    assert(ThinkingMode::Off.label_of() == "off"@);
    assert(ThinkingMode::Minimal.label_of() == "minimal"@);
    assert(ThinkingMode::Low.label_of() == "low"@);
    assert(ThinkingMode::Medium.label_of() == "medium"@);
    assert(ThinkingMode::High.label_of() == "high"@);
    assert(ThinkingMode::XHigh.label_of() == "x_high"@);
}

/// A variable names the mode whose label its word is, but for the highest, which has names of its
/// own there: a word with the mark of the label names none.
pub proof fn variables_name_modes(value: Seq<char>, mode: ThinkingMode)
    ensures
        mode !is XHigh ==> (config::thinking_mode_of(value) == Some(mode)
            <==> ThinkingMode::labelled(word(value)) == Some(mode)),
        mode is XHigh ==> (config::thinking_mode_of(value) == Some(mode)
            <==> ThinkingMode::labelled(word(value)) == Some(mode) && word(value)
            != mode.label_of()),
{
    labels_go_by_their_modes(mode, word(value));
    reveal_strlit("x_high");
    reveal_strlit("auto");
    reveal_strlit("none");
    reveal_strlit("off");
    reveal_strlit("minimal");
    reveal_strlit("low");
    reveal_strlit("medium");
    reveal_strlit("high");
    reveal_strlit("xhigh");
    reveal_strlit("extra_high");
    reveal_strlit("extra-high");
    assert("x_high"@[0] == 'x' && "medium"@[0] == 'm' && "xhigh"@[0] == 'x');
    assert("x_high"@.len() == 6 && "xhigh"@.len() == 5);
    assert("extra_high"@.len() == 10 && "extra-high"@.len() == 10);
    assert("auto"@.len() == 4 && "off"@.len() == 3 && "none"@.len() == 4 && "minimal"@.len() == 7);
    assert("low"@.len() == 3 && "medium"@.len() == 6 && "high"@.len() == 4);
}

/// A profile goes by its own name, which a variable may write in any case and with blanks round it.
/// Only one profile can be used.
pub proof fn profiles_go_by_their_names(profile: PermissionProfile, value: Seq<char>)
    ensures
        profile is FullAccess <==> profile.name() == "full_access"@,
        profile is External <==> profile.name() == "external"@,
        profile is Managed <==> profile.name() == "managed"@,
        config::permission_profile_of(value) == Some(profile) <==> word(value) == profile.name(),
        profile.supported() <==> profile.name() == "full_access"@,
{
    reveal_strlit("full_access");
    reveal_strlit("external");
    reveal_strlit("managed");
    assert("full_access"@.len() == 11 && "external"@.len() == 8 && "managed"@.len() == 7);
}

/// Nine tenths of a number, cut towards zero: ten times as much is at most nine times the number,
/// and short of it by less than ten.
pub proof fn nine_tenths(value: int)
    ensures
        value >= 0 ==> 9 * value - 10 < 10 * config::ninety_percent_of(value) <= 9 * value,
        config::ninety_percent_of(-value) == -config::ninety_percent_of(value),
{
}

/// A thread is compacted at the limit that is configured or at nine tenths of its window, whichever
/// comes first, and never without either.
pub proof fn the_smaller_limit_counts(configured: Option<i64>, window: Option<i64>)
    ensures
        ({
            let limit = config::auto_compact_limit_of(configured, window);
            &&& limit is None <==> configured is None && window is None
            &&& limit matches Some(limit) ==> {
                ||| configured is Some && limit == configured->0
                ||| window is Some && limit == config::ninety_percent_of(window->0 as int)
            }
            &&& limit is Some && configured is Some ==> limit->0 <= configured->0
            &&& limit is Some && window is Some ==> limit->0 <= config::ninety_percent_of(
                window->0 as int,
            )
        }),
{
}

/// A profile or a mode that cannot be read is none: the profile is then the one that is used by
/// default.
pub proof fn unreadable_settings_are_left(env: Environment, name: Seq<char>)
    ensures
        ({
            let value = env@[name]@;
            &&& env@.contains_key(name) && config::permission_profile_of(value) is None
                ==> settings::profile(env, name) is FullAccess
            &&& env@.contains_key(name) && config::permission_profile_of(value) is Some ==> Some(
                settings::profile(env, name),
            ) == config::permission_profile_of(value)
            &&& !env@.contains_key(name) ==> settings::profile(env, name) is FullAccess
                && settings::mode(env, name) is None && settings::limit(env, name) is None
        }),
{
}

} // verus!
