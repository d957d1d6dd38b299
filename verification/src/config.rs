//! Settings, and how they are read from text.
use vstd::prelude::*;

use crate::data::Duplicate;
use crate::text;
use crate::types::{ModelRef, ModelRefModel};

verus! {

/// How far tools may reach.
#[derive(Debug, Clone, Copy, PartialEq, Eq, Structural)]
pub enum PermissionProfile {
    FullAccess,
    External,
    Managed,
}

impl DeepView for PermissionProfile {
    type V = PermissionProfile;

    open spec fn deep_view(&self) -> PermissionProfile {
        *self
    }
}

impl Duplicate for PermissionProfile {
    fn duplicate(&self) -> (res: Self) {
        *self
    }
}

/// How much the model is asked to think.
#[derive(Debug, Clone, Copy, PartialEq, Eq, Structural)]
pub enum ThinkingMode {
    Auto,
    Off,
    Minimal,
    Low,
    Medium,
    High,
    XHigh,
}

impl DeepView for ThinkingMode {
    type V = ThinkingMode;

    open spec fn deep_view(&self) -> ThinkingMode {
        *self
    }
}

impl Duplicate for ThinkingMode {
    fn duplicate(&self) -> (res: Self) {
        *self
    }
}

/// The wire format that a provider speaks.
#[derive(Debug, Clone, Copy, PartialEq, Eq, Structural)]
pub enum ProviderProtocol {
    OpenAiChatCompletions,
}

impl DeepView for ProviderProtocol {
    type V = ProviderProtocol;

    open spec fn deep_view(&self) -> ProviderProtocol {
        *self
    }
}

impl Duplicate for ProviderProtocol {
    fn duplicate(&self) -> (res: Self) {
        *self
    }
}

/// What a request is signed with.
#[derive(Debug, Clone, PartialEq, Eq)]
pub enum ResolvedCredential {
    Absent,
    ApiKey(String),
}

/// What a `ResolvedCredential` holds.
#[verifier::ext_equal]
pub enum ResolvedCredentialModel {
    Absent,
    ApiKey(Seq<char>),
}

impl DeepView for ResolvedCredential {
    type V = ResolvedCredentialModel;

    open spec fn deep_view(&self) -> ResolvedCredentialModel {
        match self {
            ResolvedCredential::Absent => ResolvedCredentialModel::Absent,
            ResolvedCredential::ApiKey(value) => ResolvedCredentialModel::ApiKey(value.deep_view()),
        }
    }
}

impl Duplicate for ResolvedCredential {
    fn duplicate(&self) -> (res: Self) {
        match self {
            ResolvedCredential::Absent => ResolvedCredential::Absent,
            ResolvedCredential::ApiKey(value) => ResolvedCredential::ApiKey(value.duplicate()),
        }
    }
}

/// What a model can do.
#[derive(Debug, Clone, PartialEq, Eq)]
pub struct ModelCapabilities {
    pub context_window: Option<i64>,
    pub supports_tools: bool,
}

/// What a `ModelCapabilities` holds.
#[verifier::ext_equal]
pub struct ModelCapabilitiesModel {
    pub context_window: Option<i64>,
    pub supports_tools: bool,
}

impl DeepView for ModelCapabilities {
    type V = ModelCapabilitiesModel;

    open spec fn deep_view(&self) -> ModelCapabilitiesModel {
        ModelCapabilitiesModel {
            context_window: self.context_window.deep_view(),
            supports_tools: self.supports_tools.deep_view(),
        }
    }
}

impl Duplicate for ModelCapabilities {
    fn duplicate(&self) -> (res: Self) {
        ModelCapabilities {
            context_window: self.context_window.duplicate(),
            supports_tools: self.supports_tools.duplicate(),
        }
    }
}

/// A model that is ready to be called.
#[derive(Debug, Clone, PartialEq, Eq)]
pub struct ResolvedModelConfig {
    pub identity: ModelRef,
    pub protocol: ProviderProtocol,
    pub credential: ResolvedCredential,
    pub capabilities: ModelCapabilities,
}

/// What a `ResolvedModelConfig` holds.
#[verifier::ext_equal]
pub struct ResolvedModelConfigModel {
    pub identity: ModelRefModel,
    pub protocol: ProviderProtocol,
    pub credential: ResolvedCredentialModel,
    pub capabilities: ModelCapabilitiesModel,
}

impl DeepView for ResolvedModelConfig {
    type V = ResolvedModelConfigModel;

    open spec fn deep_view(&self) -> ResolvedModelConfigModel {
        ResolvedModelConfigModel {
            identity: self.identity.deep_view(),
            protocol: self.protocol.deep_view(),
            credential: self.credential.deep_view(),
            capabilities: self.capabilities.deep_view(),
        }
    }
}

impl Duplicate for ResolvedModelConfig {
    fn duplicate(&self) -> (res: Self) {
        ResolvedModelConfig {
            identity: self.identity.duplicate(),
            protocol: self.protocol.duplicate(),
            credential: self.credential.duplicate(),
            capabilities: self.capabilities.duplicate(),
        }
    }
}

/// Whether commands are held back for approval.
#[derive(Debug, Clone, Copy, PartialEq, Eq, Structural)]
pub enum PolicyMode {
    Off,
    Enforced,
}

impl DeepView for PolicyMode {
    type V = PolicyMode;

    open spec fn deep_view(&self) -> PolicyMode {
        *self
    }
}

impl Duplicate for PolicyMode {
    fn duplicate(&self) -> (res: Self) {
        *self
    }
}

/// The web search service and its key.
#[derive(Debug, Clone, PartialEq, Eq)]
pub struct WebSearchConfig {
    pub provider: String,
    pub api_key: String,
}

/// What a `WebSearchConfig` holds.
#[verifier::ext_equal]
pub struct WebSearchConfigModel {
    pub provider: Seq<char>,
    pub api_key: Seq<char>,
}

impl DeepView for WebSearchConfig {
    type V = WebSearchConfigModel;

    open spec fn deep_view(&self) -> WebSearchConfigModel {
        WebSearchConfigModel {
            provider: self.provider.deep_view(),
            api_key: self.api_key.deep_view(),
        }
    }
}

impl Duplicate for WebSearchConfig {
    fn duplicate(&self) -> (res: Self) {
        WebSearchConfig {
            provider: self.provider.duplicate(),
            api_key: self.api_key.duplicate(),
        }
    }
}

/// A variable in the environment of a started process.
#[derive(Debug, Clone, PartialEq, Eq)]
pub struct EnvVar {
    pub name: String,
    pub value: String,
}

/// What a `EnvVar` holds.
#[verifier::ext_equal]
pub struct EnvVarModel {
    pub name: Seq<char>,
    pub value: Seq<char>,
}

impl DeepView for EnvVar {
    type V = EnvVarModel;

    open spec fn deep_view(&self) -> EnvVarModel {
        EnvVarModel {
            name: self.name.deep_view(),
            value: self.value.deep_view(),
        }
    }
}

impl Duplicate for EnvVar {
    fn duplicate(&self) -> (res: Self) {
        EnvVar {
            name: self.name.duplicate(),
            value: self.value.duplicate(),
        }
    }
}

/// A tool server that is started as a child process.
#[derive(Debug, Clone, PartialEq, Eq)]
pub struct McpServerConfig {
    pub id: String,
    pub display_name: String,
    pub command: String,
    pub args: Vec<String>,
    pub env: Vec<EnvVar>,
    pub working_directory: Option<String>,
}

/// What a `McpServerConfig` holds.
#[verifier::ext_equal]
pub struct McpServerConfigModel {
    pub id: Seq<char>,
    pub display_name: Seq<char>,
    pub command: Seq<char>,
    pub args: Seq<Seq<char>>,
    pub env: Seq<EnvVarModel>,
    pub working_directory: Option<Seq<char>>,
}

impl DeepView for McpServerConfig {
    type V = McpServerConfigModel;

    open spec fn deep_view(&self) -> McpServerConfigModel {
        McpServerConfigModel {
            id: self.id.deep_view(),
            display_name: self.display_name.deep_view(),
            command: self.command.deep_view(),
            args: self.args.deep_view(),
            env: self.env.deep_view(),
            working_directory: self.working_directory.deep_view(),
        }
    }
}

impl Duplicate for McpServerConfig {
    fn duplicate(&self) -> (res: Self) {
        McpServerConfig {
            id: self.id.duplicate(),
            display_name: self.display_name.duplicate(),
            command: self.command.duplicate(),
            args: self.args.duplicate(),
            env: self.env.duplicate(),
            working_directory: self.working_directory.duplicate(),
        }
    }
}

/// The settings that an agent runs with.
#[derive(Debug, Clone, PartialEq, Eq)]
pub struct AgentConfig {
    pub model: ResolvedModelConfig,
    pub thinking_mode: Option<ThinkingMode>,
    pub permission_profile: PermissionProfile,
    pub workspace_root: String,
    pub cwd: String,
    pub command_timeout_secs: u64,
    pub max_output_bytes: usize,
    pub policy_mode: PolicyMode,
    pub auto_compact_token_limit: Option<i64>,
    pub project_docs_enabled: bool,
    pub project_docs_max_bytes: usize,
    pub skills_enabled: bool,
    pub skills_metadata_max_chars: usize,
    pub skills_user_roots: Vec<String>,
    pub mcp_servers: Vec<McpServerConfig>,
    pub web_search: Option<WebSearchConfig>,
    pub forge_review_gate_enabled: bool,
    pub memory_enabled: bool,
    pub memory_auto_inject_enabled: bool,
    pub memory_frozen_inject_enabled: bool,
    pub memory_auto_context_max_chars: usize,
    pub memory_frozen_context_max_chars: usize,
    pub memory_tool_context_max_chars: usize,
    pub memory_auto_max_hits: usize,
    pub memory_tool_max_hits: usize,
}

/// What a `AgentConfig` holds.
#[verifier::ext_equal]
pub struct AgentConfigModel {
    pub model: ResolvedModelConfigModel,
    pub thinking_mode: Option<ThinkingMode>,
    pub permission_profile: PermissionProfile,
    pub workspace_root: Seq<char>,
    pub cwd: Seq<char>,
    pub command_timeout_secs: u64,
    pub max_output_bytes: usize,
    pub policy_mode: PolicyMode,
    pub auto_compact_token_limit: Option<i64>,
    pub project_docs_enabled: bool,
    pub project_docs_max_bytes: usize,
    pub skills_enabled: bool,
    pub skills_metadata_max_chars: usize,
    pub skills_user_roots: Seq<Seq<char>>,
    pub mcp_servers: Seq<McpServerConfigModel>,
    pub web_search: Option<WebSearchConfigModel>,
    pub forge_review_gate_enabled: bool,
    pub memory_enabled: bool,
    pub memory_auto_inject_enabled: bool,
    pub memory_frozen_inject_enabled: bool,
    pub memory_auto_context_max_chars: usize,
    pub memory_frozen_context_max_chars: usize,
    pub memory_tool_context_max_chars: usize,
    pub memory_auto_max_hits: usize,
    pub memory_tool_max_hits: usize,
}

impl DeepView for AgentConfig {
    type V = AgentConfigModel;

    open spec fn deep_view(&self) -> AgentConfigModel {
        AgentConfigModel {
            model: self.model.deep_view(),
            thinking_mode: self.thinking_mode.deep_view(),
            permission_profile: self.permission_profile.deep_view(),
            workspace_root: self.workspace_root.deep_view(),
            cwd: self.cwd.deep_view(),
            command_timeout_secs: self.command_timeout_secs.deep_view(),
            max_output_bytes: self.max_output_bytes.deep_view(),
            policy_mode: self.policy_mode.deep_view(),
            auto_compact_token_limit: self.auto_compact_token_limit.deep_view(),
            project_docs_enabled: self.project_docs_enabled.deep_view(),
            project_docs_max_bytes: self.project_docs_max_bytes.deep_view(),
            skills_enabled: self.skills_enabled.deep_view(),
            skills_metadata_max_chars: self.skills_metadata_max_chars.deep_view(),
            skills_user_roots: self.skills_user_roots.deep_view(),
            mcp_servers: self.mcp_servers.deep_view(),
            web_search: self.web_search.deep_view(),
            forge_review_gate_enabled: self.forge_review_gate_enabled.deep_view(),
            memory_enabled: self.memory_enabled.deep_view(),
            memory_auto_inject_enabled: self.memory_auto_inject_enabled.deep_view(),
            memory_frozen_inject_enabled: self.memory_frozen_inject_enabled.deep_view(),
            memory_auto_context_max_chars: self.memory_auto_context_max_chars.deep_view(),
            memory_frozen_context_max_chars: self.memory_frozen_context_max_chars.deep_view(),
            memory_tool_context_max_chars: self.memory_tool_context_max_chars.deep_view(),
            memory_auto_max_hits: self.memory_auto_max_hits.deep_view(),
            memory_tool_max_hits: self.memory_tool_max_hits.deep_view(),
        }
    }
}

impl Duplicate for AgentConfig {
    fn duplicate(&self) -> (res: Self) {
        AgentConfig {
            model: self.model.duplicate(),
            thinking_mode: self.thinking_mode.duplicate(),
            permission_profile: self.permission_profile.duplicate(),
            workspace_root: self.workspace_root.duplicate(),
            cwd: self.cwd.duplicate(),
            command_timeout_secs: self.command_timeout_secs.duplicate(),
            max_output_bytes: self.max_output_bytes.duplicate(),
            policy_mode: self.policy_mode.duplicate(),
            auto_compact_token_limit: self.auto_compact_token_limit.duplicate(),
            project_docs_enabled: self.project_docs_enabled.duplicate(),
            project_docs_max_bytes: self.project_docs_max_bytes.duplicate(),
            skills_enabled: self.skills_enabled.duplicate(),
            skills_metadata_max_chars: self.skills_metadata_max_chars.duplicate(),
            skills_user_roots: self.skills_user_roots.duplicate(),
            mcp_servers: self.mcp_servers.duplicate(),
            web_search: self.web_search.duplicate(),
            forge_review_gate_enabled: self.forge_review_gate_enabled.duplicate(),
            memory_enabled: self.memory_enabled.duplicate(),
            memory_auto_inject_enabled: self.memory_auto_inject_enabled.duplicate(),
            memory_frozen_inject_enabled: self.memory_frozen_inject_enabled.duplicate(),
            memory_auto_context_max_chars: self.memory_auto_context_max_chars.duplicate(),
            memory_frozen_context_max_chars: self.memory_frozen_context_max_chars.duplicate(),
            memory_tool_context_max_chars: self.memory_tool_context_max_chars.duplicate(),
            memory_auto_max_hits: self.memory_auto_max_hits.duplicate(),
            memory_tool_max_hits: self.memory_tool_max_hits.duplicate(),
        }
    }
}

impl Default for PermissionProfile {
    fn default() -> (res: Self)
        ensures
            res == PermissionProfile::FullAccess,
    {
        PermissionProfile::FullAccess
    }
}

/// The name of an execution boundary that is not there.
pub fn default_boundary_none() -> (res: String)
    ensures
        res@ == "none"@,
{
    "none".to_owned()
}

impl PermissionProfile {
    /// The name of the profile on the wire.
    pub open spec fn name(self) -> Seq<char> {
        match self {
            PermissionProfile::FullAccess => "full_access"@,
            PermissionProfile::External => "external"@,
            PermissionProfile::Managed => "managed"@,
        }
    }

    /// The name of the profile on the wire.
    pub fn as_str(&self) -> (res: &'static str)
        ensures
            res@ == self.name(),
    {
        match self {
            PermissionProfile::FullAccess => "full_access",
            PermissionProfile::External => "external",
            PermissionProfile::Managed => "managed",
        }
    }

    /// Whether threads can run under this profile: only full access, for now.
    pub open spec fn supported(self) -> bool {
        self == PermissionProfile::FullAccess
    }

    /// Whether threads can run under this profile.
    pub fn is_supported(&self) -> (res: bool)
        ensures
            res == self.supported(),
    {
        matches!(self, PermissionProfile::FullAccess)
    }

    /// The profiles that threads can run under.
    pub fn supported_profiles() -> (res: Vec<Self>)
        ensures
            res@ == seq![PermissionProfile::FullAccess],
    {
        vec![PermissionProfile::FullAccess]
    }

    /// A sentence on what holds a running command back.
    pub fn execution_boundary_summary(&self) -> (res: &'static str)
        ensures
            res@ == match *self {
                PermissionProfile::FullAccess =>
                    "filesystem sandbox: none; network sandbox: none; env isolation: none"@,
                PermissionProfile::External => "execution boundary: provided outside ExAgent"@,
                PermissionProfile::Managed => "execution boundary: managed OS sandbox"@,
            },
    {
        match self {
            PermissionProfile::FullAccess =>
                "filesystem sandbox: none; network sandbox: none; env isolation: none",
            PermissionProfile::External => "execution boundary: provided outside ExAgent",
            PermissionProfile::Managed => "execution boundary: managed OS sandbox",
        }
    }
}

impl ThinkingMode {
    /// Every mode, from the one that leaves the choice to the model up to the longest.
    pub fn all() -> (res: [ThinkingMode; 7])
        ensures
            res@ == seq![
                ThinkingMode::Auto,
                ThinkingMode::Off,
                ThinkingMode::Minimal,
                ThinkingMode::Low,
                ThinkingMode::Medium,
                ThinkingMode::High,
                ThinkingMode::XHigh,
            ],
            forall|mode: ThinkingMode| #[trigger] res@.contains(mode),
            res@.no_duplicates(),
    {
        let res = [
            ThinkingMode::Auto,
            ThinkingMode::Off,
            ThinkingMode::Minimal,
            ThinkingMode::Low,
            ThinkingMode::Medium,
            ThinkingMode::High,
            ThinkingMode::XHigh,
        ];
        proof {
            assert(res@[0] == ThinkingMode::Auto);
            assert(res@[1] == ThinkingMode::Off);
            assert(res@[2] == ThinkingMode::Minimal);
            assert(res@[3] == ThinkingMode::Low);
            assert(res@[4] == ThinkingMode::Medium);
            assert(res@[5] == ThinkingMode::High);
            assert(res@[6] == ThinkingMode::XHigh);
        }
        res
    }

    /// The label of the mode.
    pub open spec fn label_of(self) -> Seq<char> {
        match self {
            ThinkingMode::Auto => "auto"@,
            ThinkingMode::Off => "off"@,
            ThinkingMode::Minimal => "minimal"@,
            ThinkingMode::Low => "low"@,
            ThinkingMode::Medium => "medium"@,
            ThinkingMode::High => "high"@,
            ThinkingMode::XHigh => "x_high"@,
        }
    }

    /// The label of the mode.
    pub fn label(self) -> (res: &'static str)
        ensures
            res@ == self.label_of(),
    {
        match self {
            ThinkingMode::Auto => "auto",
            ThinkingMode::Off => "off",
            ThinkingMode::Minimal => "minimal",
            ThinkingMode::Low => "low",
            ThinkingMode::Medium => "medium",
            ThinkingMode::High => "high",
            ThinkingMode::XHigh => "x_high",
        }
    }

    /// The mode that stands under this label where settings are sent and stored. Some modes have
    /// other labels besides their own.
    pub open spec fn labelled(label: Seq<char>) -> Option<ThinkingMode> {
        if label == "auto"@ {
            Some(ThinkingMode::Auto)
        } else if label == "off"@ || label == "none"@ {
            Some(ThinkingMode::Off)
        } else if label == "minimal"@ {
            Some(ThinkingMode::Minimal)
        } else if label == "low"@ {
            Some(ThinkingMode::Low)
        } else if label == "medium"@ {
            Some(ThinkingMode::Medium)
        } else if label == "high"@ {
            Some(ThinkingMode::High)
        } else if label == "x_high"@ || label == "xhigh"@ || label == "extra_high"@ || label
            == "extra-high"@ {
            Some(ThinkingMode::XHigh)
        } else {
            None
        }
    }

    /// Computes `labelled`.
    pub fn from_label(label: &str) -> (res: Option<ThinkingMode>)
        ensures
            res == ThinkingMode::labelled(label@),
    {
        if text::same(label, "auto") {
            Some(ThinkingMode::Auto)
        } else if text::same(label, "off") || text::same(label, "none") {
            Some(ThinkingMode::Off)
        } else if text::same(label, "minimal") {
            Some(ThinkingMode::Minimal)
        } else if text::same(label, "low") {
            Some(ThinkingMode::Low)
        } else if text::same(label, "medium") {
            Some(ThinkingMode::Medium)
        } else if text::same(label, "high") {
            Some(ThinkingMode::High)
        } else if text::same(label, "x_high") || text::same(label, "xhigh") || text::same(
            label,
            "extra_high",
        ) || text::same(label, "extra-high") {
            Some(ThinkingMode::XHigh)
        } else {
            None
        }
    }
}

/// Nine tenths of `value`, rounded toward zero.
pub open spec fn ninety_percent_of(value: int) -> int {
    if value >= 0 {
        value * 9 / 10
    } else {
        -((-value) * 9 / 10)
    }
}

/// Computes `ninety_percent_of`.
pub fn ninety_percent(value: i64) -> (res: i64)
    ensures
        res == ninety_percent_of(value as int),
{
    if value >= 0 {
        ((value as u128) * 9 / 10) as i64
    } else {
        let magnitude: u128 = (-(value as i128)) as u128;
        let part: u128 = magnitude * 9 / 10;
        -(part as i64)
    }
}

/// The token count at which a conversation is compacted by itself, from the configured limit and
/// the context window of the model.
pub open spec fn auto_compact_limit_of(
    configured: Option<i64>,
    context_window: Option<i64>,
) -> Option<int> {
    match (configured, context_window) {
        (Some(limit), Some(window)) => Some(
            if limit <= ninety_percent_of(window as int) {
                limit as int
            } else {
                ninety_percent_of(window as int)
            },
        ),
        (Some(limit), None) => Some(limit as int),
        (None, Some(window)) => Some(ninety_percent_of(window as int)),
        (None, None) => None,
    }
}

impl AgentConfig {
    /// The token count at which a conversation is compacted by itself: the configured limit, but
    /// never more than nine tenths of the context window of the model.
    pub fn resolved_auto_compact_token_limit(&self) -> (res: Option<i64>)
        ensures
            match (res, auto_compact_limit_of(
                self.auto_compact_token_limit,
                self.model.capabilities.context_window,
            )) {
                (Some(limit), Some(expected)) => limit == expected,
                (None, None) => true,
                _ => false,
            },
    {
        match (self.auto_compact_token_limit, self.model.capabilities.context_window) {
            (Some(configured), Some(window)) => {
                let context_limit: i64 = ninety_percent(window);
                if configured <= context_limit {
                    Some(configured)
                } else {
                    Some(context_limit)
                }
            },
            (Some(configured), None) => Some(configured),
            (None, Some(window)) => Some(ninety_percent(window)),
            (None, None) => None,
        }
    }
}

/// Whether `s` is a row of at least one ASCII digit.
pub open spec fn is_digits(s: Seq<char>) -> bool {
    s.len() > 0 && forall|i: int| 0 <= i < s.len() ==> '0' <= #[trigger] s[i] <= '9'
}

/// The number that a row of digits writes in decimal.
pub open spec fn digits_value(s: Seq<char>) -> nat
    decreases s.len(),
{
    if s.len() == 0 {
        0
    } else {
        digits_value(s.drop_last()) * 10 + (s.last() as nat - '0' as nat) as nat
    }
}

/// The positive number up to `max` that `text` writes in decimal, with white space around it and
/// a plus sign before it allowed.
pub open spec fn positive_of(text: Seq<char>, max: nat) -> Option<nat> {
    let trimmed = text::trim_of(text);
    let digits = if trimmed.len() > 0 && trimmed[0] == '+' {
        trimmed.skip(1)
    } else {
        trimmed
    };
    if is_digits(digits) && 0 < digits_value(digits) <= max {
        Some(digits_value(digits))
    } else {
        None
    }
}

proof fn digits_value_grows(s: Seq<char>, n: int)
    requires
        0 <= n <= s.len(),
        is_digits(s),
    ensures
        digits_value(s.take(n)) <= digits_value(s),
    decreases s.len() - n,
{
    if n < s.len() {
        digits_value_grows(s, n + 1);
        assert(s.take(n + 1).drop_last() =~= s.take(n));
    } else {
        assert(s.take(n) =~= s);
    }
}

fn parse_positive(value: &str, max: u64) -> (res: Option<u64>)
    ensures
        match res {
            Some(number) => positive_of(value@, max as nat) == Some(number as nat),
            None => positive_of(value@, max as nat) is None,
        },
{
    let trimmed = text::chars_of(text::trim(value));
    let mut from: usize = 0;
    if trimmed.len() > 0 && trimmed[0] == '+' {
        from = 1;
    }
    let ghost digits = trimmed@.skip(from as int);
    assert(trimmed@.skip(0) =~= trimmed@);
    if from == trimmed.len() {
        return None;
    }
    let mut number: u64 = 0;
    let mut i: usize = from;
    while i < trimmed.len()
        invariant
            from <= i <= trimmed@.len(),
            from < trimmed@.len(),
            trimmed@ == text::trim_of(value@),
            digits == trimmed@.skip(from as int),
            from == (if trimmed@.len() > 0 && trimmed@[0] == '+' { 1int } else { 0int }),
            digits == (if trimmed@.len() > 0 && trimmed@[0] == '+' {
                trimmed@.skip(1)
            } else {
                trimmed@
            }),
            forall|j: int| 0 <= j < i - from ==> '0' <= #[trigger] digits[j] <= '9',
            number == digits_value(digits.take(i - from)),
            number <= max,
        decreases trimmed@.len() - i,
    {
        let c = trimmed[i];
        let ghost at = i - from;
        assert(digits[at] == c);
        if c < '0' || '9' < c {
            return None;
        }
        let digit: u64 = (c as u64) - ('0' as u64);
        assert(digits.take(at + 1).drop_last() =~= digits.take(at));
        assert(digits_value(digits.take(at + 1)) == number * 10 + digit);
        if number > max / 10 || (number == max / 10 && digit > max % 10) {
            proof {
                assert(digits_value(digits.take(at + 1)) > max);
                if is_digits(digits) {
                    digits_value_grows(digits, at + 1);
                }
            }
            return None;
        }
        number = number * 10 + digit;
        i = i + 1;
    }
    assert(digits.take(digits.len() as int) =~= digits);
    if number > 0 {
        Some(number)
    } else {
        None
    }
}

/// Reads a positive number that fits an `i64`.
pub fn parse_positive_i64(value: &str) -> (res: Option<i64>)
    ensures
        match res {
            Some(number) => number > 0 && positive_of(value@, i64::MAX as nat) == Some(
                number as nat,
            ),
            None => positive_of(value@, i64::MAX as nat) is None,
        },
{
    match parse_positive(value, i64::MAX as u64) {
        Some(number) => Some(number as i64),
        None => None,
    }
}

/// Reads a positive number that fits a `usize`.
pub fn parse_positive_usize(value: &str) -> (res: Option<usize>)
    ensures
        match res {
            Some(number) => positive_of(value@, usize::MAX as nat) == Some(number as nat),
            None => positive_of(value@, usize::MAX as nat) is None,
        },
{
    match parse_positive(value, usize::MAX as u64) {
        Some(number) => Some(number as usize),
        None => None,
    }
}

/// The word that a setting holds: its text without white space around it, in lower case.
pub open spec fn word_of(text: Seq<char>) -> Seq<char> {
    text::lower_case_of(text::trim_of(text))
}

/// The switch that `text` names.
pub open spec fn bool_of(text: Seq<char>) -> Option<bool> {
    let word = word_of(text);
    if word == "1"@ || word == "true"@ || word == "yes"@ || word == "on"@ {
        Some(true)
    } else if word == "0"@ || word == "false"@ || word == "no"@ || word == "off"@ {
        Some(false)
    } else {
        None
    }
}

/// Reads a switch.
pub fn parse_bool_value(value: &str) -> (res: Option<bool>)
    ensures
        res == bool_of(value@),
{
    let word = text::to_lower_case(text::trim(value));
    let word = word.as_str();
    if text::same(word, "1") || text::same(word, "true") || text::same(word, "yes") || text::same(word, "on") {
        Some(true)
    } else if text::same(word, "0") || text::same(word, "false") || text::same(word, "no") || text::same(word, "off") {
        Some(false)
    } else {
        None
    }
}

/// The profile that `text` names.
pub open spec fn permission_profile_of(text: Seq<char>) -> Option<PermissionProfile> {
    let word = word_of(text);
    if word == PermissionProfile::FullAccess.name() {
        Some(PermissionProfile::FullAccess)
    } else if word == PermissionProfile::External.name() {
        Some(PermissionProfile::External)
    } else if word == PermissionProfile::Managed.name() {
        Some(PermissionProfile::Managed)
    } else {
        None
    }
}

/// Reads the name of a permission profile.
pub fn parse_permission_profile_value(value: &str) -> (res: Option<PermissionProfile>)
    ensures
        res == permission_profile_of(value@),
{
    let word = text::to_lower_case(text::trim(value));
    let word = word.as_str();
    if text::same(word, "full_access") {
        Some(PermissionProfile::FullAccess)
    } else if text::same(word, "external") {
        Some(PermissionProfile::External)
    } else if text::same(word, "managed") {
        Some(PermissionProfile::Managed)
    } else {
        None
    }
}

/// The thinking mode that `text` names.
pub open spec fn thinking_mode_of(text: Seq<char>) -> Option<ThinkingMode> {
    let word = word_of(text);
    if word == "auto"@ {
        Some(ThinkingMode::Auto)
    } else if word == "off"@ || word == "none"@ {
        Some(ThinkingMode::Off)
    } else if word == "minimal"@ {
        Some(ThinkingMode::Minimal)
    } else if word == "low"@ {
        Some(ThinkingMode::Low)
    } else if word == "medium"@ {
        Some(ThinkingMode::Medium)
    } else if word == "high"@ {
        Some(ThinkingMode::High)
    } else if word == "xhigh"@ || word == "extra_high"@ || word == "extra-high"@ {
        Some(ThinkingMode::XHigh)
    } else {
        None
    }
}

/// Reads a thinking mode.
pub fn parse_thinking_mode_value(value: &str) -> (res: Option<ThinkingMode>)
    ensures
        res == thinking_mode_of(value@),
{
    let word = text::to_lower_case(text::trim(value));
    let word = word.as_str();
    if text::same(word, "auto") {
        Some(ThinkingMode::Auto)
    } else if text::same(word, "off") || text::same(word, "none") {
        Some(ThinkingMode::Off)
    } else if text::same(word, "minimal") {
        Some(ThinkingMode::Minimal)
    } else if text::same(word, "low") {
        Some(ThinkingMode::Low)
    } else if text::same(word, "medium") {
        Some(ThinkingMode::Medium)
    } else if text::same(word, "high") {
        Some(ThinkingMode::High)
    } else if text::same(word, "xhigh") || text::same(word, "extra_high") || text::same(word, "extra-high") {
        Some(ThinkingMode::XHigh)
    } else {
        None
    }
}

} // verus!
