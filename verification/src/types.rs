//! Conversation data: messages, tool calls, token counts.
use vstd::prelude::*;

use crate::data::{append, Duplicate};
use crate::ids::TurnId;
use crate::text;

verus! {

/// Who speaks in a conversation message.
#[derive(Debug, Clone, Copy, PartialEq, Eq, Structural)]
pub enum MessageRole {
    System,
    User,
    Assistant,
    Tool,
}

impl DeepView for MessageRole {
    type V = MessageRole;

    open spec fn deep_view(&self) -> MessageRole {
        *self
    }
}

impl Duplicate for MessageRole {
    fn duplicate(&self) -> (res: Self) {
        *self
    }
}

/// How closely an image is looked at.
#[derive(Debug, Clone, Copy, PartialEq, Eq, Structural)]
pub enum ImageDetail {
    Auto,
    Low,
    High,
}

impl DeepView for ImageDetail {
    type V = ImageDetail;

    open spec fn deep_view(&self) -> ImageDetail {
        *self
    }
}

impl Duplicate for ImageDetail {
    fn duplicate(&self) -> (res: Self) {
        *self
    }
}

/// One piece of what the user hands in. Images are named by path or by URL.
#[derive(Debug, Clone, PartialEq, Eq)]
pub enum UserInput {
    Text { text: String },
    LocalImage { path: String, detail: Option<ImageDetail> },
    ImageUrl { url: String, detail: Option<ImageDetail> },
}

/// What a `UserInput` holds.
#[verifier::ext_equal]
pub enum UserInputModel {
    Text { text: Seq<char> },
    LocalImage { path: Seq<char>, detail: Option<ImageDetail> },
    ImageUrl { url: Seq<char>, detail: Option<ImageDetail> },
}

impl DeepView for UserInput {
    type V = UserInputModel;

    open spec fn deep_view(&self) -> UserInputModel {
        match self {
            UserInput::Text { text } => UserInputModel::Text {
                text: text.deep_view(),
            },
            UserInput::LocalImage { path, detail } => UserInputModel::LocalImage {
                path: path.deep_view(),
                detail: detail.deep_view(),
            },
            UserInput::ImageUrl { url, detail } => UserInputModel::ImageUrl {
                url: url.deep_view(),
                detail: detail.deep_view(),
            },
        }
    }
}

impl Duplicate for UserInput {
    fn duplicate(&self) -> (res: Self) {
        match self {
            UserInput::Text { text } => UserInput::Text {
                text: text.duplicate(),
            },
            UserInput::LocalImage { path, detail } => UserInput::LocalImage {
                path: path.duplicate(),
                detail: detail.duplicate(),
            },
            UserInput::ImageUrl { url, detail } => UserInput::ImageUrl {
                url: url.duplicate(),
                detail: detail.duplicate(),
            },
        }
    }
}

/// One piece of a conversation message.
#[derive(Debug, Clone, PartialEq, Eq)]
pub enum ConversationContentPart {
    Text { text: String },
    LocalImage { path: String, detail: Option<ImageDetail> },
    ImageUrl { url: String, detail: Option<ImageDetail> },
}

/// What a `ConversationContentPart` holds.
#[verifier::ext_equal]
pub enum ConversationContentPartModel {
    Text { text: Seq<char> },
    LocalImage { path: Seq<char>, detail: Option<ImageDetail> },
    ImageUrl { url: Seq<char>, detail: Option<ImageDetail> },
}

impl DeepView for ConversationContentPart {
    type V = ConversationContentPartModel;

    open spec fn deep_view(&self) -> ConversationContentPartModel {
        match self {
            ConversationContentPart::Text { text } => ConversationContentPartModel::Text {
                text: text.deep_view(),
            },
            ConversationContentPart::LocalImage {
                path,
                detail,
            } => ConversationContentPartModel::LocalImage {
                path: path.deep_view(),
                detail: detail.deep_view(),
            },
            ConversationContentPart::ImageUrl {
                url,
                detail,
            } => ConversationContentPartModel::ImageUrl {
                url: url.deep_view(),
                detail: detail.deep_view(),
            },
        }
    }
}

impl Duplicate for ConversationContentPart {
    fn duplicate(&self) -> (res: Self) {
        match self {
            ConversationContentPart::Text { text } => ConversationContentPart::Text {
                text: text.duplicate(),
            },
            ConversationContentPart::LocalImage {
                path,
                detail,
            } => ConversationContentPart::LocalImage {
                path: path.duplicate(),
                detail: detail.duplicate(),
            },
            ConversationContentPart::ImageUrl { url, detail } => ConversationContentPart::ImageUrl {
                url: url.duplicate(),
                detail: detail.duplicate(),
            },
        }
    }
}

/// How a provider marks a reasoning block.
#[derive(Debug, Clone, PartialEq, Eq)]
pub enum ReasoningSignature {
    OpenAiField { field: String },
    GeminiThoughtSignature(String),
}

/// What a `ReasoningSignature` holds.
#[verifier::ext_equal]
pub enum ReasoningSignatureModel {
    OpenAiField { field: Seq<char> },
    GeminiThoughtSignature(Seq<char>),
}

impl DeepView for ReasoningSignature {
    type V = ReasoningSignatureModel;

    open spec fn deep_view(&self) -> ReasoningSignatureModel {
        match self {
            ReasoningSignature::OpenAiField { field } => ReasoningSignatureModel::OpenAiField {
                field: field.deep_view(),
            },
            ReasoningSignature::GeminiThoughtSignature(value) => ReasoningSignatureModel::GeminiThoughtSignature(value.deep_view()),
        }
    }
}

impl Duplicate for ReasoningSignature {
    fn duplicate(&self) -> (res: Self) {
        match self {
            ReasoningSignature::OpenAiField { field } => ReasoningSignature::OpenAiField {
                field: field.duplicate(),
            },
            ReasoningSignature::GeminiThoughtSignature(value) => ReasoningSignature::GeminiThoughtSignature(value.duplicate()),
        }
    }
}

/// A stretch of model reasoning.
#[derive(Debug, Clone, PartialEq, Eq)]
pub struct ReasoningBlock {
    pub text: String,
    pub signature: Option<ReasoningSignature>,
    pub redacted: bool,
}

/// What a `ReasoningBlock` holds.
#[verifier::ext_equal]
pub struct ReasoningBlockModel {
    pub text: Seq<char>,
    pub signature: Option<ReasoningSignatureModel>,
    pub redacted: bool,
}

impl DeepView for ReasoningBlock {
    type V = ReasoningBlockModel;

    open spec fn deep_view(&self) -> ReasoningBlockModel {
        ReasoningBlockModel {
            text: self.text.deep_view(),
            signature: self.signature.deep_view(),
            redacted: self.redacted.deep_view(),
        }
    }
}

impl Duplicate for ReasoningBlock {
    fn duplicate(&self) -> (res: Self) {
        ReasoningBlock {
            text: self.text.duplicate(),
            signature: self.signature.duplicate(),
            redacted: self.redacted.duplicate(),
        }
    }
}

/// A tool call that the model asks for. `arguments` and `thought_signature` are JSON text.
#[derive(Debug, Clone, PartialEq, Eq)]
pub struct ToolCall {
    pub id: String,
    pub name: String,
    pub arguments: String,
    pub thought_signature: Option<String>,
}

/// What a `ToolCall` holds.
#[verifier::ext_equal]
pub struct ToolCallModel {
    pub id: Seq<char>,
    pub name: Seq<char>,
    pub arguments: Seq<char>,
    pub thought_signature: Option<Seq<char>>,
}

impl DeepView for ToolCall {
    type V = ToolCallModel;

    open spec fn deep_view(&self) -> ToolCallModel {
        ToolCallModel {
            id: self.id.deep_view(),
            name: self.name.deep_view(),
            arguments: self.arguments.deep_view(),
            thought_signature: self.thought_signature.deep_view(),
        }
    }
}

impl Duplicate for ToolCall {
    fn duplicate(&self) -> (res: Self) {
        ToolCall {
            id: self.id.duplicate(),
            name: self.name.duplicate(),
            arguments: self.arguments.duplicate(),
            thought_signature: self.thought_signature.duplicate(),
        }
    }
}

/// What the model answered in one step.
#[derive(Debug, Clone, PartialEq, Eq)]
pub struct AssistantTurn {
    pub text: Option<String>,
    pub tool_calls: Vec<ToolCall>,
    pub reasoning: Vec<ReasoningBlock>,
}

/// One message of the conversation with the model.
#[derive(Debug, Clone, PartialEq, Eq)]
pub struct ConversationMessage {
    pub role: MessageRole,
    pub content: String,
    pub parts: Vec<ConversationContentPart>,
    pub reasoning: Vec<ReasoningBlock>,
    pub tool_calls: Vec<ToolCall>,
    /// Put there by the runtime, not by the user or the model.
    pub injected: bool,
}

/// What a `ConversationMessage` holds.
#[verifier::ext_equal]
pub struct ConversationMessageModel {
    pub role: MessageRole,
    pub content: Seq<char>,
    pub parts: Seq<ConversationContentPartModel>,
    pub reasoning: Seq<ReasoningBlockModel>,
    pub tool_calls: Seq<ToolCallModel>,
    pub injected: bool,
}

impl DeepView for ConversationMessage {
    type V = ConversationMessageModel;

    open spec fn deep_view(&self) -> ConversationMessageModel {
        ConversationMessageModel {
            role: self.role.deep_view(),
            content: self.content.deep_view(),
            parts: self.parts.deep_view(),
            reasoning: self.reasoning.deep_view(),
            tool_calls: self.tool_calls.deep_view(),
            injected: self.injected.deep_view(),
        }
    }
}

impl Duplicate for ConversationMessage {
    fn duplicate(&self) -> (res: Self) {
        ConversationMessage {
            role: self.role.duplicate(),
            content: self.content.duplicate(),
            parts: self.parts.duplicate(),
            reasoning: self.reasoning.duplicate(),
            tool_calls: self.tool_calls.duplicate(),
            injected: self.injected.duplicate(),
        }
    }
}

/// A conversation message and the turn that it belongs to.
#[derive(Debug, Clone, PartialEq, Eq)]
pub struct ResponseItem {
    pub turn_id: TurnId,
    pub message: ConversationMessage,
}

/// What a `ResponseItem` holds.
#[verifier::ext_equal]
pub struct ResponseItemModel {
    pub turn_id: Seq<char>,
    pub message: ConversationMessageModel,
}

impl DeepView for ResponseItem {
    type V = ResponseItemModel;

    open spec fn deep_view(&self) -> ResponseItemModel {
        ResponseItemModel {
            turn_id: self.turn_id.deep_view(),
            message: self.message.deep_view(),
        }
    }
}

/// How a tool call ended.
#[derive(Debug, Clone, Copy, PartialEq, Eq, Structural)]
pub enum ToolStatus {
    Success,
    Error,
}

impl DeepView for ToolStatus {
    type V = ToolStatus;

    open spec fn deep_view(&self) -> ToolStatus {
        *self
    }
}

/// The outcome of a tool call. `meta` is JSON text.
#[derive(Debug, Clone, PartialEq, Eq)]
pub struct ToolResult {
    pub tool_call_id: String,
    pub tool_name: String,
    pub status: ToolStatus,
    pub content: String,
    pub meta: Option<String>,
}

/// Names a model of a provider.
#[derive(Debug, Clone, PartialEq, Eq)]
pub struct ModelRef {
    pub provider_id: String,
    pub model_id: String,
}

/// What a `ModelRef` holds.
#[verifier::ext_equal]
pub struct ModelRefModel {
    pub provider_id: Seq<char>,
    pub model_id: Seq<char>,
}

impl DeepView for ModelRef {
    type V = ModelRefModel;

    open spec fn deep_view(&self) -> ModelRefModel {
        ModelRefModel {
            provider_id: self.provider_id.deep_view(),
            model_id: self.model_id.deep_view(),
        }
    }
}

impl Duplicate for ModelRef {
    fn duplicate(&self) -> (res: Self) {
        ModelRef {
            provider_id: self.provider_id.duplicate(),
            model_id: self.model_id.duplicate(),
        }
    }
}

/// One answer that a question offers.
#[derive(Debug, Clone, PartialEq, Eq)]
pub struct QuestionOption {
    pub label: String,
    pub description: String,
}

/// What a `QuestionOption` holds.
#[verifier::ext_equal]
pub struct QuestionOptionModel {
    pub label: Seq<char>,
    pub description: Seq<char>,
}

impl DeepView for QuestionOption {
    type V = QuestionOptionModel;

    open spec fn deep_view(&self) -> QuestionOptionModel {
        QuestionOptionModel {
            label: self.label.deep_view(),
            description: self.description.deep_view(),
        }
    }
}

impl Duplicate for QuestionOption {
    fn duplicate(&self) -> (res: Self) {
        QuestionOption {
            label: self.label.duplicate(),
            description: self.description.duplicate(),
        }
    }
}

/// A question put to the user.
#[derive(Debug, Clone, PartialEq, Eq)]
pub struct QuestionPrompt {
    pub question: String,
    pub options: Vec<QuestionOption>,
    pub multiple: bool,
}

/// What a `QuestionPrompt` holds.
#[verifier::ext_equal]
pub struct QuestionPromptModel {
    pub question: Seq<char>,
    pub options: Seq<QuestionOptionModel>,
    pub multiple: bool,
}

impl DeepView for QuestionPrompt {
    type V = QuestionPromptModel;

    open spec fn deep_view(&self) -> QuestionPromptModel {
        QuestionPromptModel {
            question: self.question.deep_view(),
            options: self.options.deep_view(),
            multiple: self.multiple.deep_view(),
        }
    }
}

impl Duplicate for QuestionPrompt {
    fn duplicate(&self) -> (res: Self) {
        QuestionPrompt {
            question: self.question.duplicate(),
            options: self.options.duplicate(),
            multiple: self.multiple.duplicate(),
        }
    }
}

/// What an agent is made for.
#[derive(Debug, Clone, Copy, PartialEq, Eq, Structural)]
pub enum AgentType {
    Planner,
    Explorer,
    Reviewer,
    WorkflowResearch,
}

impl DeepView for AgentType {
    type V = AgentType;

    open spec fn deep_view(&self) -> AgentType {
        *self
    }
}

impl Duplicate for AgentType {
    fn duplicate(&self) -> (res: Self) {
        *self
    }
}

/// Where a request for approval stands.
#[derive(Debug, Clone, Copy, PartialEq, Eq, Structural)]
pub enum ApprovalStatus {
    Pending,
    Approved,
    Denied,
}

impl DeepView for ApprovalStatus {
    type V = ApprovalStatus;

    open spec fn deep_view(&self) -> ApprovalStatus {
        *self
    }
}

/// Counted model tokens.
#[derive(Debug, Clone, PartialEq, Eq)]
pub struct TokenUsage {
    pub input_tokens: i64,
    pub output_tokens: i64,
    pub total_tokens: i64,
}

/// What a `TokenUsage` holds.
#[verifier::ext_equal]
pub struct TokenUsageModel {
    pub input_tokens: i64,
    pub output_tokens: i64,
    pub total_tokens: i64,
}

impl DeepView for TokenUsage {
    type V = TokenUsageModel;

    open spec fn deep_view(&self) -> TokenUsageModel {
        TokenUsageModel {
            input_tokens: self.input_tokens.deep_view(),
            output_tokens: self.output_tokens.deep_view(),
            total_tokens: self.total_tokens.deep_view(),
        }
    }
}

impl Duplicate for TokenUsage {
    fn duplicate(&self) -> (res: Self) {
        TokenUsage {
            input_tokens: self.input_tokens.duplicate(),
            output_tokens: self.output_tokens.duplicate(),
            total_tokens: self.total_tokens.duplicate(),
        }
    }
}

/// Token counts of a thread.
#[derive(Debug, Clone, PartialEq, Eq)]
pub struct TokenUsageInfo {
    pub total_token_usage: TokenUsage,
    pub last_token_usage: TokenUsage,
}

/// What a `TokenUsageInfo` holds.
#[verifier::ext_equal]
pub struct TokenUsageInfoModel {
    pub total_token_usage: TokenUsageModel,
    pub last_token_usage: TokenUsageModel,
}

impl DeepView for TokenUsageInfo {
    type V = TokenUsageInfoModel;

    open spec fn deep_view(&self) -> TokenUsageInfoModel {
        TokenUsageInfoModel {
            total_token_usage: self.total_token_usage.deep_view(),
            last_token_usage: self.last_token_usage.deep_view(),
        }
    }
}

impl Duplicate for TokenUsageInfo {
    fn duplicate(&self) -> (res: Self) {
        TokenUsageInfo {
            total_token_usage: self.total_token_usage.duplicate(),
            last_token_usage: self.last_token_usage.duplicate(),
        }
    }
}

/// What a compaction kept of the conversation.
#[derive(Debug, Clone, PartialEq, Eq)]
pub struct CompactionSummary {
    pub summary: String,
}

/// What a `CompactionSummary` holds.
#[verifier::ext_equal]
pub struct CompactionSummaryModel {
    pub summary: Seq<char>,
}

impl DeepView for CompactionSummary {
    type V = CompactionSummaryModel;

    open spec fn deep_view(&self) -> CompactionSummaryModel {
        CompactionSummaryModel {
            summary: self.summary.deep_view(),
        }
    }
}

impl Duplicate for CompactionSummary {
    fn duplicate(&self) -> (res: Self) {
        CompactionSummary {
            summary: self.summary.duplicate(),
        }
    }
}

/// A command that waits for approval.
#[derive(Debug, Clone, PartialEq, Eq)]
pub struct CommandRequest {
    pub command: String,
    pub cwd: String,
    pub timeout_secs: u64,
    pub persistent: bool,
}

/// Whether a part is an image.
pub open spec fn part_is_image(part: ConversationContentPartModel) -> bool {
    !(part is Text)
}

impl ConversationContentPart {
    /// Whether the part is an image.
    pub fn is_image(&self) -> (res: bool)
        ensures
            res == part_is_image(self.deep_view()),
    {
        !matches!(self, ConversationContentPart::Text { .. })
    }
}

/// The input that a message part came from.
pub open spec fn input_of_part(part: ConversationContentPartModel) -> UserInputModel {
    match part {
        ConversationContentPartModel::Text { text } => UserInputModel::Text { text },
        ConversationContentPartModel::LocalImage { path, detail } => UserInputModel::LocalImage {
            path,
            detail,
        },
        ConversationContentPartModel::ImageUrl { url, detail } => UserInputModel::ImageUrl {
            url,
            detail,
        },
    }
}

/// The message part for a piece of user input.
pub open spec fn part_of_input(input: UserInputModel) -> ConversationContentPartModel {
    match input {
        UserInputModel::Text { text } => ConversationContentPartModel::Text { text },
        UserInputModel::LocalImage { path, detail } => ConversationContentPartModel::LocalImage {
            path,
            detail,
        },
        UserInputModel::ImageUrl { url, detail } => ConversationContentPartModel::ImageUrl {
            url,
            detail,
        },
    }
}

/// The texts of a row of input, without its images.
pub open spec fn input_texts(input: Seq<UserInputModel>) -> Seq<Seq<char>>
    decreases input.len(),
{
    if input.len() == 0 {
        Seq::empty()
    } else {
        match input.last() {
            UserInputModel::Text { text } => input_texts(input.drop_last()).push(text),
            _ => input_texts(input.drop_last()),
        }
    }
}

/// A plain message of this role.
pub open spec fn plain_message(role: MessageRole, content: Seq<char>) -> ConversationMessageModel {
    ConversationMessageModel {
        role,
        content,
        parts: Seq::empty(),
        reasoning: Seq::empty(),
        tool_calls: Seq::empty(),
        injected: false,
    }
}

impl ConversationMessage {
    fn plain(role: MessageRole, content: String) -> (res: Self)
        ensures
            res.deep_view() == plain_message(role, content@),
    {
        let res = ConversationMessage {
            role,
            content,
            parts: Vec::new(),
            reasoning: Vec::new(),
            tool_calls: Vec::new(),
            injected: false,
        };
        proof {
            assert(res.deep_view().parts =~= Seq::empty());
            assert(res.deep_view().reasoning =~= Seq::empty());
            assert(res.deep_view().tool_calls =~= Seq::empty());
        }
        res
    }

    /// What the user said.
    pub fn user(content: &str) -> (res: Self)
        ensures
            res.deep_view() == plain_message(MessageRole::User, content@),
    {
        ConversationMessage::plain(MessageRole::User, content.to_owned())
    }

    /// What the user handed in: the texts, in lines of their own, and every piece as a part.
    pub fn user_parts(input: Vec<UserInput>) -> (res: Self)
        ensures
            res.deep_view() == (ConversationMessageModel {
                parts: input.deep_view().map_values(|piece: UserInputModel| part_of_input(piece)),
                ..plain_message(
                    MessageRole::User,
                    text::join_of(input_texts(input.deep_view()), "\n"@),
                )
            }),
    {
        let mut parts: Vec<ConversationContentPart> = Vec::new();
        let mut texts: Vec<String> = Vec::new();
        proof {
            assert(text::texts_of(texts@) =~= input_texts(input.deep_view().take(0)));
        }
        for i in 0..input.len()
            invariant
                parts.deep_view() =~= input.deep_view().take(i as int).map_values(
                    |piece: UserInputModel| part_of_input(piece),
                ),
                text::texts_of(texts@) == input_texts(input.deep_view().take(i as int)),
        {
            proof {
                let seen = input.deep_view().take(i + 1);
                assert(seen.drop_last() =~= input.deep_view().take(i as int));
                assert(seen.last() == input@[i as int].deep_view());
            }
            match &input[i] {
                UserInput::Text { text } => {
                    let ghost before = texts@;
                    texts.push(text.clone());
                    proof {
                        assert(text::texts_of(texts@) =~= text::texts_of(before).push(text@));
                    }
                    append(&mut parts, ConversationContentPart::Text { text: text.clone() });
                },
                UserInput::LocalImage { path, detail } => append(
                    &mut parts,
                    ConversationContentPart::LocalImage { path: path.clone(), detail: *detail },
                ),
                UserInput::ImageUrl { url, detail } => append(
                    &mut parts,
                    ConversationContentPart::ImageUrl { url: url.clone(), detail: *detail },
                ),
            }
        }
        proof {
            assert(input.deep_view().take(input@.len() as int) =~= input.deep_view());
        }
        let mut res = ConversationMessage::plain(MessageRole::User, text::join(&texts, "\n"));
        res.parts = parts;
        res
    }

    /// What the model answered, with the tool calls that it asks for.
    pub fn assistant(content: Option<String>, tool_calls: Vec<ToolCall>) -> (res: Self)
        ensures
            res.deep_view() == (ConversationMessageModel {
                tool_calls: tool_calls.deep_view(),
                ..plain_message(MessageRole::Assistant, text_or_empty(content.deep_view()))
            }),
    {
        let mut res = ConversationMessage::plain(
            MessageRole::Assistant,
            match content {
                Some(content) => content,
                None => String::new(),
            },
        );
        res.tool_calls = tool_calls;
        res
    }

    /// What the model answered, with its reasoning and the tool calls that it asks for.
    pub fn assistant_with_reasoning(
        content: Option<String>,
        reasoning: Vec<ReasoningBlock>,
        tool_calls: Vec<ToolCall>,
    ) -> (res: Self)
        ensures
            res.deep_view() == (ConversationMessageModel {
                reasoning: reasoning.deep_view(),
                tool_calls: tool_calls.deep_view(),
                ..plain_message(MessageRole::Assistant, text_or_empty(content.deep_view()))
            }),
    {
        let mut res = ConversationMessage::assistant(content, tool_calls);
        res.reasoning = reasoning;
        res
    }

    /// Context that the runtime puts in as system text.
    pub fn injected_system(content: &str) -> (res: Self)
        ensures
            res.deep_view() == (ConversationMessageModel {
                injected: true,
                ..plain_message(MessageRole::System, content@)
            }),
    {
        let mut res = ConversationMessage::plain(MessageRole::System, content.to_owned());
        res.injected = true;
        res
    }

    /// Context that the runtime puts in as user text, between tags that name its source.
    pub fn injected_user_context(source: &str, content: &str) -> (res: Self)
        ensures
            res.deep_view() == (ConversationMessageModel {
                injected: true,
                ..plain_message(
                    MessageRole::User,
                    "<"@ + source@ + ">\n"@ + content@ + "\n</"@ + source@ + ">"@,
                )
            }),
    {
        let opened = text::concat5("<", source, ">\n", content, "\n</");
        let mut res = ConversationMessage::plain(
            MessageRole::User,
            text::concat3(opened.as_str(), source, ">"),
        );
        res.injected = true;
        res
    }
}

/// The text, or none of it where there is none.
pub open spec fn text_or_empty(text: Option<Seq<char>>) -> Seq<char> {
    match text {
        Some(text) => text,
        None => Seq::empty(),
    }
}

impl ResponseItem {
    /// A message of this turn.
    pub fn for_turn(turn_id: TurnId, message: ConversationMessage) -> (res: Self)
        ensures
            res == (ResponseItem { turn_id, message }),
    {
        ResponseItem { turn_id, message }
    }
}

} // verus!
