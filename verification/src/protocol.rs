//! What clients and the server say to each other.
use vstd::prelude::*;

use crate::config::{PermissionProfile, ThinkingMode};
use crate::data::Duplicate;
use crate::events::RuntimeEvent;
use crate::ids::{ApprovalId, EventId, ThreadId, TurnId};
use crate::text;
use crate::types::{
    AgentType, CompactionSummary, ModelRef, ModelRefModel, QuestionPrompt, QuestionPromptModel,
    ToolCall, UserInput, UserInputModel,
};

verus! {

/// The version of the protocol that this library speaks.
pub const BOUNDARY_PROTOCOL_VERSION: &'static str = "appserver-runtime-boundary-v2";

/// The longest goal objective, in characters.
pub const MAX_THREAD_GOAL_OBJECTIVE_CHARS: usize = 4_000;

/// A client introduces itself.
#[derive(Debug, Clone, PartialEq, Eq)]
pub struct InitializeParams {
}

/// What a client can ask for.
#[derive(Debug, Clone, Copy, PartialEq, Eq, Structural)]
pub enum BoundaryCapability {
    Initialize,
    ThreadStart,
    ThreadResume,
    ThreadRead,
    ThreadFork,
    ThreadCompact,
    ThreadGoal,
    AgentTree,
    ApprovalsList,
    CheckpointRestore,
    TurnStart,
    TurnInterrupt,
    ApprovalDecision,
    SubmitUserInput,
    EventsSubscribe,
    EventsReplay,
}

impl DeepView for BoundaryCapability {
    type V = BoundaryCapability;

    open spec fn deep_view(&self) -> BoundaryCapability {
        *self
    }
}

/// What this server offers.
#[derive(Debug, Clone, PartialEq, Eq)]
pub struct InitializeResponse {
    pub protocol_version: String,
    pub supported_ops: Vec<BoundaryCapability>,
    pub supported_streams: Vec<BoundaryCapability>,
    pub supported_permission_profiles: Vec<PermissionProfile>,
}

/// The answer of a finished run.
#[derive(Debug, Clone, PartialEq, Eq)]
pub struct AgentRunResponse {
    pub text: Option<String>,
    pub tool_calls: Vec<ToolCall>,
    pub thread_id: ThreadId,
}

/// Runs a prompt, in a new thread or in the one named.
#[derive(Debug, Clone, PartialEq, Eq)]
pub struct RunParams {
    pub prompt: String,
    pub workspace_root: Option<String>,
    pub cwd: Option<String>,
    pub thread_id: Option<ThreadId>,
    pub thinking_mode: Option<ThinkingMode>,
    pub permission_profile: Option<PermissionProfile>,
}

/// Starts a thread.
#[derive(Debug, Clone, PartialEq, Eq)]
pub struct ThreadStartParams {
    pub workspace_root: Option<String>,
    pub cwd: Option<String>,
    pub permission_profile: Option<PermissionProfile>,
}

/// Where a thread stands.
#[derive(Debug, Clone, Copy, PartialEq, Eq, Structural)]
pub enum ThreadStatus {
    Idle,
    Running,
    WaitingApproval,
    Failed,
    Archived,
}

impl DeepView for ThreadStatus {
    type V = ThreadStatus;

    open spec fn deep_view(&self) -> ThreadStatus {
        *self
    }
}

/// Where a turn stands.
#[derive(Debug, Clone, Copy, PartialEq, Eq, Structural)]
pub enum TurnStatus {
    Queued,
    Running,
    InProgress,
    WaitingApproval,
    Completed,
    Failed,
    Interrupted,
}

impl DeepView for TurnStatus {
    type V = TurnStatus;

    open spec fn deep_view(&self) -> TurnStatus {
        *self
    }
}

impl Duplicate for TurnStatus {
    fn duplicate(&self) -> (res: Self) {
        *self
    }
}

/// A turn and where it stands.
#[derive(Debug, Clone, PartialEq, Eq)]
pub struct TurnState {
    pub turn_id: TurnId,
    pub status: TurnStatus,
}

/// What a `TurnState` holds.
#[verifier::ext_equal]
pub struct TurnStateModel {
    pub turn_id: Seq<char>,
    pub status: TurnStatus,
}

impl DeepView for TurnState {
    type V = TurnStateModel;

    open spec fn deep_view(&self) -> TurnStateModel {
        TurnStateModel {
            turn_id: self.turn_id.deep_view(),
            status: self.status.deep_view(),
        }
    }
}

/// Where a goal stands.
#[derive(Debug, Clone, Copy, PartialEq, Eq, Structural)]
pub enum ThreadGoalStatus {
    Active,
    Paused,
    Blocked,
    UsageLimited,
    BudgetLimited,
    Complete,
}

impl DeepView for ThreadGoalStatus {
    type V = ThreadGoalStatus;

    open spec fn deep_view(&self) -> ThreadGoalStatus {
        *self
    }
}

impl Duplicate for ThreadGoalStatus {
    fn duplicate(&self) -> (res: Self) {
        *self
    }
}

/// How a goal is pursued.
#[derive(Debug, Clone, Copy, PartialEq, Eq, Structural)]
pub enum ThreadGoalMode {
    Standard,
    Reviewed,
    Intensive,
}

impl DeepView for ThreadGoalMode {
    type V = ThreadGoalMode;

    open spec fn deep_view(&self) -> ThreadGoalMode {
        *self
    }
}

/// What became of a goal.
#[derive(Debug, Clone, PartialEq, Eq)]
pub struct ThreadGoalReport {
    pub goal_id: String,
    pub objective: String,
    pub final_status: ThreadGoalStatus,
    pub turns_run: i64,
    pub tokens_used: i64,
    pub token_budget: Option<i64>,
    pub time_used_seconds: i64,
    pub changed_files: Vec<String>,
    pub pending_approvals_count: usize,
    pub summary: String,
}

/// What a `ThreadGoalReport` holds.
#[verifier::ext_equal]
pub struct ThreadGoalReportModel {
    pub goal_id: Seq<char>,
    pub objective: Seq<char>,
    pub final_status: ThreadGoalStatus,
    pub turns_run: i64,
    pub tokens_used: i64,
    pub token_budget: Option<i64>,
    pub time_used_seconds: i64,
    pub changed_files: Seq<Seq<char>>,
    pub pending_approvals_count: usize,
    pub summary: Seq<char>,
}

impl DeepView for ThreadGoalReport {
    type V = ThreadGoalReportModel;

    open spec fn deep_view(&self) -> ThreadGoalReportModel {
        ThreadGoalReportModel {
            goal_id: self.goal_id.deep_view(),
            objective: self.objective.deep_view(),
            final_status: self.final_status.deep_view(),
            turns_run: self.turns_run.deep_view(),
            tokens_used: self.tokens_used.deep_view(),
            token_budget: self.token_budget.deep_view(),
            time_used_seconds: self.time_used_seconds.deep_view(),
            changed_files: self.changed_files.deep_view(),
            pending_approvals_count: self.pending_approvals_count.deep_view(),
            summary: self.summary.deep_view(),
        }
    }
}

impl Duplicate for ThreadGoalReport {
    fn duplicate(&self) -> (res: Self) {
        ThreadGoalReport {
            goal_id: self.goal_id.duplicate(),
            objective: self.objective.duplicate(),
            final_status: self.final_status.duplicate(),
            turns_run: self.turns_run.duplicate(),
            tokens_used: self.tokens_used.duplicate(),
            token_budget: self.token_budget.duplicate(),
            time_used_seconds: self.time_used_seconds.duplicate(),
            changed_files: self.changed_files.duplicate(),
            pending_approvals_count: self.pending_approvals_count.duplicate(),
            summary: self.summary.duplicate(),
        }
    }
}

/// The goal of a thread.
#[derive(Debug, Clone, PartialEq, Eq)]
pub struct ThreadGoal {
    pub thread_id: ThreadId,
    pub goal_id: String,
    pub objective: String,
    pub status: ThreadGoalStatus,
    pub token_budget: Option<i64>,
    pub tokens_used: i64,
    pub time_used_seconds: i64,
    pub continuation_suppressed: bool,
    pub continuation_suppressed_after_turn_id: Option<TurnId>,
    pub created_at_ms: i64,
    pub updated_at_ms: i64,
}

/// What a `ThreadGoal` holds.
#[verifier::ext_equal]
pub struct ThreadGoalModel {
    pub thread_id: Seq<char>,
    pub goal_id: Seq<char>,
    pub objective: Seq<char>,
    pub status: ThreadGoalStatus,
    pub token_budget: Option<i64>,
    pub tokens_used: i64,
    pub time_used_seconds: i64,
    pub continuation_suppressed: bool,
    pub continuation_suppressed_after_turn_id: Option<Seq<char>>,
    pub created_at_ms: i64,
    pub updated_at_ms: i64,
}

impl DeepView for ThreadGoal {
    type V = ThreadGoalModel;

    open spec fn deep_view(&self) -> ThreadGoalModel {
        ThreadGoalModel {
            thread_id: self.thread_id.deep_view(),
            goal_id: self.goal_id.deep_view(),
            objective: self.objective.deep_view(),
            status: self.status.deep_view(),
            token_budget: self.token_budget.deep_view(),
            tokens_used: self.tokens_used.deep_view(),
            time_used_seconds: self.time_used_seconds.deep_view(),
            continuation_suppressed: self.continuation_suppressed.deep_view(),
            continuation_suppressed_after_turn_id: self.continuation_suppressed_after_turn_id.deep_view(),
            created_at_ms: self.created_at_ms.deep_view(),
            updated_at_ms: self.updated_at_ms.deep_view(),
        }
    }
}

/// Sets or changes the goal of a thread. An absent token budget is left as it is; an empty one is removed.
#[derive(Debug, Clone, PartialEq, Eq)]
pub struct ThreadGoalSetParams {
    pub thread_id: ThreadId,
    pub workspace_root: Option<String>,
    pub objective: Option<String>,
    pub status: Option<ThreadGoalStatus>,
    pub token_budget: Option<Option<i64>>,
    pub mode: Option<ThreadGoalMode>,
}

/// The goal after the change.
#[derive(Debug, Clone, PartialEq, Eq)]
pub struct ThreadGoalSetResponse {
    pub goal: ThreadGoal,
    pub mode: ThreadGoalMode,
}

/// Asks for the goal of a thread.
#[derive(Debug, Clone, PartialEq, Eq)]
pub struct ThreadGoalGetParams {
    pub thread_id: ThreadId,
    pub workspace_root: Option<String>,
}

/// The goal of a thread, if it has one.
#[derive(Debug, Clone, PartialEq, Eq)]
pub struct ThreadGoalGetResponse {
    pub goal: Option<ThreadGoal>,
    pub mode: ThreadGoalMode,
}

/// Removes the goal of a thread.
#[derive(Debug, Clone, PartialEq, Eq)]
pub struct ThreadGoalClearParams {
    pub thread_id: ThreadId,
    pub workspace_root: Option<String>,
}

/// Whether there was a goal to remove.
#[derive(Debug, Clone, PartialEq, Eq)]
pub struct ThreadGoalClearResponse {
    pub cleared: bool,
}

/// Forks a thread behind one of its turns.
#[derive(Debug, Clone, PartialEq, Eq)]
pub struct ThreadForkParams {
    pub thread_id: ThreadId,
    pub at_turn_id: TurnId,
    pub workspace_root: Option<String>,
}

/// The forked thread and where it came from.
#[derive(Debug, Clone, PartialEq, Eq)]
pub struct ThreadForkResponse {
    pub new_thread_id: ThreadId,
    pub parent_thread_id: ThreadId,
    pub fork_point_turn_id: TurnId,
}

/// One entry in the view of a turn.
#[derive(Debug, Clone, PartialEq, Eq)]
pub enum ThreadItem {
    UserMessage { text: String, input: Vec<UserInput> },
    AssistantMessage { event_id: Option<EventId>, text: Option<String> },
    Reasoning { event_id: Option<EventId>, summary: Vec<String>, content: Vec<String> },
    ToolResult { event_id: Option<EventId>, name: String },
    ExecOutput { event_id: Option<EventId>, text: String },
    ToolInvocation {
        invocation_id: String,
        tool_call_id: Option<String>,
        tool_name: Option<String>,
        approval_id: Option<ApprovalId>,
        request_id: Option<ApprovalId>,
        status: String,
        mutating: Option<bool>,
        reason: Option<String>,
        message: Option<String>,
        output_preview: Option<String>,
    },
    ApprovalRequested {
        event_id: Option<EventId>,
        approval_id: ApprovalId,
        tool_name: String,
        reason: String,
        checkpoint_id: Option<String>,
        permission_profile: PermissionProfile,
        filesystem_sandbox: String,
        network_sandbox: String,
        env_isolation: String,
    },
    ApprovalDecision {
        event_id: Option<EventId>,
        approval_id: Option<ApprovalId>,
        status: String,
        note: Option<String>,
    },
    UserInputRequested {
        event_id: Option<EventId>,
        request_id: ApprovalId,
        tool_name: String,
        questions: Vec<QuestionPrompt>,
        status: String,
    },
    UserInputResolved { event_id: Option<EventId>, request_id: ApprovalId, dismissed: bool },
    RuntimeError { event_id: Option<EventId>, message: String },
    CompactionWritten,
    SubagentSpawn {
        event_id: Option<EventId>,
        invocation_id: String,
        tool_call_id: String,
        parent_thread_id: ThreadId,
        child_thread_id: ThreadId,
        task_name: String,
        message_preview: String,
    },
    SubagentClose {
        event_id: Option<EventId>,
        invocation_id: String,
        tool_call_id: String,
        parent_thread_id: ThreadId,
        closed_thread_id: ThreadId,
        agent_path: String,
    },
    InterAgentMessage {
        event_id: Option<EventId>,
        invocation_id: String,
        tool_call_id: String,
        author_thread_id: ThreadId,
        recipient_thread_id: ThreadId,
        author_path: String,
        recipient_path: String,
        content_preview: String,
        followup: bool,
        started_turn_id: Option<TurnId>,
    },
    GoalReport { event_id: Option<EventId>, report: ThreadGoalReport },
}

/// What a `ThreadItem` holds.
#[verifier::ext_equal]
pub enum ThreadItemModel {
    UserMessage { text: Seq<char>, input: Seq<UserInputModel> },
    AssistantMessage { event_id: Option<Seq<char>>, text: Option<Seq<char>> },
    Reasoning { event_id: Option<Seq<char>>, summary: Seq<Seq<char>>, content: Seq<Seq<char>> },
    ToolResult { event_id: Option<Seq<char>>, name: Seq<char> },
    ExecOutput { event_id: Option<Seq<char>>, text: Seq<char> },
    ToolInvocation {
        invocation_id: Seq<char>,
        tool_call_id: Option<Seq<char>>,
        tool_name: Option<Seq<char>>,
        approval_id: Option<Seq<char>>,
        request_id: Option<Seq<char>>,
        status: Seq<char>,
        mutating: Option<bool>,
        reason: Option<Seq<char>>,
        message: Option<Seq<char>>,
        output_preview: Option<Seq<char>>,
    },
    ApprovalRequested {
        event_id: Option<Seq<char>>,
        approval_id: Seq<char>,
        tool_name: Seq<char>,
        reason: Seq<char>,
        checkpoint_id: Option<Seq<char>>,
        permission_profile: PermissionProfile,
        filesystem_sandbox: Seq<char>,
        network_sandbox: Seq<char>,
        env_isolation: Seq<char>,
    },
    ApprovalDecision {
        event_id: Option<Seq<char>>,
        approval_id: Option<Seq<char>>,
        status: Seq<char>,
        note: Option<Seq<char>>,
    },
    UserInputRequested {
        event_id: Option<Seq<char>>,
        request_id: Seq<char>,
        tool_name: Seq<char>,
        questions: Seq<QuestionPromptModel>,
        status: Seq<char>,
    },
    UserInputResolved { event_id: Option<Seq<char>>, request_id: Seq<char>, dismissed: bool },
    RuntimeError { event_id: Option<Seq<char>>, message: Seq<char> },
    CompactionWritten,
    SubagentSpawn {
        event_id: Option<Seq<char>>,
        invocation_id: Seq<char>,
        tool_call_id: Seq<char>,
        parent_thread_id: Seq<char>,
        child_thread_id: Seq<char>,
        task_name: Seq<char>,
        message_preview: Seq<char>,
    },
    SubagentClose {
        event_id: Option<Seq<char>>,
        invocation_id: Seq<char>,
        tool_call_id: Seq<char>,
        parent_thread_id: Seq<char>,
        closed_thread_id: Seq<char>,
        agent_path: Seq<char>,
    },
    InterAgentMessage {
        event_id: Option<Seq<char>>,
        invocation_id: Seq<char>,
        tool_call_id: Seq<char>,
        author_thread_id: Seq<char>,
        recipient_thread_id: Seq<char>,
        author_path: Seq<char>,
        recipient_path: Seq<char>,
        content_preview: Seq<char>,
        followup: bool,
        started_turn_id: Option<Seq<char>>,
    },
    GoalReport { event_id: Option<Seq<char>>, report: ThreadGoalReportModel },
}

impl DeepView for ThreadItem {
    type V = ThreadItemModel;

    open spec fn deep_view(&self) -> ThreadItemModel {
        match self {
            ThreadItem::UserMessage { text, input } => ThreadItemModel::UserMessage {
                text: text.deep_view(),
                input: input.deep_view(),
            },
            ThreadItem::AssistantMessage { event_id, text } => ThreadItemModel::AssistantMessage {
                event_id: event_id.deep_view(),
                text: text.deep_view(),
            },
            ThreadItem::Reasoning { event_id, summary, content } => ThreadItemModel::Reasoning {
                event_id: event_id.deep_view(),
                summary: summary.deep_view(),
                content: content.deep_view(),
            },
            ThreadItem::ToolResult { event_id, name } => ThreadItemModel::ToolResult {
                event_id: event_id.deep_view(),
                name: name.deep_view(),
            },
            ThreadItem::ExecOutput { event_id, text } => ThreadItemModel::ExecOutput {
                event_id: event_id.deep_view(),
                text: text.deep_view(),
            },
            ThreadItem::ToolInvocation {
                invocation_id,
                tool_call_id,
                tool_name,
                approval_id,
                request_id,
                status,
                mutating,
                reason,
                message,
                output_preview,
            } => ThreadItemModel::ToolInvocation {
                invocation_id: invocation_id.deep_view(),
                tool_call_id: tool_call_id.deep_view(),
                tool_name: tool_name.deep_view(),
                approval_id: approval_id.deep_view(),
                request_id: request_id.deep_view(),
                status: status.deep_view(),
                mutating: mutating.deep_view(),
                reason: reason.deep_view(),
                message: message.deep_view(),
                output_preview: output_preview.deep_view(),
            },
            ThreadItem::ApprovalRequested {
                event_id,
                approval_id,
                tool_name,
                reason,
                checkpoint_id,
                permission_profile,
                filesystem_sandbox,
                network_sandbox,
                env_isolation,
            } => ThreadItemModel::ApprovalRequested {
                event_id: event_id.deep_view(),
                approval_id: approval_id.deep_view(),
                tool_name: tool_name.deep_view(),
                reason: reason.deep_view(),
                checkpoint_id: checkpoint_id.deep_view(),
                permission_profile: permission_profile.deep_view(),
                filesystem_sandbox: filesystem_sandbox.deep_view(),
                network_sandbox: network_sandbox.deep_view(),
                env_isolation: env_isolation.deep_view(),
            },
            ThreadItem::ApprovalDecision {
                event_id,
                approval_id,
                status,
                note,
            } => ThreadItemModel::ApprovalDecision {
                event_id: event_id.deep_view(),
                approval_id: approval_id.deep_view(),
                status: status.deep_view(),
                note: note.deep_view(),
            },
            ThreadItem::UserInputRequested {
                event_id,
                request_id,
                tool_name,
                questions,
                status,
            } => ThreadItemModel::UserInputRequested {
                event_id: event_id.deep_view(),
                request_id: request_id.deep_view(),
                tool_name: tool_name.deep_view(),
                questions: questions.deep_view(),
                status: status.deep_view(),
            },
            ThreadItem::UserInputResolved {
                event_id,
                request_id,
                dismissed,
            } => ThreadItemModel::UserInputResolved {
                event_id: event_id.deep_view(),
                request_id: request_id.deep_view(),
                dismissed: dismissed.deep_view(),
            },
            ThreadItem::RuntimeError { event_id, message } => ThreadItemModel::RuntimeError {
                event_id: event_id.deep_view(),
                message: message.deep_view(),
            },
            ThreadItem::CompactionWritten => ThreadItemModel::CompactionWritten,
            ThreadItem::SubagentSpawn {
                event_id,
                invocation_id,
                tool_call_id,
                parent_thread_id,
                child_thread_id,
                task_name,
                message_preview,
            } => ThreadItemModel::SubagentSpawn {
                event_id: event_id.deep_view(),
                invocation_id: invocation_id.deep_view(),
                tool_call_id: tool_call_id.deep_view(),
                parent_thread_id: parent_thread_id.deep_view(),
                child_thread_id: child_thread_id.deep_view(),
                task_name: task_name.deep_view(),
                message_preview: message_preview.deep_view(),
            },
            ThreadItem::SubagentClose {
                event_id,
                invocation_id,
                tool_call_id,
                parent_thread_id,
                closed_thread_id,
                agent_path,
            } => ThreadItemModel::SubagentClose {
                event_id: event_id.deep_view(),
                invocation_id: invocation_id.deep_view(),
                tool_call_id: tool_call_id.deep_view(),
                parent_thread_id: parent_thread_id.deep_view(),
                closed_thread_id: closed_thread_id.deep_view(),
                agent_path: agent_path.deep_view(),
            },
            ThreadItem::InterAgentMessage {
                event_id,
                invocation_id,
                tool_call_id,
                author_thread_id,
                recipient_thread_id,
                author_path,
                recipient_path,
                content_preview,
                followup,
                started_turn_id,
            } => ThreadItemModel::InterAgentMessage {
                event_id: event_id.deep_view(),
                invocation_id: invocation_id.deep_view(),
                tool_call_id: tool_call_id.deep_view(),
                author_thread_id: author_thread_id.deep_view(),
                recipient_thread_id: recipient_thread_id.deep_view(),
                author_path: author_path.deep_view(),
                recipient_path: recipient_path.deep_view(),
                content_preview: content_preview.deep_view(),
                followup: followup.deep_view(),
                started_turn_id: started_turn_id.deep_view(),
            },
            ThreadItem::GoalReport { event_id, report } => ThreadItemModel::GoalReport {
                event_id: event_id.deep_view(),
                report: report.deep_view(),
            },
        }
    }
}

impl Duplicate for ThreadItem {
    fn duplicate(&self) -> (res: Self) {
        match self {
            ThreadItem::UserMessage { text, input } => ThreadItem::UserMessage {
                text: text.duplicate(),
                input: input.duplicate(),
            },
            ThreadItem::AssistantMessage { event_id, text } => ThreadItem::AssistantMessage {
                event_id: event_id.duplicate(),
                text: text.duplicate(),
            },
            ThreadItem::Reasoning { event_id, summary, content } => ThreadItem::Reasoning {
                event_id: event_id.duplicate(),
                summary: summary.duplicate(),
                content: content.duplicate(),
            },
            ThreadItem::ToolResult { event_id, name } => ThreadItem::ToolResult {
                event_id: event_id.duplicate(),
                name: name.duplicate(),
            },
            ThreadItem::ExecOutput { event_id, text } => ThreadItem::ExecOutput {
                event_id: event_id.duplicate(),
                text: text.duplicate(),
            },
            ThreadItem::ToolInvocation {
                invocation_id,
                tool_call_id,
                tool_name,
                approval_id,
                request_id,
                status,
                mutating,
                reason,
                message,
                output_preview,
            } => ThreadItem::ToolInvocation {
                invocation_id: invocation_id.duplicate(),
                tool_call_id: tool_call_id.duplicate(),
                tool_name: tool_name.duplicate(),
                approval_id: approval_id.duplicate(),
                request_id: request_id.duplicate(),
                status: status.duplicate(),
                mutating: mutating.duplicate(),
                reason: reason.duplicate(),
                message: message.duplicate(),
                output_preview: output_preview.duplicate(),
            },
            ThreadItem::ApprovalRequested {
                event_id,
                approval_id,
                tool_name,
                reason,
                checkpoint_id,
                permission_profile,
                filesystem_sandbox,
                network_sandbox,
                env_isolation,
            } => ThreadItem::ApprovalRequested {
                event_id: event_id.duplicate(),
                approval_id: approval_id.duplicate(),
                tool_name: tool_name.duplicate(),
                reason: reason.duplicate(),
                checkpoint_id: checkpoint_id.duplicate(),
                permission_profile: permission_profile.duplicate(),
                filesystem_sandbox: filesystem_sandbox.duplicate(),
                network_sandbox: network_sandbox.duplicate(),
                env_isolation: env_isolation.duplicate(),
            },
            ThreadItem::ApprovalDecision {
                event_id,
                approval_id,
                status,
                note,
            } => ThreadItem::ApprovalDecision {
                event_id: event_id.duplicate(),
                approval_id: approval_id.duplicate(),
                status: status.duplicate(),
                note: note.duplicate(),
            },
            ThreadItem::UserInputRequested {
                event_id,
                request_id,
                tool_name,
                questions,
                status,
            } => ThreadItem::UserInputRequested {
                event_id: event_id.duplicate(),
                request_id: request_id.duplicate(),
                tool_name: tool_name.duplicate(),
                questions: questions.duplicate(),
                status: status.duplicate(),
            },
            ThreadItem::UserInputResolved {
                event_id,
                request_id,
                dismissed,
            } => ThreadItem::UserInputResolved {
                event_id: event_id.duplicate(),
                request_id: request_id.duplicate(),
                dismissed: dismissed.duplicate(),
            },
            ThreadItem::RuntimeError { event_id, message } => ThreadItem::RuntimeError {
                event_id: event_id.duplicate(),
                message: message.duplicate(),
            },
            ThreadItem::CompactionWritten => ThreadItem::CompactionWritten,
            ThreadItem::SubagentSpawn {
                event_id,
                invocation_id,
                tool_call_id,
                parent_thread_id,
                child_thread_id,
                task_name,
                message_preview,
            } => ThreadItem::SubagentSpawn {
                event_id: event_id.duplicate(),
                invocation_id: invocation_id.duplicate(),
                tool_call_id: tool_call_id.duplicate(),
                parent_thread_id: parent_thread_id.duplicate(),
                child_thread_id: child_thread_id.duplicate(),
                task_name: task_name.duplicate(),
                message_preview: message_preview.duplicate(),
            },
            ThreadItem::SubagentClose {
                event_id,
                invocation_id,
                tool_call_id,
                parent_thread_id,
                closed_thread_id,
                agent_path,
            } => ThreadItem::SubagentClose {
                event_id: event_id.duplicate(),
                invocation_id: invocation_id.duplicate(),
                tool_call_id: tool_call_id.duplicate(),
                parent_thread_id: parent_thread_id.duplicate(),
                closed_thread_id: closed_thread_id.duplicate(),
                agent_path: agent_path.duplicate(),
            },
            ThreadItem::InterAgentMessage {
                event_id,
                invocation_id,
                tool_call_id,
                author_thread_id,
                recipient_thread_id,
                author_path,
                recipient_path,
                content_preview,
                followup,
                started_turn_id,
            } => ThreadItem::InterAgentMessage {
                event_id: event_id.duplicate(),
                invocation_id: invocation_id.duplicate(),
                tool_call_id: tool_call_id.duplicate(),
                author_thread_id: author_thread_id.duplicate(),
                recipient_thread_id: recipient_thread_id.duplicate(),
                author_path: author_path.duplicate(),
                recipient_path: recipient_path.duplicate(),
                content_preview: content_preview.duplicate(),
                followup: followup.duplicate(),
                started_turn_id: started_turn_id.duplicate(),
            },
            ThreadItem::GoalReport { event_id, report } => ThreadItem::GoalReport {
                event_id: event_id.duplicate(),
                report: report.duplicate(),
            },
        }
    }
}

/// A turn as a client sees it.
#[derive(Debug, Clone, PartialEq, Eq)]
pub struct TurnView {
    pub id: TurnId,
    pub status: TurnStatus,
    pub items: Vec<ThreadItem>,
}

/// What a `TurnView` holds.
#[verifier::ext_equal]
pub struct TurnViewModel {
    pub id: Seq<char>,
    pub status: TurnStatus,
    pub items: Seq<ThreadItemModel>,
}

impl DeepView for TurnView {
    type V = TurnViewModel;

    open spec fn deep_view(&self) -> TurnViewModel {
        TurnViewModel {
            id: self.id.deep_view(),
            status: self.status.deep_view(),
            items: self.items.deep_view(),
        }
    }
}

impl Duplicate for TurnView {
    fn duplicate(&self) -> (res: Self) {
        TurnView {
            id: self.id.duplicate(),
            status: self.status.duplicate(),
            items: self.items.duplicate(),
        }
    }
}

/// A thread as a client sees it.
#[derive(Debug, Clone, PartialEq, Eq)]
pub struct ThreadView {
    pub id: ThreadId,
    pub status: ThreadStatus,
    pub active_turn: Option<TurnView>,
    pub turns: Vec<TurnView>,
    pub model: Option<ModelRef>,
    pub thinking_mode: Option<ThinkingMode>,
    pub goal: Option<ThreadGoal>,
    pub goal_mode: ThreadGoalMode,
}

/// What a `ThreadView` holds.
#[verifier::ext_equal]
pub struct ThreadViewModel {
    pub id: Seq<char>,
    pub status: ThreadStatus,
    pub active_turn: Option<TurnViewModel>,
    pub turns: Seq<TurnViewModel>,
    pub model: Option<ModelRefModel>,
    pub thinking_mode: Option<ThinkingMode>,
    pub goal: Option<ThreadGoalModel>,
    pub goal_mode: ThreadGoalMode,
}

impl DeepView for ThreadView {
    type V = ThreadViewModel;

    open spec fn deep_view(&self) -> ThreadViewModel {
        ThreadViewModel {
            id: self.id.deep_view(),
            status: self.status.deep_view(),
            active_turn: self.active_turn.deep_view(),
            turns: self.turns.deep_view(),
            model: self.model.deep_view(),
            thinking_mode: self.thinking_mode.deep_view(),
            goal: self.goal.deep_view(),
            goal_mode: self.goal_mode.deep_view(),
        }
    }
}

/// The started thread.
#[derive(Debug, Clone, PartialEq, Eq)]
pub struct ThreadStartResponse {
    pub thread: ThreadView,
}

/// Asks for a thread.
#[derive(Debug, Clone, PartialEq, Eq)]
pub struct ThreadReadParams {
    pub thread_id: ThreadId,
    pub workspace_root: Option<String>,
}

/// The thread.
#[derive(Debug, Clone, PartialEq, Eq)]
pub struct ThreadReadResponse {
    pub thread: ThreadView,
}

/// Compacts the conversation of a thread.
#[derive(Debug, Clone, PartialEq, Eq)]
pub struct ThreadCompactParams {
    pub thread_id: ThreadId,
    pub workspace_root: Option<String>,
}

/// What the compaction kept.
#[derive(Debug, Clone, PartialEq, Eq)]
pub struct ThreadCompactResponse {
    pub thread_id: ThreadId,
    pub latest_compaction: Option<CompactionSummary>,
}

/// Takes a thread up again.
#[derive(Debug, Clone, PartialEq, Eq)]
pub struct ThreadResumeParams {
    pub thread_id: ThreadId,
    pub workspace_root: Option<String>,
    pub cwd: Option<String>,
}

/// A setting of a request that was passed over.
#[derive(Debug, Clone, Copy, PartialEq, Eq, Structural)]
pub enum IgnoredOverrideField {
    Cwd,
    Model,
    Provider,
}

impl DeepView for IgnoredOverrideField {
    type V = IgnoredOverrideField;

    open spec fn deep_view(&self) -> IgnoredOverrideField {
        *self
    }
}

/// The thread, and the settings that were passed over.
#[derive(Debug, Clone, PartialEq, Eq)]
pub struct ThreadResumeResponse {
    pub thread: ThreadView,
    pub ignored_overrides: Vec<IgnoredOverrideField>,
}

/// Asks for the agents around a thread.
#[derive(Debug, Clone, PartialEq, Eq)]
pub struct AgentTreeParams {
    pub thread_id: ThreadId,
    pub workspace_root: Option<String>,
}

/// Where an agent stands.
#[derive(Debug, Clone, Copy, PartialEq, Eq, Structural)]
pub enum AgentTreeAgentStatus {
    Idle,
    Running,
    WaitingApproval,
    Done,
    Failed,
}

impl DeepView for AgentTreeAgentStatus {
    type V = AgentTreeAgentStatus;

    open spec fn deep_view(&self) -> AgentTreeAgentStatus {
        *self
    }
}

/// An agent and the agents that it spawned.
#[derive(Debug, PartialEq, Eq)]
pub struct AgentTreeNode {
    pub thread_id: Option<ThreadId>,
    pub parent_thread_id: Option<ThreadId>,
    pub root_thread_id: ThreadId,
    pub depth: u32,
    pub agent_path: String,
    pub status: AgentTreeAgentStatus,
    pub agent_type: Option<AgentType>,
    pub agent_role: Option<String>,
    pub agent_nickname: Option<String>,
    pub last_task_message: Option<String>,
    pub last_activity: Option<String>,
    pub current_tool: Option<String>,
    pub tokens_used: Option<i64>,
    pub children: Vec<AgentTreeNode>,
}

impl AgentTreeAgentStatus {
    /// The name of the status on the wire.
    pub fn as_str(self) -> (res: &'static str)
        ensures
            res@ == match self {
                AgentTreeAgentStatus::Idle => "idle"@,
                AgentTreeAgentStatus::Running => "running"@,
                AgentTreeAgentStatus::WaitingApproval => "waiting_approval"@,
                AgentTreeAgentStatus::Done => "done"@,
                AgentTreeAgentStatus::Failed => "failed"@,
            },
    {
        match self {
            AgentTreeAgentStatus::Idle => "idle",
            AgentTreeAgentStatus::Running => "running",
            AgentTreeAgentStatus::WaitingApproval => "waiting_approval",
            AgentTreeAgentStatus::Done => "done",
            AgentTreeAgentStatus::Failed => "failed",
        }
    }
}

/// The agents under the root of a thread.
#[derive(Debug, PartialEq, Eq)]
pub struct AgentTreeResponse {
    pub root: AgentTreeNode,
}

/// Settings for one turn.
#[derive(Debug, Clone, PartialEq, Eq)]
pub struct TurnContextOverrides {
    pub cwd: Option<String>,
    pub model: Option<ModelRef>,
    pub thinking_mode: Option<ThinkingMode>,
    pub clear_thinking_mode: bool,
}

/// What a turn is for.
#[derive(Debug, Clone, Copy, PartialEq, Eq, Structural)]
pub enum TurnMode {
    Normal,
    Plan,
}

impl DeepView for TurnMode {
    type V = TurnMode;

    open spec fn deep_view(&self) -> TurnMode {
        *self
    }
}

/// Starts a turn.
#[derive(Debug, Clone, PartialEq, Eq)]
pub struct TurnStartParams {
    pub thread_id: ThreadId,
    pub prompt: String,
    pub input: Vec<UserInput>,
    pub workspace_root: Option<String>,
    pub turn_mode: TurnMode,
    pub turn_context: Option<TurnContextOverrides>,
}

/// The started turn.
#[derive(Debug, Clone, PartialEq, Eq)]
pub struct TurnStartResponse {
    pub thread_id: ThreadId,
    pub turn: TurnView,
}

/// Interrupts the running turn, or the one named.
#[derive(Debug, Clone, PartialEq, Eq)]
pub struct TurnInterruptParams {
    pub thread_id: ThreadId,
    pub turn_id: Option<TurnId>,
    pub workspace_root: Option<String>,
}

/// The interrupted turn.
#[derive(Debug, Clone, PartialEq, Eq)]
pub struct TurnInterruptResponse {
    pub thread_id: ThreadId,
    pub interrupted_turn: Option<TurnState>,
}

/// What the user decided.
#[derive(Debug, Clone, Copy, PartialEq, Eq, Structural)]
pub enum ApprovalDecisionStatus {
    Approved,
    Denied,
}

impl DeepView for ApprovalDecisionStatus {
    type V = ApprovalDecisionStatus;

    open spec fn deep_view(&self) -> ApprovalDecisionStatus {
        *self
    }
}

/// Asks for what waits for the user.
#[derive(Debug, Clone, PartialEq, Eq)]
pub struct ApprovalsListParams {
    pub workspace_root: Option<String>,
}

/// What is waited for.
#[derive(Debug, Clone, Copy, PartialEq, Eq, Structural)]
pub enum PendingApprovalKind {
    Command,
    OpenQuestion,
}

impl DeepView for PendingApprovalKind {
    type V = PendingApprovalKind;

    open spec fn deep_view(&self) -> PendingApprovalKind {
        *self
    }
}

/// Something that waits for the user.
#[derive(Debug, Clone, PartialEq, Eq)]
pub struct PendingApprovalItem {
    pub thread_id: ThreadId,
    pub approval_id: ApprovalId,
    pub kind: PendingApprovalKind,
    pub summary: String,
    pub detail: String,
    pub goal_id: Option<String>,
    pub requested_at_ms: u64,
    pub checkpoint_id: Option<String>,
}

/// What a `PendingApprovalItem` holds.
#[verifier::ext_equal]
pub struct PendingApprovalItemModel {
    pub thread_id: Seq<char>,
    pub approval_id: Seq<char>,
    pub kind: PendingApprovalKind,
    pub summary: Seq<char>,
    pub detail: Seq<char>,
    pub goal_id: Option<Seq<char>>,
    pub requested_at_ms: u64,
    pub checkpoint_id: Option<Seq<char>>,
}

impl DeepView for PendingApprovalItem {
    type V = PendingApprovalItemModel;

    open spec fn deep_view(&self) -> PendingApprovalItemModel {
        PendingApprovalItemModel {
            thread_id: self.thread_id.deep_view(),
            approval_id: self.approval_id.deep_view(),
            kind: self.kind.deep_view(),
            summary: self.summary.deep_view(),
            detail: self.detail.deep_view(),
            goal_id: self.goal_id.deep_view(),
            requested_at_ms: self.requested_at_ms.deep_view(),
            checkpoint_id: self.checkpoint_id.deep_view(),
        }
    }
}

/// What waits for the user.
#[derive(Debug, Clone, PartialEq, Eq)]
pub struct ApprovalsListResponse {
    pub approvals: Vec<PendingApprovalItem>,
}

/// Puts a workspace back to a checkpoint.
#[derive(Debug, Clone, PartialEq, Eq)]
pub struct CheckpointRestoreParams {
    pub workspace_root: String,
    pub checkpoint_id: String,
}

/// How a restore ended.
#[derive(Debug, Clone, Copy, PartialEq, Eq, Structural)]
pub enum CheckpointRestoreStatus {
    Restored,
}

impl DeepView for CheckpointRestoreStatus {
    type V = CheckpointRestoreStatus;

    open spec fn deep_view(&self) -> CheckpointRestoreStatus {
        *self
    }
}

/// The restored workspace.
#[derive(Debug, Clone, PartialEq, Eq)]
pub struct CheckpointRestoreResponse {
    pub workspace_root: String,
    pub checkpoint_id: String,
    pub status: CheckpointRestoreStatus,
    pub message: String,
}

/// Decides on a request for approval.
#[derive(Debug, Clone, PartialEq, Eq)]
pub struct ApprovalDecisionParams {
    pub thread_id: ThreadId,
    pub turn_id: Option<TurnId>,
    pub approval_id: ApprovalId,
    pub decision: ApprovalDecisionStatus,
    pub note: Option<String>,
    pub workspace_root: Option<String>,
}

/// The decision that was recorded.
#[derive(Debug, Clone, PartialEq, Eq)]
pub struct ApprovalDecisionResponse {
    pub thread_id: ThreadId,
    pub turn_id: TurnId,
    pub approval_id: ApprovalId,
    pub status: ApprovalDecisionStatus,
}

/// Answers the questions of a turn.
#[derive(Debug, Clone, PartialEq, Eq)]
pub struct SubmitUserInputParams {
    pub thread_id: ThreadId,
    pub turn_id: Option<TurnId>,
    pub request_id: ApprovalId,
    pub answers: Vec<Vec<String>>,
    pub dismissed: bool,
    pub workspace_root: Option<String>,
}

/// The answers that were recorded.
#[derive(Debug, Clone, PartialEq, Eq)]
pub struct SubmitUserInputResponse {
    pub thread_id: ThreadId,
    pub turn_id: TurnId,
    pub request_id: ApprovalId,
    pub dismissed: bool,
}

/// Selects events by what happened.
#[derive(Debug, Clone, Copy, PartialEq, Eq, Structural)]
pub enum RuntimeEventKindFilter {
    TurnStarted,
    TurnCompleted,
    TurnInterrupted,
    AssistantTextDelta,
    AssistantTurn,
    ReasoningDelta,
    Reasoning,
    ToolResult,
    ToolInvocationStarted,
    ToolInvocationWaitingApproval,
    ToolInvocationWaitingUserInput,
    ToolInvocationOutputDelta,
    ToolInvocationCompleted,
    ToolInvocationFailed,
    ToolInvocationCancelled,
    ExecOutput,
    ApprovalRequested,
    ApprovalDecision,
    UserInputRequested,
    UserInputResolved,
    CompactionWritten,
    SubagentSpawned,
    SubagentClosed,
    InterAgentMessageSent,
    TokenCount,
    ThreadGoalTurnStarted,
    ThreadGoalToolCompleted,
    ThreadGoalReport,
    RuntimeError,
}

impl DeepView for RuntimeEventKindFilter {
    type V = RuntimeEventKindFilter;

    open spec fn deep_view(&self) -> RuntimeEventKindFilter {
        *self
    }
}

/// Asks for recorded events.
#[derive(Debug, Clone, PartialEq, Eq)]
pub struct EventsReplayParams {
    pub thread_id: ThreadId,
    pub workspace_root: Option<String>,
    pub after_event_id: Option<EventId>,
    pub limit: Option<usize>,
    pub include_snapshot: bool,
    pub event_kinds: Vec<RuntimeEventKindFilter>,
}

/// Asks for events as they come.
#[derive(Debug, Clone, PartialEq, Eq)]
pub struct EventsSubscribeParams {
    pub thread_id: ThreadId,
    pub workspace_root: Option<String>,
    pub after_event_id: Option<EventId>,
}

/// Where a thread stands after its recorded events.
#[derive(Debug, Clone, PartialEq, Eq)]
pub struct ReplaySnapshotView {
    pub thread_id: ThreadId,
    pub cwd: String,
    pub permission_profile: PermissionProfile,
    pub latest_compaction: Option<CompactionSummary>,
    pub open_exec_session_count: usize,
    pub conversation_message_count: usize,
    pub pending_approval_count: usize,
}

/// Recorded events of a thread.
#[derive(Debug, Clone, PartialEq, Eq)]
pub struct EventsReplayResponse {
    pub thread_id: ThreadId,
    pub events: Vec<RuntimeEvent>,
    pub snapshot: Option<ReplaySnapshotView>,
}

/// A request at the boundary of the server.
#[derive(Debug, Clone, PartialEq, Eq)]
pub enum BoundaryOp {
    Initialize(InitializeParams),
    ThreadStart(ThreadStartParams),
    ThreadRead(ThreadReadParams),
    ThreadFork(ThreadForkParams),
    ThreadCompact(ThreadCompactParams),
    ThreadResume(ThreadResumeParams),
    ThreadGoalSet(ThreadGoalSetParams),
    ThreadGoalGet(ThreadGoalGetParams),
    ThreadGoalClear(ThreadGoalClearParams),
    AgentTree(AgentTreeParams),
    ApprovalsList(ApprovalsListParams),
    CheckpointRestore(CheckpointRestoreParams),
    TurnStart(TurnStartParams),
    TurnInterrupt(TurnInterruptParams),
    ApprovalDecision(ApprovalDecisionParams),
    SubmitUserInput(SubmitUserInputParams),
    EventsReplay(EventsReplayParams),
}

/// The answer to a request at the boundary.
#[derive(Debug, PartialEq, Eq)]
pub enum BoundaryOpResponse {
    Initialized(InitializeResponse),
    ThreadStarted(ThreadStartResponse),
    ThreadRead(ThreadReadResponse),
    ThreadFork(ThreadForkResponse),
    ThreadCompacted(ThreadCompactResponse),
    ThreadResumed(ThreadResumeResponse),
    ThreadGoalSet(ThreadGoalSetResponse),
    ThreadGoalGet(ThreadGoalGetResponse),
    ThreadGoalCleared(ThreadGoalClearResponse),
    AgentTree(AgentTreeResponse),
    ApprovalsList(ApprovalsListResponse),
    CheckpointRestored(CheckpointRestoreResponse),
    TurnStarted(TurnStartResponse),
    TurnInterrupted(TurnInterruptResponse),
    ApprovalDecisionSubmitted(ApprovalDecisionResponse),
    UserInputSubmitted(SubmitUserInputResponse),
    EventsReplayed(EventsReplayResponse),
}

/// An operation that waits in the queue of a thread.
#[derive(Debug, Clone, PartialEq, Eq)]
pub enum QueuedThreadOp {
    UserInput { prompt: String },
    UserInputWithTurnContext { prompt: String },
    Interrupt,
    Shutdown,
}

impl TurnStartParams {
    /// What the turn is started with: the input, or the prompt where there is none.
    pub fn effective_input(&self) -> (res: Vec<UserInput>)
        ensures
            res.deep_view() == (if self.input@.len() == 0 {
                seq![UserInputModel::Text { text: self.prompt@ }]
            } else {
                self.input.deep_view()
            }),
    {
        if self.input.is_empty() {
            let res = vec![UserInput::Text { text: self.prompt.clone() }];
            proof {
                assert(res.deep_view() =~= seq![UserInputModel::Text { text: self.prompt@ }]);
            }
            res
        } else {
            self.input.duplicate()
        }
    }
}

/// Whether a flag is off and may be left out on the wire.
pub fn is_false(value: &bool) -> (res: bool)
    ensures
        res == !*value,
{
    !*value
}

/// Checks the objective of a goal: not empty, and not too long.
pub fn validate_thread_goal_objective(value: &str) -> (res: Result<(), String>)
    ensures
        match res {
            Ok(_) => 0 < text::trim_of(value@).len() <= MAX_THREAD_GOAL_OBJECTIVE_CHARS,
            Err(message) => if text::trim_of(value@).len() == 0 {
                message@ == "goal objective must not be empty"@
            } else {
                &&& text::trim_of(value@).len() > MAX_THREAD_GOAL_OBJECTIVE_CHARS
                &&& message@ == "goal objective must be at most "@ + text::decimal_of(
                    MAX_THREAD_GOAL_OBJECTIVE_CHARS as nat,
                ) + " characters"@
            },
        },
{
    let count: usize = text::chars_of(text::trim(value)).len();
    if count == 0 {
        return Err("goal objective must not be empty".to_owned());
    }
    if count > MAX_THREAD_GOAL_OBJECTIVE_CHARS {
        let limit = text::decimal(MAX_THREAD_GOAL_OBJECTIVE_CHARS as u64);
        return Err(
            text::concat3("goal objective must be at most ", limit.as_str(), " characters"),
        );
    }
    Ok(())
}

} // verus!
