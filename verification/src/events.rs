//! What is recorded of a thread while it runs.
use vstd::prelude::*;

use crate::config::PermissionProfile;
use crate::ids::{ApprovalId, EventId, ExecSessionId, ThreadId, TurnId};
use crate::protocol::{ThreadGoal, ThreadGoalReport};
use crate::types::{
    ApprovalStatus, AssistantTurn, CommandRequest, CompactionSummary, QuestionPrompt, TokenUsageInfo,
    ToolResult, ToolStatus,
};

verus! {

/// The output stream of a command.
#[derive(Debug, Clone, Copy, PartialEq, Eq, Structural)]
pub enum ExecOutputStream {
    Stdout,
    Stderr,
}

impl DeepView for ExecOutputStream {
    type V = ExecOutputStream;

    open spec fn deep_view(&self) -> ExecOutputStream {
        *self
    }
}

/// What happened.
#[derive(Debug, Clone, PartialEq, Eq)]
pub enum RuntimeEventKind {
    TurnStarted,
    TurnCompleted,
    TurnInterrupted,
    AssistantTextDelta { delta: String },
    AssistantTurn { turn: AssistantTurn },
    Reasoning { summary: Vec<String>, content: Vec<String> },
    ReasoningDelta { delta: String },
    ToolResult { result: ToolResult },
    ToolInvocationStarted {
        invocation_id: String,
        tool_call_id: String,
        tool_name: String,
        mutating: bool,
    },
    ToolInvocationWaitingApproval {
        invocation_id: String,
        approval_id: ApprovalId,
        reason: String,
    },
    ToolInvocationWaitingUserInput {
        invocation_id: String,
        request_id: ApprovalId,
        reason: String,
    },
    ToolInvocationOutputDelta { invocation_id: String, stream: ExecOutputStream, chunk: String },
    ToolInvocationCompleted {
        invocation_id: String,
        tool_call_id: String,
        tool_name: String,
        status: ToolStatus,
    },
    ToolInvocationFailed {
        invocation_id: String,
        tool_call_id: String,
        tool_name: String,
        message: String,
    },
    ToolInvocationCancelled {
        invocation_id: String,
        tool_call_id: String,
        tool_name: String,
        reason: String,
    },
    ExecOutput { exec_session_id: ExecSessionId, stream: ExecOutputStream, chunk: String },
    ApprovalRequested {
        approval_id: ApprovalId,
        tool_name: String,
        reason: String,
        command: Option<CommandRequest>,
        checkpoint_id: Option<String>,
        permission_profile: PermissionProfile,
        filesystem_sandbox: String,
        network_sandbox: String,
        env_isolation: String,
    },
    ApprovalDecision { approval_id: ApprovalId, status: ApprovalStatus, note: Option<String> },
    UserInputRequested {
        request_id: ApprovalId,
        tool_name: String,
        questions: Vec<QuestionPrompt>,
    },
    UserInputResolved { request_id: ApprovalId, dismissed: bool },
    CompactionWritten { summary: CompactionSummary },
    SubagentSpawned {
        invocation_id: String,
        tool_call_id: String,
        parent_thread_id: ThreadId,
        child_thread_id: ThreadId,
        task_name: String,
        message_preview: String,
    },
    SubagentClosed {
        invocation_id: String,
        tool_call_id: String,
        parent_thread_id: ThreadId,
        closed_thread_id: ThreadId,
        agent_path: String,
    },
    InterAgentMessageSent {
        invocation_id: String,
        tool_call_id: String,
        author_thread_id: ThreadId,
        recipient_thread_id: ThreadId,
        author_path: String,
        recipient_path: String,
        content_preview: String,
        followup: bool,
        started_turn_id: Option<TurnId>,
    },
    ReviewSubmitted { review_id: String },
    TokenCount { info: Option<TokenUsageInfo> },
    ThreadGoalUpdated { goal: ThreadGoal },
    ThreadGoalCleared { goal_id: Option<String> },
    ThreadGoalContinuationStarted { goal_id: String },
    ThreadGoalContinuationSuppressed { goal_id: String },
    ThreadGoalTurnStarted { goal_id: String },
    ThreadGoalToolCompleted { goal_id: String },
    ThreadGoalReport { report: ThreadGoalReport },
    RuntimeError { message: String },
}

/// A recorded event of a thread.
#[derive(Debug, Clone, PartialEq, Eq)]
pub struct RuntimeEvent {
    pub event_id: EventId,
    pub thread_id: ThreadId,
    pub turn_id: Option<TurnId>,
    pub kind: RuntimeEventKind,
}

} // verus!
