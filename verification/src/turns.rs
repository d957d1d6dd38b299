//! Turns: starting and interrupting them, and deciding on what they wait for.
use vstd::prelude::*;

use crate::config::{AgentConfig, ResolvedModelConfig};
use crate::data::{Alike, Duplicate};
use crate::error::AppServerError;
use crate::events::{RuntimeEvent, RuntimeEventKind};
use crate::ids::{ApprovalId, ThreadId, TurnId};
use crate::override_policy;
use crate::override_policy::OverridePolicy;
use crate::paths;
use crate::protocol::{
    AgentRunResponse, ApprovalDecisionParams, ApprovalDecisionResponse, ApprovalDecisionStatus,
    TurnContextOverrides, TurnInterruptParams, TurnInterruptResponse, TurnMode, TurnStartParams,
    TurnStartResponse, TurnState, TurnStatus, TurnView,
};
use crate::runtime_loader;
use crate::runtime_loader::RuntimeLoadStep;
use crate::state::{RuntimeOverlay, StoredThreadState, ThreadSnapshot};
use crate::text;
use crate::thread_runtime::{ThreadOpResult, ThreadRuntimeError, ThreadTurnContext};
use crate::types::{ApprovalStatus, AssistantTurn};

verus! {

/// The answer of a finished run: what the model said last, and the tools that it called.
pub fn agent_run_response(thread_id: ThreadId, final_turn: AssistantTurn) -> (res: AgentRunResponse)
    ensures
        res == (AgentRunResponse {
            text: final_turn.text,
            tool_calls: final_turn.tool_calls,
            thread_id,
        }),
{
    AgentRunResponse { text: final_turn.text, tool_calls: final_turn.tool_calls, thread_id }
}

/// The answer to a turn that was started: it is in progress, with nothing to show yet.
pub fn turn_start_response(thread_id: ThreadId, turn_id: TurnId) -> (res: TurnStartResponse)
    ensures
        res.thread_id == thread_id,
        res.turn.id == turn_id,
        res.turn.status == TurnStatus::InProgress,
        res.turn.items@.len() == 0,
{
    TurnStartResponse {
        thread_id,
        turn: TurnView { id: turn_id, status: TurnStatus::InProgress, items: Vec::new() },
    }
}

/// What it takes to start a turn: the settings of the request, and how its thread is made ready.
/// `workspace_root` is the workspace of the request, and `live_workspace_root` that of the thread,
/// where it is loaded.
pub fn turn_to_start(
    base: &AgentConfig,
    params: &TurnStartParams,
    workspace_root: String,
    live_workspace_root: Option<String>,
) -> (res: Result<(AgentConfig, RuntimeLoadStep), AppServerError>)
    ensures
        match res {
            Ok((config, step)) => {
                &&& config.deep_view() == override_policy::in_workspace(
                    base.deep_view(),
                    workspace_root@,
                )
                &&& runtime_loader::is_load_step(
                    Ok(step),
                    params.thread_id@,
                    params.workspace_root is Some,
                    workspace_root@,
                    live_workspace_root,
                    false,
                )
            },
            Err(error) => runtime_loader::is_load_step(
                Err(error),
                params.thread_id@,
                params.workspace_root is Some,
                workspace_root@,
                live_workspace_root,
                false,
            ),
        },
        res is Err ==> live_workspace_root is Some && params.workspace_root is Some,
        res matches Ok((config, step)) ==> (step is Reuse <==> live_workspace_root is Some),
{
    match runtime_loader::ensure_runtime_loaded(
        &params.thread_id,
        params.workspace_root.is_some(),
        workspace_root.as_str(),
        live_workspace_root,
    ) {
        Ok(step) => Ok((OverridePolicy::merge_turn_start(base, workspace_root), step)),
        Err(error) => Err(error),
    }
}

/// What comes of a turn that is started and not waited for, from how the thread took it.
pub fn start_turn_in_background(
    thread_id: ThreadId,
    submitted: Result<TurnId, ThreadRuntimeError>,
) -> (res: Result<TurnStartResponse, AppServerError>)
    ensures
        match submitted {
            Ok(turn_id) => {
                &&& res matches Ok(response)
                &&& response.thread_id == thread_id
                &&& response.turn.id == turn_id
                &&& response.turn.status == TurnStatus::InProgress
                &&& response.turn.items@.len() == 0
            },
            Err(error) => res == Err::<TurnStartResponse, AppServerError>(
                server_error_of(error),
            ),
        },
{
    match submitted {
        Ok(turn_id) => Ok(turn_start_response(thread_id, turn_id)),
        Err(error) => Err(map_thread_runtime_error(error)),
    }
}

/// What comes of a turn that is waited for, from how it ended: its thread, the workspace of the
/// thread, and what the turn said last.
pub fn run_turn_through_runtime(
    thread_id: ThreadId,
    runtime_workspace_root: String,
    ended: Result<ThreadOpResult, ThreadRuntimeError>,
) -> (res: Result<(ThreadId, String, AssistantTurn), AppServerError>)
    ensures
        match ended {
            Ok(ThreadOpResult::UserInput { final_turn, .. }) => res == Ok::<
                (ThreadId, String, AssistantTurn),
                AppServerError,
            >((thread_id, runtime_workspace_root, final_turn)),
            Ok(_) => res matches Err(error) && error.is_invalid(
                "turn_start returned non-user-input runtime result"@,
            ),
            Err(error) => res == Err::<(ThreadId, String, AssistantTurn), AppServerError>(
                server_error_of(error),
            ),
        },
        res is Ok <==> ended is Ok && ended->Ok_0 is UserInput,
{
    match ended {
        Ok(result) => match final_turn_of(result) {
            Ok(final_turn) => Ok((thread_id, runtime_workspace_root, final_turn)),
            Err(error) => Err(error),
        },
        Err(error) => Err(map_thread_runtime_error(error)),
    }
}

/// What a finished turn said last. Only a turn that ran on user input says anything.
pub fn final_turn_of(result: ThreadOpResult) -> (res: Result<AssistantTurn, AppServerError>)
    ensures
        match result {
            ThreadOpResult::UserInput { final_turn, .. } => res == Ok::<
                AssistantTurn,
                AppServerError,
            >(final_turn),
            _ => res matches Err(error) && error.is_invalid(
                "turn_start returned non-user-input runtime result"@,
            ),
        },
        res is Ok <==> result is UserInput,
{
    match result {
        ThreadOpResult::UserInput { final_turn, .. } => Ok(final_turn),
        _ => Err(AppServerError::invalid("turn_start returned non-user-input runtime result")),
    }
}

/// The settings that a turn runs with, where it has any of its own. `cwd` is the working directory
/// that the overrides name, free of links and detours, and `resolved_model` the model that they
/// name.
pub fn resolve_turn_context(
    snapshot: &ThreadSnapshot,
    overrides: Option<TurnContextOverrides>,
    turn_mode: TurnMode,
    cwd: Option<String>,
    resolved_model: Option<ResolvedModelConfig>,
) -> (res: Result<Option<ThreadTurnContext>, AppServerError>)
    requires
        cwd is Some <==> (overrides matches Some(overrides) && overrides.cwd is Some),
        resolved_model is Some <==> (overrides matches Some(overrides) && overrides.model is Some),
    ensures
        match overrides {
            Some(overrides) => if cwd is Some && !paths::is_within(
                cwd->0@,
                snapshot.workspace_root@,
            ) {
                res matches Err(error) && override_policy::is_outside(error)
            } else {
                &&& res matches Ok(Some(context))
                &&& context.cwd.deep_view() == Some(
                    match cwd {
                        Some(cwd) => cwd@,
                        None => snapshot.cwd@,
                    },
                )
                &&& context.resolved_model == resolved_model
                &&& context.thinking_mode == overrides.thinking_mode
                &&& context.clear_thinking_mode == overrides.clear_thinking_mode
                &&& context.turn_mode == turn_mode
            },
            None => if turn_mode == TurnMode::Normal {
                res == Ok::<Option<ThreadTurnContext>, AppServerError>(None)
            } else {
                res == Ok::<Option<ThreadTurnContext>, AppServerError>(
                    Some(
                        ThreadTurnContext {
                            cwd: None,
                            resolved_model: None,
                            thinking_mode: None,
                            clear_thinking_mode: false,
                            turn_mode,
                        },
                    ),
                )
            },
        },
        res is Err ==> cwd is Some && !paths::is_within(cwd->0@, snapshot.workspace_root@),
        overrides is None && turn_mode == TurnMode::Normal <==> res is Ok && res->Ok_0 is None,
        res matches Ok(Some(context)) ==> context.turn_mode == turn_mode && context.resolved_model
            == resolved_model,
        cwd matches Some(cwd) ==> (res matches Ok(Some(context)) ==> context.cwd matches Some(taken)
            && taken@ == cwd@),
{
    match overrides {
        Some(overrides) => {
            let turn = match OverridePolicy::apply_turn_context(snapshot, &overrides, cwd) {
                Ok(turn) => turn,
                Err(error) => return Err(error),
            };
            proof {
                assert(turn.deep_view().cwd == turn.cwd@);
                assert(snapshot.deep_view().cwd == snapshot.cwd@);
            }
            Ok(
                Some(
                    ThreadTurnContext {
                        cwd: Some(turn.cwd),
                        resolved_model,
                        thinking_mode: overrides.thinking_mode,
                        clear_thinking_mode: overrides.clear_thinking_mode,
                        turn_mode,
                    },
                ),
            )
        },
        None => if turn_mode == TurnMode::Normal {
            Ok(None)
        } else {
            Ok(
                Some(
                    ThreadTurnContext {
                        cwd: None,
                        resolved_model: None,
                        thinking_mode: None,
                        clear_thinking_mode: false,
                        turn_mode,
                    },
                ),
            )
        },
    }
}

/// A loaded thread: its workspace, and whether it runs a turn.
#[derive(Debug, Clone, PartialEq, Eq)]
pub struct LoadedTurn {
    pub workspace_root: String,
    pub active: bool,
}

/// How a turn is interrupted.
#[derive(Debug, Clone, Copy, PartialEq, Eq, Structural)]
pub enum InterruptStep {
    InterruptActiveTurn,
    InterruptWaitingApprovalTurn,
}

/// How a turn is interrupted: the one that runs, or else the one that waits for approval. A thread
/// that is not loaded has neither. `workspace_root` is the workspace of the request.
pub fn turn_interrupt(
    params: TurnInterruptParams,
    workspace_root: &str,
    loaded: Option<LoadedTurn>,
    exists_in_storage: bool,
) -> (res: Result<InterruptStep, AppServerError>)
    ensures
        match loaded {
            Some(loaded) => if runtime_loader::may_reach(
                params.workspace_root is Some,
                workspace_root@,
                loaded.workspace_root@,
            ) {
                res == Ok::<InterruptStep, AppServerError>(
                    if loaded.active {
                        InterruptStep::InterruptActiveTurn
                    } else {
                        InterruptStep::InterruptWaitingApprovalTurn
                    },
                )
            } else {
                res matches Err(error) && runtime_loader::is_mismatch(
                    error,
                    params.thread_id@,
                    workspace_root@,
                    loaded.workspace_root@,
                )
            },
            None => if exists_in_storage {
                res matches Err(error) && error.is_rejected(
                    params.thread_id@,
                    "thread has no active turn"@,
                )
            } else {
                res == Err::<InterruptStep, AppServerError>(
                    AppServerError::ThreadNotFound(params.thread_id),
                )
            },
        },
        res is Ok ==> loaded is Some,
        res matches Ok(step) ==> (step is InterruptActiveTurn <==> loaded->0.active),
        loaded is Some && params.workspace_root is None ==> res is Ok,
        loaded is None && !exists_in_storage ==> (res matches Err(error) && error is ThreadNotFound),
{
    if let Some(loaded) = loaded {
        return match runtime_loader::resolve_loaded_runtime(
            &params.thread_id,
            params.workspace_root.is_some(),
            workspace_root,
            Some(loaded.workspace_root),
        ) {
            Ok(_) => if loaded.active {
                Ok(InterruptStep::InterruptActiveTurn)
            } else {
                Ok(InterruptStep::InterruptWaitingApprovalTurn)
            },
            Err(error) => Err(error),
        };
    }
    if exists_in_storage {
        Err(
            AppServerError::TurnRejected {
                thread_id: params.thread_id,
                reason: "thread has no active turn".to_owned(),
            },
        )
    } else {
        Err(AppServerError::ThreadNotFound(params.thread_id))
    }
}

/// The answer to a turn that was interrupted.
pub fn turn_interrupt_response(thread_id: ThreadId, turn_id: TurnId) -> (res:
    TurnInterruptResponse)
    ensures
        res == (TurnInterruptResponse {
            thread_id,
            interrupted_turn: Some(TurnState { turn_id, status: TurnStatus::Interrupted }),
        }),
        res.interrupted_turn is Some,
        res.interrupted_turn->0.status is Interrupted,
{
    TurnInterruptResponse {
        thread_id,
        interrupted_turn: Some(TurnState { turn_id, status: TurnStatus::Interrupted }),
    }
}

/// A decision as it is stored.
pub open spec fn stored_decision(status: ApprovalDecisionStatus) -> ApprovalStatus {
    match status {
        ApprovalDecisionStatus::Approved => ApprovalStatus::Approved,
        ApprovalDecisionStatus::Denied => ApprovalStatus::Denied,
    }
}

/// A decision as it is stored.
pub fn approval_decision_status_to_session(status: &ApprovalDecisionStatus) -> (res:
    ApprovalStatus)
    ensures
        res == stored_decision(*status),
{
    match status {
        ApprovalDecisionStatus::Approved => ApprovalStatus::Approved,
        ApprovalDecisionStatus::Denied => ApprovalStatus::Denied,
    }
}

/// A stored status as a decision. What is still pending is none.
pub fn session_approval_status_to_decision(status: ApprovalStatus) -> (res: Result<
    ApprovalDecisionStatus,
    AppServerError,
>)
    ensures
        match res {
            Ok(decision) => stored_decision(decision) == status,
            Err(error) => status == ApprovalStatus::Pending && error.is_invalid(
                "approval decision returned pending status"@,
            ),
        },
        res is Ok <==> status !is Pending,
        res matches Ok(decision) ==> (decision is Approved <==> status is Approved),
{
    match status {
        ApprovalStatus::Approved => Ok(ApprovalDecisionStatus::Approved),
        ApprovalStatus::Denied => Ok(ApprovalDecisionStatus::Denied),
        ApprovalStatus::Pending => Err(
            AppServerError::invalid("approval decision returned pending status"),
        ),
    }
}

/// The name of the way in which an operation ended.
pub open spec fn result_name(result: ThreadOpResult) -> Seq<char> {
    match result {
        ThreadOpResult::UserInput { .. } => "user_input"@,
        ThreadOpResult::Interrupted { .. } => "interrupted"@,
        ThreadOpResult::ApprovalDecision { .. } => "approval_decision"@,
        ThreadOpResult::Ack => "ack"@,
    }
}

/// The name of the way in which an operation ended.
pub fn runtime_result_name(result: &ThreadOpResult) -> (res: &'static str)
    ensures
        res@ == result_name(*result),
{
    match result {
        ThreadOpResult::UserInput { .. } => "user_input",
        ThreadOpResult::Interrupted { .. } => "interrupted",
        ThreadOpResult::ApprovalDecision { .. } => "approval_decision",
        ThreadOpResult::Ack => "ack",
    }
}

/// The error for an operation that ended in a way that it cannot end in.
pub fn unexpected_runtime_result(operation: &str, result: &ThreadOpResult) -> (res: AppServerError)
    ensures
        res.is_invalid(
            operation@ + " returned unexpected "@ + result_name(*result) + " runtime result"@,
        ),
{
    AppServerError::InvalidRequest(
        text::concat4(
            operation,
            " returned unexpected ",
            runtime_result_name(result),
            " runtime result",
        ),
    )
}

/// The error of the server for one of a thread's runtime.
pub open spec fn server_error_of(error: ThreadRuntimeError) -> AppServerError {
    match error {
        ThreadRuntimeError::ThreadBusy(thread_id) => AppServerError::ThreadBusy(thread_id),
        ThreadRuntimeError::TurnRejected { thread_id, reason } =>
            AppServerError::TurnRejected { thread_id, reason },
        ThreadRuntimeError::TurnInterrupted { thread_id, turn_id } =>
            AppServerError::TurnInterrupted { thread_id, turn_id },
    }
}

/// The error of the server for one of a thread's runtime.
pub fn map_thread_runtime_error(error: ThreadRuntimeError) -> (res: AppServerError)
    ensures
        res == server_error_of(error),
{
    match error {
        ThreadRuntimeError::ThreadBusy(thread_id) => AppServerError::ThreadBusy(thread_id),
        ThreadRuntimeError::TurnRejected { thread_id, reason } => AppServerError::TurnRejected {
            thread_id,
            reason,
        },
        ThreadRuntimeError::TurnInterrupted { thread_id, turn_id } =>
            AppServerError::TurnInterrupted { thread_id, turn_id },
    }
}

/// A command that waits for approval, with all that it takes to run it.
#[derive(Debug, Clone, PartialEq, Eq)]
pub struct PendingCommandApproval {
    pub approval_id: ApprovalId,
    pub thread_id: ThreadId,
    pub tool_name: String,
    pub command: String,
    pub cwd: String,
    pub timeout_secs: u64,
    pub persistent: bool,
    pub reason: String,
}

/// Whether an event asks for this approval of a command.
pub open spec fn asks_for_command(event: RuntimeEvent, approval_id: Seq<char>) -> bool {
    event.kind matches RuntimeEventKind::ApprovalRequested { approval_id: asked, command, .. }
        && asked@ == approval_id && command is Some
}

/// The last event that asks for this approval of a command.
pub open spec fn last_command_request(events: Seq<RuntimeEvent>, approval_id: Seq<char>) -> Option<
    RuntimeEvent,
>
    decreases events.len(),
{
    if events.len() == 0 {
        None
    } else if asks_for_command(events.last(), approval_id) {
        Some(events.last())
    } else {
        last_command_request(events.drop_last(), approval_id)
    }
}

/// Whether a tool runs commands.
pub open spec fn is_command_tool(tool_name: Seq<char>) -> bool {
    tool_name == "run_command"@ || tool_name == "exec_command"@
}

/// Whether `pending` is what the event asks for, in this thread.
pub open spec fn is_request_of(
    pending: PendingCommandApproval,
    event: RuntimeEvent,
    approval_id: Seq<char>,
    thread_id: Seq<char>,
) -> bool {
    event.kind matches RuntimeEventKind::ApprovalRequested {
        tool_name,
        reason,
        command: Some(command),
        ..
    } && {
        &&& pending.approval_id@ == approval_id
        &&& pending.thread_id@ == thread_id
        &&& pending.tool_name@ == tool_name@
        &&& pending.command@ == command.command@
        &&& pending.cwd@ == command.cwd@
        &&& pending.timeout_secs == command.timeout_secs
        &&& pending.persistent == command.persistent
        &&& pending.reason@ == reason@
    }
}

/// The command that an approval was asked for, as the stored events tell it: that of the last
/// request, where the tool that asked runs commands.
pub fn pending_command_approval_from_stored_state(
    stored: &StoredThreadState,
    approval_id: &ApprovalId,
) -> (res: Option<PendingCommandApproval>)
    ensures
        match last_command_request(stored.events@, approval_id@) {
            Some(event) => if is_command_tool(event.kind->ApprovalRequested_tool_name@) {
                &&& res matches Some(pending)
                &&& is_request_of(
                    pending,
                    event,
                    approval_id@,
                    stored.snapshot.thread_id@,
                )
            } else {
                res is None
            },
            None => res is None,
        },
{
    let events = &stored.events;
    let mut n: usize = events.len();
    assert(events@.take(n as int) =~= events@);
    while n > 0
        invariant
            n <= events@.len(),
            *events == stored.events,
            last_command_request(events@, approval_id@) == last_command_request(
                events@.take(n as int),
                approval_id@,
            ),
        decreases n,
    {
        let event = &events[n - 1];
        proof {
            assert(events@.take(n as int).last() == *event);
            assert(events@.take(n as int).drop_last() =~= events@.take(n - 1));
        }
        if let RuntimeEventKind::ApprovalRequested {
            approval_id: asked,
            tool_name,
            reason,
            command,
            ..
        } = &event.kind {
            if let Some(command) = command {
                if asked.alike(approval_id) {
                    if !text::same(tool_name.as_str(), "run_command") && !text::same(
                        tool_name.as_str(),
                        "exec_command",
                    ) {
                        return None;
                    }
                    return Some(
                        PendingCommandApproval {
                            approval_id: approval_id.duplicate(),
                            thread_id: stored.snapshot.thread_id.duplicate(),
                            tool_name: tool_name.clone(),
                            command: command.command.clone(),
                            cwd: command.cwd.clone(),
                            timeout_secs: command.timeout_secs,
                            persistent: command.persistent,
                            reason: reason.clone(),
                        },
                    );
                }
            }
        }
        n = n - 1;
    }
    None
}

/// What comes before a decision is handed to the runtime of a thread: a command that was asked
/// for is put back in place, and the thread is loaded where it is not.
pub struct ApprovalStep {
    pub restore: Option<PendingCommandApproval>,
    pub load_runtime: bool,
    pub status: ApprovalStatus,
}

/// Whether the stored events leave this approval open.
pub open spec fn is_open(
    stored: Option<(StoredThreadState, RuntimeOverlay)>,
    approval_id: Seq<char>,
) -> bool {
    stored matches Some((_, overlay)) && overlay.pending_approvals.deep_view().contains(approval_id)
}

/// The request that a decision is about, where the stored events leave the approval open and the
/// tool that asked runs commands.
pub open spec fn open_request(
    stored: Option<(StoredThreadState, RuntimeOverlay)>,
    approval_id: Seq<char>,
) -> Option<RuntimeEvent> {
    match stored {
        Some((state, _)) => if is_open(stored, approval_id) {
            match last_command_request(state.events@, approval_id) {
                Some(event) => if is_command_tool(event.kind->ApprovalRequested_tool_name@) {
                    Some(event)
                } else {
                    None
                },
                None => None,
            }
        } else {
            None
        },
        None => None,
    }
}

/// Whether `pending` is the command that a decision is about.
pub open spec fn is_open_request(
    pending: Option<PendingCommandApproval>,
    stored: Option<(StoredThreadState, RuntimeOverlay)>,
    approval_id: Seq<char>,
) -> bool {
    match (stored, open_request(stored, approval_id)) {
        (Some((state, _)), Some(event)) => pending matches Some(pending) && is_request_of(
            pending,
            event,
            approval_id,
            state.snapshot.thread_id@,
        ),
        _ => pending is None,
    }
}

/// What is put back in place before a decision: the command that the approval was asked for,
/// where the stored events leave the approval open.
pub fn restore_pending_command_approval_from_storage(
    stored: &Option<(StoredThreadState, RuntimeOverlay)>,
    approval_id: &ApprovalId,
) -> (res: Option<PendingCommandApproval>)
    ensures
        is_open_request(res, *stored, approval_id@),
{
    match stored {
        Some((stored, overlay)) => if overlay.has_pending_approval_id(approval_id) {
            pending_command_approval_from_stored_state(stored, approval_id)
        } else {
            None
        },
        None => None,
    }
}

/// What comes before a decision is handed to the runtime of a thread. A thread that is not loaded
/// must be stored with the approval open. `workspace_root` is the workspace of the request, and
/// `live_workspace_root` that of the thread, where it is loaded.
pub fn approval_decision(
    params: &ApprovalDecisionParams,
    workspace_root: &str,
    live_workspace_root: Option<String>,
    stored: &Option<(StoredThreadState, RuntimeOverlay)>,
) -> (res: Result<ApprovalStep, AppServerError>)
    ensures
        ({
            let reached = match live_workspace_root {
                Some(live) => runtime_loader::may_reach(
                    params.workspace_root is Some,
                    workspace_root@,
                    live@,
                ),
                None => true,
            };
            match res {
                Ok(step) => {
                    &&& reached
                    &&& live_workspace_root is Some || is_open(*stored, params.approval_id@)
                    &&& step.load_runtime == (live_workspace_root is None)
                    &&& step.status == stored_decision(params.decision)
                    &&& is_open_request(step.restore, *stored, params.approval_id@)
                },
                Err(error) => if !reached {
                    runtime_loader::is_mismatch(
                        error,
                        params.thread_id@,
                        workspace_root@,
                        live_workspace_root->0@,
                    )
                } else {
                    &&& live_workspace_root is None
                    &&& if *stored is Some {
                        &&& !is_open(*stored, params.approval_id@)
                        &&& error.is_rejected(
                            params.thread_id@,
                            "thread has no pending approval"@,
                        )
                    } else {
                        error.is_not_found(params.thread_id@)
                    }
                },
            }
        }),
        res matches Ok(step) ==> {
            &&& step.status is Approved <==> params.decision is Approved
            &&& step.status is Denied <==> params.decision is Denied
            &&& step.load_runtime <==> live_workspace_root is None
            &&& step.restore is Some ==> stored is Some
        },
        live_workspace_root is None && stored is None ==> res is Err,
        live_workspace_root is Some && params.workspace_root is None ==> res is Ok,
{
    let status = approval_decision_status_to_session(&params.decision);
    let loaded = match runtime_loader::resolve_loaded_runtime(
        &params.thread_id,
        params.workspace_root.is_some(),
        workspace_root,
        live_workspace_root,
    ) {
        Ok(live) => live.is_some(),
        Err(error) => return Err(error),
    };
    if !loaded {
        match stored {
            Some((_, overlay)) => {
                if !overlay.has_pending_approval_id(&params.approval_id) {
                    return Err(
                        AppServerError::TurnRejected {
                            thread_id: params.thread_id.duplicate(),
                            reason: "thread has no pending approval".to_owned(),
                        },
                    );
                }
            },
            None => return Err(AppServerError::ThreadNotFound(params.thread_id.duplicate())),
        }
    }
    Ok(
        ApprovalStep {
            restore: restore_pending_command_approval_from_storage(stored, &params.approval_id),
            load_runtime: !loaded,
            status,
        },
    )
}

/// The answer to a decision, from how the operation on the thread ended.
pub fn approval_decision_response(thread_id: ThreadId, result: ThreadOpResult) -> (res: Result<
    ApprovalDecisionResponse,
    AppServerError,
>)
    ensures
        match result {
            ThreadOpResult::ApprovalDecision { turn_id, approval_id, status } => match status {
                ApprovalStatus::Pending => res matches Err(error) && error.is_invalid(
                    "approval decision returned pending status"@,
                ),
                _ => {
                    &&& res matches Ok(response)
                    &&& response.thread_id == thread_id
                    &&& response.turn_id == turn_id
                    &&& response.approval_id == approval_id
                    &&& stored_decision(response.status) == status
                },
            },
            other => res matches Err(error) && error.is_invalid(
                "approval_decision"@ + " returned unexpected "@ + result_name(other)
                    + " runtime result"@,
            ),
        },
        res is Ok <==> result is ApprovalDecision && result->status !is Pending,
        res matches Ok(response) ==> (response.status is Approved <==> result->status is Approved),
{
    match result {
        ThreadOpResult::ApprovalDecision { turn_id, approval_id, status } => {
            match session_approval_status_to_decision(status) {
                Ok(status) => Ok(
                    ApprovalDecisionResponse { thread_id, turn_id, approval_id, status },
                ),
                Err(error) => Err(error),
            }
        },
        other => Err(unexpected_runtime_result("approval_decision", &other)),
    }
}

} // verus!
