//! Threads: starting, reading, resuming, compacting and forking them.
use vstd::prelude::*;

use crate::config::{AgentConfig, PermissionProfile};
use crate::data::Duplicate;
use crate::error::AppServerError;
use crate::events::RuntimeEvent;
use crate::ids::{ThreadId, TurnId};
use crate::override_policy::{OverridePolicy, RuntimeOverrides};
use crate::protocol::{
    EventsSubscribeParams, IgnoredOverrideField, ThreadCompactParams, ThreadCompactResponse,
    ThreadForkParams, ThreadForkResponse, ThreadGoalMode, ThreadReadResponse, ThreadResumeParams,
    ThreadResumeResponse, ThreadStartParams, ThreadStartResponse, ThreadStatus, ThreadView, TurnState,
};
use crate::runtime_loader;
use crate::state;
use crate::state::{
    RuntimeOverlay, StoredThreadState, ThreadLineage, ThreadSnapshot, ThreadSource,
};
use crate::thread_view;
use crate::types::{CompactionSummary, ResponseItem};

verus! {

/// How the history of a thread begins.
#[derive(Debug, Clone, PartialEq, Eq)]
pub enum InitialHistory {
    New,
    Resume { thread_id: ThreadId },
}

/// How a thread is started: its settings, its history, where it comes from, and the agent control
/// that is handed down to it, if any.
pub struct StartThreadOptions<C> {
    pub config: AgentConfig,
    pub initial_history: InitialHistory,
    pub thread_source: ThreadSource,
    pub lineage: Option<ThreadLineage>,
    pub subagent_control: Option<C>,
}

/// What starts a thread.
pub enum StartThreadStep<C> {
    /// The snapshot is stored, and the thread is loaded under the control that was handed down,
    /// or else under one of its own.
    Create {
        thread_id: ThreadId,
        snapshot: ThreadSnapshot,
        config: AgentConfig,
        subagent_control: Option<C>,
    },
    /// The stored thread is loaded.
    Load { thread_id: ThreadId, config: AgentConfig, subagent_control: Option<C> },
}

/// What starts a thread. `new_thread_id` names a thread with a new history; one that is taken up
/// again must be stored.
pub fn start_thread_with_options<C>(
    options: StartThreadOptions<C>,
    new_thread_id: ThreadId,
    exists_in_storage: bool,
) -> (res: Result<StartThreadStep<C>, AppServerError>)
    ensures
        match options.initial_history {
            InitialHistory::New => {
                &&& res matches Ok(
                    StartThreadStep::Create { thread_id, snapshot, config, subagent_control },
                )
                &&& thread_id == new_thread_id
                &&& snapshot.deep_view() == state::new_thread(
                    new_thread_id@,
                    options.config.workspace_root@,
                    options.config.cwd@,
                    options.config.permission_profile,
                    options.thread_source,
                    options.lineage.deep_view(),
                )
                &&& config == options.config
                &&& subagent_control == options.subagent_control
            },
            InitialHistory::Resume { thread_id } => if exists_in_storage {
                res == Ok::<StartThreadStep<C>, AppServerError>(
                    StartThreadStep::Load {
                        thread_id,
                        config: options.config,
                        subagent_control: options.subagent_control,
                    },
                )
            } else {
                res == Err::<StartThreadStep<C>, AppServerError>(
                    AppServerError::ThreadNotFound(thread_id),
                )
            },
        },
        res is Ok && res->Ok_0 is Create <==> options.initial_history is New,
        res is Err ==> !exists_in_storage,
        res is Ok && res->Ok_0 is Load ==> exists_in_storage,
{
    match options.initial_history {
        InitialHistory::New => {
            let snapshot = ThreadSnapshot::new_thread_with_options(
                new_thread_id.duplicate(),
                options.config.workspace_root.clone(),
                options.config.cwd.clone(),
                options.config.permission_profile,
                options.thread_source,
                options.lineage,
            );
            Ok(
                StartThreadStep::Create {
                    thread_id: new_thread_id,
                    snapshot,
                    config: options.config,
                    subagent_control: options.subagent_control,
                },
            )
        },
        InitialHistory::Resume { thread_id } => {
            if !exists_in_storage {
                return Err(AppServerError::ThreadNotFound(thread_id));
            }
            Ok(
                StartThreadStep::Load {
                    thread_id,
                    config: options.config,
                    subagent_control: options.subagent_control,
                },
            )
        },
    }
}

/// How a thread is started for a request: as a new one of the user, with the settings that the
/// request asks for. `root` and `cwd` are the workspace and the working directory that it names,
/// free of links and detours.
pub fn thread_start<C>(
    base: &AgentConfig,
    params: ThreadStartParams,
    root: String,
    cwd: Option<String>,
) -> (res: Result<StartThreadOptions<C>, AppServerError>)
    requires
        params.cwd is Some == cwd is Some,
    ensures
        ({
            let overrides = RuntimeOverrides {
                workspace_root: params.workspace_root,
                cwd: params.cwd,
                permission_profile: params.permission_profile,
            };
            match res {
                Ok(options) => {
                    &&& OverridePolicy::is_applied(
                        Ok(options.config),
                        base.deep_view(),
                        overrides,
                        root@,
                        cwd.deep_view(),
                    )
                    &&& options.initial_history is New
                    &&& options.thread_source == ThreadSource::User
                    &&& options.lineage is None
                    &&& options.subagent_control is None
                },
                Err(error) => OverridePolicy::is_applied(
                    Err(error),
                    base.deep_view(),
                    overrides,
                    root@,
                    cwd.deep_view(),
                ),
            }
        }),
{
    let overrides = RuntimeOverrides {
        workspace_root: params.workspace_root,
        cwd: params.cwd,
        permission_profile: params.permission_profile,
    };
    match OverridePolicy::merge_thread_start(base, overrides, root, cwd) {
        Ok(config) => Ok(
            StartThreadOptions {
                config,
                initial_history: InitialHistory::New,
                thread_source: ThreadSource::User,
                lineage: None,
                subagent_control: None,
            },
        ),
        Err(error) => Err(error),
    }
}

/// The answer to a thread that was started: idle, with nothing in it.
pub fn thread_start_response(thread_id: ThreadId) -> (res: ThreadStartResponse)
    ensures
        res.thread.id == thread_id,
        res.thread.status == ThreadStatus::Idle,
        res.thread.active_turn is None,
        res.thread.turns@.len() == 0,
        res.thread.model is None,
        res.thread.thinking_mode is None,
        res.thread.goal is None,
        res.thread.goal_mode == ThreadGoalMode::Standard,
{
    ThreadStartResponse {
        thread: ThreadView {
            id: thread_id,
            status: ThreadStatus::Idle,
            active_turn: None,
            turns: Vec::new(),
            model: None,
            thinking_mode: None,
            goal: None,
            goal_mode: ThreadGoalMode::Standard,
        },
    }
}

/// A loaded thread, as it is now.
pub struct LiveThread {
    pub workspace_root: String,
    pub snapshot: ThreadSnapshot,
    pub overlay: RuntimeOverlay,
    pub events: Vec<RuntimeEvent>,
}

/// What is stored of a thread, from the records of it: nothing, where there are none. `snapshot` is
/// what the records tell of it, which is read only where there are some.
pub fn read_thread_state_from_storage<E>(
    record_count: usize,
    snapshot: Result<ThreadSnapshot, E>,
    response_items: Vec<ResponseItem>,
    events: Vec<RuntimeEvent>,
) -> (res: Result<Option<StoredThreadState>, E>)
    ensures
        res == if record_count == 0 {
            Ok::<Option<StoredThreadState>, E>(None)
        } else {
            match snapshot {
                Ok(snapshot) => Ok::<Option<StoredThreadState>, E>(
                    Some(StoredThreadState { snapshot, response_items, events }),
                ),
                Err(error) => Err::<Option<StoredThreadState>, E>(error),
            }
        },
{
    if record_count == 0 {
        return Ok(None);
    }
    match snapshot {
        Ok(snapshot) => Ok(Some(StoredThreadState { snapshot, response_items, events })),
        Err(error) => Err(error),
    }
}

/// What is known of a thread: as it is now, where it is loaded, with the conversation that is
/// stored; else as it is stored.
pub fn read_thread_state(
    live: Option<LiveThread>,
    stored: Option<StoredThreadState>,
) -> (res: Option<StoredThreadState>)
    ensures
        match live {
            Some(live) => {
                &&& res matches Some(state)
                &&& state.snapshot == live.snapshot
                &&& state.events == live.events
                &&& state.response_items@ == match stored {
                    Some(stored) => stored.response_items@,
                    None => Seq::<ResponseItem>::empty(),
                }
            },
            None => res == stored,
        },
        res is None <==> live is None && stored is None,
        live matches Some(live) ==> res->0.snapshot == live.snapshot,
        live is None ==> res == stored,
{
    match live {
        Some(live) => Some(
            StoredThreadState {
                snapshot: live.snapshot,
                response_items: match stored {
                    Some(stored) => stored.response_items,
                    None => Vec::new(),
                },
                events: live.events,
            },
        ),
        None => stored,
    }
}

/// Reads a thread: as it is now, where it is loaded, with the conversation that is stored; else
/// as it is stored.
pub fn thread_read_resolved(
    thread_id: ThreadId,
    requested_workspace_root: bool,
    workspace_root: &str,
    active_turn: Option<TurnState>,
    live: Option<LiveThread>,
    stored: Option<(StoredThreadState, RuntimeOverlay)>,
) -> (res: Result<ThreadReadResponse, AppServerError>)
    ensures
        match (live, stored) {
            (Some(live), _) => if runtime_loader::may_reach(
                requested_workspace_root,
                workspace_root@,
                live.workspace_root@,
            ) {
                &&& res matches Ok(response)
                &&& response.thread.deep_view() == thread_view::read_view_of(
                    active_turn.deep_view(),
                    thread_id@,
                    live.snapshot,
                    match stored {
                        Some((stored, _)) => stored.response_items.deep_view(),
                        None => Seq::empty(),
                    },
                    live.overlay,
                    live.events@,
                )
            } else {
                res matches Err(error) && runtime_loader::is_mismatch(
                    error,
                    thread_id@,
                    workspace_root@,
                    live.workspace_root@,
                )
            },
            (None, Some((stored, overlay))) => {
                &&& res matches Ok(response)
                &&& response.thread.deep_view() == thread_view::read_view_of(
                    active_turn.deep_view(),
                    thread_id@,
                    stored.snapshot,
                    stored.response_items.deep_view(),
                    overlay,
                    stored.events@,
                )
            },
            (None, None) => res == Err::<ThreadReadResponse, AppServerError>(
                AppServerError::ThreadNotFound(thread_id),
            ),
        },
        live is None && stored is None ==> (res matches Err(error) && error is ThreadNotFound),
        res matches Ok(response) ==> response.thread.id@ == thread_id@,
        live is None && stored is Some ==> res is Ok,
        live is Some && !requested_workspace_root ==> res is Ok,
{
    match live {
        Some(live) => {
            let LiveThread { workspace_root: live_root, snapshot, overlay, events } = live;
            match runtime_loader::resolve_loaded_runtime(
                &thread_id,
                requested_workspace_root,
                workspace_root,
                Some(live_root),
            ) {
                Ok(_) => {},
                Err(error) => return Err(error),
            }
            let response_items = match stored {
                Some((stored, _)) => stored.response_items,
                None => {
                    let items: Vec<ResponseItem> = Vec::new();
                    assert(items.deep_view() =~= Seq::empty());
                    items
                },
            };
            Ok(
                thread_view::thread_read_from_state_view(
                    active_turn,
                    thread_id,
                    snapshot,
                    response_items,
                    overlay,
                    events,
                ),
            )
        },
        None => match stored {
            Some((stored, overlay)) => Ok(
                thread_view::thread_read_from_state_view(
                    active_turn,
                    thread_id,
                    stored.snapshot,
                    stored.response_items,
                    overlay,
                    stored.events,
                ),
            ),
            None => Err(AppServerError::ThreadNotFound(thread_id)),
        },
    }
}

/// The settings of a request to take a thread up again that are passed over: a thread keeps its
/// working directory.
pub fn ignored_resume_overrides(params: &ThreadResumeParams) -> (res: Vec<IgnoredOverrideField>)
    ensures
        res@ == if params.cwd is Some {
            seq![IgnoredOverrideField::Cwd]
        } else {
            Seq::<IgnoredOverrideField>::empty()
        },
        res@.len() == 1 <==> params.cwd is Some,
        forall|i: int| 0 <= i < res@.len() ==> (#[trigger] res@[i]) is Cwd,
{
    let mut ignored: Vec<IgnoredOverrideField> = Vec::new();
    if params.cwd.is_some() {
        ignored.push(IgnoredOverrideField::Cwd);
    }
    ignored
}

/// How a thread is taken up again.
pub enum ResumeStep<C> {
    /// It is loaded in this workspace: it is read there.
    Read { workspace_root: String },
    /// It is started from storage, and read.
    Start(StartThreadOptions<C>),
}

/// How a thread is taken up again. `config` holds the settings of the request.
pub fn thread_resume<C>(
    params: &ThreadResumeParams,
    config: AgentConfig,
    live_workspace_root: Option<String>,
) -> (res: Result<ResumeStep<C>, AppServerError>)
    ensures
        match live_workspace_root {
            Some(live) => if runtime_loader::may_reach(
                params.workspace_root is Some,
                config.workspace_root@,
                live@,
            ) {
                res == Ok::<ResumeStep<C>, AppServerError>(
                    ResumeStep::Read { workspace_root: live },
                )
            } else {
                res matches Err(error) && runtime_loader::is_mismatch(
                    error,
                    params.thread_id@,
                    config.workspace_root@,
                    live@,
                )
            },
            None => {
                &&& res matches Ok(ResumeStep::Start(options))
                &&& options.config == config
                &&& options.initial_history matches InitialHistory::Resume { thread_id }
                &&& thread_id@ == params.thread_id@
                &&& options.thread_source == ThreadSource::User
                &&& options.lineage is None
                &&& options.subagent_control is None
            },
        },
        res is Err ==> live_workspace_root is Some && params.workspace_root is Some,
        res matches Ok(step) ==> (step is Read <==> live_workspace_root is Some),
{
    match runtime_loader::resolve_loaded_runtime(
        &params.thread_id,
        params.workspace_root.is_some(),
        config.workspace_root.as_str(),
        live_workspace_root,
    ) {
        Ok(Some(workspace_root)) => Ok(ResumeStep::Read { workspace_root }),
        Ok(None) => Ok(
            ResumeStep::Start(
                StartThreadOptions {
                    config,
                    initial_history: InitialHistory::Resume {
                        thread_id: params.thread_id.duplicate(),
                    },
                    thread_source: ThreadSource::User,
                    lineage: None,
                    subagent_control: None,
                },
            ),
        ),
        Err(error) => Err(error),
    }
}

/// The answer to a thread that was taken up again.
pub fn thread_resume_response(params: &ThreadResumeParams, thread: ThreadReadResponse) -> (res:
    ThreadResumeResponse)
    ensures
        res.thread == thread.thread,
        res.ignored_overrides@ == if params.cwd is Some {
            seq![IgnoredOverrideField::Cwd]
        } else {
            Seq::<IgnoredOverrideField>::empty()
        },
{
    ThreadResumeResponse {
        thread: thread.thread,
        ignored_overrides: ignored_resume_overrides(params),
    }
}

/// Whether `res` tells whether a thread has to be loaded for a request: not where it is loaded in
/// the workspace of the request, and only where it is stored.
pub open spec fn is_load(
    res: Result<bool, AppServerError>,
    thread_id: ThreadId,
    requested_workspace_root: bool,
    workspace_root: Seq<char>,
    live_workspace_root: Option<String>,
    exists_in_storage: bool,
) -> bool {
    match live_workspace_root {
        Some(live) => if runtime_loader::may_reach(
            requested_workspace_root,
            workspace_root,
            live@,
        ) {
            res == Ok::<bool, AppServerError>(false)
        } else {
            res matches Err(error) && runtime_loader::is_mismatch(
                error,
                thread_id@,
                workspace_root,
                live@,
            )
        },
        None => if exists_in_storage {
            res == Ok::<bool, AppServerError>(true)
        } else {
            res == Err::<bool, AppServerError>(AppServerError::ThreadNotFound(thread_id))
        },
    }
}

/// Whether a thread has to be loaded for a request.
fn thread_to_load(
    thread_id: ThreadId,
    requested_workspace_root: bool,
    workspace_root: &str,
    live_workspace_root: Option<String>,
    exists_in_storage: bool,
) -> (res: Result<bool, AppServerError>)
    ensures
        is_load(
            res,
            thread_id,
            requested_workspace_root,
            workspace_root@,
            live_workspace_root,
            exists_in_storage,
        ),
{
    match runtime_loader::resolve_loaded_runtime(
        &thread_id,
        requested_workspace_root,
        workspace_root,
        live_workspace_root,
    ) {
        Ok(Some(_)) => Ok(false),
        Ok(None) => if exists_in_storage {
            Ok(true)
        } else {
            Err(AppServerError::ThreadNotFound(thread_id))
        },
        Err(error) => Err(error),
    }
}

/// Whether a thread has to be loaded before it is compacted.
pub fn thread_compact(
    params: ThreadCompactParams,
    workspace_root: &str,
    live_workspace_root: Option<String>,
    exists_in_storage: bool,
) -> (res: Result<bool, AppServerError>)
    ensures
        is_load(
            res,
            params.thread_id,
            params.workspace_root is Some,
            workspace_root@,
            live_workspace_root,
            exists_in_storage,
        ),
{
    thread_to_load(
        params.thread_id,
        params.workspace_root.is_some(),
        workspace_root,
        live_workspace_root,
        exists_in_storage,
    )
}

/// Whether a thread has to be loaded before its events are followed.
pub fn events_subscribe(
    params: EventsSubscribeParams,
    workspace_root: &str,
    live_workspace_root: Option<String>,
    exists_in_storage: bool,
) -> (res: Result<bool, AppServerError>)
    ensures
        is_load(
            res,
            params.thread_id,
            params.workspace_root is Some,
            workspace_root@,
            live_workspace_root,
            exists_in_storage,
        ),
{
    thread_to_load(
        params.thread_id,
        params.workspace_root.is_some(),
        workspace_root,
        live_workspace_root,
        exists_in_storage,
    )
}

/// The answer to a thread that was compacted.
pub fn thread_compact_response(
    thread_id: ThreadId,
    latest_compaction: Option<CompactionSummary>,
) -> (res: ThreadCompactResponse)
    ensures
        res == (ThreadCompactResponse { thread_id, latest_compaction }),
{
    ThreadCompactResponse { thread_id, latest_compaction }
}

/// A forked thread and where it left the other.
#[derive(Debug, Clone, PartialEq, Eq)]
pub struct ThreadForkEdge {
    pub parent_thread_id: ThreadId,
    pub child_thread_id: ThreadId,
    pub fork_point_turn_id: TurnId,
    pub created_at_ms: i64,
}

/// The workspace that a thread is forked in: that of the loaded thread, or else that of the
/// request. A thread cannot be forked while it runs a turn.
pub fn fork_workspace(
    params: &ThreadForkParams,
    workspace_root: String,
    live_workspace_root: Option<String>,
    has_active_turn: bool,
) -> (res: Result<String, AppServerError>)
    ensures
        ({
            let reached = match live_workspace_root {
                Some(live) => runtime_loader::may_reach(
                    params.workspace_root is Some,
                    workspace_root@,
                    live@,
                ),
                None => true,
            };
            match res {
                Ok(root) => {
                    &&& reached
                    &&& !has_active_turn
                    &&& root == match live_workspace_root {
                        Some(live) => live,
                        None => workspace_root,
                    }
                },
                Err(error) => if reached {
                    has_active_turn && error.is_invalid(
                        "cannot fork while a turn is in progress"@,
                    )
                } else {
                    runtime_loader::is_mismatch(
                        error,
                        params.thread_id@,
                        workspace_root@,
                        live_workspace_root->0@,
                    )
                },
            }
        }),
        res is Ok ==> !has_active_turn,
        has_active_turn ==> res is Err,
        live_workspace_root is None ==> (res is Ok <==> !has_active_turn),
        res matches Ok(root) ==> (live_workspace_root matches Some(live) ==> root == live),
{
    let live = match runtime_loader::resolve_loaded_runtime(
        &params.thread_id,
        params.workspace_root.is_some(),
        workspace_root.as_str(),
        live_workspace_root,
    ) {
        Ok(live) => live,
        Err(error) => return Err(error),
    };
    if has_active_turn {
        return Err(AppServerError::invalid("cannot fork while a turn is in progress"));
    }
    Ok(
        match live {
            Some(live) => live,
            None => workspace_root,
        },
    )
}

/// What a fork stores and answers.
pub struct ForkPlan {
    pub snapshot: ThreadSnapshot,
    pub edge: ThreadForkEdge,
    pub response: ThreadForkResponse,
}

/// What a fork stores and answers: a thread of its own in the workspace and the working directory
/// of its parent, under the same permissions, and the edge between the two. `parent` is what is
/// stored of the parent, if anything is.
pub fn thread_fork(
    params: ThreadForkParams,
    parent: Option<&ThreadSnapshot>,
    new_thread_id: ThreadId,
    created_at_ms: i64,
) -> (res: Result<ForkPlan, AppServerError>)
    ensures
        match parent {
            Some(parent) => {
                &&& res matches Ok(plan)
                &&& plan.snapshot.deep_view() == state::new_thread(
                    new_thread_id@,
                    parent.workspace_root@,
                    parent.cwd@,
                    parent.permission_profile,
                    ThreadSource::Fork,
                    None,
                )
                &&& plan.edge.parent_thread_id@ == params.thread_id@
                &&& plan.edge.child_thread_id@ == new_thread_id@
                &&& plan.edge.fork_point_turn_id@ == params.at_turn_id@
                &&& plan.edge.created_at_ms == created_at_ms
                &&& plan.response == (ThreadForkResponse {
                    new_thread_id,
                    parent_thread_id: params.thread_id,
                    fork_point_turn_id: params.at_turn_id,
                })
            },
            None => res == Err::<ForkPlan, AppServerError>(
                AppServerError::ThreadNotFound(params.thread_id),
            ),
        },
        res is Ok <==> parent is Some,
        res matches Ok(plan) ==> {
            &&& plan.snapshot.thread_source is Fork
            &&& plan.snapshot.lineage is None
            &&& plan.response.parent_thread_id == params.thread_id
            &&& plan.response.new_thread_id == new_thread_id
        },
{
    let parent = match parent {
        Some(parent) => parent,
        None => return Err(AppServerError::ThreadNotFound(params.thread_id)),
    };
    let snapshot = ThreadSnapshot::new_thread_with_options(
        new_thread_id.duplicate(),
        parent.workspace_root.clone(),
        parent.cwd.clone(),
        parent.permission_profile,
        ThreadSource::Fork,
        None,
    );
    let edge = ThreadForkEdge {
        parent_thread_id: params.thread_id.duplicate(),
        child_thread_id: new_thread_id.duplicate(),
        fork_point_turn_id: params.at_turn_id.duplicate(),
        created_at_ms,
    };
    Ok(
        ForkPlan {
            snapshot,
            edge,
            response: ThreadForkResponse {
                new_thread_id,
                parent_thread_id: params.thread_id,
                fork_point_turn_id: params.at_turn_id,
            },
        },
    )
}

/// What is stored of a forked thread: its heading, then the history that it shares.
pub fn fork_items<T>(heading: T, history: Vec<T>) -> (res: Vec<T>)
    ensures
        res@ == seq![heading] + history@,
{
    let mut history = history;
    let mut items: Vec<T> = Vec::new();
    items.push(heading);
    items.append(&mut history);
    items
}

/// What a fork writes, in this order.
#[derive(Debug, Clone, Copy, PartialEq, Eq, Structural)]
pub enum ForkWrite {
    /// The items of the new thread.
    Items,
    /// The edge between the new thread and its parent.
    Edge,
}

/// What a fork does after it has written something, or failed to.
pub enum ForkStep<E> {
    /// It stores the edge of its plan.
    StoreEdge(ForkPlan),
    /// It is done, and answers.
    Answer(ThreadForkResponse),
    /// It removes the directory of the new thread, and hands the error on, whether or not that
    /// could be removed.
    RollBack { child: ThreadSnapshot, error: E },
}

/// What a fork does after it has written something, or failed to.
pub open spec fn fork_step_of<E>(
    plan: ForkPlan,
    write: ForkWrite,
    outcome: Result<(), E>,
) -> ForkStep<E> {
    match (outcome, write) {
        (Err(error), _) => ForkStep::RollBack { child: plan.snapshot, error },
        (Ok(_), ForkWrite::Items) => ForkStep::StoreEdge(plan),
        (Ok(_), ForkWrite::Edge) => ForkStep::Answer(plan.response),
    }
}

/// Computes `fork_step_of`.
pub fn fork_written<E>(plan: ForkPlan, write: ForkWrite, outcome: Result<(), E>) -> (res: ForkStep<
    E,
>)
    ensures
        res == fork_step_of(plan, write, outcome),
{
    match outcome {
        Err(error) => ForkStep::RollBack { child: plan.snapshot, error },
        Ok(_) => match write {
            ForkWrite::Items => ForkStep::StoreEdge(plan),
            ForkWrite::Edge => ForkStep::Answer(plan.response),
        },
    }
}

/// How a fork ends. `items` and `edge` are what comes of writing each; the edge is written only
/// where the items were.
pub open spec fn fork_end_of<E>(
    plan: ForkPlan,
    items: Result<(), E>,
    edge: Result<(), E>,
) -> ForkStep<E> {
    match fork_step_of(plan, ForkWrite::Items, items) {
        ForkStep::StoreEdge(plan) => fork_step_of(plan, ForkWrite::Edge, edge),
        step => step,
    }
}

/// A fork is whole or gone. It answers if both its items and its edge were written. Otherwise the
/// new thread is removed, and the first error is handed on.
pub proof fn forks_are_whole_or_gone<E>(
    plan: ForkPlan,
    items: Result<(), E>,
    edge: Result<(), E>,
)
    ensures
        fork_end_of(plan, items, edge) == match (items, edge) {
            (Ok(_), Ok(_)) => ForkStep::<E>::Answer(plan.response),
            (Err(error), _) => ForkStep::RollBack { child: plan.snapshot, error },
            (Ok(_), Err(error)) => ForkStep::RollBack { child: plan.snapshot, error },
        },
{
}

/// A point in time as it is stored, from the milliseconds since 1970.
pub fn current_unix_ms(millis: u128) -> (res: Result<i64, &'static str>)
    ensures
        match res {
            Ok(ms) => ms == millis,
            Err(reason) => millis > i64::MAX && reason@
                == "current unix timestamp exceeds i64 milliseconds"@,
        },
        res is Ok <==> millis <= i64::MAX,
{
    if millis <= i64::MAX as u128 {
        Ok(millis as i64)
    } else {
        Err("current unix timestamp exceeds i64 milliseconds")
    }
}

/// A fork leaves nothing of its parent in the new thread but its place: no conversation, no
/// counted tokens and no lineage.
pub proof fn forks_start_afresh(
    new_thread_id: Seq<char>,
    workspace_root: Seq<char>,
    cwd: Seq<char>,
    permission_profile: PermissionProfile,
)
    ensures
        ({
            let child = state::new_thread(
                new_thread_id,
                workspace_root,
                cwd,
                permission_profile,
                ThreadSource::Fork,
                None,
            );
            &&& child.conversation.len() == 0
            &&& child.token_info is None
            &&& child.lineage is None
            &&& child.thread_id == new_thread_id
        }),
{
}

} // verus!
