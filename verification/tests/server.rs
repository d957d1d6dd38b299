//! Threads, turns, approvals and agents, as the server handles them.
use exagent::api::{
    bind_address, index_thread_start, project_name, replay_before_subscription, state_dir,
    status_for_error, unix_millis, ApiFailure,
};
use exagent::approvals::{
    approvals_list, checkpoint_restore, checkpoint_restore_response, open_question_resolve,
    open_question_resolve_response, open_question_resolved_event, thread_rollout_path,
    IndexedThread, OpenQuestion, OpenQuestionResolveParams, OpenQuestionResolveStatus,
    PendingApprovalSummary, PendingCommand,
};
use exagent::boundary::{
    answers, initialize, run_thread, run_turn, submit_boundary_op, BoundaryStep, RunThread,
};
use exagent::config::{
    AgentConfig, ModelCapabilities, PermissionProfile, PolicyMode, ProviderProtocol,
    ResolvedCredential, ResolvedModelConfig, ThinkingMode,
};
use exagent::error::AppServerError;
use exagent::events::{RuntimeEvent, RuntimeEventKind};
use exagent::ids::{ApprovalId, EventId, ExecSessionId, ThreadId, TurnId};
use exagent::override_policy::{
    canonicalize_from_root, cwd_candidate, workspace_candidate, OverridePolicy, RuntimeOverrides,
};
use exagent::paths::{absolute, join, parts, same_path, within};
use exagent::protocol::{
    is_false, ApprovalDecisionParams, ApprovalDecisionStatus, BoundaryCapability, BoundaryOp,
    BoundaryOpResponse, CheckpointRestoreStatus, EventsReplayParams, EventsReplayResponse,
    EventsSubscribeParams, IgnoredOverrideField, InitializeParams, PendingApprovalKind,
    RuntimeEventKindFilter, ThreadCompactParams, ThreadForkParams, ThreadResumeParams,
    ThreadStartParams, ThreadStatus, TurnContextOverrides, TurnInterruptParams, TurnMode, TurnStatus,
    BOUNDARY_PROTOCOL_VERSION,
};
use exagent::replay::{events_replay, redact_boundary_op_response_for_public_boundary};
use exagent::runtime_loader::{
    active_turn_in_workspace, active_turn_state, ensure_runtime_loaded,
    ensure_runtime_loaded_with_control, loaded_thread_ids_in_workspace, resolve_loaded_runtime,
    next_load_action, validate_loaded_runtime, LoadAction, LoadEvent, LoadedThread,
    RuntimeLoadStep, RuntimeLoader, WorkspaceRestoreState,
};
use exagent::settings::{agent_config, Environment};
use exagent::state::{
    RuntimeOverlay, SpawnEdgeStatus, StoredThreadState, ThreadLineage, ThreadSnapshot,
    ThreadSource, ThreadSpawnEdge, TurnContextItem,
};
use exagent::subagents::{
    account_child_token_rollup, child_token_total_before_close, close_agents_response,
    config_for_stored_thread, control_root, counts_toward_goal, deliver_inter_agent_message,
    followup_step, recipient_to_load, rehydrated_subagent_control, rollup_accounted,
    spawn_agent_response, spawn_clean_child, ClosedAgent, FollowupOutcome, FollowupStep,
    GoalAccountingMode, InterAgentCommunication, RollupEnd,
};
use exagent::thread_runtime::{ThreadOpResult, ThreadRuntimeError};
use exagent::threads::{
    current_unix_ms, events_subscribe, fork_items, fork_workspace, fork_written, read_thread_state,
    read_thread_state_from_storage, start_thread_with_options, thread_compact, thread_fork,
    thread_compact_response, thread_read_resolved, thread_resume, thread_resume_response,
    thread_start, thread_start_response,
    ForkStep, ForkWrite, InitialHistory, LiveThread, ResumeStep, StartThreadOptions,
    StartThreadStep,
};
use exagent::turns::{
    agent_run_response, approval_decision, approval_decision_response, final_turn_of,
    map_thread_runtime_error, resolve_turn_context, run_turn_through_runtime,
    start_turn_in_background, turn_interrupt, turn_interrupt_response, turn_start_response,
    turn_to_start, InterruptStep, LoadedTurn,
};
use exagent::types::{
    ApprovalStatus, AssistantTurn, CommandRequest, ModelRef, TokenUsage, TokenUsageInfo, UserInput,
};

fn model(id: &str) -> ResolvedModelConfig {
    ResolvedModelConfig {
        identity: ModelRef { provider_id: "openai".to_string(), model_id: id.to_string() },
        protocol: ProviderProtocol::OpenAiChatCompletions,
        credential: ResolvedCredential::Absent,
        capabilities: ModelCapabilities { context_window: None, supports_tools: true },
    }
}

fn config() -> AgentConfig {
    agent_config(
        &Environment::new(),
        Some("/work".to_string()),
        model("gpt-5.5"),
        PolicyMode::Off,
    )
}

fn snapshot(id: &str) -> ThreadSnapshot {
    ThreadSnapshot::new_thread_with_options(
        ThreadId::new(id),
        "/work".to_string(),
        "/work/src".to_string(),
        PermissionProfile::FullAccess,
        ThreadSource::User,
        None,
    )
}

fn lineage(parent: &str, root: &str, path: &str) -> ThreadLineage {
    ThreadLineage {
        parent_thread_id: ThreadId::new(parent),
        root_thread_id: ThreadId::new(root),
        depth: 1,
        agent_path: path.to_string(),
        agent_type: None,
        agent_role: None,
        agent_nickname: None,
        forked_from_id: None,
    }
}

fn overlay() -> RuntimeOverlay {
    RuntimeOverlay {
        pending_approvals: vec![],
        pending_user_inputs: vec![],
        open_exec_sessions: vec![],
    }
}

fn stored(id: &str, events: Vec<RuntimeEvent>) -> StoredThreadState {
    StoredThreadState { snapshot: snapshot(id), response_items: vec![], events }
}

fn event(id: &str, kind: RuntimeEventKind) -> RuntimeEvent {
    RuntimeEvent {
        event_id: EventId::new(id),
        thread_id: ThreadId::new("t"),
        turn_id: Some(TurnId::new("turn")),
        kind,
    }
}

fn approval(id: &str, tool: &str, command: Option<&str>, checkpoint: Option<&str>) -> RuntimeEvent {
    event(
        id,
        RuntimeEventKind::ApprovalRequested {
            approval_id: ApprovalId::new("approval"),
            tool_name: tool.to_string(),
            reason: "why".to_string(),
            command: command.map(|command| CommandRequest {
                command: command.to_string(),
                cwd: "/work".to_string(),
                timeout_secs: 30,
                persistent: true,
            }),
            checkpoint_id: checkpoint.map(str::to_string),
            permission_profile: PermissionProfile::FullAccess,
            filesystem_sandbox: "none".to_string(),
            network_sandbox: "none".to_string(),
            env_isolation: "none".to_string(),
        },
    )
}

fn mismatch(requested: &str) -> String {
    format!(
        "invalid request: thread t belongs to workspace `/work`, but request targeted workspace `{requested}`"
    )
}

fn work() -> Option<String> {
    Some("/work".to_string())
}

#[test]
fn paths_are_read_part_by_part() {
    assert!(absolute("/a"));
    assert!(!absolute("a/b"));
    assert_eq!(parts("/a//b/./c/"), vec!["/", "a", "b", "c"]);
    assert_eq!(parts("./a/."), vec![".", "a"]);
    assert_eq!(parts("a/../b"), vec!["a", "..", "b"]);
    assert_eq!(parts(""), Vec::<String>::new());
    assert!(same_path("/a/b/", "/a/./b"));
    assert!(!same_path("/a/b", "a/b"));
    assert!(within("/a/b", "/a"));
    assert!(within("/a", "/a/"));
    assert!(!within("/ab", "/a"));
    assert_eq!(join("/a", "b"), "/a/b");
    assert_eq!(join("/a/", "b"), "/a/b");
    assert_eq!(join("/a", "/b"), "/b");
    assert_eq!(join("", "b"), "b");
}

#[test]
fn paths_agree_with_the_standard_library() {
    let samples = [
        "", "/", "a", "/a", "a/", "./a", "a/.", "a/./b", "/./a", "//a//b//", "..", "../a", ".",
        "/a/..", "a/../b",
    ];
    for sample in samples {
        let expected: Vec<String> = std::path::Path::new(sample)
            .components()
            .map(|part| part.as_os_str().to_str().unwrap().to_string())
            .collect();
        assert_eq!(parts(sample), expected, "{sample}");
        for other in samples {
            let (left, right) = (std::path::Path::new(sample), std::path::Path::new(other));
            assert_eq!(same_path(sample, other), left == right);
            assert_eq!(within(sample, other), left.starts_with(right));
            assert_eq!(join(sample, other), left.join(right).to_str().unwrap());
        }
    }
}

#[test]
fn requests_choose_their_settings() {
    let overrides = RuntimeOverrides {
        workspace_root: Some("project".to_string()),
        cwd: Some("src".to_string()),
        permission_profile: Some(PermissionProfile::FullAccess),
    };
    assert_eq!(workspace_candidate(&config(), &overrides.workspace_root, "/home"), "/home/project");
    assert_eq!(workspace_candidate(&config(), &None, "/home"), "/work");
    assert_eq!(cwd_candidate("/home/project", "src"), "/home/project/src");
    let applied = OverridePolicy::merge_thread_start(
        &config(),
        overrides.clone(),
        "/home/project".to_string(),
        Some("/home/project/src".to_string()),
    )
    .unwrap();
    assert_eq!(applied.workspace_root, "/home/project");
    assert_eq!(applied.cwd, "/home/project/src");
    assert_eq!(applied.model, config().model);

    let refused = OverridePolicy::apply(
        &config(),
        overrides,
        "/home/project".to_string(),
        Some("/home/other".to_string()),
    );
    assert_eq!(
        refused.unwrap_err().message(),
        "invalid request: cwd must stay within workspace_root"
    );
    let managed = RuntimeOverrides {
        permission_profile: Some(PermissionProfile::Managed),
        ..RuntimeOverrides::default()
    };
    let refused = OverridePolicy::apply(&config(), managed, "/w".to_string(), None);
    assert_eq!(
        refused.unwrap_err().message(),
        "invalid request: unsupported permission profile: managed"
    );
    for merged in [
        OverridePolicy::merge_thread_read(&config(), "/w".to_string()),
        OverridePolicy::merge_thread_resume(&config(), "/w".to_string()),
        OverridePolicy::merge_turn_start(&config(), "/w".to_string()),
        OverridePolicy::merge_events_replay(&config(), "/w".to_string()),
    ] {
        assert_eq!((merged.workspace_root.as_str(), merged.cwd.as_str()), ("/w", "/w"));
    }
    assert_eq!(canonicalize_from_root("/w", "/w/a".to_string()), Ok("/w/a".to_string()));
}

#[test]
fn turns_choose_their_settings() {
    let overrides = |cwd: Option<&str>, model: Option<ModelRef>| {
        Some(TurnContextOverrides {
            cwd: cwd.map(str::to_string),
            model,
            thinking_mode: Some(ThinkingMode::High),
            clear_thinking_mode: false,
        })
    };
    let snapshot = snapshot("t");
    let context = resolve_turn_context(
        &snapshot,
        overrides(Some("lib"), Some(model("other").identity)),
        TurnMode::Normal,
        Some("/work/lib".to_string()),
        Some(model("other")),
    )
    .unwrap()
    .unwrap();
    assert_eq!(context.cwd.as_deref(), Some("/work/lib"));
    assert_eq!(context.resolved_model, Some(model("other")));
    assert_eq!(context.thinking_mode, Some(ThinkingMode::High));
    let context =
        resolve_turn_context(&snapshot, overrides(None, None), TurnMode::Plan, None, None)
            .unwrap()
            .unwrap();
    assert_eq!(context.cwd.as_deref(), Some("/work/src"));
    assert_eq!(context.turn_mode, TurnMode::Plan);
    assert_eq!(resolve_turn_context(&snapshot, None, TurnMode::Normal, None, None), Ok(None));
    assert!(resolve_turn_context(&snapshot, None, TurnMode::Plan, None, None).unwrap().is_some());
    let outside = resolve_turn_context(
        &snapshot,
        overrides(Some("/etc"), None),
        TurnMode::Normal,
        Some("/etc".to_string()),
        None,
    );
    assert!(outside.is_err());
}

#[test]
fn requests_reach_threads_of_their_workspace_only() {
    let id = ThreadId::new("t");
    assert_eq!(resolve_loaded_runtime(&id, true, "/work", None), Ok(None));
    assert_eq!(resolve_loaded_runtime(&id, false, "/other", work()), Ok(work()));
    assert_eq!(resolve_loaded_runtime(&id, true, "/work/", work()), Ok(work()));
    assert_eq!(
        resolve_loaded_runtime(&id, true, "/other", work()).unwrap_err().message(),
        mismatch("/other")
    );
    assert_eq!(validate_loaded_runtime(&id, "/work", true, "/work/."), Ok(()));
    assert!(validate_loaded_runtime(&id, "/work", true, "/").is_err());
    assert_eq!(ensure_runtime_loaded(&id, true, "/work", None), Ok(RuntimeLoadStep::SpawnCold));
    let load = |live, control| ensure_runtime_loaded_with_control(&id, true, "/work", live, control);
    assert_eq!(load(work(), true), Ok(RuntimeLoadStep::Reuse));
    assert_eq!(load(None, true), Ok(RuntimeLoadStep::SpawnWithControl));
    assert_eq!(load(None, false), Ok(RuntimeLoadStep::SpawnCold));
}

#[test]
fn threads_are_loaded_with_an_agent_control() {
    let id = ThreadId::new("t");
    let begun = |given| next_load_action::<&str, &str>(LoadEvent::Began { given });
    assert!(matches!(begun(Some("given")), Ok(LoadAction::Spawn { control: "given" })));
    assert!(matches!(begun(None), Ok(LoadAction::ReadControl)));
    let read = |read| next_load_action::<&str, &str>(LoadEvent::ControlRead(read));
    assert!(matches!(read(Ok("cold")), Ok(LoadAction::Spawn { control: "cold" })));
    assert!(matches!(read(Err("gone")), Err("gone")));

    let mut loader: RuntimeLoader<u32, &str> = RuntimeLoader::new();
    assert_eq!(loader.runtime_spawned(&id, "cold", Err("broken")), Err("broken"));
    assert_eq!(loader.runtime_for(&id), None);
    assert_eq!(loader.runtime_spawned(&id, "cold", Ok::<u32, &str>(7)), Ok(()));
    assert_eq!(loader.runtime_for(&id), Some(&7));
    assert_eq!(loader.loaded_threads.get(&id.0).unwrap().subagent_control, Some("cold"));
    assert_eq!(loader.runtime_for(&ThreadId::new("other")), None);
    assert_eq!(loader.shutdown_and_remove(&id), Some(7));
    assert_eq!(loader.shutdown_and_remove(&id), None);
}

#[test]
fn restores_and_operations_exclude_each_other() {
    let mut state = WorkspaceRestoreState::new();
    state.begin_workspace_restore("/work").unwrap();
    assert!(state.begin_workspace_restore("/work/").is_err());
    assert!(state.begin_workspace_runtime_op("/work").is_err());
    state.begin_workspace_runtime_op("/other").unwrap();
    assert!(state.begin_workspace_restore("/other").is_err());
    state.begin_workspace_runtime_op("/other").unwrap();
    state.end_workspace_runtime_op("/other");
    assert!(state.begin_workspace_restore("/other").is_err());
    state.end_workspace_runtime_op("/other");
    state.begin_workspace_restore("/other").unwrap();
    state.end_workspace_restore("/work");
    state.begin_workspace_runtime_op("/work").unwrap();
}

#[test]
fn restores_wait_for_running_turns() {
    let loaded = vec![
        LoadedThread {
            thread_id: ThreadId::new("a"),
            workspace_root: "/other".to_string(),
            active_turn_id: Some(TurnId::new("x")),
        },
        LoadedThread {
            thread_id: ThreadId::new("b"),
            workspace_root: "/work".to_string(),
            active_turn_id: Some(TurnId::new("y")),
        },
    ];
    assert_eq!(
        active_turn_in_workspace(&loaded, "/work"),
        Some((ThreadId::new("b"), TurnId::new("y")))
    );
    assert_eq!(loaded_thread_ids_in_workspace(&loaded, "/other"), vec![ThreadId::new("a")]);
    let mut state = WorkspaceRestoreState::new();
    state.begin_workspace_restore("/work").unwrap();
    let refused = state.confirm_workspace_restore("/work", &loaded).unwrap_err();
    assert_eq!(
        refused.message(),
        "invalid request: cannot restore checkpoint in workspace `/work` while turn is running in thread b (y)"
    );
    state.begin_workspace_restore("/free").unwrap();
    state.confirm_workspace_restore("/free", &loaded).unwrap();
    let active = active_turn_state(Some(TurnId::new("y"))).unwrap();
    assert_eq!(active.status, TurnStatus::InProgress);
    assert_eq!(active_turn_state(None), None);
}

#[test]
fn threads_are_started_and_taken_up_again() {
    let options = |initial_history| StartThreadOptions::<u8> {
        config: config(),
        initial_history,
        thread_source: ThreadSource::User,
        lineage: None,
        subagent_control: Some(7),
    };
    let created =
        start_thread_with_options(options(InitialHistory::New), ThreadId::new("new"), false);
    let Ok(StartThreadStep::Create { thread_id, snapshot, subagent_control, .. }) = created else {
        panic!("not created");
    };
    assert_eq!(thread_id.as_str(), "new");
    assert_eq!(snapshot.cwd, "/work");
    assert!(snapshot.conversation.is_empty());
    assert_eq!(subagent_control, Some(7));
    let resume = || InitialHistory::Resume { thread_id: ThreadId::new("old") };
    assert!(matches!(
        start_thread_with_options(options(resume()), ThreadId::new("new"), true),
        Ok(StartThreadStep::Load { thread_id, .. }) if thread_id.as_str() == "old"
    ));
    assert!(matches!(
        start_thread_with_options(options(resume()), ThreadId::new("new"), false),
        Err(AppServerError::ThreadNotFound(id)) if id.as_str() == "old"
    ));
    let response = thread_start_response(ThreadId::new("new"));
    assert_eq!(response.thread.status, ThreadStatus::Idle);
}

#[test]
fn requests_start_threads_of_the_user() {
    let params = |profile| ThreadStartParams {
        workspace_root: None,
        cwd: Some("src".to_string()),
        permission_profile: profile,
    };
    let start = |profile, cwd: &str| {
        thread_start::<u8>(&config(), params(profile), "/work".to_string(), Some(cwd.to_string()))
    };
    let Ok(options) = start(None, "/work/src") else {
        panic!("not started");
    };
    assert_eq!(options.config.cwd, "/work/src");
    assert_eq!(options.initial_history, InitialHistory::New);
    assert_eq!(options.thread_source, ThreadSource::User);
    assert!(options.lineage.is_none() && options.subagent_control.is_none());
    assert!(start(Some(PermissionProfile::External), "/work/src").is_err());
    assert!(start(None, "/etc").is_err());
}

#[test]
fn loaded_threads_are_resumed_where_they_are() {
    let params = |root: Option<&str>, cwd: Option<&str>| ThreadResumeParams {
        thread_id: ThreadId::new("t"),
        workspace_root: root.map(str::to_string),
        cwd: cwd.map(str::to_string),
    };
    let mut elsewhere = config();
    elsewhere.workspace_root = "/other".to_string();
    assert!(matches!(
        thread_resume::<u8>(&params(None, None), elsewhere.clone(), work()),
        Ok(ResumeStep::Read { workspace_root }) if workspace_root == "/work"
    ));
    match thread_resume::<u8>(&params(Some("/other"), None), elsewhere, work()) {
        Err(error) => assert_eq!(error.message(), mismatch("/other")),
        Ok(_) => panic!("resumed in another workspace"),
    }
    assert!(matches!(
        thread_resume::<u8>(&params(None, None), config(), None),
        Ok(ResumeStep::Start(options)) if matches!(options.initial_history, InitialHistory::Resume { .. })
    ));
    let read = thread_read_resolved(
        ThreadId::new("t"),
        false,
        "/work",
        None,
        None,
        Some((stored("t", vec![]), overlay())),
    )
    .unwrap();
    let response = thread_resume_response(&params(None, Some("/x")), read);
    assert_eq!(response.ignored_overrides, vec![IgnoredOverrideField::Cwd]);
}

#[test]
fn threads_are_read_as_they_are_now() {
    let live = |root: &str| LiveThread {
        workspace_root: root.to_string(),
        snapshot: snapshot("t"),
        overlay: overlay(),
        events: vec![event("1", RuntimeEventKind::TurnStarted)],
    };
    let read = |live, stored| {
        thread_read_resolved(ThreadId::new("t"), true, "/work", None, live, stored)
    };
    let response = read(Some(live("/work")), None).unwrap();
    assert_eq!(response.thread.turns.len(), 1);
    let response = read(None, Some((stored("t", vec![]), overlay()))).unwrap();
    assert!(response.thread.turns.is_empty());
    assert_eq!(read(None, None), Err(AppServerError::ThreadNotFound(ThreadId::new("t"))));
    assert!(read(Some(live("/other")), None).is_err());

    assert_eq!(read_thread_state(Some(live("/work")), None).unwrap().events.len(), 1);
    assert_eq!(read_thread_state(None, None), None);
    assert_eq!(read_thread_state_from_storage(0, Err("bad"), vec![], vec![]), Ok(None));
    assert_eq!(read_thread_state_from_storage(1, Err("bad"), vec![], vec![]), Err("bad"));
    assert_eq!(
        read_thread_state_from_storage::<&str>(1, Ok(snapshot("t")), vec![], vec![]),
        Ok(Some(stored("t", vec![])))
    );
}

#[test]
fn threads_are_loaded_before_they_are_compacted_or_followed() {
    let compact = |live, exists| {
        let params = ThreadCompactParams { thread_id: ThreadId::new("t"), workspace_root: work() };
        thread_compact(params, "/work", live, exists)
    };
    assert_eq!(compact(work(), false), Ok(false));
    assert_eq!(compact(None, true), Ok(true));
    assert_eq!(thread_compact_response(ThreadId::new("t"), None).latest_compaction, None);
    assert_eq!(compact(None, false), Err(AppServerError::ThreadNotFound(ThreadId::new("t"))));
    let params = EventsSubscribeParams {
        thread_id: ThreadId::new("t"),
        workspace_root: Some("/other".to_string()),
        after_event_id: Some(EventId::new("3")),
    };
    let replay = replay_before_subscription(&params);
    assert_eq!(replay.after_event_id, Some(EventId::new("3")));
    assert!(!replay.include_snapshot && replay.limit.is_none());
    assert_eq!(
        events_subscribe(params, "/other", work(), true).unwrap_err().message(),
        mismatch("/other")
    );
}

#[test]
fn forks_stand_beside_their_parent() {
    let params = || ThreadForkParams {
        thread_id: ThreadId::new("t"),
        at_turn_id: TurnId::new("turn"),
        workspace_root: work(),
    };
    assert_eq!(fork_workspace(&params(), "/work".to_string(), None, false), Ok("/work".to_string()));
    assert_eq!(
        fork_workspace(&params(), "/work".to_string(), work(), true).unwrap_err().message(),
        "invalid request: cannot fork while a turn is in progress"
    );
    let mut parent = snapshot("t");
    parent.lineage = Some(lineage("p", "p", "root/a"));
    let plan = thread_fork(params(), Some(&parent), ThreadId::new("child"), 12).unwrap();
    assert_eq!(plan.snapshot.thread_source, ThreadSource::Fork);
    assert_eq!(plan.snapshot.cwd, "/work/src");
    assert_eq!(plan.snapshot.lineage, None);
    assert_eq!(plan.edge.created_at_ms, 12);
    assert_eq!(plan.response.fork_point_turn_id.as_str(), "turn");
    assert!(thread_fork(params(), None, ThreadId::new("child"), 12).is_err());
    assert_eq!(fork_items(0, vec![1, 2]), vec![0, 1, 2]);

    let plan = || thread_fork(params(), Some(&parent), ThreadId::new("child"), 12).unwrap();
    let wrote = |write, outcome: Result<(), &'static str>| fork_written(plan(), write, outcome);
    assert!(matches!(
        wrote(ForkWrite::Items, Ok(())),
        ForkStep::StoreEdge(plan) if plan.edge.child_thread_id.as_str() == "child"
    ));
    assert!(matches!(
        wrote(ForkWrite::Edge, Ok(())),
        ForkStep::Answer(response) if response == plan().response
    ));
    for write in [ForkWrite::Items, ForkWrite::Edge] {
        assert!(matches!(
            wrote(write, Err("disk full")),
            ForkStep::RollBack { child, error: "disk full" } if child.thread_id.as_str() == "child"
        ));
    }
    assert_eq!(current_unix_ms(i64::MAX as u128), Ok(i64::MAX));
    assert_eq!(
        current_unix_ms(i64::MAX as u128 + 1),
        Err("current unix timestamp exceeds i64 milliseconds")
    );
}

#[test]
fn turns_are_answered() {
    let turn = || AssistantTurn { text: Some("hi".to_string()), tool_calls: vec![], reasoning: vec![] };
    let response = agent_run_response(ThreadId::new("t"), turn());
    assert_eq!(response.text.as_deref(), Some("hi"));
    let response = turn_start_response(ThreadId::new("t"), TurnId::new("turn"));
    assert_eq!(response.turn.status, TurnStatus::InProgress);
    let ended = ThreadOpResult::UserInput { turn_id: TurnId::new("turn"), final_turn: turn() };
    assert_eq!(final_turn_of(ended), Ok(turn()));
    assert_eq!(
        final_turn_of(ThreadOpResult::Ack).unwrap_err().message(),
        "invalid request: turn_start returned non-user-input runtime result"
    );
    let ran = run_turn_through_runtime(
        ThreadId::new("t"),
        "/work".to_string(),
        Ok(ThreadOpResult::UserInput { turn_id: TurnId::new("turn"), final_turn: turn() }),
    );
    assert_eq!(ran, Ok((ThreadId::new("t"), "/work".to_string(), turn())));
    let busy = || ThreadRuntimeError::ThreadBusy(ThreadId::new("t"));
    assert_eq!(
        run_turn_through_runtime(ThreadId::new("t"), "/work".to_string(), Err(busy())),
        Err(AppServerError::ThreadBusy(ThreadId::new("t")))
    );
    let started = start_turn_in_background(ThreadId::new("t"), Ok(TurnId::new("turn"))).unwrap();
    assert_eq!(started.turn.id, TurnId::new("turn"));
    assert!(start_turn_in_background(ThreadId::new("t"), Err(busy())).is_err());
    let response = turn_interrupt_response(ThreadId::new("t"), TurnId::new("turn"));
    assert_eq!(response.interrupted_turn.unwrap().status, TurnStatus::Interrupted);
    assert_eq!(
        map_thread_runtime_error(ThreadRuntimeError::ThreadBusy(ThreadId::new("t"))).message(),
        "thread is busy: t"
    );
}

#[test]
fn turns_start_with_their_prompt_where_there_is_no_input() {
    let text = |text: &str| UserInput::Text { text: text.to_string() };
    let mut turn = run_turn(ThreadId::new("t"), "go".to_string(), None, None);
    assert_eq!(turn.effective_input(), vec![text("go")]);
    turn.input = vec![text("a"), text("b")];
    assert_eq!(turn.effective_input(), vec![text("a"), text("b")]);
    assert!(is_false(&false) && !is_false(&true));
}

#[test]
fn turns_make_their_thread_ready() {
    let turn = run_turn(ThreadId::new("t"), "go".to_string(), work(), None);
    let (settings, step) = turn_to_start(&config(), &turn, "/work".to_string(), work()).unwrap();
    assert_eq!((settings.cwd.as_str(), step), ("/work", RuntimeLoadStep::Reuse));
    let (_, step) = turn_to_start(&config(), &turn, "/work".to_string(), None).unwrap();
    assert_eq!(step, RuntimeLoadStep::SpawnCold);
    assert_eq!(
        turn_to_start(&config(), &turn, "/other".to_string(), work()).unwrap_err().message(),
        mismatch("/other")
    );
}

#[test]
fn loaded_turns_are_interrupted() {
    let interrupt = |loaded: Option<bool>, exists| {
        turn_interrupt(
            TurnInterruptParams {
                thread_id: ThreadId::new("t"),
                turn_id: None,
                workspace_root: None,
            },
            "/work",
            loaded.map(|active| LoadedTurn { workspace_root: "/work".to_string(), active }),
            exists,
        )
    };
    assert_eq!(interrupt(Some(true), true), Ok(InterruptStep::InterruptActiveTurn));
    assert_eq!(interrupt(Some(false), true), Ok(InterruptStep::InterruptWaitingApprovalTurn));
    assert_eq!(
        interrupt(None, true).unwrap_err().message(),
        "turn rejected for thread t: thread has no active turn"
    );
    assert_eq!(interrupt(None, false).unwrap_err().message(), "thread not found: t");
}

#[test]
fn decisions_put_their_command_back_in_place() {
    let params = |decision| ApprovalDecisionParams {
        thread_id: ThreadId::new("t"),
        turn_id: None,
        approval_id: ApprovalId::new("approval"),
        decision,
        note: None,
        workspace_root: work(),
    };
    let open = RuntimeOverlay {
        pending_approvals: vec![ApprovalId::new("approval")],
        ..overlay()
    };
    let events = vec![
        approval("1", "run_command", Some("ls"), None),
        approval("2", "exec_command", Some("make"), None),
        approval("3", "write_file", None, None),
    ];
    let state = Some((stored("t", events), open.clone()));
    let step =
        approval_decision(&params(ApprovalDecisionStatus::Approved), "/work", None, &state).unwrap();
    assert!(step.load_runtime);
    assert_eq!(step.status, ApprovalStatus::Approved);
    let pending = step.restore.unwrap();
    assert_eq!(pending.command, "make");
    assert_eq!(pending.tool_name, "exec_command");
    assert!(pending.persistent);

    let other = Some((stored("t", vec![approval("1", "other", Some("ls"), None)]), open));
    let step =
        approval_decision(&params(ApprovalDecisionStatus::Denied), "/work", work(), &other).unwrap();
    assert_eq!(step.restore, None);
    assert_eq!(step.status, ApprovalStatus::Denied);

    let closed = Some((stored("t", vec![]), overlay()));
    let decide = |state| approval_decision(&params(ApprovalDecisionStatus::Denied), "/work", None, state);
    match decide(&closed) {
        Err(error) => assert_eq!(
            error.message(),
            "turn rejected for thread t: thread has no pending approval"
        ),
        Ok(_) => panic!("decided on nothing"),
    }
    assert!(matches!(decide(&None), Err(AppServerError::ThreadNotFound(_))));
}

#[test]
fn decisions_are_answered() {
    let ended = |status| ThreadOpResult::ApprovalDecision {
        turn_id: TurnId::new("turn"),
        approval_id: ApprovalId::new("approval"),
        status,
    };
    let answer = |result| approval_decision_response(ThreadId::new("t"), result);
    assert_eq!(
        answer(ended(ApprovalStatus::Denied)).unwrap().status,
        ApprovalDecisionStatus::Denied
    );
    assert_eq!(
        answer(ended(ApprovalStatus::Pending)).unwrap_err().message(),
        "invalid request: approval decision returned pending status"
    );
    assert_eq!(
        answer(ThreadOpResult::Ack).unwrap_err().message(),
        "invalid request: approval_decision returned unexpected ack runtime result"
    );
}

fn question() -> OpenQuestion {
    OpenQuestion {
        question_id: "q".to_string(),
        thread_id: ThreadId::new("t"),
        goal_id: "goal".to_string(),
        question: "which?".to_string(),
        blocks_what: "all".to_string(),
        answer: None,
        created_at_ms: -5,
    }
}

#[test]
fn what_waits_for_the_user_is_listed() {
    let pending = |id: &str, live: Option<&str>| PendingCommand {
        summary: PendingApprovalSummary {
            thread_id: ThreadId::new(id),
            approval_id: ApprovalId::new("approval"),
            tool_name: "run_command".to_string(),
            command: "ls".to_string(),
            requested_at_ms: 9,
            checkpoint_id: Some("cp".to_string()),
        },
        live_workspace_root: live.map(str::to_string),
        goal_id: None,
    };
    let all = || {
        vec![pending("a", Some("/work")), pending("b", None), pending("c", Some("/other"))]
    };
    let listed = approvals_list(all(), vec![question()], &work()).approvals;
    assert_eq!(listed.len(), 2);
    assert_eq!(listed[0].thread_id.as_str(), "a");
    assert_eq!(listed[0].kind, PendingApprovalKind::Command);
    assert_eq!(listed[0].checkpoint_id.as_deref(), Some("cp"));
    assert_eq!(listed[1].kind, PendingApprovalKind::OpenQuestion);
    assert_eq!(listed[1].detail, "Blocks: all\n\n");
    assert_eq!(listed[1].requested_at_ms, 0);
    assert_eq!(approvals_list(all(), vec![], &None).approvals.len(), 2);
}

#[test]
fn questions_are_answered_in_their_thread() {
    let params = |thread: &str| OpenQuestionResolveParams {
        thread_id: ThreadId::new(thread),
        question_id: "q".to_string(),
        answer: Some("this".to_string()),
        workspace_root: None,
    };
    let message = |thread: &str, store, question: Option<OpenQuestion>| {
        open_question_resolve(&params(thread), store, &question).unwrap_err().message
    };
    assert_eq!(open_question_resolve(&params("t"), true, &Some(question())), Ok(()));
    assert_eq!(
        message("t", false, Some(question())),
        "open question resolve requires a goal store"
    );
    assert_eq!(message("t", true, None), "unknown open question: q");
    assert_eq!(
        message("u", true, Some(question())),
        "open question q belongs to thread t, not u"
    );
    let record = open_question_resolved_event(EventId::new("e"), &question());
    assert_eq!((record.question_id.as_str(), record.goal_id.as_str()), ("q", "goal"));
    let response = open_question_resolve_response(question());
    assert_eq!(response.status, OpenQuestionResolveStatus::Resolved);
}

#[test]
fn histories_are_found_in_the_index() {
    let row = || {
        Some(IndexedThread {
            workspace_path: "/work".to_string(),
            rollout_path: "/state/t.jsonl".to_string(),
        })
    };
    let id = ThreadId::new("t");
    assert_eq!(thread_rollout_path(&id, row(), &work()), Ok("/state/t.jsonl".to_string()));
    assert_eq!(
        thread_rollout_path(&id, row(), &Some("/other".to_string())).unwrap_err().message,
        "thread t belongs to workspace /work, not /other"
    );
    assert_eq!(
        thread_rollout_path(&id, None, &None).unwrap_err().message,
        "thread not indexed: t"
    );
}

#[test]
fn checkpoints_are_bound_to_approvals() {
    let threads = vec![vec![], vec![approval("1", "run_command", None, Some("cp"))]];
    assert_eq!(checkpoint_restore("/work", "cp", &threads), Ok(()));
    assert_eq!(
        checkpoint_restore("/work", "other", &threads).unwrap_err().message(),
        "invalid request: checkpoint `other` is not bound to an approval in workspace `/work`"
    );
    let restored = checkpoint_restore_response("/work".to_string(), "cp".to_string(), None).unwrap();
    assert_eq!(restored.status, CheckpointRestoreStatus::Restored);
    assert_eq!(restored.message, "workspace restored from checkpoint");
    let failed = checkpoint_restore_response(
        "/work".to_string(),
        "cp".to_string(),
        Some("no disk".to_string()),
    );
    assert_eq!(
        failed.unwrap_err().message(),
        "invalid request: failed to restore checkpoint `cp` in workspace `/work`: no disk"
    );
}

fn used(total: i64) -> Option<TokenUsageInfo> {
    let usage = TokenUsage { input_tokens: 0, output_tokens: 0, total_tokens: total };
    Some(TokenUsageInfo { total_token_usage: usage.clone(), last_token_usage: usage })
}

fn edge() -> ThreadSpawnEdge {
    ThreadSpawnEdge {
        parent_thread_id: ThreadId::new("p"),
        child_thread_id: ThreadId::new("c"),
        root_thread_id: ThreadId::new("p"),
        agent_path: "root/c".to_string(),
        status: SpawnEdgeStatus::Open,
    }
}

#[test]
fn tokens_of_closed_agents_count_once() {
    let mut live = snapshot("c");
    live.token_info = used(5);
    let mut on_disk = stored("c", vec![]);
    on_disk.snapshot.token_info = used(3);
    assert_eq!(child_token_total_before_close(Some(&live), Some(&on_disk)), 5);
    assert_eq!(child_token_total_before_close(None, Some(&on_disk)), 3);
    assert_eq!(child_token_total_before_close(None, None), 0);
    assert!(counts_toward_goal(true, 5));
    assert!(!counts_toward_goal(true, 0));
    assert!(!counts_toward_goal(false, 5));
    let usage = account_child_token_rollup(Ok::<_, &str>(Some(edge())), 5).unwrap().unwrap();
    assert_eq!((usage.thread_id.as_str(), usage.seconds, usage.tokens), ("p", 0, 5));
    assert_eq!(usage.mode, GoalAccountingMode::ActiveOnly);
    assert_eq!(account_child_token_rollup(Ok::<_, &str>(None), 5), Ok(None));
    assert_eq!(account_child_token_rollup(Err("locked"), 5), Err("locked"));
    assert_eq!(rollup_accounted(&ThreadId::new("c"), 5, Ok::<(), &str>(())), RollupEnd::Counted);
    assert_eq!(
        rollup_accounted(&ThreadId::new("c"), 5, Err("full")),
        RollupEnd::TakeBack { child_thread_id: ThreadId::new("c"), tokens: 5, error: "full" }
    );
}

#[test]
fn stored_agents_keep_their_settings() {
    let mut agent = snapshot("c");
    let loaded = config_for_stored_thread(&config(), &agent, model("other"));
    assert_eq!(loaded.cwd, "/work/src");
    assert_eq!(loaded.model, model("gpt-5.5"));
    agent.reference_turn_context = Some(TurnContextItem {
        workspace_root: "/work".to_string(),
        cwd: "/work/lib".to_string(),
        permission_profile: PermissionProfile::FullAccess,
        model: model("other").identity,
        thinking_mode: Some(ThinkingMode::Low),
        command_timeout_secs: 3,
        max_output_bytes: 4,
        policy_mode: PolicyMode::Enforced,
    });
    let loaded = config_for_stored_thread(&config(), &agent, model("other"));
    assert_eq!(loaded.cwd, "/work/lib");
    assert_eq!(loaded.model, model("other"));
    assert_eq!(loaded.command_timeout_secs, 3);
    assert_eq!(loaded.policy_mode, PolicyMode::Enforced);
}

#[test]
fn agents_are_read_back_with_their_root() {
    let mut child = stored("c", vec![]);
    child.snapshot.lineage = Some(lineage("p", "r", "root/c"));
    assert_eq!(control_root(&ThreadId::new("c"), &Some(child.clone())), Ok(ThreadId::new("r")));
    assert_eq!(
        control_root(&ThreadId::new("p"), &Some(stored("p", vec![]))),
        Ok(ThreadId::new("p"))
    );
    assert!(control_root(&ThreadId::new("p"), &None).is_err());
    let known = rehydrated_subagent_control(
        &ThreadId::new("c"),
        child.clone(),
        Some(stored("r", vec![])),
        vec![None, Some(stored("d", vec![]))],
    );
    let ids: Vec<&str> = known.iter().map(|snapshot| snapshot.thread_id.as_str()).collect();
    assert_eq!(ids, vec!["r", "c", "d"]);
}

#[test]
fn agents_are_spawned_below_their_parent() {
    let plan = spawn_clean_child(
        &ThreadId::new("c"),
        config(),
        Some(model("other")),
        Some(ThinkingMode::High),
        &lineage("p", "p", "root/c"),
        true,
    );
    assert_eq!(plan.config.model, model("other"));
    assert_eq!(plan.config.thinking_mode, Some(ThinkingMode::High));
    assert_eq!(plan.snapshot.thread_source, ThreadSource::Subagent);
    assert_eq!(plan.snapshot.lineage, Some(lineage("p", "p", "root/c")));
    assert_eq!(plan.edge, edge());
    assert!(plan.read_parent_history);
    let response = spawn_agent_response(
        ThreadId::new("c"),
        lineage("p", "p", "root/c"),
        Ok(TurnId::new("turn")),
        "do".to_string(),
    )
    .unwrap();
    assert_eq!(response.task_name, "root/c");
    assert_eq!(response.depth, 1);
    let refused = spawn_agent_response(
        ThreadId::new("c"),
        lineage("p", "p", "root/c"),
        Err("no".to_string()),
        "do".to_string(),
    );
    assert_eq!(refused.unwrap_err().message(), "turn rejected for thread c: no");
}

#[test]
fn agents_write_to_each_other() {
    let mail = || InterAgentCommunication {
        author_thread_id: ThreadId::new("a"),
        recipient_thread_id: ThreadId::new("b"),
        author_path: "root/a".to_string(),
        recipient_path: "root/b".to_string(),
        content: "hi".to_string(),
    };
    assert_eq!(recipient_to_load(&mail(), true, true), Ok(false));
    assert_eq!(recipient_to_load(&mail(), false, true), Ok(true));
    assert_eq!(
        recipient_to_load(&mail(), false, false),
        Err(AppServerError::ThreadNotFound(ThreadId::new("b")))
    );
    assert_eq!(followup_step(false, "root/a", true), FollowupStep::Rest);
    assert_eq!(followup_step(true, "root/a", true), FollowupStep::Busy);
    assert_eq!(
        followup_step(true, "root/a", false),
        FollowupStep::Submit {
            prompt: "Process the pending inter-agent message from root/a.".to_string()
        }
    );
    let started = FollowupOutcome::Started(TurnId::new("turn"));
    let response = deliver_inter_agent_message(mail(), true, started).unwrap();
    assert_eq!(response.started_turn_id, Some(TurnId::new("turn")));
    let busy = FollowupOutcome::Refused("thread is busy: b".to_string());
    assert!(deliver_inter_agent_message(mail(), true, busy).unwrap().target_busy);
    let refused = FollowupOutcome::Refused("no".to_string());
    assert_eq!(deliver_inter_agent_message(mail(), true, refused), Err("no".to_string()));
    let closed = ClosedAgent { thread_id: ThreadId::new("b"), agent_path: "root/b".to_string() };
    let response =
        close_agents_response(ThreadId::new("a"), ThreadId::new("a"), vec![closed.clone()]);
    assert_eq!(response.closed_agents, vec![closed]);
}

#[test]
fn the_server_says_what_it_offers() {
    let offer = initialize(&InitializeParams {});
    assert_eq!(offer.protocol_version, BOUNDARY_PROTOCOL_VERSION);
    assert_eq!(offer.supported_ops.len(), 15);
    assert_eq!(offer.supported_streams, vec![BoundaryCapability::EventsSubscribe]);
    assert_eq!(offer.supported_permission_profiles, vec![PermissionProfile::FullAccess]);
    let op = BoundaryOp::Initialize(InitializeParams {});
    assert_eq!(
        submit_boundary_op(op.clone()),
        BoundaryStep::Answer(BoundaryOpResponse::Initialized(offer.clone()))
    );
    let compact = BoundaryOp::ThreadCompact(ThreadCompactParams {
        thread_id: ThreadId::new("t"),
        workspace_root: None,
    });
    assert_eq!(submit_boundary_op(compact.clone()), BoundaryStep::Perform(compact));
    assert!(answers(&op, &BoundaryOpResponse::Initialized(offer)));
    assert!(!answers(
        &op,
        &BoundaryOpResponse::ThreadStarted(thread_start_response(ThreadId::new("t")))
    ));
}

#[test]
fn runs_go_to_the_named_thread() {
    let managed = Some(PermissionProfile::Managed);
    assert!(matches!(
        run_thread(Some(ThreadId::new("t")), work(), None, None),
        Ok(RunThread::Resume(params)) if params.workspace_root == work()
    ));
    assert!(run_thread(Some(ThreadId::new("t")), work(), None, managed).is_err());
    assert!(matches!(
        run_thread(None, work(), None, managed),
        Ok(RunThread::Start(params)) if params.permission_profile == managed
    ));
    let turn = run_turn(ThreadId::new("t"), "go".to_string(), None, Some(ThinkingMode::Low));
    assert_eq!(turn.turn_context.unwrap().thinking_mode, Some(ThinkingMode::Low));
    assert!(run_turn(ThreadId::new("t"), "go".to_string(), None, None).turn_context.is_none());
}

fn replay(after: Option<&str>, limit: Option<usize>, kinds: Vec<RuntimeEventKindFilter>) -> EventsReplayParams {
    EventsReplayParams {
        thread_id: ThreadId::new("t"),
        workspace_root: None,
        after_event_id: after.map(EventId::new),
        limit,
        include_snapshot: true,
        event_kinds: kinds,
    }
}

fn history() -> Vec<RuntimeEvent> {
    vec![
        event("1", RuntimeEventKind::TurnStarted),
        event("2", RuntimeEventKind::AssistantTextDelta { delta: "a".to_string() }),
        event("3", RuntimeEventKind::AssistantTextDelta { delta: "b".to_string() }),
        event("4", RuntimeEventKind::TurnCompleted),
    ]
}

fn replayed_ids(params: EventsReplayParams) -> Vec<String> {
    let state = Some((stored("t", history()), overlay()));
    let response = events_replay(params, "/work", None, state, |events| events).unwrap();
    response.events.into_iter().map(|event| event.event_id.0).collect()
}

#[test]
fn replays_can_be_read_in_pages() {
    assert_eq!(replayed_ids(replay(None, None, vec![])), vec!["1", "2", "3", "4"]);
    assert_eq!(replayed_ids(replay(None, Some(3), vec![])), vec!["1", "2", "3"]);
    assert_eq!(replayed_ids(replay(Some("3"), Some(3), vec![])), vec!["4"]);
    assert_eq!(replayed_ids(replay(Some("none"), Some(1), vec![])), vec!["1"]);
    let deltas = || vec![RuntimeEventKindFilter::AssistantTextDelta];
    assert_eq!(replayed_ids(replay(None, Some(1), deltas())), vec!["2"]);
    assert_eq!(replayed_ids(replay(Some("2"), Some(1), deltas())), vec!["3"]);
    assert!(replayed_ids(replay(Some("3"), Some(1), deltas())).is_empty());
    let goals = vec![RuntimeEventKindFilter::ThreadGoalReport];
    assert!(replayed_ids(replay(None, None, goals)).is_empty());
}

#[test]
fn replays_hold_the_snapshot_that_was_asked_for() {
    let state = || {
        let open = RuntimeOverlay {
            pending_approvals: vec![ApprovalId::new("a"), ApprovalId::new("b")],
            pending_user_inputs: vec![],
            open_exec_sessions: vec![ExecSessionId::new("exec_1")],
        };
        Some((stored("t", history()), open))
    };
    let response =
        events_replay(replay(None, None, vec![]), "/work", None, state(), |_| vec![]).unwrap();
    assert!(response.events.is_empty());
    let view = response.snapshot.unwrap();
    assert_eq!(view.pending_approval_count, 2);
    assert_eq!(view.open_exec_session_count, 1);
    assert_eq!(view.cwd, "/work/src");
    let params = EventsReplayParams { include_snapshot: false, ..replay(None, None, vec![]) };
    let response = events_replay(params, "/work", None, state(), |events| events).unwrap();
    assert!(response.snapshot.is_none());
    let missing = events_replay(replay(None, None, vec![]), "/work", None, None, |events| events);
    assert!(matches!(missing, Err(AppServerError::ThreadNotFound(_))));
}

#[test]
fn replays_are_redacted_at_the_boundary() {
    let response = BoundaryOpResponse::EventsReplayed(EventsReplayResponse {
        thread_id: ThreadId::new("t"),
        events: history(),
        snapshot: None,
    });
    let public = redact_boundary_op_response_for_public_boundary(response, |mut events| {
        events.truncate(1);
        events
    });
    let BoundaryOpResponse::EventsReplayed(public) = public else {
        panic!("another answer");
    };
    assert_eq!(public.events.len(), 1);
    let other = BoundaryOpResponse::ThreadStarted(thread_start_response(ThreadId::new("t")));
    let same = redact_boundary_op_response_for_public_boundary(other, |_| vec![]);
    assert!(matches!(same, BoundaryOpResponse::ThreadStarted(_)));
}

#[test]
fn failures_have_a_status() {
    let t = || ThreadId::new("t");
    let status = |error| status_for_error(&ApiFailure::Server(error));
    assert_eq!(status(AppServerError::InvalidRequest("x".to_string())), 400);
    assert_eq!(status(AppServerError::ThreadNotFound(t())), 404);
    assert_eq!(status(AppServerError::ThreadBusy(t())), 409);
    assert_eq!(
        status(AppServerError::TurnInterrupted { thread_id: t(), turn_id: TurnId::new("u") }),
        409
    );
    assert_eq!(status_for_error(&ApiFailure::Runtime(ThreadRuntimeError::ThreadBusy(t()))), 409);
    assert_eq!(status_for_error(&ApiFailure::Internal), 500);
    assert_eq!(
        AppServerError::TurnInterrupted { thread_id: t(), turn_id: TurnId::new("u") }.message(),
        "turn interrupted for thread t: u"
    );
}

#[test]
fn the_server_finds_its_place() {
    let some = |text: &str| Some(text.to_string());
    assert_eq!(bind_address(some("a"), some("b")), "a");
    assert_eq!(bind_address(None, some("b")), "b");
    assert_eq!(bind_address(None, None), "127.0.0.1:3000");
    assert_eq!(state_dir(some("/s"), some("/c")), "/s");
    assert_eq!(state_dir(None, some("/c")), "/c/.exagent-api");
    assert_eq!(state_dir(None, None), "./.exagent-api");
    assert_eq!(unix_millis(None), 0);
    assert_eq!(unix_millis(Some(u128::MAX)), i64::MAX);
    assert_eq!(unix_millis(Some(5)), 5);
    assert_eq!(project_name("/code/exagent/"), "exagent");
    assert_eq!(project_name("/"), "Headless API");
    assert_eq!(project_name("/code/.."), "Headless API");
    let entry = index_thread_start(None, some("/code/x"), &ThreadId::new("t"), 3);
    assert_eq!(entry.project_name, "x");
    assert_eq!(entry.fallback_title, "t title");
    assert_eq!(entry.preview, "t preview");
}
