//! The tree of agents, goals, and the turns of a thread.
use exagent::agent_tree::{
    agent_records, agent_tree, collect_agent_event_details, depth_from_path, leads_back,
    live_agent_status, root_thread_of, sort_edges, status_from_edge, tokens_used_from_snapshot,
    AgentChild,
};
use exagent::config::{
    ModelCapabilities, PermissionProfile, PolicyMode, ProviderProtocol, ResolvedCredential,
    ResolvedModelConfig,
};
use exagent::desktop::{hydrate_thread_goal, hydrate_thread_lineage, thread_goal_clear, ThreadRecord};
use exagent::error::AppServerError;
use exagent::events::{RuntimeEvent, RuntimeEventKind};
use exagent::goals::{
    active_goal_id, goal_mode_changed, goal_mode_write, goal_store, status_protocol_from_record,
    status_record_from_protocol, thread_goal_get, thread_goal_set, thread_goal_set_response,
    updated_goal, validate_external_goal_status, validate_goal_set, GoalModeWrite, GoalWrite,
    ThreadGoalRecord, ThreadGoalStatusRecord,
};
use exagent::ids::{ApprovalId, EventId, ThreadId, TurnId};
use exagent::protocol::{
    AgentTreeAgentStatus, AgentTreeNode, AgentTreeResponse, BoundaryOpResponse, ThreadGoalClearResponse,
    ThreadGoalMode, ThreadGoalSetParams, ThreadGoalStatus, TurnStatus,
};
use exagent::registry::{default_tool_registry, BuiltinTool};
use exagent::settings::{agent_config, Environment};
use exagent::state::{
    SpawnEdgeStatus, StoredThreadState, ThreadLineage, ThreadSnapshot, ThreadSource,
    ThreadSpawnEdge,
};
use exagent::text_map::TextMap;
use exagent::thread_runtime::{
    broadcast_events_since, run_user_input_inner, status_during, thread_loop_step, turn_cwd,
    ActiveTurnSlot, AgentOutcome, ThreadFault, ThreadLoopStep, ThreadOp, ThreadOpResult,
    ThreadRuntimeOptions, ThreadRuntimeStatus,
};
use exagent::threads::{thread_start_response, ThreadForkEdge};
use exagent::types::{
    AgentType, ApprovalStatus, AssistantTurn, ModelRef, TokenUsage, TokenUsageInfo, ToolStatus,
};

fn snapshot(id: &str, lineage: Option<ThreadLineage>) -> ThreadSnapshot {
    ThreadSnapshot::new_thread_with_options(
        ThreadId::new(id),
        "/work".to_string(),
        "/work".to_string(),
        PermissionProfile::FullAccess,
        ThreadSource::User,
        lineage,
    )
}

fn stored(id: &str, lineage: Option<ThreadLineage>, events: Vec<RuntimeEvent>) -> StoredThreadState {
    StoredThreadState { snapshot: snapshot(id, lineage), response_items: vec![], events }
}

fn event(id: &str, thread: &str, kind: RuntimeEventKind) -> RuntimeEvent {
    RuntimeEvent {
        event_id: EventId::new(id),
        thread_id: ThreadId::new(thread),
        turn_id: Some(TurnId::new(&format!("turn_{thread}"))),
        kind,
    }
}

fn spawned(id: &str, parent: &str, child: &str, task: &str) -> RuntimeEvent {
    event(
        id,
        parent,
        RuntimeEventKind::SubagentSpawned {
            invocation_id: format!("inv_{id}"),
            tool_call_id: format!("call_{id}"),
            parent_thread_id: ThreadId::new(parent),
            child_thread_id: ThreadId::new(child),
            task_name: child.to_string(),
            message_preview: task.to_string(),
        },
    )
}

fn message(id: &str, from: &str, to: &str, content: &str) -> RuntimeEvent {
    event(
        id,
        from,
        RuntimeEventKind::InterAgentMessageSent {
            invocation_id: format!("inv_{id}"),
            tool_call_id: format!("call_{id}"),
            author_thread_id: ThreadId::new(from),
            recipient_thread_id: ThreadId::new(to),
            author_path: from.to_string(),
            recipient_path: to.to_string(),
            content_preview: content.to_string(),
            followup: false,
            started_turn_id: None,
        },
    )
}

fn tool_started(id: &str, thread: &str, invocation: &str, tool: &str) -> RuntimeEvent {
    event(
        id,
        thread,
        RuntimeEventKind::ToolInvocationStarted {
            invocation_id: invocation.to_string(),
            tool_call_id: "call".to_string(),
            tool_name: tool.to_string(),
            mutating: false,
        },
    )
}

fn edge(parent: &str, child: &str, path: &str, status: SpawnEdgeStatus) -> ThreadSpawnEdge {
    ThreadSpawnEdge {
        parent_thread_id: ThreadId::new(parent),
        child_thread_id: ThreadId::new(child),
        root_thread_id: ThreadId::new("thread_root"),
        agent_path: path.to_string(),
        status,
    }
}

fn lineage(
    parent: &str,
    depth: u32,
    path: &str,
    agent_type: Option<AgentType>,
    role: Option<&str>,
    nickname: Option<&str>,
) -> Option<ThreadLineage> {
    Some(ThreadLineage {
        parent_thread_id: ThreadId::new(parent),
        root_thread_id: ThreadId::new("thread_root"),
        depth,
        agent_path: path.to_string(),
        agent_type,
        agent_role: role.map(str::to_string),
        agent_nickname: nickname.map(str::to_string),
        forked_from_id: None,
    })
}

fn child_of<'a>(node: &'a AgentTreeNode, id: &str) -> &'a AgentTreeNode {
    node.children
        .iter()
        .find(|child| child.thread_id == Some(ThreadId::new(id)))
        .expect("child")
}

#[test]
fn agent_tree_projects_root_descendants_closed_roster_and_metadata() {
    let root = stored(
        "thread_root",
        None,
        vec![
            spawned("evt_1", "thread_root", "thread_research", "map the inspector state"),
            spawned("evt_2", "thread_root", "thread_tests", "cover the panel reducer"),
            message(
                "evt_3",
                "thread_root",
                "thread_research",
                "also check activeSessionId consumers",
            ),
        ],
    );
    let research = stored(
        "thread_research",
        lineage(
            "thread_root",
            1,
            "root/researcher",
            Some(AgentType::Explorer),
            Some("research role"),
            Some("Rhea"),
        ),
        vec![
            spawned("evt_4", "thread_research", "thread_scraper", "read protocol.rs"),
            message("evt_5", "thread_research", "thread_root", "sent scraper update"),
        ],
    );
    let scraper = stored(
        "thread_scraper",
        lineage("thread_research", 2, "root/researcher/scraper", None, None, None),
        vec![event(
            "evt_6",
            "thread_scraper",
            RuntimeEventKind::RuntimeError { message: "child failed".to_string() },
        )],
    );
    let tests = stored(
        "thread_tests",
        lineage("thread_root", 1, "root/test-writer", None, Some("test role"), None),
        vec![],
    );
    let children = vec![
        AgentChild {
            edge: edge("thread_root", "thread_tests", "root/test-writer", SpawnEdgeStatus::Closed),
            state: Some(tests),
            live: None,
        },
        AgentChild {
            edge: edge(
                "thread_research",
                "thread_scraper",
                "root/researcher/scraper",
                SpawnEdgeStatus::Open,
            ),
            state: Some(scraper),
            live: None,
        },
        AgentChild {
            edge: edge("thread_root", "thread_research", "root/researcher", SpawnEdgeStatus::Open),
            state: Some(research),
            live: None,
        },
    ];
    let root_id = ThreadId::new("thread_root");
    let records = agent_records(&root_id, &root, None, &children);
    assert!(!leads_back(&root_id, &records));

    let response = tree_of(&root_id, &root, &children);

    assert_eq!(response.root.thread_id.as_ref(), Some(&root_id));
    assert_eq!(response.root.children.len(), 2);
    assert_eq!(response.root.children[0].agent_path, "root/researcher");
    let research_node = child_of(&response.root, "thread_research");
    assert_eq!(research_node.status.as_str(), "idle");
    assert_eq!(research_node.agent_type, Some(AgentType::Explorer));
    assert_eq!(research_node.agent_role.as_deref(), Some("research role"));
    assert_eq!(research_node.agent_nickname.as_deref(), Some("Rhea"));
    assert_eq!(research_node.last_task_message.as_deref(), Some("map the inspector state"));
    assert_eq!(research_node.last_activity.as_deref(), Some("sent scraper update"));
    assert_eq!(research_node.children.len(), 1);
    assert_eq!(research_node.children[0].agent_path, "root/researcher/scraper");
    assert_eq!(research_node.children[0].status.as_str(), "failed");
    assert_eq!(
        research_node.children[0].last_task_message.as_deref(),
        Some("read protocol.rs")
    );

    let tests_node = child_of(&response.root, "thread_tests");
    assert_eq!(tests_node.status.as_str(), "done");
    assert_eq!(tests_node.agent_role.as_deref(), Some("test role"));
    assert_eq!(tests_node.last_task_message.as_deref(), Some("cover the panel reducer"));
}

/// The tree of a thread that was not spawned.
fn tree_of(id: &ThreadId, root: &StoredThreadState, children: &Vec<AgentChild>) -> AgentTreeResponse {
    agent_tree(id, &Some(root.clone()), &None, None, children).unwrap()
}

#[test]
fn spawned_agents_get_the_tree_of_their_root() {
    let root_id = ThreadId::new("thread_root");
    let child_id = ThreadId::new("thread_c");
    let root = stored("thread_root", None, vec![]);
    let child =
        stored("thread_c", lineage("thread_root", 1, "root/c", None, Some("role"), None), vec![]);
    let children = vec![AgentChild {
        edge: edge("thread_root", "thread_c", "root/c", SpawnEdgeStatus::Open),
        state: Some(child.clone()),
        live: None,
    }];
    let of_root = tree_of(&root_id, &root, &children);
    let of_child =
        agent_tree(&child_id, &Some(child.clone()), &Some(root.clone()), None, &children);
    assert_eq!(of_child, Ok(tree_of(&root_id, &root, &children)));
    assert_eq!(of_root.root.thread_id, Some(root_id.clone()));
    assert_eq!(of_root.root.parent_thread_id, None);
    assert_eq!(of_root.root.root_thread_id, root_id);
    assert_eq!((of_root.root.depth, of_root.root.agent_path.as_str()), (0, "root"));
    assert_eq!(of_root.root.last_task_message, None);
    assert_eq!(child_of(&of_root.root, "thread_c").agent_role.as_deref(), Some("role"));

    assert_eq!(
        agent_tree(&child_id, &None, &Some(root), None, &children),
        Err(AppServerError::ThreadNotFound(child_id.clone()))
    );
    assert_eq!(
        agent_tree(&child_id, &Some(child), &None, None, &children),
        Err(AppServerError::ThreadNotFound(root_id))
    );
}

#[test]
fn agents_are_followed_in_the_order_of_the_tree() {
    let told = |id: &str, content: &str| {
        event(
            "evt_1",
            id,
            RuntimeEventKind::SubagentSpawned {
                invocation_id: "a".to_string(),
                tool_call_id: "call".to_string(),
                parent_thread_id: ThreadId::new(id),
                child_thread_id: ThreadId::new("thread_b"),
                task_name: "b".to_string(),
                message_preview: content.to_string(),
            },
        )
    };
    let child = |id: &str, path: &str, task: &str| AgentChild {
        edge: edge("thread_root", id, path, SpawnEdgeStatus::Open),
        state: Some(stored(id, None, vec![told(id, task)])),
        live: None,
    };
    let root_id = ThreadId::new("thread_root");
    let root = stored("thread_root", None, vec![]);
    let first = || child("thread_a", "root/a", "first");
    let second = || child("thread_b", "root/b", "second");
    for children in [vec![first(), second()], vec![second(), first()]] {
        let tree = tree_of(&root_id, &root, &children);
        let task = child_of(&tree.root, "thread_b").last_task_message.clone();
        assert_eq!(task.as_deref(), Some("second"));
    }
}

#[test]
fn agents_that_wait_are_shown_as_waiting() {
    let child = |live| AgentChild {
        edge: edge("thread_root", "thread_c", "root/c", SpawnEdgeStatus::Open),
        state: None,
        live,
    };
    let root = stored("thread_root", None, vec![]);
    let waiting = live_agent_status(Some(TurnStatus::Running), 1);
    let tree = tree_of(&ThreadId::new("thread_root"), &root, &vec![child(waiting)]);
    let node = child_of(&tree.root, "thread_c");
    assert_eq!(node.status, AgentTreeAgentStatus::WaitingApproval);
    assert_eq!(node.depth, 1);
    assert_eq!(node.agent_path, "root/c");
    assert_eq!(
        live_agent_status(Some(TurnStatus::WaitingApproval), 0),
        Some(AgentTreeAgentStatus::WaitingApproval)
    );
    assert_eq!(
        live_agent_status(Some(TurnStatus::InProgress), 0),
        Some(AgentTreeAgentStatus::Running)
    );
    assert_eq!(live_agent_status(None, 0), None);
    assert_eq!(
        status_from_edge(
            SpawnEdgeStatus::Closed,
            Some(AgentTreeAgentStatus::Running),
            None
        ),
        AgentTreeAgentStatus::Done
    );
}

#[test]
fn agents_show_the_tool_that_runs() {
    let completed = event(
        "evt_3",
        "thread_root",
        RuntimeEventKind::ToolInvocationCompleted {
            invocation_id: "b".to_string(),
            tool_call_id: "call".to_string(),
            tool_name: "write_file".to_string(),
            status: ToolStatus::Success,
        },
    );
    let events = vec![
        tool_started("evt_1", "thread_root", "a", "read_file"),
        tool_started("evt_2", "thread_root", "b", "write_file"),
        completed,
    ];
    let mut root = stored("thread_root", None, events);
    let usage = TokenUsage { input_tokens: 1, output_tokens: 2, total_tokens: 3 };
    root.snapshot.token_info =
        Some(TokenUsageInfo { total_token_usage: usage.clone(), last_token_usage: usage });
    assert_eq!(tokens_used_from_snapshot(&root.snapshot), Some(3));
    let tree = tree_of(&ThreadId::new("thread_root"), &root, &vec![]);
    assert_eq!(tree.root.current_tool.as_deref(), Some("read_file"));
    assert_eq!(tree.root.tokens_used, Some(3));
    assert_eq!(tree.root.status, AgentTreeAgentStatus::Idle);
}

#[test]
fn decided_tools_run_no_more() {
    let waiting = event(
        "evt_2",
        "thread_root",
        RuntimeEventKind::ToolInvocationWaitingApproval {
            invocation_id: "a".to_string(),
            approval_id: ApprovalId::new("approval"),
            reason: "why".to_string(),
        },
    );
    let decided = event(
        "evt_3",
        "thread_root",
        RuntimeEventKind::ApprovalDecision {
            approval_id: ApprovalId::new("approval"),
            status: ApprovalStatus::Denied,
            note: None,
        },
    );
    let started = tool_started("evt_1", "thread_root", "a", "run_command");
    let tools = |events: Vec<RuntimeEvent>| {
        let (mut tasks, mut said, mut tools) = (TextMap::new(), TextMap::new(), TextMap::new());
        collect_agent_event_details(&events, &mut tasks, &mut said, &mut tools);
        tools.get(&"thread_root".to_string()).cloned()
    };
    assert_eq!(
        tools(vec![started.clone(), waiting.clone()]).as_deref(),
        Some("run_command")
    );
    assert_eq!(tools(vec![started, waiting, decided]), None);
}

#[test]
fn agents_that_are_their_own_ancestors_are_found() {
    let root = stored("thread_root", None, vec![]);
    let child = |parent: &str, id: &str, path: &str| AgentChild {
        edge: edge(parent, id, path, SpawnEdgeStatus::Open),
        state: None,
        live: None,
    };
    let root_id = ThreadId::new("thread_root");
    let ring = vec![child("thread_b", "thread_root", "root/b"), child("thread_root", "thread_b", "b")];
    assert!(leads_back(&root_id, &agent_records(&root_id, &root, None, &ring)));
    let apart = vec![child("thread_b", "thread_c", "x"), child("thread_c", "thread_b", "y")];
    assert!(!leads_back(&root_id, &agent_records(&root_id, &root, None, &apart)));
    assert!(tree_of(&root_id, &root, &apart).root.children.is_empty());
}

#[test]
fn agents_stand_in_the_order_of_their_paths() {
    let open = SpawnEdgeStatus::Open;
    let sorted = sort_edges(vec![
        edge("p", "2", "root/b", open),
        edge("p", "9", "root/a", open),
        edge("p", "1", "root/b", open),
        edge("p", "3", "root", open),
    ]);
    let ids: Vec<&str> = sorted.iter().map(|edge| edge.child_thread_id.as_str()).collect();
    assert_eq!(ids, vec!["3", "9", "1", "2"]);
    assert_eq!(depth_from_path("root/a/b"), 2);
    assert_eq!(depth_from_path("root"), 0);
    assert_eq!(depth_from_path("/root//a/"), 1);
    assert_eq!(depth_from_path(""), 0);
    let id = ThreadId::new("t");
    assert_eq!(root_thread_of(&id, &snapshot("t", None)), id);
    let below = snapshot("t", lineage("p", 1, "root/t", None, None, None));
    assert_eq!(root_thread_of(&id, &below).as_str(), "thread_root");
}

fn record(status: ThreadGoalStatusRecord) -> ThreadGoalRecord {
    ThreadGoalRecord {
        thread_id: ThreadId::new("t"),
        goal_id: "goal".to_string(),
        objective: "ship".to_string(),
        status,
        token_budget: Some(10),
        tokens_used: 4,
        time_used_seconds: 5,
        continuation_suppressed: false,
        continuation_suppressed_after_turn_id: None,
        created_at_ms: 1,
        updated_at_ms: 2,
    }
}

fn goal_params(objective: Option<&str>, status: Option<ThreadGoalStatus>) -> ThreadGoalSetParams {
    ThreadGoalSetParams {
        thread_id: ThreadId::new("t"),
        workspace_root: None,
        objective: objective.map(str::to_string),
        status,
        token_budget: None,
        mode: None,
    }
}

#[test]
fn goals_are_created_with_an_objective() {
    assert_eq!(
        thread_goal_set(goal_params(Some("ship"), None), None),
        Ok(GoalWrite::Replace {
            thread_id: ThreadId::new("t"),
            objective: "ship".to_string(),
            status: ThreadGoalStatusRecord::Active,
            token_budget: None,
        })
    );
    let refused = |params, current| thread_goal_set(params, current).unwrap_err().message();
    assert_eq!(
        refused(goal_params(None, None), None),
        "invalid request: objective is required when creating a thread goal"
    );
    assert_eq!(
        refused(goal_params(Some(" "), None), None),
        "invalid request: goal objective must not be empty"
    );
    let mut broke = goal_params(Some("ship"), None);
    broke.token_budget = Some(Some(0));
    assert_eq!(refused(broke, None), "invalid request: token_budget must be positive");
    assert_eq!(
        refused(goal_params(None, Some(ThreadGoalStatus::BudgetLimited)), None),
        "invalid request: usage_limited and budget_limited are runtime-owned goal statuses"
    );
    assert!(validate_external_goal_status(ThreadGoalStatus::UsageLimited).is_err());
    assert!(validate_goal_set(&goal_params(None, Some(ThreadGoalStatus::Paused))).is_ok());
}

#[test]
fn goals_are_updated_where_they_are_still_the_same() {
    let params = goal_params(None, Some(ThreadGoalStatus::Complete));
    let current = Some(record(ThreadGoalStatusRecord::Active));
    let Ok(GoalWrite::Update { update, .. }) = thread_goal_set(params, current) else {
        panic!("not an update");
    };
    assert_eq!(update.expected_goal_id.as_deref(), Some("goal"));
    assert_eq!(update.status, Some(ThreadGoalStatusRecord::Complete));
    assert_eq!(update.objective, None);
    assert_eq!(
        updated_goal(None).unwrap_err().message(),
        "invalid request: thread goal changed while applying update"
    );
    let goal = updated_goal(Some(record(ThreadGoalStatusRecord::Blocked))).unwrap();
    assert_eq!(goal.status, ThreadGoalStatus::Blocked);
    assert_eq!((goal.tokens_used, goal.token_budget), (4, Some(10)));
    assert_eq!(
        goal_store(false).unwrap_err().message(),
        "invalid request: thread goal store is not configured"
    );
}

#[test]
fn externally_created_goal_replaces_stale_mode() {
    assert_eq!(
        goal_mode_write(true, None),
        GoalModeWrite::ReplaceForThread(ThreadGoalMode::Standard)
    );
    assert_eq!(
        goal_mode_write(true, Some(ThreadGoalMode::Reviewed)),
        GoalModeWrite::ReplaceForThread(ThreadGoalMode::Reviewed)
    );
    assert_eq!(goal_mode_write(false, None), GoalModeWrite::Keep);
    assert_eq!(
        goal_mode_write(false, Some(ThreadGoalMode::Intensive)),
        GoalModeWrite::Change(ThreadGoalMode::Intensive)
    );
    let mode_after = |write| {
        let goal = updated_goal(Some(record(ThreadGoalStatusRecord::Active))).unwrap();
        thread_goal_set_response(goal, write, ThreadGoalMode::Reviewed).mode
    };
    assert_eq!(mode_after(goal_mode_write(true, None)), ThreadGoalMode::Standard);
    assert_eq!(mode_after(goal_mode_write(false, None)), ThreadGoalMode::Reviewed);
    assert_eq!(
        mode_after(goal_mode_write(false, Some(ThreadGoalMode::Intensive))),
        ThreadGoalMode::Intensive
    );
    let goal = "goal".to_string();
    let standard = ThreadGoalMode::Standard;
    assert!(!goal_mode_changed(&Some(goal.clone()), standard, &goal, standard));
    assert!(goal_mode_changed(&None, standard, &goal, standard));
    assert!(goal_mode_changed(&Some(goal.clone()), ThreadGoalMode::Reviewed, &goal, standard));
}

#[test]
fn stored_goal_statuses_are_shown_and_read_back() {
    for status in [
        ThreadGoalStatus::Active,
        ThreadGoalStatus::Paused,
        ThreadGoalStatus::Blocked,
        ThreadGoalStatus::UsageLimited,
        ThreadGoalStatus::BudgetLimited,
        ThreadGoalStatus::Complete,
    ] {
        assert_eq!(status_protocol_from_record(status_record_from_protocol(status)), status);
    }
    let shown = thread_goal_get(None, ThreadGoalMode::Reviewed);
    assert_eq!((shown.goal, shown.mode), (None, ThreadGoalMode::Standard));
    let active = Some(record(ThreadGoalStatusRecord::Active));
    assert_eq!(active_goal_id(active.clone()).as_deref(), Some("goal"));
    assert_eq!(active_goal_id(Some(record(ThreadGoalStatusRecord::Paused))), None);
    let mut thread = thread_start_response(ThreadId::new("t")).thread;
    hydrate_thread_goal(&mut thread, active, ThreadGoalMode::Intensive);
    assert_eq!(thread.goal_mode, ThreadGoalMode::Intensive);
    assert_eq!(thread.goal.as_ref().unwrap().objective, "ship");
    let cleared = BoundaryOpResponse::ThreadGoalCleared(ThreadGoalClearResponse { cleared: true });
    assert!(thread_goal_clear(cleared).unwrap().cleared);
    let other = BoundaryOpResponse::ThreadStarted(thread_start_response(ThreadId::new("t")));
    assert!(thread_goal_clear(other).is_err());
}

#[test]
fn listed_threads_know_what_they_were_forked_from() {
    let thread = |id: &str| ThreadRecord {
        id: ThreadId::new(id),
        fork_parent_thread_id: None,
        fork_point_turn_id: None,
        rest: id.len(),
    };
    let edges = vec![ThreadForkEdge {
        parent_thread_id: ThreadId::new("p"),
        child_thread_id: ThreadId::new("c"),
        fork_point_turn_id: TurnId::new("turn"),
        created_at_ms: 1,
    }];
    let threads = hydrate_thread_lineage(vec![thread("p"), thread("c")], Some(edges));
    assert_eq!(threads[0].fork_parent_thread_id, None);
    assert_eq!(threads[1].fork_parent_thread_id, Some(ThreadId::new("p")));
    assert_eq!(threads[1].fork_point_turn_id, Some(TurnId::new("turn")));
}

#[test]
fn threads_run_one_turn_at_a_time() {
    let mut slot = ActiveTurnSlot::new(ThreadId::new("t"));
    let free = slot.clone();
    assert_eq!(slot.interrupt_active_turn(None), Err(ThreadFault::NoActiveTurn));
    slot.reserve_active_turn(TurnId::new("a")).unwrap();
    assert_eq!(
        slot.reserve_active_turn(TurnId::new("b")).unwrap_err().message(),
        "thread is busy: t"
    );
    assert_eq!(slot.active_turn_id(), Some(TurnId::new("a")));
    assert_eq!(
        slot.interrupt_active_turn(Some(&TurnId::new("b"))).unwrap_err().message(),
        "turn rejected for thread t: active turn is a"
    );
    assert_eq!(slot.interrupt_active_turn(Some(&TurnId::new("a"))), Ok(TurnId::new("a")));
    assert_eq!(
        slot.interrupt_active_turn(None).unwrap_err().message(),
        "turn rejected for thread t: active turn is already interrupting or completed"
    );
    assert_eq!(slot.interrupt_sent(TurnId::new("a"), true), Ok(TurnId::new("a")));
    assert_eq!(
        slot.interrupt_sent(TurnId::new("a"), false).unwrap_err().message(),
        "turn rejected for thread t: active turn is already interrupting or completed"
    );
    slot.release();
    assert_eq!(slot, free);
}

#[test]
fn the_loop_of_a_thread_takes_operations() {
    let step = thread_loop_step(ThreadOp::UserInput {
        turn_id: TurnId::new("a"),
        prompt: "go".to_string(),
        turn_context: None,
    });
    assert_eq!(status_during(&step), ThreadRuntimeStatus::Running);
    let step = thread_loop_step(ThreadOp::Interrupt { turn_id: Some(TurnId::new("a")) });
    assert_eq!(
        step,
        ThreadLoopStep::Answer(Ok(ThreadOpResult::Interrupted { turn_id: TurnId::new("a") }))
    );
    let step = thread_loop_step(ThreadOp::Interrupt { turn_id: None });
    assert_eq!(step, ThreadLoopStep::Answer(Err(ThreadFault::NoActiveTurn)));
    assert_eq!(status_during(&step), ThreadRuntimeStatus::Idle);
    let step = thread_loop_step(ThreadOp::Shutdown);
    assert_eq!(status_during(&step), ThreadRuntimeStatus::Stopped);
    assert_eq!(turn_cwd(None), None);
}

#[test]
fn turns_end_as_their_agents_do() {
    let end = |outcome| run_user_input_inner(ThreadId::new("t"), TurnId::new("a"), outcome);
    let turn = AssistantTurn { text: None, tool_calls: vec![], reasoning: vec![] };
    let finished = end(AgentOutcome::Finished(turn));
    assert_eq!(finished.last_event, RuntimeEventKind::TurnCompleted);
    assert!(finished.result.is_ok());
    let failed = end(AgentOutcome::Failed("no".to_string()));
    assert_eq!(failed.last_event, RuntimeEventKind::RuntimeError { message: "no".to_string() });
    assert_eq!(failed.result.unwrap_err().message(), "no");
    let interrupted = end(AgentOutcome::Interrupted);
    assert!(interrupted.notify_interrupter && !interrupted.forward_recorded_events);
    assert_eq!(
        interrupted.result.unwrap_err(),
        ThreadFault::Refused(AppServerError::TurnInterrupted {
            thread_id: ThreadId::new("t"),
            turn_id: TurnId::new("a"),
        })
    );
    let events = || {
        vec![
            event("1", "t", RuntimeEventKind::TurnStarted),
            event("2", "t", RuntimeEventKind::TurnCompleted),
        ]
    };
    assert_eq!(broadcast_events_since(events(), 1).len(), 1);
    assert!(broadcast_events_since(events(), 3).is_empty());
}

#[test]
fn runtimes_need_a_way_to_make_agents() {
    let model = ResolvedModelConfig {
        identity: ModelRef { provider_id: "openai".to_string(), model_id: "gpt-5.5".to_string() },
        protocol: ProviderProtocol::OpenAiChatCompletions,
        credential: ResolvedCredential::Absent,
        capabilities: ModelCapabilities { context_window: None, supports_tools: true },
    };
    let config = agent_config(&Environment::new(), None, model, PolicyMode::Off);
    let options: ThreadRuntimeOptions<u8> =
        ThreadRuntimeOptions::new(ThreadId::new("t"), config);
    assert_eq!(
        options.require_agent_factory().unwrap_err().message(),
        "thread runtime has no agent factory"
    );
    assert_eq!(options.with_agent_factory(3).require_agent_factory(), Ok(&3));
    assert_eq!(
        default_tool_registry().tools,
        vec![BuiltinTool::ReadFile, BuiltinTool::WriteFile, BuiltinTool::RunCommand]
    );
}
