//! Agents that agents spawn, write to and close.
use vstd::prelude::*;

use crate::config::{AgentConfig, AgentConfigModel, ResolvedModelConfig, ThinkingMode};
use crate::data::{Alike, Duplicate};
use crate::error::AppServerError;
use crate::ids::{ThreadId, TurnId};
use crate::state;
use crate::state::{
    SpawnEdgeStatus, StoredThreadState, ThreadLineage, ThreadSnapshot, ThreadSource,
    ThreadSpawnEdge,
};
use crate::text;
use crate::types::TokenUsageInfo;

verus! {

/// How many tokens a snapshot counts.
pub open spec fn tokens_counted(token_info: Option<TokenUsageInfo>) -> i64 {
    match token_info {
        Some(info) => info.total_token_usage.total_tokens,
        None => 0,
    }
}

/// How many tokens an agent has used when it is closed: as it is now, where it is loaded, else as
/// it is stored.
pub fn child_token_total_before_close(
    live: Option<&ThreadSnapshot>,
    stored: Option<&StoredThreadState>,
) -> (res: i64)
    ensures
        res == match (live, stored) {
            (Some(snapshot), _) => tokens_counted(snapshot.token_info),
            (None, Some(stored)) => tokens_counted(stored.snapshot.token_info),
            (None, None) => 0,
        },
        live is None && stored is None ==> res == 0,
{
    let snapshot = match (live, stored) {
        (Some(snapshot), _) => snapshot,
        (None, Some(stored)) => &stored.snapshot,
        (None, None) => return 0,
    };
    match &snapshot.token_info {
        Some(info) => info.total_token_usage.total_tokens,
        None => 0,
    }
}

/// Whether the tokens of a closed agent are counted at all: there must be goals, and tokens.
pub fn counts_toward_goal(has_goal_store: bool, token_total: i64) -> (res: bool)
    ensures
        res == (has_goal_store && token_total > 0),
{
    has_goal_store && token_total > 0
}

/// Which goals the use of tokens counts toward.
#[derive(Debug, Clone, Copy, PartialEq, Eq, Structural)]
pub enum GoalAccountingMode {
    /// Only those that are active.
    ActiveOnly,
}

/// What counting the tokens of an agent adds to the goal of another.
#[derive(Debug, Clone, PartialEq, Eq)]
pub struct GoalUsage {
    pub thread_id: ThreadId,
    pub seconds: i64,
    pub tokens: i64,
    pub mode: GoalAccountingMode,
}

/// What the tokens of a closed agent add to the goal of its parent, where that is active. `marked`
/// is the edge between the two, where the tokens had not been counted before, or why it could not
/// be marked.
pub fn account_child_token_rollup<E>(
    marked: Result<Option<ThreadSpawnEdge>, E>,
    token_total: i64,
) -> (res: Result<Option<GoalUsage>, E>)
    ensures
        res == match marked {
            Ok(Some(edge)) => Ok::<Option<GoalUsage>, E>(
                Some(
                    GoalUsage {
                        thread_id: edge.parent_thread_id,
                        seconds: 0,
                        tokens: token_total,
                        mode: GoalAccountingMode::ActiveOnly,
                    },
                ),
            ),
            Ok(None) => Ok::<Option<GoalUsage>, E>(None),
            Err(error) => Err::<Option<GoalUsage>, E>(error),
        },
        res matches Ok(Some(usage)) ==> {
            &&& usage.tokens == token_total
            &&& usage.seconds == 0
            &&& usage.mode is ActiveOnly
            &&& usage.thread_id == marked->Ok_0->0.parent_thread_id
        },
        res is Err <==> marked is Err,
{
    match marked {
        Ok(Some(edge)) => Ok(
            Some(
                GoalUsage {
                    thread_id: edge.parent_thread_id,
                    seconds: 0,
                    tokens: token_total,
                    mode: GoalAccountingMode::ActiveOnly,
                },
            ),
        ),
        Ok(None) => Ok(None),
        Err(error) => Err(error),
    }
}

/// How counting the tokens of a closed agent ends.
#[derive(Debug, Clone, PartialEq, Eq)]
pub enum RollupEnd<E> {
    /// They are counted, and stay marked as such.
    Counted,
    /// They are not: the mark on the edge to this agent, for this many tokens, is taken back, and
    /// then the error goes back.
    TakeBack { child_thread_id: ThreadId, tokens: i64, error: E },
}

/// How counting the tokens of a closed agent ends, after they were marked as counted. `accounted`
/// is what came of adding them to the goal of its parent.
pub fn rollup_accounted<E>(
    child_thread_id: &ThreadId,
    token_total: i64,
    accounted: Result<(), E>,
) -> (res: RollupEnd<E>)
    ensures
        match accounted {
            Ok(_) => res is Counted,
            Err(cause) => res matches RollupEnd::TakeBack { child_thread_id: id, tokens, error }
                && id@ == child_thread_id@ && tokens == token_total && error == cause,
        },
{
    match accounted {
        Ok(_) => RollupEnd::Counted,
        Err(error) => RollupEnd::TakeBack {
            child_thread_id: child_thread_id.duplicate(),
            tokens: token_total,
            error,
        },
    }
}

/// The settings `base` as a stored thread last ran with them. `model` is the model that its last
/// turn ran with.
pub open spec fn stored_config(
    base: AgentConfigModel,
    snapshot: ThreadSnapshot,
    model: ResolvedModelConfig,
) -> AgentConfigModel {
    match snapshot.reference_turn_context {
        Some(context) => AgentConfigModel {
            workspace_root: context.workspace_root@,
            cwd: context.cwd@,
            permission_profile: context.permission_profile,
            model: model.deep_view(),
            thinking_mode: context.thinking_mode,
            command_timeout_secs: context.command_timeout_secs,
            max_output_bytes: context.max_output_bytes,
            policy_mode: context.policy_mode,
            ..base
        },
        None => AgentConfigModel {
            workspace_root: snapshot.workspace_root@,
            cwd: snapshot.cwd@,
            permission_profile: snapshot.permission_profile,
            ..base
        },
    }
}

/// The settings that a stored thread is loaded with. `model` is the model that its last turn ran
/// with, where it had one.
pub fn config_for_stored_thread(
    base_config: &AgentConfig,
    snapshot: &ThreadSnapshot,
    model: ResolvedModelConfig,
) -> (res: AgentConfig)
    ensures
        res.deep_view() == stored_config(base_config.deep_view(), *snapshot, model),
{
    let mut config = base_config.duplicate();
    config.workspace_root = snapshot.workspace_root.clone();
    config.cwd = snapshot.cwd.clone();
    config.permission_profile = snapshot.permission_profile;
    if let Some(context) = &snapshot.reference_turn_context {
        config.workspace_root = context.workspace_root.clone();
        config.cwd = context.cwd.clone();
        config.permission_profile = context.permission_profile;
        config.model = model;
        config.thinking_mode = context.thinking_mode;
        config.command_timeout_secs = context.command_timeout_secs;
        config.max_output_bytes = context.max_output_bytes;
        config.policy_mode = context.policy_mode;
    }
    config
}

/// What an agent is told to do with a message that waits for it.
pub fn followup_task_prompt(author_path: &str) -> (res: String)
    ensures
        res@ == "Process the pending inter-agent message from "@ + author_path@ + "."@,
{
    text::concat3("Process the pending inter-agent message from ", author_path, ".")
}

/// The thread at the top of the agents around a thread.
pub open spec fn root_of(snapshot: ThreadSnapshot, thread_id: Seq<char>) -> Seq<char> {
    match snapshot.lineage {
        Some(lineage) => lineage.root_thread_id@,
        None => thread_id,
    }
}

/// The thread at the top of the agents around a stored thread.
pub fn control_root(
    requested_thread_id: &ThreadId,
    requested: &Option<StoredThreadState>,
) -> (res: Result<ThreadId, AppServerError>)
    ensures
        match *requested {
            Some(stored) => res matches Ok(root) && root@ == root_of(
                stored.snapshot,
                requested_thread_id@,
            ),
            None => res matches Err(error) && error.is_not_found(requested_thread_id@),
        },
{
    match requested {
        Some(stored) => match &stored.snapshot.lineage {
            Some(lineage) => Ok(lineage.root_thread_id.duplicate()),
            None => Ok(requested_thread_id.duplicate()),
        },
        None => Err(AppServerError::ThreadNotFound(requested_thread_id.duplicate())),
    }
}

/// The snapshots of those that are stored.
pub open spec fn snapshots_of(children: Seq<Option<StoredThreadState>>) -> Seq<ThreadSnapshot>
    decreases children.len(),
{
    if children.len() == 0 {
        Seq::empty()
    } else {
        let before = snapshots_of(children.drop_last());
        match children.last() {
            Some(child) => before.push(child.snapshot),
            None => before,
        }
    }
}

/// The threads that an agent control knows of after it was read back from storage, in order: the
/// root, where it is another thread and stored, then the requested thread, then the agents that
/// are still at work and stored.
pub open spec fn registered(
    requested_thread_id: Seq<char>,
    requested: StoredThreadState,
    root: Option<StoredThreadState>,
    children: Seq<Option<StoredThreadState>>,
) -> Seq<ThreadSnapshot> {
    let known = if root_of(requested.snapshot, requested_thread_id) != requested_thread_id {
        match root {
            Some(root) => seq![root.snapshot],
            None => Seq::empty(),
        }
    } else {
        Seq::empty()
    };
    known.push(requested.snapshot) + snapshots_of(children)
}

/// The threads that an agent control knows of after it was read back from storage, in order.
pub fn rehydrated_subagent_control(
    requested_thread_id: &ThreadId,
    requested: StoredThreadState,
    root: Option<StoredThreadState>,
    children: Vec<Option<StoredThreadState>>,
) -> (res: Vec<ThreadSnapshot>)
    ensures
        res@ == registered(requested_thread_id@, requested, root, children@),
{
    let mut known: Vec<ThreadSnapshot> = Vec::new();
    let of_its_own = match &requested.snapshot.lineage {
        Some(lineage) => lineage.root_thread_id.alike(requested_thread_id),
        None => true,
    };
    if !of_its_own {
        if let Some(root) = root {
            known.push(root.snapshot);
        }
    }
    known.push(requested.snapshot);
    let ghost first = known@;
    proof {
        assert(children@.take(0) =~= Seq::empty());
        assert(known@ =~= first + snapshots_of(children@.take(0)));
    }
    for child in iter: children
        invariant
            iter.seq() == children@,
            known@ == first + snapshots_of(children@.take(iter.index())),
    {
        proof {
            let next = children@.take(iter.index() + 1);
            assert(next.drop_last() =~= children@.take(iter.index()));
            assert(next.last() == child);
        }
        if let Some(child) = child {
            known.push(child.snapshot);
        }
        proof {
            assert(known@ =~= first + snapshots_of(children@.take(iter.index() + 1)));
        }
    }
    proof {
        assert(children@.take(children@.len() as int) =~= children@);
        let head = registered(requested_thread_id@, requested, root, Seq::empty());
        assert(head =~= first);
    }
    known
}

/// What spawns an agent: its settings, its snapshot, and whether it takes over turns of its
/// parent.
pub struct SpawnPlan {
    pub config: AgentConfig,
    pub snapshot: ThreadSnapshot,
    pub edge: ThreadSpawnEdge,
    pub read_parent_history: bool,
}

/// The settings of an agent: those of its parent, with the model and the thinking mode that it was
/// spawned with, if any.
pub open spec fn child_config_of(
    config: AgentConfigModel,
    model: Option<ResolvedModelConfig>,
    thinking_mode: Option<ThinkingMode>,
) -> AgentConfigModel {
    AgentConfigModel {
        model: match model {
            Some(model) => model.deep_view(),
            None => config.model,
        },
        thinking_mode: if thinking_mode is Some {
            thinking_mode
        } else {
            config.thinking_mode
        },
        ..config
    }
}

/// What spawns an agent under `lineage`. `forks_turns` tells whether it takes over turns of its
/// parent.
pub fn spawn_clean_child(
    thread_id: &ThreadId,
    config: AgentConfig,
    model: Option<ResolvedModelConfig>,
    thinking_mode: Option<ThinkingMode>,
    lineage: &ThreadLineage,
    forks_turns: bool,
) -> (res: SpawnPlan)
    ensures
        res.config.deep_view() == child_config_of(config.deep_view(), model, thinking_mode),
        res.snapshot.deep_view() == state::new_thread(
            thread_id@,
            config.workspace_root@,
            config.cwd@,
            config.permission_profile,
            ThreadSource::Subagent,
            Some(lineage.deep_view()),
        ),
        res.edge.parent_thread_id@ == lineage.parent_thread_id@,
        res.edge.child_thread_id@ == thread_id@,
        res.edge.root_thread_id@ == lineage.root_thread_id@,
        res.edge.agent_path@ == lineage.agent_path@,
        res.edge.status == SpawnEdgeStatus::Open,
        res.read_parent_history == forks_turns,
        res.edge.status is Open,
        res.snapshot.thread_source is Subagent,
        res.config.workspace_root@ == config.workspace_root@,
        thinking_mode is None ==> res.config.thinking_mode == config.thinking_mode,
{
    let mut child_config = config;
    if let Some(model) = model {
        child_config.model = model;
    }
    if let Some(thinking_mode) = thinking_mode {
        child_config.thinking_mode = Some(thinking_mode);
    }
    let snapshot = ThreadSnapshot::new_thread_with_options(
        thread_id.duplicate(),
        child_config.workspace_root.clone(),
        child_config.cwd.clone(),
        child_config.permission_profile,
        ThreadSource::Subagent,
        Some(lineage.duplicate()),
    );
    SpawnPlan {
        config: child_config,
        snapshot,
        edge: ThreadSpawnEdge {
            parent_thread_id: lineage.parent_thread_id.duplicate(),
            child_thread_id: thread_id.duplicate(),
            root_thread_id: lineage.root_thread_id.duplicate(),
            agent_path: lineage.agent_path.clone(),
            status: SpawnEdgeStatus::Open,
        },
        read_parent_history: forks_turns,
    }
}

/// The answer to an agent that was spawned.
#[derive(Debug, Clone, PartialEq, Eq)]
pub struct SpawnAgentResponse {
    pub thread_id: ThreadId,
    pub parent_thread_id: ThreadId,
    pub root_thread_id: ThreadId,
    pub turn_id: TurnId,
    pub task_name: String,
    pub message_preview: String,
    pub depth: u32,
}

/// The answer to an agent that was spawned, from how its first turn was taken: one that was turned
/// down names the agent, which is then closed.
pub fn spawn_agent_response(
    thread_id: ThreadId,
    lineage: ThreadLineage,
    submitted: Result<TurnId, String>,
    message_preview: String,
) -> (res: Result<SpawnAgentResponse, AppServerError>)
    ensures
        res == match submitted {
            Ok(turn_id) => Ok::<SpawnAgentResponse, AppServerError>(
                SpawnAgentResponse {
                    thread_id,
                    parent_thread_id: lineage.parent_thread_id,
                    root_thread_id: lineage.root_thread_id,
                    turn_id,
                    task_name: lineage.agent_path,
                    message_preview,
                    depth: lineage.depth,
                },
            ),
            Err(reason) => Err::<SpawnAgentResponse, AppServerError>(
                AppServerError::TurnRejected { thread_id, reason },
            ),
        },
        res is Ok <==> submitted is Ok,
        res matches Ok(response) ==> response.thread_id == thread_id && response.depth
            == lineage.depth,
{
    match submitted {
        Ok(turn_id) => Ok(
            SpawnAgentResponse {
                thread_id,
                parent_thread_id: lineage.parent_thread_id,
                root_thread_id: lineage.root_thread_id,
                turn_id,
                task_name: lineage.agent_path,
                message_preview,
                depth: lineage.depth,
            },
        ),
        Err(reason) => Err(AppServerError::TurnRejected { thread_id, reason }),
    }
}

/// A message from one agent to another.
#[derive(Debug, Clone, PartialEq, Eq)]
pub struct InterAgentCommunication {
    pub author_thread_id: ThreadId,
    pub recipient_thread_id: ThreadId,
    pub author_path: String,
    pub recipient_path: String,
    pub content: String,
}

/// The answer to a message that was delivered.
#[derive(Debug, Clone, PartialEq, Eq)]
pub struct SendMessageResponse {
    pub mail: InterAgentCommunication,
    pub followup: bool,
    pub started_turn_id: Option<TurnId>,
    pub target_busy: bool,
}

/// The thread that a message goes to must be loaded or stored. Tells whether it has to be loaded.
pub fn recipient_to_load(
    mail: &InterAgentCommunication,
    loaded: bool,
    stored: bool,
) -> (res: Result<bool, AppServerError>)
    ensures
        match res {
            Ok(load) => (loaded || stored) && load == !loaded,
            Err(error) => !loaded && !stored && error.is_not_found(mail.recipient_thread_id@),
        },
        res is Err <==> !loaded && !stored,
        loaded ==> (res matches Ok(load) && !load),
{
    if loaded {
        Ok(false)
    } else if stored {
        Ok(true)
    } else {
        Err(AppServerError::ThreadNotFound(mail.recipient_thread_id.duplicate()))
    }
}

/// What follows the delivery of a message.
#[derive(Debug, Clone, PartialEq, Eq)]
pub enum FollowupStep {
    /// Nothing.
    Rest,
    /// The recipient runs a turn and finds the message there.
    Busy,
    /// The recipient starts a turn on this prompt.
    Submit { prompt: String },
}

/// What follows the delivery of a message: a recipient that is to follow it up starts a turn,
/// unless it runs one.
pub fn followup_step(followup: bool, author_path: &str, recipient_active: bool) -> (res:
    FollowupStep)
    ensures
        match res {
            FollowupStep::Rest => !followup,
            FollowupStep::Busy => followup && recipient_active,
            FollowupStep::Submit { prompt } => {
                &&& followup
                &&& !recipient_active
                &&& prompt@ == "Process the pending inter-agent message from "@ + author_path@
                    + "."@
            },
        },
        res is Rest <==> !followup,
        res is Submit <==> followup && !recipient_active,
{
    if !followup {
        FollowupStep::Rest
    } else if recipient_active {
        FollowupStep::Busy
    } else {
        FollowupStep::Submit { prompt: followup_task_prompt(author_path) }
    }
}

/// How the turn that follows a message was taken.
pub enum FollowupOutcome {
    /// None was started.
    Rest,
    /// The recipient runs a turn.
    Busy,
    /// The turn was started.
    Started(TurnId),
    /// The turn was turned down, with this message.
    Refused(String),
}

/// Whether a refusal says that the recipient runs a turn.
pub open spec fn says_busy(message: Seq<char>) -> bool {
    text::has_part(message, "thread is busy"@)
}

/// The answer to a message that was delivered. A recipient that is busy finds the message later;
/// any other refusal is handed back.
pub fn deliver_inter_agent_message(
    mail: InterAgentCommunication,
    followup: bool,
    outcome: FollowupOutcome,
) -> (res: Result<SendMessageResponse, String>)
    ensures
        match outcome {
            FollowupOutcome::Refused(message) if !says_busy(message@) => res == Err::<
                SendMessageResponse,
                String,
            >(message),
            _ => res == Ok::<SendMessageResponse, String>(
                SendMessageResponse {
                    mail,
                    followup,
                    started_turn_id: match outcome {
                        FollowupOutcome::Started(turn_id) => Some(turn_id),
                        _ => None,
                    },
                    target_busy: outcome is Busy || outcome is Refused,
                },
            ),
        },
        res matches Ok(response) ==> {
            &&& response.mail == mail
            &&& response.followup == followup
            &&& response.started_turn_id is Some <==> outcome is Started
            &&& response.target_busy <==> outcome is Busy || outcome is Refused
        },
        outcome !is Refused ==> res is Ok,
{
    let (started_turn_id, target_busy) = match outcome {
        FollowupOutcome::Rest => (None, false),
        FollowupOutcome::Busy => (None, true),
        FollowupOutcome::Started(turn_id) => (Some(turn_id), false),
        FollowupOutcome::Refused(message) => {
            if !text::contains(message.as_str(), "thread is busy") {
                return Err(message);
            }
            (None, true)
        },
    };
    Ok(SendMessageResponse { mail, followup, started_turn_id, target_busy })
}

/// An agent that is closed.
#[derive(Debug, Clone, PartialEq, Eq)]
pub struct ClosedAgent {
    pub thread_id: ThreadId,
    pub agent_path: String,
}

/// The answer to agents that were closed.
#[derive(Debug, Clone, PartialEq, Eq)]
pub struct CloseAgentResponse {
    pub parent_thread_id: ThreadId,
    pub root_thread_id: ThreadId,
    pub closed_agents: Vec<ClosedAgent>,
}

/// The answer to agents that were closed: all that were to be.
pub fn close_agents_response(
    parent_thread_id: ThreadId,
    root_thread_id: ThreadId,
    targets: Vec<ClosedAgent>,
) -> (res: CloseAgentResponse)
    ensures
        res == (CloseAgentResponse { parent_thread_id, root_thread_id, closed_agents: targets }),
{
    CloseAgentResponse { parent_thread_id, root_thread_id, closed_agents: targets }
}

/// An agent that is read back knows of itself.
pub proof fn requested_is_registered(
    requested_thread_id: Seq<char>,
    requested: StoredThreadState,
    root: Option<StoredThreadState>,
    children: Seq<Option<StoredThreadState>>,
)
    ensures
        registered(requested_thread_id, requested, root, children).contains(requested.snapshot),
{
    let all = registered(requested_thread_id, requested, root, children);
    let head = registered(requested_thread_id, requested, root, Seq::empty());
    assert(all[head.len() - 1] == requested.snapshot);
}

} // verus!
