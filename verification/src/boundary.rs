//! What the server offers, and how requests run through it.
use vstd::prelude::*;

use crate::config::{PermissionProfile, ThinkingMode};
use crate::error::AppServerError;
use crate::ids::ThreadId;
use crate::override_policy;
use crate::protocol;
use crate::protocol::{
    BoundaryCapability, BoundaryOp, BoundaryOpResponse, InitializeParams, InitializeResponse,
    ThreadResumeParams, ThreadStartParams, TurnContextOverrides, TurnMode,
    TurnStartParams,
};

verus! {

/// The operations that the server takes, in the order in which it names them.
pub open spec fn supported_ops() -> Seq<BoundaryCapability> {
    seq![
        BoundaryCapability::Initialize,
        BoundaryCapability::ThreadStart,
        BoundaryCapability::ThreadResume,
        BoundaryCapability::ThreadRead,
        BoundaryCapability::ThreadFork,
        BoundaryCapability::ThreadCompact,
        BoundaryCapability::ThreadGoal,
        BoundaryCapability::AgentTree,
        BoundaryCapability::ApprovalsList,
        BoundaryCapability::CheckpointRestore,
        BoundaryCapability::TurnStart,
        BoundaryCapability::TurnInterrupt,
        BoundaryCapability::ApprovalDecision,
        BoundaryCapability::SubmitUserInput,
        BoundaryCapability::EventsReplay,
    ]
}

/// Whether `offer` is what the server offers.
pub open spec fn is_offer(offer: InitializeResponse) -> bool {
    &&& offer.protocol_version@ == protocol::BOUNDARY_PROTOCOL_VERSION@
    &&& offer.supported_ops@ == supported_ops()
    &&& offer.supported_streams@ == seq![BoundaryCapability::EventsSubscribe]
    &&& offer.supported_permission_profiles@ == seq![PermissionProfile::FullAccess]
}

/// What the server offers to a client that introduces itself.
pub fn initialize(params: &InitializeParams) -> (res: InitializeResponse)
    ensures
        is_offer(res),
{
    let supported_ops: Vec<BoundaryCapability> = vec![
        BoundaryCapability::Initialize,
        BoundaryCapability::ThreadStart,
        BoundaryCapability::ThreadResume,
        BoundaryCapability::ThreadRead,
        BoundaryCapability::ThreadFork,
        BoundaryCapability::ThreadCompact,
        BoundaryCapability::ThreadGoal,
        BoundaryCapability::AgentTree,
        BoundaryCapability::ApprovalsList,
        BoundaryCapability::CheckpointRestore,
        BoundaryCapability::TurnStart,
        BoundaryCapability::TurnInterrupt,
        BoundaryCapability::ApprovalDecision,
        BoundaryCapability::SubmitUserInput,
        BoundaryCapability::EventsReplay,
    ];
    let supported_streams: Vec<BoundaryCapability> = vec![BoundaryCapability::EventsSubscribe];
    proof {
        assert(supported_ops@ =~= self::supported_ops());
        assert(supported_streams@ =~= seq![BoundaryCapability::EventsSubscribe]);
    }
    InitializeResponse {
        protocol_version: protocol::BOUNDARY_PROTOCOL_VERSION.to_owned(),
        supported_ops,
        supported_streams,
        supported_permission_profiles: PermissionProfile::supported_profiles(),
    }
}

/// What a client must be able to ask for to send this request.
pub open spec fn capability_of(op: BoundaryOp) -> BoundaryCapability {
    match op {
        BoundaryOp::Initialize(_) => BoundaryCapability::Initialize,
        BoundaryOp::ThreadStart(_) => BoundaryCapability::ThreadStart,
        BoundaryOp::ThreadRead(_) => BoundaryCapability::ThreadRead,
        BoundaryOp::ThreadFork(_) => BoundaryCapability::ThreadFork,
        BoundaryOp::ThreadCompact(_) => BoundaryCapability::ThreadCompact,
        BoundaryOp::ThreadResume(_) => BoundaryCapability::ThreadResume,
        BoundaryOp::ThreadGoalSet(_) => BoundaryCapability::ThreadGoal,
        BoundaryOp::ThreadGoalGet(_) => BoundaryCapability::ThreadGoal,
        BoundaryOp::ThreadGoalClear(_) => BoundaryCapability::ThreadGoal,
        BoundaryOp::AgentTree(_) => BoundaryCapability::AgentTree,
        BoundaryOp::ApprovalsList(_) => BoundaryCapability::ApprovalsList,
        BoundaryOp::CheckpointRestore(_) => BoundaryCapability::CheckpointRestore,
        BoundaryOp::TurnStart(_) => BoundaryCapability::TurnStart,
        BoundaryOp::TurnInterrupt(_) => BoundaryCapability::TurnInterrupt,
        BoundaryOp::ApprovalDecision(_) => BoundaryCapability::ApprovalDecision,
        BoundaryOp::SubmitUserInput(_) => BoundaryCapability::SubmitUserInput,
        BoundaryOp::EventsReplay(_) => BoundaryCapability::EventsReplay,
    }
}

/// Every request that the server takes is among those that it names.
pub proof fn every_request_is_offered(op: BoundaryOp)
    ensures
        supported_ops().contains(capability_of(op)),
{
    let ops = supported_ops();
    let wanted = capability_of(op);
    assert(exists|i: int| 0 <= i < ops.len() && ops[i] == wanted) by {
        assert(ops[0] == BoundaryCapability::Initialize);
        assert(ops[1] == BoundaryCapability::ThreadStart);
        assert(ops[2] == BoundaryCapability::ThreadResume);
        assert(ops[3] == BoundaryCapability::ThreadRead);
        assert(ops[4] == BoundaryCapability::ThreadFork);
        assert(ops[5] == BoundaryCapability::ThreadCompact);
        assert(ops[6] == BoundaryCapability::ThreadGoal);
        assert(ops[7] == BoundaryCapability::AgentTree);
        assert(ops[8] == BoundaryCapability::ApprovalsList);
        assert(ops[9] == BoundaryCapability::CheckpointRestore);
        assert(ops[10] == BoundaryCapability::TurnStart);
        assert(ops[11] == BoundaryCapability::TurnInterrupt);
        assert(ops[12] == BoundaryCapability::ApprovalDecision);
        assert(ops[13] == BoundaryCapability::SubmitUserInput);
        assert(ops[14] == BoundaryCapability::EventsReplay);
    }
}

/// Every operation that the server names is that of some request: nothing is offered that cannot
/// be asked for.
pub proof fn every_offer_can_be_asked_for(i: int)
    requires
        0 <= i < supported_ops().len(),
    ensures
        exists|op: BoundaryOp| #[trigger] capability_of(op) == supported_ops()[i],
{
    let initialize: InitializeParams = arbitrary();
    let op = match supported_ops()[i] {
        BoundaryCapability::ThreadStart => BoundaryOp::ThreadStart(arbitrary()),
        BoundaryCapability::ThreadResume => BoundaryOp::ThreadResume(arbitrary()),
        BoundaryCapability::ThreadRead => BoundaryOp::ThreadRead(arbitrary()),
        BoundaryCapability::ThreadFork => BoundaryOp::ThreadFork(arbitrary()),
        BoundaryCapability::ThreadCompact => BoundaryOp::ThreadCompact(arbitrary()),
        BoundaryCapability::ThreadGoal => BoundaryOp::ThreadGoalGet(arbitrary()),
        BoundaryCapability::AgentTree => BoundaryOp::AgentTree(arbitrary()),
        BoundaryCapability::ApprovalsList => BoundaryOp::ApprovalsList(arbitrary()),
        BoundaryCapability::CheckpointRestore => BoundaryOp::CheckpointRestore(arbitrary()),
        BoundaryCapability::TurnStart => BoundaryOp::TurnStart(arbitrary()),
        BoundaryCapability::TurnInterrupt => BoundaryOp::TurnInterrupt(arbitrary()),
        BoundaryCapability::ApprovalDecision => BoundaryOp::ApprovalDecision(arbitrary()),
        BoundaryCapability::SubmitUserInput => BoundaryOp::SubmitUserInput(arbitrary()),
        BoundaryCapability::EventsReplay => BoundaryOp::EventsReplay(arbitrary()),
        _ => BoundaryOp::Initialize(initialize),
    };
    assert(capability_of(op) == supported_ops()[i]);
}

/// Whether an answer is of the kind that a request is answered with.
pub open spec fn is_answer(op: BoundaryOp, response: BoundaryOpResponse) -> bool {
    match op {
        BoundaryOp::Initialize(_) => response is Initialized,
        BoundaryOp::ThreadStart(_) => response is ThreadStarted,
        BoundaryOp::ThreadRead(_) => response is ThreadRead,
        BoundaryOp::ThreadFork(_) => response is ThreadFork,
        BoundaryOp::ThreadCompact(_) => response is ThreadCompacted,
        BoundaryOp::ThreadResume(_) => response is ThreadResumed,
        BoundaryOp::ThreadGoalSet(_) => response is ThreadGoalSet,
        BoundaryOp::ThreadGoalGet(_) => response is ThreadGoalGet,
        BoundaryOp::ThreadGoalClear(_) => response is ThreadGoalCleared,
        BoundaryOp::AgentTree(_) => response is AgentTree,
        BoundaryOp::ApprovalsList(_) => response is ApprovalsList,
        BoundaryOp::CheckpointRestore(_) => response is CheckpointRestored,
        BoundaryOp::TurnStart(_) => response is TurnStarted,
        BoundaryOp::TurnInterrupt(_) => response is TurnInterrupted,
        BoundaryOp::ApprovalDecision(_) => response is ApprovalDecisionSubmitted,
        BoundaryOp::SubmitUserInput(_) => response is UserInputSubmitted,
        BoundaryOp::EventsReplay(_) => response is EventsReplayed,
    }
}

/// Whether an answer is of the kind that a request is answered with.
pub fn answers(op: &BoundaryOp, response: &BoundaryOpResponse) -> (res: bool)
    ensures
        res == is_answer(*op, *response),
{
    match (op, response) {
        (BoundaryOp::Initialize(_), BoundaryOpResponse::Initialized(_)) => true,
        (BoundaryOp::ThreadStart(_), BoundaryOpResponse::ThreadStarted(_)) => true,
        (BoundaryOp::ThreadRead(_), BoundaryOpResponse::ThreadRead(_)) => true,
        (BoundaryOp::ThreadFork(_), BoundaryOpResponse::ThreadFork(_)) => true,
        (BoundaryOp::ThreadCompact(_), BoundaryOpResponse::ThreadCompacted(_)) => true,
        (BoundaryOp::ThreadResume(_), BoundaryOpResponse::ThreadResumed(_)) => true,
        (BoundaryOp::ThreadGoalSet(_), BoundaryOpResponse::ThreadGoalSet(_)) => true,
        (BoundaryOp::ThreadGoalGet(_), BoundaryOpResponse::ThreadGoalGet(_)) => true,
        (BoundaryOp::ThreadGoalClear(_), BoundaryOpResponse::ThreadGoalCleared(_)) => true,
        (BoundaryOp::AgentTree(_), BoundaryOpResponse::AgentTree(_)) => true,
        (BoundaryOp::ApprovalsList(_), BoundaryOpResponse::ApprovalsList(_)) => true,
        (BoundaryOp::CheckpointRestore(_), BoundaryOpResponse::CheckpointRestored(_)) => true,
        (BoundaryOp::TurnStart(_), BoundaryOpResponse::TurnStarted(_)) => true,
        (BoundaryOp::TurnInterrupt(_), BoundaryOpResponse::TurnInterrupted(_)) => true,
        (
            BoundaryOp::ApprovalDecision(_),
            BoundaryOpResponse::ApprovalDecisionSubmitted(_),
        ) => true,
        (BoundaryOp::SubmitUserInput(_), BoundaryOpResponse::UserInputSubmitted(_)) => true,
        (BoundaryOp::EventsReplay(_), BoundaryOpResponse::EventsReplayed(_)) => true,
        _ => false,
    }
}

/// How a request is handled.
#[derive(Debug, PartialEq, Eq)]
pub enum BoundaryStep {
    /// It is answered at once.
    Answer(BoundaryOpResponse),
    /// It is carried out, and answered with what came of it.
    Perform(BoundaryOp),
}

/// How a request is handled: a client that introduces itself is told what the server offers, and
/// every other request is carried out.
pub fn submit_boundary_op(op: BoundaryOp) -> (res: BoundaryStep)
    ensures
        match op {
            BoundaryOp::Initialize(_) => {
                &&& res matches BoundaryStep::Answer(response)
                &&& response matches BoundaryOpResponse::Initialized(offer)
                &&& is_offer(offer)
                &&& is_answer(op, response)
            },
            _ => res == BoundaryStep::Perform(op),
        },
        res is Answer <==> op is Initialize,
        res matches BoundaryStep::Perform(asked) ==> asked == op,
{
    match op {
        BoundaryOp::Initialize(params) => BoundaryStep::Answer(
            BoundaryOpResponse::Initialized(initialize(&params)),
        ),
        other => BoundaryStep::Perform(other),
    }
}

/// Which thread a run goes to.
pub enum RunThread {
    /// The named thread is taken up again.
    Resume(ThreadResumeParams),
    /// A thread is started.
    Start(ThreadStartParams),
}

/// Which thread a run goes to: the named one, or else a new one. A permission profile that is not
/// supported is turned down here for a named thread; a new one is asked for with it.
pub fn run_thread(
    thread_id: Option<ThreadId>,
    workspace_root: Option<String>,
    cwd: Option<String>,
    permission_profile: Option<PermissionProfile>,
) -> (res: Result<RunThread, AppServerError>)
    ensures
        match thread_id {
            Some(thread_id) => if permission_profile is Some && !permission_profile->0.supported() {
                res matches Err(error) && override_policy::is_unsupported(
                    error,
                    permission_profile->0,
                )
            } else {
                res == Ok::<RunThread, AppServerError>(
                    RunThread::Resume(ThreadResumeParams { thread_id, workspace_root, cwd }),
                )
            },
            None => res == Ok::<RunThread, AppServerError>(
                RunThread::Start(ThreadStartParams { workspace_root, cwd, permission_profile }),
            ),
        },
        res matches Ok(step) ==> (step is Resume <==> thread_id is Some),
        res is Err ==> thread_id is Some && permission_profile is Some,
        permission_profile is None ==> res is Ok,
{
    match thread_id {
        Some(thread_id) => {
            if let Some(permission_profile) = permission_profile {
                match override_policy::ensure_supported_permission_profile(permission_profile) {
                    Ok(_) => {},
                    Err(error) => return Err(error),
                }
            }
            Ok(RunThread::Resume(ThreadResumeParams { thread_id, workspace_root, cwd }))
        },
        None => Ok(
            RunThread::Start(ThreadStartParams { workspace_root, cwd, permission_profile }),
        ),
    }
}

/// The turn that a run starts in its thread: an ordinary one on the prompt, with the thinking mode
/// that was asked for, if any.
pub fn run_turn(
    thread_id: ThreadId,
    prompt: String,
    workspace_root: Option<String>,
    thinking_mode: Option<ThinkingMode>,
) -> (res: TurnStartParams)
    ensures
        res.thread_id == thread_id,
        res.prompt == prompt,
        res.input@.len() == 0,
        res.workspace_root == workspace_root,
        res.turn_mode == TurnMode::Normal,
        res.turn_context == match thinking_mode {
            Some(mode) => Some(
                TurnContextOverrides {
                    cwd: None,
                    model: None,
                    thinking_mode: Some(mode),
                    clear_thinking_mode: false,
                },
            ),
            None => None,
        },
        res.turn_context is Some <==> thinking_mode is Some,
        res.turn_context matches Some(context) ==> context.thinking_mode == thinking_mode,
{
    TurnStartParams {
        thread_id,
        prompt,
        input: Vec::new(),
        workspace_root,
        turn_mode: TurnMode::Normal,
        turn_context: match thinking_mode {
            Some(mode) => Some(
                TurnContextOverrides {
                    cwd: None,
                    model: None,
                    thinking_mode: Some(mode),
                    clear_thinking_mode: false,
                },
            ),
            None => None,
        },
    }
}

} // verus!
