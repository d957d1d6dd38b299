//! The runtime of a thread: one turn at a time, with a way to interrupt it.
use vstd::prelude::*;

use crate::config::{AgentConfig, ResolvedModelConfig, ThinkingMode};
use crate::data::{Alike, Duplicate};
use crate::error::AppServerError;
use crate::events::{RuntimeEvent, RuntimeEventKind};
use crate::ids::{ApprovalId, ThreadId, TurnId};
use crate::protocol::TurnMode;
use crate::text;
use crate::types::{ApprovalStatus, AssistantTurn};

verus! {

/// How many operations can wait for a thread.
pub const THREAD_OP_CHANNEL_CAPACITY: usize = 64;

/// How many events can wait for a listener.
pub const THREAD_EVENT_CHANNEL_CAPACITY: usize = 256;

/// What the runtime of a thread is at.
#[derive(Debug, Clone, Copy, PartialEq, Eq, Structural)]
pub enum ThreadRuntimeStatus {
    Idle,
    Running,
    Stopped,
}

/// Settings for one turn.
#[derive(Debug, Clone, PartialEq, Eq)]
pub struct ThreadTurnContext {
    pub cwd: Option<String>,
    pub resolved_model: Option<ResolvedModelConfig>,
    pub thinking_mode: Option<ThinkingMode>,
    pub clear_thinking_mode: bool,
    pub turn_mode: TurnMode,
}

/// An operation on a thread.
#[derive(Debug, Clone, PartialEq, Eq)]
pub enum ThreadOp {
    UserInput { turn_id: TurnId, prompt: String, turn_context: Option<ThreadTurnContext> },
    Interrupt { turn_id: Option<TurnId> },
    Shutdown,
}

/// How an operation on a thread ended.
#[derive(Debug, Clone, PartialEq, Eq)]
pub enum ThreadOpResult {
    UserInput { turn_id: TurnId, final_turn: AssistantTurn },
    Interrupted { turn_id: TurnId },
    ApprovalDecision { turn_id: TurnId, approval_id: ApprovalId, status: ApprovalStatus },
    Ack,
}

/// Why the runtime of a thread turned an operation down.
#[derive(Debug, Clone, PartialEq, Eq)]
pub enum ThreadRuntimeError {
    ThreadBusy(ThreadId),
    TurnRejected { thread_id: ThreadId, reason: String },
    TurnInterrupted { thread_id: ThreadId, turn_id: TurnId },
}

/// Why an operation on a thread failed.
#[derive(Debug, Clone, PartialEq, Eq)]
pub enum ThreadFault {
    NoActiveTurn,
    NoAgentFactory,
    Agent(String),
    Refused(AppServerError),
}

impl ThreadFault {
    /// The fault in words.
    pub fn message(&self) -> (res: String)
        ensures
            res@ == match *self {
                ThreadFault::NoActiveTurn => "thread has no active turn"@,
                ThreadFault::NoAgentFactory => "thread runtime has no agent factory"@,
                ThreadFault::Agent(message) => message@,
                ThreadFault::Refused(error) => error.words(),
            },
    {
        match self {
            ThreadFault::NoActiveTurn => "thread has no active turn".to_owned(),
            ThreadFault::NoAgentFactory => "thread runtime has no agent factory".to_owned(),
            ThreadFault::Agent(message) => message.clone(),
            ThreadFault::Refused(error) => error.message(),
        }
    }
}

/// What the runtime of a thread is started with. `F` makes the agents that run its turns.
pub struct ThreadRuntimeOptions<F> {
    pub thread_id: ThreadId,
    pub config: AgentConfig,
    pub agent_factory: Option<F>,
}

impl<F> ThreadRuntimeOptions<F> {
    /// Options without a way to make agents.
    pub fn new(thread_id: ThreadId, config: AgentConfig) -> (res: Self)
        ensures
            res.thread_id == thread_id,
            res.config == config,
            res.agent_factory is None,
    {
        ThreadRuntimeOptions { thread_id, config, agent_factory: None }
    }

    /// The options with this way to make agents.
    pub fn with_agent_factory(self, agent_factory: F) -> (res: Self)
        ensures
            res.thread_id == self.thread_id,
            res.config == self.config,
            res.agent_factory == Some(agent_factory),
    {
        ThreadRuntimeOptions {
            thread_id: self.thread_id,
            config: self.config,
            agent_factory: Some(agent_factory),
        }
    }

    /// The way to make agents, without which no turn can run.
    pub fn require_agent_factory(&self) -> (res: Result<&F, ThreadFault>)
        ensures
            match self.agent_factory {
                Some(factory) => res matches Ok(found) && *found == factory,
                None => res matches Err(fault) && fault is NoAgentFactory,
            },
    {
        match &self.agent_factory {
            Some(factory) => Ok(factory),
            None => Err(ThreadFault::NoAgentFactory),
        }
    }
}

/// A turn that is running, and whether it can still be interrupted.
#[derive(Debug, Clone, PartialEq, Eq)]
pub struct ActiveRuntimeTurn {
    pub turn_id: TurnId,
    pub interruptible: bool,
}

/// The turn that a thread is running, if there is one.
#[derive(Debug, Clone, PartialEq, Eq)]
pub struct ActiveTurnSlot {
    pub thread_id: ThreadId,
    pub active_turn: Option<ActiveRuntimeTurn>,
}

impl ActiveTurnSlot {
    /// With this turn running.
    pub open spec fn reserved(self, turn_id: TurnId) -> Self {
        ActiveTurnSlot {
            active_turn: Some(ActiveRuntimeTurn { turn_id, interruptible: true }),
            ..self
        }
    }

    /// With no turn running.
    pub open spec fn released(self) -> Self {
        ActiveTurnSlot { active_turn: None, ..self }
    }

    /// Whether the running turn can be interrupted by a request that names this turn, if any.
    pub open spec fn may_interrupt(self, requested: Option<Seq<char>>) -> bool {
        self.active_turn matches Some(turn) && turn.interruptible && (requested matches Some(id)
            ==> id == turn.turn_id@)
    }

    /// With the running turn interrupted.
    pub open spec fn interrupted(self) -> Self {
        ActiveTurnSlot {
            active_turn: match self.active_turn {
                Some(turn) => Some(ActiveRuntimeTurn { interruptible: false, ..turn }),
                None => None,
            },
            ..self
        }
    }

    /// A turn that has ended leaves the slot as it was before the turn.
    pub proof fn release_undoes_reserve(self, turn_id: TurnId)
        requires
            self.active_turn is None,
        ensures
            self.reserved(turn_id).released() == self,
    {
    }

    /// A turn is interrupted once: a second request is turned down.
    pub proof fn turns_are_interrupted_once(self, requested: Option<Seq<char>>)
        ensures
            !self.interrupted().may_interrupt(requested),
    {
    }

    /// The slot of a thread that runs nothing.
    pub fn new(thread_id: ThreadId) -> (res: Self)
        ensures
            res.thread_id == thread_id,
            res.active_turn is None,
    {
        ActiveTurnSlot { thread_id, active_turn: None }
    }

    /// Makes this the running turn. A thread that runs a turn is busy.
    pub fn reserve_active_turn(&mut self, turn_id: TurnId) -> (res: Result<(), AppServerError>)
        ensures
            match res {
                Ok(_) => {
                    &&& old(self).active_turn is None
                    &&& *final(self) == old(self).reserved(turn_id)
                },
                Err(error) => {
                    &&& old(self).active_turn is Some
                    &&& *final(self) == *old(self)
                    &&& error matches AppServerError::ThreadBusy(thread_id)
                    &&& thread_id@ == old(self).thread_id@
                },
            },
    {
        if self.active_turn.is_some() {
            return Err(AppServerError::ThreadBusy(self.thread_id.duplicate()));
        }
        self.active_turn = Some(ActiveRuntimeTurn { turn_id, interruptible: true });
        Ok(())
    }

    /// Lets go of the running turn.
    pub fn release(&mut self)
        ensures
            *final(self) == old(self).released(),
    {
        self.active_turn = None;
    }

    /// The running turn.
    pub fn active_turn_id(&self) -> (res: Option<TurnId>)
        ensures
            res.deep_view() == match self.active_turn {
                Some(turn) => Some(turn.turn_id@),
                None => None,
            },
    {
        match &self.active_turn {
            Some(turn) => Some(turn.turn_id.duplicate()),
            None => None,
        }
    }

    /// Interrupts the running turn, once. Where the request names a turn, it must be the running
    /// one.
    pub fn interrupt_active_turn(&mut self, requested_turn_id: Option<&TurnId>) -> (res: Result<
        TurnId,
        ThreadFault,
    >)
        ensures
            ({
                let requested = match requested_turn_id {
                    Some(id) => Some(id@),
                    None => None,
                };
                if old(self).may_interrupt(requested) {
                    &&& res matches Ok(interrupted)
                    &&& interrupted@ == old(self).active_turn->0.turn_id@
                    &&& *final(self) == old(self).interrupted()
                } else {
                    &&& *final(self) == *old(self)
                    &&& match old(self).active_turn {
                        None => res matches Err(fault) && fault is NoActiveTurn,
                        Some(turn) => {
                            &&& res matches Err(ThreadFault::Refused(error))
                            &&& error.is_rejected(
                                old(self).thread_id@,
                                if requested matches Some(id) && id != turn.turn_id@ {
                                    "active turn is "@ + turn.turn_id@
                                } else {
                                    "active turn is already interrupting or completed"@
                                },
                            )
                        },
                    }
                }
            }),
    {
        let thread_id = self.thread_id.duplicate();
        match &mut self.active_turn {
            None => Err(ThreadFault::NoActiveTurn),
            Some(turn) => {
                if let Some(requested) = requested_turn_id {
                    if !requested.alike(&turn.turn_id) {
                        let reason = text::concat2("active turn is ", turn.turn_id.as_str());
                        return Err(
                            ThreadFault::Refused(
                                AppServerError::TurnRejected { thread_id, reason },
                            ),
                        );
                    }
                }
                if !turn.interruptible {
                    let reason = "active turn is already interrupting or completed".to_owned();
                    return Err(
                        ThreadFault::Refused(AppServerError::TurnRejected { thread_id, reason }),
                    );
                }
                turn.interruptible = false;
                Ok(turn.turn_id.duplicate())
            },
        }
    }

    /// What comes of interrupting a turn: one that has stopped listening was too far gone.
    pub fn interrupt_sent(&self, turn_id: TurnId, heard: bool) -> (res: Result<TurnId, ThreadFault>)
        ensures
            if heard {
                res == Ok::<TurnId, ThreadFault>(turn_id)
            } else {
                &&& res matches Err(ThreadFault::Refused(error))
                &&& error.is_rejected(
                    self.thread_id@,
                    "active turn is already interrupting or completed"@,
                )
            },
    {
        if heard {
            Ok(turn_id)
        } else {
            Err(
                ThreadFault::Refused(
                    AppServerError::TurnRejected {
                        thread_id: self.thread_id.duplicate(),
                        reason: "active turn is already interrupting or completed".to_owned(),
                    },
                ),
            )
        }
    }
}

/// What the loop of a thread does with an operation.
#[derive(Debug, PartialEq, Eq)]
pub enum ThreadLoopStep {
    /// Run the turn, then answer with its outcome.
    RunTurn { turn_id: TurnId, prompt: String, turn_context: Option<ThreadTurnContext> },
    /// Answer, and take the next operation.
    Answer(Result<ThreadOpResult, ThreadFault>),
    /// Answer, and stop.
    AnswerAndStop(ThreadOpResult),
}

/// What the loop of a thread does with an operation. An interrupt that reaches the loop found no
/// turn running: it is answered with the turn that it names.
pub fn thread_loop_step(op: ThreadOp) -> (res: ThreadLoopStep)
    ensures
        res == match op {
            ThreadOp::Shutdown => ThreadLoopStep::AnswerAndStop(ThreadOpResult::Ack),
            ThreadOp::UserInput { turn_id, prompt, turn_context } => ThreadLoopStep::RunTurn {
                turn_id,
                prompt,
                turn_context,
            },
            ThreadOp::Interrupt { turn_id: Some(turn_id) } => ThreadLoopStep::Answer(
                Ok(ThreadOpResult::Interrupted { turn_id }),
            ),
            ThreadOp::Interrupt { turn_id: None } => ThreadLoopStep::Answer(
                Err(ThreadFault::NoActiveTurn),
            ),
        },
        res is AnswerAndStop <==> op is Shutdown,
        res is RunTurn <==> op is UserInput,
        op matches ThreadOp::UserInput { turn_id: asked, .. } ==> (res matches
            ThreadLoopStep::RunTurn { turn_id, .. } && turn_id == asked),
{
    match op {
        ThreadOp::Shutdown => ThreadLoopStep::AnswerAndStop(ThreadOpResult::Ack),
        ThreadOp::UserInput { turn_id, prompt, turn_context } => ThreadLoopStep::RunTurn {
            turn_id,
            prompt,
            turn_context,
        },
        ThreadOp::Interrupt { turn_id } => match turn_id {
            Some(turn_id) => ThreadLoopStep::Answer(Ok(ThreadOpResult::Interrupted { turn_id })),
            None => ThreadLoopStep::Answer(Err(ThreadFault::NoActiveTurn)),
        },
    }
}

/// The status of a runtime while the loop carries out a step: it runs during a turn, is idle
/// otherwise, and stops for good.
pub fn status_during(step: &ThreadLoopStep) -> (res: ThreadRuntimeStatus)
    ensures
        res == match *step {
            ThreadLoopStep::RunTurn { .. } => ThreadRuntimeStatus::Running,
            ThreadLoopStep::Answer(_) => ThreadRuntimeStatus::Idle,
            ThreadLoopStep::AnswerAndStop(_) => ThreadRuntimeStatus::Stopped,
        },
        res is Running <==> step is RunTurn,
        res is Stopped <==> step is AnswerAndStop,
{
    match step {
        ThreadLoopStep::RunTurn { .. } => ThreadRuntimeStatus::Running,
        ThreadLoopStep::Answer(_) => ThreadRuntimeStatus::Idle,
        ThreadLoopStep::AnswerAndStop(_) => ThreadRuntimeStatus::Stopped,
    }
}

/// How the agent of a turn came back.
pub enum AgentOutcome {
    Finished(AssistantTurn),
    Failed(String),
    Interrupted,
}

/// How a turn ends: whether the events that the agent recorded are sent on first, the event that
/// is recorded and sent last, whether the one who interrupted is told, and the answer.
pub struct TurnEnd {
    pub forward_recorded_events: bool,
    pub last_event: RuntimeEventKind,
    pub notify_interrupter: bool,
    pub result: Result<ThreadOpResult, ThreadFault>,
}

/// How a turn ends, by how its agent came back.
pub fn run_user_input_inner(thread_id: ThreadId, turn_id: TurnId, outcome: AgentOutcome) -> (res:
    TurnEnd)
    ensures
        match outcome {
            AgentOutcome::Finished(final_turn) => {
                &&& res.forward_recorded_events
                &&& res.last_event is TurnCompleted
                &&& !res.notify_interrupter
                &&& res.result == Ok::<ThreadOpResult, ThreadFault>(
                    ThreadOpResult::UserInput { turn_id, final_turn },
                )
            },
            AgentOutcome::Failed(message) => {
                &&& res.forward_recorded_events
                &&& res.last_event == (RuntimeEventKind::RuntimeError { message })
                &&& !res.notify_interrupter
                &&& res.result == Err::<ThreadOpResult, ThreadFault>(ThreadFault::Agent(message))
            },
            AgentOutcome::Interrupted => {
                &&& !res.forward_recorded_events
                &&& res.last_event is TurnInterrupted
                &&& res.notify_interrupter
                &&& res.result == Err::<ThreadOpResult, ThreadFault>(
                    ThreadFault::Refused(AppServerError::TurnInterrupted { thread_id, turn_id }),
                )
            },
        },
        res.result is Ok <==> outcome is Finished,
        res.notify_interrupter <==> outcome is Interrupted,
        res.forward_recorded_events <==> outcome !is Interrupted,
        res.last_event is TurnCompleted <==> outcome is Finished,
        res.last_event is TurnInterrupted <==> outcome is Interrupted,
{
    match outcome {
        AgentOutcome::Finished(final_turn) => TurnEnd {
            forward_recorded_events: true,
            last_event: RuntimeEventKind::TurnCompleted,
            notify_interrupter: false,
            result: Ok(ThreadOpResult::UserInput { turn_id, final_turn }),
        },
        AgentOutcome::Failed(message) => TurnEnd {
            forward_recorded_events: true,
            last_event: RuntimeEventKind::RuntimeError { message: message.clone() },
            notify_interrupter: false,
            result: Err(ThreadFault::Agent(message)),
        },
        AgentOutcome::Interrupted => TurnEnd {
            forward_recorded_events: false,
            last_event: RuntimeEventKind::TurnInterrupted,
            notify_interrupter: true,
            result: Err(
                ThreadFault::Refused(AppServerError::TurnInterrupted { thread_id, turn_id }),
            ),
        },
    }
}

/// Where a turn works, where it is not where its thread does.
pub fn turn_cwd(turn_context: Option<ThreadTurnContext>) -> (res: Option<String>)
    ensures
        res == match turn_context {
            Some(context) => context.cwd,
            None => None,
        },
{
    match turn_context {
        Some(context) => context.cwd,
        None => None,
    }
}

/// The recorded events behind the first `event_count` ones.
pub open spec fn since(events: Seq<RuntimeEvent>, event_count: nat) -> Seq<RuntimeEvent> {
    if event_count <= events.len() {
        events.skip(event_count as int)
    } else {
        Seq::empty()
    }
}

/// The recorded events behind the first `event_count` ones, which were sent on already.
pub fn broadcast_events_since(events: Vec<RuntimeEvent>, event_count: usize) -> (res: Vec<
    RuntimeEvent,
>)
    ensures
        res@ == since(events@, event_count as nat),
{
    let mut events = events;
    if event_count <= events.len() {
        events.split_off(event_count)
    } else {
        Vec::new()
    }
}

/// The events that the agent of a turn recorded are sent on once, in their order: those behind the
/// start of the turn, which was sent on when it was recorded.
pub proof fn events_are_sent_once(
    before: Seq<RuntimeEvent>,
    started: RuntimeEvent,
    by_agent: Seq<RuntimeEvent>,
)
    ensures
        since(before.push(started) + by_agent, before.push(started).len()) == by_agent,
{
    assert((before.push(started) + by_agent).skip(before.push(started).len() as int) =~= by_agent);
}

} // verus!
