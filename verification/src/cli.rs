//! The command line.
use vstd::prelude::*;

use crate::data::{Alike, Duplicate};
use crate::events::{RuntimeEvent, RuntimeEventKind};
use crate::ids::{ThreadId, TurnId};
use crate::protocol::{
    EventsSubscribeParams, ThreadResumeParams, ThreadStartParams, TurnMode, TurnStartParams,
};
use crate::text;

verus! {

/// What the command line asks for.
#[derive(Debug, Clone, PartialEq, Eq)]
pub enum CliCommand {
    Run { prompt: String },
    Resume { thread_id: ThreadId, prompt: String },
    Api { bind_addr: Option<String> },
}

/// What a `CliCommand` holds.
#[verifier::ext_equal]
pub enum CliCommandModel {
    Run { prompt: Seq<char> },
    Resume { thread_id: Seq<char>, prompt: Seq<char> },
    Api { bind_addr: Option<Seq<char>> },
}

impl DeepView for CliCommand {
    type V = CliCommandModel;

    open spec fn deep_view(&self) -> CliCommandModel {
        match *self {
            CliCommand::Run { prompt } => CliCommandModel::Run { prompt: prompt@ },
            CliCommand::Resume { thread_id, prompt } => CliCommandModel::Resume {
                thread_id: thread_id@,
                prompt: prompt@,
            },
            CliCommand::Api { bind_addr } => CliCommandModel::Api {
                bind_addr: bind_addr.deep_view(),
            },
        }
    }
}

/// Why a command line cannot be followed.
#[derive(Debug, Clone, PartialEq, Eq)]
pub struct CliError {
    pub message: String,
}

impl CliError {
    /// The error with these words.
    pub fn of(message: &str) -> (res: Self)
        ensures
            res.message@ == message@,
    {
        CliError { message: message.to_owned() }
    }
}

/// What a command line asks for: to serve, to go on with a thread, or to run a prompt; else what
/// is said of its use.
pub open spec fn command_of(args: Seq<Seq<char>>) -> Result<CliCommandModel, Seq<char>> {
    if args.len() == 0 {
        Err(
            "usage: cargo run -- '<prompt>' | cargo run -- api [bind_addr] | cargo run -- resume <thread_id> '<prompt>'"@,
        )
    } else if args[0] == "api"@ {
        Ok(
            CliCommandModel::Api {
                bind_addr: if args.len() > 1 {
                    Some(args[1])
                } else {
                    None
                },
            },
        )
    } else if args[0] == "resume"@ {
        if args.len() < 3 {
            Err("usage: cargo run -- resume <thread_id> '<prompt>'"@)
        } else if args.len() > 3 {
            Err("resume accepts exactly 2 arguments after the subcommand"@)
        } else {
            Ok(CliCommandModel::Resume { thread_id: args[1], prompt: args[2] })
        }
    } else if args.len() > 1 {
        Err("prompt mode accepts exactly one prompt argument"@)
    } else {
        Ok(CliCommandModel::Run { prompt: args[0] })
    }
}

/// Reads a command line. What stands behind the address of `api` is passed over.
pub fn parse_cli_command(args: Vec<String>) -> (res: Result<CliCommand, CliError>)
    ensures
        match res {
            Ok(command) => command_of(args.deep_view()) == Ok::<CliCommandModel, Seq<char>>(
                command.deep_view(),
            ),
            Err(error) => command_of(args.deep_view()) == Err::<CliCommandModel, Seq<char>>(
                error.message@,
            ),
        },
{
    proof {
        assert(args.deep_view().len() == args@.len());
        assert forall|i: int| 0 <= i < args@.len() implies args.deep_view()[i]
            == #[trigger] args@[i]@ by {}
    }
    if args.len() == 0 {
        return Err(
            CliError::of(
                "usage: cargo run -- '<prompt>' | cargo run -- api [bind_addr] | cargo run -- resume <thread_id> '<prompt>'",
            ),
        );
    }
    if text::same(args[0].as_str(), "api") {
        return Ok(
            CliCommand::Api {
                bind_addr: if args.len() > 1 {
                    Some(args[1].clone())
                } else {
                    None
                },
            },
        );
    }
    if text::same(args[0].as_str(), "resume") {
        if args.len() < 3 {
            return Err(CliError::of("usage: cargo run -- resume <thread_id> '<prompt>'"));
        }
        if args.len() > 3 {
            return Err(CliError::of("resume accepts exactly 2 arguments after the subcommand"));
        }
        return Ok(
            CliCommand::Resume {
                thread_id: ThreadId::new(args[1].as_str()),
                prompt: args[2].clone(),
            },
        );
    }
    if args.len() > 1 {
        return Err(CliError::of("prompt mode accepts exactly one prompt argument"));
    }
    Ok(CliCommand::Run { prompt: args[0].clone() })
}

/// The thread that a command works in.
pub enum CliThread {
    Start(ThreadStartParams),
    Resume(ThreadResumeParams),
}

/// The thread that a command works in, and the prompt that it runs there. Serving is no work in a
/// thread.
pub fn execute_cli_command(command: CliCommand) -> (res: Option<(CliThread, String)>)
    ensures
        res == match command {
            CliCommand::Run { prompt } => Some(
                (
                    CliThread::Start(
                        ThreadStartParams {
                            workspace_root: None,
                            cwd: None,
                            permission_profile: None,
                        },
                    ),
                    prompt,
                ),
            ),
            CliCommand::Resume { thread_id, prompt } => Some(
                (
                    CliThread::Resume(
                        ThreadResumeParams { thread_id, workspace_root: None, cwd: None },
                    ),
                    prompt,
                ),
            ),
            CliCommand::Api { .. } => None,
        },
{
    match command {
        CliCommand::Run { prompt } => Some(
            (
                CliThread::Start(
                    ThreadStartParams { workspace_root: None, cwd: None, permission_profile: None },
                ),
                prompt,
            ),
        ),
        CliCommand::Resume { thread_id, prompt } => Some(
            (
                CliThread::Resume(
                    ThreadResumeParams { thread_id, workspace_root: None, cwd: None },
                ),
                prompt,
            ),
        ),
        CliCommand::Api { .. } => None,
    }
}

/// The events that a command follows: all of its thread.
pub fn cli_subscription(thread_id: &ThreadId) -> (res: EventsSubscribeParams)
    ensures
        res.thread_id@ == thread_id@,
        res.workspace_root is None,
        res.after_event_id is None,
{
    EventsSubscribeParams {
        thread_id: thread_id.duplicate(),
        workspace_root: None,
        after_event_id: None,
    }
}

/// The turn that a command starts: an ordinary one on its prompt.
pub fn cli_turn(thread_id: ThreadId, prompt: String) -> (res: TurnStartParams)
    ensures
        res.thread_id == thread_id,
        res.prompt == prompt,
        res.input@.len() == 0,
        res.workspace_root is None,
        res.turn_mode == TurnMode::Normal,
        res.turn_context is None,
{
    TurnStartParams {
        thread_id,
        prompt,
        input: Vec::new(),
        workspace_root: None,
        turn_mode: TurnMode::Normal,
        turn_context: None,
    }
}

/// What a command prints.
#[derive(Debug, Clone, PartialEq, Eq)]
pub struct CliExecutionOutput {
    pub stdout: String,
}

/// What a command prints: the answer, on a line of its own.
pub fn cli_output(answer: &str) -> (res: CliExecutionOutput)
    ensures
        res.stdout@ == answer@ + "\n"@,
{
    CliExecutionOutput { stdout: text::concat2(answer, "\n") }
}

/// What a command that waits for a turn knows: what the model said last.
pub struct FinalAnswer {
    pub turn_id: TurnId,
    pub last_text: Option<String>,
}

/// How an event moves a command on that waits for a turn.
pub enum AnswerStep {
    /// It goes on waiting.
    Wait,
    /// The turn is complete, with this answer.
    Done(String),
    /// The turn came to nothing, for this reason.
    Failed(String),
}

/// What a command knows and does after an event: events of other turns change nothing, what the
/// model says is kept, and the end of the turn ends the wait.
pub open spec fn after_event(
    turn_id: Seq<char>,
    last_text: Option<String>,
    event: RuntimeEvent,
) -> (Option<String>, Option<Result<Seq<char>, Seq<char>>>) {
    if event.turn_id is None || event.turn_id->0@ != turn_id {
        (last_text, None)
    } else {
        match event.kind {
            RuntimeEventKind::AssistantTurn { turn } => (turn.text, None),
            RuntimeEventKind::TurnCompleted => (
                last_text,
                Some(
                    Ok(
                        match last_text {
                            Some(text) => text@,
                            None => ""@,
                        },
                    ),
                ),
            ),
            RuntimeEventKind::RuntimeError { message } => (last_text, Some(Err(message@))),
            RuntimeEventKind::TurnInterrupted => (last_text, Some(Err("turn interrupted"@))),
            _ => (last_text, None),
        }
    }
}

impl FinalAnswer {
    /// Waits for this turn.
    pub fn new(turn_id: TurnId) -> (res: Self)
        ensures
            res == (FinalAnswer { turn_id, last_text: None }),
    {
        FinalAnswer { turn_id, last_text: None }
    }

    /// Takes in an event.
    pub fn wait_for_final_assistant_text(&mut self, event: RuntimeEvent) -> (res: AnswerStep)
        ensures
            final(self).turn_id == old(self).turn_id,
            ({
                let after = after_event(old(self).turn_id@, old(self).last_text, event);
                &&& final(self).last_text == after.0
                &&& match res {
                    AnswerStep::Wait => after.1 is None,
                    AnswerStep::Done(text) => after.1 == Some(
                        Ok::<Seq<char>, Seq<char>>(text@),
                    ),
                    AnswerStep::Failed(message) => after.1 == Some(
                        Err::<Seq<char>, Seq<char>>(message@),
                    ),
                }
            }),
    {
        let ours = match &event.turn_id {
            Some(turn_id) => turn_id.alike(&self.turn_id),
            None => false,
        };
        if !ours {
            return AnswerStep::Wait;
        }
        match event.kind {
            RuntimeEventKind::AssistantTurn { turn } => {
                self.last_text = turn.text;
                AnswerStep::Wait
            },
            RuntimeEventKind::TurnCompleted => match &self.last_text {
                Some(text) => AnswerStep::Done(text.clone()),
                None => AnswerStep::Done("".to_owned()),
            },
            RuntimeEventKind::RuntimeError { message } => AnswerStep::Failed(message),
            RuntimeEventKind::TurnInterrupted => AnswerStep::Failed("turn interrupted".to_owned()),
            _ => AnswerStep::Wait,
        }
    }
}

/// What a command comes to that waits for a turn while these events arrive: `None` while it goes
/// on waiting.
pub open spec fn outcome_of(
    turn_id: Seq<char>,
    last_text: Option<String>,
    events: Seq<RuntimeEvent>,
) -> Option<Result<Seq<char>, Seq<char>>>
    decreases events.len(),
{
    if events.len() == 0 {
        None
    } else {
        let after = after_event(turn_id, last_text, events[0]);
        match after.1 {
            Some(outcome) => Some(outcome),
            None => outcome_of(turn_id, after.0, events.skip(1)),
        }
    }
}

/// Whether an event is one of this turn.
pub open spec fn of_turn(turn_id: Seq<char>) -> spec_fn(RuntimeEvent) -> bool {
    |event: RuntimeEvent| event.turn_id is Some && event.turn_id->0@ == turn_id
}

/// Events of other turns make no difference to what a command comes to.
pub proof fn other_turns_do_not_matter(
    turn_id: Seq<char>,
    last_text: Option<String>,
    events: Seq<RuntimeEvent>,
)
    ensures
        outcome_of(turn_id, last_text, events) == outcome_of(
            turn_id,
            last_text,
            events.filter(of_turn(turn_id)),
        ),
    decreases events.len(),
{
    reveal(Seq::filter);
    let ours = of_turn(turn_id);
    if events.len() > 0 {
        let rest = events.skip(1);
        filter_first(events, ours);
        let after = after_event(turn_id, last_text, events[0]);
        other_turns_do_not_matter(turn_id, after.0, rest);
        if ours(events[0]) {
            let kept = events.filter(ours);
            assert(kept[0] == events[0]);
            assert(kept.skip(1) =~= rest.filter(ours));
        }
    }
}

/// Filtering keeps the first element where it passes the test, and goes on behind it.
proof fn filter_first<A>(s: Seq<A>, test: spec_fn(A) -> bool)
    requires
        s.len() > 0,
    ensures
        s.filter(test) == if test(s[0]) {
            seq![s[0]] + s.skip(1).filter(test)
        } else {
            s.skip(1).filter(test)
        },
    decreases s.len(),
{
    reveal(Seq::filter);
    if s.len() == 1 {
        assert(s.drop_last() =~= Seq::empty());
        assert(s.skip(1) =~= Seq::empty());
        assert(s.filter(test) =~= if test(s[0]) {
            seq![s[0]] + s.skip(1).filter(test)
        } else {
            s.skip(1).filter(test)
        });
    } else {
        let shorter = s.drop_last();
        filter_first(shorter, test);
        assert(shorter.skip(1) =~= s.skip(1).drop_last());
        assert(s.skip(1).last() == s.last());
        assert(s.filter(test) =~= if test(s[0]) {
            seq![s[0]] + s.skip(1).filter(test)
        } else {
            s.skip(1).filter(test)
        });
    }
}

} // verus!
