//! How command lines are read, what is printed in the end, how commands and workflows go, and which
//! reply belongs to which request.
use vstd::prelude::*;

use crate::boundary;
use crate::cli;
use crate::desktop;
use crate::events::RuntimeEvent;
use crate::exec_session::{ExecSessionState, ExecSessionStatus};
use crate::protocol::{BoundaryOp, BoundaryOpResponse};
use crate::session_cli;
use crate::text;
use crate::text_laws;
use crate::threads::ThreadForkEdge;
use crate::workflow;
use crate::workflow::{WorkflowRunStatus, WorkflowTemplateId};

verus! {

/// Whether the first word of a command line is this one.
pub open spec fn begins_with(args: Seq<Seq<char>>, word: Seq<char>) -> bool {
    args.len() > 0 && args[0] == word
}

/// A command line is followed exactly where it asks for the server, resumes a thread with one
/// prompt, or is one prompt and nothing else. What is asked for stands in it word for word: a thread
/// is named before its prompt.
pub proof fn command_lines_are_followed(args: Seq<Seq<char>>)
    ensures
        ({
            let read = cli::command_of(args);
            let api = begins_with(args, "api"@);
            let resume = begins_with(args, "resume"@);
            &&& read is Ok <==> api || resume && args.len() == 3 || !api && !resume && args.len()
                == 1
            &&& read matches Ok(command) ==> {
                &&& command is Api <==> api
                &&& command is Resume <==> resume
                &&& command matches cli::CliCommandModel::Api { bind_addr } ==> (bind_addr is None
                    <==> args.len() == 1) && (bind_addr matches Some(addr) ==> addr == args[1])
                &&& command matches cli::CliCommandModel::Resume { thread_id, prompt } ==> args
                    =~= seq!["resume"@, thread_id, prompt]
                &&& command matches cli::CliCommandModel::Run { prompt } ==> args =~= seq![prompt]
            }
        }),
{
    reveal_strlit("api");
    reveal_strlit("resume");
    assert("api"@.len() == 3 && "resume"@.len() == 6);
}

/// A command line that cannot be followed is answered with the usage of what it asks for, where
/// something is missing, and otherwise with what it holds too much.
pub proof fn command_lines_are_refused(args: Seq<Seq<char>>)
    requires
        cli::command_of(args) is Err,
    ensures
        ({
            let words = cli::command_of(args)->Err_0;
            let missing = args.len() == 0 || begins_with(args, "resume"@) && args.len() < 3;
            &&& missing ==> text::has_prefix(words, "usage: cargo run -- "@)
            &&& !missing ==> text::has_part(words, "accepts exactly"@)
            &&& !missing && begins_with(args, "resume"@) ==> text::has_prefix(words, "resume"@)
        }),
{
    let words = cli::command_of(args)->Err_0;
    reveal_strlit("usage: cargo run -- ");
    reveal_strlit("accepts exactly");
    reveal_strlit("resume");
    reveal_strlit("api");
    reveal_strlit(
        "usage: cargo run -- '<prompt>' | cargo run -- api [bind_addr] | cargo run -- resume <thread_id> '<prompt>'",
    );
    reveal_strlit("usage: cargo run -- resume <thread_id> '<prompt>'");
    reveal_strlit("resume accepts exactly 2 arguments after the subcommand");
    reveal_strlit("prompt mode accepts exactly one prompt argument");
    if args.len() == 0 || begins_with(args, "resume"@) && args.len() < 3 {
        assert(words.take("usage: cargo run -- "@.len() as int) =~= "usage: cargo run -- "@);
    } else if begins_with(args, "resume"@) {
        assert(words.subrange(7, 22) =~= "accepts exactly"@);
        assert(text::is_at(words, "accepts exactly"@, 7));
        assert(words.take(6) =~= "resume"@);
    } else {
        assert(words.subrange(12, 27) =~= "accepts exactly"@);
        assert(text::is_at(words, "accepts exactly"@, 12));
    }
}

/// How many words a session command has, with its name, where that is fixed.
pub open spec fn words_of_command(name: Seq<char>) -> nat {
    if name == "inspect"@ || name == "collect"@ {
        2
    } else if name == "resume"@ {
        3
    } else if name == "fork"@ {
        4
    } else {
        1
    }
}

/// A session command is followed exactly where it has as many words as it must have; the server may
/// be given any number. The words stand in the command in the order in which they were given.
pub proof fn session_commands_are_followed(args: Seq<Seq<char>>)
    ensures
        ({
            let read = session_cli::command_of(args);
            &&& read is Ok <==> args.len() > 0 && (args[0] == "api"@ || args.len()
                == words_of_command(args[0]))
            &&& read matches Ok(command) ==> match command {
                session_cli::CliCommandModel::Inspect { parent_session_id } => args
                    =~= seq!["inspect"@, parent_session_id],
                session_cli::CliCommandModel::Collect { session_id } => args
                    =~= seq!["collect"@, session_id],
                session_cli::CliCommandModel::Resume { session_id, prompt } => args
                    =~= seq!["resume"@, session_id, prompt],
                session_cli::CliCommandModel::Fork { parent_session_id, agent_role, prompt } => args
                    =~= seq!["fork"@, parent_session_id, agent_role, prompt],
                session_cli::CliCommandModel::Api { bind_addr } => args[0] == "api"@ && (bind_addr
                    is Some <==> args.len() > 1) && (bind_addr matches Some(addr) ==> addr
                    == args[1]),
                session_cli::CliCommandModel::Run { prompt } => args =~= seq![prompt]
                    && words_of_command(prompt) == 1 && prompt != "api"@,
            }
        }),
{
    reveal_strlit("api");
    reveal_strlit("inspect");
    reveal_strlit("collect");
    reveal_strlit("resume");
    reveal_strlit("fork");
    assert("api"@.len() == 3 && "inspect"@.len() == 7 && "collect"@.len() == 7);
    assert("resume"@.len() == 6 && "fork"@.len() == 4);
    assert("inspect"@[0] == 'i' && "collect"@[0] == 'c');
    if args.len() > 0 {
        let rest = args.skip(1);
        if args.len() > 1 {
            assert(rest[0] == args[1]);
        }
        if args.len() > 2 {
            assert(rest[1] == args[2]);
        }
        if args.len() > 3 {
            assert(rest[2] == args[3]);
        }
    }
}

/// A role is read only for a fork. A fork keeps its other words and takes the role as it was read,
/// or fails as the reading did; no other command depends on a role.
pub proof fn roles_are_read_for_forks(args: Seq<Seq<char>>, role: Result<Seq<char>, Seq<char>>)
    ensures
        ({
            let fork = begins_with(args, "fork"@) && args.len() == 4;
            let read = session_cli::command_with_role(args, role);
            &&& session_cli::role_text_of(args) is Some <==> fork
            &&& fork ==> session_cli::role_text_of(args) == Some(args[2])
            &&& !fork ==> read == session_cli::command_of(args)
            &&& fork && role is Err ==> read == Err::<session_cli::CliCommandModel, Seq<char>>(
                role->Err_0,
            )
            &&& fork && role is Ok ==> read == Ok::<session_cli::CliCommandModel, Seq<char>>(
                session_cli::CliCommandModel::Fork {
                    parent_session_id: args[1],
                    agent_role: role->Ok_0,
                    prompt: args[3],
                },
            )
        }),
{
    session_commands_are_followed(args);
    reveal_strlit("fork");
    reveal_strlit("api");
    reveal_strlit("inspect");
    reveal_strlit("collect");
    reveal_strlit("resume");
    assert("api"@.len() == 3 && "inspect"@.len() == 7 && "collect"@.len() == 7);
    assert("resume"@.len() == 6 && "fork"@.len() == 4);
}

/// Whether an event is part of a turn.
pub open spec fn is_part(event: RuntimeEvent, turn_id: Seq<char>) -> bool {
    event.turn_id is Some && event.turn_id->0@ == turn_id
}

/// Whether an event ends a turn.
pub open spec fn is_end(event: RuntimeEvent, turn_id: Seq<char>) -> bool {
    is_part(event, turn_id) && (event.kind is TurnCompleted || event.kind is RuntimeError
        || event.kind is TurnInterrupted)
}

/// Whether an event tells what the assistant says in a turn.
pub open spec fn is_said(event: RuntimeEvent, turn_id: Seq<char>) -> bool {
    is_part(event, turn_id) && event.kind is AssistantTurn
}

/// The first event that ends a turn decides what comes out. After an error that is its message. A
/// turn that is completed gives what the assistant said last in it.
pub proof fn the_first_end_decides(
    turn_id: Seq<char>,
    last_text: Option<String>,
    events: Seq<RuntimeEvent>,
    at: int,
    said: int,
)
    requires
        0 <= at < events.len(),
        is_end(events[at], turn_id),
        forall|k: int| 0 <= k < at ==> !is_end(#[trigger] events[k], turn_id),
        -1 <= said < at,
        said >= 0 ==> is_said(events[said], turn_id),
        forall|k: int| said < k < at ==> !is_said(#[trigger] events[k], turn_id),
    ensures
        ({
            let outcome = cli::outcome_of(turn_id, last_text, events);
            let text = if said >= 0 {
                events[said].kind->AssistantTurn_turn.text
            } else {
                last_text
            };
            &&& outcome is Some
            &&& outcome->0 is Ok <==> events[at].kind is TurnCompleted
            &&& events[at].kind is TurnCompleted && text is Some ==> outcome->0->Ok_0 == text->0@
            &&& events[at].kind is TurnCompleted && text is None ==> outcome->0->Ok_0.len() == 0
            &&& events[at].kind is RuntimeError ==> outcome->0->Err_0
                == events[at].kind->RuntimeError_message@
            &&& events[at].kind is TurnInterrupted ==> outcome->0->Err_0 == "turn interrupted"@
        }),
    decreases events.len(),
{
    reveal_strlit("");
    let rest = events.skip(1);
    let after = cli::after_event(turn_id, last_text, events[0]);
    if at > 0 {
        assert(!is_end(events[0], turn_id));
        assert(after.1 is None);
        assert(rest[at - 1] == events[at]);
        assert forall|k: int| 0 <= k < at - 1 implies !is_end(#[trigger] rest[k], turn_id) by {
            assert(rest[k] == events[k + 1]);
        }
        if said > 0 {
            assert(rest[said - 1] == events[said]);
            assert forall|k: int| said - 1 < k < at - 1 implies !is_said(
                #[trigger] rest[k],
                turn_id,
            ) by {
                assert(rest[k] == events[k + 1]);
            }
            the_first_end_decides(turn_id, after.0, rest, at - 1, said - 1);
        } else {
            assert forall|k: int| -1 < k < at - 1 implies !is_said(#[trigger] rest[k], turn_id) by {
                assert(rest[k] == events[k + 1]);
            }
            if said < 0 {
                assert(!is_said(events[0], turn_id));
            }
            the_first_end_decides(turn_id, after.0, rest, at - 1, -1);
        }
    }
}

/// As long as nothing ends the turn, nothing comes out.
pub proof fn turns_are_waited_for(
    turn_id: Seq<char>,
    last_text: Option<String>,
    events: Seq<RuntimeEvent>,
)
    requires
        forall|k: int| 0 <= k < events.len() ==> !is_end(#[trigger] events[k], turn_id),
    ensures
        cli::outcome_of(turn_id, last_text, events) is None,
    decreases events.len(),
{
    if events.len() > 0 {
        let rest = events.skip(1);
        assert(!is_end(events[0], turn_id));
        assert forall|k: int| 0 <= k < rest.len() implies !is_end(#[trigger] rest[k], turn_id) by {
            assert(rest[k] == events[k + 1]);
        }
        turns_are_waited_for(turn_id, cli::after_event(turn_id, last_text, events[0]).0, rest);
    }
}

impl ExecSessionState {
    /// A command that runs and exits has ended with that code. One that was stopped has no code.
    /// What has been written stays in either case, and nothing happens to one that goes on.
    pub proof fn commands_end_as_they_ended(self, exited: Option<Option<i32>>)
        ensures
            self.refreshed(None) == self,
            self.is_running() && exited is Some ==> {
                &&& self.refreshed(exited).status == Some(ExecSessionStatus::Exited)
                &&& Some(self.refreshed(exited).exit_code) == exited
            },
            !self.is_running() ==> self.refreshed(exited) == self,
            self.terminated().status == Some(ExecSessionStatus::Terminated),
            self.terminated().exit_code is None,
            !self.terminated().is_running(),
            exited is Some ==> !self.refreshed(exited).is_running(),
            self.refreshed(exited).stdout == self.stdout,
            self.refreshed(exited).stderr == self.stderr,
            self.terminated().stdout == self.stdout,
            self.terminated().stderr == self.stderr,
    {
    }
}

/// A run is over unless it waits or runs.
pub proof fn runs_go_on_until_they_are_over(status: WorkflowRunStatus)
    ensures
        !workflow::is_over(status) <==> status is Queued || status is Running,
{
}

/// A question of up to a hundred and twenty characters is shown whole. A longer one is shown up to
/// there, with three dots behind it.
pub proof fn long_questions_are_cut(question: Seq<char>)
    ensures
        ({
            let shown = workflow::shortened(question);
            &&& question.len() <= 120 ==> shown == question
            &&& question.len() > 120 ==> {
                &&& shown.len() == 123
                &&& forall|i: int| 0 <= i < 120 ==> shown[i] == question[i]
                &&& shown[120] == '.' && shown[121] == '.' && shown[122] == '.'
            }
        }),
{
    reveal_strlit("...");
}

/// A label begins with the name of the workflow. It ends there where the question is blank, and
/// otherwise with the question, of which blanks at the ends do not matter.
pub proof fn labels_show_the_question(template_id: WorkflowTemplateId, question: Seq<char>)
    ensures
        ({
            let label = workflow::label_of(template_id, question);
            let name = "Deep research"@;
            &&& text::has_prefix(label, name)
            &&& label == name <==> text_laws::is_blank(question)
            &&& !text_laws::is_blank(question) ==> {
                &&& label[name.len() as int] == ':'
                &&& label[name.len() as int + 1] == ' '
                &&& label.skip(name.len() as int + 2) == workflow::shortened(text::trim_of(question))
            }
        }),
{
    reveal_strlit(": ");
    reveal_strlit("Deep research");
    reveal_strlit("...");
    text_laws::blanks_are_trimmed_away(question);
    let label = workflow::label_of(template_id, question);
    let name = "Deep research"@;
    assert(label.take(name.len() as int) =~= name);
    if !text_laws::is_blank(question) {
        assert(label.skip(name.len() as int + 2) =~= workflow::shortened(text::trim_of(question)));
        assert(label.len() > name.len());
    }
}

/// The characters that a name may hold: letters, digits, the hyphen and the underscore. Blanks, dots
/// and slashes are not among them.
pub proof fn plain_characters(c: char)
    ensures
        workflow::is_plain(c) <==> 'a' <= c <= 'z' || 'A' <= c <= 'Z' || '0' <= c <= '9' || c == '-'
            || c == '_',
        text::is_white_space(c) || c == '.' || c == '/' ==> !workflow::is_plain(c),
{
}

/// A reply of a kind answers the requests of that kind and no others.
pub proof fn replies_answer_their_requests(op: BoundaryOp, response: BoundaryOpResponse)
    requires
        boundary::is_answer(op, response),
    ensures
        op is Initialize <==> response is Initialized,
        op is ThreadStart <==> response is ThreadStarted,
        op is ThreadRead <==> response is ThreadRead,
        op is ThreadFork <==> response is ThreadFork,
        op is ThreadCompact <==> response is ThreadCompacted,
        op is ThreadResume <==> response is ThreadResumed,
        op is ThreadGoalSet <==> response is ThreadGoalSet,
        op is ThreadGoalGet <==> response is ThreadGoalGet,
        op is ThreadGoalClear <==> response is ThreadGoalCleared,
        op is AgentTree <==> response is AgentTree,
        op is ApprovalsList <==> response is ApprovalsList,
        op is CheckpointRestore <==> response is CheckpointRestored,
        op is TurnStart <==> response is TurnStarted,
        op is TurnInterrupt <==> response is TurnInterrupted,
        op is ApprovalDecision <==> response is ApprovalDecisionSubmitted,
        op is SubmitUserInput <==> response is UserInputSubmitted,
        op is EventsReplay <==> response is EventsReplayed,
{
}

/// Requests of one kind need the same capability, those of different kinds different ones, but for
/// the three on goals. No request needs that of the stream of events.
pub proof fn requests_need_their_capability(op: BoundaryOp)
    ensures
        ({
            let needed = boundary::capability_of(op);
            &&& needed is Initialize <==> op is Initialize
            &&& needed is ThreadStart <==> op is ThreadStart
            &&& needed is ThreadRead <==> op is ThreadRead
            &&& needed is ThreadFork <==> op is ThreadFork
            &&& needed is ThreadCompact <==> op is ThreadCompact
            &&& needed is ThreadResume <==> op is ThreadResume
            &&& needed is ThreadGoal <==> op is ThreadGoalSet || op is ThreadGoalGet || op
                is ThreadGoalClear
            &&& needed is AgentTree <==> op is AgentTree
            &&& needed is ApprovalsList <==> op is ApprovalsList
            &&& needed is CheckpointRestore <==> op is CheckpointRestore
            &&& needed is TurnStart <==> op is TurnStart
            &&& needed is TurnInterrupt <==> op is TurnInterrupt
            &&& needed is ApprovalDecision <==> op is ApprovalDecision
            &&& needed is SubmitUserInput <==> op is SubmitUserInput
            &&& needed is EventsReplay <==> op is EventsReplay
            &&& needed !is EventsSubscribe
        }),
{
}

/// Of the edges to a child the last one counts, and a child without one has none.
pub proof fn the_last_fork_counts(edges: Seq<ThreadForkEdge>, child: Seq<char>, at: int)
    requires
        -1 <= at < edges.len(),
        at >= 0 ==> edges[at].child_thread_id@ == child,
        forall|k: int| at < k < edges.len() ==> (#[trigger] edges[k]).child_thread_id@ != child,
    ensures
        at >= 0 ==> desktop::last_edge(edges, child) == Some(edges[at]),
        at < 0 ==> desktop::last_edge(edges, child) is None,
    decreases edges.len(),
{
    if edges.len() > 0 && at < edges.len() - 1 {
        let before = edges.drop_last();
        assert(edges[edges.len() - 1].child_thread_id@ != child);
        assert forall|k: int| at < k < before.len() implies (
        #[trigger] before[k]).child_thread_id@ != child by {
            assert(before[k] == edges[k]);
        }
        the_last_fork_counts(before, child, at);
    }
}

} // verus!
