//! The command line for sessions.
use vstd::prelude::*;

use crate::cli;
use crate::cli::{CliError, CliThread};
use crate::ids::{SessionId, ThreadId, TurnId};
use crate::protocol::{ThreadResumeParams, ThreadStartParams, TurnMode, TurnStartParams};
use crate::text;

verus! {

/// What an agent of a session is there for.
#[derive(Debug, Clone, PartialEq, Eq)]
pub struct AgentRole(pub String);

/// What the command line asks for.
#[derive(Debug, Clone, PartialEq, Eq)]
pub enum CliCommand {
    Run { prompt: String },
    Inspect { parent_session_id: SessionId },
    Collect { session_id: SessionId },
    Resume { session_id: SessionId, prompt: String },
    Fork { parent_session_id: SessionId, agent_role: AgentRole, prompt: String },
    Api { bind_addr: Option<String> },
}

/// What a `CliCommand` holds.
#[verifier::ext_equal]
pub enum CliCommandModel {
    Run { prompt: Seq<char> },
    Inspect { parent_session_id: Seq<char> },
    Collect { session_id: Seq<char> },
    Resume { session_id: Seq<char>, prompt: Seq<char> },
    Fork { parent_session_id: Seq<char>, agent_role: Seq<char>, prompt: Seq<char> },
    Api { bind_addr: Option<Seq<char>> },
}

impl DeepView for CliCommand {
    type V = CliCommandModel;

    open spec fn deep_view(&self) -> CliCommandModel {
        match *self {
            CliCommand::Run { prompt } => CliCommandModel::Run { prompt: prompt@ },
            CliCommand::Inspect { parent_session_id } => CliCommandModel::Inspect {
                parent_session_id: parent_session_id@,
            },
            CliCommand::Collect { session_id } => CliCommandModel::Collect {
                session_id: session_id@,
            },
            CliCommand::Resume { session_id, prompt } => CliCommandModel::Resume {
                session_id: session_id@,
                prompt: prompt@,
            },
            CliCommand::Fork { parent_session_id, agent_role, prompt } => CliCommandModel::Fork {
                parent_session_id: parent_session_id@,
                agent_role: agent_role.0@,
                prompt: prompt@,
            },
            CliCommand::Api { bind_addr } => CliCommandModel::Api {
                bind_addr: bind_addr.deep_view(),
            },
        }
    }
}

/// The arguments of a subcommand that takes `count` of them, or else what is said of its use.
pub open spec fn exactly(
    args: Seq<Seq<char>>,
    count: nat,
    usage: Seq<char>,
    surplus: Seq<char>,
) -> Result<Seq<Seq<char>>, Seq<char>> {
    if args.len() <= count {
        Err(usage)
    } else if args.len() > count + 1 {
        Err(surplus)
    } else {
        Ok(args.skip(1))
    }
}

/// What a command line asks for: to serve, to look at the agents of a session, to collect what one
/// found, to go on with one, to fork one, or to run a prompt; else what is said of its use.
pub open spec fn command_of(args: Seq<Seq<char>>) -> Result<CliCommandModel, Seq<char>> {
    if args.len() == 0 {
        Err(
            "usage: cargo run -- '<prompt>' | cargo run -- api [bind_addr] | cargo run -- inspect <parent_session_id> | cargo run -- collect <session_id> | cargo run -- resume <session_id> '<prompt>' | cargo run -- fork <parent_session_id> <agent_role> '<prompt>'"@,
        )
    } else if args[0] == "api"@ {
        Ok(
            CliCommandModel::Api {
                bind_addr: if args.len() > 1 {
                    Some(args[1])
                } else {
                    None
                },
            },
        )
    } else if args[0] == "inspect"@ {
        match exactly(
            args,
            1,
            "usage: cargo run -- inspect <parent_session_id>"@,
            "inspect accepts exactly 1 argument after the subcommand"@,
        ) {
            Ok(rest) => Ok(CliCommandModel::Inspect { parent_session_id: rest[0] }),
            Err(message) => Err(message),
        }
    } else if args[0] == "collect"@ {
        match exactly(
            args,
            1,
            "usage: cargo run -- collect <session_id>"@,
            "collect accepts exactly 1 argument after the subcommand"@,
        ) {
            Ok(rest) => Ok(CliCommandModel::Collect { session_id: rest[0] }),
            Err(message) => Err(message),
        }
    } else if args[0] == "resume"@ {
        match exactly(
            args,
            2,
            "usage: cargo run -- resume <session_id> '<prompt>'"@,
            "resume accepts exactly 2 arguments after the subcommand"@,
        ) {
            Ok(rest) => Ok(CliCommandModel::Resume { session_id: rest[0], prompt: rest[1] }),
            Err(message) => Err(message),
        }
    } else if args[0] == "fork"@ {
        match exactly(
            args,
            3,
            "usage: cargo run -- fork <parent_session_id> <agent_role> '<prompt>'"@,
            "fork accepts exactly 3 arguments after the subcommand"@,
        ) {
            Ok(rest) => Ok(
                CliCommandModel::Fork {
                    parent_session_id: rest[0],
                    agent_role: rest[1],
                    prompt: rest[2],
                },
            ),
            Err(message) => Err(message),
        }
    } else if args.len() > 1 {
        Err("prompt mode accepts exactly one prompt argument"@)
    } else {
        Ok(CliCommandModel::Run { prompt: args[0] })
    }
}

/// Checks that a subcommand has as many arguments as it takes.
fn check_count(args: &Vec<String>, count: usize, usage: &str, surplus: &str) -> (res: Result<
    (),
    CliError,
>)
    requires
        count < 8,
    ensures
        match exactly(args.deep_view(), count as nat, usage@, surplus@) {
            Ok(_) => res is Ok && args@.len() == count + 1,
            Err(message) => res matches Err(error) && error.message@ == message,
        },
{
    proof {
        assert(args.deep_view().len() == args@.len());
    }
    if args.len() <= count {
        Err(CliError::of(usage))
    } else if args.len() > count + 1 {
        Err(CliError::of(surplus))
    } else {
        Ok(())
    }
}

/// Reads a command line. A role is kept as the text that stands for it.
fn read_cli_command(args: Vec<String>) -> (res: Result<CliCommand, CliError>)
    ensures
        match res {
            Ok(command) => command_of(args.deep_view()) == Ok::<CliCommandModel, Seq<char>>(
                command.deep_view(),
            ),
            Err(error) => command_of(args.deep_view()) == Err::<CliCommandModel, Seq<char>>(
                error.message@,
            ),
        },
{
    proof {
        assert(args.deep_view().len() == args@.len());
        assert forall|i: int| 0 <= i < args@.len() implies args.deep_view()[i]
            == #[trigger] args@[i]@ by {}
    }
    if args.len() == 0 {
        return Err(
            CliError::of(
                "usage: cargo run -- '<prompt>' | cargo run -- api [bind_addr] | cargo run -- inspect <parent_session_id> | cargo run -- collect <session_id> | cargo run -- resume <session_id> '<prompt>' | cargo run -- fork <parent_session_id> <agent_role> '<prompt>'",
            ),
        );
    }
    let first = args[0].as_str();
    if text::same(first, "api") {
        return Ok(
            CliCommand::Api {
                bind_addr: if args.len() > 1 {
                    Some(args[1].clone())
                } else {
                    None
                },
            },
        );
    }
    if text::same(first, "inspect") {
        match check_count(
            &args,
            1,
            "usage: cargo run -- inspect <parent_session_id>",
            "inspect accepts exactly 1 argument after the subcommand",
        ) {
            Ok(_) => {},
            Err(error) => return Err(error),
        }
        return Ok(CliCommand::Inspect { parent_session_id: SessionId::new(args[1].as_str()) });
    }
    if text::same(first, "collect") {
        match check_count(
            &args,
            1,
            "usage: cargo run -- collect <session_id>",
            "collect accepts exactly 1 argument after the subcommand",
        ) {
            Ok(_) => {},
            Err(error) => return Err(error),
        }
        return Ok(CliCommand::Collect { session_id: SessionId::new(args[1].as_str()) });
    }
    if text::same(first, "resume") {
        match check_count(
            &args,
            2,
            "usage: cargo run -- resume <session_id> '<prompt>'",
            "resume accepts exactly 2 arguments after the subcommand",
        ) {
            Ok(_) => {},
            Err(error) => return Err(error),
        }
        return Ok(
            CliCommand::Resume {
                session_id: SessionId::new(args[1].as_str()),
                prompt: args[2].clone(),
            },
        );
    }
    if text::same(first, "fork") {
        match check_count(
            &args,
            3,
            "usage: cargo run -- fork <parent_session_id> <agent_role> '<prompt>'",
            "fork accepts exactly 3 arguments after the subcommand",
        ) {
            Ok(_) => {},
            Err(error) => return Err(error),
        }
        return Ok(
            CliCommand::Fork {
                parent_session_id: SessionId::new(args[1].as_str()),
                agent_role: AgentRole(args[2].clone()),
                prompt: args[3].clone(),
            },
        );
    }
    if args.len() > 1 {
        return Err(CliError::of("prompt mode accepts exactly one prompt argument"));
    }
    Ok(CliCommand::Run { prompt: args[0].clone() })
}

/// The text that is to be read as the role of an agent: that of a command line that asks to fork a
/// session.
pub open spec fn role_text_of(args: Seq<Seq<char>>) -> Option<Seq<char>> {
    match command_of(args) {
        Ok(CliCommandModel::Fork { agent_role, .. }) => Some(agent_role),
        _ => None,
    }
}

/// What a command line asks for, where the text of the role was read as `role`. A role that could
/// not be read turns the command line down.
pub open spec fn command_with_role(
    args: Seq<Seq<char>>,
    role: Result<Seq<char>, Seq<char>>,
) -> Result<CliCommandModel, Seq<char>> {
    match (command_of(args), role) {
        (Ok(CliCommandModel::Fork { parent_session_id, prompt, .. }), Ok(agent_role)) => Ok(
            CliCommandModel::Fork { parent_session_id, agent_role, prompt },
        ),
        (Ok(CliCommandModel::Fork { .. }), Err(message)) => Err(message),
        (command, _) => command,
    }
}

/// What a role holds that was read, or what is said of it.
pub open spec fn role_read(role: Result<AgentRole, CliError>) -> Result<Seq<char>, Seq<char>> {
    match role {
        Ok(role) => Ok(role.0@),
        Err(error) => Err(error.message@),
    }
}

/// Computes `role_text_of`.
pub fn role_text(args: &Vec<String>) -> (res: Option<String>)
    ensures
        res.deep_view() == role_text_of(args.deep_view()),
{
    proof {
        reveal_strlit("api");
        reveal_strlit("inspect");
        reveal_strlit("collect");
        reveal_strlit("resume");
        reveal_strlit("fork");
        assert("fork"@.len() == 4);
        assert("fork"@ != "api"@ && "fork"@ != "inspect"@ && "fork"@ != "collect"@ && "fork"@
            != "resume"@);
        assert(args.deep_view().len() == args@.len());
        assert forall|i: int| 0 <= i < args@.len() implies args.deep_view()[i]
            == #[trigger] args@[i]@ by {}
    }
    if args.len() == 4 && text::same(args[0].as_str(), "fork") {
        Some(args[2].clone())
    } else {
        None
    }
}

/// What a command line was read as, or what is said of it.
pub open spec fn command_read(res: Result<CliCommand, CliError>) -> Result<
    CliCommandModel,
    Seq<char>,
> {
    match res {
        Ok(command) => Ok(command.deep_view()),
        Err(error) => Err(error.message@),
    }
}

/// Reads a command line. `role` is what its role was read as, where there is a text to be read as
/// one; it counts only then.
pub fn parse_cli_command_with_role(
    args: Vec<String>,
    role: Result<AgentRole, CliError>,
) -> (res: Result<CliCommand, CliError>)
    ensures
        command_read(res) == command_with_role(args.deep_view(), role_read(role)),
{
    match read_cli_command(args) {
        Ok(CliCommand::Fork { parent_session_id, prompt, .. }) => match role {
            Ok(agent_role) => Ok(CliCommand::Fork { parent_session_id, agent_role, prompt }),
            Err(error) => Err(error),
        },
        Ok(command) => Ok(command),
        Err(error) => Err(error),
    }
}

/// Reads a command line. `parse_role` reads the text of a role, where there is one, and can turn
/// it down.
pub fn parse_cli_command<F: FnOnce(String) -> Result<AgentRole, CliError>>(
    args: Vec<String>,
    parse_role: F,
) -> (res: Result<CliCommand, CliError>)
    requires
        forall|text: String| #[trigger] parse_role.requires((text,)),
    ensures
        match role_text_of(args.deep_view()) {
            Some(role_text) => exists|text: String, role: Result<AgentRole, CliError>|
                {
                    &&& text@ == role_text
                    &&& #[trigger] parse_role.ensures((text,), role)
                    &&& command_read(res) == command_with_role(args.deep_view(), role_read(role))
                },
            None => command_read(res) == command_of(args.deep_view()),
        },
{
    match role_text(&args) {
        Some(text) => {
            let ghost given = text;
            let role = parse_role(text);
            let res = parse_cli_command_with_role(args, role);
            proof {
                assert(parse_role.ensures((given,), role));
            }
            res
        },
        None => read_cli_command(args),
    }
}

/// Asks for the agents of a session.
#[derive(Debug, Clone, PartialEq, Eq)]
pub struct InspectParams {
    pub parent_session_id: SessionId,
    pub workspace_root: Option<String>,
}

/// Asks for what a session found.
#[derive(Debug, Clone, PartialEq, Eq)]
pub struct CollectParams {
    pub session_id: SessionId,
    pub workspace_root: Option<String>,
}

/// Asks for an agent below a thread, and what it answers.
#[derive(Debug, Clone, PartialEq, Eq)]
pub struct ThreadSpawnChildParams {
    pub parent_thread_id: ThreadId,
    pub agent_role: AgentRole,
    pub prompt: String,
    pub workspace_root: Option<String>,
    pub cwd: Option<String>,
    pub spawned_by_turn_id: Option<TurnId>,
}

/// What a command asks of the server first.
pub enum SessionRequest {
    Inspect(InspectParams),
    Collect(CollectParams),
    /// A thread, and then a turn in it on the prompt.
    Work { thread: CliThread, prompt: String },
    SpawnChild(ThreadSpawnChildParams),
}

/// What a command asks of the server first: always about the workspace and the directory that the
/// server runs in, and by no turn. Serving asks for nothing.
pub fn execute_cli_command(command: CliCommand) -> (res: Option<SessionRequest>)
    ensures
        res == match command {
            CliCommand::Inspect { parent_session_id } => Some(
                SessionRequest::Inspect(
                    InspectParams { parent_session_id, workspace_root: None },
                ),
            ),
            CliCommand::Collect { session_id } => Some(
                SessionRequest::Collect(CollectParams { session_id, workspace_root: None }),
            ),
            CliCommand::Run { prompt } => Some(
                SessionRequest::Work {
                    thread: CliThread::Start(
                        ThreadStartParams {
                            workspace_root: None,
                            cwd: None,
                            permission_profile: None,
                        },
                    ),
                    prompt,
                },
            ),
            CliCommand::Resume { session_id, prompt } => Some(
                SessionRequest::Work {
                    thread: CliThread::Resume(
                        ThreadResumeParams {
                            thread_id: ThreadId(session_id.0),
                            workspace_root: None,
                            cwd: None,
                        },
                    ),
                    prompt,
                },
            ),
            CliCommand::Fork { parent_session_id, agent_role, prompt } => Some(
                SessionRequest::SpawnChild(
                    ThreadSpawnChildParams {
                        parent_thread_id: ThreadId(parent_session_id.0),
                        agent_role,
                        prompt,
                        workspace_root: None,
                        cwd: None,
                        spawned_by_turn_id: None,
                    },
                ),
            ),
            CliCommand::Api { .. } => None,
        },
{
    match command {
        CliCommand::Inspect { parent_session_id } => Some(
            SessionRequest::Inspect(InspectParams { parent_session_id, workspace_root: None }),
        ),
        CliCommand::Collect { session_id } => Some(
            SessionRequest::Collect(CollectParams { session_id, workspace_root: None }),
        ),
        CliCommand::Run { prompt } => Some(
            SessionRequest::Work {
                thread: CliThread::Start(
                    ThreadStartParams { workspace_root: None, cwd: None, permission_profile: None },
                ),
                prompt,
            },
        ),
        CliCommand::Resume { session_id, prompt } => Some(
            SessionRequest::Work {
                thread: CliThread::Resume(
                    ThreadResumeParams {
                        thread_id: ThreadId(session_id.0),
                        workspace_root: None,
                        cwd: None,
                    },
                ),
                prompt,
            },
        ),
        CliCommand::Fork { parent_session_id, agent_role, prompt } => Some(
            SessionRequest::SpawnChild(
                ThreadSpawnChildParams {
                    parent_thread_id: ThreadId(parent_session_id.0),
                    agent_role,
                    prompt,
                    workspace_root: None,
                    cwd: None,
                    spawned_by_turn_id: None,
                },
            ),
        ),
        CliCommand::Api { .. } => None,
    }
}

/// What the server answers a command.
pub enum SessionReply {
    /// The report that was asked for, as JSON that is laid out for reading.
    Report(String),
    /// The thread that was started or taken up again for a prompt.
    Thread { thread_id: ThreadId, prompt: String },
    /// The text that a turn ended with, if any.
    Answer(Option<String>),
}

/// What a command does with an answer.
pub enum SessionStep {
    /// It starts a turn.
    StartTurn(TurnStartParams),
    /// It prints this, and ends.
    Print(CliExecutionOutput),
}

/// What a command does with an answer: a thread is followed by an ordinary turn in it on the
/// prompt, and all else is printed on a line of its own.
pub fn session_step(reply: SessionReply) -> (res: SessionStep)
    ensures
        match reply {
            SessionReply::Report(report) => res matches SessionStep::Print(output)
                && output.stdout@ == report@ + "\n"@,
            SessionReply::Thread { thread_id, prompt } => {
                &&& res matches SessionStep::StartTurn(params)
                &&& params.thread_id == thread_id
                &&& params.prompt == prompt
                &&& params.input@.len() == 0
                &&& params.workspace_root is None
                &&& params.turn_mode == TurnMode::Normal
                &&& params.turn_context is None
            },
            SessionReply::Answer(answer) => res matches SessionStep::Print(output)
                && output.stdout@ == match answer {
                Some(answer) => answer@,
                None => ""@,
            } + "\n"@,
        },
{
    match reply {
        SessionReply::Report(report) => SessionStep::Print(cli_output(Some(report))),
        SessionReply::Thread { thread_id, prompt } => SessionStep::StartTurn(
            cli::cli_turn(thread_id, prompt),
        ),
        SessionReply::Answer(answer) => SessionStep::Print(cli_output(answer)),
    }
}

/// What a command prints.
#[derive(Debug, Clone, PartialEq, Eq)]
pub struct CliExecutionOutput {
    pub stdout: String,
}

/// What a command prints: the answer, if there is one, on a line of its own.
pub fn cli_output(answer: Option<String>) -> (res: CliExecutionOutput)
    ensures
        res.stdout@ == match answer {
            Some(answer) => answer@,
            None => ""@,
        } + "\n"@,
{
    let answer = match answer {
        Some(answer) => answer,
        None => "".to_owned(),
    };
    CliExecutionOutput { stdout: text::concat2(answer.as_str(), "\n") }
}

} // verus!
