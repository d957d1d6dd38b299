//! Command lines, commands that run beside a conversation, and MCP servers.
use exagent::cli;
use exagent::cli::{AnswerStep, CliError, CliThread, FinalAnswer};
use exagent::config::McpServerConfig;
use exagent::events::{ExecOutputStream, RuntimeEvent, RuntimeEventKind};
use exagent::exec_session::{
    output_event, ExecSessionManager, ExecSessionState, ExecSessionStatus,
};
use exagent::ids::{EventId, ExecSessionId, SessionId, ThreadId, TurnId};
use exagent::json::{find_value, member};
use exagent::mcp_runtime::{
    arguments_from, call_arguments, call_result, json_to_string, mcp_content_item_to_text,
    mcp_content_to_text, resource_content_to_text, server_command, server_directory, show_item,
    show_resource, Installed, McpCallOutput, McpRuntimeManager,
};
use exagent::session_cli;
use exagent::session_cli::{
    session_step, AgentRole, SessionReply, SessionRequest, SessionStep, ThreadSpawnChildParams,
};
use exagent::types::{AssistantTurn, ToolCall, ToolStatus};

fn words(args: &[&str]) -> Vec<String> {
    args.iter().map(|arg| arg.to_string()).collect()
}

#[test]
fn command_lines_name_threads() {
    let parse = |args: &[&str]| cli::parse_cli_command(words(args));
    assert_eq!(
        parse(&["hello"]),
        Ok(cli::CliCommand::Run { prompt: "hello".to_string() })
    );
    assert_eq!(parse(&["api"]), Ok(cli::CliCommand::Api { bind_addr: None }));
    assert_eq!(
        parse(&["api", "0.0.0.0:1"]),
        Ok(cli::CliCommand::Api { bind_addr: Some("0.0.0.0:1".to_string()) })
    );
    assert_eq!(
        parse(&["resume", "t", "go on"]),
        Ok(cli::CliCommand::Resume { thread_id: ThreadId::new("t"), prompt: "go on".to_string() })
    );
    assert!(parse(&[]).unwrap_err().message.starts_with("usage: cargo run -- '<prompt>'"));
    assert_eq!(
        parse(&["resume", "t"]).unwrap_err().message,
        "usage: cargo run -- resume <thread_id> '<prompt>'"
    );
    assert_eq!(
        parse(&["resume", "t", "a", "b"]).unwrap_err().message,
        "resume accepts exactly 2 arguments after the subcommand"
    );
    assert_eq!(
        parse(&["a", "b"]).unwrap_err().message,
        "prompt mode accepts exactly one prompt argument"
    );
}

#[test]
fn commands_start_and_resume_threads() {
    let run = cli::CliCommand::Run { prompt: "hello".to_string() };
    assert!(matches!(
        cli::execute_cli_command(run),
        Some((CliThread::Start(params), prompt))
            if params.workspace_root.is_none() && prompt == "hello"
    ));
    let resume =
        cli::CliCommand::Resume { thread_id: ThreadId::new("t"), prompt: "more".to_string() };
    assert!(matches!(
        cli::execute_cli_command(resume),
        Some((CliThread::Resume(params), _)) if params.thread_id.as_str() == "t"
    ));
    assert!(cli::execute_cli_command(cli::CliCommand::Api { bind_addr: None }).is_none());
    assert_eq!(cli::cli_subscription(&ThreadId::new("t")).after_event_id, None);
    assert_eq!(cli::cli_turn(ThreadId::new("t"), "go".to_string()).prompt, "go");
    assert_eq!(cli::cli_output("done").stdout, "done\n");
}

#[test]
fn commands_wait_for_their_own_turn() {
    let event = |turn: &str, kind| RuntimeEvent {
        event_id: EventId::new("e"),
        thread_id: ThreadId::new("t"),
        turn_id: Some(TurnId::new(turn)),
        kind,
    };
    let said = |text: &str| RuntimeEventKind::AssistantTurn {
        turn: AssistantTurn {
            text: Some(text.to_string()),
            tool_calls: vec![],
            reasoning: vec![],
        },
    };
    let mut answer = FinalAnswer::new(TurnId::new("a"));
    let mut take = |event| answer.wait_for_final_assistant_text(event);
    assert!(matches!(take(event("a", said("first"))), AnswerStep::Wait));
    assert!(matches!(take(event("b", said("other"))), AnswerStep::Wait));
    assert!(matches!(take(event("b", RuntimeEventKind::TurnCompleted)), AnswerStep::Wait));
    assert!(matches!(
        take(event("a", RuntimeEventKind::TurnCompleted)),
        AnswerStep::Done(text) if text == "first"
    ));
    let failed = RuntimeEventKind::RuntimeError { message: "no".to_string() };
    assert!(matches!(take(event("a", failed)), AnswerStep::Failed(text) if text == "no"));
    assert!(matches!(
        take(event("a", RuntimeEventKind::TurnInterrupted)),
        AnswerStep::Failed(text) if text == "turn interrupted"
    ));
}

fn read_role(text: String) -> Result<AgentRole, CliError> {
    match text.as_str() {
        "Writer" => Ok(AgentRole("writer".to_string())),
        _ => Err(CliError { message: format!("unknown role {text}") }),
    }
}

fn parse_session(args: &[&str]) -> Result<session_cli::CliCommand, CliError> {
    session_cli::parse_cli_command(words(args), read_role)
}

#[test]
fn command_lines_name_sessions() {
    let parse = parse_session;
    assert_eq!(
        parse(&["inspect", "s"]),
        Ok(session_cli::CliCommand::Inspect { parent_session_id: SessionId::new("s") })
    );
    assert_eq!(
        parse(&["collect", "s"]),
        Ok(session_cli::CliCommand::Collect { session_id: SessionId::new("s") })
    );
    assert_eq!(
        parse(&["fork", "s", "Writer", "look"]),
        Ok(session_cli::CliCommand::Fork {
            parent_session_id: SessionId::new("s"),
            agent_role: AgentRole("writer".to_string()),
            prompt: "look".to_string(),
        })
    );
    assert_eq!(parse(&["fork", "s", "x", "look"]).unwrap_err().message, "unknown role x");
    assert_eq!(
        parse(&["fork", "s"]).unwrap_err().message,
        "usage: cargo run -- fork <parent_session_id> <agent_role> '<prompt>'"
    );
    assert_eq!(
        parse(&["inspect", "s", "t"]).unwrap_err().message,
        "inspect accepts exactly 1 argument after the subcommand"
    );
    assert_eq!(
        parse(&["hi", "there"]).unwrap_err().message,
        "prompt mode accepts exactly one prompt argument"
    );
    assert_eq!(session_cli::cli_output(None).stdout, "\n");
}

#[test]
fn session_commands_ask_the_server() {
    let asked = |args: &[&str]| {
        session_cli::execute_cli_command(parse_session(args).unwrap()).unwrap()
    };
    assert!(matches!(
        asked(&["inspect", "s"]),
        SessionRequest::Inspect(params)
            if params.parent_session_id.as_str() == "s" && params.workspace_root.is_none()
    ));
    assert!(matches!(
        asked(&["collect", "s"]),
        SessionRequest::Collect(params)
            if params.session_id.as_str() == "s" && params.workspace_root.is_none()
    ));
    assert!(matches!(
        asked(&["look"]),
        SessionRequest::Work { thread: CliThread::Start(params), prompt }
            if prompt == "look" && params.workspace_root.is_none() && params.cwd.is_none()
    ));
    assert!(matches!(
        asked(&["resume", "s", "look"]),
        SessionRequest::Work { thread: CliThread::Resume(params), prompt }
            if prompt == "look"
                && params.thread_id.as_str() == "s"
                && params.workspace_root.is_none()
                && params.cwd.is_none()
    ));
    let SessionRequest::SpawnChild(params) = asked(&["fork", "s", "Writer", "look"]) else {
        panic!("no agent asked for");
    };
    assert_eq!(
        params,
        ThreadSpawnChildParams {
            parent_thread_id: ThreadId::new("s"),
            agent_role: AgentRole("writer".to_string()),
            prompt: "look".to_string(),
            workspace_root: None,
            cwd: None,
            spawned_by_turn_id: None,
        }
    );
    let serve = session_cli::CliCommand::Api { bind_addr: None };
    assert!(session_cli::execute_cli_command(serve).is_none());
}

#[test]
fn session_commands_go_on_with_the_thread_that_came_back() {
    let thread = SessionReply::Thread { thread_id: ThreadId::new("t"), prompt: "look".to_string() };
    let SessionStep::StartTurn(turn) = session_step(thread) else {
        panic!("no turn");
    };
    assert_eq!((turn.thread_id.as_str(), turn.prompt.as_str()), ("t", "look"));
    assert!(turn.workspace_root.is_none() && turn.turn_context.is_none() && turn.input.is_empty());
    let printed = |reply| match session_step(reply) {
        SessionStep::Print(output) => output.stdout,
        SessionStep::StartTurn(_) => panic!("a turn"),
    };
    assert_eq!(printed(SessionReply::Report("{}".to_string())), "{}\n");
    assert_eq!(printed(SessionReply::Answer(Some("done".to_string()))), "done\n");
    assert_eq!(printed(SessionReply::Answer(None)), "\n");
}

#[test]
fn roles_that_cannot_be_read_turn_a_command_line_down() {
    let fork = || words(&["fork", "s", "Writer", "look"]);
    assert_eq!(session_cli::role_text(&fork()).as_deref(), Some("Writer"));
    assert_eq!(session_cli::role_text(&words(&["fork", "s", "Writer"])), None);
    assert_eq!(session_cli::role_text(&words(&["resume", "s", "Writer", "look"])), None);
    let refused = || CliError { message: "unknown role".to_string() };
    let parse = session_cli::parse_cli_command_with_role;
    assert_eq!(parse(fork(), Err(refused())), Err(refused()));
    assert_eq!(
        parse(fork(), Ok(AgentRole("writer".to_string()))),
        Ok(session_cli::CliCommand::Fork {
            parent_session_id: SessionId::new("s"),
            agent_role: AgentRole("writer".to_string()),
            prompt: "look".to_string(),
        })
    );
    assert_eq!(
        parse(words(&["collect", "s"]), Err(refused())),
        Ok(session_cli::CliCommand::Collect { session_id: SessionId::new("s") })
    );
    assert_eq!(
        parse(words(&["fork", "s"]), Err(refused())).unwrap_err().message,
        "usage: cargo run -- fork <parent_session_id> <agent_role> '<prompt>'"
    );
}

#[test]
fn commands_end_once() {
    let mut state = ExecSessionState::start();
    state.append_output(ExecOutputStream::Stdout, "a");
    state.append_output(ExecOutputStream::Stderr, "b");
    state.append_output(ExecOutputStream::Stdout, "c");
    state.refresh_status(None);
    assert_eq!(state.status, Some(ExecSessionStatus::Running));
    assert_eq!(state.write_stdin(true), Ok(()));
    assert_eq!(state.write_stdin(false), Err("stdin is closed for this exec session"));
    state.refresh_status(Some(Some(3)));
    state.refresh_status(Some(Some(4)));
    assert_eq!((state.status, state.exit_code), (Some(ExecSessionStatus::Exited), Some(3)));
    let shown = state.snapshot(&ExecSessionId::new("exec_1"), "ls", "/work");
    assert_eq!(shown.status, ExecSessionStatus::Exited);
    assert_eq!((shown.stdout.as_str(), shown.stderr.as_str()), ("ac", "b"));
    assert!(state.write_stdin(true).is_err());

    let mut state = ExecSessionState::start();
    state.terminate();
    assert_eq!(state.status, Some(ExecSessionStatus::Terminated));
    state.refresh_status(Some(Some(9)));
    assert_eq!((state.status, state.exit_code), (Some(ExecSessionStatus::Terminated), None));
}

#[test]
fn commands_belong_to_a_session() {
    let mut manager: ExecSessionManager<u8> = ExecSessionManager::new();
    let (session, exec) = (SessionId::new("s"), ExecSessionId::new("exec_1"));
    assert!(manager.get_handle(&session, &exec).is_err());
    manager.insert_handle(&session, &exec, 1);
    manager.insert_handle(&session, &ExecSessionId::new("exec_2"), 2);
    assert_eq!(manager.get_handle(&session, &exec), Ok(&1));
    assert!(manager.get_handle(&SessionId::new("other"), &exec).is_err());
    let event =
        output_event(EventId::new("e"), &session, &exec, ExecOutputStream::Stderr, "x".to_string());
    assert_eq!((event.session_id, event.chunk.as_str()), (session, "x"));
}

fn server(id: &str, command: &str) -> McpServerConfig {
    McpServerConfig {
        id: id.to_string(),
        display_name: id.to_string(),
        command: command.to_string(),
        args: vec![],
        env: vec![],
        working_directory: None,
    }
}

#[test]
fn servers_are_known_by_their_normal_names() {
    let mut manager: McpRuntimeManager<u8> = McpRuntimeManager::with_factory(
        vec![server("my server", "a"), server("my_server", "b"), server("other", "c")],
        "/work".to_string(),
    );
    let id = "my_server".to_string();
    assert_eq!(manager.state_of(&id).unwrap().config.command, "b");
    assert_eq!(
        manager.connected("my server").unwrap_err().message,
        "MCP server `my_server` is not connected"
    );
    assert!(matches!(manager.install_client(id.clone(), 1), Ok(Installed::Used)));
    assert!(matches!(manager.install_client(id.clone(), 2), Ok(Installed::Duplicate(2))));
    assert_eq!(manager.connected("my server"), Ok(&1));
    manager.record_refresh_error(id.clone(), "slow".to_string());
    assert_eq!(manager.state_of(&id).unwrap().last_error.as_deref(), Some("slow"));
    manager.record_tools(id.clone(), vec![]);
    assert_eq!(manager.state_of(&id).unwrap().last_error, None);
    assert_eq!(manager.disconnect(id.clone()), Some(1));
    assert_eq!(manager.disconnect(id), None);
    match manager.install_client("none".to_string(), 3) {
        Err(error) => assert_eq!(error.message, "unknown MCP server `none`"),
        Ok(_) => panic!("installed nowhere"),
    }
}

#[test]
fn servers_are_started_where_they_are_told_to() {
    let mut config = server("s", "  run me ");
    assert_eq!(server_command(&config), Ok("run me"));
    assert_eq!(server_directory(&config, "/work"), "/work");
    config.working_directory = Some("/srv".to_string());
    assert_eq!(server_directory(&config, "/work"), "/srv");
    assert_eq!(
        server_command(&server("s", " ")).unwrap_err().message,
        "MCP server `s` command is empty"
    );
}

#[test]
fn tools_take_objects() {
    assert_eq!(call_arguments("{\"a\": 1}"), Ok(Some("{\"a\": 1}")));
    assert_eq!(call_arguments(" null "), Ok(None));
    assert_eq!(
        call_arguments("[1, 2]").unwrap_err().message,
        "MCP tool arguments must be a JSON object or null, got [1,2]"
    );
}

#[test]
fn deep_values_are_read_like_others() {
    let deep = "[".repeat(400) + &"]".repeat(400);
    let arguments = format!("{{\"a\":{deep}}}");
    assert_eq!(call_arguments(&arguments), Ok(Some(arguments.as_str())));
    assert_eq!(
        call_arguments(&deep).unwrap_err().message,
        format!("MCP tool arguments must be a JSON object or null, got {deep}")
    );
    let text = mcp_content_item_to_text;
    assert_eq!(text(&format!("{{\"text\":\"t\",\"type\":\"text\",\"x\":{deep}}}")), "t");
    assert_eq!(
        text(&format!("{{\"resource\":{{\"uri\":\"u\",\"x\":{deep}}},\"type\":\"resource\"}}")),
        "[resource: u]"
    );
    assert_eq!(json_to_string(&deep), deep);
}

#[test]
fn fields_are_found_by_name() {
    let field = |name: &str, value: &str| (name.to_string(), value.to_string());
    let fields = vec![field("a", "1"), field("b", "2")];
    assert_eq!(find_value(&fields, "b").as_deref(), Some("2"));
    assert_eq!(find_value(&fields, "c"), None);
    assert_eq!(member("{\"b\":[2],\"a\":1}", "b").as_deref(), Some("[2]"));
    assert_eq!(member("{\"a\":1,\"a\":2}", "a").as_deref(), Some("2"));
    assert_eq!(member("[1]", "a"), None);
}

#[test]
fn arguments_are_read_from_what_they_hold() {
    let some = |text: &str| Some(text.to_string());
    assert_eq!(arguments_from("{}", true, some("{}")), Ok(Some("{}")));
    assert_eq!(arguments_from("null", false, some("null")), Ok(None));
    assert_eq!(
        arguments_from("{", false, None).unwrap_err().message,
        "MCP tool arguments must be a JSON object or null, got {"
    );
}

#[test]
fn items_are_shown_by_their_kind() {
    let some = |text: &str| Some(text.to_string());
    let show = |kind: Option<String>, text| {
        show_item(kind, text, "r".to_string(), "i".to_string(), "w".to_string())
    };
    assert_eq!(show(some("text"), some("t")), "t");
    assert_eq!(show(some("text"), None), "w");
    assert_eq!(show(some("resource"), some("t")), "r");
    assert_eq!(show(some("image"), some("t")), "[image: i]");
    assert_eq!(show(some("audio"), some("t")), "w");
    assert_eq!(show(None, some("t")), "w");
    assert_eq!(show_resource(some("t"), some("u"), "w".to_string()), "t");
    assert_eq!(show_resource(None, some("u"), "w".to_string()), "[resource: u]");
    assert_eq!(show_resource(None, None, "w".to_string()), "w");
}

#[test]
fn answers_of_tools_are_shown_as_text() {
    let text = mcp_content_item_to_text;
    assert_eq!(text("{\"type\":\"text\",\"text\":\"a\\nb\"}"), "a\nb");
    assert_eq!(text("{\"type\":\"text\", \"x\": 1}"), "{\"type\":\"text\",\"x\":1}");
    assert_eq!(text("{\"type\":\"image\",\"mimeType\":\"image/png\"}"), "[image: image/png]");
    assert_eq!(text("{\"type\":\"image\",\"mime\":\"image/gif\"}"), "[image: image/gif]");
    assert_eq!(text("{\"type\":\"image\",\"mimeType\":1,\"mime\":\"x\"}"), "[image: unknown]");
    assert_eq!(text("{\"type\":\"image\"}"), "[image: unknown]");
    assert_eq!(text("{\"type\":\"resource\",\"resource\":{\"text\":\"r\"}}"), "r");
    assert_eq!(
        resource_content_to_text("{\"resource\":{\"uri\":\"file:///a\"}}"),
        "[resource: file:///a]"
    );
    assert_eq!(text("{\"type\" : \"other\"}"), "{\"type\":\"other\"}");
    assert_eq!(text("3"), "3");
    assert_eq!(json_to_string("[1, 2]"), "[1,2]");
    assert_eq!(mcp_content_to_text(&vec![]), "[MCP tool returned no content]");
    assert_eq!(
        mcp_content_to_text(&words(&["{\"type\":\"text\",\"text\":\"a\"}", "1"])),
        "a\n\n1"
    );
}

#[test]
fn calls_that_fail_say_so() {
    let call = || ToolCall {
        id: "call".to_string(),
        name: "mcp__s__t".to_string(),
        arguments: "{}".to_string(),
        thought_signature: None,
    };
    let output = |is_error| {
        Ok(McpCallOutput { content: words(&["1"]), is_error, meta: Some("{}".to_string()) })
    };
    let result = call_result(call(), output(false));
    assert_eq!((result.status, result.content.as_str()), (ToolStatus::Success, "1"));
    assert_eq!(result.tool_name, "mcp__s__t");
    assert_eq!(call_result(call(), output(true)).status, ToolStatus::Error);
    let failed = call_result(call(), Err("gone".to_string()));
    assert_eq!(failed.content, "MCP tool call failed: gone");
    assert_eq!((failed.status, failed.meta), (ToolStatus::Error, None));
}
