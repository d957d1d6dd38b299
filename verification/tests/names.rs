//! Names: slugs, ids, labels and the names of tools.
use exagent::config::McpServerConfig;
use exagent::deep_research::sanitize_agent_path_segment;
use exagent::desktop::{create_project_worktree, git_failure, rename_project, rename_thread, slugify};
use exagent::exec_session::ExecCounters;
use exagent::ids::ThreadId;
use exagent::mcp::{
    discovered_tools, normalized_component, stable_hash32, truncate_ascii, visible_tool_name,
    McpToolDefinition,
};
use exagent::protocol::{validate_thread_goal_objective, MAX_THREAD_GOAL_OBJECTIVE_CHARS};
use exagent::workflow::{
    is_valid_workflow_thread_id_suffix, truncate_label, workflow_label, workflow_run_id,
    workflow_thread_id_from_run_id, WorkflowTemplateId,
};

#[test]
fn slugify_generates_stable_ascii_slug() {
    assert_eq!(slugify("ExAgent Desktop"), "exagent-desktop");
    assert_eq!(slugify("  项目 管理  "), "project");
}

#[test]
fn slugs_keep_letters_and_digits() {
    for (name, letters) in [
        ("ExAgent  Desktop 2", "exagentdesktop2"),
        ("--a--B__c--", "abc"),
        ("Ä b\u{212a}9", "b9"),
        (" \u{9879} ", ""),
    ] {
        let slug = slugify(name);
        assert!(slug.chars().all(|c| matches!(c, 'a'..='z' | '0'..='9' | '-')));
        assert!(!slug.starts_with('-') && !slug.ends_with('-') && !slug.contains("--"));
        assert_eq!(slugify(&name.to_ascii_uppercase()), slug);
        let expected = if letters.is_empty() { "project" } else { letters };
        assert_eq!(slug.replace('-', ""), expected);
    }
}

#[test]
fn slugs_of_slugs_are_the_same() {
    for name in ["ExAgent Desktop", "--a--B__c--", "", "x", "A1 b2  C3", "ÄÖÜ ok"] {
        let slug = slugify(name);
        assert!(!slug.is_empty());
        assert_eq!(slugify(&slug), slug);
    }
    assert_eq!(slugify("--a--B__c--"), "a-b-c");
}

#[test]
fn worktrees_stand_beside_the_repository() {
    let plan = create_project_worktree("My Project", "/code/repo", Some("/code"), 1234);
    assert_eq!(plan.path, "/code/.worktrees/my-project-1234");
    assert_eq!(plan.branch, "codex/my-project-worktree-1234");
    assert_eq!(plan.project.name, "My Project Worktree");
    assert_eq!(plan.project.path, plan.path);

    let plan = create_project_worktree("!", "/", None, 0);
    assert_eq!(plan.path, "/.exagent/.worktrees/project-0");
}

#[test]
fn blank_names_are_turned_down() {
    assert_eq!(rename_project(" \n"), Err("project name cannot be empty"));
    assert_eq!(rename_project("x"), Ok(()));
    assert_eq!(rename_thread(""), Err("thread title cannot be empty"));
    assert_eq!(rename_thread(" y "), Ok(()));
    assert_eq!(
        git_failure("git worktree add failed", " fatal: no\n"),
        "git worktree add failed: fatal: no"
    );
}

#[test]
fn thread_goal_objective_validation_rejects_empty_whitespace_and_long_values() {
    assert_eq!(
        validate_thread_goal_objective("").unwrap_err(),
        "goal objective must not be empty"
    );
    assert_eq!(
        validate_thread_goal_objective("   \n\t").unwrap_err(),
        "goal objective must not be empty"
    );
    assert_eq!(
        validate_thread_goal_objective(&"x".repeat(MAX_THREAD_GOAL_OBJECTIVE_CHARS + 1))
            .unwrap_err(),
        "goal objective must be at most 4000 characters"
    );
}

#[test]
fn thread_goal_objectives_of_the_greatest_length_are_taken() {
    assert!(validate_thread_goal_objective(&"x".repeat(MAX_THREAD_GOAL_OBJECTIVE_CHARS)).is_ok());
}

#[test]
fn workflow_run_id_suffix_must_be_plain_thread_id_segment() {
    let valid =
        workflow_thread_id_from_run_id("workflow_run_thread-123_abc").expect("valid run id");
    assert_eq!(valid.as_str(), "thread-123_abc");

    for run_id in [
        "thread-123",
        "workflow_run_",
        "workflow_run_ ",
        "workflow_run_.",
        "workflow_run_..",
        "workflow_run_thread/child",
        "workflow_run_thread\\child",
        "workflow_run_../thread",
        "workflow_run_thread child",
        "workflow_run_thread.child",
    ] {
        assert!(
            workflow_thread_id_from_run_id(run_id).is_err(),
            "accepted invalid workflow run id: {run_id}"
        );
    }
}

#[test]
fn run_ids_lead_back_to_their_threads() {
    let thread_id = ThreadId::new("thread_9-Z");
    let run_id = workflow_run_id(&thread_id);
    assert_eq!(run_id, "workflow_run_thread_9-Z");
    assert_eq!(workflow_thread_id_from_run_id(&run_id), Ok(thread_id));
    assert!(is_valid_workflow_thread_id_suffix("a_b-C9"));
    assert!(!is_valid_workflow_thread_id_suffix(""));
    assert_eq!(
        workflow_thread_id_from_run_id("other").unwrap_err().message(),
        "invalid request: workflow run not found: other"
    );
}

#[test]
fn labels_hold_the_start_of_the_question() {
    let template = WorkflowTemplateId::DeepResearch;
    assert_eq!(workflow_label(&template, "  "), "Deep research");
    assert_eq!(workflow_label(&template, " why? "), "Deep research: why?");
    assert_eq!(truncate_label(&"ü".repeat(120)), "ü".repeat(120));
    assert_eq!(truncate_label(&"ü".repeat(121)), format!("{}...", "ü".repeat(120)));
}

#[test]
fn agent_path_segments_are_plain() {
    assert_eq!(sanitize_agent_path_segment("ScopeOutput"), "scopeoutput");
    assert_eq!(sanitize_agent_path_segment(" a/B_c "), "a-b_c");
    assert_eq!(sanitize_agent_path_segment("--"), "agent");
    assert_eq!(sanitize_agent_path_segment(""), "agent");
}

#[test]
fn exec_ids_count_from_one() {
    let mut counters = ExecCounters::new();
    assert_eq!(counters.new_exec_session_id().as_str(), "exec_1");
    assert_eq!(counters.new_exec_session_id().as_str(), "exec_2");
    assert_eq!(counters.new_exec_event_id().as_str(), "exec_evt_1");
    assert_eq!(counters.new_exec_event_id().as_str(), "exec_evt_2");
}

fn server(id: &str) -> McpServerConfig {
    McpServerConfig {
        id: id.to_string(),
        display_name: id.to_string(),
        command: "run".to_string(),
        args: vec![],
        env: vec![],
        working_directory: None,
    }
}

fn tool(name: &str) -> McpToolDefinition {
    McpToolDefinition {
        name: name.to_string(),
        description: format!("does {name}"),
        input_schema: "{}".to_string(),
    }
}

#[test]
fn server_ids_are_normalized() {
    assert_eq!(McpServerConfig::normalized_id("my server!"), "my_server");
    assert_eq!(McpServerConfig::normalized_id("__a-b__"), "a-b");
    assert_eq!(McpServerConfig::normalized_id("..."), "");
    assert_eq!(server("my server").tool_prefix(), "mcp__my_server__");
    assert_eq!(normalized_component("...", "server"), "server");
    assert_eq!(truncate_ascii("abcdef", 3), "abc");
    assert_eq!(truncate_ascii("abc", 3), "abc");
}

#[test]
fn tool_hashes_are_fnv_1a() {
    fn expected(server: &str, tool: &str, index: usize, attempt: usize) -> u32 {
        let mut bytes: Vec<u8> = Vec::new();
        bytes.extend(server.bytes());
        bytes.push(0);
        bytes.extend(tool.bytes());
        bytes.push(0);
        bytes.extend(index.to_le_bytes());
        bytes.push(0);
        bytes.extend(attempt.to_le_bytes());
        let mut hash = 0x811c9dc5u32;
        for byte in bytes {
            hash ^= u32::from(byte);
            hash = hash.wrapping_mul(0x01000193);
        }
        hash
    }
    for (index, attempt) in [(0, 0), (1, 0), (0, 1), (300, 70_000)] {
        assert_eq!(
            stable_hash32("sérver", "tool", index, attempt),
            expected("sérver", "tool", index, attempt)
        );
    }
}

#[test]
fn attempts_to_name_a_tool_differ() {
    let mut hashes: Vec<u32> = (0..256).map(|n| stable_hash32("s", "t", 0, n)).collect();
    hashes.sort();
    hashes.dedup();
    assert_eq!(hashes.len(), 256);
}

#[test]
fn tools_have_short_names_of_their_own() {
    let mut used: Vec<String> = vec![];
    let first = visible_tool_name("files", "read", 0, &mut used).unwrap();
    assert_eq!(first, "mcp__files__read");
    let second = visible_tool_name("files", "read", 1, &mut used).unwrap();
    assert_eq!(
        second,
        format!("mcp__files__read_{:08x}", stable_hash32("files", "read", 1, 0))
    );
    let long = visible_tool_name(&"s".repeat(30), &"t".repeat(80), 2, &mut used).unwrap();
    assert_eq!(long.len(), 64);
    assert_eq!(
        long,
        format!(
            "mcp__{}__{}_{:08x}",
            "s".repeat(24),
            "t".repeat(24),
            stable_hash32(&"s".repeat(30), &"t".repeat(80), 2, 0)
        )
    );
    assert_eq!(used, vec![first, second, long]);
}

#[test]
fn the_tools_of_a_server_are_named_one_after_the_other() {
    let mut used = vec!["mcp__files__read".to_string()];
    let tools = discovered_tools(
        &server("files"),
        vec![tool("read"), tool("write file"), tool("write_file")],
        &mut used,
    )
    .unwrap();
    assert_eq!(tools.len(), 3);
    assert_eq!(
        tools[0].spec.name,
        format!("mcp__files__read_{:08x}", stable_hash32("files", "read", 0, 0))
    );
    assert_eq!(tools[1].spec.name, "mcp__files__write_file");
    assert_eq!(tools[1].tool_name, "write file");
    assert_eq!(tools[1].spec.description, "does write file");
    assert_eq!(
        tools[2].spec.name,
        format!("mcp__files__write_file_{:08x}", stable_hash32("files", "write_file", 2, 0))
    );
    assert_eq!(used.len(), 4);
}

#[test]
fn hundreds_of_tools_find_names() {
    let mut used: Vec<String> = vec![];
    let definitions: Vec<McpToolDefinition> = (0..200).map(|_| tool("same")).collect();
    let tools = discovered_tools(&server("s"), definitions, &mut used).unwrap();
    let mut names: Vec<String> = tools.into_iter().map(|tool| tool.spec.name).collect();
    names.sort();
    names.dedup();
    assert_eq!(names.len(), 200);
}
