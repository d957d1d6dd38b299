//! Workflow runs: how they are found, and what deep research leaves behind.
use exagent::config::{AgentConfig, PolicyMode, WebSearchConfig};
use exagent::config::{ModelCapabilities, ProviderProtocol, ResolvedCredential, ResolvedModelConfig};
use exagent::deep_research::{
    call_lineage, call_turn, compact_artifact_payload, compact_json_array, compact_json_value,
    compact_template_stats, deep_search_stopped_from_error, failed_phase_from_error,
    finish_counted_phase, keep_template_stats, project_deep_search_phase_counts,
    record_deep_search_failure, record_deep_search_success, repair_json, repair_label,
    repaired_answer, run_deep_research_workflow, run_json, run_json_inner,
    start_deep_research_workflow, workflow_child_tokens_used, workflow_source_provider_for_config,
    AgentCallError, AgentJsonResponse, AgentJsonRunStats, DeepSearchEnd, DeepSearchFailure, DeepSearchLimits,
    DeepSearchPhaseCounts, DeepSearchPhaseId, DeepSearchRunResult, DeepSearchStopReason,
    DeepSearchStopped, RunChange, RunEnd, RunStart, WorkflowSource,
};
use exagent::ids::ThreadId;
use exagent::protocol::TurnMode;
use exagent::settings::{agent_config, Environment};
use exagent::types::{AgentType, ModelRef, TokenUsage, TokenUsageInfo};
use exagent::workflow::{
    is_terminal, workflow_cancel, workflow_read, workflow_start, CancelStep, WorkflowRunRegistry,
    WorkflowRunStatus, WorkflowStopReason, WorkflowTemplateId,
};
use serde_json::Value;

fn parsed(text: &str) -> Value {
    serde_json::from_str(text).expect("JSON")
}

fn config() -> AgentConfig {
    let model = ResolvedModelConfig {
        identity: ModelRef {
            provider_id: "openai".to_string(),
            model_id: "gpt-5.5".to_string(),
        },
        protocol: ProviderProtocol::OpenAiChatCompletions,
        credential: ResolvedCredential::Absent,
        capabilities: ModelCapabilities { context_window: None, supports_tools: true },
    };
    agent_config(&Environment::new(), Some("/work".to_string()), model, PolicyMode::Off)
}

fn counts() -> DeepSearchPhaseCounts {
    DeepSearchPhaseCounts {
        searched_angles: 3,
        search_failed: 1,
        search_skipped: 2,
        sources_selected: 9,
        sources_extracted: 5,
        extract_failed: 0,
        extract_skipped: 1,
        claims_ranked: 4,
        verdict_votes: 0,
        verdict_failed: 0,
        verdict_skipped: 3,
        synthesized: true,
    }
}

fn limits() -> DeepSearchLimits {
    DeepSearchLimits { max_angles: 6, votes_per_claim: 3 }
}

fn update(
    phase: DeepSearchPhaseId,
    completed: usize,
    failed: usize,
    skipped: usize,
) -> RunChange {
    RunChange::UpdatePhaseCounts { phase, completed, failed, skipped }
}

#[test]
fn compact_artifact_payload_caps_large_arrays() {
    let items: Vec<String> = (0..52).map(|index| format!("{{\"index\":{index}}}")).collect();
    let value = format!("[{}]", items.join(","));

    let compacted = parsed(&compact_artifact_payload(&value));

    assert_eq!(compacted["items"].as_array().unwrap().len(), 50);
    assert_eq!(compacted["truncated_count"], 2);
}

#[test]
fn compact_template_stats_replaces_oversized_payload() {
    let value = format!("{{\"large\":\"{}\"}}", "x".repeat(16 * 1024 + 1));

    let compacted = parsed(&compact_template_stats(&value));

    assert_eq!(compacted["truncated"], true);
    assert_eq!(compacted["max_bytes"], 16 * 1024);
    assert_eq!(compacted["original_bytes"], value.len());
}

#[test]
fn lists_in_fields_are_cut_short() {
    let value = "{\"b\": [1, 2, 3], \"a\": [1, 2], \"c\": {\"d\": [1, 2, 3]}}";
    let compacted = parsed(&compact_json_value(value, 2));
    assert_eq!(compacted["a"], parsed("[1,2]"));
    assert_eq!(
        compacted["b"],
        parsed("{\"items\":[1,2],\"max_items\":2,\"truncated_count\":1}")
    );
    assert_eq!(compacted["c"], parsed("{\"d\":[1,2,3]}"));
    assert_eq!(compact_json_value("\"text\"", 2), "\"text\"");
    assert_eq!(
        compact_json_array("[1,2,3]", vec!["1".into(), "2".into(), "3".into()], 1),
        "{\"items\":[1],\"max_items\":1,\"truncated_count\":2}"
    );
    assert_eq!(compact_json_array("[1]", vec!["1".into()], 1), "[1]");
}

#[test]
fn small_stats_are_kept() {
    assert_eq!(compact_template_stats("{\"a\":1}"), "{\"a\":1}");
    let text = "é".repeat(8 * 1024 - 1);
    let fits = format!("\"{text}\"");
    assert_eq!(fits.len(), 16 * 1024);
    assert_eq!(compact_template_stats(&fits), fits);
}

#[test]
fn stats_that_cannot_be_written_are_not_kept() {
    assert_eq!(
        keep_template_stats("x", None),
        "{\"reason\":\"template_stats_not_serializable\",\"truncated\":true}"
    );
    assert_eq!(
        keep_template_stats("x", Some("y".repeat(16385))),
        "{\"max_bytes\":16384,\"original_bytes\":16385,\"truncated\":true}"
    );
    assert_eq!(keep_template_stats("x", Some("y".repeat(16384))), "x");
}

#[test]
fn stats_are_measured_without_their_blanks() {
    let text = "x".repeat(16 * 1024 - 8);
    let value = format!("{{ \"a\" : \"{text}\" }}");
    assert!(value.len() > 16 * 1024);
    assert_eq!(parsed(&compact_template_stats(&value)), parsed(&value));
}

#[test]
fn every_phase_shows_what_was_done_in_it() {
    assert_eq!(
        project_deep_search_phase_counts(&counts(), limits()),
        vec![
            update(DeepSearchPhaseId::Scope, 1, 0, 0),
            RunChange::CompletePhase(DeepSearchPhaseId::Scope),
            update(DeepSearchPhaseId::Search, 3, 1, 4),
            RunChange::FailPhase(DeepSearchPhaseId::Search),
            update(DeepSearchPhaseId::Extract, 5, 0, 5),
            RunChange::CompletePhase(DeepSearchPhaseId::Extract),
            update(DeepSearchPhaseId::Verify, 0, 0, 15),
            RunChange::SkipPhase(DeepSearchPhaseId::Verify),
            update(DeepSearchPhaseId::Synthesize, 1, 0, 0),
            RunChange::CompletePhase(DeepSearchPhaseId::Synthesize),
        ]
    );
    assert_eq!(
        finish_counted_phase(DeepSearchPhaseId::Search, 3, 1),
        RunChange::FailPhase(DeepSearchPhaseId::Search)
    );
}

#[test]
fn a_run_that_found_something_is_complete() {
    let mut stats = AgentJsonRunStats::new();
    assert_eq!(stats.next_call_index(), 1);
    assert_eq!(stats.next_call_index(), 2);
    stats.record_failure();
    stats.record_tokens(None);
    assert_eq!(stats.tokens_used, None);
    stats.record_tokens(Some(40));
    stats.record_tokens(Some(2));
    let result = DeepSearchRunResult {
        report: "{\"summary\":\"s\"}".to_string(),
        selected_sources: "[1]".to_string(),
        ranked_claims: "[]".to_string(),
        aggregated_verdicts: "[true]".to_string(),
        stats: "{\"calls\":2}".to_string(),
        summary: "s".to_string(),
        selected_sources_len: 1,
        ranked_claims_len: 0,
        phase_counts: counts(),
        phase_counts_json: "{\"searched_angles\":3}".to_string(),
    };
    let changes = record_deep_search_success(result, limits(), stats);
    assert_eq!(changes.len(), 18);
    assert_eq!(
        changes[10],
        RunChange::RecordArtifact {
            title: "Report".to_string(),
            status: "completed".to_string(),
            payload: "{\"summary\":\"s\"}".to_string(),
        }
    );
    assert_eq!(
        changes[11],
        RunChange::RecordArtifact {
            title: "Sources".to_string(),
            status: "1 selected".to_string(),
            payload: "[1]".to_string(),
        }
    );
    assert_eq!(changes[14], RunChange::SetReportSummary("s".to_string()));
    let RunChange::SetTemplateStats(text) = &changes[15] else {
        panic!("no stats");
    };
    assert_eq!(
        parsed(text),
        parsed("{\"calls\":2,\"phase_counts\":{\"searched_angles\":3}}")
    );
    assert_eq!(
        changes[16],
        RunChange::AddAgentStats {
            calls: 2,
            failed_calls: 1,
            extra_calls: 0,
            tokens_used: Some(42),
        }
    );
    assert_eq!(changes[17], RunChange::Complete);
}

/// How a run shows each of its phases after these changes.
fn phase_statuses(changes: &[RunChange]) -> Vec<(&'static str, &'static str)> {
    let phases = [
        ("scope", DeepSearchPhaseId::Scope),
        ("search", DeepSearchPhaseId::Search),
        ("extract", DeepSearchPhaseId::Extract),
        ("verify", DeepSearchPhaseId::Verify),
        ("synthesize", DeepSearchPhaseId::Synthesize),
    ];
    phases
        .iter()
        .map(|(name, phase)| {
            let failed = changes.contains(&RunChange::FailPhase(*phase));
            let skipped = changes.contains(&RunChange::SkipPhase(*phase));
            let status = match (failed, skipped) {
                (true, false) => "failed",
                (false, true) => "skipped",
                _ => "unknown",
            };
            (*name, status)
        })
        .collect()
}

#[test]
fn record_failure_does_not_infer_phase_from_plain_error_message() {
    let failure = DeepSearchFailure {
        message: "deep search extract phase failed".to_string(),
        causes: vec![None],
        phase: None,
    };
    let changes = record_deep_search_failure(&failure, AgentJsonRunStats::new());

    assert_eq!(changes.last(), Some(&RunChange::Fail));
    assert_eq!(
        phase_statuses(&changes),
        vec![
            ("scope", "failed"),
            ("search", "skipped"),
            ("extract", "skipped"),
            ("verify", "skipped"),
            ("synthesize", "skipped"),
        ]
    );
    assert_eq!(
        changes[1],
        RunChange::SetReportSummary(
            "Deep search failed: deep search extract phase failed".to_string()
        )
    );
}

fn stopped(observed: u64, limit: u64) -> DeepSearchStopped {
    DeepSearchStopped {
        phase: DeepSearchPhaseId::Verify,
        reason: DeepSearchStopReason::TokenBudgetExceeded,
        reason_name: "token_budget_exceeded".to_string(),
        observed,
        limit,
    }
}

#[test]
fn record_failure_exposes_typed_stop_reason_on_run_view() {
    let failure = DeepSearchFailure {
        message: "stopped".to_string(),
        causes: vec![Some(stopped(101, 100))],
        phase: None,
    };

    let changes = record_deep_search_failure(&failure, AgentJsonRunStats::new());

    assert_eq!(changes.last(), Some(&RunChange::Fail));
    assert!(changes.contains(&RunChange::SetStopReason(WorkflowStopReason::TokenBudgetExceeded)));
    assert_eq!(phase_statuses(&changes)[3], ("verify", "failed"));
    let RunChange::RecordArtifact { title, status, payload } = &changes[0] else {
        panic!("no artifact");
    };
    assert_eq!((title.as_str(), status.as_str()), ("Error", "failed"));
    let payload = parsed(payload);
    assert_eq!(payload["error"], "stopped");
    assert_eq!(payload["stop_reason"], "token_budget_exceeded");
    assert_eq!(payload["phase"], "verify");
    assert_eq!(payload["observed"], 101);
    assert_eq!(payload["limit"], 100);
}

#[test]
fn stops_are_found_behind_other_causes() {
    let failure = DeepSearchFailure {
        message: "stopped".to_string(),
        causes: vec![None, Some(stopped(21, 20))],
        phase: Some(DeepSearchPhaseId::Search),
    };
    assert_eq!(failed_phase_from_error(&failure), DeepSearchPhaseId::Verify);
    assert_eq!(deep_search_stopped_from_error(&failure).unwrap().observed, 21);
}

#[test]
fn messages_are_quoted() {
    let failure = DeepSearchFailure {
        message: "a \"b\"\n\u{1}".to_string(),
        causes: vec![],
        phase: Some(DeepSearchPhaseId::Extract),
    };
    let changes = record_deep_search_failure(&failure, AgentJsonRunStats::new());
    let RunChange::RecordArtifact { payload, .. } = &changes[0] else {
        panic!("no artifact");
    };
    assert_eq!(payload, "{\"error\":\"a \\\"b\\\"\\n\\u0001\"}");
    assert_eq!(
        changes.iter().filter(|change| matches!(change, RunChange::FailPhase(_))).count(),
        1
    );
    assert_eq!(
        changes.iter().filter(|change| matches!(change, RunChange::SkipPhase(_))).count(),
        4
    );
}

#[test]
fn runs_that_are_over_stay_as_they_are() {
    for status in [WorkflowRunStatus::Completed, WorkflowRunStatus::Failed, WorkflowRunStatus::Cancelled] {
        assert!(is_terminal(status));
        for ended in [DeepSearchEnd::Found, DeepSearchEnd::Failed, DeepSearchEnd::Cancelled] {
            assert_eq!(run_deep_research_workflow(ended, false, status), RunEnd::Leave);
        }
    }
    for status in [WorkflowRunStatus::Queued, WorkflowRunStatus::Running] {
        assert!(!is_terminal(status));
        assert_eq!(
            run_deep_research_workflow(DeepSearchEnd::Found, true, status),
            RunEnd::RecordSuccess
        );
        assert_eq!(
            run_deep_research_workflow(DeepSearchEnd::Cancelled, true, status),
            RunEnd::Cancel
        );
        assert_eq!(
            run_deep_research_workflow(DeepSearchEnd::Cancelled, false, status),
            RunEnd::RecordFailure
        );
    }
}

#[test]
fn runs_that_are_over_do_not_start() {
    for status in [WorkflowRunStatus::Completed, WorkflowRunStatus::Failed, WorkflowRunStatus::Cancelled] {
        assert_eq!(start_deep_research_workflow(Some(status)), RunStart::Leave);
    }
    for status in [WorkflowRunStatus::Queued, WorkflowRunStatus::Running] {
        assert_eq!(start_deep_research_workflow(Some(status)), RunStart::Start);
    }
    assert_eq!(start_deep_research_workflow(None), RunStart::Leave);
}

#[test]
fn failed_calls_are_counted() {
    let mut stats = AgentJsonRunStats::new();
    assert_eq!(stats.next_call_index(), 1);
    let failed = run_json(&mut stats, Err("busy"), Ok(()), Some(5), None);
    assert_eq!(failed, Err(AgentCallError { context: None, cause: "busy" }));
    assert_eq!((stats.calls, stats.failed_calls, stats.tokens_used), (1, 1, None));

    assert_eq!(stats.next_call_index(), 2);
    let failed = run_json(&mut stats, Ok(None), Err("stuck"), Some(5), None);
    let context = Some("failed to shut down workflow child runtime".to_string());
    assert_eq!(failed, Err(AgentCallError { context, cause: "stuck" }));
    assert_eq!((stats.calls, stats.failed_calls, stats.tokens_used), (2, 2, Some(5)));

    assert_eq!(stats.next_call_index(), 3);
    let text = || Some("{\"ok\":true}".to_string());
    let answer = run_json::<&str>(&mut stats, Ok(text()), Ok(()), Some(37), text()).unwrap();
    assert_eq!(answer.text, "{\"ok\":true}");
    assert_eq!(answer.value, "{\"ok\":true}");
    assert_eq!(answer.tokens_used, Some(37));
    assert_eq!((stats.calls, stats.failed_calls, stats.tokens_used), (3, 2, Some(42)));
}

/// A list that holds a list, and so on.
fn nested(levels: usize) -> String {
    "[".repeat(levels) + &"]".repeat(levels)
}

#[test]
fn deep_values_are_cut_short_too() {
    let deep = nested(400);
    let list = format!("[{deep},1,2]");
    assert_eq!(
        compact_json_value(&list, 1),
        format!("{{\"items\":[{deep}],\"max_items\":1,\"truncated_count\":2}}")
    );
    let object = format!("{{\"a\":{list},\"b\":{deep}}}");
    assert_eq!(
        compact_json_value(&object, 2),
        format!(
            "{{\"a\":{{\"items\":[{deep},1],\"max_items\":2,\"truncated_count\":1}},\"b\":{deep}}}"
        )
    );
    assert_eq!(compact_template_stats(&object), object);
    let answer = run_json_inner(Some(" ".to_string()), Some(object.clone()), None);
    assert_eq!(repair_json(answer), object);
}

#[test]
fn sources_come_from_the_configured_search() {
    let search = |provider: &str| {
        Some(WebSearchConfig { provider: provider.to_string(), api_key: "key".to_string() })
    };
    assert_eq!(workflow_source_provider_for_config(true, &None), WorkflowSource::Given);
    assert_eq!(
        workflow_source_provider_for_config(false, &None),
        WorkflowSource::Unavailable { reason: "web search is not configured".to_string() }
    );
    assert_eq!(
        workflow_source_provider_for_config(false, &search("Brave")),
        WorkflowSource::Brave { api_key: "key".to_string() }
    );
    assert_eq!(
        workflow_source_provider_for_config(false, &search("Other")),
        WorkflowSource::Unavailable {
            reason: "unsupported web search provider: Other".to_string()
        }
    );
}

#[test]
fn agents_of_a_run_stand_below_its_thread() {
    let root = ThreadId::new("thread_1");
    let lineage = call_lineage(&root, "workflow_run_thread_1", 3, "Search Angle");
    assert_eq!(lineage.agent_path, "/root/workflow-workflow_run_thread_1/3-search-angle");
    assert_eq!(lineage.parent_thread_id, root);
    assert_eq!(lineage.root_thread_id, root);
    assert_eq!(lineage.depth, 1);
    assert_eq!(lineage.agent_type, Some(AgentType::WorkflowResearch));
    assert_eq!(lineage.agent_role.as_deref(), Some("workflow_json_runner"));
    assert_eq!(lineage.agent_nickname.as_deref(), Some("Search Angle"));

    let turn = call_turn(ThreadId::new("child"), "ask".to_string(), &config());
    assert_eq!(turn.prompt, "ask");
    assert_eq!(turn.workspace_root.as_deref(), Some("/work"));
    assert_eq!(turn.turn_mode, TurnMode::Normal);
    assert!(turn.input.is_empty());
}

#[test]
fn agents_answer_with_text_and_an_object() {
    let answer = run_json_inner(None, None, Some(7));
    assert_eq!(
        answer,
        AgentJsonResponse { text: String::new(), value: "null".to_string(), tokens_used: Some(7) }
    );
    assert_eq!(repair_json(answer), "");
    let answer = run_json_inner(Some(" ".to_string()), Some("{ \"a\": 1 }".to_string()), None);
    assert_eq!(repair_json(answer), "{\"a\":1}");
    let answer = run_json_inner(Some("text".to_string()), Some("{}".to_string()), None);
    assert_eq!(repair_json(answer), "text");
    let answer = run_json_inner(Some(" ".to_string()), Some("[1]".to_string()), None);
    assert_eq!(repair_json(answer), " ");
    assert_eq!(repaired_answer("\t".to_string(), Some("{}".to_string())), "{}");
    assert_eq!(repaired_answer("t".to_string(), Some("{}".to_string())), "t");
    assert_eq!(repaired_answer("".to_string(), None), "");
    assert_eq!(repair_label("Scope Output"), "repair-scope-output");
}

#[test]
fn tokens_are_read_from_the_live_agent_first() {
    let usage = |total| TokenUsageInfo {
        total_token_usage: TokenUsage { input_tokens: 0, output_tokens: 0, total_tokens: total },
        last_token_usage: TokenUsage { input_tokens: 0, output_tokens: 0, total_tokens: 1 },
    };
    assert_eq!(workflow_child_tokens_used(Some(usage(5)), Some(usage(4))), Some(5));
    assert_eq!(workflow_child_tokens_used(None, Some(usage(4))), Some(4));
    assert_eq!(workflow_child_tokens_used(None, None), None);
}

#[test]
fn runs_are_found_in_their_workspace() {
    let mut runs: WorkflowRunRegistry<u32> = WorkflowRunRegistry::new();
    let run_id = "workflow_run_a".to_string();
    assert!(runs.find(&run_id).is_none());
    assert!(runs.get(&run_id, "/work").is_err());
    runs.insert(run_id.clone(), "/work".to_string(), 1);
    assert_eq!(runs.get(&run_id, "/work").unwrap().handle, 1);
    assert_eq!(runs.get(&run_id, "/work/").unwrap().handle, 1);
    assert_eq!(
        runs.get(&run_id, "/other").unwrap_err().message(),
        "invalid request: workflow run not found in workspace: workflow_run_a"
    );
    runs.insert(run_id.clone(), "/work".to_string(), 2);
    assert_eq!(runs.find(&run_id).unwrap().handle, 2);
}

#[test]
fn runs_start_queued() {
    let start = workflow_start(
        &WorkflowTemplateId::DeepResearch,
        "why?",
        ThreadId::new("thread_1"),
    );
    assert_eq!(start.label, "Deep research: why?");
    assert_eq!(start.response.run_id, "workflow_run_thread_1");
    assert_eq!(start.response.thread_id.as_str(), "thread_1");
}

#[test]
fn only_runs_that_are_over_are_read_from_storage() {
    let known = |root: &str| Some((root.to_string(), 1));
    let read = |known, stored| workflow_read("workflow_run_a", "/work", known, stored);
    assert_eq!(read(known("/work"), None), Ok(1));
    assert!(read(known("/other"), Some((WorkflowRunStatus::Completed, 2))).is_err());
    assert_eq!(read(None, Some((WorkflowRunStatus::Completed, 2))), Ok(2));
    assert!(read(None, Some((WorkflowRunStatus::Running, 2))).is_err());
    assert!(read(None, None).is_err());
}

#[test]
fn runs_are_cancelled_while_they_run() {
    let cancel = |known: Option<(&str, WorkflowRunStatus)>| {
        workflow_cancel(
            "workflow_run_a",
            "/work",
            known.map(|(root, status)| (root.to_string(), status)),
        )
    };
    assert_eq!(cancel(Some(("/work", WorkflowRunStatus::Running))), Ok(CancelStep::Cancel));
    assert_eq!(cancel(Some(("/work", WorkflowRunStatus::Completed))), Ok(CancelStep::Leave));
    assert_eq!(cancel(None), Ok(CancelStep::ReadStored));
    assert!(cancel(Some(("/other", WorkflowRunStatus::Running))).is_err());
}
