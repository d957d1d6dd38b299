//! What is remembered, and who may see it.
use exagent::memory::{
    audit_event, audit_response, audit_scope_predicate, clamp_limit, details_or_null, memory_audit,
    memory_context, memory_entry_matches_scope,
    memory_entry_view, memory_forget, memory_hit_view, memory_list, memory_promote,
    memory_save_input, memory_search, memory_update, memory_update_input, memory_update_status,
    parse_entry_kind, parse_memory_scope, project_memory_context, MemoryAuditEventView,
    MemoryAuditRow, MemoryChange, MemoryContextStep,
    MemoryEntryKind, MemoryEntryRecord, MemoryError, MemoryRequestContext, MemorySaveInputView,
    MemoryScope, MemorySearchHit, MemoryUpdateAction, MemoryUpdateParams,
};

fn global() -> MemoryRequestContext {
    MemoryRequestContext { scope: MemoryScope::Global, project_id: None }
}

fn project() -> MemoryRequestContext {
    MemoryRequestContext { scope: MemoryScope::Project, project_id: Some("p".to_string()) }
}

fn update(action: MemoryUpdateAction) -> MemoryUpdateParams {
    MemoryUpdateParams {
        workspace_root: None,
        scope: None,
        entry_id: "e".to_string(),
        action,
        kind: None,
        title: None,
        content: None,
        files: None,
        concepts: None,
        pinned: None,
    }
}

#[test]
fn scopes_and_kinds_have_names() {
    assert_eq!(parse_memory_scope(Some("global")), Ok(MemoryScope::Global));
    assert_eq!(parse_memory_scope(Some("project")), Ok(MemoryScope::Project));
    assert_eq!(parse_memory_scope(None), Ok(MemoryScope::Project));
    assert_eq!(
        parse_memory_scope(Some("a \"b\"\n")).unwrap_err().message(),
        "unsupported desktop memory scope \"a \\\"b\\\"\\n\""
    );
    for kind in [
        MemoryEntryKind::Architecture,
        MemoryEntryKind::Preference,
        MemoryEntryKind::Workflow,
        MemoryEntryKind::Bug,
        MemoryEntryKind::Fact,
    ] {
        assert_eq!(parse_entry_kind(kind.as_str()), Ok(kind));
    }
    assert_eq!(
        parse_entry_kind("rumour").unwrap_err().message(),
        "unsupported memory kind \"rumour\""
    );
}

#[test]
fn requests_are_about_one_scope() {
    let root = Some("/work".to_string());
    assert_eq!(
        memory_context(true, root.clone(), Some("global")),
        Ok(MemoryContextStep::Ready(global()))
    );
    assert_eq!(
        memory_context(true, root.clone(), None),
        Ok(MemoryContextStep::ResolveProject { workspace_root: "/work".to_string() })
    );
    assert_eq!(
        memory_context(true, None, None).unwrap_err().message(),
        "workspace_root is required for memory APIs"
    );
    assert_eq!(
        memory_context(false, root, None).unwrap_err().message(),
        "memory runtime unavailable"
    );
    assert_eq!(project_memory_context(Some("p".to_string())), Ok(project()));
    assert_eq!(
        project_memory_context(None).unwrap_err().message(),
        "workspace_root is not registered as a desktop project"
    );
}

#[test]
fn searches_are_limited() {
    assert_eq!((clamp_limit(0), clamp_limit(7), clamp_limit(999)), (1, 7, 200));
    let (inspect, query) = memory_search(project(), " \t".to_string(), 0);
    assert!(inspect);
    assert_eq!(query.limit, 1);
    assert_eq!(query.project_id.as_deref(), Some("p"));
    assert!(!memory_search(global(), "x".to_string(), 5).0);
    let query = memory_list(global(), None, None);
    assert_eq!((query.query.as_str(), query.limit), ("", 50));
    assert_eq!(memory_list(global(), Some("q".to_string()), Some(500)).limit, 200);
}

#[test]
fn entries_are_saved_under_their_kind() {
    let input = |kind: &str| MemorySaveInputView {
        kind: kind.to_string(),
        title: "t".to_string(),
        content: "c".to_string(),
        files: vec!["f".to_string()],
        concepts: vec![],
        pinned: true,
    };
    let saved = memory_save_input(input("bug"), MemoryScope::Project).unwrap();
    assert_eq!(saved.kind, MemoryEntryKind::Bug);
    assert_eq!(saved.files, vec!["f"]);
    assert!(saved.source_refs.is_empty());
    assert!(memory_save_input(input("?"), MemoryScope::Project).is_err());
}

#[test]
fn changes_of_state_edit_nothing() {
    let mut pin = update(MemoryUpdateAction::Pin);
    assert_eq!(memory_update_status(&pin), Ok("active"));
    let command = memory_update(&pin, &project(), true).unwrap();
    assert_eq!(command.change, MemoryChange::SetPinned(true));
    assert_eq!(command.project_id.as_deref(), Some("p"));
    assert_eq!(memory_update(&pin, &global(), true).unwrap().project_id, None);
    assert_eq!(
        memory_update(&pin, &project(), false).unwrap_err().message(),
        "memory entry e is not visible in the selected scope with status active"
    );
    pin.title = Some("t".to_string());
    assert_eq!(
        memory_update(&pin, &project(), true).unwrap_err().message(),
        "memory_update state action does not accept edit fields"
    );
    assert_eq!(memory_update_status(&update(MemoryUpdateAction::Unarchive)), Ok("archived"));
    assert_eq!(memory_update_status(&update(MemoryUpdateAction::Reject)), Ok("candidate"));
}

#[test]
fn entries_are_replaced_whole() {
    let mut edit = update(MemoryUpdateAction::Supersede);
    let message = |params: &MemoryUpdateParams| {
        memory_update_input(params, MemoryScope::Project).unwrap_err().message()
    };
    assert_eq!(message(&edit), "memory_update supersede/edit requires kind");
    edit.kind = Some("fact".to_string());
    assert_eq!(message(&edit), "memory_update supersede/edit requires title");
    edit.title = Some("t".to_string());
    assert_eq!(message(&edit), "memory_update supersede/edit requires content");
    edit.content = Some("c".to_string());
    let input = memory_update_input(&edit, MemoryScope::Project).unwrap();
    assert_eq!(input.kind, MemoryEntryKind::Fact);
    assert!(!input.pinned);
    let command = memory_update(&edit, &project(), true).unwrap();
    assert_eq!(command.change, MemoryChange::Supersede(input));
}

#[test]
fn only_visible_entries_are_forgotten() {
    let id = "e".to_string();
    assert_eq!(memory_forget(&id, &project(), true), Ok(Some("p".to_string())));
    assert_eq!(memory_forget(&id, &global(), true), Ok(None));
    assert_eq!(
        memory_forget(&id, &global(), false).unwrap_err().message(),
        "memory entry e is not visible in the selected scope"
    );
    assert_eq!(memory_promote(&id, true), Ok(()));
    assert!(memory_promote(&id, false).is_err());
}

#[test]
fn entries_are_looked_up_in_their_scope() {
    let query =
        memory_entry_matches_scope("e", MemoryScope::Project, Some("p"), None, Some("active"))
            .unwrap();
    assert!(query.sql.ends_with(
        " AND scope = 'project' AND project_id = ? AND status = ? LIMIT 1"
    ));
    assert_eq!(query.binds, vec!["e", "p", "active"]);
    assert_eq!(query.sql.matches('?').count(), query.binds.len());
    let query = memory_entry_matches_scope("e", MemoryScope::Global, None, None, None).unwrap();
    assert_eq!(query.binds, vec!["e"]);
    assert_eq!(
        memory_entry_matches_scope("e", MemoryScope::Thread, Some("p"), None, None),
        Err(MemoryError::ThreadRequired)
    );
    assert_eq!(
        memory_entry_matches_scope("e", MemoryScope::Thread, None, None, None)
            .unwrap_err()
            .message(),
        "thread scope requires project_id"
    );
}

#[test]
fn audits_stay_in_their_scope() {
    let (query, rows) = memory_audit(Some("e"), &project(), None).unwrap();
    assert_eq!(rows, 50);
    assert_eq!(query.binds, vec!["e", "p"]);
    assert_eq!(query.sql.matches('?').count(), query.binds.len() + 1);
    assert!(query.sql.contains("a.memory_id = ?\n  AND e.scope = 'project' AND e.project_id = ?"));
    let (query, rows) = memory_audit(None, &global(), Some(0)).unwrap();
    assert_eq!((query.binds.len(), rows), (0, 1));
    assert_eq!(
        audit_scope_predicate(MemoryScope::Thread, None).unwrap_err().message(),
        "thread scope is not exposed by desktop memory APIs"
    );
    assert!(audit_scope_predicate(MemoryScope::Project, None).is_err());
}

#[test]
fn flagged_entries_are_quarantined() {
    let entry = |suspicious_injection| MemoryEntryRecord {
        id: "e".to_string(),
        scope: MemoryScope::Project,
        kind: MemoryEntryKind::Fact,
        title: "t".to_string(),
        content: "c".to_string(),
        files: vec![],
        concepts: vec![],
        confidence: 0.5f64.to_bits(),
        pinned: false,
        status: "active".to_string(),
        suspicious_injection,
        inactive_reason: None,
        supersedes_id: None,
        created_at_ms: 1,
        updated_at_ms: 2,
    };
    let view = memory_entry_view(entry(true));
    assert!(view.quarantined && !view.stale);
    assert_eq!(
        view.quarantine_reason.as_deref(),
        Some("Prompt-injection or sensitive provenance flagged")
    );
    assert_eq!((view.scope.as_str(), view.kind.as_str()), ("project", "fact"));
    assert_eq!(f64::from_bits(view.confidence), 0.5);
    assert_eq!(memory_entry_view(entry(false)).quarantine_reason, None);
    let hit = memory_hit_view(MemorySearchHit {
        source_id: "e".to_string(),
        source: "entry".to_string(),
        scope: MemoryScope::Thread,
        kind: "fact".to_string(),
        title: "t".to_string(),
        body: "b".to_string(),
        files: vec![],
        concepts: vec![],
        confidence: 0,
        stale: true,
        quarantined: false,
        rank: 1.5f64.to_bits(),
        pinned: false,
        status: None,
        use_count: 3,
        supersedes_id: None,
    });
    assert_eq!((hit.id.as_str(), hit.scope.as_str(), hit.use_count), ("e", "thread", 3));
}

fn audit_row(detail_json: &str) -> MemoryAuditRow {
    MemoryAuditRow {
        id: "a1".to_string(),
        memory_id: "m1".to_string(),
        action: "update".to_string(),
        actor: "desktop".to_string(),
        detail_json: detail_json.to_string(),
        created_at_ms: 12,
    }
}

#[test]
fn audits_show_details_that_can_be_read() {
    let event = audit_event(audit_row("{ \"b\": [1, 2], \"a\": null }"));
    assert_eq!(
        event,
        MemoryAuditEventView {
            id: "a1".to_string(),
            memory_id: "m1".to_string(),
            action: "update".to_string(),
            actor: "desktop".to_string(),
            created_at_ms: 12,
            details: "{\"a\":null,\"b\":[1,2]}".to_string(),
        }
    );
    for text in ["", "{", "{} {}", &("[".repeat(200) + &"]".repeat(200))] {
        assert_eq!(audit_event(audit_row(text)).details, "null");
    }
    assert_eq!(details_or_null(Some("3".to_string())), "3");
    assert_eq!(details_or_null(None), "null");
}

#[test]
fn audits_show_every_row_in_order() {
    let response = audit_response(vec![audit_row("1"), audit_row("not JSON"), audit_row("\"x\"")]);
    let details: Vec<&str> = response.events.iter().map(|event| event.details.as_str()).collect();
    assert_eq!(details, vec!["1", "null", "\"x\""]);
    assert!(audit_response(vec![]).events.is_empty());
}
