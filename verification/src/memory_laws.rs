//! What requests about memory do to entries, and which entries they can reach.
use vstd::prelude::*;

use crate::json;
use crate::memory;
use crate::memory::{
    MemoryAuditRow, MemoryChangeModel, MemoryEntryKind, MemoryErrorModel, MemoryRequestContext,
    MemoryScope, MemoryUpdateAction, MemoryUpdateParams,
};
use crate::text;

verus! {

/// Whether an entry is pinned after a change, where `before` tells whether it was.
pub open spec fn pinned_after(change: MemoryChangeModel, before: bool) -> bool {
    match change {
        MemoryChangeModel::SetPinned(pinned) => pinned,
        _ => before,
    }
}

/// The status that a change gives an entry, for those that archive it and bring it back.
pub open spec fn status_after(change: MemoryChangeModel) -> Option<Seq<char>> {
    match change {
        MemoryChangeModel::Archive => Some("archived"@),
        MemoryChangeModel::Unarchive => Some("active"@),
        _ => None,
    }
}

/// An accepted request to pin leaves the entry pinned, and an accepted request to unpin leaves it
/// not pinned, whatever it was before. No other action but a new version changes that.
pub proof fn pins_hold_until_unpinned(
    params: MemoryUpdateParams,
    context: MemoryRequestContext,
    has_status: bool,
    before: bool,
)
    requires
        memory::update_command_of(params, context, has_status) is Ok,
    ensures
        ({
            let change = memory::update_command_of(params, context, has_status)->Ok_0.change;
            &&& params.action is Pin ==> pinned_after(change, before)
            &&& params.action is Unpin ==> !pinned_after(change, before)
            &&& !(params.action is Pin) && !(params.action is Unpin) ==> pinned_after(
                change,
                before,
            ) == before
        }),
{
}

/// Unpinning undoes pinning, and pinning undoes unpinning.
pub proof fn unpinning_undoes_pinning(
    pin: MemoryUpdateParams,
    unpin: MemoryUpdateParams,
    context: MemoryRequestContext,
    before: bool,
)
    requires
        pin.action is Pin,
        unpin.action is Unpin,
        memory::update_command_of(pin, context, true) is Ok,
        memory::update_command_of(unpin, context, true) is Ok,
    ensures
        ({
            let pinning = memory::update_command_of(pin, context, true)->Ok_0.change;
            let unpinning = memory::update_command_of(unpin, context, true)->Ok_0.change;
            &&& pinning != unpinning
            &&& !pinned_after(unpinning, pinned_after(pinning, before))
            &&& pinned_after(pinning, pinned_after(unpinning, before))
        }),
{
}

/// Archiving an entry leaves it as one that can be brought back, and bringing it back leaves it as
/// one that can be archived.
pub proof fn archived_entries_can_be_brought_back(
    params: MemoryUpdateParams,
    context: MemoryRequestContext,
)
    requires
        memory::update_command_of(params, context, true) is Ok,
    ensures
        ({
            let change = memory::update_command_of(params, context, true)->Ok_0.change;
            &&& params.action is Archive <==> status_after(change) == Some(
                memory::status_needed(MemoryUpdateAction::Unarchive),
            )
            &&& params.action is Unarchive <==> status_after(change) == Some(
                memory::status_needed(MemoryUpdateAction::Archive),
            )
            &&& params.action is Reject <==> change is Reject
            &&& params.action is Supersede <==> change is Supersede
        }),
{
    reveal_strlit("archived");
    reveal_strlit("active");
    assert("archived"@.len() == 8 && "active"@.len() == 6);
}

/// Different actions are different changes.
pub proof fn actions_differ(
    a: MemoryUpdateParams,
    b: MemoryUpdateParams,
    context: MemoryRequestContext,
)
    requires
        a.action != b.action,
        memory::update_command_of(a, context, true) is Ok,
        memory::update_command_of(b, context, true) is Ok,
    ensures
        memory::update_command_of(a, context, true)->Ok_0.change != memory::update_command_of(
            b,
            context,
            true,
        )->Ok_0.change,
{
}

/// Only active entries can be pinned, unpinned, archived or replaced; only archived ones can be
/// brought back, and only candidates can be rejected.
pub proof fn actions_need_a_status(action: MemoryUpdateAction)
    ensures
        memory::status_needed(action) == "archived"@ <==> action is Unarchive,
        memory::status_needed(action) == "candidate"@ <==> action is Reject,
        memory::status_needed(action) == "active"@ <==> (action is Pin || action is Unpin
            || action is Archive || action is Supersede),
{
    reveal_strlit("archived");
    reveal_strlit("active");
    reveal_strlit("candidate");
    assert("archived"@.len() == 8 && "active"@.len() == 6 && "candidate"@.len() == 9);
}

/// Whether a request holds anything to edit an entry with.
pub open spec fn edits(params: MemoryUpdateParams) -> bool {
    ||| params.kind is Some
    ||| params.title is Some
    ||| params.content is Some
    ||| params.files is Some
    ||| params.concepts is Some
    ||| params.pinned is Some
}

/// Whether a text names a kind of entry.
pub open spec fn names_kind(name: Seq<char>) -> bool {
    exists|kind: MemoryEntryKind| #[trigger] kind.name() == name
}

/// A request is accepted exactly where the entry was found with the status that the action needs,
/// and where it holds what the action takes: a new version a kind, a title and content, and any
/// other action nothing to edit. What is wrong is told in that order.
pub proof fn accepted_requests(
    params: MemoryUpdateParams,
    context: MemoryRequestContext,
    has_status: bool,
)
    ensures
        memory::update_command_of(params, context, has_status) is Ok <==> {
            &&& has_status
            &&& !(params.action is Supersede) ==> !edits(params)
            &&& params.action is Supersede ==> {
                &&& params.kind is Some
                &&& names_kind(params.kind->0@)
                &&& params.title is Some
                &&& params.content is Some
            }
        },
        !(params.action is Supersede) && edits(params) ==> memory::update_command_of(
            params,
            context,
            has_status,
        )->Err_0 is EditFieldsNotAccepted,
        (params.action is Supersede || !edits(params)) && !has_status
            ==> memory::update_command_of(params, context, has_status)->Err_0 == (
        MemoryErrorModel::NotVisibleWithStatus {
            entry_id: params.entry_id@,
            status: memory::status_needed(params.action),
        }),
        params.action is Supersede && has_status && params.kind is None
            ==> memory::update_command_of(params, context, has_status)->Err_0 is KindRequired,
        params.action is Supersede && has_status && params.kind is Some && names_kind(
            params.kind->0@,
        ) && params.title is None ==> memory::update_command_of(params, context, has_status)->Err_0
            is TitleRequired,
        params.action is Supersede && has_status && params.kind is Some && names_kind(
            params.kind->0@,
        ) && params.title is Some && params.content is None ==> memory::update_command_of(
            params,
            context,
            has_status,
        )->Err_0 is ContentRequired,
{
    if params.kind is Some {
        kinds_are_known_by_name(params.kind->0@);
    }
}

/// An accepted change is one of the entry that was asked for. It stays in the project of the
/// request, unless the request is about global entries.
pub proof fn changes_stay_in_their_project(
    params: MemoryUpdateParams,
    context: MemoryRequestContext,
    has_status: bool,
)
    requires
        memory::update_command_of(params, context, has_status) is Ok,
    ensures
        ({
            let command = memory::update_command_of(params, context, has_status)->Ok_0;
            &&& command.entry_id == params.entry_id@
            &&& context.scope is Global ==> command.project_id is None
            &&& !(context.scope is Global) ==> command.project_id == context.project_id.deep_view()
        }),
{
}

/// A new version is what the request says, in the scope of the request. It is pinned only where
/// the request says so.
pub proof fn new_versions_are_as_given(
    params: MemoryUpdateParams,
    context: MemoryRequestContext,
)
    requires
        params.action is Supersede,
        memory::update_command_of(params, context, true) is Ok,
    ensures
        ({
            let change = memory::update_command_of(params, context, true)->Ok_0.change;
            &&& change matches MemoryChangeModel::Supersede(entry)
            &&& entry.scope == context.scope
            &&& entry.kind.name() == params.kind->0@
            &&& entry.title == params.title->0@
            &&& entry.content == params.content->0@
            &&& entry.pinned <==> params.pinned == Some(true)
            &&& params.files is None ==> entry.files.len() == 0
            &&& params.files matches Some(files) ==> entry.files == files.deep_view()
            &&& params.concepts is None ==> entry.concepts.len() == 0
            &&& params.concepts matches Some(concepts) ==> entry.concepts == concepts.deep_view()
            &&& entry.source_refs.len() == 0
        }),
{
    kinds_are_known_by_name(params.kind->0@);
}

/// A kind is read back from its name, and nothing else is read as a kind.
pub proof fn kinds_are_known_by_name(name: Seq<char>)
    ensures
        memory::entry_kind_of(name) is Ok <==> names_kind(name),
        memory::entry_kind_of(name) matches Ok(kind) ==> kind.name() == name,
        memory::entry_kind_of(name) is Err ==> memory::entry_kind_of(name)->Err_0
            == MemoryErrorModel::UnsupportedKind(name),
{
    if names_kind(name) {
        let kind = choose|kind: MemoryEntryKind| #[trigger] kind.name() == name;
        match kind {
            MemoryEntryKind::Architecture => {},
            MemoryEntryKind::Preference => {},
            MemoryEntryKind::Workflow => {},
            MemoryEntryKind::Bug => {},
            MemoryEntryKind::Fact => {},
        }
    }
    if let Ok(kind) = memory::entry_kind_of(name) {
        assert(kind.name() == name);
    }
}

/// Different kinds have different names, and are called what they are.
pub proof fn kinds_have_names_of_their_own(a: MemoryEntryKind, b: MemoryEntryKind)
    ensures
        a.name() == b.name() ==> a == b,
        a.name() == "architecture"@ <==> a is Architecture,
        a.name() == "preference"@ <==> a is Preference,
        a.name() == "workflow"@ <==> a is Workflow,
        a.name() == "bug"@ <==> a is Bug,
        a.name() == "fact"@ <==> a is Fact,
        memory::entry_kind_of(a.name()) == Ok::<MemoryEntryKind, MemoryErrorModel>(a),
{
    reveal_strlit("architecture");
    reveal_strlit("preference");
    reveal_strlit("workflow");
    reveal_strlit("bug");
    reveal_strlit("fact");
    assert("architecture"@.len() == 12 && "preference"@.len() == 10 && "workflow"@.len() == 8);
    assert("bug"@.len() == 3 && "fact"@.len() == 4);
}

/// A request is about the entries of its project unless it says otherwise. It can name the project
/// and the global scope, and no other.
pub proof fn scopes_are_known_by_name(name: Seq<char>)
    ensures
        memory::memory_scope_of(None) == Ok::<MemoryScope, MemoryErrorModel>(MemoryScope::Project),
        memory::memory_scope_of(Some(name)) is Ok <==> name == "project"@ || name == "global"@,
        memory::memory_scope_of(Some(name)) matches Ok(scope) ==> scope.name() == name
            && !(scope is Thread),
        memory::memory_scope_of(Some(name)) is Err ==> memory::memory_scope_of(Some(name))->Err_0
            == MemoryErrorModel::UnsupportedScope(name),
{
}

/// The query for an entry binds its id first, then what its scope needs, and last the status where
/// one is asked for. Entries of a project are only found with the project, and those of a thread
/// only with the thread.
pub proof fn queries_stay_in_their_scope(
    entry_id: Seq<char>,
    scope: MemoryScope,
    project_id: Option<Seq<char>>,
    thread_id: Option<Seq<char>>,
    status: Option<Seq<char>>,
)
    ensures
        ({
            let query = memory::entry_query_of(entry_id, scope, project_id, thread_id, status);
            let own: nat = match scope {
                MemoryScope::Global => 0,
                MemoryScope::Project => 1,
                MemoryScope::Thread => 2,
            };
            &&& query is Ok <==> {
                &&& scope is Project ==> project_id is Some
                &&& scope is Thread ==> project_id is Some && thread_id is Some
            }
            &&& query matches Ok(query) ==> {
                &&& query.binds.len() == 1 + own + if status is Some {
                    1nat
                } else {
                    0nat
                }
                &&& query.binds[0] == entry_id
                &&& own >= 1 ==> query.binds[1] == project_id->0
                &&& own == 2 ==> query.binds[2] == thread_id->0
                &&& status matches Some(status) ==> query.binds.last() == status
            }
            &&& query is Err && project_id is None ==> query->Err_0 == (
            MemoryErrorModel::ProjectRequired { scope })
            &&& query is Err && project_id is Some ==> query->Err_0 is ThreadRequired
        }),
{
}

/// An audit is of one entry where one is named, and never leaves the scope of the request; what
/// was done in threads is not shown.
pub proof fn audits_stay_in_their_scope(
    entry_id: Option<Seq<char>>,
    scope: MemoryScope,
    project_id: Option<Seq<char>>,
)
    ensures
        ({
            let query = memory::audit_query_of(entry_id, scope, project_id);
            &&& query is Ok <==> scope is Global || (scope is Project && project_id is Some)
            &&& query matches Ok(query) ==> {
                &&& entry_id is Some ==> query.binds.len() > 0 && query.binds[0] == entry_id->0
                &&& scope is Project ==> query.binds.len() > 0 && query.binds.last()
                    == project_id->0
                &&& query.binds.len() == (if entry_id is Some {
                    1int
                } else {
                    0
                }) + if scope is Project {
                    1int
                } else {
                    0
                }
            }
            &&& scope is Thread ==> query->Err_0 is ThreadScopeNotExposed
            &&& scope is Project && project_id is None ==> query->Err_0 == (
            MemoryErrorModel::ProjectRequired { scope })
        }),
{
}

/// An audit shows every row as it is stored, and never drops one for its details: those that
/// cannot be read are null.
pub proof fn audits_show_their_rows(row: MemoryAuditRow)
    ensures
        ({
            let event = memory::audit_event_of(row);
            &&& event.id == row.id@
            &&& event.memory_id == row.memory_id@
            &&& event.action == row.action@
            &&& event.actor == row.actor@
            &&& event.created_at_ms == row.created_at_ms
            &&& json::compact_of(row.detail_json@) is None ==> event.details == "null"@
            &&& json::compact_of(row.detail_json@) is Some ==> Some(event.details)
                == json::compact_of(row.detail_json@)
        }),
{
}

/// An error about an entry names the entry, one that needs a status names that at the end, and one
/// about a scope begins with the scope.
pub proof fn errors_name_what_they_are_about(
    entry_id: Seq<char>,
    status: Seq<char>,
    scope: MemoryScope,
)
    ensures
        ({
            let hidden = (MemoryErrorModel::NotVisible { entry_id }).words();
            let start = "memory entry "@ + entry_id;
            text::has_prefix(hidden, start) && hidden.skip(start.len() as int)
                == " is not visible in the selected scope"@
        }),
        ({
            let hidden = (MemoryErrorModel::NotVisibleWithStatus { entry_id, status }).words();
            let start = (MemoryErrorModel::NotVisible { entry_id }).words() + " with status "@;
            text::has_prefix(hidden, start) && hidden.skip(start.len() as int) == status
        }),
        ({
            let words = (MemoryErrorModel::ProjectRequired { scope }).words();
            text::has_prefix(words, scope.name()) && words.skip(scope.name().len() as int)
                == " scope requires project_id"@
        }),
        MemoryErrorModel::ThreadRequired.words() == MemoryScope::Thread.name()
            + " scope requires thread_id"@,
{
    reveal_strlit("memory entry ");
    reveal_strlit(" is not visible in the selected scope");
    reveal_strlit(" is not visible in the selected scope with status ");
    reveal_strlit(" with status ");
    reveal_strlit(" scope requires thread_id");
    reveal_strlit("thread scope requires thread_id");
    reveal_strlit("thread");
    let hidden = (MemoryErrorModel::NotVisible { entry_id }).words();
    let start = "memory entry "@ + entry_id;
    assert(hidden.take(start.len() as int) =~= start);
    assert(hidden.skip(start.len() as int) =~= " is not visible in the selected scope"@);
    let needs = (MemoryErrorModel::NotVisibleWithStatus { entry_id, status }).words();
    let first = hidden + " with status "@;
    assert(" is not visible in the selected scope with status "@
        =~= " is not visible in the selected scope"@ + " with status "@);
    assert(needs =~= first + status);
    assert(needs.take(first.len() as int) =~= first);
    assert(needs.skip(first.len() as int) =~= status);
    let words = (MemoryErrorModel::ProjectRequired { scope }).words();
    let name = scope.name();
    assert(words.take(name.len() as int) =~= name);
    assert(words.skip(name.len() as int) =~= " scope requires project_id"@);
    assert(MemoryErrorModel::ThreadRequired.words() =~= "thread"@ + " scope requires thread_id"@);
}

/// The fields that an edit lacks are named, each by its own error.
pub proof fn errors_name_what_is_missing()
    ensures
        text::has_part(MemoryErrorModel::KindRequired.words(), "requires kind"@),
        text::has_part(MemoryErrorModel::TitleRequired.words(), "requires title"@),
        text::has_part(MemoryErrorModel::ContentRequired.words(), "requires content"@),
{
    reveal_strlit("memory_update supersede/edit requires kind");
    reveal_strlit("memory_update supersede/edit requires title");
    reveal_strlit("memory_update supersede/edit requires content");
    reveal_strlit("requires kind");
    reveal_strlit("requires title");
    reveal_strlit("requires content");
    let kind = MemoryErrorModel::KindRequired.words();
    let title = MemoryErrorModel::TitleRequired.words();
    let content = MemoryErrorModel::ContentRequired.words();
    assert(kind.subrange(29, 42) =~= "requires kind"@);
    assert(text::is_at(kind, "requires kind"@, 29));
    assert(title.subrange(29, 43) =~= "requires title"@);
    assert(text::is_at(title, "requires title"@, 29));
    assert(content.subrange(29, 45) =~= "requires content"@);
    assert(text::is_at(content, "requires content"@, 29));
}

/// A query for an entry asks for the scope by its name, for the project and the thread where the
/// scope has them, and for the status where one is given.
pub proof fn queries_ask_for_their_scope(
    entry_id: Seq<char>,
    scope: MemoryScope,
    project_id: Option<Seq<char>>,
    thread_id: Option<Seq<char>>,
    status: Option<Seq<char>>,
)
    requires
        memory::entry_query_of(entry_id, scope, project_id, thread_id, status) is Ok,
    ensures
        ({
            let sql = memory::entry_query_of(
                entry_id,
                scope,
                project_id,
                thread_id,
                status,
            )->Ok_0.sql;
            &&& text::has_part(sql, "WHERE id = ?"@)
            &&& text::has_part(sql, " AND scope = '"@ + scope.name() + "'"@)
            &&& scope is Project || scope is Thread ==> text::has_part(sql, " AND project_id = ?"@)
            &&& scope is Thread ==> text::has_part(sql, " AND thread_id = ?"@)
            &&& status is Some ==> text::has_part(sql, " AND status = ?"@)
        }),
{
    let sql = memory::entry_query_of(entry_id, scope, project_id, thread_id, status)->Ok_0.sql;
    let start = "\nSELECT 1\nFROM memory_entries\nWHERE id = ?\n        "@;
    let named = " AND scope = '"@ + scope.name() + "'"@;
    reveal_strlit("\nSELECT 1\nFROM memory_entries\nWHERE id = ?\n        ");
    reveal_strlit("WHERE id = ?");
    reveal_strlit(" AND scope = '");
    reveal_strlit("'");
    reveal_strlit("global");
    reveal_strlit("project");
    reveal_strlit("thread");
    reveal_strlit(" AND scope = 'global'");
    reveal_strlit(" AND scope = 'project' AND project_id = ?");
    reveal_strlit(" AND scope = 'thread' AND project_id = ? AND thread_id = ?");
    reveal_strlit(" AND project_id = ?");
    reveal_strlit(" AND thread_id = ?");
    reveal_strlit(" AND status = ?");
    let n = start.len() as int;
    assert(n == 51);
    assert(sql.subrange(30, 42) =~= "WHERE id = ?"@);
    assert(text::is_at(sql, "WHERE id = ?"@, 30));
    assert(sql.subrange(n, n + named.len()) =~= named);
    assert(text::is_at(sql, named, n));
    if scope is Project || scope is Thread {
        let at = n + named.len();
        assert(sql.subrange(at, at + 19) =~= " AND project_id = ?"@);
        assert(text::is_at(sql, " AND project_id = ?"@, at));
    }
    if scope is Thread {
        let at = n + named.len() + 19;
        assert(sql.subrange(at, at + 18) =~= " AND thread_id = ?"@);
        assert(text::is_at(sql, " AND thread_id = ?"@, at));
    }
    if status is Some {
        let at = if scope is Global {
            n + named.len()
        } else if scope is Project {
            n + named.len() + 19
        } else {
            n + named.len() + 37
        };
        assert(sql.subrange(at, at + 15) =~= " AND status = ?"@);
        assert(text::is_at(sql, " AND status = ?"@, at));
    }
}

} // verus!
