//! Requests about memory: what they are about, what they change, what they show.
use vstd::prelude::*;

use crate::data::{append, Duplicate};
use crate::json;
use crate::text;

verus! {

/// Who changes memory through these requests.
pub const DESKTOP_MEMORY_ACTOR: &'static str = "desktop";

/// How many entries are listed where a request does not say.
pub const DEFAULT_MEMORY_LIMIT: usize = 50;

/// How many entries are listed at most.
pub const MAX_MEMORY_LIMIT: usize = 200;

/// Where an entry holds.
#[derive(Debug, Clone, Copy, PartialEq, Eq, Structural)]
pub enum MemoryScope {
    Global,
    Project,
    Thread,
}

impl DeepView for MemoryScope {
    type V = MemoryScope;

    open spec fn deep_view(&self) -> MemoryScope {
        *self
    }
}

/// What an entry is about.
#[derive(Debug, Clone, Copy, PartialEq, Eq, Structural)]
pub enum MemoryEntryKind {
    Architecture,
    Preference,
    Workflow,
    Bug,
    Fact,
}

impl DeepView for MemoryEntryKind {
    type V = MemoryEntryKind;

    open spec fn deep_view(&self) -> MemoryEntryKind {
        *self
    }
}

/// What entries are looked up for.
#[derive(Debug, Clone, Copy, PartialEq, Eq, Structural)]
pub enum MemoryRecallMode {
    DesktopInspect,
}

impl DeepView for MemoryRecallMode {
    type V = MemoryRecallMode;

    open spec fn deep_view(&self) -> MemoryRecallMode {
        *self
    }
}

/// What to do with an entry.
#[derive(Debug, Clone, Copy, PartialEq, Eq, Structural)]
pub enum MemoryUpdateAction {
    Pin,
    Unpin,
    Archive,
    Unarchive,
    Reject,
    Supersede,
}

impl DeepView for MemoryUpdateAction {
    type V = MemoryUpdateAction;

    open spec fn deep_view(&self) -> MemoryUpdateAction {
        *self
    }
}

/// A new entry as a client writes it.
#[derive(Debug, Clone, PartialEq, Eq)]
pub struct MemorySaveInputView {
    pub kind: String,
    pub title: String,
    pub content: String,
    pub files: Vec<String>,
    pub concepts: Vec<String>,
    pub pinned: bool,
}

/// A new entry.
#[derive(Debug, Clone, PartialEq, Eq)]
pub struct MemorySaveInput {
    pub scope: MemoryScope,
    pub kind: MemoryEntryKind,
    pub title: String,
    pub content: String,
    pub files: Vec<String>,
    pub concepts: Vec<String>,
    pub source_refs: Vec<String>,
    pub pinned: bool,
}

/// What a `MemorySaveInput` holds.
#[verifier::ext_equal]
pub struct MemorySaveInputModel {
    pub scope: MemoryScope,
    pub kind: MemoryEntryKind,
    pub title: Seq<char>,
    pub content: Seq<char>,
    pub files: Seq<Seq<char>>,
    pub concepts: Seq<Seq<char>>,
    pub source_refs: Seq<Seq<char>>,
    pub pinned: bool,
}

impl DeepView for MemorySaveInput {
    type V = MemorySaveInputModel;

    open spec fn deep_view(&self) -> MemorySaveInputModel {
        MemorySaveInputModel {
            scope: self.scope.deep_view(),
            kind: self.kind.deep_view(),
            title: self.title.deep_view(),
            content: self.content.deep_view(),
            files: self.files.deep_view(),
            concepts: self.concepts.deep_view(),
            source_refs: self.source_refs.deep_view(),
            pinned: self.pinned.deep_view(),
        }
    }
}

/// Changes an entry.
#[derive(Debug, Clone, PartialEq, Eq)]
pub struct MemoryUpdateParams {
    pub workspace_root: Option<String>,
    pub scope: Option<String>,
    pub entry_id: String,
    pub action: MemoryUpdateAction,
    pub kind: Option<String>,
    pub title: Option<String>,
    pub content: Option<String>,
    pub files: Option<Vec<String>>,
    pub concepts: Option<Vec<String>>,
    pub pinned: Option<bool>,
}

/// What entries are looked up.
#[derive(Debug, Clone, PartialEq, Eq)]
pub struct MemorySearchQuery {
    pub scope: MemoryScope,
    pub project_id: Option<String>,
    pub thread_id: Option<String>,
    pub query: String,
    pub mode: MemoryRecallMode,
    pub limit: usize,
    pub include_entries: bool,
}

/// A stored entry. `confidence` is carried through unread, as the bits of a floating point number.
#[derive(Debug, Clone, PartialEq, Eq)]
pub struct MemoryEntryRecord {
    pub id: String,
    pub scope: MemoryScope,
    pub kind: MemoryEntryKind,
    pub title: String,
    pub content: String,
    pub files: Vec<String>,
    pub concepts: Vec<String>,
    pub confidence: u64,
    pub pinned: bool,
    pub status: String,
    pub suspicious_injection: bool,
    pub inactive_reason: Option<String>,
    pub supersedes_id: Option<String>,
    pub created_at_ms: i64,
    pub updated_at_ms: i64,
}

/// An entry as a client sees it.
#[derive(Debug, Clone, PartialEq, Eq)]
pub struct MemoryEntryView {
    pub id: String,
    pub scope: String,
    pub kind: String,
    pub title: String,
    pub body: String,
    pub files: Vec<String>,
    pub concepts: Vec<String>,
    pub confidence: u64,
    pub pinned: bool,
    pub status: String,
    pub stale: bool,
    pub quarantined: bool,
    pub inactive_reason: Option<String>,
    pub supersedes_id: Option<String>,
    pub quarantine_reason: Option<String>,
    pub created_at_ms: i64,
    pub updated_at_ms: i64,
}

/// A found entry. `confidence` and `rank` are carried through unread, as the bits of floating point numbers.
#[derive(Debug, Clone, PartialEq, Eq)]
pub struct MemorySearchHit {
    pub source_id: String,
    pub source: String,
    pub scope: MemoryScope,
    pub kind: String,
    pub title: String,
    pub body: String,
    pub files: Vec<String>,
    pub concepts: Vec<String>,
    pub confidence: u64,
    pub stale: bool,
    pub quarantined: bool,
    pub rank: u64,
    pub pinned: bool,
    pub status: Option<String>,
    pub use_count: i64,
    pub supersedes_id: Option<String>,
}

/// A found entry as a client sees it.
#[derive(Debug, Clone, PartialEq, Eq)]
pub struct MemoryHitView {
    pub id: String,
    pub source: String,
    pub scope: String,
    pub kind: String,
    pub title: String,
    pub body: String,
    pub files: Vec<String>,
    pub concepts: Vec<String>,
    pub confidence: u64,
    pub stale: bool,
    pub quarantined: bool,
    pub rank: u64,
    pub pinned: bool,
    pub status: Option<String>,
    pub use_count: i64,
    pub supersedes_id: Option<String>,
}

/// Why a request about memory is turned down.
#[derive(Debug, Clone, PartialEq, Eq)]
pub enum MemoryError {
    RuntimeUnavailable,
    UnsupportedScope(String),
    UnsupportedKind(String),
    WorkspaceRootRequired,
    WorkspaceNotRegistered,
    EditFieldsNotAccepted,
    KindRequired,
    TitleRequired,
    ContentRequired,
    NotVisible { entry_id: String },
    NotVisibleWithStatus { entry_id: String, status: String },
    ProjectRequired { scope: MemoryScope },
    ThreadRequired,
    ThreadScopeNotExposed,
}

/// What a `MemoryError` holds.
#[verifier::ext_equal]
pub enum MemoryErrorModel {
    RuntimeUnavailable,
    UnsupportedScope(Seq<char>),
    UnsupportedKind(Seq<char>),
    WorkspaceRootRequired,
    WorkspaceNotRegistered,
    EditFieldsNotAccepted,
    KindRequired,
    TitleRequired,
    ContentRequired,
    NotVisible { entry_id: Seq<char> },
    NotVisibleWithStatus { entry_id: Seq<char>, status: Seq<char> },
    ProjectRequired { scope: MemoryScope },
    ThreadRequired,
    ThreadScopeNotExposed,
}

impl DeepView for MemoryError {
    type V = MemoryErrorModel;

    open spec fn deep_view(&self) -> MemoryErrorModel {
        match self {
            MemoryError::RuntimeUnavailable => MemoryErrorModel::RuntimeUnavailable,
            MemoryError::UnsupportedScope(value) => MemoryErrorModel::UnsupportedScope(value.deep_view()),
            MemoryError::UnsupportedKind(value) => MemoryErrorModel::UnsupportedKind(value.deep_view()),
            MemoryError::WorkspaceRootRequired => MemoryErrorModel::WorkspaceRootRequired,
            MemoryError::WorkspaceNotRegistered => MemoryErrorModel::WorkspaceNotRegistered,
            MemoryError::EditFieldsNotAccepted => MemoryErrorModel::EditFieldsNotAccepted,
            MemoryError::KindRequired => MemoryErrorModel::KindRequired,
            MemoryError::TitleRequired => MemoryErrorModel::TitleRequired,
            MemoryError::ContentRequired => MemoryErrorModel::ContentRequired,
            MemoryError::NotVisible { entry_id } => MemoryErrorModel::NotVisible {
                entry_id: entry_id.deep_view(),
            },
            MemoryError::NotVisibleWithStatus {
                entry_id,
                status,
            } => MemoryErrorModel::NotVisibleWithStatus {
                entry_id: entry_id.deep_view(),
                status: status.deep_view(),
            },
            MemoryError::ProjectRequired { scope } => MemoryErrorModel::ProjectRequired {
                scope: scope.deep_view(),
            },
            MemoryError::ThreadRequired => MemoryErrorModel::ThreadRequired,
            MemoryError::ThreadScopeNotExposed => MemoryErrorModel::ThreadScopeNotExposed,
        }
    }
}

/// Which entries a request is about.
#[derive(Debug, Clone, PartialEq, Eq)]
pub struct MemoryRequestContext {
    pub scope: MemoryScope,
    pub project_id: Option<String>,
}

/// What is needed before a request about memory can go on.
#[derive(Debug, Clone, PartialEq, Eq)]
pub enum MemoryContextStep {
    Ready(MemoryRequestContext),
    ResolveProject { workspace_root: String },
}

/// A change to one entry.
#[derive(Debug, Clone, PartialEq, Eq)]
pub enum MemoryChange {
    SetPinned(bool),
    Archive,
    Unarchive,
    Reject,
    Supersede(MemorySaveInput),
}

/// What a `MemoryChange` holds.
#[verifier::ext_equal]
pub enum MemoryChangeModel {
    SetPinned(bool),
    Archive,
    Unarchive,
    Reject,
    Supersede(MemorySaveInputModel),
}

impl DeepView for MemoryChange {
    type V = MemoryChangeModel;

    open spec fn deep_view(&self) -> MemoryChangeModel {
        match self {
            MemoryChange::SetPinned(value) => MemoryChangeModel::SetPinned(value.deep_view()),
            MemoryChange::Archive => MemoryChangeModel::Archive,
            MemoryChange::Unarchive => MemoryChangeModel::Unarchive,
            MemoryChange::Reject => MemoryChangeModel::Reject,
            MemoryChange::Supersede(value) => MemoryChangeModel::Supersede(value.deep_view()),
        }
    }
}

/// A change to carry out. With a project, only an entry of that project is changed.
#[derive(Debug, Clone, PartialEq, Eq)]
pub struct MemoryCommand {
    pub entry_id: String,
    pub change: MemoryChange,
    pub project_id: Option<String>,
}

/// What a `MemoryCommand` holds.
#[verifier::ext_equal]
pub struct MemoryCommandModel {
    pub entry_id: Seq<char>,
    pub change: MemoryChangeModel,
    pub project_id: Option<Seq<char>>,
}

impl DeepView for MemoryCommand {
    type V = MemoryCommandModel;

    open spec fn deep_view(&self) -> MemoryCommandModel {
        MemoryCommandModel {
            entry_id: self.entry_id.deep_view(),
            change: self.change.deep_view(),
            project_id: self.project_id.deep_view(),
        }
    }
}

/// A query and the values for its placeholders, in order.
#[derive(Debug, Clone, PartialEq, Eq)]
pub struct SqlQuery {
    pub sql: String,
    pub binds: Vec<String>,
}

/// What a `SqlQuery` holds.
#[verifier::ext_equal]
pub struct SqlQueryModel {
    pub sql: Seq<char>,
    pub binds: Seq<Seq<char>>,
}

impl DeepView for SqlQuery {
    type V = SqlQueryModel;

    open spec fn deep_view(&self) -> SqlQueryModel {
        SqlQueryModel {
            sql: self.sql.deep_view(),
            binds: self.binds.deep_view(),
        }
    }
}

impl MemoryScope {
    /// The name of the scope.
    pub open spec fn name(self) -> Seq<char> {
        match self {
            MemoryScope::Global => "global"@,
            MemoryScope::Project => "project"@,
            MemoryScope::Thread => "thread"@,
        }
    }

    /// The name of the scope.
    pub fn as_str(self) -> (res: &'static str)
        ensures
            res@ == self.name(),
    {
        match self {
            MemoryScope::Global => "global",
            MemoryScope::Project => "project",
            MemoryScope::Thread => "thread",
        }
    }
}

impl MemoryEntryKind {
    /// The name of the kind.
    pub open spec fn name(self) -> Seq<char> {
        match self {
            MemoryEntryKind::Architecture => "architecture"@,
            MemoryEntryKind::Preference => "preference"@,
            MemoryEntryKind::Workflow => "workflow"@,
            MemoryEntryKind::Bug => "bug"@,
            MemoryEntryKind::Fact => "fact"@,
        }
    }

    /// The name of the kind.
    pub fn as_str(self) -> (res: &'static str)
        ensures
            res@ == self.name(),
    {
        match self {
            MemoryEntryKind::Architecture => "architecture",
            MemoryEntryKind::Preference => "preference",
            MemoryEntryKind::Workflow => "workflow",
            MemoryEntryKind::Bug => "bug",
            MemoryEntryKind::Fact => "fact",
        }
    }
}

/// The scope that a request names; the project where it names none.
pub open spec fn memory_scope_of(scope: Option<Seq<char>>) -> Result<
    MemoryScope,
    MemoryErrorModel,
> {
    let name = match scope {
        Some(name) => name,
        None => "project"@,
    };
    if name == "project"@ {
        Ok(MemoryScope::Project)
    } else if name == "global"@ {
        Ok(MemoryScope::Global)
    } else {
        Err(MemoryErrorModel::UnsupportedScope(name))
    }
}

/// What a result holds.
pub open spec fn outcome<T: DeepView>(result: Result<T, MemoryError>) -> Result<
    T::V,
    MemoryErrorModel,
> {
    match result {
        Ok(value) => Ok(value.deep_view()),
        Err(error) => Err(error.deep_view()),
    }
}

/// Reads the scope that a request names.
pub fn parse_memory_scope(scope: Option<&str>) -> (res: Result<MemoryScope, MemoryError>)
    ensures
        outcome(res) == memory_scope_of(scope.deep_view()),
{
    let name = match scope {
        Some(name) => name,
        None => "project",
    };
    if text::same(name, "project") {
        Ok(MemoryScope::Project)
    } else if text::same(name, "global") {
        Ok(MemoryScope::Global)
    } else {
        Err(MemoryError::UnsupportedScope(name.to_owned()))
    }
}

/// The kind with this name.
pub open spec fn entry_kind_of(name: Seq<char>) -> Result<MemoryEntryKind, MemoryErrorModel> {
    if name == MemoryEntryKind::Architecture.name() {
        Ok(MemoryEntryKind::Architecture)
    } else if name == MemoryEntryKind::Preference.name() {
        Ok(MemoryEntryKind::Preference)
    } else if name == MemoryEntryKind::Workflow.name() {
        Ok(MemoryEntryKind::Workflow)
    } else if name == MemoryEntryKind::Bug.name() {
        Ok(MemoryEntryKind::Bug)
    } else if name == MemoryEntryKind::Fact.name() {
        Ok(MemoryEntryKind::Fact)
    } else {
        Err(MemoryErrorModel::UnsupportedKind(name))
    }
}

/// Reads the name of a kind.
pub fn parse_entry_kind(kind: &str) -> (res: Result<MemoryEntryKind, MemoryError>)
    ensures
        outcome(res) == entry_kind_of(kind@),
{
    if text::same(kind, "architecture") {
        Ok(MemoryEntryKind::Architecture)
    } else if text::same(kind, "preference") {
        Ok(MemoryEntryKind::Preference)
    } else if text::same(kind, "workflow") {
        Ok(MemoryEntryKind::Workflow)
    } else if text::same(kind, "bug") {
        Ok(MemoryEntryKind::Bug)
    } else if text::same(kind, "fact") {
        Ok(MemoryEntryKind::Fact)
    } else {
        Err(MemoryError::UnsupportedKind(kind.to_owned()))
    }
}

/// `limit`, but at least one and not more than `MAX_MEMORY_LIMIT`.
pub fn clamp_limit(limit: usize) -> (res: usize)
    ensures
        1 <= res <= MAX_MEMORY_LIMIT,
        1 <= limit <= MAX_MEMORY_LIMIT ==> res == limit,
        limit < 1 ==> res == 1,
        limit > MAX_MEMORY_LIMIT ==> res == MAX_MEMORY_LIMIT,
{
    if limit < 1 {
        1
    } else if limit > MAX_MEMORY_LIMIT {
        MAX_MEMORY_LIMIT
    } else {
        limit
    }
}

/// Finds out which entries a request is about. Global entries need no more; those of a project
/// need the project that the workspace is registered as.
pub fn memory_context(
    runtime_available: bool,
    workspace_root: Option<String>,
    scope: Option<&str>,
) -> (res: Result<MemoryContextStep, MemoryError>)
    ensures
        match res {
            Ok(MemoryContextStep::Ready(context)) => {
                &&& runtime_available
                &&& memory_scope_of(scope.deep_view()) == Ok::<MemoryScope, MemoryErrorModel>(
                    MemoryScope::Global,
                )
                &&& context.scope == MemoryScope::Global
                &&& context.project_id is None
            },
            Ok(MemoryContextStep::ResolveProject { workspace_root: root }) => {
                &&& runtime_available
                &&& memory_scope_of(scope.deep_view()) == Ok::<MemoryScope, MemoryErrorModel>(
                    MemoryScope::Project,
                )
                &&& workspace_root == Some(root)
            },
            Err(error) => error.deep_view() == (if !runtime_available {
                MemoryErrorModel::RuntimeUnavailable
            } else {
                match memory_scope_of(scope.deep_view()) {
                    Err(error) => error,
                    Ok(_) => MemoryErrorModel::WorkspaceRootRequired,
                }
            }) && (runtime_available && memory_scope_of(scope.deep_view()) is Ok ==> {
                &&& memory_scope_of(scope.deep_view())->Ok_0 == MemoryScope::Project
                &&& workspace_root is None
            }),
        },
        res is Ok ==> runtime_available,
        res is Ok && res->Ok_0 is ResolveProject ==> workspace_root is Some,
        runtime_available && scope is None && workspace_root is Some ==> (res matches Ok(step)
            && step is ResolveProject),
        res matches Ok(MemoryContextStep::Ready(context)) ==> scope matches Some(name) && name@
            == context.scope.name(),
{
    if !runtime_available {
        return Err(MemoryError::RuntimeUnavailable);
    }
    let scope = match parse_memory_scope(scope) {
        Ok(scope) => scope,
        Err(error) => return Err(error),
    };
    if scope == MemoryScope::Global {
        return Ok(MemoryContextStep::Ready(MemoryRequestContext { scope, project_id: None }));
    }
    match workspace_root {
        Some(workspace_root) => Ok(MemoryContextStep::ResolveProject { workspace_root }),
        None => Err(MemoryError::WorkspaceRootRequired),
    }
}

/// The entries of the project that a workspace is registered as.
pub fn project_memory_context(project_id: Option<String>) -> (res: Result<
    MemoryRequestContext,
    MemoryError,
>)
    ensures
        match res {
            Ok(context) => context.scope == MemoryScope::Project && context.project_id
                == project_id && project_id is Some,
            Err(error) => error is WorkspaceNotRegistered && project_id is None,
        },
{
    match project_id {
        Some(project_id) => Ok(
            MemoryRequestContext { scope: MemoryScope::Project, project_id: Some(project_id) },
        ),
        None => Err(MemoryError::WorkspaceNotRegistered),
    }
}

/// The query of a search, and whether it has no text and so lists what is there.
pub fn memory_search(context: MemoryRequestContext, query: String, limit: usize) -> (res: (
    bool,
    MemorySearchQuery,
))
    ensures
        res.0 == (text::trim_of(query@).len() == 0),
        res.1.scope == context.scope,
        res.1.project_id == context.project_id,
        res.1.thread_id is None,
        res.1.query == query,
        res.1.mode == MemoryRecallMode::DesktopInspect,
        res.1.limit == (if limit < 1 { 1 } else if limit > MAX_MEMORY_LIMIT {
            MAX_MEMORY_LIMIT
        } else { limit }),
        res.1.include_entries,
        1 <= res.1.limit <= MAX_MEMORY_LIMIT,
        1 <= limit <= MAX_MEMORY_LIMIT ==> res.1.limit == limit,
{
    let inspect = text::trim(query.as_str()).is_empty();
    (
        inspect,
        MemorySearchQuery {
            scope: context.scope,
            project_id: context.project_id,
            thread_id: None,
            query,
            mode: MemoryRecallMode::DesktopInspect,
            limit: clamp_limit(limit),
            include_entries: true,
        },
    )
}

/// The query that lists candidates or archived entries: all of them where no text is given.
pub fn memory_list(
    context: MemoryRequestContext,
    query: Option<String>,
    limit: Option<usize>,
) -> (res: MemorySearchQuery)
    ensures
        res.scope == context.scope,
        res.project_id == context.project_id,
        res.thread_id is None,
        res.query@ == match query {
            Some(query) => query@,
            None => Seq::empty(),
        },
        res.mode == MemoryRecallMode::DesktopInspect,
        res.limit == match limit {
            Some(limit) => if limit < 1 { 1 } else if limit > MAX_MEMORY_LIMIT {
                MAX_MEMORY_LIMIT
            } else { limit },
            None => DEFAULT_MEMORY_LIMIT,
        },
        res.include_entries,
        1 <= res.limit <= MAX_MEMORY_LIMIT || limit is None,
        limit matches Some(limit) ==> (1 <= limit <= MAX_MEMORY_LIMIT ==> res.limit == limit),
        query is None ==> res.query@.len() == 0,
{
    let limit: usize = match limit {
        Some(limit) => limit,
        None => DEFAULT_MEMORY_LIMIT,
    };
    MemorySearchQuery {
        scope: context.scope,
        project_id: context.project_id,
        thread_id: None,
        query: match query {
            Some(query) => query,
            None => String::new(),
        },
        mode: MemoryRecallMode::DesktopInspect,
        limit: clamp_limit(limit),
        include_entries: true,
    }
}

/// The entry to save for what a client wrote.
pub fn memory_save_input(input: MemorySaveInputView, scope: MemoryScope) -> (res: Result<
    MemorySaveInput,
    MemoryError,
>)
    ensures
        outcome(res) == match entry_kind_of(input.kind@) {
            Ok(kind) => Ok(
                MemorySaveInputModel {
                    scope,
                    kind,
                    title: input.title@,
                    content: input.content@,
                    files: input.files.deep_view(),
                    concepts: input.concepts.deep_view(),
                    source_refs: Seq::empty(),
                    pinned: input.pinned,
                },
            ),
            Err(error) => Err(error),
        },
        res matches Ok(saved) ==> {
            &&& saved.kind.name() == input.kind@
            &&& saved.scope == scope
            &&& saved.title@ == input.title@
            &&& saved.content@ == input.content@
            &&& saved.pinned == input.pinned
            &&& saved.source_refs@.len() == 0
        },
        res matches Err(error) ==> (error matches MemoryError::UnsupportedKind(kind) && kind@
            == input.kind@),
{
    let kind = match parse_entry_kind(input.kind.as_str()) {
        Ok(kind) => kind,
        Err(error) => return Err(error),
    };
    let res = MemorySaveInput {
        scope,
        kind,
        title: input.title,
        content: input.content,
        files: input.files,
        concepts: input.concepts,
        source_refs: Vec::new(),
        pinned: input.pinned,
    };
    proof {
        assert(res.source_refs.deep_view() =~= Seq::empty());
    }
    Ok(res)
}

/// Whether a request to change an entry holds anything to edit it with.
pub open spec fn has_edit_fields(params: MemoryUpdateParams) -> bool {
    params.kind is Some || params.title is Some || params.content is Some || params.files is Some
        || params.concepts is Some || params.pinned is Some
}

/// Turns down a change of state that comes with something to edit.
pub fn reject_edit_fields_for_state_action(params: &MemoryUpdateParams) -> (res: Result<
    (),
    MemoryError,
>)
    ensures
        match res {
            Ok(_) => !has_edit_fields(*params),
            Err(error) => has_edit_fields(*params) && error is EditFieldsNotAccepted,
        },
{
    if params.kind.is_some() || params.title.is_some() || params.content.is_some()
        || params.files.is_some() || params.concepts.is_some() || params.pinned.is_some() {
        return Err(MemoryError::EditFieldsNotAccepted);
    }
    Ok(())
}

/// The texts, or none where there are none.
pub open spec fn texts_or_none(texts: Option<Seq<Seq<char>>>) -> Seq<Seq<char>> {
    match texts {
        Some(texts) => texts,
        None => Seq::empty(),
    }
}

/// The entry that replaces another one: it needs a kind, a title and content, in this order.
pub open spec fn update_input_of(params: MemoryUpdateParams, scope: MemoryScope) -> Result<
    MemorySaveInputModel,
    MemoryErrorModel,
> {
    match params.kind {
        None => Err(MemoryErrorModel::KindRequired),
        Some(kind) => match entry_kind_of(kind@) {
            Err(error) => Err(error),
            Ok(kind) => match (params.title, params.content) {
                (None, _) => Err(MemoryErrorModel::TitleRequired),
                (Some(_), None) => Err(MemoryErrorModel::ContentRequired),
                (Some(title), Some(content)) => Ok(
                    MemorySaveInputModel {
                        scope,
                        kind,
                        title: title@,
                        content: content@,
                        files: texts_or_none(params.files.deep_view()),
                        concepts: texts_or_none(params.concepts.deep_view()),
                        source_refs: Seq::empty(),
                        pinned: params.pinned == Some(true),
                    },
                ),
            },
        },
    }
}

fn copy_or_none(texts: &Option<Vec<String>>) -> (res: Vec<String>)
    ensures
        res.deep_view() == texts_or_none(texts.deep_view()),
{
    match texts {
        Some(texts) => texts.duplicate(),
        None => {
            let res: Vec<String> = Vec::new();
            proof {
                assert(res.deep_view() =~= Seq::empty());
            }
            res
        },
    }
}

/// The entry that replaces another one.
pub fn memory_update_input(params: &MemoryUpdateParams, scope: MemoryScope) -> (res: Result<
    MemorySaveInput,
    MemoryError,
>)
    ensures
        outcome(res) == update_input_of(*params, scope),
{
    let kind = match &params.kind {
        Some(kind) => match parse_entry_kind(kind.as_str()) {
            Ok(kind) => kind,
            Err(error) => return Err(error),
        },
        None => return Err(MemoryError::KindRequired),
    };
    let title = match &params.title {
        Some(title) => title.clone(),
        None => return Err(MemoryError::TitleRequired),
    };
    let content = match &params.content {
        Some(content) => content.clone(),
        None => return Err(MemoryError::ContentRequired),
    };
    let pinned = match params.pinned {
        Some(pinned) => pinned,
        None => false,
    };
    let res = MemorySaveInput {
        scope,
        kind,
        title,
        content,
        files: copy_or_none(&params.files),
        concepts: copy_or_none(&params.concepts),
        source_refs: Vec::new(),
        pinned,
    };
    proof {
        assert(res.source_refs.deep_view() =~= Seq::empty());
    }
    Ok(res)
}

/// The status that an entry must have for this action.
pub open spec fn status_needed(action: MemoryUpdateAction) -> Seq<char> {
    match action {
        MemoryUpdateAction::Pin
        | MemoryUpdateAction::Unpin
        | MemoryUpdateAction::Archive
        | MemoryUpdateAction::Supersede => "active"@,
        MemoryUpdateAction::Unarchive => "archived"@,
        MemoryUpdateAction::Reject => "candidate"@,
    }
}

fn needed_status(action: MemoryUpdateAction) -> (res: &'static str)
    ensures
        res@ == status_needed(action),
{
    match action {
        MemoryUpdateAction::Pin
        | MemoryUpdateAction::Unpin
        | MemoryUpdateAction::Archive
        | MemoryUpdateAction::Supersede => "active",
        MemoryUpdateAction::Unarchive => "archived",
        MemoryUpdateAction::Reject => "candidate",
    }
}

/// The status that the entry of a request must be looked up with. A change of state that comes
/// with something to edit is turned down before anything is looked up.
pub fn memory_update_status(params: &MemoryUpdateParams) -> (res: Result<
    &'static str,
    MemoryError,
>)
    ensures
        match res {
            Ok(status) => {
                &&& status@ == status_needed(params.action)
                &&& params.action is Supersede || !has_edit_fields(*params)
            },
            Err(error) => {
                &&& error is EditFieldsNotAccepted
                &&& !(params.action is Supersede)
                &&& has_edit_fields(*params)
            },
        },
{
    match params.action {
        MemoryUpdateAction::Supersede => {},
        _ => {
            if let Err(error) = reject_edit_fields_for_state_action(params) {
                return Err(error);
            }
        },
    }
    Ok(needed_status(params.action))
}

/// The change that a request asks for, where `has_status` tells whether an entry of its id was
/// found in its scope with the status that the action needs.
pub open spec fn update_command_of(
    params: MemoryUpdateParams,
    context: MemoryRequestContext,
    has_status: bool,
) -> Result<MemoryCommandModel, MemoryErrorModel> {
    if !(params.action is Supersede) && has_edit_fields(params) {
        Err(MemoryErrorModel::EditFieldsNotAccepted)
    } else if !has_status {
        Err(
            MemoryErrorModel::NotVisibleWithStatus {
                entry_id: params.entry_id@,
                status: status_needed(params.action),
            },
        )
    } else {
        let change = match params.action {
            MemoryUpdateAction::Pin => Ok(MemoryChangeModel::SetPinned(true)),
            MemoryUpdateAction::Unpin => Ok(MemoryChangeModel::SetPinned(false)),
            MemoryUpdateAction::Archive => Ok(MemoryChangeModel::Archive),
            MemoryUpdateAction::Unarchive => Ok(MemoryChangeModel::Unarchive),
            MemoryUpdateAction::Reject => Ok(MemoryChangeModel::Reject),
            MemoryUpdateAction::Supersede => match update_input_of(params, context.scope) {
                Ok(input) => Ok(MemoryChangeModel::Supersede(input)),
                Err(error) => Err(error),
            },
        };
        match change {
            Ok(change) => Ok(
                MemoryCommandModel {
                    entry_id: params.entry_id@,
                    change,
                    project_id: if context.scope == MemoryScope::Global {
                        None
                    } else {
                        context.project_id.deep_view()
                    },
                },
            ),
            Err(error) => Err(error),
        }
    }
}

/// The change that a request asks for.
pub fn memory_update(
    params: &MemoryUpdateParams,
    context: &MemoryRequestContext,
    has_status: bool,
) -> (res: Result<MemoryCommand, MemoryError>)
    ensures
        outcome(res) == update_command_of(*params, *context, has_status),
{
    let status = match memory_update_status(params) {
        Ok(status) => status,
        Err(error) => return Err(error),
    };
    if !has_status {
        return Err(
            MemoryError::NotVisibleWithStatus {
                entry_id: params.entry_id.clone(),
                status: status.to_owned(),
            },
        );
    }
    let change = match params.action {
        MemoryUpdateAction::Pin => MemoryChange::SetPinned(true),
        MemoryUpdateAction::Unpin => MemoryChange::SetPinned(false),
        MemoryUpdateAction::Archive => MemoryChange::Archive,
        MemoryUpdateAction::Unarchive => MemoryChange::Unarchive,
        MemoryUpdateAction::Reject => MemoryChange::Reject,
        MemoryUpdateAction::Supersede => match memory_update_input(params, context.scope) {
            Ok(input) => MemoryChange::Supersede(input),
            Err(error) => return Err(error),
        },
    };
    let project_id = if context.scope == MemoryScope::Global {
        None
    } else {
        context.project_id.duplicate()
    };
    Ok(MemoryCommand { entry_id: params.entry_id.clone(), change, project_id })
}

/// The project to forget an entry in, where `visible` tells whether it was found in its scope;
/// without a project, the entry is forgotten wherever it is.
pub fn memory_forget(
    entry_id: &String,
    context: &MemoryRequestContext,
    visible: bool,
) -> (res: Result<Option<String>, MemoryError>)
    ensures
        outcome(res) == (if !visible {
            Err(MemoryErrorModel::NotVisible { entry_id: entry_id@ })
        } else if context.scope == MemoryScope::Global {
            Ok(None)
        } else {
            Ok(context.project_id.deep_view())
        }),
        res is Ok <==> visible,
        res matches Ok(Some(project_id)) ==> context.scope != MemoryScope::Global && (
        context.project_id matches Some(own) && own@ == project_id@),
        res matches Ok(None) ==> context.scope == MemoryScope::Global || context.project_id is None,
{
    if !visible {
        return Err(MemoryError::NotVisible { entry_id: entry_id.clone() });
    }
    if context.scope == MemoryScope::Global {
        Ok(None)
    } else {
        Ok(context.project_id.duplicate())
    }
}

/// Turns down a promotion where `is_candidate` tells that no candidate of this id was found.
pub fn memory_promote(entry_id: &String, is_candidate: bool) -> (res: Result<(), MemoryError>)
    ensures
        match res {
            Ok(_) => is_candidate,
            Err(error) => !is_candidate && error.deep_view()
                == (MemoryErrorModel::NotVisibleWithStatus {
                entry_id: entry_id@,
                status: "candidate"@,
            }),
        },
        res is Ok <==> is_candidate,
{
    if is_candidate {
        Ok(())
    } else {
        Err(
            MemoryError::NotVisibleWithStatus {
                entry_id: entry_id.clone(),
                status: "candidate".to_owned(),
            },
        )
    }
}

/// The query that tells whether an entry is there, by its id, its scope and, where one is given,
/// its status.
pub open spec fn entry_query_of(
    entry_id: Seq<char>,
    scope: MemoryScope,
    project_id: Option<Seq<char>>,
    thread_id: Option<Seq<char>>,
    status: Option<Seq<char>>,
) -> Result<SqlQueryModel, MemoryErrorModel> {
    let start = "\nSELECT 1\nFROM memory_entries\nWHERE id = ?\n        "@;
    let tail = match status {
        Some(_) => " AND status = ?"@ + " LIMIT 1"@,
        None => " LIMIT 1"@,
    };
    let last = match status {
        Some(status) => seq![status],
        None => Seq::empty(),
    };
    match scope {
        MemoryScope::Global => Ok(
            SqlQueryModel {
                sql: start + " AND scope = 'global'"@ + tail,
                binds: seq![entry_id] + last,
            },
        ),
        MemoryScope::Project => match project_id {
            Some(project_id) => Ok(
                SqlQueryModel {
                    sql: start + " AND scope = 'project' AND project_id = ?"@ + tail,
                    binds: seq![entry_id, project_id] + last,
                },
            ),
            None => Err(MemoryErrorModel::ProjectRequired { scope }),
        },
        MemoryScope::Thread => match (project_id, thread_id) {
            (Some(project_id), Some(thread_id)) => Ok(
                SqlQueryModel {
                    sql: start + " AND scope = 'thread' AND project_id = ? AND thread_id = ?"@
                        + tail,
                    binds: seq![entry_id, project_id, thread_id] + last,
                },
            ),
            (Some(_), None) => Err(MemoryErrorModel::ThreadRequired),
            (None, _) => Err(MemoryErrorModel::ProjectRequired { scope }),
        },
    }
}

/// The query that tells whether an entry is there.
pub fn memory_entry_matches_scope(
    entry_id: &str,
    scope: MemoryScope,
    project_id: Option<&str>,
    thread_id: Option<&str>,
    status: Option<&str>,
) -> (res: Result<SqlQuery, MemoryError>)
    ensures
        outcome(res) == entry_query_of(
            entry_id@,
            scope,
            project_id.deep_view(),
            thread_id.deep_view(),
            status.deep_view(),
        ),
{
    let mut binds: Vec<String> = Vec::new();
    proof {
        assert(binds.deep_view() =~= Seq::empty());
    }
    append(&mut binds, entry_id.to_owned());
    let clause = match scope {
        MemoryScope::Global => " AND scope = 'global'",
        MemoryScope::Project => {
            match project_id {
                Some(project_id) => append(&mut binds, project_id.to_owned()),
                None => return Err(MemoryError::ProjectRequired { scope }),
            }
            " AND scope = 'project' AND project_id = ?"
        },
        MemoryScope::Thread => {
            match project_id {
                Some(project_id) => append(&mut binds, project_id.to_owned()),
                None => return Err(MemoryError::ProjectRequired { scope }),
            }
            match thread_id {
                Some(thread_id) => append(&mut binds, thread_id.to_owned()),
                None => return Err(MemoryError::ThreadRequired),
            }
            " AND scope = 'thread' AND project_id = ? AND thread_id = ?"
        },
    };
    let tail = match status {
        Some(status) => {
            append(&mut binds, status.to_owned());
            text::concat2(" AND status = ?", " LIMIT 1")
        },
        None => " LIMIT 1".to_owned(),
    };
    let sql = text::concat3(
        "\nSELECT 1\nFROM memory_entries\nWHERE id = ?\n        ",
        clause,
        tail.as_str(),
    );
    let res = SqlQuery { sql, binds };
    proof {
        let expected = entry_query_of(
            entry_id@,
            scope,
            project_id.deep_view(),
            thread_id.deep_view(),
            status.deep_view(),
        );
        assert(expected is Ok);
        assert(res.sql@ =~= expected->Ok_0.sql);
        assert(res.binds.deep_view() =~= expected->Ok_0.binds);
    }
    Ok(res)
}

/// The condition that keeps an audit to the entries of its scope, and the project to check for.
pub fn audit_scope_predicate<'a>(scope: MemoryScope, project_id: Option<&'a str>) -> (res: Result<
    (&'static str, Option<&'a str>),
    MemoryError,
>)
    ensures
        match res {
            Ok((predicate, bind)) => match scope {
                MemoryScope::Global => predicate@ == "e.scope = 'global'"@ && bind is None,
                MemoryScope::Project => {
                    &&& predicate@ == "e.scope = 'project' AND e.project_id = ?"@
                    &&& project_id is Some
                    &&& bind == project_id
                },
                MemoryScope::Thread => false,
            },
            Err(error) => match scope {
                MemoryScope::Global => false,
                MemoryScope::Project => project_id is None && error
                    == (MemoryError::ProjectRequired { scope }),
                MemoryScope::Thread => error is ThreadScopeNotExposed,
            },
        },
{
    match scope {
        MemoryScope::Global => Ok(("e.scope = 'global'", None)),
        MemoryScope::Project => match project_id {
            Some(project_id) => Ok(
                ("e.scope = 'project' AND e.project_id = ?", Some(project_id)),
            ),
            None => Err(MemoryError::ProjectRequired { scope }),
        },
        MemoryScope::Thread => Err(MemoryError::ThreadScopeNotExposed),
    }
}

/// The query of an audit, newest first: of one entry, or of all entries of a scope. The number of
/// rows is bound last, by the caller.
pub open spec fn audit_query_of(
    entry_id: Option<Seq<char>>,
    scope: MemoryScope,
    project_id: Option<Seq<char>>,
) -> Result<SqlQueryModel, MemoryErrorModel> {
    let start = "\nSELECT a.id, a.memory_id, a.action, a.actor, a.detail_json, a.created_at_ms\nFROM memory_audit_events a\nJOIN memory_entries e ON e.id = a.memory_id\nWHERE "@;
    let middle = match entry_id {
        Some(_) => "a.memory_id = ?\n  AND "@,
        None => Seq::empty(),
    };
    let end = "\nORDER BY a.created_at_ms DESC, a.id DESC\nLIMIT ?\n            "@;
    let first = match entry_id {
        Some(entry_id) => seq![entry_id],
        None => Seq::empty(),
    };
    match scope {
        MemoryScope::Global => Ok(
            SqlQueryModel {
                sql: start + middle + "e.scope = 'global'"@ + end,
                binds: first,
            },
        ),
        MemoryScope::Project => match project_id {
            Some(project_id) => Ok(
                SqlQueryModel {
                    sql: start + middle + "e.scope = 'project' AND e.project_id = ?"@ + end,
                    binds: first.push(project_id),
                },
            ),
            None => Err(MemoryErrorModel::ProjectRequired { scope }),
        },
        MemoryScope::Thread => Err(MemoryErrorModel::ThreadScopeNotExposed),
    }
}

/// The query of an audit, and how many rows it may give.
pub fn memory_audit(
    entry_id: Option<&str>,
    context: &MemoryRequestContext,
    limit: Option<usize>,
) -> (res: Result<(SqlQuery, usize), MemoryError>)
    ensures
        match (res, audit_query_of(
            entry_id.deep_view(),
            context.scope,
            context.project_id.deep_view(),
        )) {
            (Ok((query, rows)), Ok(expected)) => {
                &&& query.deep_view() == expected
                &&& rows == match limit {
                    Some(limit) => if limit < 1 { 1 } else if limit > MAX_MEMORY_LIMIT {
                        MAX_MEMORY_LIMIT
                    } else { limit },
                    None => DEFAULT_MEMORY_LIMIT,
                }
            },
            (Err(error), Err(expected)) => error.deep_view() == expected,
            _ => false,
        },
{
    let limit: usize = match limit {
        Some(limit) => limit,
        None => DEFAULT_MEMORY_LIMIT,
    };
    let rows: usize = clamp_limit(limit);
    let project_id = match &context.project_id {
        Some(project_id) => Some(project_id.as_str()),
        None => None,
    };
    let (predicate, bind) = match audit_scope_predicate(context.scope, project_id) {
        Ok(found) => found,
        Err(error) => return Err(error),
    };
    let mut binds: Vec<String> = Vec::new();
    proof {
        assert(binds.deep_view() =~= Seq::empty());
    }
    let middle = match entry_id {
        Some(entry_id) => {
            append(&mut binds, entry_id.to_owned());
            "a.memory_id = ?\n  AND "
        },
        None => "",
    };
    if let Some(project_id) = bind {
        append(&mut binds, project_id.to_owned());
    }
    let sql = text::concat4(
        "\nSELECT a.id, a.memory_id, a.action, a.actor, a.detail_json, a.created_at_ms\nFROM memory_audit_events a\nJOIN memory_entries e ON e.id = a.memory_id\nWHERE ",
        middle,
        predicate,
        "\nORDER BY a.created_at_ms DESC, a.id DESC\nLIMIT ?\n            ",
    );
    let query = SqlQuery { sql, binds };
    proof {
        reveal_strlit("");
        assert(""@ =~= Seq::<char>::empty());
        assert(Ok::<SqlQueryModel, MemoryErrorModel>(query.deep_view()) =~~= audit_query_of(
            entry_id.deep_view(),
            context.scope,
            context.project_id.deep_view(),
        ));
    }
    Ok((query, rows))
}

/// One row of an audit, as it is stored. `detail_json` is the text of its details.
#[derive(Debug, Clone, PartialEq, Eq)]
pub struct MemoryAuditRow {
    pub id: String,
    pub memory_id: String,
    pub action: String,
    pub actor: String,
    pub detail_json: String,
    pub created_at_ms: i64,
}

/// What was done to an entry, as a client sees it. `details` is JSON.
#[derive(Debug, Clone, PartialEq, Eq)]
pub struct MemoryAuditEventView {
    pub id: String,
    pub memory_id: String,
    pub action: String,
    pub actor: String,
    pub created_at_ms: i64,
    pub details: String,
}

/// What a `MemoryAuditEventView` holds.
#[verifier::ext_equal]
pub struct MemoryAuditEventModel {
    pub id: Seq<char>,
    pub memory_id: Seq<char>,
    pub action: Seq<char>,
    pub actor: Seq<char>,
    pub created_at_ms: i64,
    pub details: Seq<char>,
}

impl DeepView for MemoryAuditEventView {
    type V = MemoryAuditEventModel;

    open spec fn deep_view(&self) -> MemoryAuditEventModel {
        MemoryAuditEventModel {
            id: self.id@,
            memory_id: self.memory_id@,
            action: self.action@,
            actor: self.actor@,
            created_at_ms: self.created_at_ms,
            details: self.details@,
        }
    }
}

/// What an audit shows.
#[derive(Debug, Clone, PartialEq, Eq)]
pub struct MemoryAuditResponse {
    pub events: Vec<MemoryAuditEventView>,
}

/// The details of an event: the JSON value that was read from their text, or null where none could
/// be read.
pub open spec fn details_of(read: Option<Seq<char>>) -> Seq<char> {
    match read {
        Some(details) => details,
        None => "null"@,
    }
}

/// Computes `details_of`.
pub fn details_or_null(read: Option<String>) -> (res: String)
    ensures
        res@ == details_of(read.deep_view()),
{
    match read {
        Some(details) => details,
        None => "null".to_owned(),
    }
}

/// What a row of an audit shows.
pub open spec fn audit_event_of(row: MemoryAuditRow) -> MemoryAuditEventModel {
    MemoryAuditEventModel {
        id: row.id@,
        memory_id: row.memory_id@,
        action: row.action@,
        actor: row.actor@,
        created_at_ms: row.created_at_ms,
        details: details_of(json::compact_of(row.detail_json@)),
    }
}

/// Computes `audit_event_of`.
pub fn audit_event(row: MemoryAuditRow) -> (res: MemoryAuditEventView)
    ensures
        res.deep_view() == audit_event_of(row),
{
    let details = details_or_null(json::compact(row.detail_json.as_str()));
    MemoryAuditEventView {
        id: row.id,
        memory_id: row.memory_id,
        action: row.action,
        actor: row.actor,
        created_at_ms: row.created_at_ms,
        details,
    }
}

/// What an audit shows: each of its rows, in their order. A row whose details cannot be read is
/// shown too.
pub fn audit_response(rows: Vec<MemoryAuditRow>) -> (res: MemoryAuditResponse)
    ensures
        res.events.deep_view() == rows@.map_values(|row: MemoryAuditRow| audit_event_of(row)),
{
    let ghost shown = rows@.map_values(|row: MemoryAuditRow| audit_event_of(row));
    let ghost all = rows@;
    let mut events: Vec<MemoryAuditEventView> = Vec::new();
    proof {
        assert(events.deep_view() =~= shown.take(0));
    }
    for row in iter: rows
        invariant
            iter.seq() == all,
            shown == all.map_values(|row: MemoryAuditRow| audit_event_of(row)),
            events.deep_view() == shown.take(iter.index()),
    {
        append(&mut events, audit_event(row));
        proof {
            assert(events.deep_view() =~= shown.take(iter.index() + 1));
        }
    }
    proof {
        assert(shown.take(all.len() as int) =~= shown);
    }
    MemoryAuditResponse { events }
}

/// A found entry as a client sees it.
pub fn memory_hit_view(hit: MemorySearchHit) -> (res: MemoryHitView)
    ensures
        res.id == hit.source_id,
        res.source == hit.source,
        res.scope@ == hit.scope.name(),
        res.kind == hit.kind,
        res.title == hit.title,
        res.body == hit.body,
        res.files == hit.files,
        res.concepts == hit.concepts,
        res.confidence == hit.confidence,
        res.stale == hit.stale,
        res.quarantined == hit.quarantined,
        res.rank == hit.rank,
        res.pinned == hit.pinned,
        res.status == hit.status,
        res.use_count == hit.use_count,
        res.supersedes_id == hit.supersedes_id,
{
    MemoryHitView {
        id: hit.source_id,
        source: hit.source,
        scope: hit.scope.as_str().to_owned(),
        kind: hit.kind,
        title: hit.title,
        body: hit.body,
        files: hit.files,
        concepts: hit.concepts,
        confidence: hit.confidence,
        stale: hit.stale,
        quarantined: hit.quarantined,
        rank: hit.rank,
        pinned: hit.pinned,
        status: hit.status,
        use_count: hit.use_count,
        supersedes_id: hit.supersedes_id,
    }
}

/// An entry as a client sees it: one that was flagged on arrival is quarantined, with the reason.
pub fn memory_entry_view(entry: MemoryEntryRecord) -> (res: MemoryEntryView)
    ensures
        res.id == entry.id,
        res.scope@ == entry.scope.name(),
        res.kind@ == entry.kind.name(),
        res.title == entry.title,
        res.body == entry.content,
        res.files == entry.files,
        res.concepts == entry.concepts,
        res.confidence == entry.confidence,
        res.pinned == entry.pinned,
        res.status == entry.status,
        !res.stale,
        res.quarantined == entry.suspicious_injection,
        res.inactive_reason == entry.inactive_reason,
        res.supersedes_id == entry.supersedes_id,
        res.quarantine_reason.deep_view() == (if entry.suspicious_injection {
            Some("Prompt-injection or sensitive provenance flagged"@)
        } else {
            None
        }),
        res.created_at_ms == entry.created_at_ms,
        res.updated_at_ms == entry.updated_at_ms,
{
    let quarantined = entry.suspicious_injection;
    MemoryEntryView {
        id: entry.id,
        scope: entry.scope.as_str().to_owned(),
        kind: entry.kind.as_str().to_owned(),
        title: entry.title,
        body: entry.content,
        files: entry.files,
        concepts: entry.concepts,
        confidence: entry.confidence,
        pinned: entry.pinned,
        status: entry.status,
        stale: false,
        quarantined,
        inactive_reason: entry.inactive_reason,
        supersedes_id: entry.supersedes_id,
        quarantine_reason: if quarantined {
            Some("Prompt-injection or sensitive provenance flagged".to_owned())
        } else {
            None
        },
        created_at_ms: entry.created_at_ms,
        updated_at_ms: entry.updated_at_ms,
    }
}

impl MemoryErrorModel {
    /// The error in words.
    pub open spec fn words(self) -> Seq<char> {
        match self {
            MemoryErrorModel::RuntimeUnavailable => "memory runtime unavailable"@,
            MemoryErrorModel::UnsupportedScope(scope) => "unsupported desktop memory scope "@
                + text::shown_of(scope),
            MemoryErrorModel::UnsupportedKind(kind) => "unsupported memory kind "@ + text::shown_of(
                kind,
            ),
            MemoryErrorModel::WorkspaceRootRequired =>
                "workspace_root is required for memory APIs"@,
            MemoryErrorModel::WorkspaceNotRegistered =>
                "workspace_root is not registered as a desktop project"@,
            MemoryErrorModel::EditFieldsNotAccepted =>
                "memory_update state action does not accept edit fields"@,
            MemoryErrorModel::KindRequired => "memory_update supersede/edit requires kind"@,
            MemoryErrorModel::TitleRequired => "memory_update supersede/edit requires title"@,
            MemoryErrorModel::ContentRequired => "memory_update supersede/edit requires content"@,
            MemoryErrorModel::NotVisible { entry_id } => "memory entry "@ + entry_id
                + " is not visible in the selected scope"@,
            MemoryErrorModel::NotVisibleWithStatus { entry_id, status } => "memory entry "@
                + entry_id + " is not visible in the selected scope with status "@ + status,
            MemoryErrorModel::ProjectRequired { scope } => scope.name()
                + " scope requires project_id"@,
            MemoryErrorModel::ThreadRequired => "thread scope requires thread_id"@,
            MemoryErrorModel::ThreadScopeNotExposed =>
                "thread scope is not exposed by desktop memory APIs"@,
        }
    }
}

impl MemoryError {
    /// The error in words.
    pub fn message(&self) -> (res: String)
        ensures
            res@ == self.deep_view().words(),
    {
        match self {
            MemoryError::RuntimeUnavailable => "memory runtime unavailable".to_owned(),
            MemoryError::UnsupportedScope(scope) => text::concat2(
                "unsupported desktop memory scope ",
                text::shown(scope.as_str()).as_str(),
            ),
            MemoryError::UnsupportedKind(kind) => text::concat2(
                "unsupported memory kind ",
                text::shown(kind.as_str()).as_str(),
            ),
            MemoryError::WorkspaceRootRequired =>
                "workspace_root is required for memory APIs".to_owned(),
            MemoryError::WorkspaceNotRegistered =>
                "workspace_root is not registered as a desktop project".to_owned(),
            MemoryError::EditFieldsNotAccepted =>
                "memory_update state action does not accept edit fields".to_owned(),
            MemoryError::KindRequired => "memory_update supersede/edit requires kind".to_owned(),
            MemoryError::TitleRequired => "memory_update supersede/edit requires title".to_owned(),
            MemoryError::ContentRequired =>
                "memory_update supersede/edit requires content".to_owned(),
            MemoryError::NotVisible { entry_id } => text::concat3(
                "memory entry ",
                entry_id.as_str(),
                " is not visible in the selected scope",
            ),
            MemoryError::NotVisibleWithStatus { entry_id, status } => text::concat4(
                "memory entry ",
                entry_id.as_str(),
                " is not visible in the selected scope with status ",
                status.as_str(),
            ),
            MemoryError::ProjectRequired { scope } => text::concat2(
                scope.as_str(),
                " scope requires project_id",
            ),
            MemoryError::ThreadRequired => "thread scope requires thread_id".to_owned(),
            MemoryError::ThreadScopeNotExposed =>
                "thread scope is not exposed by desktop memory APIs".to_owned(),
        }
    }
}
} // verus!
