//! The server over HTTP: where it listens, how it answers failures, and how it lists its threads.
use vstd::prelude::*;

use crate::data::Duplicate;
use crate::error::AppServerError;
use crate::ids::ThreadId;
use crate::paths;
use crate::protocol::{EventsReplayParams, EventsSubscribeParams};
use crate::text;
use crate::thread_runtime::ThreadRuntimeError;

verus! {

/// Where the server listens: where it is told to, or else where the environment says, or else on
/// port 3000 of this machine.
pub fn bind_address(bind_addr: Option<String>, from_env: Option<String>) -> (res: String)
    ensures
        res@ == match (bind_addr, from_env) {
            (Some(given), _) => given@,
            (None, Some(set)) => set@,
            (None, None) => "127.0.0.1:3000"@,
        },
        bind_addr matches Some(given) ==> res@ == given@,
        bind_addr is None && from_env is Some ==> res@ == from_env->0@,
{
    match (bind_addr, from_env) {
        (Some(given), _) => given,
        (None, Some(set)) => set,
        (None, None) => "127.0.0.1:3000".to_owned(),
    }
}

/// Where the server keeps its state: where the environment says, or else below the directory that
/// it was started in.
pub fn state_dir(from_env: Option<String>, current_dir: Option<String>) -> (res: String)
    ensures
        res@ == match (from_env, current_dir) {
            (Some(set), _) => set@,
            (None, Some(current)) => paths::joined(current@, ".exagent-api"@),
            (None, None) => paths::joined("."@, ".exagent-api"@),
        },
{
    match (from_env, current_dir) {
        (Some(set), _) => set,
        (None, Some(current)) => paths::join(current.as_str(), ".exagent-api"),
        (None, None) => paths::join(".", ".exagent-api"),
    }
}

/// A point in time as it is stored, from the milliseconds since 1970; a time before counts as
/// 1970, and one too late as the latest.
pub fn unix_millis(millis: Option<u128>) -> (res: i64)
    ensures
        res == match millis {
            Some(millis) => if millis <= i64::MAX {
                millis as int
            } else {
                i64::MAX as int
            },
            None => 0,
        },
        res >= 0,
        millis is None ==> res == 0,
        millis matches Some(now) ==> res <= now,
{
    match millis {
        Some(millis) => if millis <= i64::MAX as u128 {
            millis as i64
        } else {
            i64::MAX
        },
        None => 0,
    }
}

/// What went wrong with a request.
#[derive(Debug, Clone, PartialEq, Eq)]
pub enum ApiFailure {
    Server(AppServerError),
    Runtime(ThreadRuntimeError),
    /// Something that no one is told the cause of.
    Internal,
}

/// The HTTP status that a failure is answered with.
pub open spec fn status_of(failure: ApiFailure) -> u16 {
    match failure {
        ApiFailure::Server(AppServerError::InvalidRequest(_)) => 400,
        ApiFailure::Server(AppServerError::ThreadNotFound(_)) => 404,
        ApiFailure::Server(_) => 409,
        ApiFailure::Runtime(_) => 409,
        ApiFailure::Internal => 500,
    }
}

/// Computes `status_of`.
pub fn status_for_error(failure: &ApiFailure) -> (res: u16)
    ensures
        res == status_of(*failure),
{
    match failure {
        ApiFailure::Server(error) => match error {
            AppServerError::InvalidRequest(_) => 400,
            AppServerError::ThreadNotFound(_) => 404,
            AppServerError::ThreadBusy(_)
            | AppServerError::TurnRejected { .. }
            | AppServerError::TurnInterrupted { .. } => 409,
        },
        ApiFailure::Runtime(_) => 409,
        ApiFailure::Internal => 500,
    }
}

/// The last name on a path, if it ends with one.
pub open spec fn file_name_of(path: Seq<char>) -> Option<Seq<char>> {
    let parts = paths::parts_of(path);
    if parts.len() == 0 || parts.last() == "/"@ || parts.last() == "."@ || parts.last() == ".."@ {
        None
    } else {
        Some(parts.last())
    }
}

/// What the project of a workspace is called: like the directory, where that has a name.
pub open spec fn project_name_of(workspace_root: Seq<char>) -> Seq<char> {
    match file_name_of(workspace_root) {
        Some(name) => if name.len() > 0 {
            name
        } else {
            "Headless API"@
        },
        None => "Headless API"@,
    }
}

/// Computes `project_name_of`.
pub fn project_name(workspace_root: &str) -> (res: String)
    ensures
        res@ == project_name_of(workspace_root@),
{
    let parts = paths::parts(workspace_root);
    proof {
        assert(parts.deep_view().len() == parts@.len());
        if parts@.len() > 0 {
            assert(parts.deep_view().last() == parts@[parts@.len() - 1]@);
        }
    }
    if parts.len() == 0 {
        return "Headless API".to_owned();
    }
    let name = parts[parts.len() - 1].as_str();
    if text::same(name, "/") || text::same(name, ".") || text::same(name, "..")
        || name.unicode_len() == 0 {
        return "Headless API".to_owned();
    }
    name.to_owned()
}

/// How a thread is listed that was started over HTTP.
#[derive(Debug, Clone, PartialEq, Eq)]
pub struct ThreadIndexEntry {
    pub project_name: String,
    pub project_path: String,
    pub fallback_title: String,
    pub preview: String,
    pub now: i64,
}

/// How a thread is listed that was started over HTTP: in the project of its workspace, or else of
/// the directory that the server was started in.
pub fn index_thread_start(
    workspace_root: Option<String>,
    current_dir: Option<String>,
    thread_id: &ThreadId,
    now: i64,
) -> (res: ThreadIndexEntry)
    ensures
        ({
            let root = match (workspace_root, current_dir) {
                (Some(root), _) => root@,
                (None, Some(current)) => current@,
                (None, None) => "."@,
            };
            &&& res.project_name@ == project_name_of(root)
            &&& res.project_path@ == root
            &&& res.fallback_title@ == thread_id@ + " title"@
            &&& res.preview@ == thread_id@ + " preview"@
            &&& res.now == now
        }),
{
    let root = match (workspace_root, current_dir) {
        (Some(root), _) => root,
        (None, Some(current)) => current,
        (None, None) => ".".to_owned(),
    };
    ThreadIndexEntry {
        project_name: project_name(root.as_str()),
        project_path: root,
        fallback_title: text::concat2(thread_id.as_str(), " title"),
        preview: text::concat2(thread_id.as_str(), " preview"),
        now,
    }
}

/// What a subscriber is sent first: every event behind the one that it names.
pub fn replay_before_subscription(request: &EventsSubscribeParams) -> (res: EventsReplayParams)
    ensures
        res.thread_id@ == request.thread_id@,
        res.workspace_root.deep_view() == request.workspace_root.deep_view(),
        res.after_event_id.deep_view() == request.after_event_id.deep_view(),
        res.limit is None,
        !res.include_snapshot,
        res.event_kinds@.len() == 0,
{
    EventsReplayParams {
        thread_id: request.thread_id.duplicate(),
        workspace_root: request.workspace_root.duplicate(),
        after_event_id: request.after_event_id.duplicate(),
        limit: None,
        include_snapshot: false,
        event_kinds: Vec::new(),
    }
}

} // verus!
