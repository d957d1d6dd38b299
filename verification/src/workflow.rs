//! Runs of workflows: starting, reading and cancelling them.
use vstd::prelude::*;

use crate::error::AppServerError;
use crate::ids::ThreadId;
use crate::paths;
use crate::text;
use crate::text_map::TextMap;

verus! {

/// How much of a question stands in the label of a run.
pub const MAX_WORKFLOW_LABEL_QUESTION_CHARS: usize = 120;

/// The workflows that can be run.
#[derive(Debug, Clone, Copy, PartialEq, Eq, Structural)]
pub enum WorkflowTemplateId {
    DeepResearch,
}

/// Where a run stands.
#[derive(Debug, Clone, Copy, PartialEq, Eq, Structural)]
pub enum WorkflowRunStatus {
    Queued,
    Running,
    Completed,
    Failed,
    Cancelled,
}

/// Why a run was stopped.
#[derive(Debug, Clone, Copy, PartialEq, Eq, Structural)]
pub enum WorkflowStopReason {
    TokenBudgetExceeded,
    RuntimeExceeded,
}

/// The answer to a run that was started.
#[derive(Debug, Clone, PartialEq, Eq)]
pub struct WorkflowStartResponse {
    pub run_id: String,
    pub thread_id: ThreadId,
    pub status: WorkflowRunStatus,
}

/// A run that is known to the server, and its workspace.
#[derive(Debug)]
pub struct WorkflowRunRegistryEntry<H> {
    pub workspace_root: String,
    pub handle: H,
}

/// The runs that are known to the server.
#[derive(Debug)]
pub struct WorkflowRunRegistry<H> {
    pub runs: TextMap<WorkflowRunRegistryEntry<H>>,
}

/// Whether `error` says that there is no such run.
pub open spec fn is_unknown(error: AppServerError, run_id: Seq<char>) -> bool {
    error.is_invalid("workflow run not found: "@ + run_id)
}

/// Whether `error` says that there is no such run in the workspace.
pub open spec fn is_elsewhere(error: AppServerError, run_id: Seq<char>) -> bool {
    error.is_invalid("workflow run not found in workspace: "@ + run_id)
}

/// The error for a run that is not known.
fn unknown_run(run_id: &str) -> (res: AppServerError)
    ensures
        is_unknown(res, run_id@),
{
    AppServerError::InvalidRequest(text::concat2("workflow run not found: ", run_id))
}

/// The error for a run of another workspace.
fn run_elsewhere(run_id: &str) -> (res: AppServerError)
    ensures
        is_elsewhere(res, run_id@),
{
    AppServerError::InvalidRequest(text::concat2("workflow run not found in workspace: ", run_id))
}

impl<H> WorkflowRunRegistry<H> {
    /// No run is known.
    pub fn new() -> (res: Self)
        ensures
            res.runs@ == Map::<Seq<char>, WorkflowRunRegistryEntry<H>>::empty(),
    {
        WorkflowRunRegistry { runs: TextMap::new() }
    }

    /// Makes a run known.
    pub fn insert(&mut self, run_id: String, workspace_root: String, handle: H)
        ensures
            final(self).runs@ == old(self).runs@.insert(
                run_id@,
                WorkflowRunRegistryEntry { workspace_root, handle },
            ),
    {
        self.runs.insert(run_id, WorkflowRunRegistryEntry { workspace_root, handle });
    }

    /// The run of this id, which must be one of the workspace.
    pub fn get(&self, run_id: &String, workspace_root: &str) -> (res: Result<
        &WorkflowRunRegistryEntry<H>,
        AppServerError,
    >)
        ensures
            match res {
                Ok(entry) => {
                    &&& self.runs@.contains_key(run_id@)
                    &&& self.runs@[run_id@] == *entry
                    &&& paths::parts_of(entry.workspace_root@) == paths::parts_of(workspace_root@)
                },
                Err(error) => if self.runs@.contains_key(run_id@) {
                    &&& paths::parts_of(self.runs@[run_id@].workspace_root@) != paths::parts_of(
                        workspace_root@,
                    )
                    &&& is_elsewhere(error, run_id@)
                } else {
                    is_unknown(error, run_id@)
                },
            },
    {
        match self.runs.get(run_id) {
            None => Err(unknown_run(run_id.as_str())),
            Some(entry) => {
                if !paths::same_path(entry.workspace_root.as_str(), workspace_root) {
                    return Err(run_elsewhere(run_id.as_str()));
                }
                Ok(entry)
            },
        }
    }

    /// The run of this id, whatever its workspace.
    pub fn find(&self, run_id: &String) -> (res: Option<&WorkflowRunRegistryEntry<H>>)
        ensures
            res == if self.runs@.contains_key(run_id@) {
                Some(&self.runs@[run_id@])
            } else {
                None
            },
    {
        self.runs.get(run_id)
    }
}

/// What the label of a run says of its question: the beginning, where it is long.
pub open spec fn shortened(question: Seq<char>) -> Seq<char> {
    if question.len() <= MAX_WORKFLOW_LABEL_QUESTION_CHARS {
        question
    } else {
        question.take(MAX_WORKFLOW_LABEL_QUESTION_CHARS as int) + "..."@
    }
}

/// Computes `shortened`.
pub fn truncate_label(value: &str) -> (res: String)
    ensures
        res@ == shortened(value@),
{
    if value.unicode_len() <= MAX_WORKFLOW_LABEL_QUESTION_CHARS {
        value.to_owned()
    } else {
        let start = value.substring_char(0, MAX_WORKFLOW_LABEL_QUESTION_CHARS);
        proof {
            assert(start@ =~= value@.take(MAX_WORKFLOW_LABEL_QUESTION_CHARS as int));
        }
        text::concat2(start, "...")
    }
}

/// The label of a run: its kind, and what it is asked, if anything.
pub open spec fn label_of(template_id: WorkflowTemplateId, question: Seq<char>) -> Seq<char> {
    let question = text::trim_of(question);
    if question.len() == 0 {
        "Deep research"@
    } else {
        "Deep research"@ + ": "@ + shortened(question)
    }
}

/// Computes `label_of`.
pub fn workflow_label(template_id: &WorkflowTemplateId, question: &str) -> (res: String)
    ensures
        res@ == label_of(*template_id, question@),
{
    let prefix = match template_id {
        WorkflowTemplateId::DeepResearch => "Deep research",
    };
    let question = text::trim(question);
    if question.unicode_len() == 0 {
        return prefix.to_owned();
    }
    text::concat3(prefix, ": ", truncate_label(question).as_str())
}

/// Whether a run is over.
pub open spec fn is_over(status: WorkflowRunStatus) -> bool {
    status == WorkflowRunStatus::Completed || status == WorkflowRunStatus::Failed || status
        == WorkflowRunStatus::Cancelled
}

/// Whether a run is over.
pub fn is_terminal(status: WorkflowRunStatus) -> (res: bool)
    ensures
        res == is_over(status),
{
    matches!(
        status,
        WorkflowRunStatus::Completed | WorkflowRunStatus::Failed | WorkflowRunStatus::Cancelled
    )
}

/// Whether a character may stand in the name of a thread that a run belongs to.
pub open spec fn is_plain(c: char) -> bool {
    text::is_alphanumeric(c) || c == '-' || c == '_'
}

/// Whether the name of a thread is plain: not empty, and nothing in it that leads elsewhere in a
/// path.
pub open spec fn is_plain_name(name: Seq<char>) -> bool {
    name.len() > 0 && forall|i: int| 0 <= i < name.len() ==> is_plain(#[trigger] name[i])
}

/// Whether the name of a thread is plain.
pub fn is_valid_workflow_thread_id_suffix(thread_id: &str) -> (res: bool)
    ensures
        res == is_plain_name(thread_id@),
{
    let chars = text::chars_of(thread_id);
    if chars.len() == 0 {
        return false;
    }
    for i in 0..chars.len()
        invariant
            chars@ == thread_id@,
            forall|j: int| 0 <= j < i ==> is_plain(#[trigger] thread_id@[j]),
    {
        let c = chars[i];
        if !(text::alphanumeric(c) || c == '-' || c == '_') {
            assert(!is_plain(thread_id@[i as int]));
            return false;
        }
    }
    true
}

/// The id of the run that belongs to a thread.
pub open spec fn run_id_of(thread_id: Seq<char>) -> Seq<char> {
    "workflow_run_"@ + thread_id
}

/// The id of the run that belongs to a thread.
pub fn workflow_run_id(thread_id: &ThreadId) -> (res: String)
    ensures
        res@ == run_id_of(thread_id@),
{
    text::concat2("workflow_run_", thread_id.as_str())
}

/// The thread that a run belongs to.
pub fn workflow_thread_id_from_run_id(run_id: &str) -> (res: Result<ThreadId, AppServerError>)
    ensures
        match res {
            Ok(thread_id) => run_id@ == run_id_of(thread_id@) && is_plain_name(thread_id@),
            Err(error) => {
                &&& forall|thread_id: Seq<char>|
                    is_plain_name(thread_id) ==> run_id@ != #[trigger] run_id_of(thread_id)
                &&& is_unknown(error, run_id@)
            },
        },
{
    let rest = match text::strip_prefix(run_id, "workflow_run_") {
        Some(rest) => rest,
        None => {
            proof {
                assert forall|thread_id: Seq<char>| run_id@ != #[trigger] run_id_of(thread_id) by {
                    if run_id@ == run_id_of(thread_id) {
                        no_other_thread(thread_id, thread_id);
                    }
                }
            }
            return Err(unknown_run(run_id));
        },
    };
    proof {
        assert(run_id@ =~= run_id_of(rest@));
    }
    if !is_valid_workflow_thread_id_suffix(rest) {
        proof {
            assert forall|thread_id: Seq<char>| is_plain_name(thread_id) implies run_id@
                != #[trigger] run_id_of(thread_id) by {
                if run_id@ == run_id_of(thread_id) {
                    no_other_thread(rest@, thread_id);
                }
            }
        }
        return Err(unknown_run(run_id));
    }
    Ok(ThreadId::new(rest))
}

/// A run belongs to one thread.
pub proof fn no_other_thread(a: Seq<char>, b: Seq<char>)
    requires
        run_id_of(a) == run_id_of(b),
    ensures
        a == b,
        text::has_prefix(run_id_of(a), "workflow_run_"@),
        run_id_of(a).skip("workflow_run_"@.len() as int) == a,
{
    let n = "workflow_run_"@.len() as int;
    assert(run_id_of(a).skip(n) =~= a);
    assert(run_id_of(b).skip(n) =~= b);
    assert(run_id_of(a).take(n) =~= "workflow_run_"@);
}

/// A label is never longer than its beginning, the beginning of the question and the dots.
pub proof fn labels_are_short(template_id: WorkflowTemplateId, question: Seq<char>)
    ensures
        label_of(template_id, question).len() <= "Deep research"@.len() + ": "@.len()
            + MAX_WORKFLOW_LABEL_QUESTION_CHARS + "..."@.len(),
{
}

/// How a run begins.
pub struct WorkflowStart {
    pub label: String,
    pub response: WorkflowStartResponse,
}

/// How a run begins in its thread: queued, under the id that belongs to the thread.
pub fn workflow_start(
    template_id: &WorkflowTemplateId,
    question: &str,
    thread_id: ThreadId,
) -> (res: WorkflowStart)
    ensures
        res.label@ == label_of(*template_id, question@),
        res.response.run_id@ == run_id_of(thread_id@),
        res.response.thread_id == thread_id,
        res.response.status == WorkflowRunStatus::Queued,
        res.response.status is Queued,
        res.response.thread_id == thread_id,
{
    let run_id = workflow_run_id(&thread_id);
    WorkflowStart {
        label: workflow_label(template_id, question),
        response: WorkflowStartResponse { run_id, thread_id, status: WorkflowRunStatus::Queued },
    }
}

/// What is read of a run: what is known of it now, where the server knows it, else what was
/// stored of it, where that is over.
pub fn workflow_read<V>(
    run_id: &str,
    workspace_root: &str,
    known: Option<(String, V)>,
    stored: Option<(WorkflowRunStatus, V)>,
) -> (res: Result<V, AppServerError>)
    ensures
        match (known, stored) {
            (Some((root, run)), _) => if paths::parts_of(root@) == paths::parts_of(
                workspace_root@,
            ) {
                res == Ok::<V, AppServerError>(run)
            } else {
                res matches Err(error) && is_elsewhere(error, run_id@)
            },
            (None, Some((status, run))) if is_over(status) => res == Ok::<V, AppServerError>(run),
            _ => res matches Err(error) && is_unknown(error, run_id@),
        },
        res matches Ok(run) ==> (known matches Some((_, shown)) && shown == run) || (known is None
            && (stored matches Some((_, shown)) && shown == run)),
        known is None && stored is None ==> res is Err,
        known is None && res is Ok ==> !((stored->0).0 is Running) && !((stored->0).0 is Queued),
{
    match known {
        Some((root, run)) => {
            if !paths::same_path(root.as_str(), workspace_root) {
                return Err(run_elsewhere(run_id));
            }
            Ok(run)
        },
        None => match stored {
            Some((status, run)) => if is_terminal(status) {
                Ok(run)
            } else {
                Err(unknown_run(run_id))
            },
            None => Err(unknown_run(run_id)),
        },
    }
}

/// How a run is cancelled.
#[derive(Debug, Clone, Copy, PartialEq, Eq, Structural)]
pub enum CancelStep {
    /// It is cancelled.
    Cancel,
    /// It is over, and stays as it is.
    Leave,
    /// It is not known to the server: it is read from storage.
    ReadStored,
}

/// How a run is cancelled: only one that is not over is.
pub fn workflow_cancel(
    run_id: &str,
    workspace_root: &str,
    known: Option<(String, WorkflowRunStatus)>,
) -> (res: Result<CancelStep, AppServerError>)
    ensures
        match known {
            Some((root, status)) => if paths::parts_of(root@) == paths::parts_of(workspace_root@) {
                res == Ok::<CancelStep, AppServerError>(
                    if is_over(status) {
                        CancelStep::Leave
                    } else {
                        CancelStep::Cancel
                    },
                )
            } else {
                res matches Err(error) && is_elsewhere(error, run_id@)
            },
            None => res == Ok::<CancelStep, AppServerError>(CancelStep::ReadStored),
        },
        res is Ok && res->Ok_0 is ReadStored <==> known is None,
        res matches Ok(CancelStep::Cancel) ==> (known->0).1 is Queued || (known->0).1 is Running,
        res matches Ok(CancelStep::Leave) ==> !((known->0).1 is Queued || (known->0).1 is Running),
        res is Err ==> known is Some,
{
    match known {
        Some((root, status)) => {
            if !paths::same_path(root.as_str(), workspace_root) {
                return Err(run_elsewhere(run_id));
            }
            if is_terminal(status) {
                Ok(CancelStep::Leave)
            } else {
                Ok(CancelStep::Cancel)
            }
        },
        None => Ok(CancelStep::ReadStored),
    }
}

} // verus!
