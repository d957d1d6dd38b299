//! What waits for the user: commands, questions, and the checkpoints taken before them.
use vstd::prelude::*;

use crate::data;
use crate::data::{Alike, Duplicate};
use crate::error::AppServerError;
use crate::events::{RuntimeEvent, RuntimeEventKind};
use crate::ids::{ApprovalId, EventId, ThreadId};
use crate::paths;
use crate::protocol::{
    ApprovalsListResponse, CheckpointRestoreResponse, CheckpointRestoreStatus, PendingApprovalItem,
    PendingApprovalItemModel, PendingApprovalKind,
};
use crate::text;

verus! {

/// A command that waits for approval.
#[derive(Debug, Clone, PartialEq, Eq)]
pub struct PendingApprovalSummary {
    pub thread_id: ThreadId,
    pub approval_id: ApprovalId,
    pub tool_name: String,
    pub command: String,
    pub requested_at_ms: u64,
    pub checkpoint_id: Option<String>,
}

/// A command that waits for approval, with the workspace of its thread, where that is loaded, and
/// the goal that the thread works on.
#[derive(Debug, Clone, PartialEq, Eq)]
pub struct PendingCommand {
    pub summary: PendingApprovalSummary,
    pub live_workspace_root: Option<String>,
    pub goal_id: Option<String>,
}

/// A question that a goal waits for.
#[derive(Debug, Clone, PartialEq, Eq)]
pub struct OpenQuestion {
    pub question_id: String,
    pub thread_id: ThreadId,
    pub goal_id: String,
    pub question: String,
    pub blocks_what: String,
    pub answer: Option<String>,
    pub created_at_ms: i64,
}

/// Answers a question.
#[derive(Debug, Clone, PartialEq, Eq)]
pub struct OpenQuestionResolveParams {
    pub thread_id: ThreadId,
    pub question_id: String,
    pub answer: Option<String>,
    pub workspace_root: Option<String>,
}

/// Where a question stands after the answer.
#[derive(Debug, Clone, Copy, PartialEq, Eq, Structural)]
pub enum OpenQuestionResolveStatus {
    Resolved,
}

/// The answered question.
#[derive(Debug, Clone, PartialEq, Eq)]
pub struct OpenQuestionResolveResponse {
    pub thread_id: ThreadId,
    pub question_id: String,
    pub goal_id: String,
    pub status: OpenQuestionResolveStatus,
}

/// The entry for a command.
pub open spec fn command_item(pending: PendingCommand) -> PendingApprovalItemModel {
    let summary = pending.summary;
    PendingApprovalItemModel {
        thread_id: summary.thread_id@,
        approval_id: summary.approval_id@,
        kind: PendingApprovalKind::Command,
        summary: summary.tool_name@ + ": "@ + summary.command@,
        detail: summary.command@,
        goal_id: pending.goal_id.deep_view(),
        requested_at_ms: summary.requested_at_ms,
        checkpoint_id: summary.checkpoint_id.deep_view(),
    }
}

/// The entry for a command.
pub fn pending_item_from_summary(
    summary: PendingApprovalSummary,
    goal_id: Option<String>,
) -> (res: PendingApprovalItem)
    ensures
        forall|live: Option<String>|
            res.deep_view() == #[trigger] command_item(
                PendingCommand { summary, live_workspace_root: live, goal_id },
            ),
{
    PendingApprovalItem {
        summary: text::concat3(summary.tool_name.as_str(), ": ", summary.command.as_str()),
        thread_id: summary.thread_id,
        approval_id: summary.approval_id,
        kind: PendingApprovalKind::Command,
        detail: summary.command,
        goal_id,
        requested_at_ms: summary.requested_at_ms,
        checkpoint_id: summary.checkpoint_id,
    }
}

/// The entry for a question: what it blocks, and the answer so far. A time before 1970 counts as
/// 1970.
pub open spec fn question_item(question: OpenQuestion) -> PendingApprovalItemModel {
    PendingApprovalItemModel {
        thread_id: question.thread_id@,
        approval_id: question.question_id@,
        kind: PendingApprovalKind::OpenQuestion,
        summary: question.question@,
        detail: "Blocks: "@ + question.blocks_what@ + "\n\n"@ + match question.answer {
            Some(answer) => answer@,
            None => ""@,
        },
        goal_id: Some(question.goal_id@),
        requested_at_ms: if question.created_at_ms > 0 {
            question.created_at_ms as u64
        } else {
            0
        },
        checkpoint_id: None,
    }
}

/// The entry for a question.
pub fn pending_item_from_open_question(question: OpenQuestion) -> (res: PendingApprovalItem)
    ensures
        res.deep_view() == question_item(question),
{
    let answer = match question.answer {
        Some(answer) => answer,
        None => "".to_owned(),
    };
    let detail = text::concat4(
        "Blocks: ",
        question.blocks_what.as_str(),
        "\n\n",
        answer.as_str(),
    );
    PendingApprovalItem {
        thread_id: question.thread_id,
        approval_id: ApprovalId(question.question_id),
        kind: PendingApprovalKind::OpenQuestion,
        summary: question.question,
        detail,
        goal_id: Some(question.goal_id),
        requested_at_ms: if question.created_at_ms > 0 {
            question.created_at_ms as u64
        } else {
            0
        },
        checkpoint_id: None,
    }
}

/// Whether a command is listed: its thread must be loaded, in the workspace asked for.
pub open spec fn is_listed(pending: PendingCommand, workspace_root: Option<Seq<char>>) -> bool {
    pending.live_workspace_root matches Some(live) && (workspace_root matches Some(root)
        ==> paths::parts_of(live@) == paths::parts_of(root))
}

/// Whether a command is listed.
pub fn listed(pending: &PendingCommand, workspace_root: &Option<String>) -> (res: bool)
    ensures
        res == is_listed(*pending, workspace_root.deep_view()),
{
    match (&pending.live_workspace_root, workspace_root) {
        (None, _) => false,
        (Some(_), None) => true,
        (Some(live), Some(root)) => paths::same_path(live.as_str(), root.as_str()),
    }
}

/// The entries for the commands that are listed.
pub open spec fn command_items(
    pending: Seq<PendingCommand>,
    workspace_root: Option<Seq<char>>,
) -> Seq<PendingApprovalItemModel>
    decreases pending.len(),
{
    if pending.len() == 0 {
        Seq::empty()
    } else {
        let before = command_items(pending.drop_last(), workspace_root);
        if is_listed(pending.last(), workspace_root) {
            before.push(command_item(pending.last()))
        } else {
            before
        }
    }
}

/// The entry for a question, as a function.
pub open spec fn as_item() -> spec_fn(OpenQuestion) -> PendingApprovalItemModel {
    |question: OpenQuestion| question_item(question)
}

/// Lists what waits for the user: the commands of the loaded threads, then the open questions.
pub fn approvals_list(
    pending: Vec<PendingCommand>,
    questions: Vec<OpenQuestion>,
    workspace_root: &Option<String>,
) -> (res: ApprovalsListResponse)
    ensures
        res.approvals.deep_view() == command_items(pending@, workspace_root.deep_view())
            + questions@.map_values(as_item()),
{
    let ghost root = workspace_root.deep_view();
    let ghost commands = command_items(pending@, root);
    let mut approvals: Vec<PendingApprovalItem> = Vec::new();
    proof {
        assert(pending@.take(0) =~= Seq::empty());
        assert(approvals.deep_view() =~= Seq::empty());
    }
    for item in iter: pending
        invariant
            iter.seq() == pending@,
            root == workspace_root.deep_view(),
            approvals.deep_view() == command_items(pending@.take(iter.index()), root),
    {
        proof {
            let next = pending@.take(iter.index() + 1);
            assert(next.drop_last() =~= pending@.take(iter.index()));
            assert(next.last() == item);
        }
        if listed(&item, workspace_root) {
            data::append(&mut approvals, pending_item_from_summary(item.summary, item.goal_id));
            proof {
                assert(command_item(item) == command_item(
                    PendingCommand {
                        summary: item.summary,
                        live_workspace_root: item.live_workspace_root,
                        goal_id: item.goal_id,
                    },
                ));
            }
        }
    }
    proof {
        assert(pending@.take(pending@.len() as int) =~= pending@);
        assert(approvals.deep_view() =~= commands + questions@.take(0).map_values(as_item()));
    }
    for question in iter: questions
        invariant
            iter.seq() == questions@,
            approvals.deep_view() == commands + questions@.take(iter.index()).map_values(
                as_item(),
            ),
    {
        data::append(&mut approvals, pending_item_from_open_question(question));
        proof {
            assert(questions@.take(iter.index() + 1).map_values(as_item()) =~= questions@.take(
                iter.index(),
            ).map_values(as_item()).push(question_item(question)));
            assert(approvals.deep_view() =~= commands + questions@.take(
                iter.index() + 1,
            ).map_values(as_item()));
        }
    }
    proof {
        assert(questions@.take(questions@.len() as int) =~= questions@);
    }
    ApprovalsListResponse { approvals }
}

/// Why a question cannot be answered.
#[derive(Debug, Clone, PartialEq, Eq)]
pub struct QuestionError {
    pub message: String,
}

impl QuestionError {
    /// The error with these words.
    fn of(message: String) -> (res: Self)
        ensures
            res.message == message,
    {
        QuestionError { message }
    }
}

/// Whether a question can be answered: there must be a store of questions, the question must be
/// in it, and it must be one of the thread.
pub fn open_question_resolve(
    params: &OpenQuestionResolveParams,
    has_store: bool,
    question: &Option<OpenQuestion>,
) -> (res: Result<(), QuestionError>)
    ensures
        match res {
            Ok(_) => has_store && (question matches Some(question) && question.thread_id@
                == params.thread_id@),
            Err(error) => if !has_store {
                error.message@ == "open question resolve requires a goal store"@
            } else {
                match *question {
                    None => error.message@ == "unknown open question: "@ + params.question_id@,
                    Some(question) => {
                        &&& question.thread_id@ != params.thread_id@
                        &&& error.message@ == "open question "@ + params.question_id@
                            + " belongs to thread "@ + question.thread_id@ + ", not "@
                            + params.thread_id@
                    },
                }
            },
        },
{
    if !has_store {
        return Err(QuestionError::of("open question resolve requires a goal store".to_owned()));
    }
    match question {
        None => Err(
            QuestionError::of(
                text::concat2("unknown open question: ", params.question_id.as_str()),
            ),
        ),
        Some(question) => {
            if !question.thread_id.alike(&params.thread_id) {
                let start = text::concat4(
                    "open question ",
                    params.question_id.as_str(),
                    " belongs to thread ",
                    question.thread_id.as_str(),
                );
                return Err(
                    QuestionError::of(
                        text::concat3(start.as_str(), ", not ", params.thread_id.as_str()),
                    ),
                );
            }
            Ok(())
        },
    }
}

/// Where a thread is indexed: its workspace, and the file that holds its history.
#[derive(Debug, Clone, PartialEq, Eq)]
pub struct IndexedThread {
    pub workspace_path: String,
    pub rollout_path: String,
}

/// The file that holds the history of a thread. The thread must be indexed, and belong to the
/// workspace that is expected, if one is.
pub fn thread_rollout_path(
    thread_id: &ThreadId,
    indexed: Option<IndexedThread>,
    expected_workspace_root: &Option<String>,
) -> (res: Result<String, QuestionError>)
    ensures
        match res {
            Ok(path) => indexed matches Some(row) && path == row.rollout_path && (
            expected_workspace_root matches Some(expected) ==> row.workspace_path@ == expected@),
            Err(error) => match indexed {
                None => error.message@ == "thread not indexed: "@ + thread_id@,
                Some(row) => {
                    &&& expected_workspace_root matches Some(expected)
                    &&& row.workspace_path@ != expected@
                    &&& error.message@ == "thread "@ + thread_id@ + " belongs to workspace "@
                        + row.workspace_path@ + ", not "@ + expected@
                },
            },
        },
{
    let row = match indexed {
        Some(row) => row,
        None => return Err(
            QuestionError::of(text::concat2("thread not indexed: ", thread_id.as_str())),
        ),
    };
    if let Some(expected) = expected_workspace_root {
        if row.workspace_path != *expected {
            let start = text::concat4(
                "thread ",
                thread_id.as_str(),
                " belongs to workspace ",
                row.workspace_path.as_str(),
            );
            return Err(
                QuestionError::of(text::concat3(start.as_str(), ", not ", expected.as_str())),
            );
        }
    }
    Ok(row.rollout_path)
}

/// The answer to a question that was answered.
pub fn open_question_resolve_response(resolved: OpenQuestion) -> (res: OpenQuestionResolveResponse)
    ensures
        res == (OpenQuestionResolveResponse {
            thread_id: resolved.thread_id,
            question_id: resolved.question_id,
            goal_id: resolved.goal_id,
            status: OpenQuestionResolveStatus::Resolved,
        }),
{
    OpenQuestionResolveResponse {
        thread_id: resolved.thread_id,
        question_id: resolved.question_id,
        goal_id: resolved.goal_id,
        status: OpenQuestionResolveStatus::Resolved,
    }
}

/// The record that a question was answered. It belongs to no turn.
#[derive(Debug, Clone, PartialEq, Eq)]
pub struct OpenQuestionResolved {
    pub event_id: EventId,
    pub thread_id: ThreadId,
    pub question_id: String,
    pub goal_id: String,
    pub answer: Option<String>,
}

/// The record that a question was answered.
pub fn open_question_resolved_event(event_id: EventId, question: &OpenQuestion) -> (res:
    OpenQuestionResolved)
    ensures
        res.event_id == event_id,
        res.thread_id@ == question.thread_id@,
        res.question_id@ == question.question_id@,
        res.goal_id@ == question.goal_id@,
        res.answer.deep_view() == question.answer.deep_view(),
{
    OpenQuestionResolved {
        event_id,
        thread_id: question.thread_id.duplicate(),
        question_id: question.question_id.clone(),
        goal_id: question.goal_id.clone(),
        answer: question.answer.duplicate(),
    }
}

/// Whether an event asks for an approval with this checkpoint taken before.
pub open spec fn is_bound(event: RuntimeEvent, checkpoint: Seq<char>) -> bool {
    event.kind matches RuntimeEventKind::ApprovalRequested { checkpoint_id: Some(taken), .. }
        && taken@ == checkpoint
}

/// Whether one of the threads asks for an approval with this checkpoint taken before.
pub fn checkpoint_id_bound_to_approval(
    threads: &Vec<Vec<RuntimeEvent>>,
    checkpoint_id: &str,
) -> (res: bool)
    ensures
        res == exists|i: int, j: int|
            0 <= i < threads@.len() && 0 <= j < threads@[i]@.len() && is_bound(
                #[trigger] threads@[i]@[j],
                checkpoint_id@,
            ),
{
    for i in 0..threads.len()
        invariant
            forall|k: int, j: int|
                0 <= k < i && 0 <= j < threads@[k]@.len() ==> !is_bound(
                    #[trigger] threads@[k]@[j],
                    checkpoint_id@,
                ),
    {
        let events = &threads[i];
        for j in 0..events.len()
            invariant
                *events == threads@[i as int],
                0 <= i < threads@.len(),
                forall|l: int| 0 <= l < j ==> !is_bound(#[trigger] events@[l], checkpoint_id@),
        {
            if let RuntimeEventKind::ApprovalRequested { checkpoint_id: Some(taken), .. } =
                &events[j].kind {
                if text::same(taken.as_str(), checkpoint_id) {
                    assert(is_bound(threads@[i as int]@[j as int], checkpoint_id@));
                    return true;
                }
            }
        }
    }
    false
}

/// Turns a restore down, where no thread asks for an approval with the checkpoint taken before.
pub fn checkpoint_restore(
    workspace_root: &str,
    checkpoint_id: &str,
    threads: &Vec<Vec<RuntimeEvent>>,
) -> (res: Result<(), AppServerError>)
    ensures
        ({
            let bound = exists|i: int, j: int|
                0 <= i < threads@.len() && 0 <= j < threads@[i]@.len() && is_bound(
                    #[trigger] threads@[i]@[j],
                    checkpoint_id@,
                );
            match res {
                Ok(_) => bound,
                Err(error) => !bound && error.is_invalid(
                    "checkpoint `"@ + checkpoint_id@
                        + "` is not bound to an approval in workspace `"@ + workspace_root@ + "`"@,
                ),
            }
        }),
{
    if checkpoint_id_bound_to_approval(threads, checkpoint_id) {
        Ok(())
    } else {
        Err(
            AppServerError::InvalidRequest(
                text::concat5(
                    "checkpoint `",
                    checkpoint_id,
                    "` is not bound to an approval in workspace `",
                    workspace_root,
                    "`",
                ),
            ),
        )
    }
}

/// The answer to a restore, from how it ended.
pub fn checkpoint_restore_response(
    workspace_root: String,
    checkpoint_id: String,
    failure: Option<String>,
) -> (res: Result<CheckpointRestoreResponse, AppServerError>)
    ensures
        match failure {
            None => {
                &&& res matches Ok(response)
                &&& response.workspace_root == workspace_root
                &&& response.checkpoint_id == checkpoint_id
                &&& response.status == CheckpointRestoreStatus::Restored
                &&& response.message@ == "workspace restored from checkpoint"@
            },
            Some(failure) => res matches Err(error) && error.is_invalid(
                "failed to restore checkpoint `"@ + checkpoint_id@ + "` in workspace `"@
                    + workspace_root@ + "`: "@ + failure@,
            ),
        },
{
    match failure {
        None => Ok(
            CheckpointRestoreResponse {
                workspace_root,
                checkpoint_id,
                status: CheckpointRestoreStatus::Restored,
                message: "workspace restored from checkpoint".to_owned(),
            },
        ),
        Some(failure) => {
            let start = text::concat5(
                "failed to restore checkpoint `",
                checkpoint_id.as_str(),
                "` in workspace `",
                workspace_root.as_str(),
                "`: ",
            );
            Err(AppServerError::InvalidRequest(text::concat2(start.as_str(), failure.as_str())))
        },
    }
}

} // verus!
