//! What is listed for the user to decide, which stored request a decision reaches, and how goals
//! are set.
use vstd::prelude::*;

use crate::approvals;
use crate::approvals::{OpenQuestion, PendingCommand};
use crate::error::AppServerError;
use crate::events::RuntimeEvent;
use crate::goals;
use crate::goals::{GoalModeWrite, ThreadGoalRecord, ThreadGoalStatusRecord};
use crate::paths;
use crate::protocol::{
    ApprovalDecisionStatus, ThreadGoalMode, ThreadGoalSetParams, ThreadGoalStatus,
};
use crate::state::{RuntimeOverlay, StoredThreadState};
use crate::text;
use crate::thread_runtime::{ThreadOpResult, ThreadRuntimeError};
use crate::turns;
use crate::turns::PendingCommandApproval;

verus! {

/// An entry for a command goes by the name of the approval and of the thread, says which tool asks
/// and what it would run, and keeps the goal, the time and the checkpoint. The workspace of the
/// thread is not told.
pub proof fn commands_are_told(pending: PendingCommand, elsewhere: PendingCommand)
    ensures
        ({
            let item = approvals::command_item(pending);
            &&& item.kind is Command
            &&& item.thread_id == pending.summary.thread_id@
            &&& item.approval_id == pending.summary.approval_id@
            &&& text::has_prefix(item.summary, pending.summary.tool_name@)
            &&& item.summary.skip(pending.summary.tool_name@.len() as int) == ": "@ + item.detail
            &&& item.detail == pending.summary.command@
            &&& item.requested_at_ms == pending.summary.requested_at_ms
            &&& item.goal_id is Some == pending.goal_id is Some
            &&& item.goal_id matches Some(goal) ==> goal == pending.goal_id->0@
            &&& item.checkpoint_id is Some == pending.summary.checkpoint_id is Some
            &&& item.checkpoint_id matches Some(taken) ==> taken
                == pending.summary.checkpoint_id->0@
        }),
        elsewhere.summary == pending.summary && elsewhere.goal_id == pending.goal_id
            ==> approvals::command_item(elsewhere) == approvals::command_item(pending),
{
    let tool = pending.summary.tool_name@;
    let item = approvals::command_item(pending);
    assert(item.summary =~= tool + (": "@ + item.detail));
    assert(item.summary.take(tool.len() as int) =~= tool);
    assert(item.summary.skip(tool.len() as int) =~= ": "@ + item.detail);
}

/// An entry for a question goes by the name of the question and of its thread, shows the question
/// itself and ends with the answer, where one is there. It has a goal and no checkpoint, and is
/// never older than the clock's start.
pub proof fn questions_are_told(question: OpenQuestion)
    ensures
        ({
            let item = approvals::question_item(question);
            let heading = "Blocks: "@ + question.blocks_what@;
            &&& item.kind is OpenQuestion
            &&& item.thread_id == question.thread_id@
            &&& item.approval_id == question.question_id@
            &&& item.summary == question.question@
            &&& item.goal_id == Some(question.goal_id@)
            &&& item.checkpoint_id is None
            &&& item.requested_at_ms as int == question.created_at_ms as int
                || question.created_at_ms < 0 && item.requested_at_ms == 0
            &&& item.detail.len() >= heading.len() + 2
            &&& item.detail.take(heading.len() as int) == heading
            &&& item.detail[heading.len() as int] == '\n'
            &&& item.detail[heading.len() as int + 1] == '\n'
            &&& question.answer matches Some(answer) ==> item.detail.skip(heading.len() as int + 2)
                == answer@
            &&& question.answer is None ==> item.detail.len() == heading.len() + 2
        }),
{
    reveal_strlit("\n\n");
    reveal_strlit("");
    let item = approvals::question_item(question);
    let heading = "Blocks: "@ + question.blocks_what@;
    assert(item.detail.take(heading.len() as int) =~= heading);
    if question.answer is Some {
        assert(item.detail.skip(heading.len() as int + 2) =~= question.answer->0@);
    }
}

/// Commands are listed in the order in which they are held, and one has no say in whether another
/// is listed.
pub proof fn commands_are_listed_in_order(
    earlier: Seq<PendingCommand>,
    later: Seq<PendingCommand>,
    workspace_root: Option<Seq<char>>,
)
    ensures
        approvals::command_items(earlier + later, workspace_root) == approvals::command_items(
            earlier,
            workspace_root,
        ) + approvals::command_items(later, workspace_root),
    decreases later.len(),
{
    let both = earlier + later;
    if later.len() == 0 {
        assert(both =~= earlier);
        assert(approvals::command_items(both, workspace_root) =~= approvals::command_items(
            earlier,
            workspace_root,
        ) + approvals::command_items(later, workspace_root));
    } else {
        assert(both.drop_last() =~= earlier + later.drop_last());
        assert(both.last() == later.last());
        commands_are_listed_in_order(earlier, later.drop_last(), workspace_root);
        assert(approvals::command_items(both, workspace_root) =~= approvals::command_items(
            earlier,
            workspace_root,
        ) + approvals::command_items(later, workspace_root));
    }
}

/// Whether a command is listed: its thread is loaded, and stands in the workspace that is asked
/// for, if one is.
pub open spec fn shows(pending: PendingCommand, workspace_root: Option<Seq<char>>) -> bool {
    approvals::command_items(seq![pending], workspace_root).len() > 0
}

/// A command is listed once where it is listed. A command of a thread that is not loaded is never
/// listed. That of a loaded thread is listed where no workspace is asked for, and otherwise exactly
/// where the two workspaces lie within each other.
pub proof fn only_commands_at_hand_are_listed(
    pending: PendingCommand,
    workspace_root: Option<Seq<char>>,
)
    ensures
        approvals::command_items(seq![pending], workspace_root) == if shows(
            pending,
            workspace_root,
        ) {
            seq![approvals::command_item(pending)]
        } else {
            Seq::empty()
        },
        pending.live_workspace_root is None ==> !shows(pending, workspace_root),
        pending.live_workspace_root is Some && workspace_root is None ==> shows(
            pending,
            workspace_root,
        ),
        pending.live_workspace_root matches Some(live) ==> (workspace_root matches Some(root) ==> (
        shows(pending, workspace_root) <==> paths::is_within(live@, root) && paths::is_within(
            root,
            live@,
        ))),
{
    let one = seq![pending];
    assert(one.drop_last() =~= Seq::empty());
    assert(one.last() == pending);
    reveal_with_fuel(approvals::command_items, 2);
    let items = approvals::command_items(one, workspace_root);
    assert(approvals::command_items(Seq::empty(), workspace_root) =~= Seq::empty());
    if approvals::is_listed(pending, workspace_root) {
        assert(items =~= seq![approvals::command_item(pending)]);
    } else {
        assert(items =~= Seq::empty());
    }
    if pending.live_workspace_root is Some && workspace_root is Some {
        let a = paths::parts_of(pending.live_workspace_root->0@);
        let b = paths::parts_of(workspace_root->0);
        if a.is_prefix_of(b) && b.is_prefix_of(a) {
            assert(a =~= b);
        }
        if a == b {
            assert(a.is_prefix_of(b));
        }
    }
}

/// A checkpoint belongs to an approval only where the event asks for one and names that checkpoint:
/// an event belongs to at most one, and no other event belongs to any.
pub proof fn checkpoints_belong_to_requests(event: RuntimeEvent, taken: Seq<char>, other: Seq<char>)
    ensures
        approvals::is_bound(event, taken) && approvals::is_bound(event, other) ==> taken == other,
        approvals::is_bound(event, taken) ==> event.kind is ApprovalRequested,
        event.kind is ApprovalRequested ==> (event.kind->ApprovalRequested_checkpoint_id is Some
            <==> exists|id: Seq<char>| #[trigger] approvals::is_bound(event, id)),
        event.kind is ApprovalRequested ==> (event.kind->ApprovalRequested_checkpoint_id matches Some(
            id,
        ) ==> approvals::is_bound(event, id@)),
{
    if event.kind is ApprovalRequested && event.kind->ApprovalRequested_checkpoint_id is Some {
        assert(approvals::is_bound(event, event.kind->ApprovalRequested_checkpoint_id->0@));
    }
}

/// What the user decides is what is stored: an approval is never stored as a denial nor as open.
pub proof fn decisions_are_stored_as_made(status: ApprovalDecisionStatus)
    ensures
        turns::stored_decision(status) is Approved <==> status is Approved,
        turns::stored_decision(status) is Denied <==> status is Denied,
        turns::stored_decision(status) !is Pending,
{
}

/// Whether an event asks for leave to run a command, under this name.
pub open spec fn asks(event: RuntimeEvent, approval_id: Seq<char>) -> bool {
    &&& event.kind is ApprovalRequested
    &&& event.kind->ApprovalRequested_approval_id@ == approval_id
    &&& event.kind->ApprovalRequested_command is Some
}

/// A decision reaches the last event that asks under its name: a request that follows takes its
/// place, any other event leaves it.
pub proof fn the_last_request_counts(
    events: Seq<RuntimeEvent>,
    approval_id: Seq<char>,
    at: int,
)
    requires
        0 <= at < events.len(),
        forall|k: int| at < k < events.len() ==> !asks(#[trigger] events[k], approval_id),
    ensures
        asks(events[at], approval_id) ==> turns::last_command_request(events, approval_id) == Some(
            events[at],
        ),
        !asks(events[at], approval_id) && at == 0 ==> turns::last_command_request(
            events,
            approval_id,
        ) is None,
    decreases events.len(),
{
    reveal_with_fuel(turns::last_command_request, 2);
    if at < events.len() - 1 {
        let before = events.drop_last();
        assert(!asks(events[events.len() - 1], approval_id));
        assert forall|k: int| at < k < before.len() implies !asks(
            #[trigger] before[k],
            approval_id,
        ) by {
            assert(before[k] == events[k]);
        }
        the_last_request_counts(before, approval_id, at);
        assert(before[at] == events[at]);
    } else if events.len() == 1 {
        assert(events.drop_last() =~= Seq::empty());
    }
}

/// Only an approval that still waits in a stored thread is restored, only where its last request
/// comes from a tool that runs commands, and the restored request repeats that event.
pub proof fn open_requests_wait(
    state: StoredThreadState,
    overlay: RuntimeOverlay,
    approval_id: Seq<char>,
)
    ensures
        turns::open_request(None, approval_id) is None,
        ({
            let waits = exists|i: int|
                0 <= i < overlay.pending_approvals@.len() && (
                #[trigger] overlay.pending_approvals@[i])@ == approval_id;
            let found = turns::open_request(Some((state, overlay)), approval_id);
            let asked = turns::last_command_request(state.events@, approval_id);
            &&& found is Some ==> waits && found == asked
            &&& found matches Some(event) ==> (event.kind->ApprovalRequested_tool_name@
                == "run_command"@ || event.kind->ApprovalRequested_tool_name@ == "exec_command"@)
            &&& waits && asked is Some && (asked->0.kind->ApprovalRequested_tool_name@
                == "run_command"@ || asked->0.kind->ApprovalRequested_tool_name@
                == "exec_command"@) ==> found is Some
        }),
{
    let ids = overlay.pending_approvals.deep_view();
    if ids.contains(approval_id) {
        let i = choose|i: int| 0 <= i < ids.len() && ids[i] == approval_id;
        assert(overlay.pending_approvals@[i]@ == approval_id);
    }
    if exists|i: int|
        0 <= i < overlay.pending_approvals@.len() && (#[trigger] overlay.pending_approvals@[i])@
            == approval_id {
        let i = choose|i: int|
            0 <= i < overlay.pending_approvals@.len() && (#[trigger] overlay.pending_approvals@[i])@
                == approval_id;
        assert(ids[i] == approval_id);
    }
}

/// Each result of an operation has a name that no other kind of result has.
pub proof fn results_have_names_of_their_own(a: ThreadOpResult, b: ThreadOpResult)
    requires
        turns::result_name(a) == turns::result_name(b),
    ensures
        a is UserInput <==> b is UserInput,
        a is Interrupted <==> b is Interrupted,
        a is ApprovalDecision <==> b is ApprovalDecision,
        a is Ack <==> b is Ack,
{
    reveal_strlit("user_input");
    reveal_strlit("interrupted");
    reveal_strlit("approval_decision");
    reveal_strlit("ack");
    assert("user_input"@[0] == 'u' && "interrupted"@[0] == 'i');
    assert("approval_decision"@.len() == 17 && "ack"@.len() == 3);
}

/// A result goes by the words of its kind.
pub proof fn results_go_by_their_names(result: ThreadOpResult)
    ensures
        result is Ack ==> turns::result_name(result).len() == 3,
        result is ApprovalDecision ==> text::has_part(turns::result_name(result), "decision"@),
        result is UserInput ==> text::has_part(turns::result_name(result), "input"@),
        result is Interrupted ==> text::has_prefix(turns::result_name(result), "interrupt"@),
{
    let name = turns::result_name(result);
    reveal_strlit("user_input");
    reveal_strlit("interrupted");
    reveal_strlit("approval_decision");
    reveal_strlit("ack");
    reveal_strlit("decision");
    reveal_strlit("input");
    reveal_strlit("interrupt");
    if result is ApprovalDecision {
        assert(name.subrange(9, 17) =~= "decision"@);
        assert(text::is_at(name, "decision"@, 9));
    }
    if result is UserInput {
        assert(name.subrange(5, 10) =~= "input"@);
        assert(text::is_at(name, "input"@, 5));
    }
    if result is Interrupted {
        assert(name.take(9) =~= "interrupt"@);
    }
}

/// The words of an error that a thread gives are those that the client reads, down to the thread
/// and the reason.
pub proof fn faults_reach_the_client(error: ThreadRuntimeError)
    ensures
        match turns::server_error_of(error) {
            AppServerError::ThreadBusy(id) => error == ThreadRuntimeError::ThreadBusy(id),
            AppServerError::TurnRejected { thread_id, reason } => error
                == (ThreadRuntimeError::TurnRejected { thread_id, reason }),
            AppServerError::TurnInterrupted { thread_id, turn_id } => error
                == (ThreadRuntimeError::TurnInterrupted { thread_id, turn_id }),
            _ => false,
        },
{
}

/// A goal stands in the protocol where it stands in the store.
pub proof fn goals_stand_where_they_are_stored(
    record: ThreadGoalStatusRecord,
    status: ThreadGoalStatus,
)
    requires
        goals::shown_status(record) == status || goals::stored_status(status) == record,
    ensures
        status is Active <==> record is Active,
        status is Paused <==> record is Paused,
        status is Blocked <==> record is Blocked,
        status is UsageLimited <==> record is UsageLimited,
        status is BudgetLimited <==> record is BudgetLimited,
        status is Complete <==> record is Complete,
{
}

/// A shown goal tells what the store holds: two records that are shown alike are the same.
pub proof fn goals_are_shown_whole(record: ThreadGoalRecord, other: ThreadGoalRecord)
    ensures
        goals::shown_goal(record) == goals::shown_goal(other) ==> record == other,
        ({
            let goal = goals::shown_goal(record);
            &&& goal.thread_id == record.thread_id
            &&& goal.goal_id == record.goal_id
            &&& goal.objective == record.objective
            &&& goal.token_budget == record.token_budget
            &&& goal.tokens_used == record.tokens_used
            &&& goal.time_used_seconds == record.time_used_seconds
            &&& goal.continuation_suppressed == record.continuation_suppressed
            &&& goal.continuation_suppressed_after_turn_id
                == record.continuation_suppressed_after_turn_id
            &&& goal.created_at_ms == record.created_at_ms
            &&& goal.updated_at_ms == record.updated_at_ms
        }),
{
    goals::goal_status_round_trip(record.status, ThreadGoalStatus::Active);
    goals::goal_status_round_trip(other.status, ThreadGoalStatus::Active);
}

/// A request to set a goal is accepted exactly where its objective, if it has one, is neither blank
/// nor too long, its budget, if it has one, is positive, and its status, if it has one, is not one
/// that only the runtime gives. Blanks round the objective, the thread and the mode do not matter.
pub proof fn accepted_goals(params: ThreadGoalSetParams, alike: ThreadGoalSetParams)
    ensures
        goals::goal_set_refusal(params) is None <==> {
            &&& params.objective matches Some(objective) ==> 0 < text::trim_of(objective@).len()
                <= 4_000
            &&& params.token_budget matches Some(Some(budget)) ==> budget > 0
            &&& params.status !is Some || (params.status->0 is Active || params.status->0 is Paused
                || params.status->0 is Blocked || params.status->0 is Complete)
        },
        alike.status == params.status && alike.token_budget == params.token_budget && (
        alike.objective is Some <==> params.objective is Some) && (params.objective is Some
            ==> text::trim_of(alike.objective->0@) == text::trim_of(params.objective->0@))
            ==> goals::goal_set_refusal(alike) == goals::goal_set_refusal(params),
{
}

/// A wrong objective is named before a wrong budget, and that before a wrong status.
pub proof fn refusals_come_in_order(params: ThreadGoalSetParams)
    ensures
        ({
            let refusal = goals::goal_set_refusal(params);
            let blank = params.objective is Some && text::trim_of(params.objective->0@).len() == 0;
            let long = params.objective is Some && text::trim_of(params.objective->0@).len() > 4_000;
            let poor = params.token_budget is Some && params.token_budget->0 is Some
                && params.token_budget->0->0 <= 0;
            &&& blank ==> refusal == Some("goal objective must not be empty"@)
            &&& long ==> refusal == Some(
                "goal objective must be at most "@ + text::decimal_of(4_000) + " characters"@,
            )
            &&& poor && !blank && !long ==> refusal == Some("token_budget must be positive"@)
            &&& !poor && !blank && !long && refusal is Some ==> params.status is Some
        }),
{
}

/// A mode that is written holds, and where none is written the stored one stays.
pub proof fn written_modes_hold(mode: ThreadGoalMode, stored: ThreadGoalMode)
    ensures
        goals::mode_after(GoalModeWrite::Change(mode), stored) == mode,
        goals::mode_after(GoalModeWrite::ReplaceForThread(mode), stored) == mode,
        goals::mode_after(GoalModeWrite::Keep, stored) == stored,
{
}

/// A request is restored exactly where one is open, and repeats what the event asked for: the tool,
/// the command, where and how it is to run, and why. It goes by the approval and the stored thread.
pub proof fn restored_requests_repeat_their_event(
    pending: Option<PendingCommandApproval>,
    state: StoredThreadState,
    overlay: RuntimeOverlay,
    approval_id: Seq<char>,
)
    requires
        turns::is_open_request(pending, Some((state, overlay)), approval_id),
    ensures
        pending is Some <==> turns::open_request(Some((state, overlay)), approval_id) is Some,
        pending is Some && turns::open_request(Some((state, overlay)), approval_id) is Some ==> {
            let restored = pending->0;
            let asked = turns::open_request(Some((state, overlay)), approval_id)->0.kind;
            let command = asked->ApprovalRequested_command->0;
            &&& restored.approval_id@ == approval_id
            &&& restored.thread_id@ == state.snapshot.thread_id@
            &&& restored.tool_name@ == asked->ApprovalRequested_tool_name@
            &&& restored.reason@ == asked->ApprovalRequested_reason@
            &&& restored.command@ == command.command@
            &&& restored.cwd@ == command.cwd@
            &&& restored.timeout_secs == command.timeout_secs
            &&& restored.persistent == command.persistent
        },
{
}

/// Nothing is restored for a thread that is not stored.
pub proof fn nothing_is_restored_from_nowhere(
    pending: Option<PendingCommandApproval>,
    approval_id: Seq<char>,
)
    requires
        turns::is_open_request(pending, None, approval_id),
    ensures
        pending is None,
{
}

} // verus!
