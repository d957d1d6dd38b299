//! The view of a thread, made from its recorded events and from its conversation.
use vstd::prelude::*;

use crate::data::{append, Alike, Duplicate};
use crate::events::{RuntimeEvent, RuntimeEventKind};
use crate::ids::{ApprovalId, TurnId};
use crate::protocol::{
    ThreadItem, ThreadItemModel, TurnState, TurnStateModel, TurnStatus, TurnView, TurnViewModel,
};
use crate::seqs;
use crate::text;
use crate::types::ApprovalStatus;

verus! {

/// Where a turn stands after an event of this kind; `None` where the event says nothing of it.
pub open spec fn turn_status_after(kind: RuntimeEventKind) -> Option<TurnStatus> {
    match kind {
        RuntimeEventKind::TurnCompleted | RuntimeEventKind::AssistantTurn { .. } => Some(
            TurnStatus::Completed,
        ),
        RuntimeEventKind::TurnInterrupted => Some(TurnStatus::Interrupted),
        RuntimeEventKind::RuntimeError { .. } => Some(TurnStatus::Failed),
        RuntimeEventKind::ThreadGoalUpdated { .. }
        | RuntimeEventKind::ThreadGoalCleared { .. }
        | RuntimeEventKind::ThreadGoalContinuationStarted { .. }
        | RuntimeEventKind::ThreadGoalContinuationSuppressed { .. }
        | RuntimeEventKind::ThreadGoalTurnStarted { .. }
        | RuntimeEventKind::ThreadGoalToolCompleted { .. }
        | RuntimeEventKind::ThreadGoalReport { .. } => None,
        _ => Some(TurnStatus::InProgress),
    }
}

/// The turn of the last event that tells where its turn stands.
pub open spec fn latest_turn_state_of(events: Seq<RuntimeEvent>) -> Option<TurnStateModel>
    decreases events.len(),
{
    if events.len() == 0 {
        None
    } else {
        match (events.last().turn_id, turn_status_after(events.last().kind)) {
            (Some(turn_id), Some(status)) => Some(TurnStateModel { turn_id: turn_id@, status }),
            _ => latest_turn_state_of(events.drop_last()),
        }
    }
}

fn status_after(kind: &RuntimeEventKind) -> (res: Option<TurnStatus>)
    ensures
        res == turn_status_after(*kind),
{
    match kind {
        RuntimeEventKind::TurnCompleted | RuntimeEventKind::AssistantTurn { .. } => Some(
            TurnStatus::Completed,
        ),
        RuntimeEventKind::TurnInterrupted => Some(TurnStatus::Interrupted),
        RuntimeEventKind::RuntimeError { .. } => Some(TurnStatus::Failed),
        RuntimeEventKind::ThreadGoalUpdated { .. }
        | RuntimeEventKind::ThreadGoalCleared { .. }
        | RuntimeEventKind::ThreadGoalContinuationStarted { .. }
        | RuntimeEventKind::ThreadGoalContinuationSuppressed { .. }
        | RuntimeEventKind::ThreadGoalTurnStarted { .. }
        | RuntimeEventKind::ThreadGoalToolCompleted { .. }
        | RuntimeEventKind::ThreadGoalReport { .. } => None,
        _ => Some(TurnStatus::InProgress),
    }
}

/// The turn that the thread was last at, and where it stands.
pub fn latest_turn_state(events: &Vec<RuntimeEvent>) -> (res: Option<TurnState>)
    ensures
        res.deep_view() == latest_turn_state_of(events@),
{
    let mut n: usize = events.len();
    assert(events@.take(n as int) =~= events@);
    while n > 0
        invariant
            n <= events@.len(),
            latest_turn_state_of(events@) == latest_turn_state_of(events@.take(n as int)),
        decreases n,
    {
        let event = &events[n - 1];
        let ghost seen = events@.take(n as int);
        assert(seen.last() == *event);
        assert(seen.drop_last() =~= events@.take(n - 1));
        if let Some(turn_id) = &event.turn_id {
            if let Some(status) = status_after(&event.kind) {
                return Some(TurnState { turn_id: turn_id.duplicate(), status });
            }
        }
        n = n - 1;
    }
    None
}

/// Whether `turn` has this id.
pub open spec fn has_id(id: Seq<char>) -> spec_fn(TurnViewModel) -> bool {
    |turn: TurnViewModel| turn.id == id
}

/// The index of the first turn with this id; the number of turns where there is none.
pub open spec fn turn_index(turns: Seq<TurnViewModel>, id: Seq<char>) -> int {
    seqs::first_index(turns, has_id(id))
}

/// `turns` with a turn of this id: the one that is there, or a new one at the end.
pub open spec fn with_turn(turns: Seq<TurnViewModel>, id: Seq<char>) -> Seq<TurnViewModel> {
    if turn_index(turns, id) < turns.len() {
        turns
    } else {
        turns.push(TurnViewModel { id, status: TurnStatus::InProgress, items: Seq::empty() })
    }
}

/// `turns` with the turn of this id, there or new, at `status`.
pub open spec fn with_status(
    turns: Seq<TurnViewModel>,
    id: Seq<char>,
    status: TurnStatus,
) -> Seq<TurnViewModel> {
    let ensured = with_turn(turns, id);
    let index = turn_index(ensured, id);
    ensured.update(index, TurnViewModel { status, ..ensured[index] })
}

/// The items of the turn of this id; none where it is not there.
pub open spec fn items_at(turns: Seq<TurnViewModel>, id: Seq<char>) -> Seq<ThreadItemModel> {
    let ensured = with_turn(turns, id);
    ensured[turn_index(ensured, id)].items
}

/// `turns` with these items in the turn of this id, there or new.
pub open spec fn with_items(
    turns: Seq<TurnViewModel>,
    id: Seq<char>,
    items: Seq<ThreadItemModel>,
) -> Seq<TurnViewModel> {
    let ensured = with_turn(turns, id);
    let index = turn_index(ensured, id);
    ensured.update(index, TurnViewModel { items, ..ensured[index] })
}

/// The index of the turn with this id, which is added at the end where it is not there.
pub fn ensure_turn_view(turns: &mut Vec<TurnView>, turn_id: &TurnId) -> (index: usize)
    ensures
        final(turns).deep_view() == with_turn(old(turns).deep_view(), turn_id@),
        index == turn_index(final(turns).deep_view(), turn_id@),
        index < final(turns)@.len(),
        final(turns)@.len() == final(turns).deep_view().len(),
{
    let mut i: usize = 0;
    while i < turns.len()
        invariant
            *turns == *old(turns),
            i <= turns@.len(),
            forall|j: int| 0 <= j < i ==> (#[trigger] turns.deep_view()[j]).id != turn_id@,
        decreases turns@.len() - i,
    {
        assert(turns.deep_view()[i as int].id == turns@[i as int].id@);
        if turns[i].id.alike(turn_id) {
            proof {
                seqs::first_index_is(turns.deep_view(), has_id(turn_id@), i as int);
            }
            return i;
        }
        i = i + 1;
    }
    proof {
        seqs::first_index_is(turns.deep_view(), has_id(turn_id@), i as int);
    }
    append(
        turns,
        TurnView { id: turn_id.duplicate(), status: TurnStatus::InProgress, items: Vec::new() },
    );
    proof {
        let added = turns.deep_view().last();
        assert(added.items =~= Seq::empty());
        assert forall|j: int| 0 <= j < i implies !has_id(turn_id@)(
            #[trigger] turns.deep_view()[j],
        ) by {
            assert(turns.deep_view()[j] == old(turns).deep_view()[j]);
        }
        seqs::first_index_is(turns.deep_view(), has_id(turn_id@), i as int);
    }
    i
}

/// Puts the turn with this id, there or new, at `status`.
fn set_status(turns: &mut Vec<TurnView>, turn_id: &TurnId, status: TurnStatus)
    ensures
        final(turns).deep_view() == with_status(old(turns).deep_view(), turn_id@, status),
{
    let index: usize = ensure_turn_view(turns, turn_id);
    let ghost before = *turns;
    turns[index].status = status;
    proof {
        seqs::deep_view_update(before, *turns, index as int);
    }
}

/// The name of an approval status.
pub open spec fn approval_status_text(status: ApprovalStatus) -> Seq<char> {
    match status {
        ApprovalStatus::Pending => "pending"@,
        ApprovalStatus::Approved => "approved"@,
        ApprovalStatus::Denied => "denied"@,
    }
}

/// The name of an approval status.
pub fn approval_status_name(status: &ApprovalStatus) -> (res: &'static str)
    ensures
        res@ == approval_status_text(*status),
{
    match status {
        ApprovalStatus::Pending => "pending",
        ApprovalStatus::Approved => "approved",
        ApprovalStatus::Denied => "denied",
    }
}

/// The item that shows `event` in the view of its turn; `None` where the event has no item of its
/// own.
pub open spec fn item_of_event(event: RuntimeEvent) -> Option<ThreadItemModel> {
    let event_id = Some(event.event_id@);
    match event.kind {
        RuntimeEventKind::AssistantTurn { turn } => match turn.text {
            Some(text) => Some(
                ThreadItemModel::AssistantMessage { event_id, text: Some(text@) },
            ),
            None => None,
        },
        RuntimeEventKind::Reasoning { summary, content } => Some(
            ThreadItemModel::Reasoning {
                event_id,
                summary: summary.deep_view(),
                content: content.deep_view(),
            },
        ),
        RuntimeEventKind::ToolResult { result } => Some(
            ThreadItemModel::ToolResult { event_id, name: result.tool_name@ },
        ),
        RuntimeEventKind::ExecOutput { chunk, .. } => Some(
            ThreadItemModel::ExecOutput { event_id, text: chunk@ },
        ),
        RuntimeEventKind::ApprovalRequested {
            approval_id,
            tool_name,
            reason,
            checkpoint_id,
            permission_profile,
            filesystem_sandbox,
            network_sandbox,
            env_isolation,
            ..
        } => Some(
            ThreadItemModel::ApprovalRequested {
                event_id,
                approval_id: approval_id@,
                tool_name: tool_name@,
                reason: reason@,
                checkpoint_id: checkpoint_id.deep_view(),
                permission_profile,
                filesystem_sandbox: filesystem_sandbox@,
                network_sandbox: network_sandbox@,
                env_isolation: env_isolation@,
            },
        ),
        RuntimeEventKind::ApprovalDecision { approval_id, status, note } => Some(
            ThreadItemModel::ApprovalDecision {
                event_id,
                approval_id: Some(approval_id@),
                status: approval_status_text(status),
                note: note.deep_view(),
            },
        ),
        RuntimeEventKind::UserInputRequested { request_id, tool_name, questions } => Some(
            ThreadItemModel::UserInputRequested {
                event_id,
                request_id: request_id@,
                tool_name: tool_name@,
                questions: questions.deep_view(),
                status: "pending"@,
            },
        ),
        RuntimeEventKind::UserInputResolved { request_id, dismissed } => Some(
            ThreadItemModel::UserInputResolved { event_id, request_id: request_id@, dismissed },
        ),
        RuntimeEventKind::RuntimeError { message } => Some(
            ThreadItemModel::RuntimeError { event_id, message: message@ },
        ),
        RuntimeEventKind::CompactionWritten { .. } => Some(ThreadItemModel::CompactionWritten),
        RuntimeEventKind::SubagentSpawned {
            invocation_id,
            tool_call_id,
            parent_thread_id,
            child_thread_id,
            task_name,
            message_preview,
        } => Some(
            ThreadItemModel::SubagentSpawn {
                event_id,
                invocation_id: invocation_id@,
                tool_call_id: tool_call_id@,
                parent_thread_id: parent_thread_id@,
                child_thread_id: child_thread_id@,
                task_name: task_name@,
                message_preview: message_preview@,
            },
        ),
        RuntimeEventKind::SubagentClosed {
            invocation_id,
            tool_call_id,
            parent_thread_id,
            closed_thread_id,
            agent_path,
        } => Some(
            ThreadItemModel::SubagentClose {
                event_id,
                invocation_id: invocation_id@,
                tool_call_id: tool_call_id@,
                parent_thread_id: parent_thread_id@,
                closed_thread_id: closed_thread_id@,
                agent_path: agent_path@,
            },
        ),
        RuntimeEventKind::InterAgentMessageSent {
            invocation_id,
            tool_call_id,
            author_thread_id,
            recipient_thread_id,
            author_path,
            recipient_path,
            content_preview,
            followup,
            started_turn_id,
        } => Some(
            ThreadItemModel::InterAgentMessage {
                event_id,
                invocation_id: invocation_id@,
                tool_call_id: tool_call_id@,
                author_thread_id: author_thread_id@,
                recipient_thread_id: recipient_thread_id@,
                author_path: author_path@,
                recipient_path: recipient_path@,
                content_preview: content_preview@,
                followup,
                started_turn_id: started_turn_id.deep_view(),
            },
        ),
        RuntimeEventKind::ThreadGoalReport { report } => Some(
            ThreadItemModel::GoalReport { event_id, report: report.deep_view() },
        ),
        _ => None,
    }
}

/// The item that shows `event` in the view of its turn.
pub fn thread_item_from_event(event: &RuntimeEvent) -> (res: Option<ThreadItem>)
    ensures
        res.deep_view() == item_of_event(*event),
{
    match &event.kind {
        RuntimeEventKind::AssistantTurn { turn } => match &turn.text {
            Some(text) => Some(
                ThreadItem::AssistantMessage {
                    event_id: Some(event.event_id.duplicate()),
                    text: Some(text.clone()),
                },
            ),
            None => None,
        },
        RuntimeEventKind::Reasoning { summary, content } => Some(
            ThreadItem::Reasoning {
                event_id: Some(event.event_id.duplicate()),
                summary: summary.duplicate(),
                content: content.duplicate(),
            },
        ),
        RuntimeEventKind::ToolResult { result } => Some(
            ThreadItem::ToolResult {
                event_id: Some(event.event_id.duplicate()),
                name: result.tool_name.clone(),
            },
        ),
        RuntimeEventKind::ExecOutput { chunk, .. } => Some(
            ThreadItem::ExecOutput {
                event_id: Some(event.event_id.duplicate()),
                text: chunk.clone(),
            },
        ),
        RuntimeEventKind::ApprovalRequested {
            approval_id,
            tool_name,
            reason,
            checkpoint_id,
            permission_profile,
            filesystem_sandbox,
            network_sandbox,
            env_isolation,
            ..
        } => Some(
            ThreadItem::ApprovalRequested {
                event_id: Some(event.event_id.duplicate()),
                approval_id: approval_id.duplicate(),
                tool_name: tool_name.clone(),
                reason: reason.clone(),
                checkpoint_id: checkpoint_id.duplicate(),
                permission_profile: *permission_profile,
                filesystem_sandbox: filesystem_sandbox.clone(),
                network_sandbox: network_sandbox.clone(),
                env_isolation: env_isolation.clone(),
            },
        ),
        RuntimeEventKind::ApprovalDecision { approval_id, status, note } => Some(
            ThreadItem::ApprovalDecision {
                event_id: Some(event.event_id.duplicate()),
                approval_id: Some(approval_id.duplicate()),
                status: approval_status_name(status).to_owned(),
                note: note.duplicate(),
            },
        ),
        RuntimeEventKind::UserInputRequested { request_id, tool_name, questions } => Some(
            ThreadItem::UserInputRequested {
                event_id: Some(event.event_id.duplicate()),
                request_id: request_id.duplicate(),
                tool_name: tool_name.clone(),
                questions: questions.duplicate(),
                status: "pending".to_owned(),
            },
        ),
        RuntimeEventKind::UserInputResolved { request_id, dismissed } => Some(
            ThreadItem::UserInputResolved {
                event_id: Some(event.event_id.duplicate()),
                request_id: request_id.duplicate(),
                dismissed: *dismissed,
            },
        ),
        RuntimeEventKind::RuntimeError { message } => Some(
            ThreadItem::RuntimeError {
                event_id: Some(event.event_id.duplicate()),
                message: message.clone(),
            },
        ),
        RuntimeEventKind::CompactionWritten { .. } => Some(ThreadItem::CompactionWritten),
        RuntimeEventKind::SubagentSpawned {
            invocation_id,
            tool_call_id,
            parent_thread_id,
            child_thread_id,
            task_name,
            message_preview,
        } => Some(
            ThreadItem::SubagentSpawn {
                event_id: Some(event.event_id.duplicate()),
                invocation_id: invocation_id.clone(),
                tool_call_id: tool_call_id.clone(),
                parent_thread_id: parent_thread_id.duplicate(),
                child_thread_id: child_thread_id.duplicate(),
                task_name: task_name.clone(),
                message_preview: message_preview.clone(),
            },
        ),
        RuntimeEventKind::SubagentClosed {
            invocation_id,
            tool_call_id,
            parent_thread_id,
            closed_thread_id,
            agent_path,
        } => Some(
            ThreadItem::SubagentClose {
                event_id: Some(event.event_id.duplicate()),
                invocation_id: invocation_id.clone(),
                tool_call_id: tool_call_id.clone(),
                parent_thread_id: parent_thread_id.duplicate(),
                closed_thread_id: closed_thread_id.duplicate(),
                agent_path: agent_path.clone(),
            },
        ),
        RuntimeEventKind::InterAgentMessageSent {
            invocation_id,
            tool_call_id,
            author_thread_id,
            recipient_thread_id,
            author_path,
            recipient_path,
            content_preview,
            followup,
            started_turn_id,
        } => Some(
            ThreadItem::InterAgentMessage {
                event_id: Some(event.event_id.duplicate()),
                invocation_id: invocation_id.clone(),
                tool_call_id: tool_call_id.clone(),
                author_thread_id: author_thread_id.duplicate(),
                recipient_thread_id: recipient_thread_id.duplicate(),
                author_path: author_path.clone(),
                recipient_path: recipient_path.clone(),
                content_preview: content_preview.clone(),
                followup: *followup,
                started_turn_id: started_turn_id.duplicate(),
            },
        ),
        RuntimeEventKind::ThreadGoalReport { report } => Some(
            ThreadItem::GoalReport {
                event_id: Some(event.event_id.duplicate()),
                report: report.duplicate(),
            },
        ),
        _ => None,
    }
}

/// Whether an item is the tool invocation with this id.
pub open spec fn is_invocation(id: Seq<char>) -> spec_fn(ThreadItemModel) -> bool {
    |item: ThreadItemModel|
        item matches ThreadItemModel::ToolInvocation { invocation_id, .. } && invocation_id == id
}

/// The index of the first tool invocation with this id; the number of items where there is none.
pub open spec fn invocation_index(items: Seq<ThreadItemModel>, id: Seq<char>) -> int {
    seqs::first_index(items, is_invocation(id))
}

/// `items` with a tool invocation of this id: the one that is there, or a new one at the end.
pub open spec fn with_invocation(
    items: Seq<ThreadItemModel>,
    id: Seq<char>,
) -> Seq<ThreadItemModel> {
    if invocation_index(items, id) < items.len() {
        items
    } else {
        items.push(
            ThreadItemModel::ToolInvocation {
                invocation_id: id,
                tool_call_id: None,
                tool_name: None,
                approval_id: None,
                request_id: None,
                status: "started"@,
                mutating: None,
                reason: None,
                message: None,
                output_preview: None,
            },
        )
    }
}

/// The tool invocation that an event of this kind is about.
pub open spec fn invocation_of(kind: RuntimeEventKind) -> Option<Seq<char>> {
    match kind {
        RuntimeEventKind::ToolInvocationStarted { invocation_id, .. } => Some(invocation_id@),
        RuntimeEventKind::ToolInvocationWaitingApproval { invocation_id, .. } => Some(
            invocation_id@,
        ),
        RuntimeEventKind::ToolInvocationWaitingUserInput { invocation_id, .. } => Some(
            invocation_id@,
        ),
        RuntimeEventKind::ToolInvocationOutputDelta { invocation_id, .. } => Some(invocation_id@),
        RuntimeEventKind::ToolInvocationCompleted { invocation_id, .. } => Some(invocation_id@),
        RuntimeEventKind::ToolInvocationFailed { invocation_id, .. } => Some(invocation_id@),
        RuntimeEventKind::ToolInvocationCancelled { invocation_id, .. } => Some(invocation_id@),
        _ => None,
    }
}

/// A tool invocation after an event of this kind.
pub open spec fn invocation_after(
    item: ThreadItemModel,
    kind: RuntimeEventKind,
) -> ThreadItemModel {
    match item {
        ThreadItemModel::ToolInvocation {
            invocation_id,
            tool_call_id,
            tool_name,
            approval_id,
            request_id,
            status,
            mutating,
            reason,
            message,
            output_preview,
        } => match kind {
            RuntimeEventKind::ToolInvocationStarted {
                tool_call_id: call,
                tool_name: name,
                mutating: writes,
                ..
            } => ThreadItemModel::ToolInvocation {
                invocation_id,
                tool_call_id: Some(call@),
                tool_name: Some(name@),
                approval_id: None,
                request_id: None,
                status: "started"@,
                mutating: Some(writes),
                reason: None,
                message: None,
                output_preview,
            },
            RuntimeEventKind::ToolInvocationWaitingApproval {
                approval_id: approval,
                reason: why,
                ..
            } => ThreadItemModel::ToolInvocation {
                invocation_id,
                tool_call_id,
                tool_name,
                approval_id: Some(approval@),
                request_id: None,
                status: "waiting_approval"@,
                mutating,
                reason: Some(why@),
                message: None,
                output_preview,
            },
            RuntimeEventKind::ToolInvocationWaitingUserInput {
                request_id: request,
                reason: why,
                ..
            } => ThreadItemModel::ToolInvocation {
                invocation_id,
                tool_call_id,
                tool_name,
                approval_id: None,
                request_id: Some(request@),
                status: "waiting_user_input"@,
                mutating,
                reason: Some(why@),
                message: None,
                output_preview,
            },
            RuntimeEventKind::ToolInvocationOutputDelta { chunk, .. } =>
                ThreadItemModel::ToolInvocation {
                invocation_id,
                tool_call_id,
                tool_name,
                approval_id,
                request_id,
                status,
                mutating,
                reason,
                message,
                output_preview: match output_preview {
                    Some(preview) => Some(preview + chunk@),
                    None => Some(chunk@),
                },
            },
            RuntimeEventKind::ToolInvocationCompleted {
                tool_call_id: call,
                tool_name: name,
                ..
            } => ThreadItemModel::ToolInvocation {
                invocation_id,
                tool_call_id: Some(call@),
                tool_name: Some(name@),
                approval_id,
                request_id: None,
                status: "completed"@,
                mutating,
                reason: None,
                message: None,
                output_preview,
            },
            RuntimeEventKind::ToolInvocationFailed {
                tool_call_id: call,
                tool_name: name,
                message: text,
                ..
            } => ThreadItemModel::ToolInvocation {
                invocation_id,
                tool_call_id: Some(call@),
                tool_name: Some(name@),
                approval_id,
                request_id: None,
                status: "failed"@,
                mutating,
                reason: None,
                message: Some(text@),
                output_preview,
            },
            RuntimeEventKind::ToolInvocationCancelled {
                tool_call_id: call,
                tool_name: name,
                reason: why,
                ..
            } => ThreadItemModel::ToolInvocation {
                invocation_id,
                tool_call_id: Some(call@),
                tool_name: Some(name@),
                approval_id,
                request_id: None,
                status: "cancelled"@,
                mutating,
                reason: Some(why@),
                message: None,
                output_preview,
            },
            _ => item,
        },
        _ => item,
    }
}

/// `items` after an event of this kind: the tool invocation that it is about, there or new,
/// follows it. An event that is about no tool invocation changes nothing.
pub open spec fn items_after_invocation(
    items: Seq<ThreadItemModel>,
    kind: RuntimeEventKind,
) -> Seq<ThreadItemModel> {
    match invocation_of(kind) {
        Some(id) => {
            let ensured = with_invocation(items, id);
            let index = invocation_index(ensured, id);
            ensured.update(index, invocation_after(ensured[index], kind))
        },
        None => items,
    }
}

/// The index of the tool invocation with this id, which is added at the end where it is not
/// there.
pub fn ensure_tool_invocation_item(items: &mut Vec<ThreadItem>, invocation_id: &String) -> (index:
    usize)
    ensures
        final(items).deep_view() == with_invocation(old(items).deep_view(), invocation_id@),
        index == invocation_index(final(items).deep_view(), invocation_id@),
        index < final(items)@.len(),
        final(items)@[index as int] is ToolInvocation,
{
    let mut i: usize = 0;
    while i < items.len()
        invariant
            *items == *old(items),
            i <= items@.len(),
            forall|j: int|
                0 <= j < i ==> !is_invocation(invocation_id@)(#[trigger] items.deep_view()[j]),
        decreases items@.len() - i,
    {
        assert(items.deep_view()[i as int] == items@[i as int].deep_view());
        if let ThreadItem::ToolInvocation { invocation_id: id, .. } = &items[i] {
            if *id == *invocation_id {
                proof {
                    seqs::first_index_is(
                        items.deep_view(),
                        is_invocation(invocation_id@),
                        i as int,
                    );
                }
                return i;
            }
        }
        i = i + 1;
    }
    proof {
        seqs::first_index_is(items.deep_view(), is_invocation(invocation_id@), i as int);
    }
    append(
        items,
        ThreadItem::ToolInvocation {
            invocation_id: invocation_id.clone(),
            tool_call_id: None,
            tool_name: None,
            approval_id: None,
            request_id: None,
            status: "started".to_owned(),
            mutating: None,
            reason: None,
            message: None,
            output_preview: None,
        },
    );
    proof {
        assert forall|j: int| 0 <= j < i implies !is_invocation(invocation_id@)(
            #[trigger] items.deep_view()[j],
        ) by {
            assert(items.deep_view()[j] == old(items).deep_view()[j]);
        }
        seqs::first_index_is(items.deep_view(), is_invocation(invocation_id@), i as int);
    }
    i
}

/// Lets the tool invocation that an event of this kind is about follow it.
pub fn apply_tool_invocation_event(items: &mut Vec<ThreadItem>, kind: &RuntimeEventKind)
    ensures
        final(items).deep_view() == items_after_invocation(old(items).deep_view(), *kind),
{
    match kind {
        RuntimeEventKind::ToolInvocationStarted {
            invocation_id,
            tool_call_id,
            tool_name,
            mutating,
        } => {
            let index: usize = ensure_tool_invocation_item(items, invocation_id);
            let ghost before = *items;
            if let ThreadItem::ToolInvocation {
                tool_call_id: item_tool_call_id,
                tool_name: item_tool_name,
                approval_id,
                request_id,
                status,
                mutating: item_mutating,
                reason,
                message,
                ..
            } = &mut items[index] {
                *item_tool_call_id = Some(tool_call_id.clone());
                *item_tool_name = Some(tool_name.clone());
                *approval_id = None;
                *request_id = None;
                *status = "started".to_owned();
                *item_mutating = Some(*mutating);
                *reason = None;
                *message = None;
            }
            proof {
                seqs::deep_view_update(before, *items, index as int);
            }
        },
        RuntimeEventKind::ToolInvocationWaitingApproval { invocation_id, approval_id, reason } => {
            let index: usize = ensure_tool_invocation_item(items, invocation_id);
            let ghost before = *items;
            if let ThreadItem::ToolInvocation {
                approval_id: item_approval_id,
                request_id,
                status,
                reason: item_reason,
                message,
                ..
            } = &mut items[index] {
                *item_approval_id = Some(approval_id.duplicate());
                *request_id = None;
                *status = "waiting_approval".to_owned();
                *item_reason = Some(reason.clone());
                *message = None;
            }
            proof {
                seqs::deep_view_update(before, *items, index as int);
            }
        },
        RuntimeEventKind::ToolInvocationWaitingUserInput {
            invocation_id,
            request_id: event_request_id,
            reason,
        } => {
            let index: usize = ensure_tool_invocation_item(items, invocation_id);
            let ghost before = *items;
            if let ThreadItem::ToolInvocation {
                approval_id,
                request_id,
                status,
                reason: item_reason,
                message,
                ..
            } = &mut items[index] {
                *approval_id = None;
                *request_id = Some(event_request_id.duplicate());
                *status = "waiting_user_input".to_owned();
                *item_reason = Some(reason.clone());
                *message = None;
            }
            proof {
                seqs::deep_view_update(before, *items, index as int);
            }
        },
        RuntimeEventKind::ToolInvocationOutputDelta { invocation_id, chunk, .. } => {
            let index: usize = ensure_tool_invocation_item(items, invocation_id);
            let ghost before = *items;
            if let ThreadItem::ToolInvocation { output_preview, .. } = &mut items[index] {
                let extended = match output_preview {
                    Some(preview) => text::concat2(preview.as_str(), chunk.as_str()),
                    None => chunk.clone(),
                };
                *output_preview = Some(extended);
            }
            proof {
                seqs::deep_view_update(before, *items, index as int);
            }
        },
        RuntimeEventKind::ToolInvocationCompleted {
            invocation_id,
            tool_call_id,
            tool_name,
            ..
        } => {
            let index: usize = ensure_tool_invocation_item(items, invocation_id);
            let ghost before = *items;
            if let ThreadItem::ToolInvocation {
                tool_call_id: item_tool_call_id,
                tool_name: item_tool_name,
                status,
                reason,
                message,
                request_id,
                ..
            } = &mut items[index] {
                *item_tool_call_id = Some(tool_call_id.clone());
                *item_tool_name = Some(tool_name.clone());
                *status = "completed".to_owned();
                *reason = None;
                *message = None;
                *request_id = None;
            }
            proof {
                seqs::deep_view_update(before, *items, index as int);
            }
        },
        RuntimeEventKind::ToolInvocationFailed {
            invocation_id,
            tool_call_id,
            tool_name,
            message,
        } => {
            let index: usize = ensure_tool_invocation_item(items, invocation_id);
            let ghost before = *items;
            if let ThreadItem::ToolInvocation {
                tool_call_id: item_tool_call_id,
                tool_name: item_tool_name,
                status,
                reason,
                message: item_message,
                request_id,
                ..
            } = &mut items[index] {
                *item_tool_call_id = Some(tool_call_id.clone());
                *item_tool_name = Some(tool_name.clone());
                *status = "failed".to_owned();
                *reason = None;
                *item_message = Some(message.clone());
                *request_id = None;
            }
            proof {
                seqs::deep_view_update(before, *items, index as int);
            }
        },
        RuntimeEventKind::ToolInvocationCancelled {
            invocation_id,
            tool_call_id,
            tool_name,
            reason,
        } => {
            let index: usize = ensure_tool_invocation_item(items, invocation_id);
            let ghost before = *items;
            if let ThreadItem::ToolInvocation {
                tool_call_id: item_tool_call_id,
                tool_name: item_tool_name,
                status,
                reason: item_reason,
                message,
                request_id,
                ..
            } = &mut items[index] {
                *item_tool_call_id = Some(tool_call_id.clone());
                *item_tool_name = Some(tool_name.clone());
                *status = "cancelled".to_owned();
                *item_reason = Some(reason.clone());
                *message = None;
                *request_id = None;
            }
            proof {
                seqs::deep_view_update(before, *items, index as int);
            }
        },
        _ => {},
    }
}

/// An item after a decision on an approval: a tool invocation that waited for it takes its name
/// as status.
pub open spec fn item_after_decision(
    item: ThreadItemModel,
    decided: Seq<char>,
    decision: ApprovalStatus,
) -> ThreadItemModel {
    match item {
        ThreadItemModel::ToolInvocation {
            invocation_id,
            tool_call_id,
            tool_name,
            approval_id,
            request_id,
            mutating,
            output_preview,
            ..
        } if approval_id == Some(decided) => ThreadItemModel::ToolInvocation {
            invocation_id,
            tool_call_id,
            tool_name,
            approval_id,
            request_id,
            status: approval_status_text(decision),
            mutating,
            reason: None,
            message: None,
            output_preview,
        },
        _ => item,
    }
}

/// Tells the tool invocations that waited for this approval what was decided.
pub fn apply_approval_decision_to_tool_invocation(
    items: &mut Vec<ThreadItem>,
    approval_id: &ApprovalId,
    decision_status: &ApprovalStatus,
)
    ensures
        final(items).deep_view() == old(items).deep_view().map_values(
            |item: ThreadItemModel| item_after_decision(item, approval_id@, *decision_status),
        ),
{
    let mut i: usize = 0;
    while i < items.len()
        invariant
            items@.len() == old(items)@.len(),
            i <= items@.len(),
            forall|j: int|
                0 <= j < i ==> (#[trigger] items@[j]).deep_view() == item_after_decision(
                    old(items)@[j].deep_view(),
                    approval_id@,
                    *decision_status,
                ),
            forall|j: int| i <= j < items@.len() ==> #[trigger] items@[j] == old(items)@[j],
        decreases items@.len() - i,
    {
        if let ThreadItem::ToolInvocation {
            approval_id: item_approval_id,
            status,
            reason,
            message,
            ..
        } = &mut items[i] {
            let waited = match item_approval_id {
                Some(id) => id.alike(approval_id),
                None => false,
            };
            if waited {
                *status = approval_status_name(decision_status).to_owned();
                *reason = None;
                *message = None;
            }
        }
        i = i + 1;
    }
    proof {
        assert(items.deep_view() =~= old(items).deep_view().map_values(
            |item: ThreadItemModel| item_after_decision(item, approval_id@, *decision_status),
        ));
    }
}

/// An item after the user has dealt with a request: a tool invocation that waited for it is
/// completed.
pub open spec fn item_after_user_input(
    item: ThreadItemModel,
    resolved: Seq<char>,
) -> ThreadItemModel {
    match item {
        ThreadItemModel::ToolInvocation {
            invocation_id,
            tool_call_id,
            tool_name,
            approval_id,
            request_id,
            mutating,
            output_preview,
            ..
        } if request_id == Some(resolved) => ThreadItemModel::ToolInvocation {
            invocation_id,
            tool_call_id,
            tool_name,
            approval_id,
            request_id,
            status: "completed"@,
            mutating,
            reason: None,
            message: None,
            output_preview,
        },
        _ => item,
    }
}

/// Completes the tool invocations that waited for this request.
pub fn apply_user_input_resolved_to_tool_invocation(
    items: &mut Vec<ThreadItem>,
    request_id: &ApprovalId,
)
    ensures
        final(items).deep_view() == old(items).deep_view().map_values(
            |item: ThreadItemModel| item_after_user_input(item, request_id@),
        ),
{
    let mut i: usize = 0;
    while i < items.len()
        invariant
            items@.len() == old(items)@.len(),
            i <= items@.len(),
            forall|j: int|
                0 <= j < i ==> (#[trigger] items@[j]).deep_view() == item_after_user_input(
                    old(items)@[j].deep_view(),
                    request_id@,
                ),
            forall|j: int| i <= j < items@.len() ==> #[trigger] items@[j] == old(items)@[j],
        decreases items@.len() - i,
    {
        if let ThreadItem::ToolInvocation {
            request_id: item_request_id,
            status,
            reason,
            message,
            ..
        } = &mut items[i] {
            let waited = match item_request_id {
                Some(id) => id.alike(request_id),
                None => false,
            };
            if waited {
                *status = "completed".to_owned();
                *reason = None;
                *message = None;
            }
        }
        i = i + 1;
    }
    proof {
        assert(items.deep_view() =~= old(items).deep_view().map_values(
            |item: ThreadItemModel| item_after_user_input(item, request_id@),
        ));
    }
}

/// The turn that goal reports outside any turn are shown in.
pub const SYSTEM_GOAL_REPORT_TURN_ID: &'static str = "system_goal_reports";

/// The turns seen so far, and the one that is running.
#[verifier::ext_equal]
pub struct Progress {
    pub turns: Seq<TurnViewModel>,
    pub current: Option<Seq<char>>,
}

/// The turn that an event is shown in: the running one, or else the one that the event names.
pub open spec fn view_turn_of(event: RuntimeEvent, current: Option<Seq<char>>) -> Option<
    Seq<char>,
> {
    match current {
        Some(id) => Some(id),
        None => event.turn_id.deep_view(),
    }
}

/// The turn that a goal report is shown in.
pub open spec fn goal_report_turn_of(event: RuntimeEvent, current: Option<Seq<char>>) -> Seq<
    char,
> {
    match view_turn_of(event, current) {
        Some(id) => id,
        None => SYSTEM_GOAL_REPORT_TURN_ID@,
    }
}

/// `turns` with `item`, if there is one, at the end of the turn of this id, there or new.
pub open spec fn with_item(
    turns: Seq<TurnViewModel>,
    id: Seq<char>,
    item: Option<ThreadItemModel>,
) -> Seq<TurnViewModel> {
    match item {
        Some(item) => with_items(turns, id, items_at(turns, id).push(item)),
        None => with_turn(turns, id),
    }
}

/// The turns after one more event.
pub open spec fn progress_after(progress: Progress, event: RuntimeEvent) -> Progress {
    let turns = progress.turns;
    let current = progress.current;
    let item = item_of_event(event);
    match event.kind {
        RuntimeEventKind::TurnStarted => match event.turn_id {
            Some(id) => Progress {
                turns: with_status(turns, id@, TurnStatus::InProgress),
                current: Some(id@),
            },
            None => progress,
        },
        RuntimeEventKind::TurnCompleted | RuntimeEventKind::TurnInterrupted => {
            let status = if event.kind is TurnCompleted {
                TurnStatus::Completed
            } else {
                TurnStatus::Interrupted
            };
            match event.turn_id {
                Some(id) => Progress {
                    turns: with_status(turns, id@, status),
                    current: if current == Some(id@) {
                        None
                    } else {
                        current
                    },
                },
                None => progress,
            }
        },
        RuntimeEventKind::RuntimeError { .. } => match view_turn_of(event, current) {
            Some(id) => Progress {
                turns: with_item(with_status(turns, id, TurnStatus::Failed), id, item),
                current,
            },
            None => progress,
        },
        RuntimeEventKind::ApprovalDecision { approval_id, status, .. } => match view_turn_of(
            event,
            current,
        ) {
            Some(id) => Progress {
                turns: with_item(
                    with_items(
                        turns,
                        id,
                        items_at(turns, id).map_values(
                            |item: ThreadItemModel|
                                item_after_decision(item, approval_id@, status),
                        ),
                    ),
                    id,
                    item,
                ),
                current,
            },
            None => progress,
        },
        RuntimeEventKind::UserInputResolved { request_id, .. } => match view_turn_of(
            event,
            current,
        ) {
            Some(id) => Progress {
                turns: with_item(
                    with_items(
                        turns,
                        id,
                        items_at(turns, id).map_values(
                            |item: ThreadItemModel| item_after_user_input(item, request_id@),
                        ),
                    ),
                    id,
                    item,
                ),
                current,
            },
            None => progress,
        },
        RuntimeEventKind::ToolInvocationStarted { .. }
        | RuntimeEventKind::ToolInvocationWaitingApproval { .. }
        | RuntimeEventKind::ToolInvocationWaitingUserInput { .. }
        | RuntimeEventKind::ToolInvocationOutputDelta { .. }
        | RuntimeEventKind::ToolInvocationCompleted { .. }
        | RuntimeEventKind::ToolInvocationFailed { .. }
        | RuntimeEventKind::ToolInvocationCancelled { .. } => match view_turn_of(event, current) {
            Some(id) => Progress {
                turns: with_items(
                    turns,
                    id,
                    items_after_invocation(items_at(turns, id), event.kind),
                ),
                current,
            },
            None => progress,
        },
        RuntimeEventKind::ThreadGoalUpdated { .. }
        | RuntimeEventKind::ThreadGoalCleared { .. }
        | RuntimeEventKind::ThreadGoalContinuationStarted { .. }
        | RuntimeEventKind::ThreadGoalContinuationSuppressed { .. }
        | RuntimeEventKind::ThreadGoalTurnStarted { .. }
        | RuntimeEventKind::ThreadGoalToolCompleted { .. } => progress,
        RuntimeEventKind::ThreadGoalReport { .. } => {
            let id = goal_report_turn_of(event, current);
            let placed = if event.turn_id is None && current is None {
                with_status(turns, id, TurnStatus::Completed)
            } else {
                turns
            };
            Progress { turns: with_item(placed, id, item), current }
        },
        _ => match view_turn_of(event, current) {
            Some(id) => Progress { turns: with_item(turns, id, item), current },
            None => progress,
        },
    }
}

/// The turns that a row of events leads to.
pub open spec fn progress_of(events: Seq<RuntimeEvent>) -> Progress
    decreases events.len(),
{
    if events.len() == 0 {
        Progress { turns: Seq::empty(), current: None }
    } else {
        progress_after(progress_of(events.drop_last()), events.last())
    }
}

/// The turn that an event is shown in.
pub fn view_turn_id(event: &RuntimeEvent, current_turn_id: &Option<TurnId>) -> (res: Option<TurnId>)
    ensures
        res.deep_view() == view_turn_of(*event, current_turn_id.deep_view()),
{
    match current_turn_id {
        Some(id) => Some(id.duplicate()),
        None => event.turn_id.duplicate(),
    }
}

/// The turn that a goal report is shown in.
pub fn goal_report_turn_id(event: &RuntimeEvent, current_turn_id: &Option<TurnId>) -> (res: TurnId)
    ensures
        res@ == goal_report_turn_of(*event, current_turn_id.deep_view()),
{
    match view_turn_id(event, current_turn_id) {
        Some(id) => id,
        None => TurnId::new(SYSTEM_GOAL_REPORT_TURN_ID),
    }
}

fn push_item(turns: &mut Vec<TurnView>, turn_id: &TurnId, item: Option<ThreadItem>)
    ensures
        final(turns).deep_view() == with_item(
            old(turns).deep_view(),
            turn_id@,
            item.deep_view(),
        ),
{
    let index: usize = ensure_turn_view(turns, turn_id);
    if let Some(item) = item {
        let ghost before = *turns;
        append(&mut turns[index].items, item);
        proof {
            seqs::deep_view_update(before, *turns, index as int);
        }
    }
}

/// The turns of a thread, made from its recorded events.
pub fn build_turn_views(events: Vec<RuntimeEvent>) -> (res: Vec<TurnView>)
    ensures
        res.deep_view() == progress_of(events@).turns,
{
    let mut turns: Vec<TurnView> = Vec::new();
    let mut current_turn_id: Option<TurnId> = None;
    assert(turns.deep_view() =~= Seq::empty());
    let mut i: usize = 0;
    while i < events.len()
        invariant
            i <= events@.len(),
            turns.deep_view() == progress_of(events@.take(i as int)).turns,
            current_turn_id.deep_view() == progress_of(events@.take(i as int)).current,
        decreases events@.len() - i,
    {
        let event = &events[i];
        proof {
            let seen = events@.take(i + 1);
            assert(seen.drop_last() =~= events@.take(i as int));
            assert(seen.last() == *event);
        }
        current_turn_id = show_event(&mut turns, current_turn_id, event);
        i = i + 1;
    }
    assert(events@.take(i as int) =~= events@);
    turns
}

/// Shows one event in the turns; the result is the turn that is running afterwards.
fn show_event(
    turns: &mut Vec<TurnView>,
    current_turn_id: Option<TurnId>,
    event: &RuntimeEvent,
) -> (res: Option<TurnId>)
    ensures
        (Progress { turns: final(turns).deep_view(), current: res.deep_view() })
            == progress_after(
            Progress { turns: old(turns).deep_view(), current: current_turn_id.deep_view() },
            *event,
        ),
{
    match &event.kind {
        RuntimeEventKind::TurnStarted => {
            if let Some(turn_id) = &event.turn_id {
                set_status(turns, turn_id, TurnStatus::InProgress);
                return Some(turn_id.duplicate());
            }
        },
        RuntimeEventKind::TurnCompleted => {
            if let Some(turn_id) = &event.turn_id {
                set_status(turns, turn_id, TurnStatus::Completed);
                return not_running(current_turn_id, turn_id);
            }
        },
        RuntimeEventKind::TurnInterrupted => {
            if let Some(turn_id) = &event.turn_id {
                set_status(turns, turn_id, TurnStatus::Interrupted);
                return not_running(current_turn_id, turn_id);
            }
        },
        RuntimeEventKind::RuntimeError { .. } => {
            if let Some(turn_id) = view_turn_id(event, &current_turn_id) {
                set_status(turns, &turn_id, TurnStatus::Failed);
                push_item(turns, &turn_id, thread_item_from_event(event));
            }
        },
        RuntimeEventKind::ApprovalDecision { approval_id, status, .. } => {
            if let Some(turn_id) = view_turn_id(event, &current_turn_id) {
                let index: usize = ensure_turn_view(turns, &turn_id);
                let ghost before = *turns;
                apply_approval_decision_to_tool_invocation(
                    &mut turns[index].items,
                    approval_id,
                    status,
                );
                proof {
                    seqs::deep_view_update(before, *turns, index as int);
                }
                push_item(turns, &turn_id, thread_item_from_event(event));
            }
        },
        RuntimeEventKind::UserInputResolved { request_id, .. } => {
            if let Some(turn_id) = view_turn_id(event, &current_turn_id) {
                let index: usize = ensure_turn_view(turns, &turn_id);
                let ghost before = *turns;
                apply_user_input_resolved_to_tool_invocation(&mut turns[index].items, request_id);
                proof {
                    seqs::deep_view_update(before, *turns, index as int);
                }
                push_item(turns, &turn_id, thread_item_from_event(event));
            }
        },
        RuntimeEventKind::ToolInvocationStarted { .. }
        | RuntimeEventKind::ToolInvocationWaitingApproval { .. }
        | RuntimeEventKind::ToolInvocationWaitingUserInput { .. }
        | RuntimeEventKind::ToolInvocationOutputDelta { .. }
        | RuntimeEventKind::ToolInvocationCompleted { .. }
        | RuntimeEventKind::ToolInvocationFailed { .. }
        | RuntimeEventKind::ToolInvocationCancelled { .. } => {
            if let Some(turn_id) = view_turn_id(event, &current_turn_id) {
                let index: usize = ensure_turn_view(turns, &turn_id);
                let ghost before = *turns;
                apply_tool_invocation_event(&mut turns[index].items, &event.kind);
                proof {
                    seqs::deep_view_update(before, *turns, index as int);
                }
            }
        },
        RuntimeEventKind::ThreadGoalUpdated { .. }
        | RuntimeEventKind::ThreadGoalCleared { .. }
        | RuntimeEventKind::ThreadGoalContinuationStarted { .. }
        | RuntimeEventKind::ThreadGoalContinuationSuppressed { .. }
        | RuntimeEventKind::ThreadGoalTurnStarted { .. }
        | RuntimeEventKind::ThreadGoalToolCompleted { .. } => {},
        RuntimeEventKind::ThreadGoalReport { .. } => {
            let turn_id = goal_report_turn_id(event, &current_turn_id);
            if event.turn_id.is_none() && current_turn_id.is_none() {
                set_status(turns, &turn_id, TurnStatus::Completed);
            }
            push_item(turns, &turn_id, thread_item_from_event(event));
        },
        _ => {
            if let Some(turn_id) = view_turn_id(event, &current_turn_id) {
                push_item(turns, &turn_id, thread_item_from_event(event));
            }
        },
    }
    current_turn_id
}

fn not_running(current_turn_id: Option<TurnId>, ended: &TurnId) -> (res: Option<TurnId>)
    ensures
        res.deep_view() == (if current_turn_id.deep_view() == Some(ended@) {
            None
        } else {
            current_turn_id.deep_view()
        }),
{
    match current_turn_id {
        Some(turn_id) => if turn_id.alike(ended) {
            None
        } else {
            Some(turn_id)
        },
        None => None,
    }
}

} // verus!
