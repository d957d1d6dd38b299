//! What a turn shows of its events.
use vstd::prelude::*;

use crate::event_laws;
use crate::events::{RuntimeEvent, RuntimeEventKind};
use crate::projection;
use crate::protocol::ThreadItemModel;
use crate::seqs;
use crate::types::ApprovalStatus;

verus! {

/// The item of a tool invocation, where it is shown.
pub open spec fn shown_invocation(items: Seq<ThreadItemModel>, id: Seq<char>) -> Option<
    ThreadItemModel,
> {
    let i = projection::invocation_index(items, id);
    if i < items.len() {
        Some(items[i])
    } else {
        None
    }
}

/// What is shown of the output of a tool invocation; nothing where none is.
pub open spec fn shown_output(items: Seq<ThreadItemModel>, id: Seq<char>) -> Seq<char> {
    match shown_invocation(items, id) {
        Some(ThreadItemModel::ToolInvocation { output_preview: Some(output), .. }) => output,
        _ => Seq::empty(),
    }
}

/// What an event adds to the output of a tool invocation.
pub open spec fn chunk_for(kind: RuntimeEventKind, id: Seq<char>) -> Seq<char> {
    match kind {
        RuntimeEventKind::ToolInvocationOutputDelta { invocation_id, chunk, .. } => if invocation_id@
            == id {
            chunk@
        } else {
            Seq::empty()
        },
        _ => Seq::empty(),
    }
}

/// The chunks of output of a tool invocation, one behind the other, in the order of the events.
pub open spec fn chunks_for(kinds: Seq<RuntimeEventKind>, id: Seq<char>) -> Seq<char>
    decreases kinds.len(),
{
    if kinds.len() == 0 {
        Seq::empty()
    } else {
        chunks_for(kinds.drop_last(), id) + chunk_for(kinds.last(), id)
    }
}

/// The items after a row of events.
pub open spec fn items_after_all(
    items: Seq<ThreadItemModel>,
    kinds: Seq<RuntimeEventKind>,
) -> Seq<ThreadItemModel>
    decreases kinds.len(),
{
    if kinds.len() == 0 {
        items
    } else {
        projection::items_after_invocation(items_after_all(items, kinds.drop_last()), kinds.last())
    }
}

/// Where the item of an invocation stands with one, there or new.
proof fn invocation_is_placed(items: Seq<ThreadItemModel>, id: Seq<char>)
    ensures
        ({
            let ensured = projection::with_invocation(items, id);
            let i = projection::invocation_index(ensured, id);
            &&& 0 <= i < ensured.len()
            &&& projection::is_invocation(id)(ensured[i])
            &&& forall|j: int| 0 <= j < i ==> !projection::is_invocation(id)(#[trigger] ensured[j])
            &&& items.is_prefix_of(ensured)
            &&& projection::invocation_index(items, id) < items.len() ==> ensured == items
            &&& projection::invocation_index(items, id) >= items.len() ==> ensured.len()
                == items.len() + 1 && i == items.len()
        }),
{
    let test = projection::is_invocation(id);
    let ensured = projection::with_invocation(items, id);
    seqs::first_index_found(items, test);
    seqs::first_index_found(ensured, test);
    if projection::invocation_index(items, id) >= items.len() {
        let n = items.len() as int;
        assert(test(ensured[n]));
        assert forall|j: int| 0 <= j < n implies !test(#[trigger] ensured[j]) by {
            assert(ensured[j] == items[j]);
        }
        seqs::first_index_is(ensured, test, n);
    }
    assert(items.is_prefix_of(ensured));
}

/// What an event does to the items of invocations: the one that it is about follows it, and the
/// others stay as they are.
proof fn invocations_after_one(items: Seq<ThreadItemModel>, kind: RuntimeEventKind, id: Seq<char>)
    ensures
        ({
            let after = projection::items_after_invocation(items, kind);
            if projection::invocation_of(kind) == Some(id) {
                let ensured = projection::with_invocation(items, id);
                &&& shown_invocation(after, id) == Some(
                    projection::invocation_after(
                        ensured[projection::invocation_index(ensured, id)],
                        kind,
                    ),
                )
            } else {
                shown_invocation(after, id) == shown_invocation(items, id)
            }
        }),
{
    let after = projection::items_after_invocation(items, kind);
    let test = projection::is_invocation(id);
    if let Some(about) = projection::invocation_of(kind) {
        invocation_is_placed(items, about);
        let ensured = projection::with_invocation(items, about);
        let at = projection::invocation_index(ensured, about);
        assert(projection::is_invocation(about)(after[at]));
        if about == id {
            assert forall|j: int| 0 <= j < at implies !test(#[trigger] after[j]) by {
                assert(after[j] == ensured[j]);
            }
            seqs::first_index_is(after, test, at);
        } else {
            seqs::first_index_found(items, test);
            let i = projection::invocation_index(items, id);
            assert(!test(after[at]));
            assert(!test(ensured[at]));
            assert forall|j: int| 0 <= j < after.len() && j != at implies #[trigger] after[j]
                == ensured[j] by {}
            assert forall|j: int| 0 <= j < items.len() implies #[trigger] ensured[j] == items[j] by {
                assert(items.is_prefix_of(ensured));
            }
            if i < items.len() {
                assert forall|j: int| 0 <= j < i implies !test(#[trigger] after[j]) by {
                    if j != at {
                        assert(after[j] == items[j]);
                    }
                }
                seqs::first_index_is(after, test, i);
            } else {
                assert forall|j: int| 0 <= j < after.len() implies !test(#[trigger] after[j]) by {
                    if j != at {
                        assert(after[j] == ensured[j]);
                        assert(j < items.len());
                        assert(!test(items[j]));
                    }
                }
                seqs::first_index_is(after, test, after.len() as int);
            }
        }
    }
}

/// An event never takes anything from the output that is shown of an invocation: what was shown
/// stands before what a chunk of the invocation adds, and nothing else adds to it.
pub proof fn output_only_grows(items: Seq<ThreadItemModel>, kind: RuntimeEventKind, id: Seq<char>)
    ensures
        shown_output(projection::items_after_invocation(items, kind), id) == shown_output(items, id)
            + chunk_for(kind, id),
{
    invocations_after_one(items, kind, id);
    let after = projection::items_after_invocation(items, kind);
    let before = shown_output(items, id);
    assert(before + Seq::<char>::empty() =~= before);
    if projection::invocation_of(kind) == Some(id) {
        invocation_is_placed(items, id);
        let ensured = projection::with_invocation(items, id);
        let at = projection::invocation_index(ensured, id);
        assert(ensured[at] is ToolInvocation);
        if projection::invocation_index(items, id) < items.len() {
            assert(shown_invocation(items, id) == Some(ensured[at]));
        } else {
            assert(shown_invocation(items, id) is None);
            assert(ensured[at]->output_preview is None);
        }
        assert(shown_output(after, id) =~= before + chunk_for(kind, id));
    }
}

/// The output that is shown of an invocation is its chunks, in the order of the events, behind
/// what was shown before.
pub proof fn output_is_shown_in_order(
    items: Seq<ThreadItemModel>,
    kinds: Seq<RuntimeEventKind>,
    id: Seq<char>,
)
    ensures
        shown_output(items_after_all(items, kinds), id) == shown_output(items, id) + chunks_for(
            kinds,
            id,
        ),
    decreases kinds.len(),
{
    if kinds.len() > 0 {
        let rest = kinds.drop_last();
        output_is_shown_in_order(items, rest, id);
        output_only_grows(items_after_all(items, rest), kinds.last(), id);
        assert(shown_output(items, id) + chunks_for(kinds, id) =~= (shown_output(items, id)
            + chunks_for(rest, id)) + chunk_for(kinds.last(), id));
    } else {
        assert(shown_output(items, id) + chunks_for(kinds, id) =~= shown_output(items, id));
    }
}

/// The status of an invocation is what its last event was, but for output, which changes no
/// status: the name of the kind of that event says so.
pub proof fn status_is_that_of_the_last_event(
    items: Seq<ThreadItemModel>,
    kind: RuntimeEventKind,
    id: Seq<char>,
)
    requires
        projection::invocation_of(kind) == Some(id),
        !(kind is ToolInvocationOutputDelta),
    ensures
        shown_invocation(projection::items_after_invocation(items, kind), id) matches Some(
            ThreadItemModel::ToolInvocation { status, .. },
        ) && "tool_invocation_"@ + status == event_laws::kind_name(kind),
{
    invocations_after_one(items, kind, id);
    invocation_is_placed(items, id);
    reveal_strlit("tool_invocation_");
    reveal_strlit("started");
    reveal_strlit("waiting_approval");
    reveal_strlit("waiting_user_input");
    reveal_strlit("completed");
    reveal_strlit("failed");
    reveal_strlit("cancelled");
    reveal_strlit("tool_invocation_started");
    reveal_strlit("tool_invocation_waiting_approval");
    reveal_strlit("tool_invocation_waiting_user_input");
    reveal_strlit("tool_invocation_completed");
    reveal_strlit("tool_invocation_failed");
    reveal_strlit("tool_invocation_cancelled");
    assert("tool_invocation_"@ + "started"@ =~= "tool_invocation_started"@);
    assert("tool_invocation_"@ + "waiting_approval"@ =~= "tool_invocation_waiting_approval"@);
    assert("tool_invocation_"@ + "waiting_user_input"@ =~= "tool_invocation_waiting_user_input"@);
    assert("tool_invocation_"@ + "completed"@ =~= "tool_invocation_completed"@);
    assert("tool_invocation_"@ + "failed"@ =~= "tool_invocation_failed"@);
    assert("tool_invocation_"@ + "cancelled"@ =~= "tool_invocation_cancelled"@);
}

/// Output changes nothing of an invocation but what is shown of its output. A new invocation
/// counts as started.
pub proof fn output_changes_nothing_else(
    items: Seq<ThreadItemModel>,
    kind: RuntimeEventKind,
    id: Seq<char>,
)
    requires
        kind is ToolInvocationOutputDelta,
        projection::invocation_of(kind) == Some(id),
    ensures
        shown_invocation(projection::items_after_invocation(items, kind), id) matches Some(after)
            && match shown_invocation(items, id) {
            Some(before) => {
                &&& after->ToolInvocation_status == before->ToolInvocation_status
                &&& after->ToolInvocation_tool_call_id == before->ToolInvocation_tool_call_id
                &&& after->ToolInvocation_tool_name == before->ToolInvocation_tool_name
                &&& after->ToolInvocation_approval_id == before->ToolInvocation_approval_id
                &&& after->ToolInvocation_request_id == before->ToolInvocation_request_id
                &&& after->mutating == before->mutating
                &&& after->ToolInvocation_reason == before->ToolInvocation_reason
                &&& after->ToolInvocation_message == before->ToolInvocation_message
            },
            None => after->ToolInvocation_status == "started"@,
        },
{
    invocations_after_one(items, kind, id);
    invocation_is_placed(items, id);
}

/// What is shown of an invocation comes from the event that told it: a start, an end or a failure
/// names the tool and the call; a reason is given while the invocation waits or once it was
/// cancelled, and never otherwise; a message is that of a failure, and is gone with the next event.
/// What it waits for is shown while it waits.
pub proof fn invocations_say_what_their_event_said(
    items: Seq<ThreadItemModel>,
    kind: RuntimeEventKind,
    id: Seq<char>,
)
    requires
        projection::invocation_of(kind) == Some(id),
        !(kind is ToolInvocationOutputDelta),
    ensures
        shown_invocation(projection::items_after_invocation(items, kind), id) matches Some(
            ThreadItemModel::ToolInvocation {
                invocation_id: shown_id,
                tool_call_id: call,
                tool_name: name,
                approval_id: approval,
                request_id: request,
                mutating: writes,
                reason: why,
                message: said,
                ..
            },
        ) && {
            &&& shown_id == id
            &&& kind matches RuntimeEventKind::ToolInvocationStarted {
                tool_call_id,
                tool_name,
                mutating,
                ..
            } ==> call == Some(tool_call_id@) && name == Some(tool_name@) && writes == Some(
                mutating,
            ) && approval is None
            &&& kind matches RuntimeEventKind::ToolInvocationCompleted {
                tool_call_id,
                tool_name,
                ..
            } ==> call == Some(tool_call_id@) && name == Some(tool_name@)
            &&& kind matches RuntimeEventKind::ToolInvocationFailed {
                tool_call_id,
                tool_name,
                message,
                ..
            } ==> call == Some(tool_call_id@) && name == Some(tool_name@) && said == Some(message@)
            &&& kind matches RuntimeEventKind::ToolInvocationCancelled {
                tool_call_id,
                tool_name,
                reason,
                ..
            } ==> call == Some(tool_call_id@) && name == Some(tool_name@) && why == Some(reason@)
            &&& kind matches RuntimeEventKind::ToolInvocationWaitingApproval {
                approval_id,
                reason,
                ..
            } ==> approval == Some(approval_id@) && why == Some(reason@)
            &&& kind matches RuntimeEventKind::ToolInvocationWaitingUserInput {
                request_id,
                reason,
                ..
            } ==> request == Some(request_id@) && why == Some(reason@) && approval is None
            &&& said is Some <==> kind is ToolInvocationFailed
            &&& why is Some <==> (kind is ToolInvocationWaitingApproval
                || kind is ToolInvocationWaitingUserInput || kind is ToolInvocationCancelled)
            &&& request is Some <==> kind is ToolInvocationWaitingUserInput
        },
{
    invocations_after_one(items, kind, id);
    invocation_is_placed(items, id);
}

/// An event that ends an invocation or lets it wait keeps what the start told of it: whether it
/// writes, and, while it waits, the tool and the call.
pub proof fn invocations_keep_what_their_start_said(
    items: Seq<ThreadItemModel>,
    kind: RuntimeEventKind,
    id: Seq<char>,
)
    requires
        projection::invocation_of(kind) == Some(id),
        !(kind is ToolInvocationStarted),
        shown_invocation(items, id) is Some,
    ensures
        ({
            let before = shown_invocation(items, id)->0;
            let after = shown_invocation(projection::items_after_invocation(items, kind), id)->0;
            &&& after->mutating == before->mutating
            &&& kind is ToolInvocationWaitingApproval || kind is ToolInvocationWaitingUserInput ==> {
                &&& after->ToolInvocation_tool_call_id == before->ToolInvocation_tool_call_id
                &&& after->ToolInvocation_tool_name == before->ToolInvocation_tool_name
            }
            &&& kind is ToolInvocationCompleted || kind is ToolInvocationFailed
                || kind is ToolInvocationCancelled ==> after->ToolInvocation_approval_id
                == before->ToolInvocation_approval_id
        }),
{
    invocations_after_one(items, kind, id);
    invocation_is_placed(items, id);
}

/// Events of an invocation leave every other item as it is, and in its place; an invocation that
/// was not shown is added at the end.
pub proof fn other_items_stay(items: Seq<ThreadItemModel>, kind: RuntimeEventKind, id: Seq<char>)
    requires
        projection::invocation_of(kind) == Some(id),
    ensures
        ({
            let after = projection::items_after_invocation(items, kind);
            &&& after.len() == items.len() + if shown_invocation(items, id) is Some {
                0int
            } else {
                1
            }
            &&& forall|j: int|
                0 <= j < items.len() && !(items[j] matches ThreadItemModel::ToolInvocation {
                    invocation_id,
                    ..
                } && invocation_id == id) ==> #[trigger] after[j] == items[j]
            &&& forall|other: Seq<char>|
                other != id ==> #[trigger] shown_invocation(after, other) == shown_invocation(
                    items,
                    other,
                )
        }),
{
    invocation_is_placed(items, id);
    let after = projection::items_after_invocation(items, kind);
    let ensured = projection::with_invocation(items, id);
    seqs::first_index_found(items, projection::is_invocation(id));
    assert forall|other: Seq<char>| other != id implies #[trigger] shown_invocation(after, other)
        == shown_invocation(items, other) by {
        invocations_after_one(items, kind, other);
    }
    assert forall|j: int|
        0 <= j < items.len() && !(items[j] matches ThreadItemModel::ToolInvocation {
            invocation_id,
            ..
        } && invocation_id == id) implies #[trigger] after[j] == items[j] by {
        assert(ensured[j] == items[j]);
        assert(!projection::is_invocation(id)(ensured[j]));
    }
}

/// Every event whose kind is called after a tool invocation is about that invocation.
pub proof fn invocation_events_are_about_invocations(kind: RuntimeEventKind)
    ensures
        projection::invocation_of(kind) is Some <==> {
            ||| kind is ToolInvocationStarted
            ||| kind is ToolInvocationWaitingApproval
            ||| kind is ToolInvocationWaitingUserInput
            ||| kind is ToolInvocationOutputDelta
            ||| kind is ToolInvocationCompleted
            ||| kind is ToolInvocationFailed
            ||| kind is ToolInvocationCancelled
        },
        kind matches RuntimeEventKind::ToolInvocationStarted { invocation_id, .. }
            ==> projection::invocation_of(kind) == Some(invocation_id@),
        kind matches RuntimeEventKind::ToolInvocationWaitingApproval { invocation_id, .. }
            ==> projection::invocation_of(kind) == Some(invocation_id@),
        kind matches RuntimeEventKind::ToolInvocationWaitingUserInput { invocation_id, .. }
            ==> projection::invocation_of(kind) == Some(invocation_id@),
        kind matches RuntimeEventKind::ToolInvocationOutputDelta { invocation_id, .. }
            ==> projection::invocation_of(kind) == Some(invocation_id@),
        kind matches RuntimeEventKind::ToolInvocationCompleted { invocation_id, .. }
            ==> projection::invocation_of(kind) == Some(invocation_id@),
        kind matches RuntimeEventKind::ToolInvocationFailed { invocation_id, .. }
            ==> projection::invocation_of(kind) == Some(invocation_id@),
        kind matches RuntimeEventKind::ToolInvocationCancelled { invocation_id, .. }
            ==> projection::invocation_of(kind) == Some(invocation_id@),
{
}

/// A decision reaches exactly the invocations that wait for it. They show the word that the item
/// of the decision shows, and no longer why they waited; nothing else of them changes.
pub proof fn decisions_reach_what_waits(item: ThreadItemModel, event: RuntimeEvent)
    requires
        event.kind is ApprovalDecision,
    ensures
        ({
            let approval = event.kind->ApprovalDecision_approval_id@;
            let after = projection::item_after_decision(
                item,
                approval,
                event.kind->ApprovalDecision_status,
            );
            if item is ToolInvocation && item->ToolInvocation_approval_id == Some(approval) {
                &&& projection::item_of_event(event) matches Some(decision)
                &&& after is ToolInvocation
                &&& after->ToolInvocation_status == decision->ApprovalDecision_status
                &&& after->ToolInvocation_reason is None
                &&& after->ToolInvocation_message is None
                &&& after->ToolInvocation_invocation_id == item->ToolInvocation_invocation_id
                &&& after->ToolInvocation_tool_call_id == item->ToolInvocation_tool_call_id
                &&& after->ToolInvocation_tool_name == item->ToolInvocation_tool_name
                &&& after->ToolInvocation_approval_id == item->ToolInvocation_approval_id
                &&& after->ToolInvocation_request_id == item->ToolInvocation_request_id
                &&& after->mutating == item->mutating
                &&& after->output_preview == item->output_preview
            } else {
                after == item
            }
        }),
{
}

/// The words for the three statuses of an approval.
pub proof fn approvals_are_called_by_their_status(status: ApprovalStatus)
    ensures
        projection::approval_status_text(status) == "approved"@ <==> status is Approved,
        projection::approval_status_text(status) == "denied"@ <==> status is Denied,
        projection::approval_status_text(status) == "pending"@ <==> status is Pending,
{
    reveal_strlit("approved");
    reveal_strlit("denied");
    reveal_strlit("pending");
    assert("approved"@.len() == 8 && "denied"@.len() == 6 && "pending"@.len() == 7);
}

/// An answer of the user reaches exactly the invocations that wait for it: they are completed, and
/// nothing else of them changes but that they no longer say why they waited.
pub proof fn answers_reach_what_waits(item: ThreadItemModel, request: Seq<char>)
    ensures
        ({
            let after = projection::item_after_user_input(item, request);
            if item is ToolInvocation && item->ToolInvocation_request_id == Some(request) {
                &&& after is ToolInvocation
                &&& after->ToolInvocation_status == "completed"@
                &&& after->ToolInvocation_reason is None
                &&& after->ToolInvocation_message is None
                &&& after->ToolInvocation_invocation_id == item->ToolInvocation_invocation_id
                &&& after->ToolInvocation_tool_call_id == item->ToolInvocation_tool_call_id
                &&& after->ToolInvocation_tool_name == item->ToolInvocation_tool_name
                &&& after->ToolInvocation_approval_id == item->ToolInvocation_approval_id
                &&& after->ToolInvocation_request_id == item->ToolInvocation_request_id
                &&& after->mutating == item->mutating
                &&& after->output_preview == item->output_preview
            } else {
                after == item
            }
        }),
{
}

/// The event that an item shows, where it tells.
pub open spec fn shown_event(item: ThreadItemModel) -> Option<Seq<char>> {
    match item {
        ThreadItemModel::AssistantMessage { event_id, .. } => event_id,
        ThreadItemModel::Reasoning { event_id, .. } => event_id,
        ThreadItemModel::ToolResult { event_id, .. } => event_id,
        ThreadItemModel::ExecOutput { event_id, .. } => event_id,
        ThreadItemModel::ApprovalRequested { event_id, .. } => event_id,
        ThreadItemModel::ApprovalDecision { event_id, .. } => event_id,
        ThreadItemModel::UserInputRequested { event_id, .. } => event_id,
        ThreadItemModel::UserInputResolved { event_id, .. } => event_id,
        ThreadItemModel::RuntimeError { event_id, .. } => event_id,
        ThreadItemModel::SubagentSpawn { event_id, .. } => event_id,
        ThreadItemModel::SubagentClose { event_id, .. } => event_id,
        ThreadItemModel::InterAgentMessage { event_id, .. } => event_id,
        ThreadItemModel::GoalReport { event_id, .. } => event_id,
        _ => None,
    }
}

/// An item tells which event it shows, but for compactions, which have nothing to tell. Events
/// that lead to an item always do, but for answers without text.
pub proof fn items_tell_their_event(event: RuntimeEvent)
    ensures
        projection::item_of_event(event) matches Some(item) ==> shown_event(item) == if event.kind
            is CompactionWritten {
            None
        } else {
            Some(event.event_id@)
        },
        projection::item_of_event(event) is Some <==> {
            ||| event.kind matches RuntimeEventKind::AssistantTurn { turn } && turn.text is Some
            ||| event.kind is Reasoning
            ||| event.kind is ToolResult
            ||| event.kind is ExecOutput
            ||| event.kind is ApprovalRequested
            ||| event.kind is ApprovalDecision
            ||| event.kind is UserInputRequested
            ||| event.kind is UserInputResolved
            ||| event.kind is RuntimeError
            ||| event.kind is CompactionWritten
            ||| event.kind is SubagentSpawned
            ||| event.kind is SubagentClosed
            ||| event.kind is InterAgentMessageSent
            ||| event.kind is ThreadGoalReport
        },
{
}

/// What the model says, thinks and does is shown as the event has it.
pub proof fn answers_and_output_are_shown(event: RuntimeEvent)
    ensures
        event.kind matches RuntimeEventKind::AssistantTurn { turn } ==> match turn.text {
            Some(text) => projection::item_of_event(event) matches Some(item)
                && item is AssistantMessage && item->AssistantMessage_text == Some(text@),
            None => projection::item_of_event(event) is None,
        },
        event.kind matches RuntimeEventKind::Reasoning { summary, content } ==> {
            &&& projection::item_of_event(event) matches Some(item)
            &&& item is Reasoning
            &&& item->summary.len() == summary@.len()
            &&& item->content.len() == content@.len()
            &&& forall|i: int|
                0 <= i < summary@.len() ==> #[trigger] item->summary[i] == summary@[i]@
            &&& forall|i: int|
                0 <= i < content@.len() ==> #[trigger] item->content[i] == content@[i]@
        },
        event.kind matches RuntimeEventKind::ToolResult { result } ==> {
            &&& projection::item_of_event(event) matches Some(item)
            &&& item is ToolResult
            &&& item->name == result.tool_name@
        },
        event.kind matches RuntimeEventKind::ExecOutput { chunk, .. } ==> {
            &&& projection::item_of_event(event) matches Some(item)
            &&& item is ExecOutput
            &&& item->ExecOutput_text == chunk@
        },
        event.kind matches RuntimeEventKind::RuntimeError { message } ==> {
            &&& projection::item_of_event(event) matches Some(item)
            &&& item is RuntimeError
            &&& item->RuntimeError_message == message@
        },
        event.kind is CompactionWritten ==> projection::item_of_event(event) == Some(
            ThreadItemModel::CompactionWritten,
        ),
{
}

/// What is asked of the user and what the user decides is shown as the event has it.
pub proof fn questions_and_decisions_are_shown(event: RuntimeEvent)
    ensures
        event.kind matches RuntimeEventKind::ApprovalRequested {
            approval_id,
            tool_name,
            reason,
            checkpoint_id,
            permission_profile,
            filesystem_sandbox,
            network_sandbox,
            env_isolation,
            ..
        } ==> {
            &&& projection::item_of_event(event) matches Some(item)
            &&& item is ApprovalRequested
            &&& item->ApprovalRequested_approval_id == approval_id@
            &&& item->ApprovalRequested_tool_name == tool_name@
            &&& item->ApprovalRequested_reason == reason@
            &&& item->checkpoint_id == checkpoint_id.deep_view()
            &&& item->permission_profile == permission_profile
            &&& item->filesystem_sandbox == filesystem_sandbox@
            &&& item->network_sandbox == network_sandbox@
            &&& item->env_isolation == env_isolation@
        },
        event.kind matches RuntimeEventKind::ApprovalDecision { approval_id, status, note } ==> {
            &&& projection::item_of_event(event) matches Some(item)
            &&& item is ApprovalDecision
            &&& item->ApprovalDecision_approval_id == Some(approval_id@)
            &&& item->ApprovalDecision_status == match status {
                ApprovalStatus::Pending => "pending"@,
                ApprovalStatus::Approved => "approved"@,
                ApprovalStatus::Denied => "denied"@,
            }
            &&& item->note == note.deep_view()
        },
        event.kind matches RuntimeEventKind::UserInputRequested {
            request_id,
            tool_name,
            questions,
        } ==> {
            &&& projection::item_of_event(event) matches Some(item)
            &&& item is UserInputRequested
            &&& item->UserInputRequested_request_id == request_id@
            &&& item->UserInputRequested_tool_name == tool_name@
            &&& item->questions == questions.deep_view()
            &&& item->UserInputRequested_status == "pending"@
        },
        event.kind matches RuntimeEventKind::UserInputResolved { request_id, dismissed } ==> {
            &&& projection::item_of_event(event) matches Some(item)
            &&& item is UserInputResolved
            &&& item->UserInputResolved_request_id == request_id@
            &&& item->dismissed == dismissed
        },
{
}

/// What agents do to each other is shown as the event has it: who did it, and to whom.
pub proof fn dealings_of_agents_are_shown(event: RuntimeEvent)
    ensures
        event.kind matches RuntimeEventKind::SubagentSpawned {
            invocation_id,
            tool_call_id,
            parent_thread_id,
            child_thread_id,
            task_name,
            message_preview,
        } ==> {
            &&& projection::item_of_event(event) matches Some(item)
            &&& item is SubagentSpawn
            &&& item->SubagentSpawn_invocation_id == invocation_id@
            &&& item->SubagentSpawn_tool_call_id == tool_call_id@
            &&& item->SubagentSpawn_parent_thread_id == parent_thread_id@
            &&& item->child_thread_id == child_thread_id@
            &&& item->task_name == task_name@
            &&& item->message_preview == message_preview@
        },
        event.kind matches RuntimeEventKind::SubagentClosed {
            invocation_id,
            tool_call_id,
            parent_thread_id,
            closed_thread_id,
            agent_path,
        } ==> {
            &&& projection::item_of_event(event) matches Some(item)
            &&& item is SubagentClose
            &&& item->SubagentClose_invocation_id == invocation_id@
            &&& item->SubagentClose_tool_call_id == tool_call_id@
            &&& item->SubagentClose_parent_thread_id == parent_thread_id@
            &&& item->closed_thread_id == closed_thread_id@
            &&& item->agent_path == agent_path@
        },
        event.kind matches RuntimeEventKind::InterAgentMessageSent {
            invocation_id,
            tool_call_id,
            author_thread_id,
            recipient_thread_id,
            author_path,
            recipient_path,
            content_preview,
            followup,
            started_turn_id,
        } ==> {
            &&& projection::item_of_event(event) matches Some(item)
            &&& item is InterAgentMessage
            &&& item->InterAgentMessage_invocation_id == invocation_id@
            &&& item->InterAgentMessage_tool_call_id == tool_call_id@
            &&& item->author_thread_id == author_thread_id@
            &&& item->recipient_thread_id == recipient_thread_id@
            &&& item->author_path == author_path@
            &&& item->recipient_path == recipient_path@
            &&& item->content_preview == content_preview@
            &&& item->followup == followup
            &&& item->started_turn_id == started_turn_id.deep_view()
        },
        event.kind matches RuntimeEventKind::ThreadGoalReport { report } ==> {
            &&& projection::item_of_event(event) matches Some(item)
            &&& item is GoalReport
            &&& item->report == report.deep_view()
        },
{
}

} // verus!
