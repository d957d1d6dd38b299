//! What the kinds of events are called, and which events a replay gives.
use vstd::prelude::*;

use crate::events::{RuntimeEvent, RuntimeEventKind};
use crate::protocol::{EventsReplayParams, EventsReplayResponse, RuntimeEventKindFilter};
use crate::replay;
use crate::seqs;
use crate::state::{RuntimeOverlay, ThreadSnapshot};
use crate::text;

verus! {

/// The name of a kind of event where events are sent and stored.
pub open spec fn kind_name(kind: RuntimeEventKind) -> Seq<char> {
    match kind {
        RuntimeEventKind::TurnStarted => "turn_started"@,
        RuntimeEventKind::TurnCompleted => "turn_completed"@,
        RuntimeEventKind::TurnInterrupted => "turn_interrupted"@,
        RuntimeEventKind::AssistantTextDelta { .. } => "assistant_text_delta"@,
        RuntimeEventKind::AssistantTurn { .. } => "assistant_turn"@,
        RuntimeEventKind::Reasoning { .. } => "reasoning"@,
        RuntimeEventKind::ReasoningDelta { .. } => "reasoning_delta"@,
        RuntimeEventKind::ToolResult { .. } => "tool_result"@,
        RuntimeEventKind::ToolInvocationStarted { .. } => "tool_invocation_started"@,
        RuntimeEventKind::ToolInvocationWaitingApproval { .. } => "tool_invocation_waiting_approval"@,
        RuntimeEventKind::ToolInvocationWaitingUserInput { .. } => "tool_invocation_waiting_user_input"@,
        RuntimeEventKind::ToolInvocationOutputDelta { .. } => "tool_invocation_output_delta"@,
        RuntimeEventKind::ToolInvocationCompleted { .. } => "tool_invocation_completed"@,
        RuntimeEventKind::ToolInvocationFailed { .. } => "tool_invocation_failed"@,
        RuntimeEventKind::ToolInvocationCancelled { .. } => "tool_invocation_cancelled"@,
        RuntimeEventKind::ExecOutput { .. } => "exec_output"@,
        RuntimeEventKind::ApprovalRequested { .. } => "approval_requested"@,
        RuntimeEventKind::ApprovalDecision { .. } => "approval_decision"@,
        RuntimeEventKind::UserInputRequested { .. } => "user_input_requested"@,
        RuntimeEventKind::UserInputResolved { .. } => "user_input_resolved"@,
        RuntimeEventKind::CompactionWritten { .. } => "compaction_written"@,
        RuntimeEventKind::SubagentSpawned { .. } => "subagent_spawned"@,
        RuntimeEventKind::SubagentClosed { .. } => "subagent_closed"@,
        RuntimeEventKind::InterAgentMessageSent { .. } => "inter_agent_message_sent"@,
        RuntimeEventKind::ReviewSubmitted { .. } => "review_submitted"@,
        RuntimeEventKind::TokenCount { .. } => "token_count"@,
        RuntimeEventKind::ThreadGoalUpdated { .. } => "thread_goal_updated"@,
        RuntimeEventKind::ThreadGoalCleared { .. } => "thread_goal_cleared"@,
        RuntimeEventKind::ThreadGoalContinuationStarted { .. } => "thread_goal_continuation_started"@,
        RuntimeEventKind::ThreadGoalContinuationSuppressed { .. } => "thread_goal_continuation_suppressed"@,
        RuntimeEventKind::ThreadGoalTurnStarted { .. } => "thread_goal_turn_started"@,
        RuntimeEventKind::ThreadGoalToolCompleted { .. } => "thread_goal_tool_completed"@,
        RuntimeEventKind::ThreadGoalReport { .. } => "thread_goal_report"@,
        RuntimeEventKind::RuntimeError { .. } => "runtime_error"@,
    }
}

/// The name of a filter where requests are sent.
pub open spec fn filter_name(filter: RuntimeEventKindFilter) -> Seq<char> {
    match filter {
        RuntimeEventKindFilter::TurnStarted => "turn_started"@,
        RuntimeEventKindFilter::TurnCompleted => "turn_completed"@,
        RuntimeEventKindFilter::TurnInterrupted => "turn_interrupted"@,
        RuntimeEventKindFilter::AssistantTextDelta => "assistant_text_delta"@,
        RuntimeEventKindFilter::AssistantTurn => "assistant_turn"@,
        RuntimeEventKindFilter::ReasoningDelta => "reasoning_delta"@,
        RuntimeEventKindFilter::Reasoning => "reasoning"@,
        RuntimeEventKindFilter::ToolResult => "tool_result"@,
        RuntimeEventKindFilter::ToolInvocationStarted => "tool_invocation_started"@,
        RuntimeEventKindFilter::ToolInvocationWaitingApproval => "tool_invocation_waiting_approval"@,
        RuntimeEventKindFilter::ToolInvocationWaitingUserInput => "tool_invocation_waiting_user_input"@,
        RuntimeEventKindFilter::ToolInvocationOutputDelta => "tool_invocation_output_delta"@,
        RuntimeEventKindFilter::ToolInvocationCompleted => "tool_invocation_completed"@,
        RuntimeEventKindFilter::ToolInvocationFailed => "tool_invocation_failed"@,
        RuntimeEventKindFilter::ToolInvocationCancelled => "tool_invocation_cancelled"@,
        RuntimeEventKindFilter::ExecOutput => "exec_output"@,
        RuntimeEventKindFilter::ApprovalRequested => "approval_requested"@,
        RuntimeEventKindFilter::ApprovalDecision => "approval_decision"@,
        RuntimeEventKindFilter::UserInputRequested => "user_input_requested"@,
        RuntimeEventKindFilter::UserInputResolved => "user_input_resolved"@,
        RuntimeEventKindFilter::CompactionWritten => "compaction_written"@,
        RuntimeEventKindFilter::SubagentSpawned => "subagent_spawned"@,
        RuntimeEventKindFilter::SubagentClosed => "subagent_closed"@,
        RuntimeEventKindFilter::InterAgentMessageSent => "inter_agent_message_sent"@,
        RuntimeEventKindFilter::TokenCount => "token_count"@,
        RuntimeEventKindFilter::ThreadGoalTurnStarted => "thread_goal_turn_started"@,
        RuntimeEventKindFilter::ThreadGoalToolCompleted => "thread_goal_tool_completed"@,
        RuntimeEventKindFilter::ThreadGoalReport => "thread_goal_report"@,
        RuntimeEventKindFilter::RuntimeError => "runtime_error"@,
    }
}

/// What tells a name from all others: how long it is, and two of its characters.
spec fn mark(name: Seq<char>) -> (nat, char, char) {
    (name.len(), name[0], name[name.len() - 5])
}

spec fn kind_mark(kind: RuntimeEventKind) -> (nat, char, char) {
    match kind {
        RuntimeEventKind::TurnStarted => (12nat, 't', 'a'),
        RuntimeEventKind::TurnCompleted => (14nat, 't', 'l'),
        RuntimeEventKind::TurnInterrupted => (16nat, 't', 'u'),
        RuntimeEventKind::AssistantTextDelta { .. } => (20nat, 'a', 'd'),
        RuntimeEventKind::AssistantTurn { .. } => (14nat, 'a', '_'),
        RuntimeEventKind::Reasoning { .. } => (9nat, 'r', 'o'),
        RuntimeEventKind::ReasoningDelta { .. } => (15nat, 'r', 'd'),
        RuntimeEventKind::ToolResult { .. } => (11nat, 't', 'e'),
        RuntimeEventKind::ToolInvocationStarted { .. } => (23nat, 't', 'a'),
        RuntimeEventKind::ToolInvocationWaitingApproval { .. } => (32nat, 't', 'r'),
        RuntimeEventKind::ToolInvocationWaitingUserInput { .. } => (34nat, 't', 'i'),
        RuntimeEventKind::ToolInvocationOutputDelta { .. } => (28nat, 't', 'd'),
        RuntimeEventKind::ToolInvocationCompleted { .. } => (25nat, 't', 'l'),
        RuntimeEventKind::ToolInvocationFailed { .. } => (22nat, 't', 'a'),
        RuntimeEventKind::ToolInvocationCancelled { .. } => (25nat, 't', 'e'),
        RuntimeEventKind::ExecOutput { .. } => (11nat, 'e', 'u'),
        RuntimeEventKind::ApprovalRequested { .. } => (18nat, 'a', 'e'),
        RuntimeEventKind::ApprovalDecision { .. } => (17nat, 'a', 'i'),
        RuntimeEventKind::UserInputRequested { .. } => (20nat, 'u', 'e'),
        RuntimeEventKind::UserInputResolved { .. } => (19nat, 'u', 'o'),
        RuntimeEventKind::CompactionWritten { .. } => (18nat, 'c', 'i'),
        RuntimeEventKind::SubagentSpawned { .. } => (16nat, 's', 'a'),
        RuntimeEventKind::SubagentClosed { .. } => (15nat, 's', 'l'),
        RuntimeEventKind::InterAgentMessageSent { .. } => (24nat, 'i', '_'),
        RuntimeEventKind::ReviewSubmitted { .. } => (16nat, 'r', 'i'),
        RuntimeEventKind::TokenCount { .. } => (11nat, 't', 'c'),
        RuntimeEventKind::ThreadGoalUpdated { .. } => (19nat, 't', 'd'),
        RuntimeEventKind::ThreadGoalCleared { .. } => (19nat, 't', 'e'),
        RuntimeEventKind::ThreadGoalContinuationStarted { .. } => (32nat, 't', 'a'),
        RuntimeEventKind::ThreadGoalContinuationSuppressed { .. } => (35nat, 't', 'e'),
        RuntimeEventKind::ThreadGoalTurnStarted { .. } => (24nat, 't', 'a'),
        RuntimeEventKind::ThreadGoalToolCompleted { .. } => (26nat, 't', 'l'),
        RuntimeEventKind::ThreadGoalReport { .. } => (18nat, 't', 'e'),
        RuntimeEventKind::RuntimeError { .. } => (13nat, 'r', 'e'),
    }
}

spec fn filter_mark(filter: RuntimeEventKindFilter) -> (nat, char, char) {
    match filter {
        RuntimeEventKindFilter::TurnStarted => (12nat, 't', 'a'),
        RuntimeEventKindFilter::TurnCompleted => (14nat, 't', 'l'),
        RuntimeEventKindFilter::TurnInterrupted => (16nat, 't', 'u'),
        RuntimeEventKindFilter::AssistantTextDelta => (20nat, 'a', 'd'),
        RuntimeEventKindFilter::AssistantTurn => (14nat, 'a', '_'),
        RuntimeEventKindFilter::ReasoningDelta => (15nat, 'r', 'd'),
        RuntimeEventKindFilter::Reasoning => (9nat, 'r', 'o'),
        RuntimeEventKindFilter::ToolResult => (11nat, 't', 'e'),
        RuntimeEventKindFilter::ToolInvocationStarted => (23nat, 't', 'a'),
        RuntimeEventKindFilter::ToolInvocationWaitingApproval => (32nat, 't', 'r'),
        RuntimeEventKindFilter::ToolInvocationWaitingUserInput => (34nat, 't', 'i'),
        RuntimeEventKindFilter::ToolInvocationOutputDelta => (28nat, 't', 'd'),
        RuntimeEventKindFilter::ToolInvocationCompleted => (25nat, 't', 'l'),
        RuntimeEventKindFilter::ToolInvocationFailed => (22nat, 't', 'a'),
        RuntimeEventKindFilter::ToolInvocationCancelled => (25nat, 't', 'e'),
        RuntimeEventKindFilter::ExecOutput => (11nat, 'e', 'u'),
        RuntimeEventKindFilter::ApprovalRequested => (18nat, 'a', 'e'),
        RuntimeEventKindFilter::ApprovalDecision => (17nat, 'a', 'i'),
        RuntimeEventKindFilter::UserInputRequested => (20nat, 'u', 'e'),
        RuntimeEventKindFilter::UserInputResolved => (19nat, 'u', 'o'),
        RuntimeEventKindFilter::CompactionWritten => (18nat, 'c', 'i'),
        RuntimeEventKindFilter::SubagentSpawned => (16nat, 's', 'a'),
        RuntimeEventKindFilter::SubagentClosed => (15nat, 's', 'l'),
        RuntimeEventKindFilter::InterAgentMessageSent => (24nat, 'i', '_'),
        RuntimeEventKindFilter::TokenCount => (11nat, 't', 'c'),
        RuntimeEventKindFilter::ThreadGoalTurnStarted => (24nat, 't', 'a'),
        RuntimeEventKindFilter::ThreadGoalToolCompleted => (26nat, 't', 'l'),
        RuntimeEventKindFilter::ThreadGoalReport => (18nat, 't', 'e'),
        RuntimeEventKindFilter::RuntimeError => (13nat, 'r', 'e'),
    }
}

proof fn kind_is_marked(kind: RuntimeEventKind)
    ensures
        mark(kind_name(kind)) == kind_mark(kind),
{
    reveal_strlit("turn_started");
    reveal_strlit("turn_completed");
    reveal_strlit("turn_interrupted");
    reveal_strlit("assistant_text_delta");
    reveal_strlit("assistant_turn");
    reveal_strlit("reasoning");
    reveal_strlit("reasoning_delta");
    reveal_strlit("tool_result");
    reveal_strlit("tool_invocation_started");
    reveal_strlit("tool_invocation_waiting_approval");
    reveal_strlit("tool_invocation_waiting_user_input");
    reveal_strlit("tool_invocation_output_delta");
    reveal_strlit("tool_invocation_completed");
    reveal_strlit("tool_invocation_failed");
    reveal_strlit("tool_invocation_cancelled");
    reveal_strlit("exec_output");
    reveal_strlit("approval_requested");
    reveal_strlit("approval_decision");
    reveal_strlit("user_input_requested");
    reveal_strlit("user_input_resolved");
    reveal_strlit("compaction_written");
    reveal_strlit("subagent_spawned");
    reveal_strlit("subagent_closed");
    reveal_strlit("inter_agent_message_sent");
    reveal_strlit("review_submitted");
    reveal_strlit("token_count");
    reveal_strlit("thread_goal_updated");
    reveal_strlit("thread_goal_cleared");
    reveal_strlit("thread_goal_continuation_started");
    reveal_strlit("thread_goal_continuation_suppressed");
    reveal_strlit("thread_goal_turn_started");
    reveal_strlit("thread_goal_tool_completed");
    reveal_strlit("thread_goal_report");
    reveal_strlit("runtime_error");
}

proof fn filter_is_marked(filter: RuntimeEventKindFilter)
    ensures
        mark(filter_name(filter)) == filter_mark(filter),
{
    reveal_strlit("turn_started");
    reveal_strlit("turn_completed");
    reveal_strlit("turn_interrupted");
    reveal_strlit("assistant_text_delta");
    reveal_strlit("assistant_turn");
    reveal_strlit("reasoning_delta");
    reveal_strlit("reasoning");
    reveal_strlit("tool_result");
    reveal_strlit("tool_invocation_started");
    reveal_strlit("tool_invocation_waiting_approval");
    reveal_strlit("tool_invocation_waiting_user_input");
    reveal_strlit("tool_invocation_output_delta");
    reveal_strlit("tool_invocation_completed");
    reveal_strlit("tool_invocation_failed");
    reveal_strlit("tool_invocation_cancelled");
    reveal_strlit("exec_output");
    reveal_strlit("approval_requested");
    reveal_strlit("approval_decision");
    reveal_strlit("user_input_requested");
    reveal_strlit("user_input_resolved");
    reveal_strlit("compaction_written");
    reveal_strlit("subagent_spawned");
    reveal_strlit("subagent_closed");
    reveal_strlit("inter_agent_message_sent");
    reveal_strlit("token_count");
    reveal_strlit("thread_goal_turn_started");
    reveal_strlit("thread_goal_tool_completed");
    reveal_strlit("thread_goal_report");
    reveal_strlit("runtime_error");
}

/// The kinds of events that concern goals are those whose names say so.
pub proof fn kinds_of_goals(kind: RuntimeEventKind)
    ensures
        text::has_prefix(kind_name(kind), "thread_goal_"@) <==> {
            ||| kind is ThreadGoalUpdated
            ||| kind is ThreadGoalCleared
            ||| kind is ThreadGoalContinuationStarted
            ||| kind is ThreadGoalContinuationSuppressed
            ||| kind is ThreadGoalTurnStarted
            ||| kind is ThreadGoalToolCompleted
            ||| kind is ThreadGoalReport
        },
{
    reveal_strlit("thread_goal_");
    reveal_strlit("turn_started");
    reveal_strlit("turn_completed");
    reveal_strlit("turn_interrupted");
    reveal_strlit("assistant_text_delta");
    reveal_strlit("assistant_turn");
    reveal_strlit("reasoning");
    reveal_strlit("reasoning_delta");
    reveal_strlit("tool_result");
    reveal_strlit("tool_invocation_started");
    reveal_strlit("tool_invocation_waiting_approval");
    reveal_strlit("tool_invocation_waiting_user_input");
    reveal_strlit("tool_invocation_output_delta");
    reveal_strlit("tool_invocation_completed");
    reveal_strlit("tool_invocation_failed");
    reveal_strlit("tool_invocation_cancelled");
    reveal_strlit("exec_output");
    reveal_strlit("approval_requested");
    reveal_strlit("approval_decision");
    reveal_strlit("user_input_requested");
    reveal_strlit("user_input_resolved");
    reveal_strlit("compaction_written");
    reveal_strlit("subagent_spawned");
    reveal_strlit("subagent_closed");
    reveal_strlit("inter_agent_message_sent");
    reveal_strlit("review_submitted");
    reveal_strlit("token_count");
    reveal_strlit("thread_goal_updated");
    reveal_strlit("thread_goal_cleared");
    reveal_strlit("thread_goal_continuation_started");
    reveal_strlit("thread_goal_continuation_suppressed");
    reveal_strlit("thread_goal_turn_started");
    reveal_strlit("thread_goal_tool_completed");
    reveal_strlit("thread_goal_report");
    reveal_strlit("runtime_error");
    let name = kind_name(kind);
    let head = "thread_goal_"@;
    assert(head.len() == 12 && head[1] == 'h');
    if kind is ThreadGoalUpdated || kind is ThreadGoalCleared
        || kind is ThreadGoalContinuationStarted || kind is ThreadGoalContinuationSuppressed
        || kind is ThreadGoalTurnStarted || kind is ThreadGoalToolCompleted
        || kind is ThreadGoalReport {
        assert(name.take(12) =~= head);
    } else {
        assert(name[1] != 'h');
        if text::has_prefix(name, head) {
            assert(name.take(12)[1] == name[1]);
        }
    }
}

/// Whether a filter selects nothing: those for questions to the user, for goals, and for
/// invocations that wait for the user.
pub open spec fn is_mute(filter: RuntimeEventKindFilter) -> bool {
    let name = filter_name(filter);
    ||| name == "tool_invocation_waiting_user_input"@
    ||| name == "user_input_requested"@
    ||| name == "user_input_resolved"@
    ||| name == "thread_goal_turn_started"@
    ||| name == "thread_goal_tool_completed"@
    ||| name == "thread_goal_report"@
}

proof fn mute_is_marked(filter: RuntimeEventKindFilter)
    ensures
        is_mute(filter) <==> {
            ||| filter_mark(filter) == (34nat, 't', 'i')
            ||| filter_mark(filter) == (20nat, 'u', 'e')
            ||| filter_mark(filter) == (19nat, 'u', 'o')
            ||| filter_mark(filter) == (24nat, 't', 'a')
            ||| filter_mark(filter) == (26nat, 't', 'l')
            ||| filter_mark(filter) == (18nat, 't', 'e')
        },
{
    filter_is_marked(filter);
    let name = filter_name(filter);
    reveal_strlit("tool_invocation_waiting_user_input");
    reveal_strlit("user_input_requested");
    reveal_strlit("user_input_resolved");
    reveal_strlit("thread_goal_turn_started");
    reveal_strlit("thread_goal_tool_completed");
    reveal_strlit("thread_goal_report");
}

/// A filter selects an event exactly where the name of the filter is the name of the kind of the
/// event, save for the filters that select nothing.
pub proof fn filters_go_by_name(filter: RuntimeEventKindFilter, kind: RuntimeEventKind)
    ensures
        replay::selects(filter, kind) <==> {
            &&& filter_name(filter) == kind_name(kind)
            &&& !is_mute(filter)
        },
{
    kind_is_marked(kind);
    filter_is_marked(filter);
    mute_is_marked(filter);
}

/// Whether a request for these kinds asks for an event: by its name, or for want of any kind.
pub open spec fn is_asked_for(
    kinds: Seq<RuntimeEventKindFilter>,
    event: RuntimeEvent,
) -> bool {
    kinds.len() == 0 || exists|i: int|
        0 <= i < kinds.len() && filter_name(#[trigger] kinds[i]) == kind_name(event.kind)
            && !is_mute(kinds[i])
}

proof fn selection_goes_by_name(kinds: Seq<RuntimeEventKindFilter>, event: RuntimeEvent)
    ensures
        replay::is_selected(kinds, event) == is_asked_for(kinds, event),
{
    assert forall|i: int| 0 <= i < kinds.len() implies (replay::selects(kinds[i], event.kind)
        <==> filter_name(#[trigger] kinds[i]) == kind_name(event.kind) && !is_mute(kinds[i])) by {
        filters_go_by_name(kinds[i], event.kind);
    }
    if replay::is_selected(kinds, event) && kinds.len() > 0 {
        let i = choose|i: int|
            0 <= i < kinds.len() && replay::selects(#[trigger] kinds[i], event.kind);
        assert(filter_name(kinds[i]) == kind_name(event.kind));
    }
}

/// A request without a number, a kind or an event to follow gives every event, in order.
pub proof fn replays_hold_everything(events: Seq<RuntimeEvent>)
    ensures
        replay::first_of(replay::replayed(events, None, Seq::empty()), None) == events,
    decreases events.len(),
{
    reveal(Seq::filter);
    let kept = |event: RuntimeEvent|
        replay::is_selected(Seq::<RuntimeEventKindFilter>::empty(), event);
    assert(events.skip(0) =~= events);
    if events.len() > 0 {
        replays_hold_everything(events.drop_last());
        assert(events.drop_last().skip(0) =~= events.drop_last());
        assert(events.drop_last().push(events.last()) =~= events);
    } else {
        assert(events.filter(kept) =~= events);
    }
}

/// Whether one of the events has this id.
pub open spec fn is_recorded(events: Seq<RuntimeEvent>, id: Seq<char>) -> bool {
    exists|i: int| 0 <= i < events.len() && (#[trigger] events[i]).event_id@ == id
}

/// One more event is added to a replay at its end, if it is asked for, and changes nothing of it
/// otherwise. The event to follow, if any, was recorded before.
pub proof fn replays_grow(
    events: Seq<RuntimeEvent>,
    event: RuntimeEvent,
    after: Option<Seq<char>>,
    kinds: Seq<RuntimeEventKindFilter>,
)
    requires
        after matches Some(id) ==> is_recorded(events, id),
    ensures
        replay::replayed(events.push(event), after, kinds) == if is_asked_for(kinds, event) {
            replay::replayed(events, after, kinds).push(event)
        } else {
            replay::replayed(events, after, kinds)
        },
{
    reveal(Seq::filter);
    selection_goes_by_name(kinds, event);
    let more = events.push(event);
    let start = replay::replay_start(events, after);
    if let Some(id) = after {
        let found = replay::has_event_id(id);
        seqs::first_index_found(events, found);
        let i = choose|i: int| 0 <= i < events.len() && (#[trigger] events[i]).event_id@ == id;
        assert(found(events[i]));
        let first = seqs::first_index(events, found);
        assert forall|j: int| 0 <= j < first implies !found(#[trigger] more[j]) by {
            assert(more[j] == events[j]);
        }
        assert(more[first] == events[first]);
        seqs::first_index_is(more, found, first);
    }
    assert(replay::replay_start(more, after) == start);
    assert(more.skip(start) =~= events.skip(start).push(event));
    assert(more.skip(start).drop_last() =~= events.skip(start));
}

/// A replay that follows an event starts right behind it: it neither gives that event again nor
/// leaves out what was recorded next.
pub proof fn replays_start_behind(
    before: Seq<RuntimeEvent>,
    marker: RuntimeEvent,
    rest: Seq<RuntimeEvent>,
    kinds: Seq<RuntimeEventKindFilter>,
)
    requires
        !is_recorded(before, marker.event_id@),
    ensures
        replay::replayed(before.push(marker) + rest, Some(marker.event_id@), kinds)
            == replay::replayed(rest, None, kinds),
{
    let events = before.push(marker) + rest;
    let found = replay::has_event_id(marker.event_id@);
    let n = before.len() as int;
    assert(events[n] == marker);
    assert forall|j: int| 0 <= j < n implies !found(#[trigger] events[j]) by {
        assert(events[j] == before[j]);
    }
    seqs::first_index_is(events, found, n);
    assert(events.skip(n + 1) =~= rest);
    assert(rest.skip(0) =~= rest);
}

/// Following an event that was never recorded is following none.
pub proof fn unknown_events_are_not_followed(
    events: Seq<RuntimeEvent>,
    id: Seq<char>,
    kinds: Seq<RuntimeEventKindFilter>,
)
    requires
        !is_recorded(events, id),
    ensures
        replay::replayed(events, Some(id), kinds) == replay::replayed(events, None, kinds),
{
    let found = replay::has_event_id(id);
    assert forall|j: int| 0 <= j < events.len() implies !found(#[trigger] events[j]) by {
        assert(events[j].event_id@ != id);
    }
    seqs::first_index_is(events, found, events.len() as int);
}

/// A page is the beginning of the replay, as long as was asked for where there is that much.
pub proof fn pages_are_beginnings(events: Seq<RuntimeEvent>, limit: Option<usize>)
    ensures
        replay::first_of(events, limit).is_prefix_of(events),
        limit is None ==> replay::first_of(events, limit) == events,
        limit matches Some(n) ==> replay::first_of(events, limit).len() == if n < events.len() {
            n as nat
        } else {
            events.len()
        },
{
    assert(replay::first_of(events, limit).is_prefix_of(events));
}

/// A replay answers for the thread that was asked for, and shows where it stands exactly where that
/// was asked for.
pub proof fn replays_show_the_thread_on_demand<F: Fn(Vec<RuntimeEvent>) -> Vec<RuntimeEvent>>(
    res: EventsReplayResponse,
    params: EventsReplayParams,
    events: Seq<RuntimeEvent>,
    snapshot: ThreadSnapshot,
    overlay: RuntimeOverlay,
    redact: F,
)
    requires
        replay::is_replayed(res, params, events, snapshot, overlay, redact),
    ensures
        res.thread_id == params.thread_id,
        res.snapshot is Some <==> params.include_snapshot,
        res.snapshot matches Some(shown) ==> shown.thread_id == snapshot.thread_id,
{
}

} // verus!
