//! Which turns a row of events leads to, and which events each of them shows.
use vstd::prelude::*;

use crate::event_laws;
use crate::events::{RuntimeEvent, RuntimeEventKind};
use crate::item_laws;
use crate::projection;
use crate::projection::Progress;
use crate::protocol::{ThreadItemModel, TurnStatus, TurnViewModel};
use crate::seqs;
use crate::text;

verus! {

/// The status of the turn of this id, where it is shown.
pub open spec fn status_at(turns: Seq<TurnViewModel>, id: Seq<char>) -> Option<TurnStatus> {
    let i = projection::turn_index(turns, id);
    if i < turns.len() {
        Some(turns[i].status)
    } else {
        None
    }
}

/// The items of the turn of this id; none where it is not shown.
pub open spec fn shown_items(turns: Seq<TurnViewModel>, id: Seq<char>) -> Seq<ThreadItemModel> {
    let i = projection::turn_index(turns, id);
    if i < turns.len() {
        turns[i].items
    } else {
        Seq::empty()
    }
}

proof fn updated_index(turns: Seq<TurnViewModel>, at: int, turn: TurnViewModel, id: Seq<char>)
    requires
        0 <= at < turns.len(),
        turn.id == turns[at].id,
    ensures
        projection::turn_index(turns.update(at, turn), id) == projection::turn_index(turns, id),
{
    let test = projection::has_id(id);
    seqs::first_index_found(turns, test);
    let i = projection::turn_index(turns, id);
    let changed = turns.update(at, turn);
    assert forall|j: int| 0 <= j < i implies !test(#[trigger] changed[j]) by {
        assert(!test(turns[j]));
    }
    seqs::first_index_is(changed, test, i);
}

proof fn turn_is_there(turns: Seq<TurnViewModel>, id: Seq<char>, other: Seq<char>)
    ensures
        ({
            let ensured = projection::with_turn(turns, id);
            let i = projection::turn_index(ensured, id);
            &&& 0 <= i < ensured.len()
            &&& ensured[i].id == id
            &&& ensured[i].items == shown_items(turns, id)
            &&& ensured[i].status == match status_at(turns, id) {
                Some(status) => status,
                None => TurnStatus::InProgress,
            }
            &&& other != id ==> shown_items(ensured, other) == shown_items(turns, other)
                && status_at(ensured, other) == status_at(turns, other)
                && projection::turn_index(ensured, other) != i
        }),
{
    let ensured = projection::with_turn(turns, id);
    let test = projection::has_id(id);
    seqs::first_index_found(turns, test);
    seqs::first_index_found(ensured, test);
    let n = turns.len() as int;
    if projection::turn_index(turns, id) >= n {
        assert(test(ensured[n]));
        assert forall|j: int| 0 <= j < n implies !test(#[trigger] ensured[j]) by {
            assert(ensured[j] == turns[j]);
        }
        seqs::first_index_is(ensured, test, n);
    }
    if other != id {
        let look = projection::has_id(other);
        seqs::first_index_found(turns, look);
        seqs::first_index_found(ensured, look);
        let k = projection::turn_index(turns, other);
        if ensured.len() > n {
            assert(!look(ensured[n]));
            assert forall|j: int| 0 <= j < k && j < n implies !look(#[trigger] ensured[j]) by {
                assert(ensured[j] == turns[j]);
            }
            if k < n {
                assert(ensured[k] == turns[k]);
                seqs::first_index_is(ensured, look, k);
            } else {
                seqs::first_index_is(ensured, look, ensured.len() as int);
            }
        }
    }
}

proof fn after_status(
    turns: Seq<TurnViewModel>,
    id: Seq<char>,
    status: TurnStatus,
    other: Seq<char>,
)
    ensures
        shown_items(projection::with_status(turns, id, status), other) == shown_items(turns, other),
        status_at(projection::with_status(turns, id, status), other) == if other == id {
            Some(status)
        } else {
            status_at(turns, other)
        },
{
    turn_is_there(turns, id, other);
    let ensured = projection::with_turn(turns, id);
    let i = projection::turn_index(ensured, id);
    updated_index(ensured, i, TurnViewModel { status, ..ensured[i] }, other);
    seqs::first_index_found(ensured, projection::has_id(other));
}

proof fn after_items(
    turns: Seq<TurnViewModel>,
    id: Seq<char>,
    items: Seq<ThreadItemModel>,
    other: Seq<char>,
)
    ensures
        shown_items(projection::with_items(turns, id, items), other) == if other == id {
            items
        } else {
            shown_items(turns, other)
        },
        status_at(projection::with_items(turns, id, items), other) == if other == id {
            Some(
                match status_at(turns, id) {
                    Some(status) => status,
                    None => TurnStatus::InProgress,
                },
            )
        } else {
            status_at(turns, other)
        },
        projection::items_at(turns, id) == shown_items(turns, id),
{
    turn_is_there(turns, id, other);
    let ensured = projection::with_turn(turns, id);
    let i = projection::turn_index(ensured, id);
    updated_index(ensured, i, TurnViewModel { items, ..ensured[i] }, other);
    seqs::first_index_found(ensured, projection::has_id(other));
}

proof fn after_item(
    turns: Seq<TurnViewModel>,
    id: Seq<char>,
    item: Option<ThreadItemModel>,
    other: Seq<char>,
)
    ensures
        shown_items(projection::with_item(turns, id, item), other) == if other == id {
            match item {
                Some(item) => shown_items(turns, id).push(item),
                None => shown_items(turns, id),
            }
        } else {
            shown_items(turns, other)
        },
        status_at(projection::with_item(turns, id, item), other) == if other == id {
            Some(
                match status_at(turns, id) {
                    Some(status) => status,
                    None => TurnStatus::InProgress,
                },
            )
        } else {
            status_at(turns, other)
        },
{
    match item {
        Some(item) => {
            after_items(turns, id, shown_items(turns, id).push(item), other);
        },
        None => {
            turn_is_there(turns, id, other);
        },
    }
}

/// The start of a turn makes it the running one. Its end leaves none running, where it was the
/// running one, and nothing else changes which one runs. What the turns show does not change with
/// their starts and ends.
pub proof fn turns_start_and_end(progress: Progress, event: RuntimeEvent, other: Seq<char>)
    ensures
        ({
            let after = projection::progress_after(progress, event);
            let named = event.turn_id.deep_view();
            let starts = event.kind is TurnStarted && named is Some;
            let ends = (event.kind is TurnCompleted || event.kind is TurnInterrupted) && named
                is Some;
            &&& after.current == if starts {
                named
            } else if ends && progress.current == named {
                None
            } else {
                progress.current
            }
            &&& starts || ends ==> {
                &&& shown_items(after.turns, other) == shown_items(progress.turns, other)
                &&& status_at(after.turns, other) == if named == Some(other) {
                    Some(
                        if event.kind is TurnStarted {
                            TurnStatus::InProgress
                        } else if event.kind is TurnCompleted {
                            TurnStatus::Completed
                        } else {
                            TurnStatus::Interrupted
                        },
                    )
                } else {
                    status_at(progress.turns, other)
                }
            }
        }),
{
    if let Some(id) = event.turn_id {
        after_status(progress.turns, id@, TurnStatus::InProgress, other);
        after_status(progress.turns, id@, TurnStatus::Completed, other);
        after_status(progress.turns, id@, TurnStatus::Interrupted, other);
    }
}

/// Whether an event starts a turn.
pub open spec fn starts(event: RuntimeEvent, turn: Seq<char>) -> bool {
    event.kind is TurnStarted && event.turn_id.deep_view() == Some(turn)
}

/// Whether an event ends a turn.
pub open spec fn ends(event: RuntimeEvent, turn: Seq<char>) -> bool {
    (event.kind is TurnCompleted || event.kind is TurnInterrupted) && event.turn_id.deep_view()
        == Some(turn)
}

/// Whether the event at `i` is the last that starts a turn, and starts this one, which no later
/// event ends.
pub open spec fn started_last(events: Seq<RuntimeEvent>, turn: Seq<char>, i: int) -> bool {
    &&& 0 <= i < events.len()
    &&& starts(events[i], turn)
    &&& forall|j: int|
        i < j < events.len() ==> !ends(#[trigger] events[j], turn) && !(events[j].kind is TurnStarted
            && events[j].turn_id is Some)
}

/// Whether a turn runs after these events.
pub open spec fn runs(events: Seq<RuntimeEvent>, turn: Seq<char>) -> bool {
    exists|i: int| #[trigger] started_last(events, turn, i)
}

/// The running turn is the one that was started last, unless it has ended.
pub proof fn running_turn_was_started_last(events: Seq<RuntimeEvent>, turn: Seq<char>)
    ensures
        projection::progress_of(events).current == Some(turn) <==> runs(events, turn),
    decreases events.len(),
{
    if events.len() > 0 {
        let rest = events.drop_last();
        let event = events.last();
        let n = rest.len() as int;
        let before = projection::progress_of(rest);
        running_turn_was_started_last(rest, turn);
        turns_start_and_end(before, event, turn);
        assert(events[n] == event);
        if starts(event, turn) {
            assert(started_last(events, turn, n));
        } else if event.kind is TurnStarted && event.turn_id is Some {
            assert forall|i: int| !#[trigger] started_last(events, turn, i) by {
                if started_last(events, turn, i) {
                    assert(i < n);
                    assert(!(events[n].kind is TurnStarted && events[n].turn_id is Some));
                }
            }
        } else if ends(event, turn) {
            assert forall|i: int| !#[trigger] started_last(events, turn, i) by {
                if started_last(events, turn, i) {
                    assert(i < n);
                    assert(!ends(events[n], turn));
                }
            }
        } else {
            if runs(rest, turn) {
                let i = choose|i: int| #[trigger] started_last(rest, turn, i);
                assert forall|j: int| i < j < events.len() implies !ends(#[trigger] events[j], turn)
                    && !(events[j].kind is TurnStarted && events[j].turn_id is Some) by {
                    if j < n {
                        assert(events[j] == rest[j]);
                    }
                }
                assert(started_last(events, turn, i));
            }
            if runs(events, turn) {
                let i = choose|i: int| #[trigger] started_last(events, turn, i);
                assert(i < n);
                assert forall|j: int| i < j < rest.len() implies !ends(#[trigger] rest[j], turn)
                    && !(rest[j].kind is TurnStarted && rest[j].turn_id is Some) by {
                    assert(events[j] == rest[j]);
                }
                assert(started_last(rest, turn, i));
            }
        }
    } else {
        assert forall|i: int| !#[trigger] started_last(events, turn, i) by {}
    }
}

/// The turn that an event is shown in: the running one, else the one that it names.
pub open spec fn shown_in(progress: Progress, event: RuntimeEvent) -> Option<Seq<char>> {
    if progress.current is Some {
        progress.current
    } else {
        event.turn_id.deep_view()
    }
}

/// Whether an event tells only that a turn starts or ends.
pub open spec fn marks_turn(kind: RuntimeEventKind) -> bool {
    kind is TurnStarted || kind is TurnCompleted || kind is TurnInterrupted
}

/// An event that is no start or end of a turn is shown in one turn at most: the running one, or
/// else the one that it names. All other turns stay as they are. An event in no turn shows
/// nothing, but for the report of a goal, which has a turn of its own then.
pub proof fn events_are_shown_in_one_turn(
    progress: Progress,
    event: RuntimeEvent,
    other: Seq<char>,
)
    requires
        !marks_turn(event.kind),
        shown_in(progress, event) != Some(other),
        event.kind is ThreadGoalReport && shown_in(progress, event) is None ==> other
            != projection::SYSTEM_GOAL_REPORT_TURN_ID@,
    ensures
        ({
            let after = projection::progress_after(progress, event);
            &&& shown_items(after.turns, other) == shown_items(progress.turns, other)
            &&& status_at(after.turns, other) == status_at(progress.turns, other)
        }),
{
    let turns = progress.turns;
    let item = projection::item_of_event(event);
    if let Some(id) = shown_in(progress, event) {
        after_item(turns, id, item, other);
        after_items(
            turns,
            id,
            projection::items_after_invocation(projection::items_at(turns, id), event.kind),
            other,
        );
        after_status(turns, id, TurnStatus::Failed, other);
        after_item(projection::with_status(turns, id, TurnStatus::Failed), id, item, other);
        if let RuntimeEventKind::ApprovalDecision { approval_id, status, .. } = event.kind {
            let items = projection::items_at(turns, id).map_values(
                |item: ThreadItemModel| projection::item_after_decision(item, approval_id@, status),
            );
            after_items(turns, id, items, other);
            after_item(projection::with_items(turns, id, items), id, item, other);
        }
        if let RuntimeEventKind::UserInputResolved { request_id, .. } = event.kind {
            let items = projection::items_at(turns, id).map_values(
                |item: ThreadItemModel| projection::item_after_user_input(item, request_id@),
            );
            after_items(turns, id, items, other);
            after_item(projection::with_items(turns, id, items), id, item, other);
        }
    } else {
        let id = projection::SYSTEM_GOAL_REPORT_TURN_ID@;
        after_status(turns, id, TurnStatus::Completed, other);
        after_item(projection::with_status(turns, id, TurnStatus::Completed), id, item, other);
    }
}

/// Whether events of this kind leave no item of their own, though they may change others.
pub open spec fn has_no_item(kind: RuntimeEventKind) -> bool {
    ||| marks_turn(kind)
    ||| projection::invocation_of(kind) is Some
    ||| text::has_prefix(event_laws::kind_name(kind), "thread_goal_"@) && !(
    kind is ThreadGoalReport)
}

proof fn goal_kinds(kind: RuntimeEventKind)
    ensures
        text::has_prefix(event_laws::kind_name(kind), "thread_goal_"@) <==> {
            ||| kind is ThreadGoalUpdated
            ||| kind is ThreadGoalCleared
            ||| kind is ThreadGoalContinuationStarted
            ||| kind is ThreadGoalContinuationSuppressed
            ||| kind is ThreadGoalTurnStarted
            ||| kind is ThreadGoalToolCompleted
            ||| kind is ThreadGoalReport
        },
{
    event_laws::kinds_of_goals(kind);
}

/// What an event says is shown at the end of the turn that it is shown in, behind everything that
/// was shown there before.
pub proof fn events_are_shown_at_the_end(progress: Progress, event: RuntimeEvent, id: Seq<char>)
    requires
        shown_in(progress, event) == Some(id),
        !has_no_item(event.kind),
    ensures
        ({
            let before = shown_items(progress.turns, id);
            let after = shown_items(projection::progress_after(progress, event).turns, id);
            match projection::item_of_event(event) {
                Some(item) => after.len() == before.len() + 1 && after.last() == item,
                None => after.len() == before.len(),
            }
        }),
        !(event.kind is ApprovalDecision) && !(event.kind is UserInputResolved) ==> shown_items(
            progress.turns,
            id,
        ).is_prefix_of(shown_items(projection::progress_after(progress, event).turns, id)),
{
    goal_kinds(event.kind);
    let turns = progress.turns;
    let item = projection::item_of_event(event);
    let before = shown_items(turns, id);
    after_item(turns, id, item, id);
    after_status(turns, id, TurnStatus::Failed, id);
    after_item(projection::with_status(turns, id, TurnStatus::Failed), id, item, id);
    if let RuntimeEventKind::ApprovalDecision { approval_id, status, .. } = event.kind {
        let items = projection::items_at(turns, id).map_values(
            |item: ThreadItemModel| projection::item_after_decision(item, approval_id@, status),
        );
        after_items(turns, id, items, id);
        after_item(projection::with_items(turns, id, items), id, item, id);
    }
    if let RuntimeEventKind::UserInputResolved { request_id, .. } = event.kind {
        let items = projection::items_at(turns, id).map_values(
            |item: ThreadItemModel| projection::item_after_user_input(item, request_id@),
        );
        after_items(turns, id, items, id);
        after_item(projection::with_items(turns, id, items), id, item, id);
    }
    let after = shown_items(projection::progress_after(progress, event).turns, id);
    if !(event.kind is ApprovalDecision) && !(event.kind is UserInputResolved) {
        assert(before.is_prefix_of(after)) by {
            assert(item is Some ==> after == before.push(item->0));
            assert(item is None ==> after == before);
        }
    }
}

/// An error fails the turn that it is shown in. No other event that is shown in a turn changes
/// where the turn stands; a turn that was not shown before is in progress.
pub proof fn only_errors_fail_turns(progress: Progress, event: RuntimeEvent, id: Seq<char>)
    requires
        shown_in(progress, event) == Some(id),
        !marks_turn(event.kind),
    ensures
        ({
            let before = status_at(progress.turns, id);
            let after = status_at(projection::progress_after(progress, event).turns, id);
            if event.kind is RuntimeError {
                after == Some(TurnStatus::Failed)
            } else {
                after == before || (before is None && after == Some(TurnStatus::InProgress))
            }
        }),
{
    let turns = progress.turns;
    let item = projection::item_of_event(event);
    after_item(turns, id, item, id);
    after_status(turns, id, TurnStatus::Failed, id);
    after_item(projection::with_status(turns, id, TurnStatus::Failed), id, item, id);
    after_items(
        turns,
        id,
        projection::items_after_invocation(projection::items_at(turns, id), event.kind),
        id,
    );
    if let RuntimeEventKind::ApprovalDecision { approval_id, status, .. } = event.kind {
        let items = projection::items_at(turns, id).map_values(
            |item: ThreadItemModel| projection::item_after_decision(item, approval_id@, status),
        );
        after_items(turns, id, items, id);
        after_item(projection::with_items(turns, id, items), id, item, id);
    }
    if let RuntimeEventKind::UserInputResolved { request_id, .. } = event.kind {
        let items = projection::items_at(turns, id).map_values(
            |item: ThreadItemModel| projection::item_after_user_input(item, request_id@),
        );
        after_items(turns, id, items, id);
        after_item(projection::with_items(turns, id, items), id, item, id);
    }
}

/// The report of a goal outside any turn is shown at the end of a turn of its own, which is
/// complete.
pub proof fn stray_reports_have_a_turn(progress: Progress, event: RuntimeEvent)
    requires
        event.kind is ThreadGoalReport,
        shown_in(progress, event) is None,
    ensures
        ({
            let id = "system_goal_reports"@;
            let after = projection::progress_after(progress, event);
            &&& status_at(after.turns, id) == Some(TurnStatus::Completed)
            &&& shown_items(after.turns, id) == shown_items(progress.turns, id).push(
                ThreadItemModel::GoalReport {
                    event_id: Some(event.event_id@),
                    report: event.kind->ThreadGoalReport_report.deep_view(),
                },
            )
        }),
{
    let id = projection::SYSTEM_GOAL_REPORT_TURN_ID@;
    let item = projection::item_of_event(event);
    let placed = projection::with_status(progress.turns, id, TurnStatus::Completed);
    after_status(progress.turns, id, TurnStatus::Completed, id);
    after_item(placed, id, item, id);
}

proof fn mapped_invocations(
    items: Seq<ThreadItemModel>,
    f: spec_fn(ThreadItemModel) -> ThreadItemModel,
    id: Seq<char>,
)
    requires
        forall|item: ThreadItemModel|
            #![trigger f(item)]
            projection::is_invocation(id)(f(item)) == projection::is_invocation(id)(item),
    ensures
        projection::invocation_index(items.map_values(f), id) == projection::invocation_index(
            items,
            id,
        ),
{
    let test = projection::is_invocation(id);
    let mapped = items.map_values(f);
    seqs::first_index_found(items, test);
    let i = projection::invocation_index(items, id);
    assert forall|j: int| 0 <= j < i implies !test(#[trigger] mapped[j]) by {
        assert(mapped[j] == f(items[j]));
        assert(!test(items[j]));
    }
    if i < items.len() {
        assert(mapped[i] == f(items[i]));
    }
    seqs::first_index_is(mapped, test, i);
}

proof fn pushed_invocations(items: Seq<ThreadItemModel>, item: ThreadItemModel, id: Seq<char>)
    requires
        !(item is ToolInvocation),
    ensures
        item_laws::shown_invocation(items.push(item), id) == item_laws::shown_invocation(items, id),
{
    let test = projection::is_invocation(id);
    let more = items.push(item);
    seqs::first_index_found(items, test);
    let i = projection::invocation_index(items, id);
    assert forall|j: int| 0 <= j < i implies !test(#[trigger] more[j]) by {
        assert(more[j] == items[j]);
    }
    assert(!test(more[items.len() as int]));
    if i < items.len() {
        assert(more[i] == items[i]);
        seqs::first_index_is(more, test, i);
    } else {
        seqs::first_index_is(more, test, more.len() as int);
    }
}

/// What is shown of the output of an invocation in a turn only grows: by the chunks of the
/// invocation that are shown in that turn, each at the end.
pub proof fn output_only_grows_in_its_turn(
    progress: Progress,
    event: RuntimeEvent,
    turn: Seq<char>,
    id: Seq<char>,
)
    ensures
        ({
            let before = item_laws::shown_output(shown_items(progress.turns, turn), id);
            let after = item_laws::shown_output(
                shown_items(projection::progress_after(progress, event).turns, turn),
                id,
            );
            after == before + if shown_in(progress, event) == Some(turn) {
                item_laws::chunk_for(event.kind, id)
            } else {
                Seq::empty()
            }
        }),
{
    let turns = progress.turns;
    let items = shown_items(turns, turn);
    let item = projection::item_of_event(event);
    let before = item_laws::shown_output(items, id);
    assert(before + Seq::<char>::empty() =~= before);
    if marks_turn(event.kind) {
        turns_start_and_end(progress, event, turn);
    } else if shown_in(progress, event) == Some(turn) {
        after_item(turns, turn, item, turn);
        after_items(
            turns,
            turn,
            projection::items_after_invocation(items, event.kind),
            turn,
        );
        after_status(turns, turn, TurnStatus::Failed, turn);
        after_item(projection::with_status(turns, turn, TurnStatus::Failed), turn, item, turn);
        item_laws::output_only_grows(items, event.kind, id);
        if item is Some {
            pushed_invocations(items, item->0, id);
        }
        if let RuntimeEventKind::ApprovalDecision { approval_id, status, .. } = event.kind {
            let f = |item: ThreadItemModel|
                projection::item_after_decision(item, approval_id@, status);
            let told = items.map_values(f);
            mapped_invocations(items, f, id);
            seqs::first_index_found(items, projection::is_invocation(id));
            after_items(turns, turn, told, turn);
            after_item(projection::with_items(turns, turn, told), turn, item, turn);
            pushed_invocations(told, item->0, id);
        }
        if let RuntimeEventKind::UserInputResolved { request_id, .. } = event.kind {
            let f = |item: ThreadItemModel| projection::item_after_user_input(item, request_id@);
            let told = items.map_values(f);
            mapped_invocations(items, f, id);
            seqs::first_index_found(items, projection::is_invocation(id));
            after_items(turns, turn, told, turn);
            after_item(projection::with_items(turns, turn, told), turn, item, turn);
            pushed_invocations(told, item->0, id);
        }
    } else if event.kind is ThreadGoalReport && shown_in(progress, event) is None {
        let own = projection::SYSTEM_GOAL_REPORT_TURN_ID@;
        after_status(turns, own, TurnStatus::Completed, turn);
        after_item(
            projection::with_status(turns, own, TurnStatus::Completed),
            own,
            item,
            turn,
        );
        pushed_invocations(items, item->0, id);
    } else {
        events_are_shown_in_one_turn(progress, event, turn);
    }
}

/// Whether an event is shown in this turn, after these: the turn runs, or none does and the event
/// names it.
pub open spec fn falls_in(
    events: Seq<RuntimeEvent>,
    event: RuntimeEvent,
    turn: Seq<char>,
) -> bool {
    runs(events, turn) || (event.turn_id.deep_view() == Some(turn) && forall|other: Seq<char>|
        !#[trigger] runs(events, other))
}

/// The chunks of output of an invocation that are shown in a turn, in the order of the events.
pub open spec fn chunks_in(events: Seq<RuntimeEvent>, turn: Seq<char>, id: Seq<char>) -> Seq<char>
    decreases events.len(),
{
    if events.len() == 0 {
        Seq::empty()
    } else {
        chunks_in(events.drop_last(), turn, id) + if falls_in(
            events.drop_last(),
            events.last(),
            turn,
        ) {
            item_laws::chunk_for(events.last().kind, id)
        } else {
            Seq::empty()
        }
    }
}

/// The view of a thread shows the output of an invocation as its chunks followed each other.
pub proof fn views_show_output_in_order(
    events: Seq<RuntimeEvent>,
    turn: Seq<char>,
    id: Seq<char>,
)
    ensures
        item_laws::shown_output(shown_items(projection::progress_of(events).turns, turn), id)
            == chunks_in(events, turn, id),
    decreases events.len(),
{
    if events.len() > 0 {
        let rest = events.drop_last();
        let event = events.last();
        let progress = projection::progress_of(rest);
        views_show_output_in_order(rest, turn, id);
        output_only_grows_in_its_turn(progress, event, turn, id);
        running_turn_was_started_last(rest, turn);
        if let Some(current) = progress.current {
            running_turn_was_started_last(rest, current);
        }
        assert forall|other: Seq<char>|
            progress.current is None implies !#[trigger] runs(rest, other) by {
            running_turn_was_started_last(rest, other);
        }
        assert(falls_in(rest, event, turn) <==> shown_in(progress, event) == Some(turn));
    } else {
        let none = projection::progress_of(events).turns;
        seqs::first_index_found(none, projection::has_id(turn));
        let items = shown_items(none, turn);
        assert(items =~= Seq::empty());
        assert(item_laws::shown_output(items, id) =~= Seq::empty());
    }
}

/// Where the thread was last at a turn: an answer or its end completes it, an interruption
/// interrupts it, an error fails it, and what concerns a goal says nothing of it. Everything else
/// shows that it goes on.
pub proof fn events_tell_where_a_turn_stands(kind: RuntimeEventKind)
    ensures
        projection::turn_status_after(kind) is None <==> text::has_prefix(
            event_laws::kind_name(kind),
            "thread_goal_"@,
        ),
        projection::turn_status_after(kind) == Some(TurnStatus::Completed) <==> (
        kind is TurnCompleted || kind is AssistantTurn),
        projection::turn_status_after(kind) == Some(TurnStatus::Interrupted)
            <==> kind is TurnInterrupted,
        projection::turn_status_after(kind) == Some(TurnStatus::Failed) <==> kind is RuntimeError,
        projection::turn_status_after(kind) != Some(TurnStatus::WaitingApproval),
        projection::turn_status_after(kind) != Some(TurnStatus::Running),
{
    goal_kinds(kind);
}

/// Events outside any turn, and events that concern goals, do not change where the thread was
/// last at a turn.
pub proof fn other_events_tell_nothing(events: Seq<RuntimeEvent>, event: RuntimeEvent)
    requires
        event.turn_id is None || text::has_prefix(
            event_laws::kind_name(event.kind),
            "thread_goal_"@,
        ),
    ensures
        projection::latest_turn_state_of(events.push(event)) == projection::latest_turn_state_of(
            events,
        ),
{
    goal_kinds(event.kind);
    assert(events.push(event).drop_last() =~= events);
    assert(events.push(event).last() == event);
}

} // verus!
