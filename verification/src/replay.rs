//! Replaying the recorded events of a thread.
use vstd::prelude::*;

use crate::data::Alike;
use crate::error::AppServerError;
use crate::events::{RuntimeEvent, RuntimeEventKind};
use crate::ids::EventId;
use crate::protocol::{
    BoundaryOpResponse, EventsReplayParams, EventsReplayResponse, ReplaySnapshotView,
    RuntimeEventKindFilter,
};
use crate::runtime_loader;
use crate::seqs;
use crate::state::{RuntimeOverlay, StoredThreadState, ThreadSnapshot};
use crate::threads::LiveThread;

verus! {

/// Whether a filter selects events of this kind. Filters for questions to the user, for goals and
/// for invocations that wait for the user select nothing.
pub open spec fn selects(filter: RuntimeEventKindFilter, kind: RuntimeEventKind) -> bool {
    match filter {
        RuntimeEventKindFilter::TurnStarted => kind is TurnStarted,
        RuntimeEventKindFilter::TurnCompleted => kind is TurnCompleted,
        RuntimeEventKindFilter::TurnInterrupted => kind is TurnInterrupted,
        RuntimeEventKindFilter::AssistantTextDelta => kind is AssistantTextDelta,
        RuntimeEventKindFilter::AssistantTurn => kind is AssistantTurn,
        RuntimeEventKindFilter::ReasoningDelta => kind is ReasoningDelta,
        RuntimeEventKindFilter::Reasoning => kind is Reasoning,
        RuntimeEventKindFilter::ToolResult => kind is ToolResult,
        RuntimeEventKindFilter::ToolInvocationStarted => kind is ToolInvocationStarted,
        RuntimeEventKindFilter::ToolInvocationWaitingApproval =>
            kind is ToolInvocationWaitingApproval,
        RuntimeEventKindFilter::ToolInvocationWaitingUserInput => false,
        RuntimeEventKindFilter::ToolInvocationOutputDelta => kind is ToolInvocationOutputDelta,
        RuntimeEventKindFilter::ToolInvocationCompleted => kind is ToolInvocationCompleted,
        RuntimeEventKindFilter::ToolInvocationFailed => kind is ToolInvocationFailed,
        RuntimeEventKindFilter::ToolInvocationCancelled => kind is ToolInvocationCancelled,
        RuntimeEventKindFilter::ExecOutput => kind is ExecOutput,
        RuntimeEventKindFilter::ApprovalRequested => kind is ApprovalRequested,
        RuntimeEventKindFilter::ApprovalDecision => kind is ApprovalDecision,
        RuntimeEventKindFilter::UserInputRequested => false,
        RuntimeEventKindFilter::UserInputResolved => false,
        RuntimeEventKindFilter::CompactionWritten => kind is CompactionWritten,
        RuntimeEventKindFilter::SubagentSpawned => kind is SubagentSpawned,
        RuntimeEventKindFilter::SubagentClosed => kind is SubagentClosed,
        RuntimeEventKindFilter::InterAgentMessageSent => kind is InterAgentMessageSent,
        RuntimeEventKindFilter::TokenCount => kind is TokenCount,
        RuntimeEventKindFilter::ThreadGoalTurnStarted => false,
        RuntimeEventKindFilter::ThreadGoalToolCompleted => false,
        RuntimeEventKindFilter::ThreadGoalReport => false,
        RuntimeEventKindFilter::RuntimeError => kind is RuntimeError,
    }
}

/// Whether a filter selects events of this kind.
pub fn runtime_event_kind_matches(
    filter: &RuntimeEventKindFilter,
    kind: &RuntimeEventKind,
) -> (res: bool)
    ensures
        res == selects(*filter, *kind),
{
    match (filter, kind) {
        (RuntimeEventKindFilter::TurnStarted, RuntimeEventKind::TurnStarted) => true,
        (RuntimeEventKindFilter::TurnCompleted, RuntimeEventKind::TurnCompleted) => true,
        (RuntimeEventKindFilter::TurnInterrupted, RuntimeEventKind::TurnInterrupted) => true,
        (
            RuntimeEventKindFilter::AssistantTextDelta,
            RuntimeEventKind::AssistantTextDelta { .. },
        ) => true,
        (RuntimeEventKindFilter::AssistantTurn, RuntimeEventKind::AssistantTurn { .. }) => true,
        (RuntimeEventKindFilter::ReasoningDelta, RuntimeEventKind::ReasoningDelta { .. }) => true,
        (RuntimeEventKindFilter::Reasoning, RuntimeEventKind::Reasoning { .. }) => true,
        (RuntimeEventKindFilter::ToolResult, RuntimeEventKind::ToolResult { .. }) => true,
        (
            RuntimeEventKindFilter::ToolInvocationStarted,
            RuntimeEventKind::ToolInvocationStarted { .. },
        ) => true,
        (
            RuntimeEventKindFilter::ToolInvocationWaitingApproval,
            RuntimeEventKind::ToolInvocationWaitingApproval { .. },
        ) => true,
        (
            RuntimeEventKindFilter::ToolInvocationOutputDelta,
            RuntimeEventKind::ToolInvocationOutputDelta { .. },
        ) => true,
        (
            RuntimeEventKindFilter::ToolInvocationCompleted,
            RuntimeEventKind::ToolInvocationCompleted { .. },
        ) => true,
        (
            RuntimeEventKindFilter::ToolInvocationFailed,
            RuntimeEventKind::ToolInvocationFailed { .. },
        ) => true,
        (
            RuntimeEventKindFilter::ToolInvocationCancelled,
            RuntimeEventKind::ToolInvocationCancelled { .. },
        ) => true,
        (RuntimeEventKindFilter::ExecOutput, RuntimeEventKind::ExecOutput { .. }) => true,
        (
            RuntimeEventKindFilter::ApprovalRequested,
            RuntimeEventKind::ApprovalRequested { .. },
        ) => true,
        (
            RuntimeEventKindFilter::ApprovalDecision,
            RuntimeEventKind::ApprovalDecision { .. },
        ) => true,
        (
            RuntimeEventKindFilter::CompactionWritten,
            RuntimeEventKind::CompactionWritten { .. },
        ) => true,
        (RuntimeEventKindFilter::SubagentSpawned, RuntimeEventKind::SubagentSpawned { .. }) => true,
        (RuntimeEventKindFilter::SubagentClosed, RuntimeEventKind::SubagentClosed { .. }) => true,
        (
            RuntimeEventKindFilter::InterAgentMessageSent,
            RuntimeEventKind::InterAgentMessageSent { .. },
        ) => true,
        (RuntimeEventKindFilter::TokenCount, RuntimeEventKind::TokenCount { .. }) => true,
        (RuntimeEventKindFilter::RuntimeError, RuntimeEventKind::RuntimeError { .. }) => true,
        _ => false,
    }
}

/// Whether an event is of one of these kinds; every event is where no kinds are given.
pub open spec fn is_selected(kinds: Seq<RuntimeEventKindFilter>, event: RuntimeEvent) -> bool {
    kinds.len() == 0 || exists|i: int|
        0 <= i < kinds.len() && selects(#[trigger] kinds[i], event.kind)
}

/// Whether an event has this id.
pub open spec fn has_event_id(id: Seq<char>) -> spec_fn(RuntimeEvent) -> bool {
    |event: RuntimeEvent| event.event_id@ == id
}

/// Where the replay starts: behind the event that it is to follow, or at the beginning where
/// there is no such event.
pub open spec fn replay_start(events: Seq<RuntimeEvent>, after: Option<Seq<char>>) -> int {
    match after {
        Some(id) => {
            let index = seqs::first_index(events, has_event_id(id));
            if index < events.len() {
                index + 1
            } else {
                0
            }
        },
        None => 0,
    }
}

/// The events of these kinds behind the event that the replay is to follow.
pub open spec fn replayed(
    events: Seq<RuntimeEvent>,
    after: Option<Seq<char>>,
    kinds: Seq<RuntimeEventKindFilter>,
) -> Seq<RuntimeEvent> {
    events.skip(replay_start(events, after)).filter(
        |event: RuntimeEvent| is_selected(kinds, event),
    )
}

/// The first events, as many as are wanted; all of them where no number is given.
pub open spec fn first_of(events: Seq<RuntimeEvent>, limit: Option<usize>) -> Seq<RuntimeEvent> {
    match limit {
        Some(limit) => if limit < events.len() {
            events.take(limit as int)
        } else {
            events
        },
        None => events,
    }
}

fn selected(kinds: &Vec<RuntimeEventKindFilter>, event: &RuntimeEvent) -> (res: bool)
    ensures
        res == is_selected(kinds@, *event),
{
    if kinds.is_empty() {
        return true;
    }
    for i in 0..kinds.len()
        invariant
            forall|j: int| 0 <= j < i ==> !selects(#[trigger] kinds@[j], event.kind),
    {
        if runtime_event_kind_matches(&kinds[i], &event.kind) {
            return true;
        }
    }
    false
}

fn find_start(events: &Vec<RuntimeEvent>, after: &Option<EventId>) -> (res: usize)
    ensures
        res == replay_start(events@, after.deep_view()),
        res <= events@.len(),
{
    let id = match after {
        Some(id) => id,
        None => return 0,
    };
    for i in 0..events.len()
        invariant
            after.deep_view() == Some(id@),
            forall|j: int| 0 <= j < i ==> !has_event_id(id@)(#[trigger] events@[j]),
    {
        if events[i].event_id.alike(id) {
            proof {
                seqs::first_index_is(events@, has_event_id(id@), i as int);
            }
            return i + 1;
        }
    }
    proof {
        seqs::first_index_is(events@, has_event_id(id@), events@.len() as int);
    }
    0
}

/// The events that a replay asks for.
pub fn filter_replay_events(events: Vec<RuntimeEvent>, params: &EventsReplayParams) -> (res: Vec<
    RuntimeEvent,
>)
    ensures
        res@ == first_of(
            replayed(events@, params.after_event_id.deep_view(), params.event_kinds@),
            params.limit,
        ),
{
    let start: usize = find_start(&events, &params.after_event_id);
    let ghost all = events@;
    let ghost kept = |event: RuntimeEvent| is_selected(params.event_kinds@, event);
    let mut res: Vec<RuntimeEvent> = Vec::new();
    let count: usize = events.len();
    let mut index: usize = 0;
    proof {
        reveal(Seq::filter);
        assert(all.skip(start as int).take(0).filter(kept) =~= Seq::empty());
    }
    for event in iter: events
        invariant
            iter.seq() == all,
            index == iter.index(),
            count == all.len(),
            start <= all.len(),
            kept == (|event: RuntimeEvent| is_selected(params.event_kinds@, event)),
            index <= start ==> res@ == Seq::<RuntimeEvent>::empty(),
            index >= start ==> res@ == first_of(
                all.skip(start as int).take(index - start).filter(kept),
                params.limit,
            ),
    {
        proof {
            reveal(Seq::filter);
            if index >= start {
                let rest = all.skip(start as int);
                assert(rest.take(index - start + 1).drop_last() =~= rest.take(index - start));
                assert(rest.take(index - start + 1).last() == event);
            } else if index + 1 == start {
                assert(all.skip(start as int).take(0).filter(kept) =~= Seq::empty());
            }
        }
        let open = match params.limit {
            Some(limit) => res.len() < limit,
            None => true,
        };
        if index >= start && open && selected(&params.event_kinds, &event) {
            res.push(event);
        }
        index = index + 1;
    }
    proof {
        let rest = all.skip(start as int);
        assert(rest.take(rest.len() as int) =~= rest);
    }
    res
}

/// What a replay shows of a thread beside its events.
pub open spec fn replay_snapshot_of(snapshot: ThreadSnapshot, overlay: RuntimeOverlay) ->
    ReplaySnapshotView {
    ReplaySnapshotView {
        thread_id: snapshot.thread_id,
        cwd: snapshot.cwd,
        permission_profile: snapshot.permission_profile,
        latest_compaction: snapshot.latest_compaction,
        open_exec_session_count: overlay.open_exec_sessions@.len() as usize,
        conversation_message_count: snapshot.conversation@.len() as usize,
        pending_approval_count: overlay.pending_approvals@.len() as usize,
    }
}

/// Where a thread stands after its recorded events.
pub fn replay_snapshot_view(snapshot: ThreadSnapshot, overlay: &RuntimeOverlay) -> (res:
    ReplaySnapshotView)
    ensures
        res == replay_snapshot_of(snapshot, *overlay),
{
    let conversation_message_count: usize = snapshot.conversation.len();
    ReplaySnapshotView {
        thread_id: snapshot.thread_id,
        cwd: snapshot.cwd,
        permission_profile: snapshot.permission_profile,
        latest_compaction: snapshot.latest_compaction,
        open_exec_session_count: overlay.open_exec_sessions.len(),
        conversation_message_count,
        pending_approval_count: overlay.pending_approvals.len(),
    }
}

/// Whether a replay is answered from these events and from this state of the thread: with the
/// events that were asked for, as `redact` leaves them, and with the state where it was asked for.
pub open spec fn is_replayed<F: Fn(Vec<RuntimeEvent>) -> Vec<RuntimeEvent>>(
    res: EventsReplayResponse,
    params: EventsReplayParams,
    events: Seq<RuntimeEvent>,
    snapshot: ThreadSnapshot,
    overlay: RuntimeOverlay,
    redact: F,
) -> bool {
    &&& res.thread_id == params.thread_id
    &&& exists|selected: Vec<RuntimeEvent>|
        selected@ == first_of(
            replayed(events, params.after_event_id.deep_view(), params.event_kinds@),
            params.limit,
        ) && #[trigger] redact.ensures((selected,), res.events)
    &&& res.snapshot == if params.include_snapshot {
        Some(replay_snapshot_of(snapshot, overlay))
    } else {
        None
    }
}

/// Answers a replay from what is recorded of the thread and from what is open in it.
fn replay_response<F: Fn(Vec<RuntimeEvent>) -> Vec<RuntimeEvent>>(
    params: EventsReplayParams,
    events: Vec<RuntimeEvent>,
    snapshot: ThreadSnapshot,
    overlay: &RuntimeOverlay,
    redact: F,
) -> (res: EventsReplayResponse)
    requires
        forall|events: Vec<RuntimeEvent>| #[trigger] redact.requires((events,)),
    ensures
        is_replayed(res, params, events@, snapshot, *overlay, redact),
{
    let selected = filter_replay_events(events, &params);
    let snapshot = if params.include_snapshot {
        Some(replay_snapshot_view(snapshot, overlay))
    } else {
        None
    };
    let ghost chosen = selected;
    let public = redact(selected);
    let res = EventsReplayResponse { thread_id: params.thread_id, events: public, snapshot };
    proof {
        assert(chosen@ == first_of(
            replayed(events@, params.after_event_id.deep_view(), params.event_kinds@),
            params.limit,
        ));
        assert(redact.ensures((chosen,), res.events));
    }
    res
}

/// Answers a replay: from the thread as it is now, where it is loaded, else as it is stored.
/// `workspace_root` is the workspace of the request. `redact` takes out of the events what must
/// not leave the server.
pub fn events_replay<F: Fn(Vec<RuntimeEvent>) -> Vec<RuntimeEvent>>(
    params: EventsReplayParams,
    workspace_root: &str,
    live: Option<LiveThread>,
    stored: Option<(StoredThreadState, RuntimeOverlay)>,
    redact: F,
) -> (res: Result<EventsReplayResponse, AppServerError>)
    requires
        forall|events: Vec<RuntimeEvent>| #[trigger] redact.requires((events,)),
    ensures
        match (live, stored) {
            (Some(live), _) => if runtime_loader::may_reach(
                params.workspace_root is Some,
                workspace_root@,
                live.workspace_root@,
            ) {
                &&& res matches Ok(response)
                &&& is_replayed(
                    response,
                    params,
                    live.events@,
                    live.snapshot,
                    live.overlay,
                    redact,
                )
            } else {
                res matches Err(error) && runtime_loader::is_mismatch(
                    error,
                    params.thread_id@,
                    workspace_root@,
                    live.workspace_root@,
                )
            },
            (None, Some((stored, overlay))) => {
                &&& res matches Ok(response)
                &&& is_replayed(
                    response,
                    params,
                    stored.events@,
                    stored.snapshot,
                    overlay,
                    redact,
                )
            },
            (None, None) => res == Err::<EventsReplayResponse, AppServerError>(
                AppServerError::ThreadNotFound(params.thread_id),
            ),
        },
{
    match live {
        Some(live) => {
            let LiveThread { workspace_root: live_root, snapshot, overlay, events } = live;
            match runtime_loader::resolve_loaded_runtime(
                &params.thread_id,
                params.workspace_root.is_some(),
                workspace_root,
                Some(live_root),
            ) {
                Ok(_) => {},
                Err(error) => return Err(error),
            }
            Ok(replay_response(params, events, snapshot, &overlay, redact))
        },
        None => match stored {
            Some((stored, overlay)) => Ok(
                replay_response(params, stored.events, stored.snapshot, &overlay, redact),
            ),
            None => Err(AppServerError::ThreadNotFound(params.thread_id)),
        },
    }
}

/// The response with `redact` applied to its events.
pub fn redact_events_replay_response_for_public_boundary<
    F: Fn(Vec<RuntimeEvent>) -> Vec<RuntimeEvent>,
>(response: EventsReplayResponse, redact: F) -> (res: EventsReplayResponse)
    requires
        redact.requires((response.events,)),
    ensures
        redact.ensures((response.events,), res.events),
        res.thread_id == response.thread_id,
        res.snapshot == response.snapshot,
{
    EventsReplayResponse {
        thread_id: response.thread_id,
        events: redact(response.events),
        snapshot: response.snapshot,
    }
}

/// The response with `redact` applied to the events of a replay; every other response is left as
/// it is.
pub fn redact_boundary_op_response_for_public_boundary<
    F: Fn(Vec<RuntimeEvent>) -> Vec<RuntimeEvent>,
>(response: BoundaryOpResponse, redact: F) -> (res: BoundaryOpResponse)
    requires
        response matches BoundaryOpResponse::EventsReplayed(replay) ==> redact.requires(
            (replay.events,),
        ),
    ensures
        match response {
            BoundaryOpResponse::EventsReplayed(replay) => {
                &&& res matches BoundaryOpResponse::EventsReplayed(public)
                &&& redact.ensures((replay.events,), public.events)
                &&& public.thread_id == replay.thread_id
                &&& public.snapshot == replay.snapshot
            },
            other => res == other,
        },
{
    match response {
        BoundaryOpResponse::EventsReplayed(replay) => BoundaryOpResponse::EventsReplayed(
            redact_events_replay_response_for_public_boundary(replay, redact),
        ),
        other => other,
    }
}

proof fn nth_selected(
    events: Seq<RuntimeEvent>,
    kept: spec_fn(RuntimeEvent) -> bool,
    n: int,
) -> (k: int)
    requires
        0 < n <= events.filter(kept).len(),
    ensures
        0 <= k < events.len(),
        events[k] == events.filter(kept)[n - 1],
        events.take(k + 1).filter(kept) == events.filter(kept).take(n),
    decreases events.len(),
{
    reveal(Seq::filter);
    let rest = events.drop_last();
    if n <= rest.filter(kept).len() {
        let k = nth_selected(rest, kept, n);
        assert(rest.take(k + 1) =~= events.take(k + 1));
        assert(rest.filter(kept).take(n) =~= events.filter(kept).take(n));
        k
    } else {
        assert(events.take(events.len() as int) =~= events);
        assert(events.filter(kept).take(n) =~= events.filter(kept));
        events.len() - 1
    }
}

/// A replay can be read in pages: the replay that follows the last event of a page holds exactly
/// the events behind the page, where no two events have the same id.
pub proof fn replay_goes_on(
    events: Seq<RuntimeEvent>,
    after: Option<Seq<char>>,
    kinds: Seq<RuntimeEventKindFilter>,
    limit: usize,
)
    requires
        forall|i: int, j: int|
            0 <= i < j < events.len() ==> (#[trigger] events[i]).event_id@ != (
            #[trigger] events[j]).event_id@,
        limit > 0,
        replayed(events, after, kinds).len() > 0,
    ensures
        ({
            let page = first_of(replayed(events, after, kinds), Some(limit));
            replayed(events, Some(page.last().event_id@), kinds) == replayed(
                events,
                after,
                kinds,
            ).skip(page.len() as int)
        }),
{
    let kept = |event: RuntimeEvent| is_selected(kinds, event);
    let start = replay_start(events, after);
    if after is Some {
        seqs::first_index_found(events, has_event_id(after->0));
    }
    let rest = events.skip(start);
    let all = rest.filter(kept);
    let page = first_of(all, Some(limit));
    let n = page.len() as int;
    assert(page =~= all.take(n));
    let k = nth_selected(rest, kept, n);
    let id = page.last().event_id@;
    assert(events[start + k] == page.last());
    assert forall|j: int| 0 <= j < start + k implies !has_event_id(id)(#[trigger] events[j]) by {
        assert(events[j].event_id@ != events[start + k].event_id@);
    }
    seqs::first_index_is(events, has_event_id(id), start + k);
    assert(events.skip(start + k + 1) =~= rest.skip(k + 1));
    assert(rest =~= rest.take(k + 1) + rest.skip(k + 1));
    Seq::filter_distributes_over_add(rest.take(k + 1), rest.skip(k + 1), kept);
    assert(all.skip(n) =~= rest.skip(k + 1).filter(kept));
}

} // verus!
