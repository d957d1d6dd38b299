//! Reading a thread: its turns, and where it stands.
use vstd::prelude::*;

use crate::config::ThinkingMode;
use crate::data::Duplicate;
use crate::events::RuntimeEvent;
use crate::ids::ThreadId;
use crate::projection;
use crate::protocol::{
    ThreadGoalMode, ThreadReadResponse, ThreadStatus, ThreadView, ThreadViewModel, TurnState,
    TurnStateModel, TurnStatus, TurnViewModel,
};
use crate::replies;
use crate::seqs;
use crate::state::{RuntimeOverlay, ThreadSnapshot};
use crate::types::{ModelRef, ModelRefModel, ResponseItem, ResponseItemModel};

verus! {

/// The turns of a thread, made from its events and its conversation.
pub open spec fn turns_of(
    events: Seq<RuntimeEvent>,
    items: Seq<ResponseItemModel>,
) -> Seq<TurnViewModel> {
    replies::with_replies(projection::progress_of(events).turns, items)
}

/// The turn of this id, there or new, at `status`.
pub open spec fn turn_at(
    turns: Seq<TurnViewModel>,
    id: Seq<char>,
    status: TurnStatus,
) -> TurnViewModel {
    let ensured = projection::with_turn(turns, id);
    TurnViewModel { status, ..ensured[projection::turn_index(ensured, id)] }
}

/// The view of a thread.
pub open spec fn thread_view_of(
    thread_id: Seq<char>,
    status: ThreadStatus,
    active_turn: Option<TurnStateModel>,
    model: Option<ModelRefModel>,
    thinking_mode: Option<ThinkingMode>,
    events: Seq<RuntimeEvent>,
    items: Seq<ResponseItemModel>,
) -> ThreadViewModel {
    let turns = turns_of(events, items);
    ThreadViewModel {
        id: thread_id,
        status,
        active_turn: match active_turn {
            Some(state) => Some(turn_at(turns, state.turn_id, state.status)),
            None => None,
        },
        turns: match active_turn {
            Some(state) => projection::with_status(turns, state.turn_id, state.status),
            None => turns,
        },
        model,
        thinking_mode,
        goal: None,
        goal_mode: ThreadGoalMode::Standard,
    }
}

/// The view of a thread, with the model and the thinking mode that were last chosen.
pub fn build_thread_view_with_selection(
    thread_id: ThreadId,
    status: ThreadStatus,
    active_turn: Option<TurnState>,
    model: Option<ModelRef>,
    thinking_mode: Option<ThinkingMode>,
    events: Vec<RuntimeEvent>,
    response_items: &[ResponseItem],
) -> (res: ThreadView)
    ensures
        res.deep_view() == thread_view_of(
            thread_id@,
            status,
            active_turn.deep_view(),
            model.deep_view(),
            thinking_mode.deep_view(),
            events@,
            response_items.deep_view(),
        ),
{
    let mut turns = projection::build_turn_views(events);
    replies::insert_response_items(&mut turns, response_items);
    let active_turn = match active_turn {
        Some(state) => {
            let index: usize = projection::ensure_turn_view(&mut turns, &state.turn_id);
            let ghost before = turns;
            turns[index].status = state.status;
            proof {
                seqs::deep_view_update(before, turns, index as int);
            }
            Some(turns[index].duplicate())
        },
        None => None,
    };
    ThreadView {
        id: thread_id,
        status,
        active_turn,
        turns,
        model,
        thinking_mode,
        goal: None,
        goal_mode: ThreadGoalMode::Standard,
    }
}

/// The view of a thread for which no model was chosen.
pub fn build_thread_view(
    thread_id: ThreadId,
    status: ThreadStatus,
    active_turn: Option<TurnState>,
    events: Vec<RuntimeEvent>,
    response_items: &[ResponseItem],
) -> (res: ThreadView)
    ensures
        res.deep_view() == thread_view_of(
            thread_id@,
            status,
            active_turn.deep_view(),
            None,
            None,
            events@,
            response_items.deep_view(),
        ),
{
    build_thread_view_with_selection(
        thread_id,
        status,
        active_turn,
        None,
        None,
        events,
        response_items,
    )
}

/// Where a thread stands: running while it has an active turn, else waiting while something waits
/// for the user, else failed where its last turn failed, else idle.
pub open spec fn thread_status_of(
    active: bool,
    waiting: bool,
    latest: Option<TurnStateModel>,
) -> ThreadStatus {
    if active {
        ThreadStatus::Running
    } else if waiting {
        ThreadStatus::WaitingApproval
    } else if latest matches Some(state) && state.status == TurnStatus::Failed {
        ThreadStatus::Failed
    } else {
        ThreadStatus::Idle
    }
}

/// The view of a thread, from what is known of it and from what is open in it.
pub open spec fn read_view_of(
    active_turn: Option<TurnStateModel>,
    thread_id: Seq<char>,
    snapshot: ThreadSnapshot,
    response_items: Seq<ResponseItemModel>,
    overlay: RuntimeOverlay,
    events: Seq<RuntimeEvent>,
) -> ThreadViewModel {
    thread_view_of(
        thread_id,
        thread_status_of(
            active_turn is Some,
            overlay.pending_approvals@.len() > 0 || overlay.pending_user_inputs@.len() > 0,
            projection::latest_turn_state_of(events),
        ),
        active_turn,
        match snapshot.reference_turn_context {
            Some(context) => Some(context.model.deep_view()),
            None => None,
        },
        match snapshot.reference_turn_context {
            Some(context) => context.thinking_mode,
            None => None,
        },
        events,
        response_items,
    )
}

/// Reads a thread from what is known of it and from what is open in it.
pub fn thread_read_from_state_view(
    active_turn: Option<TurnState>,
    thread_id: ThreadId,
    snapshot: ThreadSnapshot,
    response_items: Vec<ResponseItem>,
    overlay: RuntimeOverlay,
    events: Vec<RuntimeEvent>,
) -> (res: ThreadReadResponse)
    ensures
        res.thread.deep_view() == read_view_of(
            active_turn.deep_view(),
            thread_id@,
            snapshot,
            response_items.deep_view(),
            overlay,
            events@,
        ),
{
    let latest_turn = projection::latest_turn_state(&events);
    let failed = match &latest_turn {
        Some(turn) => turn.status == TurnStatus::Failed,
        None => false,
    };
    let status = if active_turn.is_some() {
        ThreadStatus::Running
    } else if overlay.has_pending_approval() || overlay.has_pending_user_input() {
        ThreadStatus::WaitingApproval
    } else if failed {
        ThreadStatus::Failed
    } else {
        ThreadStatus::Idle
    };
    let (model, thinking_mode) = match &snapshot.reference_turn_context {
        Some(context) => (Some(context.model.duplicate()), context.thinking_mode),
        None => (None, None),
    };
    ThreadReadResponse {
        thread: build_thread_view_with_selection(
            thread_id,
            status,
            active_turn,
            model,
            thinking_mode,
            events,
            response_items.as_slice(),
        ),
    }
}

} // verus!
