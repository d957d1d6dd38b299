//! What holds of every view of a thread.
use vstd::prelude::*;

use crate::config::ThinkingMode;
use crate::events::{RuntimeEvent, RuntimeEventKind};
use crate::projection;
use crate::projection::Progress;
use crate::protocol::{ThreadItemModel, ThreadStatus, TurnStateModel, TurnStatus, TurnViewModel};
use crate::replies;
use crate::seqs;
use crate::text;
use crate::thread_view;
use crate::state::{RuntimeOverlay, ThreadSnapshot};
use crate::types::{
    ConversationContentPartModel, ConversationMessageModel, MessageRole, ModelRefModel,
    ReasoningBlockModel, ResponseItemModel, UserInputModel,
};

verus! {

/// The ids of the turns, in order.
pub open spec fn ids_of(turns: Seq<TurnViewModel>) -> Seq<Seq<char>> {
    turns.map_values(|turn: TurnViewModel| turn.id)
}

proof fn with_turn_keeps_distinct(turns: Seq<TurnViewModel>, id: Seq<char>)
    requires
        ids_of(turns).no_duplicates(),
    ensures
        ids_of(projection::with_turn(turns, id)).no_duplicates(),
        0 <= projection::turn_index(projection::with_turn(turns, id), id)
            < projection::with_turn(turns, id).len(),
        projection::with_turn(turns, id)[projection::turn_index(
            projection::with_turn(turns, id),
            id,
        )].id == id,
        ids_of(turns).is_prefix_of(ids_of(projection::with_turn(turns, id))),
{
    let ensured = projection::with_turn(turns, id);
    seqs::first_index_found(turns, projection::has_id(id));
    seqs::first_index_found(ensured, projection::has_id(id));
    if projection::turn_index(turns, id) < turns.len() {
        assert(ids_of(turns) =~= ids_of(ensured));
    } else {
        assert(ids_of(ensured) =~= ids_of(turns).push(id));
        assert forall|i: int| 0 <= i < turns.len() implies #[trigger] ids_of(turns)[i] != id by {
            assert(!projection::has_id(id)(turns[i]));
        }
        let index = projection::turn_index(ensured, id);
        if index >= ensured.len() {
            assert(projection::has_id(id)(ensured[turns.len() as int]));
            assert(false);
        }
    }
}

proof fn with_status_keeps_distinct(turns: Seq<TurnViewModel>, id: Seq<char>, status: TurnStatus)
    requires
        ids_of(turns).no_duplicates(),
    ensures
        ids_of(projection::with_status(turns, id, status)).no_duplicates(),
        ids_of(turns).is_prefix_of(ids_of(projection::with_status(turns, id, status))),
{
    with_turn_keeps_distinct(turns, id);
    assert(ids_of(projection::with_status(turns, id, status)) =~= ids_of(
        projection::with_turn(turns, id),
    ));
}

proof fn with_items_keeps_distinct(
    turns: Seq<TurnViewModel>,
    id: Seq<char>,
    items: Seq<ThreadItemModel>,
)
    requires
        ids_of(turns).no_duplicates(),
    ensures
        ids_of(projection::with_items(turns, id, items)).no_duplicates(),
        ids_of(turns).is_prefix_of(ids_of(projection::with_items(turns, id, items))),
{
    with_turn_keeps_distinct(turns, id);
    assert(ids_of(projection::with_items(turns, id, items)) =~= ids_of(
        projection::with_turn(turns, id),
    ));
}

proof fn with_item_keeps_distinct(
    turns: Seq<TurnViewModel>,
    id: Seq<char>,
    item: Option<ThreadItemModel>,
)
    requires
        ids_of(turns).no_duplicates(),
    ensures
        ids_of(projection::with_item(turns, id, item)).no_duplicates(),
        ids_of(turns).is_prefix_of(ids_of(projection::with_item(turns, id, item))),
{
    match item {
        Some(item) => with_items_keeps_distinct(
            turns,
            id,
            projection::items_at(turns, id).push(item),
        ),
        None => with_turn_keeps_distinct(turns, id),
    }
}

proof fn prefix_chain<A>(a: Seq<A>, b: Seq<A>, c: Seq<A>)
    requires
        a.is_prefix_of(b),
        b.is_prefix_of(c),
    ensures
        a.is_prefix_of(c),
{
    assert(a =~= c.subrange(0, a.len() as int));
}

/// An event never removes a turn, moves one, or gives two turns the same id: the ids of the turns
/// before it are the first ids after it.
pub proof fn events_keep_turns(progress: Progress, event: RuntimeEvent)
    requires
        ids_of(progress.turns).no_duplicates(),
    ensures
        ids_of(projection::progress_after(progress, event).turns).no_duplicates(),
        ids_of(progress.turns).is_prefix_of(
            ids_of(projection::progress_after(progress, event).turns),
        ),
{
    let turns = progress.turns;
    let current = progress.current;
    let item = projection::item_of_event(event);
    let shown = projection::view_turn_of(event, current);
    let after = projection::progress_after(progress, event);
    assert(ids_of(turns).is_prefix_of(ids_of(turns)));
    match event.turn_id {
        Some(id) => {
            with_status_keeps_distinct(turns, id@, TurnStatus::InProgress);
            with_status_keeps_distinct(turns, id@, TurnStatus::Completed);
            with_status_keeps_distinct(turns, id@, TurnStatus::Interrupted);
        },
        None => {},
    }
    match shown {
        Some(id) => {
            with_item_keeps_distinct(turns, id, item);
            with_items_keeps_distinct(
                turns,
                id,
                projection::items_after_invocation(projection::items_at(turns, id), event.kind),
            );
            match event.kind {
                RuntimeEventKind::RuntimeError { .. } => {
                    let failed = projection::with_status(turns, id, TurnStatus::Failed);
                    with_status_keeps_distinct(turns, id, TurnStatus::Failed);
                    with_item_keeps_distinct(failed, id, item);
                    prefix_chain(ids_of(turns), ids_of(failed), ids_of(after.turns));
                },
                RuntimeEventKind::ApprovalDecision { approval_id, status, .. } => {
                    let items = projection::items_at(turns, id).map_values(
                        |item: ThreadItemModel|
                            projection::item_after_decision(item, approval_id@, status),
                    );
                    let told = projection::with_items(turns, id, items);
                    with_items_keeps_distinct(turns, id, items);
                    with_item_keeps_distinct(told, id, item);
                    prefix_chain(ids_of(turns), ids_of(told), ids_of(after.turns));
                },
                RuntimeEventKind::UserInputResolved { request_id, .. } => {
                    let items = projection::items_at(turns, id).map_values(
                        |item: ThreadItemModel|
                            projection::item_after_user_input(item, request_id@),
                    );
                    let told = projection::with_items(turns, id, items);
                    with_items_keeps_distinct(turns, id, items);
                    with_item_keeps_distinct(told, id, item);
                    prefix_chain(ids_of(turns), ids_of(told), ids_of(after.turns));
                },
                _ => {},
            }
        },
        None => {},
    }
    if event.kind is ThreadGoalReport {
        let id = projection::goal_report_turn_of(event, current);
        let placed = projection::with_status(turns, id, TurnStatus::Completed);
        with_status_keeps_distinct(turns, id, TurnStatus::Completed);
        with_item_keeps_distinct(placed, id, item);
        with_item_keeps_distinct(turns, id, item);
        prefix_chain(
            ids_of(turns),
            ids_of(placed),
            ids_of(projection::with_item(placed, id, item)),
        );
    }
}

/// No row of events leads to two turns with the same id.
pub proof fn event_turns_are_distinct(events: Seq<RuntimeEvent>)
    ensures
        ids_of(projection::progress_of(events).turns).no_duplicates(),
    decreases events.len(),
{
    if events.len() > 0 {
        event_turns_are_distinct(events.drop_last());
        events_keep_turns(projection::progress_of(events.drop_last()), events.last());
    } else {
        assert(ids_of(Seq::<TurnViewModel>::empty()) =~= Seq::empty());
    }
}

proof fn reply_turns_are_distinct(turns: Seq<TurnViewModel>, items: Seq<ResponseItemModel>)
    requires
        ids_of(turns).no_duplicates(),
    ensures
        ids_of(replies::with_reply_turns(turns, items)).no_duplicates(),
        ids_of(turns).is_prefix_of(ids_of(replies::with_reply_turns(turns, items))),
    decreases items.len(),
{
    if items.len() > 0 {
        reply_turns_are_distinct(turns, items.drop_last());
        let placed = replies::with_reply_turns(turns, items.drop_last());
        let id = items.last().turn_id;
        with_turn_keeps_distinct(placed, id);
        assert(ids_of(replies::with_reply_turn(placed, id)) =~= ids_of(
            projection::with_turn(placed, id),
        ));
        prefix_chain(
            ids_of(turns),
            ids_of(placed),
            ids_of(replies::with_reply_turns(turns, items)),
        );
    } else {
        assert(ids_of(turns).is_prefix_of(ids_of(turns)));
    }
}

/// The view of a thread never shows two turns with the same id, whatever was recorded and
/// whichever turn is active.
pub proof fn thread_view_turns_are_distinct(
    thread_id: Seq<char>,
    status: ThreadStatus,
    active_turn: Option<TurnStateModel>,
    model: Option<ModelRefModel>,
    thinking_mode: Option<ThinkingMode>,
    events: Seq<RuntimeEvent>,
    items: Seq<ResponseItemModel>,
)
    ensures
        ids_of(
            thread_view::thread_view_of(
                thread_id,
                status,
                active_turn,
                model,
                thinking_mode,
                events,
                items,
            ).turns,
        ).no_duplicates(),
{
    let shown = projection::progress_of(events).turns;
    let own = replies::own_items(items);
    event_turns_are_distinct(events);
    reply_turns_are_distinct(shown, own);
    let turns = thread_view::turns_of(events, items);
    assert(ids_of(turns) =~= ids_of(replies::with_reply_turns(shown, own)));
    match active_turn {
        Some(state) => with_status_keeps_distinct(turns, state.turn_id, state.status),
        None => {},
    }
}

proof fn filter_twice<A>(s: Seq<A>, p: spec_fn(A) -> bool)
    ensures
        s.filter(p).filter(p) == s.filter(p),
    decreases s.len(),
{
    reveal(Seq::filter);
    if s.len() > 0 {
        filter_twice(s.drop_last(), p);
        if p(s.last()) {
            assert(s.filter(p).drop_last() =~= s.drop_last().filter(p));
        }
    }
}

/// Messages that a forked thread took over from its parent are never shown: the view is the same
/// without them.
pub proof fn fork_context_is_not_shown(events: Seq<RuntimeEvent>, items: Seq<ResponseItemModel>)
    ensures
        thread_view::turns_of(events, items) == thread_view::turns_of(
            events,
            replies::own_items(items),
        ),
{
    filter_twice(
        items,
        |item: ResponseItemModel| item.turn_id != replies::FORK_CONTEXT_TURN_ID@,
    );
}

proof fn user_message_without(items: Seq<ResponseItemModel>, item: ResponseItemModel, id: Seq<char>)
    requires
        !replies::is_projectable(item.message),
    ensures
        replies::user_message_of(items.push(item), id) == replies::user_message_of(items, id),
        replies::assistant_messages_of(items.push(item), id) == replies::assistant_messages_of(
            items,
            id,
        ),
{
    reveal(Seq::filter);
    assert(items.push(item).drop_last() =~= items);
}

/// What the runtime puts into the conversation is never shown: one more injected message of a
/// turn that is there leaves the view as it is.
pub proof fn injected_messages_are_not_shown(
    turns: Seq<TurnViewModel>,
    items: Seq<ResponseItemModel>,
    item: ResponseItemModel,
)
    requires
        item.message.injected,
        projection::turn_index(
            replies::with_reply_turns(turns, replies::own_items(items)),
            item.turn_id,
        ) < replies::with_reply_turns(turns, replies::own_items(items)).len(),
    ensures
        replies::with_replies(turns, items.push(item)) == replies::with_replies(turns, items),
{
    reveal(Seq::filter);
    let own = replies::own_items(items);
    let longer = replies::own_items(items.push(item));
    assert(items.push(item).drop_last() =~= items);
    if item.turn_id != replies::FORK_CONTEXT_TURN_ID@ {
        assert(longer == own.push(item));
        assert(longer.drop_last() =~= own);
        let placed = replies::with_reply_turns(turns, own);
        assert(replies::with_reply_turns(turns, longer) == placed);
        assert forall|turn: TurnViewModel| #[trigger]
            replies::turn_with_replies(turn, longer) == replies::turn_with_replies(turn, own) by {
            user_message_without(own, item, turn.id);
        }
        assert(replies::with_replies(turns, items.push(item)) =~= replies::with_replies(
            turns,
            items,
        ));
    } else {
        assert(longer == own);
    }
}

proof fn displayed_reasoning(blocks: Seq<ReasoningBlockModel>, i: int) -> (k: int)
    requires
        0 <= i < blocks.filter(
            |block: ReasoningBlockModel| replies::is_displayable(block),
        ).len(),
    ensures
        0 <= k < blocks.len(),
        replies::is_displayable(blocks[k]),
        blocks[k] == blocks.filter(|block: ReasoningBlockModel| replies::is_displayable(block))[i],
    decreases blocks.len(),
{
    reveal(Seq::filter);
    let shown = |block: ReasoningBlockModel| replies::is_displayable(block);
    let rest = blocks.drop_last();
    if i < rest.filter(shown).len() {
        displayed_reasoning(rest, i)
    } else {
        blocks.len() - 1
    }
}

/// Redacted reasoning is never shown: every text that is shown is that of a block that is not
/// redacted, and none is empty.
pub proof fn redacted_reasoning_is_not_shown(message: ConversationMessageModel, i: int)
    requires
        0 <= i < replies::reasoning_of(message).len(),
    ensures
        replies::reasoning_of(message)[i].len() > 0,
        exists|k: int|
            0 <= k < message.reasoning.len() && !(#[trigger] message.reasoning[k]).redacted
                && replies::reasoning_of(message)[i] == text::trim_of(message.reasoning[k].text),
{
    let k = displayed_reasoning(message.reasoning, i);
    assert(!message.reasoning[k].redacted);
}

/// The item of a model answer shows its text and nothing else of it: answers with the same text
/// have the same item, whatever they reasoned and whichever tools they called.
pub proof fn answers_show_only_their_text(left: RuntimeEvent, right: RuntimeEvent)
    requires
        left.event_id@ == right.event_id@,
        left.kind is AssistantTurn,
        right.kind is AssistantTurn,
        left.kind->AssistantTurn_turn.text.deep_view()
            == right.kind->AssistantTurn_turn.text.deep_view(),
    ensures
        projection::item_of_event(left) == projection::item_of_event(right),
{
}

/// After the last event of a turn that tells where it stands, the thread is at that turn.
pub proof fn last_event_decides(events: Seq<RuntimeEvent>, event: RuntimeEvent)
    requires
        event.turn_id is Some,
        projection::turn_status_after(event.kind) is Some,
    ensures
        projection::latest_turn_state_of(events.push(event)) == Some(
            TurnStateModel {
                turn_id: event.turn_id->0@,
                status: projection::turn_status_after(event.kind)->0,
            },
        ),
{
    assert(events.push(event).last() == event);
}

proof fn inserting_keeps(items: Seq<ThreadItemModel>, at: int, added: ThreadItemModel)
    requires
        0 <= at <= items.len(),
    ensures
        forall|k: int|
            0 <= k < items.len() ==> items.insert(at, added).contains(#[trigger] items[k]),
        items.insert(at, added).contains(added),
{
    let longer = items.insert(at, added);
    assert(longer[at] == added);
    assert forall|k: int| 0 <= k < items.len() implies longer.contains(#[trigger] items[k]) by {
        if k < at {
            assert(longer[k] == items[k]);
        } else {
            assert(longer[k + 1] == items[k]);
        }
    }
}

proof fn place_is_inside(items: Seq<ThreadItemModel>, message: ConversationMessageModel)
    ensures
        0 <= replies::place_of(items, message) <= items.len(),
{
    seqs::first_index_found(items, |item: ThreadItemModel| replies::is_tool_item(item));
}

/// Whether everything in `few` is in `many`.
spec fn holds_all(few: Seq<ThreadItemModel>, many: Seq<ThreadItemModel>) -> bool {
    forall|k: int| 0 <= k < few.len() ==> many.contains(#[trigger] few[k])
}

proof fn holds_all_chain(
    few: Seq<ThreadItemModel>,
    more: Seq<ThreadItemModel>,
    most: Seq<ThreadItemModel>,
)
    requires
        holds_all(few, more),
        holds_all(more, most),
    ensures
        holds_all(few, most),
{
    assert forall|k: int| 0 <= k < few.len() implies most.contains(#[trigger] few[k]) by {
        assert(more.contains(few[k]));
        let m = choose|m: int| 0 <= m < more.len() && more[m] == few[k];
        assert(most.contains(more[m]));
    }
}

proof fn one_answer_keeps_items(items: Seq<ThreadItemModel>, message: ConversationMessageModel)
    ensures
        holds_all(
            items,
            replies::with_assistant_message(replies::with_reasoning(items, message), message),
        ),
        holds_all(items, replies::with_reasoning(items, message)),
        holds_all(
            replies::with_reasoning(items, message),
            replies::with_assistant_message(replies::with_reasoning(items, message), message),
        ),
        replies::reasoning_of(message).len() > 0 ==> replies::has_reasoning(
            replies::with_reasoning(items, message),
            replies::reasoning_of(message),
        ),
        replies::has_assistant_message(
            replies::with_assistant_message(replies::with_reasoning(items, message), message),
            message.content,
        ),
{
    let content = replies::reasoning_of(message);
    let thought = replies::with_reasoning(items, message);
    let answered = replies::with_assistant_message(thought, message);
    let reasoning = ThreadItemModel::Reasoning { event_id: None, summary: Seq::empty(), content };
    let answer = ThreadItemModel::AssistantMessage { event_id: None, text: Some(message.content) };
    place_is_inside(items, message);
    inserting_keeps(items, replies::place_of(items, message), reasoning);
    place_is_inside(thought, message);
    inserting_keeps(thought, replies::place_of(thought, message), answer);
    if thought == items.insert(replies::place_of(items, message), reasoning) {
        assert(thought[replies::place_of(items, message)] == reasoning);
        assert(replies::is_reasoning(thought[replies::place_of(items, message)], content));
    }
    if !replies::has_assistant_message(thought, message.content) {
        assert(replies::is_assistant_message(
            answered[replies::place_of(thought, message)],
            message.content,
        ));
    }
    holds_all_chain(items, thought, answered);
}

proof fn answers_keep_items(
    items: Seq<ThreadItemModel>,
    messages: Seq<ConversationMessageModel>,
)
    ensures
        holds_all(items, replies::with_assistant_messages(items, messages)),
    decreases messages.len(),
{
    if messages.len() > 0 {
        let before = replies::with_assistant_messages(items, messages.drop_last());
        answers_keep_items(items, messages.drop_last());
        one_answer_keeps_items(before, messages.last());
        holds_all_chain(items, before, replies::with_assistant_messages(items, messages));
    }
}

/// Showing the conversation takes nothing away: every item that a turn had, it still has.
pub proof fn conversation_keeps_items(
    turn: TurnViewModel,
    items: Seq<ResponseItemModel>,
    k: int,
)
    requires
        0 <= k < turn.items.len(),
    ensures
        replies::turn_with_replies(turn, items).items.contains(turn.items[k]),
{
    let user = replies::user_message_of(items, turn.id);
    let assistants = replies::assistant_messages_of(items, turn.id);
    match user {
        Some(message) => {
            let asked = replies::with_user_message(turn.items, message);
            inserting_keeps(
                turn.items,
                0,
                ThreadItemModel::UserMessage {
                    text: message.content,
                    input: replies::user_input_of(message),
                },
            );
            answers_keep_items(asked, assistants);
            holds_all_chain(
                turn.items,
                asked,
                replies::with_assistant_messages(asked, assistants),
            );
        },
        None => answers_keep_items(turn.items, assistants),
    }
}

/// Whether the reasoning and the text of a message are shown.
spec fn is_answered(items: Seq<ThreadItemModel>, message: ConversationMessageModel) -> bool {
    &&& replies::reasoning_of(message).len() > 0 ==> replies::has_reasoning(
        items,
        replies::reasoning_of(message),
    )
    &&& replies::has_assistant_message(items, message.content)
}

proof fn answered_stays(
    items: Seq<ThreadItemModel>,
    more: Seq<ThreadItemModel>,
    message: ConversationMessageModel,
)
    requires
        is_answered(items, message),
        holds_all(items, more),
    ensures
        is_answered(more, message),
{
    let content = replies::reasoning_of(message);
    if content.len() > 0 {
        let k = choose|k: int|
            0 <= k < items.len() && replies::is_reasoning(#[trigger] items[k], content);
        assert(more.contains(items[k]));
        let m = choose|m: int| 0 <= m < more.len() && more[m] == items[k];
        assert(replies::is_reasoning(more[m], content));
    }
    let k = choose|k: int|
        0 <= k < items.len() && replies::is_assistant_message(
            #[trigger] items[k],
            message.content,
        );
    assert(more.contains(items[k]));
    let m = choose|m: int| 0 <= m < more.len() && more[m] == items[k];
    assert(replies::is_assistant_message(more[m], message.content));
}

proof fn answers_are_shown(
    items: Seq<ThreadItemModel>,
    messages: Seq<ConversationMessageModel>,
    i: int,
)
    requires
        0 <= i < messages.len(),
    ensures
        is_answered(replies::with_assistant_messages(items, messages), messages[i]),
    decreases messages.len(),
{
    let message = messages.last();
    let before = replies::with_assistant_messages(items, messages.drop_last());
    let thought = replies::with_reasoning(before, message);
    let after = replies::with_assistant_messages(items, messages);
    one_answer_keeps_items(before, message);
    if i == messages.len() - 1 {
        let content = replies::reasoning_of(message);
        if content.len() > 0 {
            let k = choose|k: int|
                0 <= k < thought.len() && replies::is_reasoning(#[trigger] thought[k], content);
            assert(after.contains(thought[k]));
            let m = choose|m: int| 0 <= m < after.len() && after[m] == thought[k];
            assert(replies::is_reasoning(after[m], content));
        }
    } else {
        answers_are_shown(items, messages.drop_last(), i);
        answered_stays(before, after, messages[i]);
    }
}

proof fn shown_answers_change_nothing(
    items: Seq<ThreadItemModel>,
    messages: Seq<ConversationMessageModel>,
)
    requires
        forall|i: int| 0 <= i < messages.len() ==> is_answered(items, #[trigger] messages[i]),
    ensures
        replies::with_assistant_messages(items, messages) == items,
    decreases messages.len(),
{
    if messages.len() > 0 {
        let rest = messages.drop_last();
        assert forall|i: int| 0 <= i < rest.len() implies is_answered(
            items,
            #[trigger] rest[i],
        ) by {
            assert(rest[i] == messages[i]);
        }
        shown_answers_change_nothing(items, rest);
        assert(is_answered(items, messages[messages.len() - 1]));
    }
}

proof fn turn_shows_once(turn: TurnViewModel, items: Seq<ResponseItemModel>)
    ensures
        replies::turn_with_replies(replies::turn_with_replies(turn, items), items)
            == replies::turn_with_replies(turn, items),
{
    let once = replies::turn_with_replies(turn, items);
    let assistants = replies::assistant_messages_of(items, turn.id);
    let asked = match replies::user_message_of(items, turn.id) {
        Some(message) => replies::with_user_message(turn.items, message),
        None => turn.items,
    };
    assert(once.items == replies::with_assistant_messages(asked, assistants));
    answers_keep_items(asked, assistants);
    match replies::user_message_of(items, turn.id) {
        Some(message) => {
            if !replies::has_user_message(turn.items, message.content) {
                assert(replies::is_user_message(asked[0], message.content));
            }
            assert(replies::has_user_message(asked, message.content));
            let k = choose|k: int|
                0 <= k < asked.len() && replies::is_user_message(
                    #[trigger] asked[k],
                    message.content,
                );
            assert(once.items.contains(asked[k]));
            let m = choose|m: int| 0 <= m < once.items.len() && once.items[m] == asked[k];
            assert(replies::is_user_message(once.items[m], message.content));
        },
        None => {},
    }
    assert forall|i: int| 0 <= i < assistants.len() implies is_answered(
        once.items,
        #[trigger] assistants[i],
    ) by {
        answers_are_shown(asked, assistants, i);
    }
    shown_answers_change_nothing(once.items, assistants);
}

proof fn reply_turn_is_there(turns: Seq<TurnViewModel>, items: Seq<ResponseItemModel>, i: int)
    requires
        0 <= i < items.len(),
    ensures
        ids_of(replies::with_reply_turns(turns, items)).contains(items[i].turn_id),
    decreases items.len(),
{
    let before = replies::with_reply_turns(turns, items.drop_last());
    let after = replies::with_reply_turns(turns, items);
    seqs::first_index_found(before, projection::has_id(items.last().turn_id));
    if i < items.len() - 1 {
        reply_turn_is_there(turns, items.drop_last(), i);
        let k = choose|k: int|
            0 <= k < ids_of(before).len() && ids_of(before)[k] == items[i].turn_id;
        assert(after[k] == before[k]);
        assert(ids_of(after)[k] == items[i].turn_id);
    } else {
        let id = items.last().turn_id;
        let index = projection::turn_index(before, id);
        assert(ids_of(after)[index] == id);
    }
}

proof fn present_turns_stay(turns: Seq<TurnViewModel>, items: Seq<ResponseItemModel>)
    requires
        forall|i: int| 0 <= i < items.len() ==> ids_of(turns).contains(
            (#[trigger] items[i]).turn_id,
        ),
    ensures
        replies::with_reply_turns(turns, items) == turns,
    decreases items.len(),
{
    if items.len() > 0 {
        let rest = items.drop_last();
        assert forall|i: int| 0 <= i < rest.len() implies ids_of(turns).contains(
            (#[trigger] rest[i]).turn_id,
        ) by {
            assert(rest[i] == items[i]);
        }
        present_turns_stay(turns, rest);
        let id = items[items.len() - 1].turn_id;
        let k = choose|k: int| 0 <= k < ids_of(turns).len() && ids_of(turns)[k] == id;
        seqs::first_index_found(turns, projection::has_id(id));
        assert(projection::has_id(id)(turns[k]));
    }
}

/// Showing the conversation a second time changes nothing: what is shown already is not shown
/// again.
pub proof fn conversation_is_shown_once(
    turns: Seq<TurnViewModel>,
    items: Seq<ResponseItemModel>,
)
    ensures
        replies::with_replies(replies::with_replies(turns, items), items)
            == replies::with_replies(turns, items),
{
    let own = replies::own_items(items);
    let placed = replies::with_reply_turns(turns, own);
    let once = replies::with_replies(turns, items);
    assert(ids_of(once) =~= ids_of(placed));
    assert forall|i: int| 0 <= i < own.len() implies ids_of(once).contains(
        (#[trigger] own[i]).turn_id,
    ) by {
        reply_turn_is_there(turns, own, i);
    }
    present_turns_stay(once, own);
    assert forall|k: int| 0 <= k < once.len() implies replies::turn_with_replies(
        #[trigger] once[k],
        own,
    ) == once[k] by {
        turn_shows_once(placed[k], own);
    }
    assert(replies::with_replies(once, items) =~= once);
}

/// Whether a message has something to show: text, images of the user, or thoughts and calls of the
/// model.
pub open spec fn says_something(message: ConversationMessageModel) -> bool {
    ||| text::trim_of(message.content).len() > 0
    ||| message.role is User && exists|i: int|
        0 <= i < message.parts.len() && !((#[trigger] message.parts[i]) is Text)
    ||| message.role is Assistant && message.reasoning.len() + message.tool_calls.len() > 0
}

/// A message has a place in the view exactly where it has something to show and the runtime did
/// not put it in.
pub proof fn messages_that_say_something_are_shown(message: ConversationMessageModel)
    ensures
        replies::is_projectable(message) <==> says_something(message) && !message.injected,
{
    if message.role is User && replies::shows_image(message.parts) {
        let i = choose|i: int|
            0 <= i < message.parts.len() && crate::types::part_is_image(
                #[trigger] message.parts[i],
            );
        assert(!(message.parts[i] is Text));
    }
    if exists|i: int| 0 <= i < message.parts.len() && !((#[trigger] message.parts[i]) is Text) {
        let i = choose|i: int|
            0 <= i < message.parts.len() && !((#[trigger] message.parts[i]) is Text);
        assert(crate::types::part_is_image(message.parts[i]));
    }
}

/// Whether a message belongs to a thread and its view, as what this role said.
pub open spec fn belongs(item: ResponseItemModel, role: MessageRole) -> bool {
    &&& item.turn_id != "fork_context"@
    &&& !item.message.injected
    &&& says_something(item.message)
    &&& item.message.role == role
}

/// What the model says is shown in the turn that it was said in.
pub proof fn answers_are_shown_in_their_turn(
    turns: Seq<TurnViewModel>,
    items: Seq<ResponseItemModel>,
    i: int,
) -> (place: (int, int))
    requires
        0 <= i < items.len(),
        belongs(items[i], MessageRole::Assistant),
    ensures
        ({
            let view = replies::with_replies(turns, items);
            &&& 0 <= place.0 < view.len()
            &&& view[place.0].id == items[i].turn_id
            &&& 0 <= place.1 < view[place.0].items.len()
            &&& view[place.0].items[place.1] matches ThreadItemModel::AssistantMessage {
                text: Some(shown),
                ..
            } && shown == items[i].message.content
        }),
{
    let own = replies::own_items(items);
    let keeps = |item: ResponseItemModel| item.turn_id != replies::FORK_CONTEXT_TURN_ID@;
    items.lemma_filter_contains(keeps, i);
    let id = items[i].turn_id;
    let message = items[i].message;
    messages_that_say_something_are_shown(message);
    assert(own.contains(items[i]));
    let k = own.index_of(items[i]);
    let placed = replies::with_reply_turns(turns, own);
    let view = replies::with_replies(turns, items);
    reply_turn_is_there(turns, own, k);
    let t = choose|t: int| 0 <= t < ids_of(placed).len() && ids_of(placed)[t] == id;
    let said = |item: ResponseItemModel| replies::is_shown(item, id, MessageRole::Assistant);
    own.lemma_filter_contains(said, k);
    let kept = own.filter(said);
    let m = kept.index_of(own[k]);
    let messages = replies::assistant_messages_of(own, id);
    assert(messages[m] == message);
    let asked = match replies::user_message_of(own, id) {
        Some(message) => replies::with_user_message(placed[t].items, message),
        None => placed[t].items,
    };
    answers_are_shown(asked, messages, m);
    let shown = view[t].items;
    assert(shown == replies::with_assistant_messages(asked, messages));
    let j = choose|j: int|
        0 <= j < shown.len() && replies::is_assistant_message(#[trigger] shown[j], message.content);
    (t, j)
}

proof fn first_item_stays(items: Seq<ThreadItemModel>, messages: Seq<ConversationMessageModel>)
    requires
        items.len() > 0,
        items[0] is UserMessage,
    ensures
        replies::with_assistant_messages(items, messages).len() > 0,
        replies::with_assistant_messages(items, messages)[0] == items[0],
    decreases messages.len(),
{
    if messages.len() > 0 {
        first_item_stays(items, messages.drop_last());
        let before = replies::with_assistant_messages(items, messages.drop_last());
        let message = messages.last();
        let thought = replies::with_reasoning(before, message);
        let test = |item: ThreadItemModel| replies::is_tool_item(item);
        seqs::first_index_found(before, test);
        assert(!test(before[0]));
        place_is_inside(before, message);
        assert(replies::place_of(before, message) > 0);
        assert(thought[0] == before[0]);
        seqs::first_index_found(thought, test);
        assert(!test(thought[0]));
        place_is_inside(thought, message);
    }
}

/// The last message of the user in a turn is shown there. Where no message with its text was shown
/// before, it stands in front of everything else in the turn.
pub proof fn questions_are_shown_in_their_turn(
    turns: Seq<TurnViewModel>,
    items: Seq<ResponseItemModel>,
    i: int,
) -> (place: (int, int))
    requires
        0 <= i < items.len(),
        belongs(items[i], MessageRole::User),
        forall|j: int|
            i < j < items.len() && (#[trigger] items[j]).turn_id == items[i].turn_id ==> !belongs(
                items[j],
                MessageRole::User,
            ),
    ensures
        ({
            let view = replies::with_replies(turns, items);
            &&& 0 <= place.0 < view.len()
            &&& view[place.0].id == items[i].turn_id
            &&& 0 <= place.1 < view[place.0].items.len()
            &&& view[place.0].items[place.1] matches ThreadItemModel::UserMessage {
                text: shown,
                ..
            } && shown == items[i].message.content
            &&& place.1 == 0 || (place.0 < turns.len() && exists|k: int|
                0 <= k < turns[place.0].items.len() && #[trigger] turns[place.0].items[k]
                    is UserMessage)
        }),
{
    let own = replies::own_items(items);
    let keeps = |item: ResponseItemModel| item.turn_id != replies::FORK_CONTEXT_TURN_ID@;
    let id = items[i].turn_id;
    let message = items[i].message;
    messages_that_say_something_are_shown(message);
    last_question(items, i);
    items.lemma_filter_contains(keeps, i);
    let k = own.index_of(items[i]);
    let placed = replies::with_reply_turns(turns, own);
    let view = replies::with_replies(turns, items);
    reply_turn_is_there(turns, own, k);
    let t = choose|t: int| 0 <= t < ids_of(placed).len() && ids_of(placed)[t] == id;
    let messages = replies::assistant_messages_of(own, id);
    let asked = replies::with_user_message(placed[t].items, message);
    let shown = view[t].items;
    assert(shown == replies::with_assistant_messages(asked, messages));
    if replies::has_user_message(placed[t].items, message.content) {
        answers_keep_items(asked, messages);
        let a = choose|a: int|
            0 <= a < asked.len() && replies::is_user_message(#[trigger] asked[a], message.content);
        assert(shown.contains(asked[a]));
        let b = shown.index_of(asked[a]);
        reply_turns_start_empty(turns, own, t);
        assert(placed[t].items[a] is UserMessage);
        assert(t < turns.len());
        assert(turns[t].items[a] is UserMessage);
        (t, b)
    } else {
        first_item_stays(asked, messages);
        (t, 0)
    }
}

/// Turns that were shown stay in their place, with their items and their status; turns that only
/// the conversation knows of are complete.
proof fn reply_turns_start_empty(
    turns: Seq<TurnViewModel>,
    items: Seq<ResponseItemModel>,
    t: int,
)
    requires
        0 <= t < replies::with_reply_turns(turns, items).len(),
    ensures
        turns.len() <= replies::with_reply_turns(turns, items).len(),
        t < turns.len() ==> replies::with_reply_turns(turns, items)[t] == turns[t],
        t >= turns.len() ==> {
            &&& replies::with_reply_turns(turns, items)[t].items.len() == 0
            &&& replies::with_reply_turns(turns, items)[t].status == TurnStatus::Completed
        },
    decreases items.len(),
{
    if items.len() > 0 {
        let before = replies::with_reply_turns(turns, items.drop_last());
        if t < before.len() {
            reply_turns_start_empty(turns, items.drop_last(), t);
        } else if before.len() > 0 {
            reply_turns_start_empty(turns, items.drop_last(), before.len() - 1);
        } else {
            reply_turns_keep_count(turns, items.drop_last());
        }
    }
}

proof fn reply_turns_keep_count(turns: Seq<TurnViewModel>, items: Seq<ResponseItemModel>)
    ensures
        turns.len() <= replies::with_reply_turns(turns, items).len(),
    decreases items.len(),
{
    if items.len() > 0 {
        reply_turns_keep_count(turns, items.drop_last());
    }
}

/// The conversation changes neither the order of the turns nor where they stand: turns that were
/// shown keep their place, their id and their status, and turns that only the conversation knows
/// of follow them and are complete.
pub proof fn conversation_changes_no_status(
    turns: Seq<TurnViewModel>,
    items: Seq<ResponseItemModel>,
    t: int,
)
    requires
        0 <= t < replies::with_replies(turns, items).len(),
    ensures
        turns.len() <= replies::with_replies(turns, items).len(),
        t < turns.len() ==> {
            &&& replies::with_replies(turns, items)[t].id == turns[t].id
            &&& replies::with_replies(turns, items)[t].status == turns[t].status
        },
        t >= turns.len() ==> replies::with_replies(turns, items)[t].status
            == TurnStatus::Completed,
{
    reply_turns_start_empty(turns, replies::own_items(items), t);
}

proof fn last_question(items: Seq<ResponseItemModel>, i: int)
    requires
        0 <= i < items.len(),
        belongs(items[i], MessageRole::User),
        forall|j: int|
            i < j < items.len() && (#[trigger] items[j]).turn_id == items[i].turn_id ==> !belongs(
                items[j],
                MessageRole::User,
            ),
    ensures
        replies::user_message_of(replies::own_items(items), items[i].turn_id) == Some(
            items[i].message,
        ),
    decreases items.len(),
{
    reveal(Seq::filter);
    let keeps = |item: ResponseItemModel| item.turn_id != replies::FORK_CONTEXT_TURN_ID@;
    let id = items[i].turn_id;
    let rest = items.drop_last();
    let own = replies::own_items(items);
    let last = items.last();
    messages_that_say_something_are_shown(last.message);
    if i == items.len() - 1 {
        assert(own.last() == last);
    } else {
        assert forall|j: int|
            i < j < rest.len() && (#[trigger] rest[j]).turn_id == rest[i].turn_id implies !belongs(
            rest[j],
            MessageRole::User,
        ) by {
            assert(rest[j] == items[j]);
        }
        last_question(rest, i);
        assert(items[items.len() - 1] == last);
        if keeps(last) {
            assert(own.drop_last() =~= replies::own_items(rest));
            assert(own.last() == last);
        }
    }
}

/// An answer that calls tools is shown before everything that tools did in its turn; any other is
/// shown at the end. Nothing else moves.
pub proof fn answers_precede_their_tools(
    items: Seq<ThreadItemModel>,
    message: ConversationMessageModel,
) -> (p: int)
    requires
        forall|k: int|
            0 <= k < items.len() ==> !(#[trigger] items[k] matches ThreadItemModel::AssistantMessage {
                text: Some(shown),
                ..
            } && shown == message.content),
    ensures
        ({
            let after = replies::with_assistant_message(items, message);
            &&& 0 <= p < after.len()
            &&& after[p] == (ThreadItemModel::AssistantMessage {
                event_id: None,
                text: Some(message.content),
            })
            &&& after.remove(p) == items
            &&& message.tool_calls.len() == 0 ==> p == items.len()
            &&& message.tool_calls.len() > 0 ==> {
                &&& forall|j: int|
                    0 <= j < p ==> !((#[trigger] after[j]) is ToolInvocation
                        || after[j] is ToolResult || after[j] is ExecOutput)
                &&& p + 1 < after.len() ==> after[p + 1] is ToolInvocation || after[p + 1]
                    is ToolResult || after[p + 1] is ExecOutput
            }
        }),
{
    assert forall|k: int| 0 <= k < items.len() implies !replies::is_assistant_message(
        #[trigger] items[k],
        message.content,
    ) by {}
    place_is_inside(items, message);
    let test = |item: ThreadItemModel| replies::is_tool_item(item);
    seqs::first_index_found(items, test);
    let p = replies::place_of(items, message);
    let after = replies::with_assistant_message(items, message);
    assert(after.remove(p) =~= items);
    assert forall|j: int| 0 <= j < p && message.tool_calls.len() > 0 implies !((
    #[trigger] after[j]) is ToolInvocation || after[j] is ToolResult || after[j] is ExecOutput) by {
        assert(after[j] == items[j]);
        assert(!test(items[j]));
    }
    if message.tool_calls.len() > 0 && p < items.len() {
        assert(after[p + 1] == items[p]);
        assert(test(items[p]));
    }
    p
}

/// The thoughts of the model are shown one by one, in their order, but for those that are redacted
/// or blank.
pub proof fn thoughts_are_shown_in_order(
    message: ConversationMessageModel,
    block: ReasoningBlockModel,
)
    ensures
        ({
            let more = ConversationMessageModel {
                reasoning: message.reasoning.push(block),
                ..message
            };
            replies::reasoning_of(more) == if block.redacted || text::trim_of(block.text).len()
                == 0 {
                replies::reasoning_of(message)
            } else {
                replies::reasoning_of(message).push(text::trim_of(block.text))
            }
        }),
        message.reasoning.len() == 0 ==> replies::reasoning_of(message).len() == 0,
{
    reveal(Seq::filter);
    let more = message.reasoning.push(block);
    assert(more.drop_last() =~= message.reasoning);
    let shown = |block: ReasoningBlockModel| replies::is_displayable(block);
    let kept = message.reasoning.filter(shown);
    assert(kept.push(block).map_values(|block: ReasoningBlockModel| text::trim_of(block.text))
        =~= kept.map_values(|block: ReasoningBlockModel| text::trim_of(block.text)).push(
        text::trim_of(block.text),
    ));
}

/// The pieces of a message are shown one for one, where one of them is an image; text alone is
/// shown as text.
pub proof fn pieces_are_shown_one_for_one(message: ConversationMessageModel, i: int)
    requires
        0 <= i < message.parts.len(),
    ensures
        ({
            let input = replies::user_input_of(message);
            &&& (message.parts[i] is LocalImage || message.parts[i] is ImageUrl) ==> input.len()
                == message.parts.len()
            &&& input.len() == message.parts.len() || input.len() == 0
            &&& input.len() > 0 ==> match message.parts[i] {
                ConversationContentPartModel::Text { text } => input[i]
                    == UserInputModel::Text { text },
                ConversationContentPartModel::LocalImage { path, detail } => input[i]
                    == (UserInputModel::LocalImage { path, detail }),
                ConversationContentPartModel::ImageUrl { url, detail } => input[i]
                    == (UserInputModel::ImageUrl { url, detail }),
            }
            &&& (forall|k: int| 0 <= k < message.parts.len() ==> (#[trigger] message.parts[k])
                is Text) ==> input.len() == 0
        }),
{
    if message.parts[i] is LocalImage || message.parts[i] is ImageUrl {
        assert(crate::types::part_is_image(message.parts[i]));
    }
}

/// The view of a thread shows what it is given of it. Its active turn is one of its turns, and
/// stands where it is said to stand; without an active turn, every turn stands where its events
/// leave it.
pub proof fn views_show_the_active_turn(
    thread_id: Seq<char>,
    status: ThreadStatus,
    active_turn: Option<TurnStateModel>,
    model: Option<ModelRefModel>,
    thinking_mode: Option<ThinkingMode>,
    events: Seq<RuntimeEvent>,
    items: Seq<ResponseItemModel>,
)
    ensures
        ({
            let view = thread_view::thread_view_of(
                thread_id,
                status,
                active_turn,
                model,
                thinking_mode,
                events,
                items,
            );
            let turns = replies::with_replies(projection::progress_of(events).turns, items);
            &&& view.id == thread_id
            &&& view.status == status
            &&& view.model == model
            &&& view.thinking_mode == thinking_mode
            &&& view.goal is None
            &&& match active_turn {
                Some(state) => {
                    &&& view.active_turn matches Some(turn)
                    &&& turn.id == state.turn_id
                    &&& turn.status == state.status
                    &&& view.turns.contains(turn)
                    &&& forall|k: int|
                        0 <= k < turns.len() ==> {
                            &&& (#[trigger] view.turns[k]).id == turns[k].id
                            &&& view.turns[k].items == turns[k].items
                            &&& view.turns[k].id != state.turn_id ==> view.turns[k] == turns[k]
                        }
                },
                None => view.active_turn is None && view.turns == turns,
            }
        }),
{
    if let Some(state) = active_turn {
        let turns = thread_view::turns_of(events, items);
        event_turns_are_distinct(events);
        let ensured = projection::with_turn(turns, state.turn_id);
        let test = projection::has_id(state.turn_id);
        seqs::first_index_found(turns, test);
        seqs::first_index_found(ensured, test);
        if projection::turn_index(turns, state.turn_id) >= turns.len() {
            assert(test(ensured[turns.len() as int]));
            if projection::turn_index(ensured, state.turn_id) >= ensured.len() {
                assert(!test(ensured[turns.len() as int]));
            }
        }
        let i = projection::turn_index(ensured, state.turn_id);
        let shown = projection::with_status(turns, state.turn_id, state.status);
        assert(shown[i] == thread_view::turn_at(turns, state.turn_id, state.status));
        assert(shown.contains(shown[i]));
    }
}

/// Where a thread stands: it runs exactly while a turn is active; it waits where none is and
/// something waits for the user; it has failed only where its last turn did.
pub proof fn threads_stand_where_their_turns_do(
    active: bool,
    waiting: bool,
    latest: Option<TurnStateModel>,
)
    ensures
        thread_view::thread_status_of(active, waiting, latest) is Running <==> active,
        thread_view::thread_status_of(active, waiting, latest) is WaitingApproval <==> waiting
            && !active,
        thread_view::thread_status_of(active, waiting, latest) is Failed <==> !active && !waiting
            && latest is Some && latest->0.status is Failed,
        thread_view::thread_status_of(active, waiting, latest) is Idle <==> !active && !waiting
            && !(latest is Some && latest->0.status is Failed),
{
}

/// A thread that is read waits for the user exactly where an approval or a question is open and no
/// turn is active, and shows the model and the thinking mode of its last turn.
pub proof fn threads_that_are_read_show_what_is_open(
    active_turn: Option<TurnStateModel>,
    thread_id: Seq<char>,
    snapshot: ThreadSnapshot,
    response_items: Seq<ResponseItemModel>,
    overlay: RuntimeOverlay,
    events: Seq<RuntimeEvent>,
)
    ensures
        ({
            let view = thread_view::read_view_of(
                active_turn,
                thread_id,
                snapshot,
                response_items,
                overlay,
                events,
            );
            let open = overlay.pending_approvals@.len() + overlay.pending_user_inputs@.len() > 0;
            &&& view.id == thread_id
            &&& view.status is Running <==> active_turn is Some
            &&& view.status is WaitingApproval <==> active_turn is None && open
            &&& view.model == match snapshot.reference_turn_context {
                Some(context) => Some(context.model.deep_view()),
                None => None,
            }
            &&& view.thinking_mode == match snapshot.reference_turn_context {
                Some(context) => context.thinking_mode,
                None => None,
            }
            &&& events.len() == 0 && active_turn is None && !open ==> view.status is Idle
        }),
{
}

} // verus!
