//! The conversation of a thread in the view of its turns.
use vstd::prelude::*;

use crate::data::{append, insert, Alike};
use crate::projection;
use crate::protocol::{ThreadItem, ThreadItemModel, TurnStatus, TurnView, TurnViewModel};
use crate::seqs;
use crate::text;
use crate::types;
use crate::types::{
    ConversationContentPart, ConversationContentPartModel, ConversationMessage,
    ConversationMessageModel, MessageRole, ReasoningBlockModel, ResponseItem, ResponseItemModel,
    UserInput, UserInputModel,
};

verus! {

/// The turn that the messages of a forked thread's parent are kept under.
pub const FORK_CONTEXT_TURN_ID: &'static str = "fork_context";

/// Whether one of the parts is an image.
pub open spec fn shows_image(parts: Seq<ConversationContentPartModel>) -> bool {
    exists|i: int| 0 <= i < parts.len() && types::part_is_image(#[trigger] parts[i])
}

/// Whether a message has a place in the view: it was not put in by the runtime, and it has
/// something to show.
pub open spec fn is_projectable(message: ConversationMessageModel) -> bool {
    &&& !message.injected
    &&& {
        ||| text::trim_of(message.content).len() > 0
        ||| message.role == MessageRole::User && shows_image(message.parts)
        ||| message.role == MessageRole::Assistant && (message.reasoning.len() > 0
            || message.tool_calls.len() > 0)
    }
}

fn has_image(parts: &Vec<ConversationContentPart>) -> (res: bool)
    ensures
        res == shows_image(parts.deep_view()),
{
    for i in 0..parts.len()
        invariant
            forall|j: int|
                0 <= j < i ==> !types::part_is_image(#[trigger] parts.deep_view()[j]),
    {
        assert(parts.deep_view()[i as int] == parts@[i as int].deep_view());
        if parts[i].is_image() {
            return true;
        }
    }
    false
}

/// Whether a message has a place in the view.
pub fn is_projectable_message(message: &ConversationMessage) -> (res: bool)
    ensures
        res == is_projectable(message.deep_view()),
{
    if message.injected {
        return false;
    }
    if !text::trim(message.content.as_str()).is_empty() {
        return true;
    }
    if matches!(message.role, MessageRole::User) && has_image(&message.parts) {
        return true;
    }
    matches!(message.role, MessageRole::Assistant) && (!message.reasoning.is_empty()
        || !message.tool_calls.is_empty())
}

/// The pieces of a user message that shows an image; nothing where text is all there is.
pub open spec fn user_input_of(message: ConversationMessageModel) -> Seq<UserInputModel> {
    if shows_image(message.parts) {
        message.parts.map_values(|part: ConversationContentPartModel| types::input_of_part(part))
    } else {
        Seq::empty()
    }
}

/// The pieces of a user message that shows an image.
pub fn projected_user_input(message: &ConversationMessage) -> (res: Vec<UserInput>)
    ensures
        res.deep_view() == user_input_of(message.deep_view()),
{
    let mut res: Vec<UserInput> = Vec::new();
    if !has_image(&message.parts) {
        proof {
            assert(res.deep_view() =~= Seq::empty());
        }
        return res;
    }
    let ghost parts = message.parts.deep_view();
    for i in 0..message.parts.len()
        invariant
            parts == message.parts.deep_view(),
            res.deep_view() =~= parts.take(i as int).map_values(
                |part: ConversationContentPartModel| types::input_of_part(part),
            ),
    {
        proof {
            assert(parts[i as int] == message.parts@[i as int].deep_view());
        }
        match &message.parts[i] {
            ConversationContentPart::Text { text } => append(
                &mut res,
                UserInput::Text { text: text.clone() },
            ),
            ConversationContentPart::LocalImage { path, detail } => append(
                &mut res,
                UserInput::LocalImage { path: path.clone(), detail: *detail },
            ),
            ConversationContentPart::ImageUrl { url, detail } => append(
                &mut res,
                UserInput::ImageUrl { url: url.clone(), detail: *detail },
            ),
        }
    }
    proof {
        assert(parts.take(parts.len() as int) =~= parts);
    }
    res
}

/// Whether a reasoning block may be shown and has something to show.
pub open spec fn is_displayable(block: ReasoningBlockModel) -> bool {
    !block.redacted && text::trim_of(block.text).len() > 0
}

/// The reasoning of a message that may be shown, without white space around it.
pub open spec fn reasoning_of(message: ConversationMessageModel) -> Seq<Seq<char>> {
    message.reasoning.filter(|block: ReasoningBlockModel| is_displayable(block)).map_values(
        |block: ReasoningBlockModel| text::trim_of(block.text),
    )
}

/// The reasoning of a message that may be shown.
pub fn displayable_reasoning_content(message: &ConversationMessage) -> (res: Vec<String>)
    ensures
        res.deep_view() == reasoning_of(message.deep_view()),
{
    let mut res: Vec<String> = Vec::new();
    let ghost blocks = message.reasoning.deep_view();
    let ghost shown = |block: ReasoningBlockModel| is_displayable(block);
    let ghost trimmed = |block: ReasoningBlockModel| text::trim_of(block.text);
    proof {
        reveal(Seq::filter);
    }
    for i in 0..message.reasoning.len()
        invariant
            blocks == message.reasoning.deep_view(),
            shown == (|block: ReasoningBlockModel| is_displayable(block)),
            trimmed == (|block: ReasoningBlockModel| text::trim_of(block.text)),
            res.deep_view() =~= blocks.take(i as int).filter(shown).map_values(trimmed),
    {
        let ghost seen = blocks.take(i + 1);
        proof {
            reveal(Seq::filter);
            assert(seen.drop_last() =~= blocks.take(i as int));
            assert(seen.last() == message.reasoning@[i as int].deep_view());
        }
        let block = &message.reasoning[i];
        if !block.redacted {
            let text = text::trim(block.text.as_str());
            if !text.is_empty() {
                append(&mut res, text.to_owned());
            }
        }
    }
    proof {
        assert(blocks.take(blocks.len() as int) =~= blocks);
    }
    res
}

/// Whether an item is the user message with this text.
pub open spec fn is_user_message(item: ThreadItemModel, text: Seq<char>) -> bool {
    item matches ThreadItemModel::UserMessage { text: shown, .. } && shown == text
}

/// Whether an item shows exactly this reasoning.
pub open spec fn is_reasoning(item: ThreadItemModel, content: Seq<Seq<char>>) -> bool {
    item matches ThreadItemModel::Reasoning { content: shown, .. } && shown == content
}

/// Whether an item is the assistant message with this text.
pub open spec fn is_assistant_message(item: ThreadItemModel, text: Seq<char>) -> bool {
    item matches ThreadItemModel::AssistantMessage { text: Some(shown), .. } && shown == text
}

/// Whether an item shows the work of a tool.
pub open spec fn is_tool_item(item: ThreadItemModel) -> bool {
    item is ToolInvocation || item is ToolResult || item is ExecOutput
}

/// Whether `items` holds the user message with this text.
pub open spec fn has_user_message(items: Seq<ThreadItemModel>, text: Seq<char>) -> bool {
    exists|i: int| 0 <= i < items.len() && is_user_message(#[trigger] items[i], text)
}

/// Whether `items` shows exactly this reasoning.
pub open spec fn has_reasoning(items: Seq<ThreadItemModel>, content: Seq<Seq<char>>) -> bool {
    exists|i: int| 0 <= i < items.len() && is_reasoning(#[trigger] items[i], content)
}

/// Whether `items` holds the assistant message with this text.
pub open spec fn has_assistant_message(items: Seq<ThreadItemModel>, text: Seq<char>) -> bool {
    exists|i: int| 0 <= i < items.len() && is_assistant_message(#[trigger] items[i], text)
}

/// Where the first work of a tool is shown; the end where there is none.
pub open spec fn first_tool_item(items: Seq<ThreadItemModel>) -> int {
    seqs::first_index(items, |item: ThreadItemModel| is_tool_item(item))
}

fn user_message_exists(turn: &TurnView, text: &String) -> (res: bool)
    ensures
        res == has_user_message(turn.items.deep_view(), text@),
{
    for i in 0..turn.items.len()
        invariant
            forall|j: int|
                0 <= j < i ==> !is_user_message(#[trigger] turn.items.deep_view()[j], text@),
    {
        assert(turn.items.deep_view()[i as int] == turn.items@[i as int].deep_view());
        if let ThreadItem::UserMessage { text: existing, .. } = &turn.items[i] {
            if *existing == *text {
                return true;
            }
        }
    }
    false
}

/// Whether the turn already shows exactly this reasoning.
pub fn reasoning_item_exists(turn: &TurnView, content: &Vec<String>) -> (res: bool)
    ensures
        res == has_reasoning(turn.items.deep_view(), content.deep_view()),
{
    for i in 0..turn.items.len()
        invariant
            forall|j: int|
                0 <= j < i ==> !is_reasoning(
                    #[trigger] turn.items.deep_view()[j],
                    content.deep_view(),
                ),
    {
        assert(turn.items.deep_view()[i as int] == turn.items@[i as int].deep_view());
        if let ThreadItem::Reasoning { content: existing, .. } = &turn.items[i] {
            if existing.alike(content) {
                return true;
            }
        }
    }
    false
}

/// Whether the turn already shows the assistant message with this text.
pub fn assistant_message_exists(turn: &TurnView, text: &String) -> (res: bool)
    ensures
        res == has_assistant_message(turn.items.deep_view(), text@),
{
    for i in 0..turn.items.len()
        invariant
            forall|j: int|
                0 <= j < i ==> !is_assistant_message(#[trigger] turn.items.deep_view()[j], text@),
    {
        assert(turn.items.deep_view()[i as int] == turn.items@[i as int].deep_view());
        if let ThreadItem::AssistantMessage { text: Some(existing), .. } = &turn.items[i] {
            if *existing == *text {
                return true;
            }
        }
    }
    false
}

/// Where the first work of a tool is shown in the turn.
pub fn first_tool_item_index(turn: &TurnView) -> (res: Option<usize>)
    ensures
        match res {
            Some(index) => index < turn.items@.len() && index == first_tool_item(
                turn.items.deep_view(),
            ),
            None => first_tool_item(turn.items.deep_view()) == turn.items@.len(),
        },
{
    let ghost shown = |item: ThreadItemModel| is_tool_item(item);
    for i in 0..turn.items.len()
        invariant
            shown == (|item: ThreadItemModel| is_tool_item(item)),
            forall|j: int| 0 <= j < i ==> !shown(#[trigger] turn.items.deep_view()[j]),
    {
        assert(turn.items.deep_view()[i as int] == turn.items@[i as int].deep_view());
        if matches!(
            &turn.items[i],
            ThreadItem::ToolInvocation { .. } | ThreadItem::ToolResult { .. }
            | ThreadItem::ExecOutput { .. }
        ) {
            proof {
                seqs::first_index_is(turn.items.deep_view(), shown, i as int);
            }
            return Some(i);
        }
    }
    proof {
        seqs::first_index_is(turn.items.deep_view(), shown, turn.items@.len() as int);
    }
    None
}

/// Where a message of the assistant goes: before the work of the tools that it calls, or at the
/// end where it calls none or none is shown.
pub open spec fn place_of(
    items: Seq<ThreadItemModel>,
    message: ConversationMessageModel,
) -> int {
    if message.tool_calls.len() == 0 {
        items.len() as int
    } else {
        first_tool_item(items)
    }
}

fn place(turn: &TurnView, message: &ConversationMessage) -> (res: usize)
    ensures
        res == place_of(turn.items.deep_view(), message.deep_view()),
        res <= turn.items@.len(),
{
    if message.tool_calls.is_empty() {
        turn.items.len()
    } else {
        match first_tool_item_index(turn) {
            Some(index) => index,
            None => turn.items.len(),
        }
    }
}

/// `items` with a user message in front, unless one with its text is there.
pub open spec fn with_user_message(
    items: Seq<ThreadItemModel>,
    message: ConversationMessageModel,
) -> Seq<ThreadItemModel> {
    if has_user_message(items, message.content) {
        items
    } else {
        items.insert(
            0,
            ThreadItemModel::UserMessage { text: message.content, input: user_input_of(message) },
        )
    }
}

/// `items` with the reasoning of an assistant message, unless it is there or has nothing to show.
pub open spec fn with_reasoning(
    items: Seq<ThreadItemModel>,
    message: ConversationMessageModel,
) -> Seq<ThreadItemModel> {
    let content = reasoning_of(message);
    if content.len() == 0 || has_reasoning(items, content) {
        items
    } else {
        items.insert(
            place_of(items, message),
            ThreadItemModel::Reasoning { event_id: None, summary: Seq::empty(), content },
        )
    }
}

/// `items` with an assistant message, unless one with its text is there.
pub open spec fn with_assistant_message(
    items: Seq<ThreadItemModel>,
    message: ConversationMessageModel,
) -> Seq<ThreadItemModel> {
    if has_assistant_message(items, message.content) {
        items
    } else {
        items.insert(
            place_of(items, message),
            ThreadItemModel::AssistantMessage { event_id: None, text: Some(message.content) },
        )
    }
}

/// `items` with the reasoning and the text of each assistant message, one after the other.
pub open spec fn with_assistant_messages(
    items: Seq<ThreadItemModel>,
    messages: Seq<ConversationMessageModel>,
) -> Seq<ThreadItemModel>
    decreases messages.len(),
{
    if messages.len() == 0 {
        items
    } else {
        let message = messages.last();
        with_assistant_message(
            with_reasoning(with_assistant_messages(items, messages.drop_last()), message),
            message,
        )
    }
}

/// The messages of one turn that the view shows.
pub struct ProjectedTurnMessages<'a> {
    pub user: Option<&'a ConversationMessage>,
    pub assistants: Vec<&'a ConversationMessage>,
}

/// The items of a turn with its user message, if there is one, and its assistant messages.
pub open spec fn with_messages(
    items: Seq<ThreadItemModel>,
    user: Option<ConversationMessageModel>,
    assistants: Seq<ConversationMessageModel>,
) -> Seq<ThreadItemModel> {
    with_assistant_messages(
        match user {
            Some(message) => with_user_message(items, message),
            None => items,
        },
        assistants,
    )
}

/// Shows the messages of a turn among its items.
pub fn insert_projected_turn_messages<'a>(
    turn: &mut TurnView,
    projected: ProjectedTurnMessages<'a>,
)
    ensures
        final(turn).deep_view() == (TurnViewModel {
            items: with_messages(
                old(turn).items.deep_view(),
                projected.user.deep_view(),
                projected.assistants.deep_view(),
            ),
            ..old(turn).deep_view()
        }),
{
    if let Some(user) = projected.user {
        if !user_message_exists(turn, &user.content) {
            let input = projected_user_input(user);
            insert(
                &mut turn.items,
                0,
                ThreadItem::UserMessage { text: user.content.clone(), input },
            );
        }
    }
    let ghost shown = turn.items.deep_view();
    let ghost messages = projected.assistants.deep_view();
    for i in 0..projected.assistants.len()
        invariant
            messages == projected.assistants.deep_view(),
            turn.id == old(turn).id,
            turn.status == old(turn).status,
            turn.items.deep_view() == with_assistant_messages(shown, messages.take(i as int)),
    {
        let assistant = projected.assistants[i];
        proof {
            assert(messages.take(i + 1).drop_last() =~= messages.take(i as int));
            assert(messages.take(i + 1).last() == assistant.deep_view());
        }
        let content = displayable_reasoning_content(assistant);
        assert(content.deep_view().len() == content@.len());
        if !content.is_empty() && !reasoning_item_exists(turn, &content) {
            let at: usize = place(turn, assistant);
            let item = ThreadItem::Reasoning { event_id: None, summary: Vec::new(), content };
            assert(item.deep_view()->Reasoning_summary =~= Seq::empty());
            insert(&mut turn.items, at, item);
        }
        if !assistant_message_exists(turn, &assistant.content) {
            let at: usize = place(turn, assistant);
            insert(
                &mut turn.items,
                at,
                ThreadItem::AssistantMessage {
                    event_id: None,
                    text: Some(assistant.content.clone()),
                },
            );
        }
    }
    proof {
        assert(messages.take(messages.len() as int) =~= messages);
    }
}

/// The messages that are not context from the parent of a forked thread.
pub open spec fn own_items(items: Seq<ResponseItemModel>) -> Seq<ResponseItemModel> {
    items.filter(|item: ResponseItemModel| item.turn_id != FORK_CONTEXT_TURN_ID@)
}

/// `turns` with a turn of this id: the one that is there, or a completed one at the end.
pub open spec fn with_reply_turn(turns: Seq<TurnViewModel>, id: Seq<char>) -> Seq<TurnViewModel> {
    if projection::turn_index(turns, id) < turns.len() {
        turns
    } else {
        turns.push(TurnViewModel { id, status: TurnStatus::Completed, items: Seq::empty() })
    }
}

/// `turns` with a turn for each message.
pub open spec fn with_reply_turns(
    turns: Seq<TurnViewModel>,
    items: Seq<ResponseItemModel>,
) -> Seq<TurnViewModel>
    decreases items.len(),
{
    if items.len() == 0 {
        turns
    } else {
        with_reply_turn(with_reply_turns(turns, items.drop_last()), items.last().turn_id)
    }
}

/// Whether a message is shown in the turn of this id as what this role said.
pub open spec fn is_shown(item: ResponseItemModel, id: Seq<char>, role: MessageRole) -> bool {
    item.turn_id == id && is_projectable(item.message) && item.message.role == role
}

/// The last message of the user in the turn of this id.
pub open spec fn user_message_of(items: Seq<ResponseItemModel>, id: Seq<char>) -> Option<
    ConversationMessageModel,
>
    decreases items.len(),
{
    if items.len() == 0 {
        None
    } else if is_shown(items.last(), id, MessageRole::User) {
        Some(items.last().message)
    } else {
        user_message_of(items.drop_last(), id)
    }
}

/// The messages of the assistant in the turn of this id.
pub open spec fn assistant_messages_of(items: Seq<ResponseItemModel>, id: Seq<char>) -> Seq<
    ConversationMessageModel,
> {
    items.filter(|item: ResponseItemModel| is_shown(item, id, MessageRole::Assistant)).map_values(
        |item: ResponseItemModel| item.message,
    )
}

/// A turn with its messages among its items.
pub open spec fn turn_with_replies(
    turn: TurnViewModel,
    items: Seq<ResponseItemModel>,
) -> TurnViewModel {
    TurnViewModel {
        items: with_messages(
            turn.items,
            user_message_of(items, turn.id),
            assistant_messages_of(items, turn.id),
        ),
        ..turn
    }
}

/// `turns` with the conversation of the thread: a turn for each message that is its own, and each
/// turn with its messages.
pub open spec fn with_replies(
    turns: Seq<TurnViewModel>,
    items: Seq<ResponseItemModel>,
) -> Seq<TurnViewModel> {
    with_reply_turns(turns, own_items(items)).map_values(
        |turn: TurnViewModel| turn_with_replies(turn, own_items(items)),
    )
}

fn own<'a>(items: &'a [ResponseItem]) -> (res: Vec<&'a ResponseItem>)
    ensures
        res.deep_view() == own_items(items.deep_view()),
{
    let mut res: Vec<&'a ResponseItem> = Vec::new();
    let ghost all = items.deep_view();
    let ghost kept = |item: ResponseItemModel| item.turn_id != FORK_CONTEXT_TURN_ID@;
    proof {
        reveal(Seq::filter);
    }
    for i in 0..items.len()
        invariant
            all == items.deep_view(),
            kept == (|item: ResponseItemModel| item.turn_id != FORK_CONTEXT_TURN_ID@),
            res.deep_view() =~= all.take(i as int).filter(kept),
    {
        proof {
            reveal(Seq::filter);
            assert(all.take(i + 1).drop_last() =~= all.take(i as int));
            assert(all.take(i + 1).last() == items@[i as int].deep_view());
        }
        if !text::same(items[i].turn_id.as_str(), FORK_CONTEXT_TURN_ID) {
            append(&mut res, &items[i]);
        }
    }
    proof {
        assert(all.take(all.len() as int) =~= all);
    }
    res
}

fn messages_of_turn<'a>(items: &Vec<&'a ResponseItem>, turn: &TurnView) -> (res:
    ProjectedTurnMessages<'a>)
    ensures
        res.user.deep_view() == user_message_of(items.deep_view(), turn.id@),
        res.assistants.deep_view() == assistant_messages_of(items.deep_view(), turn.id@),
{
    let mut user: Option<&'a ConversationMessage> = None;
    let mut assistants: Vec<&'a ConversationMessage> = Vec::new();
    let ghost all = items.deep_view();
    let ghost said = |item: ResponseItemModel| is_shown(item, turn.id@, MessageRole::Assistant);
    let ghost message = |item: ResponseItemModel| item.message;
    proof {
        reveal(Seq::filter);
    }
    for i in 0..items.len()
        invariant
            all == items.deep_view(),
            said == (|item: ResponseItemModel|
                is_shown(item, turn.id@, MessageRole::Assistant)),
            message == (|item: ResponseItemModel| item.message),
            user.deep_view() == user_message_of(all.take(i as int), turn.id@),
            assistants.deep_view() =~= all.take(i as int).filter(said).map_values(message),
    {
        let item = items[i];
        proof {
            reveal(Seq::filter);
            assert(all.take(i + 1).drop_last() =~= all.take(i as int));
            assert(all.take(i + 1).last() == item.deep_view());
        }
        if item.turn_id.alike(&turn.id) && is_projectable_message(&item.message) {
            match item.message.role {
                MessageRole::User => {
                    user = Some(&item.message);
                },
                MessageRole::Assistant => append(&mut assistants, &item.message),
                MessageRole::System | MessageRole::Tool => {},
            }
        }
    }
    proof {
        assert(all.take(all.len() as int) =~= all);
    }
    ProjectedTurnMessages { user, assistants }
}

/// Shows the conversation of the thread in its turns. Every message names the turn that it
/// belongs to.
pub fn insert_response_items(turns: &mut Vec<TurnView>, response_items: &[ResponseItem])
    ensures
        final(turns).deep_view() == with_replies(
            old(turns).deep_view(),
            response_items.deep_view(),
        ),
{
    let items = own(response_items);
    let ghost all = items.deep_view();
    assert(all.take(0) =~= Seq::empty());
    for i in 0..items.len()
        invariant
            all == items.deep_view(),
            turns.deep_view() == with_reply_turns(old(turns).deep_view(), all.take(i as int)),
    {
        let turn_id = &items[i].turn_id;
        proof {
            assert(all.take(i + 1).drop_last() =~= all.take(i as int));
            assert(all.take(i + 1).last() == items@[i as int].deep_view());
        }
        let ghost before = *turns;
        let count: usize = turns.len();
        let index: usize = projection::ensure_turn_view(turns, turn_id);
        if turns.len() > count {
            let ghost ensured = *turns;
            turns[index].status = TurnStatus::Completed;
            proof {
                let placed = before.deep_view();
                seqs::deep_view_update(ensured, *turns, index as int);
                seqs::first_index_found(placed, projection::has_id(turn_id@));
                assert(index == count) by {
                    let added = ensured.deep_view();
                    assert forall|j: int| 0 <= j < count implies !projection::has_id(turn_id@)(
                        #[trigger] added[j],
                    ) by {
                        assert(added[j] == placed[j]);
                    }
                    seqs::first_index_is(added, projection::has_id(turn_id@), count as int);
                }
                assert(turns.deep_view() =~= with_reply_turn(placed, turn_id@));
            }
        }
    }
    assert(all.take(all.len() as int) =~= all);
    let ghost placed = turns.deep_view();
    let count: usize = turns.len();
    for i in 0..count
        invariant
            all == items.deep_view(),
            count == turns@.len(),
            placed.len() == count,
            forall|j: int|
                0 <= j < i ==> (#[trigger] turns@[j]).deep_view() == turn_with_replies(
                    placed[j],
                    all,
                ),
            forall|j: int| i <= j < count ==> (#[trigger] turns@[j]).deep_view() == placed[j],
    {
        let projected = messages_of_turn(&items, &turns[i]);
        insert_projected_turn_messages(&mut turns[i], projected);
    }
    proof {
        assert(turns.deep_view() =~= placed.map_values(
            |turn: TurnViewModel| turn_with_replies(turn, all),
        ));
    }
}

} // verus!
