//! What messages, answers and values hold: what the user wrote, what an error says, and what is
//! found in a value.
use vstd::prelude::*;

use crate::api;
use crate::api::ApiFailure;
use crate::boundary;
use crate::config::PermissionProfile;
use crate::desktop;
use crate::desktop::ThreadRecord;
use crate::error::AppServerError;
use crate::json;
use crate::mcp_runtime;
use crate::paths;
use crate::protocol::{BoundaryCapability, InitializeResponse};
use crate::replay;
use crate::seqs;
use crate::state::{RuntimeOverlay, ThreadSnapshot};
use crate::text;
use crate::threads::ThreadForkEdge;
use crate::tool_laws;
use crate::types;
use crate::types::{ConversationContentPartModel, MessageRole, UserInputModel};

verus! {

/// What a user gives becomes a part of the message and is shown as it was given: a text as a text,
/// an image as an image of the same kind, with the same words and the same detail.
pub proof fn parts_are_shown_as_given(
    input: UserInputModel,
    part: ConversationContentPartModel,
)
    ensures
        types::input_of_part(types::part_of_input(input)) == input,
        types::part_of_input(types::input_of_part(part)) == part,
        types::part_of_input(input) is Text <==> input is Text,
        types::part_of_input(input) is LocalImage <==> input is LocalImage,
        types::part_of_input(input) is ImageUrl <==> input is ImageUrl,
        types::part_is_image(part) <==> part is LocalImage || part is ImageUrl,
        input matches UserInputModel::Text { text } ==> types::part_of_input(input)->Text_text
            == text,
        input matches UserInputModel::LocalImage { path, detail } ==> {
            &&& types::part_of_input(input)->LocalImage_path == path
            &&& types::part_of_input(input)->LocalImage_detail == detail
        },
        input matches UserInputModel::ImageUrl { url, detail } ==> {
            &&& types::part_of_input(input)->ImageUrl_url == url
            &&& types::part_of_input(input)->ImageUrl_detail == detail
        },
{
}

/// The texts of what a user gives are taken in order. Images have none.
pub proof fn texts_are_taken_in_order(input: Seq<UserInputModel>, next: UserInputModel)
    ensures
        types::input_texts(Seq::empty()).len() == 0,
        next is Text ==> types::input_texts(input.push(next)) == types::input_texts(input).push(
            next->Text_text,
        ),
        next !is Text ==> types::input_texts(input.push(next)) == types::input_texts(input),
{
    assert(input.push(next).drop_last() =~= input);
    assert(input.push(next).last() == next);
}

/// A plain message has its role and its words, and nothing else.
pub proof fn plain_messages_hold_words(role: MessageRole, content: Seq<char>)
    ensures
        ({
            let message = types::plain_message(role, content);
            &&& message.role == role
            &&& message.content == content
            &&& message.parts.len() == 0
            &&& message.reasoning.len() == 0
            &&& message.tool_calls.len() == 0
            &&& !message.injected
        }),
        types::text_or_empty(Some(content)) == content,
        types::text_or_empty(None).len() == 0,
{
}

/// Whether words tell of something: they begin with these, and end with the rest.
pub open spec fn tells(words: Seq<char>, start: Seq<char>, rest: Seq<char>) -> bool {
    words.len() == start.len() + rest.len() && words.take(start.len() as int) == start && words.skip(
        start.len() as int,
    ) == rest
}

proof fn start_and_rest(start: Seq<char>, rest: Seq<char>)
    ensures
        tells(start + rest, start, rest),
{
    assert((start + rest).take(start.len() as int) =~= start);
    assert((start + rest).skip(start.len() as int) =~= rest);
}

/// The words of an error tell what kind it is, and end with the thread, the reason or the turn.
pub proof fn errors_say_what_they_are(error: AppServerError)
    ensures
        match error {
            AppServerError::InvalidRequest(reason) => tells(
                error.words(),
                "invalid request: "@,
                reason@,
            ),
            AppServerError::ThreadNotFound(id) => tells(error.words(), "thread not found: "@, id@),
            AppServerError::ThreadBusy(id) => tells(error.words(), "thread is busy: "@, id@),
            AppServerError::TurnRejected { thread_id, reason } => tells(
                error.words(),
                "turn rejected for thread "@ + thread_id@ + ": "@,
                reason@,
            ),
            AppServerError::TurnInterrupted { thread_id, turn_id } => tells(
                error.words(),
                "turn interrupted for thread "@ + thread_id@ + ": "@,
                turn_id@,
            ),
        },
{
    match error {
        AppServerError::InvalidRequest(reason) => start_and_rest("invalid request: "@, reason@),
        AppServerError::ThreadNotFound(id) => start_and_rest("thread not found: "@, id@),
        AppServerError::ThreadBusy(id) => start_and_rest("thread is busy: "@, id@),
        AppServerError::TurnRejected { thread_id, reason } => start_and_rest(
            "turn rejected for thread "@ + thread_id@ + ": "@,
            reason@,
        ),
        AppServerError::TurnInterrupted { thread_id, turn_id } => start_and_rest(
            "turn interrupted for thread "@ + thread_id@ + ": "@,
            turn_id@,
        ),
    }
}

/// A failure is answered as the client's where the request is wrong or names no thread, as a
/// conflict where the thread does not take it, and as the server's only where its cause is not told.
pub proof fn failures_are_answered_by_cause(failure: ApiFailure)
    ensures
        ({
            let status = api::status_of(failure);
            &&& status == 500 <==> failure is Internal
            &&& status == 404 <==> failure is Server && failure->Server_0 is ThreadNotFound
            &&& status == 400 <==> failure is Server && failure->Server_0 is InvalidRequest
            &&& status == 400 || status == 404 || status == 409 || status == 500
        }),
{
}

/// A project is named after the last step to its directory. A directory without one, such as the
/// root or the one that a program is started in, gives the name of the server.
pub proof fn projects_are_named_after_their_directory(root: Seq<char>)
    ensures
        ({
            let parts = paths::parts_of(root);
            let name = api::project_name_of(root);
            let plain = parts.len() > 0 && parts.last() != "/"@ && parts.last() != "."@
                && parts.last() != ".."@ && parts.last().len() > 0;
            &&& plain ==> name == parts.last()
            &&& !plain ==> name == "Headless API"@
            &&& name.len() > 0
        }),
{
    reveal_strlit("Headless API");
}

/// What is offered: a server of this version takes the stream of events apart from the requests, and
/// one profile.
pub proof fn offers_are_complete(offer: InitializeResponse)
    requires
        boundary::is_offer(offer),
    ensures
        offer.supported_ops@.no_duplicates(),
        !offer.supported_ops@.contains(BoundaryCapability::EventsSubscribe),
        offer.supported_streams@.contains(BoundaryCapability::EventsSubscribe),
        offer.supported_streams@.len() == 1,
        forall|profile: PermissionProfile|
            offer.supported_permission_profiles@.contains(profile) <==> #[trigger] profile.supported(),
{
    assert(offer.supported_streams@[0] == BoundaryCapability::EventsSubscribe);
    let profiles = offer.supported_permission_profiles@;
    assert(profiles[0] == PermissionProfile::FullAccess);
    assert forall|profile: PermissionProfile|
        profiles.contains(profile) <==> #[trigger] profile.supported() by {
        if profiles.contains(profile) {
            let i = choose|i: int| 0 <= i < profiles.len() && profiles[i] == profile;
            assert(i == 0);
        }
    }
}

/// A value that goes by a name is the first one with that name.
pub proof fn the_first_field_counts(
    fields: Seq<(Seq<char>, Seq<char>)>,
    name: Seq<char>,
    at: int,
)
    requires
        0 <= at <= fields.len(),
        at < fields.len() ==> fields[at].0 == name,
        forall|k: int| 0 <= k < at ==> (#[trigger] fields[k]).0 != name,
    ensures
        at < fields.len() ==> json::value_among(fields, name) == Some(fields[at].1),
        at == fields.len() ==> json::value_among(fields, name) is None,
{
    seqs::first_index_is(fields, json::has_name(name), at);
}

/// A member of a value is one of its fields; what has no fields has no members. What cannot be read
/// is written as it is.
pub proof fn members_are_fields(value: Seq<char>, name: Seq<char>)
    ensures
        json::fields_of(value) is None ==> json::member_of(value, name) is None,
        json::fields_of(value) matches Some(fields) ==> json::member_of(value, name)
            == json::value_among(fields, name),
        json::compact_of(value) is None ==> json::written_of(value) == value,
        json::compact_of(value) matches Some(short) ==> json::written_of(value) == short,
{
}

/// An image is known by its type, else by its short type. Where neither is a text it is unknown, and
/// the short type does not stand in for a type that is there.
pub proof fn images_are_known_by_type(item: Seq<char>)
    ensures
        ({
            let long = json::member_of(item, "mimeType"@);
            let short = json::member_of(item, "mime"@);
            let kind = mcp_runtime::image_kind(item);
            &&& long matches Some(value) ==> (json::string_in(value) matches Some(text) ==> kind
                == text)
            &&& long is None ==> (short matches Some(value) ==> (json::string_in(value) matches Some(
                text,
            ) ==> kind == text))
            &&& long is Some && json::string_in(long->0) is None ==> kind == "unknown"@
            &&& long is None && (short is None || json::string_in(short->0) is None) ==> kind
                == "unknown"@
        }),
{
}

/// A resource is described by its own fields, and an item without one has none of them.
pub proof fn resources_have_their_own_fields(item: Seq<char>, name: Seq<char>)
    ensures
        ({
            let resource = json::member_of(item, "resource"@);
            &&& resource is None ==> mcp_runtime::resource_field(item, name) is None
            &&& resource matches Some(resource) ==> mcp_runtime::resource_field(item, name)
                == mcp_runtime::text_in(resource, name)
            &&& json::member_of(item, name) is None ==> mcp_runtime::text_in(item, name) is None
            &&& json::member_of(item, name) matches Some(value) ==> mcp_runtime::text_in(item, name)
                == json::string_in(value)
        }),
{
}

/// Whether a character must not stand in a quoted text as it is.
pub open spec fn needs_escape(c: char) -> bool {
    c == '"' || c == '\\' || c < ' '
}

/// A character that may stand in a quoted text does. Any other is written with a backslash before it
/// and leaves no control character behind.
pub proof fn escapes_are_plain(c: char)
    ensures
        !needs_escape(c) ==> json::escaped(c) == seq![c],
        needs_escape(c) ==> json::escaped(c).len() >= 2 && json::escaped(c)[0] == '\\',
        c == '"' || c == '\\' ==> json::escaped(c)[1] == c,
        forall|i: int| 0 <= i < json::escaped(c).len() ==> #[trigger] json::escaped(c)[i] >= ' ',
{
}

/// The members of a text are escaped one by one.
pub proof fn texts_are_escaped_one_by_one(head: Seq<char>, c: char)
    ensures
        json::all_escaped(Seq::empty()).len() == 0,
        json::all_escaped(head.push(c)) == json::all_escaped(head) + json::escaped(c),
{
    assert(head.push(c).drop_last() =~= head);
}

/// Where a replay stands tells the thread as it was recorded, and how much is open in it.
pub proof fn replays_tell_where_a_thread_stands(snapshot: ThreadSnapshot, overlay: RuntimeOverlay)
    requires
        snapshot.conversation@.len() <= usize::MAX,
        overlay.pending_approvals@.len() <= usize::MAX,
        overlay.open_exec_sessions@.len() <= usize::MAX,
    ensures
        ({
            let shown = replay::replay_snapshot_of(snapshot, overlay);
            &&& shown.thread_id == snapshot.thread_id
            &&& shown.cwd == snapshot.cwd
            &&& shown.permission_profile == snapshot.permission_profile
            &&& shown.latest_compaction == snapshot.latest_compaction
            &&& shown.conversation_message_count == snapshot.conversation@.len()
            &&& shown.pending_approval_count == overlay.pending_approvals@.len()
            &&& shown.open_exec_session_count == overlay.open_exec_sessions@.len()
        }),
{
}

/// A thread is shown with the parent and the turn of the last edge that leads to it. Without one it
/// is shown as it was.
pub proof fn forks_are_shown_with_their_parent<R>(
    before: ThreadRecord<R>,
    after: ThreadRecord<R>,
    edges: Seq<ThreadForkEdge>,
)
    requires
        desktop::is_hydrated(before, after, edges),
    ensures
        after.id == before.id,
        after.rest == before.rest,
        (forall|k: int|
            0 <= k < edges.len() ==> (#[trigger] edges[k]).child_thread_id@ != before.id@) ==> after
            == before,
        forall|at: int|
            {
                &&& 0 <= at < edges.len()
                &&& (#[trigger] edges[at]).child_thread_id@ == before.id@
                &&& forall|k: int|
                    at < k < edges.len() ==> (#[trigger] edges[k]).child_thread_id@ != before.id@
            } ==> {
                &&& after.fork_parent_thread_id is Some
                &&& after.fork_parent_thread_id->0@ == edges[at].parent_thread_id@
                &&& after.fork_point_turn_id is Some
                &&& after.fork_point_turn_id->0@ == edges[at].fork_point_turn_id@
            },
{
    if forall|k: int|
        0 <= k < edges.len() ==> (#[trigger] edges[k]).child_thread_id@ != before.id@ {
        crate::command_laws::the_last_fork_counts(edges, before.id@, -1);
    }
    assert forall|at: int|
        {
            &&& 0 <= at < edges.len()
            &&& (#[trigger] edges[at]).child_thread_id@ == before.id@
            &&& forall|k: int|
                at < k < edges.len() ==> (#[trigger] edges[k]).child_thread_id@ != before.id@
        } implies {
        &&& after.fork_parent_thread_id is Some
        &&& after.fork_parent_thread_id->0@ == edges[at].parent_thread_id@
        &&& after.fork_point_turn_id is Some
        &&& after.fork_point_turn_id->0@ == edges[at].fork_point_turn_id@
    } by {
        crate::command_laws::the_last_fork_counts(edges, before.id@, at);
    }
}

/// The character that a letter behind a backslash stands for.
pub open spec fn meant_by(letter: char) -> char {
    if letter == 'b' {
        '\u{8}'
    } else if letter == 't' {
        '\t'
    } else if letter == 'n' {
        '\n'
    } else if letter == 'f' {
        '\u{c}'
    } else if letter == 'r' {
        '\r'
    } else {
        letter
    }
}

/// What is escaped with a letter is what the letter stands for. What is escaped with digits is the
/// character of that number.
pub proof fn escapes_are_read_back(c: char)
    requires
        needs_escape(c),
    ensures
        json::escaped(c).len() == 2 || json::escaped(c).len() == 6,
        json::escaped(c).len() == 2 ==> meant_by(json::escaped(c)[1]) == c,
        json::escaped(c).len() == 6 ==> {
            &&& json::escaped(c)[1] == 'u'
            &&& json::escaped(c)[2] == '0'
            &&& json::escaped(c)[3] == '0'
            &&& 16 * tool_laws::digit_value(json::escaped(c)[4]) + tool_laws::digit_value(
                json::escaped(c)[5],
            ) == c as int
        },
{
}

} // verus!
