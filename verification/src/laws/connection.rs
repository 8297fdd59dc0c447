//! What becomes of a player's connection.

use tokio::sync::mpsc::Sender;
use vstd::prelude::*;

use crate::actor::model::{ResponseSignal, TaskKind, WebsocketMessage};
use crate::api::model::ApiRequest;
use crate::api::websocket::{
    action_of, extract_id_from_request, forwards_on, header_value, incoming_step, state_after,
    submission_step, text_of, written, Action, Connection, Event, Header, Incoming, Phase,
    SessionStep, Submission, AUTHORIZATION,
};
use crate::ids::{drawn_at_random, hyphenated_text, law_text_reads_as_one_id, lower_case, reads_as};

verus! {

/// Whether `name` is `wanted`, capitals or not.
pub open spec fn spells(name: Seq<char>, wanted: Seq<char>) -> bool {
    &&& name.len() == wanted.len()
    &&& forall|k: int|
        0 <= k < name.len() ==> (#[trigger] name[k] == wanted[k] || ('A' <= name[k] <= 'Z'
            && name[k] as int + 32 == wanted[k] as int))
}

/// Whether a header says whose a connection is.
pub open spec fn is_authorization(header: Header) -> bool {
    spells(header.name@, "authorization"@)
}

/// Whether the header at `i` is the first one that says whose a connection is.
pub open spec fn is_first_authorization(headers: Seq<Header>, i: int) -> bool {
    &&& 0 <= i < headers.len()
    &&& is_authorization(headers[i])
    &&& forall|j: int| 0 <= j < i ==> !is_authorization(#[trigger] headers[j])
}

/// Whether a header's bytes are the characters of `text`.
pub open spec fn holds_text(value: Seq<u8>, text: Seq<char>) -> bool {
    &&& value.len() == text.len()
    &&& forall|k: int| 0 <= k < text.len() ==> #[trigger] text[k] as int == value[k] as int
}

proof fn lemma_spelling(name: Seq<char>)
    ensures
        spells(name, "authorization"@) <==> lower_case(name) == AUTHORIZATION@,
{
    reveal_strlit("authorization");
    let wanted = "authorization"@;
    assert(forall|k: int| 0 <= k < wanted.len() ==> 'a' <= #[trigger] wanted[k] <= 'z');
    if spells(name, wanted) {
        assert(lower_case(name) =~= wanted);
    }
    if lower_case(name) == wanted {
        assert forall|k: int| 0 <= k < name.len() implies (#[trigger] name[k] == wanted[k] || (
        'A' <= name[k] <= 'Z' && name[k] as int + 32 == wanted[k] as int)) by {
            assert(lower_case(name)[k] == wanted[k]);
        }
    }
}

proof fn lemma_first_header(headers: Seq<Header>, i: int)
    requires
        is_first_authorization(headers, i),
    ensures
        header_value(headers, AUTHORIZATION@) == Some(headers[i].value@),
    decreases i,
{
    lemma_spelling(headers[0].name@);
    if i > 0 {
        assert(!is_authorization(headers[0]));
        let rest = headers.drop_first();
        assert(rest[i - 1] == headers[i]);
        assert forall|j: int| 0 <= j < i - 1 implies !is_authorization(#[trigger] rest[j]) by {
            assert(rest[j] == headers[j + 1]);
        }
        lemma_first_header(rest, i - 1);
    }
}

proof fn lemma_no_header(headers: Seq<Header>)
    requires
        forall|j: int| 0 <= j < headers.len() ==> !is_authorization(#[trigger] headers[j]),
    ensures
        header_value(headers, AUTHORIZATION@) is None,
    decreases headers.len(),
{
    if headers.len() > 0 {
        lemma_spelling(headers[0].name@);
        assert(!is_authorization(headers[0]));
        let rest = headers.drop_first();
        assert forall|j: int| 0 <= j < rest.len() implies !is_authorization(#[trigger] rest[j]) by {
            assert(rest[j] == headers[j + 1]);
        }
        lemma_no_header(rest);
    }
}

/// Wherever among the headers the first `Authorization` stands, and however it
/// is spelled, what is looked at is its value; nothing is looked at only where
/// there is none.
pub proof fn law_authorization_is_found_anywhere(headers: Seq<Header>, i: int)
    ensures
        is_first_authorization(headers, i) ==> header_value(headers, AUTHORIZATION@) == Some(
            headers[i].value@,
        ),
        (forall|j: int| 0 <= j < headers.len() ==> !is_authorization(#[trigger] headers[j]))
            <==> header_value(headers, AUTHORIZATION@) is None,
{
    if is_first_authorization(headers, i) {
        lemma_first_header(headers, i);
    }
    if forall|j: int| 0 <= j < headers.len() ==> !is_authorization(#[trigger] headers[j]) {
        lemma_no_header(headers);
    } else {
        let j = choose|j: int| 0 <= j < headers.len() && is_authorization(#[trigger] headers[j]);
        let first = lemma_some_is_first(headers, j);
        lemma_first_header(headers, first);
    }
}

proof fn lemma_some_is_first(headers: Seq<Header>, j: int) -> (first: int)
    requires
        0 <= j < headers.len(),
        is_authorization(headers[j]),
    ensures
        is_first_authorization(headers, first),
    decreases j,
{
    if exists|k: int| 0 <= k < j && is_authorization(#[trigger] headers[k]) {
        let k = choose|k: int| 0 <= k < j && is_authorization(#[trigger] headers[k]);
        lemma_some_is_first(headers, k)
    } else {
        j
    }
}

/// A connection belongs to whom its first `Authorization` header names, at
/// whatever place that header stands.
pub proof fn law_owner_is_whom_the_header_names(
    headers: Vec<Header>,
    id: &mut u128,
    i: int,
    text: Seq<char>,
    owner: u128,
)
    requires
        call_ensures(extract_id_from_request, (&headers, id), ()),
        is_first_authorization(headers@, i),
        holds_text(headers@[i].value@, text),
        forall|k: int| 0 <= k < text.len() ==> (32 <= #[trigger] text[k] as int <= 126 || text[k] as int
            == 9),
        reads_as(text, owner),
    ensures
        *final(id) == owner,
{
    lemma_first_header(headers@, i);
    let value = headers@[i].value@;
    assert(text_of(value) =~= text);
    assert forall|k: int| 0 <= k < value.len() implies crate::api::websocket::is_visible(
        #[trigger] value[k],
    ) by {
        assert(text[k] as int == value[k] as int);
    }
    assert(crate::api::websocket::names_id(value, owner));
    let named = crate::api::websocket::named_id(value);
    assert(crate::api::websocket::names_id(value, named));
    law_text_reads_as_one_id(text_of(value), named, owner);
}

/// A connection keeps the identifier that it has where no header says whose it
/// is, or the first that does holds what is no text or names nobody.
pub proof fn law_nobody_is_named_without_a_name(
    headers: Vec<Header>,
    id: &mut u128,
    i: int,
    text: Seq<char>,
)
    requires
        call_ensures(extract_id_from_request, (&headers, id), ()),
        (forall|j: int| 0 <= j < headers@.len() ==> !is_authorization(#[trigger] headers@[j])) || (
        is_first_authorization(headers@, i) && holds_text(headers@[i].value@, text) && ((exists|
            k: int,
        |
            0 <= k < text.len() && !(32 <= #[trigger] text[k] as int <= 126 || text[k] as int == 9))
            || forall|owner: u128| !reads_as(text, owner))),
    ensures
        *final(id) == *old(id),
{
    if forall|j: int| 0 <= j < headers@.len() ==> !is_authorization(#[trigger] headers@[j]) {
        lemma_no_header(headers@);
    } else {
        lemma_first_header(headers@, i);
        let value = headers@[i].value@;
        assert(text_of(value) =~= text);
        if exists|k: int|
            0 <= k < text.len() && !(32 <= #[trigger] text[k] as int <= 126 || text[k] as int
                == 9) {
            let k = choose|k: int|
                0 <= k < text.len() && !(32 <= #[trigger] text[k] as int <= 126 || text[k] as int
                    == 9);
            assert(text[k] as int == value[k] as int);
            assert(!crate::api::websocket::is_visible(value[k]));
        }
    }
}

/// After the handshake a connection asks for the inventory of its owner, who is
/// the one that the headers name or else the one that it had.
pub proof fn law_handshake_asks_for_the_inventory(
    connection: &mut Connection,
    headers: Vec<Header>,
    action: Action,
    id: &mut u128,
)
    requires
        old(connection).phase == Phase::Handshake,
        call_ensures(
            Connection::on_event,
            (connection, Event::HandshakeDone(headers)),
            action,
        ),
        *old(id) == old(connection).id,
        call_ensures(extract_id_from_request, (&headers, id), ()),
    ensures
        final(connection).phase == Phase::Adding,
        final(connection).id == *final(id),
        action == Action::Ask(WebsocketMessage::AddInventory(*final(id))),
{
}

/// A handshake that fails closes the connection, and nothing has been asked for.
pub proof fn law_failed_handshake_closes(connection: &mut Connection, action: Action)
    requires
        old(connection).phase == Phase::Handshake,
        call_ensures(Connection::on_event, (connection, Event::HandshakeFailed), action),
    ensures
        final(connection).phase == Phase::Closed,
        action == Action::Close,
{
}

/// The player speaks where the inventory was added, and only there; any other
/// reply, and none, closes the connection.
pub proof fn law_session_runs_where_the_inventory_was_added(
    connection: &mut Connection,
    answer: Option<Result<String, String>>,
    action: Action,
)
    requires
        old(connection).phase == Phase::Adding,
        call_ensures(Connection::on_event, (connection, Event::Answered(answer)), action),
    ensures
        final(connection).id == old(connection).id,
        (answer is Some && answer->0 is Ok) ==> action == Action::RunSession
            && final(connection).phase == Phase::Open,
        !(answer is Some && answer->0 is Ok) ==> action == Action::Close
            && final(connection).phase == Phase::Closed,
{
}

/// When the player is gone the inventory of the connection's owner is to be
/// removed.
pub proof fn law_end_of_session_asks_for_removal(connection: &mut Connection, action: Action)
    requires
        old(connection).phase == Phase::Open,
        call_ensures(Connection::on_event, (connection, Event::SessionEnded), action),
    ensures
        final(connection).phase == Phase::Removing,
        final(connection).id == old(connection).id,
        action == Action::Ask(WebsocketMessage::RemoveInventory(old(connection).id)),
{
}

/// Once the removal has been asked for, any reply closes the connection, good or
/// bad or lost.
pub proof fn law_any_reply_to_the_removal_closes(
    connection: &mut Connection,
    answer: Option<Result<String, String>>,
    action: Action,
)
    requires
        old(connection).phase == Phase::Removing,
        call_ensures(Connection::on_event, (connection, Event::Answered(answer)), action),
    ensures
        final(connection).phase == Phase::Closed,
        final(connection).id == old(connection).id,
        action == Action::Close,
{
}

/// A dispatcher that cannot be reached closes the connection.
pub proof fn law_unreachable_dispatcher_closes(connection: &mut Connection, action: Action)
    requires
        old(connection).phase == Phase::Adding || old(connection).phase == Phase::Removing,
        call_ensures(Connection::on_event, (connection, Event::NotSent), action),
    ensures
        final(connection).phase == Phase::Closed,
        final(connection).id == old(connection).id,
        action == Action::Close,
{
}

/// What a connection did not wait for does not move it, and nothing moves one
/// that is closed.
pub proof fn law_connection_ignores_what_it_does_not_wait_for(
    connection: &mut Connection,
    event: Event,
    action: Action,
)
    requires
        call_ensures(Connection::on_event, (connection, event), action),
        old(connection).phase == Phase::Closed || ((event is HandshakeDone
            || event is HandshakeFailed) && old(connection).phase != Phase::Handshake) || (
        event is SessionEnded && old(connection).phase != Phase::Open) || ((event is Answered
            || event is NotSent) && (old(connection).phase == Phase::Handshake || old(connection).phase == Phase::Open)),
    ensures
        action == Action::Ignore,
        final(connection).phase == old(connection).phase,
        final(connection).id == old(connection).id,
{
}

/// A new connection has a random owner and waits for its handshake.
pub proof fn law_new_connection_waits_for_its_handshake(connection: Connection)
    requires
        call_ensures(Connection::new, (), connection),
    ensures
        drawn_at_random(connection.id),
        connection.phase == Phase::Handshake,
{
}

/// How far along a connection is.
spec fn rank(phase: Phase) -> int {
    match phase {
        Phase::Handshake => 0,
        Phase::Adding => 1,
        Phase::Open => 2,
        Phase::Removing => 3,
        Phase::Closed => 4,
    }
}

proof fn lemma_never_back(id: u128, events: Seq<Event>, i: int, j: int)
    requires
        0 <= i <= j <= events.len(),
    ensures
        rank(state_after(id, events.take(i)).1) <= rank(state_after(id, events.take(j)).1),
        rank(state_after(id, events.take(i)).1) >= 1 ==> state_after(id, events.take(j)).0
            == state_after(id, events.take(i)).0,
    decreases j,
{
    if i < j {
        lemma_never_back(id, events, i, j - 1);
        assert(events.take(j).drop_last() =~= events.take(j - 1));
        assert(events.take(j).last() == events[j - 1]);
    }
}

/// Once the removal has been asked for no session is run, nothing is asked for
/// again, and what was removed is the inventory that was added.
pub proof fn law_nothing_runs_after_the_removal(
    id: u128,
    events: Seq<Event>,
    i: int,
    removed: u128,
    j: int,
)
    requires
        0 <= i < events.len(),
        0 <= j < events.len(),
        action_of(id, events, i) == Action::Ask(WebsocketMessage::RemoveInventory(removed)),
    ensures
        i < j ==> action_of(id, events, j) != Action::RunSession,
        i < j ==> !(action_of(id, events, j) is Ask),
        j < i ==> (action_of(id, events, j) matches Action::Ask(
            WebsocketMessage::AddInventory(added),
        ) ==> added == removed),
{
    assert(events.take(i + 1).drop_last() =~= events.take(i));
    assert(events.take(i + 1).last() == events[i]);
    assert(events.take(j + 1).drop_last() =~= events.take(j));
    assert(events.take(j + 1).last() == events[j]);
    if i < j {
        lemma_never_back(id, events, i + 1, j);
    } else if j < i {
        lemma_never_back(id, events, j + 1, i);
    }
}

/// A request becomes a task to build from its blueprint, of the connection's
/// owner and under the request's own identifier.
pub proof fn law_request_becomes_a_task(
    request: ApiRequest,
    id: u128,
    respond_to: Sender<ResponseSignal>,
    next: SessionStep,
)
    requires
        call_ensures(incoming_step, (Incoming::Text(Ok(request)), id, respond_to), next),
    ensures
        next is Submit,
        next->Submit_0.owner == id,
        next->Submit_0.request_id == request.id,
        next->Submit_0.kind == TaskKind::Build(request.params.blueprint),
        next->Submit_0.respond_to == respond_to,
{
}

/// A text that is no request is answered with why, and the session goes on; a
/// failure to read is answered with why, and ends it; anything else is skipped.
pub proof fn law_what_is_no_request_is_answered(
    reason: String,
    id: u128,
    respond_to: Sender<ResponseSignal>,
    unread: SessionStep,
    failed: SessionStep,
    other: SessionStep,
)
    requires
        call_ensures(incoming_step, (Incoming::Text(Err(reason)), id, respond_to), unread),
        call_ensures(incoming_step, (Incoming::Failed(reason), id, respond_to), failed),
        call_ensures(incoming_step, (Incoming::Other, id, respond_to), other),
    ensures
        unread == SessionStep::Respond(ResponseSignal::Error(reason)),
        failed == SessionStep::RespondAndEnd(ResponseSignal::Error(reason)),
        other == SessionStep::Skip,
{
}

/// The player is told what the dispatcher replied, or that nothing came, and the
/// session goes on; it ends where the dispatcher was not reached.
pub proof fn law_submission_is_answered(
    answer: Option<Result<String, String>>,
    told: (ResponseSignal, bool),
    reason: String,
    unsent: (ResponseSignal, bool),
)
    requires
        call_ensures(submission_step, (Submission::Answered(answer),), told),
        call_ensures(submission_step, (Submission::NotSent(reason),), unsent),
    ensures
        told.1,
        answer is None ==> (told.0 matches ResponseSignal::Error(text) && text@
            == "Failed to receive response"@),
        (answer is Some && answer->0 is Ok) ==> (told.0 matches ResponseSignal::Success(text)
            && text@ == answer->0->Ok_0@),
        (answer is Some && answer->0 is Err) ==> (told.0 matches ResponseSignal::Error(text)
            && text@ == answer->0->Err_0@),
        !unsent.1,
        unsent.0 matches ResponseSignal::Error(text) && text@ == reason@,
{
}

/// Every answer is written with what it is in front, and `Stop` is not written
/// and ends the writing.
pub proof fn law_answers_are_written(
    response: ResponseSignal,
    on: bool,
    text: Option<String>,
    whole: String,
)
    requires
        call_ensures(forwards_on, (&response,), on),
        call_ensures(written, (&response,), text),
        call_ensures(ResponseSignal::text, (&response,), whole),
    ensures
        response is Stop ==> !on && text is None && whole@ == "Stop"@,
        response matches ResponseSignal::Success(msg) ==> on && text is Some && text->0@
            == "Success: "@ + msg@ && whole@ == "Success: "@ + msg@,
        response matches ResponseSignal::Error(msg) ==> on && text is Some && text->0@
            == "Error: "@ + msg@ && whole@ == "Error: "@ + msg@,
{
}

/// The written form of an identifier in a header names its owner.
pub proof fn law_written_id_in_a_header_names_its_owner(
    headers: Vec<Header>,
    id: &mut u128,
    i: int,
    owner: u128,
)
    requires
        call_ensures(extract_id_from_request, (&headers, id), ()),
        is_first_authorization(headers@, i),
        holds_text(headers@[i].value@, hyphenated_text(owner)),
    ensures
        *final(id) == owner,
{
    lemma_first_header(headers@, i);
    let value = headers@[i].value@;
    assert(text_of(value) =~= hyphenated_text(owner));
    crate::api::websocket::law_written_id_authorizes(value, owner, *old(id));
}

} // verus!
