//! A player's connection: who it belongs to, what it asks of the dispatcher
//! and what it answers.

use tokio::sync::mpsc::Sender;
use tokio_tungstenite::tungstenite::http::HeaderValue;
use vstd::prelude::*;

use crate::actor::model::{response_text, ResponseSignal, TaskKind, TaskRequest, WebsocketMessage};
use crate::api::model::ApiRequest;
use crate::ids::{
    digit_char, drawn_at_random, hyphenated_text, is_random_id, law_text_reads_as_one_id, law_written_id_reads_back,
    lower_case, parse_id, random_id, reads_as,
};

verus! {

/// The header that says whose a connection is.
pub const AUTHORIZATION: &'static str = "authorization";

/// Whether a byte of a header is a visible ASCII character, a space or a tab.
pub open spec fn is_visible(byte: u8) -> bool {
    32 <= byte < 127 || byte == 9
}

/// Whether a header can be read as text.
pub open spec fn is_text(header: Seq<u8>) -> bool {
    forall|i: int| 0 <= i < header.len() ==> is_visible(#[trigger] header[i])
}

/// A header as text.
pub open spec fn text_of(header: Seq<u8>) -> Seq<char> {
    header.map_values(|byte: u8| byte as char)
}

/// `http::HeaderValue::from_bytes` and, on what it gives, `to_str`: the text of
/// a header that is all visible ASCII, spaces and tabs, and nothing for any
/// other one. (The first refuses some bytes itself; the second refuses those
/// too.)
#[verifier::external_body]
fn header_text(header: &Vec<u8>) -> (text: Option<String>)
    ensures
        text matches Some(chars) ==> is_text(header@) && chars@ == text_of(header@),
        text is None ==> !is_text(header@),
{
    match HeaderValue::from_bytes(header.as_slice()) {
        Ok(value) => match value.to_str() {
            Ok(chars) => Some(chars.to_string()),
            Err(_) => None,
        },
        Err(_) => None,
    }
}

/// Whether a header is the text of an identifier.
pub open spec fn names_id(header: Seq<u8>, id: u128) -> bool {
    is_text(header) && reads_as(text_of(header), id)
}

/// Whether a header is the text of any identifier.
pub open spec fn names_someone(header: Seq<u8>) -> bool {
    exists|id: u128| names_id(header, id)
}

/// The identifier that a header is the text of, where it is one.
pub open spec fn named_id(header: Seq<u8>) -> u128 {
    choose|id: u128| names_id(header, id)
}

/// Who a connection belongs to: whom its `Authorization` header names, or
/// else `id`.
pub open spec fn authorized_id(header: Option<Seq<u8>>, id: u128) -> u128 {
    match header {
        Some(bytes) => if names_someone(bytes) {
            named_id(bytes)
        } else {
            id
        },
        None => id,
    }
}

/// A header of the request that opens a connection.
#[derive(Debug, Clone)]
pub struct Header {
    pub name: String,
    pub value: Vec<u8>,
}

/// The value of the first header called `name`, which is in lower case. How a
/// header spells its own name does not matter.
pub open spec fn header_value(headers: Seq<Header>, name: Seq<char>) -> Option<Seq<u8>>
    decreases headers.len(),
{
    if headers.len() == 0 {
        None
    } else if lower_case(headers[0].name@) == name {
        Some(headers[0].value@)
    } else {
        header_value(headers.drop_first(), name)
    }
}

/// Whether `text`, in lower case, is `wanted`.
fn is_spelled(text: &str, wanted: &str) -> (same: bool)
    ensures
        same == (lower_case(text@) == wanted@),
{
    let n = text.unicode_len();
    if n != wanted.unicode_len() {
        return false;
    }
    for i in 0..n
        invariant
            n == text@.len() == wanted@.len(),
            forall|j: int| 0 <= j < i ==> #[trigger] lower_case(text@)[j] == wanted@[j],
    {
        let c = text.get_char(i);
        let lower = if 'A' <= c && c <= 'Z' {
            (c as u8 + 32) as char
        } else {
            c
        };
        if lower != wanted.get_char(i) {
            assert(lower_case(text@)[i as int] != wanted@[i as int]);
            return false;
        }
    }
    assert(lower_case(text@) =~= wanted@);
    true
}

/// The value of the first header called `name`.
fn find_header<'a>(headers: &'a Vec<Header>, name: &str) -> (value: Option<&'a Vec<u8>>)
    ensures
        match value {
            Some(bytes) => header_value(headers@, name@) == Some(bytes@),
            None => header_value(headers@, name@) is None,
        },
{
    assert(headers@.skip(0) =~= headers@);
    for i in 0..headers.len()
        invariant
            header_value(headers@, name@) == header_value(headers@.skip(i as int), name@),
    {
        assert(headers@.skip(i as int).drop_first() =~= headers@.skip(i + 1));
        if is_spelled(headers[i].name.as_str(), name) {
            return Some(&headers[i].value);
        }
    }
    None
}

/// Puts whom the `Authorization` header names in the place of `id`. Without
/// that header, or where it names nobody, nothing changes.
pub fn extract_id_from_request(headers: &Vec<Header>, id: &mut u128)
    ensures
        *final(id) == authorized_id(header_value(headers@, AUTHORIZATION@), *old(id)),
{
    if let Some(header) = find_header(headers, AUTHORIZATION) {
        if let Some(text) = header_text(header) {
            if let Some(named) = parse_id(&text) {
                proof {
                    assert(names_id(header@, named));
                    assert(names_id(header@, named_id(header@)));
                    law_text_reads_as_one_id(text@, named_id(header@), named);
                }
                *id = named;
            }
        }
    }
}

/// A reply, or that it got lost.
pub open spec fn received(answer: Option<Result<String, String>>) -> Result<Seq<char>, Seq<char>> {
    match answer {
        Some(Ok(text)) => Ok(text@),
        Some(Err(text)) => Err(text@),
        None => Err("Failed to receive response"@),
    }
}

/// A reply, where one came.
fn receive(answer: Option<Result<String, String>>) -> (reply: Result<String, String>)
    ensures
        match reply {
            Ok(text) => received(answer) == Ok::<Seq<char>, Seq<char>>(text@),
            Err(text) => received(answer) == Err::<Seq<char>, Seq<char>>(text@),
        },
{
    match answer {
        Some(reply) => reply,
        None => Err("Failed to receive response".to_string()),
    }
}

/// How far a connection has come.
#[derive(Debug, Clone, Copy, PartialEq, Eq, Structural)]
pub enum Phase {
    Handshake,
    /// The dispatcher has been asked to add the inventory.
    Adding,
    /// The player speaks.
    Open,
    /// The dispatcher has been asked to remove the inventory.
    Removing,
    Closed,
}

/// What a connection learns.
#[derive(Debug)]
pub enum Event {
    HandshakeFailed,
    /// The handshake is done; it came with these headers.
    HandshakeDone(Vec<Header>),
    /// The dispatcher cannot be reached.
    NotSent,
    /// The dispatcher's reply, or `None` where it got lost.
    Answered(Option<Result<String, String>>),
    /// The player is gone.
    SessionEnded,
}

/// What a connection does.
#[derive(Debug)]
pub enum Action {
    /// Ask this of the dispatcher.
    Ask(WebsocketMessage),
    /// Let the player speak.
    RunSession,
    Close,
    /// The event does not belong here.
    Ignore,
}

/// What a connection of `id` does at `event`.
pub open spec fn step(id: u128, phase: Phase, event: Event) -> (u128, Phase, Action) {
    match (phase, event) {
        (Phase::Handshake, Event::HandshakeDone(headers)) => {
            let id = authorized_id(header_value(headers@, AUTHORIZATION@), id);
            (id, Phase::Adding, Action::Ask(WebsocketMessage::AddInventory(id)))
        },
        (Phase::Handshake, Event::HandshakeFailed) => (id, Phase::Closed, Action::Close),
        (Phase::Adding, Event::NotSent) => (id, Phase::Closed, Action::Close),
        (Phase::Adding, Event::Answered(answer)) => if received(answer) is Ok {
            (id, Phase::Open, Action::RunSession)
        } else {
            (id, Phase::Closed, Action::Close)
        },
        (Phase::Open, Event::SessionEnded) => (
            id,
            Phase::Removing,
            Action::Ask(WebsocketMessage::RemoveInventory(id)),
        ),
        (Phase::Removing, Event::NotSent) => (id, Phase::Closed, Action::Close),
        (Phase::Removing, Event::Answered(_)) => (id, Phase::Closed, Action::Close),
        _ => (id, phase, Action::Ignore),
    }
}

/// A player's connection.
#[derive(Debug)]
pub struct Connection {
    /// Whose it is.
    pub id: u128,
    pub phase: Phase,
}

impl Connection {
    /// A connection whose owner is not known yet; a random identifier stands
    /// for them.
    pub fn new() -> (connection: Self)
        ensures
            drawn_at_random(connection.id),
            is_random_id(connection.id),
            connection.phase == Phase::Handshake,
    {
        Connection { id: random_id(), phase: Phase::Handshake }
    }

    /// Deals with `event` and says what to do.
    pub fn on_event(&mut self, event: Event) -> (action: Action)
        ensures
            (final(self).id, final(self).phase, action) == step(
                old(self).id,
                old(self).phase,
                event,
            ),
    {
        match (self.phase, event) {
            (Phase::Handshake, Event::HandshakeDone(headers)) => {
                extract_id_from_request(&headers, &mut self.id);
                self.phase = Phase::Adding;
                Action::Ask(WebsocketMessage::AddInventory(self.id))
            },
            (Phase::Handshake, Event::HandshakeFailed) => self.close(),
            (Phase::Adding, Event::NotSent) => self.close(),
            (Phase::Adding, Event::Answered(answer)) => match receive(answer) {
                Ok(_) => {
                    self.phase = Phase::Open;
                    Action::RunSession
                },
                Err(_) => self.close(),
            },
            (Phase::Open, Event::SessionEnded) => {
                self.phase = Phase::Removing;
                Action::Ask(WebsocketMessage::RemoveInventory(self.id))
            },
            (Phase::Removing, Event::NotSent) => self.close(),
            (Phase::Removing, Event::Answered(_)) => self.close(),
            _ => Action::Ignore,
        }
    }

    fn close(&mut self) -> (action: Action)
        ensures
            final(self).id == old(self).id,
            final(self).phase == Phase::Closed,
            action == Action::Close,
    {
        self.phase = Phase::Closed;
        Action::Close
    }
}

/// What comes from a player.
#[derive(Debug)]
pub enum Incoming {
    /// A text, read as a request or with why it is none.
    Text(Result<ApiRequest, String>),
    /// Anything that is no text.
    Other,
    /// Reading failed.
    Failed(String),
}

/// What follows from what a player sends.
#[derive(Debug)]
pub enum SessionStep {
    /// Read on.
    Skip,
    /// Answer this and read on.
    Respond(ResponseSignal),
    /// Hand this to the dispatcher.
    Submit(TaskRequest),
    /// Answer this; the session is over.
    RespondAndEnd(ResponseSignal),
}

/// What follows from `incoming` in the session of `id`, whose answers go to
/// `respond_to`. Every request asks for something to be built.
pub fn incoming_step(
    incoming: Incoming,
    id: u128,
    respond_to: Sender<ResponseSignal>,
) -> (next: SessionStep)
    ensures
        next == match incoming {
            Incoming::Other => SessionStep::Skip,
            Incoming::Text(Ok(request)) => SessionStep::Submit(
                TaskRequest {
                    owner: id,
                    request_id: request.id,
                    kind: TaskKind::Build(request.params.blueprint),
                    respond_to,
                },
            ),
            Incoming::Text(Err(reason)) => SessionStep::Respond(ResponseSignal::Error(reason)),
            Incoming::Failed(reason) => SessionStep::RespondAndEnd(ResponseSignal::Error(reason)),
        },
{
    match incoming {
        Incoming::Other => SessionStep::Skip,
        Incoming::Text(Ok(request)) => SessionStep::Submit(
            TaskRequest {
                owner: id,
                request_id: request.id,
                kind: TaskKind::Build(request.params.blueprint),
                respond_to,
            },
        ),
        Incoming::Text(Err(reason)) => SessionStep::Respond(ResponseSignal::Error(reason)),
        Incoming::Failed(reason) => SessionStep::RespondAndEnd(ResponseSignal::Error(reason)),
    }
}

/// How the dispatcher took a task request.
#[derive(Debug)]
pub enum Submission {
    /// It cannot be reached, and why.
    NotSent(String),
    /// Its reply, or `None` where that got lost.
    Answered(Option<Result<String, String>>),
}

/// What the player is told of a submission, and whether the session goes on.
pub fn submission_step(submission: Submission) -> (told: (ResponseSignal, bool))
    ensures
        match submission {
            Submission::NotSent(reason) => told == (ResponseSignal::Error(reason), false),
            Submission::Answered(answer) => told.1 && match told.0 {
                ResponseSignal::Success(text) => received(answer) == Ok::<Seq<char>, Seq<char>>(
                    text@,
                ),
                ResponseSignal::Error(text) => received(answer) == Err::<Seq<char>, Seq<char>>(
                    text@,
                ),
                ResponseSignal::Stop => false,
            },
        },
{
    match submission {
        Submission::NotSent(reason) => (ResponseSignal::Error(reason), false),
        Submission::Answered(answer) => match receive(answer) {
            Ok(text) => (ResponseSignal::Success(text), true),
            Err(text) => (ResponseSignal::Error(text), true),
        },
    }
}

/// Whether further answers follow `response`.
pub fn forwards_on(response: &ResponseSignal) -> (on: bool)
    ensures
        on == !(response is Stop),
{
    match response {
        ResponseSignal::Stop => false,
        _ => true,
    }
}

/// What is written to the player for `response`; after `None` nothing more is
/// written.
pub fn written(response: &ResponseSignal) -> (text: Option<String>)
    ensures
        match text {
            Some(text) => !(response is Stop) && text@ == response_text(*response),
            None => response is Stop,
        },
{
    if forwards_on(response) {
        Some(response.text())
    } else {
        None
    }
}

/// A header that holds a written identifier names that one, whoever else the
/// connection might have belonged to.
pub proof fn law_written_id_authorizes(header: Seq<u8>, owner: u128, id: u128)
    requires
        text_of(header) == hyphenated_text(owner),
    ensures
        authorized_id(Some(header), id) == owner,
{
    law_written_id_reads_back(owner);
    assert forall|i: int| 0 <= i < header.len() implies is_visible(#[trigger] header[i]) by {
        assert(text_of(header)[i] == header[i] as char);
        assert(forall|v: int| 0 <= v < 16 ==> 48 <= #[trigger] digit_char(v) as int <= 102);
    }
    assert(names_id(header, owner));
    assert(names_id(header, named_id(header)));
    law_text_reads_as_one_id(text_of(header), named_id(header), owner);
}

/// The state of a connection of `id` after `events`.
pub open spec fn state_after(id: u128, events: Seq<Event>) -> (u128, Phase)
    decreases events.len(),
{
    if events.len() == 0 {
        (id, Phase::Handshake)
    } else {
        let (id, phase) = state_after(id, events.drop_last());
        let next = step(id, phase, events.last());
        (next.0, next.1)
    }
}

/// What a connection of `id` did at the event `i`.
pub open spec fn action_of(id: u128, events: Seq<Event>, i: int) -> Action {
    let (id, phase) = state_after(id, events.take(i));
    step(id, phase, events[i]).2
}

/// Whether a connection opened at the event `i`: the dispatcher has its
/// inventory.
pub open spec fn opened_at(id: u128, events: Seq<Event>, i: int) -> bool {
    action_of(id, events, i) == Action::RunSession
}

proof fn lemma_was_opened(id: u128, events: Seq<Event>, n: int)
    requires
        0 <= n <= events.len(),
        state_after(id, events.take(n)).1 == Phase::Open || state_after(id, events.take(n)).1
            == Phase::Removing,
    ensures
        exists|j: int| 0 <= j < n && #[trigger] opened_at(id, events, j),
    decreases n,
{
    if n > 0 {
        assert(events.take(n).drop_last() =~= events.take(n - 1));
        assert(events.take(n).last() == events[n - 1]);
        let phase = state_after(id, events.take(n - 1)).1;
        if phase == Phase::Open || phase == Phase::Removing {
            lemma_was_opened(id, events, n - 1);
        } else {
            assert(opened_at(id, events, n - 1));
        }
    }
}

/// The dispatcher is asked to remove an inventory only where it has said that
/// it added one, and it is asked to remove that of the connection's owner.
pub proof fn law_remove_only_after_add(id: u128, events: Seq<Event>, i: int, removed: u128)
    requires
        0 <= i < events.len(),
        action_of(id, events, i) == Action::Ask(WebsocketMessage::RemoveInventory(removed)),
    ensures
        exists|j: int| 0 <= j < i && #[trigger] opened_at(id, events, j),
        removed == state_after(id, events.take(i)).0,
{
    lemma_was_opened(id, events, i);
}

proof fn lemma_opened_then(id: u128, events: Seq<Event>, j: int, n: int)
    requires
        0 <= j < n <= events.len(),
        opened_at(id, events, j),
    ensures
        ({
            let now = state_after(id, events.take(n));
            let owner = state_after(id, events.take(j)).0;
            &&& now.0 == owner
            &&& now.1 == Phase::Open || exists|k: int|
                j < k < n && #[trigger] action_of(id, events, k) == Action::Ask(
                    WebsocketMessage::RemoveInventory(owner),
                )
            &&& now.1 == Phase::Open || now.1 == Phase::Removing || now.1 == Phase::Closed
        }),
    decreases n,
{
    assert(events.take(n).drop_last() =~= events.take(n - 1));
    assert(events.take(n).last() == events[n - 1]);
    let owner = state_after(id, events.take(j)).0;
    if j < n - 1 {
        lemma_opened_then(id, events, j, n - 1);
        let before = state_after(id, events.take(n - 1));
        if before.1 == Phase::Open && state_after(id, events.take(n)).1 != Phase::Open {
            assert(action_of(id, events, n - 1) == Action::Ask(
                WebsocketMessage::RemoveInventory(owner),
            ));
        }
    }
}

/// A connection whose inventory was added does not close before it has asked
/// for that inventory's removal.
pub proof fn law_added_inventory_is_removed(id: u128, events: Seq<Event>, j: int)
    requires
        0 <= j < events.len(),
        opened_at(id, events, j),
        state_after(id, events).1 == Phase::Closed,
    ensures
        exists|k: int|
            j < k < events.len() && #[trigger] action_of(id, events, k) == Action::Ask(
                WebsocketMessage::RemoveInventory(state_after(id, events.take(j)).0),
            ),
{
    assert(events.take(events.len() as int) =~= events);
    lemma_opened_then(id, events, j, events.len() as int);
}

/// What a player is shown of `responses`.
pub open spec fn shown(responses: Seq<ResponseSignal>) -> Seq<Seq<char>>
    decreases responses.len(),
{
    if responses.len() == 0 || responses[0] is Stop {
        Seq::empty()
    } else {
        seq![response_text(responses[0])] + shown(responses.drop_first())
    }
}

/// A player is shown every answer up to the first `Stop`, in order, and nothing
/// from there on.
pub proof fn law_shown_up_to_stop(before: Seq<ResponseSignal>, after: Seq<ResponseSignal>)
    requires
        forall|i: int| 0 <= i < before.len() ==> !(#[trigger] before[i] is Stop),
    ensures
        shown(before + seq![ResponseSignal::Stop] + after) == before.map_values(
            |response: ResponseSignal| response_text(response),
        ),
    decreases before.len(),
{
    let all = before + seq![ResponseSignal::Stop] + after;
    let texts = before.map_values(|response: ResponseSignal| response_text(response));
    if before.len() == 0 {
        assert(all[0] is Stop);
        assert(texts =~= Seq::empty());
    } else {
        let rest = before.drop_first();
        assert forall|i: int| 0 <= i < rest.len() implies !(#[trigger] rest[i] is Stop) by {
            assert(rest[i] == before[i + 1]);
        }
        law_shown_up_to_stop(rest, after);
        assert(all[0] == before[0]);
        assert(all.drop_first() =~= rest + seq![ResponseSignal::Stop] + after);
        assert(texts =~= seq![response_text(before[0])] + rest.map_values(
            |response: ResponseSignal| response_text(response),
        ));
    }
}

} // verus!
