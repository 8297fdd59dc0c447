//! Tasks, answers and messages.

use vstd::prelude::*;

use crate::blueprint::model::Value;
use crate::table::Table;

verus! {

/// What a task is to do.
#[derive(Debug, Clone)]
pub enum TaskKind {
    /// Build from the named blueprint.
    Build(String),
    Produce,
    Train,
}

/// An answer to a player.
#[derive(Debug, Clone)]
pub enum ResponseSignal {
    Success(String),
    Error(String),
    /// Nothing follows.
    Stop,
}

/// What an answer reads as.
pub open spec fn response_text(response: ResponseSignal) -> Seq<char> {
    match response {
        ResponseSignal::Success(msg) => "Success: "@ + msg@,
        ResponseSignal::Error(msg) => "Error: "@ + msg@,
        ResponseSignal::Stop => "Stop"@,
    }
}

impl ResponseSignal {
    /// The answer as text.
    pub fn text(&self) -> (text: String)
        ensures
            text@ == response_text(*self),
    {
        match self {
            ResponseSignal::Success(msg) => "Success: ".to_string().concat(msg.as_str()),
            ResponseSignal::Error(msg) => "Error: ".to_string().concat(msg.as_str()),
            ResponseSignal::Stop => "Stop".to_string(),
        }
    }
}

/// A player's wish for a task.
#[derive(Debug)]
pub struct TaskRequest<T = TaskKind> {
    pub owner: u128,
    pub request_id: String,
    pub kind: T,
    pub respond_to: tokio::sync::mpsc::Sender<ResponseSignal>,
}

/// A task that waits in the queue or is being worked on.
#[derive(Debug)]
pub struct Task<T = TaskKind> {
    pub id: u128,
    pub request_id: String,
    pub kind: T,
    pub respond_to: tokio::sync::mpsc::Sender<ResponseSignal>,
}

/// A sign to a worker.
#[derive(Debug, Clone, Copy, PartialEq, Eq)]
pub enum Signal {
    TaskAdded,
    Stop,
}

/// What actors tell each other over topics. Receipts go by their identifier.
#[derive(Debug)]
pub enum InternalMessage {
    TaskAdded,
    /// Take up no further task.
    GracefulStop,
    Stop,
    InventoryReserveRequest(Table<Value<u64>>),
    InventoryReserveResponse(Result<u128, String>),
    InventoryReleaseRequest(u128),
    InventoryReleaseResponse(Result<u128, String>),
}

/// What an `InternalMessage` says.
pub enum MessageView {
    TaskAdded,
    GracefulStop,
    Stop,
    InventoryReserveRequest(Map<Seq<char>, Value<u64>>),
    InventoryReserveResponse(Result<u128, Seq<char>>),
    InventoryReleaseRequest(u128),
    InventoryReleaseResponse(Result<u128, Seq<char>>),
}

/// A reply with its text as characters.
pub open spec fn reply_view<T>(reply: Result<T, String>) -> Result<T, Seq<char>> {
    match reply {
        Ok(value) => Ok(value),
        Err(text) => Err(text@),
    }
}

impl View for InternalMessage {
    type V = MessageView;

    open spec fn view(&self) -> MessageView {
        match *self {
            InternalMessage::TaskAdded => MessageView::TaskAdded,
            InternalMessage::GracefulStop => MessageView::GracefulStop,
            InternalMessage::Stop => MessageView::Stop,
            InternalMessage::InventoryReserveRequest(request) => {
                MessageView::InventoryReserveRequest(request@)
            },
            InternalMessage::InventoryReserveResponse(reply) => {
                MessageView::InventoryReserveResponse(reply_view(reply))
            },
            InternalMessage::InventoryReleaseRequest(id) => {
                MessageView::InventoryReleaseRequest(id)
            },
            InternalMessage::InventoryReleaseResponse(reply) => {
                MessageView::InventoryReleaseResponse(reply_view(reply))
            },
        }
    }
}

fn copy_reply(reply: &Result<u128, String>) -> (copy: Result<u128, String>)
    ensures
        copy == *reply,
{
    match reply {
        Ok(id) => Ok(*id),
        Err(text) => Err(text.clone()),
    }
}

impl Clone for InternalMessage {
    fn clone(&self) -> (copy: Self)
        ensures
            copy@ == self@,
    {
        match self {
            InternalMessage::TaskAdded => InternalMessage::TaskAdded,
            InternalMessage::GracefulStop => InternalMessage::GracefulStop,
            InternalMessage::Stop => InternalMessage::Stop,
            InternalMessage::InventoryReserveRequest(request) => {
                let copy = request.clone();
                assert(copy.rows_view() =~= request.rows_view());
                InternalMessage::InventoryReserveRequest(copy)
            },
            InternalMessage::InventoryReserveResponse(reply) => {
                InternalMessage::InventoryReserveResponse(copy_reply(reply))
            },
            InternalMessage::InventoryReleaseRequest(id) => {
                InternalMessage::InventoryReleaseRequest(*id)
            },
            InternalMessage::InventoryReleaseResponse(reply) => {
                InternalMessage::InventoryReleaseResponse(copy_reply(reply))
            },
        }
    }
}

/// What a player's connection asks of the dispatcher.
#[derive(Debug)]
pub enum WebsocketMessage {
    TaskRequest(TaskRequest),
    AddInventory(u128),
    RemoveInventory(u128),
}

/// A request to the dispatcher, with the channel that its reply goes to.
#[derive(Debug)]
pub struct Message {
    pub content: WebsocketMessage,
    pub reply: Option<tokio::sync::oneshot::Sender<Result<String, String>>>,
}

impl From<WebsocketMessage> for Message {
    fn from(content: WebsocketMessage) -> (message: Message) {
        Message { content, reply: None }
    }
}

impl vstd::std_specs::convert::FromSpecImpl<WebsocketMessage> for Message {
    open spec fn obeys_from_spec() -> bool {
        true
    }

    open spec fn from_spec(content: WebsocketMessage) -> Message {
        Message { content, reply: None }
    }
}

} // verus!
