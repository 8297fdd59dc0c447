//! The dispatcher: takes requests of players, keeps the task queue and the
//! inventories, and winds the game down.

use std::collections::{HashMap, VecDeque};

use tokio::sync::broadcast::{Receiver, Sender};
use vstd::prelude::*;

use crate::actor::broker::{
    asked_for, sent_over, subscribed_to, Broker, Topic, INVENTORY_TOPIC, TASK_TOPIC,
};
use crate::actor::inventory::{
    asks_for_stored, restore_operation_for, Inventory, Receipt, Status,
};
use crate::actor::model::{
    InternalMessage, Message, MessageView, Task, TaskRequest, WebsocketMessage,
};
use crate::blueprint::model::Value;
use crate::ids::{hyphenated_text, id_text};
use crate::persistence::worker::OpType;

verus! {

broadcast use vstd::std_specs::hash::group_hash_axioms;

/// How long a shutdown waits for tasks, in nanoseconds.
pub const MAX_WAIT_TIME: u64 = 10_000_000_000;

/// How many requests are handled at a time.
pub const CONCURRENT_TASKS: usize = 10;

/// How long a shutdown waits for workers, and for open connections, in
/// nanoseconds.
pub const HANDLE_WAIT: u64 = 5_000_000_000;

/// How long a shutdown pauses between two looks, in nanoseconds.
pub const POLL_PAUSE: u64 = 100_000_000;

/// Takes requests of players.
#[derive(Debug)]
pub struct Dispatcher {
    pub broker: Broker,
    /// The tasks that wait, in the order in which they were asked for.
    pub queue: VecDeque<Task>,
    /// How many tasks are being worked on.
    pub active_tasks: usize,
    pub inventories: HashMap<u128, Inventory>,
}

/// How a topic took a message.
#[derive(Debug)]
pub struct Published {
    /// The topic's name.
    pub topic: String,
    /// How many subscribers got the message, or the message where there is
    /// none.
    pub result: Result<usize, InternalMessage>,
}

/// Whether `result` is what comes of publishing a copy of `message` on `topic`.
pub open spec fn sent_on(
    topic: Topic,
    message: MessageView,
    result: Result<usize, InternalMessage>,
) -> bool {
    exists|copy: InternalMessage|
        copy@ == message && #[trigger] sent_over(topic.sender, copy, result)
}

/// Whether `results` tells of a message that was published on the topics, each
/// in turn, up to the first one without subscribers.
pub open spec fn published_in_turn(
    topics: Map<Seq<char>, Topic>,
    message: MessageView,
    results: Seq<Published>,
) -> bool {
    &&& forall|i: int|
        0 <= i < results.len() ==> topics.contains_key(#[trigger] results[i].topic@)
    &&& forall|i: int, j: int|
        0 <= i < j < results.len() ==> #[trigger] results[i].topic@ != #[trigger] results[j].topic@
    &&& forall|i: int| 0 <= i < results.len() - 1 ==> #[trigger] results[i].result is Ok
    &&& forall|i: int|
        0 <= i < results.len() ==> match #[trigger] results[i].result {
            Ok(subscribers) => subscribers > 0,
            Err(returned) => returned@ == message,
        }
    &&& forall|i: int|
        0 <= i < results.len() ==> sent_on(
            topics[results[i].topic@],
            message,
            #[trigger] results[i].result,
        )
    &&& results.len() == 0 || results.last().result is Ok ==> forall|name: Seq<char>| #[trigger]
        topics.contains_key(name) ==> exists|i: int|
            0 <= i < results.len() && #[trigger] results[i].topic@ == name
}

/// What a broadcast comes to where the topics took it so.
pub open spec fn broadcast_to(
    results: Seq<Published>,
    sent: Result<(), InternalMessage>,
) -> bool {
    match sent {
        Ok(_) => forall|i: int| 0 <= i < results.len() ==> #[trigger] results[i].result is Ok,
        Err(returned) => exists|i: int|
            0 <= i < results.len() && #[trigger] results[i].result == Err::<
                usize,
                InternalMessage,
            >(returned) && forall|j: int| 0 <= j < i ==> #[trigger] results[j].result is Ok,
    }
}

/// What is to be done once a request has been handled.
#[derive(Debug)]
pub enum FollowUp {
    Nothing,
    /// Publish this on the task topic.
    Announce(InternalMessage),
    /// Let the inventory listen on `topic`, and give it what the storage
    /// answers to `restore`.
    Listen { id: u128, topic: Topic, restore: OpType },
    /// The listener of this inventory, which is no longer the dispatcher's,
    /// is to end.
    Retire(Inventory),
}

/// What came of a request.
#[derive(Debug)]
pub struct Handled {
    pub reply: Result<String, String>,
    pub follow_up: FollowUp,
}

/// Why a request could not be handled at all.
#[derive(Debug, Clone, Copy, PartialEq, Eq, Structural)]
pub enum Failure {
    QueueUnavailable,
    InventoriesUnavailable,
    HandlerFailed,
}

/// What is replied to a request that could not be handled.
pub fn failure_reply(failure: Failure) -> (reply: Result<String, String>)
    ensures
        reply matches Err(text) && text@ == match failure {
            Failure::QueueUnavailable => "Internal error: queue unavailable"@,
            Failure::InventoriesUnavailable => "Internal error: inventories unavailable"@,
            Failure::HandlerFailed => "Internal error: handler failed"@,
        },
{
    match failure {
        Failure::QueueUnavailable => Err("Internal error: queue unavailable".to_string()),
        Failure::InventoriesUnavailable => Err(
            "Internal error: inventories unavailable".to_string(),
        ),
        Failure::HandlerFailed => Err("Internal error: handler failed".to_string()),
    }
}

/// The task that a request asks for.
pub open spec fn task_of(request: TaskRequest) -> Task {
    Task {
        id: request.owner,
        request_id: request.request_id,
        kind: request.kind,
        respond_to: request.respond_to,
    }
}

/// Whether `inventory` is a new one with the identifier `id`.
pub open spec fn is_new_inventory(inventory: Inventory, id: u128) -> bool {
    &&& inventory.id == id
    &&& inventory.status == Status::Listening
    &&& inventory.resources@ == Map::<Seq<char>, Value<u64>>::empty()
    &&& inventory.reserved@ == Map::<u128, Receipt>::empty()
}

/// What becomes of the inventories when one for `id` is to be made.
pub open spec fn inventory_added(
    before: Map<u128, Inventory>,
    id: u128,
    after: Map<u128, Inventory>,
) -> bool {
    if before.contains_key(id) {
        after == before
    } else {
        &&& after.contains_key(id)
        &&& is_new_inventory(after[id], id)
        &&& after == before.insert(id, after[id])
    }
}

/// What came of a request for a task.
pub open spec fn task_taken(
    before: Dispatcher,
    request: TaskRequest,
    after: Dispatcher,
    handled: Handled,
) -> bool {
    &&& after.broker == before.broker
    &&& after.active_tasks == before.active_tasks
    &&& after.inventories == before.inventories
    &&& after.queue@ == before.queue@.push(task_of(request))
    &&& handled.reply matches Ok(text) && text@ == "Task request received"@
    &&& handled.follow_up == FollowUp::Announce(InternalMessage::TaskAdded)
}

/// Whether the inventory `id` is to listen on `topic` and to be restored from
/// what is stored of it.
pub open spec fn listens(id: u128, topic: Topic, follow_up: FollowUp) -> bool {
    follow_up matches FollowUp::Listen { id: listener, topic: heard, restore } && listener == id
        && heard == topic && asks_for_stored(id, restore)
}

/// What becomes of the topics when an inventory for `id` is to be made: where
/// one is made, the inventory topic is asked for.
pub open spec fn inventory_topic_asked(before: Dispatcher, id: u128, after: Dispatcher) -> bool {
    if before.inventories@.contains_key(id) {
        after.broker == before.broker
    } else {
        asked_for(
            before.broker@,
            INVENTORY_TOPIC@,
            after.broker@,
            after.broker@[INVENTORY_TOPIC@],
        )
    }
}

/// What came of a request to add the inventory `id`.
pub open spec fn inventory_taken(
    before: Dispatcher,
    id: u128,
    after: Dispatcher,
    handled: Handled,
) -> bool {
    &&& inventory_topic_asked(before, id, after)
    &&& after.queue == before.queue
    &&& after.active_tasks == before.active_tasks
    &&& inventory_added(before.inventories@, id, after.inventories@)
    &&& if before.inventories@.contains_key(id) {
        &&& handled.reply matches Ok(text) && text@ == "Inventory already exists"@
        &&& handled.follow_up == FollowUp::Nothing
    } else {
        &&& handled.reply matches Ok(text) && text@ == "Inventory added and listening"@
        &&& listens(id, after.broker@[INVENTORY_TOPIC@], handled.follow_up)
    }
}

/// What came of a request to remove the inventory `id`.
pub open spec fn inventory_removed(
    before: Dispatcher,
    id: u128,
    after: Dispatcher,
    handled: Handled,
) -> bool {
    &&& after.broker == before.broker
    &&& after.queue == before.queue
    &&& after.active_tasks == before.active_tasks
    &&& after.inventories@ == before.inventories@.remove(id)
    &&& if before.inventories@.contains_key(id) {
        &&& handled.reply matches Ok(text) && text@ == "Inventory "@ + hyphenated_text(id)
            + " removed"@
        &&& handled.follow_up == FollowUp::Retire(
            Inventory { status: Status::Stopping, ..before.inventories@[id] },
        )
    } else {
        &&& handled.reply matches Err(text) && text@ == "Inventory "@ + hyphenated_text(id)
            + " doesn't exist"@
        &&& handled.follow_up == FollowUp::Nothing
    }
}

/// What came of any request.
pub open spec fn answered(
    before: Dispatcher,
    content: WebsocketMessage,
    after: Dispatcher,
    handled: Handled,
) -> bool {
    match content {
        WebsocketMessage::TaskRequest(request) => task_taken(before, request, after, handled),
        WebsocketMessage::AddInventory(id) => inventory_taken(before, id, after, handled),
        WebsocketMessage::RemoveInventory(id) => inventory_removed(before, id, after, handled),
    }
}

/// What the dispatcher's main loop hears.
pub enum LoopEvent {
    /// A request, or `None` where no further one can come.
    Received(Option<Message>),
    ShutdownSignal,
}

/// What the dispatcher's main loop does.
pub enum LoopStep {
    /// Handle the request and wait for the next.
    Process(Message),
    /// Leave the loop and shut down.
    ShutDown,
}

/// What the main loop does at `event`.
pub fn loop_step(event: LoopEvent) -> (step: LoopStep)
    ensures
        step == match event {
            LoopEvent::Received(Some(message)) => LoopStep::Process(message),
            LoopEvent::Received(None) | LoopEvent::ShutdownSignal => LoopStep::ShutDown,
        },
{
    match event {
        LoopEvent::Received(Some(message)) => LoopStep::Process(message),
        LoopEvent::Received(None) => LoopStep::ShutDown,
        LoopEvent::ShutdownSignal => LoopStep::ShutDown,
    }
}

impl Dispatcher {
    pub fn new(broker: Broker) -> (dispatcher: Self)
        ensures
            dispatcher.broker == broker,
            dispatcher.queue@ == Seq::<Task>::empty(),
            dispatcher.active_tasks == 0,
            dispatcher.inventories@ == Map::<u128, Inventory>::empty(),
    {
        Dispatcher {
            broker,
            queue: VecDeque::new(),
            active_tasks: 0,
            inventories: HashMap::new(),
        }
    }

    pub fn queue(&self) -> (queue: &VecDeque<Task>)
        ensures
            *queue == self.queue,
    {
        &self.queue
    }

    /// The sending side of the task topic.
    pub fn topic(&mut self) -> (sender: Sender<InternalMessage>)
        ensures
            final(self).queue == old(self).queue,
            final(self).active_tasks == old(self).active_tasks,
            final(self).inventories == old(self).inventories,
            asked_for(
                old(self).broker@,
                TASK_TOPIC@,
                final(self).broker@,
                final(self).broker@[TASK_TOPIC@],
            ),
            sender == final(self).broker@[TASK_TOPIC@].sender,
    {
        let topic = self.broker.topic(TASK_TOPIC);
        topic.sender
    }

    /// A subscription to the task topic.
    pub fn subscribe(&mut self) -> (receiver: Receiver<InternalMessage>)
        ensures
            final(self).queue == old(self).queue,
            final(self).active_tasks == old(self).active_tasks,
            final(self).inventories == old(self).inventories,
            asked_for(
                old(self).broker@,
                TASK_TOPIC@,
                final(self).broker@,
                final(self).broker@[TASK_TOPIC@],
            ),
            subscribed_to(final(self).broker@[TASK_TOPIC@].sender, receiver),
    {
        self.broker.subscribe(TASK_TOPIC)
    }

    /// Publishes on the task topic.
    pub fn send(&mut self, msg: InternalMessage) -> (sent: Result<usize, InternalMessage>)
        ensures
            final(self).queue == old(self).queue,
            final(self).active_tasks == old(self).active_tasks,
            final(self).inventories == old(self).inventories,
            asked_for(
                old(self).broker@,
                TASK_TOPIC@,
                final(self).broker@,
                final(self).broker@[TASK_TOPIC@],
            ),
            sent_over(final(self).broker@[TASK_TOPIC@].sender, msg, sent),
            sent matches Ok(subscribers) ==> subscribers > 0,
            sent matches Err(returned) ==> returned == msg,
    {
        let topic = self.broker.topic(TASK_TOPIC);
        topic.publish(msg)
    }

    /// Publishes on every topic in turn, up to the first one that refuses, and
    /// says how each took it.
    pub fn publish_all(&mut self, msg: InternalMessage) -> (results: Vec<Published>)
        ensures
            final(self).queue == old(self).queue,
            final(self).active_tasks == old(self).active_tasks,
            final(self).inventories == old(self).inventories,
            final(self).broker@ == old(self).broker@,
            published_in_turn(old(self).broker@, msg@, results@),
    {
        let names = self.broker.topics();
        let mut results: Vec<Published> = Vec::new();
        for i in 0..names.len()
            invariant
                self.queue == old(self).queue,
                self.active_tasks == old(self).active_tasks,
                self.inventories == old(self).inventories,
                self.broker@ == old(self).broker@,
                forall|name: Seq<char>|
                    old(self).broker@.contains_key(name) <==> exists|j: int|
                        0 <= j < names@.len() && #[trigger] names@[j]@ == name,
                forall|j: int, k: int|
                    0 <= j < k < names@.len() ==> #[trigger] names@[j]@ != #[trigger] names@[k]@,
                results@.len() == i,
                forall|j: int|
                    #![trigger results@[j]]
                    0 <= j < i ==> results@[j].topic@ == names@[j]@ && (
                    results@[j].result matches Ok(subscribers) && subscribers > 0),
                forall|j: int|
                    0 <= j < i ==> sent_on(
                        old(self).broker@[results@[j].topic@],
                        msg@,
                        #[trigger] results@[j].result,
                    ),
        {
            assert(old(self).broker@.contains_key(names@[i as int]@));
            let topic = self.broker.topic(names[i].as_str());
            let copy = msg.clone();
            let result = topic.publish(copy);
            assert(sent_on(old(self).broker@[names@[i as int]@], msg@, result));
            let refused = result.is_err();
            results.push(Published { topic: names[i].clone(), result });
            if refused {
                proof {
                    lemma_published(old(self).broker@, names@, results@, i as int);
                }
                return results;
            }
        }
        proof {
            assert forall|name: Seq<char>| #[trigger]
                old(self).broker@.contains_key(name) implies exists|i: int|
                0 <= i < results@.len() && #[trigger] results@[i].topic@ == name by {
                let j = choose|j: int| 0 <= j < names@.len() && #[trigger] names@[j]@ == name;
                assert(results@[j].topic@ == name);
            }
            lemma_published(old(self).broker@, names@, results@, names@.len() - 1);
        }
        results
    }

    /// Publishes on every topic in turn, up to the first one that refuses.
    pub fn broadcast(&mut self, msg: InternalMessage) -> (sent: Result<(), InternalMessage>)
        ensures
            final(self).queue == old(self).queue,
            final(self).active_tasks == old(self).active_tasks,
            final(self).inventories == old(self).inventories,
            final(self).broker@ == old(self).broker@,
            exists|results: Seq<Published>| #[trigger]
                published_in_turn(old(self).broker@, msg@, results) && broadcast_to(results, sent),
            sent matches Err(returned) ==> returned@ == msg@,
            old(self).broker@ == Map::<Seq<char>, Topic>::empty() ==> sent is Ok,
    {
        let results = self.publish_all(msg);
        proof {
            if results@.len() > 0 {
                assert(old(self).broker@.contains_key(results@[0].topic@));
            }
        }
        broadcast_outcome(results)
    }

    /// Tells all actors to stop at once.
    pub fn force_stop(&mut self) -> (sent: Result<(), InternalMessage>)
        ensures
            final(self).queue == old(self).queue,
            final(self).active_tasks == old(self).active_tasks,
            final(self).inventories == old(self).inventories,
            final(self).broker@ == old(self).broker@,
            exists|results: Seq<Published>| #[trigger]
                published_in_turn(old(self).broker@, MessageView::Stop, results) && broadcast_to(
                    results,
                    sent,
                ),
    {
        self.broadcast(InternalMessage::Stop)
    }

    pub fn active_task_count(&self) -> (count: usize)
        ensures
            count == self.active_tasks,
    {
        self.active_tasks
    }

    pub fn pending_task_count(&self) -> (count: usize)
        ensures
            count == self.queue@.len(),
    {
        self.queue.len()
    }

    /// How many tasks wait or are being worked on.
    pub fn total_task_count(&self) -> (count: usize)
        requires
            self.active_tasks + self.queue@.len() <= usize::MAX,
        ensures
            count == self.active_tasks + self.queue@.len(),
    {
        self.active_task_count() + self.pending_task_count()
    }

    /// Queues the task that `task_request` asks for.
    pub fn handle_task_request(&mut self, task_request: TaskRequest) -> (handled: Handled)
        ensures
            task_taken(*old(self), task_request, *final(self), handled),
    {
        let task = Task {
            id: task_request.owner,
            request_id: task_request.request_id,
            kind: task_request.kind,
            respond_to: task_request.respond_to,
        };
        self.queue.push_back(task);
        Handled {
            reply: Ok("Task request received".to_string()),
            follow_up: FollowUp::Announce(InternalMessage::TaskAdded),
        }
    }

    /// Makes an inventory for `id` unless there is one, and gives the topic that
    /// it is to listen on.
    pub fn create_inventory_if_not_exists(&mut self, id: u128) -> (created: Option<Topic>)
        ensures
            final(self).queue == old(self).queue,
            final(self).active_tasks == old(self).active_tasks,
            inventory_added(old(self).inventories@, id, final(self).inventories@),
            inventory_topic_asked(*old(self), id, *final(self)),
            match created {
                Some(topic) => !old(self).inventories@.contains_key(id)
                    && topic == final(self).broker@[INVENTORY_TOPIC@],
                None => old(self).inventories@.contains_key(id),
            },
    {
        if self.inventories.contains_key(&id) {
            None
        } else {
            let topic = self.broker.topic(INVENTORY_TOPIC);
            self.inventories.insert(id, Inventory::new(id));
            Some(topic)
        }
    }

    /// Adds an inventory for `id`.
    pub fn handle_add_inventory(&mut self, id: u128) -> (handled: Handled)
        ensures
            inventory_taken(*old(self), id, *final(self), handled),
    {
        let created = self.create_inventory_if_not_exists(id);
        handle_inventory_creation_result(Ok(created), id)
    }

    /// Takes the inventory `id` out and tells its listener to end.
    pub fn remove_inventory_and_stop(&mut self, id: u128) -> (handled: Handled)
        ensures
            inventory_removed(*old(self), id, *final(self), handled),
    {
        match self.inventories.remove(&id) {
            Some(inventory) => {
                let mut inventory = inventory;
                inventory.stop();
                Handled {
                    reply: Ok(
                        "Inventory ".to_string().concat(id_text(id).as_str()).concat(" removed"),
                    ),
                    follow_up: FollowUp::Retire(inventory),
                }
            },
            None => {
                assert(self.inventories@ =~= old(self).inventories@.remove(id));
                Handled {
                    reply: Err(
                        "Inventory ".to_string().concat(id_text(id).as_str()).concat(
                            " doesn't exist",
                        ),
                    ),
                    follow_up: FollowUp::Nothing,
                }
            },
        }
    }

    /// Handles a request of a player's connection.
    pub fn process_message_content(&mut self, content: WebsocketMessage) -> (handled: Handled)
        ensures
            answered(*old(self), content, *final(self), handled),
    {
        match content {
            WebsocketMessage::TaskRequest(task_request) => self.handle_task_request(task_request),
            WebsocketMessage::AddInventory(id) => self.handle_add_inventory(id),
            WebsocketMessage::RemoveInventory(id) => self.remove_inventory_and_stop(id),
        }
    }
}

proof fn lemma_published(
    topics: Map<Seq<char>, Topic>,
    names: Seq<String>,
    results: Seq<Published>,
    last: int,
)
    requires
        results.len() == last + 1 <= names.len(),
        forall|i: int| 0 <= i < names.len() ==> topics.contains_key(#[trigger] names[i]@),
        forall|i: int, j: int|
            0 <= i < j < names.len() ==> #[trigger] names[i]@ != #[trigger] names[j]@,
        forall|i: int| 0 <= i <= last ==> #[trigger] results[i].topic@ == names[i]@,
    ensures
        forall|i: int|
            0 <= i < results.len() ==> topics.contains_key(#[trigger] results[i].topic@),
        forall|i: int, j: int|
            0 <= i < j < results.len() ==> #[trigger] results[i].topic@
                != #[trigger] results[j].topic@,
{
    assert forall|i: int, j: int| 0 <= i < j < results.len() implies #[trigger] results[i].topic@
        != #[trigger] results[j].topic@ by {
        assert(names[i]@ != names[j]@);
    }
    assert forall|i: int| 0 <= i < results.len() implies topics.contains_key(
        #[trigger] results[i].topic@,
    ) by {
        assert(topics.contains_key(names[i]@));
    }
}

/// What a broadcast comes to: the message, where a topic handed it back.
pub fn broadcast_outcome(results: Vec<Published>) -> (sent: Result<(), InternalMessage>)
    ensures
        broadcast_to(results@, sent),
{
    let n = results.len();
    let mut i: usize = 0;
    while i < n && results[i].result.is_ok()
        invariant
            i <= n == results@.len(),
            forall|j: int| 0 <= j < i ==> #[trigger] results@[j].result is Ok,
        decreases n - i,
    {
        i = i + 1;
    }
    if i == n {
        return Ok(());
    }
    let mut rest = results;
    match rest.remove(i).result {
        Ok(_) => Ok(()),
        Err(returned) => Err(returned),
    }
}

/// What follows from the attempt to make an inventory for `id`: the topic of
/// one that was made, or why it could not be tried.
pub fn handle_inventory_creation_result(result: Result<Option<Topic>, String>, id: u128) -> (handled:
    Handled)
    ensures
        match result {
            Ok(Some(topic)) => {
                &&& handled.reply matches Ok(text) && text@ == "Inventory added and listening"@
                &&& listens(id, topic, handled.follow_up)
            },
            Ok(None) => {
                &&& handled.reply matches Ok(text) && text@ == "Inventory already exists"@
                &&& handled.follow_up == FollowUp::Nothing
            },
            Err(reason) => {
                &&& handled.reply == Err::<String, String>(reason)
                &&& handled.follow_up == FollowUp::Nothing
            },
        },
{
    match result {
        Ok(Some(topic)) => Handled {
            reply: Ok("Inventory added and listening".to_string()),
            follow_up: FollowUp::Listen { id, topic, restore: restore_operation_for(id) },
        },
        Ok(None) => Handled {
            reply: Ok("Inventory already exists".to_string()),
            follow_up: FollowUp::Nothing,
        },
        Err(reason) => Handled { reply: Err(reason), follow_up: FollowUp::Nothing },
    }
}

/// Whether each inventory goes by its own identifier.
pub open spec fn ids_agree(inventories: Map<u128, Inventory>) -> bool {
    forall|id: u128| #[trigger] inventories.contains_key(id) ==> inventories[id].id == id
}

/// Inventories go by their own identifiers, whichever are added and removed.
pub proof fn law_inventories_keep_their_ids(
    before: Dispatcher,
    id: u128,
    after: Dispatcher,
    handled: Handled,
)
    requires
        ids_agree(before.inventories@),
        inventory_taken(before, id, after, handled) || inventory_removed(
            before,
            id,
            after,
            handled,
        ),
    ensures
        ids_agree(after.inventories@),
{
}

/// A second wish for the same inventory changes nothing and is answered that
/// there is one.
pub proof fn law_second_add_changes_nothing(
    before: Dispatcher,
    id: u128,
    between: Dispatcher,
    first: Handled,
    after: Dispatcher,
    second: Handled,
)
    requires
        inventory_taken(before, id, between, first),
        inventory_taken(between, id, after, second),
    ensures
        after.inventories@ == between.inventories@,
        second.reply matches Ok(text) && text@ == "Inventory already exists"@,
        second.follow_up == FollowUp::Nothing,
{
}

/// Removing an inventory that was just made leaves the inventories as they
/// were.
pub proof fn law_remove_undoes_add(
    before: Dispatcher,
    id: u128,
    between: Dispatcher,
    added: Handled,
    after: Dispatcher,
    removed: Handled,
)
    requires
        !before.inventories@.contains_key(id),
        inventory_taken(before, id, between, added),
        inventory_removed(between, id, after, removed),
    ensures
        removed.reply is Ok,
        after.inventories@ == before.inventories@,
{
    assert(after.inventories@ =~= before.inventories@);
}

/// An inventory can be removed once; a second attempt is refused.
pub proof fn law_second_remove_is_refused(
    before: Dispatcher,
    id: u128,
    between: Dispatcher,
    first: Handled,
    after: Dispatcher,
    second: Handled,
)
    requires
        inventory_removed(before, id, between, first),
        inventory_removed(between, id, after, second),
    ensures
        second.reply is Err,
        second.follow_up == FollowUp::Nothing,
        after.inventories@ == between.inventories@,
{
    assert(after.inventories@ =~= between.inventories@);
}

/// No request changes the inventory of anyone but the one it names, and a
/// request for a task changes none.
pub proof fn law_other_inventories_stay(
    before: Dispatcher,
    content: WebsocketMessage,
    after: Dispatcher,
    handled: Handled,
    other: u128,
)
    requires
        answered(before, content, after, handled),
        content != WebsocketMessage::AddInventory(other),
        content != WebsocketMessage::RemoveInventory(other),
    ensures
        after.inventories@.contains_key(other) == before.inventories@.contains_key(other),
        before.inventories@.contains_key(other) ==> after.inventories@[other]
            == before.inventories@[other],
{
}

/// Once an inventory has been made there is an inventory topic for it to listen
/// on, and it stays the same one.
pub proof fn law_inventories_share_a_topic(
    before: Dispatcher,
    one: u128,
    between: Dispatcher,
    first: Handled,
    two: u128,
    after: Dispatcher,
    second: Handled,
)
    requires
        !before.inventories@.contains_key(one),
        inventory_taken(before, one, between, first),
        inventory_taken(between, two, after, second),
    ensures
        between.broker@.contains_key(INVENTORY_TOPIC@),
        after.broker@ == between.broker@,
        first.follow_up is Listen,
        second.follow_up is Listen ==> second.follow_up->topic == first.follow_up->topic,
{
}

/// The queue after all of `requests` have been taken.
pub open spec fn queue_after(queue: Seq<Task>, requests: Seq<TaskRequest>) -> Seq<Task>
    decreases requests.len(),
{
    if requests.len() == 0 {
        queue
    } else {
        queue_after(queue, requests.drop_last()).push(task_of(requests.last()))
    }
}

/// Tasks wait in the order in which they were asked for, behind those that
/// waited before.
pub proof fn law_tasks_wait_in_order(queue: Seq<Task>, requests: Seq<TaskRequest>)
    ensures
        queue_after(queue, requests) == queue + requests.map_values(
            |request: TaskRequest| task_of(request),
        ),
    decreases requests.len(),
{
    let tasks = requests.map_values(|request: TaskRequest| task_of(request));
    if requests.len() == 0 {
        assert(queue + tasks =~= queue);
    } else {
        let shorter = requests.drop_last();
        law_tasks_wait_in_order(queue, shorter);
        let fewer = shorter.map_values(|request: TaskRequest| task_of(request));
        assert((queue + fewer).push(task_of(requests.last())) =~= queue + tasks);
    }
}

} // verus!
