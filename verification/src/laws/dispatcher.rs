//! What the dispatcher makes of a request.

use std::collections::VecDeque;

use tokio::sync::broadcast::{Receiver, Sender};
use vstd::prelude::*;

use crate::actor::broker::{
    sent_over, subscribed_to, Broker, Topic,
};
use crate::actor::dispatcher::{
    broadcast_outcome, failure_reply, handle_inventory_creation_result, loop_step, Dispatcher,
    Failure, FollowUp, Handled, LoopEvent, LoopStep, Published,
};
use crate::actor::inventory::Status;
use crate::actor::model::{InternalMessage, Message, Task, TaskRequest, WebsocketMessage};
use crate::ids::hyphenated_text;
use crate::persistence::worker::OpType;

verus! {

/// Whether the task was put behind all that wait, with all that was asked for,
/// and nothing else changed.
pub open spec fn is_queued(
    before: Dispatcher,
    request: TaskRequest,
    after: Dispatcher,
    handled: Handled,
) -> bool {
    let n = before.queue@.len() as int;
    &&& after.queue@.len() == n + 1
    &&& after.queue@[n].id == request.owner
    &&& after.queue@[n].request_id == request.request_id
    &&& after.queue@[n].kind == request.kind
    &&& after.queue@[n].respond_to == request.respond_to
    &&& forall|i: int| 0 <= i < n ==> #[trigger] after.queue@[i] == before.queue@[i]
    &&& after.inventories@ == before.inventories@
    &&& after.active_tasks == before.active_tasks
    &&& after.broker == before.broker
    &&& handled.reply matches Ok(text) && text@ == "Task request received"@
    &&& handled.follow_up == FollowUp::Announce(InternalMessage::TaskAdded)
}

/// The task that is queued is, field by field, the one that was asked for; it
/// waits behind the others and is announced.
pub proof fn law_queued_task_is_what_was_asked_for(
    dispatcher: &mut Dispatcher,
    request: TaskRequest,
    handled: Handled,
    whole: &mut Dispatcher,
    answered: Handled,
)
    requires
        call_ensures(Dispatcher::handle_task_request, (dispatcher, request), handled),
        call_ensures(
            Dispatcher::process_message_content,
            (whole, WebsocketMessage::TaskRequest(request)),
            answered,
        ),
    ensures
        is_queued(*old(dispatcher), request, *final(dispatcher), handled),
        is_queued(*old(whole), request, *final(whole), answered),
{
}

/// Whether an inventory was made for `id`: empty, listening on the inventory
/// topic, to be restored under its own key; nothing else changed.
pub open spec fn is_made(before: Dispatcher, id: u128, after: Dispatcher, handled: Handled) -> bool {
    &&& after.queue@ == before.queue@
    &&& after.active_tasks == before.active_tasks
    &&& after.inventories@.contains_key(id)
    &&& after.inventories@[id].id == id
    &&& after.inventories@[id].status == Status::Listening
    &&& forall|name: Seq<char>| !after.inventories@[id].resources@.contains_key(name)
    &&& forall|receipt: u128| !after.inventories@[id].reserved@.contains_key(receipt)
    &&& forall|other: u128|
        other != id ==> (#[trigger] after.inventories@.contains_key(other)
            <==> before.inventories@.contains_key(other))
    &&& forall|other: u128|
        other != id && #[trigger] before.inventories@.contains_key(other)
            ==> after.inventories@[other] == before.inventories@[other]
    &&& handled.reply matches Ok(text) && text@ == "Inventory added and listening"@
    &&& handled.follow_up matches FollowUp::Listen { id: listener, topic, restore } && listener
        == id && after.broker@.contains_key("inventory"@) && topic
        == after.broker@["inventory"@] && (restore matches OpType::Get(key) && key@
        == "inventory:"@ + hyphenated_text(id))
    &&& forall|name: Seq<char>|
        name != "inventory"@ ==> (#[trigger] after.broker@.contains_key(name)
            <==> before.broker@.contains_key(name))
    &&& forall|name: Seq<char>| #[trigger]
        before.broker@.contains_key(name) ==> after.broker@[name] == before.broker@[name]
}

/// Where a player has no inventory, adding one makes an empty one that listens.
pub proof fn law_added_inventory_is_new(
    dispatcher: &mut Dispatcher,
    id: u128,
    handled: Handled,
    whole: &mut Dispatcher,
    answered: Handled,
)
    requires
        call_ensures(Dispatcher::handle_add_inventory, (dispatcher, id), handled),
        !old(dispatcher).inventories@.contains_key(id),
        call_ensures(
            Dispatcher::process_message_content,
            (whole, WebsocketMessage::AddInventory(id)),
            answered,
        ),
        !old(whole).inventories@.contains_key(id),
    ensures
        is_made(*old(dispatcher), id, *final(dispatcher), handled),
        is_made(*old(whole), id, *final(whole), answered),
{
}

/// Where a player has an inventory, adding one changes nothing and says so.
pub proof fn law_present_inventory_is_kept(
    dispatcher: &mut Dispatcher,
    id: u128,
    handled: Handled,
    whole: &mut Dispatcher,
    answered: Handled,
)
    requires
        call_ensures(Dispatcher::handle_add_inventory, (dispatcher, id), handled),
        old(dispatcher).inventories@.contains_key(id),
        call_ensures(
            Dispatcher::process_message_content,
            (whole, WebsocketMessage::AddInventory(id)),
            answered,
        ),
        old(whole).inventories@.contains_key(id),
    ensures
        final(dispatcher).inventories@ == old(dispatcher).inventories@,
        final(dispatcher).queue@ == old(dispatcher).queue@,
        final(dispatcher).active_tasks == old(dispatcher).active_tasks,
        final(dispatcher).broker == old(dispatcher).broker,
        handled.reply matches Ok(text) && text@ == "Inventory already exists"@,
        handled.follow_up == FollowUp::Nothing,
        final(whole).inventories@ == old(whole).inventories@,
        answered.reply matches Ok(text) && text@ == "Inventory already exists"@,
        answered.follow_up == FollowUp::Nothing,
{
}

/// An inventory is made exactly where the player has none, and then the topic is
/// given that it listens on.
pub proof fn law_inventory_is_made_where_there_is_none(
    dispatcher: &mut Dispatcher,
    id: u128,
    created: Option<Topic>,
)
    requires
        call_ensures(Dispatcher::create_inventory_if_not_exists, (dispatcher, id), created),
    ensures
        created is Some <==> !old(dispatcher).inventories@.contains_key(id),
        final(dispatcher).inventories@.contains_key(id),
        created is Some ==> final(dispatcher).inventories@[id].id == id && final(dispatcher).inventories@[id].status == Status::Listening,
        created is Some ==> final(dispatcher).broker@.contains_key("inventory"@) && created->0
            == final(dispatcher).broker@["inventory"@],
        created is None ==> final(dispatcher).inventories@ == old(dispatcher).inventories@,
        forall|other: u128|
            other != id && #[trigger] old(dispatcher).inventories@.contains_key(other)
                ==> final(dispatcher).inventories@[other] == old(dispatcher).inventories@[other],
        final(dispatcher).queue == old(dispatcher).queue,
{
}

/// Whether the inventory `id` was taken out with all that it holds, to end its
/// listener, and nothing else changed.
pub open spec fn is_taken_out(
    before: Dispatcher,
    id: u128,
    after: Dispatcher,
    handled: Handled,
) -> bool {
    &&& after.queue@ == before.queue@
    &&& after.active_tasks == before.active_tasks
    &&& after.broker == before.broker
    &&& !after.inventories@.contains_key(id)
    &&& forall|other: u128|
        other != id ==> (#[trigger] after.inventories@.contains_key(other)
            <==> before.inventories@.contains_key(other))
    &&& forall|other: u128|
        other != id && #[trigger] before.inventories@.contains_key(other)
            ==> after.inventories@[other] == before.inventories@[other]
    &&& handled.reply matches Ok(text) && text@ == "Inventory "@ + hyphenated_text(id)
        + " removed"@
    &&& handled.follow_up is Retire
    &&& handled.follow_up->Retire_0.id == before.inventories@[id].id
    &&& handled.follow_up->Retire_0.status == Status::Stopping
    &&& handled.follow_up->Retire_0.resources == before.inventories@[id].resources
    &&& handled.follow_up->Retire_0.reserved == before.inventories@[id].reserved
}

/// Removing an inventory that is there takes it out.
pub proof fn law_removed_inventory_is_gone(
    dispatcher: &mut Dispatcher,
    id: u128,
    handled: Handled,
    whole: &mut Dispatcher,
    answered: Handled,
)
    requires
        call_ensures(Dispatcher::remove_inventory_and_stop, (dispatcher, id), handled),
        old(dispatcher).inventories@.contains_key(id),
        call_ensures(
            Dispatcher::process_message_content,
            (whole, WebsocketMessage::RemoveInventory(id)),
            answered,
        ),
        old(whole).inventories@.contains_key(id),
    ensures
        is_taken_out(*old(dispatcher), id, *final(dispatcher), handled),
        is_taken_out(*old(whole), id, *final(whole), answered),
{
}

/// Removing an inventory that is not there is refused and changes nothing.
pub proof fn law_absent_inventory_is_not_removed(
    dispatcher: &mut Dispatcher,
    id: u128,
    handled: Handled,
    whole: &mut Dispatcher,
    answered: Handled,
)
    requires
        call_ensures(Dispatcher::remove_inventory_and_stop, (dispatcher, id), handled),
        !old(dispatcher).inventories@.contains_key(id),
        call_ensures(
            Dispatcher::process_message_content,
            (whole, WebsocketMessage::RemoveInventory(id)),
            answered,
        ),
        !old(whole).inventories@.contains_key(id),
    ensures
        final(dispatcher).inventories@ == old(dispatcher).inventories@,
        final(dispatcher).queue@ == old(dispatcher).queue@,
        final(dispatcher).active_tasks == old(dispatcher).active_tasks,
        final(dispatcher).broker == old(dispatcher).broker,
        handled.reply matches Err(text) && text@ == "Inventory "@ + hyphenated_text(id)
            + " doesn't exist"@,
        handled.follow_up == FollowUp::Nothing,
        final(whole).inventories@ == old(whole).inventories@,
        answered.reply matches Err(text) && text@ == "Inventory "@ + hyphenated_text(id)
            + " doesn't exist"@,
        answered.follow_up == FollowUp::Nothing,
{
    assert(final(dispatcher).inventories@ =~= old(dispatcher).inventories@);
    assert(final(whole).inventories@ =~= old(whole).inventories@);
}

/// An inventory that was made is answered as such with its topic; one that was
/// there, and a failure, are answered and followed by nothing.
pub proof fn law_creation_is_answered(
    topic: Topic,
    reason: String,
    id: u128,
    made: Handled,
    present: Handled,
    failed: Handled,
)
    requires
        call_ensures(handle_inventory_creation_result, (Ok(Some(topic)), id), made),
        call_ensures(handle_inventory_creation_result, (Ok(None), id), present),
        call_ensures(handle_inventory_creation_result, (Err(reason), id), failed),
    ensures
        made.reply matches Ok(text) && text@ == "Inventory added and listening"@,
        made.follow_up matches FollowUp::Listen { id: listener, topic: heard, restore } && listener
            == id && heard == topic && (restore matches OpType::Get(key) && key@ == "inventory:"@
            + hyphenated_text(id)),
        present.reply matches Ok(text) && text@ == "Inventory already exists"@,
        present.follow_up == FollowUp::Nothing,
        failed.reply matches Err(text) && text@ == reason@,
        failed.follow_up == FollowUp::Nothing,
{
}

/// What could not be handled is answered with what was not to be had.
pub proof fn law_failures_are_named(
    queue: Result<String, String>,
    inventories: Result<String, String>,
    handler: Result<String, String>,
)
    requires
        call_ensures(failure_reply, (Failure::QueueUnavailable,), queue),
        call_ensures(failure_reply, (Failure::InventoriesUnavailable,), inventories),
        call_ensures(failure_reply, (Failure::HandlerFailed,), handler),
    ensures
        queue matches Err(text) && text@ == "Internal error: queue unavailable"@,
        inventories matches Err(text) && text@ == "Internal error: inventories unavailable"@,
        handler matches Err(text) && text@ == "Internal error: handler failed"@,
{
}

/// The main loop handles every request that comes, and ends where none can come
/// or the signal is given.
pub proof fn law_loop_handles_until_the_end(
    message: Message,
    received: LoopStep,
    closed: LoopStep,
    signalled: LoopStep,
)
    requires
        call_ensures(loop_step, (LoopEvent::Received(Some(message)),), received),
        call_ensures(loop_step, (LoopEvent::Received(None),), closed),
        call_ensures(loop_step, (LoopEvent::ShutdownSignal,), signalled),
    ensures
        received == LoopStep::Process(message),
        closed == LoopStep::ShutDown,
        signalled == LoopStep::ShutDown,
{
}

/// A new dispatcher has no task and no inventory, and the broker it was given.
pub proof fn law_new_dispatcher_is_empty(broker: Broker, dispatcher: Dispatcher)
    requires
        call_ensures(Dispatcher::new, (broker,), dispatcher),
    ensures
        dispatcher.broker == broker,
        dispatcher.queue@.len() == 0,
        dispatcher.active_tasks == 0,
        forall|id: u128| !dispatcher.inventories@.contains_key(id),
{
}

/// The counts of tasks are of those that wait and those being worked on.
pub proof fn law_tasks_are_counted(
    dispatcher: Dispatcher,
    queue: &VecDeque<Task>,
    active: usize,
    pending: usize,
    total: usize,
)
    requires
        call_ensures(Dispatcher::queue, (&dispatcher,), queue),
        call_ensures(Dispatcher::active_task_count, (&dispatcher,), active),
        call_ensures(Dispatcher::pending_task_count, (&dispatcher,), pending),
        call_ensures(Dispatcher::total_task_count, (&dispatcher,), total),
    ensures
        queue@ == dispatcher.queue@,
        active == dispatcher.active_tasks,
        pending == dispatcher.queue@.len(),
        total == active + pending,
{
}

/// The task topic is where workers subscribe and tasks are signalled; neither
/// touches tasks or inventories.
pub proof fn law_tasks_are_signalled_to_workers(
    one: &mut Dispatcher,
    receiver: Receiver<InternalMessage>,
    two: &mut Dispatcher,
    message: InternalMessage,
    sent: Result<usize, InternalMessage>,
    three: &mut Dispatcher,
    sender: Sender<InternalMessage>,
)
    requires
        call_ensures(Dispatcher::subscribe, (one,), receiver),
        *old(two) == *final(one),
        call_ensures(Dispatcher::send, (two, message), sent),
        *old(three) == *final(two),
        call_ensures(Dispatcher::topic, (three,), sender),
    ensures
        final(one).broker@.contains_key("task"@),
        sender == final(one).broker@["task"@].sender,
        subscribed_to(sender, receiver),
        sent_over(sender, message, sent),
        sent matches Ok(subscribers) ==> subscribers > 0,
        sent matches Err(returned) ==> returned == message,
        final(three).broker@ == final(one).broker@,
        final(three).queue == old(one).queue,
        final(three).active_tasks == old(one).active_tasks,
        final(three).inventories == old(one).inventories,
{
}

/// A broadcast that succeeds has sent a copy on every topic there is; one that
/// does not hands the message back, from a topic that had no subscriber.
pub proof fn law_broadcast_reaches_every_topic(
    dispatcher: &mut Dispatcher,
    message: InternalMessage,
    sent: Result<(), InternalMessage>,
)
    requires
        call_ensures(Dispatcher::broadcast, (dispatcher, message), sent),
    ensures
        final(dispatcher).broker@ == old(dispatcher).broker@,
        final(dispatcher).queue == old(dispatcher).queue,
        final(dispatcher).inventories == old(dispatcher).inventories,
        sent is Ok ==> forall|name: Seq<char>| #[trigger]
            old(dispatcher).broker@.contains_key(name) ==> exists|
                copy: InternalMessage,
                subscribers: usize,
            |
                copy@ == message@ && subscribers > 0 && #[trigger] sent_over(
                    old(dispatcher).broker@[name].sender,
                    copy,
                    Ok(subscribers),
                ),
        sent matches Err(returned) ==> returned@ == message@ && exists|
            name: Seq<char>,
            copy: InternalMessage,
        |
            old(dispatcher).broker@.contains_key(name) && copy@ == message@ && #[trigger] sent_over(
                old(dispatcher).broker@[name].sender,
                copy,
                Err(returned),
            ),
{
    lemma_broadcast(old(dispatcher).broker@, message, sent);
}

proof fn lemma_broadcast(
    topics: Map<Seq<char>, Topic>,
    message: InternalMessage,
    sent: Result<(), InternalMessage>,
)
    requires
        exists|results: Seq<Published>| #[trigger]
            crate::actor::dispatcher::published_in_turn(topics, message@, results)
                && crate::actor::dispatcher::broadcast_to(results, sent),
    ensures
        sent is Ok ==> forall|name: Seq<char>| #[trigger]
            topics.contains_key(name) ==> exists|copy: InternalMessage, subscribers: usize|
                copy@ == message@ && subscribers > 0 && #[trigger] sent_over(
                    topics[name].sender,
                    copy,
                    Ok(subscribers),
                ),
        sent matches Err(returned) ==> exists|name: Seq<char>, copy: InternalMessage|
            topics.contains_key(name) && copy@ == message@ && #[trigger] sent_over(
                topics[name].sender,
                copy,
                Err(returned),
            ),
{
    let results = choose|results: Seq<Published>| #[trigger]
        crate::actor::dispatcher::published_in_turn(topics, message@, results)
            && crate::actor::dispatcher::broadcast_to(results, sent);
    match sent {
        Ok(_) => {
            if results.len() > 0 {
                assert(results[results.len() - 1].result is Ok);
            }
            assert forall|name: Seq<char>| #[trigger] topics.contains_key(name) implies exists|
                copy: InternalMessage,
                subscribers: usize,
            |
                copy@ == message@ && subscribers > 0 && #[trigger] sent_over(
                    topics[name].sender,
                    copy,
                    Ok(subscribers),
                ) by {
                let i = choose|i: int|
                    0 <= i < results.len() && #[trigger] results[i].topic@ == name;
                assert(results[i].result is Ok);
                assert(crate::actor::dispatcher::sent_on(
                    topics[results[i].topic@],
                    message@,
                    results[i].result,
                ));
                let subscribers = results[i].result->Ok_0;
                assert(results[i].result == Ok::<usize, InternalMessage>(subscribers));
            }
        },
        Err(returned) => {
            let i = choose|i: int|
                0 <= i < results.len() && #[trigger] results[i].result == Err::<
                    usize,
                    InternalMessage,
                >(returned);
            assert(crate::actor::dispatcher::sent_on(
                topics[results[i].topic@],
                message@,
                results[i].result,
            ));
            assert(topics.contains_key(results[i].topic@));
        },
    }
}

/// To stop at once is to send `Stop` on every topic.
pub proof fn law_force_stop_sends_stop(
    dispatcher: &mut Dispatcher,
    sent: Result<(), InternalMessage>,
)
    requires
        call_ensures(Dispatcher::force_stop, (dispatcher,), sent),
    ensures
        final(dispatcher).broker@ == old(dispatcher).broker@,
        sent is Ok ==> forall|name: Seq<char>| #[trigger]
            old(dispatcher).broker@.contains_key(name) ==> exists|
                copy: InternalMessage,
                subscribers: usize,
            |
                copy == InternalMessage::Stop && subscribers > 0 && #[trigger] sent_over(
                    old(dispatcher).broker@[name].sender,
                    copy,
                    Ok(subscribers),
                ),
{
    lemma_broadcast(old(dispatcher).broker@, InternalMessage::Stop, sent);
    if sent is Ok {
        assert forall|name: Seq<char>| #[trigger]
            old(dispatcher).broker@.contains_key(name) implies exists|
            copy: InternalMessage,
            subscribers: usize,
        |
            copy == InternalMessage::Stop && subscribers > 0 && #[trigger] sent_over(
                old(dispatcher).broker@[name].sender,
                copy,
                Ok(subscribers),
            ) by {
            let (copy, subscribers) = choose|copy: InternalMessage, subscribers: usize|
                copy@ == InternalMessage::Stop@ && subscribers > 0 && #[trigger] sent_over(
                    old(dispatcher).broker@[name].sender,
                    copy,
                    Ok(subscribers),
                );
            assert(copy == InternalMessage::Stop);
        }
    }
}

/// A message is published on each topic at most once, on each with subscribers
/// before the first without, and on all of them where none is without.
pub proof fn law_topics_are_published_on_in_turn(
    dispatcher: &mut Dispatcher,
    message: InternalMessage,
    results: Vec<Published>,
)
    requires
        call_ensures(Dispatcher::publish_all, (dispatcher, message), results),
    ensures
        final(dispatcher).broker@ == old(dispatcher).broker@,
        forall|i: int, j: int|
            0 <= i < j < results@.len() ==> #[trigger] results@[i].topic@
                != #[trigger] results@[j].topic@,
        forall|i: int|
            0 <= i < results@.len() ==> old(dispatcher).broker@.contains_key(
                #[trigger] results@[i].topic@,
            ),
        forall|i: int| 0 <= i < results@.len() - 1 ==> #[trigger] results@[i].result is Ok,
        (forall|i: int| 0 <= i < results@.len() ==> #[trigger] results@[i].result is Ok) ==> forall|
            name: Seq<char>,
        | #[trigger]
            old(dispatcher).broker@.contains_key(name) ==> exists|i: int|
                0 <= i < results@.len() && #[trigger] results@[i].topic@ == name,
{
    if results@.len() > 0 {
        assert(results@.last() == results@[results@.len() - 1]);
    }
}

/// A broadcast comes to the first refusal, or succeeds where there is none.
pub proof fn law_broadcast_comes_to_the_first_refusal(
    results: Vec<Published>,
    sent: Result<(), InternalMessage>,
    i: int,
)
    requires
        call_ensures(broadcast_outcome, (results,), sent),
    ensures
        (forall|j: int| 0 <= j < results@.len() ==> #[trigger] results@[j].result is Ok)
            <==> sent is Ok,
        (0 <= i < results@.len() && results@[i].result is Err && forall|j: int|
            0 <= j < i ==> #[trigger] results@[j].result is Ok) ==> sent == Err::<
            (),
            InternalMessage,
        >(results@[i].result->Err_0),
{
    if 0 <= i < results@.len() && results@[i].result is Err {
        assert(!(results@[i].result is Ok));
    }
    if sent is Err {
        let k = choose|k: int|
            0 <= k < results@.len() && #[trigger] results@[k].result == Err::<
                usize,
                InternalMessage,
            >(sent->Err_0) && forall|j: int| 0 <= j < k ==> #[trigger] results@[j].result is Ok;
        assert(!(results@[k].result is Ok));
        if 0 <= i < results@.len() && results@[i].result is Err && (forall|j: int|
            0 <= j < i ==> #[trigger] results@[j].result is Ok) {
            if k < i {
                assert(results@[k].result is Ok);
            }
            if i < k {
                assert(results@[i].result is Ok);
            }
        }
    }
}

} // verus!
