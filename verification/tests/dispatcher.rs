use building_game::actor::broker::{Broker, INVENTORY_TOPIC, TASK_TOPIC};
use building_game::actor::dispatcher::{
    broadcast_outcome, failure_reply, handle_inventory_creation_result, loop_step, Dispatcher,
    Failure, FollowUp, LoopEvent, LoopStep, Published,
};
use building_game::actor::inventory::Status;
use building_game::actor::model::{
    InternalMessage, Message, TaskKind, TaskRequest, WebsocketMessage,
};
use building_game::actor::worker::start_next;
use building_game::persistence::worker::OpType;
use tokio::sync::mpsc;
use uuid::Uuid;

fn request(owner: u128, name: &str) -> TaskRequest {
    let (response_tx, _response_rx) = mpsc::channel(100);
    TaskRequest {
        owner,
        request_id: name.to_string(),
        kind: TaskKind::Build("test_item".to_string()),
        respond_to: response_tx,
    }
}

#[test]
fn test_dispatcher_add_inventory() {
    let mut dispatcher = Dispatcher::new(Broker::new());
    let id = Uuid::new_v4();
    let handled = dispatcher.handle_add_inventory(id.as_u128());
    let response = handled.reply;
    assert!(response.is_ok());
    assert_eq!(
        response.unwrap(),
        "Inventory added and listening".to_string()
    );
    assert!(matches!(
        handled.follow_up,
        FollowUp::Listen { id: who, topic, restore: OpType::Get(key) }
            if who == id.as_u128()
                && topic.name == INVENTORY_TOPIC
                && key == format!("inventory:{id}")
    ));
}

#[test]
fn test_dispatcher_remove_inventory() {
    let mut dispatcher = Dispatcher::new(Broker::new());
    let inventory_id = Uuid::new_v4();
    dispatcher.handle_add_inventory(inventory_id.as_u128());
    let handled = dispatcher.remove_inventory_and_stop(inventory_id.as_u128());
    let response = handled.reply;
    assert!(response.is_ok());
    assert_eq!(
        response.unwrap(),
        format!("Inventory {inventory_id} removed")
    );
    assert!(matches!(
        handled.follow_up,
        FollowUp::Retire(inventory)
            if inventory.id() == inventory_id.as_u128() && inventory.status == Status::Stopping
    ));
}

#[test]
fn test_dispatcher_handle_task_request() {
    let mut dispatcher = Dispatcher::new(Broker::new());
    let task_request = request(Uuid::new_v4().as_u128(), "test_request");
    let handled = dispatcher.handle_task_request(task_request);
    let response = handled.reply;
    assert!(response.is_ok());
    assert_eq!(response.unwrap(), "Task request received".to_string());
    assert_eq!(dispatcher.queue().len(), 1);
    assert!(matches!(
        handled.follow_up,
        FollowUp::Announce(InternalMessage::TaskAdded)
    ));
}

#[test]
fn a_second_inventory_for_the_same_player_is_not_made() {
    let mut dispatcher = Dispatcher::new(Broker::new());
    assert!(dispatcher.create_inventory_if_not_exists(3).is_some());
    assert!(dispatcher.create_inventory_if_not_exists(3).is_none());
    let handled = dispatcher.handle_add_inventory(3);
    assert_eq!(handled.reply, Ok("Inventory already exists".to_string()));
    assert!(matches!(handled.follow_up, FollowUp::Nothing));
    assert_eq!(dispatcher.inventories.len(), 1);
}

#[test]
fn an_inventory_is_removed_once() {
    let mut dispatcher = Dispatcher::new(Broker::new());
    dispatcher.handle_add_inventory(1);
    dispatcher.handle_add_inventory(2);
    assert!(dispatcher.remove_inventory_and_stop(1).reply.is_ok());
    let handled = dispatcher.remove_inventory_and_stop(1);
    assert_eq!(
        handled.reply,
        Err("Inventory 00000000-0000-0000-0000-000000000001 doesn't exist".to_string())
    );
    assert!(matches!(handled.follow_up, FollowUp::Nothing));
    assert_eq!(dispatcher.inventories.len(), 1);
    assert_eq!(dispatcher.inventories[&2].id(), 2);
}

#[test]
fn messages_go_where_they_belong() {
    let mut dispatcher = Dispatcher::new(Broker::default());
    let added = dispatcher.process_message_content(WebsocketMessage::AddInventory(8));
    assert_eq!(
        added.reply,
        Ok("Inventory added and listening".to_string())
    );
    let task = dispatcher.process_message_content(WebsocketMessage::TaskRequest(request(8, "r")));
    assert_eq!(task.reply, Ok("Task request received".to_string()));
    let removed = dispatcher.process_message_content(WebsocketMessage::RemoveInventory(8));
    assert_eq!(
        removed.reply,
        Ok("Inventory 00000000-0000-0000-0000-000000000008 removed".to_string())
    );
    assert_eq!(dispatcher.pending_task_count(), 1);
    assert!(dispatcher.inventories.is_empty());
}

#[test]
fn tasks_are_started_in_the_order_in_which_they_were_asked_for() {
    let mut dispatcher = Dispatcher::new(Broker::new());
    for (owner, name) in [(1, "first"), (2, "second"), (1, "third")] {
        dispatcher.handle_task_request(request(owner, name));
    }
    assert_eq!(dispatcher.total_task_count(), 3);
    let mut started = Vec::new();
    while let Ok(task) = start_next(&mut dispatcher.queue, &mut dispatcher.active_tasks) {
        started.push((task.id, task.request_id));
    }
    assert_eq!(
        started,
        vec![
            (1, "first".to_string()),
            (2, "second".to_string()),
            (1, "third".to_string())
        ]
    );
    assert_eq!(dispatcher.active_task_count(), 3);
    assert_eq!(dispatcher.pending_task_count(), 0);
    assert_eq!(dispatcher.total_task_count(), 3);
}

#[test]
fn a_task_keeps_what_was_asked_for() {
    let mut dispatcher = Dispatcher::new(Broker::new());
    dispatcher.handle_task_request(request(6, "castle"));
    let task = dispatcher.queue.pop_front().unwrap();
    assert_eq!(task.id, 6);
    assert_eq!(task.request_id, "castle");
    assert!(matches!(task.kind, TaskKind::Build(item) if item == "test_item"));
}

#[test]
fn signals_reach_the_task_topic() {
    let mut dispatcher = Dispatcher::new(Broker::new());
    assert!(matches!(
        dispatcher.send(InternalMessage::TaskAdded),
        Err(InternalMessage::TaskAdded)
    ));
    let mut one = dispatcher.subscribe();
    let mut two = dispatcher.topic().subscribe();
    assert!(matches!(dispatcher.send(InternalMessage::TaskAdded), Ok(2)));
    assert!(matches!(one.try_recv(), Ok(InternalMessage::TaskAdded)));
    assert!(matches!(two.try_recv(), Ok(InternalMessage::TaskAdded)));
    assert_eq!(TASK_TOPIC, "task");
}

#[test]
fn a_broadcast_reaches_every_topic() {
    let mut broker = Broker::new();
    let mut inventories = broker.subscribe(INVENTORY_TOPIC);
    let mut tasks = broker.subscribe(TASK_TOPIC);
    let mut dispatcher = Dispatcher::new(broker);
    assert!(dispatcher.broadcast(InternalMessage::GracefulStop).is_ok());
    assert!(matches!(
        inventories.try_recv(),
        Ok(InternalMessage::GracefulStop)
    ));
    assert!(matches!(tasks.try_recv(), Ok(InternalMessage::GracefulStop)));
    assert!(dispatcher.force_stop().is_ok());
    assert!(matches!(inventories.try_recv(), Ok(InternalMessage::Stop)));
    assert!(matches!(tasks.try_recv(), Ok(InternalMessage::Stop)));
}

#[test]
fn a_broadcast_ends_at_a_topic_without_subscribers() {
    let mut broker = Broker::new();
    let _deserted = broker.topic(INVENTORY_TOPIC);
    let mut tasks = broker.subscribe(TASK_TOPIC);
    let mut dispatcher = Dispatcher::new(broker);
    assert!(matches!(
        dispatcher.broadcast(InternalMessage::Stop),
        Err(InternalMessage::Stop)
    ));
    let results = dispatcher.publish_all(InternalMessage::Stop);
    assert_eq!(results.len(), 1);
    assert_eq!(results[0].topic, INVENTORY_TOPIC);
    assert!(results[0].result.is_err());
    assert!(tasks.try_recv().is_err());
}

#[test]
fn a_broadcast_without_topics_succeeds() {
    let mut dispatcher = Dispatcher::new(Broker::new());
    assert!(dispatcher.broadcast(InternalMessage::Stop).is_ok());
}

#[test]
fn the_first_refusal_is_what_a_broadcast_comes_to() {
    let taken = |n: usize| Published {
        topic: format!("topic {n}"),
        result: Ok(n),
    };
    assert!(broadcast_outcome(vec![]).is_ok());
    assert!(broadcast_outcome(vec![taken(1), taken(2)]).is_ok());
    let refused = Published {
        topic: "deserted".to_string(),
        result: Err(InternalMessage::TaskAdded),
    };
    assert!(matches!(
        broadcast_outcome(vec![taken(1), refused]),
        Err(InternalMessage::TaskAdded)
    ));
}

#[test]
fn the_loop_ends_when_nothing_can_come_or_at_a_signal() {
    let message = Message::from(WebsocketMessage::AddInventory(4));
    assert!(message.reply.is_none());
    assert!(matches!(
        loop_step(LoopEvent::Received(Some(message))),
        LoopStep::Process(Message {
            content: WebsocketMessage::AddInventory(4),
            ..
        })
    ));
    assert!(matches!(
        loop_step(LoopEvent::Received(None)),
        LoopStep::ShutDown
    ));
    assert!(matches!(
        loop_step(LoopEvent::ShutdownSignal),
        LoopStep::ShutDown
    ));
}

#[test]
fn internal_failures_are_answered() {
    assert_eq!(
        failure_reply(Failure::QueueUnavailable),
        Err("Internal error: queue unavailable".to_string())
    );
    assert_eq!(
        failure_reply(Failure::InventoriesUnavailable),
        Err("Internal error: inventories unavailable".to_string())
    );
    assert_eq!(
        failure_reply(Failure::HandlerFailed),
        Err("Internal error: handler failed".to_string())
    );
    let handled = handle_inventory_creation_result(
        Err("Internal error: handler failed".to_string()),
        1,
    );
    assert_eq!(
        handled.reply,
        Err("Internal error: handler failed".to_string())
    );
    assert!(matches!(handled.follow_up, FollowUp::Nothing));
}

#[test]
fn a_new_inventory_listens_where_broadcasts_go() {
    let mut dispatcher = Dispatcher::new(Broker::new());
    assert!(dispatcher.broker.topics().is_empty());
    let topic = dispatcher.create_inventory_if_not_exists(1).unwrap();
    assert_eq!(dispatcher.broker.topics(), vec![INVENTORY_TOPIC]);
    let again = dispatcher.create_inventory_if_not_exists(2).unwrap();
    assert!(topic.sender.same_channel(&again.sender));
    let mut listener = topic.subscribe();
    assert!(dispatcher.broadcast(InternalMessage::Stop).is_ok());
    assert!(matches!(listener.try_recv(), Ok(InternalMessage::Stop)));
}
