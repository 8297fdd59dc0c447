use building_game::actor::broker::{
    Broker, INVENTORY_TOPIC, TASK_TOPIC, TOPIC_CAPACITY, WEBSOCKET_TOPIC,
};
use building_game::actor::model::{InternalMessage, Signal};
use building_game::blueprint::model::Value;
use building_game::table::Table;

#[test]
fn one_name_stands_for_one_channel() {
    let mut broker = Broker::new();
    let one = broker.topic(WEBSOCKET_TOPIC);
    let two = broker.topic(WEBSOCKET_TOPIC);
    assert_eq!(one.name, "websocket");
    assert!(one.sender.same_channel(&two.sender));
    assert!(one.sender.same_channel(&one.clone().sender));
    let other = broker.topic(INVENTORY_TOPIC);
    assert_eq!(other.name, "inventory");
    assert!(!one.sender.same_channel(&other.sender));
    assert!(broker
        .topic(WEBSOCKET_TOPIC)
        .sender
        .same_channel(&one.sender));
}

#[test]
fn topics_are_listed_once_each() {
    let mut broker = Broker::default();
    assert!(broker.topics().is_empty());
    broker.topic(TASK_TOPIC);
    broker.topic(INVENTORY_TOPIC);
    broker.topic(TASK_TOPIC);
    let _subscription = broker.subscribe(WEBSOCKET_TOPIC);
    let mut names = broker.topics();
    names.sort();
    assert_eq!(names, vec!["inventory", "task", "websocket"]);
}

#[test]
fn messages_reach_those_who_subscribed_before() {
    let mut broker = Broker::new();
    let mut early = broker.subscribe(TASK_TOPIC);
    let topic = broker.topic(TASK_TOPIC);
    let mut request = Table::new();
    request.insert(
        "wood".to_string(),
        Value {
            name: "wood".to_string(),
            value: 7,
        },
    );
    assert!(matches!(
        topic.publish(InternalMessage::InventoryReserveRequest(request)),
        Ok(1)
    ));
    let mut late = topic.subscribe();
    match early.try_recv() {
        Ok(InternalMessage::InventoryReserveRequest(copy)) => {
            assert_eq!(copy.len(), 1);
            assert_eq!(copy.get(&"wood".to_string()).unwrap().value, 7);
        }
        _ => panic!("not received"),
    }
    assert!(late.try_recv().is_err());
    assert!(matches!(topic.publish(InternalMessage::Stop), Ok(2)));
}

#[test]
fn without_subscribers_a_message_comes_back() {
    let topic = Broker::new().topic(TASK_TOPIC);
    assert!(matches!(
        topic.publish(InternalMessage::InventoryReleaseRequest(3)),
        Err(InternalMessage::InventoryReleaseRequest(3))
    ));
}

#[test]
fn a_topic_keeps_messages_for_the_slow() {
    let mut broker = Broker::new();
    let mut slow = broker.subscribe(TASK_TOPIC);
    let topic = broker.topic(TASK_TOPIC);
    for _ in 0..TOPIC_CAPACITY {
        topic.publish(InternalMessage::TaskAdded).unwrap();
    }
    for _ in 0..TOPIC_CAPACITY {
        assert!(slow.try_recv().is_ok());
    }
    assert!(slow.try_recv().is_err());
}

#[test]
fn messages_are_copied_whole() {
    for message in [
        InternalMessage::TaskAdded,
        InternalMessage::GracefulStop,
        InternalMessage::Stop,
        InternalMessage::InventoryReserveResponse(Ok(5)),
        InternalMessage::InventoryReserveResponse(Err("why".to_string())),
        InternalMessage::InventoryReleaseRequest(6),
        InternalMessage::InventoryReleaseResponse(Ok(7)),
        InternalMessage::InventoryReleaseResponse(Err("not".to_string())),
    ] {
        assert_eq!(format!("{:?}", message.clone()), format!("{message:?}"));
    }
    assert_ne!(Signal::TaskAdded, Signal::Stop);
}

#[test]
fn topics_do_not_hear_each_other() {
    let mut broker = Broker::new();
    let mut tasks = broker.subscribe(TASK_TOPIC);
    let mut inventories = broker.subscribe(INVENTORY_TOPIC);
    assert!(matches!(
        broker.topic(TASK_TOPIC).publish(InternalMessage::TaskAdded),
        Ok(1)
    ));
    assert!(matches!(tasks.try_recv(), Ok(InternalMessage::TaskAdded)));
    assert!(inventories.try_recv().is_err());
}
