use std::collections::HashMap;

use building_game::actor::broker::{Broker, Topic, INVENTORY_TOPIC};
use building_game::actor::inventory::{
    persist_answer, restore_answer, Inventory, Receipt, SerializableInventory, Status,
    StorageAnswer,
};
use building_game::actor::model::InternalMessage;
use building_game::blueprint::model::Value;
use building_game::persistence::error::MemoryDBError;
use building_game::persistence::inmemory::MemoryDatabase;
use building_game::persistence::worker::{OpType, PersistenceWorker};
use building_game::table::Table;
use tokio::sync::broadcast::Receiver;
use uuid::Uuid;

fn wood() -> String {
    "wood".to_string()
}

fn amounts(rows: &[(&str, u64)]) -> Table<Value<u64>> {
    let mut table = Table::new();
    for (name, value) in rows {
        table.insert(
            name.to_string(),
            Value {
                name: name.to_string(),
                value: *value,
            },
        );
    }
    table
}

fn new_inventory(rows: &[(&str, u64)]) -> Inventory {
    let mut inventory = Inventory::new(Uuid::new_v4().as_u128());
    inventory.resources = amounts(rows);
    inventory
}

fn value_of(table: &Table<Value<u64>>, name: &str) -> Option<u64> {
    table.get(&name.to_string()).map(|v| v.value)
}

/// One round of the listener: hears the next message on the topic, deals with
/// it and publishes the response.
fn listen_once(
    inventory: &mut Inventory,
    listener: &mut Receiver<InternalMessage>,
    topic: &Topic,
) -> bool {
    if !inventory.listener_woken() {
        return false;
    }
    let received = listener.try_recv().expect("a message waits");
    if let InternalMessage::InventoryReleaseRequest(receipt_id) = &received {
        assert!(inventory.release_fits(*receipt_id));
    }
    let step = inventory.handle_inventory_message(Some(received));
    if let Some(response) = step.response {
        topic.publish(response).unwrap();
    }
    step.running
}

#[test]
fn test_reserve_success() {
    let mut broker = Broker::new();
    let topic = broker.topic(INVENTORY_TOPIC);
    let mut inventory = new_inventory(&[("wood", 200)]);
    inventory.listen();
    let mut listener = topic.subscribe();

    let request = amounts(&[("wood", 100)]);
    topic
        .publish(InternalMessage::InventoryReserveRequest(request))
        .unwrap();
    let mut rec = topic.subscribe();
    assert!(listen_once(&mut inventory, &mut listener, &topic));

    let id = match rec.try_recv().unwrap() {
        InternalMessage::InventoryReserveResponse(res) => {
            res.unwrap_or_else(|e| panic!("Reservation failed: {}", e))
        }
        _ => panic!("other message received"),
    };
    let remaining_wood = inventory
        .resources
        .get(&wood())
        .is_some_and(|w| w.value == 100);
    let reserved_wood = inventory
        .reserved
        .get(&id)
        .is_some_and(|w| w.resources.get(&wood()).is_some_and(|v| v.value == 100));
    assert!(remaining_wood);
    assert!(reserved_wood);
    assert_eq!(inventory.reserved[&id].id, id);
}

#[test]
fn test_reserve_insufficient_resources() {
    let mut broker = Broker::new();
    let topic = broker.topic(INVENTORY_TOPIC);
    let mut inventory = new_inventory(&[("wood", 50)]);
    inventory.listen();
    let mut listener = topic.subscribe();

    let request = amounts(&[("wood", 100)]);
    topic
        .publish(InternalMessage::InventoryReserveRequest(request))
        .unwrap();
    let mut rec = topic.subscribe();
    assert!(listen_once(&mut inventory, &mut listener, &topic));

    if let Ok(InternalMessage::InventoryReserveResponse(result)) = rec.try_recv() {
        assert!(result.is_err_and(|res| res == "insufficient resources"));
    } else {
        panic!("Failed to receive inventory reserve response");
    }
    assert!(inventory
        .resources
        .get(&wood())
        .is_some_and(|w| w.value == 50));
    assert!(inventory.reserved.len() == 0);
}

#[test]
fn test_inventory_listener_stop() {
    let mut broker = Broker::new();
    let topic = broker.topic(INVENTORY_TOPIC);
    let mut inventory = new_inventory(&[]);
    inventory.listen();
    let mut listener = topic.subscribe();

    topic.publish(InternalMessage::Stop).unwrap();
    assert!(!listen_once(&mut inventory, &mut listener, &topic));

    assert!(matches!(inventory.status, Status::Stopped));
}

#[test]
fn test_inventory_release() {
    let mut broker = Broker::new();
    let topic = broker.topic(INVENTORY_TOPIC);
    let mut inventory = new_inventory(&[("wood", 0)]);
    let receipt_id = Uuid::new_v4().as_u128();
    inventory.reserved.insert(
        receipt_id,
        Receipt {
            id: receipt_id,
            resources: amounts(&[("wood", 100)]),
        },
    );
    inventory.listen();
    let mut listener = topic.subscribe();

    let _ = topic.publish(InternalMessage::InventoryReleaseRequest(receipt_id));
    assert!(listen_once(&mut inventory, &mut listener, &topic));

    assert!(inventory
        .resources
        .get(&wood())
        .is_some_and(|v| v.value == 100));
    assert!(!inventory.reserved.contains_key(&receipt_id));
    assert!(matches!(
        listener.try_recv(),
        Ok(InternalMessage::InventoryReleaseResponse(Ok(id))) if id == receipt_id
    ));
}

#[test]
fn test_inventory_internal_stop() {
    let mut broker = Broker::new();
    let topic = broker.topic(INVENTORY_TOPIC);
    let mut inventory = new_inventory(&[]);
    inventory.listen();
    let mut listener = topic.subscribe();
    assert_eq!(inventory.status, Status::Listening);

    inventory.stop();
    assert_eq!(inventory.status, Status::Stopping);
    assert!(!listen_once(&mut inventory, &mut listener, &topic));
    assert_eq!(inventory.status, Status::Stopped);
}

#[test]
fn a_new_inventory_is_empty_and_listens() {
    let inventory = Inventory::new(42);
    assert_eq!(inventory.id(), 42);
    assert_eq!(inventory.status, Status::Listening);
    assert_eq!(inventory.resources.len(), 0);
    assert_eq!(inventory.reserved.len(), 0);
}

#[test]
fn a_listener_that_is_not_asked_to_end_goes_on() {
    let mut inventory = new_inventory(&[]);
    inventory.listen();
    assert!(inventory.listener_woken());
    assert_eq!(inventory.status, Status::Listening);
    inventory.stop();
    assert!(!inventory.listener_woken());
    assert_eq!(inventory.status, Status::Stopped);
}

#[test]
fn a_reservation_takes_all_or_nothing() {
    let mut inventory = new_inventory(&[("wood", 10), ("stone", 5)]);
    let response = inventory.process_reservation(amounts(&[("wood", 4), ("stone", 6)]), 1);
    assert!(matches!(
        response,
        InternalMessage::InventoryReserveResponse(Err(reason)) if reason == "insufficient resources"
    ));
    let response = inventory.process_reservation(amounts(&[("wood", 4), ("gold", 1)]), 1);
    assert!(matches!(
        response,
        InternalMessage::InventoryReserveResponse(Err(_))
    ));
    assert_eq!(value_of(&inventory.resources, "wood"), Some(10));
    assert_eq!(value_of(&inventory.resources, "stone"), Some(5));

    let response = inventory.process_reservation(amounts(&[("wood", 4), ("stone", 5)]), 1);
    assert!(matches!(
        response,
        InternalMessage::InventoryReserveResponse(Ok(1))
    ));
    assert_eq!(value_of(&inventory.resources, "wood"), Some(6));
    assert_eq!(value_of(&inventory.resources, "stone"), Some(0));
}

#[test]
fn an_empty_request_is_granted() {
    let mut inventory = new_inventory(&[]);
    let response = inventory.process_reservation(Table::new(), 9);
    assert!(matches!(
        response,
        InternalMessage::InventoryReserveResponse(Ok(9))
    ));
    assert_eq!(inventory.reserved.len(), 1);
}

#[test]
fn every_reservation_gets_a_receipt_of_its_own() {
    let mut inventory = new_inventory(&[("wood", 10)]);
    let mut ids = Vec::new();
    for _ in 0..3 {
        match inventory.handle_reserve_request(amounts(&[("wood", 2)])) {
            InternalMessage::InventoryReserveResponse(Ok(id)) => ids.push(id),
            _ => panic!("refused"),
        }
    }
    assert_eq!(inventory.reserved.len(), 3);
    assert_eq!(value_of(&inventory.resources, "wood"), Some(4));
    for id in ids {
        assert_eq!(Uuid::from_u128(id).get_version_num(), 4);
        assert!(inventory.reserved.contains_key(&id));
    }
}

#[test]
fn a_release_undoes_a_reservation_once() {
    let mut inventory = new_inventory(&[("wood", 10), ("stone", 3)]);
    inventory.process_reservation(amounts(&[("wood", 4)]), 7);
    assert!(inventory.release_fits(7));
    assert!(matches!(
        inventory.handle_release_request(7),
        InternalMessage::InventoryReleaseResponse(Ok(7))
    ));
    assert_eq!(value_of(&inventory.resources, "wood"), Some(10));
    assert_eq!(value_of(&inventory.resources, "stone"), Some(3));
    assert_eq!(inventory.reserved.len(), 0);
    assert!(matches!(
        inventory.handle_release_request(7),
        InternalMessage::InventoryReleaseResponse(Err(reason)) if reason == "no reservation found"
    ));
}

#[test]
fn what_is_free_and_what_is_set_aside_stay_the_same_together() {
    let mut inventory = new_inventory(&[("wood", 100)]);
    let total = |inventory: &Inventory| {
        value_of(&inventory.resources, "wood").unwrap()
            + inventory
                .reserved
                .values()
                .map(|r| value_of(&r.resources, "wood").unwrap_or(0))
                .sum::<u64>()
    };
    for (id, share) in [(1, 10), (2, 25), (3, 65), (4, 1)] {
        inventory.process_reservation(amounts(&[("wood", share)]), id);
        assert_eq!(total(&inventory), 100);
    }
    assert_eq!(inventory.reserved.len(), 3);
    for id in [2, 4, 1, 3] {
        inventory.handle_release_request(id);
        assert_eq!(total(&inventory), 100);
    }
    assert_eq!(value_of(&inventory.resources, "wood"), Some(100));
}

#[test]
fn a_release_brings_in_no_unknown_resource() {
    let mut inventory = new_inventory(&[("wood", 1)]);
    inventory.reserved.insert(
        5,
        Receipt {
            id: 5,
            resources: amounts(&[("gold", 7)]),
        },
    );
    inventory.handle_release_request(5);
    assert_eq!(value_of(&inventory.resources, "gold"), None);
    assert_eq!(value_of(&inventory.resources, "wood"), Some(1));
}

#[test]
fn a_release_that_does_not_fit_is_noticed() {
    let mut inventory = new_inventory(&[("wood", u64::MAX)]);
    inventory.reserved.insert(
        5,
        Receipt {
            id: 5,
            resources: amounts(&[("wood", 1)]),
        },
    );
    assert!(!inventory.release_fits(5));
    assert!(inventory.release_fits(6));
    inventory.resources = amounts(&[("wood", u64::MAX - 1)]);
    assert!(inventory.release_fits(5));
}

#[test]
fn other_messages_are_passed_over() {
    let mut inventory = new_inventory(&[("wood", 1)]);
    for message in [
        InternalMessage::TaskAdded,
        InternalMessage::GracefulStop,
        InternalMessage::InventoryReserveResponse(Ok(1)),
        InternalMessage::InventoryReleaseResponse(Err("x".to_string())),
    ] {
        let step = inventory.handle_inventory_message(Some(message));
        assert!(step.running);
        assert!(step.response.is_none());
    }
    assert_eq!(value_of(&inventory.resources, "wood"), Some(1));
    assert_eq!(inventory.status, Status::Listening);
    assert!(!inventory.handle_inventory_message(None).running);
    assert_eq!(inventory.status, Status::Stopped);
}

#[test]
fn what_is_stored_can_be_restored() {
    let id = 0x0123_4567_89ab_cdef_0123_4567_89ab_cdef;
    let mut inventory = Inventory::new(id);
    inventory.resources = amounts(&[("wood", 3), ("stone", 4)]);
    inventory.process_reservation(amounts(&[("stone", 1)]), 77);

    let mut storage = PersistenceWorker::new(MemoryDatabase::new());
    let put = inventory.persist(Ok("text".to_string())).unwrap();
    assert!(matches!(
        &put,
        OpType::Put(key, value)
            if key == "inventory:01234567-89ab-cdef-0123-456789abcdef" && value == "text"
    ));
    assert!(storage.perform(None, put).is_ok());
    let get = inventory.restore_operation();
    assert!(matches!(
        &get,
        OpType::Get(key) if key == "inventory:01234567-89ab-cdef-0123-456789abcdef"
    ));
    assert_eq!(storage.perform(None, get), Ok("text".to_string()));
    let elsewhere = Inventory::new(1).restore_operation();
    assert!(storage.perform(None, elsewhere).is_err());

    let snapshot = inventory.serialize();
    assert_eq!(snapshot.id, id);
    let mut other = Inventory::new(5);
    assert!(other.restore(Some(snapshot)).is_ok());
    assert_eq!(other.id(), 5);
    assert_eq!(value_of(&other.resources, "wood"), Some(3));
    assert_eq!(value_of(&other.resources, "stone"), Some(3));
    assert_eq!(value_of(&other.reserved[&77].resources, "stone"), Some(1));
}

#[test]
fn restoring_undoes_persisting() {
    let mut inventory = Inventory::new(12);
    inventory.resources = amounts(&[("wood", 9)]);
    inventory.process_reservation(amounts(&[("wood", 2)]), 1);
    let snapshot = inventory.serialize();
    let mut storage = PersistenceWorker::new(MemoryDatabase::new());
    let put = inventory.persist(Ok("twelve".to_string())).unwrap();
    assert_eq!(
        persist_answer(StorageAnswer::Reply(storage.perform(None, put))),
        Ok(())
    );
    let other = Inventory::new(13).persist(Ok("thirteen".to_string())).unwrap();
    assert!(storage.perform(None, other).is_ok());

    let mut again = Inventory::new(12);
    again.resources = amounts(&[("gold", 1)]);
    let reply = storage.perform(None, again.restore_operation());
    assert_eq!(
        restore_answer(StorageAnswer::Reply(reply)),
        Ok("twelve".to_string())
    );
    assert_eq!(again.restore(Some(snapshot)), Ok(()));
    assert_eq!(value_of(&again.resources, "wood"), Some(7));
    assert_eq!(value_of(&again.resources, "gold"), None);
    assert_eq!(again.reserved.len(), 1);
    assert_eq!(again.reserved[&1].id, 1);
    assert_eq!(value_of(&again.reserved[&1].resources, "wood"), Some(2));
}

#[test]
fn unreadable_storage_changes_nothing() {
    let mut inventory = new_inventory(&[("wood", 3)]);
    assert_eq!(
        inventory.restore(None),
        Err("Failed to deserialize inventory data".to_string())
    );
    assert_eq!(value_of(&inventory.resources, "wood"), Some(3));
    let empty = SerializableInventory {
        id: 1,
        resources: Table::new(),
        reserved: HashMap::new(),
    };
    assert_eq!(inventory.restore(Some(empty)), Ok(()));
    assert_eq!(value_of(&inventory.resources, "wood"), None);
}

#[test]
fn storage_trouble_is_named() {
    let inventory = new_inventory(&[]);
    assert!(matches!(
        inventory.persist(Err("no text".to_string())),
        Err(reason) if reason == "Serialization failed: no text"
    ));
    let refused = || StorageAnswer::Reply(Err(MemoryDBError::new("Key not found")));
    assert_eq!(
        restore_answer(StorageAnswer::Reply(Ok("data".to_string()))),
        Ok("data".to_string())
    );
    assert_eq!(
        restore_answer(refused()),
        Err("Error restoring inventory".to_string())
    );
    assert_eq!(
        restore_answer(StorageAnswer::NoReply),
        Err("Failed to receive restore response".to_string())
    );
    assert_eq!(
        restore_answer(StorageAnswer::NotSent),
        Err("Failed to send restore operation".to_string())
    );
    assert_eq!(
        persist_answer(StorageAnswer::Reply(Ok("done".to_string()))),
        Ok(())
    );
    assert_eq!(
        persist_answer(refused()),
        Err("Persistence operation failed".to_string())
    );
    assert_eq!(
        persist_answer(StorageAnswer::NoReply),
        Err("Failed to receive persist response".to_string())
    );
    assert_eq!(
        persist_answer(StorageAnswer::NotSent),
        Err("Failed to send persist operation".to_string())
    );
}
