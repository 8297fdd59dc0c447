use building_game::persistence::error::MemoryDBError;
use building_game::persistence::inmemory::MemoryDatabase;
use building_game::persistence::worker::{
    delete_reply, set_reply, Op, OpType, Persister, PersistenceWorker,
};
use opentelemetry::trace::SpanContext;
use tokio::sync::oneshot;

type Reply = Result<String, MemoryDBError>;

/// Sends an operation to the worker and waits for the reply.
fn ask(worker: &mut PersistenceWorker<MemoryDatabase>, op_type: OpType) -> (Reply, bool) {
    let (reply_tx, mut reply_rx) = oneshot::channel();
    let handled = worker.handle_operation(
        Op {
            op_type,
            reply: Some(reply_tx),
            span_context: None,
        },
        SpanContext::empty_context(),
    );
    let sender = handled.reply_to.expect("an operation with a channel is answered");
    sender.send(handled.reply).unwrap();
    (reply_rx.try_recv().unwrap(), handled.running)
}

fn stop(worker: &mut PersistenceWorker<MemoryDatabase>) {
    let (reply, running) = ask(worker, OpType::Stop);
    assert_eq!(reply, Ok("Worker stopped".to_string()));
    assert!(!running);
}

#[test]
fn test_persistence_handle_insert() {
    let mut worker = PersistenceWorker::new(MemoryDatabase::new());
    let (reply, running) = ask(
        &mut worker,
        OpType::Put("key1".to_string(), "value1".to_string()),
    );
    assert!(reply.is_ok());
    assert!(running);
    assert_eq!(
        worker.backend().get(None, "key1".to_string()).unwrap(),
        "value1".to_string()
    );
    stop(&mut worker);
}

#[test]
fn test_persistence_handle_update() {
    let mut db = MemoryDatabase::new();
    assert!(db
        .set(None, "key1".to_string(), "value1".to_string())
        .is_ok());
    let mut worker = PersistenceWorker::new(db);
    let (reply, _) = ask(
        &mut worker,
        OpType::Put("key1".to_string(), "value2".to_string()),
    );
    assert!(reply.is_ok());
    assert_eq!(
        worker.backend().get(None, "key1".to_string()).unwrap(),
        "value2".to_string()
    );
    stop(&mut worker);
}

#[test]
fn test_persistence_handle_delete() {
    let mut db = MemoryDatabase::new();
    assert!(db
        .set(None, "key2".to_string(), "value2".to_string())
        .is_ok());
    let mut worker = PersistenceWorker::new(db);
    let (reply, _) = ask(&mut worker, OpType::Delete("key2".to_string()));
    assert!(reply.is_ok());
    assert_eq!(
        worker.backend().get(None, "key2".to_string()),
        Err(MemoryDBError::new("Key not found"))
    );
    stop(&mut worker);
}

#[test]
fn test_persistence_handle_get_existing() {
    let mut db = MemoryDatabase::new();
    assert!(db
        .set(None, "key3".to_string(), "value3".to_string())
        .is_ok());
    let mut worker = PersistenceWorker::new(db);
    let (reply, _) = ask(&mut worker, OpType::Get("key3".to_string()));
    assert_eq!(reply.unwrap(), "value3".to_string());
    stop(&mut worker);
}

#[test]
fn test_persistence_handle_get_nonexistent() {
    let mut worker = PersistenceWorker::new(MemoryDatabase::new());
    let (reply, _) = ask(&mut worker, OpType::Get("nonexistent".to_string()));
    assert!(reply.is_err());
    stop(&mut worker);
}

#[test]
fn operations_are_answered_in_words() {
    let mut worker = PersistenceWorker::new(MemoryDatabase::default());
    let (reply, running) = ask(&mut worker, OpType::Put("a".to_string(), "1".to_string()));
    assert_eq!(reply, Ok("Value set successfully".to_string()));
    assert!(running);
    let (reply, running) = ask(&mut worker, OpType::Delete("a".to_string()));
    assert_eq!(reply, Ok("Value deleted successfully".to_string()));
    assert!(running);
    let (reply, running) = ask(&mut worker, OpType::Get("a".to_string()));
    assert_eq!(reply, Err(MemoryDBError::new("Key not found")));
    assert!(running);
}

#[test]
fn deleting_an_unknown_key_succeeds() {
    let mut worker = PersistenceWorker::new(MemoryDatabase::new());
    let (reply, _) = ask(&mut worker, OpType::Delete("nobody".to_string()));
    assert_eq!(reply, Ok("Value deleted successfully".to_string()));
}

#[test]
fn an_operation_without_a_channel_is_carried_out() {
    let mut worker = PersistenceWorker::new(MemoryDatabase::new());
    let handled = worker.handle_operation(
        Op {
            op_type: OpType::Put("quiet".to_string(), "yes".to_string()),
            reply: None,
            span_context: Some(SpanContext::empty_context()),
        },
        SpanContext::empty_context(),
    );
    assert!(handled.reply_to.is_none());
    assert_eq!(handled.reply, Ok("Value set successfully".to_string()));
    assert!(handled.running);
    assert_eq!(
        worker.perform(None, OpType::Get("quiet".to_string())),
        Ok("yes".to_string())
    );
}

#[test]
fn a_read_gives_back_the_last_write_among_others() {
    let mut worker = PersistenceWorker::new(MemoryDatabase::new());
    for (key, value) in [("a", "1"), ("b", "2"), ("a", "3"), ("c", "4")] {
        let (reply, _) = ask(&mut worker, OpType::Put(key.to_string(), value.to_string()));
        assert!(reply.is_ok());
    }
    let (_, _) = ask(&mut worker, OpType::Delete("b".to_string()));
    let (_, _) = ask(&mut worker, OpType::Get("c".to_string()));
    assert_eq!(
        ask(&mut worker, OpType::Get("a".to_string())).0,
        Ok("3".to_string())
    );
    assert!(ask(&mut worker, OpType::Get("b".to_string())).0.is_err());
    assert_eq!(
        ask(&mut worker, OpType::Get("c".to_string())).0,
        Ok("4".to_string())
    );
}

#[test]
fn refusals_are_passed_on() {
    let refusal = MemoryDBError::new("disk full");
    assert_eq!(
        set_reply(Err(refusal)),
        Err(MemoryDBError::new("disk full"))
    );
    assert_eq!(
        delete_reply(Err(MemoryDBError::new("read only"))),
        Err(MemoryDBError::new("read only"))
    );
    assert_eq!(set_reply(Ok(())), Ok("Value set successfully".to_string()));
    assert_eq!(
        delete_reply(Ok(())),
        Ok("Value deleted successfully".to_string())
    );
}

#[test]
fn a_refusal_says_why() {
    let refusal = MemoryDBError::new("Key not found");
    assert_eq!(refusal.text(), "MemoryDB Error: Key not found");
    assert_eq!(refusal, MemoryDBError::new("Key not found"));
    assert_ne!(refusal, MemoryDBError::new("key not found"));
}
