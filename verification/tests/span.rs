use building_game::persistence::error::MemoryDBError;
use building_game::persistence::span::{
    operation_key, operation_notes, store_notes, Attribute, AttributeValue, Notes, Outcome,
};
use building_game::persistence::worker::OpType;

fn put() -> OpType {
    OpType::Put("k".to_string(), "h\u{e9}".to_string())
}

fn delete() -> OpType {
    OpType::Delete("k".to_string())
}

fn get() -> OpType {
    OpType::Get("k".to_string())
}

fn told(attributes: &[Attribute]) -> Vec<String> {
    attributes
        .iter()
        .map(|attribute| match &attribute.value {
            AttributeValue::Text(text) => format!("{}={}", attribute.name, text),
            AttributeValue::Length(length) => format!("{}={}", attribute.name, length),
            AttributeValue::Flag(flag) => format!("{}={}", attribute.name, flag),
            AttributeValue::Refusal => format!("{}!", attribute.name),
        })
        .collect()
}

fn happened(notes: &Notes) -> (String, Vec<String>) {
    let happening = notes.happening.as_ref().unwrap();
    (happening.name.clone(), told(&happening.attributes))
}

#[test]
fn spans_name_the_operation() {
    let done = Ok("ok".to_string());
    assert_eq!(
        told(&operation_notes(&put(), &done, true).attributes),
        vec!["key=k", "value_size=3", "operation=SET"]
    );
    assert_eq!(
        told(&operation_notes(&delete(), &done, true).attributes),
        vec!["key=k", "operation=DELETE"]
    );
    assert_eq!(
        told(&operation_notes(&get(), &done, true).attributes),
        vec!["key=k", "operation=GET"]
    );
    assert_eq!(
        told(&operation_notes(&OpType::Stop, &done, true).attributes),
        vec!["operation=STOP"]
    );
    assert_eq!(operation_key(&put()), Some("k".to_string()));
    assert_eq!(operation_key(&OpType::Stop), None);
}

#[test]
fn spans_tell_of_success() {
    let notes = operation_notes(&put(), &Ok("Value set successfully".to_string()), true);
    assert_eq!(
        happened(&notes),
        (
            "SET operation successful".to_string(),
            vec!["key=k".to_string(), "value_length=3".to_string()]
        )
    );
    assert!(matches!(notes.outcome, Outcome::Done));
    let notes = operation_notes(&get(), &Ok("four".to_string()), true);
    assert_eq!(
        happened(&notes),
        (
            "GET operation successful".to_string(),
            vec!["key=k".to_string(), "value_length=4".to_string()]
        )
    );
    let notes = operation_notes(&delete(), &Ok("x".to_string()), true);
    assert_eq!(
        happened(&notes),
        (
            "DELETE operation successful".to_string(),
            vec!["key=k".to_string()]
        )
    );
}

#[test]
fn spans_tell_of_refusals() {
    let notes = operation_notes(&get(), &Err(MemoryDBError::new("Key not found")), true);
    assert_eq!(
        happened(&notes),
        (
            "GET operation failed".to_string(),
            vec!["key=k".to_string(), "error!".to_string()]
        )
    );
    assert!(matches!(
        notes.outcome,
        Outcome::Failed(reason) if reason == "MemoryDB Error: Key not found"
    ));
}

#[test]
fn unanswered_operations_and_stops_have_no_outcome() {
    let done = Ok("ok".to_string());
    for notes in [
        operation_notes(&put(), &done, false),
        operation_notes(&OpType::Stop, &done, true),
    ] {
        assert!(notes.happening.is_none());
        assert!(matches!(notes.outcome, Outcome::Unset));
    }
}

#[test]
fn the_store_tells_what_it_held() {
    let held = Some("seven77".to_string());
    let notes = store_notes(&put(), &held);
    assert!(notes.attributes.is_empty());
    assert_eq!(
        happened(&notes),
        (
            "setting value in memory database".to_string(),
            vec!["key=k".to_string(), "value.size=3".to_string()]
        )
    );
    assert_eq!(
        told(&store_notes(&delete(), &held).attributes),
        vec!["key.deleted=true"]
    );
    assert_eq!(
        told(&store_notes(&delete(), &None).attributes),
        vec!["key.deleted=false"]
    );
    let notes = store_notes(&get(), &held);
    assert_eq!(
        happened(&notes),
        (
            "retrieved value from memory database".to_string(),
            vec!["key=k".to_string(), "value.size=7".to_string()]
        )
    );
    assert!(matches!(notes.outcome, Outcome::Done));
    let notes = store_notes(&get(), &None);
    assert_eq!(
        happened(&notes),
        (
            "key not found in memory database".to_string(),
            vec!["key=k".to_string()]
        )
    );
    assert!(matches!(
        notes.outcome,
        Outcome::Failed(reason) if reason == "key not found"
    ));
    assert!(store_notes(&OpType::Stop, &None).happening.is_none());
}
