use building_game::instrumentation::{build_carrier, carrier_for};
use building_game::table::Table;
use opentelemetry::trace::{SpanContext, SpanId, TraceFlags, TraceId, TraceState};

#[test]
fn a_table_holds_one_value_per_name() {
    let mut table: Table<u32> = Table::new();
    assert_eq!(table.len(), 0);
    assert_eq!(table.insert("a".to_string(), 1), None);
    assert_eq!(table.insert("b".to_string(), 2), None);
    assert_eq!(table.insert("a".to_string(), 3), Some(1));
    assert_eq!(table.len(), 2);
    assert_eq!(table.get(&"a".to_string()), Some(&3));
    assert_eq!(table.row(0), (&"a".to_string(), &3));
    assert_eq!(table.row(1), (&"b".to_string(), &2));
    assert!(table.contains_key(&"b".to_string()));
    assert!(!table.contains_key(&"B".to_string()));
}

#[test]
fn what_is_removed_is_gone() {
    let mut table: Table<u32> = Table::new();
    table.insert("a".to_string(), 1);
    table.insert("b".to_string(), 2);
    assert_eq!(table.remove(&"c".to_string()), None);
    assert_eq!(table.remove(&"a".to_string()), Some(1));
    assert_eq!(table.remove(&"a".to_string()), None);
    assert_eq!(table.get(&"a".to_string()), None);
    assert_eq!(table.get(&"b".to_string()), Some(&2));
    assert_eq!(table.len(), 1);
}

#[test]
fn a_copy_of_a_table_is_its_own() {
    let mut table: Table<u32> = Table::new();
    table.insert("a".to_string(), 1);
    let mut copy = table.clone();
    copy.insert("a".to_string(), 2);
    assert_eq!(table.get(&"a".to_string()), Some(&1));
    assert_eq!(copy.get(&"a".to_string()), Some(&2));
}

#[test]
fn a_carrier_holds_the_trace() {
    let carrier = carrier_for(0x4bf9_2f35_77b3_4da6_a3ce_929d_0e0e_4736);
    assert_eq!(carrier.len(), 1);
    assert_eq!(
        carrier.get(&"traceparent".to_string()).unwrap(),
        "4bf92f3577b34da6a3ce929d0e0e4736"
    );
    assert_eq!(
        carrier_for(0xa).get(&"traceparent".to_string()).unwrap(),
        "0000000000000000000000000000000a"
    );
}

#[test]
fn a_carrier_agrees_with_the_span_context() {
    let ctx = SpanContext::new(
        TraceId::from_hex("58406520a006649127e371903a2de979").unwrap(),
        SpanId::INVALID,
        TraceFlags::default(),
        false,
        TraceState::default(),
    );
    let carrier = build_carrier(&ctx);
    assert_eq!(carrier.len(), 1);
    assert_eq!(
        carrier.get(&"traceparent".to_string()).unwrap(),
        "58406520a006649127e371903a2de979"
    );
}
