use nu_plugin_umoka::store::saturating_add;
use nu_plugin_umoka::{Store, StoredValue};
use nu_protocol::{Record, Span, Value};
fn stored(v: Value) -> StoredValue {
    StoredValue::from_value(v)
}

#[test]
fn put_get_take_roundtrip() {
    let span = Span::test_data();
    let mut store = Store::new(16);
    let value = stored(Value::record(
        Record::from_iter([("name".to_string(), Value::string("alice", span))]),
        span,
    ));

    store.put("k".into(), value.clone());

    assert_eq!(store.get("k"), Some(value.clone()));
    assert_eq!(store.take("k"), Some(value));
    assert_eq!(store.get("k"), None);
}

#[test]
fn put_if_absent_reports_existing_value() {
    let span = Span::test_data();
    let mut store = Store::new(16);
    let first = stored(Value::string("first", span));
    let second = stored(Value::string("second", span));

    assert_eq!(store.put_if_absent("k".into(), first.clone()), (true, first.clone()));
    assert_eq!(store.put_if_absent("k".into(), second), (false, first));
}

#[test]
fn get_or_put_returns_existing_value() {
    let span = Span::test_data();
    let mut store = Store::new(16);
    let first = stored(Value::string("first", span));
    let second = stored(Value::string("second", span));

    assert_eq!(store.get_or_put("k".into(), first.clone()), first.clone());
    assert_eq!(store.get_or_put("k".into(), second), first);
}

#[test]
fn incr_initializes_and_increments_integer_values() {
    let span = Span::test_data();
    let mut store = Store::new(16);

    assert_eq!(store.incr("k".into(), 2, span), Ok(2));
    assert_eq!(store.incr("k".into(), 3, span), Ok(5));
}

#[test]
fn incr_rejects_non_integer_values() {
    let span = Span::test_data();
    let mut store = Store::new(16);

    store.put("k".into(), stored(Value::string("nope", span)));

    assert_eq!(store.incr("k".into(), 1, span), Err("Value is not an integer"));
}

#[test]
fn incr_leaves_non_integer_value_in_place() {
    let span = Span::test_data();
    let mut store = Store::new(16);
    let nope = stored(Value::string("nope", span));
    store.put("k".into(), nope.clone());
    assert!(store.incr("k".into(), 1, span).is_err());
    assert_eq!(store.get("k"), Some(nope));
}

#[test]
fn incr_stores_the_integer() {
    let span = Span::test_data();
    let mut store = Store::new(16);
    assert_eq!(store.incr("n".into(), -4, span), Ok(-4));
    assert_eq!(store.get("n"), Some(StoredValue::Int { val: -4, span }));
}

#[test]
fn incr_saturates_at_bounds() {
    let span = Span::test_data();
    let mut store = Store::new(16);
    store.put("hi".into(), StoredValue::Int { val: i64::MAX - 1, span });
    assert_eq!(store.incr("hi".into(), 5, span), Ok(i64::MAX));
    store.put("lo".into(), StoredValue::Int { val: i64::MIN + 1, span });
    assert_eq!(store.incr("lo".into(), -5, span), Ok(i64::MIN));
}

#[test]
fn saturating_add_matches_std() {
    for (a, b) in [(1i64, 2i64), (i64::MAX, 1), (i64::MIN, -1), (-7, 3), (i64::MAX, i64::MIN), (0, 0)] {
        assert_eq!(saturating_add(a, b), a.saturating_add(b));
    }
}

#[test]
fn is_nothing_only_for_nothing() {
    let span = Span::test_data();
    assert!(StoredValue::Nothing { span }.is_nothing());
    assert!(!StoredValue::Int { val: 0, span }.is_nothing());
    assert!(!stored(Value::string("", span)).is_nothing());
}

#[test]
fn clone_is_equal() {
    let span = Span::test_data();
    let v = stored(Value::string("x", span));
    assert_eq!(v.clone(), v);
    let i = StoredValue::Int { val: 3, span };
    assert_eq!(i.clone(), i);
}

#[test]
fn get_on_missing_key_is_none() {
    let mut store = Store::new(4);
    assert_eq!(store.get("missing"), None);
    assert_eq!(store.take("missing"), None);
}

#[test]
fn delete_reports_presence() {
    let span = Span::test_data();
    let mut store = Store::new(4);
    store.put("k".into(), StoredValue::Int { val: 1, span });
    assert!(store.has("k"));
    assert!(store.delete("k"));
    assert!(!store.has("k"));
    assert!(!store.delete("k"));
}

#[test]
fn clear_empties_the_store() {
    let span = Span::test_data();
    let mut store = Store::new(4);
    store.put("a".into(), StoredValue::Int { val: 1, span });
    store.put("b".into(), StoredValue::Int { val: 2, span });
    store.clear();
    assert!(!store.has("a"));
    assert!(!store.has("b"));
    assert_eq!(store.stats().entry_count, 0);
}

#[test]
fn stats_reports_count_and_capacity() {
    let span = Span::test_data();
    let mut store = Store::new(8);
    store.put("a".into(), StoredValue::Int { val: 1, span });
    store.put("b".into(), StoredValue::Int { val: 2, span });
    store.put("a".into(), StoredValue::Int { val: 3, span });
    let stats = store.stats();
    assert_eq!(stats.entry_count, 2);
    assert_eq!(stats.max_capacity, 8);
}

#[test]
fn stats_capacity_wraps_like_a_cast() {
    let mut store = Store::new(u64::MAX);
    assert_eq!(store.stats().max_capacity, -1);
}

#[test]
fn full_store_evicts_one_entry() {
    let span = Span::test_data();
    let mut store = Store::new(2);
    store.put("a".into(), StoredValue::Int { val: 1, span });
    store.put("b".into(), StoredValue::Int { val: 2, span });
    store.put("c".into(), StoredValue::Int { val: 3, span });
    assert_eq!(store.stats().entry_count, 2);
    assert_eq!(store.get("c"), Some(StoredValue::Int { val: 3, span }));
    assert!(store.has("a") != store.has("b"));
}

#[test]
fn full_store_update_of_present_key_evicts_nothing() {
    let span = Span::test_data();
    let mut store = Store::new(2);
    store.put("a".into(), StoredValue::Int { val: 1, span });
    store.put("b".into(), StoredValue::Int { val: 2, span });
    store.put("a".into(), StoredValue::Int { val: 9, span });
    assert_eq!(store.get("a"), Some(StoredValue::Int { val: 9, span }));
    assert_eq!(store.get("b"), Some(StoredValue::Int { val: 2, span }));
}

#[test]
fn zero_capacity_store_keeps_nothing() {
    let span = Span::test_data();
    let mut store = Store::new(0);
    store.put("k".into(), StoredValue::Int { val: 1, span });
    assert_eq!(store.get("k"), None);
    assert_eq!(store.stats().entry_count, 0);
}

#[test]
fn can_store_on_small_store() {
    let span = Span::test_data();
    let mut store = Store::new(1);
    assert!(store.can_store("a"));
    store.put("a".into(), StoredValue::Int { val: 1, span });
    assert!(store.can_store("a"));
    assert!(store.can_store("b"));
}

#[test]
fn from_value_sorts_integers_and_nothing() {
    let span = Span::test_data();
    assert_eq!(stored(Value::int(7, span)), StoredValue::Int { val: 7, span });
    assert_eq!(stored(Value::nothing(span)), StoredValue::Nothing { span });
    match stored(Value::string("7", span)) {
        StoredValue::Other(c) => assert_eq!(c.as_value(), &Value::string("7", span)),
        other => panic!("not carried: {:?}", other),
    }
}

#[test]
fn incr_on_value_read_as_integer() {
    let span = Span::test_data();
    let mut store = Store::new(4);
    store.put("n".into(), stored(Value::int(40, span)));
    assert_eq!(store.incr("n".into(), 2, span), Ok(42));
}
