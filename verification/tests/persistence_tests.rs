use module_host::persistency::{new_memory_store, read_value, KeyValuePair, Save};

#[test]
fn fresh_store_holds_nothing() {
    let conn = new_memory_store().unwrap();
    // No record was ever persisted, so no value comes back; before the
    // first persist the table itself is missing, which the gateway
    // surfaces as a store error.
    let r = read_value(&conn, "k");
    assert!(r.is_err() || r.unwrap().is_none());
}

#[test]
fn persisted_record_reads_back() {
    let mut conn = new_memory_store().unwrap();
    let record = KeyValuePair { key: "k".to_string(), value: "v".to_string() };
    record.persist(&mut conn).unwrap();
    assert_eq!(read_value(&conn, "k").unwrap(), Some("v".to_string()));
    assert_eq!(read_value(&conn, "missing").unwrap(), None);
}

#[test]
fn last_write_wins() {
    let mut conn = new_memory_store().unwrap();
    for value in ["1", "2", "3"] {
        let record = KeyValuePair { key: "k".to_string(), value: value.to_string() };
        record.persist(&mut conn).unwrap();
    }
    assert_eq!(read_value(&conn, "k").unwrap(), Some("3".to_string()));
}

#[test]
fn persisting_twice_equals_persisting_once() {
    let mut once = new_memory_store().unwrap();
    let mut twice = new_memory_store().unwrap();
    let record = KeyValuePair { key: "k".to_string(), value: "v".to_string() };
    record.persist(&mut once).unwrap();
    let record = KeyValuePair { key: "k".to_string(), value: "v".to_string() };
    record.persist(&mut twice).unwrap();
    let record = KeyValuePair { key: "k".to_string(), value: "v".to_string() };
    record.persist(&mut twice).unwrap();
    assert_eq!(read_value(&once, "k").unwrap(), read_value(&twice, "k").unwrap());
}

#[test]
fn keys_do_not_interfere() {
    let mut conn = new_memory_store().unwrap();
    let a = KeyValuePair { key: "a".to_string(), value: "1".to_string() };
    a.persist(&mut conn).unwrap();
    let b = KeyValuePair { key: "b".to_string(), value: "2".to_string() };
    b.persist(&mut conn).unwrap();
    assert_eq!(read_value(&conn, "a").unwrap(), Some("1".to_string()));
    assert_eq!(read_value(&conn, "b").unwrap(), Some("2".to_string()));
}

#[test]
fn records_with_nul_characters_are_refused() {
    // The store reads text back through a C string, which would truncate
    // at the NUL; the gateway refuses such records instead.
    let mut conn = new_memory_store().unwrap();
    let record = KeyValuePair { key: "k".to_string(), value: "a\0b".to_string() };
    assert!(record.persist(&mut conn).is_err());
    let record = KeyValuePair { key: "k\0".to_string(), value: "v".to_string() };
    assert!(record.persist(&mut conn).is_err());
    assert!(read_value(&conn, "k\0").is_err());
}

#[test]
fn values_with_separator_bytes_round_trip() {
    // A value may legitimately carry `#` bytes once parsed.
    let mut conn = new_memory_store().unwrap();
    let record = KeyValuePair { key: "k".to_string(), value: "#v#".to_string() };
    record.persist(&mut conn).unwrap();
    assert_eq!(read_value(&conn, "k").unwrap(), Some("#v#".to_string()));
}
