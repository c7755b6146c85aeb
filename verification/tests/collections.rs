use mp_core::collections::{record_values, typed_keys, RecordExt};
use std::collections::HashMap;

#[test]
fn test_record_values() {
    let mut map = HashMap::new();
    map.insert("a", 1);
    map.insert("b", 2);
    map.insert("c", 3);

    let values = record_values(&map);
    assert_eq!(values.len(), 3);
    assert!(values.contains(&&1));
    assert!(values.contains(&&2));
    assert!(values.contains(&&3));
}

#[test]
fn test_typed_keys() {
    let mut map = HashMap::new();
    map.insert("a", 1);
    map.insert("b", 2);

    let keys = typed_keys(&map);
    assert_eq!(keys.len(), 2);
    assert!(keys.contains(&"a"));
    assert!(keys.contains(&"b"));
}

#[test]
fn values_repeat_what_keys_share() {
    let mut map: HashMap<u32, &str> = HashMap::new();
    map.insert(1, "x");
    map.insert(2, "x");
    map.insert(3, "y");
    let mut values: Vec<&str> = RecordExt::values(&map).into_iter().copied().collect();
    values.sort();
    assert_eq!(values, vec!["x", "x", "y"]);

    let mut keys = typed_keys(&map);
    keys.sort();
    assert_eq!(keys, vec![1, 2, 3]);
}

#[test]
fn an_empty_record_has_no_keys_and_no_values() {
    let map: HashMap<String, u8> = HashMap::new();
    assert!(record_values(&map).is_empty());
    assert!(typed_keys(&map).is_empty());
}
