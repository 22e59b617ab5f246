use datum::names::NameMap;
use datum::value::{JsonNumber, JsonValue};

#[test]
fn name_map_keeps_arrival_order() {
    let mut map: NameMap<JsonValue> = NameMap::new();
    assert!(map.is_empty());
    assert_eq!(map.len(), 0);
    map.insert("name".to_string(), JsonValue::String("Ann".to_string()));
    map.insert("age".to_string(), JsonValue::Number(JsonNumber::PosInt(30)));
    assert!(!map.is_empty());
    assert_eq!(map.len(), 2);
    assert_eq!(map.name_at(0), "name");
    assert_eq!(map.name_at(1), "age");
    assert_eq!(map.value_at(1), &JsonValue::Number(JsonNumber::PosInt(30)));
}

#[test]
fn name_map_replaces_in_place() {
    let mut map: NameMap<JsonValue> = NameMap::new();
    map.insert("a".to_string(), JsonValue::Bool(true));
    map.insert("b".to_string(), JsonValue::Null);
    map.insert("a".to_string(), JsonValue::Bool(false));
    assert_eq!(map.len(), 2);
    assert_eq!(map.name_at(0), "a");
    assert_eq!(map.value_at(0), &JsonValue::Bool(false));
    assert_eq!(map.name_at(1), "b");
    assert_eq!(map.position("a"), Some(0));
    assert_eq!(map.position("b"), Some(1));
    assert_eq!(map.position("c"), None);
    assert_eq!(map.get("b"), Some(&JsonValue::Null));
    assert_eq!(map.get("A"), None);
}
