use overvakt::ordered::OrderedMap;

#[test]
fn ordered_map_keeps_insertion_order() {
    let mut map: OrderedMap<u32> = OrderedMap::new();
    assert_eq!(map.len(), 0);
    assert!(map.insert("web".to_string(), 1).is_none());
    assert!(map.insert("api".to_string(), 2).is_none());
    assert!(map.insert("db".to_string(), 3).is_none());
    assert_eq!(map.len(), 3);
    assert_eq!(map.key_at(0), "web");
    assert_eq!(map.key_at(1), "api");
    assert_eq!(map.key_at(2), "db");
    assert_eq!(*map.value_at(0), 1);
    assert_eq!(*map.value_at(1), 2);
    assert_eq!(*map.value_at(2), 3);
}

#[test]
fn ordered_map_insert_of_a_known_key_keeps_its_place() {
    let mut map: OrderedMap<u32> = OrderedMap::new();
    map.insert("web".to_string(), 1);
    map.insert("api".to_string(), 2);
    assert_eq!(map.insert("web".to_string(), 7), Some(1));
    assert_eq!(map.len(), 2);
    assert_eq!(map.key_at(0), "web");
    assert_eq!(*map.value_at(0), 7);
    assert_eq!(map.key_at(1), "api");
    assert_eq!(*map.value_at(1), 2);
}

#[test]
fn ordered_map_finds_keys() {
    let mut map: OrderedMap<u32> = OrderedMap::new();
    map.insert("web".to_string(), 1);
    map.insert("api".to_string(), 2);
    assert_eq!(map.index_of("api"), Some(1));
    assert_eq!(map.index_of("web"), Some(0));
    assert_eq!(map.index_of("db"), None);
    assert!(map.contains_key("web"));
    assert!(!map.contains_key("we"));
    assert_eq!(map.get("api"), Some(&2));
    assert_eq!(map.get("nope"), None);
}

#[test]
fn ordered_map_get_index_past_the_end_is_none() {
    let mut map: OrderedMap<u32> = OrderedMap::new();
    map.insert("web".to_string(), 1);
    let first = map.get_index(0);
    assert!(matches!(first, Some((key, value)) if key == "web" && *value == 1));
    assert!(map.get_index(1).is_none());
}

#[test]
fn ordered_map_value_at_mut_changes_one_value() {
    let mut map: OrderedMap<u32> = OrderedMap::new();
    map.insert("a".to_string(), 1);
    map.insert("b".to_string(), 2);
    *map.value_at_mut(1) = 9;
    assert_eq!(*map.value_at(0), 1);
    assert_eq!(*map.value_at(1), 9);
    assert_eq!(map.key_at(1), "b");
}
