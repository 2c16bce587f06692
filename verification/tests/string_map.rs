use pubsubman::string_map::StringMap;

fn text(s: &str) -> String {
    s.to_string()
}

#[test]
fn new_map_is_empty() {
    let map: StringMap<u32> = StringMap::new();
    assert!(map.is_empty());
    assert_eq!(map.len(), 0);
    assert!(!map.contains_key("a"));
    assert!(map.get("a").is_none());
    assert!(map.entry(0).is_none());
}

#[test]
fn insert_adds_and_replaces() {
    let mut map: StringMap<u32> = StringMap::new();
    assert_eq!(map.insert(text("a"), 1), None);
    assert_eq!(map.insert(text("b"), 2), None);
    assert_eq!(map.insert(text("a"), 3), Some(1));
    assert_eq!(map.len(), 2);
    assert_eq!(map.get("a"), Some(&3));
    assert_eq!(map.get("b"), Some(&2));
    assert!(!map.is_empty());
}

#[test]
fn replaced_key_keeps_its_place() {
    let mut map: StringMap<u32> = StringMap::new();
    map.insert(text("a"), 1);
    map.insert(text("b"), 2);
    map.insert(text("a"), 3);
    let first = map.entry(0).unwrap();
    assert_eq!((first.0.as_str(), *first.1), ("a", 3));
    let second = map.entry(1).unwrap();
    assert_eq!((second.0.as_str(), *second.1), ("b", 2));
    assert!(map.entry(2).is_none());
}

#[test]
fn remove_takes_the_entry_out() {
    let mut map: StringMap<u32> = StringMap::new();
    map.insert(text("a"), 1);
    map.insert(text("b"), 2);
    map.insert(text("c"), 3);
    assert_eq!(map.remove("b"), Some(2));
    assert_eq!(map.remove("b"), None);
    assert_eq!(map.len(), 2);
    assert!(!map.contains_key("b"));
    assert_eq!(map.entry(0).unwrap().0.as_str(), "a");
    assert_eq!(map.entry(1).unwrap().0.as_str(), "c");
}

#[test]
fn keys_differ_by_any_character() {
    let mut map: StringMap<u32> = StringMap::new();
    map.insert(text("topic"), 1);
    assert!(!map.contains_key("topi"));
    assert!(!map.contains_key("topics"));
    assert!(!map.contains_key("Topic"));
    assert!(!map.contains_key(""));
    assert!(map.contains_key("topic"));
}

#[test]
fn keys_may_hold_any_text() {
    let mut map: StringMap<u32> = StringMap::new();
    map.insert(text("ключ"), 1);
    map.insert(text("鍵"), 2);
    map.insert(text(""), 3);
    assert_eq!(map.get("ключ"), Some(&1));
    assert_eq!(map.get("鍵"), Some(&2));
    assert_eq!(map.get(""), Some(&3));
    assert_eq!(map.get("ключи"), None);
}

#[test]
fn from_pairs_lets_the_later_pair_win() {
    let map = StringMap::from_pairs(vec![
        (text("a"), 1),
        (text("b"), 2),
        (text("a"), 3),
    ]);
    assert_eq!(map.len(), 2);
    assert_eq!(map.get("a"), Some(&3));
    assert_eq!(map.get("b"), Some(&2));
}

#[test]
fn from_no_pairs_is_empty() {
    let map: StringMap<u32> = StringMap::from_pairs(vec![]);
    assert!(map.is_empty());
}

#[test]
fn clone_keeps_keys_order_and_values() {
    let mut map: StringMap<String> = StringMap::new();
    map.insert(text("b"), text("2"));
    map.insert(text("a"), text("1"));
    let copy = map.clone();
    assert_eq!(copy.len(), 2);
    assert_eq!(copy.entry(0).unwrap().0.as_str(), "b");
    assert_eq!(copy.entry(1).unwrap().0.as_str(), "a");
    assert_eq!(copy.get("a").unwrap().as_str(), "1");
    assert_eq!(copy.get("b").unwrap().as_str(), "2");
}
