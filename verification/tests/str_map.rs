use test_proc_macros::str_map::StrMap;

#[test]
fn insert_then_get_gives_the_value() {
    let mut m = StrMap::new();
    m.insert("k".to_string(), "v".to_string());
    assert_eq!(m.get(&"k".to_string()).map(|s| s.as_str()), Some("v"));
}

#[test]
fn later_insert_replaces_earlier_value() {
    let mut m = StrMap::new();
    m.insert("k".to_string(), "v1".to_string());
    m.insert("j".to_string(), "w".to_string());
    m.insert("k".to_string(), "v2".to_string());
    assert_eq!(m.get(&"k".to_string()).map(|s| s.as_str()), Some("v2"));
    assert_eq!(m.get(&"j".to_string()).map(|s| s.as_str()), Some("w"));
}

#[test]
fn empty_map_has_nothing() {
    let m = StrMap::new();
    assert_eq!(m.get(&"k".to_string()), None);
}
