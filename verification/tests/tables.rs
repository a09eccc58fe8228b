use instance_spec::name_map::NameMap;

#[test]
fn table_maps_names_to_values() {
    let mut table: NameMap<u32> = NameMap::new();
    assert!(table.is_empty());
    assert_eq!(table.len(), 0);
    assert_eq!(table.get("a"), None);
    table.insert("a".to_string(), 1);
    table.insert("b".to_string(), 2);
    assert!(!table.is_empty());
    assert_eq!(table.len(), 2);
    assert_eq!(table.get("a"), Some(&1));
    assert_eq!(table.get("b"), Some(&2));
    assert_eq!(table.get("c"), None);
    assert!(table.contains_key("b"));
    assert!(!table.contains_key("B"));
}

#[test]
fn table_keeps_the_order_of_first_insertion() {
    let mut table: NameMap<u32> = NameMap::new();
    table.insert("z".to_string(), 1);
    table.insert("a".to_string(), 2);
    table.insert("m".to_string(), 3);
    table.insert("a".to_string(), 4);
    assert_eq!(table.len(), 3);
    assert_eq!(table.name_at(0), "z");
    assert_eq!(table.name_at(1), "a");
    assert_eq!(table.name_at(2), "m");
    assert_eq!(*table.value_at(0), 1);
    assert_eq!(*table.value_at(1), 4);
    assert_eq!(*table.value_at(2), 3);
    assert_eq!(table.get("a"), Some(&4));
}
