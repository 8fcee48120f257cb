use btc5min_limit_order::table::Table;

#[test]
fn a_table_keeps_one_value_for_each_key() {
    let mut table: Table<bool> = Table::new();
    assert!(table.get("a").is_none());
    table.insert("a".to_string(), false);
    table.insert("b".to_string(), true);
    table.insert("a".to_string(), true);
    assert_eq!(table.get("a"), Some(&true));
    assert_eq!(table.get("b"), Some(&true));
    let mut keys = table.keys();
    keys.sort();
    assert_eq!(keys, vec!["a".to_string(), "b".to_string()]);
    table.remove("a");
    table.remove("c");
    assert!(table.get("a").is_none());
    assert_eq!(table.get("b"), Some(&true));
    assert_eq!(table.keys(), vec!["b".to_string()]);
}
