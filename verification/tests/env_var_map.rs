use api_config::env_vars::collect_env_vars;

#[test]
fn present_and_absent_keys() {
    let keys = vec!["A".to_string(), "B".to_string()];
    let values = vec![Some("valueOfA".to_string()), None];
    let map = collect_env_vars(&keys, &values);
    assert_eq!(map.lookup(&"A".to_string()), Some(Some("valueOfA".to_string())));
    assert_eq!(map.lookup(&"B".to_string()), Some(None));
}

#[test]
fn key_not_requested_is_missing_from_the_map() {
    let keys = vec!["A".to_string()];
    let values = vec![Some("valueOfA".to_string())];
    let map = collect_env_vars(&keys, &values);
    assert_eq!(map.lookup(&"NONEXISTENT_KEY_X".to_string()), None);
}

#[test]
fn duplicate_key_last_occurrence_wins() {
    let keys = vec!["K".to_string(), "K".to_string()];
    let values = vec![Some("first".to_string()), Some("second".to_string())];
    let map = collect_env_vars(&keys, &values);
    assert_eq!(map.lookup(&"K".to_string()), Some(Some("second".to_string())));
}

#[test]
fn empty_batch_gives_empty_map() {
    let keys: Vec<String> = Vec::new();
    let values: Vec<Option<String>> = Vec::new();
    let map = collect_env_vars(&keys, &values);
    assert_eq!(map.lookup(&"A".to_string()), None);
    assert_eq!(map.entries().len(), 0);
}

#[test]
fn entries_hold_the_batch_in_lookup_order() {
    let keys = vec!["A".to_string(), "B".to_string()];
    let values = vec![None, Some("b".to_string())];
    let map = collect_env_vars(&keys, &values);
    let entries = map.entries();
    assert_eq!(entries.len(), 2);
    assert_eq!(entries[0], ("A".to_string(), None));
    assert_eq!(entries[1], ("B".to_string(), Some("b".to_string())));
}
