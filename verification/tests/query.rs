use recommend_server::query::Query;

#[test]
fn empty_query_has_nothing() {
    let q = Query::new();
    assert_eq!(q.get("user_id"), None);
}

#[test]
fn get_gives_back_what_insert_stored() {
    let mut q = Query::new();
    assert_eq!(q.insert("date".to_string(), "2020-01-01".to_string()), None);
    assert_eq!(q.insert("user_id".to_string(), "5".to_string()), None);
    assert_eq!(q.get("date"), Some(&"2020-01-01".to_string()));
    assert_eq!(q.get("user_id"), Some(&"5".to_string()));
    assert_eq!(q.get("code"), None);
}

#[test]
fn insert_replaces_and_returns_the_old_value() {
    let mut q = Query::new();
    q.insert("user_id".to_string(), "5".to_string());
    assert_eq!(q.insert("user_id".to_string(), "6".to_string()), Some("5".to_string()));
    assert_eq!(q.get("user_id"), Some(&"6".to_string()));
}

#[test]
fn keys_are_compared_exactly() {
    let mut q = Query::new();
    q.insert("User_id".to_string(), "5".to_string());
    assert_eq!(q.get("user_id"), None);
    assert_eq!(q.get("User_id "), None);
}

#[test]
fn pairs_list_each_parameter_once() {
    let mut q = Query::new();
    q.insert("a".to_string(), "1".to_string());
    q.insert("b".to_string(), "2".to_string());
    q.insert("a".to_string(), "3".to_string());
    let mut pairs = q.pairs();
    pairs.sort();
    assert_eq!(pairs, vec![("a".to_string(), "3".to_string()), ("b".to_string(), "2".to_string())]);
}
