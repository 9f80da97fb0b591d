use lg_webos_client::pending::PendingRequests;

#[test]
fn insert_then_remove_gives_the_waiter_back() {
    let mut pending: PendingRequests<u32> = PendingRequests::new();
    assert_eq!(pending.len(), 0);
    assert_eq!(pending.insert("1".to_string(), 10), None);
    assert_eq!(pending.insert("2".to_string(), 20), None);
    assert_eq!(pending.len(), 2);
    assert!(pending.contains(&"1".to_string()));
    assert_eq!(pending.remove(&"1".to_string()), Some(10));
    assert!(!pending.contains(&"1".to_string()));
    assert_eq!(pending.remove(&"1".to_string()), None);
    assert_eq!(pending.len(), 1);
    assert_eq!(pending.remove(&"2".to_string()), Some(20));
    assert_eq!(pending.len(), 0);
}

#[test]
fn insert_replaces_a_waiter_with_the_same_id() {
    let mut pending: PendingRequests<&str> = PendingRequests::new();
    assert_eq!(pending.insert("0".to_string(), "first"), None);
    assert_eq!(pending.insert("0".to_string(), "second"), Some("first"));
    assert_eq!(pending.len(), 1);
    assert_eq!(pending.remove(&"0".to_string()), Some("second"));
}

#[test]
fn removing_an_unknown_id_changes_nothing() {
    let mut pending: PendingRequests<u8> = PendingRequests::new();
    pending.insert("5".to_string(), 5);
    assert_eq!(pending.remove(&"6".to_string()), None);
    assert_eq!(pending.len(), 1);
    assert!(pending.contains(&"5".to_string()));
}
