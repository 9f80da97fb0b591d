use lg_webos_client::ids::{decimal_string, registration_id, CommandIdGenerator};

#[test]
fn decimal_matches_to_string() {
    for n in [0u64, 1, 9, 10, 11, 42, 99, 100, 1234567890, u64::MAX - 1, u64::MAX] {
        assert_eq!(decimal_string(n), n.to_string());
    }
}

#[test]
fn registration_id_is_zero() {
    assert_eq!(registration_id(), "0");
}

#[test]
fn command_ids_count_up_from_one() {
    let mut ids = CommandIdGenerator::new();
    assert!(ids.has_next_id());
    assert_eq!(ids.generate_next_id(), "1");
    assert_eq!(ids.generate_next_id(), "2");
    assert_eq!(ids.generate_next_id(), "3");
}

#[test]
fn command_ids_are_fresh() {
    let mut ids = CommandIdGenerator::new();
    let mut seen: Vec<String> = vec![registration_id()];
    for _ in 0..200 {
        let id = ids.generate_next_id();
        assert!(!seen.contains(&id));
        seen.push(id);
    }
}

#[test]
fn generated_ids_are_one_to_k_in_order() {
    let mut ids = CommandIdGenerator::new();
    for k in 1u64..=50 {
        assert_eq!(ids.generate_next_id(), k.to_string());
    }
}
