use social_profile_check::ledger::ProfileLedger;

#[test]
fn fresh_ledger_is_empty() {
    let ledger = ProfileLedger::new();
    assert!(!ledger.has("alice"));
    assert_eq!(ledger.timestamp_of("alice"), None);
}

#[test]
fn upsert_then_read_back() {
    let mut ledger = ProfileLedger::new();
    let grown = ledger.upsert("alice".to_string(), 1700000000000);
    // "alice" is five characters, the timestamp eight bytes
    assert_eq!(grown, 13);
    assert!(ledger.has("alice"));
    assert_eq!(ledger.timestamp_of("alice"), Some(1700000000000));
    assert!(!ledger.has("bob"));
}

#[test]
fn upsert_twice_overwrites() {
    let mut ledger = ProfileLedger::new();
    let first_grown = ledger.upsert("alice".to_string(), 1000);
    let second_grown = ledger.upsert("alice".to_string(), 2000);
    assert_eq!(first_grown, 13);
    assert_eq!(second_grown, 0);
    assert!(ledger.has("alice"));
    assert_eq!(ledger.timestamp_of("alice"), Some(2000));
}

#[test]
fn remove_frees_what_upsert_grew() {
    let mut ledger = ProfileLedger::new();
    let grown = ledger.upsert("alice".to_string(), 1000);
    let freed = ledger.remove("alice");
    assert_eq!(freed, grown);
    assert!(!ledger.has("alice"));
    assert_eq!(ledger.timestamp_of("alice"), None);
}

#[test]
fn remove_absent_frees_nothing() {
    let mut ledger = ProfileLedger::new();
    assert_eq!(ledger.remove("alice"), 0);
    let _ = ledger.upsert("bob".to_string(), 5);
    assert_eq!(ledger.remove("alice"), 0);
    assert!(ledger.has("bob"));
}

#[test]
fn records_are_independent() {
    let mut ledger = ProfileLedger::new();
    let _ = ledger.upsert("alice".to_string(), 1);
    let _ = ledger.upsert("bob".to_string(), 2);
    let _ = ledger.remove("alice");
    assert!(!ledger.has("alice"));
    assert!(ledger.has("bob"));
    assert_eq!(ledger.timestamp_of("bob"), Some(2));
}
