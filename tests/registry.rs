use kirogpt::registry::ProcessingRegistry;

#[test]
fn only_first_claim_succeeds() {
    let mut r = ProcessingRegistry::new();
    let results: Vec<bool> = (0..5).map(|_| r.try_begin(42)).collect();
    assert_eq!(results, vec![true, false, false, false, false]);
    assert!(r.contains(42));
}

#[test]
fn claims_of_distinct_ids_are_independent() {
    let mut r = ProcessingRegistry::new();
    assert!(r.try_begin(1));
    assert!(r.try_begin(2));
    assert!(!r.try_begin(1));
    assert!(r.contains(1));
    assert!(r.contains(2));
}

#[test]
fn end_releases_and_is_idempotent() {
    let mut r = ProcessingRegistry::new();
    assert!(r.try_begin(9));
    r.end(9);
    assert!(!r.contains(9));
    r.end(9);
    assert!(!r.contains(9));
    assert!(r.try_begin(9));
}

#[test]
fn end_of_other_id_keeps_claim() {
    let mut r = ProcessingRegistry::new();
    assert!(r.try_begin(3));
    assert!(r.try_begin(4));
    r.end(3);
    assert!(!r.contains(3));
    assert!(r.contains(4));
    assert!(!r.try_begin(4));
}

#[test]
fn largest_id_can_be_claimed() {
    let mut r = ProcessingRegistry::new();
    assert!(r.try_begin(u64::MAX));
    assert!(!r.try_begin(u64::MAX));
}
