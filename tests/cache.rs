use calmerge::cache::{Claim, TtlEntry, TtlPolicy};

fn cold(ttl: u64) -> TtlEntry<u32, String> {
    TtlEntry::with_ttl(ttl)
}

#[test]
fn cold_entry_has_nothing_to_read() {
    let e = cold(3600);
    assert!(e.read(0).is_none());
    assert!(e.latest().is_none());
    assert!(!e.is_fresh(0));
    assert!(!e.is_in_flight());
}

#[test]
fn reads_within_window_return_same_snapshot() {
    let mut e = cold(3600);
    assert_eq!(e.claim(100), Claim::Regenerate);
    e.install(Ok(7), 100);
    let a = e.read(200).unwrap();
    assert_eq!(a.value, Ok(7));
    assert_eq!(a.produced_at, 100);
    let b = e.read(3700).unwrap();
    assert_eq!(b.value, Ok(7));
    assert_eq!(b.produced_at, 100);
    assert_eq!(e.claim(3700), Claim::Serve);
    assert!(!e.is_in_flight());
}

#[test]
fn concurrent_cold_callers_regenerate_once() {
    let mut e = cold(3600);
    let claims: Vec<Claim> = (0..5).map(|k| e.claim(10 + k)).collect();
    assert_eq!(claims[0], Claim::Regenerate);
    assert!(claims[1..].iter().all(|c| *c == Claim::Wait));
    assert!(e.is_in_flight());
    e.install(Ok(42), 20);
    for t in [20u64, 21, 100, 3620] {
        assert_eq!(e.claim(t), Claim::Serve);
        let s = e.read(t).unwrap();
        assert_eq!(s.value, Ok(42));
        assert_eq!(s.produced_at, 20);
    }
}

#[test]
fn expiry_triggers_one_regeneration_with_newer_timestamp() {
    let mut e = cold(10);
    assert_eq!(e.claim(0), Claim::Regenerate);
    e.install(Ok(1), 0);
    assert!(e.read(10).is_some());
    assert!(e.read(11).is_none());
    assert_eq!(e.claim(11), Claim::Regenerate);
    assert_eq!(e.claim(11), Claim::Wait);
    e.install(Ok(2), 12);
    let s = e.read(12).unwrap();
    assert_eq!(s.value, Ok(2));
    assert!(s.produced_at > 0);
    assert_eq!(s.produced_at, 12);
}

#[test]
fn failure_is_cached_for_its_window() {
    let mut e = cold(3600);
    assert_eq!(e.claim(5), Claim::Regenerate);
    e.install(Err("upstream down".to_string()), 5);
    assert_eq!(e.claim(6), Claim::Serve);
    assert_eq!(e.claim(3605), Claim::Serve);
    let s = e.read(3605).unwrap();
    assert_eq!(s.value, Err("upstream down".to_string()));
    assert_eq!(s.produced_at, 5);
    assert_eq!(e.claim(3606), Claim::Regenerate);
}

#[test]
fn failure_window_is_separate_policy() {
    let policy = TtlPolicy { success_ttl: 100, failure_ttl: 5 };
    let mut e: TtlEntry<u32, String> = TtlEntry::new(policy);
    assert_eq!(e.policy(), policy);
    assert_eq!(e.claim(0), Claim::Regenerate);
    e.install(Err("x".to_string()), 0);
    assert!(e.is_fresh(5));
    assert!(!e.is_fresh(6));
    assert_eq!(e.claim(6), Claim::Regenerate);
    e.install(Ok(3), 6);
    assert!(e.is_fresh(106));
    assert!(!e.is_fresh(107));
}

#[test]
fn policy_picks_window_by_outcome() {
    let p = TtlPolicy { success_ttl: 9, failure_ttl: 2 };
    assert_eq!(p.ttl_for(&Ok::<u8, u8>(1)), 9);
    assert_eq!(p.ttl_for(&Err::<u8, u8>(1)), 2);
    let u = TtlPolicy::uniform(3600);
    assert_eq!(u.success_ttl, 3600);
    assert_eq!(u.failure_ttl, 3600);
}

#[test]
fn clock_reading_before_production_counts_as_fresh() {
    let mut e = cold(0);
    assert_eq!(e.claim(50), Claim::Regenerate);
    e.install(Ok(1), 50);
    assert!(e.is_fresh(40));
    assert!(e.is_fresh(50));
    assert!(!e.is_fresh(51));
}

#[test]
fn largest_clock_values() {
    let mut e = cold(u64::MAX);
    assert_eq!(e.claim(u64::MAX), Claim::Regenerate);
    e.install(Ok(1), 0);
    assert!(e.is_fresh(u64::MAX));
}
