//! The bookkeeping behind a pool's lock, operation by operation.

use pool_mod::state::{is_time_expired, Checkout, Idle, PoolState};
use pool_mod::{Duration, PoolConfig};

fn idle(resource: u32, at_secs: u64) -> Idle<u32> {
    Idle {
        resource,
        created_at: Duration::from_secs(at_secs),
        last_used: Duration::from_secs(at_secs),
    }
}

fn config(idle_timeout: Option<Duration>, max_lifetime: Option<Duration>) -> PoolConfig {
    PoolConfig {
        idle_timeout,
        max_lifetime,
        ..PoolConfig::default()
    }
}

#[test]
fn empty_state_reserves_until_saturated() {
    let mut s: PoolState<u32> = PoolState::new(2);
    assert!(matches!(s.checkout(), Checkout::Create));
    assert!(matches!(s.checkout(), Checkout::Create));
    assert!(matches!(s.checkout(), Checkout::Saturated));
    assert!(matches!(s.checkout(), Checkout::Saturated));
    let st = s.status();
    assert_eq!(st.size, 2);
    assert_eq!(st.in_use, 2);
    assert_eq!(st.idle, 0);
}

#[test]
fn returned_resource_is_lent_next() {
    let mut s: PoolState<u32> = PoolState::new(1);
    assert!(matches!(s.checkout(), Checkout::Create));
    assert!(s.checkin(idle(7, 0), true).is_none());
    match s.checkout() {
        Checkout::Reuse(item) => assert_eq!(item.resource, 7),
        _ => panic!("the returned resource must be reused"),
    }
    assert_eq!(s.status().in_use, 1);
}

#[test]
fn failed_create_gives_the_slot_back() {
    let mut s: PoolState<u32> = PoolState::new(1);
    assert!(matches!(s.checkout(), Checkout::Create));
    s.release_slot();
    assert_eq!(s.status().size, 0);
    assert!(matches!(s.checkout(), Checkout::Create));
}

#[test]
fn release_without_a_held_slot_changes_nothing() {
    let mut s: PoolState<u32> = PoolState::new(2);
    s.add_idle(1, Duration::zero());
    s.release_slot();
    assert_eq!(s.status().size, 1);
    assert_eq!(s.status().idle, 1);
}

#[test]
fn failed_recycle_discards_the_resource() {
    let mut s: PoolState<u32> = PoolState::new(2);
    assert!(matches!(s.checkout(), Checkout::Create));
    let discarded = s.checkin(idle(3, 0), false);
    assert_eq!(discarded.map(|item| item.resource), Some(3));
    assert_eq!(s.status().size, 0);
    assert_eq!(s.status().idle, 0);
}

#[test]
fn close_drains_idle_and_rejects() {
    let mut s: PoolState<u32> = PoolState::new(3);
    s.add_idle(1, Duration::zero());
    s.add_idle(2, Duration::zero());
    assert!(matches!(s.checkout(), Checkout::Reuse(_)));
    let drained = s.close();
    assert_eq!(drained.len(), 1);
    assert!(s.is_closed());
    assert_eq!(s.status().size, 1);
    assert_eq!(s.status().idle, 0);
    assert!(matches!(s.checkout(), Checkout::Closed));
    // A resource returned after closing is discarded.
    assert!(s.checkin(idle(1, 0), true).is_some());
    assert_eq!(s.status().size, 0);
    // Closing again changes nothing.
    assert_eq!(s.close().len(), 0);
    assert_eq!(s.status().size, 0);
}

#[test]
fn reap_without_policy_keeps_everything() {
    let mut s: PoolState<u32> = PoolState::new(3);
    s.add_idle(1, Duration::zero());
    s.add_idle(2, Duration::zero());
    let expired = s.reap(&config(None, None), Duration::from_secs(1_000_000));
    assert!(expired.is_empty());
    assert_eq!(s.status().idle, 2);
}

#[test]
fn reap_keeps_fresh_entries_in_order() {
    let mut s: PoolState<u32> = PoolState::new(4);
    s.add_idle(10, Duration::from_secs(0));
    s.add_idle(11, Duration::from_secs(50));
    s.add_idle(12, Duration::from_secs(5));
    s.add_idle(13, Duration::from_secs(60));
    let cfg = config(Some(Duration::from_secs(30)), None);
    let now = Duration::from_secs(70);
    let expired = s.reap(&cfg, now);
    assert_eq!(expired, vec![10, 12]);
    assert_eq!(s.status().idle, 2);
    assert_eq!(s.status().size, 2);
    // Pruning again at the same time discards nothing more.
    assert!(s.reap(&cfg, now).is_empty());
    match s.checkout() {
        Checkout::Reuse(item) => assert_eq!(item.resource, 11),
        _ => panic!("the oldest fresh entry must come first"),
    }
}

#[test]
fn zero_idle_timeout_reaps_everything() {
    let mut s: PoolState<u32> = PoolState::new(2);
    s.add_idle(1, Duration::from_secs(5));
    s.add_idle(2, Duration::from_secs(5));
    let expired = s.reap(&config(Some(Duration::zero()), None), Duration::from_secs(5));
    assert_eq!(expired.len(), 2);
    assert_eq!(s.status().size, 0);
}

#[test]
fn expiry_checks_lifetime_and_idleness() {
    let created = Duration::from_secs(10);
    let used = Duration::from_secs(100);
    let lifetime = config(None, Some(Duration::from_secs(120)));
    assert!(!is_time_expired(&lifetime, &created, &used, &Duration::from_secs(129)));
    assert!(is_time_expired(&lifetime, &created, &used, &Duration::from_secs(130)));
    // Once expired, always expired.
    assert!(is_time_expired(&lifetime, &created, &used, &Duration::from_secs(500)));

    let idleness = config(Some(Duration::from_secs(30)), None);
    assert!(!is_time_expired(&idleness, &created, &used, &Duration::from_secs(129)));
    assert!(is_time_expired(&idleness, &created, &used, &Duration::from_secs(130)));
    // A clock reading before the stamps counts as no time elapsed.
    assert!(!is_time_expired(&idleness, &created, &used, &Duration::from_secs(1)));

    let zero = config(None, Some(Duration::zero()));
    assert!(is_time_expired(&zero, &created, &used, &Duration::zero()));
}
