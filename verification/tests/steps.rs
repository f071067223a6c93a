//! The decisions a checkout and a return make under the pool's lock.

use pool_mod::pool::{
    accept_if_valid, settle_checkin, settle_checkout, settle_create, settle_reuse, Next, Reused,
};
use pool_mod::state::{Checkout, Idle, PoolState};
use pool_mod::{Duration, Error};

fn idle(resource: u32, at_secs: u64) -> Idle<u32> {
    Idle {
        resource,
        created_at: Duration::from_secs(at_secs),
        last_used: Duration::from_secs(at_secs),
    }
}

#[test]
fn closed_pool_fails_the_checkout() {
    let next: Next<u32, ()> = settle_checkout(Checkout::Closed, &None, Duration::from_secs(1));
    assert!(matches!(next, Next::Fail(Error::Closed)));
}

#[test]
fn reserved_slot_leads_to_creation() {
    let next: Next<u32, ()> = settle_checkout(Checkout::Create, &None, Duration::from_secs(1));
    assert!(matches!(next, Next::Build));
}

#[test]
fn idle_resource_is_checked_before_lending() {
    let next: Next<u32, ()> = settle_checkout(Checkout::Reuse(idle(7, 3)), &None, Duration::from_secs(9));
    match next {
        Next::Check(item) => {
            assert_eq!(item.resource, 7);
            assert_eq!(item.created_at, Duration::from_secs(3));
        }
        _ => panic!("an idle resource is checked"),
    }
}

#[test]
fn saturated_pool_without_deadline_waits_without_limit() {
    let next: Next<u32, ()> = settle_checkout(Checkout::Saturated, &None, Duration::from_secs(100));
    assert!(matches!(next, Next::WaitFor(None)));
}

#[test]
fn saturated_pool_waits_for_the_time_left() {
    let deadline = Some(Duration::from_millis(5_000));
    let next: Next<u32, ()> = settle_checkout(Checkout::Saturated, &deadline, Duration::from_millis(3_500));
    match next {
        Next::WaitFor(Some(left)) => assert_eq!(left, Duration::from_millis(1_500)),
        _ => panic!("a saturated pool before its deadline waits"),
    }
}

#[test]
fn saturated_pool_past_deadline_times_out() {
    let deadline = Some(Duration::from_secs(5));
    let at: Next<u32, ()> = settle_checkout(Checkout::Saturated, &deadline, Duration::from_secs(5));
    assert!(matches!(at, Next::Fail(Error::Timeout)));
    let after: Next<u32, ()> = settle_checkout(Checkout::Saturated, &deadline, Duration::from_secs(6));
    assert!(matches!(after, Next::Fail(Error::Timeout)));
}

#[test]
fn accepted_resource_is_lent_and_rejected_one_retried() {
    let mut s: PoolState<u32> = PoolState::new(2);
    s.add_idle(4, Duration::from_secs(1));
    assert!(matches!(s.checkout(), Checkout::Reuse(_)));
    let lent = settle_reuse(&mut s, accept_if_valid(4, Duration::from_secs(1), true));
    match lent {
        Reused::Lend(resource, created_at) => {
            assert_eq!(resource, 4);
            assert_eq!(created_at, Duration::from_secs(1));
        }
        Reused::Retry => panic!("an accepted resource is lent"),
    }
    assert_eq!(s.status().size, 1);
    assert_eq!(s.status().in_use, 1);

    let retried = settle_reuse(&mut s, accept_if_valid(4, Duration::from_secs(1), false));
    assert!(matches!(retried, Reused::Retry));
    assert_eq!(s.status().size, 0);
    assert_eq!(s.status().in_use, 0);
}

#[test]
fn failed_creation_gives_the_slot_back() {
    let mut s: PoolState<u32> = PoolState::new(1);
    assert!(matches!(s.checkout(), Checkout::Create));
    let failed: Result<(u32, Duration), Error<&str>> = settle_create(&mut s, Err("refused"), Duration::from_secs(2));
    assert!(matches!(failed, Err(Error::Backend("refused"))));
    assert_eq!(s.status().size, 0);

    assert!(matches!(s.checkout(), Checkout::Create));
    let made: Result<(u32, Duration), Error<&str>> = settle_create(&mut s, Ok(9), Duration::from_secs(3));
    match made {
        Ok((resource, created_at)) => {
            assert_eq!(resource, 9);
            assert_eq!(created_at, Duration::from_secs(3));
        }
        Err(_) => panic!("a created resource is lent"),
    }
    assert_eq!(s.status().size, 1);
    assert_eq!(s.status().in_use, 1);
}

#[test]
fn returned_resource_is_stamped_and_kept_unless_recycling_failed() {
    let mut s: PoolState<u32> = PoolState::new(2);
    assert!(matches!(s.checkout(), Checkout::Create));
    assert!(matches!(s.checkout(), Checkout::Create));
    let kept = settle_checkin::<u32, ()>(&mut s, 5, Ok(()), Duration::from_secs(1), Duration::from_secs(8));
    assert!(kept.is_none());
    assert_eq!(s.status().idle, 1);
    let dropped = settle_checkin(&mut s, 6, Err("broken"), Duration::from_secs(2), Duration::from_secs(9));
    match dropped {
        Some(item) => {
            assert_eq!(item.resource, 6);
            assert_eq!(item.last_used, Duration::from_secs(9));
        }
        None => panic!("a resource whose recycling failed is discarded"),
    }
    assert_eq!(s.status().size, 1);
    match s.checkout() {
        Checkout::Reuse(item) => {
            assert_eq!(item.resource, 5);
            assert_eq!(item.created_at, Duration::from_secs(1));
            assert_eq!(item.last_used, Duration::from_secs(8));
        }
        _ => panic!("the kept resource is idle"),
    }
}
