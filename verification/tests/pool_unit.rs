//! Lifecycle paths of the pool, driven by a manager steerable through shared
//! flags and counters.

use std::sync::atomic::{AtomicBool, AtomicUsize, Ordering};
use std::sync::Arc;

use pool_mod::{Builder, Duration, Error, Manager, Pool};

#[derive(Debug, PartialEq, Eq)]
struct TestError(&'static str);

impl std::fmt::Display for TestError {
    fn fmt(&self, f: &mut std::fmt::Formatter<'_>) -> std::fmt::Result {
        f.write_str(self.0)
    }
}

impl std::error::Error for TestError {}

/// Counters and switches shared between a test and its manager.
#[derive(Default)]
struct Knobs {
    created: AtomicUsize,
    recycled: AtomicUsize,
    validated: AtomicUsize,
    create_fails: AtomicBool,
    recycle_fails: AtomicBool,
    invalid: AtomicBool,
}

struct Steerable {
    knobs: Arc<Knobs>,
}

impl Manager for Steerable {
    type Resource = usize;
    type Error = TestError;

    fn create(&self) -> Result<usize, TestError> {
        if self.knobs.create_fails.load(Ordering::SeqCst) {
            return Err(TestError("create failed"));
        }
        Ok(self.knobs.created.fetch_add(1, Ordering::SeqCst))
    }

    fn recycle(&self, _resource: &mut usize) -> Result<(), TestError> {
        let _ = self.knobs.recycled.fetch_add(1, Ordering::SeqCst);
        if self.knobs.recycle_fails.load(Ordering::SeqCst) {
            return Err(TestError("recycle failed"));
        }
        Ok(())
    }

    fn validate(&self, _resource: &mut usize) -> bool {
        let _ = self.knobs.validated.fetch_add(1, Ordering::SeqCst);
        !self.knobs.invalid.load(Ordering::SeqCst)
    }
}

fn steerable() -> (Steerable, Arc<Knobs>) {
    let knobs = Arc::new(Knobs::default());
    (Steerable { knobs: Arc::clone(&knobs) }, knobs)
}

fn pool(
    builder: impl FnOnce(Builder<Steerable>) -> Builder<Steerable>,
) -> (Pool<Steerable>, Arc<Knobs>) {
    let (manager, knobs) = steerable();
    (builder(Pool::builder(manager)).build().unwrap(), knobs)
}

#[test]
fn test_build_min_idle_precreates_resources() {
    let (p, knobs) = pool(|b| b.max_size(4).min_idle(2));
    assert_eq!(knobs.created.load(Ordering::SeqCst), 2);
    let status = p.status();
    assert_eq!(status.idle, 2);
    assert_eq!(status.size, 2);
    assert_eq!(status.in_use, 0);
}

#[test]
fn test_get_then_drop_reuses_same_resource() {
    let (p, knobs) = pool(|b| b.max_size(4));
    {
        let first = p.get().unwrap();
        assert_eq!(*first, 0);
        first.release();
    }
    let second = p.get().unwrap();
    assert_eq!(*second, 0); // same resource id, reused
    assert_eq!(knobs.created.load(Ordering::SeqCst), 1);
    assert_eq!(knobs.recycled.load(Ordering::SeqCst), 1);
}

#[test]
fn test_in_use_tracks_outstanding_guards() {
    let (p, _knobs) = pool(|b| b.max_size(2));
    let a = p.get().unwrap();
    let b = p.get().unwrap();
    assert_eq!(p.status().in_use, 2);
    assert_eq!(p.status().idle, 0);
    a.release();
    b.release();
    assert_eq!(p.status().in_use, 0);
    assert_eq!(p.status().idle, 2);
}

#[test]
fn test_saturated_pool_times_out() {
    let (p, _knobs) = pool(|b| b.max_size(1));
    let _held = p.get().unwrap();
    let result = p.get_timeout(Duration::zero());
    assert!(matches!(result, Err(Error::Timeout)));
}

#[test]
fn test_invalid_resource_is_discarded_and_replaced() {
    let (p, knobs) = pool(|b| b.max_size(4).min_idle(1));
    assert_eq!(knobs.created.load(Ordering::SeqCst), 1);
    knobs.invalid.store(true, Ordering::SeqCst);

    // The single idle resource fails validation, so it is dropped and a fresh
    // one is created. (The fresh resource is not itself re-validated.)
    let resource = p.get().unwrap();
    assert_eq!(*resource, 1);
    assert_eq!(knobs.created.load(Ordering::SeqCst), 2);
    assert!(knobs.validated.load(Ordering::SeqCst) >= 1);
}

#[test]
fn test_max_lifetime_forces_replacement() {
    let (p, knobs) = pool(|b| b.max_size(4).min_idle(1).max_lifetime(Some(Duration::zero())));
    // Zero lifetime means any idle resource is always too old on checkout.
    let resource = p.get().unwrap();
    assert_eq!(*resource, 1);
    assert_eq!(knobs.created.load(Ordering::SeqCst), 2);
}

#[test]
fn test_idle_timeout_forces_replacement() {
    let (p, knobs) = pool(|b| b.max_size(4).min_idle(1).idle_timeout(Some(Duration::zero())));
    let resource = p.get().unwrap();
    assert_eq!(*resource, 1);
    assert_eq!(knobs.created.load(Ordering::SeqCst), 2);
}

#[test]
fn test_recycle_failure_drops_resource() {
    let (p, knobs) = pool(|b| b.max_size(2));
    knobs.recycle_fails.store(true, Ordering::SeqCst);
    {
        let resource = p.get().unwrap();
        assert_eq!(p.status().size, 1);
        resource.release();
    }
    // Recycle failed on return, so the resource was discarded, not pooled.
    assert_eq!(p.status().size, 0);
    assert_eq!(p.status().idle, 0);
}

#[test]
fn test_create_failure_surfaces_and_frees_slot() {
    let (p, knobs) = pool(|b| b.max_size(2));
    knobs.create_fails.store(true, Ordering::SeqCst);
    let result = p.get();
    assert!(matches!(
        result,
        Err(Error::Backend(TestError("create failed")))
    ));
    // The reserved slot was released, so the pool did not shrink.
    assert_eq!(p.status().size, 0);
}

#[test]
fn test_closed_pool_rejects_checkout() {
    let (p, _knobs) = pool(|b| b.max_size(2).min_idle(1));
    p.close();
    assert!(p.is_closed());
    assert!(matches!(p.get(), Err(Error::Closed)));
    assert_eq!(p.status().idle, 0); // idle resources were dropped on close
}

#[test]
fn test_close_is_idempotent() {
    let (p, _knobs) = pool(|b| b.max_size(2).min_idle(2));
    p.close();
    p.close();
    assert!(p.is_closed());
}

#[test]
fn test_build_rejects_zero_max_size() {
    let (manager, _knobs) = steerable();
    let result = Pool::builder(manager).max_size(0).build();
    assert!(matches!(result, Err(Error::InvalidConfig(_))));
}

#[test]
fn test_build_rejects_min_idle_above_max_size() {
    let (manager, _knobs) = steerable();
    let result = Pool::builder(manager)
        .max_size(2)
        .min_idle(3)
        .build();
    assert!(matches!(result, Err(Error::InvalidConfig(_))));
}

#[test]
fn test_try_get_does_not_block_when_saturated() {
    let (p, _knobs) = pool(|b| b.max_size(1));
    let _held = p.try_get().unwrap();
    assert!(matches!(p.try_get(), Err(Error::Timeout)));
}

#[test]
fn test_reap_prunes_time_expired_idle() {
    // A zero idle_timeout makes every idle resource immediately expired, so
    // `reap` is deterministic without a background thread or sleeps.
    let (p, _knobs) = pool(|b| b.max_size(4).min_idle(2).idle_timeout(Some(Duration::zero())));
    assert_eq!(p.status().idle, 2);
    p.reap();
    assert_eq!(p.status().idle, 0);
    assert_eq!(p.status().size, 0);
}

#[test]
fn test_reap_is_noop_without_expiry_policy() {
    let (p, _knobs) = pool(|b| b.max_size(4).min_idle(2));
    p.reap();
    assert_eq!(p.status().idle, 2); // no idle_timeout/max_lifetime: nothing to prune
}

#[test]
fn test_clone_shares_one_pool() {
    let (p, _knobs) = pool(|b| b.max_size(1));
    let clone = p.clone();
    let _held = p.get().unwrap();
    // The clone sees the same exhausted pool.
    assert!(matches!(
        clone.get_timeout(Duration::zero()),
        Err(Error::Timeout)
    ));
}
