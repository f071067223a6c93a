//! Sizing and lifecycle invariants of the pool, checked over ranges of
//! configurations.

use std::sync::atomic::{AtomicUsize, Ordering};
use std::sync::Arc;

use pool_mod::{Error, Manager, Pool};

/// A manager whose resource never fails to build, counting creations.
struct Counting {
    created: Arc<AtomicUsize>,
}

impl Manager for Counting {
    type Resource = usize;
    type Error = std::convert::Infallible;

    fn create(&self) -> Result<usize, Self::Error> {
        Ok(self.created.fetch_add(1, Ordering::SeqCst))
    }

    fn recycle(&self, _resource: &mut usize) -> Result<(), Self::Error> {
        Ok(())
    }
}

fn manager() -> (Counting, Arc<AtomicUsize>) {
    let created = Arc::new(AtomicUsize::new(0));
    (
        Counting {
            created: Arc::clone(&created),
        },
        created,
    )
}

#[test]
fn build_validates_and_prewarms() {
    for max_size in 0usize..12 {
        for min_idle in 0usize..12 {
            let (mgr, created) = manager();
            let result = Pool::builder(mgr).max_size(max_size).min_idle(min_idle).build();
            if max_size == 0 || min_idle > max_size {
                assert!(matches!(result, Err(Error::InvalidConfig(_))));
            } else {
                let pool = result.expect("configuration is valid");
                let status = pool.status();
                assert_eq!(status.idle, min_idle);
                assert_eq!(status.size, min_idle);
                assert_eq!(status.in_use, 0);
                assert_eq!(created.load(Ordering::SeqCst), min_idle);
            }
        }
    }
}

#[test]
fn never_exceeds_max_size() {
    for max_size in 1usize..10 {
        for extra in 0usize..4 {
            let (mgr, created) = manager();
            let pool = Pool::builder(mgr).max_size(max_size).build().expect("valid");

            // Greedily grab more than the pool can ever hand out.
            let mut leases = Vec::new();
            for _ in 0..(max_size + extra) {
                if let Ok(lease) = pool.try_get() {
                    leases.push(lease);
                }
            }

            assert_eq!(leases.len(), max_size);
            assert_eq!(created.load(Ordering::SeqCst), max_size);
            let busy = pool.status();
            assert_eq!(busy.size, max_size);
            assert_eq!(busy.in_use, max_size);
            assert_eq!(busy.idle, 0);
            assert_eq!(busy.size, busy.idle + busy.in_use);

            for lease in leases {
                lease.release();
            }
            let free = pool.status();
            assert_eq!(free.idle, max_size);
            assert_eq!(free.in_use, 0);
            assert_eq!(free.size, free.idle + free.in_use);
        }
    }
}

#[test]
fn sequential_reuse_creates_one() {
    for max_size in 1usize..5 {
        for iters in 1usize..20 {
            let (mgr, created) = manager();
            let pool = Pool::builder(mgr).max_size(max_size).build().expect("valid");
            for _ in 0..iters {
                let lease = pool.get().expect("a resource is available");
                assert_eq!(*lease, 0);
                lease.release();
            }
            assert_eq!(created.load(Ordering::SeqCst), 1);
            assert_eq!(pool.status().idle, 1);
        }
    }
}

#[test]
fn close_drops_idle_and_rejects() {
    for max_size in 1usize..8 {
        for prewarm in 0usize..8 {
            let min_idle = prewarm.min(max_size);
            let (mgr, _created) = manager();
            let pool = Pool::builder(mgr)
                .max_size(max_size)
                .min_idle(min_idle)
                .build()
                .expect("valid");
            pool.close();
            assert!(pool.is_closed());
            assert_eq!(pool.status().idle, 0);
            assert_eq!(pool.status().size, 0);
            assert!(matches!(pool.get(), Err(Error::Closed)));
            pool.close();
            assert!(pool.is_closed());
            assert_eq!(pool.status().size, 0);
        }
    }
}

#[test]
fn returned_leases_are_lent_out_oldest_first() {
    let (mgr, _created) = manager();
    let pool = Pool::builder(mgr).max_size(3).build().expect("valid");
    let a = pool.get().expect("first");
    let b = pool.get().expect("second");
    let c = pool.get().expect("third");
    assert_eq!((*a, *b, *c), (0, 1, 2));
    b.release();
    c.release();
    a.release();
    let first = pool.get().expect("oldest idle");
    let second = pool.get().expect("next idle");
    assert_eq!(*first, 1);
    assert_eq!(*second, 2);
}
