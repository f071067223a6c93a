//! Resource lifecycle end to end: expiry, recycling, and shutdown.

use std::fmt;
use std::sync::atomic::{AtomicBool, AtomicUsize, Ordering};
use std::sync::Arc;
use std::time::Instant;

use pool_mod::{Duration, Error, Manager, Pool};

/// Let `millis` milliseconds of wall-clock time pass.
fn pause(millis: u64) {
    let start = Instant::now();
    while start.elapsed() < std::time::Duration::from_millis(millis) {
        std::hint::spin_loop();
    }
}

#[derive(Debug)]
struct RecycleError;

impl fmt::Display for RecycleError {
    fn fmt(&self, f: &mut fmt::Formatter<'_>) -> fmt::Result {
        f.write_str("recycle failed")
    }
}

impl std::error::Error for RecycleError {}

/// A manager that counts creations and can be told to fail recycling.
struct Steer {
    created: Arc<AtomicUsize>,
    recycle_fails: Arc<AtomicBool>,
}

impl Steer {
    fn new() -> (Self, Arc<AtomicUsize>, Arc<AtomicBool>) {
        let created = Arc::new(AtomicUsize::new(0));
        let recycle_fails = Arc::new(AtomicBool::new(false));
        let steer = Steer {
            created: Arc::clone(&created),
            recycle_fails: Arc::clone(&recycle_fails),
        };
        (steer, created, recycle_fails)
    }
}

impl Manager for Steer {
    type Resource = usize;
    type Error = RecycleError;

    fn create(&self) -> Result<usize, Self::Error> {
        Ok(self.created.fetch_add(1, Ordering::SeqCst))
    }

    fn recycle(&self, _resource: &mut usize) -> Result<(), Self::Error> {
        if self.recycle_fails.load(Ordering::SeqCst) {
            return Err(RecycleError);
        }
        Ok(())
    }
}

#[test]
fn idle_resource_is_reused_before_timeout() {
    let (steer, created, _) = Steer::new();
    let pool = Pool::builder(steer)
        .max_size(2)
        .idle_timeout(Some(Duration::from_secs(3600)))
        .build()
        .expect("configuration is valid");

    pool.get().expect("first checkout").release();
    pool.get().expect("second checkout").release();

    // Well within the idle window, so the same resource is reused.
    assert_eq!(created.load(Ordering::SeqCst), 1);
}

#[test]
fn idle_resource_is_replaced_after_timeout() {
    let (steer, created, _) = Steer::new();
    let pool = Pool::builder(steer)
        .max_size(2)
        .idle_timeout(Some(Duration::from_millis(40)))
        .build()
        .expect("configuration is valid");

    pool.get().expect("first checkout").release(); // resource 0 goes idle
    assert_eq!(created.load(Ordering::SeqCst), 1);

    pause(120); // let it age past idle_timeout

    // The aged idle resource is discarded on checkout and replaced.
    let fresh = pool.get().expect("a fresh resource");
    assert_eq!(*fresh, 1);
    assert_eq!(created.load(Ordering::SeqCst), 2);
}

#[test]
fn resource_is_replaced_after_max_lifetime() {
    let (steer, created, _) = Steer::new();
    let pool = Pool::builder(steer)
        .max_size(2)
        .max_lifetime(Some(Duration::from_millis(40)))
        .build()
        .expect("configuration is valid");

    pool.get().expect("first checkout").release();
    pause(120);

    let fresh = pool.get().expect("a fresh resource");
    assert_eq!(*fresh, 1);
    assert_eq!(created.load(Ordering::SeqCst), 2);
}

#[test]
fn recycle_failure_discards_resource() {
    let (steer, _created, recycle_fails) = Steer::new();
    let pool = Pool::builder(steer)
        .max_size(2)
        .build()
        .expect("configuration is valid");

    recycle_fails.store(true, Ordering::SeqCst);
    {
        let resource = pool.get().expect("checkout succeeds");
        assert_eq!(pool.status().size, 1);
        resource.release();
    }
    // Recycling failed on return, so the resource was dropped, not pooled.
    assert_eq!(pool.status().size, 0);
    assert_eq!(pool.status().idle, 0);
}

#[test]
fn close_while_borrowed_discards_on_return() {
    let (steer, _created, _) = Steer::new();
    let pool = Pool::builder(steer)
        .max_size(2)
        .build()
        .expect("configuration is valid");

    let borrowed = pool.get().expect("checkout succeeds");
    assert_eq!(pool.status().in_use, 1);

    pool.close();
    assert!(pool.is_closed());
    // The borrowed resource still exists until it is returned.
    assert_eq!(pool.status().size, 1);

    borrowed.release();
    // On return into a closed pool, the resource is discarded.
    assert_eq!(pool.status().size, 0);
    assert!(matches!(pool.get(), Err(Error::Closed)));
}

#[test]
fn lazy_expiry_keeps_idle_until_borrowed_without_reaper() {
    let (steer, created, _) = Steer::new();
    let pool = Pool::builder(steer)
        .max_size(2)
        .idle_timeout(Some(Duration::from_millis(15)))
        // No reaper runs: expiry is lazy.
        .build()
        .expect("configuration is valid");

    pool.get().expect("first checkout").release();
    assert_eq!(pool.status().idle, 1);

    pause(200);

    // With no reaper, the aged resource lingers in the idle set...
    assert_eq!(pool.status().idle, 1);
    assert_eq!(created.load(Ordering::SeqCst), 1);

    // ...and is only discarded and replaced when it is next borrowed.
    let fresh = pool.get().expect("a fresh resource");
    assert_eq!(*fresh, 1);
    assert_eq!(created.load(Ordering::SeqCst), 2);
}
