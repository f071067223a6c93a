//! End to end: a realistic manager, borrowed from, used, and returned.

use std::sync::atomic::{AtomicUsize, Ordering};
use std::sync::Arc;

use pool_mod::{Duration, Error, Manager, Pool};

/// A stand-in for a real connection: its id, and how many times it has been
/// used since it was last recycled.
struct Connection {
    id: usize,
    queries: usize,
}

/// Opens connections and counts how many it has opened.
struct Connector {
    opened: Arc<AtomicUsize>,
}

impl Manager for Connector {
    type Resource = Connection;
    type Error = std::convert::Infallible;

    fn create(&self) -> Result<Connection, Self::Error> {
        let id = self.opened.fetch_add(1, Ordering::SeqCst);
        Ok(Connection { id, queries: 0 })
    }

    fn recycle(&self, conn: &mut Connection) -> Result<(), Self::Error> {
        conn.queries = 0; // pretend to reset session state
        Ok(())
    }
}

#[test]
fn end_to_end_borrow_use_return() {
    let opened = Arc::new(AtomicUsize::new(0));
    let pool = Pool::builder(Connector {
        opened: Arc::clone(&opened),
    })
    .max_size(2)
    .min_idle(1)
    .build()
    .expect("configuration is valid");

    assert_eq!(opened.load(Ordering::SeqCst), 1); // min_idle pre-created one
    assert_eq!(pool.status().idle, 1);

    {
        let mut conn = pool.get().expect("a connection is available");
        conn.queries += 1;
        assert_eq!(conn.queries, 1);
        assert_eq!(pool.status().in_use, 1);
        conn.release();
    }

    // After return + recycle the connection is idle again with reset state.
    let conn = pool.get().expect("the recycled connection is available");
    assert_eq!(conn.queries, 0);
    assert_eq!(opened.load(Ordering::SeqCst), 1); // reused, not reopened
}

#[test]
fn end_to_end_timeout_when_saturated() {
    let opened = Arc::new(AtomicUsize::new(0));
    let pool = Pool::builder(Connector { opened })
        .max_size(1)
        .build()
        .expect("configuration is valid");

    let _held = pool.get().expect("first checkout succeeds");
    let result = pool.get_timeout(Duration::from_millis(20));
    assert!(matches!(result, Err(Error::Timeout)));
}
