//! A point-in-time snapshot of pool occupancy.

use vstd::prelude::*;

verus! {

/// A snapshot of how many resources a [`Pool`](crate::Pool) holds.
///
/// Returned by [`Pool::status`](crate::Pool::status). The counts are read
/// under the pool's lock; in a concurrent program they are stale the moment
/// they are returned. Each snapshot satisfies `size == idle + in_use`.
#[must_use]
#[derive(Debug, Clone, Copy, PartialEq, Eq, Structural)]
pub struct Status {
    /// Total resources the pool owns right now: idle, plus checked out, plus
    /// any currently being created.
    pub size: usize,
    /// Resources sitting idle and available for immediate checkout.
    pub idle: usize,
    /// Resources currently lent out (counted as `size - idle`, which folds
    /// in-flight creations into the in-use figure).
    pub in_use: usize,
    /// The configured `max_size` the pool will not grow beyond.
    pub max_size: usize,
}

impl Status {
    /// The occupancy identities every snapshot satisfies.
    pub open spec fn is_consistent(&self) -> bool {
        &&& self.size == self.idle + self.in_use
        &&& self.size <= self.max_size
    }
}

} // verus!
