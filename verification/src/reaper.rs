//! The decisions of a background reaper: each tick it either prunes the pool
//! or stops.

use vstd::prelude::*;

verus! {

/// What a reaper does on a tick.
#[derive(Debug, Clone, Copy, PartialEq, Eq, Structural)]
pub enum ReaperAction {
    /// Stop: the reaper was told to, its pool is gone, or the pool is closed
    /// (a closed pool needs no upkeep).
    Stop,
    /// Prune the pool's expired idle resources ([`Pool::reap`](crate::Pool::reap)).
    Reap,
}

/// Decide a reaper's next tick from whether it was told to stop, whether its
/// pool is still alive, and whether the pool is closed.
pub fn reaper_next(stop_signalled: bool, pool_alive: bool, pool_closed: bool) -> (a: ReaperAction)
    ensures
        a == (if stop_signalled || !pool_alive || pool_closed {
            ReaperAction::Stop
        } else {
            ReaperAction::Reap
        }),
{
    if stop_signalled || !pool_alive || pool_closed {
        ReaperAction::Stop
    } else {
        ReaperAction::Reap
    }
}

} // verus!
