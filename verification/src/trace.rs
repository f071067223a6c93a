//! What a checkout did, round by round, as seen under the pool's lock.
//!
//! A checkout takes the lock, looks at the bookkeeping, and either ends or
//! goes round again: after waiting for a returned resource, or after an idle
//! resource it took out failed its checks. Other threads may change the
//! bookkeeping between two locks, so each record holds the bookkeeping that
//! its own lock found.

use vstd::prelude::*;

use crate::config::PoolConfig;
use crate::duration::{max_nanos, Duration};
use crate::error::Error;
use crate::state::{idle_expired, Checkout, PoolModel};

verus! {

/// Whether `m` is bookkeeping a pool configured with `cfg` can hold: it
/// satisfies the bookkeeping invariant and is sized by `cfg.max_size`.
pub open spec fn admissible<R>(cfg: PoolConfig, m: PoolModel<R>) -> bool {
    m.inv() && m.max_size == cfg.max_size as nat
}

/// Whether `deadline` is what a checkout starting at `start` with the wait
/// limit `timeout` aims for: none without a limit, else `start + timeout`
/// (saturating at the largest duration).
pub open spec fn deadline_after(deadline: Option<Duration>, start: Duration, timeout: Option<Duration>) -> bool {
    match timeout {
        None => deadline is None,
        Some(limit) => deadline matches Some(d) && d@ == (if start@ + limit@ <= max_nanos() {
            start@ + limit@
        } else {
            max_nanos()
        }),
    }
}

/// A round of a checkout that did not end it.
pub ghost enum Round<R> {
    /// The lock found the pool saturated, and left it as found; at `now` the
    /// deadline, if any, had not passed, so the caller waited to be woken.
    Waited { found: PoolModel<R>, now: Duration },
    /// The lock found an idle resource and took it out (leaving
    /// `found.after_checkout()`); at `now` the resource failed its checks
    /// (it had expired, or the manager rejected it) and was dropped; a second
    /// lock found `then` and gave the slot back (leaving `then.after_release()`).
    Rejected { found: PoolModel<R>, now: Duration, then: PoolModel<R> },
}

/// How a checkout ended.
pub ghost enum Ending<R> {
    /// The lock found the pool closed.
    Closed { found: PoolModel<R> },
    /// The lock found the pool saturated, at `now`, at or past the deadline.
    TimedOut { found: PoolModel<R>, now: Duration },
    /// The lock found an idle resource and took it out (leaving
    /// `found.after_checkout()`); at `now` it had not expired and the manager
    /// accepted it; a second lock found `then` and left it as found.
    Reused { found: PoolModel<R>, now: Duration, then: PoolModel<R> },
    /// The lock found room and reserved a slot (leaving
    /// `found.after_checkout()`); the manager created a resource, stamped
    /// `now`; a second lock found `then` and left it as found.
    Created { found: PoolModel<R>, now: Duration, then: PoolModel<R> },
    /// The lock found room and reserved a slot; the manager failed to create
    /// a resource; a second lock found `then` and gave the slot back (leaving
    /// `then.after_release()`).
    CreateFailed { found: PoolModel<R>, then: PoolModel<R> },
    /// The caller gave up: when the lock could not be taken
    /// (`lock_refused`), or else after `u64::MAX` rounds.
    GaveUp { lock_refused: bool },
}

/// A whole checkout: the clock reading it started from, the rounds that did
/// not end it, in order, and how it ended. Every time a run records is a
/// reading taken no earlier than `start`.
pub ghost struct Run<R> {
    pub start: Duration,
    pub rounds: Seq<Round<R>>,
    pub ending: Ending<R>,
}

impl<R> Round<R> {
    /// Whether this round is one a checkout aiming for `deadline` can go
    /// through in a pool configured with `cfg`.
    pub open spec fn valid(self, cfg: PoolConfig, deadline: Option<Duration>) -> bool {
        match self {
            Round::Waited { found, now } => {
                &&& admissible(cfg, found)
                &&& found.checkout_result() is Saturated
                &&& (deadline matches Some(limit) ==> now@ < limit@)
            },
            Round::Rejected { found, now, then } => {
                &&& admissible(cfg, found)
                &&& admissible(cfg, then)
                &&& found.checkout_result() is Reuse
            },
        }
    }
}

impl<R> Round<R> {
    /// When the round decided: the time of its wait, or of its check.
    pub open spec fn now(self) -> Duration {
        match self {
            Round::Waited { now, .. } => now,
            Round::Rejected { now, .. } => now,
        }
    }

    /// The bookkeeping the round's first lock found.
    pub open spec fn found(self) -> PoolModel<R> {
        match self {
            Round::Waited { found, .. } => found,
            Round::Rejected { found, .. } => found,
        }
    }

    /// The bookkeeping the round left behind.
    pub open spec fn left(self) -> PoolModel<R> {
        match self {
            Round::Waited { found, .. } => found,
            Round::Rejected { then, .. } => then.after_release(),
        }
    }

    /// Whether nothing else touched the bookkeeping between the round's two
    /// locks: the second found what the first left.
    pub open spec fn undisturbed(self) -> bool {
        match self {
            Round::Waited { .. } => true,
            Round::Rejected { found, then, .. } => then == found.after_checkout(),
        }
    }
}

impl<R> Ending<R> {
    /// Whether the ending's first lock found `m`, and nothing else touched the
    /// bookkeeping between its two locks.
    pub open spec fn undisturbed_from(self, m: PoolModel<R>) -> bool {
        match self {
            Ending::Closed { found } => found == m,
            Ending::TimedOut { found, .. } => found == m,
            Ending::Reused { found, then, .. } => found == m && then == found.after_checkout(),
            Ending::Created { found, then, .. } => found == m && then == found.after_checkout(),
            Ending::CreateFailed { found, then } => found == m && then == found.after_checkout(),
            Ending::GaveUp { .. } => true,
        }
    }

    /// The bookkeeping the checkout left behind (meaningless when it gave
    /// up).
    pub open spec fn left(self) -> PoolModel<R> {
        match self {
            Ending::Closed { found } => found,
            Ending::TimedOut { found, .. } => found,
            Ending::Reused { then, .. } => then,
            Ending::Created { then, .. } => then,
            Ending::CreateFailed { then, .. } => then.after_release(),
            Ending::GaveUp { .. } => PoolModel::empty(0),
        }
    }
}

impl<R> Run<R> {
    /// The bookkeeping before round `i` of a run that began with `start` and
    /// that nothing else interrupted: `start`, then what each round left.
    pub open spec fn before(self, start: PoolModel<R>, i: int) -> PoolModel<R> {
        if i <= 0 {
            start
        } else {
            self.rounds[i - 1].left()
        }
    }

    /// Whether no other thread touched the pool's bookkeeping during the run,
    /// which began with `start`: every lock found what the one before left.
    pub open spec fn uninterrupted_from(self, start: PoolModel<R>) -> bool {
        &&& forall|i: int|
            #![trigger self.rounds[i].found()]
            0 <= i < self.rounds.len() ==> self.rounds[i].found() == self.before(start, i)
                && self.rounds[i].undisturbed()
        &&& self.ending.undisturbed_from(self.before(start, self.rounds.len() as int))
    }

    /// Whether this run, of a checkout aiming for `deadline` in a pool
    /// configured with `cfg`, ends in `outcome`: the lent resource's creation
    /// time, or the error.
    pub open spec fn explains<E>(
        self,
        cfg: PoolConfig,
        deadline: Option<Duration>,
        outcome: Result<Duration, Error<E>>,
    ) -> bool {
        &&& forall|i: int| 0 <= i < self.rounds.len() ==> #[trigger] self.rounds[i].valid(cfg, deadline)
        &&& forall|i: int| 0 <= i < self.rounds.len() ==> (#[trigger] self.rounds[i]).now()@ >= self.start@
        &&& match self.ending {
            Ending::Closed { found } => {
                &&& admissible(cfg, found)
                &&& found.closed
                &&& outcome == Err::<Duration, Error<E>>(Error::Closed)
            },
            Ending::TimedOut { found, now } => {
                &&& admissible(cfg, found)
                &&& now@ >= self.start@
                &&& found.checkout_result() is Saturated
                &&& deadline matches Some(limit) && now@ >= limit@
                &&& outcome == Err::<Duration, Error<E>>(Error::Timeout)
            },
            Ending::Reused { found, now, then } => {
                &&& admissible(cfg, found)
                &&& now@ >= self.start@
                &&& admissible(cfg, then)
                &&& found.checkout_result() matches Checkout::Reuse(item)
                &&& !idle_expired(cfg, item, now)
                &&& outcome == Ok::<Duration, Error<E>>(item.created_at)
            },
            Ending::Created { found, now, then } => {
                &&& admissible(cfg, found)
                &&& now@ >= self.start@
                &&& admissible(cfg, then)
                &&& found.checkout_result() is Create
                &&& outcome == Ok::<Duration, Error<E>>(now)
            },
            Ending::CreateFailed { found, then } => {
                &&& admissible(cfg, found)
                &&& admissible(cfg, then)
                &&& found.checkout_result() is Create
                &&& outcome matches Err(e) && e is Backend
            },
            Ending::GaveUp { lock_refused } => {
                &&& outcome == Err::<Duration, Error<E>>(Error::Timeout)
                &&& (!lock_refused ==> self.rounds.len() == u64::MAX)
            },
        }
    }
}

} // verus!
