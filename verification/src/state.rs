//! The pool's bookkeeping: which resources are idle, how many the pool owns,
//! and whether it has been closed.
//!
//! [`PoolState`] is the state guarded by a pool's lock. Every operation of the
//! pool is one call on it, and each call's effect is stated over the model
//! [`PoolModel`].

use vstd::prelude::*;
use std::collections::VecDeque;

use crate::config::PoolConfig;
use crate::duration::Duration;
use crate::status::Status;

verus! {

/// A resource resting in the idle set, with the times (measured from the
/// pool's start) at which it was created and last returned.
pub struct Idle<R> {
    /// The resource itself.
    pub resource: R,
    /// When the resource was created.
    pub created_at: Duration,
    /// When the resource was last returned to the pool.
    pub last_used: Duration,
}

/// How long ago `since` was, seen from `now`; zero if `since` lies ahead.
pub open spec fn age(now: Duration, since: Duration) -> nat {
    if now@ >= since@ {
        (now@ - since@) as nat
    } else {
        0
    }
}

/// Whether a resource created at `created_at` and last used at `last_used` has,
/// at `now`, outlived the configuration's `max_lifetime` or `idle_timeout`.
pub open spec fn expired_at(
    cfg: PoolConfig,
    created_at: Duration,
    last_used: Duration,
    now: Duration,
) -> bool {
    ||| (cfg.max_lifetime matches Some(limit) && age(now, created_at) >= limit@)
    ||| (cfg.idle_timeout matches Some(limit) && age(now, last_used) >= limit@)
}

/// Whether an idle entry has expired at `now`.
pub open spec fn idle_expired<R>(cfg: PoolConfig, item: Idle<R>, now: Duration) -> bool {
    expired_at(cfg, item.created_at, item.last_used, now)
}

/// The entries of `s` that have not expired at `now`, in their order.
pub open spec fn fresh_idle<R>(s: Seq<Idle<R>>, cfg: PoolConfig, now: Duration) -> Seq<Idle<R>>
    decreases s.len(),
{
    if s.len() == 0 {
        Seq::empty()
    } else {
        let kept = fresh_idle(s.drop_last(), cfg, now);
        if idle_expired(cfg, s.last(), now) {
            kept
        } else {
            kept.push(s.last())
        }
    }
}

/// The resources of the entries of `s` that have expired at `now`, in their
/// order.
pub open spec fn expired_resources<R>(s: Seq<Idle<R>>, cfg: PoolConfig, now: Duration) -> Seq<R>
    decreases s.len(),
{
    if s.len() == 0 {
        Seq::empty()
    } else {
        let gone = expired_resources(s.drop_last(), cfg, now);
        if idle_expired(cfg, s.last(), now) {
            gone.push(s.last().resource)
        } else {
            gone
        }
    }
}

/// Every entry either stays or expires.
pub proof fn lemma_reap_partitions<R>(s: Seq<Idle<R>>, cfg: PoolConfig, now: Duration)
    ensures
        fresh_idle(s, cfg, now).len() + expired_resources(s, cfg, now).len() == s.len(),
    decreases s.len(),
{
    if s.len() > 0 {
        lemma_reap_partitions(s.drop_last(), cfg, now);
    }
}

/// What a checkout attempt found under the lock.
pub enum Checkout<R> {
    /// An idle resource was taken out; it still has to pass the expiry and
    /// validation checks.
    Reuse(Idle<R>),
    /// No idle resource, but room to grow: a slot was reserved for a new one.
    Create,
    /// No idle resource and no room: the caller has to wait.
    Saturated,
    /// The pool is closed.
    Closed,
}

/// The model of a pool's bookkeeping.
pub ghost struct PoolModel<R> {
    /// The idle set, oldest return first.
    pub idle: Seq<Idle<R>>,
    /// Resources the pool owns: idle, checked out, or being created.
    pub total: nat,
    /// Whether the pool has been closed.
    pub closed: bool,
    /// The most resources the pool may own at once.
    pub max_size: nat,
}

impl<R> PoolModel<R> {
    /// The bookkeeping invariant: the idle set is part of what the pool owns,
    /// the pool never owns more than `max_size`, and a closed pool keeps
    /// nothing idle.
    pub open spec fn inv(self) -> bool {
        &&& self.idle.len() <= self.total
        &&& self.total <= self.max_size
        &&& self.max_size <= usize::MAX
        &&& (self.closed ==> self.idle.len() == 0)
    }

    /// Resources owned but not idle: lent out or being created.
    pub open spec fn in_use(self) -> nat {
        (self.total - self.idle.len()) as nat
    }

    /// An empty, open pool.
    pub open spec fn empty(max_size: nat) -> PoolModel<R> {
        PoolModel { idle: Seq::empty(), total: 0, closed: false, max_size }
    }

    /// What a checkout finds: the pool closed, the oldest idle resource, room
    /// for a new resource, or saturation.
    pub open spec fn checkout_result(self) -> Checkout<R> {
        if self.closed {
            Checkout::Closed
        } else if self.idle.len() > 0 {
            Checkout::Reuse(self.idle[0])
        } else if self.total < self.max_size {
            Checkout::Create
        } else {
            Checkout::Saturated
        }
    }

    /// The bookkeeping after a checkout: the oldest idle resource leaves the
    /// idle set, or a slot is reserved for a new one.
    pub open spec fn after_checkout(self) -> PoolModel<R> {
        if self.closed {
            self
        } else if self.idle.len() > 0 {
            PoolModel { idle: self.idle.drop_first(), ..self }
        } else if self.total < self.max_size {
            PoolModel { total: self.total + 1, ..self }
        } else {
            self
        }
    }

    /// The bookkeeping after a slot held by a caller is given back.
    pub open spec fn after_release(self) -> PoolModel<R> {
        if self.total > self.idle.len() {
            PoolModel { total: (self.total - 1) as nat, ..self }
        } else {
            self
        }
    }

    /// Whether a returned resource goes back to the idle set: the pool is
    /// open, recycling succeeded, and the resource holds one of the pool's
    /// slots.
    pub open spec fn checkin_keeps(self, recycled: bool) -> bool {
        !self.closed && recycled && self.total > self.idle.len()
    }

    /// The bookkeeping after a resource is returned: it joins the back of the
    /// idle set, or it is discarded and its slot given back.
    pub open spec fn after_checkin(self, item: Idle<R>, recycled: bool) -> PoolModel<R> {
        if self.checkin_keeps(recycled) {
            PoolModel { idle: self.idle.push(item), ..self }
        } else {
            self.after_release()
        }
    }

    /// The bookkeeping after closing: every idle resource is discarded and no
    /// further checkout succeeds.
    pub open spec fn after_close(self) -> PoolModel<R> {
        PoolModel {
            idle: Seq::empty(),
            total: (self.total - self.idle.len()) as nat,
            closed: true,
            ..self
        }
    }

    /// The bookkeeping after pruning the idle resources that have expired at
    /// `now`.
    pub open spec fn after_reap(self, cfg: PoolConfig, now: Duration) -> PoolModel<R> {
        let kept = fresh_idle(self.idle, cfg, now);
        PoolModel { idle: kept, total: (self.total - (self.idle.len() - kept.len())) as nat, ..self }
    }

    /// The resources a prune at `now` discards.
    pub open spec fn reaped(self, cfg: PoolConfig, now: Duration) -> Seq<R> {
        expired_resources(self.idle, cfg, now)
    }

    /// The bookkeeping after a freshly created resource is added to the idle
    /// set at `now`.
    pub open spec fn after_add_idle(self, resource: R, now: Duration) -> PoolModel<R> {
        PoolModel {
            idle: self.idle.push(Idle { resource, created_at: now, last_used: now }),
            total: self.total + 1,
            ..self
        }
    }

    /// The occupancy snapshot of this bookkeeping.
    pub open spec fn status(self) -> Status {
        Status {
            size: self.total as usize,
            idle: self.idle.len() as usize,
            in_use: self.in_use() as usize,
            max_size: self.max_size as usize,
        }
    }
}

/// The bookkeeping guarded by a pool's lock.
pub struct PoolState<R> {
    idle: VecDeque<Idle<R>>,
    total: usize,
    closed: bool,
    max_size: usize,
}

impl<R> View for PoolState<R> {
    type V = PoolModel<R>;

    open spec fn view(&self) -> PoolModel<R> {
        self.model()
    }
}

/// Whether idle resources can expire under `cfg` at all; decided by the
/// configuration alone.
pub fn has_expiry_policy(cfg: &PoolConfig) -> (b: bool)
    ensures
        b == cfg.has_expiry(),
{
    cfg.idle_timeout.is_some() || cfg.max_lifetime.is_some()
}

/// Whether an idle resource created at `created_at` and last used at
/// `last_used` has outlived `max_lifetime` or `idle_timeout` at `now`.
pub fn is_time_expired(cfg: &PoolConfig, created_at: &Duration, last_used: &Duration, now: &Duration) -> (b: bool)
    ensures
        b == expired_at(*cfg, *created_at, *last_used, *now),
{
    if let Some(max_lifetime) = &cfg.max_lifetime {
        if now.saturating_sub(created_at).at_least(max_lifetime) {
            return true;
        }
    }
    if let Some(idle_timeout) = &cfg.idle_timeout {
        if now.saturating_sub(last_used).at_least(idle_timeout) {
            return true;
        }
    }
    false
}

impl<R> PoolState<R> {
    /// The model of this bookkeeping.
    pub closed spec fn model(&self) -> PoolModel<R> {
        PoolModel {
            idle: self.idle@,
            total: self.total as nat,
            closed: self.closed,
            max_size: self.max_size as nat,
        }
    }

    /// Every state satisfies the bookkeeping invariant.
    #[verifier::type_invariant]
    pub(crate) open spec fn consistent(self) -> bool {
        self.model().inv()
    }

    /// An empty, open pool that may own up to `max_size` resources.
    pub fn new(max_size: usize) -> (s: PoolState<R>)
        ensures
            s@ == PoolModel::<R>::empty(max_size as nat),
    {
        PoolState { idle: VecDeque::with_capacity(max_size), total: 0, closed: false, max_size }
    }

    /// An empty, open state that allocates nothing; it stands in for the real
    /// state while that is taken out of the pool's lock.
    pub(crate) fn placeholder(max_size: usize) -> (s: PoolState<R>)
        ensures
            s@ == PoolModel::<R>::empty(max_size as nat),
    {
        PoolState { idle: VecDeque::new(), total: 0, closed: false, max_size }
    }

    /// Whether the pool has been closed.
    pub fn is_closed(&self) -> (b: bool)
        ensures
            b == self@.closed,
    {
        self.closed
    }

    /// The occupancy snapshot. Every state satisfies the bookkeeping
    /// invariant.
    pub fn status(&self) -> (st: Status)
        ensures
            self@.inv(),
            st == self@.status(),
            st.is_consistent(),
    {
        proof {
            use_type_invariant(self);
        }
        let idle = self.idle.len();
        Status { size: self.total, idle, in_use: self.total - idle, max_size: self.max_size }
    }

    /// Move the fields out, leaving an empty placeholder behind; the caller
    /// rebuilds the state with a constructor, which re-checks the invariant.
    fn take_parts(&mut self) -> (parts: (VecDeque<Idle<R>>, usize, bool, usize))
        ensures
            parts.0@ == old(self)@.idle,
            parts.1 as nat == old(self)@.total,
            parts.2 == old(self)@.closed,
            parts.3 as nat == old(self)@.max_size,
            old(self)@.inv(),
    {
        proof {
            use_type_invariant(&*self);
        }
        let mut taken = PoolState { idle: VecDeque::new(), total: 0, closed: false, max_size: 0 };
        std::mem::swap(self, &mut taken);
        proof {
            use_type_invariant(&taken);
        }
        let PoolState { idle, total, closed, max_size } = taken;
        (idle, total, closed, max_size)
    }

    /// Take the oldest idle resource, or reserve a slot for a new one, or
    /// report saturation or closure. Only the first two change the state.
    pub fn checkout(&mut self) -> (c: Checkout<R>)
        ensures
            c == old(self)@.checkout_result(),
            final(self)@ == old(self)@.after_checkout(),
    {
        let (mut idle, mut total, closed, max_size) = self.take_parts();
        let c = if closed {
            Checkout::Closed
        } else if idle.len() > 0 {
            let item = idle.pop_front().unwrap();
            Checkout::Reuse(item)
        } else if total < max_size {
            total = total + 1;
            Checkout::Create
        } else {
            Checkout::Saturated
        };
        *self = PoolState { idle, total, closed, max_size };
        c
    }

    /// Give back a slot held by a caller: a reserved slot whose creation
    /// failed, or a resource that was discarded. Only a slot that is actually
    /// held (the pool owns more than its idle set) is given back.
    pub fn release_slot(&mut self)
        ensures
            final(self)@ == old(self)@.after_release(),
    {
        let (idle, mut total, closed, max_size) = self.take_parts();
        if total > idle.len() {
            total = total - 1;
        }
        *self = PoolState { idle, total, closed, max_size };
    }

    /// Return a resource. It joins the back of the idle set when the pool is
    /// open and recycling succeeded; otherwise it is handed back to the caller
    /// to be dropped outside the lock, and its slot is given back.
    pub fn checkin(&mut self, item: Idle<R>, recycled: bool) -> (discarded: Option<Idle<R>>)
        ensures
            final(self)@ == old(self)@.after_checkin(item, recycled),
            discarded == (if old(self)@.checkin_keeps(recycled) {
                None
            } else {
                Some(item)
            }),
    {
        let (mut idle, mut total, closed, max_size) = self.take_parts();
        let discarded = if !closed && recycled && total > idle.len() {
            idle.push_back(item);
            None
        } else {
            if total > idle.len() {
                total = total - 1;
            }
            Some(item)
        };
        *self = PoolState { idle, total, closed, max_size };
        discarded
    }

    /// Close the pool: every idle resource leaves the pool and is handed back
    /// to be dropped outside the lock.
    pub fn close(&mut self) -> (drained: VecDeque<Idle<R>>)
        ensures
            final(self)@ == old(self)@.after_close(),
            drained@ == old(self)@.idle,
    {
        let (drained, total, _closed, max_size) = self.take_parts();
        *self = PoolState {
            idle: VecDeque::new(),
            total: total - drained.len(),
            closed: true,
            max_size,
        };
        drained
    }

    /// Prune the idle resources that have expired at `now`, keeping the others
    /// in order. The discarded resources are handed back to be dropped outside
    /// the lock.
    pub fn reap(&mut self, cfg: &PoolConfig, now: Duration) -> (expired: Vec<R>)
        ensures
            final(self)@ == old(self)@.after_reap(*cfg, now),
            expired@ == old(self)@.reaped(*cfg, now),
    {
        let (mut pending, total, closed, max_size) = self.take_parts();
        let ghost start = pending@;
        let mut kept: VecDeque<Idle<R>> = VecDeque::new();
        let mut expired: Vec<R> = Vec::new();
        let ghost mut done: int = 0;
        while pending.len() > 0
            invariant
                0 <= done <= start.len(),
                pending@ == start.skip(done),
                kept@ == fresh_idle(start.take(done), *cfg, now),
                expired@ == expired_resources(start.take(done), *cfg, now),
            decreases pending.len(),
        {
            let item = pending.pop_front().unwrap();
            proof {
                assert(start.take(done + 1).drop_last() =~= start.take(done));
                assert(start.take(done + 1).last() == start[done]);
                assert(start.skip(done + 1) =~= start.skip(done).drop_first());
            }
            if is_time_expired(cfg, &item.created_at, &item.last_used, &now) {
                expired.push(item.resource);
            } else {
                kept.push_back(item);
            }
            proof {
                done = done + 1;
            }
        }
        proof {
            assert(start.take(done) =~= start);
            lemma_reap_partitions(start, *cfg, now);
        }
        let pruned = expired.len();
        *self = PoolState { idle: kept, total: total - pruned, closed, max_size };
        expired
    }

    /// Add a freshly created resource to the idle set, stamped with `now`.
    pub fn add_idle(&mut self, resource: R, now: Duration)
        requires
            !old(self)@.closed,
            old(self)@.total < old(self)@.max_size,
        ensures
            final(self)@ == old(self)@.after_add_idle(resource, now),
    {
        let (mut idle, total, closed, max_size) = self.take_parts();
        idle.push_back(Idle { resource, created_at: now, last_used: now });
        *self = PoolState { idle, total: total + 1, closed, max_size };
    }
}

} // verus!
