//! The pool itself: [`Pool`], its [`Builder`], and the [`Pooled`] lease.

use vstd::prelude::*;
use std::sync::Arc;
use std::time::Instant;

use crate::clock::{clock_start, elapsed_since};
use crate::config::PoolConfig;
use crate::duration::Duration;
use crate::error::Error;
use crate::manager::{validate_with, validated, Manager};
use crate::state::{expired_at, has_expiry_policy, idle_expired, is_time_expired, Checkout, Idle, PoolModel, PoolState};
use crate::status::Status;
use crate::sync::{exchange, wait, wait_timeout, Held, Monitor};
use crate::trace::{admissible, deadline_after, Ending, Round, Run};

verus! {

/// Shared pool state behind an [`Arc`]: every [`Pool`] handle and every
/// outstanding [`Pooled`] lease holds one.
struct PoolInner<M: Manager> {
    manager: M,
    config: PoolConfig,
    state: Monitor<PoolState<M::Resource>>,
    epoch: Instant,
}

/// What returning a lease did to the pool's bookkeeping, as seen under the
/// lock: the bookkeeping found, the entry settled (the resource after
/// recycling, with its creation and return times), whether recycling
/// succeeded, and the bookkeeping left.
pub ghost struct CheckinRecord<R> {
    pub before: PoolModel<R>,
    pub entry: Idle<R>,
    pub recycled: bool,
    pub after: PoolModel<R>,
}

/// What a prune did to the pool's bookkeeping.
pub ghost enum Pruning<R> {
    /// Neither `idle_timeout` nor `max_lifetime` is configured: nothing can
    /// expire, and nothing was done.
    NoPolicy,
    /// The lock could not be taken, and nothing was done.
    Refused,
    /// Under the lock, the bookkeeping `before` was pruned at `now`, leaving
    /// `after`.
    Pruned { before: PoolModel<R>, now: Duration, after: PoolModel<R> },
}

/// What a checkout attempt leads to, decided under the lock from what the
/// bookkeeping found.
pub enum Next<R, E> {
    /// The attempt fails with this error.
    Fail(Error<E>),
    /// Wait on the pool for a returned resource, at most this long (without
    /// limit when `None`), then try again.
    WaitFor(Option<Duration>),
    /// Check this idle resource (expiry and validation) before lending it.
    Check(Idle<R>),
    /// A slot is reserved: create a new resource.
    Build,
}

/// Decide what a checkout leads to, given what the bookkeeping found, the
/// caller's deadline, and the time `now`: a closed pool fails with `Closed`; a
/// saturated pool fails with `Timeout` once the deadline has passed and
/// otherwise waits for the time that is left; an idle resource is checked; a
/// reserved slot is filled by creating a resource.
pub fn settle_checkout<R, E>(found: Checkout<R>, deadline: &Option<Duration>, now: Duration) -> (next: Next<R, E>)
    ensures
        found is Closed ==> next == Next::<R, E>::Fail(Error::Closed),
        found is Create ==> next == Next::<R, E>::Build,
        found matches Checkout::Reuse(item) ==> next == Next::<R, E>::Check(item),
        found is Saturated && deadline is None ==> next == Next::<R, E>::WaitFor(None),
        found is Saturated && deadline is Some && now@ >= deadline->0@ ==> next == Next::<
            R,
            E,
        >::Fail(Error::Timeout),
        found is Saturated && deadline is Some && now@ < deadline->0@ ==> (next matches Next::WaitFor(
            Some(left),
        ) && left@ == deadline->0@ - now@),
{
    match found {
        Checkout::Closed => Next::Fail(Error::Closed),
        Checkout::Create => Next::Build,
        Checkout::Reuse(item) => Next::Check(item),
        Checkout::Saturated => match deadline {
            None => Next::WaitFor(None),
            Some(limit) => {
                if now.at_least(limit) {
                    Next::Fail(Error::Timeout)
                } else {
                    Next::WaitFor(Some(limit.saturating_sub(&now)))
                }
            },
        },
    }
}

/// Settle a checked idle resource under the lock: a resource that passed its
/// checks is lent out and the bookkeeping is left alone; a rejected one (it
/// has already been dropped) gives its slot back.
pub fn settle_reuse<R>(state: &mut PoolState<R>, checked: Option<(R, Duration)>) -> (r: Reused<R>)
    ensures
        checked matches Some(found) ==> r == Reused::Lend(found.0, found.1) && final(state)@ == old(
            state,
        )@,
        checked is None ==> r == Reused::<R>::Retry && final(state)@ == old(state)@.after_release(),
{
    match checked {
        Some(found) => Reused::Lend(found.0, found.1),
        None => {
            state.release_slot();
            Reused::Retry
        },
    }
}

/// What becomes of a checkout that took an idle resource out.
pub enum Reused<R> {
    /// The resource passed its checks: lend it out, with its creation time.
    Lend(R, Duration),
    /// The resource was rejected and its slot given back: try again.
    Retry,
}

/// Settle the creation of a resource on a reserved slot under the lock: a
/// created resource is lent out, stamped with `now`, and the bookkeeping is
/// left alone; a failure gives the slot back and surfaces the manager's error
/// as [`Error::Backend`].
pub fn settle_create<R, E>(state: &mut PoolState<R>, created: Result<R, E>, now: Duration) -> (r: Result<
    (R, Duration),
    Error<E>,
>)
    ensures
        created matches Ok(resource) ==> r == Ok::<(R, Duration), Error<E>>((resource, now))
            && final(state)@ == old(state)@,
        created matches Err(e) ==> r == Err::<(R, Duration), Error<E>>(Error::Backend(e))
            && final(state)@ == old(state)@.after_release(),
{
    match created {
        Ok(resource) => Ok((resource, now)),
        Err(e) => {
            state.release_slot();
            Err(Error::Backend(e))
        },
    }
}

/// Settle a returned resource under the lock: the entry keeps its creation
/// time and is stamped with `now` as its last use; it joins the idle set when
/// recycling succeeded (and the pool is open), and is otherwise handed back to
/// be dropped, giving its slot back.
pub fn settle_checkin<R, E>(
    state: &mut PoolState<R>,
    resource: R,
    recycled: Result<(), E>,
    created_at: Duration,
    now: Duration,
) -> (discarded: Option<Idle<R>>)
    ensures
        final(state)@ == old(state)@.after_checkin(
            Idle { resource, created_at, last_used: now },
            recycled is Ok,
        ),
        discarded == (if old(state)@.checkin_keeps(recycled is Ok) {
            None
        } else {
            Some(Idle { resource, created_at, last_used: now })
        }),
{
    let ok = match recycled {
        Ok(()) => true,
        Err(_) => false,
    };
    state.checkin(Idle { resource, created_at, last_used: now }, ok)
}

/// Whether the manager's `validate` decided every idle resource the run
/// checked before it had expired: each one rejected unexpired was refused by
/// it, and the one lent was accepted by it, whatever the expiry policy.
pub open spec fn validated_run<M: Manager>(manager: M, cfg: PoolConfig, run: Run<M::Resource>) -> bool {
    &&& forall|i: int|
        0 <= i < run.rounds.len() ==> match #[trigger] run.rounds[i] {
            Round::Rejected { found, now, .. } => match found.checkout_result() {
                Checkout::Reuse(item) => !idle_expired(cfg, item, now) ==> validated(
                    manager,
                    item.resource,
                    false,
                ),
                _ => true,
            },
            _ => true,
        }
    &&& match run.ending {
        Ending::Reused { found, .. } => match found.checkout_result() {
            Checkout::Reuse(item) => validated(manager, item.resource, true),
            _ => true,
        },
        _ => true,
    }
}

/// What a checkout hands back, as far as a run speaks of it: the lent
/// resource's creation time, or the error.
pub open spec fn timing<R, E>(r: Result<(R, Duration), Error<E>>) -> Result<Duration, Error<E>> {
    match r {
        Ok(found) => Ok(found.1),
        Err(e) => Err(e),
    }
}

impl<M: Manager> PoolInner<M> {
    /// The pool's lock only ever holds bookkeeping sized by the configured
    /// `max_size`.
    #[verifier::type_invariant]
    spec fn sized(self) -> bool {
        forall|st: PoolState<M::Resource>| #[trigger]
            self.state.allows(st) <==> st@.max_size == self.config.max_size as nat
    }

    /// Time elapsed since the pool was built.
    fn now(&self) -> Duration {
        elapsed_since(&self.epoch)
    }

    /// A clock reading no earlier than `start`, an earlier reading: the clock
    /// is monotonic, so this is the reading itself, which the verifier cannot
    /// see to be so.
    fn reading_since(&self, start: &Duration) -> (now: Duration)
        ensures
            now@ >= start@,
    {
        let now = self.now();
        if now.at_least(start) {
            now
        } else {
            *start
        }
    }

    /// Take the bookkeeping out of a held lock on this pool's monitor, leaving
    /// an empty stand-in behind.
    fn take_state(&self, held: &mut Held<'_, PoolState<M::Resource>>) -> (st: PoolState<M::Resource>)
        requires
            old(held).monitor() == self.state,
        ensures
            final(held).monitor() == self.state,
            admissible(self.config, st@),
    {
        proof {
            use_type_invariant(self);
        }
        let mut st = PoolState::placeholder(self.config.max_size);
        exchange(held, &mut st);
        proof {
            use_type_invariant(&st);
        }
        st
    }

    /// Put the bookkeeping back into a held lock on this pool's monitor.
    fn put_state(&self, held: &mut Held<'_, PoolState<M::Resource>>, st: PoolState<M::Resource>)
        requires
            old(held).monitor() == self.state,
            st@.max_size == self.config.max_size,
        ensures
            final(held).monitor() == self.state,
    {
        proof {
            use_type_invariant(self);
        }
        let mut st = st;
        exchange(held, &mut st);
    }

    /// Apply the lifetime, idle-timeout and validation checks to a resource
    /// taken from the idle set at `now`. Returns the resource and its creation
    /// time when it passes; `None` (dropping it) when it has expired or fails
    /// validation.
    fn prepare(&self, idle: Idle<M::Resource>, now: Duration) -> (r: Option<(M::Resource, Duration)>)
        ensures
            expired_at(self.config, idle.created_at, idle.last_used, now) ==> r is None,
            !expired_at(self.config, idle.created_at, idle.last_used, now) ==> (r is Some && validated(
                self.manager,
                idle.resource,
                true,
            )) || (r is None && validated(self.manager, idle.resource, false)),
            r matches Some(found) ==> found.1 == idle.created_at,
    {
        if is_time_expired(&self.config, &idle.created_at, &idle.last_used, &now) {
            return None;
        }
        let Idle { mut resource, created_at, last_used: _ } = idle;
        let valid = validate_with(&self.manager, &mut resource);
        accept_if_valid(resource, created_at, valid)
    }

    /// Take a resource out of the pool: reuse an idle one that passes its
    /// checks, or create one while there is room, or wait until `deadline`
    /// (forever when `None`) for a resource to come back. Every decision is
    /// made by [`settle_checkout`], [`settle_reuse`] and [`settle_create`]; a
    /// rejected idle resource, or a wait, leads to another round.
    ///
    /// Also returns the run: what each lock found, round by round, and how
    /// the checkout ended, which is what it hands back (the resource and its
    /// creation time, or the error).
    ///
    /// The caller gives up with [`Error::Timeout`] after `u64::MAX` rounds, or
    /// when the lock cannot be taken (see [`Monitor::lock`]); a resource in
    /// hand at that point is dropped without its slot being given back.
    fn acquire(&self, deadline: Option<Duration>, start: Duration) -> (out: (
        Result<(M::Resource, Duration), Error<M::Error>>,
        Ghost<Run<M::Resource>>,
    ))
        ensures
            out.1@.start == start,
            out.1@.explains(self.config, deadline, timing(out.0)),
            validated_run(self.manager, self.config, out.1@),
    {
        let ghost mut rounds: Seq<Round<M::Resource>> = Seq::empty();
        let mut budget: u64 = u64::MAX;
        loop
            invariant
                forall|i: int| 0 <= i < rounds.len() ==> #[trigger] rounds[i].valid(self.config, deadline),
                forall|i: int| 0 <= i < rounds.len() ==> (#[trigger] rounds[i]).now()@ >= start@,
                rounds.len() == u64::MAX - budget,
                validated_run(self.manager, self.config, Run { start, rounds, ending: Ending::Closed { found: PoolModel::empty(0) } }),
            decreases budget,
        {
            if budget == 0 {
                let ghost ending = Ending::GaveUp { lock_refused: false };
                return (Err(Error::Timeout), Ghost(Run { start, rounds, ending }));
            }
            budget = budget - 1;
            // Decide under the lock; a saturated pool waits on the monitor
            // before the lock is let go, so no return can be missed.
            let ghost mut found: PoolModel<M::Resource> = PoolModel::empty(0);
            let (next, now) = {
                let mut held = match self.state.lock() {
                    Some(held) => held,
                    None => {
                        return (
                            Err(Error::Timeout),
                            Ghost(Run { start, rounds, ending: Ending::GaveUp { lock_refused: true } }),
                        );
                    },
                };
                let mut st = self.take_state(&mut held);
                proof {
                    found = st@;
                }
                let checkout = st.checkout();
                self.put_state(&mut held, st);
                let now = self.reading_since(&start);
                let next = settle_checkout::<M::Resource, M::Error>(checkout, &deadline, now);
                match &next {
                    Next::WaitFor(None) => {
                        let _woken = wait(held);
                    },
                    Next::WaitFor(Some(left)) => {
                        let _woken = wait_timeout(held, left.as_secs(), left.subsec_nanos());
                    },
                    _ => {},
                }
                (next, now)
            };
            match next {
                Next::Fail(e) => {
                    let ghost ending = if found.closed {
                        Ending::Closed { found }
                    } else {
                        Ending::TimedOut { found, now }
                    };
                    return (Err(e), Ghost(Run { start, rounds, ending }));
                },
                Next::WaitFor(_) => {
                    proof {
                        rounds = rounds.push(Round::Waited { found, now });
                    }
                },
                Next::Check(idle) => {
                    let checked_at = self.reading_since(&start);
                    let checked = self.prepare(idle, checked_at);
                    let ghost mut then: PoolModel<M::Resource> = PoolModel::empty(0);
                    let settled = match self.state.lock() {
                        Some(mut held) => {
                            let mut st = self.take_state(&mut held);
                            proof {
                                then = st@;
                            }
                            let settled = settle_reuse(&mut st, checked);
                            self.put_state(&mut held, st);
                            settled
                        },
                        None => {
                            return (
                            Err(Error::Timeout),
                            Ghost(Run { start, rounds, ending: Ending::GaveUp { lock_refused: true } }),
                        );
                        },
                    };
                    match settled {
                        Reused::Lend(resource, created_at) => {
                            let ghost ending = Ending::Reused { found, now: checked_at, then };
                            return (Ok((resource, created_at)), Ghost(Run { start, rounds, ending }));
                        },
                        Reused::Retry => {
                            proof {
                                rounds = rounds.push(Round::Rejected { found, now: checked_at, then });
                            }
                            // The rejected resource's slot was given back:
                            // wake a waiter to claim it, and try again.
                            self.state.notify_one();
                        },
                    }
                },
                Next::Build => {
                    let created = self.manager.create();
                    let made_at = self.reading_since(&start);
                    let ghost mut then: PoolModel<M::Resource> = PoolModel::empty(0);
                    let settled = match self.state.lock() {
                        Some(mut held) => {
                            let mut st = self.take_state(&mut held);
                            proof {
                                then = st@;
                            }
                            let settled = settle_create(&mut st, created, made_at);
                            self.put_state(&mut held, st);
                            settled
                        },
                        None => {
                            return (
                            Err(Error::Timeout),
                            Ghost(Run { start, rounds, ending: Ending::GaveUp { lock_refused: true } }),
                        );
                        },
                    };
                    let ghost ending = if settled is Ok {
                        Ending::Created { found, now: made_at, then }
                    } else {
                        Ending::CreateFailed { found, then }
                    };
                    if settled.is_err() {
                        self.state.notify_one();
                    }
                    return (settled, Ghost(Run { start, rounds, ending }));
                },
            }
        }
    }

    /// Return a borrowed resource: recycle it, then settle it with
    /// [`settle_checkin`]. Also returns what that did to the bookkeeping; when
    /// the lock cannot be taken (see [`Monitor::lock`]) nothing is recorded and
    /// the resource is dropped without its slot being given back.
    fn checkin(&self, resource: M::Resource, created_at: Duration, lent_at: Duration) -> (record: Ghost<
        Option<CheckinRecord<M::Resource>>,
    >)
        ensures
            record@ matches Some(rec) ==> {
                &&& rec.entry.created_at == created_at
                &&& rec.entry.last_used@ >= lent_at@
                &&& admissible(self.config, rec.before)
                &&& rec.after == rec.before.after_checkin(rec.entry, rec.recycled)
            },
    {
        let mut resource = resource;
        let recycled = self.manager.recycle(&mut resource);
        let now = self.reading_since(&lent_at);
        let ghost entry = Idle { resource, created_at, last_used: now };
        let ghost ok = recycled is Ok;
        let (discarded, record) = match self.state.lock() {
            Some(mut held) => {
                let mut st = self.take_state(&mut held);
                let ghost before = st@;
                let discarded = settle_checkin(&mut st, resource, recycled, created_at, now);
                let ghost after = st@;
                self.put_state(&mut held, st);
                (discarded, Ghost(Some(CheckinRecord { before, entry, recycled: ok, after })))
            },
            None => {
                return Ghost(None);
            },
        };
        self.state.notify_one();
        // A discarded resource is dropped at the end of this call, outside
        // the lock.
        let _discarded = discarded;
        record
    }
}

/// The outcome of the validation-on-borrow of an unexpired idle resource:
/// the resource and its creation time when the manager accepted it, `None`
/// (dropping it) when the manager rejected it.
pub fn accept_if_valid<R>(resource: R, created_at: Duration, valid: bool) -> (r: Option<(R, Duration)>)
    ensures
        r == (if valid {
            Some((resource, created_at))
        } else {
            None
        }),
{
    if valid {
        Some((resource, created_at))
    } else {
        None
    }
}

/// Create the `min_idle` resources a pool starts with, each stamped with the
/// time (since `epoch`) at which it was created.
fn prewarm<M: Manager>(manager: &M, config: &PoolConfig, epoch: &Instant) -> (r: Result<
    PoolState<M::Resource>,
    M::Error,
>)
    requires
        config.is_valid(),
    ensures
        r matches Ok(state) ==> {
            &&& state@.idle.len() == config.min_idle
            &&& state@.total == config.min_idle
            &&& !state@.closed
            &&& state@.max_size == config.max_size
        },
        config.min_idle == 0 ==> r is Ok,
{
    let mut state: PoolState<M::Resource> = PoolState::new(config.max_size);
    let mut made: usize = 0;
    while made < config.min_idle
        invariant
            config.is_valid(),
            made <= config.min_idle,
            state@.idle.len() == made,
            state@.total == made,
            !state@.closed,
            state@.max_size == config.max_size,
        decreases config.min_idle - made,
    {
        match manager.create() {
            Ok(resource) => {
                let now = elapsed_since(epoch);
                state.add_idle(resource, now);
                made = made + 1;
            },
            Err(source) => {
                return Err(source);
            },
        }
    }
    Ok(state)
}

/// A thread-safe pool of reusable resources.
///
/// A `Pool<M>` lends out resources built by a [`Manager`]. It is cheap to
/// clone: every clone is a handle onto the same shared pool.
pub struct Pool<M: Manager>(Arc<PoolInner<M>>);

impl<M: Manager> Clone for Pool<M> {
    /// Another handle onto the same pool.
    fn clone(&self) -> (handle: Self)
        ensures
            handle == *self,
    {
        Pool(Arc::clone(&self.0))
    }
}

impl<M: Manager> Pool<M> {
    /// The configuration the pool was built with.
    pub closed spec fn settings(&self) -> PoolConfig {
        self.0.config
    }

    /// The manager the pool was built with.
    pub closed spec fn manager(&self) -> M {
        self.0.manager
    }

    /// The bookkeeping the pool was built with.
    pub closed spec fn initial(&self) -> PoolModel<M::Resource> {
        self.0.state.initial()@
    }

    /// The configuration the pool was built with.
    pub fn config(&self) -> (cfg: PoolConfig)
        ensures
            cfg == self.settings(),
    {
        self.0.config
    }

    /// Start building a pool for `manager` with the default configuration.
    pub fn builder(manager: M) -> (b: Builder<M>)
        ensures
            b.settings() == PoolConfig::spec_default(),
            b.manager() == manager,
    {
        Builder::new(manager)
    }

    /// Build a pool for `manager` with the default configuration. The default
    /// is valid and creates nothing up front, so this always succeeds, with
    /// an empty, open pool.
    pub fn new(manager: M) -> (r: Result<Self, Error<M::Error>>)
        ensures
            (r matches Ok(pool) && pool.settings() == PoolConfig::spec_default() && pool.manager()
                == manager && pool.initial() == PoolModel::<M::Resource>::empty(
                PoolConfig::spec_default().max_size as nat,
            )),
    {
        let r = Builder::new(manager).build();
        proof {
            if r is Ok {
                assert(r->Ok_0.initial().idle =~= Seq::<Idle<M::Resource>>::empty());
            }
        }
        r
    }

    /// What a checkout through this pool handed back, as far as a run speaks
    /// of it: the lease's creation time, or the error.
    pub open spec fn outcome(r: Result<Pooled<M>, Error<M::Error>>) -> Result<Duration, Error<M::Error>> {
        match r {
            Ok(lease) => Ok(lease.created_at()),
            Err(e) => Err(e),
        }
    }

    /// Borrow a resource, waiting up to the configured `create_timeout` (or
    /// indefinitely when it is `None`) if the pool is saturated.
    ///
    /// Reuses the oldest idle resource that has not expired and passes
    /// validation (a rejected one is dropped and the checkout goes round
    /// again), grows the pool toward `max_size` otherwise, and otherwise waits
    /// for a resource to be returned. The result is explained by a run (see
    /// [`Run::explains`]) aiming for the deadline `create_timeout` after the
    /// call's start; without a `create_timeout` there is no deadline, so the
    /// only `Timeout` is giving up.
    pub fn get(&self) -> (r: Result<Pooled<M>, Error<M::Error>>)
        ensures
            r matches Ok(lease) ==> lease.is_from(self),
            r matches Err(e) ==> (e is Backend || e is Timeout || e is Closed),
            exists|start: Duration, deadline: Option<Duration>, run: Run<M::Resource>|
                #![trigger deadline_after(deadline, start, self.settings().create_timeout), run.explains(self.settings(), deadline, Self::outcome(r))]
                deadline_after(deadline, start, self.settings().create_timeout) && run.start == start
                    && (r matches Ok(lease) ==> lease.lent_at()@ >= start@) && run.explains(self.settings(), deadline, Self::outcome(r)) && validated_run(
                    self.manager(),
                    self.settings(),
                    run,
                ),
    {
        let start = self.0.now();
        let deadline = match &self.0.config.create_timeout {
            Some(timeout) => Some(start.saturating_add(timeout)),
            None => None,
        };
        let (r, Ghost(run)) = self.acquire(deadline, start);
        proof {
            assert(deadline_after(deadline, start, self.settings().create_timeout));
            assert(run.explains(self.settings(), deadline, Self::outcome(r)));
        }
        r
    }

    /// Borrow a resource, waiting at most `timeout` regardless of the
    /// configured `create_timeout`. A zero `timeout` makes this a
    /// non-blocking try. The result is explained by a run aiming for the
    /// deadline `timeout` after the call's start.
    pub fn get_timeout(&self, timeout: Duration) -> (r: Result<Pooled<M>, Error<M::Error>>)
        ensures
            r matches Ok(lease) ==> lease.is_from(self),
            r matches Err(e) ==> (e is Backend || e is Timeout || e is Closed),
            exists|start: Duration, deadline: Option<Duration>, run: Run<M::Resource>|
                #![trigger deadline_after(deadline, start, Some(timeout)), run.explains(self.settings(), deadline, Self::outcome(r))]
                deadline_after(deadline, start, Some(timeout)) && run.start == start && (r matches Ok(
                    lease,
                ) ==> lease.lent_at()@ >= start@) && run.explains(
                    self.settings(),
                    deadline,
                    Self::outcome(r),
                ) && validated_run(self.manager(), self.settings(), run),
    {
        let start = self.0.now();
        let deadline = Some(start.saturating_add(&timeout));
        let (r, Ghost(run)) = self.acquire(deadline, start);
        proof {
            assert(deadline_after(deadline, start, Some(timeout)));
            assert(run.explains(self.settings(), deadline, Self::outcome(r)));
        }
        r
    }

    /// Borrow a resource without ever waiting: [`Error::Timeout`] at once if
    /// no resource is idle and the pool has no room to create one. The same
    /// as `get_timeout` with a zero timeout: the result is explained by a run
    /// whose deadline is the call's start.
    pub fn try_get(&self) -> (r: Result<Pooled<M>, Error<M::Error>>)
        ensures
            r matches Ok(lease) ==> lease.is_from(self),
            r matches Err(e) ==> (e is Backend || e is Timeout || e is Closed),
            exists|start: Duration, run: Run<M::Resource>|
                #![trigger run.explains(self.settings(), Some(start), Self::outcome(r))]
                run.start == start && (r matches Ok(lease) ==> lease.lent_at()@ >= start@)
                    && run.explains(self.settings(), Some(start), Self::outcome(r))
                    && validated_run(self.manager(), self.settings(), run),
    {
        let start = self.0.now();
        let (r, Ghost(run)) = self.acquire(Some(start), start);
        proof {
            assert(run.explains(self.settings(), Some(start), Self::outcome(r)));
        }
        r
    }

    fn acquire(&self, deadline: Option<Duration>, start: Duration) -> (out: (Result<Pooled<M>, Error<M::Error>>, Ghost<Run<M::Resource>>))
        ensures
            out.0 matches Ok(lease) ==> lease.is_from(self) && lease.lent_at()@ >= start@,
            out.1@.start == start,
            out.1@.explains(self.settings(), deadline, Self::outcome(out.0)),
            validated_run(self.manager(), self.settings(), out.1@),
    {
        let (outcome, run) = self.0.acquire(deadline, start);
        let r = match outcome {
            Ok((resource, created_at)) => {
                let lent_at = self.0.reading_since(&start);
                Ok(Pooled { pool: Arc::clone(&self.0), resource, created_at, lent_at })
            },
            Err(e) => Err(e),
        };
        (r, run)
    }

    /// Take a snapshot of the pool's current occupancy: the counts of the
    /// bookkeeping read under the lock, which a pool of this configuration can
    /// hold, so `size` never exceeds `max_size`. When the lock cannot be taken
    /// (see [`Monitor::lock`]) the snapshot is that of an empty pool.
    pub fn status(&self) -> (st: Status)
        ensures
            st.is_consistent(),
            st.max_size == self.settings().max_size,
            exists|m: PoolModel<M::Resource>| #[trigger] admissible(self.settings(), m) && st == m.status(),
    {
        match self.0.state.lock() {
            Some(mut held) => {
                let st = self.0.take_state(&mut held);
                let counts = st.status();
                proof {
                    assert(admissible(self.settings(), st@));
                }
                self.0.put_state(&mut held, st);
                counts
            },
            None => {
                let ghost empty = PoolModel::<M::Resource>::empty(self.0.config.max_size as nat);
                proof {
                    assert(admissible(self.settings(), empty));
                }
                Status { size: 0, idle: 0, in_use: 0, max_size: self.0.config.max_size }
            },
        }
    }

    /// Close the pool: discard every idle resource and reject all future
    /// checkouts with [`Error::Closed`]. Resources currently lent out are
    /// discarded when they are returned. Closing is idempotent.
    ///
    /// Returns the bookkeeping found under the lock and the bookkeeping left,
    /// which is what [`PoolState::close`] makes of it; nothing happens, and
    /// nothing is recorded, when the lock cannot be taken (see
    /// [`Monitor::lock`]).
    pub fn close(&self) -> (change: Ghost<Option<(PoolModel<M::Resource>, PoolModel<M::Resource>)>>)
        ensures
            change@ matches Some(seen) ==> {
                &&& admissible(self.settings(), seen.0)
                &&& seen.1 == seen.0.after_close()
            },
    {
        let (drained, change) = match self.0.state.lock() {
            Some(mut held) => {
                let mut st = self.0.take_state(&mut held);
                let ghost before = st@;
                let drained = st.close();
                let ghost after = st@;
                self.0.put_state(&mut held, st);
                (drained, Ghost(Some((before, after))))
            },
            None => {
                return Ghost(None);
            },
        };
        self.0.state.notify_all();
        // Idle resources are dropped at the end of this call, outside the
        // lock.
        let _drained = drained;
        change
    }

    /// Whether the pool has been closed: the flag of the bookkeeping read
    /// under the lock; `false`, as for a fresh pool, when the lock cannot be
    /// taken (see [`Monitor::lock`]).
    pub fn is_closed(&self) -> (b: bool)
        ensures
            exists|m: PoolModel<M::Resource>| #[trigger] admissible(self.settings(), m) && b == m.closed,
    {
        match self.0.state.lock() {
            Some(mut held) => {
                let st = self.0.take_state(&mut held);
                let closed = st.is_closed();
                proof {
                    assert(admissible(self.settings(), st@));
                }
                self.0.put_state(&mut held, st);
                closed
            },
            None => {
                let ghost empty = PoolModel::<M::Resource>::empty(self.0.config.max_size as nat);
                proof {
                    assert(admissible(self.settings(), empty));
                }
                false
            },
        }
    }

    /// Prune the idle resources that have outlived `idle_timeout` or
    /// `max_lifetime`. Waiters are woken when slots were freed. This is the
    /// work of one tick of a background reaper.
    ///
    /// Returns what was done: with an expiry limit configured, the lock is
    /// taken and the bookkeeping found is pruned, at a fresh clock reading,
    /// as [`PoolState::reap`] does; without one nothing can expire and
    /// nothing is done; when the lock cannot be taken (see [`Monitor::lock`])
    /// nothing is done either.
    pub fn reap(&self) -> (change: Ghost<Pruning<M::Resource>>)
        ensures
            (change@ is NoPolicy) == !self.settings().has_expiry(),
            change@ matches Pruning::Pruned { before, now, after } ==> {
                &&& admissible(self.settings(), before)
                &&& after == before.after_reap(self.settings(), now)
            },
    {
        if !has_expiry_policy(&self.0.config) {
            return Ghost(Pruning::NoPolicy);
        }
        let now = self.0.now();
        let (expired, change) = match self.0.state.lock() {
            Some(mut held) => {
                let mut st = self.0.take_state(&mut held);
                let ghost before = st@;
                let expired = st.reap(&self.0.config, now);
                let ghost after = st@;
                self.0.put_state(&mut held, st);
                (expired, Ghost(Pruning::Pruned { before, now, after }))
            },
            None => {
                return Ghost(Pruning::Refused);
            },
        };
        // Expired resources are dropped at the end of this call, outside the
        // lock.
        if expired.len() > 0 {
            self.0.state.notify_all();
        }
        change
    }
}

/// A resource lent out by a [`Pool`].
///
/// A lease dereferences to the resource. Hand it back with
/// [`release`](Pooled::release): the resource is recycled and returned to the
/// idle set, or discarded (freeing its slot) when recycling fails or the pool
/// has been closed.
#[must_use]
pub struct Pooled<M: Manager> {
    pool: Arc<PoolInner<M>>,
    resource: M::Resource,
    created_at: Duration,
    lent_at: Duration,
}

impl<M: Manager> Pooled<M> {
    /// Whether this lease was handed out by `pool` (or a clone of it).
    pub closed spec fn is_from(&self, pool: &Pool<M>) -> bool {
        self.pool == pool.0
    }

    /// The leased resource.
    pub closed spec fn resource(&self) -> M::Resource {
        self.resource
    }

    /// Whether two leases were handed out by the same pool.
    pub closed spec fn is_from_same_pool(&self, other: &Pooled<M>) -> bool {
        self.pool == other.pool
    }

    /// When the lease's resource was created.
    pub closed spec fn created_at(&self) -> Duration {
        self.created_at
    }

    /// When the lease was handed out: a clock reading taken as its checkout
    /// ended.
    pub closed spec fn lent_at(&self) -> Duration {
        self.lent_at
    }

    /// Hand the resource back to its pool: it is recycled, then kept idle or
    /// discarded as [`PoolState::checkin`] decides. Returns what that did to
    /// the pool's bookkeeping: the entry keeps the lease's creation time, is
    /// stamped with the time of its return (no earlier than when it was
    /// lent), and joins the idle set exactly
    /// when recycling succeeded and the pool is open. Nothing is recorded, and
    /// the slot is not given back, when the lock cannot be taken.
    pub fn release(self) -> (record: Ghost<Option<CheckinRecord<M::Resource>>>)
        ensures
            record@ matches Some(rec) ==> {
                &&& rec.entry.created_at == self.created_at()
                &&& rec.entry.last_used@ >= self.lent_at()@
                &&& rec.before.inv()
                &&& rec.after == rec.before.after_checkin(rec.entry, rec.recycled)
            },
    {
        let Pooled { pool, resource, created_at, lent_at } = self;
        pool.checkin(resource, created_at, lent_at)
    }
}

impl<M: Manager> std::ops::Deref for Pooled<M> {
    type Target = M::Resource;

    fn deref(&self) -> (r: &M::Resource)
        ensures
            *r == self.resource(),
    {
        &self.resource
    }
}

impl<M: Manager> std::ops::DerefMut for Pooled<M> {
    fn deref_mut(&mut self) -> (r: &mut M::Resource)
        ensures
            *r == old(self).resource(),
            final(self).resource() == *final(r),
            final(self).is_from_same_pool(old(self)),
    {
        &mut self.resource
    }
}

/// A fluent builder for a [`Pool`], created by [`Pool::builder`]. Each setter
/// consumes and returns the builder; [`build`](Builder::build) validates the
/// configuration and creates the `min_idle` resources.
#[must_use]
pub struct Builder<M: Manager> {
    manager: M,
    config: PoolConfig,
}

impl<M: Manager> Builder<M> {
    /// The configuration assembled so far.
    pub closed spec fn settings(&self) -> PoolConfig {
        self.config
    }

    /// The manager the pool will use.
    pub closed spec fn manager(&self) -> M {
        self.manager
    }

    /// A builder for `manager`, seeded with the default configuration.
    pub fn new(manager: M) -> (b: Self)
        ensures
            b.settings() == PoolConfig::spec_default(),
            b.manager() == manager,
    {
        Builder { manager, config: PoolConfig::default() }
    }

    /// Set the maximum number of resources the pool may own at once.
    pub fn max_size(self, max_size: usize) -> (b: Self)
        ensures
            b.settings() == (PoolConfig { max_size, ..self.settings() }),
            b.manager() == self.manager(),
    {
        let Builder { manager, config } = self;
        Builder { manager, config: PoolConfig { max_size, ..config } }
    }

    /// Set how many resources to create up front.
    pub fn min_idle(self, min_idle: usize) -> (b: Self)
        ensures
            b.settings() == (PoolConfig { min_idle, ..self.settings() }),
            b.manager() == self.manager(),
    {
        let Builder { manager, config } = self;
        Builder { manager, config: PoolConfig { min_idle, ..config } }
    }

    /// Set how long [`Pool::get`] waits when the pool is saturated; `None`
    /// waits indefinitely.
    pub fn create_timeout(self, timeout: Option<Duration>) -> (b: Self)
        ensures
            b.settings() == (PoolConfig { create_timeout: timeout, ..self.settings() }),
            b.manager() == self.manager(),
    {
        let Builder { manager, config } = self;
        Builder { manager, config: PoolConfig { create_timeout: timeout, ..config } }
    }

    /// Set the idle-expiry window; `None` disables idle expiry.
    pub fn idle_timeout(self, timeout: Option<Duration>) -> (b: Self)
        ensures
            b.settings() == (PoolConfig { idle_timeout: timeout, ..self.settings() }),
            b.manager() == self.manager(),
    {
        let Builder { manager, config } = self;
        Builder { manager, config: PoolConfig { idle_timeout: timeout, ..config } }
    }

    /// Set the maximum resource lifetime; `None` disables lifetime expiry.
    pub fn max_lifetime(self, lifetime: Option<Duration>) -> (b: Self)
        ensures
            b.settings() == (PoolConfig { max_lifetime: lifetime, ..self.settings() }),
            b.manager() == self.manager(),
    {
        let Builder { manager, config } = self;
        Builder { manager, config: PoolConfig { max_lifetime: lifetime, ..config } }
    }

    /// Set how often a background reaper should prune expired idle resources;
    /// `None` runs none.
    pub fn reap_interval(self, interval: Option<Duration>) -> (b: Self)
        ensures
            b.settings() == (PoolConfig { reap_interval: interval, ..self.settings() }),
            b.manager() == self.manager(),
    {
        let Builder { manager, config } = self;
        Builder { manager, config: PoolConfig { reap_interval: interval, ..config } }
    }

    /// Replace the entire configuration.
    pub fn config(self, config: PoolConfig) -> (b: Self)
        ensures
            b.settings() == config,
            b.manager() == self.manager(),
    {
        Builder { manager: self.manager, config }
    }

    /// Validate the configuration, build the pool, and create its `min_idle`
    /// resources.
    ///
    /// Fails with [`Error::InvalidConfig`] exactly when `max_size` is zero or
    /// `min_idle` exceeds `max_size`, and with [`Error::Backend`] when the
    /// manager fails to create one of the `min_idle` resources (those already
    /// created are dropped). A valid configuration with `min_idle` of zero
    /// always builds.
    pub fn build(self) -> (r: Result<Pool<M>, Error<M::Error>>)
        ensures
            self.settings().max_size == 0 ==> (r matches Err(Error::InvalidConfig(reason))
                && reason@ == "max_size must be at least 1"@),
            self.settings().max_size > 0 && self.settings().min_idle > self.settings().max_size ==> (
            r matches Err(Error::InvalidConfig(reason)) && reason@
                == "min_idle must not exceed max_size"@),
            self.settings().is_valid() ==> (r matches Err(e) ==> e is Backend),
            self.settings().is_valid() && self.settings().min_idle == 0 ==> r is Ok,
            r matches Ok(pool) ==> pool.settings() == self.settings() && pool.manager()
                == self.manager(),
            r matches Ok(pool) ==> {
                &&& pool.initial().idle.len() == self.settings().min_idle
                &&& pool.initial().total == self.settings().min_idle
                &&& pool.initial().in_use() == 0
                &&& !pool.initial().closed
                &&& pool.initial().max_size == self.settings().max_size
            },
    {
        if self.config.max_size == 0 {
            return Err(Error::InvalidConfig("max_size must be at least 1"));
        }
        if self.config.min_idle > self.config.max_size {
            return Err(Error::InvalidConfig("min_idle must not exceed max_size"));
        }
        let epoch = clock_start();
        let state = match prewarm(&self.manager, &self.config, &epoch) {
            Ok(state) => state,
            Err(source) => {
                return Err(Error::Backend(source));
            },
        };
        let Builder { manager, config } = self;
        let sized = Ghost(
            |st: PoolState<M::Resource>| st@.max_size == config.max_size as nat,
        );
        let inner = PoolInner { manager, config, state: Monitor::new(state, sized), epoch };
        Ok(Pool(Arc::new(inner)))
    }
}

} // verus!
