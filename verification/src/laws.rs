//! Properties of the pool's bookkeeping model that span several operations,
//! and of checkouts recorded round by round.
//!
//! Each operation of [`PoolState`](crate::state::PoolState) is specified by a
//! transition of [`PoolModel`]; most lemmas below are stated over those
//! transitions. They hold of the bookkeeping model, not of a sequence of calls
//! on a shared [`Pool`](crate::Pool), whose state between calls other threads
//! may change. The lemmas on a [`Run`] speak of one checkout: what each lock
//! found, and, where no other thread interrupted it, what the checkout did to
//! the bookkeeping it began with.

use vstd::prelude::*;

use crate::config::PoolConfig;
use crate::duration::Duration;
use crate::error::Error;
use crate::manager::{validated, Manager};
use crate::pool::validated_run;
use crate::trace::{admissible, Ending, Round, Run};
use crate::state::{
    age, expired_at, expired_resources, fresh_idle, idle_expired, lemma_reap_partitions, Checkout,
    Idle, PoolModel,
};

verus! {

/// Every snapshot satisfies `size == idle + in_use` and `size <= max_size`.
pub proof fn lemma_status_is_consistent<R>(m: PoolModel<R>)
    requires
        m.inv(),
    ensures
        m.status().is_consistent(),
        m.status().idle == m.idle.len(),
        m.status().size == m.total,
{
}

/// Every operation keeps the bookkeeping invariant: the pool never owns more
/// than `max_size` resources, its idle set is part of what it owns, and a
/// closed pool keeps nothing idle. No operation changes `max_size`.
pub proof fn lemma_operations_keep_invariant<R>(
    m: PoolModel<R>,
    item: Idle<R>,
    recycled: bool,
    cfg: PoolConfig,
    now: Duration,
    resource: R,
)
    requires
        m.inv(),
    ensures
        m.after_checkout().inv(),
        m.after_release().inv(),
        m.after_checkin(item, recycled).inv(),
        m.after_close().inv(),
        m.after_reap(cfg, now).inv(),
        !m.closed && m.total < m.max_size ==> m.after_add_idle(resource, now).inv(),
        m.after_checkout().max_size == m.max_size,
        m.after_release().max_size == m.max_size,
        m.after_checkin(item, recycled).max_size == m.max_size,
        m.after_close().max_size == m.max_size,
        m.after_reap(cfg, now).max_size == m.max_size,
{
    lemma_reap_partitions(m.idle, cfg, now);
}

/// A resource returned to an open pool with no idle resources is the next one
/// lent out, and lending it out restores the pool to where it was before the
/// return.
pub proof fn lemma_returned_resource_is_lent_next<R>(m: PoolModel<R>, item: Idle<R>)
    requires
        m.inv(),
        !m.closed,
        m.idle.len() == 0,
        m.in_use() > 0,
    ensures
        m.after_checkin(item, true).checkout_result() == Checkout::Reuse(item),
        m.after_checkin(item, true).after_checkout() == m,
{
    assert(m.idle.push(item).drop_first() =~= m.idle);
}

/// Returned resources are lent out again in the order they came back: after
/// returning `item`, it comes out only once every resource that was already
/// idle has been lent out.
pub proof fn lemma_idle_set_is_first_in_first_out<R>(m: PoolModel<R>, item: Idle<R>)
    requires
        m.inv(),
        !m.closed,
        m.in_use() > 0,
    ensures
        m.after_checkin(item, true).idle == m.idle.push(item),
        m.idle.len() > 0 ==> m.after_checkin(item, true).checkout_result() == Checkout::Reuse(
            m.idle[0],
        ),
{
}

/// Borrowing the only idle resource of an open pool and returning it (after a
/// successful recycle, at any time `t`) leaves the pool owning the same number
/// of resources, with that same resource idle again: no new resource is ever
/// created by sequential borrow and return.
pub proof fn lemma_borrow_and_return_reuses<R>(m: PoolModel<R>, t: Duration)
    requires
        m.inv(),
        !m.closed,
        m.idle.len() == 1,
    ensures
        m.checkout_result() == Checkout::Reuse(m.idle[0]),
        ({
            let back = Idle { resource: m.idle[0].resource, created_at: m.idle[0].created_at, last_used: t };
            let after = m.after_checkout().after_checkin(back, true);
            &&& after.total == m.total
            &&& after.idle == seq![back]
            &&& after.closed == m.closed
            &&& after.max_size == m.max_size
        }),
{
    let back = Idle { resource: m.idle[0].resource, created_at: m.idle[0].created_at, last_used: t };
    assert(m.idle.drop_first().push(back) =~= seq![back]);
}

/// The state after `n` rounds of borrowing the oldest idle resource and
/// returning it at time `t`.
pub open spec fn reuse_rounds<R>(m: PoolModel<R>, n: nat, t: Duration) -> PoolModel<R>
    decreases n,
{
    if n == 0 {
        m
    } else {
        let prev = reuse_rounds(m, (n - 1) as nat, t);
        let out = prev.idle[0];
        prev.after_checkout().after_checkin(
            Idle { resource: out.resource, created_at: out.created_at, last_used: t },
            true,
        )
    }
}

/// Any number of sequential borrow-and-return rounds on an open pool holding
/// one idle resource reuse that one resource: every round finds it idle, and
/// the pool never grows.
pub proof fn lemma_sequential_reuse_creates_nothing<R>(m: PoolModel<R>, n: nat, t: Duration)
    requires
        m.inv(),
        !m.closed,
        m.idle.len() == 1,
    ensures
        reuse_rounds(m, n, t).inv(),
        reuse_rounds(m, n, t).total == m.total,
        reuse_rounds(m, n, t).idle.len() == 1,
        reuse_rounds(m, n, t).idle[0].resource == m.idle[0].resource,
        !reuse_rounds(m, n, t).closed,
        reuse_rounds(m, n, t).max_size == m.max_size,
        reuse_rounds(m, n, t).checkout_result() is Reuse,
    decreases n,
{
    if n > 0 {
        lemma_sequential_reuse_creates_nothing(m, (n - 1) as nat, t);
        let prev = reuse_rounds(m, (n - 1) as nat, t);
        lemma_borrow_and_return_reuses(prev, t);
    }
}

/// An idle resource taken out and then rejected (expired, or failing
/// validation) is discarded with its slot; when it was the only idle resource
/// of a pool with room, the next checkout reserves a slot for a replacement.
pub proof fn lemma_rejected_idle_resource_is_replaced<R>(m: PoolModel<R>)
    requires
        m.inv(),
        !m.closed,
        m.idle.len() > 0,
    ensures
        m.after_checkout().after_release().idle == m.idle.drop_first(),
        m.after_checkout().after_release().total == m.total - 1,
        m.idle.len() == 1 ==> m.after_checkout().after_release().checkout_result()
            == Checkout::<R>::Create,
{
}

/// A slot reserved for a resource whose creation then fails is given back:
/// reserving and releasing leaves the pool exactly as it was.
pub proof fn lemma_failed_create_gives_slot_back<R>(m: PoolModel<R>)
    requires
        m.inv(),
        !m.closed,
        m.idle.len() == 0,
        m.total < m.max_size,
    ensures
        m.checkout_result() == Checkout::<R>::Create,
        m.after_checkout().total == m.total + 1,
        m.after_checkout().after_release() == m,
{
}

/// A saturated open pool (nothing idle, `max_size` resources owned) refuses to
/// grow: a checkout reports saturation and changes nothing.
pub proof fn lemma_saturated_pool_does_not_grow<R>(m: PoolModel<R>)
    requires
        m.inv(),
        !m.closed,
        m.idle.len() == 0,
        m.total == m.max_size,
    ensures
        m.checkout_result() == Checkout::<R>::Saturated,
        m.after_checkout() == m,
{
}

/// The state after `n` checkouts in a row, none of them returned.
pub open spec fn checkouts<R>(m: PoolModel<R>, n: nat) -> PoolModel<R>
    decreases n,
{
    if n == 0 {
        m
    } else {
        checkouts(m, (n - 1) as nat).after_checkout()
    }
}

/// How many of `n` checkouts in a row reserved a slot for a new resource.
pub open spec fn creations<R>(m: PoolModel<R>, n: nat) -> nat
    decreases n,
{
    if n == 0 {
        0
    } else {
        let before = checkouts(m, (n - 1) as nat);
        creations(m, (n - 1) as nat) + if before.checkout_result() is Create {
            1nat
        } else {
            0nat
        }
    }
}

/// The smaller of two numbers.
pub open spec fn min_nat(a: nat, b: nat) -> nat {
    if a <= b {
        a
    } else {
        b
    }
}

/// From an empty open pool, `n` checkouts in a row (none returned) hand out
/// exactly `min(n, max_size)` new resources: the pool grows to `max_size` and
/// never beyond, and every further checkout reports saturation.
pub proof fn lemma_greedy_checkouts_stop_at_max_size<R>(max_size: nat, n: nat)
    requires
        max_size <= usize::MAX,
    ensures
        creations(PoolModel::<R>::empty(max_size), n) == min_nat(n, max_size),
        checkouts(PoolModel::<R>::empty(max_size), n).total == min_nat(n, max_size),
        checkouts(PoolModel::<R>::empty(max_size), n).idle.len() == 0,
        !checkouts(PoolModel::<R>::empty(max_size), n).closed,
        checkouts(PoolModel::<R>::empty(max_size), n).max_size == max_size,
        checkouts(PoolModel::<R>::empty(max_size), n).inv(),
        n >= max_size ==> checkouts(PoolModel::<R>::empty(max_size), n).checkout_result()
            == Checkout::<R>::Saturated,
    decreases n,
{
    if n > 0 {
        lemma_greedy_checkouts_stop_at_max_size::<R>(max_size, (n - 1) as nat);
    }
}

/// The state after returning each of `items`, in order, all recycled.
pub open spec fn checkins<R>(m: PoolModel<R>, items: Seq<Idle<R>>) -> PoolModel<R>
    decreases items.len(),
{
    if items.len() == 0 {
        m
    } else {
        checkins(m, items.drop_last()).after_checkin(items.last(), true)
    }
}

/// Returning every lent-out resource of an open pool (all recycled) puts each
/// of them in the idle set, in the order returned, and nothing remains in use.
pub proof fn lemma_returning_everything_idles_everything<R>(m: PoolModel<R>, items: Seq<Idle<R>>)
    requires
        m.inv(),
        !m.closed,
        items.len() <= m.in_use(),
    ensures
        checkins(m, items).idle == m.idle + items,
        checkins(m, items).total == m.total,
        checkins(m, items).in_use() == m.in_use() - items.len(),
        checkins(m, items).inv(),
    decreases items.len(),
{
    if items.len() > 0 {
        lemma_returning_everything_idles_everything(m, items.drop_last());
        assert(m.idle + items.drop_last() + seq![items.last()] =~= m.idle + items);
        assert((m.idle + items.drop_last()).push(items.last()) =~= m.idle + items);
    }
}

/// A resource whose recycling fails is discarded on return: it does not join
/// the idle set and its slot is given back.
pub proof fn lemma_failed_recycle_discards<R>(m: PoolModel<R>, item: Idle<R>)
    requires
        m.inv(),
        m.in_use() > 0,
    ensures
        m.after_checkin(item, false).idle == m.idle,
        m.after_checkin(item, false).total == m.total - 1,
        !m.checkin_keeps(false),
{
}

/// Closing discards every idle resource and keeps only those still lent out;
/// afterwards every checkout is refused and changes nothing, every returned
/// resource is discarded, and closing again changes nothing.
pub proof fn lemma_close<R>(m: PoolModel<R>, item: Idle<R>, recycled: bool)
    requires
        m.inv(),
    ensures
        m.after_close().closed,
        m.after_close().idle.len() == 0,
        m.after_close().total == m.in_use(),
        m.after_close().checkout_result() == Checkout::<R>::Closed,
        m.after_close().after_checkout() == m.after_close(),
        !m.after_close().checkin_keeps(recycled),
        m.after_close().after_checkin(item, recycled).idle.len() == 0,
        m.after_close().after_close() == m.after_close(),
{
}

/// Without an idle timeout or a maximum lifetime nothing ever expires, so
/// pruning discards nothing and changes nothing.
pub proof fn lemma_reap_without_policy_changes_nothing<R>(
    m: PoolModel<R>,
    cfg: PoolConfig,
    now: Duration,
)
    requires
        m.inv(),
        !cfg.has_expiry(),
    ensures
        m.after_reap(cfg, now) == m,
        m.reaped(cfg, now).len() == 0,
{
    lemma_nothing_expires_without_policy(m.idle, cfg, now);
    assert(m.after_reap(cfg, now).idle =~= m.idle);
}

/// With no expiry policy every entry is fresh.
proof fn lemma_nothing_expires_without_policy<R>(s: Seq<Idle<R>>, cfg: PoolConfig, now: Duration)
    requires
        !cfg.has_expiry(),
    ensures
        fresh_idle(s, cfg, now) == s,
        expired_resources(s, cfg, now).len() == 0,
    decreases s.len(),
{
    if s.len() > 0 {
        lemma_nothing_expires_without_policy(s.drop_last(), cfg, now);
        assert(s.drop_last().push(s.last()) =~= s);
    }
}

/// When every idle resource has expired, pruning empties the idle set and
/// discards all of them; only resources lent out remain owned.
pub proof fn lemma_reap_all_expired<R>(m: PoolModel<R>, cfg: PoolConfig, now: Duration)
    requires
        m.inv(),
        forall|i: int| 0 <= i < m.idle.len() ==> #[trigger] idle_expired(cfg, m.idle[i], now),
    ensures
        m.after_reap(cfg, now).idle.len() == 0,
        m.after_reap(cfg, now).total == m.in_use(),
        m.reaped(cfg, now).len() == m.idle.len(),
{
    lemma_all_expired(m.idle, cfg, now);
}

proof fn lemma_all_expired<R>(s: Seq<Idle<R>>, cfg: PoolConfig, now: Duration)
    requires
        forall|i: int| 0 <= i < s.len() ==> #[trigger] idle_expired(cfg, s[i], now),
    ensures
        fresh_idle(s, cfg, now).len() == 0,
        expired_resources(s, cfg, now).len() == s.len(),
    decreases s.len(),
{
    if s.len() > 0 {
        assert forall|i: int| 0 <= i < s.drop_last().len() implies #[trigger] idle_expired(
            cfg,
            s.drop_last()[i],
            now,
        ) by {
            assert(s.drop_last()[i] == s[i]);
        }
        lemma_all_expired(s.drop_last(), cfg, now);
        assert(idle_expired(cfg, s[s.len() - 1], now));
    }
}

/// A zero idle timeout, or a zero maximum lifetime, makes every resource
/// expired at any time.
pub proof fn lemma_zero_limit_expires_everything(
    cfg: PoolConfig,
    created_at: Duration,
    last_used: Duration,
    now: Duration,
)
    requires
        (cfg.idle_timeout matches Some(limit) && limit@ == 0) || (cfg.max_lifetime matches Some(
            limit,
        ) && limit@ == 0),
    ensures
        expired_at(cfg, created_at, last_used, now),
{
}

/// Expiry is permanent: a resource expired at some time stays expired at
/// every later time.
pub proof fn lemma_expiry_is_permanent(
    cfg: PoolConfig,
    created_at: Duration,
    last_used: Duration,
    earlier: Duration,
    later: Duration,
)
    requires
        expired_at(cfg, created_at, last_used, earlier),
        earlier@ <= later@,
    ensures
        expired_at(cfg, created_at, last_used, later),
{
    assert(age(later, created_at) >= age(earlier, created_at));
    assert(age(later, last_used) >= age(earlier, last_used));
}

/// Pruning keeps exactly the resources that have not expired, in order, and
/// gives up one owned slot per discarded resource; pruning again at the same
/// time discards nothing more.
pub proof fn lemma_reap_keeps_fresh_and_is_idempotent<R>(
    m: PoolModel<R>,
    cfg: PoolConfig,
    now: Duration,
)
    requires
        m.inv(),
    ensures
        m.after_reap(cfg, now).idle.len() + m.reaped(cfg, now).len() == m.idle.len(),
        m.after_reap(cfg, now).total + m.reaped(cfg, now).len() == m.total,
        forall|i: int|
            0 <= i < m.after_reap(cfg, now).idle.len() ==> !#[trigger] idle_expired(
                cfg,
                m.after_reap(cfg, now).idle[i],
                now,
            ),
        m.after_reap(cfg, now).after_reap(cfg, now) == m.after_reap(cfg, now),
        m.after_reap(cfg, now).reaped(cfg, now).len() == 0,
{
    lemma_reap_partitions(m.idle, cfg, now);
    lemma_fresh_entries_are_fresh(m.idle, cfg, now);
    let kept = fresh_idle(m.idle, cfg, now);
    lemma_fresh_is_stable(kept, cfg, now);
    assert(m.after_reap(cfg, now).after_reap(cfg, now).idle =~= m.after_reap(cfg, now).idle);
}

proof fn lemma_fresh_entries_are_fresh<R>(s: Seq<Idle<R>>, cfg: PoolConfig, now: Duration)
    ensures
        forall|i: int|
            0 <= i < fresh_idle(s, cfg, now).len() ==> !#[trigger] idle_expired(
                cfg,
                fresh_idle(s, cfg, now)[i],
                now,
            ),
    decreases s.len(),
{
    if s.len() > 0 {
        lemma_fresh_entries_are_fresh(s.drop_last(), cfg, now);
        let kept = fresh_idle(s.drop_last(), cfg, now);
        assert forall|i: int| 0 <= i < fresh_idle(s, cfg, now).len() implies !#[trigger] idle_expired(
            cfg,
            fresh_idle(s, cfg, now)[i],
            now,
        ) by {
            if i < kept.len() {
                assert(fresh_idle(s, cfg, now)[i] == kept[i]);
            }
        }
    }
}

proof fn lemma_fresh_is_stable<R>(s: Seq<Idle<R>>, cfg: PoolConfig, now: Duration)
    requires
        forall|i: int| 0 <= i < s.len() ==> !#[trigger] idle_expired(cfg, s[i], now),
    ensures
        fresh_idle(s, cfg, now) == s,
        expired_resources(s, cfg, now).len() == 0,
    decreases s.len(),
{
    if s.len() > 0 {
        assert forall|i: int| 0 <= i < s.drop_last().len() implies !#[trigger] idle_expired(
            cfg,
            s.drop_last()[i],
            now,
        ) by {
            assert(s.drop_last()[i] == s[i]);
        }
        lemma_fresh_is_stable(s.drop_last(), cfg, now);
        assert(!idle_expired(cfg, s[s.len() - 1], now));
        assert(s.drop_last().push(s.last()) =~= s);
    }
}

/// Round by round, a checkout that nothing else interrupts keeps the
/// bookkeeping admissible, the number of resources in use unchanged, and the
/// pool no larger than it began; and once the pool has room or an idle
/// resource, it keeps having one.
proof fn lemma_uninterrupted_rounds<R>(
    run: Run<R>,
    cfg: PoolConfig,
    deadline: Option<Duration>,
    m: PoolModel<R>,
    i: int,
)
    requires
        forall|j: int| 0 <= j < run.rounds.len() ==> #[trigger] run.rounds[j].valid(cfg, deadline),
        forall|j: int|
            #![trigger run.rounds[j].found()]
            0 <= j < run.rounds.len() ==> run.rounds[j].found() == run.before(m, j)
                && run.rounds[j].undisturbed(),
        admissible(cfg, m),
        0 <= i <= run.rounds.len(),
    ensures
        admissible(cfg, run.before(m, i)),
        run.before(m, i).in_use() == m.in_use(),
        run.before(m, i).total <= m.total,
        !(m.checkout_result() is Saturated) ==> !(run.before(m, i).checkout_result() is Saturated),
    decreases i,
{
    if i > 0 {
        lemma_uninterrupted_rounds(run, cfg, deadline, m, i - 1);
        let round = run.rounds[i - 1];
        let found = run.before(m, i - 1);
        assert(round.valid(cfg, deadline));
        assert(round.found() == found);
        assert(round.undisturbed());
        assert(run.before(m, i) == round.left());
    }
}

/// A checkout that nothing else interrupts, and that does not give up,
/// lends exactly one more resource when it succeeds and changes no
/// occupancy when it fails: on success the number of resources in use grows
/// by one and the pool stays within `max_size`; on failure the number in use
/// is unchanged and the pool owns no more than it began with. A rejected idle
/// resource along the way is discarded together with its slot.
pub proof fn lemma_uninterrupted_checkout_occupancy<R, E>(
    run: Run<R>,
    cfg: PoolConfig,
    deadline: Option<Duration>,
    outcome: Result<Duration, Error<E>>,
    m: PoolModel<R>,
)
    requires
        run.explains(cfg, deadline, outcome),
        run.uninterrupted_from(m),
        admissible(cfg, m),
        !(run.ending is GaveUp),
    ensures
        admissible(cfg, run.ending.left()),
        outcome is Ok ==> run.ending.left().in_use() == m.in_use() + 1,
        outcome is Err ==> run.ending.left().in_use() == m.in_use() && run.ending.left().total
            <= m.total,
{
    lemma_uninterrupted_rounds(run, cfg, deadline, m, run.rounds.len() as int);
}

/// A checkout that nothing else interrupts waits, or times out, only when the
/// pool was saturated as it began: open, nothing idle, and `max_size`
/// resources owned. With an idle resource or room to grow it never waits,
/// because a rejected idle resource gives its slot back.
pub proof fn lemma_uninterrupted_checkout_waits_only_when_saturated<R, E>(
    run: Run<R>,
    cfg: PoolConfig,
    deadline: Option<Duration>,
    outcome: Result<Duration, Error<E>>,
    m: PoolModel<R>,
)
    requires
        run.explains(cfg, deadline, outcome),
        run.uninterrupted_from(m),
        admissible(cfg, m),
    ensures
        run.ending is TimedOut ==> m.checkout_result() is Saturated,
        forall|i: int|
            0 <= i < run.rounds.len() && (#[trigger] run.rounds[i] is Waited) ==> m.checkout_result() is Saturated,
{
    assert forall|i: int|
        0 <= i < run.rounds.len() && (#[trigger] run.rounds[i] is Waited) implies m.checkout_result() is Saturated by {
        lemma_uninterrupted_rounds(run, cfg, deadline, m, i);
        assert(run.rounds[i].valid(cfg, deadline));
        assert(run.rounds[i].found() == run.before(m, i));
    }
    lemma_uninterrupted_rounds(run, cfg, deadline, m, run.rounds.len() as int);
}

/// In a checkout that nothing else interrupts, an idle resource rejected in
/// one round (expired, or refused by the manager) has its slot given back, so
/// the next lock finds an open pool with room: it reuses another idle resource
/// or reserves a slot for a replacement, and does not wait.
pub proof fn lemma_rejected_resource_makes_room<R, E>(
    run: Run<R>,
    cfg: PoolConfig,
    deadline: Option<Duration>,
    outcome: Result<Duration, Error<E>>,
    m: PoolModel<R>,
    i: int,
)
    requires
        run.explains(cfg, deadline, outcome),
        run.uninterrupted_from(m),
        admissible(cfg, m),
        0 <= i < run.rounds.len(),
        run.rounds[i] is Rejected,
    ensures
        !run.before(m, i + 1).closed,
        run.before(m, i + 1).total < cfg.max_size,
        run.before(m, i + 1).checkout_result() is Reuse || run.before(m, i + 1).checkout_result() is Create,
{
    lemma_uninterrupted_rounds(run, cfg, deadline, m, i);
    assert(run.rounds[i].valid(cfg, deadline));
    assert(run.rounds[i].found() == run.before(m, i));
    assert(run.rounds[i].undisturbed());
    assert(run.before(m, i + 1) == run.rounds[i].left());
}

/// Round by round, a checkout that nothing else interrupts and that began
/// with idle resources walks the idle set from the oldest entry: before round
/// `i` the first `i` entries are gone, each with its slot.
proof fn lemma_uninterrupted_walk<R>(
    run: Run<R>,
    cfg: PoolConfig,
    deadline: Option<Duration>,
    m: PoolModel<R>,
    i: int,
)
    requires
        forall|j: int| 0 <= j < run.rounds.len() ==> #[trigger] run.rounds[j].valid(cfg, deadline),
        forall|j: int|
            #![trigger run.rounds[j].found()]
            0 <= j < run.rounds.len() ==> run.rounds[j].found() == run.before(m, j)
                && run.rounds[j].undisturbed(),
        admissible(cfg, m),
        !m.closed,
        m.idle.len() > 0,
        0 <= i <= run.rounds.len(),
    ensures
        i <= m.idle.len(),
        run.before(m, i).idle == m.idle.skip(i),
        run.before(m, i).total == m.total - i,
        !run.before(m, i).closed,
        run.before(m, i).max_size == m.max_size,
    decreases i,
{
    if i > 0 {
        lemma_uninterrupted_walk(run, cfg, deadline, m, i - 1);
        let round = run.rounds[i - 1];
        let found = run.before(m, i - 1);
        assert(round.valid(cfg, deadline));
        assert(round.found() == found);
        assert(round.undisturbed());
        // The pool had an idle resource or room, so the round did not wait:
        // it took out the oldest idle resource and gave its slot back.
        assert(!(found.checkout_result() is Saturated));
        assert(round is Rejected);
        lemma_rejection_step(found, round->then);
        assert(m.idle.skip(i - 1).drop_first() =~= m.idle.skip(i));
    }
}

/// Taking out the oldest idle resource and giving its slot back leaves the
/// rest of the idle set, and one resource fewer owned.
proof fn lemma_rejection_step<R>(found: PoolModel<R>, then: PoolModel<R>)
    requires
        found.inv(),
        found.checkout_result() is Reuse,
        then == found.after_checkout(),
    ensures
        then.after_release() == (PoolModel { idle: found.idle.drop_first(), total: (found.total - 1) as nat, ..found }),
{
}

/// A checkout that nothing else interrupts, begun on an open pool with idle
/// resources, takes them oldest first: each one it rejects (expired, or
/// refused by the manager) is discarded with its slot, and the first one it
/// accepts is lent out, unexpired, with its creation time. Only when every
/// idle resource was rejected does it create a new one, in the slot the
/// rejections freed; it never waits.
pub proof fn lemma_uninterrupted_checkout_takes_idle_in_order<R, E>(
    run: Run<R>,
    cfg: PoolConfig,
    deadline: Option<Duration>,
    outcome: Result<Duration, Error<E>>,
    m: PoolModel<R>,
)
    requires
        run.explains(cfg, deadline, outcome),
        run.uninterrupted_from(m),
        admissible(cfg, m),
        !m.closed,
        m.idle.len() > 0,
    ensures
        run.rounds.len() <= m.idle.len(),
        forall|i: int| 0 <= i < run.rounds.len() ==> (#[trigger] run.rounds[i]).found().checkout_result()
            == Checkout::Reuse(m.idle[i]) && run.rounds[i] is Rejected,
        run.rounds.len() < m.idle.len() && !(run.ending is GaveUp) ==> {
            let item = m.idle[run.rounds.len() as int];
            &&& run.ending matches Ending::Reused { now, .. }
            &&& !idle_expired(cfg, item, now)
            &&& outcome == Ok::<Duration, Error<E>>(item.created_at)
        },
        run.rounds.len() == m.idle.len() && !(run.ending is GaveUp) ==> (run.ending is Created
            || run.ending is CreateFailed),
{
    let n = run.rounds.len() as int;
    assert forall|i: int| 0 <= i < n implies (#[trigger] run.rounds[i]).found().checkout_result()
        == Checkout::Reuse(m.idle[i]) && run.rounds[i] is Rejected by {
        lemma_uninterrupted_walk(run, cfg, deadline, m, i);
        lemma_uninterrupted_walk(run, cfg, deadline, m, i + 1);
        assert(run.rounds[i].found() == run.before(m, i));
        assert(run.rounds[i].valid(cfg, deadline));
        assert(m.idle.skip(i)[0] == m.idle[i]);
    }
    lemma_uninterrupted_walk(run, cfg, deadline, m, n);
    let last = run.before(m, n);
    if n < m.idle.len() {
        assert(last.idle[0] == m.idle[n]);
    } else {
        assert(last.idle.len() == 0);
    }
}

/// A checkout that nothing else interrupts, begun on an open pool with an
/// idle resource or room to grow, never times out and never waits: it lends
/// an accepted idle resource, or creates one after rejecting every idle one.
/// Its only `Timeout` is giving up because the lock could not be taken, or
/// after `u64::MAX` rounds, which takes at least `u64::MAX` idle resources to
/// reject.
pub proof fn lemma_uninterrupted_checkout_with_room_never_times_out<R, E>(
    run: Run<R>,
    cfg: PoolConfig,
    deadline: Option<Duration>,
    outcome: Result<Duration, Error<E>>,
    m: PoolModel<R>,
)
    requires
        run.explains(cfg, deadline, outcome),
        run.uninterrupted_from(m),
        admissible(cfg, m),
        !m.closed,
        m.idle.len() > 0 || m.total < m.max_size,
    ensures
        !(run.ending is TimedOut),
        !(run.ending is Closed),
        outcome == Err::<Duration, Error<E>>(Error::Timeout) ==> (run.ending matches Ending::GaveUp {
            lock_refused,
        } && (lock_refused || m.idle.len() >= u64::MAX)),
{
    lemma_uninterrupted_checkout_waits_only_when_saturated(run, cfg, deadline, outcome, m);
    if m.idle.len() > 0 {
        lemma_uninterrupted_checkout_takes_idle_in_order(run, cfg, deadline, outcome, m);
    } else {
        if run.rounds.len() > 0 {
            assert(run.rounds[0].valid(cfg, deadline));
            assert(run.rounds[0].found() == run.before(m, 0));
        }
        assert(run.rounds.len() == 0);
        assert(run.before(m, 0) == m);
    }
}

/// Every time a checkout records is a clock reading no earlier than the
/// checkout's start: a resource it creates is stamped with a creation time no
/// earlier than the start, and an idle resource it lends was found unexpired
/// at a time no earlier than the start.
pub proof fn lemma_checkout_times_follow_its_start<R, E>(
    run: Run<R>,
    cfg: PoolConfig,
    deadline: Option<Duration>,
    outcome: Result<Duration, Error<E>>,
)
    requires
        run.explains(cfg, deadline, outcome),
    ensures
        run.ending is Created ==> (outcome matches Ok(created_at) && created_at@ >= run.start@),
        run.ending matches Ending::Reused { found, now, .. } ==> {
            &&& now@ >= run.start@
            &&& found.checkout_result() matches Checkout::Reuse(item)
            &&& !idle_expired(cfg, item, now)
        },
        forall|i: int| 0 <= i < run.rounds.len() ==> (#[trigger] run.rounds[i]).now()@ >= run.start@,
{
}

/// A checkout that nothing else interrupts, begun on an open pool with idle
/// resources, puts them to the manager's `validate` oldest first, whatever
/// the expiry policy: each one it rejected before it had expired was refused
/// by `validate`, and the one it lends is the next idle resource, accepted by
/// `validate`, with its creation time.
pub proof fn lemma_uninterrupted_checkout_lends_first_validated<M: Manager, E>(
    manager: M,
    run: Run<M::Resource>,
    cfg: PoolConfig,
    deadline: Option<Duration>,
    outcome: Result<Duration, Error<E>>,
    m: PoolModel<M::Resource>,
)
    requires
        run.explains(cfg, deadline, outcome),
        validated_run(manager, cfg, run),
        run.uninterrupted_from(m),
        admissible(cfg, m),
        !m.closed,
        m.idle.len() > 0,
    ensures
        forall|i: int|
            0 <= i < run.rounds.len() && !idle_expired(cfg, m.idle[i], (#[trigger] run.rounds[i]).now())
                ==> validated(manager, m.idle[i].resource, false),
        run.ending is Reused ==> {
            let item = m.idle[run.rounds.len() as int];
            &&& validated(manager, item.resource, true)
            &&& outcome == Ok::<Duration, Error<E>>(item.created_at)
        },
{
    lemma_uninterrupted_checkout_takes_idle_in_order(run, cfg, deadline, outcome, m);
    assert forall|i: int|
        0 <= i < run.rounds.len() && !idle_expired(cfg, m.idle[i], (#[trigger] run.rounds[i]).now())
            implies validated(manager, m.idle[i].resource, false) by {
        assert(run.rounds[i].found().checkout_result() == Checkout::Reuse(m.idle[i]));
    }
    if run.ending is Reused {
        let n = run.rounds.len() as int;
        lemma_uninterrupted_walk(run, cfg, deadline, m, n);
        if n == m.idle.len() {
            assert(run.ending is Created || run.ending is CreateFailed);
        }
        assert(m.idle.skip(n)[0] == m.idle[n]);
        assert(run.before(m, n).checkout_result() == Checkout::Reuse(m.idle[n]));
    }
}

/// A returned resource is stamped no earlier than when it was lent, so its
/// idle age at any later time is no more than the time since it was lent: a
/// resource returned after being held longer than `idle_timeout` is not
/// idle-expired until `idle_timeout` has passed since it was lent.
pub proof fn lemma_returned_entry_is_idle_since_lent<R>(entry: Idle<R>, lent_at: Duration, now: Duration)
    requires
        entry.last_used@ >= lent_at@,
    ensures
        age(now, entry.last_used) <= age(now, lent_at),
{
}

/// Pruning applies each configured limit on its own: after a prune at
/// `now`, no idle resource is as old as `max_lifetime` (when set), and none
/// has been idle as long as `idle_timeout` (when set).
pub proof fn lemma_reap_applies_each_limit<R>(m: PoolModel<R>, cfg: PoolConfig, now: Duration)
    requires
        m.inv(),
    ensures
        forall|i: int|
            0 <= i < m.after_reap(cfg, now).idle.len() ==> {
                let item = #[trigger] m.after_reap(cfg, now).idle[i];
                &&& (cfg.max_lifetime matches Some(limit) ==> age(now, item.created_at) < limit@)
                &&& (cfg.idle_timeout matches Some(limit) ==> age(now, item.last_used) < limit@)
            },
{
    lemma_reap_keeps_fresh_and_is_idempotent(m, cfg, now);
    assert forall|i: int| 0 <= i < m.after_reap(cfg, now).idle.len() implies {
        let item = #[trigger] m.after_reap(cfg, now).idle[i];
        &&& (cfg.max_lifetime matches Some(limit) ==> age(now, item.created_at) < limit@)
        &&& (cfg.idle_timeout matches Some(limit) ==> age(now, item.last_used) < limit@)
    } by {
        assert(!idle_expired(cfg, m.after_reap(cfg, now).idle[i], now));
    }
}

/// A checkout without a deadline never times out: the pool being saturated
/// only makes it wait, so its one `Timeout` is giving up.
pub proof fn lemma_no_deadline_never_times_out<R, E>(
    run: Run<R>,
    cfg: PoolConfig,
    outcome: Result<Duration, Error<E>>,
)
    requires
        run.explains(cfg, None, outcome),
        outcome == Err::<Duration, Error<E>>(Error::Timeout),
    ensures
        run.ending is GaveUp,
{
}

} // verus!
