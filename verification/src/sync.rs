//! A monitor: a value behind the standard library's mutex, together with the
//! one condition variable that is ever used with that mutex.
//!
//! What the mutex holds is opaque here: a value read through a held lock is
//! only known to satisfy its type's invariant. The items marked
//! `external_body` are trusted; each doc comment says which standard function
//! it calls and what is claimed.

use vstd::prelude::*;
use std::sync::{Condvar, Mutex, MutexGuard, PoisonError, TryLockError};

verus! {

/// Declares `std::sync::Mutex`.
#[verifier::external_type_specification]
#[verifier::external_body]
#[verifier::reject_recursive_types(T)]
pub struct ExMutex<T: ?Sized>(Mutex<T>);

/// Declares `std::sync::MutexGuard`.
#[verifier::external_type_specification]
#[verifier::external_body]
#[verifier::reject_recursive_types(T)]
pub struct ExMutexGuard<'a, T: ?Sized + 'a>(MutexGuard<'a, T>);

/// Declares `std::sync::Condvar`.
#[verifier::external_type_specification]
#[verifier::external_body]
pub struct ExCondvar(Condvar);

/// A value behind a mutex, and the condition variable that waiters on that
/// value sleep on. The condition variable is only ever used with this mutex.
///
/// The monitor carries a predicate, fixed when it is made, that every value
/// the mutex ever holds satisfies: [`Monitor::new`] and [`exchange`], the only
/// ways a value gets into the mutex, require it. It also records the value it
/// was made with.
#[verifier::reject_recursive_types(T)]
pub(crate) struct Monitor<T> {
    mutex: Mutex<T>,
    available: Condvar,
    allowed: Ghost<spec_fn(T) -> bool>,
    initial: Ghost<T>,
}

/// A held lock on a [`Monitor`]: the mutex guard together with the monitor
/// it was taken from. Only [`try_lock`], [`wait`] and [`wait_timeout`] make
/// one, so the guard always belongs to `monitor`'s mutex.
#[verifier::reject_recursive_types(T)]
pub(crate) struct Held<'a, T> {
    guard: MutexGuard<'a, T>,
    monitor: &'a Monitor<T>,
}

/// Calls `Mutex::new`. Nothing is claimed of the result: what it holds is
/// not visible to the verifier.
#[verifier::external_body]
fn new_mutex<T>(value: T) -> Mutex<T> {
    Mutex::new(value)
}

/// Calls `Condvar::new`.
#[verifier::external_body]
fn new_condvar() -> Condvar {
    Condvar::new()
}

/// Calls `Mutex::try_lock` on `monitor`'s mutex, which never blocks and
/// never panics: the lock when it was free (recovering it from a previous
/// holder's panic with `PoisonError::into_inner`), `None` when it is held,
/// by this thread or another. Nothing is claimed of which; a lock handed out
/// is one on `monitor`.
#[verifier::external_body]
fn try_lock<'a, T>(monitor: &'a Monitor<T>) -> (r: Option<Held<'a, T>>)
    ensures
        r matches Some(held) ==> held.monitor() == *monitor,
{
    match monitor.mutex.try_lock() {
        Ok(guard) => Some(Held { guard, monitor }),
        Err(TryLockError::Poisoned(poisoned)) => Some(Held { guard: poisoned.into_inner(), monitor }),
        Err(TryLockError::WouldBlock) => None,
    }
}

/// Calls `std::hint::spin_loop`, a hint to the processor while retrying.
#[verifier::external_body]
fn pause() {
    std::hint::spin_loop()
}

/// Swaps `value` with the value the held lock guards (`std::mem::swap` through
/// `DerefMut::deref_mut` of `MutexGuard`). The value put in must satisfy the
/// monitor's predicate; the value taken out satisfies it, because every value
/// the mutex has held came in through [`Monitor::new`] or this function, both
/// of which require the predicate, and a mutex hands back what was put in.
#[verifier::external_body]
pub(crate) fn exchange<'b, T>(held: &mut Held<'b, T>, value: &mut T)
    requires
        old(held).monitor().allows(*old(value)),
    ensures
        final(held).monitor() == old(held).monitor(),
        old(held).monitor().allows(*final(value)),
{
    std::mem::swap(&mut *held.guard, value)
}

/// Calls `Condvar::wait` with the held guard on the condition variable of the
/// same monitor (so the variable is never paired with another mutex):
/// releases the lock, blocks until notified or woken spuriously, and
/// re-acquires it. Poisoning is recovered with `PoisonError::into_inner`.
#[verifier::external_body]
pub(crate) fn wait<'a, T>(held: Held<'a, T>) -> (r: Held<'a, T>)
    ensures
        r.monitor() == held.monitor(),
{
    let Held { guard, monitor } = held;
    Held { guard: monitor.available.wait(guard).unwrap_or_else(PoisonError::into_inner), monitor }
}

/// Calls `Condvar::wait_timeout` as [`wait`] does, with a timeout of `secs`
/// seconds and `nanos` nanoseconds (`std::time::Duration::new`, which cannot
/// panic for `nanos` below one billion). Whether it timed out is not
/// reported; the caller reads the clock.
#[verifier::external_body]
pub(crate) fn wait_timeout<'a, T>(held: Held<'a, T>, secs: u64, nanos: u32) -> (r: Held<'a, T>)
    requires
        nanos < 1_000_000_000,
    ensures
        r.monitor() == held.monitor(),
{
    let Held { guard, monitor } = held;
    let (guard, _) = monitor.available.wait_timeout(guard, std::time::Duration::new(secs, nanos))
        .unwrap_or_else(PoisonError::into_inner);
    Held { guard, monitor }
}

/// Calls `Condvar::notify_one` on the monitor's condition variable.
#[verifier::external_body]
fn notify_one_on(cv: &Condvar) {
    cv.notify_one()
}

/// Calls `Condvar::notify_all` on the monitor's condition variable.
#[verifier::external_body]
fn notify_all_on(cv: &Condvar) {
    cv.notify_all()
}

impl<'a, T> Held<'a, T> {
    /// The monitor this lock was taken on.
    pub(crate) closed spec fn monitor(&self) -> Monitor<T> {
        *self.monitor
    }
}

impl<T> Monitor<T> {
    /// Whether the mutex may hold `value`.
    pub(crate) closed spec fn allows(&self, value: T) -> bool {
        (self.allowed@)(value)
    }

    /// The value the monitor was made with.
    pub(crate) closed spec fn initial(&self) -> T {
        self.initial@
    }

    /// A monitor holding `value`, whose mutex may only ever hold values that
    /// satisfy `allowed`.
    pub(crate) fn new(value: T, Ghost(allowed): Ghost<spec_fn(T) -> bool>) -> (m: Self)
        requires
            allowed(value),
        ensures
            forall|v: T| #[trigger] m.allows(v) == allowed(v),
            m.initial() == value,
    {
        let ghost first = value;
        Monitor {
            mutex: new_mutex(value),
            available: new_condvar(),
            allowed: Ghost(allowed),
            initial: Ghost(first),
        }
    }

    /// Take the lock, retrying while another holder has it. Gives up with
    /// `None` after `u64::MAX` failed attempts.
    pub(crate) fn lock(&self) -> (r: Option<Held<'_, T>>)
        ensures
            r matches Some(held) ==> held.monitor() == *self,
    {
        let mut attempts: u64 = u64::MAX;
        loop
            decreases attempts,
        {
            match try_lock(self) {
                Some(held) => {
                    return Some(held);
                },
                None => {
                    if attempts == 0 {
                        return None;
                    }
                    attempts = attempts - 1;
                    pause();
                },
            }
        }
    }

    /// Wake one thread waiting on this monitor.
    pub(crate) fn notify_one(&self) {
        notify_one_on(&self.available)
    }

    /// Wake every thread waiting on this monitor.
    pub(crate) fn notify_all(&self) {
        notify_all_on(&self.available)
    }
}

} // verus!
