//! The wake signal of the run loop: a flag under a lock, a condition variable,
//! and a waker that any thread may use to say that something happened.
//!
//! The flag is shared with threads this crate knows nothing of, so no
//! contract here speaks of its value: `sleep` may return at once or after the
//! slice, and `clear` may be overtaken by a wake the moment it returns.

use vstd::prelude::*;
use std::sync::Arc;
use std::sync::Condvar;
use std::sync::Mutex;
use std::sync::MutexGuard;
use std::sync::PoisonError;
use std::time::Duration;

verus! {

/// Longest time, in milliseconds, that one `sleep` blocks. A wake that is
/// missed can stall the run loop by no more than this.
pub const SLEEP_SLICE_MILLIS: u64 = 5;

/// `std::sync::Mutex`, opaque: what it guards is shared with other threads.
#[verifier::external_type_specification]
#[verifier::external_body]
#[verifier::reject_recursive_types(T)]
pub struct ExMutex<T: ?Sized>(Mutex<T>);

/// `std::sync::Condvar`, opaque.
#[verifier::external_type_specification]
#[verifier::external_body]
pub struct ExCondvar(Condvar);

/// `std::sync::MutexGuard`, opaque: the lock, held.
#[verifier::external_type_specification]
#[verifier::external_body]
#[verifier::reject_recursive_types(T)]
pub struct ExMutexGuard<'a, T: ?Sized + 'a>(MutexGuard<'a, T>);

/// `std::sync::PoisonError`, opaque: what a lock hands out after a thread
/// panicked while holding it.
#[verifier::external_type_specification]
#[verifier::external_body]
#[verifier::reject_recursive_types(T)]
pub struct ExPoisonError<T>(PoisonError<T>);

/// `Mutex::new`: a fresh lock around `value`. Nothing is claimed of it.
#[verifier::external_body]
fn new_flag(value: bool) -> (flag: Mutex<bool>) {
    Mutex::new(value)
}

/// `Condvar::new`: a fresh condition variable. Nothing is claimed of it.
#[verifier::external_body]
fn new_condvar() -> (condvar: Condvar) {
    Condvar::new()
}

/// `Arc::clone`: a second handle to the same allocation. What the new
/// handle points to is what the first points to: the very same lock or
/// condition variable, not a copy of it.
#[verifier::external_body]
fn share<T>(handle: &Arc<T>) -> (other: Arc<T>)
    ensures
        other == *handle,
{
    Arc::clone(handle)
}

/// `Mutex::lock`: blocks until the lock is held. The error says that a
/// thread panicked while it held the lock; it carries the guard all the
/// same.
#[verifier::external_body]
fn lock<'a>(flag: &'a Mutex<bool>) -> (held: Result<
    MutexGuard<'a, bool>,
    PoisonError<MutexGuard<'a, bool>>,
>) {
    flag.lock()
}

/// `PoisonError::into_inner`: the guard that a poisoned lock handed out.
#[verifier::external_body]
fn recover<'a>(poisoned: PoisonError<MutexGuard<'a, bool>>) -> (guard: MutexGuard<'a, bool>) {
    poisoned.into_inner()
}

/// Reads the flag through a held guard (`Deref` of `MutexGuard`). Other
/// threads write the flag whenever the lock is free, so the value read is
/// tied to nothing.
#[verifier::external_body]
fn read_flag(guard: &MutexGuard<'_, bool>) -> (value: bool) {
    **guard
}

/// Writes the flag through a held guard (`DerefMut` of `MutexGuard`).
#[verifier::external_body]
fn write_flag(guard: &mut MutexGuard<'_, bool>, value: bool) {
    **guard = value;
}

/// `Condvar::wait_timeout`: gives the lock up and blocks until notified or
/// until `millis` milliseconds have passed, whichever is first; it may also
/// return early for no reason. The guard it hands back is dropped.
#[verifier::external_body]
fn wait_slice(condvar: &Condvar, guard: MutexGuard<'_, bool>, millis: u64) {
    let _ = condvar.wait_timeout(guard, Duration::from_millis(millis));
}

/// `Condvar::notify_all`: wakes every thread blocked on the condition
/// variable.
#[verifier::external_body]
fn notify_all(condvar: &Condvar) {
    condvar.notify_all();
}

/// Takes the lock on the flag, poisoned or not. The guard is whatever the
/// lock handed out; other threads decide when that is and what the flag
/// holds by then.
fn lock_flag<'a>(flag: &'a Mutex<bool>) -> (guard: MutexGuard<'a, bool>) {
    unpoisoned(lock(flag))
}

/// The guard out of what `Mutex::lock` answered: the guard itself where the
/// lock was sound, and the guard that the error carries where a panicking
/// thread left the lock poisoned. The flag is a single boolean and cannot
/// be left half-written, so a poisoned lock is as good as a sound one.
fn unpoisoned<'a>(
    held: Result<MutexGuard<'a, bool>, PoisonError<MutexGuard<'a, bool>>>,
) -> (guard: MutexGuard<'a, bool>)
    ensures
        held matches Ok(sound) ==> guard == sound,
{
    match held {
        Ok(guard) => guard,
        Err(poisoned) => recover(poisoned),
    }
}

/// The wake signal that the run loop blocks on between two pumps of the
/// renderer.
pub struct ScraperEventLoop {
    flag: Arc<Mutex<bool>>,
    condvar: Arc<Condvar>,
}

/// A handle that sets the wake signal. It is handed to the renderer, which
/// calls `wake` from threads of its own.
pub struct ScraperWaker {
    flag: Arc<Mutex<bool>>,
    condvar: Arc<Condvar>,
}

/// What a signal is made of: its lock and its condition variable. Two
/// handles are on one signal exactly when they hold the same two.
pub struct SignalParts {
    flag: Arc<Mutex<bool>>,
    condvar: Arc<Condvar>,
}

impl ScraperEventLoop {
    /// The signal that this loop sleeps on.
    pub closed spec fn signal(&self) -> SignalParts {
        SignalParts { flag: self.flag, condvar: self.condvar }
    }

    /// A signal that is not set and that no waker shares yet.
    pub fn new() -> (event_loop: Self) {
        ScraperEventLoop { flag: Arc::new(new_flag(false)), condvar: Arc::new(new_condvar()) }
    }

    /// A waker on this signal: its `wake` sets the flag that `sleep` tests
    /// and notifies the condition variable that `sleep` waits on.
    pub fn create_waker(&self) -> (waker: ScraperWaker)
        ensures
            waker.signal() == self.signal(),
    {
        ScraperWaker { flag: share(&self.flag), condvar: share(&self.condvar) }
    }

    /// Returns at once if the signal is set; otherwise blocks until a waker
    /// sets it, for at most `SLEEP_SLICE_MILLIS`. The flag is tested and the
    /// wait begun under one hold of the lock, so a wake between the two is
    /// not lost.
    pub fn sleep(&self) {
        let guard = lock_flag(&self.flag);
        if read_flag(&guard) {
            return ;
        }
        wait_slice(&self.condvar, guard, SLEEP_SLICE_MILLIS);
    }

    /// Clears the signal.
    pub fn clear(&self) {
        let mut guard = lock_flag(&self.flag);
        write_flag(&mut guard, false);
    }
}

impl ScraperWaker {
    /// The signal that this waker sets.
    pub closed spec fn signal(&self) -> SignalParts {
        SignalParts { flag: self.flag, condvar: self.condvar }
    }

    /// Sets the signal and wakes whoever sleeps on it.
    pub fn wake(&self) {
        let mut guard = lock_flag(&self.flag);
        write_flag(&mut guard, true);
        notify_all(&self.condvar);
    }

    /// A second waker on the same signal.
    pub fn duplicate(&self) -> (waker: ScraperWaker)
        ensures
            waker.signal() == self.signal(),
    {
        ScraperWaker { flag: share(&self.flag), condvar: share(&self.condvar) }
    }
}

} // verus!
