use vstd::prelude::*;

use core::sync::atomic::Ordering;
use linux_futex::{Futex, Private};

use crate::model::{grants, word_after, WordOp};
use crate::protocol::{
    action_for, after_acquire, after_register, completed_word, dispatch, needs_wake, outcome, Action,
};
use crate::state::{OnceState, INCOMPLETE, RUNNING_HAS_WAITERS, RUNNING_NO_WAITERS};

verus! {

#[verifier::external_type_specification]
#[verifier::external_body]
#[verifier::reject_recursive_types(S)]
pub struct ExFutex<S>(Futex<S>);

#[verifier::external_type_specification]
#[verifier::external_body]
pub struct ExPrivate(Private);

/// The word that a futex was created with.
pub uninterp spec fn made_with(f: Futex<Private>) -> i32;

/// Relies on linux_futex::Futex::new: it stores `value` as the futex's word.
#[verifier::external_body]
fn new_futex(value: i32) -> (r: Futex<Private>)
    ensures
        made_with(r) == value,
{
    Futex::new(value)
}

/// Relies on AtomicI32::load of the futex word, with acquire ordering. The
/// word may change at any moment, so nothing is known of the value read.
#[verifier::external_body]
fn load_word(f: &Futex<Private>) -> (r: i32) {
    f.value.load(Ordering::Acquire)
}

/// Relies on AtomicI32::compare_exchange_weak on the futex word, with acquire
/// ordering on success and failure: a success returns the word it replaced,
/// which is `current`. A failure may be spurious, so it may report `current`.
#[verifier::external_body]
fn compare_exchange_weak_word(f: &Futex<Private>, current: i32, new: i32) -> (r: Result<
    i32,
    i32,
>)
    ensures
        r matches Ok(w) ==> w == current,
{
    f.value.compare_exchange_weak(current, new, Ordering::Acquire, Ordering::Acquire)
}

/// Relies on AtomicI32::compare_exchange on the futex word, acquire-release
/// on success and acquire on failure: a success returns `current`, a failure
/// returns the word found, which differs from `current`.
#[verifier::external_body]
fn compare_exchange_word(f: &Futex<Private>, current: i32, new: i32) -> (r: Result<i32, i32>)
    ensures
        r matches Ok(w) ==> w == current,
        r matches Err(w) ==> w != current,
{
    f.value.compare_exchange(current, new, Ordering::AcqRel, Ordering::Acquire)
}

/// Relies on AtomicI32::swap on the futex word, acquire-release: stores `new`
/// and returns the word it replaced, which may be any value.
#[verifier::external_body]
fn swap_word(f: &Futex<Private>, new: i32) -> (r: i32) {
    f.value.swap(new, Ordering::AcqRel)
}

/// Relies on linux_futex::Futex::wait: sleeps only while the word equals
/// `expected`, and may return early (wrong value, a signal, a spurious wake).
/// Its outcome is ignored: the caller reads the word again in any case.
#[verifier::external_body]
fn futex_wait(f: &Futex<Private>, expected: i32) {
    let _ = f.wait(expected);
}

/// Relies on linux_futex::Futex::wake: wakes up to `i32::MAX` sleepers, that
/// is all of them, and returns how many it woke.
#[verifier::external_body]
fn futex_wake_all(f: &Futex<Private>) -> (r: i32)
    ensures
        r >= 0,
{
    f.wake(i32::MAX)
}

/// A synchronization primitive that runs a one-time initialization.
///
/// The whole state is one futex word holding an `OnceState`. Every caller
/// follows the same protocol: `start` reads the word, and each further step
/// performs one atomic operation and returns the `Action` to take next.
/// Exactly one caller ever receives `Action::RunInitializer`, together with
/// the `Owner` token; it must run the initializer and then call
/// `Owner::finish` on every exit path, also when the initializer fails. Only
/// the token can publish a terminal state, and finishing consumes it.
///
/// Calling `call_once` again on the same instance from inside the running
/// initializer is unspecified: the protocol makes such a caller wait for
/// itself, which deadlocks.
pub struct Once {
    futex: Futex<Private>,
}

impl Once {
    /// Creates an instance in the `Incomplete` state: the word that the
    /// history of `crate::model::word_after` starts from.
    pub fn new() -> (r: Once)
        ensures
            r.initial_word() == INCOMPLETE,
            r.initial_word() == word_after(Seq::empty()),
    {
        Once { futex: new_futex(INCOMPLETE) }
    }

    /// The word this instance was created with.
    pub closed spec fn initial_word(&self) -> i32 {
        made_with(self.futex)
    }

    /// Whether some initializer has completed successfully. The word is read
    /// once with acquire ordering; a `false` result may be stale, a `true`
    /// result means the word was `Complete` when it was read.
    pub fn is_completed(&self) -> (r: bool) {
        let w = load_word(&self.futex);
        completed_word(w)
    }

    /// The fast path: reads the word once and dispatches on it. No read can
    /// make a caller the owner.
    pub fn start(&self) -> (r: Action)
        ensures
            !(r is RunInitializer),
    {
        let w = load_word(&self.futex);
        dispatch(w)
    }

    /// Performs `Action::TryAcquire`: a weak compare-and-swap of the word from
    /// `Incomplete` to `RunningNoWaiters`. The caller becomes the owner, and
    /// receives the `Owner` token, exactly when the swap succeeds, which it
    /// does only on `Incomplete`; otherwise it gets the word found and
    /// dispatches on it.
    pub fn try_acquire(&self) -> (r: (Action, Result<Owner<'_>, i32>))
        ensures
            r.0 == match r.1 {
                Ok(_) => Action::RunInitializer,
                Err(w) => action_for(w),
            },
            r.1 matches Ok(o) ==> o.replaced() == INCOMPLETE && grants(
                o.replaced(),
                WordOp::Acquire,
            ),
    {
        let running = OnceState::RunningNoWaiters.word();
        let found = compare_exchange_weak_word(&self.futex, INCOMPLETE, running);
        let action = after_acquire(found);
        match found {
            Ok(w) => (action, Ok(Owner { once: self, replaced: w })),
            Err(w) => (action, Err(w)),
        }
    }

    /// Performs `Action::RegisterWaiter`: a compare-and-swap of the word from
    /// `RunningNoWaiters` to `RunningHasWaiters`, so that the owner knows it
    /// must wake sleepers. On failure the caller dispatches on the word found,
    /// which is never `RunningNoWaiters`.
    pub fn register_waiter(&self) -> (r: Action)
        ensures
            !(r is RunInitializer),
            !(r is RegisterWaiter),
    {
        let found = compare_exchange_word(&self.futex, RUNNING_NO_WAITERS, RUNNING_HAS_WAITERS);
        after_register(found)
    }

    /// Performs `Action::Wait`: sleeps while the word is `RunningHasWaiters`,
    /// then reads it again and dispatches on it.
    pub fn wait(&self) -> (r: Action)
        ensures
            !(r is RunInitializer),
    {
        futex_wait(&self.futex, RUNNING_HAS_WAITERS);
        let w = load_word(&self.futex);
        dispatch(w)
    }

}

/// The right to finish a run: handed out only by a successful
/// `Once::try_acquire`, and consumed by `finish`.
///
/// The holder must call `finish` on every exit path, also when the
/// initializer fails or unwinds. An `Owner` dropped without `finish` leaves
/// the instance running for good, and its waiters sleep forever.
#[must_use]
pub struct Owner<'a> {
    once: &'a Once,
    replaced: i32,
}

impl<'a> Owner<'a> {
    /// The word that the owner's successful compare-and-swap replaced.
    pub closed spec fn replaced(&self) -> i32 {
        self.replaced
    }

    /// Ends the owner's run: swaps in `Complete` if the initializer
    /// `succeeded`, `Poisoned` otherwise, and wakes every sleeper if the word
    /// it replaced shows a registered waiter. Returns the replaced word and
    /// whether it woke sleepers.
    pub fn finish(self, succeeded: bool) -> (r: (i32, bool))
        ensures
            r.1 <==> r.0 == RUNNING_HAS_WAITERS,
    {
        let terminal = outcome(succeeded).word();
        let previous = swap_word(&self.once.futex, terminal);
        if needs_wake(previous) {
            futex_wake_all(&self.once.futex);
            (previous, true)
        } else {
            (previous, false)
        }
    }
}

} // verus!
