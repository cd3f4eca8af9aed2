use vstd::prelude::*;

use crate::state::{state_of, OnceState, COMPLETE, POISONED, RUNNING_HAS_WAITERS};

verus! {

/// What a caller of `call_once` does next.
#[derive(Clone, Copy, Debug, PartialEq, Eq, Structural)]
pub enum Action {
    /// Initialization has completed: return normally.
    Return,
    /// The instance is poisoned: fail without running the initializer.
    Fail,
    /// Try to become the owner by moving the word from `Incomplete` to
    /// `RunningNoWaiters`.
    TryAcquire,
    /// This caller is the owner: run the initializer, then finish.
    RunInitializer,
    /// Record that a waiter exists by moving the word from
    /// `RunningNoWaiters` to `RunningHasWaiters`.
    RegisterWaiter,
    /// Sleep while the word is `RunningHasWaiters`, then read it again.
    Wait,
}

/// The dispatch table: what a caller does after observing word `w`.
/// A word that encodes no state is treated as a failure.
pub open spec fn action_for(w: i32) -> Action {
    match state_of(w) {
        Some(OnceState::Incomplete) => Action::TryAcquire,
        Some(OnceState::RunningNoWaiters) => Action::RegisterWaiter,
        Some(OnceState::RunningHasWaiters) => Action::Wait,
        Some(OnceState::Complete) => Action::Return,
        Some(OnceState::Poisoned) => Action::Fail,
        None => Action::Fail,
    }
}

/// The terminal state that the owner publishes once the initializer has
/// returned (`succeeded`) or failed.
pub open spec fn outcome_of(succeeded: bool) -> OnceState {
    if succeeded {
        OnceState::Complete
    } else {
        OnceState::Poisoned
    }
}

/// Chooses the next action from the last observed word.
pub fn dispatch(w: i32) -> (r: Action)
    ensures
        r == action_for(w),
        !(r is RunInitializer),
        r is Return <==> w == COMPLETE,
        r is Fail <==> !(0 <= w <= 4) || w == POISONED,
{
    match OnceState::from_word(w) {
        Some(OnceState::Incomplete) => Action::TryAcquire,
        Some(OnceState::RunningNoWaiters) => Action::RegisterWaiter,
        Some(OnceState::RunningHasWaiters) => Action::Wait,
        Some(OnceState::Complete) => Action::Return,
        Some(OnceState::Poisoned) => Action::Fail,
        None => Action::Fail,
    }
}

/// The next action after the compare-and-swap of `Action::TryAcquire`:
/// on success this caller owns the initializer, on failure it dispatches on
/// the word that the swap found.
pub fn after_acquire(outcome: Result<i32, i32>) -> (r: Action)
    ensures
        r == match outcome {
            Ok(_) => Action::RunInitializer,
            Err(w) => action_for(w),
        },
        r is RunInitializer <==> outcome is Ok,
{
    match outcome {
        Ok(_) => Action::RunInitializer,
        Err(w) => dispatch(w),
    }
}

/// The next action after the compare-and-swap of `Action::RegisterWaiter`:
/// on success the word is `RunningHasWaiters` and the caller sleeps, on failure
/// it dispatches on the word that the swap found.
pub fn after_register(outcome: Result<i32, i32>) -> (r: Action)
    ensures
        r == match outcome {
            Ok(_) => Action::Wait,
            Err(w) => action_for(w),
        },
        !(r is RunInitializer),
{
    match outcome {
        Ok(_) => Action::Wait,
        Err(w) => dispatch(w),
    }
}

/// The terminal state that the owner publishes.
pub fn outcome(succeeded: bool) -> (r: OnceState)
    ensures
        r == outcome_of(succeeded),
        r.terminal(),
{
    if succeeded {
        OnceState::Complete
    } else {
        OnceState::Poisoned
    }
}

/// Whether word `w` reads as completed: only `Complete` does.
pub open spec fn reads_complete(w: i32) -> bool {
    w == COMPLETE
}

/// Whether an observed word shows that initialization has completed.
pub fn completed_word(w: i32) -> (r: bool)
    ensures
        r == reads_complete(w),
        r <==> w == COMPLETE,
{
    w == COMPLETE
}

/// Whether the owner must wake sleepers, given the word that its final swap
/// replaced: only a registered waiter can be asleep.
pub fn needs_wake(previous: i32) -> (r: bool)
    ensures
        r <==> previous == RUNNING_HAS_WAITERS,
{
    previous == RUNNING_HAS_WAITERS
}

} // verus!
