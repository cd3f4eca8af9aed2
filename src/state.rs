use vstd::prelude::*;

verus! {

/// The initializer has not started yet.
pub const INCOMPLETE: i32 = 0;

/// The initializer finished without failing.
pub const COMPLETE: i32 = 1;

/// The initializer failed; the instance can never complete.
pub const POISONED: i32 = 2;

/// The initializer is running and no other caller waits for it.
pub const RUNNING_NO_WAITERS: i32 = 3;

/// The initializer is running and at least one caller may sleep on the word.
pub const RUNNING_HAS_WAITERS: i32 = 4;

/// The five states of the shared word.
#[derive(Clone, Copy, Debug, PartialEq, Eq, Structural)]
pub enum OnceState {
    Incomplete,
    RunningNoWaiters,
    RunningHasWaiters,
    Complete,
    Poisoned,
}

/// The word that encodes a state.
pub open spec fn word_of(s: OnceState) -> i32 {
    match s {
        OnceState::Incomplete => INCOMPLETE,
        OnceState::RunningNoWaiters => RUNNING_NO_WAITERS,
        OnceState::RunningHasWaiters => RUNNING_HAS_WAITERS,
        OnceState::Complete => COMPLETE,
        OnceState::Poisoned => POISONED,
    }
}

/// The state that a word encodes, if it encodes one.
pub open spec fn state_of(w: i32) -> Option<OnceState> {
    if w == INCOMPLETE {
        Some(OnceState::Incomplete)
    } else if w == RUNNING_NO_WAITERS {
        Some(OnceState::RunningNoWaiters)
    } else if w == RUNNING_HAS_WAITERS {
        Some(OnceState::RunningHasWaiters)
    } else if w == COMPLETE {
        Some(OnceState::Complete)
    } else if w == POISONED {
        Some(OnceState::Poisoned)
    } else {
        None
    }
}

impl OnceState {
    /// A terminal state never changes again.
    pub open spec fn terminal(self) -> bool {
        self is Complete || self is Poisoned
    }

    /// Encodes the state as the shared word.
    pub fn word(self) -> (r: i32)
        ensures
            r == word_of(self),
            state_of(r) == Some(self),
    {
        match self {
            OnceState::Incomplete => INCOMPLETE,
            OnceState::RunningNoWaiters => RUNNING_NO_WAITERS,
            OnceState::RunningHasWaiters => RUNNING_HAS_WAITERS,
            OnceState::Complete => COMPLETE,
            OnceState::Poisoned => POISONED,
        }
    }

    /// Decodes a shared word; `None` for a word that encodes no state.
    pub fn from_word(w: i32) -> (r: Option<OnceState>)
        ensures
            r == state_of(w),
            r matches Some(s) ==> word_of(s) == w,
            r is None <==> (w < 0 || w > 4),
    {
        if w == INCOMPLETE {
            Some(OnceState::Incomplete)
        } else if w == RUNNING_NO_WAITERS {
            Some(OnceState::RunningNoWaiters)
        } else if w == RUNNING_HAS_WAITERS {
            Some(OnceState::RunningHasWaiters)
        } else if w == COMPLETE {
            Some(OnceState::Complete)
        } else if w == POISONED {
            Some(OnceState::Poisoned)
        } else {
            None
        }
    }
}

} // verus!
