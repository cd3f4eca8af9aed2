//! A one-time initialization primitive built on a single Linux futex word.
//!
//! The word holds one of five states. Callers race on it with atomic
//! compare-and-swap operations; exactly one caller becomes the owner and runs
//! the initializer, the others register themselves as waiters and sleep on the
//! futex until the owner publishes a terminal state.
//!
//! The library states the protocol as verified decisions (`protocol`), gives
//! each atomic step on the shared word a verified method of `Once`, and proves
//! the protocol's laws over a model of the word's history (`model`). The loop
//! that drives one caller through those steps lives with the program that
//! blocks on them.

mod model;
mod once;
mod protocol;
mod state;

pub use state::{OnceState, INCOMPLETE, COMPLETE, POISONED, RUNNING_NO_WAITERS, RUNNING_HAS_WAITERS};
pub use protocol::{
    after_acquire, after_register, completed_word, dispatch, needs_wake, outcome, Action,
};
pub use once::{Once, Owner};
pub use model::{
    lemma_at_most_one_owner, lemma_complete_after_success, lemma_completed_call_is_no_op,
    lemma_exactly_one_owner, lemma_outcome_is_permanent, lemma_poison_is_permanent, WordOp,
};
