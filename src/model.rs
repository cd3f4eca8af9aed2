use vstd::prelude::*;

use crate::protocol::{action_for, outcome_of, reads_complete, Action};
use crate::state::{word_of, OnceState, COMPLETE, INCOMPLETE, POISONED};

verus! {

/// One atomic read-modify-write that the protocol performs on the shared
/// word. All of them act on one location, so every run of the protocol
/// orders them in one sequence, the word's modification order. Reads change
/// nothing and are left out. So is a weak compare-and-swap that fails
/// spuriously on `Incomplete`: it changes nothing and counts as a read.
#[derive(Clone, Copy, Debug, PartialEq, Eq, Structural)]
pub enum WordOp {
    /// `Once::try_acquire`: compare-and-swap `Incomplete` to
    /// `RunningNoWaiters`; on any other word it fails and changes nothing.
    Acquire,
    /// `Once::register_waiter`: compare-and-swap `RunningNoWaiters` to
    /// `RunningHasWaiters`; on any other word it fails and changes nothing.
    Register,
    /// `Owner::finish`: swap in the terminal state for the initializer's
    /// outcome.
    Finish(bool),
}

/// The word after `op` acts on word `w`.
pub open spec fn apply(w: i32, op: WordOp) -> i32 {
    match op {
        WordOp::Acquire => if w == INCOMPLETE {
            word_of(OnceState::RunningNoWaiters)
        } else {
            w
        },
        WordOp::Register => if w == word_of(OnceState::RunningNoWaiters) {
            word_of(OnceState::RunningHasWaiters)
        } else {
            w
        },
        WordOp::Finish(succeeded) => word_of(outcome_of(succeeded)),
    }
}

/// Whether `op`, acting on word `w`, makes its caller the owner.
pub open spec fn grants(w: i32, op: WordOp) -> bool {
    op is Acquire && w == INCOMPLETE
}

/// The word of a fresh instance after the operations `ops`, in order. A fresh
/// instance starts at `Incomplete`, as `Once::new` ensures of its
/// `initial_word`.
pub open spec fn word_after(ops: Seq<WordOp>) -> i32
    decreases ops.len(),
{
    if ops.len() == 0 {
        INCOMPLETE
    } else {
        apply(word_after(ops.drop_last()), ops.last())
    }
}

/// How many operations of `ops` made their caller the owner.
pub open spec fn owners(ops: Seq<WordOp>) -> nat
    decreases ops.len(),
{
    if ops.len() == 0 {
        0
    } else {
        owners(ops.drop_last()) + if grants(word_after(ops.drop_last()), ops.last()) {
            1nat
        } else {
            0nat
        }
    }
}

/// Only the owner finishes, and only once: each `Finish` comes after the
/// grant of ownership and no other `Finish` follows it. The lemmas assume
/// this; it is not proved of the code. The code upholds it by how `Owner` is
/// built: its fields are private, only a granting `Once::try_acquire` hands
/// one out, and `Owner::finish` consumes it.
pub open spec fn owner_discipline(ops: Seq<WordOp>) -> bool {
    &&& forall|i: int| 0 <= i < ops.len() && ops[i] is Finish ==> owners(#[trigger] ops.take(i)) == 1
    &&& forall|i: int, j: int|
        0 <= i < j < ops.len() && (#[trigger] ops[i]) is Finish ==> !((#[trigger] ops[j]) is Finish)
}

proof fn lemma_prefix_step(ops: Seq<WordOp>, j: int)
    requires
        0 <= j < ops.len(),
    ensures
        ops.take(j + 1).drop_last() == ops.take(j),
        ops.take(j + 1).last() == ops[j],
        word_after(ops.take(j + 1)) == apply(word_after(ops.take(j)), ops[j]),
        owners(ops.take(j + 1)) == owners(ops.take(j)) + if grants(word_after(ops.take(j)), ops[j]) {
            1nat
        } else {
            0nat
        },
{
    assert(ops.take(j + 1).drop_last() =~= ops.take(j));
}

proof fn lemma_owner_leaves_incomplete(ops: Seq<WordOp>)
    ensures
        owners(ops) <= 1,
        owners(ops) == 1 ==> word_after(ops) != INCOMPLETE,
    decreases ops.len(),
{
    if ops.len() > 0 {
        lemma_owner_leaves_incomplete(ops.drop_last());
    }
}

/// At most once: however the callers' operations interleave on a fresh
/// instance, at most one of them makes its caller the owner, so at most one
/// initializer runs.
pub proof fn lemma_at_most_one_owner(ops: Seq<WordOp>)
    ensures
        owners(ops) <= 1,
{
    lemma_owner_leaves_incomplete(ops);
}

proof fn lemma_owners_monotone(ops: Seq<WordOp>, a: int, b: int)
    requires
        0 <= a <= b <= ops.len(),
    ensures
        owners(ops.take(a)) <= owners(ops.take(b)),
    decreases b - a,
{
    if a < b {
        lemma_owners_monotone(ops, a, b - 1);
        lemma_prefix_step(ops, b - 1);
    }
}

proof fn lemma_no_acquire_prefix(ops: Seq<WordOp>, m: int)
    requires
        owner_discipline(ops),
        0 <= m <= ops.len(),
        forall|i: int| 0 <= i < m ==> !(#[trigger] ops[i] is Acquire),
    ensures
        word_after(ops.take(m)) == INCOMPLETE,
        owners(ops.take(m)) == 0,
    decreases m,
{
    if m == 0 {
        assert(ops.take(0) =~= Seq::<WordOp>::empty());
    } else {
        lemma_no_acquire_prefix(ops, m - 1);
        lemma_prefix_step(ops, m - 1);
        assert(!(ops[m - 1] is Acquire));
    }
}

proof fn lemma_acquire_grants_by(ops: Seq<WordOp>, k: int)
    requires
        owner_discipline(ops),
        0 <= k < ops.len(),
        ops[k] is Acquire,
    ensures
        owners(ops.take(k + 1)) >= 1,
    decreases k,
{
    if exists|i: int| 0 <= i < k && #[trigger] ops[i] is Acquire {
        let i = choose|i: int| 0 <= i < k && #[trigger] ops[i] is Acquire;
        lemma_acquire_grants_by(ops, i);
        lemma_owners_monotone(ops, i + 1, k + 1);
    } else {
        lemma_no_acquire_prefix(ops, k);
        lemma_prefix_step(ops, k);
    }
}

/// Exactly once: when only the owner finishes, a history in which some
/// caller attempted to acquire has exactly one owner, so exactly one
/// initializer runs.
pub proof fn lemma_exactly_one_owner(ops: Seq<WordOp>, k: int)
    requires
        owner_discipline(ops),
        0 <= k < ops.len(),
        ops[k] is Acquire,
    ensures
        owners(ops) == 1,
{
    lemma_acquire_grants_by(ops, k);
    lemma_owners_monotone(ops, k + 1, ops.len() as int);
    assert(ops.take(ops.len() as int) =~= ops);
    lemma_at_most_one_owner(ops);
}

proof fn lemma_outcome_stays(ops: Seq<WordOp>, i: int, succeeded: bool, j: int)
    requires
        owner_discipline(ops),
        0 <= i < ops.len(),
        ops[i] == WordOp::Finish(succeeded),
        i < j <= ops.len(),
    ensures
        word_after(ops.take(j)) == word_of(outcome_of(succeeded)),
        owners(ops.take(j)) == owners(ops.take(i + 1)),
    decreases j,
{
    lemma_prefix_step(ops, j - 1);
    if j > i + 1 {
        lemma_outcome_stays(ops, i, succeeded, j - 1);
        assert(!(ops[j - 1] is Finish));
    }
}

/// Once the owner finishes, its outcome is the word for good: every later
/// operation leaves it, and no later operation makes a new owner.
pub proof fn lemma_outcome_is_permanent(ops: Seq<WordOp>, i: int, succeeded: bool)
    requires
        owner_discipline(ops),
        0 <= i < ops.len(),
        ops[i] == WordOp::Finish(succeeded),
    ensures
        forall|j: int|
            #![trigger ops.take(j)]
            i < j <= ops.len() ==> {
                &&& word_after(ops.take(j)) == word_of(outcome_of(succeeded))
                &&& owners(ops.take(j)) == owners(ops.take(i + 1))
            },
{
    assert forall|j: int| #![trigger ops.take(j)] i < j <= ops.len() implies {
        &&& word_after(ops.take(j)) == word_of(outcome_of(succeeded))
        &&& owners(ops.take(j)) == owners(ops.take(i + 1))
    } by {
        lemma_outcome_stays(ops, i, succeeded, j);
    }
}

/// A call after a successful initialization runs nothing: from the owner's
/// successful finish on, the word stays `Complete`, reads as completed, every
/// caller that reads it returns at once, and no caller becomes an owner
/// again.
pub proof fn lemma_completed_call_is_no_op(ops: Seq<WordOp>, i: int)
    requires
        owner_discipline(ops),
        0 <= i < ops.len(),
        ops[i] == WordOp::Finish(true),
    ensures
        forall|j: int|
            #![trigger ops.take(j)]
            i < j <= ops.len() ==> {
                &&& word_after(ops.take(j)) == COMPLETE
                &&& reads_complete(word_after(ops.take(j)))
                &&& action_for(word_after(ops.take(j))) == Action::Return
                &&& owners(ops.take(j)) == owners(ops.take(i + 1))
            },
{
    lemma_outcome_is_permanent(ops, i, true);
}

/// Poisoning is permanent: from the owner's failed finish on, the word stays
/// `Poisoned`, the instance never reads as completed, every caller that reads
/// it fails, and no caller becomes an owner again.
pub proof fn lemma_poison_is_permanent(ops: Seq<WordOp>, i: int)
    requires
        owner_discipline(ops),
        0 <= i < ops.len(),
        ops[i] == WordOp::Finish(false),
    ensures
        forall|j: int|
            #![trigger ops.take(j)]
            i < j <= ops.len() ==> {
                &&& word_after(ops.take(j)) == POISONED
                &&& !reads_complete(word_after(ops.take(j)))
                &&& action_for(word_after(ops.take(j))) == Action::Fail
                &&& owners(ops.take(j)) == owners(ops.take(i + 1))
            },
{
    lemma_outcome_is_permanent(ops, i, false);
}

/// A word that reads as completed was published by a successful finish: some
/// operation of the history is `Finish(true)`.
pub proof fn lemma_complete_after_success(ops: Seq<WordOp>)
    requires
        reads_complete(word_after(ops)),
    ensures
        exists|i: int| 0 <= i < ops.len() && ops[i] == WordOp::Finish(true),
    decreases ops.len(),
{
    let last = ops.len() - 1;
    if ops.last() != WordOp::Finish(true) {
        lemma_complete_after_success(ops.drop_last());
        let i = choose|i: int| 0 <= i < ops.drop_last().len() && ops.drop_last()[i] == WordOp::Finish(true);
        assert(ops[i] == WordOp::Finish(true));
    } else {
        assert(ops[last] == WordOp::Finish(true));
    }
}

} // verus!
