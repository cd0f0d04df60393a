//! Append-only vectors.
//!
//! Two drop-in-equivalent containers with one contract: a fixed-capacity
//! vector backed by a pre-allocated slot array ([`fix_sized::FixSizedVec`])
//! and an unbounded vector backed by a chain of linked nodes
//! ([`linked_list::LinkedListVec`]).  Both support `push` at the end, `get`
//! by positional index, and an advisory `len`; committed elements are
//! write-once and are never moved, mutated or removed.

use vstd::prelude::*;

pub mod fix_sized;
pub mod linked_list;

verus! {

use vstd::seq_lib::lemma_multiset_commutative;

/// The contents of an append-only vector after a run of pushes has
/// committed the values `pushed`, one at a time and in this order, on top
/// of contents `init`.  Each single push appends exactly one element,
/// which is what `FixSizedVec::push` and `LinkedListVec::push` guarantee
/// of their views.
pub open spec fn after_pushes<T>(init: Seq<T>, pushed: Seq<T>) -> Seq<T>
    decreases pushed.len(),
{
    if pushed.len() == 0 {
        init
    } else {
        after_pushes(init, pushed.drop_last()).push(pushed.last())
    }
}

/// Law: a run of pushes appends exactly the pushed values, in push order,
/// after the contents that were already committed.
pub proof fn lemma_after_pushes_appends<T>(init: Seq<T>, pushed: Seq<T>)
    ensures
        after_pushes(init, pushed) == init + pushed,
    decreases pushed.len(),
{
    if pushed.len() == 0 {
        assert(after_pushes(init, pushed) =~= init + pushed);
    } else {
        lemma_after_pushes_appends(init, pushed.drop_last());
        assert(after_pushes(init, pushed) =~= init + pushed);
    }
}

/// Law: once a run of pushes has committed the values `pushed`, the length
/// has grown by exactly the number of pushes, no element that was already
/// committed has moved or changed, every pushed value is retrievable at a
/// position of its own, and taken as a bag the contents are the old
/// contents plus precisely the pushed values: no losses, no duplicates.
pub proof fn lemma_pushes_account_for_all<T>(init: Seq<T>, pushed: Seq<T>)
    ensures
        after_pushes(init, pushed).len() == init.len() + pushed.len(),
        forall|i: int| 0 <= i < init.len() ==> after_pushes(init, pushed)[i] == init[i],
        forall|i: int|
            0 <= i < pushed.len() ==> after_pushes(init, pushed)[init.len() + i] == pushed[i],
        after_pushes(init, pushed).to_multiset() == init.to_multiset().add(pushed.to_multiset()),
{
    lemma_after_pushes_appends(init, pushed);
    lemma_multiset_commutative(init, pushed);
}

} // verus!
