//! A fixed-capacity, append-only vector.

use vstd::prelude::*;

verus! {

/// A fixed-capacity, append-only vector of at most `N` elements.
///
/// Storage is pre-allocated at construction: `N` slots, each of which
/// doubles as the publication state of its index.  A slot holds `None`
/// until an element has been committed at that index and `Some` from then
/// on; a published slot never changes again, so a value read from it stays
/// valid for as long as the reader holds it.  The element count is also
/// the next free index, and it only ever grows, from `0` up to `N`.
pub struct FixSizedVec<T, const N: usize> {
    /// One slot per index in `[0, N)`; slot `i` is `Some` exactly when an
    /// element has been committed at index `i`.
    slots: Vec<Option<T>>,
    /// Number of committed elements, which is also the next free index.
    len: usize,
}

impl<T, const N: usize> View for FixSizedVec<T, N> {
    type V = Seq<T>;

    /// The committed elements, in index order.
    closed spec fn view(&self) -> Seq<T> {
        Seq::new(self.len as nat, |i: int| self.slots@[i]->0)
    }
}

impl<T, const N: usize> FixSizedVec<T, N> {
    /// The slots and the counter agree: there are `N` slots, the counter
    /// never exceeds the capacity, and exactly the indices below the
    /// counter are published.
    pub closed spec fn well_formed(&self) -> bool {
        &&& self.slots@.len() == N
        &&& self.len <= N
        &&& forall|i: int| 0 <= i < N ==> ((i < self.len) <==> self.slots@[i] is Some)
    }

    /// Create an empty vector; all `N` slots start unpublished.
    pub fn new() -> (v: Self)
        ensures
            v.well_formed(),
            v@ == Seq::<T>::empty(),
    {
        let mut slots: Vec<Option<T>> = Vec::new();
        let mut i: usize = 0;
        while i < N
            invariant
                i <= N,
                slots@.len() == i,
                forall|j: int| 0 <= j < i ==> slots@[j] is None,
            decreases N - i,
        {
            slots.push(None);
            i = i + 1;
        }
        let v = FixSizedVec { slots, len: 0 };
        proof {
            assert(v@ =~= Seq::<T>::empty());
        }
        v
    }

    /// Append `val` at the next free index.
    ///
    /// Returns `Ok(())` exactly when there was a free slot: the element is
    /// then committed at the old length, at the end of the contents, and
    /// nothing else moves.  Returns `Err(())` exactly when the vector was
    /// already full, and then nothing changes at all — a failed push
    /// alters neither the published slots nor the length.
    pub fn push(&mut self, val: T) -> (r: Result<(), ()>)
        requires
            old(self).well_formed(),
        ensures
            final(self).well_formed(),
            old(self)@.len() < N ==> r is Ok && final(self)@ == old(self)@.push(val),
            old(self)@.len() >= N ==> r is Err && *final(self) == *old(self),
    {
        let snapshot = self.len;
        if snapshot == N {
            return Err(());
        }
        // Reserve index `snapshot`, then publish the committed element
        // there; the counter only reaches this value once, so no later
        // push ever touches this slot again.
        self.slots.set(snapshot, Some(val));
        self.len = snapshot + 1;
        proof {
            assert(self@ =~= old(self)@.push(val));
        }
        Ok(())
    }

    /// Read the element at `idx`.
    ///
    /// Returns `None` both for an index beyond the capacity and for a slot
    /// whose element has not been committed, which under exclusive access
    /// are exactly the indices at or beyond the length.  The payload of a
    /// slot is read only behind its publication tag.
    pub fn get(&self, idx: usize) -> (r: Option<&T>)
        requires
            self.well_formed(),
        ensures
            r matches Some(v) ==> idx < self@.len() && *v == self@[idx as int],
            r is None <==> idx >= self@.len(),
    {
        if idx >= N {
            return None;
        }
        self.slots[idx].as_ref()
    }

    /// The number of committed elements.  Under exclusive access this is
    /// exact: every index below it reads as present, every index at or
    /// beyond it as absent.
    pub fn len(&self) -> (n: usize)
        ensures
            n == self@.len(),
    {
        self.len
    }
}

} // verus!
