//! Bounded ring of the most recently played tracks' metadata, newest first.

use vstd::prelude::*;

verus! {

/// What one push does to the ring's contents: the new value goes to the
/// front; when the ring is already at capacity `k` the oldest value falls
/// off the back.
pub open spec fn ring_push<T>(s: Seq<T>, v: T, k: nat) -> Seq<T> {
    if s.len() < k {
        seq![v] + s
    } else {
        seq![v] + s.take(k as int - 1)
    }
}

/// The contents after pushing `values` in order onto an empty ring of
/// capacity `k`.
pub open spec fn ring_fill<T>(values: Seq<T>, k: nat) -> Seq<T>
    decreases values.len(),
{
    if values.len() == 0 {
        Seq::empty()
    } else {
        ring_push(ring_fill(values.drop_last(), k), values.last(), k)
    }
}

/// A fixed-capacity deque: push to the front evicts from the back once the
/// capacity is reached. Storage is a plain vector kept newest-first, so a
/// snapshot is always one contiguous slice.
pub struct FixedDeque<T> {
    items: Vec<T>,
    capacity: usize,
}

impl<T> View for FixedDeque<T> {
    type V = Seq<T>;

    closed spec fn view(&self) -> Seq<T> {
        self.items@
    }
}

impl<T> FixedDeque<T> {
    pub closed spec fn wf(&self) -> bool {
        1 <= self.capacity && self@.len() <= self.capacity
    }

    pub closed spec fn spec_capacity(&self) -> nat {
        self.capacity as nat
    }

    pub fn new(size: usize) -> (d: Self)
        requires
            1 <= size,
        ensures
            d.wf(),
            d.spec_capacity() == size,
            d@ == Seq::<T>::empty(),
    {
        FixedDeque { items: Vec::new(), capacity: size }
    }

    pub fn push(&mut self, value: T)
        requires
            old(self).wf(),
        ensures
            final(self).wf(),
            final(self).spec_capacity() == old(self).spec_capacity(),
            final(self)@ == ring_push(old(self)@, value, old(self).spec_capacity()),
            final(self)@.len() == vstd::math::min(
                old(self)@.len() as int + 1,
                old(self).spec_capacity() as int,
            ),
            final(self)@[0] == value,
    {
        if self.items.len() == self.capacity {
            self.items.pop();
        }
        self.items.insert(0, value);
        assert(self@ =~= ring_push(old(self)@, value, old(self).spec_capacity()));
    }

    pub fn as_slice(&self) -> (s: &[T])
        ensures
            s@ == self@,
    {
        self.items.as_slice()
    }

    pub fn len(&self) -> (n: usize)
        ensures
            n == self@.len(),
    {
        self.items.len()
    }
}

/// Ring bound law: after any sequence of pushes onto an empty ring of
/// capacity `k`, the ring holds `min(pushes, k)` entries and its first
/// entry is the most recently pushed value.
pub proof fn lemma_ring_fill_bound<T>(values: Seq<T>, k: nat)
    requires
        1 <= k,
    ensures
        ring_fill(values, k).len() == if values.len() < k {
            values.len() as int
        } else {
            k as int
        },
        values.len() > 0 ==> ring_fill(values, k)[0] == values.last(),
    decreases values.len(),
{
    if values.len() > 0 {
        lemma_ring_fill_bound(values.drop_last(), k);
    }
}

} // verus!
