//! A fixed-capacity ordered sequence with push-if-room semantics.
//!
//! The capacity is chosen at construction and enforced on every insertion;
//! a full collection rejects the new element and stays unchanged.

use vstd::prelude::*;

verus! {

/// A sequence of at most `capacity` elements, in insertion order.
pub struct BoundedVec<T> {
    /// The elements, oldest first.
    pub items: Vec<T>,
    /// The fixed occupancy bound.
    pub capacity: usize,
}

impl<T> View for BoundedVec<T> {
    type V = Seq<T>;

    open spec fn view(&self) -> Seq<T> {
        self.items@
    }
}

impl<T> BoundedVec<T> {
    /// The occupancy never exceeds the capacity.
    pub open spec fn wf(&self) -> bool {
        self@.len() <= self.capacity
    }

    /// An empty collection with the given capacity.
    pub fn new(capacity: usize) -> (r: Self)
        ensures
            r@ == Seq::<T>::empty(),
            r.capacity == capacity,
            r.wf(),
    {
        BoundedVec { items: Vec::new(), capacity }
    }

    /// Takes an unbounded vector; fails, handing the vector back, when it
    /// holds more elements than the requested capacity.
    pub fn try_from_vec(items: Vec<T>, capacity: usize) -> (r: Result<Self, Vec<T>>)
        ensures
            items@.len() <= capacity ==> (r matches Ok(b)
                && b@ == items@
                && b.capacity == capacity
                && b.wf()),
            items@.len() > capacity ==> (r matches Err(v) && v@ == items@),
    {
        if items.len() <= capacity {
            Ok(BoundedVec { items, capacity })
        } else {
            Err(items)
        }
    }

    /// Appends when there is room, reporting whether it did; a full
    /// collection is left unchanged.
    pub fn try_push(&mut self, value: T) -> (ok: bool)
        ensures
            ok == (old(self)@.len() < old(self).capacity),
            ok ==> final(self)@ == old(self)@.push(value),
            !ok ==> final(self)@ == old(self)@,
            final(self).capacity == old(self).capacity,
            old(self).wf() ==> final(self).wf(),
    {
        if self.items.len() < self.capacity {
            self.items.push(value);
            true
        } else {
            false
        }
    }

    /// Current occupancy.
    pub fn len(&self) -> (n: usize)
        ensures
            n == self@.len(),
    {
        self.items.len()
    }

    /// The fixed occupancy bound.
    pub fn cap(&self) -> (c: usize)
        ensures
            c == self.capacity,
    {
        self.capacity
    }
}

impl<T: Copy> BoundedVec<T> {
    /// An element-for-element copy with the same capacity.
    pub fn duplicate(&self) -> (r: Self)
        ensures
            r@ == self@,
            r.capacity == self.capacity,
    {
        let mut items: Vec<T> = Vec::new();
        let mut i: usize = 0;
        while i < self.items.len()
            invariant
                i <= self.items.len(),
                items@ == self.items@.subrange(0, i as int),
            decreases self.items.len() - i,
        {
            items.push(self.items[i]);
            i = i + 1;
        }
        proof {
            assert(items@ =~= self.items@);
        }
        BoundedVec { items, capacity: self.capacity }
    }
}

impl BoundedVec<u64> {
    /// Linear-time membership test.
    pub fn contains(&self, value: u64) -> (r: bool)
        ensures
            r == self@.contains(value),
    {
        let mut i: usize = 0;
        while i < self.items.len()
            invariant
                i <= self.items.len(),
                forall|j: int| 0 <= j < i ==> self.items@[j] != value,
            decreases self.items.len() - i,
        {
            if self.items[i] == value {
                return true;
            }
            i = i + 1;
        }
        false
    }
}

} // verus!
