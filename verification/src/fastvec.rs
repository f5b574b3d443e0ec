use vstd::prelude::*;

verus! {

use crate::error::Error;
use crate::stack::Stack;

/// Tagged storage: exactly one region is live at a time. Elements live either
/// in the inline region (at most `N` of them) or in a separately allocated,
/// growable heap buffer; migration from inline to heap happens at most once
/// and is never reversed.
enum Data<T, const N: usize> {
    /// The inline region is the live one.
    Inline(Stack<T, N>),
    /// The heap buffer is the live one.
    Heap(Vec<T>),
}

/// A hybrid vector with `N` inline slots. While at most `N` elements are ever
/// held at once, no heap buffer exists; the first `push` beyond `N` elements
/// migrates every element to the heap, and the capacity doubles at migration
/// and at each later growth step.
pub struct FastVec<T, const N: usize> {
    /// Total slot count: `N` while inline, the heap buffer's size afterwards.
    capacity: usize,
    data: Data<T, N>,
}

impl<T, const N: usize> View for FastVec<T, N> {
    type V = Seq<T>;

    closed spec fn view(&self) -> Seq<T> {
        match self.data {
            Data::Inline(s) => s@,
            Data::Heap(v) => v@,
        }
    }
}

impl<T, const N: usize> FastVec<T, N> {
    /// Current total slot count.
    pub closed spec fn spec_cap(&self) -> usize {
        self.capacity
    }

    /// The container's invariants, established by `new` and preserved by
    /// every operation: the live element count never exceeds the capacity,
    /// the capacity equals `N` exactly as long as the storage is inline and
    /// exceeds `N` once it has migrated to the heap, and `N` itself is at
    /// least one and small enough that the doubling at migration cannot
    /// overflow the address range.
    pub closed spec fn well_formed(&self) -> bool {
        &&& 1 <= N
        &&& N < usize::MAX / 2
        &&& match self.data {
            Data::Inline(s) => s.well_formed() && self.capacity == N,
            Data::Heap(v) => v@.len() <= self.capacity && self.capacity > N,
        }
    }

    /// Creates an empty container: no live elements, `N` inline slots, and no
    /// heap allocation. `N` must be at least one and below the maximum
    /// representable signed offset, so that later capacity arithmetic stays
    /// representable.
    #[must_use]
    pub fn new() -> (r: Self)
        requires
            1 <= N,
            N < usize::MAX / 2,
        ensures
            r.well_formed(),
            r@ == Seq::<T>::empty(),
            r.spec_cap() == N,
    {
        FastVec { capacity: N, data: Data::Inline(Stack::new()) }
    }

    /// The number of live elements.
    pub fn len(&self) -> (r: usize)
        ensures
            r == self@.len(),
    {
        match &self.data {
            Data::Inline(s) => s.len(),
            Data::Heap(v) => v.len(),
        }
    }

    /// The current total slot count.
    pub fn cap(&self) -> (r: usize)
        ensures
            r == self.spec_cap(),
    {
        self.capacity
    }

    /// Whether the container holds no live elements.
    pub fn is_empty(&self) -> (r: bool)
        ensures
            r <==> self@.len() == 0,
    {
        match &self.data {
            Data::Inline(s) => s.len() == 0,
            Data::Heap(v) => v.is_empty(),
        }
    }

    /// Whether the elements have migrated to heap storage. The storage mode
    /// is derived, not stored: the container is heap-allocated exactly when
    /// its capacity exceeds the inline capacity `N`.
    #[inline(always)]
    pub fn is_heap_allocated(&self) -> (r: bool)
        ensures
            r <==> self.spec_cap() > N,
    {
        self.capacity > N
    }

    /// The growth increment: the current capacity, so each growth step
    /// doubles the total slot count. A deliberate simple heuristic, tunable,
    /// chosen here because it directly bounds reallocation frequency.
    pub fn grow_by(&self) -> (r: usize)
        ensures
            r == self.spec_cap(),
    {
        self.capacity
    }

    /// Appends `value` after the last live element, migrating or growing the
    /// storage first when the container is full. On success the container
    /// holds the old elements at their old positions followed by `value`; the
    /// capacity is unchanged when a slot was free and doubled otherwise, and
    /// it never decreases: migration is one-way, growth only enlarges. On
    /// failure, which happens exactly when a needed doubling would overflow
    /// the address range, the container is unchanged, the value is released
    /// rather than stored, and the failure kind is reported.
    pub fn push(&mut self, value: T) -> (r: Result<(), Error>)
        requires
            old(self).well_formed(),
        ensures
            final(self).well_formed(),
            r is Ok <==> old(self)@.len() < old(self).spec_cap()
                || old(self).spec_cap() + old(self).spec_cap() <= usize::MAX,
            r is Ok ==> final(self)@ == old(self)@.push(value),
            r is Ok && old(self)@.len() < old(self).spec_cap()
                ==> final(self).spec_cap() == old(self).spec_cap(),
            r is Ok && old(self)@.len() == old(self).spec_cap()
                ==> final(self).spec_cap() == 2 * old(self).spec_cap(),
            r is Err ==> final(self)@ == old(self)@
                && final(self).spec_cap() == old(self).spec_cap()
                && r == Err::<(), Error>(Error::CapacityOverflow),
            final(self).spec_cap() >= old(self).spec_cap(),
    {
        let len = self.len();
        if len == self.cap() {
            if self.is_heap_allocated() {
                let additional = self.grow_by();
                match self.grow(additional) {
                    Ok(()) => {}
                    Err(e) => {
                        return Err(e);
                    }
                }
            } else {
                match self.heapify() {
                    Ok(()) => {}
                    Err(e) => {
                        return Err(e);
                    }
                }
            }
        }
        match &mut self.data {
            Data::Inline(s) => s.push(value),
            Data::Heap(v) => v.push(value),
        }
        Ok(())
    }

    /// Removes the last live element and hands its ownership out; the freed
    /// slot holds no value afterwards. Popping an empty container is not an
    /// error: it returns `None` and changes nothing. The capacity and the
    /// storage mode never change.
    #[inline]
    pub fn pop(&mut self) -> (r: Option<T>)
        requires
            old(self).well_formed(),
        ensures
            final(self).well_formed(),
            final(self).spec_cap() == old(self).spec_cap(),
            old(self)@.len() == 0 ==> r is None && final(self)@ == old(self)@,
            old(self)@.len() > 0 ==> r == Some(old(self)@.last())
                && final(self)@ == old(self)@.drop_last(),
    {
        match &mut self.data {
            Data::Inline(s) => s.pop(),
            Data::Heap(v) => v.pop(),
        }
    }

    /// A reference to the element at position `i`; the position must be in
    /// range.
    pub fn index(&self, i: usize) -> (r: &T)
        requires
            i < self@.len(),
        ensures
            *r == self@[i as int],
    {
        match &self.data {
            Data::Inline(s) => s.index(i),
            Data::Heap(v) => &v[i],
        }
    }

    /// Bounds-checked access: a reference to the element at position `i`, or
    /// `None` when `i` is out of range.
    pub fn get(&self, i: usize) -> (r: Option<&T>)
        ensures
            i < self@.len() ==> r == Some(&self@[i as int]),
            i >= self@.len() ==> r is None,
    {
        if i < self.len() {
            Some(self.index(i))
        } else {
            None
        }
    }

    /// A mutable reference to the element at position `i`; the position must
    /// be in range. Writing through it replaces that element and nothing
    /// else.
    pub fn index_mut(&mut self, i: usize) -> (r: &mut T)
        requires
            old(self).well_formed(),
            i < old(self)@.len(),
        ensures
            final(self).well_formed(),
            final(self).spec_cap() == old(self).spec_cap(),
            *r == old(self)@[i as int],
            final(self)@ == old(self)@.update(i as int, *final(r)),
    {
        match &mut self.data {
            Data::Inline(s) => s.index_mut(i),
            Data::Heap(v) => &mut v[i],
        }
    }

    /// A contiguous view of the live elements, in position order, valid until
    /// the next mutating operation.
    pub fn as_slice(&self) -> (r: &[T])
        ensures
            r@ == self@,
    {
        match &self.data {
            Data::Inline(s) => s.as_slice(),
            Data::Heap(v) => v.as_slice(),
        }
    }

    /// One-time migration from the inline region to a fresh heap buffer sized
    /// `N + grow_by()`, i.e. `2 * N`. Every element moves to the heap buffer
    /// at its old position by ownership transfer; the inline region is left
    /// with no live elements. Cannot fail: `well_formed` bounds `N` so the
    /// doubled capacity is representable, and the heap buffer keeps its own
    /// layout bookkeeping, so no layout computation can go wrong here.
    fn heapify(&mut self) -> (r: Result<(), Error>)
        requires
            old(self).well_formed(),
            old(self).spec_cap() == N,
        ensures
            r is Ok,
            final(self).well_formed(),
            final(self)@ == old(self)@,
            final(self).spec_cap() == 2 * N,
    {
        let additional = self.grow_by();
        let new_cap = self.capacity + additional;

        let mut data = Data::Heap(Vec::new());
        core::mem::swap(&mut data, &mut self.data);
        let stack = match data {
            Data::Inline(s) => s,
            Data::Heap(_) => vstd::pervasive::unreached(),
        };
        let mut heap = stack.into_vec();
        let len = heap.len();
        heap.reserve(new_cap - len);

        self.data = Data::Heap(heap);
        self.capacity = new_cap;
        Ok(())
    }

    /// Invariant preservation: `new` returns a well-formed container and
    /// every operation's contract keeps well-formedness, so by induction the
    /// container is well-formed after every sequence of operations; this
    /// lemma says what well-formedness pins down publicly: the element count
    /// never exceeds the capacity, and the capacity never falls below the
    /// inline capacity `N` (with `is_heap_allocated` reporting, per its own
    /// contract, exactly whether the capacity exceeds `N`).
    pub proof fn lemma_container_invariants(&self)
        requires
            self.well_formed(),
        ensures
            self@.len() <= self.spec_cap(),
            N <= self.spec_cap(),
            1 <= N,
    {
    }

    /// Grows the already heap-allocated buffer by `additional` slots,
    /// preserving every element at its position (a reallocation in place of a
    /// fresh buffer). Reports `CapacityOverflow`, and changes nothing, exactly
    /// when the enlarged capacity would not be representable.
    fn grow(&mut self, additional: usize) -> (r: Result<(), Error>)
        requires
            old(self).well_formed(),
            old(self).spec_cap() > N,
        ensures
            final(self).well_formed(),
            final(self)@ == old(self)@,
            old(self).spec_cap() + additional <= usize::MAX ==> r is Ok
                && final(self).spec_cap() == old(self).spec_cap() + additional,
            old(self).spec_cap() + additional > usize::MAX
                ==> r == Err::<(), Error>(Error::CapacityOverflow)
                && final(self).spec_cap() == old(self).spec_cap(),
    {
        if additional > usize::MAX - self.capacity {
            return Err(Error::CapacityOverflow);
        }
        let new_cap = self.capacity + additional;

        match &mut self.data {
            Data::Inline(_) => {
                proof {
                    assert(false);
                }
            }
            Data::Heap(v) => {
                let len = v.len();
                v.reserve(new_cap - len);
            }
        }
        self.capacity = new_cap;
        Ok(())
    }
}

} // verus!
