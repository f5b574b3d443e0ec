use vstd::prelude::*;

verus! {

/// A bounded buffer standing for the container's inline region: space for up
/// to `N` elements is reserved up front and the live elements fill it from
/// position zero.
pub struct Stack<T, const N: usize> {
    cells: Vec<T>,
}

impl<T, const N: usize> View for Stack<T, N> {
    type V = Seq<T>;

    closed spec fn view(&self) -> Seq<T> {
        self.cells@
    }
}

impl<T, const N: usize> Stack<T, N> {
    /// The inline region never holds more than `N` elements.
    pub open spec fn well_formed(&self) -> bool {
        self@.len() <= N
    }

    /// Reserves space for `N` elements; stores nothing yet.
    #[must_use]
    pub fn new() -> (r: Self)
        ensures
            r@ == Seq::<T>::empty(),
            r.well_formed(),
    {
        Stack { cells: Vec::with_capacity(N) }
    }

    /// The number of live elements in the region.
    pub fn len(&self) -> (r: usize)
        ensures
            r == self@.len(),
    {
        self.cells.len()
    }

    /// Writes `value` into the first free slot.
    pub fn push(&mut self, value: T)
        requires
            old(self)@.len() < N,
        ensures
            final(self)@ == old(self)@.push(value),
            final(self).well_formed(),
    {
        self.cells.push(value);
    }

    /// Removes the last live element, if any, and hands its ownership out;
    /// the freed slot holds no value afterwards.
    pub fn pop(&mut self) -> (r: Option<T>)
        ensures
            old(self)@.len() == 0 ==> r is None && final(self)@ == old(self)@,
            old(self)@.len() > 0 ==> r == Some(old(self)@.last())
                && final(self)@ == old(self)@.drop_last(),
    {
        self.cells.pop()
    }

    /// A reference to the element at position `i`.
    pub fn index(&self, i: usize) -> (r: &T)
        requires
            i < self@.len(),
        ensures
            *r == self@[i as int],
    {
        &self.cells[i]
    }

    /// A mutable reference to the element at position `i`.
    pub fn index_mut(&mut self, i: usize) -> (r: &mut T)
        requires
            i < old(self)@.len(),
        ensures
            *r == old(self)@[i as int],
            final(self)@ == old(self)@.update(i as int, *final(r)),
    {
        &mut self.cells[i]
    }

    /// A contiguous view of the live elements.
    pub fn as_slice(&self) -> (r: &[T])
        ensures
            r@ == self@,
    {
        self.cells.as_slice()
    }

    /// Hands the live elements over for migration to heap storage, consuming
    /// the inline region; ownership of each element moves, none is duplicated
    /// or dropped.
    pub fn into_vec(self) -> (r: Vec<T>)
        ensures
            r@ == self@,
    {
        let Stack { cells } = self;
        cells
    }
}

} // verus!
