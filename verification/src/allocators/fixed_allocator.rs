//! The dense allocator: permanent, never-reused row handles.

use core::marker::PhantomData;
use vstd::prelude::*;

verus! {

/// A handle kind that addresses rows of table `ID` by a plain index.
pub trait Indexes<ID>: Sized + Copy {
    /// The row index the handle stands for.
    spec fn idx(&self) -> int;

    /// Returns the row index.
    fn index(&self) -> (r: usize)
        ensures
            r as int == self.idx(),
    ;
}

/// Mints permanent handles for table `T`: indices are handed out in order,
/// never reclaimed, and stay valid for the table's whole lifetime, so
/// consumers never need a validity check for this handle kind.
#[derive(Debug)]
pub struct FixedAllocator<T> {
    next_index: usize,
    marker: PhantomData<T>,
}

impl<T> FixedAllocator<T> {
    /// How many handles have been created so far; also the index the next
    /// `create` returns.
    pub closed spec fn allocated(&self) -> int {
        self.next_index as int
    }

    /// Mints the next permanent handle: the `n`-th call returns index `n - 1`.
    /// No deletion operation exists, so every handle ever returned stays valid.
    pub fn create(&mut self) -> (id: Id<T>)
        requires
            old(self).allocated() < usize::MAX,
        ensures
            id.index as int == old(self).allocated(),
            final(self).allocated() == old(self).allocated() + 1,
    {
        let id = Id::new(self.next_index);
        self.next_index = self.next_index + 1;
        id
    }
}

impl<T> Default for FixedAllocator<T> {
    fn default() -> (r: Self)
        ensures
            r.allocated() == 0,
    {
        FixedAllocator { next_index: 0, marker: PhantomData }
    }
}

/// A permanent, zero-based row index into table `T`. Issued only by `T`'s
/// [`FixedAllocator`]; the marker type keeps a handle from one table from
/// indexing another table's columns.
#[derive(Debug)]
pub struct Id<T> {
    pub index: usize,
    pub marker: PhantomData<T>,
}

impl<T> Id<T> {
    pub fn new(index: usize) -> (r: Self)
        ensures
            r.index == index,
    {
        Id { index, marker: PhantomData }
    }
}

impl<T> Clone for Id<T> {
    fn clone(&self) -> (r: Self)
        ensures
            r == *self,
    {
        Id { index: self.index, marker: self.marker }
    }
}

impl<T> Copy for Id<T> {}

impl<T> PartialEq for Id<T> {
    fn eq(&self, other: &Self) -> bool {
        self.index == other.index
    }
}

impl<T> vstd::std_specs::cmp::PartialEqSpecImpl for Id<T> {
    open spec fn obeys_eq_spec() -> bool {
        true
    }

    open spec fn eq_spec(&self, other: &Self) -> bool {
        self.index == other.index
    }
}

impl<T> Eq for Id<T> {}

impl<ID> Indexes<ID> for Id<ID> {
    open spec fn idx(&self) -> int {
        self.index as int
    }

    fn index(&self) -> usize {
        self.index
    }
}

} // verus!
