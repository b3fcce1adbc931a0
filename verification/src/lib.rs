//! A typed, columnar in-memory storage engine.
//!
//! Entities are grouped into independent tables, addressed by handles that are
//! either permanent ([`allocators::Id`], minted by [`allocators::FixedAllocator`])
//! or generational ([`allocators::GenId`], minted by [`allocators::DynamicAllocator`],
//! with staleness detectable without a scan). Fields live in densely packed,
//! row-aligned columns ([`components::Comp1`], [`components::Comp2`]) with
//! row-wise combinators, and cross-table references ([`links::GenIds`]) heal
//! lazily once the referenced row dies.

use vstd::prelude::*;

pub mod allocators;
pub mod components;
pub mod links;

verus! {

/// Reported when a column operation is structurally misused.
#[derive(Debug, Clone, Copy, PartialEq, Eq, Structural)]
pub enum StoreError {
    /// An insertion at a row index beyond the column's current length.
    /// Columns only grow by single-step append, in lockstep with their
    /// owning allocator.
    OutOfRangeInsert,
}

/// Row-aligned insertion keyed by a table handle.
///
/// An insertion at a row equal to the column length appends; below the length
/// it overwrites in place; beyond the length it is rejected with
/// [`StoreError::OutOfRangeInsert`] and leaves the store unchanged.
pub trait Insert<I, T>: Sized {
    /// Whether `id` addresses a row that may be written: an existing row, or
    /// the next fresh one.
    spec fn can_insert_at(&self, id: I) -> bool;

    /// How a successful insertion of `value` at `id` relates the store before
    /// (`self`) to the store after (`post`).
    spec fn inserted(&self, id: I, value: T, post: &Self) -> bool;

    fn insert(&mut self, id: I, value: T) -> (r: Result<(), StoreError>)
        ensures
            r is Ok <==> old(self).can_insert_at(id),
            r is Ok ==> old(self).inserted(id, value, final(self)),
            r is Err ==> *final(self) == *old(self) && r == Err::<(), StoreError>(
                StoreError::OutOfRangeInsert,
            ),
    ;
}

/// Row lookup of a single field, keyed by a table handle.
///
/// A lookup on a row never populated for the column is an expected condition
/// and yields absence, not an error.
pub trait Get1<ID, T>: Sized {
    /// The value stored for `id`, or `None` when the row has no entry.
    spec fn get_spec(&self, id: ID) -> Option<T>;

    fn get(&self, id: ID) -> (r: Option<&T>)
        ensures
            match r {
                Some(v) => self.get_spec(id) == Some(*v),
                None => self.get_spec(id) is None,
            },
    ;

    /// How a write through the mutable borrow handed out for `id` relates the
    /// store before (`self`) to the store after (`post`).
    spec fn written(&self, id: ID, value: T, post: &Self) -> bool;

    fn get_mut(&mut self, id: ID) -> (r: Option<&mut T>)
        ensures
            match r {
                Some(m) => old(self).get_spec(id) == Some(*m) && old(self).written(
                    id,
                    *final(m),
                    final(self),
                ),
                None => old(self).get_spec(id) is None && *final(self) == *old(self),
            },
    ;
}

/// Row lookup of a pair of jointly stored fields, keyed by a table handle.
pub trait Get2<ID, T1, T2>: Sized {
    /// The pair stored for `id`, or `None` when either column has no entry.
    spec fn get2_spec(&self, id: ID) -> Option<(T1, T2)>;

    fn get(&self, id: ID) -> (r: Option<(&T1, &T2)>)
        ensures
            match r {
                Some(v) => self.get2_spec(id) == Some((*v.0, *v.1)),
                None => self.get2_spec(id) is None,
            },
    ;

    /// How a write through the pair of mutable borrows handed out for `id`
    /// relates the store before (`self`) to the store after (`post`).
    spec fn written2(&self, id: ID, v1: T1, v2: T2, post: &Self) -> bool;

    fn get_mut(&mut self, id: ID) -> (r: Option<(&mut T1, &mut T2)>)
        ensures
            match r {
                Some(m) => old(self).get2_spec(id) == Some((*m.0, *m.1)) && old(self).written2(
                    id,
                    *final(m.0),
                    *final(m.1),
                    final(self),
                ),
                None => old(self).get2_spec(id) is None && *final(self) == *old(self),
            },
    ;
}

} // verus!
