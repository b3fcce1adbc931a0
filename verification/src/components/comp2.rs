//! A pair of aligned columns for jointly read and written fields.

use vstd::prelude::*;

use crate::allocators::Id;
use crate::allocators::Indexes;
use crate::allocators::Valid;
use crate::components::comp1::fetched;
use crate::components::comp1::resolved_or;
use crate::components::comp1::seq_inserted;
use crate::components::Comp1;
use crate::Get2;
use crate::Insert;
use crate::StoreError;

verus! {

/// Two parallel [`Comp1`] columns of equal length, inserted into and read
/// together, row-aligned to table `ID`.
#[derive(Debug)]
pub struct Comp2<ID, T1, T2>(pub Comp1<ID, T1>, pub Comp1<ID, T2>);

impl<ID, T1, T2> Comp2<ID, T1, T2> {
    /// The two columns grow in lockstep and stay equally long.
    pub open spec fn wf(&self) -> bool {
        self.0@.len() == self.1@.len()
    }

    /// The number of rows populated for the first column; with `wf`, for both.
    pub fn len(&self) -> (r: usize)
        ensures
            r == self.0@.len(),
    {
        self.0.len()
    }

    /// Both columns' values, for row-by-row reading.
    pub fn iter(&self) -> (r: (&Vec<T1>, &Vec<T2>))
        ensures
            r.0@ == self.0@,
            r.1@ == self.1@,
    {
        (&self.0.values, &self.1.values)
    }

    /// Both columns' values, for row-by-row mutation.
    pub fn iter_mut(&mut self) -> ((c1, c2): (&mut Vec<T1>, &mut Vec<T2>))
        ensures
            c1@ == old(self).0@,
            c2@ == old(self).1@,
            final(self).0@ == final(c1)@,
            final(self).1@ == final(c2)@,
    {
        (&mut self.0.values, &mut self.1.values)
    }
}

impl<ID, T1: Copy, T2: Copy> Comp2<ID, T1, T2> {
    /// For each row of either column, resolves `ids`' handle against the
    /// matching column of `rhs` and copies the value across on a hit; on a
    /// miss the destination value is left unchanged. Each column truncates to
    /// the shorter of itself and `ids`.
    pub fn get_from<ID2>(&mut self, rhs: &Comp2<ID2, T1, T2>, ids: Comp1<ID, Id<ID2>>)
        ensures
            final(self).0@.len() == old(self).0@.len(),
            final(self).1@.len() == old(self).1@.len(),
            forall|i: int|
                0 <= i < old(self).0@.len() && i < ids@.len() ==> final(self).0@[i]
                    == fetched(ids@[i], rhs.0@, old(self).0@[i]),
            forall|i: int|
                ids@.len() <= i < old(self).0@.len() ==> final(self).0@[i] == old(self).0@[i],
            forall|i: int|
                0 <= i < old(self).1@.len() && i < ids@.len() ==> final(self).1@[i]
                    == fetched(ids@[i], rhs.1@, old(self).1@[i]),
            forall|i: int|
                ids@.len() <= i < old(self).1@.len() ==> final(self).1@[i] == old(self).1@[i],
    {
        self.0.get_from(&rhs.0, &ids);
        self.1.get_from(&rhs.1, &ids);
    }

    /// Like `get_from`, but sourced from a pre-validated link view: every
    /// destination row up to the shorter aligned length receives a defined
    /// value — the resolved pair on a hit, `fallback` on an absent or
    /// unresolvable entry.
    pub fn get_from_or<ID2>(
        &mut self,
        rhs: &Comp2<ID2, T1, T2>,
        ids: &Valid<ID, ID2>,
        fallback: (T1, T2),
    )
        ensures
            final(self).0@.len() == old(self).0@.len(),
            final(self).1@.len() == old(self).1@.len(),
            forall|i: int|
                0 <= i < old(self).0@.len() && i < ids.ids@.len() ==> final(self).0@[i]
                    == resolved_or(ids.ids@[i], rhs.0@, fallback.0),
            forall|i: int|
                ids.ids@.len() <= i < old(self).0@.len() ==> final(self).0@[i] == old(
                    self,
                ).0@[i],
            forall|i: int|
                0 <= i < old(self).1@.len() && i < ids.ids@.len() ==> final(self).1@[i]
                    == resolved_or(ids.ids@[i], rhs.1@, fallback.1),
            forall|i: int|
                ids.ids@.len() <= i < old(self).1@.len() ==> final(self).1@[i] == old(
                    self,
                ).1@[i],
    {
        self.0.get_from_or(&rhs.0, ids, fallback.0);
        self.1.get_from_or(&rhs.1, ids, fallback.1);
    }

    /// Row-wise combinator writing into both destination columns at once:
    /// replaces each destination pair with `f` applied to it and the matching
    /// `src` row, truncating to the shortest of the three aligned columns.
    pub fn zip_to_comp2<U: Copy, F: Fn(T1, T2, U) -> (T1, T2)>(&mut self, src: &Comp1<ID, U>, f: F)
        requires
            forall|i: int|
                0 <= i < old(self).0@.len() && i < old(self).1@.len() && i < src@.len()
                    ==> call_requires(f, (old(self).0@[i], old(self).1@[i], src@[i])),
        ensures
            final(self).0@.len() == old(self).0@.len(),
            final(self).1@.len() == old(self).1@.len(),
            forall|i: int|
                0 <= i < old(self).0@.len() && i < old(self).1@.len() && i < src@.len()
                    ==> call_ensures(
                    f,
                    (old(self).0@[i], old(self).1@[i], src@[i]),
                    (#[trigger] final(self).0@[i], final(self).1@[i]),
                ),
            forall|i: int|
                0 <= i < old(self).0@.len() && !(i < old(self).1@.len() && i < src@.len())
                    ==> final(self).0@[i] == old(self).0@[i],
            forall|i: int|
                0 <= i < old(self).1@.len() && !(i < old(self).0@.len() && i < src@.len())
                    ==> final(self).1@[i] == old(self).1@[i],
    {
        let mut n = self.0.values.len();
        if self.1.values.len() < n {
            n = self.1.values.len();
        }
        if src.values.len() < n {
            n = src.values.len();
        }
        let mut i: usize = 0;
        while i < n
            invariant
                i <= n,
                n <= self.0@.len(),
                n <= self.1@.len(),
                n <= src@.len(),
                self.0@.len() == old(self).0@.len(),
                self.1@.len() == old(self).1@.len(),
                forall|j: int|
                    0 <= j < self.0@.len() && j < self.1@.len() && j < src@.len()
                        ==> call_requires(f, (old(self).0@[j], old(self).1@[j], src@[j])),
                forall|j: int|
                    0 <= j < i ==> call_ensures(
                        f,
                        (old(self).0@[j], old(self).1@[j], src@[j]),
                        (#[trigger] self.0@[j], self.1@[j]),
                    ),
                forall|j: int| i <= j < self.0@.len() ==> self.0@[j] == old(self).0@[j],
                forall|j: int| i <= j < self.1@.len() ==> self.1@[j] == old(self).1@[j],
            decreases n - i,
        {
            let a = self.0.values[i];
            let b = self.1.values[i];
            let c = src.values[i];
            let (x, y) = f(a, b, c);
            self.0.values[i] = x;
            self.1.values[i] = y;
            i = i + 1;
        }
    }
}

impl<ID, T1, T2> Default for Comp2<ID, T1, T2> {
    fn default() -> (r: Self)
        ensures
            r.0@ == Seq::<T1>::empty(),
            r.1@ == Seq::<T2>::empty(),
            r.wf(),
    {
        Comp2(Default::default(), Default::default())
    }
}

impl<ID, T1, T2, I: Indexes<ID>> Insert<I, (T1, T2)> for Comp2<ID, T1, T2> {
    open spec fn can_insert_at(&self, id: I) -> bool {
        id.idx() <= self.0@.len() && id.idx() <= self.1@.len()
    }

    open spec fn inserted(&self, id: I, value: (T1, T2), post: &Self) -> bool {
        &&& seq_inserted(self.0@, id.idx(), value.0, post.0@)
        &&& seq_inserted(self.1@, id.idx(), value.1, post.1@)
    }

    fn insert(&mut self, id: I, value: (T1, T2)) -> (r: Result<(), StoreError>) {
        let index = id.index();
        if index <= self.0.len() && index <= self.1.len() {
            let r1 = self.0.insert_index(index, value.0);
            let r2 = self.1.insert_index(index, value.1);
            proof {
                assert(r1 is Ok && r2 is Ok);
            }
            Ok(())
        } else {
            Err(StoreError::OutOfRangeInsert)
        }
    }
}

impl<ID, T1, T2> Get2<Id<ID>, T1, T2> for Comp2<ID, T1, T2> {
    open spec fn get2_spec(&self, id: Id<ID>) -> Option<(T1, T2)> {
        if id.index < self.0@.len() && id.index < self.1@.len() {
            Some((self.0@[id.index as int], self.1@[id.index as int]))
        } else {
            None
        }
    }

    fn get(&self, id: Id<ID>) -> Option<(&T1, &T2)> {
        match (self.0.get_index(id.index), self.1.get_index(id.index)) {
            (Some(v1), Some(v2)) => Some((v1, v2)),
            _ => None,
        }
    }

    open spec fn written2(&self, id: Id<ID>, v1: T1, v2: T2, post: &Self) -> bool {
        &&& post.0@ == self.0@.update(id.index as int, v1)
        &&& post.1@ == self.1@.update(id.index as int, v2)
    }

    fn get_mut(&mut self, id: Id<ID>) -> Option<(&mut T1, &mut T2)> {
        if id.index < self.0.values.len() && id.index < self.1.values.len() {
            Some((&mut self.0.values[id.index], &mut self.1.values[id.index]))
        } else {
            None
        }
    }
}

/// An absent handle transparently yields an absent pair.
impl<ID, T1, T2> Get2<Option<Id<ID>>, T1, T2> for Comp2<ID, T1, T2> {
    open spec fn get2_spec(&self, id: Option<Id<ID>>) -> Option<(T1, T2)> {
        match id {
            Some(i) => if i.index < self.0@.len() && i.index < self.1@.len() {
                Some((self.0@[i.index as int], self.1@[i.index as int]))
            } else {
                None
            },
            None => None,
        }
    }

    fn get(&self, id: Option<Id<ID>>) -> Option<(&T1, &T2)> {
        match id {
            Some(i) => match (self.0.get_index(i.index), self.1.get_index(i.index)) {
                (Some(v1), Some(v2)) => Some((v1, v2)),
                _ => None,
            },
            None => None,
        }
    }

    open spec fn written2(&self, id: Option<Id<ID>>, v1: T1, v2: T2, post: &Self) -> bool {
        match id {
            Some(i) => {
                &&& post.0@ == self.0@.update(i.index as int, v1)
                &&& post.1@ == self.1@.update(i.index as int, v2)
            },
            None => true,
        }
    }

    fn get_mut(&mut self, id: Option<Id<ID>>) -> Option<(&mut T1, &mut T2)> {
        match id {
            Some(i) => if i.index < self.0.values.len() && i.index < self.1.values.len() {
                Some((&mut self.0.values[i.index], &mut self.1.values[i.index]))
            } else {
                None
            },
            None => None,
        }
    }
}

} // verus!
