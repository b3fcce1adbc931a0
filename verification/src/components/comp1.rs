//! A single densely packed column of field values, row-aligned to one table.

use core::marker::PhantomData;
use vstd::prelude::*;

use crate::allocators::Id;
use crate::allocators::Indexes;
use crate::allocators::Valid;
use crate::Get1;
use crate::Insert;
use crate::StoreError;

verus! {

/// How one column insertion relates the column's rows before (`pre`) to the
/// rows after (`post`): an in-place overwrite below the length, an append at
/// it.
pub open spec fn seq_inserted<T>(pre: Seq<T>, i: int, v: T, post: Seq<T>) -> bool {
    if 0 <= i < pre.len() {
        post == pre.update(i, v)
    } else {
        post == pre.push(v)
    }
}

/// An ordered sequence of `T`, index-aligned to table `ID`'s rows.
///
/// The column only grows by single-step append; a row's value may be
/// overwritten in place but never removed. A row without a written value for
/// this column simply has no entry (its index is at or beyond the column
/// length), and lookups for such a row return absence.
#[derive(Debug)]
pub struct Comp1<ID, T> {
    pub values: Vec<T>,
    pub marker: PhantomData<ID>,
}

impl<ID, T> View for Comp1<ID, T> {
    type V = Seq<T>;

    open spec fn view(&self) -> Seq<T> {
        self.values@
    }
}

impl<ID, T> Default for Comp1<ID, T> {
    fn default() -> (r: Self)
        ensures
            r@ == Seq::<T>::empty(),
    {
        Comp1 { values: Vec::new(), marker: PhantomData }
    }
}

impl<ID, T> Comp1<ID, T> {
    /// The value at row `index`, or `None` when the row has no entry for this
    /// column.
    pub fn get_index(&self, index: usize) -> (r: Option<&T>)
        ensures
            index < self@.len() ==> (r matches Some(v) && *v == self@[index as int]),
            index >= self@.len() ==> r is None,
    {
        if index < self.values.len() {
            Some(&self.values[index])
        } else {
            None
        }
    }

    /// A mutable borrow of the value at row `index`, or `None` when the row
    /// has no entry for this column.
    pub fn get_mut_index(&mut self, index: usize) -> (r: Option<&mut T>)
        ensures
            index < old(self)@.len() ==> (r matches Some(m) && *m == old(self)@[index as int]
                && final(self)@ == old(self)@.update(index as int, *final(m))),
            index >= old(self)@.len() ==> (r is None && *final(self) == *old(self)),
    {
        if index < self.values.len() {
            Some(&mut self.values[index])
        } else {
            None
        }
    }

    /// Writes `value` at row `index`: an overwrite below the column length, an
    /// append exactly at it. An index beyond the length would break the
    /// lockstep-growth invariant and is rejected in every build configuration.
    pub fn insert_index(&mut self, index: usize, value: T) -> (r: Result<(), StoreError>)
        ensures
            r is Ok <==> index <= old(self)@.len(),
            index < old(self)@.len() ==> final(self)@ == old(self)@.update(index as int, value),
            index == old(self)@.len() ==> final(self)@ == old(self)@.push(value),
            r is Err ==> *final(self) == *old(self) && r == Err::<(), StoreError>(
                StoreError::OutOfRangeInsert,
            ),
    {
        let len = self.values.len();
        if index < len {
            self.values[index] = value;
            Ok(())
        } else if index == len {
            self.values.push(value);
            Ok(())
        } else {
            Err(StoreError::OutOfRangeInsert)
        }
    }

    /// The number of rows populated for this column.
    pub fn len(&self) -> (r: usize)
        ensures
            r == self@.len(),
    {
        self.values.len()
    }

    /// The column's values, for row-by-row reading.
    pub fn iter(&self) -> (r: &Vec<T>)
        ensures
            r@ == self@,
    {
        &self.values
    }

    /// The column's values, for row-by-row mutation.
    pub fn iter_mut(&mut self) -> (r: &mut Vec<T>)
        ensures
            r@ == old(self)@,
            final(self)@ == final(r)@,
    {
        &mut self.values
    }
}

/// What one `get_from` row receives: the value `entry` resolves to in the
/// source rows `rhs`, or the previous destination value `prev` on a miss.
pub open spec fn fetched<ID2, T>(entry: Id<ID2>, rhs: Seq<T>, prev: T) -> T {
    if entry.index < rhs.len() {
        rhs[entry.index as int]
    } else {
        prev
    }
}

/// What one `get_from_or` row receives: the value the validated `entry`
/// resolves to in the source rows `rhs`, or `fallback` on an absent or
/// unresolvable entry.
pub open spec fn resolved_or<ID2, T>(entry: Option<Id<ID2>>, rhs: Seq<T>, fallback: T) -> T {
    match entry {
        Some(id) => if id.index < rhs.len() {
            rhs[id.index as int]
        } else {
            fallback
        },
        None => fallback,
    }
}

impl<ID1, T: Copy> Comp1<ID1, T> {
    /// For each row, resolves `ids`' handle against `rhs` and copies the
    /// value across on a hit; on a miss the destination value is left
    /// unchanged, so stale data may persist. Rows beyond the shorter of the
    /// two aligned columns are untouched.
    pub fn get_from<ID2>(&mut self, rhs: &Comp1<ID2, T>, ids: &Comp1<ID1, Id<ID2>>)
        ensures
            final(self)@.len() == old(self)@.len(),
            forall|i: int|
                0 <= i < old(self)@.len() && i < ids@.len() ==> final(self)@[i] == fetched(
                    ids@[i],
                    rhs@,
                    old(self)@[i],
                ),
            forall|i: int|
                ids@.len() <= i < old(self)@.len() ==> final(self)@[i] == old(self)@[i],
    {
        let len0 = self.values.len();
        let len1 = ids.values.len();
        let n = if len0 < len1 {
            len0
        } else {
            len1
        };
        let mut i: usize = 0;
        while i < n
            invariant
                i <= n,
                n <= self@.len(),
                n <= ids@.len(),
                self@.len() == old(self)@.len(),
                forall|j: int|
                    0 <= j < i ==> self@[j] == fetched(ids@[j], rhs@, old(self)@[j]),
                forall|j: int| i <= j < self@.len() ==> self@[j] == old(self)@[j],
            decreases n - i,
        {
            let id = ids.values[i];
            if id.index < rhs.values.len() {
                self.values[i] = rhs.values[id.index];
            }
            i = i + 1;
        }
    }

    /// Like `get_from`, but sourced from a pre-validated link view: every
    /// destination row up to the shorter aligned length receives a defined
    /// value — the resolved value on a hit, `fallback` on an absent or
    /// unresolvable entry — eliminating the stale-on-miss gap.
    pub fn get_from_or<ID2>(&mut self, rhs: &Comp1<ID2, T>, ids: &Valid<ID1, ID2>, fallback: T)
        ensures
            final(self)@.len() == old(self)@.len(),
            forall|i: int|
                0 <= i < old(self)@.len() && i < ids.ids@.len() ==> final(self)@[i] == resolved_or(
                    ids.ids@[i],
                    rhs@,
                    fallback,
                ),
            forall|i: int|
                ids.ids@.len() <= i < old(self)@.len() ==> final(self)@[i] == old(self)@[i],
    {
        let len0 = self.values.len();
        let len1 = ids.ids.values.len();
        let n = if len0 < len1 {
            len0
        } else {
            len1
        };
        let mut i: usize = 0;
        while i < n
            invariant
                i <= n,
                n <= self@.len(),
                n <= ids.ids@.len(),
                self@.len() == old(self)@.len(),
                forall|j: int|
                    0 <= j < i ==> self@[j] == resolved_or(ids.ids@[j], rhs@, fallback),
                forall|j: int| i <= j < self@.len() ==> self@[j] == old(self)@[j],
            decreases n - i,
        {
            let value = match ids.ids.values[i] {
                Some(id) => if id.index < rhs.values.len() {
                    rhs.values[id.index]
                } else {
                    fallback
                },
                None => fallback,
            };
            self.values[i] = value;
            i = i + 1;
        }
    }

    /// Row-wise combinator over two aligned columns: replaces each
    /// destination row with `f` applied to it and the matching `src` row,
    /// truncating to the shorter column — column alignment is the caller's
    /// responsibility.
    pub fn zip_to_comp1<T2: Copy, F: Fn(T, T2) -> T>(&mut self, src: &Comp1<ID1, T2>, f: F)
        requires
            forall|i: int|
                0 <= i < old(self)@.len() && i < src@.len() ==> call_requires(
                    f,
                    (old(self)@[i], src@[i]),
                ),
        ensures
            final(self)@.len() == old(self)@.len(),
            forall|i: int|
                0 <= i < old(self)@.len() && i < src@.len() ==> call_ensures(
                    f,
                    (old(self)@[i], src@[i]),
                    #[trigger] final(self)@[i],
                ),
            forall|i: int|
                src@.len() <= i < old(self)@.len() ==> final(self)@[i] == old(self)@[i],
    {
        let len0 = self.values.len();
        let len1 = src.values.len();
        let n = if len0 < len1 {
            len0
        } else {
            len1
        };
        let mut i: usize = 0;
        while i < n
            invariant
                i <= n,
                n <= self@.len(),
                n <= src@.len(),
                self@.len() == old(self)@.len(),
                forall|j: int|
                    0 <= j < self@.len() && j < src@.len() ==> call_requires(
                        f,
                        (old(self)@[j], src@[j]),
                    ),
                forall|j: int|
                    0 <= j < i ==> call_ensures(
                        f,
                        (old(self)@[j], src@[j]),
                        #[trigger] self@[j],
                    ),
                forall|j: int| i <= j < self@.len() ==> self@[j] == old(self)@[j],
            decreases n - i,
        {
            let a = self.values[i];
            let b = src.values[i];
            self.values[i] = f(a, b);
            i = i + 1;
        }
    }

    /// Row-wise combinator over three aligned columns, writing into the
    /// first; truncates to the shortest column.
    pub fn zip2_to_comp1<T2: Copy, T3: Copy, F: Fn(T, T2, T3) -> T>(
        &mut self,
        s1: &Comp1<ID1, T2>,
        s2: &Comp1<ID1, T3>,
        f: F,
    )
        requires
            forall|i: int|
                0 <= i < old(self)@.len() && i < s1@.len() && i < s2@.len() ==> call_requires(
                    f,
                    (old(self)@[i], s1@[i], s2@[i]),
                ),
        ensures
            final(self)@.len() == old(self)@.len(),
            forall|i: int|
                0 <= i < old(self)@.len() && i < s1@.len() && i < s2@.len() ==> call_ensures(
                    f,
                    (old(self)@[i], s1@[i], s2@[i]),
                    #[trigger] final(self)@[i],
                ),
            forall|i: int|
                0 <= i < old(self)@.len() && !(i < s1@.len() && i < s2@.len())
                    ==> final(self)@[i] == old(self)@[i],
    {
        let mut n = self.values.len();
        if s1.values.len() < n {
            n = s1.values.len();
        }
        if s2.values.len() < n {
            n = s2.values.len();
        }
        let mut i: usize = 0;
        while i < n
            invariant
                i <= n,
                n <= self@.len(),
                n <= s1@.len(),
                n <= s2@.len(),
                self@.len() == old(self)@.len(),
                forall|j: int|
                    0 <= j < self@.len() && j < s1@.len() && j < s2@.len() ==> call_requires(
                        f,
                        (old(self)@[j], s1@[j], s2@[j]),
                    ),
                forall|j: int|
                    0 <= j < i ==> call_ensures(
                        f,
                        (old(self)@[j], s1@[j], s2@[j]),
                        #[trigger] self@[j],
                    ),
                forall|j: int| i <= j < self@.len() ==> self@[j] == old(self)@[j],
            decreases n - i,
        {
            let a = self.values[i];
            self.values[i] = f(a, s1.values[i], s2.values[i]);
            i = i + 1;
        }
    }

    /// Row-wise combinator over four aligned columns, writing into the
    /// first; truncates to the shortest column.
    pub fn zip3_to_comp1<T2: Copy, T3: Copy, T4: Copy, F: Fn(T, T2, T3, T4) -> T>(
        &mut self,
        s1: &Comp1<ID1, T2>,
        s2: &Comp1<ID1, T3>,
        s3: &Comp1<ID1, T4>,
        f: F,
    )
        requires
            forall|i: int|
                0 <= i < old(self)@.len() && i < s1@.len() && i < s2@.len() && i < s3@.len()
                    ==> call_requires(f, (old(self)@[i], s1@[i], s2@[i], s3@[i])),
        ensures
            final(self)@.len() == old(self)@.len(),
            forall|i: int|
                0 <= i < old(self)@.len() && i < s1@.len() && i < s2@.len() && i < s3@.len()
                    ==> call_ensures(
                    f,
                    (old(self)@[i], s1@[i], s2@[i], s3@[i]),
                    #[trigger] final(self)@[i],
                ),
            forall|i: int|
                0 <= i < old(self)@.len() && !(i < s1@.len() && i < s2@.len() && i < s3@.len())
                    ==> final(self)@[i] == old(self)@[i],
    {
        let mut n = self.values.len();
        if s1.values.len() < n {
            n = s1.values.len();
        }
        if s2.values.len() < n {
            n = s2.values.len();
        }
        if s3.values.len() < n {
            n = s3.values.len();
        }
        let mut i: usize = 0;
        while i < n
            invariant
                i <= n,
                n <= self@.len(),
                n <= s1@.len(),
                n <= s2@.len(),
                n <= s3@.len(),
                self@.len() == old(self)@.len(),
                forall|j: int|
                    0 <= j < self@.len() && j < s1@.len() && j < s2@.len() && j < s3@.len()
                        ==> call_requires(f, (old(self)@[j], s1@[j], s2@[j], s3@[j])),
                forall|j: int|
                    0 <= j < i ==> call_ensures(
                        f,
                        (old(self)@[j], s1@[j], s2@[j], s3@[j]),
                        #[trigger] self@[j],
                    ),
                forall|j: int| i <= j < self@.len() ==> self@[j] == old(self)@[j],
            decreases n - i,
        {
            let a = self.values[i];
            self.values[i] = f(a, s1.values[i], s2.values[i], s3.values[i]);
            i = i + 1;
        }
    }

    /// Row-wise combinator over five aligned columns, writing into the
    /// first; truncates to the shortest column.
    pub fn zip4_to_comp1<T2: Copy, T3: Copy, T4: Copy, T5: Copy, F: Fn(T, T2, T3, T4, T5) -> T>(
        &mut self,
        s1: &Comp1<ID1, T2>,
        s2: &Comp1<ID1, T3>,
        s3: &Comp1<ID1, T4>,
        s4: &Comp1<ID1, T5>,
        f: F,
    )
        requires
            forall|i: int|
                0 <= i < old(self)@.len() && i < s1@.len() && i < s2@.len() && i < s3@.len() && i
                    < s4@.len() ==> call_requires(
                    f,
                    (old(self)@[i], s1@[i], s2@[i], s3@[i], s4@[i]),
                ),
        ensures
            final(self)@.len() == old(self)@.len(),
            forall|i: int|
                0 <= i < old(self)@.len() && i < s1@.len() && i < s2@.len() && i < s3@.len() && i
                    < s4@.len() ==> call_ensures(
                    f,
                    (old(self)@[i], s1@[i], s2@[i], s3@[i], s4@[i]),
                    #[trigger] final(self)@[i],
                ),
            forall|i: int|
                0 <= i < old(self)@.len() && !(i < s1@.len() && i < s2@.len() && i < s3@.len()
                    && i < s4@.len()) ==> final(self)@[i] == old(self)@[i],
    {
        let mut n = self.values.len();
        if s1.values.len() < n {
            n = s1.values.len();
        }
        if s2.values.len() < n {
            n = s2.values.len();
        }
        if s3.values.len() < n {
            n = s3.values.len();
        }
        if s4.values.len() < n {
            n = s4.values.len();
        }
        let mut i: usize = 0;
        while i < n
            invariant
                i <= n,
                n <= self@.len(),
                n <= s1@.len(),
                n <= s2@.len(),
                n <= s3@.len(),
                n <= s4@.len(),
                self@.len() == old(self)@.len(),
                forall|j: int|
                    0 <= j < self@.len() && j < s1@.len() && j < s2@.len() && j < s3@.len() && j
                        < s4@.len() ==> call_requires(
                        f,
                        (old(self)@[j], s1@[j], s2@[j], s3@[j], s4@[j]),
                    ),
                forall|j: int|
                    0 <= j < i ==> call_ensures(
                        f,
                        (old(self)@[j], s1@[j], s2@[j], s3@[j], s4@[j]),
                        #[trigger] self@[j],
                    ),
                forall|j: int| i <= j < self@.len() ==> self@[j] == old(self)@[j],
            decreases n - i,
        {
            let a = self.values[i];
            self.values[i] = f(a, s1.values[i], s2.values[i], s3.values[i], s4.values[i]);
            i = i + 1;
        }
    }
}

/// Column round trip: a successful insertion at row `i` leaves `v` readable
/// at `i`; an insertion at an already-populated row overwrites in place — the
/// column keeps its length and no other row moves — while an insertion at
/// the fresh row appends exactly one entry.
pub proof fn lemma_insert_round_trip<ID, T>(pre: Comp1<ID, T>, id: Id<ID>, v: T, post: Comp1<
    ID,
    T,
>)
    requires
        id.index <= pre@.len(),
        seq_inserted(pre@, id.index as int, v, post@),
    ensures
        post.get_spec(id) == Some(v),
        id.index < pre@.len() ==> post@.len() == pre@.len(),
        id.index == pre@.len() ==> post@.len() == pre@.len() + 1,
        forall|j: int| 0 <= j < post@.len() && j != id.index as int ==> post@[j] == pre@[j],
{
}

impl<ID, T, I: Indexes<ID>> Insert<I, T> for Comp1<ID, T> {
    open spec fn can_insert_at(&self, id: I) -> bool {
        id.idx() <= self@.len()
    }

    open spec fn inserted(&self, id: I, value: T, post: &Self) -> bool {
        seq_inserted(self@, id.idx(), value, post@)
    }

    fn insert(&mut self, id: I, value: T) -> Result<(), StoreError> {
        self.insert_index(id.index(), value)
    }
}

impl<ID, T> Get1<Id<ID>, T> for Comp1<ID, T> {
    open spec fn get_spec(&self, id: Id<ID>) -> Option<T> {
        if id.index < self@.len() {
            Some(self@[id.index as int])
        } else {
            None
        }
    }

    fn get(&self, id: Id<ID>) -> Option<&T> {
        self.get_index(id.index)
    }

    open spec fn written(&self, id: Id<ID>, value: T, post: &Self) -> bool {
        post@ == self@.update(id.index as int, value)
    }

    fn get_mut(&mut self, id: Id<ID>) -> Option<&mut T> {
        self.get_mut_index(id.index)
    }
}

/// An absent handle transparently yields an absent value.
impl<ID, T> Get1<Option<Id<ID>>, T> for Comp1<ID, T> {
    open spec fn get_spec(&self, id: Option<Id<ID>>) -> Option<T> {
        match id {
            Some(i) => if i.index < self@.len() {
                Some(self@[i.index as int])
            } else {
                None
            },
            None => None,
        }
    }

    fn get(&self, id: Option<Id<ID>>) -> Option<&T> {
        match id {
            Some(i) => self.get_index(i.index),
            None => None,
        }
    }

    open spec fn written(&self, id: Option<Id<ID>>, value: T, post: &Self) -> bool {
        match id {
            Some(i) => post@ == self@.update(i.index as int, value),
            None => true,
        }
    }

    fn get_mut(&mut self, id: Option<Id<ID>>) -> Option<&mut T> {
        match id {
            Some(i) => self.get_mut_index(i.index),
            None => None,
        }
    }
}

} // verus!
