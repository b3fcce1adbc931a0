//! The generational allocator: reusable row handles whose staleness is
//! detectable without a scan.

use core::marker::PhantomData;
use vstd::prelude::*;

use crate::allocators::Id;
use crate::allocators::Indexes;
use crate::components::Comp1;
use crate::links::update_rel;
use crate::links::GenIds;

verus! {

/// Mints reusable handles for table `T`. Freed slots are kept on a free-list
/// stack and reused before new slots are appended; a per-slot generation
/// tells a reissued slot's current handle apart from every stale one, and a
/// table-wide `version` counter lets dependent link caches detect "possibly
/// changed" cheaply.
#[derive(Debug)]
pub struct DynamicAllocator<T> {
    pub gen: Comp1<T, Gen>,
    pub dead: Vec<Id<T>>,
    /// Monotonic epoch counter, bumped once per `kill` call — including a
    /// no-op kill of an already-dead handle. It deliberately signals
    /// "something may have changed, re-check", not "something did change".
    pub version: u64,
}

impl<T> DynamicAllocator<T> {
    /// The per-slot generation column: one entry per slot ever created.
    pub open spec fn slots(&self) -> Seq<Gen> {
        self.gen@
    }

    /// The free-list stack of dead slot indices, in the order they died.
    pub open spec fn free(&self) -> Seq<Id<T>> {
        self.dead@
    }

    /// Well-formedness: every free-listed index addresses an existing slot,
    /// and every stored generation is non-zero (generations start at 1).
    pub open spec fn wf(&self) -> bool {
        &&& forall|k: int|
            0 <= k < self.free().len() ==> self.free()[k].index < self.slots().len()
        &&& forall|i: int| 0 <= i < self.slots().len() ==> (#[trigger] self.slots()[i]).0 >= 1
    }

    /// Whether the slot at `index` currently carries generation `g`.
    pub open spec fn alive_at(&self, index: int, g: Gen) -> bool {
        0 <= index < self.slots().len() && self.slots()[index] == g
    }

    /// Whether `id` addresses its slot's current incarnation.
    pub open spec fn valid_spec(&self, id: GenId<T>) -> bool {
        self.alive_at(id.index.index as int, id.gen)
    }

    /// Whether the slot at `index` has moved past generation `g`: every
    /// handle carrying `(index, g)` is dead for good, whatever happens to the
    /// slot later.
    pub open spec fn stale_at(&self, index: int, g: Gen) -> bool {
        0 <= index < self.slots().len() && self.slots()[index].0 > g.0
    }

    /// Mints a handle: a freed slot is reused — last freed first, with its
    /// current stored generation — before a fresh slot (generation 1) is
    /// appended. The returned handle is valid immediately, and no handle that
    /// was stale before the call comes back to life.
    pub fn create(&mut self) -> (id: GenId<T>)
        requires
            old(self).wf(),
        ensures
            final(self).wf(),
            final(self).valid_spec(id),
            final(self).version == old(self).version,
            old(self).free().len() > 0 ==> {
                &&& id.index == old(self).free().last()
                &&& id.gen == old(self).slots()[id.index.index as int]
                &&& final(self).slots() == old(self).slots()
                &&& final(self).free() == old(self).free().drop_last()
            },
            old(self).free().len() == 0 ==> {
                &&& id.index.index as int == old(self).slots().len()
                &&& id.gen == (Gen(1))
                &&& final(self).slots() == old(self).slots().push(Gen(1))
                &&& final(self).free() == old(self).free()
            },
            forall|i: int, g: Gen|
                old(self).stale_at(i, g) ==> final(self).stale_at(i, g),
    {
        if let Some(index) = self.dead.pop() {
            let gen = match self.gen.get_index(index.index) {
                Some(g) => *g,
                None => Gen::default(),
            };
            GenId::new(index, gen)
        } else {
            let index = Id::new(self.gen.len());
            let gen = Gen::default();
            let r = self.gen.insert_index(index.index, gen);
            proof {
                assert(r is Ok);
                assert forall|i: int| 0 <= i < self.slots().len() implies (#[trigger] self.slots()[i]).0
                    >= 1 by {
                    if i < old(self).slots().len() {
                        assert(self.slots()[i] == old(self).slots()[i]);
                    } else {
                        assert(self.slots()[i] == Gen(1));
                    }
                }
            }
            GenId::new(index, gen)
        }
    }

    /// Kills a handle. A valid handle's slot has its generation bumped and its
    /// index pushed onto the free list, so the handle is stale from now on; a
    /// stale or out-of-range handle leaves the slots and the free list alone.
    /// Either way the `version` counter advances: a deliberate
    /// "possibly changed" signal even for a no-op kill.
    pub fn kill(&mut self, id: GenId<T>)
        requires
            old(self).wf(),
            old(self).version < u64::MAX,
            old(self).valid_spec(id) ==> id.gen.0 < u32::MAX,
        ensures
            final(self).wf(),
            final(self).version == old(self).version + 1,
            old(self).valid_spec(id) ==> {
                &&& final(self).slots() == old(self).slots().update(
                    id.index.index as int,
                    Gen((id.gen.0 + 1) as u32),
                )
                &&& final(self).free() == old(self).free().push(id.index)
                &&& final(self).stale_at(id.index.index as int, id.gen)
            },
            !old(self).valid_spec(id) ==> {
                &&& final(self).slots() == old(self).slots()
                &&& final(self).free() == old(self).free()
            },
            forall|i: int, g: Gen|
                old(self).stale_at(i, g) ==> final(self).stale_at(i, g),
    {
        if self.is_valid(&id) {
            let next = id.gen.next();
            let r = self.gen.insert_index(id.index.index, next);
            proof {
                assert(r is Ok);
            }
            self.dead.push(id.index);
        }
        self.version = self.version + 1;
    }

    /// Whether `id` addresses its slot's current incarnation: true exactly
    /// until the first successful `kill` of the slot after `id` was issued.
    pub fn is_valid(&self, id: &GenId<T>) -> (r: bool)
        ensures
            r == self.valid_spec(*id),
    {
        match self.gen.get_index(id.index.index) {
            Some(gen) => gen.0 == id.gen.0,
            None => false,
        }
    }

    /// Whether the slot at `id` currently carries generation `gen`; the
    /// index/generation-pair form of `is_valid`, used by the link sweep.
    pub fn is_alive(&self, id: Id<T>, gen: Gen) -> (r: bool)
        ensures
            r == self.alive_at(id.index as int, gen),
    {
        match self.gen.get_index(id.index) {
            Some(live) => live.0 == gen.0,
            None => false,
        }
    }

    /// Brings `ids` up to date against this allocator and hands back a
    /// read-only view of the target indices: after the forced update, every
    /// entry either matched this allocator's live generation or was cleared
    /// to the absent entry by the sweep.
    pub fn validate<ID2>(&self, ids: &mut GenIds<ID2, T>) -> (r: Valid<ID2, T>)
        requires
            old(ids).scans < u64::MAX,
        ensures
            update_rel(*old(ids), *self, *final(ids)),
            final(ids).version == self.version,
            old(ids).wf() ==> final(ids).wf(),
            r.ids@ == final(ids).ids.0@,
    {
        ids.update(self);
        Valid::new(&ids.ids.0)
    }

    /// A handle whose slot's generation has moved past it never validates
    /// again: staleness is permanent, even after the index is reissued.
    pub proof fn lemma_stale_never_valid(&self, id: GenId<T>)
        requires
            self.stale_at(id.index.index as int, id.gen),
        ensures
            !self.valid_spec(id),
    {
    }
}

impl<T> Default for DynamicAllocator<T> {
    fn default() -> (r: Self)
        ensures
            r.wf(),
            r.slots() == Seq::<Gen>::empty(),
            r.free() == Seq::<Id<T>>::empty(),
            r.version == 0,
    {
        DynamicAllocator { gen: Default::default(), dead: Vec::new(), version: 0 }
    }
}

/// An `(index, generation)` pair addressing a reusable row in table `T`.
/// Equality — as used for ordering or keying — is index-only; validity checks
/// compare both fields.
#[derive(Debug)]
pub struct GenId<T> {
    pub index: Id<T>,
    pub gen: Gen,
}

impl<T> GenId<T> {
    pub fn new(index: Id<T>, gen: Gen) -> (r: Self)
        ensures
            r.index == index,
            r.gen == gen,
    {
        GenId { index, gen }
    }
}

impl<T> Clone for GenId<T> {
    fn clone(&self) -> (r: Self)
        ensures
            r == *self,
    {
        GenId { index: self.index, gen: self.gen }
    }
}

impl<T> Copy for GenId<T> {}

impl<T> PartialEq for GenId<T> {
    fn eq(&self, other: &Self) -> bool {
        self.index.index == other.index.index
    }
}

impl<T> vstd::std_specs::cmp::PartialEqSpecImpl for GenId<T> {
    open spec fn obeys_eq_spec() -> bool {
        true
    }

    open spec fn eq_spec(&self, other: &Self) -> bool {
        self.index.index == other.index.index
    }
}

impl<T> Eq for GenId<T> {}

impl<T> Indexes<T> for GenId<T> {
    open spec fn idx(&self) -> int {
        self.index.index as int
    }

    fn index(&self) -> usize {
        self.index.index
    }
}

/// A non-zero per-slot generation counter, starting at 1 and incremented once
/// per successful `kill` on the slot.
#[derive(Debug, Clone, Copy, PartialEq, Eq, Structural, Hash, PartialOrd, Ord)]
pub struct Gen(pub u32);

impl Default for Gen {
    fn default() -> (r: Self)
        ensures
            r.0 == 1,
    {
        Gen(1)
    }
}

/// A read-only view over a link store's target indices, taken right after a
/// forced update: the filtered way to read cross-table references without
/// the stale-on-miss gap.
#[derive(Debug)]
pub struct Valid<FROM, TO> {
    pub ids: Comp1<FROM, Option<Id<TO>>>,
}

impl<FROM, TO> Valid<FROM, TO> {
    pub(crate) fn new(ids: &Comp1<FROM, Option<Id<TO>>>) -> (r: Self)
        ensures
            r.ids@ == ids@,
    {
        let n = ids.len();
        let mut values: Vec<Option<Id<TO>>> = Vec::new();
        let mut i: usize = 0;
        while i < n
            invariant
                i <= n,
                n == ids@.len(),
                values@ == ids@.subrange(0, i as int),
            decreases n - i,
        {
            values.push(ids.values[i]);
            i = i + 1;
        }
        proof {
            assert(values@ == ids@);
        }
        Valid { ids: Comp1 { values, marker: PhantomData } }
    }
}

impl Gen {
    /// The generation after one more kill of the slot.
    pub fn next(self) -> (r: Self)
        requires
            self.0 < u32::MAX,
        ensures
            r.0 == self.0 + 1,
    {
        Gen(self.0 + 1)
    }
}

} // verus!
