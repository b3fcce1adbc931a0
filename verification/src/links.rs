//! Cross-table links: per-row references to generational handles in another
//! table, with lazy, amortized invalidation of dangling entries.

use vstd::prelude::*;

use crate::allocators::DynamicAllocator;
use crate::allocators::Gen;
use crate::allocators::GenId;
use crate::allocators::Id;
use crate::allocators::Indexes;
use crate::components::comp1::seq_inserted;
use crate::components::Comp2;
use crate::Insert;
use crate::StoreError;

verus! {

/// Whether a stored `(index, generation)` entry matches the live generation
/// recorded by the target table's allocator.
pub open spec fn entry_live<TO>(
    id: Option<Id<TO>>,
    g: Option<Gen>,
    alloc: DynamicAllocator<TO>,
) -> bool {
    &&& id is Some
    &&& g is Some
    &&& alloc.alive_at(id->0.index as int, g->0)
}

/// How one call of [`GenIds::update`] relates the link store before (`pre`)
/// to the store after (`post`), against the target allocator `alloc`. An
/// unchanged allocator version is an exact no-op; a changed one is one full
/// sweep that clears every entry no longer matching the allocator to
/// `(None, None)` and records the allocator's version.
pub open spec fn update_rel<FROM, TO>(
    pre: GenIds<FROM, TO>,
    alloc: DynamicAllocator<TO>,
    post: GenIds<FROM, TO>,
) -> bool {
    if pre.version == alloc.version {
        post == pre
    } else {
        &&& post.version == alloc.version
        &&& post.scans == pre.scans + 1
        &&& post.ids.0@.len() == pre.ids.0@.len()
        &&& post.ids.1@.len() == pre.ids.1@.len()
        &&& forall|i: int|
            0 <= i < pre.ids.0@.len() && i < pre.ids.1@.len() ==> {
                if entry_live(pre.ids.0@[i], pre.ids.1@[i], alloc) {
                    post.ids.0@[i] == pre.ids.0@[i] && post.ids.1@[i] == pre.ids.1@[i]
                } else {
                    post.ids.0@[i] is None && post.ids.1@[i] is None
                }
            }
    }
}

/// Whether every stored entry is `(None, None)` or matches the live
/// generation recorded by `alloc`: what one sweep establishes.
pub open spec fn synced<FROM, TO>(ids: GenIds<FROM, TO>, alloc: DynamicAllocator<TO>) -> bool {
    forall|i: int|
        0 <= i < ids.ids.0@.len() && i < ids.ids.1@.len() ==> {
            entry_live(ids.ids.0@[i], ids.ids.1@[i], alloc) || (ids.ids.0@[i] is None
                && ids.ids.1@[i] is None)
        }
}

/// A foreign-key-like relation from rows of table `FROM` to generational
/// handles in table `TO`. Entries may lag behind reality between updates —
/// the staleness window is intentional; a caller requiring freshness goes
/// through `update` or the allocator's `validate`.
#[derive(Debug)]
pub struct GenIds<FROM, TO> {
    /// Per `FROM`-row, the optional target index and the generation it was
    /// stored with.
    pub ids: Comp2<FROM, Option<Id<TO>>, Option<Gen>>,
    /// The target allocator's version as of the last sweep.
    pub version: u64,
    /// How many sweeps have run; an unchanged counter shows an update did no
    /// sweep work.
    pub scans: u64,
}

impl<FROM, TO> GenIds<FROM, TO> {
    /// The two link columns stay equally long.
    pub open spec fn wf(&self) -> bool {
        self.ids.wf()
    }

    /// Brings the link store up to date against the target allocator: an
    /// O(1) no-op when the allocator's version is unchanged since the last
    /// sweep, else one full sweep clearing every dangling entry.
    pub fn update(&mut self, alloc: &DynamicAllocator<TO>)
        requires
            old(self).scans < u64::MAX,
        ensures
            update_rel(*old(self), *alloc, *final(self)),
            final(self).version == alloc.version,
            old(self).wf() ==> final(self).wf(),
    {
        if alloc.version != self.version {
            self.remove_invalid_indices(alloc);
            self.version = alloc.version;
        }
    }

    /// One linear sweep: clears every stored entry whose `(index, generation)`
    /// no longer matches the target allocator to `(None, None)`.
    fn remove_invalid_indices(&mut self, alloc: &DynamicAllocator<TO>)
        requires
            old(self).scans < u64::MAX,
        ensures
            final(self).version == old(self).version,
            final(self).scans == old(self).scans + 1,
            final(self).ids.0@.len() == old(self).ids.0@.len(),
            final(self).ids.1@.len() == old(self).ids.1@.len(),
            forall|i: int|
                0 <= i < old(self).ids.0@.len() && i < old(self).ids.1@.len() ==> {
                    if entry_live(old(self).ids.0@[i], old(self).ids.1@[i], *alloc) {
                        final(self).ids.0@[i] == old(self).ids.0@[i] && final(self).ids.1@[i]
                            == old(self).ids.1@[i]
                    } else {
                        final(self).ids.0@[i] is None && final(self).ids.1@[i] is None
                    }
                },
    {
        let len0 = self.ids.0.len();
        let len1 = self.ids.1.len();
        let n = if len0 < len1 {
            len0
        } else {
            len1
        };
        let mut i: usize = 0;
        while i < n
            invariant
                i <= n,
                n <= self.ids.0@.len(),
                n <= self.ids.1@.len(),
                self.ids.0@.len() == old(self).ids.0@.len(),
                self.ids.1@.len() == old(self).ids.1@.len(),
                self.version == old(self).version,
                self.scans == old(self).scans,
                forall|j: int|
                    0 <= j < i ==> {
                        if entry_live(old(self).ids.0@[j], old(self).ids.1@[j], *alloc) {
                            self.ids.0@[j] == old(self).ids.0@[j] && self.ids.1@[j] == old(
                                self,
                            ).ids.1@[j]
                        } else {
                            self.ids.0@[j] is None && self.ids.1@[j] is None
                        }
                    },
                forall|j: int|
                    i <= j < self.ids.0@.len() ==> self.ids.0@[j] == old(self).ids.0@[j],
                forall|j: int|
                    i <= j < self.ids.1@.len() ==> self.ids.1@[j] == old(self).ids.1@[j],
            decreases n - i,
        {
            let keep = match (self.ids.0.values[i], self.ids.1.values[i]) {
                (Some(id), Some(g)) => alloc.is_alive(id, g),
                _ => false,
            };
            if !keep {
                self.ids.0.values[i] = None;
                self.ids.1.values[i] = None;
            }
            i = i + 1;
        }
        self.scans = self.scans + 1;
    }
}

impl<FROM, TO> Default for GenIds<FROM, TO> {
    fn default() -> (r: Self)
        ensures
            r.ids.0@ == Seq::<Option<Id<TO>>>::empty(),
            r.ids.1@ == Seq::<Option<Gen>>::empty(),
            r.version == 0,
            r.scans == 0,
            r.wf(),
    {
        GenIds { ids: Default::default(), version: 0, scans: 0 }
    }
}

/// Stores a live reference: the handle's index and generation, split across
/// the two link columns.
impl<FROM, TO, I: Indexes<FROM>> Insert<I, GenId<TO>> for GenIds<FROM, TO> {
    open spec fn can_insert_at(&self, id: I) -> bool {
        id.idx() <= self.ids.0@.len() && id.idx() <= self.ids.1@.len()
    }

    open spec fn inserted(&self, id: I, value: GenId<TO>, post: &Self) -> bool {
        &&& seq_inserted(self.ids.0@, id.idx(), Some(value.index), post.ids.0@)
        &&& seq_inserted(self.ids.1@, id.idx(), Some(value.gen), post.ids.1@)
        &&& post.version == self.version
        &&& post.scans == self.scans
    }

    fn insert(&mut self, id: I, value: GenId<TO>) -> (r: Result<(), StoreError>) {
        self.ids.insert(id, (Some(value.index), Some(value.gen)))
    }
}

/// Stores an optional reference: `None` becomes the absent entry
/// `(None, None)`.
impl<FROM, TO, I: Indexes<FROM>> Insert<I, Option<GenId<TO>>> for GenIds<FROM, TO> {
    open spec fn can_insert_at(&self, id: I) -> bool {
        id.idx() <= self.ids.0@.len() && id.idx() <= self.ids.1@.len()
    }

    open spec fn inserted(&self, id: I, value: Option<GenId<TO>>, post: &Self) -> bool {
        &&& seq_inserted(
            self.ids.0@,
            id.idx(),
            match value {
                Some(v) => Some(v.index),
                None => None,
            },
            post.ids.0@,
        )
        &&& seq_inserted(
            self.ids.1@,
            id.idx(),
            match value {
                Some(v) => Some(v.gen),
                None => None,
            },
            post.ids.1@,
        )
        &&& post.version == self.version
        &&& post.scans == self.scans
    }

    fn insert(&mut self, id: I, value: Option<GenId<TO>>) -> (r: Result<(), StoreError>) {
        let pair = match value {
            Some(v) => (Some(v.index), Some(v.gen)),
            None => (None, None),
        };
        self.ids.insert(id, pair)
    }
}

/// Updating twice against an unchanged allocator is idempotent: the second
/// update leaves the link store — sweep counter included — identical, and
/// does no sweep work.
pub proof fn lemma_update_idempotent<FROM, TO>(
    pre: GenIds<FROM, TO>,
    alloc: DynamicAllocator<TO>,
    mid: GenIds<FROM, TO>,
    post: GenIds<FROM, TO>,
)
    requires
        update_rel(pre, alloc, mid),
        update_rel(mid, alloc, post),
    ensures
        post == mid,
{
    assert(mid.version == alloc.version);
}

/// A sweep self-heals the store: once an update actually sweeps, every entry
/// either matches the target allocator's live generation or is `(None, None)`
/// — in particular, every entry left dangling by a kill is cleared.
pub proof fn lemma_update_clears_stale<FROM, TO>(
    pre: GenIds<FROM, TO>,
    alloc: DynamicAllocator<TO>,
    post: GenIds<FROM, TO>,
)
    requires
        update_rel(pre, alloc, post),
        pre.version != alloc.version,
    ensures
        synced(post, alloc),
{
}

} // verus!
