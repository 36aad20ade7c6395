//! Committee caches that have been built, by epoch and target root.

use vstd::prelude::*;
use crate::committee_cache::{CommitteeCache, CommitteeCacheView};
use crate::hash256::Hash256;
use crate::slot_epoch::Epoch;

verus! {

/// One entry of the shuffling cache.
#[derive(Debug)]
pub struct ShufflingEntry {
    pub epoch: Epoch,
    pub target_root: Hash256,
    pub committee_cache: CommitteeCache,
}

/// The committee caches that have been built so far. An entry, once made, is never replaced.
#[derive(Debug)]
pub struct ShufflingCache {
    entries: Vec<ShufflingEntry>,
}

/// The committee caches of `entries` by epoch and target root. Where a key occurs more than
/// once the last occurrence stands.
pub open spec fn caches_by_key(entries: Seq<ShufflingEntry>) -> Map<
    (Epoch, Hash256),
    CommitteeCacheView,
>
    decreases entries.len(),
{
    if entries.len() == 0 {
        Map::empty()
    } else {
        caches_by_key(entries.drop_last()).insert(
            (entries.last().epoch, entries.last().target_root),
            entries.last().committee_cache@,
        )
    }
}

proof fn lemma_caches_by_key_absent(entries: Seq<ShufflingEntry>, key: (Epoch, Hash256))
    requires
        forall|j: int|
            0 <= j < entries.len() ==> (entries[j].epoch, entries[j].target_root) != key,
    ensures
        !caches_by_key(entries).contains_key(key),
    decreases entries.len(),
{
    if entries.len() > 0 {
        lemma_caches_by_key_absent(entries.drop_last(), key);
    }
}

proof fn lemma_caches_by_key_present(entries: Seq<ShufflingEntry>, i: int)
    requires
        0 <= i < entries.len(),
        forall|j: int|
            i < j < entries.len() ==> (entries[j].epoch, entries[j].target_root) != (
                entries[i].epoch,
                entries[i].target_root,
            ),
    ensures
        caches_by_key(entries).contains_key((entries[i].epoch, entries[i].target_root)),
        caches_by_key(entries)[(entries[i].epoch, entries[i].target_root)]
            == entries[i].committee_cache@,
    decreases entries.len(),
{
    if i < entries.len() - 1 {
        lemma_caches_by_key_present(entries.drop_last(), i);
    }
}

proof fn lemma_caches_by_key_covers(entries: Seq<ShufflingEntry>, i: int)
    requires
        0 <= i < entries.len(),
    ensures
        caches_by_key(entries).contains_key((entries[i].epoch, entries[i].target_root)),
    decreases entries.len(),
{
    if i < entries.len() - 1 {
        lemma_caches_by_key_covers(entries.drop_last(), i);
    }
}

impl View for ShufflingCache {
    type V = Map<(Epoch, Hash256), CommitteeCacheView>;

    closed spec fn view(&self) -> Map<(Epoch, Hash256), CommitteeCacheView> {
        caches_by_key(self.entries@)
    }
}

impl ShufflingCache {
    /// No key is stored twice.
    pub closed spec fn wf(self) -> bool {
        forall|i: int, j: int|
            0 <= i < j < self.entries@.len() ==> (
                self.entries@[i].epoch,
                self.entries@[i].target_root,
            ) != (self.entries@[j].epoch, self.entries@[j].target_root)
    }

    /// A cache without entries.
    pub fn new() -> (r: ShufflingCache)
        ensures
            r.wf(),
            r@ == Map::<(Epoch, Hash256), CommitteeCacheView>::empty(),
    {
        ShufflingCache { entries: Vec::new() }
    }

    /// How many committee caches are held.
    pub fn len(&self) -> (r: usize)
        requires
            self.wf(),
        ensures
            r == self@.len(),
            self@.dom().finite(),
    {
        proof {
            Self::lemma_one_key_per_entry(self.entries@);
        }
        self.entries.len()
    }

    proof fn lemma_one_key_per_entry(entries: Seq<ShufflingEntry>)
        requires
            forall|i: int, j: int|
                0 <= i < j < entries.len() ==> (entries[i].epoch, entries[i].target_root) != (
                    entries[j].epoch,
                    entries[j].target_root,
                ),
        ensures
            caches_by_key(entries).dom().finite(),
            caches_by_key(entries).len() == entries.len(),
        decreases entries.len(),
    {
        if entries.len() > 0 {
            let rest = entries.drop_last();
            Self::lemma_one_key_per_entry(rest);
            let key = (entries.last().epoch, entries.last().target_root);
            assert forall|j: int| 0 <= j < rest.len() implies (
                rest[j].epoch,
                rest[j].target_root,
            ) != key by {
                assert(rest[j] == entries[j]);
            }
            lemma_caches_by_key_absent(rest, key);
        }
    }

    /// Whether a committee cache is held for `epoch` and `target_root`.
    pub fn contains(&self, epoch: Epoch, target_root: Hash256) -> (r: bool)
        ensures
            r == self@.contains_key((epoch, target_root)),
    {
        self.get(epoch, target_root).is_some()
    }

    /// The committee cache held for `epoch` and `target_root`, if there is one.
    pub fn get(&self, epoch: Epoch, target_root: Hash256) -> (r: Option<&CommitteeCache>)
        ensures
            r.is_some() == self@.contains_key((epoch, target_root)),
            r matches Some(cache) ==> cache@ == self@[(epoch, target_root)],
    {
        let mut i: usize = self.entries.len();
        while i > 0
            invariant
                i <= self.entries.len(),
                forall|j: int|
                    i <= j < self.entries@.len() ==> (
                        self.entries@[j].epoch,
                        self.entries@[j].target_root,
                    ) != (epoch, target_root),
            decreases i,
        {
            i -= 1;
            if self.entries[i].epoch.0 == epoch.0 && self.entries[i].target_root.same(
                &target_root,
            ) {
                proof {
                    lemma_caches_by_key_present(self.entries@, i as int);
                }
                return Some(&self.entries[i].committee_cache);
            }
        }
        proof {
            lemma_caches_by_key_absent(self.entries@, (epoch, target_root));
        }
        None
    }

    /// Files `committee_cache` under `epoch` and `target_root`, unless that key already has an
    /// entry: the first entry made under a key stays.
    pub fn insert(&mut self, epoch: Epoch, target_root: Hash256, committee_cache: CommitteeCache)
        requires
            old(self).wf(),
        ensures
            final(self).wf(),
            final(self)@ == if old(self)@.contains_key((epoch, target_root)) {
                old(self)@
            } else {
                old(self)@.insert((epoch, target_root), committee_cache@)
            },
    {
        if !self.contains(epoch, target_root) {
            let ghost before = self.entries@;
            proof {
                assert forall|j: int| 0 <= j < before.len() implies (
                    before[j].epoch,
                    before[j].target_root,
                ) != (epoch, target_root) by {
                    lemma_caches_by_key_covers(before, j);
                }
            }
            self.entries.push(ShufflingEntry { epoch, target_root, committee_cache });
            assert(self.entries@.drop_last() =~= before);
        }
    }
}

} // verus!
