//! A bounded store of blocks by hash, which forgets the block that was asked
//! for least recently.

use crate::btsieve::Block;
use crate::bytes::bytes_eq;
use vstd::prelude::*;

verus! {

/// Blocks by hash, at most `capacity` of them.
#[derive(Debug)]
pub struct BlockCache {
    capacity: usize,
    /// The blocks held, the one used least recently first.
    entries: Vec<Block>,
}

/// Where the block with hash `hash` stands among `entries`.
pub open spec fn position_of(entries: Seq<Block>, hash: [u8; 32], index: int) -> bool {
    0 <= index < entries.len() && entries[index].hash == hash
}

/// Whether no two of `entries` have the same hash.
pub open spec fn distinct(entries: Seq<Block>) -> bool {
    forall|i: int, j: int|
        0 <= i < j < entries.len() ==> (#[trigger] entries[i]).hash != (#[trigger] entries[j]).hash
}

/// The blocks held after the one at `index` was used: it is now the one used
/// most recently.
pub open spec fn refreshed(entries: Seq<Block>, index: int) -> Seq<Block> {
    entries.remove(index).push(entries[index])
}

/// The blocks held after `block` was put into a store of `capacity` blocks:
/// it takes the place of a block with the same hash, or else, in a full
/// store, of the block used least recently.
pub open spec fn with_block(entries: Seq<Block>, capacity: int, block: Block) -> Seq<Block> {
    if capacity <= 0 {
        entries
    } else if exists|index: int| position_of(entries, block.hash, index) {
        let index = choose|index: int| position_of(entries, block.hash, index);
        entries.remove(index).push(block)
    } else if entries.len() >= capacity {
        entries.drop_first().push(block)
    } else {
        entries.push(block)
    }
}

impl BlockCache {
    /// The number of blocks the store can hold at most, in specifications.
    pub closed spec fn spec_capacity(self) -> usize {
        self.capacity
    }

    /// The blocks held, the one used least recently first.
    pub closed spec fn spec_entries(self) -> Seq<Block> {
        self.entries@
    }

    /// The store holds no more blocks than it may, and no two with the same
    /// hash.
    #[verifier::type_invariant]
    spec fn sound(self) -> bool {
        self.entries@.len() <= self.capacity && distinct(self.entries@)
    }

    /// An empty store for at most `capacity` blocks.
    pub fn new(capacity: usize) -> (r: BlockCache)
        ensures
            r.spec_capacity() == capacity,
            r.spec_entries() == Seq::<Block>::empty(),
    {
        BlockCache { capacity, entries: Vec::new() }
    }

    /// The number of blocks the store can hold at most.
    pub fn capacity(&self) -> (r: usize)
        ensures
            r == self.spec_capacity(),
    {
        self.capacity
    }

    /// The number of blocks held, which is never more than the store may
    /// hold. No two of the blocks have the same hash.
    pub fn len(&self) -> (r: usize)
        ensures
            r == self.spec_entries().len(),
            r <= self.spec_capacity(),
            distinct(self.spec_entries()),
    {
        proof {
            use_type_invariant(self);
        }
        self.entries.len()
    }

    /// Where the block with hash `hash` stands.
    fn find(&self, hash: &[u8; 32]) -> (r: Option<usize>)
        ensures
            r is None ==> forall|index: int| !position_of(self.spec_entries(), *hash, index),
            r matches Some(index) ==> position_of(self.spec_entries(), *hash, index as int),
    {
        let mut i: usize = 0;
        while i < self.entries.len()
            invariant
                i <= self.entries@.len(),
                forall|index: int| 0 <= index < i ==> !position_of(self.entries@, *hash, index),
            decreases self.entries@.len() - i,
        {
            if bytes_eq(&self.entries[i].hash, hash) {
                assert(self.entries@[i as int].hash =~= *hash);
                return Some(i);
            }
            i += 1;
        }
        None
    }

    /// Whether the store holds the block with hash `hash`. The store is left
    /// as it is.
    pub fn contains(&self, hash: &[u8; 32]) -> (r: bool)
        ensures
            r == exists|index: int| position_of(self.spec_entries(), *hash, index),
    {
        self.find(hash).is_some()
    }

    /// The block with hash `hash`, if the store holds it: never a block with
    /// another hash. The block counts as used.
    pub fn get(&mut self, hash: &[u8; 32]) -> (r: Option<&Block>)
        ensures
            final(self).spec_capacity() == old(self).spec_capacity(),
            r is Some <==> exists|index: int| position_of(old(self).spec_entries(), *hash, index),
            r is None ==> final(self).spec_entries() == old(self).spec_entries(),
            r matches Some(block) ==> block.hash == *hash && exists|index: int|
                {
                    &&& #[trigger] position_of(old(self).spec_entries(), *hash, index)
                    &&& *block == old(self).spec_entries()[index]
                    &&& final(self).spec_entries() == refreshed(old(self).spec_entries(), index)
                },
    {
        proof {
            use_type_invariant(&*self);
        }
        match self.find(hash) {
            Some(index) => {
                let ghost before = self.entries@;
                proof {
                    lemma_refresh_keeps_distinct(before, index as int);
                    assert(position_of(before, *hash, index as int));
                    lemma_remove_keeps_distinct(before, index as int);
                }
                let mut entries: Vec<Block> = Vec::new();
                core::mem::swap(&mut self.entries, &mut entries);
                let block = entries.remove(index);
                entries.push(block);
                self.entries = entries;
                let last = self.entries.len() - 1;
                Some(&self.entries[last])
            },
            None => None,
        }
    }

    /// Puts `block` into the store. It takes the place of a block with the
    /// same hash, so that the store never holds two blocks for one hash; in
    /// a full store it else takes the place of the block used least
    /// recently. A store without room stays empty.
    pub fn insert(&mut self, block: Block)
        ensures
            final(self).spec_capacity() == old(self).spec_capacity(),
            final(self).spec_entries() == with_block(
                old(self).spec_entries(),
                old(self).spec_capacity() as int,
                block,
            ),
            old(self).spec_capacity() > 0 ==> final(self).spec_entries().last() == block,
    {
        proof {
            use_type_invariant(&*self);
        }
        if self.capacity == 0 {
            return ;
        }
        let ghost before = self.entries@;
        assert(self.spec_entries() == before);
        match self.find(&block.hash) {
            Some(index) => {
                proof {
                    let chosen = choose|i: int| position_of(before, block.hash, i);
                    assert(chosen == index as int) by {
                        if chosen < index as int {
                            assert(before[chosen].hash != before[index as int].hash);
                        } else if chosen > index as int {
                            assert(before[index as int].hash != before[chosen].hash);
                        }
                    }
                    lemma_replace_keeps_distinct(before, index as int, block);
                    lemma_remove_keeps_distinct(before, index as int);
                }
                let mut entries: Vec<Block> = Vec::new();
                core::mem::swap(&mut self.entries, &mut entries);
                let _ = entries.remove(index);
                entries.push(block);
                self.entries = entries;
            },
            None => {
                if self.entries.len() >= self.capacity {
                    proof {
                        lemma_remove_keeps_distinct(before, 0);
                    }
                    let mut entries: Vec<Block> = Vec::new();
                    core::mem::swap(&mut self.entries, &mut entries);
                    let _ = entries.remove(0);
                    assert(entries@ =~= before.drop_first());
                    entries.push(block);
                    assert(distinct(entries@)) by {
                        let after = entries@;
                        assert forall|i: int, j: int| 0 <= i < j < after.len() implies (
                        #[trigger] after[i]).hash != (#[trigger] after[j]).hash by {
                            if j == after.len() - 1 {
                                assert(!position_of(before, block.hash, i + 1));
                            } else {
                                assert(before[i + 1].hash != before[j + 1].hash);
                            }
                        }
                    }
                    self.entries = entries;
                } else {
                    let mut entries: Vec<Block> = Vec::new();
                    core::mem::swap(&mut self.entries, &mut entries);
                    entries.push(block);
                    assert(distinct(entries@)) by {
                        let after = entries@;
                        assert forall|i: int, j: int| 0 <= i < j < after.len() implies (
                        #[trigger] after[i]).hash != (#[trigger] after[j]).hash by {
                            if j == after.len() - 1 {
                                assert(!position_of(before, block.hash, i));
                            } else {
                                assert(before[i].hash != before[j].hash);
                            }
                        }
                    }
                    self.entries = entries;
                }
            },
        }
    }
}

/// Taking a block out keeps the hashes of the blocks held apart.
proof fn lemma_remove_keeps_distinct(entries: Seq<Block>, index: int)
    requires
        distinct(entries),
        0 <= index < entries.len(),
    ensures
        distinct(entries.remove(index)),
{
    let after = entries.remove(index);
    assert forall|i: int, j: int| 0 <= i < j < after.len() implies (#[trigger] after[i]).hash != (
    #[trigger] after[j]).hash by {
        let from_i = if i < index {
            i
        } else {
            i + 1
        };
        let from_j = if j < index {
            j
        } else {
            j + 1
        };
        assert(after[i] == entries[from_i]);
        assert(after[j] == entries[from_j]);
        assert(entries[from_i].hash != entries[from_j].hash);
    }
}

/// Using a block keeps the hashes of the blocks held apart.
proof fn lemma_refresh_keeps_distinct(entries: Seq<Block>, index: int)
    requires
        distinct(entries),
        0 <= index < entries.len(),
    ensures
        distinct(refreshed(entries, index)),
        refreshed(entries, index).len() == entries.len(),
{
    lemma_replace_keeps_distinct(entries, index, entries[index]);
}

/// Putting a block in the place of the one with its hash keeps the hashes of
/// the blocks held apart.
proof fn lemma_replace_keeps_distinct(entries: Seq<Block>, index: int, block: Block)
    requires
        distinct(entries),
        0 <= index < entries.len(),
        entries[index].hash == block.hash,
    ensures
        distinct(entries.remove(index).push(block)),
        entries.remove(index).push(block).len() == entries.len(),
{
    let after = entries.remove(index).push(block);
    assert forall|i: int, j: int| 0 <= i < j < after.len() implies (#[trigger] after[i]).hash != (
    #[trigger] after[j]).hash by {
        let from_i = if i < index {
            i
        } else {
            i + 1
        };
        if j == after.len() - 1 {
            assert(after[i] == entries[from_i]);
            if from_i < index {
                assert(entries[from_i].hash != entries[index].hash);
            } else {
                assert(entries[index].hash != entries[from_i].hash);
            }
        } else {
            let from_j = if j < index {
                j
            } else {
                j + 1
            };
            assert(after[i] == entries[from_i]);
            assert(after[j] == entries[from_j]);
            assert(entries[from_i].hash != entries[from_j].hash);
        }
    }
}

} // verus!
