//! The index of the blocks that fork choice knows.

use vstd::prelude::*;
use crate::hash256::Hash256;
use crate::slot_epoch::Slot;

verus! {

/// What fork choice keeps of a block.
#[derive(Clone, Copy, Debug, PartialEq, Eq)]
pub struct ProtoBlock {
    pub slot: Slot,
    pub root: Hash256,
    pub state_root: Hash256,
}

/// The blocks known to fork choice: every block that was imported and is not older than the
/// finalized checkpoint.
#[derive(Debug)]
pub struct ForkChoice {
    blocks: Vec<ProtoBlock>,
}

/// The blocks of `blocks` by root. Where a root occurs more than once the last occurrence
/// stands.
pub open spec fn blocks_by_root(blocks: Seq<ProtoBlock>) -> Map<Hash256, ProtoBlock>
    decreases blocks.len(),
{
    if blocks.len() == 0 {
        Map::empty()
    } else {
        blocks_by_root(blocks.drop_last()).insert(blocks.last().root, blocks.last())
    }
}

proof fn lemma_blocks_by_root_absent(blocks: Seq<ProtoBlock>, root: Hash256)
    requires
        forall|j: int| 0 <= j < blocks.len() ==> blocks[j].root != root,
    ensures
        !blocks_by_root(blocks).contains_key(root),
    decreases blocks.len(),
{
    if blocks.len() > 0 {
        lemma_blocks_by_root_absent(blocks.drop_last(), root);
    }
}

proof fn lemma_blocks_by_root_present(blocks: Seq<ProtoBlock>, i: int)
    requires
        0 <= i < blocks.len(),
        forall|j: int| i < j < blocks.len() ==> blocks[j].root != blocks[i].root,
    ensures
        blocks_by_root(blocks).contains_key(blocks[i].root),
        blocks_by_root(blocks)[blocks[i].root] == blocks[i],
    decreases blocks.len(),
{
    if i < blocks.len() - 1 {
        lemma_blocks_by_root_present(blocks.drop_last(), i);
    }
}

proof fn lemma_blocks_by_root_covers(blocks: Seq<ProtoBlock>, i: int)
    requires
        0 <= i < blocks.len(),
    ensures
        blocks_by_root(blocks).contains_key(blocks[i].root),
    decreases blocks.len(),
{
    if i < blocks.len() - 1 {
        lemma_blocks_by_root_covers(blocks.drop_last(), i);
    }
}

impl View for ForkChoice {
    type V = Map<Hash256, ProtoBlock>;

    closed spec fn view(&self) -> Map<Hash256, ProtoBlock> {
        blocks_by_root(self.blocks@)
    }
}

impl ForkChoice {
    /// No root is stored twice.
    pub closed spec fn wf(self) -> bool {
        forall|i: int, j: int|
            0 <= i < j < self.blocks@.len() ==> self.blocks@[i].root != self.blocks@[j].root
    }

    /// An index that knows no block.
    pub fn new() -> (r: ForkChoice)
        ensures
            r.wf(),
            r@ == Map::<Hash256, ProtoBlock>::empty(),
    {
        ForkChoice { blocks: Vec::new() }
    }

    /// Whether a block with root `root` is known.
    pub fn contains_block(&self, root: &Hash256) -> (r: bool)
        ensures
            r == self@.contains_key(*root),
    {
        self.get_block(root).is_some()
    }

    /// The block with root `root`, if it is known.
    pub fn get_block(&self, root: &Hash256) -> (r: Option<ProtoBlock>)
        ensures
            r == if self@.contains_key(*root) {
                Some(self@[*root])
            } else {
                None
            },
            r matches Some(block) ==> block.root == *root,
    {
        let mut i: usize = self.blocks.len();
        while i > 0
            invariant
                i <= self.blocks.len(),
                forall|j: int| i <= j < self.blocks@.len() ==> self.blocks@[j].root != *root,
            decreases i,
        {
            i -= 1;
            if self.blocks[i].root.same(root) {
                proof {
                    lemma_blocks_by_root_present(self.blocks@, i as int);
                }
                return Some(self.blocks[i]);
            }
        }
        proof {
            lemma_blocks_by_root_absent(self.blocks@, *root);
        }
        None
    }

    /// Makes `block` known, unless a block with its root already is. Returns whether the block
    /// was added.
    pub fn insert_block(&mut self, block: ProtoBlock) -> (r: bool)
        requires
            old(self).wf(),
        ensures
            final(self).wf(),
            r == !old(self)@.contains_key(block.root),
            final(self)@ == if r {
                old(self)@.insert(block.root, block)
            } else {
                old(self)@
            },
    {
        if self.contains_block(&block.root) {
            false
        } else {
            let ghost before = self.blocks@;
            proof {
                assert forall|j: int| 0 <= j < before.len() implies before[j].root
                    != block.root by {
                    lemma_blocks_by_root_covers(before, j);
                }
            }
            self.blocks.push(block);
            assert(self.blocks@.drop_last() =~= before);
            true
        }
    }
}

} // verus!
