//! A chain of blocks that grows only by blocks that follow its last one.

use vstd::prelude::*;
use crate::block::{Block, BlockData};

verus! {

/// Whether each block of `blocks` after the first follows the one before it.
pub open spec fn is_linked(blocks: Seq<Block>) -> bool {
    forall|i: int| 1 <= i < blocks.len() ==> (#[trigger] blocks[i]).follows(blocks[i - 1])
}

/// The last `n` blocks of `blocks` (all of them when there are fewer), in
/// chain order.
pub open spec fn chain_tail(blocks: Seq<Block>, n: nat) -> Seq<Block> {
    if n >= blocks.len() {
        blocks
    } else {
        blocks.subrange(blocks.len() - n, blocks.len() as int)
    }
}

/// A chain of blocks, the genesis block first.
#[derive(Debug)]
pub struct BlockChain {
    pub blocks: Vec<Block>,
}

impl BlockChain {
    /// A chain that holds only `genesis`.
    pub fn new(genesis: Block) -> (r: BlockChain)
        ensures
            r.blocks@ == seq![genesis],
    {
        let mut blocks: Vec<Block> = Vec::new();
        blocks.push(genesis);
        BlockChain { blocks }
    }

    /// Appends `block` when it follows the last block, and says whether it
    /// did; otherwise the chain is left as it was.
    pub fn add_block(&mut self, block: Block) -> (r: bool)
        requires
            old(self).blocks.len() > 0,
            old(self).blocks@.last().index < u64::MAX,
        ensures
            r == block.follows(old(self).blocks@.last()),
            r ==> final(self).blocks@ == old(self).blocks@.push(block),
            !r ==> final(self).blocks@ == old(self).blocks@,
    {
        let n = self.blocks.len();
        if !block.validate_previous(&self.blocks[n - 1]) {
            return false;
        }
        self.blocks.push(block);
        true
    }

    /// Builds the block that follows the last one, with `data` and the
    /// current time, appends it and returns a copy of it.
    pub fn append_data(&mut self, data: BlockData) -> (r: Block)
        requires
            old(self).blocks.len() > 0,
            old(self).blocks@.last().index < u64::MAX,
        ensures
            r.is_made_of(
                (old(self).blocks@.last().index + 1) as u64,
                data,
                old(self).blocks@.last().hash,
                r.timestamp,
            ),
            r.timestamp.nanos < 1_000_000_000,
            final(self).blocks@ == old(self).blocks@.push(r),
    {
        let n = self.blocks.len();
        let block = Block::from_previous(&self.blocks[n - 1], data);
        let reply = block.clone();
        let added = self.add_block(block);
        assert(added);
        reply
    }

    /// Copies of the last `n` blocks (all of them when there are fewer), in
    /// chain order.
    pub fn tail(&self, n: usize) -> (r: Vec<Block>)
        ensures
            r@ == chain_tail(self.blocks@, n as nat),
    {
        let len = self.blocks.len();
        let start: usize = if n >= len { 0 } else { len - n };
        let mut out: Vec<Block> = Vec::new();
        let mut i: usize = start;
        while i < len
            invariant
                start <= i <= len,
                len == self.blocks@.len(),
                out@ == self.blocks@.subrange(start as int, i as int),
            decreases len - i,
        {
            out.push(self.blocks[i].clone());
            i = i + 1;
            assert(out@ =~= self.blocks@.subrange(start as int, i as int));
        }
        assert(out@ =~= chain_tail(self.blocks@, n as nat));
        out
    }

    /// The last block of the chain.
    pub fn last(&self) -> (r: &Block)
        requires
            self.blocks.len() > 0,
        ensures
            *r == self.blocks@.last(),
    {
        &self.blocks[self.blocks.len() - 1]
    }
}

/// A block built from the last block of a chain is accepted by the chain:
/// whatever its data and timestamp, a block made with index one more than
/// `previous`'s and with `previous`'s hash follows `previous`.
pub proof fn law_next_block_follows(
    previous: Block,
    block: Block,
    data: crate::block::BlockData,
    timestamp: crate::block::Timestamp,
)
    requires
        previous.index < u64::MAX,
        block.is_made_of((previous.index + 1) as u64, data, previous.hash, timestamp),
    ensures
        block.follows(previous),
{
}

/// Appending a block that follows the last block keeps a linked chain linked.
pub proof fn law_append_keeps_linked(blocks: Seq<Block>, block: Block)
    requires
        blocks.len() > 0,
        is_linked(blocks),
        block.follows(blocks.last()),
    ensures
        is_linked(blocks.push(block)),
{
    let grown = blocks.push(block);
    assert forall|i: int| 1 <= i < grown.len() implies (#[trigger] grown[i]).follows(grown[i - 1]) by {
        if i < blocks.len() {
            assert(grown[i] == blocks[i]);
            assert(blocks[i].follows(blocks[i - 1]));
        }
    }
}

/// The tail of a linked chain is linked, has the requested number of blocks
/// when the chain has that many, and ends with the chain's last block.
pub proof fn law_tail_of_linked_chain(blocks: Seq<Block>, n: nat)
    requires
        is_linked(blocks),
    ensures
        is_linked(chain_tail(blocks, n)),
        chain_tail(blocks, n).len() == if n < blocks.len() { n } else { blocks.len() },
        n > 0 && blocks.len() > 0 ==> chain_tail(blocks, n).last() == blocks.last(),
{
    let t = chain_tail(blocks, n);
    if n < blocks.len() {
        let off = blocks.len() - n;
        assert forall|i: int| 1 <= i < t.len() implies (#[trigger] t[i]).follows(t[i - 1]) by {
            assert(t[i] == blocks[off + i]);
            assert(t[i - 1] == blocks[off + i - 1]);
            assert(blocks[off + i].follows(blocks[off + i - 1]));
        }
    }
}

/// A chain's tail of at least its length is the whole chain.
pub proof fn law_long_tail_is_whole_chain(blocks: Seq<Block>, n: nat)
    requires
        n >= blocks.len(),
    ensures
        chain_tail(blocks, n) == blocks,
{
}

} // verus!
