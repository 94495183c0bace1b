//! The chain of executed blocks and its soft/firm commitment heights.
use std::collections::HashMap;
use vstd::prelude::*;

verus! {

broadcast use vstd::std_specs::hash::group_hash_axioms;

/// Byte length of the genesis block's placeholder hash.
pub const GENESIS_HASH_LEN: usize = 32;

/// Value of every byte of the genesis block's placeholder hash.
pub const GENESIS_HASH_BYTE: u8 = 69;

/// Settlement-layer height the chain starts anchored to.
pub const INITIAL_SETTLEMENT_HEIGHT: u64 = 2;

/// A point in time: seconds and nanoseconds since the Unix epoch.
#[derive(Debug, Clone, Copy, PartialEq, Eq, Structural)]
pub struct Timestamp {
    pub seconds: i64,
    pub nanos: i32,
}

/// An executed block.
#[derive(Debug)]
pub struct Block {
    pub height: u32,
    pub hash: Vec<u8>,
    pub parent_hash: Vec<u8>,
    pub timestamp: Timestamp,
    /// The opaque transaction payloads of the block, in order.
    pub transactions: Vec<Vec<u8>>,
}

/// Mathematical model of a block.
pub ghost struct BlockView {
    pub height: u32,
    pub hash: Seq<u8>,
    pub parent_hash: Seq<u8>,
    pub timestamp: Timestamp,
    pub transactions: Seq<Seq<u8>>,
}

impl View for Block {
    type V = BlockView;

    open spec fn view(&self) -> BlockView {
        BlockView {
            height: self.height,
            hash: self.hash@,
            parent_hash: self.parent_hash@,
            timestamp: self.timestamp,
            transactions: payload_views(self.transactions@),
        }
    }
}

/// A copy of a byte buffer.
pub fn copy_bytes(b: &Vec<u8>) -> (r: Vec<u8>)
    ensures
        r@ == b@,
{
    b.clone()
}

impl Block {
    /// A copy of this block.
    pub fn duplicate(&self) -> (r: Block)
        ensures
            r@ == self@,
    {
        let mut txs: Vec<Vec<u8>> = Vec::new();
        let mut i: usize = 0;
        while i < self.transactions.len()
            invariant
                i <= self.transactions@.len(),
                txs@.len() == i,
                forall|j: int| 0 <= j < i ==> #[trigger] txs@[j]@ == self.transactions@[j]@,
            decreases self.transactions@.len() - i,
        {
            txs.push(copy_bytes(&self.transactions[i]));
            i = i + 1;
        }
        assert(txs@.map_values(|t: Vec<u8>| t@) =~= self.transactions@.map_values(
            |t: Vec<u8>| t@,
        ));
        Block {
            height: self.height,
            hash: copy_bytes(&self.hash),
            parent_hash: copy_bytes(&self.parent_hash),
            timestamp: self.timestamp,
            transactions: txs,
        }
    }
}

/// The genesis block: height 0, a placeholder hash of 32 bytes of value 69,
/// an empty parent hash, time zero and no transactions.
pub open spec fn genesis_block() -> BlockView {
    BlockView {
        height: 0,
        hash: Seq::new(GENESIS_HASH_LEN as nat, |i: int| GENESIS_HASH_BYTE),
        parent_hash: seq![],
        timestamp: Timestamp { seconds: 0, nanos: 0 },
        transactions: seq![],
    }
}

/// A height that breaks the ordering of the commitment heights.
#[derive(Debug, Clone, Copy, PartialEq, Eq, Structural)]
pub struct HeightConflict {
    /// The soft height at the time of the refusal.
    pub soft_height: u32,
}

/// The block store and its commitment heights.
#[derive(Debug)]
pub struct AppState {
    /// Blocks by height.
    pub blocks: HashMap<u32, Block>,
    /// Highest height executed locally.
    pub soft_height: u32,
    /// Highest height settled by the external layer.
    pub firm_height: u32,
    /// Settlement-layer height the commitments are anchored to.
    pub celestia_height: u64,
}

impl AppState {
    /// The stored blocks, as a map from height to model.
    pub open spec fn chain(&self) -> Map<u32, BlockView> {
        self.blocks@.map_values(|b: Block| b@)
    }

    /// Every block is stored under its own height, the blocks at the soft and
    /// firm heights exist, and the firm height does not exceed the soft height.
    pub open spec fn wf(&self) -> bool {
        &&& forall|h: u32| #[trigger] self.chain().contains_key(h) ==> self.chain()[h].height == h
        &&& self.chain().contains_key(self.soft_height)
        &&& self.chain().contains_key(self.firm_height)
        &&& self.firm_height <= self.soft_height
    }

    /// A store that holds the genesis block alone, with both heights at 0.
    pub fn new() -> (r: AppState)
        ensures
            r.wf(),
            r.chain() == Map::<u32, BlockView>::empty().insert(0, genesis_block()),
            r.soft_height == 0,
            r.firm_height == 0,
            r.celestia_height == INITIAL_SETTLEMENT_HEIGHT,
    {
        let mut hash: Vec<u8> = Vec::new();
        let mut i: usize = 0;
        while i < GENESIS_HASH_LEN
            invariant
                i <= GENESIS_HASH_LEN,
                hash@ == Seq::new(i as nat, |j: int| GENESIS_HASH_BYTE),
            decreases GENESIS_HASH_LEN - i,
        {
            hash.push(GENESIS_HASH_BYTE);
            i = i + 1;
            assert(hash@ =~= Seq::new(i as nat, |j: int| GENESIS_HASH_BYTE));
        }
        let genesis = Block {
            height: 0,
            hash,
            parent_hash: Vec::new(),
            timestamp: Timestamp { seconds: 0, nanos: 0 },
            transactions: Vec::new(),
        };
        assert(genesis@ =~= genesis_block()) by {
            assert(genesis@.parent_hash =~= Seq::<u8>::empty());
            assert(genesis@.transactions =~= Seq::<Seq<u8>>::empty());
        }
        let mut blocks: HashMap<u32, Block> = HashMap::new();
        blocks.insert(0, genesis);
        let r = AppState {
            blocks,
            soft_height: 0,
            firm_height: 0,
            celestia_height: INITIAL_SETTLEMENT_HEIGHT,
        };
        assert(r.chain() =~= Map::<u32, BlockView>::empty().insert(0, genesis_block()));
        r
    }

    /// Stores `block` and raises the soft height to its height; refused, with
    /// nothing changed, unless its height is above the soft height.
    pub fn add_block(&mut self, block: Block) -> (r: Result<(), HeightConflict>)
        requires
            old(self).wf(),
        ensures
            final(self).wf(),
            final(self).firm_height == old(self).firm_height,
            final(self).celestia_height == old(self).celestia_height,
            block.height > old(self).soft_height ==> {
                &&& r is Ok
                &&& final(self).chain() == old(self).chain().insert(block.height, block@)
                &&& final(self).soft_height == block.height
            },
            block.height <= old(self).soft_height ==> {
                &&& r == Err::<(), HeightConflict>(
                    HeightConflict { soft_height: old(self).soft_height },
                )
                &&& final(self).chain() == old(self).chain()
                &&& final(self).soft_height == old(self).soft_height
            },
    {
        let height = block.height;
        if height <= self.soft_height {
            return Err(HeightConflict { soft_height: self.soft_height });
        }
        let ghost c0 = self.chain();
        let ghost v = block@;
        self.blocks.insert(height, block);
        self.soft_height = height;
        assert(self.chain() =~= c0.insert(height, v));
        Ok(())
    }

    /// Sets the firm height; refused, with nothing changed, when it would
    /// exceed the soft height or name a height with no block.
    pub fn set_firm_height(&mut self, new_firm_height: u32) -> (r: Result<(), HeightConflict>)
        requires
            old(self).wf(),
        ensures
            final(self).wf(),
            final(self).chain() == old(self).chain(),
            final(self).soft_height == old(self).soft_height,
            final(self).celestia_height == old(self).celestia_height,
            (new_firm_height <= old(self).soft_height && old(self).chain().contains_key(
                new_firm_height,
            )) ==> r is Ok && final(self).firm_height == new_firm_height,
            !(new_firm_height <= old(self).soft_height && old(self).chain().contains_key(
                new_firm_height,
            )) ==> r == Err::<(), HeightConflict>(
                HeightConflict { soft_height: old(self).soft_height },
            ) && final(self).firm_height == old(self).firm_height,
    {
        if new_firm_height > self.soft_height || !self.blocks.contains_key(&new_firm_height) {
            return Err(HeightConflict { soft_height: self.soft_height });
        }
        self.firm_height = new_firm_height;
        Ok(())
    }

    /// The parent hash of the block at `height`, if there is one.
    pub fn get_parent_hash(&self, height: u32) -> (r: Option<&Vec<u8>>)
        ensures
            match r {
                Some(h) => self.chain().contains_key(height) && h@ == self.chain()[height].parent_hash,
                None => !self.chain().contains_key(height),
            },
    {
        match self.blocks.get(&height) {
            Some(b) => Some(&b.parent_hash),
            None => None,
        }
    }

    /// The block at `height`, if there is one.
    pub fn get_block(&self, height: u32) -> (r: Option<&Block>)
        ensures
            match r {
                Some(b) => self.chain().contains_key(height) && b@ == self.chain()[height],
                None => !self.chain().contains_key(height),
            },
    {
        self.blocks.get(&height)
    }

    /// Builds the block at `height` over `parent_hash` with digest `hash`,
    /// stores it as `add_block` does, and returns a copy of it.
    pub fn new_block(
        &mut self,
        parent_hash: Vec<u8>,
        hash: Vec<u8>,
        height: u32,
        transactions: Vec<Vec<u8>>,
        timestamp: Timestamp,
    ) -> (r: Result<Block, HeightConflict>)
        requires
            old(self).wf(),
        ensures
            final(self).wf(),
            final(self).firm_height == old(self).firm_height,
            final(self).celestia_height == old(self).celestia_height,
            height > old(self).soft_height ==> {
                let v = BlockView {
                    height,
                    hash: hash@,
                    parent_hash: parent_hash@,
                    timestamp,
                    transactions: payload_views(transactions@),
                };
                &&& r matches Ok(b) && b@ == v
                &&& final(self).chain() == old(self).chain().insert(height, v)
                &&& final(self).soft_height == height
            },
            height <= old(self).soft_height ==> {
                &&& r == Err::<Block, HeightConflict>(
                    HeightConflict { soft_height: old(self).soft_height },
                )
                &&& final(self).chain() == old(self).chain()
                &&& final(self).soft_height == old(self).soft_height
            },
    {
        let block = Block { height, hash, parent_hash, timestamp, transactions };
        let copy = block.duplicate();
        match self.add_block(block) {
            Ok(()) => Ok(copy),
            Err(e) => Err(e),
        }
    }
}

/// The byte payloads of a list of buffers.
pub open spec fn payload_views(v: Seq<Vec<u8>>) -> Seq<Seq<u8>> {
    v.map_values(|t: Vec<u8>| t@)
}

} // verus!
