//! The block-execution protocol: genesis information, block lookup, block
//! execution and the commitment state, over one block store and one set of
//! game sessions.
use vstd::prelude::*;

use crate::blocks::{copy_bytes, payload_views, AppState, Block, BlockView, Timestamp};
use crate::game::{batch, batch_digest, GameManager, GameView};

verus! {

/// Height of the sequencer block the rollup starts from.
pub const SEQUENCER_GENESIS_BLOCK_HEIGHT: u32 = 2;

/// How many settlement-layer blocks the firm height may lag behind.
pub const CELESTIA_BLOCK_VARIANCE: u64 = 100;

/// Byte length of the rollup identifier.
pub const ROLLUP_ID_LEN: usize = 32;

/// Value of every byte of the rollup identifier.
pub const ROLLUP_ID_BYTE: u8 = 69;

/// Fixed configuration of the rollup.
#[derive(Debug)]
pub struct GenesisInfo {
    pub rollup_id: Vec<u8>,
    pub sequencer_genesis_block_height: u32,
    pub celestia_block_variance: u64,
}

/// How a request names a block.
#[derive(Debug)]
pub enum BlockIdentifier {
    BlockNumber(u32),
    BlockHash(Vec<u8>),
}

/// One entry of an execution request.
#[derive(Debug)]
pub enum RollupData {
    /// A payload for the application.
    SequencedData(Vec<u8>),
    /// A deposit, which this application ignores.
    Deposit,
}

/// The blocks at the soft and firm heights, and the settlement height.
#[derive(Debug)]
pub struct CommitmentState {
    pub soft: Block,
    pub firm: Block,
    pub base_celestia_height: u64,
}

/// Why a protocol call failed.
#[derive(Debug, Clone, Copy, PartialEq, Eq, Structural)]
pub enum ExecError {
    /// Lookup by block hash is not supported.
    Unimplemented,
    /// A named block does not exist.
    InvalidArgument,
    /// A requested commitment names a block whose stored hash differs.
    HashMismatch,
    /// The requested heights break their ordering, or the chain is full.
    HeightConflict,
}

/// Mathematical model of a block identifier.
pub ghost enum IdView {
    Number(u32),
    Hash(Seq<u8>),
}

impl View for BlockIdentifier {
    type V = IdView;

    open spec fn view(&self) -> IdView {
        match self {
            BlockIdentifier::BlockNumber(h) => IdView::Number(*h),
            BlockIdentifier::BlockHash(h) => IdView::Hash(h@),
        }
    }
}

/// What looking up `id` in `chain` gives.
pub open spec fn lookup(chain: Map<u32, BlockView>, id: IdView) -> Result<BlockView, ExecError> {
    match id {
        IdView::Hash(_) => Err(ExecError::Unimplemented),
        IdView::Number(h) => if chain.contains_key(h) {
            Ok(chain[h])
        } else {
            Err(ExecError::InvalidArgument)
        },
    }
}

/// What looking up every id in order gives: all the blocks, or the error of
/// the first id that fails.
pub open spec fn lookup_all(chain: Map<u32, BlockView>, ids: Seq<IdView>) -> Result<
    Seq<BlockView>,
    ExecError,
>
    decreases ids.len(),
{
    if ids.len() == 0 {
        Ok(seq![])
    } else {
        match lookup_all(chain, ids.drop_last()) {
            Err(e) => Err(e),
            Ok(bs) => match lookup(chain, ids.last()) {
                Err(e) => Err(e),
                Ok(b) => Ok(bs.push(b)),
            },
        }
    }
}

/// The application payloads of an execution request, in order.
pub open spec fn sequenced(txs: Seq<RollupData>) -> Seq<Seq<u8>>
    decreases txs.len(),
{
    if txs.len() == 0 {
        seq![]
    } else {
        match txs.last() {
            RollupData::SequencedData(d) => sequenced(txs.drop_last()).push(d@),
            RollupData::Deposit => sequenced(txs.drop_last()),
        }
    }
}

/// Why a commitment update naming these blocks is refused, if it is.
pub open spec fn commitment_error(
    chain: Map<u32, BlockView>,
    soft: BlockView,
    firm: BlockView,
) -> Option<ExecError> {
    if !chain.contains_key(soft.height) || !chain.contains_key(firm.height) {
        Some(ExecError::InvalidArgument)
    } else if chain[soft.height].hash != soft.hash || chain[firm.height].hash != firm.hash {
        Some(ExecError::HashMismatch)
    } else if firm.height > soft.height {
        Some(ExecError::HeightConflict)
    } else {
        None
    }
}

/// Whether two byte strings are equal.
pub fn bytes_equal(a: &[u8], b: &[u8]) -> (r: bool)
    ensures
        r == (a@ == b@),
{
    if a.len() != b.len() {
        return false;
    }
    let mut i: usize = 0;
    while i < a.len()
        invariant
            i <= a@.len() == b@.len(),
            a@.subrange(0, i as int) == b@.subrange(0, i as int),
        decreases a@.len() - i,
    {
        if a[i] != b[i] {
            assert(a@.subrange(0, i + 1)[i as int] != b@.subrange(0, i + 1)[i as int]);
            return false;
        }
        assert(a@.subrange(0, i + 1) =~= a@.subrange(0, i as int).push(a@[i as int]));
        assert(b@.subrange(0, i + 1) =~= b@.subrange(0, i as int).push(b@[i as int]));
        i = i + 1;
    }
    assert(a@ =~= a@.subrange(0, i as int));
    assert(b@ =~= b@.subrange(0, i as int));
    true
}

/// The execution service: one block store and one set of game sessions.
#[derive(Debug)]
pub struct RollupExecutionService {
    pub app: AppState,
    pub game_manager: GameManager,
}

impl RollupExecutionService {
    /// The block store keeps its invariant.
    pub open spec fn wf(&self) -> bool {
        self.app.wf()
    }

    /// A service at genesis, with no game sessions.
    pub fn new() -> (r: RollupExecutionService)
        ensures
            r.wf(),
            r.app.chain() == Map::<u32, BlockView>::empty().insert(0, crate::blocks::genesis_block()),
            r.app.soft_height == 0,
            r.app.firm_height == 0,
            r.game_manager.sessions() == Map::<u32, GameView>::empty(),
    {
        let app = AppState::new();
        let genesis_hash = match app.get_block(0) {
            Some(b) => copy_bytes(&b.hash),
            None => Vec::new(),
        };
        RollupExecutionService { app, game_manager: GameManager::new(genesis_hash) }
    }

    /// The fixed genesis configuration: a rollup id of 32 bytes of value 69,
    /// sequencer genesis height 2 and a variance of 100 blocks.
    pub fn get_genesis_info() -> (r: GenesisInfo)
        ensures
            r.rollup_id@ == Seq::new(ROLLUP_ID_LEN as nat, |i: int| ROLLUP_ID_BYTE),
            r.sequencer_genesis_block_height == SEQUENCER_GENESIS_BLOCK_HEIGHT,
            r.celestia_block_variance == CELESTIA_BLOCK_VARIANCE,
    {
        let mut rollup_id: Vec<u8> = Vec::new();
        let mut i: usize = 0;
        while i < ROLLUP_ID_LEN
            invariant
                i <= ROLLUP_ID_LEN,
                rollup_id@ == Seq::new(i as nat, |j: int| ROLLUP_ID_BYTE),
            decreases ROLLUP_ID_LEN - i,
        {
            rollup_id.push(ROLLUP_ID_BYTE);
            i = i + 1;
            assert(rollup_id@ =~= Seq::new(i as nat, |j: int| ROLLUP_ID_BYTE));
        }
        GenesisInfo {
            rollup_id,
            sequencer_genesis_block_height: SEQUENCER_GENESIS_BLOCK_HEIGHT,
            celestia_block_variance: CELESTIA_BLOCK_VARIANCE,
        }
    }

    /// The block that `id` names: by height only.
    pub fn get_block(&self, id: &BlockIdentifier) -> (r: Result<&Block, ExecError>)
        ensures
            match r {
                Ok(b) => lookup(self.app.chain(), id@) == Ok::<BlockView, ExecError>(b@),
                Err(e) => lookup(self.app.chain(), id@) == Err::<BlockView, ExecError>(e),
            },
    {
        match id {
            BlockIdentifier::BlockHash(_) => Err(ExecError::Unimplemented),
            BlockIdentifier::BlockNumber(h) => match self.app.get_block(*h) {
                Some(b) => Ok(b),
                None => Err(ExecError::InvalidArgument),
            },
        }
    }

    /// Copies of the blocks that `ids` name, in order; the whole call fails on
    /// the first id that `get_block` refuses.
    pub fn batch_get_blocks(&self, ids: &Vec<BlockIdentifier>) -> (r: Result<
        Vec<Block>,
        ExecError,
    >)
        ensures
            match r {
                Ok(v) => lookup_all(self.app.chain(), ids@.map_values(|i: BlockIdentifier| i@))
                    == Ok::<Seq<BlockView>, ExecError>(v@.map_values(|b: Block| b@)),
                Err(e) => lookup_all(self.app.chain(), ids@.map_values(|i: BlockIdentifier| i@))
                    == Err::<Seq<BlockView>, ExecError>(e),
            },
    {
        let ghost views = ids@.map_values(|i: BlockIdentifier| i@);
        let mut blocks: Vec<Block> = Vec::new();
        let mut k: usize = 0;
        assert(views.take(0) =~= Seq::<IdView>::empty());
        assert(blocks@.map_values(|b: Block| b@) =~= Seq::<BlockView>::empty());
        while k < ids.len()
            invariant
                k <= ids@.len(),
                views == ids@.map_values(|i: BlockIdentifier| i@),
                lookup_all(self.app.chain(), views.take(k as int)) == Ok::<
                    Seq<BlockView>,
                    ExecError,
                >(blocks@.map_values(|b: Block| b@)),
            decreases ids@.len() - k,
        {
            assert(views.take(k + 1).drop_last() =~= views.take(k as int));
            assert(views.take(k + 1).last() == ids@[k as int]@);
            let ghost prev = blocks@.map_values(|b: Block| b@);
            match self.get_block(&ids[k]) {
                Err(e) => {
                    proof {
                        lemma_lookup_all_stops(self.app.chain(), views, k as int);
                    }
                    return Err(e);
                },
                Ok(b) => {
                    blocks.push(b.duplicate());
                    assert(blocks@.map_values(|b: Block| b@) =~= prev.push(b@));
                },
            }
            k = k + 1;
        }
        assert(views.take(k as int) =~= views);
        Ok(blocks)
    }

    /// Executes the application payloads of `transactions` on top of the soft
    /// height: the batch is applied to the game sessions with `parent_hash` as
    /// seed, and the block at the next height, holding the batch's digest, is
    /// stored and returned. Refused, with nothing changed, when the soft height
    /// is already the largest height.
    pub fn execute_block(
        &mut self,
        parent_hash: Vec<u8>,
        timestamp: Timestamp,
        transactions: &Vec<RollupData>,
    ) -> (r: Result<Block, ExecError>)
        requires
            old(self).wf(),
        ensures
            final(self).wf(),
            final(self).app.firm_height == old(self).app.firm_height,
            final(self).app.celestia_height == old(self).app.celestia_height,
            old(self).app.soft_height == u32::MAX ==> {
                &&& r == Err::<Block, ExecError>(ExecError::HeightConflict)
                &&& final(self).app.chain() == old(self).app.chain()
                &&& final(self).app.soft_height == old(self).app.soft_height
                &&& final(self).game_manager.sessions() == old(self).game_manager.sessions()
            },
            old(self).app.soft_height < u32::MAX ==> {
                let txs = sequenced(transactions@);
                let height = (old(self).app.soft_height + 1) as u32;
                let v = BlockView {
                    height,
                    hash: batch_digest(old(self).game_manager.sessions(), txs, parent_hash@),
                    parent_hash: parent_hash@,
                    timestamp,
                    transactions: txs,
                };
                &&& r matches Ok(b) && b@ == v
                &&& final(self).app.chain() == old(self).app.chain().insert(height, v)
                &&& final(self).app.soft_height == height
                &&& final(self).game_manager.sessions() == batch(
                    old(self).game_manager.sessions(),
                    txs,
                ).0
            },
    {
        if self.app.soft_height == u32::MAX {
            return Err(ExecError::HeightConflict);
        }
        let mut data: Vec<Vec<u8>> = Vec::new();
        let mut i: usize = 0;
        while i < transactions.len()
            invariant
                i <= transactions@.len(),
                payload_views(data@) == sequenced(transactions@.take(i as int)),
            decreases transactions@.len() - i,
        {
            assert(transactions@.take(i + 1).drop_last() =~= transactions@.take(i as int));
            let ghost prev = payload_views(data@);
            match &transactions[i] {
                RollupData::SequencedData(d) => {
                    data.push(copy_bytes(d));
                    assert(payload_views(data@) =~= prev.push(d@));
                },
                RollupData::Deposit => {},
            }
            i = i + 1;
        }
        assert(transactions@.take(i as int) =~= transactions@);
        let (digest, _outcomes) = self.game_manager.process_transactions(
            &data,
            parent_hash.as_slice(),
        );
        let height = self.app.soft_height + 1;
        match self.app.new_block(parent_hash, digest, height, data, timestamp) {
            Ok(b) => Ok(b),
            Err(_) => Err(ExecError::HeightConflict),
        }
    }

    /// The blocks at the soft and firm heights, and the settlement height.
    pub fn get_commitment_state(&self) -> (r: CommitmentState)
        requires
            self.wf(),
        ensures
            r.soft@ == self.app.chain()[self.app.soft_height],
            r.firm@ == self.app.chain()[self.app.firm_height],
            r.base_celestia_height == self.app.celestia_height,
    {
        let soft = self.app.get_block(self.app.soft_height).unwrap().duplicate();
        let firm = self.app.get_block(self.app.firm_height).unwrap().duplicate();
        CommitmentState { soft, firm, base_celestia_height: self.app.celestia_height }
    }
    /// Moves the soft and firm heights to the blocks that `request` names and
    /// stores its settlement height. Before any change, each named block must
    /// exist and carry the stored hash, and the firm height must not exceed the
    /// soft height; otherwise nothing changes.
    pub fn update_commitment_state(&mut self, request: &CommitmentState) -> (r: Result<
        CommitmentState,
        ExecError,
    >)
        requires
            old(self).wf(),
        ensures
            final(self).wf(),
            final(self).app.chain() == old(self).app.chain(),
            final(self).game_manager == old(self).game_manager,
            match commitment_error(old(self).app.chain(), request.soft@, request.firm@) {
                Some(e) => {
                    &&& r == Err::<CommitmentState, ExecError>(e)
                    &&& final(self).app.soft_height == old(self).app.soft_height
                    &&& final(self).app.firm_height == old(self).app.firm_height
                    &&& final(self).app.celestia_height == old(self).app.celestia_height
                },
                None => {
                    &&& final(self).app.soft_height == request.soft.height
                    &&& final(self).app.firm_height == request.firm.height
                    &&& final(self).app.celestia_height == request.base_celestia_height
                    &&& r matches Ok(c) && c.soft@ == old(self).app.chain()[request.soft.height]
                        && c.firm@ == old(self).app.chain()[request.firm.height]
                        && c.base_celestia_height == request.base_celestia_height
                },
            },
    {
        let soft_height = request.soft.height;
        let firm_height = request.firm.height;
        let soft_matches = match self.app.get_block(soft_height) {
            Some(b) => bytes_equal(b.hash.as_slice(), request.soft.hash.as_slice()),
            None => {
                return Err(ExecError::InvalidArgument);
            },
        };
        let firm_matches = match self.app.get_block(firm_height) {
            Some(b) => bytes_equal(b.hash.as_slice(), request.firm.hash.as_slice()),
            None => {
                return Err(ExecError::InvalidArgument);
            },
        };
        if !soft_matches || !firm_matches {
            return Err(ExecError::HashMismatch);
        }
        if firm_height > soft_height {
            return Err(ExecError::HeightConflict);
        }
        self.app.soft_height = soft_height;
        self.app.firm_height = firm_height;
        self.app.celestia_height = request.base_celestia_height;
        Ok(self.get_commitment_state())
    }
}

/// Once one id of a batch fails, the whole batch fails with its error.
proof fn lemma_lookup_all_stops(chain: Map<u32, BlockView>, ids: Seq<IdView>, k: int)
    requires
        0 <= k < ids.len(),
        lookup_all(chain, ids.take(k)) is Ok,
        lookup(chain, ids[k]) is Err,
    ensures
        lookup_all(chain, ids) == Err::<Seq<BlockView>, ExecError>(
            lookup(chain, ids[k])->Err_0,
        ),
    decreases ids.len() - k,
{
    assert(ids.take(k + 1).drop_last() =~= ids.take(k));
    if k + 1 == ids.len() {
        assert(ids.take(k + 1) =~= ids);
    } else {
        lemma_lookup_all_fails_on(chain, ids, k + 1);
    }
}

/// A failed prefix makes every longer prefix fail with the same error.
proof fn lemma_lookup_all_fails_on(chain: Map<u32, BlockView>, ids: Seq<IdView>, n: int)
    requires
        0 < n <= ids.len(),
        lookup_all(chain, ids.take(n)) is Err,
    ensures
        lookup_all(chain, ids) == lookup_all(chain, ids.take(n)),
    decreases ids.len() - n,
{
    if n == ids.len() {
        assert(ids.take(n) =~= ids);
    } else {
        assert(ids.take(n + 1).drop_last() =~= ids.take(n));
        lemma_lookup_all_fails_on(chain, ids, n + 1);
    }
}

} // verus!
