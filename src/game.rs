//! Game sessions and the application state machine that applies batches of
//! transactions to them.
use std::collections::HashMap;
use vstd::prelude::*;

use crate::blocks::payload_views;
use crate::codec::{parse, DecodeError, Transaction, TxModel};
use crate::hashing::{sha256, sha256_of};
use crate::rules::{
    board_status, outcome_of, outcome_spec, play_san, position_status, san_successor, winner_of,
    winner_spec, Side, START_POSITION,
};

verus! {

broadcast use vstd::std_specs::hash::group_hash_axioms;

/// One game session.
#[derive(Debug, Clone)]
pub struct GameState {
    /// Current position, as FEN text.
    pub position: String,
    /// The winner once the game is decided; `None` while ongoing or drawn.
    pub winner: Option<Side>,
    /// The moves played, in order, as SAN text.
    pub moves: Vec<String>,
}

/// Mathematical model of a game session.
pub ghost struct GameView {
    pub position: Seq<char>,
    pub winner: Option<Side>,
    pub moves: Seq<Seq<char>>,
}

impl View for GameState {
    type V = GameView;

    open spec fn view(&self) -> GameView {
        GameView {
            position: self.position@,
            winner: self.winner,
            moves: self.moves@.map_values(|m: String| m@),
        }
    }
}

/// Why a transaction could not be applied.
#[derive(Debug, Clone, Copy, PartialEq, Eq, Structural)]
pub enum GameError {
    /// No session has the given id.
    GameNotFound,
    /// The rule engine rejects the move in the session's position.
    InvalidMove,
}

/// What became of one transaction of a batch.
#[derive(Debug, Clone, Copy, PartialEq, Eq, Structural)]
pub enum TxOutcome {
    Success,
    Decode(DecodeError),
    Apply(GameError),
}

/// A session as `StartGame` creates it.
pub open spec fn fresh_game() -> GameView {
    GameView { position: START_POSITION@, winner: None, moves: seq![] }
}

/// The sessions after playing `mv` in session `id`, or why it cannot be played.
pub open spec fn move_result(s: Map<u32, GameView>, id: u32, mv: Seq<char>) -> Result<
    Map<u32, GameView>,
    GameError,
> {
    if !s.contains_key(id) {
        Err(GameError::GameNotFound)
    } else {
        let g = s[id];
        match san_successor(g.position, mv) {
            None => Err(GameError::InvalidMove),
            Some(p) => Ok(
                s.insert(
                    id,
                    GameView {
                        position: p,
                        winner: match outcome_spec(position_status(p)) {
                            Some(o) => winner_spec(o),
                            None => g.winner,
                        },
                        moves: g.moves.push(mv),
                    },
                ),
            ),
        }
    }
}

/// The sessions after applying `t`, or why it cannot be applied.
pub open spec fn tx_result(s: Map<u32, GameView>, t: TxModel) -> Result<
    Map<u32, GameView>,
    GameError,
> {
    match t {
        TxModel::StartGame { game_id } => Ok(s.insert(game_id, fresh_game())),
        TxModel::MakeMove { game_id, move_text } => move_result(s, game_id, move_text),
    }
}

/// One step of a batch on the raw bytes `b`: the sessions after it, the bytes
/// it adds to the digest input, and its outcome.
pub open spec fn batch_step(s: Map<u32, GameView>, b: Seq<u8>) -> (
    Map<u32, GameView>,
    Seq<u8>,
    TxOutcome,
) {
    match parse(b) {
        Err(e) => (s, seq![], TxOutcome::Decode(e)),
        Ok(t) => match tx_result(s, t) {
            Err(e) => (s, seq![], TxOutcome::Apply(e)),
            Ok(s2) => (s2, b, TxOutcome::Success),
        },
    }
}

/// A whole batch, in order: the final sessions, the concatenated bytes of the
/// applied transactions, and the outcome of each transaction.
pub open spec fn batch(s: Map<u32, GameView>, txs: Seq<Seq<u8>>) -> (
    Map<u32, GameView>,
    Seq<u8>,
    Seq<TxOutcome>,
)
    decreases txs.len(),
{
    if txs.len() == 0 {
        (s, seq![], seq![])
    } else {
        let (s1, a1, o1) = batch(s, txs.drop_last());
        let (s2, a2, o) = batch_step(s1, txs.last());
        (s2, a1 + a2, o1.push(o))
    }
}

/// The digest a batch produces: SHA-256 of the seed followed by the bytes of
/// every applied transaction.
pub open spec fn batch_digest(s: Map<u32, GameView>, txs: Seq<Seq<u8>>, seed: Seq<u8>) -> Seq<
    u8,
> {
    sha256_of(seed + batch(s, txs).1)
}

/// Replaying a batch with the same seed against equal sessions gives the same
/// sessions, the same outcomes and the same digest.
pub proof fn lemma_batch_deterministic(
    s1: Map<u32, GameView>,
    s2: Map<u32, GameView>,
    txs: Seq<Seq<u8>>,
    seed: Seq<u8>,
)
    requires
        s1 == s2,
    ensures
        batch(s1, txs) == batch(s2, txs),
        batch_digest(s1, txs, seed) == batch_digest(s2, txs, seed),
{
}

/// An entry that does not decode changes neither the sessions nor the digest
/// input of a batch: it only adds its `Decode` outcome.
pub proof fn lemma_undecodable_entry_skipped(
    s: Map<u32, GameView>,
    txs: Seq<Seq<u8>>,
    junk: Seq<u8>,
)
    requires
        parse(junk) is Err,
    ensures
        batch(s, txs.push(junk)).0 == batch(s, txs).0,
        batch(s, txs.push(junk)).1 == batch(s, txs).1,
        batch(s, txs.push(junk)).2 == batch(s, txs).2.push(
            TxOutcome::Decode(parse(junk)->Err_0),
        ),
{
    assert(txs.push(junk).drop_last() =~= txs);
    assert(batch(s, txs).1 + Seq::<u8>::empty() =~= batch(s, txs).1);
}

/// All game sessions, keyed by id.
#[derive(Debug, Clone)]
pub struct GameManager {
    pub games: HashMap<u32, GameState>,
    /// Digest of the last finalized block.
    pub current_block_hash: Vec<u8>,
}

impl GameManager {
    /// The sessions, as a map from id to model.
    pub open spec fn sessions(&self) -> Map<u32, GameView> {
        self.games@.map_values(|g: GameState| g@)
    }

    /// A manager with no sessions.
    pub fn new(starting_hash: Vec<u8>) -> (r: GameManager)
        ensures
            r.sessions() == Map::<u32, GameView>::empty(),
            r.current_block_hash@ == starting_hash@,
    {
        let r = GameManager { games: HashMap::new(), current_block_hash: starting_hash };
        assert(r.sessions() =~= Map::<u32, GameView>::empty());
        r
    }

    /// Starts session `game_id` afresh, replacing any session of that id.
    pub fn start_new_game(&mut self, game_id: u32)
        ensures
            final(self).sessions() == old(self).sessions().insert(game_id, fresh_game()),
            final(self).current_block_hash == old(self).current_block_hash,
    {
        let state = GameState {
            position: START_POSITION.to_owned(),
            winner: None,
            moves: Vec::new(),
        };
        assert(state@ == fresh_game()) by {
            assert(state@.moves =~= Seq::<Seq<char>>::empty());
        }
        self.games.insert(game_id, state);
        assert(final(self).sessions() =~= old(self).sessions().insert(game_id, fresh_game()));
    }

    /// Plays the SAN move `move_str` in session `game_id`.
    pub fn make_move(&mut self, game_id: u32, move_str: &str) -> (r: Result<(), GameError>)
        ensures
            match move_result(old(self).sessions(), game_id, move_str@) {
                Ok(s) => r is Ok && final(self).sessions() == s,
                Err(e) => r == Err::<(), GameError>(e) && final(self).sessions() == old(
                    self,
                ).sessions(),
            },
            final(self).current_block_hash == old(self).current_block_hash,
    {
        let ghost s0 = self.sessions();
        let removed = self.games.remove(&game_id);
        match removed {
            None => {
                assert(!s0.contains_key(game_id));
                assert(self.sessions() =~= s0);
                Err(GameError::GameNotFound)
            },
            Some(mut g) => {
                assert(s0.contains_key(game_id) && s0[game_id] == g@);
                match play_san(g.position.as_str(), move_str) {
                    None => {
                        self.games.insert(game_id, g);
                        assert(self.sessions() =~= s0);
                        Err(GameError::InvalidMove)
                    },
                    Some(p) => {
                        let status = board_status(p.as_str());
                        match outcome_of(status) {
                            Some(o) => {
                                g.winner = winner_of(o);
                            },
                            None => {},
                        }
                        g.position = p;
                        let ghost old_moves = g.moves@;
                        let m = move_str.to_owned();
                        g.moves.push(m);
                        assert(g@.moves =~= s0[game_id].moves.push(move_str@)) by {
                            assert(g.moves@ == old_moves.push(m));
                        }
                        self.games.insert(game_id, g);
                        assert(self.sessions() =~= move_result(s0, game_id, move_str@).unwrap());
                        Ok(())
                    },
                }
            },
        }
    }

    /// The session `game_id`.
    pub fn game_status(&self, game_id: u32) -> (r: Result<&GameState, GameError>)
        ensures
            match r {
                Ok(g) => self.sessions().contains_key(game_id) && g@ == self.sessions()[game_id],
                Err(e) => !self.sessions().contains_key(game_id) && e == GameError::GameNotFound,
            },
    {
        match self.games.get(&game_id) {
            Some(g) => Ok(g),
            None => Err(GameError::GameNotFound),
        }
    }

    /// Applies one decoded transaction.
    pub fn execute_transaction(&mut self, tx: Transaction) -> (r: Result<(), GameError>)
        ensures
            match tx_result(old(self).sessions(), tx@) {
                Ok(s) => r is Ok && final(self).sessions() == s,
                Err(e) => r == Err::<(), GameError>(e) && final(self).sessions() == old(
                    self,
                ).sessions(),
            },
            final(self).current_block_hash == old(self).current_block_hash,
    {
        match tx {
            Transaction::StartGame { game_id } => {
                self.start_new_game(game_id);
                Ok(())
            },
            Transaction::MakeMove { game_id, move_san } => self.make_move(
                game_id,
                move_san.as_str(),
            ),
        }
    }
    /// Applies a batch of encoded transactions in order. Each one that fails
    /// to decode or to apply is recorded and skipped; the bytes of each one
    /// applied are appended to `seed`, and the SHA-256 of the whole is returned
    /// with the outcome of every transaction.
    pub fn process_transactions(&mut self, data: &Vec<Vec<u8>>, seed: &[u8]) -> (r: (
        Vec<u8>,
        Vec<TxOutcome>,
    ))
        ensures
            final(self).sessions() == batch(old(self).sessions(), payload_views(data@)).0,
            r.0@ == batch_digest(old(self).sessions(), payload_views(data@), seed@),
            r.1@ == batch(old(self).sessions(), payload_views(data@)).2,
            final(self).current_block_hash == old(self).current_block_hash,
    {
        let ghost s0 = self.sessions();
        let ghost txs = payload_views(data@);
        let mut absorbed: Vec<u8> = Vec::new();
        let mut k: usize = 0;
        while k < seed.len()
            invariant
                k <= seed@.len(),
                absorbed@ == seed@.subrange(0, k as int),
            decreases seed@.len() - k,
        {
            absorbed.push(seed[k]);
            k = k + 1;
            assert(absorbed@ =~= seed@.subrange(0, k as int));
        }
        assert(seed@.subrange(0, k as int) =~= seed@);
        let mut outcomes: Vec<TxOutcome> = Vec::new();
        let mut i: usize = 0;
        while i < data.len()
            invariant
                i <= data@.len(),
                txs == payload_views(data@),
                self.sessions() == batch(s0, txs.take(i as int)).0,
                absorbed@ == seed@ + batch(s0, txs.take(i as int)).1,
                outcomes@ == batch(s0, txs.take(i as int)).2,
                self.current_block_hash == old(self).current_block_hash,
            decreases data@.len() - i,
        {
            let bytes = &data[i];
            assert(txs.take(i + 1).drop_last() =~= txs.take(i as int));
            assert(txs.take(i + 1).last() == bytes@);
            let ghost before = absorbed@;
            match Transaction::decode(bytes.as_slice()) {
                Err(e) => {
                    outcomes.push(TxOutcome::Decode(e));
                    assert(before + Seq::<u8>::empty() =~= before);
                },
                Ok(tx) => {
                    match self.execute_transaction(tx) {
                        Err(e) => {
                            outcomes.push(TxOutcome::Apply(e));
                            assert(before + Seq::<u8>::empty() =~= before);
                        },
                        Ok(()) => {
                            let mut j: usize = 0;
                            while j < bytes.len()
                                invariant
                                    j <= bytes@.len(),
                                    absorbed@ == before + bytes@.subrange(0, j as int),
                                decreases bytes@.len() - j,
                            {
                                absorbed.push(bytes[j]);
                                j = j + 1;
                                assert(absorbed@ =~= before + bytes@.subrange(0, j as int));
                            }
                            assert(bytes@.subrange(0, j as int) =~= bytes@);
                            outcomes.push(TxOutcome::Success);
                        },
                    }
                },
            }
            i = i + 1;
            assert(absorbed@ =~= seed@ + batch(s0, txs.take(i as int)).1);
        }
        assert(txs.take(i as int) =~= txs);
        let digest = sha256(absorbed.as_slice());
        (digest, outcomes)
    }

    /// Finalizes the digest of `absorbed` as the current block hash.
    pub fn finalize_block_hash(&mut self, absorbed: &[u8]) -> (r: Vec<u8>)
        ensures
            r@ == sha256_of(absorbed@),
            final(self).current_block_hash@ == r@,
            final(self).sessions() == old(self).sessions(),
    {
        let digest = sha256(absorbed);
        self.current_block_hash = digest.clone();
        digest
    }
}

} // verus!
