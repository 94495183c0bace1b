use chess_rollup::blocks::{AppState, Block, HeightConflict, Timestamp};
use chess_rollup::codec::Transaction;
use chess_rollup::service::{
    BlockIdentifier, CommitmentState, ExecError, RollupData, RollupExecutionService,
};
use sha2::Digest;

fn seq_start(game_id: u32) -> RollupData {
    RollupData::SequencedData(Transaction::StartGame { game_id }.encode())
}

fn seq_move(game_id: u32, text: &str) -> RollupData {
    RollupData::SequencedData(Transaction::MakeMove { game_id, move_san: text.to_string() }.encode())
}

fn ts(seconds: i64) -> Timestamp {
    Timestamp { seconds, nanos: 0 }
}

fn block(height: u32, hash: Vec<u8>) -> Block {
    Block { height, hash, parent_hash: vec![], timestamp: ts(0), transactions: vec![] }
}

#[test]
fn genesis_then_two_blocks() {
    let mut s = RollupExecutionService::new();
    assert_eq!(s.app.soft_height, 0);
    let genesis_hash = s.get_block(&BlockIdentifier::BlockNumber(0)).unwrap().hash.clone();
    assert_eq!(genesis_hash, vec![69u8; 32]);

    let b1 = s.execute_block(genesis_hash.clone(), ts(10), &vec![seq_start(1)]).unwrap();
    assert_eq!(b1.height, 1);
    assert_eq!(b1.parent_hash, genesis_hash);
    assert_eq!(s.app.soft_height, 1);
    let g = s.game_manager.game_status(1).unwrap();
    assert_eq!(g.winner, None);
    assert!(g.moves.is_empty());

    let b2 = s.execute_block(b1.hash.clone(), ts(11), &vec![seq_move(1, "e4")]).unwrap();
    assert_eq!(b2.height, 2);
    assert_eq!(b2.parent_hash, b1.hash);
    assert_eq!(s.app.soft_height, 2);
    assert_eq!(s.game_manager.game_status(1).unwrap().moves, vec!["e4".to_string()]);
    assert_eq!(s.app.firm_height, 0);
}

#[test]
fn executed_block_hash_is_digest_of_parent_and_payloads() {
    let mut s = RollupExecutionService::new();
    let parent = vec![69u8; 32];
    let payload = Transaction::StartGame { game_id: 8 }.encode();
    let b = s
        .execute_block(parent.clone(), ts(3), &vec![RollupData::Deposit, seq_start(8), RollupData::Deposit])
        .unwrap();
    let mut h = sha2::Sha256::new();
    h.update(&parent);
    h.update(&payload);
    assert_eq!(b.hash, h.finalize().to_vec());
    assert_eq!(b.transactions, vec![payload]);
    assert_eq!(b.timestamp, ts(3));
    let stored = s.get_block(&BlockIdentifier::BlockNumber(1)).unwrap();
    assert_eq!(stored.hash, b.hash);
}

#[test]
fn rejected_commitment_update() {
    let mut s = RollupExecutionService::new();
    let b1 = s.execute_block(vec![69u8; 32], ts(1), &vec![seq_start(1)]).unwrap();
    let request = CommitmentState {
        soft: block(1, vec![0u8; 32]),
        firm: block(0, vec![69u8; 32]),
        base_celestia_height: 9,
    };
    assert_eq!(s.update_commitment_state(&request).unwrap_err(), ExecError::HashMismatch);
    let c = s.get_commitment_state();
    assert_eq!(c.soft.height, 1);
    assert_eq!(c.soft.hash, b1.hash);
    assert_eq!(c.firm.height, 0);
    assert_eq!(c.base_celestia_height, 2);
}

#[test]
fn firm_hash_mismatch_is_rejected() {
    let mut s = RollupExecutionService::new();
    let b1 = s.execute_block(vec![69u8; 32], ts(1), &vec![]).unwrap();
    let request = CommitmentState {
        soft: block(1, b1.hash.clone()),
        firm: block(0, vec![1u8; 32]),
        base_celestia_height: 9,
    };
    assert_eq!(s.update_commitment_state(&request).unwrap_err(), ExecError::HashMismatch);
    assert_eq!(s.app.firm_height, 0);
}

#[test]
fn accepted_commitment_update() {
    let mut s = RollupExecutionService::new();
    let b1 = s.execute_block(vec![69u8; 32], ts(1), &vec![]).unwrap();
    let b2 = s.execute_block(b1.hash.clone(), ts(2), &vec![]).unwrap();
    let request = CommitmentState {
        soft: block(2, b2.hash.clone()),
        firm: block(1, b1.hash.clone()),
        base_celestia_height: 7,
    };
    let c = s.update_commitment_state(&request).unwrap();
    assert_eq!((c.soft.height, c.firm.height, c.base_celestia_height), (2, 1, 7));
    assert_eq!((s.app.soft_height, s.app.firm_height, s.app.celestia_height), (2, 1, 7));
}

#[test]
fn commitment_update_with_firm_above_soft() {
    let mut s = RollupExecutionService::new();
    let b1 = s.execute_block(vec![69u8; 32], ts(1), &vec![]).unwrap();
    let request = CommitmentState {
        soft: block(0, vec![69u8; 32]),
        firm: block(1, b1.hash.clone()),
        base_celestia_height: 7,
    };
    assert_eq!(s.update_commitment_state(&request).unwrap_err(), ExecError::HeightConflict);
    assert_eq!((s.app.soft_height, s.app.firm_height), (1, 0));
}

#[test]
fn commitment_update_naming_missing_block() {
    let mut s = RollupExecutionService::new();
    let request = CommitmentState {
        soft: block(5, vec![0u8; 32]),
        firm: block(0, vec![69u8; 32]),
        base_celestia_height: 7,
    };
    assert_eq!(s.update_commitment_state(&request).unwrap_err(), ExecError::InvalidArgument);
}

#[test]
fn hash_lookup_is_unimplemented() {
    let s = RollupExecutionService::new();
    let existing = BlockIdentifier::BlockHash(vec![69u8; 32]);
    let absent = BlockIdentifier::BlockHash(vec![1, 2, 3]);
    assert_eq!(s.get_block(&existing).unwrap_err(), ExecError::Unimplemented);
    assert_eq!(s.get_block(&absent).unwrap_err(), ExecError::Unimplemented);
}

#[test]
fn missing_height_is_invalid_argument() {
    let s = RollupExecutionService::new();
    assert_eq!(s.get_block(&BlockIdentifier::BlockNumber(3)).unwrap_err(), ExecError::InvalidArgument);
}

#[test]
fn batch_get_blocks_in_order() {
    let mut s = RollupExecutionService::new();
    s.execute_block(vec![69u8; 32], ts(1), &vec![]).unwrap();
    let ids = vec![BlockIdentifier::BlockNumber(1), BlockIdentifier::BlockNumber(0)];
    let blocks = s.batch_get_blocks(&ids).unwrap();
    assert_eq!(blocks.iter().map(|b| b.height).collect::<Vec<_>>(), vec![1, 0]);
    assert!(s.batch_get_blocks(&vec![]).unwrap().is_empty());
}

#[test]
fn batch_get_blocks_fails_whole_call() {
    let s = RollupExecutionService::new();
    let ids = vec![BlockIdentifier::BlockNumber(0), BlockIdentifier::BlockNumber(4)];
    assert_eq!(s.batch_get_blocks(&ids).unwrap_err(), ExecError::InvalidArgument);
    let ids = vec![BlockIdentifier::BlockHash(vec![]), BlockIdentifier::BlockNumber(4)];
    assert_eq!(s.batch_get_blocks(&ids).unwrap_err(), ExecError::Unimplemented);
}

#[test]
fn genesis_info_constants() {
    let g = RollupExecutionService::get_genesis_info();
    assert_eq!(g.rollup_id, vec![69u8; 32]);
    assert_eq!(g.sequencer_genesis_block_height, 2);
    assert_eq!(g.celestia_block_variance, 100);
}

#[test]
fn commitment_state_at_genesis() {
    let s = RollupExecutionService::new();
    let c = s.get_commitment_state();
    assert_eq!((c.soft.height, c.firm.height, c.base_celestia_height), (0, 0, 2));
    assert_eq!(c.soft.hash, vec![69u8; 32]);
}

#[test]
fn add_block_at_or_below_soft_height_is_refused() {
    let mut a = AppState::new();
    assert_eq!(a.add_block(block(2, vec![1])), Ok(()));
    assert_eq!(a.soft_height, 2);
    assert_eq!(a.add_block(block(2, vec![2])), Err(HeightConflict { soft_height: 2 }));
    assert_eq!(a.add_block(block(1, vec![3])), Err(HeightConflict { soft_height: 2 }));
    assert_eq!(a.soft_height, 2);
    assert_eq!(a.get_block(2).unwrap().hash, vec![1]);
    assert!(a.get_block(1).is_none());
}

#[test]
fn firm_height_cannot_pass_soft_height() {
    let mut a = AppState::new();
    a.add_block(block(1, vec![1])).unwrap();
    assert_eq!(a.set_firm_height(2), Err(HeightConflict { soft_height: 1 }));
    assert_eq!(a.firm_height, 0);
    assert_eq!(a.set_firm_height(1), Ok(()));
    assert_eq!(a.firm_height, 1);
}

#[test]
fn parent_hash_lookup() {
    let mut a = AppState::new();
    let b = a.new_block(vec![7, 7], vec![8], 1, vec![vec![1, 2]], ts(5)).unwrap();
    assert_eq!(b.hash, vec![8]);
    assert_eq!(a.get_parent_hash(1), Some(&vec![7, 7]));
    assert_eq!(a.get_parent_hash(0), Some(&vec![]));
    assert_eq!(a.get_parent_hash(4), None);
    assert_eq!(a.new_block(vec![], vec![], 1, vec![], ts(0)).unwrap_err(), HeightConflict { soft_height: 1 });
}
