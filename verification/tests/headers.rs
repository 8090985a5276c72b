use clarity_db::hashing::make_index_block_hash;
use clarity_db::headers::{first_index_block_id, BurnStateDB, HeadersDB, NullBurnStateDB, NullHeadersDB};
use clarity_db::types::{BlockHeaderHash, ConsensusHash, SortitionId, StacksBlockId};

fn hex(bytes: &[u8]) -> String {
    bytes.iter().map(|b| format!("{:02x}", b)).collect()
}

#[test]
fn first_index_block_hash_is_the_sha512_256_of_zero_hashes() {
    assert_eq!(hex(&first_index_block_id().0), "55c9861be5cff984a20ce6d99d4aa65941412889bdc665094136429b84f8c2ee");
}

#[test]
fn index_block_hash_depends_on_both_hashes() {
    let a = make_index_block_hash(&ConsensusHash([0u8; 20]), &BlockHeaderHash([1u8; 32]));
    let b = make_index_block_hash(&ConsensusHash([1u8; 20]), &BlockHeaderHash([0u8; 32]));
    assert_ne!(a, b);
    assert_ne!(a, first_index_block_id());
    assert_ne!(a.0, [1u8; 32]);
}

#[test]
fn null_headers_know_only_the_first_block() {
    let db = NullHeadersDB {};
    let first = first_index_block_id();
    assert_eq!(db.get_burn_block_height_for_block(&first), Some(0));
    assert_eq!(db.get_burn_block_time_for_block(&first), Some(0));
    assert_eq!(db.get_burn_header_hash_for_block(&first).map(|h| h.0), Some([0u8; 32]));
    assert_eq!(db.get_stacks_block_header_hash_for_block(&first).map(|h| h.0), Some([0u8; 32]));
    assert_eq!(db.get_vrf_seed_for_block(&first), None);
    assert_eq!(db.get_miner_address(&first), None);
    assert_eq!(db.get_total_liquid_ustx(&first), 0);
    let other = StacksBlockId([3u8; 32]);
    assert_eq!(db.get_burn_block_height_for_block(&other), None);
    assert_eq!(db.get_burn_block_time_for_block(&other), None);
    assert_eq!(db.get_burn_header_hash_for_block(&other), None);
    assert_eq!(db.get_stacks_block_header_hash_for_block(&other), None);
}

#[test]
fn null_burn_state_knows_nothing() {
    let db = NullBurnStateDB {};
    assert_eq!(db.get_burn_block_height(&SortitionId([0u8; 32])), None);
    assert_eq!(db.get_burn_header_hash(0, &SortitionId([0u8; 32])), None);
}
