//! What the Clarity database reads of block headers and of the burnchain,
//! and the databases that answer for an empty chain.

use vstd::prelude::*;
use crate::hashing::{make_index_block_hash, sha512_256_of, index_preimage};
use crate::types::{
    bytes32_equal, view_opt, zero_bytes20, zero_bytes32, zeros20, zeros32, BlockHeaderHash,
    BurnchainHeaderHash, ConsensusHash, SortitionId, StacksAddress, StacksBlockId, VRFSeed,
};

verus! {

/// The height of the first burnchain block.
pub const FIRST_BURNCHAIN_BLOCK_HEIGHT: u32 = 0;

/// The timestamp of the first burnchain block.
pub const FIRST_BURNCHAIN_BLOCK_TIMESTAMP: u64 = 0;

/// The header hash of the first burnchain block: 32 zero bytes.
pub fn first_burnchain_block_hash() -> (res: BurnchainHeaderHash)
    ensures
        res@ == zeros32(),
{
    BurnchainHeaderHash(zero_bytes32())
}

/// The consensus hash of the first burnchain sortition: 20 zero bytes.
pub fn first_burnchain_consensus_hash() -> (res: ConsensusHash)
    ensures
        res@ == zeros20(),
{
    ConsensusHash(zero_bytes20())
}

/// The header hash of the first Stacks block: 32 zero bytes.
pub fn first_stacks_block_hash() -> (res: BlockHeaderHash)
    ensures
        res@ == zeros32(),
{
    BlockHeaderHash(zero_bytes32())
}

/// The index hash of the first Stacks block, mined in the first sortition.
pub open spec fn first_index_block_hash() -> Seq<u8> {
    sha512_256_of(index_preimage(zeros20(), zeros32()))
}

/// The index hash of the first Stacks block.
pub fn first_index_block_id() -> (res: StacksBlockId)
    ensures
        res@ == first_index_block_hash(),
{
    make_index_block_hash(&first_burnchain_consensus_hash(), &first_stacks_block_hash())
}

/// What the Clarity database reads of Stacks block headers. Each answer is a
/// function of the block's index hash, which the spec functions name.
pub trait HeadersDB {
    spec fn stacks_block_header_hash_of(&self, id_bhh: Seq<u8>) -> Option<Seq<u8>>;

    spec fn burn_header_hash_of(&self, id_bhh: Seq<u8>) -> Option<Seq<u8>>;

    spec fn vrf_seed_of(&self, id_bhh: Seq<u8>) -> Option<Seq<u8>>;

    spec fn burn_block_time_of(&self, id_bhh: Seq<u8>) -> Option<u64>;

    spec fn burn_block_height_of(&self, id_bhh: Seq<u8>) -> Option<u32>;

    spec fn miner_address_of(&self, id_bhh: Seq<u8>) -> Option<(u8, Seq<u8>)>;

    spec fn total_liquid_ustx_of(&self, id_bhh: Seq<u8>) -> u128;

    fn get_stacks_block_header_hash_for_block(&self, id_bhh: &StacksBlockId) -> (res: Option<BlockHeaderHash>)
        ensures
            view_opt(res) == self.stacks_block_header_hash_of(id_bhh@),
    ;

    fn get_burn_header_hash_for_block(&self, id_bhh: &StacksBlockId) -> (res: Option<BurnchainHeaderHash>)
        ensures
            view_opt(res) == self.burn_header_hash_of(id_bhh@),
    ;

    fn get_vrf_seed_for_block(&self, id_bhh: &StacksBlockId) -> (res: Option<VRFSeed>)
        ensures
            view_opt(res) == self.vrf_seed_of(id_bhh@),
    ;

    fn get_burn_block_time_for_block(&self, id_bhh: &StacksBlockId) -> (res: Option<u64>)
        ensures
            res == self.burn_block_time_of(id_bhh@),
    ;

    fn get_burn_block_height_for_block(&self, id_bhh: &StacksBlockId) -> (res: Option<u32>)
        ensures
            res == self.burn_block_height_of(id_bhh@),
    ;

    fn get_miner_address(&self, id_bhh: &StacksBlockId) -> (res: Option<StacksAddress>)
        ensures
            view_opt(res) == self.miner_address_of(id_bhh@),
    ;

    fn get_total_liquid_ustx(&self, id_bhh: &StacksBlockId) -> (res: u128)
        ensures
            res == self.total_liquid_ustx_of(id_bhh@),
    ;
}

/// What the Clarity database reads of the burnchain. Each answer is a
/// function of its arguments, which the spec functions name.
pub trait BurnStateDB {
    spec fn burn_block_height_of(&self, sortition_id: Seq<u8>) -> Option<u32>;

    spec fn burn_header_hash_of(&self, height: u32, sortition_id: Seq<u8>) -> Option<Seq<u8>>;

    fn get_burn_block_height(&self, sortition_id: &SortitionId) -> (res: Option<u32>)
        ensures
            res == self.burn_block_height_of(sortition_id@),
    ;

    fn get_burn_header_hash(&self, height: u32, sortition_id: &SortitionId) -> (res: Option<BurnchainHeaderHash>)
        ensures
            view_opt(res) == self.burn_header_hash_of(height, sortition_id@),
    ;
}

/// A headers database that knows only the first block of the chain.
pub struct NullHeadersDB {}

/// A burnchain database that knows nothing.
pub struct NullBurnStateDB {}

impl HeadersDB for NullHeadersDB {
    open spec fn stacks_block_header_hash_of(&self, id_bhh: Seq<u8>) -> Option<Seq<u8>> {
        if id_bhh == first_index_block_hash() { Some(zeros32()) } else { None }
    }

    open spec fn burn_header_hash_of(&self, id_bhh: Seq<u8>) -> Option<Seq<u8>> {
        if id_bhh == first_index_block_hash() { Some(zeros32()) } else { None }
    }

    open spec fn vrf_seed_of(&self, id_bhh: Seq<u8>) -> Option<Seq<u8>> {
        None
    }

    open spec fn burn_block_time_of(&self, id_bhh: Seq<u8>) -> Option<u64> {
        if id_bhh == first_index_block_hash() { Some(FIRST_BURNCHAIN_BLOCK_TIMESTAMP) } else { None }
    }

    open spec fn burn_block_height_of(&self, id_bhh: Seq<u8>) -> Option<u32> {
        if id_bhh == first_index_block_hash() { Some(FIRST_BURNCHAIN_BLOCK_HEIGHT) } else { None }
    }

    open spec fn miner_address_of(&self, id_bhh: Seq<u8>) -> Option<(u8, Seq<u8>)> {
        None
    }

    open spec fn total_liquid_ustx_of(&self, id_bhh: Seq<u8>) -> u128 {
        0
    }

    fn get_burn_header_hash_for_block(&self, id_bhh: &StacksBlockId) -> (res: Option<BurnchainHeaderHash>) {
        if bytes32_equal(&id_bhh.0, &first_index_block_id().0) {
            Some(first_burnchain_block_hash())
        } else {
            None
        }
    }

    fn get_vrf_seed_for_block(&self, _bhh: &StacksBlockId) -> (res: Option<VRFSeed>) {
        None
    }

    fn get_stacks_block_header_hash_for_block(&self, id_bhh: &StacksBlockId) -> (res: Option<BlockHeaderHash>) {
        if bytes32_equal(&id_bhh.0, &first_index_block_id().0) {
            Some(first_stacks_block_hash())
        } else {
            None
        }
    }

    fn get_burn_block_time_for_block(&self, id_bhh: &StacksBlockId) -> (res: Option<u64>) {
        if bytes32_equal(&id_bhh.0, &first_index_block_id().0) {
            Some(FIRST_BURNCHAIN_BLOCK_TIMESTAMP)
        } else {
            None
        }
    }

    fn get_burn_block_height_for_block(&self, id_bhh: &StacksBlockId) -> (res: Option<u32>) {
        if bytes32_equal(&id_bhh.0, &first_index_block_id().0) {
            Some(FIRST_BURNCHAIN_BLOCK_HEIGHT)
        } else {
            None
        }
    }

    fn get_miner_address(&self, _id_bhh: &StacksBlockId) -> (res: Option<StacksAddress>) {
        None
    }

    fn get_total_liquid_ustx(&self, _id_bhh: &StacksBlockId) -> (res: u128) {
        0
    }
}

impl BurnStateDB for NullBurnStateDB {
    open spec fn burn_block_height_of(&self, sortition_id: Seq<u8>) -> Option<u32> {
        None
    }

    open spec fn burn_header_hash_of(&self, height: u32, sortition_id: Seq<u8>) -> Option<Seq<u8>> {
        None
    }

    fn get_burn_block_height(&self, _sortition_id: &SortitionId) -> (res: Option<u32>) {
        None
    }

    fn get_burn_header_hash(&self, _height: u32, _sortition_id: &SortitionId) -> (res: Option<BurnchainHeaderHash>) {
        None
    }
}

} // verus!
