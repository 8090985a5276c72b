//! SHA-512/256 digests, and the index hash of a Stacks block.

use vstd::prelude::*;
use sha2::Digest;
use crate::types::{BlockHeaderHash, ConsensusHash, StacksBlockId};

verus! {

/// The SHA-512/256 digest of a byte string (FIPS 180-4), as `sha2` computes it.
pub uninterp spec fn sha512_256_of(data: Seq<u8>) -> Seq<u8>;

/// Calls `sha2::Sha512_256::digest` on `data`. The digest is a function of
/// the bytes alone; nothing else about it is stated.
#[verifier::external_body]
pub(crate) fn sha512_256(data: &[u8]) -> (res: [u8; 32])
    ensures
        res@ == sha512_256_of(data@),
{
    sha2::Sha512_256::digest(data).into()
}

/// The bytes that name a Stacks block: its header hash, then the consensus
/// hash of the sortition it was mined in.
pub open spec fn index_preimage(consensus_hash: Seq<u8>, block_hash: Seq<u8>) -> Seq<u8> {
    block_hash + consensus_hash
}

/// The index hash of the block with header hash `block_hash` that was mined
/// in the sortition with consensus hash `consensus_hash`.
pub fn make_index_block_hash(consensus_hash: &ConsensusHash, block_hash: &BlockHeaderHash) -> (res: StacksBlockId)
    ensures
        res.0@ == sha512_256_of(index_preimage(consensus_hash.0@, block_hash.0@)),
{
    let mut preimage: Vec<u8> = Vec::new();
    let mut i: usize = 0;
    while i < 32
        invariant
            0 <= i <= 32,
            block_hash.0@.len() == 32,
            preimage@ == block_hash.0@.take(i as int),
        decreases 32 - i,
    {
        preimage.push(block_hash.0[i]);
        i += 1;
        assert(preimage@ =~= block_hash.0@.take(i as int));
    }
    let mut j: usize = 0;
    while j < 20
        invariant
            0 <= j <= 20,
            block_hash.0@.len() == 32,
            consensus_hash.0@.len() == 20,
            preimage@ == block_hash.0@ + consensus_hash.0@.take(j as int),
        decreases 20 - j,
    {
        preimage.push(consensus_hash.0[j]);
        j += 1;
        assert(preimage@ =~= block_hash.0@ + consensus_hash.0@.take(j as int));
    }
    assert(block_hash.0@.take(32) =~= block_hash.0@);
    assert(consensus_hash.0@.take(20) =~= consensus_hash.0@);
    StacksBlockId(sha512_256(preimage.as_slice()))
}

} // verus!
