//! Fixed-size identifiers of blocks, burnchain blocks and accounts.

use vstd::prelude::*;

verus! {

/// The index hash of a Stacks block: it names the block together with the
/// burnchain fork that it was mined on.
#[derive(Debug, Clone, Copy, PartialEq, Eq)]
pub struct StacksBlockId(pub [u8; 32]);

/// The hash of a Stacks block header.
#[derive(Debug, Clone, Copy, PartialEq, Eq)]
pub struct BlockHeaderHash(pub [u8; 32]);

/// The hash of a burnchain block header.
#[derive(Debug, Clone, Copy, PartialEq, Eq)]
pub struct BurnchainHeaderHash(pub [u8; 32]);

/// The VRF seed of a Stacks block.
#[derive(Debug, Clone, Copy, PartialEq, Eq)]
pub struct VRFSeed(pub [u8; 32]);

/// The identifier of a burnchain sortition.
#[derive(Debug, Clone, Copy, PartialEq, Eq)]
pub struct SortitionId(pub [u8; 32]);

/// The consensus hash of a burnchain sortition.
#[derive(Debug, Clone, Copy, PartialEq, Eq)]
pub struct ConsensusHash(pub [u8; 20]);

/// A Stacks address: a version byte and the hash of a public key.
#[derive(Debug, Clone, Copy, PartialEq, Eq)]
pub struct StacksAddress {
    pub version: u8,
    pub bytes: [u8; 20],
}

/// A standard principal: an address version byte and the hash of a public key.
#[derive(Debug, Clone, Copy, PartialEq, Eq)]
pub struct StandardPrincipalData(pub u8, pub [u8; 20]);

impl StandardPrincipalData {
    /// The principal of a Stacks address.
    pub fn from_address(address: StacksAddress) -> (res: StandardPrincipalData)
        ensures
            res.0 == address.version,
            res.1@ == address.bytes@,
    {
        StandardPrincipalData(address.version, address.bytes)
    }
}

impl View for StacksBlockId {
    type V = Seq<u8>;

    open spec fn view(&self) -> Seq<u8> {
        self.0@
    }
}

impl View for BlockHeaderHash {
    type V = Seq<u8>;

    open spec fn view(&self) -> Seq<u8> {
        self.0@
    }
}

impl View for BurnchainHeaderHash {
    type V = Seq<u8>;

    open spec fn view(&self) -> Seq<u8> {
        self.0@
    }
}

impl View for VRFSeed {
    type V = Seq<u8>;

    open spec fn view(&self) -> Seq<u8> {
        self.0@
    }
}

impl View for SortitionId {
    type V = Seq<u8>;

    open spec fn view(&self) -> Seq<u8> {
        self.0@
    }
}

impl View for ConsensusHash {
    type V = Seq<u8>;

    open spec fn view(&self) -> Seq<u8> {
        self.0@
    }
}

impl View for StacksAddress {
    type V = (u8, Seq<u8>);

    open spec fn view(&self) -> (u8, Seq<u8>) {
        (self.version, self.bytes@)
    }
}

impl View for StandardPrincipalData {
    type V = (u8, Seq<u8>);

    open spec fn view(&self) -> (u8, Seq<u8>) {
        (self.0, self.1@)
    }
}

/// The view of an optional value.
pub open spec fn view_opt<T: View>(o: Option<T>) -> Option<T::V> {
    match o {
        Some(t) => Some(t@),
        None => None,
    }
}

/// Two 32-byte strings are equal byte for byte.
pub fn bytes32_equal(a: &[u8; 32], b: &[u8; 32]) -> (res: bool)
    ensures
        res == (a@ == b@),
{
    let mut i: usize = 0;
    while i < 32
        invariant
            0 <= i <= 32,
            a@.len() == 32,
            b@.len() == 32,
            forall|j: int| 0 <= j < i ==> a@[j] == b@[j],
        decreases 32 - i,
    {
        if a[i] != b[i] {
            return false;
        }
        i += 1;
    }
    assert(a@ =~= b@);
    true
}

/// 32 zero bytes.
pub open spec fn zeros32() -> Seq<u8> {
    Seq::new(32, |i: int| 0u8)
}

/// 20 zero bytes.
pub open spec fn zeros20() -> Seq<u8> {
    Seq::new(20, |i: int| 0u8)
}

/// An array of 32 zero bytes.
pub fn zero_bytes32() -> (res: [u8; 32])
    ensures
        res@ == zeros32(),
{
    let res = [0u8; 32];
    assert(res@ =~= zeros32());
    res
}

/// An array of 20 zero bytes.
pub fn zero_bytes20() -> (res: [u8; 20])
    ensures
        res@ == zeros20(),
{
    let res = [0u8; 20];
    assert(res@ =~= zeros20());
    res
}

} // verus!
