//! The records that the Clarity database keeps about contracts, tokens and
//! simulated blocks, and the traits of values that have a textual form.

use vstd::prelude::*;
use crate::keys::decimal;

verus! {

/// A value with a textual form in which it can be stored.
pub trait ClaritySerializable {
    fn serialize(&self) -> String;
}

/// A value that can be read back from its textual form.
pub trait ClarityDeserializable<T> {
    fn deserialize(json: &str) -> T;
}

impl ClaritySerializable for String {
    /// A string is stored as itself.
    fn serialize(&self) -> (res: String)
        ensures
            res@ == self@,
    {
        self.clone()
    }
}

impl ClarityDeserializable<String> for String {
    /// A string is read back as itself.
    fn deserialize(serialized: &str) -> (res: String)
        ensures
            res@ == serialized@,
    {
        serialized.to_owned()
    }
}

/// The JSON text of an integer, as `serde_json::to_string` writes it: its
/// decimal digits, after a minus sign if it is negative.
pub open spec fn json_of_integer(v: int) -> Seq<char> {
    if v < 0 {
        seq!['-'] + decimal((-v) as nat)
    } else {
        decimal(v as nat)
    }
}

/// Calls `serde_json::to_string` on a `u64`, which writes the integer with
/// `itoa`. Writing an integer cannot fail.
#[verifier::external_body]
fn json_u64(v: u64) -> (res: String)
    ensures
        res@ == json_of_integer(v as int),
{
    match serde_json::to_string(&v) {
        Ok(s) => s,
        Err(_) => String::new(),
    }
}

/// Calls `serde_json::to_string` on a `u128`, which writes the integer with
/// `itoa`. Writing an integer cannot fail.
#[verifier::external_body]
fn json_u128(v: u128) -> (res: String)
    ensures
        res@ == json_of_integer(v as int),
{
    match serde_json::to_string(&v) {
        Ok(s) => s,
        Err(_) => String::new(),
    }
}

/// Calls `serde_json::to_string` on an `i128`, which writes the integer with
/// `itoa`. Writing an integer cannot fail.
#[verifier::external_body]
fn json_i128(v: i128) -> (res: String)
    ensures
        res@ == json_of_integer(v as int),
{
    match serde_json::to_string(&v) {
        Ok(s) => s,
        Err(_) => String::new(),
    }
}

impl ClaritySerializable for u64 {
    /// An integer is stored as its JSON text.
    fn serialize(&self) -> (res: String)
        ensures
            res@ == json_of_integer(*self as int),
    {
        json_u64(*self)
    }
}

impl ClaritySerializable for u128 {
    /// An integer is stored as its JSON text.
    fn serialize(&self) -> (res: String)
        ensures
            res@ == json_of_integer(*self as int),
    {
        json_u128(*self)
    }
}

impl ClaritySerializable for i128 {
    /// An integer is stored as its JSON text.
    fn serialize(&self) -> (res: String)
        ensures
            res@ == json_of_integer(*self as int),
    {
        json_i128(*self)
    }
}

/// What is recorded of a fungible token: its total supply, if it has one.
#[derive(Debug, Clone, Copy, PartialEq, Eq, Structural)]
pub struct FungibleTokenMetadata {
    pub total_supply: Option<u128>,
}

/// What is recorded of a non-fungible token: the type of its asset
/// identifiers, in the textual form of a Clarity type signature.
#[derive(Debug, Clone, PartialEq, Eq)]
pub struct NonFungibleTokenMetadata {
    pub key_type: String,
}

/// What is recorded of a data map: the types of its keys and of its values,
/// in the textual form of Clarity type signatures.
#[derive(Debug, Clone, PartialEq, Eq)]
pub struct DataMapMetadata {
    pub key_type: String,
    pub value_type: String,
}

/// What is recorded of a data variable: the type of its value, in the
/// textual form of a Clarity type signature.
#[derive(Debug, Clone, PartialEq, Eq)]
pub struct DataVariableMetadata {
    pub value_type: String,
}

/// A contract, in its textual form.
#[derive(Debug, Clone, PartialEq, Eq)]
pub struct ContractMetadata {
    pub contract: String,
}

/// A block of a simulated chain.
#[derive(Debug, Clone, Copy, PartialEq, Eq)]
pub struct SimmedBlock {
    pub block_height: u64,
    pub block_time: u64,
    pub block_header_hash: [u8; 32],
    pub burn_chain_header_hash: [u8; 32],
    pub vrf_seed: [u8; 32],
}

} // verus!
