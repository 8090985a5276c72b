//! The errors that the Clarity database reports.

use vstd::prelude::*;

verus! {

/// An error of the Clarity database: an unchecked error of the contract
/// (a name that does not exist, a value of the wrong type), a runtime error,
/// or an overflow of a cost counter.
#[derive(Debug, Clone, PartialEq, Eq)]
pub enum ClarityError {
    NoSuchContract(String),
    NoSuchDataVariable(String),
    NoSuchMap(String),
    NoSuchFT(String),
    NoSuchNFT(String),
    /// A value (second) that its expected type (first) does not admit.
    TypeValueError(String, String),
    ArithmeticOverflow,
    /// A new supply (first) above the total supply (second).
    SupplyOverflow(u128, u128),
    NoSuchToken,
    NoSenderInContext,
    CostOverflow,
}

} // verus!
