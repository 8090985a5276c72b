//! Contract calls that need more than running the contract: a successful
//! call of `stack-stx` on the PoX boot contract locks the caller's STX.

use vstd::prelude::*;
use crate::c32::{c32_address, c32_address_result};
use crate::errors::ClarityError;
use crate::types::{zero_bytes20, zeros20};

verus! {

/// The address version of a single-signature testnet address.
pub const C32_ADDRESS_VERSION_TESTNET_SINGLESIG: u8 = 26;

/// The textual form of the boot contract `name`: the testnet boot address,
/// whose public key hash is 20 zero bytes, a dot, and the name.
pub open spec fn boot_code_text(name: Seq<char>) -> Seq<char> {
    match c32_address_result(C32_ADDRESS_VERSION_TESTNET_SINGLESIG, zeros20()) {
        Ok(address) => address + "."@ + name,
        Err(_) => Seq::empty(),
    }
}

/// The identifier of the boot contract `name`, in textual form.
pub fn boot_code_id(name: &str) -> (res: String)
    ensures
        res@ == boot_code_text(name@),
{
    let zeros = zero_bytes20();
    match c32_address(C32_ADDRESS_VERSION_TESTNET_SINGLESIG, zeros.as_slice()) {
        Ok(address) => {
            let mut id = address;
            id.append(".");
            id.append(name);
            id
        },
        Err(_) => {
            proof { assert(false); }
            String::new()
        },
    }
}

/// What the PoX contract returned: the stacker, the amount it locks and the
/// burnchain height at which the lock expires, or an error code.
pub enum PoxCallResult {
    Stacked(PoxStacking),
    Refused(i128),
}

/// The tuple that a successful `stack-stx` returns.
pub struct PoxStacking {
    pub stacker: String,
    pub lock_amount: u128,
    pub unlock_burn_height: u128,
}

/// A lock of STX that a call asks for.
#[derive(Debug, Clone, PartialEq, Eq)]
pub struct PoxLock {
    pub principal: String,
    pub lock_amount: u128,
    pub unlock_burn_height: u64,
}

/// The stacker, lock amount and unlock height of a successful call, or the
/// error code of a failed one.
fn parse_pox_stacking_result(result: &PoxCallResult) -> (res: Result<(String, u128, u128), i128>)
    ensures
        match result {
            PoxCallResult::Stacked(t) => res matches Ok((s, a, h)) && s@ == t.stacker@ && a == t.lock_amount
                && h == t.unlock_burn_height,
            PoxCallResult::Refused(code) => res == Err::<(String, u128, u128), i128>(*code),
        },
{
    match result {
        PoxCallResult::Stacked(t) => Ok((t.stacker.clone(), t.lock_amount, t.unlock_burn_height)),
        PoxCallResult::Refused(code) => Err(*code),
    }
}

/// The lock that a call of the PoX contract asks for, if any.
pub open spec fn pox_call_outcome(sender: Option<Seq<char>>, function_name: Seq<char>, value: &PoxCallResult,
    res: Result<Option<PoxLock>, ClarityError>) -> bool
{
    if function_name == "stack-stx"@ {
        match sender {
            None => res == Err::<Option<PoxLock>, ClarityError>(ClarityError::NoSenderInContext),
            Some(s) => match value {
                PoxCallResult::Stacked(t) => res matches Ok(Some(lock)) && lock.principal@ == s
                    && lock.lock_amount == t.lock_amount && lock.unlock_burn_height == t.unlock_burn_height as u64,
                PoxCallResult::Refused(_) => res matches Ok(None),
            },
        }
    } else {
        res matches Ok(None)
    }
}

/// A lock is asked for only by a call of `stack-stx` that the contract
/// accepted and that has a sender; it locks the sender's STX, the amount the
/// contract returned, until the height the contract returned (its low 64
/// bits). A refused call, or a call of any other function, asks for none.
pub proof fn law_pox_lock_is_what_the_contract_returned(sender: Option<Seq<char>>, function_name: Seq<char>,
    value: &PoxCallResult, res: Result<Option<PoxLock>, ClarityError>)
    requires
        pox_call_outcome(sender, function_name, value, res),
    ensures
        res matches Ok(Some(lock)) ==> {
            &&& function_name == "stack-stx"@
            &&& sender == Some(lock.principal@)
            &&& value matches PoxCallResult::Stacked(t)
            &&& lock.lock_amount == t.lock_amount
            &&& lock.unlock_burn_height as int == t.unlock_burn_height as int % 0x1_0000_0000_0000_0000
        },
        function_name != "stack-stx"@ ==> res == Ok::<Option<PoxLock>, ClarityError>(None),
        value matches PoxCallResult::Refused(_) ==> !(res matches Ok(Some(_))),
        res is Err ==> function_name == "stack-stx"@ && sender is None,
{
    if res matches Ok(Some(lock)) {
        if let PoxCallResult::Stacked(t) = value {
            let h = t.unlock_burn_height;
            assert(h as u64 as int == h as int % 0x1_0000_0000_0000_0000) by (bit_vector);
        }
    }
}

/// In a successful call of `stack-stx`, the stacker named is the sender.
pub open spec fn stacker_is_sender(sender: Option<Seq<char>>, function_name: Seq<char>, value: &PoxCallResult) -> bool {
    function_name == "stack-stx"@ ==> match (sender, value) {
        (Some(s), PoxCallResult::Stacked(t)) => t.stacker@ == s,
        _ => true,
    }
}

/// The view of an optional string.
pub open spec fn opt_text(s: Option<&str>) -> Option<Seq<char>> {
    match s {
        Some(t) => Some(t@),
        None => None,
    }
}

/// Two strings are equal.
fn same_text(a: &str, b: &str) -> (res: bool)
    ensures
        res == (a@ == b@),
{
    a.to_owned() == b.to_owned()
}

/// A call of `stack-stx` needs a sender; when the contract accepted it, the
/// sender's STX are to be locked as the contract says, with the unlock
/// height truncated to 64 bits.
fn handle_pox_api_contract_call(sender_opt: Option<&str>, function_name: &str, value: &PoxCallResult) -> (res: Result<Option<PoxLock>, ClarityError>)
    requires
        stacker_is_sender(opt_text(sender_opt), function_name@, value),
    ensures
        pox_call_outcome(opt_text(sender_opt), function_name@, value, res),
{
    if same_text(function_name, "stack-stx") {
        let sender = match sender_opt {
            None => {
                return Err(ClarityError::NoSenderInContext);
            },
            Some(sender) => sender.to_owned(),
        };

        match parse_pox_stacking_result(value) {
            Ok((_stacker, lock_amount, unlock_burn_height)) => {
                return Ok(Some(PoxLock {
                    principal: sender,
                    lock_amount,
                    unlock_burn_height: unlock_burn_height as u64,
                }));
            },
            Err(_) => {
                return Ok(None);
            },
        }
    }
    Ok(None)
}

/// The lock that a contract call asks for: only calls of the PoX boot
/// contract can ask for one.
pub fn handle_contract_call_special_cases(sender: Option<&str>, contract_id: &str, function_name: &str, result: &PoxCallResult) -> (res: Result<Option<PoxLock>, ClarityError>)
    requires
        contract_id@ == boot_code_text("pox"@) ==> stacker_is_sender(opt_text(sender), function_name@, result),
    ensures
        contract_id@ == boot_code_text("pox"@) ==> pox_call_outcome(opt_text(sender), function_name@, result, res),
        contract_id@ != boot_code_text("pox"@) ==> res matches Ok(None),
{
    let pox = boot_code_id("pox");
    if same_text(contract_id, pox.as_str()) {
        return handle_pox_api_contract_call(sender, function_name, result);
    }
    Ok(None)
}

} // verus!
