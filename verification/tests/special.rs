use clarity_db::errors::ClarityError;
use clarity_db::special::{boot_code_id, handle_contract_call_special_cases, PoxCallResult, PoxLock, PoxStacking};

fn stacked(stacker: &str, amount: u128, height: u128) -> PoxCallResult {
    PoxCallResult::Stacked(PoxStacking { stacker: stacker.to_string(), lock_amount: amount, unlock_burn_height: height })
}

#[test]
fn boot_contract_identifier() {
    assert_eq!(boot_code_id("pox"), "ST000000000000000000002AMW42H.pox");
}

#[test]
fn stack_stx_asks_for_a_lock() {
    let pox = boot_code_id("pox");
    let res = handle_contract_call_special_cases(Some("ST1"), &pox, "stack-stx", &stacked("ST1", 500, 77));
    assert_eq!(res, Ok(Some(PoxLock { principal: "ST1".to_string(), lock_amount: 500, unlock_burn_height: 77 })));
}

#[test]
fn unlock_height_is_truncated_to_64_bits() {
    let pox = boot_code_id("pox");
    let res = handle_contract_call_special_cases(Some("ST1"), &pox, "stack-stx", &stacked("ST1", 1, (1u128 << 64) + 5));
    assert_eq!(res, Ok(Some(PoxLock { principal: "ST1".to_string(), lock_amount: 1, unlock_burn_height: 5 })));
}

#[test]
fn stack_stx_without_a_sender_is_an_error() {
    let pox = boot_code_id("pox");
    let res = handle_contract_call_special_cases(None, &pox, "stack-stx", &stacked("ST1", 500, 77));
    assert_eq!(res, Err(ClarityError::NoSenderInContext));
}

#[test]
fn refused_stacking_locks_nothing() {
    let pox = boot_code_id("pox");
    let res = handle_contract_call_special_cases(Some("ST1"), &pox, "stack-stx", &PoxCallResult::Refused(3));
    assert_eq!(res, Ok(None));
}

#[test]
fn other_functions_and_contracts_lock_nothing() {
    let pox = boot_code_id("pox");
    assert_eq!(handle_contract_call_special_cases(Some("ST1"), &pox, "get-info", &stacked("ST1", 1, 1)), Ok(None));
    assert_eq!(handle_contract_call_special_cases(None, "ST1.other", "stack-stx", &stacked("ST1", 1, 1)), Ok(None));
}

#[test]
fn the_stacker_is_read_only_for_stack_stx_on_the_pox_contract() {
    let pox = boot_code_id("pox");
    assert_eq!(handle_contract_call_special_cases(Some("ST1"), &pox, "get-info", &stacked("ST2", 1, 1)), Ok(None));
    assert_eq!(handle_contract_call_special_cases(Some("ST1"), "ST1.other", "stack-stx", &stacked("ST2", 1, 1)), Ok(None));
}
