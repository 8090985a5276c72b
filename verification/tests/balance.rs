use clarity_db::balance::{STXBalance, STXBalanceError};

fn bal(unlocked: u128, locked: u128, unlock_height: u64) -> STXBalance {
    STXBalance { amount_unlocked: unlocked, amount_locked: locked, unlock_height }
}

#[test]
fn zero_and_initial_balances() {
    assert_eq!(STXBalance::zero(), bal(0, 0, 0));
    assert_eq!(STXBalance::initial(1234), bal(1234, 0, 0));
}

#[test]
fn lock_is_active_before_its_height_and_unlockable_from_it() {
    let b = bal(10, 5, 100);
    assert!(b.has_locked_tokens(99));
    assert!(!b.has_locked_tokens_unlockable(99));
    assert!(!b.has_locked_tokens(100));
    assert!(b.has_locked_tokens_unlockable(100));
    let empty = bal(10, 0, 100);
    assert!(!empty.has_locked_tokens(1));
    assert!(!empty.has_locked_tokens_unlockable(200));
}

#[test]
fn available_balance_counts_expired_locks() {
    let b = bal(10, 5, 100);
    assert_eq!(b.get_available_balance_at_block(99), 10);
    assert_eq!(b.get_available_balance_at_block(100), 15);
    assert_eq!(b.get_total_balance(), 15);
    assert!(b.can_transfer(10, 99));
    assert!(!b.can_transfer(11, 99));
    assert!(b.can_transfer(15, 100));
    assert!(!b.can_transfer(16, 100));
}

#[test]
fn lock_tokens_moves_unlocked_into_locked() {
    let mut b = STXBalance::initial(1000);
    assert_eq!(b.lock_tokens(300, 100, 10), Ok(()));
    assert_eq!(b, bal(700, 300, 100));
    assert_eq!(b.get_total_balance(), 1000);
    assert_eq!(b.get_available_balance_at_block(10), 700);
}

#[test]
fn lock_tokens_refused_while_a_lock_is_active() {
    let mut b = bal(700, 300, 100);
    assert_eq!(b.lock_tokens(100, 200, 50), Err(STXBalanceError::LockActive));
    assert_eq!(b, bal(700, 300, 100));
}

#[test]
fn lock_tokens_releases_an_expired_lock_first() {
    let mut b = bal(700, 300, 100);
    assert_eq!(b.lock_tokens(200, 300, 150), Ok(()));
    assert_eq!(b, bal(800, 200, 300));
}

#[test]
fn unlock_available_tokens_reports_what_it_released() {
    let mut b = bal(10, 5, 100);
    assert_eq!(b.unlock_available_tokens_if_any(99), 0);
    assert_eq!(b, bal(10, 5, 100));
    assert_eq!(b.unlock_available_tokens_if_any(100), 5);
    assert_eq!(b, bal(15, 0, 0));
    assert_eq!(b.unlock_available_tokens_if_any(100), 0);
}

#[test]
fn debit_takes_from_unlocked_or_fails_with_underflow() {
    let mut b = bal(10, 5, 100);
    assert_eq!(b.debit(11, 50), Err(STXBalanceError::Underflow));
    assert_eq!(b, bal(10, 5, 100));
    assert_eq!(b.debit(12, 100), Ok(()));
    assert_eq!(b, bal(3, 0, 0));
}

#[test]
fn failed_debit_still_releases_expired_locks() {
    let mut b = bal(10, 5, 100);
    assert_eq!(b.debit(16, 100), Err(STXBalanceError::Underflow));
    assert_eq!(b, bal(15, 0, 0));
}

#[test]
fn credit_adds_or_fails_with_overflow() {
    let mut b = bal(10, 0, 0);
    assert_eq!(b.credit(5, 1), Ok(()));
    assert_eq!(b, bal(15, 0, 0));
    let mut full = bal(u128::MAX - 1, 0, 0);
    assert_eq!(full.credit(2, 1), Err(STXBalanceError::Overflow));
    assert_eq!(full, bal(u128::MAX - 1, 0, 0));
}

#[test]
fn transfer_moves_tokens_and_conserves_the_total() {
    let mut a = bal(100, 50, 10);
    let mut b = bal(7, 0, 0);
    assert_eq!(a.transfer_to(&mut b, 120, 10), Ok(()));
    assert_eq!(a, bal(30, 0, 0));
    assert_eq!(b, bal(127, 0, 0));
    assert_eq!(a.get_total_balance() + b.get_total_balance(), 157);
}

#[test]
fn refused_debit_leaves_the_recipient_alone() {
    let mut a = bal(5, 0, 0);
    let mut b = bal(7, 0, 0);
    assert_eq!(a.transfer_to(&mut b, 6, 1), Err(STXBalanceError::Underflow));
    assert_eq!(a, bal(5, 0, 0));
    assert_eq!(b, bal(7, 0, 0));
}

#[test]
fn refused_credit_keeps_the_debit() {
    let mut a = bal(5, 0, 0);
    let mut b = bal(u128::MAX, 0, 0);
    assert_eq!(a.transfer_to(&mut b, 3, 1), Err(STXBalanceError::Overflow));
    assert_eq!(a, bal(2, 0, 0));
    assert_eq!(b, bal(u128::MAX, 0, 0));
}

#[test]
fn debit_succeeds_exactly_when_can_transfer_says_so() {
    for (b, amount, height) in [
        (bal(10, 5, 100), 15u128, 100u64),
        (bal(10, 5, 100), 15, 99),
        (bal(10, 5, 100), 10, 99),
        (bal(0, 0, 0), 1, 0),
    ] {
        let mut c = b.clone();
        assert_eq!(c.debit(amount, height).is_ok(), b.can_transfer(amount, height));
    }
}

#[test]
fn credit_then_debit_gives_back_the_released_balance() {
    let mut b = bal(10, 5, 100);
    assert_eq!(b.credit(40, 120), Ok(()));
    assert_eq!(b.debit(40, 120), Ok(()));
    assert_eq!(b, bal(15, 0, 0));
}

#[test]
fn refused_debit_never_touches_a_recipient_with_an_expired_lock() {
    let mut a = bal(5, 0, 0);
    let mut b = bal(u128::MAX, 1, 0);
    assert_eq!(a.transfer_to(&mut b, 6, 1), Err(STXBalanceError::Underflow));
    assert_eq!(b, bal(u128::MAX, 1, 0));
}
