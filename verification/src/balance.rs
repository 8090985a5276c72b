//! The STX balance of an account: an unlocked amount, plus an amount that is
//! locked until a given burnchain block height.

use vstd::prelude::*;

verus! {

/// The STX held by one account.
#[derive(Debug, Clone, PartialEq, Eq, Structural)]
pub struct STXBalance {
    pub amount_unlocked: u128,
    pub amount_locked: u128,
    pub unlock_height: u64,
}

/// Why a balance operation was refused.
#[derive(Debug, Clone, Copy, PartialEq, Eq, Structural)]
pub enum STXBalanceError {
    Overflow,
    Underflow,
    LockActive,
}

impl STXBalance {
    // ------------------------------------------------------------------
    // The mathematical model of a balance
    // ------------------------------------------------------------------

    /// Unlocked plus locked tokens, as a mathematical integer.
    pub open spec fn total(self) -> int {
        self.amount_unlocked + self.amount_locked
    }

    /// Some tokens are locked and their lock has not yet expired at `block_height`.
    pub open spec fn locked_at(self, block_height: u64) -> bool {
        self.amount_locked > 0 && self.unlock_height > block_height
    }

    /// Some tokens are locked and their lock has expired at `block_height`.
    pub open spec fn unlockable_at(self, block_height: u64) -> bool {
        self.amount_locked > 0 && self.unlock_height <= block_height
    }

    /// The tokens that can be spent at `block_height`.
    pub open spec fn available_at(self, block_height: u64) -> int {
        if self.unlockable_at(block_height) {
            self.total()
        } else {
            self.amount_unlocked as int
        }
    }

    /// Folding expired locked tokens into the unlocked amount cannot overflow.
    pub open spec fn unlock_fits(self, block_height: u64) -> bool {
        self.unlockable_at(block_height) ==> self.total() <= u128::MAX
    }

    /// The balance once every lock that has expired at `block_height` is released.
    pub open spec fn released_at(self, block_height: u64) -> STXBalance
        recommends
            self.unlock_fits(block_height),
    {
        if self.unlockable_at(block_height) {
            STXBalance {
                amount_unlocked: (self.amount_unlocked + self.amount_locked) as u128,
                amount_locked: 0,
                unlock_height: 0,
            }
        } else {
            self
        }
    }

    /// The balance and the answer of a debit of `amount` at `block_height`.
    pub open spec fn debited(self, amount: u128, block_height: u64) -> (STXBalance, Result<(), STXBalanceError>) {
        let released = self.released_at(block_height);
        if amount <= released.amount_unlocked {
            (STXBalance { amount_unlocked: (released.amount_unlocked - amount) as u128, ..released }, Ok(()))
        } else {
            (released, Err(STXBalanceError::Underflow))
        }
    }

    /// The balance and the answer of a credit of `amount` at `block_height`.
    pub open spec fn credited(self, amount: u128, block_height: u64) -> (STXBalance, Result<(), STXBalanceError>) {
        let released = self.released_at(block_height);
        if released.amount_unlocked + amount <= u128::MAX {
            (STXBalance { amount_unlocked: (released.amount_unlocked + amount) as u128, ..released }, Ok(()))
        } else {
            (released, Err(STXBalanceError::Overflow))
        }
    }

    /// A lock of `amount` until `unlock_height` can be placed at `current_height`
    /// without a panic: the lock expires in the future, and unless a lock is
    /// still active, the unlocked tokens cover the amount.
    pub open spec fn lock_allowed(self, amount: u128, unlock_height: u64, current_height: u64) -> bool {
        let released = self.released_at(current_height);
        &&& self.unlock_fits(current_height)
        &&& unlock_height > current_height
        &&& (released.locked_at(current_height) || amount <= released.amount_unlocked)
    }

    /// The balance and the answer of a lock of `amount` until `unlock_height`,
    /// placed at `current_height`.
    pub open spec fn locked(self, amount: u128, unlock_height: u64, current_height: u64) -> (STXBalance, Result<(), STXBalanceError>) {
        let released = self.released_at(current_height);
        if released.locked_at(current_height) {
            (released, Err(STXBalanceError::LockActive))
        } else {
            (STXBalance {
                amount_unlocked: (released.amount_unlocked - amount) as u128,
                amount_locked: amount,
                unlock_height,
            }, Ok(()))
        }
    }

    // ------------------------------------------------------------------
    // Executable operations
    // ------------------------------------------------------------------

    /// A balance with nothing in it.
    pub fn zero() -> (res: STXBalance)
        ensures
            res == (STXBalance { amount_unlocked: 0, amount_locked: 0, unlock_height: 0 }),
    {
        STXBalance { amount_unlocked: 0, amount_locked: 0, unlock_height: 0 }
    }

    /// A balance of `amount_unlocked` spendable tokens and nothing locked.
    pub fn initial(amount_unlocked: u128) -> (res: STXBalance)
        ensures
            res == (STXBalance { amount_unlocked, amount_locked: 0, unlock_height: 0 }),
    {
        STXBalance { amount_unlocked, amount_locked: 0, unlock_height: 0 }
    }

    /// The tokens that can be spent at `block_height`: the unlocked ones, plus the
    /// locked ones if their lock has expired.
    pub fn get_available_balance_at_block(&self, block_height: u64) -> (res: u128)
        requires
            self.unlock_fits(block_height),
        ensures
            res == self.available_at(block_height),
    {
        match self.has_locked_tokens_unlockable(block_height) {
            true => self.get_total_balance(),
            false => self.amount_unlocked,
        }
    }

    /// Locks `amount_to_lock` of the unlocked tokens until `unlock_height`.
    /// Expired locks are released first, and stay released even when the new
    /// lock is refused because another lock is still active.
    pub fn lock_tokens(&mut self, amount_to_lock: u128, unlock_height: u64, current_height: u64) -> (res: Result<(), STXBalanceError>)
        requires
            old(self).lock_allowed(amount_to_lock, unlock_height, current_height),
        ensures
            (*final(self), res) == old(self).locked(amount_to_lock, unlock_height, current_height),
    {
        let _unlocked = self.unlock_available_tokens_if_any(current_height);

        if self.has_locked_tokens(current_height) {
            return Err(STXBalanceError::LockActive);
        }

        self.unlock_height = unlock_height;
        self.amount_unlocked = match self.amount_unlocked.checked_sub(amount_to_lock) {
            Some(v) => v,
            None => {
                proof { assert(false); }
                0
            },
        };
        self.amount_locked = amount_to_lock;
        Ok(())
    }

    /// Releases the locked tokens if their lock has expired at `block_height`,
    /// and returns how many were released (0 if none).
    pub fn unlock_available_tokens_if_any(&mut self, block_height: u64) -> (res: u128)
        requires
            old(self).unlock_fits(block_height),
        ensures
            *final(self) == old(self).released_at(block_height),
            res == (if old(self).unlockable_at(block_height) { old(self).amount_locked } else { 0 }),
    {
        if !self.has_locked_tokens_unlockable(block_height) {
            return 0;
        }

        let unlocked = self.amount_locked;
        self.unlock_height = 0;
        self.amount_unlocked = match self.amount_unlocked.checked_add(unlocked) {
            Some(v) => v,
            None => {
                proof { assert(false); }
                0
            },
        };
        self.amount_locked = 0;
        unlocked
    }

    /// Unlocked plus locked tokens.
    pub fn get_total_balance(&self) -> (res: u128)
        requires
            self.total() <= u128::MAX,
        ensures
            res == self.total(),
    {
        match self.amount_unlocked.checked_add(self.amount_locked) {
            Some(v) => v,
            None => {
                proof { assert(false); }
                0
            },
        }
    }

    /// Some tokens are locked and the lock is still active at `block_height`.
    pub fn has_locked_tokens(&self, block_height: u64) -> (res: bool)
        ensures
            res == self.locked_at(block_height),
    {
        self.amount_locked > 0 && self.unlock_height > block_height
    }

    /// Some tokens are locked and the lock has expired at `block_height`.
    pub fn has_locked_tokens_unlockable(&self, block_height: u64) -> (res: bool)
        ensures
            res == self.unlockable_at(block_height),
    {
        self.amount_locked > 0 && self.unlock_height <= block_height
    }

    /// `amount` tokens can be spent at `block_height`.
    pub fn can_transfer(&self, amount: u128, block_height: u64) -> (res: bool)
        requires
            self.unlock_fits(block_height),
        ensures
            res == (amount <= self.available_at(block_height)),
    {
        self.get_available_balance_at_block(block_height) >= amount
    }

    /// Releases expired locks, then takes `amount` from the unlocked tokens.
    /// Fails with `Underflow` when they do not cover it.
    pub fn debit(&mut self, amount: u128, block_height: u64) -> (res: Result<(), STXBalanceError>)
        requires
            old(self).unlock_fits(block_height),
        ensures
            (*final(self), res) == old(self).debited(amount, block_height),
    {
        let _unlocked = self.unlock_available_tokens_if_any(block_height);

        self.amount_unlocked = match self.amount_unlocked.checked_sub(amount) {
            Some(v) => v,
            None => return Err(STXBalanceError::Underflow),
        };
        Ok(())
    }

    /// Releases expired locks, then adds `amount` to the unlocked tokens.
    /// Fails with `Overflow` when the sum does not fit.
    pub fn credit(&mut self, amount: u128, block_height: u64) -> (res: Result<(), STXBalanceError>)
        requires
            old(self).unlock_fits(block_height),
        ensures
            (*final(self), res) == old(self).credited(amount, block_height),
    {
        let _unlocked = self.unlock_available_tokens_if_any(block_height);

        self.amount_unlocked = match self.amount_unlocked.checked_add(amount) {
            Some(v) => v,
            None => return Err(STXBalanceError::Overflow),
        };
        Ok(())
    }

    /// Debits `amount` from this balance, then credits it to `recipient`.
    /// A failed debit leaves the recipient untouched; a failed credit leaves
    /// the debit in place.
    pub fn transfer_to(&mut self, recipient: &mut STXBalance, amount: u128, block_height: u64) -> (res: Result<(), STXBalanceError>)
        requires
            old(self).unlock_fits(block_height),
            old(self).debited(amount, block_height).1 is Ok ==> old(recipient).unlock_fits(block_height),
        ensures
            ({
                let (sender_after, debit_res) = old(self).debited(amount, block_height);
                let (recipient_after, credit_res) = old(recipient).credited(amount, block_height);
                &&& *final(self) == sender_after
                &&& match debit_res {
                    Err(e) => *final(recipient) == *old(recipient) && res == Err::<(), STXBalanceError>(e),
                    Ok(()) => *final(recipient) == recipient_after && res == credit_res,
                }
            }),
    {
        self.debit(amount, block_height)?;
        recipient.credit(amount, block_height)?;
        Ok(())
    }
}

/// Releasing expired locks keeps the total balance, and leaves nothing
/// unlockable behind.
pub proof fn law_release_keeps_total(b: STXBalance, block_height: u64)
    requires
        b.unlock_fits(block_height),
    ensures
        b.released_at(block_height).total() == b.total(),
        !b.released_at(block_height).unlockable_at(block_height),
        b.released_at(block_height).amount_unlocked == b.available_at(block_height),
        b.released_at(block_height).released_at(block_height) == b.released_at(block_height),
{
}

/// A debit succeeds exactly when `can_transfer` says the amount is available.
pub proof fn law_debit_ok_iff_can_transfer(b: STXBalance, amount: u128, block_height: u64)
    requires
        b.unlock_fits(block_height),
    ensures
        b.debited(amount, block_height).1 is Ok <==> amount <= b.available_at(block_height),
{
}

/// A successful debit lowers the total by the amount; a successful credit
/// raises it by the amount; a refused one leaves the total unchanged.
pub proof fn law_debit_credit_change_total(b: STXBalance, amount: u128, block_height: u64)
    requires
        b.unlock_fits(block_height),
    ensures
        b.debited(amount, block_height).1 is Ok ==> b.debited(amount, block_height).0.total() == b.total() - amount,
        b.debited(amount, block_height).1 is Err ==> b.debited(amount, block_height).0.total() == b.total(),
        b.credited(amount, block_height).1 is Ok ==> b.credited(amount, block_height).0.total() == b.total() + amount,
        b.credited(amount, block_height).1 is Err ==> b.credited(amount, block_height).0.total() == b.total(),
{
}

/// A transfer in which both the debit and the credit succeed moves tokens
/// without creating or destroying any.
pub proof fn law_transfer_conserves_total(sender: STXBalance, recipient: STXBalance, amount: u128, block_height: u64)
    requires
        sender.unlock_fits(block_height),
        recipient.unlock_fits(block_height),
        sender.debited(amount, block_height).1 is Ok,
        recipient.credited(amount, block_height).1 is Ok,
    ensures
        sender.debited(amount, block_height).0.total() + recipient.credited(amount, block_height).0.total()
            == sender.total() + recipient.total(),
{
    law_debit_credit_change_total(sender, amount, block_height);
    law_debit_credit_change_total(recipient, amount, block_height);
}

/// Debiting what was just credited at the same height gives back the balance
/// with its expired locks released.
pub proof fn law_credit_then_debit(b: STXBalance, amount: u128, block_height: u64)
    requires
        b.unlock_fits(block_height),
        b.credited(amount, block_height).1 is Ok,
    ensures
        b.credited(amount, block_height).0.unlock_fits(block_height),
        b.credited(amount, block_height).0.debited(amount, block_height)
            == (b.released_at(block_height), Ok::<(), STXBalanceError>(())),
{
}

/// A successful lock keeps the total, keeps the amount locked at the current
/// height (when it is not zero), and leaves only the rest available.
pub proof fn law_lock_keeps_total(b: STXBalance, amount: u128, unlock_height: u64, current_height: u64)
    requires
        b.lock_allowed(amount, unlock_height, current_height),
        b.locked(amount, unlock_height, current_height).1 is Ok,
    ensures
        b.locked(amount, unlock_height, current_height).0.total() == b.total(),
        amount > 0 ==> b.locked(amount, unlock_height, current_height).0.locked_at(current_height),
        b.locked(amount, unlock_height, current_height).0.available_at(current_height)
            == b.available_at(current_height) - amount,
{
}

/// A successful lock locks exactly the amount asked for until exactly the
/// unlock height asked for: the tokens stay locked at every height below it
/// and become unlockable from it on.
pub proof fn law_lock_until_requested_height(b: STXBalance, amount: u128, unlock_height: u64,
    current_height: u64, h: u64)
    requires
        b.lock_allowed(amount, unlock_height, current_height),
        b.locked(amount, unlock_height, current_height).1 is Ok,
    ensures
        b.locked(amount, unlock_height, current_height).0.unlock_height == unlock_height,
        b.locked(amount, unlock_height, current_height).0.amount_locked == amount,
        b.locked(amount, unlock_height, current_height).0.amount_unlocked
            == b.available_at(current_height) - amount,
        amount > 0 ==> (b.locked(amount, unlock_height, current_height).0.locked_at(h) <==> h < unlock_height),
        amount > 0 ==> (b.locked(amount, unlock_height, current_height).0.unlockable_at(h) <==> unlock_height <= h),
{
}

/// A lock is refused exactly when a lock is still active at the current height.
pub proof fn law_lock_refused_iff_active(b: STXBalance, amount: u128, unlock_height: u64, current_height: u64)
    requires
        b.lock_allowed(amount, unlock_height, current_height),
    ensures
        b.locked(amount, unlock_height, current_height).1 is Err <==> b.locked_at(current_height),
        b.locked(amount, unlock_height, current_height).1 is Err ==>
            b.locked(amount, unlock_height, current_height).1 == Err::<(), STXBalanceError>(STXBalanceError::LockActive),
{
}

} // verus!
