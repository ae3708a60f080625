//! A swap against one pool: the snapshot of the balances it reads and moves,
//! the checks that come before any transfer, and the two transfers.

use vstd::prelude::*;
use crate::curve::{
    compute_swap_output, lemma_swap_keeps_balance_product, lemma_swap_output_below_reserve,
    swap_outcome,
};
use crate::error::AmmError;
use crate::state::Config;

verus! {

/// The balances that a swap reads and moves: the pool's two vaults and the
/// caller's two accounts, with the pool's record.
#[derive(Clone, Copy)]
pub struct Swap {
    pub config: Config,
    pub vault_x: u64,
    pub vault_y: u64,
    pub user_x: u64,
    pub user_y: u64,
}

impl Swap {
    /// The pool's vault of one asset.
    pub open spec fn vault(self, is_x: bool) -> u64 {
        if is_x {
            self.vault_x
        } else {
            self.vault_y
        }
    }

    /// The caller's account of one asset.
    pub open spec fn user(self, is_x: bool) -> u64 {
        if is_x {
            self.user_x
        } else {
            self.user_y
        }
    }

    /// The snapshot with one asset's vault and account set anew.
    pub open spec fn with_balances(self, is_x: bool, vault: int, user: int) -> Swap {
        if is_x {
            Swap { vault_x: vault as u64, user_x: user as u64, ..self }
        } else {
            Swap { vault_y: vault as u64, user_y: user as u64, ..self }
        }
    }

    /// The caller can pay `amount` of one asset into its vault.
    pub open spec fn can_deposit(self, is_x: bool, amount: u64) -> bool {
        self.user(is_x) >= amount && self.vault(is_x) + amount <= u64::MAX
    }

    /// One asset's vault can pay `amount` out to the caller.
    pub open spec fn can_withdraw(self, is_x: bool, amount: u64) -> bool {
        self.vault(is_x) >= amount && self.user(is_x) + amount <= u64::MAX
    }

    /// The snapshot after `amount` of one asset went from the caller to its vault.
    pub open spec fn deposited(self, is_x: bool, amount: u64) -> Swap {
        self.with_balances(is_x, self.vault(is_x) + amount, self.user(is_x) - amount)
    }

    /// The snapshot after `amount` of one asset went from its vault to the caller.
    pub open spec fn withdrawn(self, is_x: bool, amount: u64) -> Swap {
        self.with_balances(is_x, self.vault(is_x) - amount, self.user(is_x) + amount)
    }

    /// What a swap of `amount` of asset X (when `is_x`) or Y, with a least
    /// acceptable output of `min`, pays out, or why it is refused. The checks
    /// come in this order: a zero amount, a paused pool, an empty vault, the
    /// curve, the caller's minimum.
    pub open spec fn quote_outcome(self, is_x: bool, amount: u64, min: u64) -> Result<u64, AmmError> {
        if amount == 0 {
            Err(AmmError::InvalidAmount)
        } else if self.config.locked {
            Err(AmmError::PoolLocked)
        } else if self.vault_x == 0 || self.vault_y == 0 {
            Err(AmmError::NoLiquidityInPool)
        } else {
            match swap_outcome(self.vault(is_x), self.vault(!is_x), amount, self.config.fee) {
                Err(e) => Err(e),
                Ok(out) => if out < min {
                    Err(AmmError::SlippageExceeded)
                } else {
                    Ok(out)
                },
            }
        }
    }

    /// The checks of a swap, before any transfer: the output it pays, or why
    /// it is refused.
    pub fn quote(&self, is_x: bool, amount: u64, min: u64) -> (r: Result<u64, AmmError>)
        ensures
            r == self.quote_outcome(is_x, amount, min),
            r is Ok ==> r->Ok_0 < self.vault(!is_x),
    {
        if amount == 0 {
            return Err(AmmError::InvalidAmount);
        }
        if self.config.locked {
            return Err(AmmError::PoolLocked);
        }
        if self.vault_x == 0 || self.vault_y == 0 {
            return Err(AmmError::NoLiquidityInPool);
        }
        let (reserve_in, reserve_out) = if is_x {
            (self.vault_x, self.vault_y)
        } else {
            (self.vault_y, self.vault_x)
        };
        let out = match compute_swap_output(reserve_in, reserve_out, amount, self.config.fee) {
            Err(e) => {
                return Err(e);
            },
            Ok(out) => out,
        };
        if out < min {
            return Err(AmmError::SlippageExceeded);
        }
        Ok(out)
    }

    /// Swaps `amount` of asset X (when `is_x`) or Y for the other asset, if
    /// the output is at least `min`. All or nothing: on a refusal no balance
    /// changes.
    pub fn swap(&mut self, is_x: bool, amount: u64, min: u64) -> (r: Result<(), AmmError>)
        ensures
            amount == 0 ==> r == Err::<(), AmmError>(AmmError::InvalidAmount),
            amount > 0 && old(self).config.locked ==> r == Err::<(), AmmError>(AmmError::PoolLocked),
            r is Err ==> *final(self) == *old(self),
            match old(self).quote_outcome(is_x, amount, min) {
                Err(e) => r == Err::<(), AmmError>(e),
                Ok(out) => {
                    let paid = old(self).deposited(is_x, amount);
                    if paid.can_withdraw(!is_x, out) && old(self).can_deposit(is_x, amount) {
                        r is Ok && *final(self) == paid.withdrawn(!is_x, out)
                    } else {
                        r == Err::<(), AmmError>(AmmError::TransferFailure)
                    }
                },
            },
            r is Ok ==> old(self).vault_x * old(self).vault_y <= final(self).vault_x * final(self).vault_y,
    {
        let out = match self.quote(is_x, amount, min) {
            Err(e) => {
                return Err(e);
            },
            Ok(out) => out,
        };
        let mut next = *self;
        if let Err(e) = next.deposit_tokens(is_x, amount) {
            return Err(e);
        }
        if let Err(e) = next.withdraw_tokens(!is_x, out) {
            return Err(e);
        }
        proof {
            let (rin, rout) = if is_x {
                (self.vault_x, self.vault_y)
            } else {
                (self.vault_y, self.vault_x)
            };
            lemma_swap_keeps_balance_product(rin, rout, amount, self.config.fee);
            lemma_swap_output_below_reserve(rin, rout, amount, self.config.fee);
            let a = rin + amount;
            let b = rout - out;
            assert(a * b == next.vault_x * next.vault_y && rin * rout == self.vault_x
                * self.vault_y) by (nonlinear_arith)
                requires
                    (rin == self.vault_x && rout == self.vault_y && a == next.vault_x && b
                        == next.vault_y) || (rin == self.vault_y && rout == self.vault_x && a
                        == next.vault_y && b == next.vault_x),
            ;
        }
        *self = next;
        Ok(())
    }

    /// Moves `amount` of asset X (when `is_x`) or Y from the caller's account
    /// to the pool's vault, or refuses with no change.
    pub fn deposit_tokens(&mut self, is_x: bool, amount: u64) -> (r: Result<(), AmmError>)
        ensures
            old(self).can_deposit(is_x, amount) ==> r is Ok && *final(self) == old(self).deposited(
                is_x,
                amount,
            ),
            !old(self).can_deposit(is_x, amount) ==> r == Err::<(), AmmError>(
                AmmError::TransferFailure,
            ) && *final(self) == *old(self),
    {
        if is_x {
            if self.user_x < amount || self.vault_x > u64::MAX - amount {
                return Err(AmmError::TransferFailure);
            }
            self.user_x = self.user_x - amount;
            self.vault_x = self.vault_x + amount;
        } else {
            if self.user_y < amount || self.vault_y > u64::MAX - amount {
                return Err(AmmError::TransferFailure);
            }
            self.user_y = self.user_y - amount;
            self.vault_y = self.vault_y + amount;
        }
        Ok(())
    }

    /// Moves `amount` of asset X (when `is_x`) or Y from the pool's vault to
    /// the caller's account, under the pool's authority, or refuses with no
    /// change.
    pub fn withdraw_tokens(&mut self, is_x: bool, amount: u64) -> (r: Result<(), AmmError>)
        ensures
            old(self).can_withdraw(is_x, amount) ==> r is Ok && *final(self) == old(self).withdrawn(
                is_x,
                amount,
            ),
            !old(self).can_withdraw(is_x, amount) ==> r == Err::<(), AmmError>(
                AmmError::TransferFailure,
            ) && *final(self) == *old(self),
    {
        if is_x {
            if self.vault_x < amount || self.user_x > u64::MAX - amount {
                return Err(AmmError::TransferFailure);
            }
            self.vault_x = self.vault_x - amount;
            self.user_x = self.user_x + amount;
        } else {
            if self.vault_y < amount || self.user_y > u64::MAX - amount {
                return Err(AmmError::TransferFailure);
            }
            self.vault_y = self.vault_y - amount;
            self.user_y = self.user_y + amount;
        }
        Ok(())
    }
}

} // verus!
