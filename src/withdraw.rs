//! A withdrawal from one pool: liquidity shares are burned and the burned
//! fraction of each vault is paid out to the caller.

use vstd::prelude::*;
use crate::curve::{compute_withdraw_amounts, withdraw_outcome};
use crate::error::AmmError;
use crate::state::Config;

verus! {

/// The balances that a withdrawal reads and moves: the pool's two vaults,
/// the caller's accounts of both assets and of shares, and the share supply,
/// with the pool's record.
#[derive(Clone, Copy)]
pub struct Withdraw {
    pub config: Config,
    pub vault_x: u64,
    pub vault_y: u64,
    pub user_x: u64,
    pub user_y: u64,
    pub user_lp: u64,
    pub lp_supply: u64,
}

impl Withdraw {
    /// The pool's vault of one asset.
    pub open spec fn vault(self, is_x: bool) -> u64 {
        if is_x {
            self.vault_x
        } else {
            self.vault_y
        }
    }

    /// The caller's account of one asset.
    pub open spec fn user(self, is_x: bool) -> u64 {
        if is_x {
            self.user_x
        } else {
            self.user_y
        }
    }

    /// One asset's vault can pay `amount` out to the caller.
    pub open spec fn can_withdraw(self, is_x: bool, amount: u64) -> bool {
        self.vault(is_x) >= amount && self.user(is_x) + amount <= u64::MAX
    }

    /// The snapshot after `amount` of one asset went from its vault to the caller.
    pub open spec fn withdrawn(self, is_x: bool, amount: u64) -> Withdraw {
        if is_x {
            Withdraw {
                vault_x: (self.vault_x - amount) as u64,
                user_x: (self.user_x + amount) as u64,
                ..self
            }
        } else {
            Withdraw {
                vault_y: (self.vault_y - amount) as u64,
                user_y: (self.user_y + amount) as u64,
                ..self
            }
        }
    }

    /// The caller holds `amount` shares and the supply counts them.
    pub open spec fn can_burn(self, amount: u64) -> bool {
        self.user_lp >= amount && self.lp_supply >= amount
    }

    /// The snapshot after `amount` of the caller's shares were burned.
    pub open spec fn burned(self, amount: u64) -> Withdraw {
        Withdraw {
            user_lp: (self.user_lp - amount) as u64,
            lp_supply: (self.lp_supply - amount) as u64,
            ..self
        }
    }

    /// What a burn of `amount` shares pays out of each vault, with least
    /// acceptable amounts `min_x` and `min_y`, or why it is refused. The
    /// checks come in this order: a zero amount, a paused pool, an empty
    /// supply, the curve, the caller's minimums.
    pub open spec fn quote_outcome(self, amount: u64, min_x: u64, min_y: u64) -> Result<(u64, u64), AmmError> {
        if amount == 0 {
            Err(AmmError::InvalidAmount)
        } else if self.config.locked {
            Err(AmmError::PoolLocked)
        } else if self.lp_supply == 0 {
            Err(AmmError::NoLiquidityInPool)
        } else {
            match withdraw_outcome(self.vault_x, self.vault_y, self.lp_supply, amount) {
                Err(e) => Err(e),
                Ok((x, y)) => if x < min_x || y < min_y {
                    Err(AmmError::SlippageExceeded)
                } else {
                    Ok((x, y))
                },
            }
        }
    }

    /// The checks of a withdrawal, before any burn or transfer: the amounts
    /// it pays, or why it is refused.
    pub fn quote(&self, amount: u64, min_x: u64, min_y: u64) -> (r: Result<(u64, u64), AmmError>)
        ensures
            r == self.quote_outcome(amount, min_x, min_y),
    {
        if amount == 0 {
            return Err(AmmError::InvalidAmount);
        }
        if self.config.locked {
            return Err(AmmError::PoolLocked);
        }
        if self.lp_supply == 0 {
            return Err(AmmError::NoLiquidityInPool);
        }
        let (x, y) = match compute_withdraw_amounts(
            self.vault_x,
            self.vault_y,
            self.lp_supply,
            amount,
        ) {
            Err(e) => {
                return Err(e);
            },
            Ok(xy) => xy,
        };
        if x < min_x || y < min_y {
            return Err(AmmError::SlippageExceeded);
        }
        Ok((x, y))
    }

    /// Burns `amount` of the caller's shares and pays out the burned fraction
    /// of each vault, if each amount reaches its minimum. The burn comes
    /// before the two transfers. All or nothing: on a refusal no balance
    /// changes.
    pub fn withdraw(&mut self, amount: u64, min_x: u64, min_y: u64) -> (r: Result<(), AmmError>)
        ensures
            amount == 0 ==> r == Err::<(), AmmError>(AmmError::InvalidAmount),
            amount > 0 && old(self).config.locked ==> r == Err::<(), AmmError>(AmmError::PoolLocked),
            r is Err ==> *final(self) == *old(self),
            match old(self).quote_outcome(amount, min_x, min_y) {
                Err(e) => r == Err::<(), AmmError>(e),
                Ok((x, y)) => {
                    let b = old(self).burned(amount);
                    let bx = b.withdrawn(true, x);
                    if old(self).can_burn(amount) && b.can_withdraw(true, x) && bx.can_withdraw(
                        false,
                        y,
                    ) {
                        r is Ok && *final(self) == bx.withdrawn(false, y)
                    } else {
                        r == Err::<(), AmmError>(AmmError::TransferFailure)
                    }
                },
            },
    {
        let (x, y) = match self.quote(amount, min_x, min_y) {
            Err(e) => {
                return Err(e);
            },
            Ok(xy) => xy,
        };
        let mut next = *self;
        if let Err(e) = next.burn_lp_tokens(amount) {
            return Err(e);
        }
        if let Err(e) = next.withdraw_tokens(true, x) {
            return Err(e);
        }
        if let Err(e) = next.withdraw_tokens(false, y) {
            return Err(e);
        }
        *self = next;
        Ok(())
    }

    /// Moves `amount` of asset X (when `is_x`) or Y from the pool's vault to
    /// the caller's account, under the pool's authority, or refuses with no
    /// change.
    pub fn withdraw_tokens(&mut self, is_x: bool, amount: u64) -> (r: Result<(), AmmError>)
        ensures
            old(self).can_withdraw(is_x, amount) ==> r is Ok && *final(self) == old(self).withdrawn(
                is_x,
                amount,
            ),
            !old(self).can_withdraw(is_x, amount) ==> r == Err::<(), AmmError>(
                AmmError::TransferFailure,
            ) && *final(self) == *old(self),
    {
        if is_x {
            if self.vault_x < amount || self.user_x > u64::MAX - amount {
                return Err(AmmError::TransferFailure);
            }
            self.vault_x = self.vault_x - amount;
            self.user_x = self.user_x + amount;
        } else {
            if self.vault_y < amount || self.user_y > u64::MAX - amount {
                return Err(AmmError::TransferFailure);
            }
            self.vault_y = self.vault_y - amount;
            self.user_y = self.user_y + amount;
        }
        Ok(())
    }

    /// Burns `amount` of the caller's shares, taking them from the supply, or
    /// refuses with no change.
    pub fn burn_lp_tokens(&mut self, amount: u64) -> (r: Result<(), AmmError>)
        ensures
            old(self).can_burn(amount) ==> r is Ok && *final(self) == old(self).burned(amount),
            !old(self).can_burn(amount) ==> r == Err::<(), AmmError>(AmmError::TransferFailure)
                && *final(self) == *old(self),
    {
        if self.user_lp < amount || self.lp_supply < amount {
            return Err(AmmError::TransferFailure);
        }
        self.user_lp = self.user_lp - amount;
        self.lp_supply = self.lp_supply - amount;
        Ok(())
    }
}

} // verus!
