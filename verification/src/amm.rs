//! Constant-product AMM program: pool records and the decisions around a
//! swap (the curve itself is computed by the caller, see `Swap::swap`).

use vstd::prelude::*;
use crate::pubkey::Pubkey;

verus! {

/// Errors of the AMM program.
#[derive(Debug, Clone, Copy, PartialEq, Eq, Structural)]
pub enum AmmError {
    PoolLocked,
    InvalidAmount,
    /// The curve refused the swap.
    CurveError,
}

/// A pool's configuration, as the swap reads it.
#[derive(Debug, Clone, Copy, PartialEq, Eq, Structural)]
pub struct Config {
    pub seed: u64,
    pub config_bump: u8,
    pub mint_x: Pubkey,
    pub mint_y: Pubkey,
    pub authority: Option<Pubkey>,
    pub fee: u16,
    pub locked: bool,
    pub lp_bump: u8,
}

/// A pool's configuration, as the initialization writes it.
#[derive(Debug, Clone, Copy, PartialEq, Eq, Structural)]
pub struct Pool {
    pub seed: u64,
    pub pool_bump: u8,
    pub mint_x: Pubkey,
    pub mint_y: Pubkey,
    pub authority: Option<Pubkey>,
    pub fee: u16,
    pub locked: bool,
    pub lp_bump: u8,
}

/// Accounts of a pool initialization: the two mints and the balances of
/// the pool's two vaults.
pub struct Initialize {
    pub mint_x: Pubkey,
    pub mint_y: Pubkey,
    pub vault_x_amount: u64,
    pub vault_y_amount: u64,
}

impl Initialize {
    /// The new pool, unlocked, over the two mints; the vault balances are
    /// set to zero.
    pub fn init(&mut self, seed: u64, fee: u16, authority: Option<Pubkey>, pool_bump: u8, lp_bump: u8) -> (pool: Pool)
        ensures
            pool == (Pool {
                seed,
                authority,
                mint_x: old(self).mint_x,
                mint_y: old(self).mint_y,
                fee,
                locked: false,
                pool_bump,
                lp_bump,
            }),
            final(self).mint_x == old(self).mint_x,
            final(self).mint_y == old(self).mint_y,
            final(self).vault_x_amount == 0,
            final(self).vault_y_amount == 0,
    {
        let pool = Pool {
            seed,
            authority,
            mint_x: self.mint_x,
            mint_y: self.mint_y,
            fee,
            locked: false,
            pool_bump,
            lp_bump,
        };
        self.vault_x_amount = 0;
        self.vault_y_amount = 0;
        pool
    }
}

/// Which side of the pool a token movement touches.
#[derive(Debug, Clone, Copy, PartialEq, Eq, Structural)]
pub enum PoolSide {
    X,
    Y,
}

/// What the constant-product curve is asked: initialised with the two
/// reserves, the liquidity figure, the fee and no precision, then asked to
/// swap `amount` of the `pair` side with at least `min` out.
#[derive(Debug, Clone, Copy, PartialEq, Eq, Structural)]
pub struct CurveRequest {
    pub reserve_x: u64,
    pub reserve_y: u64,
    pub liquidity: u64,
    pub fee: u16,
    pub pair: PoolSide,
    pub amount: u64,
    pub min: u64,
}

/// A token movement between the user's account and the pool's vault of
/// one side.
#[derive(Debug, Clone, Copy, PartialEq, Eq, Structural)]
pub struct TokenTransfer {
    pub side: PoolSide,
    pub amount: u64,
}

/// A transfer out of a vault, checked against the mint's decimals.
#[derive(Debug, Clone, Copy, PartialEq, Eq, Structural)]
pub struct CheckedTransfer {
    pub side: PoolSide,
    pub amount: u64,
    pub decimals: u8,
}

/// The two transfers a settled swap asks for: the user's deposit into a
/// vault and the pool's payout from a vault.
#[derive(Debug, Clone, Copy, PartialEq, Eq, Structural)]
pub struct SwapTransfers {
    pub deposit: TokenTransfer,
    pub withdraw: CheckedTransfer,
}

/// The side `is_x` selects.
pub open spec fn side_of(is_x: bool) -> PoolSide {
    if is_x { PoolSide::X } else { PoolSide::Y }
}

/// Accounts of a swap: the pool, its two vault balances and the decimals
/// of its two mints.
pub struct Swap {
    pub pool: Config,
    pub vault_x_amount: u64,
    pub vault_y_amount: u64,
    pub mint_x_decimals: u8,
    pub mint_y_decimals: u8,
}

impl Swap {
    /// Checks a swap of `amount` (of X when `is_x`, else of Y) with at
    /// least `min` out, and returns what the curve is to be asked: the two
    /// vault balances as reserves, the X vault balance as liquidity, the
    /// pool's fee. The pool must be unlocked and the amount positive.
    pub fn swap(&self, is_x: bool, amount: u64, min: u64) -> (res: Result<CurveRequest, AmmError>)
        ensures
            res == (if self.pool.locked {
                Err(AmmError::PoolLocked)
            } else if amount == 0 {
                Err(AmmError::InvalidAmount)
            } else {
                Ok(CurveRequest {
                    reserve_x: self.vault_x_amount,
                    reserve_y: self.vault_y_amount,
                    liquidity: self.vault_x_amount,
                    fee: self.pool.fee,
                    pair: side_of(is_x),
                    amount,
                    min,
                })
            }),
    {
        if self.pool.locked {
            return Err(AmmError::PoolLocked);
        }
        if amount == 0 {
            return Err(AmmError::InvalidAmount);
        }
        let pair = if is_x { PoolSide::X } else { PoolSide::Y };
        Ok(CurveRequest {
            reserve_x: self.vault_x_amount,
            reserve_y: self.vault_y_amount,
            liquidity: self.vault_x_amount,
            fee: self.pool.fee,
            pair,
            amount,
            min,
        })
    }

    /// Settles a swap once the curve has answered with the amounts to
    /// deposit and withdraw: both must be positive. The deposit and the
    /// payout both go through the side `is_x` selects.
    pub fn settle_swap(&self, is_x: bool, deposit: u64, withdraw: u64) -> (res: Result<SwapTransfers, AmmError>)
        ensures
            res == (if deposit == 0 || withdraw == 0 {
                Err(AmmError::InvalidAmount)
            } else {
                Ok(SwapTransfers {
                    deposit: TokenTransfer { side: side_of(is_x), amount: deposit },
                    withdraw: CheckedTransfer {
                        side: side_of(is_x),
                        amount: withdraw,
                        decimals: if is_x { self.mint_x_decimals } else { self.mint_y_decimals },
                    },
                })
            }),
    {
        if deposit == 0 {
            return Err(AmmError::InvalidAmount);
        }
        if withdraw == 0 {
            return Err(AmmError::InvalidAmount);
        }
        Ok(SwapTransfers { deposit: self.deposit_tokens(is_x, deposit), withdraw: self.withdraw_tokens(is_x, withdraw) })
    }

    /// The user's deposit of `amount` into the vault of the side `is_x`
    /// selects.
    pub fn deposit_tokens(&self, is_x: bool, amount: u64) -> (t: TokenTransfer)
        ensures
            t == (TokenTransfer { side: side_of(is_x), amount }),
    {
        if is_x {
            TokenTransfer { side: PoolSide::X, amount }
        } else {
            TokenTransfer { side: PoolSide::Y, amount }
        }
    }

    /// The pool's payout of `amount` from the vault of the side `is_x`
    /// selects, checked against that side's mint decimals.
    pub fn withdraw_tokens(&self, is_x: bool, amount: u64) -> (t: CheckedTransfer)
        ensures
            t == (CheckedTransfer {
                side: side_of(is_x),
                amount,
                decimals: if is_x { self.mint_x_decimals } else { self.mint_y_decimals },
            }),
    {
        if is_x {
            CheckedTransfer { side: PoolSide::X, amount, decimals: self.mint_x_decimals }
        } else {
            CheckedTransfer { side: PoolSide::Y, amount, decimals: self.mint_y_decimals }
        }
    }
}

} // verus!
