//! NFT staking accounts and errors.

use vstd::prelude::*;
use crate::pubkey::Pubkey;

verus! {

/// Errors of the NFT staking program.
#[derive(Debug, Clone, Copy, PartialEq, Eq, Structural)]
pub enum CustomError {
    NotFrozen,
    NothingToUnstake,
    Underflow,
}

/// A user's staking record.
#[derive(Debug, Clone, Copy, PartialEq, Eq, Structural)]
pub struct UserAccount {
    pub amount_staked: u8,
    pub bump: u8,
}

/// Staking parameters.
#[derive(Debug, Clone, Copy, PartialEq, Eq, Structural)]
pub struct StakeConfig {
    pub points_per_stake: u8,
    pub max_unstake_period: u8,
    pub freeze_period: u32,
    pub last_update: i64,
    pub bump: u8,
}

/// One staked NFT.
#[derive(Debug, Clone, Copy, PartialEq, Eq, Structural)]
pub struct StakeAccount {
    pub owner: Pubkey,
    pub nft_mint: Pubkey,
    pub staked_at: i64,
    pub bump: u8,
}

/// The user's record after staking one more NFT (the count saturates).
pub open spec fn after_stake(u: UserAccount) -> UserAccount {
    UserAccount {
        amount_staked: if u.amount_staked == u8::MAX { u8::MAX } else { (u.amount_staked + 1) as u8 },
        ..u
    }
}

/// The user's record after unstaking one NFT.
pub open spec fn after_unstake(u: UserAccount) -> UserAccount {
    UserAccount { amount_staked: (u.amount_staked - 1) as u8, ..u }
}

/// Staking then unstaking gives the user's record back (below the count's
/// ceiling), and after a stake the count is positive, so the unstake's
/// count check passes.
pub proof fn lemma_stake_unstake_roundtrip(u: UserAccount)
    requires
        u.amount_staked < u8::MAX,
    ensures
        after_stake(u).amount_staked > 0,
        after_unstake(after_stake(u)) == u,
{
}

} // verus!
