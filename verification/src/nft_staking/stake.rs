//! Staking an NFT.

use vstd::prelude::*;
use crate::pubkey::Pubkey;
use crate::nft_staking::state::{after_stake, StakeAccount, StakeConfig, UserAccount};

verus! {

/// Accounts of a stake: the user, their staking record, the configuration
/// and the NFT's mint.
pub struct Stake {
    pub user: Pubkey,
    pub user_account: UserAccount,
    pub config: StakeConfig,
    pub nft_mint: Pubkey,
}

/// Records the NFT as staked at `now` and counts it in the user's record
/// (saturating); returns the new stake record and the number of tokens
/// (one) to move from the user to the vault.
pub fn handler(ctx: &mut Stake, stake_account_bump: u8, now: i64) -> (res: (StakeAccount, u64))
    ensures
        res == (StakeAccount { owner: old(ctx).user, nft_mint: old(ctx).nft_mint, staked_at: now, bump: stake_account_bump }, 1u64),
        final(ctx).user_account == after_stake(old(ctx).user_account),
        final(ctx).user == old(ctx).user,
        final(ctx).config == old(ctx).config,
        final(ctx).nft_mint == old(ctx).nft_mint,
{
    let stake_account = StakeAccount { owner: ctx.user, nft_mint: ctx.nft_mint, staked_at: now, bump: stake_account_bump };
    ctx.user_account.amount_staked = ctx.user_account.amount_staked.saturating_add(1);
    (stake_account, 1)
}

} // verus!
