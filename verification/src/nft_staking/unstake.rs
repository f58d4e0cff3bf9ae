//! Unstaking an NFT.

use vstd::prelude::*;
use crate::pubkey::Pubkey;
use crate::nft_staking::state::{after_unstake, CustomError, StakeAccount, StakeConfig, UserAccount};

verus! {

/// Accounts of an unstake: the user, their staking record, the
/// configuration and the stake record (closed afterwards).
pub struct Unstake {
    pub user: Pubkey,
    pub user_account: UserAccount,
    pub config: StakeConfig,
    pub stake_account: StakeAccount,
}

/// Once the NFT has been staked for at least the freeze period, takes it
/// off the user's count; returns the number of tokens (one) to move back
/// from the vault. Leaves the accounts unchanged when it refuses.
pub fn handler(ctx: &mut Unstake, now: i64) -> (res: Result<u64, CustomError>)
    requires
        i64::MIN <= now - old(ctx).stake_account.staked_at <= i64::MAX,
    ensures
        final(ctx).user == old(ctx).user,
        final(ctx).config == old(ctx).config,
        final(ctx).stake_account == old(ctx).stake_account,
        res == (if now - old(ctx).stake_account.staked_at < old(ctx).config.freeze_period {
            Err(CustomError::NotFrozen)
        } else if old(ctx).user_account.amount_staked == 0 {
            Err(CustomError::NothingToUnstake)
        } else {
            Ok(1u64)
        }),
        res is Ok ==> final(ctx).user_account == after_unstake(old(ctx).user_account),
        res is Err ==> final(ctx).user_account == old(ctx).user_account,
{
    let staked_for = now - ctx.stake_account.staked_at;
    if !(staked_for >= ctx.config.freeze_period as i64) {
        return Err(CustomError::NotFrozen);
    }
    if !(ctx.user_account.amount_staked > 0) {
        return Err(CustomError::NothingToUnstake);
    }
    ctx.user_account.amount_staked = match ctx.user_account.amount_staked.checked_sub(1) {
        Some(v) => v,
        None => { return Err(CustomError::Underflow); },
    };
    Ok(1)
}

} // verus!
