//! Tuning the staking configuration.

use vstd::prelude::*;
use crate::pubkey::Pubkey;
use crate::nft_staking::state::StakeConfig;

verus! {

/// Accounts of a configuration update: the admin and the configuration.
pub struct UpdateConfig {
    pub admin: Pubkey,
    pub config: StakeConfig,
}

/// Sets the three staking parameters and records the update time.
pub fn handler(ctx: &mut UpdateConfig, points_per_stake: u8, max_unstake_period: u8, freeze_period: u32, now: i64)
    ensures
        final(ctx).admin == old(ctx).admin,
        final(ctx).config == (StakeConfig {
            points_per_stake,
            max_unstake_period,
            freeze_period,
            last_update: now,
            ..old(ctx).config
        }),
{
    ctx.config.points_per_stake = points_per_stake;
    ctx.config.max_unstake_period = max_unstake_period;
    ctx.config.freeze_period = freeze_period;
    ctx.config.last_update = now;
}

} // verus!
