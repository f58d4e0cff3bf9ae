use agro_dao::amm::{AmmError, CheckedTransfer, Config, Initialize, PoolSide, Swap, SwapTransfers, TokenTransfer};
use agro_dao::escrow::{take, Escrow, EscrowError, Take, TakeTransfers};
use agro_dao::nft_staking::stake::{handler as stake_handler, Stake};
use agro_dao::nft_staking::state::{CustomError, StakeAccount, StakeConfig, UserAccount};
use agro_dao::nft_staking::unstake::{handler as unstake_handler, Unstake};
use agro_dao::nft_staking::update_config::{handler as update_config_handler, UpdateConfig};
use agro_dao::pubkey::Pubkey;

fn key(n: u8) -> Pubkey {
    Pubkey::new_from_array([n; 32])
}

fn pool(locked: bool) -> Swap {
    Swap {
        pool: Config {
            seed: 1,
            config_bump: 2,
            mint_x: key(1),
            mint_y: key(2),
            authority: None,
            fee: 30,
            locked,
            lp_bump: 3,
        },
        vault_x_amount: 1_000,
        vault_y_amount: 4_000,
        mint_x_decimals: 6,
        mint_y_decimals: 9,
    }
}

fn stake_config(freeze: u32) -> StakeConfig {
    StakeConfig { points_per_stake: 1, max_unstake_period: 2, freeze_period: freeze, last_update: 0, bump: 3 }
}

#[test]
fn amm_init_creates_unlocked_pool_and_empties_vaults() {
    let mut ctx = Initialize { mint_x: key(1), mint_y: key(2), vault_x_amount: 17, vault_y_amount: 18 };
    let p = ctx.init(99, 25, Some(key(7)), 4, 5);
    assert_eq!(p.seed, 99);
    assert_eq!(p.fee, 25);
    assert_eq!(p.authority, Some(key(7)));
    assert_eq!(p.mint_x, key(1));
    assert_eq!(p.mint_y, key(2));
    assert!(!p.locked);
    assert_eq!(p.pool_bump, 4);
    assert_eq!(p.lp_bump, 5);
    assert_eq!(ctx.vault_x_amount, 0);
    assert_eq!(ctx.vault_y_amount, 0);
}

#[test]
fn amm_swap_asks_the_curve_with_vault_reserves() {
    let req = pool(false).swap(true, 100, 90).unwrap();
    assert_eq!(req.reserve_x, 1_000);
    assert_eq!(req.reserve_y, 4_000);
    assert_eq!(req.liquidity, 1_000);
    assert_eq!(req.fee, 30);
    assert_eq!(req.pair, PoolSide::X);
    assert_eq!(req.amount, 100);
    assert_eq!(req.min, 90);
    assert_eq!(pool(false).swap(false, 1, 0).unwrap().pair, PoolSide::Y);
}

#[test]
fn amm_swap_errors() {
    assert_eq!(pool(true).swap(true, 100, 0), Err(AmmError::PoolLocked));
    assert_eq!(pool(false).swap(true, 0, 0), Err(AmmError::InvalidAmount));
    assert_eq!(pool(true).swap(true, 0, 0), Err(AmmError::PoolLocked));
}

#[test]
fn amm_settlement_moves_both_legs_through_the_chosen_side() {
    let s = pool(false);
    assert_eq!(
        s.settle_swap(true, 100, 360),
        Ok(SwapTransfers {
            deposit: TokenTransfer { side: PoolSide::X, amount: 100 },
            withdraw: CheckedTransfer { side: PoolSide::X, amount: 360, decimals: 6 },
        })
    );
    assert_eq!(s.settle_swap(false, 5, 1).unwrap().withdraw.decimals, 9);
    assert_eq!(s.settle_swap(true, 0, 360), Err(AmmError::InvalidAmount));
    assert_eq!(s.settle_swap(true, 100, 0), Err(AmmError::InvalidAmount));
    assert_eq!(s.deposit_tokens(false, 8), TokenTransfer { side: PoolSide::Y, amount: 8 });
    assert_eq!(s.withdraw_tokens(false, 8), CheckedTransfer { side: PoolSide::Y, amount: 8, decimals: 9 });
}

#[test]
fn escrow_take_pays_both_sides() {
    let escrow = Escrow { seed: 1, bump: 2, receive: 500, mint_a: key(1), mint_b: key(2), maker: key(3) };
    let ctx = Take {
        escrow,
        maker: key(3),
        mint_a: key(1),
        mint_b: key(2),
        vault_amount: 1_000,
        mint_a_decimals: 6,
        mint_b_decimals: 9,
    };
    assert_eq!(
        take(&ctx),
        Ok(TakeTransfers { vault_to_taker: 1_000, mint_a_decimals: 6, taker_to_maker: 500, mint_b_decimals: 9 })
    );
}

#[test]
fn escrow_take_checks_recorded_accounts() {
    let escrow = Escrow { seed: 1, bump: 2, receive: 500, mint_a: key(1), mint_b: key(2), maker: key(3) };
    let base = Take {
        escrow,
        maker: key(3),
        mint_a: key(1),
        mint_b: key(2),
        vault_amount: 1_000,
        mint_a_decimals: 6,
        mint_b_decimals: 9,
    };
    assert_eq!(take(&Take { maker: key(9), ..base }), Err(EscrowError::ConstraintHasOne));
    assert_eq!(take(&Take { mint_a: key(9), ..base }), Err(EscrowError::ConstraintHasOne));
    assert_eq!(take(&Take { mint_b: key(9), ..base }), Err(EscrowError::ConstraintHasOne));
}

#[test]
fn nft_stake_then_unstake_restores_the_count() {
    let mut s = Stake { user: key(1), user_account: UserAccount { amount_staked: 2, bump: 7 }, config: stake_config(10), nft_mint: key(5) };
    let (record, moved) = stake_handler(&mut s, 4, 100);
    assert_eq!(record, StakeAccount { owner: key(1), nft_mint: key(5), staked_at: 100, bump: 4 });
    assert_eq!(moved, 1);
    assert_eq!(s.user_account.amount_staked, 3);

    let mut u = Unstake { user: key(1), user_account: s.user_account, config: s.config, stake_account: record };
    assert_eq!(unstake_handler(&mut u, 109), Err(CustomError::NotFrozen));
    assert_eq!(u.user_account.amount_staked, 3);
    assert_eq!(unstake_handler(&mut u, 110), Ok(1));
    assert_eq!(u.user_account, UserAccount { amount_staked: 2, bump: 7 });
}

#[test]
fn nft_stake_count_saturates() {
    let mut s = Stake { user: key(1), user_account: UserAccount { amount_staked: 255, bump: 0 }, config: stake_config(0), nft_mint: key(5) };
    stake_handler(&mut s, 0, 0);
    assert_eq!(s.user_account.amount_staked, 255);
}

#[test]
fn nft_unstake_needs_something_staked() {
    let record = StakeAccount { owner: key(1), nft_mint: key(5), staked_at: 0, bump: 0 };
    let mut u = Unstake { user: key(1), user_account: UserAccount { amount_staked: 0, bump: 0 }, config: stake_config(0), stake_account: record };
    assert_eq!(unstake_handler(&mut u, 0), Err(CustomError::NothingToUnstake));
}

#[test]
fn nft_config_update_sets_parameters() {
    let mut ctx = UpdateConfig { admin: key(1), config: stake_config(10) };
    update_config_handler(&mut ctx, 9, 8, 77, 1_234);
    assert_eq!(
        ctx.config,
        StakeConfig { points_per_stake: 9, max_unstake_period: 8, freeze_period: 77, last_update: 1_234, bump: 3 }
    );
    assert_eq!(ctx.admin, key(1));
}
