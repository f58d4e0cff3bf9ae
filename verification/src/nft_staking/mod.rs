//! NFT staking program: stake an NFT into a vault, unstake it after the
//! freeze period, and tune the staking configuration.

pub mod state;
pub mod stake;
pub mod unstake;
pub mod update_config;
