//! State transitions, account layouts and validation rules of the Agro DAO
//! on-chain programs (protocol core, governance, reputation, research and
//! treasury) together with the small AMM, escrow and NFT-staking programs.
//!
//! Every instruction is written as a function from the accounts it reads and
//! writes (plain values), the current cluster time and its arguments to the
//! accounts it leaves behind, the event it emits and the token movements it
//! asks for. Reading accounts, the clock and performing token transfers is
//! the caller's business.

pub mod encoding;
pub mod pubkey;
pub mod reputation;
pub mod governance;
pub mod research;
pub mod treasury;
pub mod protocol;
pub mod amm;
pub mod escrow;
pub mod nft_staking;
