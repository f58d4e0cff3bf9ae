//! Escrow program: an offer of one token against another, settled by the
//! taker.

use vstd::prelude::*;
use crate::pubkey::Pubkey;

verus! {

/// An open offer: the maker deposited mint A and asks `receive` of mint B.
#[derive(Debug, Clone, Copy, PartialEq, Eq, Structural)]
pub struct Escrow {
    pub seed: u64,
    pub bump: u8,
    pub receive: u64,
    pub mint_a: Pubkey,
    pub mint_b: Pubkey,
    pub maker: Pubkey,
}

/// Errors of a take.
#[derive(Debug, Clone, Copy, PartialEq, Eq, Structural)]
pub enum EscrowError {
    /// A passed account is not the one the offer records.
    ConstraintHasOne,
}

/// The token movements of a take: the whole vault (mint A) to the taker,
/// `receive` of mint B from the taker to the maker, then the vault closed
/// to the taker.
#[derive(Debug, Clone, Copy, PartialEq, Eq, Structural)]
pub struct TakeTransfers {
    pub vault_to_taker: u64,
    pub mint_a_decimals: u8,
    pub taker_to_maker: u64,
    pub mint_b_decimals: u8,
}

/// Accounts of a take: the offer, the maker and the two mints passed, the
/// vault's balance and the mints' decimals.
pub struct Take {
    pub escrow: Escrow,
    pub maker: Pubkey,
    pub mint_a: Pubkey,
    pub mint_b: Pubkey,
    pub vault_amount: u64,
    pub mint_a_decimals: u8,
    pub mint_b_decimals: u8,
}

/// Settles an offer when the passed mints and maker are the ones it
/// records.
pub fn take(ctx: &Take) -> (res: Result<TakeTransfers, EscrowError>)
    ensures
        res == (if ctx.escrow.mint_a != ctx.mint_a || ctx.escrow.mint_b != ctx.mint_b || ctx.escrow.maker != ctx.maker {
            Err(EscrowError::ConstraintHasOne)
        } else {
            Ok(TakeTransfers {
                vault_to_taker: ctx.vault_amount,
                mint_a_decimals: ctx.mint_a_decimals,
                taker_to_maker: ctx.escrow.receive,
                mint_b_decimals: ctx.mint_b_decimals,
            })
        }),
{
    if ctx.escrow.mint_a != ctx.mint_a || ctx.escrow.mint_b != ctx.mint_b || ctx.escrow.maker != ctx.maker {
        return Err(EscrowError::ConstraintHasOne);
    }
    Ok(TakeTransfers {
        vault_to_taker: ctx.vault_amount,
        mint_a_decimals: ctx.mint_a_decimals,
        taker_to_maker: ctx.escrow.receive,
        mint_b_decimals: ctx.mint_b_decimals,
    })
}

} // verus!
