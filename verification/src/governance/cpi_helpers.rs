//! Decisions around the governance program's calls into the other programs:
//! reading a voter's reputation record, decoding proposal instruction data,
//! and the seeds of governance accounts.

use vstd::prelude::*;
use crate::encoding::{from_le, le_bytes, read_u64_le, u64_le};
use crate::pubkey::Pubkey;
use crate::governance::state::GovernanceError;

verus! {

/// Bytes of the governance configuration seed, `b"governance"`.
pub open spec fn governance_seed() -> Seq<u8> {
    seq![103u8, 111, 118, 101, 114, 110, 97, 110, 99, 101]
}

/// Bytes of the proposal seed, `b"proposal"`.
pub open spec fn proposal_seed() -> Seq<u8> {
    seq![112u8, 114, 111, 112, 111, 115, 97, 108]
}

/// Bytes of the vote seed, `b"vote"`.
pub open spec fn vote_seed() -> Seq<u8> {
    seq![118u8, 111, 116, 101]
}

/// Offset of the score in a user reputation record (after the 8-byte
/// discriminator, the bump and the user key).
pub const REPUTATION_SCORE_OFFSET: usize = 41;
/// Reputation assumed when a record cannot be read.
pub const DEFAULT_REPUTATION: u64 = 50;

/// The score stored in a reputation record's bytes, negative scores read as 0.
pub open spec fn stored_score(data: Seq<u8>) -> u64 {
    let raw = from_le(data.subrange(41, 49)) as i64;
    if raw < 0 { 0 } else { raw as u64 }
}

/// The reputation read from a record's bytes, or the default when they are
/// too short to hold a score.
pub open spec fn score_or_default(data: Seq<u8>) -> u64 {
    if data.len() >= 49 { stored_score(data) } else { DEFAULT_REPUTATION }
}

/// The cross-program call that a system parameter update asks for.
#[derive(Debug, Clone, Copy, PartialEq, Eq, Structural)]
pub enum SystemParameterAction {
    /// Pause the treasury program.
    PauseTreasury,
}

/// Reads the reputation of a voter and decides the cross-program fallback.
pub struct GovernanceCpi;

impl GovernanceCpi {
    /// Reads the score from the voter's reputation record bytes. `None`
    /// means the record is empty or too short and the reputation program
    /// has to be asked (then `get_user_reputation_after_cpi` decides).
    pub fn get_user_reputation(user_reputation_data: &[u8]) -> (score: Option<u64>)
        ensures
            score == (if user_reputation_data@.len() >= 49 {
                Some(stored_score(user_reputation_data@))
            } else {
                None::<u64>
            }),
    {
        if user_reputation_data.len() >= 49 {
            Some(Self::read_score(user_reputation_data))
        } else {
            None
        }
    }

    /// The reputation once the reputation program has been asked:
    /// `cpi_succeeded` tells whether the call returned normally, and
    /// `data_after` holds the record's bytes after it.
    pub fn get_user_reputation_after_cpi(cpi_succeeded: bool, data_after: &[u8]) -> (score: u64)
        ensures
            score == score_or_default(data_after@),
    {
        if cpi_succeeded {
            if data_after.len() >= 49 {
                Self::read_score(data_after)
            } else {
                DEFAULT_REPUTATION
            }
        } else {
            Self::get_reputation_fallback(data_after)
        }
    }

    /// Reads the record's score directly; the default when the record is
    /// empty or too short.
    pub fn get_reputation_fallback(user_reputation_data: &[u8]) -> (score: u64)
        ensures
            score == score_or_default(user_reputation_data@),
    {
        if user_reputation_data.len() == 0 {
            return DEFAULT_REPUTATION;
        }
        if user_reputation_data.len() >= 49 {
            Self::read_score(user_reputation_data)
        } else {
            DEFAULT_REPUTATION
        }
    }

    fn read_score(data: &[u8]) -> (score: u64)
        requires
            data@.len() >= 49,
        ensures
            score == stored_score(data@),
    {
        let raw = read_u64_le(data, REPUTATION_SCORE_OFFSET) as i64;
        if raw < 0 { 0 } else { raw as u64 }
    }

    /// Decides a system parameter update from its data: type byte 1 pauses
    /// the treasury; anything else, or no data, is refused.
    pub fn update_system_parameters(parameter_data: &[u8]) -> (res: Result<SystemParameterAction, GovernanceError>)
        ensures
            res == (if parameter_data@.len() > 0 && parameter_data@[0] == 1 {
                Ok(SystemParameterAction::PauseTreasury)
            } else {
                Err(GovernanceError::InvalidInstruction)
            }),
    {
        if parameter_data.len() == 0 {
            return Err(GovernanceError::InvalidInstruction);
        }
        let param_type = parameter_data[0];
        if param_type == 1 {
            Ok(SystemParameterAction::PauseTreasury)
        } else {
            Err(GovernanceError::InvalidInstruction)
        }
    }
}

/// Seeds of the governance program's accounts.
pub struct ProgramSeeds;

impl ProgramSeeds {
    /// The governance configuration seed.
    pub fn governance() -> (seed: Vec<u8>)
        ensures
            seed@ == governance_seed(),
    {
        vec![103, 111, 118, 101, 114, 110, 97, 110, 99, 101]
    }

    /// Seeds of a proposal account: the proposal seed and the id's
    /// little-endian bytes.
    pub fn proposal(proposal_id: u64) -> (seeds: Vec<Vec<u8>>)
        ensures
            seeds@.len() == 2,
            seeds@[0]@ == proposal_seed(),
            seeds@[1]@ == le_bytes(proposal_id),
    {
        let mut seeds: Vec<Vec<u8>> = Vec::new();
        seeds.push(vec![112, 114, 111, 112, 111, 115, 97, 108]);
        seeds.push(u64_le(proposal_id));
        seeds
    }

    /// Seeds of a vote account: the vote seed, the proposal id's
    /// little-endian bytes and the voter's address bytes.
    pub fn vote(proposal_id: u64, voter: &Pubkey) -> (seeds: Vec<Vec<u8>>)
        ensures
            seeds@.len() == 3,
            seeds@[0]@ == vote_seed(),
            seeds@[1]@ == le_bytes(proposal_id),
            seeds@[2]@ == voter@,
    {
        let mut seeds: Vec<Vec<u8>> = Vec::new();
        seeds.push(vec![118, 111, 116, 101]);
        seeds.push(u64_le(proposal_id));
        seeds.push(voter.to_bytes());
        seeds
    }
}

/// A treasury operation encoded in a proposal.
#[derive(Debug, Clone, Copy, PartialEq, Eq, Structural)]
pub enum TreasuryInstruction {
    FundProposal { proposal_id: u64, amount: u64 },
    StakeTokens { amount: u64 },
    Withdraw { amount: u64 },
}

/// A system-wide parameter operation encoded in a proposal.
#[derive(Debug, Clone, Copy, PartialEq, Eq, Structural)]
pub enum ParameterInstruction {
    EmergencyAction { pause_system: bool },
}

/// Amount funded when a treasury instruction carries none.
pub const DEFAULT_FUNDING_AMOUNT: u64 = 1000;

/// The treasury instruction that `data` encodes: after an 8-byte
/// discriminator, the little-endian proposal id and amount, each defaulting
/// when the data stops short.
pub open spec fn decoded_treasury_instruction(data: Seq<u8>) -> Result<TreasuryInstruction, GovernanceError> {
    if data.len() < 8 {
        Err(GovernanceError::InvalidInstruction)
    } else if data.len() < 16 {
        Ok(TreasuryInstruction::FundProposal { proposal_id: 0, amount: DEFAULT_FUNDING_AMOUNT })
    } else if data.len() < 24 {
        Ok(TreasuryInstruction::FundProposal { proposal_id: from_le(data.subrange(8, 16)), amount: DEFAULT_FUNDING_AMOUNT })
    } else {
        Ok(TreasuryInstruction::FundProposal {
            proposal_id: from_le(data.subrange(8, 16)),
            amount: from_le(data.subrange(16, 24)),
        })
    }
}

/// The parameter instruction that `data` encodes: type byte 1 is an
/// emergency action, pausing unless the next byte is present and zero.
pub open spec fn decoded_parameter_instruction(data: Seq<u8>) -> Result<ParameterInstruction, GovernanceError> {
    if data.len() < 1 || data[0] != 1 {
        Err(GovernanceError::InvalidInstruction)
    } else {
        Ok(ParameterInstruction::EmergencyAction { pause_system: data.len() < 2 || data[1] != 0 })
    }
}

/// Decodes the instruction data attached to proposals.
pub struct InstructionParser;

impl InstructionParser {
    /// Decodes a treasury instruction.
    pub fn parse_treasury_instruction(data: &[u8]) -> (res: Result<TreasuryInstruction, GovernanceError>)
        ensures
            res == decoded_treasury_instruction(data@),
    {
        if data.len() < 8 {
            return Err(GovernanceError::InvalidInstruction);
        }
        if data.len() >= 16 {
            let proposal_id = read_u64_le(data, 8);
            let amount = if data.len() >= 24 {
                read_u64_le(data, 16)
            } else {
                DEFAULT_FUNDING_AMOUNT
            };
            Ok(TreasuryInstruction::FundProposal { proposal_id, amount })
        } else {
            Ok(TreasuryInstruction::FundProposal { proposal_id: 0, amount: DEFAULT_FUNDING_AMOUNT })
        }
    }

    /// Decodes a parameter instruction.
    pub fn parse_parameter_instruction(data: &[u8]) -> (res: Result<ParameterInstruction, GovernanceError>)
        ensures
            res == decoded_parameter_instruction(data@),
    {
        if data.len() < 1 {
            return Err(GovernanceError::InvalidInstruction);
        }
        let param_type = data[0];
        if param_type == 1 {
            let pause_system = if data.len() >= 2 { data[1] != 0 } else { true };
            Ok(ParameterInstruction::EmergencyAction { pause_system })
        } else {
            Err(GovernanceError::InvalidInstruction)
        }
    }
}

} // verus!
