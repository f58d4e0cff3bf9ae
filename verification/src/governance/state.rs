//! Governance accounts, limits and errors.

use vstd::prelude::*;
use crate::pubkey::Pubkey;

verus! {

/// Basis points in a whole (100%).
pub const BASIS_POINTS_MAX: u16 = 10_000;
pub const SECONDS_PER_DAY: i64 = 86_400;
/// Days after the end of voting during which an approved proposal can run.
pub const EXECUTION_WINDOW_DAYS: i64 = 7;
pub const MAX_TITLE_LENGTH: usize = 100;
pub const MAX_DESCRIPTION_LENGTH: usize = 1000;
pub const MAX_INSTRUCTION_DATA_LENGTH: usize = 2048;

/// Errors of the governance program.
#[derive(Debug, Clone, Copy, PartialEq, Eq, Structural)]
pub enum GovernanceError {
    GovernancePaused,
    VotingPeriodActive,
    VotingPeriodEnded,
    ProposalNotApproved,
    ExecutionWindowExpired,
    ProposalAlreadyExecuted,
    InsufficientAgroToPropose,
    InsufficientAgroToVote,
    TitleTooLong,
    DescriptionTooLong,
    InstructionDataTooLong,
    InvalidThreshold,
    ProposalNotFound,
    VoteAlreadyCast,
    AlreadyVoted,
    InsufficientQuorum,
    InsufficientApproval,
    Unauthorized,
    InvalidVotingPeriod,
    InvalidTokenAccount,
    ArithmeticOverflow,
    InvalidInstruction,
}

/// Global governance parameters.
#[derive(Debug, Clone, Copy, PartialEq, Eq, Structural)]
pub struct GovernanceConfig {
    pub bump: u8,
    pub agro_token_mint: Pubkey,
    pub governance_authority: Pubkey,
    pub quorum_threshold_bps: u16,
    pub approval_threshold_bps: u16,
    pub parameter_change_threshold_bps: u16,
    pub min_agro_to_propose: u64,
    pub min_agro_to_vote: u64,
    pub max_reputation_weight_bps: u16,
    pub total_proposals: u64,
    pub emergency_pause: bool,
    pub created_at: i64,
    pub updated_at: i64,
}

/// The four basis-point parameters are at most 100%.
pub open spec fn config_thresholds_valid(c: GovernanceConfig) -> bool {
    &&& c.quorum_threshold_bps <= BASIS_POINTS_MAX
    &&& c.approval_threshold_bps <= BASIS_POINTS_MAX
    &&& c.parameter_change_threshold_bps <= BASIS_POINTS_MAX
    &&& c.max_reputation_weight_bps <= BASIS_POINTS_MAX
}

/// What a proposal is about, which decides how it is executed.
#[derive(Debug, Clone, Copy, PartialEq, Eq, Structural)]
pub enum ProposalType {
    Treasury,
    Research,
    ParameterChange,
    Emergency,
}

/// Where a proposal is in its life.
#[derive(Debug, Clone, Copy, PartialEq, Eq, Structural)]
pub enum ProposalStatus {
    Active,
    Approved,
    Rejected,
    Executed,
    Expired,
}

/// A voter's choice.
#[derive(Debug, Clone, Copy, PartialEq, Eq, Structural)]
pub enum VoteChoice {
    Yes,
    No,
    Abstain,
}

/// A governance proposal and its running vote counts.
#[derive(Debug, Clone, PartialEq, Eq)]
pub struct Proposal {
    pub proposal_id: u64,
    pub bump: u8,
    pub proposer: Pubkey,
    pub title: String,
    pub description: String,
    pub proposal_type: ProposalType,
    pub status: ProposalStatus,
    pub created_at: i64,
    pub voting_starts_at: i64,
    pub voting_ends_at: i64,
    pub execution_window_end: i64,
    pub yes_votes: u64,
    pub no_votes: u64,
    pub total_votes: u64,
    pub total_voting_power: u64,
    pub executed_at: Option<i64>,
    pub instruction_data: Option<Vec<u8>>,
}

/// A recorded vote.
#[derive(Debug, Clone, Copy, PartialEq, Eq, Structural)]
pub struct Vote {
    pub proposal_id: u64,
    pub bump: u8,
    pub voter: Pubkey,
    pub vote_choice: VoteChoice,
    pub voting_power: u64,
    pub agro_amount: u64,
    pub reputation_weight: u64,
    pub cast_at: i64,
}

impl Proposal {
    /// Whether `current_time` lies within the voting period (both ends included).
    pub fn is_voting_active(&self, current_time: i64) -> (b: bool)
        ensures
            b == (self.voting_starts_at <= current_time <= self.voting_ends_at),
    {
        current_time >= self.voting_starts_at && current_time <= self.voting_ends_at
    }

    /// Whether the voting period is over at `current_time`.
    pub fn is_voting_ended(&self, current_time: i64) -> (b: bool)
        ensures
            b == (current_time > self.voting_ends_at),
    {
        current_time > self.voting_ends_at
    }

    /// Whether the execution window is still open at `current_time`.
    pub fn is_execution_window_open(&self, current_time: i64) -> (b: bool)
        ensures
            b == (current_time <= self.execution_window_end),
    {
        current_time <= self.execution_window_end
    }
}

} // verus!
