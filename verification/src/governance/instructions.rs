//! Governance instructions.

use vstd::prelude::*;
use crate::encoding::{from_le, opt_or, utf8_len};
use crate::pubkey::Pubkey;
use crate::governance::cpi_helpers::{
    decoded_treasury_instruction, GovernanceCpi, InstructionParser,
    ParameterInstruction, SystemParameterAction, TreasuryInstruction,
};
use crate::governance::state::{
    GovernanceConfig, GovernanceError, Proposal, ProposalStatus, ProposalType, Vote, VoteChoice,
    BASIS_POINTS_MAX, EXECUTION_WINDOW_DAYS, MAX_DESCRIPTION_LENGTH, MAX_INSTRUCTION_DATA_LENGTH,
    MAX_TITLE_LENGTH, SECONDS_PER_DAY,
};

verus! {

// ---------------------------------------------------------------------------
// initialize_governance
// ---------------------------------------------------------------------------

/// Emitted when the governance configuration is created.
#[derive(Debug, Clone, Copy, PartialEq, Eq, Structural)]
pub struct GovernanceInitialized {
    pub governance_config: Pubkey,
    pub agro_token_mint: Pubkey,
    pub governance_authority: Pubkey,
    pub initialized_at: i64,
}

/// Accounts of the governance initialization: the address of the
/// configuration account being created.
pub struct InitializeGovernance {
    pub governance_config_address: Pubkey,
}

impl InitializeGovernance {
    /// Creates the governance configuration; every basis-point parameter
    /// must be at most 100%.
    pub fn initialize_governance(
        &self,
        bump: u8,
        agro_token_mint: Pubkey,
        governance_authority: Pubkey,
        quorum_threshold_bps: u16,
        approval_threshold_bps: u16,
        parameter_change_threshold_bps: u16,
        min_agro_to_propose: u64,
        min_agro_to_vote: u64,
        max_reputation_weight_bps: u16,
        now: i64,
    ) -> (res: Result<(GovernanceConfig, GovernanceInitialized), GovernanceError>)
        ensures
            res == (if quorum_threshold_bps > BASIS_POINTS_MAX || approval_threshold_bps > BASIS_POINTS_MAX
                || parameter_change_threshold_bps > BASIS_POINTS_MAX || max_reputation_weight_bps
                > BASIS_POINTS_MAX {
                Err(GovernanceError::InvalidThreshold)
            } else {
                Ok((
                    GovernanceConfig {
                        bump,
                        agro_token_mint,
                        governance_authority,
                        quorum_threshold_bps,
                        approval_threshold_bps,
                        parameter_change_threshold_bps,
                        min_agro_to_propose,
                        min_agro_to_vote,
                        max_reputation_weight_bps,
                        total_proposals: 0,
                        emergency_pause: false,
                        created_at: now,
                        updated_at: now,
                    },
                    GovernanceInitialized {
                        governance_config: self.governance_config_address,
                        agro_token_mint,
                        governance_authority,
                        initialized_at: now,
                    },
                ))
            }),
    {
        if quorum_threshold_bps > BASIS_POINTS_MAX {
            return Err(GovernanceError::InvalidThreshold);
        }
        if approval_threshold_bps > BASIS_POINTS_MAX {
            return Err(GovernanceError::InvalidThreshold);
        }
        if parameter_change_threshold_bps > BASIS_POINTS_MAX {
            return Err(GovernanceError::InvalidThreshold);
        }
        if max_reputation_weight_bps > BASIS_POINTS_MAX {
            return Err(GovernanceError::InvalidThreshold);
        }
        Ok((
            GovernanceConfig {
                bump,
                agro_token_mint,
                governance_authority,
                quorum_threshold_bps,
                approval_threshold_bps,
                parameter_change_threshold_bps,
                min_agro_to_propose,
                min_agro_to_vote,
                max_reputation_weight_bps,
                total_proposals: 0,
                emergency_pause: false,
                created_at: now,
                updated_at: now,
            },
            GovernanceInitialized {
                governance_config: self.governance_config_address,
                agro_token_mint,
                governance_authority,
                initialized_at: now,
            },
        ))
    }
}

// ---------------------------------------------------------------------------
// create_proposal
// ---------------------------------------------------------------------------

/// Emitted when a proposal is created.
#[derive(Debug, Clone, PartialEq, Eq)]
pub struct ProposalCreated {
    pub proposal_id: u64,
    pub proposer: Pubkey,
    pub title: String,
    pub proposal_type: ProposalType,
    pub voting_ends_at: i64,
}

/// The first rule a proposal creation breaks, if any.
pub open spec fn create_proposal_error(
    config: GovernanceConfig,
    title: Seq<char>,
    description: Seq<char>,
    instruction_data: Option<Vec<u8>>,
    voting_period_days: u8,
) -> Option<GovernanceError> {
    if config.emergency_pause {
        Some(GovernanceError::GovernancePaused)
    } else if utf8_len(title) > MAX_TITLE_LENGTH {
        Some(GovernanceError::TitleTooLong)
    } else if utf8_len(description) > MAX_DESCRIPTION_LENGTH {
        Some(GovernanceError::DescriptionTooLong)
    } else if instruction_data matches Some(d) && d@.len() > MAX_INSTRUCTION_DATA_LENGTH {
        Some(GovernanceError::InstructionDataTooLong)
    } else if !(1 <= voting_period_days <= 30) {
        Some(GovernanceError::InvalidVotingPeriod)
    } else if config.total_proposals == u64::MAX {
        Some(GovernanceError::ArithmeticOverflow)
    } else {
        None
    }
}

/// End of voting for a proposal created at `now`.
pub open spec fn voting_end(now: i64, voting_period_days: u8) -> int {
    now + voting_period_days * SECONDS_PER_DAY
}

/// Accounts of a proposal creation: the configuration and the proposer.
pub struct CreateProposal {
    pub governance_config: GovernanceConfig,
    pub proposer: Pubkey,
}

impl CreateProposal {
    /// Creates an active proposal whose voting runs from `now` for
    /// `voting_period_days` days, followed by the execution window, and
    /// counts it in the configuration. Leaves the configuration unchanged
    /// when it refuses. `proposal_bump` is the bump of the derived proposal
    /// address; `_bump` is accepted and not used.
    pub fn create_proposal(
        &mut self,
        proposal_id: u64,
        _bump: u8,
        title: String,
        description: String,
        proposal_type: ProposalType,
        voting_period_days: u8,
        instruction_data: Option<Vec<u8>>,
        proposal_bump: u8,
        now: i64,
    ) -> (res: Result<(Proposal, ProposalCreated), GovernanceError>)
        requires
            1 <= voting_period_days <= 30 ==> now + (voting_period_days + EXECUTION_WINDOW_DAYS) * SECONDS_PER_DAY
                <= i64::MAX,
        ensures
            final(self).proposer == old(self).proposer,
            match create_proposal_error(old(self).governance_config, title@, description@, instruction_data, voting_period_days) {
                Some(e) => res == Err::<(Proposal, ProposalCreated), GovernanceError>(e)
                    && final(self).governance_config == old(self).governance_config,
                None => {
                    let ends = voting_end(now, voting_period_days);
                    &&& final(self).governance_config == (GovernanceConfig {
                        total_proposals: (old(self).governance_config.total_proposals + 1) as u64,
                        ..old(self).governance_config
                    })
                    &&& res matches Ok((p, ev))
                    &&& p == (Proposal {
                        proposal_id,
                        bump: proposal_bump,
                        proposer: old(self).proposer,
                        title,
                        description,
                        proposal_type,
                        status: ProposalStatus::Active,
                        created_at: now,
                        voting_starts_at: now,
                        voting_ends_at: ends as i64,
                        execution_window_end: (ends + EXECUTION_WINDOW_DAYS * SECONDS_PER_DAY) as i64,
                        yes_votes: 0,
                        no_votes: 0,
                        total_votes: 0,
                        total_voting_power: 0,
                        executed_at: None,
                        instruction_data,
                    })
                    &&& ev == (ProposalCreated {
                        proposal_id,
                        proposer: old(self).proposer,
                        title,
                        proposal_type,
                        voting_ends_at: ends as i64,
                    })
                },
            },
    {
        if self.governance_config.emergency_pause {
            return Err(GovernanceError::GovernancePaused);
        }
        if title.as_str().len() > MAX_TITLE_LENGTH {
            return Err(GovernanceError::TitleTooLong);
        }
        if description.as_str().len() > MAX_DESCRIPTION_LENGTH {
            return Err(GovernanceError::DescriptionTooLong);
        }
        match &instruction_data {
            Some(data) => {
                if data.len() > MAX_INSTRUCTION_DATA_LENGTH {
                    return Err(GovernanceError::InstructionDataTooLong);
                }
            },
            None => {},
        }
        if !(voting_period_days > 0 && voting_period_days <= 30) {
            return Err(GovernanceError::InvalidVotingPeriod);
        }
        if self.governance_config.total_proposals == u64::MAX {
            return Err(GovernanceError::ArithmeticOverflow);
        }
        let voting_starts_at = now;
        let voting_ends_at = now + (voting_period_days as i64) * SECONDS_PER_DAY;
        let execution_window_end = voting_ends_at + EXECUTION_WINDOW_DAYS * SECONDS_PER_DAY;
        let event_title = title.clone();
        let proposal = Proposal {
            proposal_id,
            bump: proposal_bump,
            proposer: self.proposer,
            title,
            description,
            proposal_type,
            status: ProposalStatus::Active,
            created_at: now,
            voting_starts_at,
            voting_ends_at,
            execution_window_end,
            yes_votes: 0,
            no_votes: 0,
            total_votes: 0,
            total_voting_power: 0,
            executed_at: None,
            instruction_data,
        };
        self.governance_config.total_proposals = self.governance_config.total_proposals + 1;
        let event = ProposalCreated {
            proposal_id,
            proposer: self.proposer,
            title: event_title,
            proposal_type,
            voting_ends_at,
        };
        Ok((proposal, event))
    }
}


// ---------------------------------------------------------------------------
// cast_vote
// ---------------------------------------------------------------------------

/// Emitted when a vote is cast.
#[derive(Debug, Clone, Copy, PartialEq, Eq, Structural)]
pub struct VoteCast {
    pub proposal_id: u64,
    pub voter: Pubkey,
    pub vote_choice: VoteChoice,
    pub voting_power: u64,
    pub agro_amount: u64,
    pub reputation_weight: u64,
}

/// Size of a token account.
pub const TOKEN_ACCOUNT_LEN: usize = 165;
/// Offset of the amount in a token account.
pub const TOKEN_ACCOUNT_AMOUNT_OFFSET: usize = 64;

/// The voter's token balance read from their token account: the account
/// must be owned by the voter, be a full token account, and be of the
/// governance token's mint.
pub open spec fn agro_balance(owner: Pubkey, voter: Pubkey, data: Seq<u8>, mint: Pubkey) -> Result<u64, GovernanceError> {
    if owner != voter || data.len() < TOKEN_ACCOUNT_LEN || data.subrange(0, 32) != mint@ {
        Err(GovernanceError::InvalidTokenAccount)
    } else {
        Ok(from_le(data.subrange(64, 72)))
    }
}

/// Voting-power multiplier, in percent, for a reputation score.
pub open spec fn reputation_multiplier(reputation: u64) -> u64 {
    if reputation <= 100 {
        100
    } else if reputation <= 500 {
        125
    } else if reputation <= 1000 {
        150
    } else {
        200
    }
}

/// Voting power of `agro_amount` tokens with a multiplier of `weight`
/// percent: Bronze 1x, Silver 1.25x, Gold 1.5x, Diamond 2x the balance
/// (rounded down).
pub open spec fn voting_power(agro_amount: u64, weight: u64) -> int {
    agro_amount * weight / 100
}

/// The outcome of a vote: the refusal, or the proposal afterwards and the
/// recorded vote.
pub open spec fn cast_vote_outcome(
    config: GovernanceConfig,
    p: Proposal,
    voter: Pubkey,
    owner: Pubkey,
    data: Seq<u8>,
    mint: Pubkey,
    proposal_id: u64,
    vote_choice: VoteChoice,
    bump: u8,
    now: i64,
    reputation: u64,
) -> Result<(Proposal, Vote), GovernanceError> {
    if config.emergency_pause {
        Err(GovernanceError::GovernancePaused)
    } else if p.status != ProposalStatus::Active {
        Err(GovernanceError::ProposalNotFound)
    } else if !(p.voting_starts_at <= now <= p.voting_ends_at) {
        Err(GovernanceError::VotingPeriodEnded)
    } else {
        match agro_balance(owner, voter, data, mint) {
            Err(e) => Err(e),
            Ok(amount) => {
                let weight = reputation_multiplier(reputation);
                let power = voting_power(amount, weight);
                if amount < config.min_agro_to_vote {
                    Err(GovernanceError::InsufficientAgroToVote)
                } else if vote_choice == VoteChoice::Yes && p.yes_votes + power > u64::MAX {
                    Err(GovernanceError::ArithmeticOverflow)
                } else if vote_choice == VoteChoice::No && p.no_votes + power > u64::MAX {
                    Err(GovernanceError::ArithmeticOverflow)
                } else if p.total_votes == u64::MAX || p.total_voting_power + power > u64::MAX {
                    Err(GovernanceError::ArithmeticOverflow)
                } else {
                    Ok((
                        Proposal {
                            yes_votes: if vote_choice == VoteChoice::Yes { (p.yes_votes + power) as u64 } else { p.yes_votes },
                            no_votes: if vote_choice == VoteChoice::No { (p.no_votes + power) as u64 } else { p.no_votes },
                            total_votes: (p.total_votes + 1) as u64,
                            total_voting_power: (p.total_voting_power + power) as u64,
                            ..p
                        },
                        Vote {
                            proposal_id,
                            bump,
                            voter,
                            vote_choice,
                            voting_power: power as u64,
                            agro_amount: amount,
                            reputation_weight: weight,
                            cast_at: now,
                        },
                    ))
                }
            },
        }
    }
}

/// Accounts of a vote: the configuration, the proposal, the voter, the
/// voter's token account (its owner and bytes) and the governance token mint.
pub struct CastVote {
    pub governance_config: GovernanceConfig,
    pub proposal: Proposal,
    pub voter: Pubkey,
    pub voter_agro_account_owner: Pubkey,
    pub voter_agro_account_data: Vec<u8>,
    pub agro_token_mint: Pubkey,
}

impl CastVote {
    /// Records the voter's choice on an active proposal during its voting
    /// period. The voting power is the voter's token balance times the
    /// reputation multiplier (1x, 1.25x, 1.5x or 2x, rounded down);
    /// `reputation` is the voter's score as `GovernanceCpi` reads it. Yes and
    /// no votes add to their counts; every vote, abstentions included, adds
    /// to the number of votes and the total voting power. Leaves the
    /// proposal unchanged when it refuses.
    pub fn cast_vote(
        &mut self,
        proposal_id: u64,
        vote_choice: VoteChoice,
        bump: u8,
        now: i64,
        reputation: u64,
    ) -> (res: Result<(Vote, VoteCast), GovernanceError>)
        requires
            !old(self).governance_config.emergency_pause && old(self).proposal.status == ProposalStatus::Active
                && old(self).proposal.voting_starts_at <= now <= old(self).proposal.voting_ends_at ==> match agro_balance(
                old(self).voter_agro_account_owner,
                old(self).voter,
                old(self).voter_agro_account_data@,
                old(self).agro_token_mint,
            ) {
                Ok(amount) => amount >= old(self).governance_config.min_agro_to_vote ==> amount
                    * reputation_multiplier(reputation) <= u64::MAX,
                Err(_) => true,
            },
        ensures
            final(self).governance_config == old(self).governance_config,
            final(self).voter == old(self).voter,
            final(self).voter_agro_account_owner == old(self).voter_agro_account_owner,
            final(self).voter_agro_account_data == old(self).voter_agro_account_data,
            final(self).agro_token_mint == old(self).agro_token_mint,
            match cast_vote_outcome(
                old(self).governance_config,
                old(self).proposal,
                old(self).voter,
                old(self).voter_agro_account_owner,
                old(self).voter_agro_account_data@,
                old(self).agro_token_mint,
                proposal_id,
                vote_choice,
                bump,
                now,
                reputation,
            ) {
                Err(e) => res == Err::<(Vote, VoteCast), GovernanceError>(e) && final(self).proposal == old(self).proposal,
                Ok((p, v)) => final(self).proposal == p && res == Ok::<(Vote, VoteCast), GovernanceError>((
                    v,
                    VoteCast {
                        proposal_id,
                        voter: v.voter,
                        vote_choice,
                        voting_power: v.voting_power,
                        agro_amount: v.agro_amount,
                        reputation_weight: v.reputation_weight,
                    },
                )),
            },
    {
        if self.governance_config.emergency_pause {
            return Err(GovernanceError::GovernancePaused);
        }
        if self.proposal.status != ProposalStatus::Active {
            return Err(GovernanceError::ProposalNotFound);
        }
        if !self.proposal.is_voting_active(now) {
            return Err(GovernanceError::VotingPeriodEnded);
        }
        let agro_amount = match self.get_voter_agro_balance() {
            Ok(a) => a,
            Err(e) => { return Err(e); },
        };
        if agro_amount < self.governance_config.min_agro_to_vote {
            return Err(GovernanceError::InsufficientAgroToVote);
        }
        let reputation_weight = Self::get_voter_reputation_weight(reputation);
        let total_voting_power = (agro_amount * reputation_weight) / 100;
        match vote_choice {
            VoteChoice::Yes => {
                if self.proposal.yes_votes > u64::MAX - total_voting_power {
                    return Err(GovernanceError::ArithmeticOverflow);
                }
            },
            VoteChoice::No => {
                if self.proposal.no_votes > u64::MAX - total_voting_power {
                    return Err(GovernanceError::ArithmeticOverflow);
                }
            },
            VoteChoice::Abstain => {},
        }
        if self.proposal.total_votes == u64::MAX {
            return Err(GovernanceError::ArithmeticOverflow);
        }
        if self.proposal.total_voting_power > u64::MAX - total_voting_power {
            return Err(GovernanceError::ArithmeticOverflow);
        }
        let vote = Vote {
            proposal_id,
            bump,
            voter: self.voter,
            vote_choice,
            voting_power: total_voting_power,
            agro_amount,
            reputation_weight,
            cast_at: now,
        };
        match vote_choice {
            VoteChoice::Yes => {
                self.proposal.yes_votes = self.proposal.yes_votes + total_voting_power;
            },
            VoteChoice::No => {
                self.proposal.no_votes = self.proposal.no_votes + total_voting_power;
            },
            VoteChoice::Abstain => {},
        }
        self.proposal.total_votes = self.proposal.total_votes + 1;
        self.proposal.total_voting_power = self.proposal.total_voting_power + total_voting_power;
        let event = VoteCast {
            proposal_id,
            voter: self.voter,
            vote_choice,
            voting_power: total_voting_power,
            agro_amount,
            reputation_weight,
        };
        Ok((vote, event))
    }

    /// The voter's governance token balance, read from their token account.
    pub fn get_voter_agro_balance(&self) -> (res: Result<u64, GovernanceError>)
        ensures
            res == agro_balance(self.voter_agro_account_owner, self.voter, self.voter_agro_account_data@, self.agro_token_mint),
    {
        if self.voter_agro_account_owner != self.voter {
            return Err(GovernanceError::InvalidTokenAccount);
        }
        let data = self.voter_agro_account_data.as_slice();
        if data.len() < TOKEN_ACCOUNT_LEN {
            return Err(GovernanceError::InvalidTokenAccount);
        }
        let amount = crate::encoding::read_u64_le(data, TOKEN_ACCOUNT_AMOUNT_OFFSET);
        let mint_pubkey = Pubkey::read_from(data, 0);
        proof {
            Pubkey::lemma_view_injective(mint_pubkey, self.agro_token_mint);
        }
        if mint_pubkey != self.agro_token_mint {
            return Err(GovernanceError::InvalidTokenAccount);
        }
        Ok(amount)
    }

    /// The voting-power multiplier, in percent, for a reputation score:
    /// 100 up to 100, 125 up to 500, 150 up to 1000, 200 above.
    pub fn get_voter_reputation_weight(reputation: u64) -> (weight: u64)
        ensures
            weight == reputation_multiplier(reputation),
            100 <= weight <= 200,
    {
        if reputation <= 100 {
            100
        } else if reputation <= 500 {
            125
        } else if reputation <= 1000 {
            150
        } else {
            200
        }
    }
}

// ---------------------------------------------------------------------------
// tally_votes
// ---------------------------------------------------------------------------

/// Emitted when a proposal is tallied.
#[derive(Debug, Clone, Copy, PartialEq, Eq, Structural)]
pub struct ProposalTallied {
    pub proposal_id: u64,
    pub status: ProposalStatus,
    pub yes_votes: u64,
    pub no_votes: u64,
    pub total_voting_power: u64,
    pub quorum_reached: bool,
    pub approval_reached: bool,
}

/// Voting power that participation (yes, no and abstain votes) must reach.
pub open spec fn quorum_threshold(total_voting_power: u64, quorum_bps: u16) -> int {
    total_voting_power * quorum_bps / (BASIS_POINTS_MAX as int)
}

/// Voting power the yes votes must reach.
pub open spec fn approval_threshold(participating: int, approval_bps: u16) -> int {
    participating * approval_bps / (BASIS_POINTS_MAX as int)
}

/// Whether the tally of `p` under `c` approves it (once quorum is met).
pub open spec fn tally_approves(p: Proposal, c: GovernanceConfig) -> bool {
    p.yes_votes >= approval_threshold(p.yes_votes + p.no_votes, c.approval_threshold_bps)
}

/// The outcome of tallying `p` under `c` at `now`: the refusal, or the
/// proposal afterwards.
pub open spec fn tally_outcome(p: Proposal, c: GovernanceConfig, now: i64) -> Result<Proposal, GovernanceError> {
    if p.status != ProposalStatus::Active {
        Err(GovernanceError::ProposalNotFound)
    } else if now <= p.voting_ends_at {
        Err(GovernanceError::VotingPeriodActive)
    } else if p.total_voting_power < quorum_threshold(p.total_voting_power, c.quorum_threshold_bps) {
        Err(GovernanceError::InsufficientQuorum)
    } else {
        Ok(Proposal {
            status: if tally_approves(p, c) { ProposalStatus::Approved } else { ProposalStatus::Rejected },
            ..p
        })
    }
}

/// Accounts of a tally: the configuration and the proposal.
pub struct TallyVotes {
    pub governance_config: GovernanceConfig,
    pub proposal: Proposal,
}

impl TallyVotes {
    /// After the voting period of an active proposal: refuses when the
    /// participating power (yes, no and abstain votes, the total voting
    /// power) falls short of its quorum share, else marks the proposal
    /// approved when the yes votes reach the approval share of the yes and
    /// no votes (abstentions count towards quorum only), rejected otherwise.
    pub fn tally_votes(&mut self, proposal_id: u64, now: i64) -> (res: Result<ProposalTallied, GovernanceError>)
        requires
            old(self).proposal.status == ProposalStatus::Active && now > old(self).proposal.voting_ends_at ==> {
                &&& old(self).proposal.total_voting_power * old(self).governance_config.quorum_threshold_bps <= u64::MAX
                &&& old(self).proposal.yes_votes + old(self).proposal.no_votes <= u64::MAX
                &&& (old(self).proposal.yes_votes + old(self).proposal.no_votes)
                    * old(self).governance_config.approval_threshold_bps <= u64::MAX
            },
        ensures
            final(self).governance_config == old(self).governance_config,
            match tally_outcome(old(self).proposal, old(self).governance_config, now) {
                Err(e) => res == Err::<ProposalTallied, GovernanceError>(e) && final(self).proposal == old(self).proposal,
                Ok(p2) => final(self).proposal == p2 && res == Ok::<ProposalTallied, GovernanceError>(ProposalTallied {
                    proposal_id,
                    status: p2.status,
                    yes_votes: p2.yes_votes,
                    no_votes: p2.no_votes,
                    total_voting_power: p2.total_voting_power,
                    quorum_reached: true,
                    approval_reached: p2.status == ProposalStatus::Approved,
                }),
            },
    {
        if self.proposal.status != ProposalStatus::Active {
            return Err(GovernanceError::ProposalNotFound);
        }
        if !self.proposal.is_voting_ended(now) {
            return Err(GovernanceError::VotingPeriodActive);
        }
        let quorum_threshold = (self.proposal.total_voting_power * (self.governance_config.quorum_threshold_bps as u64))
            / (BASIS_POINTS_MAX as u64);
        let total_participating_power = self.proposal.total_voting_power;
        if total_participating_power < quorum_threshold {
            return Err(GovernanceError::InsufficientQuorum);
        }
        let decided_power = self.proposal.yes_votes + self.proposal.no_votes;
        let approval_threshold = (decided_power * (self.governance_config.approval_threshold_bps as u64))
            / (BASIS_POINTS_MAX as u64);
        let is_approved = self.proposal.yes_votes >= approval_threshold;
        self.proposal.status = if is_approved { ProposalStatus::Approved } else { ProposalStatus::Rejected };
        Ok(ProposalTallied {
            proposal_id,
            status: self.proposal.status,
            yes_votes: self.proposal.yes_votes,
            no_votes: self.proposal.no_votes,
            total_voting_power: self.proposal.total_voting_power,
            quorum_reached: total_participating_power >= quorum_threshold,
            approval_reached: is_approved,
        })
    }
}


// ---------------------------------------------------------------------------
// execute_proposal
// ---------------------------------------------------------------------------

/// The cross-program call that executing a proposal asks for.
#[derive(Debug, Clone, Copy, PartialEq, Eq, Structural)]
pub enum ExecutionAction {
    /// Nothing to call.
    NoCall,
    /// Fund a research proposal through the treasury program.
    FundTreasuryProposal { proposal_id: u64, amount: u64 },
    /// Pause the treasury program.
    PauseTreasury,
}

/// Emitted when a proposal is executed.
#[derive(Debug, Clone, Copy, PartialEq, Eq, Structural)]
pub struct ProposalExecuted {
    pub proposal_id: u64,
    pub executed_by: Pubkey,
    pub executed_at: i64,
    pub proposal_type: ProposalType,
}

/// The bytes of a proposal's instruction data, if it has any.
pub open spec fn data_view(d: Option<Vec<u8>>) -> Option<Seq<u8>> {
    match d {
        Some(v) => Some(v@),
        None => None,
    }
}

/// The call a proposal of type `t` with instruction data `data` asks for.
/// Research proposals ask for none.
pub open spec fn execution_action(t: ProposalType, data: Option<Seq<u8>>) -> Result<ExecutionAction, GovernanceError> {
    match data {
        None => Ok(ExecutionAction::NoCall),
        Some(d) => match t {
            ProposalType::Treasury => match decoded_treasury_instruction(d) {
                Err(e) => Err(e),
                Ok(TreasuryInstruction::FundProposal { proposal_id, amount }) => Ok(
                    ExecutionAction::FundTreasuryProposal { proposal_id, amount },
                ),
                Ok(_) => Ok(ExecutionAction::NoCall),
            },
            ProposalType::Research => Ok(ExecutionAction::NoCall),
            ProposalType::ParameterChange | ProposalType::Emergency => if d.len() > 0 && d[0] == 1 {
                Ok(ExecutionAction::PauseTreasury)
            } else {
                Err(GovernanceError::InvalidInstruction)
            },
        },
    }
}

/// The outcome of executing `p` at `now`: the refusal, or the call asked
/// for and the proposal afterwards.
pub open spec fn execute_outcome(p: Proposal, now: i64) -> Result<(ExecutionAction, Proposal), GovernanceError> {
    if p.status != ProposalStatus::Approved {
        Err(GovernanceError::ProposalNotApproved)
    } else if now > p.execution_window_end {
        Err(GovernanceError::ExecutionWindowExpired)
    } else if p.executed_at is Some {
        Err(GovernanceError::ProposalAlreadyExecuted)
    } else {
        match execution_action(p.proposal_type, data_view(p.instruction_data)) {
            Err(e) => Err(e),
            Ok(action) => Ok((action, Proposal { status: ProposalStatus::Executed, executed_at: Some(now), ..p })),
        }
    }
}

/// Accounts of an execution: the configuration, the proposal and the
/// signer executing it.
pub struct ExecuteProposal {
    pub governance_config: GovernanceConfig,
    pub proposal: Proposal,
    pub authority: Pubkey,
}

impl ExecuteProposal {
    /// Executes an approved, not yet executed proposal within its execution
    /// window: decides the call its type and instruction data ask for, and
    /// marks it executed at `now`. Leaves the proposal unchanged when it
    /// refuses.
    pub fn execute_proposal(&mut self, proposal_id: u64, now: i64) -> (res: Result<(ExecutionAction, ProposalExecuted), GovernanceError>)
        ensures
            final(self).governance_config == old(self).governance_config,
            final(self).authority == old(self).authority,
            match execute_outcome(old(self).proposal, now) {
                Err(e) => res == Err::<(ExecutionAction, ProposalExecuted), GovernanceError>(e)
                    && final(self).proposal == old(self).proposal,
                Ok((action, p2)) => final(self).proposal == p2 && res == Ok::<(ExecutionAction, ProposalExecuted), GovernanceError>((
                    action,
                    ProposalExecuted {
                        proposal_id,
                        executed_by: old(self).authority,
                        executed_at: now,
                        proposal_type: p2.proposal_type,
                    },
                )),
            },
    {
        if self.proposal.status != ProposalStatus::Approved {
            return Err(GovernanceError::ProposalNotApproved);
        }
        if !self.proposal.is_execution_window_open(now) {
            return Err(GovernanceError::ExecutionWindowExpired);
        }
        if self.proposal.executed_at.is_some() {
            return Err(GovernanceError::ProposalAlreadyExecuted);
        }
        let action = match self.proposal.proposal_type {
            ProposalType::Treasury => self.execute_treasury_proposal(),
            ProposalType::Research => self.execute_research_proposal(),
            ProposalType::ParameterChange => self.execute_parameter_change(),
            ProposalType::Emergency => self.execute_emergency_action(),
        };
        let action = match action {
            Ok(a) => a,
            Err(e) => { return Err(e); },
        };
        self.proposal.status = ProposalStatus::Executed;
        self.proposal.executed_at = Some(now);
        Ok((
            action,
            ProposalExecuted {
                proposal_id,
                executed_by: self.authority,
                executed_at: now,
                proposal_type: self.proposal.proposal_type,
            },
        ))
    }

    /// A treasury proposal funds the research proposal its data names.
    fn execute_treasury_proposal(&self) -> (res: Result<ExecutionAction, GovernanceError>)
        requires
            self.proposal.proposal_type == ProposalType::Treasury,
        ensures
            res == execution_action(self.proposal.proposal_type, data_view(self.proposal.instruction_data)),
    {
        match &self.proposal.instruction_data {
            Some(data) => {
                match InstructionParser::parse_treasury_instruction(data.as_slice()) {
                    Err(e) => Err(e),
                    Ok(TreasuryInstruction::FundProposal { proposal_id, amount }) => Ok(
                        ExecutionAction::FundTreasuryProposal { proposal_id, amount },
                    ),
                    Ok(_) => Ok(ExecutionAction::NoCall),
                }
            },
            None => Ok(ExecutionAction::NoCall),
        }
    }

    /// A research proposal asks for no call.
    fn execute_research_proposal(&self) -> (res: Result<ExecutionAction, GovernanceError>)
        requires
            self.proposal.proposal_type == ProposalType::Research,
        ensures
            res == execution_action(self.proposal.proposal_type, data_view(self.proposal.instruction_data)),
    {
        Ok(ExecutionAction::NoCall)
    }

    /// A parameter change must encode an emergency action, which pauses the
    /// treasury.
    fn execute_parameter_change(&self) -> (res: Result<ExecutionAction, GovernanceError>)
        requires
            self.proposal.proposal_type == ProposalType::ParameterChange,
        ensures
            res == execution_action(self.proposal.proposal_type, data_view(self.proposal.instruction_data)),
    {
        match &self.proposal.instruction_data {
            Some(data) => {
                match InstructionParser::parse_parameter_instruction(data.as_slice()) {
                    Err(e) => Err(e),
                    Ok(ParameterInstruction::EmergencyAction { pause_system: _ }) => {
                        match GovernanceCpi::update_system_parameters(data.as_slice()) {
                            Ok(SystemParameterAction::PauseTreasury) => Ok(ExecutionAction::PauseTreasury),
                            Err(e) => Err(e),
                        }
                    },
                }
            },
            None => Ok(ExecutionAction::NoCall),
        }
    }

    /// An emergency proposal's data goes straight to the system parameter
    /// update.
    fn execute_emergency_action(&self) -> (res: Result<ExecutionAction, GovernanceError>)
        requires
            self.proposal.proposal_type == ProposalType::Emergency,
        ensures
            res == execution_action(self.proposal.proposal_type, data_view(self.proposal.instruction_data)),
    {
        match &self.proposal.instruction_data {
            Some(data) => {
                match GovernanceCpi::update_system_parameters(data.as_slice()) {
                    Ok(SystemParameterAction::PauseTreasury) => Ok(ExecutionAction::PauseTreasury),
                    Err(e) => Err(e),
                }
            },
            None => Ok(ExecutionAction::NoCall),
        }
    }
}

// ---------------------------------------------------------------------------
// update_governance_config
// ---------------------------------------------------------------------------

/// Emitted when the configuration is updated.
#[derive(Debug, Clone, Copy, PartialEq, Eq, Structural)]
pub struct GovernanceConfigUpdated {
    pub governance_config: Pubkey,
    pub updated_by: Pubkey,
    pub updated_at: i64,
}

/// Whether an optional basis-point value is absent or at most 100%.
pub open spec fn bps_ok(t: Option<u16>) -> bool {
    match t {
        Some(v) => v <= BASIS_POINTS_MAX,
        None => true,
    }
}

/// Accounts of a configuration update: the configuration, its address and
/// the signer.
pub struct UpdateGovernanceConfig {
    pub governance_config: GovernanceConfig,
    pub governance_config_address: Pubkey,
    pub authority: Pubkey,
}

impl UpdateGovernanceConfig {
    /// The governance authority sets each given parameter; basis-point
    /// parameters must be at most 100%. Leaves the configuration unchanged
    /// when it refuses.
    pub fn update_governance_config(
        &mut self,
        new_quorum_threshold_bps: Option<u16>,
        new_approval_threshold_bps: Option<u16>,
        new_parameter_change_threshold_bps: Option<u16>,
        new_min_agro_to_propose: Option<u64>,
        new_min_agro_to_vote: Option<u64>,
        new_max_reputation_weight_bps: Option<u16>,
        new_governance_authority: Option<Pubkey>,
        emergency_pause: Option<bool>,
        now: i64,
    ) -> (res: Result<GovernanceConfigUpdated, GovernanceError>)
        ensures
            final(self).governance_config_address == old(self).governance_config_address,
            final(self).authority == old(self).authority,
            ({
                let c = old(self).governance_config;
                if c.governance_authority != old(self).authority {
                    res == Err::<GovernanceConfigUpdated, GovernanceError>(GovernanceError::Unauthorized)
                        && final(self).governance_config == c
                } else if !(bps_ok(new_quorum_threshold_bps) && bps_ok(new_approval_threshold_bps) && bps_ok(
                    new_parameter_change_threshold_bps,
                ) && bps_ok(new_max_reputation_weight_bps)) {
                    res == Err::<GovernanceConfigUpdated, GovernanceError>(GovernanceError::InvalidThreshold)
                        && final(self).governance_config == c
                } else {
                    &&& final(self).governance_config == (GovernanceConfig {
                        quorum_threshold_bps: opt_or(new_quorum_threshold_bps, c.quorum_threshold_bps),
                        approval_threshold_bps: opt_or(new_approval_threshold_bps, c.approval_threshold_bps),
                        parameter_change_threshold_bps: opt_or(
                            new_parameter_change_threshold_bps,
                            c.parameter_change_threshold_bps,
                        ),
                        min_agro_to_propose: opt_or(new_min_agro_to_propose, c.min_agro_to_propose),
                        min_agro_to_vote: opt_or(new_min_agro_to_vote, c.min_agro_to_vote),
                        max_reputation_weight_bps: opt_or(new_max_reputation_weight_bps, c.max_reputation_weight_bps),
                        governance_authority: opt_or(new_governance_authority, c.governance_authority),
                        emergency_pause: opt_or(emergency_pause, c.emergency_pause),
                        updated_at: now,
                        ..c
                    })
                    &&& res == Ok::<GovernanceConfigUpdated, GovernanceError>(GovernanceConfigUpdated {
                        governance_config: old(self).governance_config_address,
                        updated_by: old(self).authority,
                        updated_at: now,
                    })
                }
            }),
    {
        if self.governance_config.governance_authority != self.authority {
            return Err(GovernanceError::Unauthorized);
        }
        let mut updated = self.governance_config;
        if let Some(threshold) = new_quorum_threshold_bps {
            if threshold > BASIS_POINTS_MAX {
                return Err(GovernanceError::InvalidThreshold);
            }
            updated.quorum_threshold_bps = threshold;
        }
        if let Some(threshold) = new_approval_threshold_bps {
            if threshold > BASIS_POINTS_MAX {
                return Err(GovernanceError::InvalidThreshold);
            }
            updated.approval_threshold_bps = threshold;
        }
        if let Some(threshold) = new_parameter_change_threshold_bps {
            if threshold > BASIS_POINTS_MAX {
                return Err(GovernanceError::InvalidThreshold);
            }
            updated.parameter_change_threshold_bps = threshold;
        }
        if let Some(threshold) = new_max_reputation_weight_bps {
            if threshold > BASIS_POINTS_MAX {
                return Err(GovernanceError::InvalidThreshold);
            }
            updated.max_reputation_weight_bps = threshold;
        }
        if let Some(min_agro) = new_min_agro_to_propose {
            updated.min_agro_to_propose = min_agro;
        }
        if let Some(min_agro) = new_min_agro_to_vote {
            updated.min_agro_to_vote = min_agro;
        }
        if let Some(new_authority) = new_governance_authority {
            updated.governance_authority = new_authority;
        }
        if let Some(pause) = emergency_pause {
            updated.emergency_pause = pause;
        }
        updated.updated_at = now;
        self.governance_config = updated;
        Ok(GovernanceConfigUpdated {
            governance_config: self.governance_config_address,
            updated_by: self.authority,
            updated_at: now,
        })
    }
}

} // verus!
