use agro_dao::governance::cpi_helpers::{
    GovernanceCpi, InstructionParser, ParameterInstruction, ProgramSeeds, SystemParameterAction, TreasuryInstruction,
};
use agro_dao::governance::instructions::{
    CastVote, CreateProposal, ExecuteProposal, ExecutionAction, InitializeGovernance, TallyVotes,
    UpdateGovernanceConfig,
};
use agro_dao::governance::state::{
    GovernanceConfig, GovernanceError, Proposal, ProposalStatus, ProposalType, VoteChoice,
};
use agro_dao::pubkey::Pubkey;

fn key(n: u8) -> Pubkey {
    Pubkey::new_from_array([n; 32])
}

const DAY: i64 = 86_400;

fn config() -> GovernanceConfig {
    let init = InitializeGovernance { governance_config_address: key(50) };
    init.initialize_governance(1, key(10), key(11), 5000, 5000, 6000, 100, 1000, 2000, 0).unwrap().0
}

fn proposal(t: ProposalType, data: Option<Vec<u8>>) -> Proposal {
    let mut c = CreateProposal { governance_config: config(), proposer: key(3) };
    c.create_proposal(0, 0, "Fund soil study".to_string(), "desc".to_string(), t, 5, data, 254, 1_000).unwrap().0
}

fn token_account(mint: Pubkey, amount: u64) -> Vec<u8> {
    let mut data = vec![0u8; 165];
    data[0..32].copy_from_slice(&mint.to_bytes());
    data[64..72].copy_from_slice(&amount.to_le_bytes());
    data
}

fn voter_ctx(amount: u64) -> CastVote {
    CastVote {
        governance_config: config(),
        proposal: proposal(ProposalType::Treasury, None),
        voter: key(4),
        voter_agro_account_owner: key(4),
        voter_agro_account_data: token_account(key(10), amount),
        agro_token_mint: key(10),
    }
}

#[test]
fn initialize_governance_validates_thresholds() {
    let init = InitializeGovernance { governance_config_address: key(50) };
    let (c, ev) = init.initialize_governance(2, key(10), key(11), 10_000, 0, 1, 5, 6, 7, 99).unwrap();
    assert_eq!(c.quorum_threshold_bps, 10_000);
    assert_eq!(c.total_proposals, 0);
    assert!(!c.emergency_pause);
    assert_eq!(c.created_at, 99);
    assert_eq!(ev.governance_config, key(50));
    assert_eq!(
        init.initialize_governance(2, key(10), key(11), 10_001, 0, 1, 5, 6, 7, 99).err(),
        Some(GovernanceError::InvalidThreshold)
    );
    assert_eq!(
        init.initialize_governance(2, key(10), key(11), 1, 1, 1, 5, 6, 10_001, 99).err(),
        Some(GovernanceError::InvalidThreshold)
    );
}

#[test]
fn create_proposal_schedules_voting_and_execution() {
    let mut c = CreateProposal { governance_config: config(), proposer: key(3) };
    let (p, ev) = c
        .create_proposal(7, 0, "Title".to_string(), "Body".to_string(), ProposalType::Research, 3, Some(vec![1, 2]), 250, 1_000)
        .unwrap();
    assert_eq!(p.proposal_id, 7);
    assert_eq!(p.bump, 250);
    assert_eq!(p.status, ProposalStatus::Active);
    assert_eq!(p.voting_starts_at, 1_000);
    assert_eq!(p.voting_ends_at, 1_000 + 3 * DAY);
    assert_eq!(p.execution_window_end, 1_000 + 10 * DAY);
    assert_eq!(p.instruction_data, Some(vec![1, 2]));
    assert_eq!(p.proposer, key(3));
    assert_eq!(c.governance_config.total_proposals, 1);
    assert_eq!(ev.title, "Title".to_string());
    assert_eq!(ev.voting_ends_at, 1_000 + 3 * DAY);
}

#[test]
fn create_proposal_refusals() {
    let mut c = CreateProposal { governance_config: config(), proposer: key(3) };
    let long_title = "t".repeat(101);
    assert_eq!(
        c.create_proposal(0, 0, long_title, String::new(), ProposalType::Treasury, 3, None, 1, 0).err(),
        Some(GovernanceError::TitleTooLong)
    );
    assert_eq!(
        c.create_proposal(0, 0, "t".repeat(100), "d".repeat(1001), ProposalType::Treasury, 3, None, 1, 0).err(),
        Some(GovernanceError::DescriptionTooLong)
    );
    assert_eq!(
        c.create_proposal(0, 0, String::new(), String::new(), ProposalType::Treasury, 3, Some(vec![0; 2049]), 1, 0).err(),
        Some(GovernanceError::InstructionDataTooLong)
    );
    assert_eq!(
        c.create_proposal(0, 0, String::new(), String::new(), ProposalType::Treasury, 0, None, 1, 0).err(),
        Some(GovernanceError::InvalidVotingPeriod)
    );
    assert_eq!(
        c.create_proposal(0, 0, String::new(), String::new(), ProposalType::Treasury, 31, None, 1, 0).err(),
        Some(GovernanceError::InvalidVotingPeriod)
    );
    assert_eq!(c.governance_config.total_proposals, 0);
    c.governance_config.emergency_pause = true;
    assert_eq!(
        c.create_proposal(0, 0, String::new(), String::new(), ProposalType::Treasury, 3, None, 1, 0).err(),
        Some(GovernanceError::GovernancePaused)
    );
    let mut full = CreateProposal { governance_config: config(), proposer: key(3) };
    full.governance_config.total_proposals = u64::MAX;
    assert_eq!(
        full.create_proposal(0, 0, String::new(), String::new(), ProposalType::Treasury, 3, None, 1, 0).err(),
        Some(GovernanceError::ArithmeticOverflow)
    );
}

#[test]
fn voting_windows() {
    let p = proposal(ProposalType::Treasury, None);
    assert!(!p.is_voting_active(999));
    assert!(p.is_voting_active(1_000));
    assert!(p.is_voting_active(1_000 + 5 * DAY));
    assert!(!p.is_voting_active(1_001 + 5 * DAY));
    assert!(!p.is_voting_ended(1_000 + 5 * DAY));
    assert!(p.is_voting_ended(1_001 + 5 * DAY));
    assert!(p.is_execution_window_open(1_000 + 12 * DAY));
    assert!(!p.is_execution_window_open(1_001 + 12 * DAY));
}

#[test]
fn reputation_multipliers() {
    assert_eq!(CastVote::get_voter_reputation_weight(0), 100);
    assert_eq!(CastVote::get_voter_reputation_weight(100), 100);
    assert_eq!(CastVote::get_voter_reputation_weight(101), 125);
    assert_eq!(CastVote::get_voter_reputation_weight(500), 125);
    assert_eq!(CastVote::get_voter_reputation_weight(501), 150);
    assert_eq!(CastVote::get_voter_reputation_weight(1000), 150);
    assert_eq!(CastVote::get_voter_reputation_weight(1001), 200);
}

#[test]
fn cast_vote_weights_by_reputation() {
    let mut v = voter_ctx(1_000_000);
    let (vote, ev) = v.cast_vote(0, VoteChoice::Yes, 9, 2_000, 600).unwrap();
    assert_eq!(vote.agro_amount, 1_000_000);
    assert_eq!(vote.reputation_weight, 150);
    // Gold: 1.5x the balance.
    assert_eq!(vote.voting_power, 1_500_000);
    assert_eq!(vote.bump, 9);
    assert_eq!(vote.cast_at, 2_000);
    assert_eq!(ev.voting_power, 1_500_000);
    assert_eq!(v.proposal.yes_votes, 1_500_000);
    assert_eq!(v.proposal.no_votes, 0);
    assert_eq!(v.proposal.total_votes, 1);
    assert_eq!(v.proposal.total_voting_power, 1_500_000);
}

#[test]
fn voting_power_by_tier() {
    let power = |reputation: u64| {
        let mut v = voter_ctx(1_001);
        v.cast_vote(0, VoteChoice::Yes, 1, 2_000, reputation).unwrap().0.voting_power
    };
    assert_eq!(power(100), 1_001);
    assert_eq!(power(101), 1_251);
    assert_eq!(power(500), 1_251);
    assert_eq!(power(1_000), 1_501);
    assert_eq!(power(1_001), 2_002);
}

#[test]
fn cast_vote_counts_no_and_abstain() {
    let mut v = voter_ctx(10_000);
    v.cast_vote(0, VoteChoice::No, 1, 2_000, 0).unwrap();
    assert_eq!(v.proposal.no_votes, 10_000);
    v.cast_vote(0, VoteChoice::Abstain, 1, 2_000, 2_000).unwrap();
    assert_eq!(v.proposal.no_votes, 10_000);
    assert_eq!(v.proposal.yes_votes, 0);
    assert_eq!(v.proposal.total_votes, 2);
    assert_eq!(v.proposal.total_voting_power, 10_000 + 20_000);
    assert!(v.proposal.yes_votes + v.proposal.no_votes <= v.proposal.total_voting_power);
}

#[test]
fn cast_vote_refusals() {
    let mut v = voter_ctx(999);
    assert_eq!(v.cast_vote(0, VoteChoice::Yes, 1, 2_000, 0).err(), Some(GovernanceError::InsufficientAgroToVote));
    let mut early = voter_ctx(5_000);
    assert_eq!(early.cast_vote(0, VoteChoice::Yes, 1, 999, 0).err(), Some(GovernanceError::VotingPeriodEnded));
    let mut late = voter_ctx(5_000);
    assert_eq!(late.cast_vote(0, VoteChoice::Yes, 1, 1_001 + 5 * DAY, 0).err(), Some(GovernanceError::VotingPeriodEnded));
    let mut wrong_mint = voter_ctx(5_000);
    wrong_mint.voter_agro_account_data = token_account(key(12), 5_000);
    assert_eq!(wrong_mint.cast_vote(0, VoteChoice::Yes, 1, 2_000, 0).err(), Some(GovernanceError::InvalidTokenAccount));
    let mut wrong_owner = voter_ctx(5_000);
    wrong_owner.voter_agro_account_owner = key(13);
    assert_eq!(wrong_owner.cast_vote(0, VoteChoice::Yes, 1, 2_000, 0).err(), Some(GovernanceError::InvalidTokenAccount));
    let mut short = voter_ctx(5_000);
    short.voter_agro_account_data.truncate(164);
    assert_eq!(short.cast_vote(0, VoteChoice::Yes, 1, 2_000, 0).err(), Some(GovernanceError::InvalidTokenAccount));
    let mut closed = voter_ctx(5_000);
    closed.proposal.status = ProposalStatus::Approved;
    assert_eq!(closed.cast_vote(0, VoteChoice::Yes, 1, 2_000, 0).err(), Some(GovernanceError::ProposalNotFound));
    let mut paused = voter_ctx(5_000);
    paused.governance_config.emergency_pause = true;
    assert_eq!(paused.cast_vote(0, VoteChoice::Yes, 1, 2_000, 0).err(), Some(GovernanceError::GovernancePaused));
    let mut overflow = voter_ctx(5_000);
    overflow.proposal.yes_votes = u64::MAX - 10;
    assert_eq!(overflow.cast_vote(0, VoteChoice::Yes, 1, 2_000, 0).err(), Some(GovernanceError::ArithmeticOverflow));
    assert_eq!(overflow.proposal.total_votes, 0);
}

#[test]
fn voter_balance_read_from_token_account() {
    let v = voter_ctx(123_456);
    assert_eq!(v.get_voter_agro_balance(), Ok(123_456));
}

fn tally(yes: u64, no: u64, total: u64) -> TallyVotes {
    let mut p = proposal(ProposalType::Treasury, None);
    p.yes_votes = yes;
    p.no_votes = no;
    p.total_voting_power = total;
    TallyVotes { governance_config: config(), proposal: p }
}

#[test]
fn tally_approves_and_rejects() {
    let after = 1_001 + 5 * DAY;
    let mut t = tally(600, 400, 1000);
    let ev = t.tally_votes(0, after).unwrap();
    assert_eq!(t.proposal.status, ProposalStatus::Approved);
    assert!(ev.quorum_reached && ev.approval_reached);
    let mut r = tally(499, 501, 1000);
    let ev = r.tally_votes(0, after).unwrap();
    assert_eq!(r.proposal.status, ProposalStatus::Rejected);
    assert!(!ev.approval_reached);
    let mut edge = tally(500, 500, 1000);
    edge.tally_votes(0, after).unwrap();
    assert_eq!(edge.proposal.status, ProposalStatus::Approved);
}

#[test]
fn tally_refusals() {
    let after = 1_001 + 5 * DAY;
    // A quorum share above 100% cannot be met by the total voting power.
    let mut q = tally(600, 400, 1000);
    q.governance_config.quorum_threshold_bps = 20_000;
    assert_eq!(q.tally_votes(0, after).err(), Some(GovernanceError::InsufficientQuorum));
    assert_eq!(q.proposal.status, ProposalStatus::Active);
    let mut early = tally(600, 400, 1000);
    assert_eq!(early.tally_votes(0, 1_000 + 5 * DAY).err(), Some(GovernanceError::VotingPeriodActive));
    let mut done = tally(600, 400, 1000);
    done.tally_votes(0, after).unwrap();
    assert_eq!(done.tally_votes(0, after).err(), Some(GovernanceError::ProposalNotFound));
}

#[test]
fn abstentions_count_towards_quorum() {
    let after = 1_001 + 5 * DAY;
    // Every vote abstained: quorum (50% of 1000) is met by participation.
    let mut all_abstain = tally(0, 0, 1000);
    assert!(all_abstain.tally_votes(0, after).unwrap().quorum_reached);
    assert_eq!(all_abstain.proposal.status, ProposalStatus::Approved);
    // Few yes and no votes, many abstentions: decided on yes against yes + no.
    let mut mostly_abstain = tally(100, 300, 1000);
    mostly_abstain.tally_votes(0, after).unwrap();
    assert_eq!(mostly_abstain.proposal.status, ProposalStatus::Rejected);
}

#[test]
fn unopposed_proposal_with_quorum_is_approved() {
    let mut t = tally(700, 0, 1000);
    t.governance_config.approval_threshold_bps = 10_000;
    t.tally_votes(0, 1_001 + 5 * DAY).unwrap();
    assert_eq!(t.proposal.status, ProposalStatus::Approved);
}

fn approved(t: ProposalType, data: Option<Vec<u8>>) -> ExecuteProposal {
    let mut p = proposal(t, data);
    p.status = ProposalStatus::Approved;
    ExecuteProposal { governance_config: config(), proposal: p, authority: key(20) }
}

fn treasury_data(id: u64, amount: u64) -> Vec<u8> {
    let mut d = vec![109, 142, 133, 205, 240, 28, 197, 245];
    d.extend_from_slice(&id.to_le_bytes());
    d.extend_from_slice(&amount.to_le_bytes());
    d
}

#[test]
fn execute_treasury_proposal_funds() {
    let mut e = approved(ProposalType::Treasury, Some(treasury_data(7, 5_000)));
    let (action, ev) = e.execute_proposal(0, 2_000).unwrap();
    assert_eq!(action, ExecutionAction::FundTreasuryProposal { proposal_id: 7, amount: 5_000 });
    assert_eq!(e.proposal.status, ProposalStatus::Executed);
    assert_eq!(e.proposal.executed_at, Some(2_000));
    assert_eq!(ev.executed_by, key(20));
    assert_eq!(e.execute_proposal(0, 2_001).err(), Some(GovernanceError::ProposalNotApproved));
}

#[test]
fn execute_actions_by_type() {
    let mut short = approved(ProposalType::Treasury, Some(vec![0; 12]));
    assert_eq!(short.execute_proposal(0, 2_000).unwrap().0, ExecutionAction::FundTreasuryProposal { proposal_id: 0, amount: 1000 });
    let mut bad = approved(ProposalType::Treasury, Some(vec![0; 7]));
    assert_eq!(bad.execute_proposal(0, 2_000).err(), Some(GovernanceError::InvalidInstruction));
    assert_eq!(bad.proposal.status, ProposalStatus::Approved);
    let mut param = approved(ProposalType::ParameterChange, Some(vec![1, 0]));
    assert_eq!(param.execute_proposal(0, 2_000).unwrap().0, ExecutionAction::PauseTreasury);
    let mut param_bad = approved(ProposalType::ParameterChange, Some(vec![2]));
    assert_eq!(param_bad.execute_proposal(0, 2_000).err(), Some(GovernanceError::InvalidInstruction));
    let mut emergency = approved(ProposalType::Emergency, Some(vec![1]));
    assert_eq!(emergency.execute_proposal(0, 2_000).unwrap().0, ExecutionAction::PauseTreasury);
    let mut emergency_empty = approved(ProposalType::Emergency, Some(vec![]));
    assert_eq!(emergency_empty.execute_proposal(0, 2_000).err(), Some(GovernanceError::InvalidInstruction));
    let mut research = approved(ProposalType::Research, Some(vec![9, 9]));
    assert_eq!(research.execute_proposal(0, 2_000).unwrap().0, ExecutionAction::NoCall);
    let mut none = approved(ProposalType::Treasury, None);
    assert_eq!(none.execute_proposal(0, 2_000).unwrap().0, ExecutionAction::NoCall);
}

#[test]
fn execute_refusals() {
    let mut late = approved(ProposalType::Research, None);
    assert_eq!(late.execute_proposal(0, 1_001 + 12 * DAY).err(), Some(GovernanceError::ExecutionWindowExpired));
    let mut again = approved(ProposalType::Research, None);
    again.proposal.executed_at = Some(5);
    assert_eq!(again.execute_proposal(0, 2_000).err(), Some(GovernanceError::ProposalAlreadyExecuted));
    let mut active = approved(ProposalType::Research, None);
    active.proposal.status = ProposalStatus::Active;
    assert_eq!(active.execute_proposal(0, 2_000).err(), Some(GovernanceError::ProposalNotApproved));
}

#[test]
fn update_governance_config_sets_given_fields() {
    let mut u = UpdateGovernanceConfig { governance_config: config(), governance_config_address: key(50), authority: key(11) };
    let ev = u
        .update_governance_config(Some(4000), None, None, Some(9), None, None, Some(key(12)), Some(true), 777)
        .unwrap();
    assert_eq!(u.governance_config.quorum_threshold_bps, 4000);
    assert_eq!(u.governance_config.approval_threshold_bps, 5000);
    assert_eq!(u.governance_config.min_agro_to_propose, 9);
    assert_eq!(u.governance_config.governance_authority, key(12));
    assert!(u.governance_config.emergency_pause);
    assert_eq!(u.governance_config.updated_at, 777);
    assert_eq!(ev.governance_config, key(50));
    assert_eq!(ev.updated_by, key(11));
}

#[test]
fn update_governance_config_refusals() {
    let mut u = UpdateGovernanceConfig { governance_config: config(), governance_config_address: key(50), authority: key(11) };
    assert_eq!(
        u.update_governance_config(Some(4000), Some(10_001), None, None, None, None, None, None, 1).err(),
        Some(GovernanceError::InvalidThreshold)
    );
    assert_eq!(u.governance_config, config());
    let mut stranger = UpdateGovernanceConfig { governance_config: config(), governance_config_address: key(50), authority: key(99) };
    assert_eq!(
        stranger.update_governance_config(None, None, None, None, None, None, None, None, 1).err(),
        Some(GovernanceError::Unauthorized)
    );
}

fn reputation_record(score: i64) -> Vec<u8> {
    let mut d = vec![0u8; 60];
    d[41..49].copy_from_slice(&score.to_le_bytes());
    d
}

#[test]
fn reputation_read_from_record() {
    assert_eq!(GovernanceCpi::get_user_reputation(&reputation_record(640)), Some(640));
    assert_eq!(GovernanceCpi::get_user_reputation(&reputation_record(-3)), Some(0));
    assert_eq!(GovernanceCpi::get_user_reputation(&[0u8; 48]), None);
    assert_eq!(GovernanceCpi::get_user_reputation(&[]), None);
    assert_eq!(GovernanceCpi::get_user_reputation_after_cpi(true, &reputation_record(77)), 77);
    assert_eq!(GovernanceCpi::get_user_reputation_after_cpi(true, &[1, 2, 3]), 50);
    assert_eq!(GovernanceCpi::get_user_reputation_after_cpi(false, &reputation_record(12)), 12);
    assert_eq!(GovernanceCpi::get_reputation_fallback(&[]), 50);
    assert_eq!(GovernanceCpi::get_reputation_fallback(&[0u8; 10]), 50);
}

#[test]
fn system_parameter_updates() {
    assert_eq!(GovernanceCpi::update_system_parameters(&[1]), Ok(SystemParameterAction::PauseTreasury));
    assert_eq!(GovernanceCpi::update_system_parameters(&[1, 0, 5]), Ok(SystemParameterAction::PauseTreasury));
    assert_eq!(GovernanceCpi::update_system_parameters(&[]), Err(GovernanceError::InvalidInstruction));
    assert_eq!(GovernanceCpi::update_system_parameters(&[2]), Err(GovernanceError::InvalidInstruction));
}

#[test]
fn governance_seeds() {
    assert_eq!(ProgramSeeds::governance(), b"governance".to_vec());
    assert_eq!(ProgramSeeds::proposal(5), vec![b"proposal".to_vec(), 5u64.to_le_bytes().to_vec()]);
    assert_ne!(ProgramSeeds::proposal(5), ProgramSeeds::proposal(6));
    assert_eq!(
        ProgramSeeds::vote(5, &key(8)),
        vec![b"vote".to_vec(), 5u64.to_le_bytes().to_vec(), vec![8u8; 32]]
    );
}

#[test]
fn instruction_parsing() {
    assert_eq!(
        InstructionParser::parse_treasury_instruction(&treasury_data(3, 44)),
        Ok(TreasuryInstruction::FundProposal { proposal_id: 3, amount: 44 })
    );
    let mut id_only = vec![0u8; 8];
    id_only.extend_from_slice(&9u64.to_le_bytes());
    assert_eq!(
        InstructionParser::parse_treasury_instruction(&id_only),
        Ok(TreasuryInstruction::FundProposal { proposal_id: 9, amount: 1000 })
    );
    assert_eq!(
        InstructionParser::parse_treasury_instruction(&[0u8; 8]),
        Ok(TreasuryInstruction::FundProposal { proposal_id: 0, amount: 1000 })
    );
    assert_eq!(InstructionParser::parse_treasury_instruction(&[0u8; 7]), Err(GovernanceError::InvalidInstruction));
    assert_eq!(
        InstructionParser::parse_parameter_instruction(&[1]),
        Ok(ParameterInstruction::EmergencyAction { pause_system: true })
    );
    assert_eq!(
        InstructionParser::parse_parameter_instruction(&[1, 0]),
        Ok(ParameterInstruction::EmergencyAction { pause_system: false })
    );
    assert_eq!(
        InstructionParser::parse_parameter_instruction(&[1, 3]),
        Ok(ParameterInstruction::EmergencyAction { pause_system: true })
    );
    assert_eq!(InstructionParser::parse_parameter_instruction(&[]), Err(GovernanceError::InvalidInstruction));
    assert_eq!(InstructionParser::parse_parameter_instruction(&[0]), Err(GovernanceError::InvalidInstruction));
}

#[test]
fn huge_balances_are_refused_before_power_is_computed() {
    // The voting period is over: refused whatever the balance.
    let mut late = voter_ctx(u64::MAX);
    assert_eq!(late.cast_vote(0, VoteChoice::Yes, 1, 1_001 + 5 * DAY, 5_000).err(), Some(GovernanceError::VotingPeriodEnded));
    // Below the minimum: refused whatever the balance.
    let mut short = voter_ctx(u64::MAX - 1);
    short.governance_config.min_agro_to_vote = u64::MAX;
    assert_eq!(short.cast_vote(0, VoteChoice::Yes, 1, 2_000, 5_000).err(), Some(GovernanceError::InsufficientAgroToVote));
    assert_eq!(short.proposal.total_votes, 0);
}
