use agro_dao::pubkey::Pubkey;
use agro_dao::treasury::{
    validate_proposal_for_funding_cpi, AddSupportedToken, DepositStakeTokens, DistributeProposalFunds, EmergencyPause,
    EmergencyUnpause, FundProposal, InitializeTreasury, MilestoneDistribution, MilestoneInfo, ProposalFunding,
    ProposalFundingStatus, ResearchProposalInfo, ResearcherProfileInfo, StakeAccount, TokenVault, TreasuryConfig,
    TreasuryError,
};

fn key(n: u8) -> Pubkey {
    Pubkey::new_from_array([n; 32])
}

fn zero() -> Pubkey {
    Pubkey::default_key()
}

fn config(fee_bps: u16) -> TreasuryConfig {
    let init = InitializeTreasury { treasury_config_address: key(20), agro_mint: key(21) };
    let (mut c, _) = init.initialize_treasury(key(1), fee_bps, 2000, 5, 10).unwrap();
    c.supported_tokens.push(key(30));
    c
}

fn vault() -> TokenVault {
    TokenVault {
        bump: 1,
        token_mint: key(30),
        vault_authority: key(31),
        total_deposits: 0,
        available_balance: 0,
        allocated_to_proposals: 0,
        reserved_amount: 0,
        yield_positions: 0,
        created_at: 0,
    }
}

fn empty_stake() -> StakeAccount {
    StakeAccount { bump: 0, owner: zero(), total_agro_minted: 0, deposits: vec![], last_activity: 0, created_at: 0 }
}

fn profile(verified: bool) -> ResearcherProfileInfo {
    ResearcherProfileInfo { address: key(40), researcher: key(2), is_verified: verified }
}

fn depositor(fee_bps: u16) -> DepositStakeTokens {
    DepositStakeTokens {
        treasury_config: config(fee_bps),
        token_vault: vault(),
        stake_account: empty_stake(),
        researcher_profile: profile(true),
        depositor: key(2),
        depositor_token_mint: key(30),
    }
}

fn empty_funding() -> ProposalFunding {
    ProposalFunding {
        bump: 0,
        proposal_id: String::new(),
        research_program_id: zero(),
        proposal_pda: zero(),
        total_committed: 0,
        total_distributed: 0,
        funding_sources: vec![],
        status: ProposalFundingStatus::Active,
        milestone_distributions: vec![],
        created_at: 0,
        last_updated: 0,
    }
}

fn research_proposal() -> ResearchProposalInfo {
    ResearchProposalInfo {
        address: key(50),
        researcher: key(2),
        is_approved: true,
        milestones: vec![
            MilestoneInfo { is_completed_or_verified: true, funding_percentage: 50 },
            MilestoneInfo { is_completed_or_verified: true, funding_percentage: 50 },
            MilestoneInfo { is_completed_or_verified: false, funding_percentage: 0 },
        ],
    }
}

fn funder(balance: u64) -> FundProposal {
    FundProposal {
        treasury_config: config(100),
        proposal_funding: empty_funding(),
        research_proposal: research_proposal(),
        stakeholder_profile: profile(true),
        stake_account: StakeAccount {
            bump: 0,
            owner: key(2),
            total_agro_minted: 0,
            deposits: vec![],
            last_activity: 0,
            created_at: 0,
        },
        stakeholder: key(2),
        stakeholder_agro_balance: balance,
        agro_mint: key(21),
        research_dao_program: key(60),
    }
}

fn approved_funding(committed: u64) -> ProposalFunding {
    ProposalFunding {
        bump: 0,
        proposal_id: "P-1".to_string(),
        research_program_id: key(60),
        proposal_pda: key(50),
        total_committed: committed,
        total_distributed: 0,
        funding_sources: vec![],
        status: ProposalFundingStatus::Approved,
        milestone_distributions: vec![],
        created_at: 0,
        last_updated: 0,
    }
}

fn distributor(committed: u64, vault_balance: u64) -> DistributeProposalFunds {
    let mut v = vault();
    v.available_balance = vault_balance;
    DistributeProposalFunds {
        treasury_config: config(100),
        authority: key(1),
        proposal_funding: approved_funding(committed),
        research_proposal: research_proposal(),
        researcher_profile: profile(true),
        recipient: key(2),
        token_vault: v,
        distribution_token_mint: key(30),
    }
}

#[test]
fn initialization_checks_fee_and_reserve_ratio() {
    let init = InitializeTreasury { treasury_config_address: key(20), agro_mint: key(21) };
    assert_eq!(init.initialize_treasury(key(1), 1001, 2000, 0, 0).unwrap_err(), TreasuryError::InvalidFeeRate);
    assert_eq!(init.initialize_treasury(key(1), 1000, 999, 0, 0).unwrap_err(), TreasuryError::InvalidReserveRatio);
    assert_eq!(init.initialize_treasury(key(1), 1000, 5001, 0, 0).unwrap_err(), TreasuryError::InvalidReserveRatio);
    let (c, ev) = init.initialize_treasury(key(1), 1000, 5000, 4, 33).unwrap();
    assert_eq!(c.authority, key(1));
    assert_eq!(c.agro_mint, key(21));
    assert_eq!(c.fee_rate_bps, 1000);
    assert_eq!(c.min_reserve_ratio_bps, 5000);
    assert!(!c.emergency_pause);
    assert!(c.supported_tokens.is_empty());
    assert_eq!(c.created_at, 33);
    assert_eq!(ev.treasury_config, key(20));
    assert_eq!(ev.timestamp, 33);
}

#[test]
fn supported_tokens_are_added_once_up_to_ten() {
    let init = InitializeTreasury { treasury_config_address: key(20), agro_mint: key(21) };
    let (c, _) = init.initialize_treasury(key(1), 100, 1000, 0, 0).unwrap();
    let mut ctx = AddSupportedToken {
        treasury_config: c,
        authority: key(1),
        token_vault_address: key(70),
        fee_vault_address: key(71),
        vault_token_account_address: key(72),
    };
    let (v, ev) = ctx.add_supported_token(key(100), 3, 44).unwrap();
    assert_eq!(v.token_mint, key(100));
    assert_eq!(v.vault_authority, key(70));
    assert_eq!(v.total_deposits, 0);
    assert_eq!(v.created_at, 44);
    assert_eq!(ev.fee_vault, key(71));
    assert_eq!(ev.vault_token_account, key(72));
    assert_eq!(ctx.add_supported_token(key(100), 3, 45).unwrap_err(), TreasuryError::UnsupportedToken);
    for n in 101..110u8 {
        ctx.add_supported_token(key(n), 3, 46).unwrap();
    }
    assert_eq!(ctx.treasury_config.supported_tokens.len(), 10);
    assert_eq!(ctx.add_supported_token(key(200), 3, 47).unwrap_err(), TreasuryError::MaxSupportedTokensReached);
    assert_eq!(ctx.treasury_config.supported_tokens.len(), 10);
}

#[test]
fn supported_token_needs_authority_and_no_pause() {
    let mut stranger = AddSupportedToken {
        treasury_config: config(100),
        authority: key(9),
        token_vault_address: key(70),
        fee_vault_address: key(71),
        vault_token_account_address: key(72),
    };
    assert_eq!(stranger.add_supported_token(key(100), 0, 0).unwrap_err(), TreasuryError::Unauthorized);
    let mut paused_config = config(100);
    paused_config.emergency_pause = true;
    let mut paused = AddSupportedToken {
        treasury_config: paused_config,
        authority: key(1),
        token_vault_address: key(70),
        fee_vault_address: key(71),
        vault_token_account_address: key(72),
    };
    assert_eq!(paused.add_supported_token(key(100), 0, 0).unwrap_err(), TreasuryError::TreasuryPaused);
}

#[test]
fn pause_then_unpause_after_an_hour() {
    let mut p = EmergencyPause { treasury_config: config(100), authority: key(1) };
    let ev = p.emergency_pause(1_000).unwrap();
    assert_eq!(ev.timestamp, 1_000);
    assert!(p.treasury_config.emergency_pause);
    assert_eq!(p.treasury_config.emergency_pause_timestamp, 1_000);
    assert_eq!(p.emergency_pause(1_001).unwrap_err(), TreasuryError::TreasuryPaused);

    let mut u = EmergencyUnpause { treasury_config: p.treasury_config.clone(), authority: key(1) };
    assert_eq!(u.emergency_unpause(4_599).unwrap_err(), TreasuryError::InvalidAmount);
    assert!(u.treasury_config.emergency_pause);
    let ev = u.emergency_unpause(4_600).unwrap();
    assert_eq!(ev.pause_duration, 3_600);
    assert!(!u.treasury_config.emergency_pause);
    assert_eq!(u.treasury_config.emergency_pause_timestamp, 0);
    assert_eq!(u.treasury_config, config(100));
    assert_eq!(u.emergency_unpause(9_000).unwrap_err(), TreasuryError::TreasuryPaused);
}

#[test]
fn pause_needs_authority() {
    let mut p = EmergencyPause { treasury_config: config(100), authority: key(9) };
    assert_eq!(p.emergency_pause(1).unwrap_err(), TreasuryError::Unauthorized);
    let mut paused = config(100);
    paused.emergency_pause = true;
    let mut u = EmergencyUnpause { treasury_config: paused, authority: key(9) };
    assert_eq!(u.emergency_unpause(1).unwrap_err(), TreasuryError::Unauthorized);
}

#[test]
fn funding_validation_requires_research_program_ownership() {
    assert_eq!(validate_proposal_for_funding_cpi(key(60), key(60), key(60), 1, 5), Ok(()));
    assert_eq!(validate_proposal_for_funding_cpi(key(60), key(61), key(60), 1, 5), Err(TreasuryError::Unauthorized));
    assert_eq!(validate_proposal_for_funding_cpi(key(60), key(60), key(61), 1, 5), Err(TreasuryError::Unauthorized));
}

#[test]
fn deposit_takes_fee_and_mints_the_rest() {
    let mut ctx = depositor(250);
    let (transfers, ev) = ctx.deposit_stake_tokens(10_000, 8, 500).unwrap();
    assert_eq!(transfers.deposit_amount, 10_000);
    assert_eq!(transfers.fee_amount, 250);
    assert_eq!(transfers.agro_to_mint, 9_750);
    assert_eq!(ev.net_amount, 9_750);
    assert_eq!(ev.agro_minted, 9_750);
    assert_eq!(ev.researcher_profile, key(40));
    assert_eq!(ctx.token_vault.total_deposits, 10_000);
    assert_eq!(ctx.token_vault.available_balance, 9_750);
    assert_eq!(ctx.stake_account.owner, key(2));
    assert_eq!(ctx.stake_account.bump, 8);
    assert_eq!(ctx.stake_account.total_agro_minted, 9_750);
    assert_eq!(ctx.stake_account.created_at, 500);
    assert_eq!(ctx.stake_account.deposits.len(), 1);
    assert_eq!(ctx.stake_account.deposits[0].amount, 10_000);

    // A second deposit of the same token accumulates.
    let (transfers, _) = ctx.deposit_stake_tokens(99, 8, 600).unwrap();
    assert_eq!(transfers.fee_amount, 2);
    assert_eq!(transfers.agro_to_mint, 97);
    assert_eq!(ctx.stake_account.deposits.len(), 1);
    assert_eq!(ctx.stake_account.deposits[0].amount, 10_099);
    assert_eq!(ctx.stake_account.deposits[0].agro_minted, 9_847);
    assert_eq!(ctx.stake_account.deposits[0].timestamp, 600);
    assert_eq!(ctx.stake_account.total_agro_minted, 9_847);
    assert_eq!(ctx.stake_account.created_at, 500);
    assert_eq!(ctx.token_vault.total_deposits, 10_099);
}

#[test]
fn deposit_of_another_token_is_recorded_apart() {
    let mut ctx = depositor(0);
    ctx.deposit_stake_tokens(5, 1, 1).unwrap();
    ctx.treasury_config.supported_tokens.push(key(31));
    ctx.depositor_token_mint = key(31);
    let (t, _) = ctx.deposit_stake_tokens(7, 1, 2).unwrap();
    assert_eq!(t.fee_amount, 0);
    assert_eq!(t.agro_to_mint, 7);
    assert_eq!(ctx.stake_account.deposits.len(), 2);
    assert_eq!(ctx.stake_account.deposits[1].token_mint, key(31));
    assert_eq!(ctx.stake_account.total_agro_minted, 12);
}

#[test]
fn deposit_errors() {
    let mut paused = depositor(100);
    paused.treasury_config.emergency_pause = true;
    assert_eq!(paused.deposit_stake_tokens(10, 0, 0).unwrap_err(), TreasuryError::TreasuryPaused);
    let mut unverified = depositor(100);
    unverified.researcher_profile = profile(false);
    assert_eq!(unverified.deposit_stake_tokens(10, 0, 0).unwrap_err(), TreasuryError::ResearcherNotVerified);
    let mut ctx = depositor(100);
    assert_eq!(ctx.deposit_stake_tokens(0, 0, 0).unwrap_err(), TreasuryError::InvalidAmount);
    ctx.depositor_token_mint = key(99);
    assert_eq!(ctx.deposit_stake_tokens(10, 0, 0).unwrap_err(), TreasuryError::UnsupportedToken);
    let mut huge = depositor(100);
    assert_eq!(huge.deposit_stake_tokens(u64::MAX, 0, 0).unwrap_err(), TreasuryError::ArithmeticOverflow);
    assert_eq!(huge.stake_account, empty_stake());
    let mut full_vault = depositor(0);
    full_vault.token_vault.total_deposits = u64::MAX;
    assert_eq!(full_vault.deposit_stake_tokens(1, 0, 0).unwrap_err(), TreasuryError::ArithmeticOverflow);
    assert_eq!(full_vault.token_vault.total_deposits, u64::MAX);
}

#[test]
fn first_funding_creates_the_record() {
    let mut ctx = funder(1_000);
    let (burn, ev) = ctx.fund_proposal("P-1".to_string(), 400, 6, 70).unwrap();
    assert_eq!(burn, 400);
    assert_eq!(ev.total_committed, 400);
    assert_eq!(ev.research_proposal, key(50));
    let pf = &ctx.proposal_funding;
    assert_eq!(pf.proposal_id, "P-1");
    assert_eq!(pf.bump, 6);
    assert_eq!(pf.research_program_id, key(60));
    assert_eq!(pf.proposal_pda, key(50));
    assert_eq!(pf.total_committed, 400);
    assert_eq!(pf.status, ProposalFundingStatus::Active);
    assert_eq!(pf.funding_sources.len(), 1);
    assert_eq!(pf.funding_sources[0].agro_burned, 400);
    assert_eq!(pf.funding_sources[0].token_mint, key(21));

    let (_, ev) = ctx.fund_proposal("P-1".to_string(), 100, 6, 71).unwrap();
    assert_eq!(ev.total_committed, 500);
    assert_eq!(ctx.proposal_funding.funding_sources.len(), 2);
    assert_eq!(ctx.proposal_funding.last_updated, 71);
    assert_eq!(ctx.proposal_funding.created_at, 70);

    assert_eq!(ctx.fund_proposal("P-2".to_string(), 100, 6, 72).unwrap_err(), TreasuryError::ProposalNotFound);
    ctx.proposal_funding.status = ProposalFundingStatus::Approved;
    assert_eq!(ctx.fund_proposal("P-1".to_string(), 100, 6, 72).unwrap_err(), TreasuryError::ProposalAlreadyFunded);
}

#[test]
fn funding_sources_are_capped_at_twenty() {
    let mut ctx = funder(1_000);
    for t in 0..20i64 {
        ctx.fund_proposal("P-1".to_string(), 1, 0, t).unwrap();
    }
    assert_eq!(ctx.fund_proposal("P-1".to_string(), 1, 0, 21).unwrap_err(), TreasuryError::MaxFundingSourcesReached);
    assert_eq!(ctx.proposal_funding.total_committed, 20);
}

#[test]
fn funding_prechecks() {
    let mut paused = funder(10);
    paused.treasury_config.emergency_pause = true;
    assert_eq!(paused.fund_proposal("P".to_string(), 1, 0, 0).unwrap_err(), TreasuryError::TreasuryPaused);
    let mut unapproved = funder(10);
    unapproved.research_proposal.is_approved = false;
    assert_eq!(unapproved.fund_proposal("P".to_string(), 1, 0, 0).unwrap_err(), TreasuryError::ProposalNotApproved);
    let mut unverified = funder(10);
    unverified.stakeholder_profile = profile(false);
    assert_eq!(unverified.fund_proposal("P".to_string(), 1, 0, 0).unwrap_err(), TreasuryError::ResearcherNotVerified);
    let mut other = funder(10);
    other.stake_account.owner = key(3);
    assert_eq!(other.fund_proposal("P".to_string(), 1, 0, 0).unwrap_err(), TreasuryError::Unauthorized);
    let mut ctx = funder(10);
    assert_eq!(ctx.fund_proposal("P".to_string(), 0, 0, 0).unwrap_err(), TreasuryError::InvalidAmount);
    assert_eq!(ctx.fund_proposal("p".repeat(51), 1, 0, 0).unwrap_err(), TreasuryError::ProposalIdTooLong);
    assert_eq!(ctx.fund_proposal("P".to_string(), 11, 0, 0).unwrap_err(), TreasuryError::InsufficientBalance);
    assert_eq!(ctx.proposal_funding, empty_funding());
}

#[test]
fn distribution_pays_a_milestone_share_within_tolerance() {
    let mut ctx = distributor(1_000, 2_000);
    // Half of 1000 is due, give or take 5% of that (25).
    assert_eq!(ctx.distribute_proposal_funds(0, 474, 10).unwrap_err(), TreasuryError::InvalidAmount);
    assert_eq!(ctx.distribute_proposal_funds(0, 526, 10).unwrap_err(), TreasuryError::InvalidAmount);
    let ev = ctx.distribute_proposal_funds(0, 475, 10).unwrap();
    assert_eq!(ev.amount, 475);
    assert_eq!(ev.total_distributed, 475);
    assert_eq!(ev.recipient, key(2));
    assert_eq!(ev.proposal_id, "P-1");
    assert_eq!(ctx.token_vault.available_balance, 1_525);
    assert_eq!(ctx.proposal_funding.total_distributed, 475);
    assert_eq!(ctx.proposal_funding.status, ProposalFundingStatus::Approved);
    assert_eq!(
        ctx.proposal_funding.milestone_distributions,
        vec![MilestoneDistribution {
            milestone_index: 0,
            amount_distributed: 475,
            token_mint: key(30),
            recipient: key(2),
            distributed_at: 10,
        }]
    );
    assert_eq!(ctx.distribute_proposal_funds(0, 500, 11).unwrap_err(), TreasuryError::MilestoneAlreadyDistributed);
    // 525 is due at most from the 525 remaining: everything is paid out.
    let ev = ctx.distribute_proposal_funds(1, 525, 12).unwrap();
    assert_eq!(ev.total_distributed, 1_000);
    assert_eq!(ctx.proposal_funding.status, ProposalFundingStatus::Distributed);
    assert_eq!(ctx.distribute_proposal_funds(1, 500, 13).unwrap_err(), TreasuryError::ProposalNotApproved);
}

#[test]
fn distribution_errors() {
    let mut ctx = distributor(1_000, 2_000);
    assert_eq!(ctx.distribute_proposal_funds(2, 500, 1).unwrap_err(), TreasuryError::InvalidMilestone);
    assert_eq!(ctx.distribute_proposal_funds(3, 500, 1).unwrap_err(), TreasuryError::InvalidMilestone);
    assert_eq!(ctx.distribute_proposal_funds(0, 0, 1).unwrap_err(), TreasuryError::InvalidAmount);
    assert_eq!(
        ctx.distribute_proposal_funds(0, 1_000_000_000_001, 1).unwrap_err(),
        TreasuryError::DistributionAmountTooLarge
    );
    assert_eq!(ctx.distribute_proposal_funds(0, 1_001, 1).unwrap_err(), TreasuryError::InsufficientBalance);

    let mut poor_vault = distributor(1_000, 100);
    assert_eq!(poor_vault.distribute_proposal_funds(0, 500, 1).unwrap_err(), TreasuryError::InsufficientBalance);

    let mut stranger = distributor(1_000, 2_000);
    stranger.authority = key(9);
    assert_eq!(stranger.distribute_proposal_funds(0, 500, 1).unwrap_err(), TreasuryError::Unauthorized);

    let mut wrong_recipient = distributor(1_000, 2_000);
    wrong_recipient.recipient = key(7);
    assert_eq!(wrong_recipient.distribute_proposal_funds(0, 500, 1).unwrap_err(), TreasuryError::Unauthorized);

    let mut wrong_proposal = distributor(1_000, 2_000);
    wrong_proposal.research_proposal.address = key(51);
    assert_eq!(wrong_proposal.distribute_proposal_funds(0, 500, 1).unwrap_err(), TreasuryError::ProposalNotFound);

    let mut unverified = distributor(1_000, 2_000);
    unverified.researcher_profile = profile(false);
    assert_eq!(unverified.distribute_proposal_funds(0, 500, 1).unwrap_err(), TreasuryError::ResearcherNotVerified);

    let mut active = distributor(1_000, 2_000);
    active.proposal_funding.status = ProposalFundingStatus::Active;
    assert_eq!(active.distribute_proposal_funds(0, 500, 1).unwrap_err(), TreasuryError::ProposalNotApproved);

    let mut paused = distributor(1_000, 2_000);
    paused.treasury_config.emergency_pause = true;
    assert_eq!(paused.distribute_proposal_funds(0, 500, 1).unwrap_err(), TreasuryError::TreasuryPaused);

    let mut overpaid = distributor(1_000, 2_000);
    overpaid.proposal_funding.total_distributed = 1_001;
    assert_eq!(overpaid.distribute_proposal_funds(0, 500, 1).unwrap_err(), TreasuryError::ArithmeticUnderflow);

    let mut overflowing = distributor(u64::MAX, u64::MAX);
    assert_eq!(overflowing.distribute_proposal_funds(0, 500, 1).unwrap_err(), TreasuryError::ArithmeticOverflow);
    assert_eq!(overflowing.token_vault.available_balance, u64::MAX);
}

#[test]
fn stake_account_records_at_most_five_tokens() {
    let mut ctx = depositor(0);
    for n in 31..36u8 {
        ctx.treasury_config.supported_tokens.push(key(n));
    }
    ctx.deposit_stake_tokens(10, 1, 1).unwrap();
    for n in 31..35u8 {
        ctx.depositor_token_mint = key(n);
        ctx.deposit_stake_tokens(10, 1, 2).unwrap();
    }
    assert_eq!(ctx.stake_account.deposits.len(), 5);
    let before = ctx.stake_account.clone();
    let vault_before = ctx.token_vault;
    ctx.depositor_token_mint = key(35);
    assert_eq!(ctx.deposit_stake_tokens(10, 1, 3).unwrap_err(), TreasuryError::AccountDidNotSerialize);
    assert_eq!(ctx.stake_account, before);
    assert_eq!(ctx.token_vault, vault_before);
    // A token already recorded can still be deposited.
    ctx.depositor_token_mint = key(30);
    ctx.deposit_stake_tokens(10, 1, 4).unwrap();
    assert_eq!(ctx.stake_account.deposits.len(), 5);
    assert_eq!(ctx.stake_account.deposits[0].amount, 20);
}

#[test]
fn funding_record_holds_at_most_ten_payouts() {
    let mut ctx = distributor(1_100, 10_000);
    ctx.research_proposal.milestones =
        (0..11).map(|_| MilestoneInfo { is_completed_or_verified: true, funding_percentage: 9 }).collect();
    for i in 0..10u8 {
        ctx.distribute_proposal_funds(i, 99, 20).unwrap();
    }
    assert_eq!(ctx.proposal_funding.total_distributed, 990);
    assert_eq!(ctx.proposal_funding.status, ProposalFundingStatus::Approved);
    assert_eq!(ctx.distribute_proposal_funds(10, 99, 21).unwrap_err(), TreasuryError::AccountDidNotSerialize);
    assert_eq!(ctx.proposal_funding.milestone_distributions.len(), 10);
    assert_eq!(ctx.token_vault.available_balance, 10_000 - 990);
}

#[test]
fn stake_total_is_the_sum_of_deposits() {
    let mut ctx = depositor(250);
    ctx.treasury_config.supported_tokens.push(key(31));
    ctx.deposit_stake_tokens(1_000, 1, 1).unwrap();
    ctx.depositor_token_mint = key(31);
    ctx.deposit_stake_tokens(400, 1, 2).unwrap();
    ctx.depositor_token_mint = key(30);
    ctx.deposit_stake_tokens(40, 1, 3).unwrap();
    let minted: u64 = ctx.stake_account.deposits.iter().map(|d| d.agro_minted).sum();
    assert_eq!(ctx.stake_account.total_agro_minted, minted);
    assert_eq!(minted, 975 + 390 + 39);
    let mints: Vec<Pubkey> = ctx.stake_account.deposits.iter().map(|d| d.token_mint).collect();
    assert_eq!(mints, vec![key(30), key(31)]);
}

#[test]
fn total_distributed_is_the_sum_of_payouts() {
    let mut ctx = distributor(1_000, 2_000);
    ctx.distribute_proposal_funds(0, 480, 1).unwrap();
    ctx.distribute_proposal_funds(1, 510, 2).unwrap();
    let paid: u64 = ctx.proposal_funding.milestone_distributions.iter().map(|d| d.amount_distributed).sum();
    assert_eq!(paid, 990);
    assert_eq!(ctx.proposal_funding.total_distributed, paid);
}
