//! Treasury program: supported token vaults, stake deposits that mint the
//! governance token, proposal funding by burning it, milestone payouts and
//! emergency pause.

use vstd::prelude::*;
use crate::encoding::utf8_len;
use crate::pubkey::Pubkey;

verus! {

pub const MAX_SUPPORTED_TOKENS: usize = 10;
pub const MAX_FUNDING_SOURCES: usize = 20;
pub const MAX_FEE_RATE_BPS: u16 = 1000;
pub const MIN_RESERVE_RATIO_BPS: u16 = 1000;
pub const MAX_RESERVE_RATIO_BPS: u16 = 5000;
pub const MAX_PROPOSAL_ID_LENGTH: usize = 50;
pub const MAX_DISTRIBUTION_AMOUNT: u64 = 1_000_000_000_000;
pub const EMERGENCY_PAUSE_DURATION: i64 = 7 * 24 * 60 * 60;
/// Shortest pause, in seconds, before the treasury can be unpaused.
pub const MIN_PAUSE_SECONDS: i64 = 3600;
/// Basis points in a whole.
pub const FEE_DENOMINATOR: u64 = 10_000;
/// Distinct tokens a stake account has room to record.
pub const MAX_STAKE_DEPOSITS: usize = 5;
/// Milestone payouts a funding record has room to record.
pub const MAX_MILESTONE_DISTRIBUTIONS: usize = 10;

/// Errors of the treasury program.
#[derive(Debug, Clone, Copy, PartialEq, Eq, Structural)]
pub enum TreasuryError {
    TreasuryPaused,
    Unauthorized,
    UnsupportedToken,
    InvalidFeeRate,
    InvalidReserveRatio,
    InsufficientBalance,
    InsufficientReserves,
    InvalidAmount,
    ProposalNotFound,
    ProposalAlreadyFunded,
    ProposalNotApproved,
    InvalidMilestone,
    MilestoneAlreadyDistributed,
    ResearcherNotVerified,
    ProposalIdTooLong,
    DistributionAmountTooLarge,
    MaxSupportedTokensReached,
    MaxFundingSourcesReached,
    ArithmeticOverflow,
    ArithmeticUnderflow,
    /// The account written back no longer fits the space it was created
    /// with (the framework's account serialization failure): a stake
    /// account with a sixth token, a funding record with an eleventh payout.
    AccountDidNotSerialize,
}

/// Treasury configuration.
#[derive(Debug, Clone, PartialEq, Eq)]
pub struct TreasuryConfig {
    pub bump: u8,
    pub authority: Pubkey,
    pub agro_mint: Pubkey,
    pub fee_rate_bps: u16,
    pub min_reserve_ratio_bps: u16,
    pub emergency_pause: bool,
    pub emergency_pause_timestamp: i64,
    pub supported_tokens: Vec<Pubkey>,
    pub total_agro_minted: u64,
    pub total_fees_collected: u64,
    pub created_at: i64,
}

/// Book-keeping of one supported token.
#[derive(Debug, Clone, Copy, PartialEq, Eq, Structural)]
pub struct TokenVault {
    pub bump: u8,
    pub token_mint: Pubkey,
    pub vault_authority: Pubkey,
    pub total_deposits: u64,
    pub available_balance: u64,
    pub allocated_to_proposals: u64,
    pub reserved_amount: u64,
    pub yield_positions: u64,
    pub created_at: i64,
}

/// One token's deposits by a staker.
#[derive(Debug, Clone, Copy, PartialEq, Eq, Structural)]
pub struct TokenDeposit {
    pub token_mint: Pubkey,
    pub amount: u64,
    pub agro_minted: u64,
    pub timestamp: i64,
}

/// A staker's deposits.
#[derive(Debug, Clone, PartialEq, Eq)]
pub struct StakeAccount {
    pub bump: u8,
    pub owner: Pubkey,
    pub total_agro_minted: u64,
    pub deposits: Vec<TokenDeposit>,
    pub last_activity: i64,
    pub created_at: i64,
}

/// One contribution to a proposal's funding.
#[derive(Debug, Clone, Copy, PartialEq, Eq, Structural)]
pub struct FundingSource {
    pub stakeholder: Pubkey,
    pub token_mint: Pubkey,
    pub amount: u64,
    pub agro_burned: u64,
    pub timestamp: i64,
}

/// One milestone payout.
#[derive(Debug, Clone, Copy, PartialEq, Eq, Structural)]
pub struct MilestoneDistribution {
    pub milestone_index: u8,
    pub amount_distributed: u64,
    pub token_mint: Pubkey,
    pub recipient: Pubkey,
    pub distributed_at: i64,
}

/// Where a proposal's funding is in its life.
#[derive(Debug, Clone, Copy, PartialEq, Eq, Structural)]
pub enum ProposalFundingStatus {
    Active,
    Approved,
    Distributed,
    Cancelled,
}

/// Funding committed to a research proposal and its payouts.
#[derive(Debug, Clone, PartialEq, Eq)]
pub struct ProposalFunding {
    pub bump: u8,
    pub proposal_id: String,
    pub research_program_id: Pubkey,
    pub proposal_pda: Pubkey,
    pub total_committed: u64,
    pub total_distributed: u64,
    pub funding_sources: Vec<FundingSource>,
    pub status: ProposalFundingStatus,
    pub milestone_distributions: Vec<MilestoneDistribution>,
    pub created_at: i64,
    pub last_updated: i64,
}

/// Whether `key` is among `keys`.
fn contains_key(keys: &Vec<Pubkey>, key: &Pubkey) -> (found: bool)
    ensures
        found == keys@.contains(*key),
{
    let mut i: usize = 0;
    while i < keys.len()
        invariant
            i <= keys@.len(),
            forall|j: int| 0 <= j < i ==> keys@[j] != *key,
        decreases keys@.len() - i,
    {
        if keys[i] == *key {
            assert(keys@[i as int] == *key);
            return true;
        }
        i = i + 1;
    }
    false
}

// ---------------------------------------------------------------------------
// initialize_treasury
// ---------------------------------------------------------------------------

/// Emitted when the treasury is created.
#[derive(Debug, Clone, Copy, PartialEq, Eq, Structural)]
pub struct TreasuryInitialized {
    pub treasury_config: Pubkey,
    pub authority: Pubkey,
    pub agro_mint: Pubkey,
    pub fee_rate_bps: u16,
    pub min_reserve_ratio_bps: u16,
    pub timestamp: i64,
}

/// Accounts of the treasury initialization: the configuration's address
/// and the governance token mint created with it.
pub struct InitializeTreasury {
    pub treasury_config_address: Pubkey,
    pub agro_mint: Pubkey,
}

impl InitializeTreasury {
    /// Creates the configuration: the fee at most 10%, the reserve ratio
    /// between 10% and 50%; no supported token yet, not paused.
    pub fn initialize_treasury(
        &self,
        authority: Pubkey,
        fee_rate_bps: u16,
        min_reserve_ratio_bps: u16,
        bump: u8,
        now: i64,
    ) -> (res: Result<(TreasuryConfig, TreasuryInitialized), TreasuryError>)
        ensures
            fee_rate_bps > MAX_FEE_RATE_BPS ==> res == Err::<(TreasuryConfig, TreasuryInitialized), TreasuryError>(
                TreasuryError::InvalidFeeRate,
            ),
            fee_rate_bps <= MAX_FEE_RATE_BPS && !(MIN_RESERVE_RATIO_BPS <= min_reserve_ratio_bps <= MAX_RESERVE_RATIO_BPS)
                ==> res == Err::<(TreasuryConfig, TreasuryInitialized), TreasuryError>(TreasuryError::InvalidReserveRatio),
            fee_rate_bps <= MAX_FEE_RATE_BPS && MIN_RESERVE_RATIO_BPS <= min_reserve_ratio_bps <= MAX_RESERVE_RATIO_BPS
                ==> (res matches Ok((c, ev)) && c.bump == bump && c.authority == authority && c.agro_mint == self.agro_mint
                && c.fee_rate_bps == fee_rate_bps && c.min_reserve_ratio_bps == min_reserve_ratio_bps && !c.emergency_pause
                && c.emergency_pause_timestamp == 0 && c.supported_tokens@ == Seq::<Pubkey>::empty()
                && c.total_agro_minted == 0 && c.total_fees_collected == 0 && c.created_at == now
                && ev == (TreasuryInitialized {
                    treasury_config: self.treasury_config_address,
                    authority,
                    agro_mint: self.agro_mint,
                    fee_rate_bps,
                    min_reserve_ratio_bps,
                    timestamp: now,
                })),
    {
        if fee_rate_bps > MAX_FEE_RATE_BPS {
            return Err(TreasuryError::InvalidFeeRate);
        }
        if !(min_reserve_ratio_bps >= MIN_RESERVE_RATIO_BPS && min_reserve_ratio_bps <= MAX_RESERVE_RATIO_BPS) {
            return Err(TreasuryError::InvalidReserveRatio);
        }
        let config = TreasuryConfig {
            bump,
            authority,
            agro_mint: self.agro_mint,
            fee_rate_bps,
            min_reserve_ratio_bps,
            emergency_pause: false,
            emergency_pause_timestamp: 0,
            supported_tokens: Vec::new(),
            total_agro_minted: 0,
            total_fees_collected: 0,
            created_at: now,
        };
        let event = TreasuryInitialized {
            treasury_config: self.treasury_config_address,
            authority,
            agro_mint: self.agro_mint,
            fee_rate_bps,
            min_reserve_ratio_bps,
            timestamp: now,
        };
        Ok((config, event))
    }
}

// ---------------------------------------------------------------------------
// add_supported_token
// ---------------------------------------------------------------------------

/// Emitted when a token becomes supported.
#[derive(Debug, Clone, Copy, PartialEq, Eq, Structural)]
pub struct SupportedTokenAdded {
    pub token_mint: Pubkey,
    pub token_vault: Pubkey,
    pub fee_vault: Pubkey,
    pub vault_token_account: Pubkey,
    pub timestamp: i64,
}

/// Accounts of adding a supported token: the configuration, the signer,
/// and the addresses of the vault record and the two token accounts
/// created for the token.
pub struct AddSupportedToken {
    pub treasury_config: TreasuryConfig,
    pub authority: Pubkey,
    pub token_vault_address: Pubkey,
    pub fee_vault_address: Pubkey,
    pub vault_token_account_address: Pubkey,
}

impl AddSupportedToken {
    /// The treasury authority, while not paused, adds a new token (at most
    /// ten) with an empty vault record. Leaves the configuration unchanged
    /// when it refuses.
    pub fn add_supported_token(&mut self, token_mint: Pubkey, bump: u8, now: i64) -> (res: Result<(TokenVault, SupportedTokenAdded), TreasuryError>)
        ensures
            final(self).authority == old(self).authority,
            final(self).token_vault_address == old(self).token_vault_address,
            final(self).fee_vault_address == old(self).fee_vault_address,
            final(self).vault_token_account_address == old(self).vault_token_account_address,
            ({
                let c = old(self).treasury_config;
                if c.authority != old(self).authority {
                    res == Err::<(TokenVault, SupportedTokenAdded), TreasuryError>(TreasuryError::Unauthorized)
                        && final(self).treasury_config == c
                } else if c.emergency_pause {
                    res == Err::<(TokenVault, SupportedTokenAdded), TreasuryError>(TreasuryError::TreasuryPaused)
                        && final(self).treasury_config == c
                } else if c.supported_tokens@.len() >= MAX_SUPPORTED_TOKENS {
                    res == Err::<(TokenVault, SupportedTokenAdded), TreasuryError>(TreasuryError::MaxSupportedTokensReached)
                        && final(self).treasury_config == c
                } else if c.supported_tokens@.contains(token_mint) {
                    res == Err::<(TokenVault, SupportedTokenAdded), TreasuryError>(TreasuryError::UnsupportedToken)
                        && final(self).treasury_config == c
                } else {
                    &&& final(self).treasury_config.supported_tokens@ == c.supported_tokens@.push(token_mint)
                    &&& final(self).treasury_config == (TreasuryConfig {
                        supported_tokens: final(self).treasury_config.supported_tokens,
                        ..c
                    })
                    &&& res == Ok::<(TokenVault, SupportedTokenAdded), TreasuryError>((
                        TokenVault {
                            bump,
                            token_mint,
                            vault_authority: old(self).token_vault_address,
                            total_deposits: 0,
                            available_balance: 0,
                            allocated_to_proposals: 0,
                            reserved_amount: 0,
                            yield_positions: 0,
                            created_at: now,
                        },
                        SupportedTokenAdded {
                            token_mint,
                            token_vault: old(self).token_vault_address,
                            fee_vault: old(self).fee_vault_address,
                            vault_token_account: old(self).vault_token_account_address,
                            timestamp: now,
                        },
                    ))
                }
            }),
    {
        if self.treasury_config.authority != self.authority {
            return Err(TreasuryError::Unauthorized);
        }
        if self.treasury_config.emergency_pause {
            return Err(TreasuryError::TreasuryPaused);
        }
        if !(self.treasury_config.supported_tokens.len() < MAX_SUPPORTED_TOKENS) {
            return Err(TreasuryError::MaxSupportedTokensReached);
        }
        if contains_key(&self.treasury_config.supported_tokens, &token_mint) {
            return Err(TreasuryError::UnsupportedToken);
        }
        let vault = TokenVault {
            bump,
            token_mint,
            vault_authority: self.token_vault_address,
            total_deposits: 0,
            available_balance: 0,
            allocated_to_proposals: 0,
            reserved_amount: 0,
            yield_positions: 0,
            created_at: now,
        };
        self.treasury_config.supported_tokens.push(token_mint);
        let event = SupportedTokenAdded {
            token_mint,
            token_vault: self.token_vault_address,
            fee_vault: self.fee_vault_address,
            vault_token_account: self.vault_token_account_address,
            timestamp: now,
        };
        Ok((vault, event))
    }
}

// ---------------------------------------------------------------------------
// emergency_pause / emergency_unpause
// ---------------------------------------------------------------------------

/// Emitted when the treasury is paused.
#[derive(Debug, Clone, Copy, PartialEq, Eq, Structural)]
pub struct EmergencyPauseActivated {
    pub authority: Pubkey,
    pub timestamp: i64,
}

/// Emitted when the treasury is unpaused.
#[derive(Debug, Clone, Copy, PartialEq, Eq, Structural)]
pub struct EmergencyPauseDeactivated {
    pub authority: Pubkey,
    pub pause_duration: i64,
    pub timestamp: i64,
}

/// The configuration after a pause at `now`, or the refusal.
pub open spec fn pause_outcome(c: TreasuryConfig, authority: Pubkey, now: i64) -> Result<TreasuryConfig, TreasuryError> {
    if c.authority != authority {
        Err(TreasuryError::Unauthorized)
    } else if c.emergency_pause {
        Err(TreasuryError::TreasuryPaused)
    } else {
        Ok(TreasuryConfig { emergency_pause: true, emergency_pause_timestamp: now, ..c })
    }
}

/// The configuration after an unpause at `now`, or the refusal.
pub open spec fn unpause_outcome(c: TreasuryConfig, authority: Pubkey, now: i64) -> Result<TreasuryConfig, TreasuryError> {
    if c.authority != authority {
        Err(TreasuryError::Unauthorized)
    } else if !c.emergency_pause {
        Err(TreasuryError::TreasuryPaused)
    } else if now - c.emergency_pause_timestamp < MIN_PAUSE_SECONDS {
        Err(TreasuryError::InvalidAmount)
    } else {
        Ok(TreasuryConfig { emergency_pause: false, emergency_pause_timestamp: 0, ..c })
    }
}

/// Accounts of a pause: the configuration and the signer.
pub struct EmergencyPause {
    pub treasury_config: TreasuryConfig,
    pub authority: Pubkey,
}

impl EmergencyPause {
    /// The treasury authority pauses an unpaused treasury, recording when.
    pub fn emergency_pause(&mut self, now: i64) -> (res: Result<EmergencyPauseActivated, TreasuryError>)
        ensures
            final(self).authority == old(self).authority,
            match pause_outcome(old(self).treasury_config, old(self).authority, now) {
                Err(e) => res == Err::<EmergencyPauseActivated, TreasuryError>(e)
                    && final(self).treasury_config == old(self).treasury_config,
                Ok(c) => final(self).treasury_config == c && res == Ok::<EmergencyPauseActivated, TreasuryError>(
                    EmergencyPauseActivated { authority: old(self).authority, timestamp: now },
                ),
            },
    {
        if self.treasury_config.authority != self.authority {
            return Err(TreasuryError::Unauthorized);
        }
        if self.treasury_config.emergency_pause {
            return Err(TreasuryError::TreasuryPaused);
        }
        self.treasury_config.emergency_pause = true;
        self.treasury_config.emergency_pause_timestamp = now;
        Ok(EmergencyPauseActivated { authority: self.authority, timestamp: now })
    }
}

/// Accounts of an unpause: the configuration and the signer.
pub struct EmergencyUnpause {
    pub treasury_config: TreasuryConfig,
    pub authority: Pubkey,
}

impl EmergencyUnpause {
    /// The treasury authority unpauses a paused treasury once it has been
    /// paused for at least an hour.
    pub fn emergency_unpause(&mut self, now: i64) -> (res: Result<EmergencyPauseDeactivated, TreasuryError>)
        requires
            old(self).treasury_config.authority == old(self).authority && old(self).treasury_config.emergency_pause
                ==> i64::MIN <= now - old(self).treasury_config.emergency_pause_timestamp <= i64::MAX,
        ensures
            final(self).authority == old(self).authority,
            match unpause_outcome(old(self).treasury_config, old(self).authority, now) {
                Err(e) => res == Err::<EmergencyPauseDeactivated, TreasuryError>(e)
                    && final(self).treasury_config == old(self).treasury_config,
                Ok(c) => final(self).treasury_config == c && res == Ok::<EmergencyPauseDeactivated, TreasuryError>(
                    EmergencyPauseDeactivated {
                        authority: old(self).authority,
                        pause_duration: (now - old(self).treasury_config.emergency_pause_timestamp) as i64,
                        timestamp: now,
                    },
                ),
            },
    {
        if self.treasury_config.authority != self.authority {
            return Err(TreasuryError::Unauthorized);
        }
        if !self.treasury_config.emergency_pause {
            return Err(TreasuryError::TreasuryPaused);
        }
        let pause_duration = now - self.treasury_config.emergency_pause_timestamp;
        if !(pause_duration >= MIN_PAUSE_SECONDS) {
            return Err(TreasuryError::InvalidAmount);
        }
        self.treasury_config.emergency_pause = false;
        self.treasury_config.emergency_pause_timestamp = 0;
        Ok(EmergencyPauseDeactivated { authority: self.authority, pause_duration, timestamp: now })
    }
}

/// Accepts a funding validation when the proposal and the researcher
/// profile are both owned by the research program.
pub fn validate_proposal_for_funding_cpi(
    research_dao_program: Pubkey,
    proposal_owner: Pubkey,
    researcher_profile_owner: Pubkey,
    proposal_id: u64,
    funding_amount: u64,
) -> (res: Result<(), TreasuryError>)
    ensures
        res == (if proposal_owner != research_dao_program || researcher_profile_owner != research_dao_program {
            Err(TreasuryError::Unauthorized)
        } else {
            Ok(())
        }),
{
    if proposal_owner != research_dao_program {
        return Err(TreasuryError::Unauthorized);
    }
    if researcher_profile_owner != research_dao_program {
        return Err(TreasuryError::Unauthorized);
    }
    Ok(())
}


// ---------------------------------------------------------------------------
// Views and what the treasury reads of research accounts
// ---------------------------------------------------------------------------

/// A stake account with its deposits as a sequence.
pub struct StakeAccountView {
    pub bump: u8,
    pub owner: Pubkey,
    pub total_agro_minted: u64,
    pub deposits: Seq<TokenDeposit>,
    pub last_activity: i64,
    pub created_at: i64,
}

impl View for StakeAccount {
    type V = StakeAccountView;

    open spec fn view(&self) -> StakeAccountView {
        StakeAccountView {
            bump: self.bump,
            owner: self.owner,
            total_agro_minted: self.total_agro_minted,
            deposits: self.deposits@,
            last_activity: self.last_activity,
            created_at: self.created_at,
        }
    }
}

/// A proposal's funding with its texts and lists as sequences.
pub struct ProposalFundingView {
    pub bump: u8,
    pub proposal_id: Seq<char>,
    pub research_program_id: Pubkey,
    pub proposal_pda: Pubkey,
    pub total_committed: u64,
    pub total_distributed: u64,
    pub funding_sources: Seq<FundingSource>,
    pub status: ProposalFundingStatus,
    pub milestone_distributions: Seq<MilestoneDistribution>,
    pub created_at: i64,
    pub last_updated: i64,
}

impl View for ProposalFunding {
    type V = ProposalFundingView;

    open spec fn view(&self) -> ProposalFundingView {
        ProposalFundingView {
            bump: self.bump,
            proposal_id: self.proposal_id@,
            research_program_id: self.research_program_id,
            proposal_pda: self.proposal_pda,
            total_committed: self.total_committed,
            total_distributed: self.total_distributed,
            funding_sources: self.funding_sources@,
            status: self.status,
            milestone_distributions: self.milestone_distributions@,
            created_at: self.created_at,
            last_updated: self.last_updated,
        }
    }
}

/// What the treasury reads of a research milestone: whether it is
/// completed or verified, and the share of the funding it releases.
#[derive(Debug, Clone, Copy, PartialEq, Eq, Structural)]
pub struct MilestoneInfo {
    pub is_completed_or_verified: bool,
    pub funding_percentage: u8,
}

/// What the treasury reads of a research proposal.
#[derive(Debug, Clone, PartialEq, Eq)]
pub struct ResearchProposalInfo {
    pub address: Pubkey,
    pub researcher: Pubkey,
    pub is_approved: bool,
    pub milestones: Vec<MilestoneInfo>,
}

/// What the treasury reads of a researcher profile.
#[derive(Debug, Clone, Copy, PartialEq, Eq, Structural)]
pub struct ResearcherProfileInfo {
    pub address: Pubkey,
    pub researcher: Pubkey,
    pub is_verified: bool,
}

/// The bytes of the all-zero address.
pub open spec fn zero_key_bytes() -> Seq<u8> {
    Seq::new(32, |i: int| 0u8)
}

// ---------------------------------------------------------------------------
// deposit_stake_tokens
// ---------------------------------------------------------------------------

/// Token movements a deposit asks for: the deposit into the vault, the fee
/// moved from the vault to the fee vault (none when zero), and the
/// governance tokens minted to the depositor.
#[derive(Debug, Clone, Copy, PartialEq, Eq, Structural)]
pub struct DepositTransfers {
    pub deposit_amount: u64,
    pub fee_amount: u64,
    pub agro_to_mint: u64,
}

/// Emitted when tokens are deposited.
#[derive(Debug, Clone, Copy, PartialEq, Eq, Structural)]
pub struct TokensDeposited {
    pub depositor: Pubkey,
    pub token_mint: Pubkey,
    pub amount: u64,
    pub fee_amount: u64,
    pub net_amount: u64,
    pub agro_minted: u64,
    pub researcher_profile: Pubkey,
    pub timestamp: i64,
}

/// Fee on a deposit of `amount` at `rate_bps`.
pub open spec fn deposit_fee(amount: u64, rate_bps: u16) -> int {
    amount * rate_bps / (FEE_DENOMINATOR as int)
}

/// `i` is the first deposit of `mint` in `ds`.
pub open spec fn is_first_deposit_of(ds: Seq<TokenDeposit>, mint: Pubkey, i: int) -> bool {
    &&& 0 <= i < ds.len()
    &&& ds[i].token_mint == mint
    &&& forall|j: int| 0 <= j < i ==> (#[trigger] ds[j]).token_mint != mint
}

/// Position of the first deposit of `mint` in `ds`, if any.
pub open spec fn first_deposit_of(ds: Seq<TokenDeposit>, mint: Pubkey) -> Option<int> {
    if exists|i: int| is_first_deposit_of(ds, mint, i) {
        Some(choose|i: int| is_first_deposit_of(ds, mint, i))
    } else {
        None
    }
}

/// Position of the first deposit of `mint`.
fn find_deposit(ds: &Vec<TokenDeposit>, mint: &Pubkey) -> (r: Option<usize>)
    ensures
        match r {
            Some(i) => first_deposit_of(ds@, *mint) == Some(i as int),
            None => first_deposit_of(ds@, *mint) is None && forall|j: int| 0 <= j < ds@.len() ==> (#[trigger] ds@[j]).token_mint != *mint,
        },
{
    let mut i: usize = 0;
    while i < ds.len()
        invariant
            i <= ds@.len(),
            forall|j: int| 0 <= j < i ==> (#[trigger] ds@[j]).token_mint != *mint,
        decreases ds@.len() - i,
    {
        if ds[i].token_mint == *mint {
            assert(is_first_deposit_of(ds@, *mint, i as int));
            let ghost k = choose|k: int| is_first_deposit_of(ds@, *mint, k);
            assert(k == i) by {
                if k < i {
                    assert(ds@[k].token_mint != *mint);
                }
                if i < k {
                    assert(ds@[i as int].token_mint != *mint);
                }
            }
            return Some(i);
        }
        i = i + 1;
    }
    assert(!exists|k: int| is_first_deposit_of(ds@, *mint, k)) by {
        if exists|k: int| is_first_deposit_of(ds@, *mint, k) {
            let k = choose|k: int| is_first_deposit_of(ds@, *mint, k);
            assert(ds@[k].token_mint == *mint);
        }
    }
    None
}

/// The stake account after a deposit of `amount` netting `net`, or the
/// refusal.
pub open spec fn staked(s: StakeAccountView, depositor: Pubkey, mint: Pubkey, amount: u64, net: u64, bump: u8, now: i64) -> Result<StakeAccountView, TreasuryError> {
    if s.owner@ == zero_key_bytes() {
        Ok(StakeAccountView {
            bump,
            owner: depositor,
            total_agro_minted: net,
            deposits: seq![TokenDeposit { token_mint: mint, amount, agro_minted: net, timestamp: now }],
            last_activity: now,
            created_at: now,
        })
    } else if s.total_agro_minted + net > u64::MAX {
        Err(TreasuryError::ArithmeticOverflow)
    } else {
        match first_deposit_of(s.deposits, mint) {
            Some(i) => {
                let d = s.deposits[i];
                if d.amount + amount > u64::MAX || d.agro_minted + net > u64::MAX {
                    Err(TreasuryError::ArithmeticOverflow)
                } else {
                    Ok(StakeAccountView {
                        total_agro_minted: (s.total_agro_minted + net) as u64,
                        last_activity: now,
                        deposits: s.deposits.update(i, TokenDeposit {
                            amount: (d.amount + amount) as u64,
                            agro_minted: (d.agro_minted + net) as u64,
                            timestamp: now,
                            ..d
                        }),
                        ..s
                    })
                }
            },
            None => if s.deposits.len() >= MAX_STAKE_DEPOSITS {
                Err(TreasuryError::AccountDidNotSerialize)
            } else {
                Ok(StakeAccountView {
                total_agro_minted: (s.total_agro_minted + net) as u64,
                last_activity: now,
                deposits: s.deposits.push(TokenDeposit { token_mint: mint, amount, agro_minted: net, timestamp: now }),
                ..s
            })
            },
        }
    }
}

/// The outcome of a deposit: the refusal, or the vault and stake account
/// afterwards with the fee and net amount.
pub open spec fn deposit_outcome(
    c: TreasuryConfig,
    vault: TokenVault,
    stake: StakeAccountView,
    verified: bool,
    depositor: Pubkey,
    mint: Pubkey,
    amount: u64,
    bump: u8,
    now: i64,
) -> Result<(TokenVault, StakeAccountView, u64, u64), TreasuryError> {
    if c.emergency_pause {
        Err(TreasuryError::TreasuryPaused)
    } else if !verified {
        Err(TreasuryError::ResearcherNotVerified)
    } else if amount == 0 {
        Err(TreasuryError::InvalidAmount)
    } else if !c.supported_tokens@.contains(mint) {
        Err(TreasuryError::UnsupportedToken)
    } else if amount * c.fee_rate_bps > u64::MAX {
        Err(TreasuryError::ArithmeticOverflow)
    } else if deposit_fee(amount, c.fee_rate_bps) > amount {
        Err(TreasuryError::ArithmeticUnderflow)
    } else {
        let fee = deposit_fee(amount, c.fee_rate_bps) as u64;
        let net = (amount - fee) as u64;
        if vault.total_deposits + amount > u64::MAX || vault.available_balance + net > u64::MAX {
            Err(TreasuryError::ArithmeticOverflow)
        } else {
            match staked(stake, depositor, mint, amount, net, bump, now) {
                Err(e) => Err(e),
                Ok(s2) => Ok((
                    TokenVault {
                        total_deposits: (vault.total_deposits + amount) as u64,
                        available_balance: (vault.available_balance + net) as u64,
                        ..vault
                    },
                    s2,
                    fee,
                    net,
                )),
            }
        }
    }
}

/// Accounts of a deposit: the configuration, the vault record of the
/// deposited token, the depositor's stake account (all zero when new), the
/// depositor's researcher profile, the depositor and the mint of the
/// deposited token.
pub struct DepositStakeTokens {
    pub treasury_config: TreasuryConfig,
    pub token_vault: TokenVault,
    pub stake_account: StakeAccount,
    pub researcher_profile: ResearcherProfileInfo,
    pub depositor: Pubkey,
    pub depositor_token_mint: Pubkey,
}

impl DepositStakeTokens {
    /// A verified researcher deposits `amount` of a supported token while
    /// the treasury is not paused: the fee (`fee_rate_bps` of the amount,
    /// rounded down) stays in the treasury's fee vault and the rest is
    /// minted to the depositor as governance tokens, recorded in the vault
    /// record and the stake account. The stake account records at most five
    /// distinct tokens; a deposit of a sixth fails as the account no longer
    /// serializes. Leaves the accounts
    /// unchanged when it refuses.
    pub fn deposit_stake_tokens(&mut self, amount: u64, stake_account_bump: u8, now: i64) -> (res: Result<(DepositTransfers, TokensDeposited), TreasuryError>)
        ensures
            final(self).treasury_config == old(self).treasury_config,
            final(self).researcher_profile == old(self).researcher_profile,
            final(self).depositor == old(self).depositor,
            final(self).depositor_token_mint == old(self).depositor_token_mint,
            match deposit_outcome(
                old(self).treasury_config,
                old(self).token_vault,
                old(self).stake_account@,
                old(self).researcher_profile.is_verified,
                old(self).depositor,
                old(self).depositor_token_mint,
                amount,
                stake_account_bump,
                now,
            ) {
                Err(e) => res == Err::<(DepositTransfers, TokensDeposited), TreasuryError>(e)
                    && final(self).token_vault == old(self).token_vault
                    && final(self).stake_account == old(self).stake_account,
                Ok((v, st, fee, net)) => final(self).token_vault == v && final(self).stake_account@ == st
                    && res == Ok::<(DepositTransfers, TokensDeposited), TreasuryError>((
                    DepositTransfers { deposit_amount: amount, fee_amount: fee, agro_to_mint: net },
                    TokensDeposited {
                        depositor: old(self).depositor,
                        token_mint: old(self).depositor_token_mint,
                        amount,
                        fee_amount: fee,
                        net_amount: net,
                        agro_minted: net,
                        researcher_profile: old(self).researcher_profile.address,
                        timestamp: now,
                    },
                )),
            },
    {
        if self.treasury_config.emergency_pause {
            return Err(TreasuryError::TreasuryPaused);
        }
        if !self.researcher_profile.is_verified {
            return Err(TreasuryError::ResearcherNotVerified);
        }
        if amount == 0 {
            return Err(TreasuryError::InvalidAmount);
        }
        let token_mint = self.depositor_token_mint;
        if !contains_key(&self.treasury_config.supported_tokens, &token_mint) {
            return Err(TreasuryError::UnsupportedToken);
        }
        let fee_amount = match amount.checked_mul(self.treasury_config.fee_rate_bps as u64) {
            Some(v) => v / FEE_DENOMINATOR,
            None => { return Err(TreasuryError::ArithmeticOverflow); },
        };
        let net_amount = match amount.checked_sub(fee_amount) {
            Some(v) => v,
            None => { return Err(TreasuryError::ArithmeticUnderflow); },
        };
        let total_deposits = match self.token_vault.total_deposits.checked_add(amount) {
            Some(v) => v,
            None => { return Err(TreasuryError::ArithmeticOverflow); },
        };
        let available_balance = match self.token_vault.available_balance.checked_add(net_amount) {
            Some(v) => v,
            None => { return Err(TreasuryError::ArithmeticOverflow); },
        };
        let zero = Pubkey::default_key();
        proof {
            Pubkey::lemma_view_injective(self.stake_account.owner, zero);
            assert(zero@ =~= zero_key_bytes());
        }
        if self.stake_account.owner == zero {
            self.stake_account = StakeAccount {
                bump: stake_account_bump,
                owner: self.depositor,
                total_agro_minted: net_amount,
                deposits: vec![TokenDeposit { token_mint, amount, agro_minted: net_amount, timestamp: now }],
                last_activity: now,
                created_at: now,
            };
            assert(self.stake_account@.deposits =~= seq![TokenDeposit { token_mint, amount, agro_minted: net_amount, timestamp: now }]);
        } else {
            let total_agro = match self.stake_account.total_agro_minted.checked_add(net_amount) {
                Some(v) => v,
                None => { return Err(TreasuryError::ArithmeticOverflow); },
            };
            match find_deposit(&self.stake_account.deposits, &token_mint) {
                Some(i) => {
                    let d = self.stake_account.deposits[i];
                    let new_amount = match d.amount.checked_add(amount) {
                        Some(v) => v,
                        None => { return Err(TreasuryError::ArithmeticOverflow); },
                    };
                    let new_agro = match d.agro_minted.checked_add(net_amount) {
                        Some(v) => v,
                        None => { return Err(TreasuryError::ArithmeticOverflow); },
                    };
                    self.stake_account.deposits[i] = TokenDeposit {
                        token_mint: d.token_mint,
                        amount: new_amount,
                        agro_minted: new_agro,
                        timestamp: now,
                    };
                },
                None => {
                    if self.stake_account.deposits.len() >= MAX_STAKE_DEPOSITS {
                        return Err(TreasuryError::AccountDidNotSerialize);
                    }
                    self.stake_account.deposits.push(TokenDeposit { token_mint, amount, agro_minted: net_amount, timestamp: now });
                },
            }
            self.stake_account.total_agro_minted = total_agro;
            self.stake_account.last_activity = now;
            assert(staked(old(self).stake_account@, self.depositor, token_mint, amount, net_amount, stake_account_bump, now) == Ok::<StakeAccountView, TreasuryError>(self.stake_account@));
        }
        self.token_vault.total_deposits = total_deposits;
        self.token_vault.available_balance = available_balance;
        let transfers = DepositTransfers { deposit_amount: amount, fee_amount, agro_to_mint: net_amount };
        let event = TokensDeposited {
            depositor: self.depositor,
            token_mint,
            amount,
            fee_amount,
            net_amount,
            agro_minted: net_amount,
            researcher_profile: self.researcher_profile.address,
            timestamp: now,
        };
        Ok((transfers, event))
    }
}


// ---------------------------------------------------------------------------
// fund_proposal
// ---------------------------------------------------------------------------

/// Emitted when a proposal receives funding.
#[derive(Debug, Clone, PartialEq, Eq)]
pub struct ProposalFunded {
    pub proposal_id: String,
    pub stakeholder: Pubkey,
    pub amount: u64,
    pub total_committed: u64,
    pub research_proposal: Pubkey,
    pub timestamp: i64,
}

/// Accounts of a funding: the configuration, the proposal's funding record
/// (all empty when new), the research proposal and the stakeholder's
/// profile, stake account, governance token balance and address, the
/// governance token mint and the research program.
pub struct FundProposal {
    pub treasury_config: TreasuryConfig,
    pub proposal_funding: ProposalFunding,
    pub research_proposal: ResearchProposalInfo,
    pub stakeholder_profile: ResearcherProfileInfo,
    pub stake_account: StakeAccount,
    pub stakeholder: Pubkey,
    pub stakeholder_agro_balance: u64,
    pub agro_mint: Pubkey,
    pub research_dao_program: Pubkey,
}

/// The first rule a funding breaks before the funding record is looked at,
/// if any.
pub open spec fn funding_precheck(f: FundProposal, proposal_id: Seq<char>, amount: u64) -> Option<TreasuryError> {
    if f.treasury_config.emergency_pause {
        Some(TreasuryError::TreasuryPaused)
    } else if !f.research_proposal.is_approved {
        Some(TreasuryError::ProposalNotApproved)
    } else if !f.stakeholder_profile.is_verified {
        Some(TreasuryError::ResearcherNotVerified)
    } else if f.stake_account.owner != f.stakeholder {
        Some(TreasuryError::Unauthorized)
    } else if amount == 0 {
        Some(TreasuryError::InvalidAmount)
    } else if utf8_len(proposal_id) > MAX_PROPOSAL_ID_LENGTH {
        Some(TreasuryError::ProposalIdTooLong)
    } else if f.stakeholder_agro_balance < amount {
        Some(TreasuryError::InsufficientBalance)
    } else {
        None
    }
}

/// The funding record after `stakeholder` commits `amount`, or the refusal.
pub open spec fn funded(
    pf: ProposalFundingView,
    proposal_id: Seq<char>,
    amount: u64,
    stakeholder: Pubkey,
    agro_mint: Pubkey,
    research_program: Pubkey,
    research_proposal: Pubkey,
    bump: u8,
    now: i64,
) -> Result<ProposalFundingView, TreasuryError> {
    let source = FundingSource { stakeholder, token_mint: agro_mint, amount, agro_burned: amount, timestamp: now };
    if pf.proposal_id.len() == 0 {
        Ok(ProposalFundingView {
            bump,
            proposal_id,
            research_program_id: research_program,
            proposal_pda: research_proposal,
            total_committed: amount,
            total_distributed: 0,
            funding_sources: seq![source],
            status: ProposalFundingStatus::Active,
            milestone_distributions: Seq::empty(),
            created_at: now,
            last_updated: now,
        })
    } else if pf.proposal_id != proposal_id {
        Err(TreasuryError::ProposalNotFound)
    } else if pf.status != ProposalFundingStatus::Active {
        Err(TreasuryError::ProposalAlreadyFunded)
    } else if pf.funding_sources.len() >= MAX_FUNDING_SOURCES {
        Err(TreasuryError::MaxFundingSourcesReached)
    } else if pf.total_committed + amount > u64::MAX {
        Err(TreasuryError::ArithmeticOverflow)
    } else {
        Ok(ProposalFundingView {
            total_committed: (pf.total_committed + amount) as u64,
            funding_sources: pf.funding_sources.push(source),
            last_updated: now,
            ..pf
        })
    }
}

impl FundProposal {
    /// A verified stakeholder commits `amount` governance tokens (burned)
    /// to an approved research proposal: the first funding creates the
    /// record, later ones must name the same proposal, which must still be
    /// active and have fewer than twenty sources. Returns the amount to burn
    /// with the event. Leaves the funding record unchanged when it refuses.
    pub fn fund_proposal(&mut self, proposal_id: String, amount: u64, proposal_funding_bump: u8, now: i64) -> (res: Result<(u64, ProposalFunded), TreasuryError>)
        ensures
            final(self).treasury_config == old(self).treasury_config,
            final(self).research_proposal == old(self).research_proposal,
            final(self).stakeholder_profile == old(self).stakeholder_profile,
            final(self).stake_account == old(self).stake_account,
            final(self).stakeholder == old(self).stakeholder,
            final(self).stakeholder_agro_balance == old(self).stakeholder_agro_balance,
            final(self).agro_mint == old(self).agro_mint,
            final(self).research_dao_program == old(self).research_dao_program,
            match funding_precheck(*old(self), proposal_id@, amount) {
                Some(e) => res == Err::<(u64, ProposalFunded), TreasuryError>(e)
                    && final(self).proposal_funding == old(self).proposal_funding,
                None => match funded(
                    old(self).proposal_funding@,
                    proposal_id@,
                    amount,
                    old(self).stakeholder,
                    old(self).agro_mint,
                    old(self).research_dao_program,
                    old(self).research_proposal.address,
                    proposal_funding_bump,
                    now,
                ) {
                    Err(e) => res == Err::<(u64, ProposalFunded), TreasuryError>(e)
                        && final(self).proposal_funding == old(self).proposal_funding,
                    Ok(pf) => {
                        &&& final(self).proposal_funding@ == pf
                        &&& res matches Ok((burn, ev))
                        &&& burn == amount
                        &&& ev == (ProposalFunded {
                            proposal_id,
                            stakeholder: old(self).stakeholder,
                            amount,
                            total_committed: pf.total_committed,
                            research_proposal: old(self).research_proposal.address,
                            timestamp: now,
                        })
                    },
                },
            },
    {
        if self.treasury_config.emergency_pause {
            return Err(TreasuryError::TreasuryPaused);
        }
        if !self.research_proposal.is_approved {
            return Err(TreasuryError::ProposalNotApproved);
        }
        if !self.stakeholder_profile.is_verified {
            return Err(TreasuryError::ResearcherNotVerified);
        }
        if self.stake_account.owner != self.stakeholder {
            return Err(TreasuryError::Unauthorized);
        }
        if amount == 0 {
            return Err(TreasuryError::InvalidAmount);
        }
        if proposal_id.as_str().len() > MAX_PROPOSAL_ID_LENGTH {
            return Err(TreasuryError::ProposalIdTooLong);
        }
        if !(self.stakeholder_agro_balance >= amount) {
            return Err(TreasuryError::InsufficientBalance);
        }
        let source = FundingSource {
            stakeholder: self.stakeholder,
            token_mint: self.agro_mint,
            amount,
            agro_burned: amount,
            timestamp: now,
        };
        if self.proposal_funding.proposal_id.as_str().is_empty() {
            self.proposal_funding = ProposalFunding {
                bump: proposal_funding_bump,
                proposal_id: proposal_id.clone(),
                research_program_id: self.research_dao_program,
                proposal_pda: self.research_proposal.address,
                total_committed: amount,
                total_distributed: 0,
                funding_sources: vec![source],
                status: ProposalFundingStatus::Active,
                milestone_distributions: Vec::new(),
                created_at: now,
                last_updated: now,
            };
            assert(self.proposal_funding@.funding_sources =~= seq![source]);
        } else {
            if self.proposal_funding.proposal_id != proposal_id {
                return Err(TreasuryError::ProposalNotFound);
            }
            if self.proposal_funding.status != ProposalFundingStatus::Active {
                return Err(TreasuryError::ProposalAlreadyFunded);
            }
            if !(self.proposal_funding.funding_sources.len() < MAX_FUNDING_SOURCES) {
                return Err(TreasuryError::MaxFundingSourcesReached);
            }
            let total = match self.proposal_funding.total_committed.checked_add(amount) {
                Some(v) => v,
                None => { return Err(TreasuryError::ArithmeticOverflow); },
            };
            self.proposal_funding.total_committed = total;
            self.proposal_funding.funding_sources.push(source);
            self.proposal_funding.last_updated = now;
        }
        let event = ProposalFunded {
            proposal_id,
            stakeholder: self.stakeholder,
            amount,
            total_committed: self.proposal_funding.total_committed,
            research_proposal: self.research_proposal.address,
            timestamp: now,
        };
        Ok((amount, event))
    }
}

// ---------------------------------------------------------------------------
// distribute_proposal_funds
// ---------------------------------------------------------------------------

/// Emitted when a milestone payout is made.
#[derive(Debug, Clone, PartialEq, Eq)]
pub struct FundsDistributed {
    pub proposal_id: String,
    pub recipient: Pubkey,
    pub milestone_index: u8,
    pub amount: u64,
    pub token_mint: Pubkey,
    pub total_distributed: u64,
    pub research_proposal: Pubkey,
    pub timestamp: i64,
}

/// Accounts of a payout: the configuration and its signer, the funding
/// record, the research proposal, its researcher's profile, the recipient,
/// the vault record of the paid token and that token's mint.
pub struct DistributeProposalFunds {
    pub treasury_config: TreasuryConfig,
    pub authority: Pubkey,
    pub proposal_funding: ProposalFunding,
    pub research_proposal: ResearchProposalInfo,
    pub researcher_profile: ResearcherProfileInfo,
    pub recipient: Pubkey,
    pub token_vault: TokenVault,
    pub distribution_token_mint: Pubkey,
}

/// Whether a payout was already made for milestone `index`.
pub open spec fn already_distributed(ds: Seq<MilestoneDistribution>, index: u8) -> bool {
    exists|j: int| 0 <= j < ds.len() && (#[trigger] ds[j]).milestone_index == index
}

/// The payout a milestone releasing `percentage`% of `committed` is due.
pub open spec fn expected_payout(committed: u64, percentage: u8) -> int {
    committed * percentage / 100
}

/// `a - b` held at 0.
pub open spec fn sat_sub_u64(a: u64, b: u64) -> u64 {
    if a < b { 0 } else { (a - b) as u64 }
}

/// `a + b` held at `u64::MAX`.
pub open spec fn sat_add_u64(a: u64, b: u64) -> u64 {
    if a + b > u64::MAX { u64::MAX } else { (a + b) as u64 }
}

/// The first rule a payout breaks, if any.
pub open spec fn distribution_error(d: DistributeProposalFunds, milestone_index: u8, amount: u64) -> Option<TreasuryError> {
    let pf = d.proposal_funding@;
    let ms = d.research_proposal.milestones@;
    if d.treasury_config.authority != d.authority {
        Some(TreasuryError::Unauthorized)
    } else if d.treasury_config.emergency_pause {
        Some(TreasuryError::TreasuryPaused)
    } else if pf.status != ProposalFundingStatus::Approved {
        Some(TreasuryError::ProposalNotApproved)
    } else if d.research_proposal.address != pf.proposal_pda {
        Some(TreasuryError::ProposalNotFound)
    } else if !d.researcher_profile.is_verified {
        Some(TreasuryError::ResearcherNotVerified)
    } else if d.researcher_profile.researcher != d.research_proposal.researcher {
        Some(TreasuryError::Unauthorized)
    } else if d.recipient != d.researcher_profile.researcher {
        Some(TreasuryError::Unauthorized)
    } else if amount == 0 {
        Some(TreasuryError::InvalidAmount)
    } else if amount > MAX_DISTRIBUTION_AMOUNT {
        Some(TreasuryError::DistributionAmountTooLarge)
    } else if milestone_index >= ms.len() {
        Some(TreasuryError::InvalidMilestone)
    } else if !ms[milestone_index as int].is_completed_or_verified {
        Some(TreasuryError::InvalidMilestone)
    } else if already_distributed(pf.milestone_distributions, milestone_index) {
        Some(TreasuryError::MilestoneAlreadyDistributed)
    } else if pf.total_committed < pf.total_distributed {
        Some(TreasuryError::ArithmeticUnderflow)
    } else if amount > pf.total_committed - pf.total_distributed {
        Some(TreasuryError::InsufficientBalance)
    } else if d.token_vault.available_balance < amount {
        Some(TreasuryError::InsufficientBalance)
    } else if pf.total_committed * ms[milestone_index as int].funding_percentage > u64::MAX {
        Some(TreasuryError::ArithmeticOverflow)
    } else {
        let expected = expected_payout(pf.total_committed, ms[milestone_index as int].funding_percentage) as u64;
        let tolerance = expected / 20;
        if amount < sat_sub_u64(expected, tolerance) || amount > sat_add_u64(expected, tolerance) {
            Some(TreasuryError::InvalidAmount)
        } else if pf.milestone_distributions.len() >= MAX_MILESTONE_DISTRIBUTIONS {
            Some(TreasuryError::AccountDidNotSerialize)
        } else {
            None
        }
    }
}

/// Whether any payout in `ds` was for milestone `index`.
fn has_distribution(ds: &Vec<MilestoneDistribution>, index: u8) -> (found: bool)
    ensures
        found == already_distributed(ds@, index),
{
    let mut i: usize = 0;
    while i < ds.len()
        invariant
            i <= ds@.len(),
            forall|j: int| 0 <= j < i ==> (#[trigger] ds@[j]).milestone_index != index,
        decreases ds@.len() - i,
    {
        if ds[i].milestone_index == index {
            assert(ds@[i as int].milestone_index == index);
            return true;
        }
        i = i + 1;
    }
    false
}

impl DistributeProposalFunds {
    /// The treasury authority pays `amount` of the vault's token to the
    /// verified researcher of an approved, funded proposal for a completed
    /// milestone not paid before; the amount must fit what remains
    /// committed and what the vault holds, and lie within 5% of the
    /// milestone's share of the committed funding. The record is marked
    /// distributed once everything committed is paid out. The record holds
    /// at most ten payouts; an eleventh fails as the record no longer
    /// serializes. Leaves the accounts
    /// unchanged when it refuses.
    pub fn distribute_proposal_funds(&mut self, milestone_index: u8, amount: u64, now: i64) -> (res: Result<FundsDistributed, TreasuryError>)
        ensures
            final(self).treasury_config == old(self).treasury_config,
            final(self).authority == old(self).authority,
            final(self).research_proposal == old(self).research_proposal,
            final(self).researcher_profile == old(self).researcher_profile,
            final(self).recipient == old(self).recipient,
            final(self).distribution_token_mint == old(self).distribution_token_mint,
            match distribution_error(*old(self), milestone_index, amount) {
                Some(e) => res == Err::<FundsDistributed, TreasuryError>(e)
                    && final(self).proposal_funding == old(self).proposal_funding
                    && final(self).token_vault == old(self).token_vault,
                None => {
                    let pf = old(self).proposal_funding@;
                    let distributed = (pf.total_distributed + amount) as u64;
                    &&& final(self).token_vault == (TokenVault {
                        available_balance: (old(self).token_vault.available_balance - amount) as u64,
                        ..old(self).token_vault
                    })
                    &&& final(self).proposal_funding@ == (ProposalFundingView {
                        total_distributed: distributed,
                        milestone_distributions: pf.milestone_distributions.push(MilestoneDistribution {
                            milestone_index,
                            amount_distributed: amount,
                            token_mint: old(self).distribution_token_mint,
                            recipient: old(self).recipient,
                            distributed_at: now,
                        }),
                        last_updated: now,
                        status: if distributed >= pf.total_committed { ProposalFundingStatus::Distributed } else { pf.status },
                        ..pf
                    })
                    &&& res matches Ok(ev)
                    &&& ev == (FundsDistributed {
                        proposal_id: old(self).proposal_funding.proposal_id,
                        recipient: old(self).recipient,
                        milestone_index,
                        amount,
                        token_mint: old(self).distribution_token_mint,
                        total_distributed: distributed,
                        research_proposal: old(self).research_proposal.address,
                        timestamp: now,
                    })
                },
            },
    {
        if self.treasury_config.authority != self.authority {
            return Err(TreasuryError::Unauthorized);
        }
        if self.treasury_config.emergency_pause {
            return Err(TreasuryError::TreasuryPaused);
        }
        if self.proposal_funding.status != ProposalFundingStatus::Approved {
            return Err(TreasuryError::ProposalNotApproved);
        }
        if self.research_proposal.address != self.proposal_funding.proposal_pda {
            return Err(TreasuryError::ProposalNotFound);
        }
        if !self.researcher_profile.is_verified {
            return Err(TreasuryError::ResearcherNotVerified);
        }
        if self.researcher_profile.researcher != self.research_proposal.researcher {
            return Err(TreasuryError::Unauthorized);
        }
        if self.recipient != self.researcher_profile.researcher {
            return Err(TreasuryError::Unauthorized);
        }
        if amount == 0 {
            return Err(TreasuryError::InvalidAmount);
        }
        if amount > MAX_DISTRIBUTION_AMOUNT {
            return Err(TreasuryError::DistributionAmountTooLarge);
        }
        let idx = milestone_index as usize;
        if idx >= self.research_proposal.milestones.len() {
            return Err(TreasuryError::InvalidMilestone);
        }
        let milestone = self.research_proposal.milestones[idx];
        if !milestone.is_completed_or_verified {
            return Err(TreasuryError::InvalidMilestone);
        }
        if has_distribution(&self.proposal_funding.milestone_distributions, milestone_index) {
            return Err(TreasuryError::MilestoneAlreadyDistributed);
        }
        let remaining_funds = match self.proposal_funding.total_committed.checked_sub(self.proposal_funding.total_distributed) {
            Some(v) => v,
            None => { return Err(TreasuryError::ArithmeticUnderflow); },
        };
        if amount > remaining_funds {
            return Err(TreasuryError::InsufficientBalance);
        }
        if !(self.token_vault.available_balance >= amount) {
            return Err(TreasuryError::InsufficientBalance);
        }
        let milestone_percentage = milestone.funding_percentage as u64;
        let expected_amount = match self.proposal_funding.total_committed.checked_mul(milestone_percentage) {
            Some(v) => v / 100,
            None => { return Err(TreasuryError::ArithmeticOverflow); },
        };
        let tolerance = expected_amount / 20;
        if !(amount >= expected_amount.saturating_sub(tolerance) && amount <= expected_amount.saturating_add(tolerance)) {
            return Err(TreasuryError::InvalidAmount);
        }
        if self.proposal_funding.milestone_distributions.len() >= MAX_MILESTONE_DISTRIBUTIONS {
            return Err(TreasuryError::AccountDidNotSerialize);
        }
        self.token_vault.available_balance = self.token_vault.available_balance - amount;
        self.proposal_funding.total_distributed = self.proposal_funding.total_distributed + amount;
        self.proposal_funding.milestone_distributions.push(MilestoneDistribution {
            milestone_index,
            amount_distributed: amount,
            token_mint: self.distribution_token_mint,
            recipient: self.recipient,
            distributed_at: now,
        });
        self.proposal_funding.last_updated = now;
        if self.proposal_funding.total_distributed >= self.proposal_funding.total_committed {
            self.proposal_funding.status = ProposalFundingStatus::Distributed;
        }
        Ok(FundsDistributed {
            proposal_id: self.proposal_funding.proposal_id.clone(),
            recipient: self.recipient,
            milestone_index,
            amount,
            token_mint: self.distribution_token_mint,
            total_distributed: self.proposal_funding.total_distributed,
            research_proposal: self.research_proposal.address,
            timestamp: now,
        })
    }
}


// ---------------------------------------------------------------------------
// Properties across treasury instructions
// ---------------------------------------------------------------------------

/// A deposit splits the amount exactly into fee and minted tokens, the fee
/// being at most 10% under any rate the initialization accepts; the vault
/// records the whole deposit and the net as available, the stake account
/// records the net as minted, and it never records more than five tokens.
pub proof fn lemma_deposit_split(
    c: TreasuryConfig,
    vault: TokenVault,
    stake: StakeAccountView,
    verified: bool,
    depositor: Pubkey,
    mint: Pubkey,
    amount: u64,
    bump: u8,
    now: i64,
)
    requires
        c.fee_rate_bps <= MAX_FEE_RATE_BPS,
    ensures
        deposit_outcome(c, vault, stake, verified, depositor, mint, amount, bump, now) matches Ok((v2, s2, fee, net))
            ==> fee + net == amount && fee * 10 <= amount && v2.total_deposits == vault.total_deposits + amount
            && v2.available_balance == vault.available_balance + net && (stake.owner@ == zero_key_bytes()
            ==> s2.total_agro_minted == net) && (stake.owner@ != zero_key_bytes() ==> s2.total_agro_minted
            == stake.total_agro_minted + net) && (stake.deposits.len() <= MAX_STAKE_DEPOSITS
            ==> s2.deposits.len() <= MAX_STAKE_DEPOSITS),
{
    let r = c.fee_rate_bps as int;
    let a = amount as int;
    assert(a * r / 10000 * 10 <= a) by (nonlinear_arith)
        requires 0 <= r <= 1000, a >= 0;
}

/// Sum of the governance tokens minted for a stake account's deposits.
pub open spec fn deposits_total(ds: Seq<TokenDeposit>) -> int
    decreases ds.len(),
{
    if ds.len() == 0 {
        0
    } else {
        deposits_total(ds.drop_last()) + ds.last().agro_minted
    }
}

/// No token is recorded twice among `ds`.
pub open spec fn mints_distinct(ds: Seq<TokenDeposit>) -> bool {
    forall|i: int, j: int| 0 <= i < j < ds.len() ==> (#[trigger] ds[i]).token_mint != (#[trigger] ds[j]).token_mint
}

/// A stake account records each token once, and its minted total is the
/// sum of what its deposits minted.
pub open spec fn stake_consistent(s: StakeAccountView) -> bool {
    &&& mints_distinct(s.deposits)
    &&& deposits_total(s.deposits) == s.total_agro_minted
}

/// Replacing deposit `i` changes the minted sum by the difference.
proof fn lemma_deposits_total_update(ds: Seq<TokenDeposit>, i: int, d: TokenDeposit)
    requires
        0 <= i < ds.len(),
    ensures
        deposits_total(ds.update(i, d)) == deposits_total(ds) - ds[i].agro_minted + d.agro_minted,
    decreases ds.len(),
{
    let u = ds.update(i, d);
    if i == ds.len() - 1 {
        assert(u.drop_last() =~= ds.drop_last());
    } else {
        lemma_deposits_total_update(ds.drop_last(), i, d);
        assert(u.drop_last() =~= ds.drop_last().update(i, d));
    }
}

/// Deposits keep a stake account consistent: each token is recorded once
/// and the minted total is the sum of what the deposits minted (a new
/// stake account starts so).
pub proof fn lemma_stake_accounting(
    c: TreasuryConfig,
    vault: TokenVault,
    stake: StakeAccountView,
    verified: bool,
    depositor: Pubkey,
    mint: Pubkey,
    amount: u64,
    bump: u8,
    now: i64,
)
    requires
        stake.owner@ == zero_key_bytes() || stake_consistent(stake),
    ensures
        deposit_outcome(c, vault, stake, verified, depositor, mint, amount, bump, now) matches Ok((_, s2, _, _))
            ==> stake_consistent(s2),
{
    if let Ok((_, s2, _, net)) = deposit_outcome(c, vault, stake, verified, depositor, mint, amount, bump, now) {
        let ds = stake.deposits;
        let d = TokenDeposit { token_mint: mint, amount, agro_minted: net, timestamp: now };
        assert(staked(stake, depositor, mint, amount, net, bump, now) == Ok::<StakeAccountView, TreasuryError>(s2));
        if stake.owner@ == zero_key_bytes() {
            assert(seq![d].drop_last() =~= Seq::<TokenDeposit>::empty());
            assert(s2.deposits == seq![d]);
            assert(deposits_total(Seq::<TokenDeposit>::empty()) == 0);
            assert(seq![d].last() == d);
            assert(deposits_total(s2.deposits) == net);
            assert(stake_consistent(s2));
        } else {
            match first_deposit_of(ds, mint) {
                Some(i) => {
                    let old_d = ds[i];
                    let new_d = TokenDeposit {
                        amount: (old_d.amount + amount) as u64,
                        agro_minted: (old_d.agro_minted + net) as u64,
                        timestamp: now,
                        ..old_d
                    };
                    assert(is_first_deposit_of(ds, mint, i));
                    lemma_deposits_total_update(ds, i, new_d);
                    assert forall|a: int, b: int| 0 <= a < b < ds.update(i, new_d).len() implies
                        (#[trigger] ds.update(i, new_d)[a]).token_mint != (#[trigger] ds.update(i, new_d)[b]).token_mint by {
                        assert(ds[a].token_mint != ds[b].token_mint);
                    }
                    assert(s2.deposits == ds.update(i, new_d));
                    assert(stake_consistent(s2));
                },
                None => {
                    assert forall|j: int| 0 <= j < ds.len() implies (#[trigger] ds[j]).token_mint != mint by {
                        if ds[j].token_mint == mint {
                            assert forall|k: int| 0 <= k < j implies (#[trigger] ds[k]).token_mint != mint by {
                                assert(ds[k].token_mint != ds[j].token_mint);
                            }
                            assert(is_first_deposit_of(ds, mint, j));
                        }
                    }
                    let ds2 = ds.push(d);
                    assert(ds2.drop_last() =~= ds);
                    assert forall|a: int, b: int| 0 <= a < b < ds2.len() implies
                        (#[trigger] ds2[a]).token_mint != (#[trigger] ds2[b]).token_mint by {
                        if b < ds.len() {
                            assert(ds[a].token_mint != ds[b].token_mint);
                        } else {
                            assert(ds[a].token_mint != mint);
                        }
                    }
                    assert(s2.deposits == ds2);
                    assert(stake_consistent(s2));
                },
            }
        }
    }
}

/// Sum of the amounts of funding sources.
pub open spec fn sources_total(s: Seq<FundingSource>) -> int
    decreases s.len(),
{
    if s.len() == 0 {
        0
    } else {
        sources_total(s.drop_last()) + s.last().amount
    }
}

/// Sum of the amounts of milestone payouts.
pub open spec fn distributions_total(ds: Seq<MilestoneDistribution>) -> int
    decreases ds.len(),
{
    if ds.len() == 0 {
        0
    } else {
        distributions_total(ds.drop_last()) + ds.last().amount_distributed
    }
}

/// The committed total of a funding record is the sum of its sources.
pub open spec fn funding_consistent(pf: ProposalFundingView) -> bool {
    pf.total_committed == sources_total(pf.funding_sources)
}

/// Funding keeps the committed total equal to the sum of the sources (a
/// new record starts so), never exceeds twenty sources, and leaves the
/// payouts alone (a new record starts with none, and nothing paid out).
pub proof fn lemma_funding_keeps_total(
    pf: ProposalFundingView,
    proposal_id: Seq<char>,
    amount: u64,
    stakeholder: Pubkey,
    agro_mint: Pubkey,
    research_program: Pubkey,
    research_proposal: Pubkey,
    bump: u8,
    now: i64,
)
    requires
        pf.proposal_id.len() == 0 || funding_consistent(pf),
    ensures
        funded(pf, proposal_id, amount, stakeholder, agro_mint, research_program, research_proposal, bump, now)
            matches Ok(pf2) ==> funding_consistent(pf2) && pf2.funding_sources.len() <= MAX_FUNDING_SOURCES
            && pf2.total_distributed == (if pf.proposal_id.len() == 0 { 0 } else { pf.total_distributed })
            && pf2.milestone_distributions == (if pf.proposal_id.len() == 0 {
                Seq::<MilestoneDistribution>::empty()
            } else {
                pf.milestone_distributions
            }) && (pf.proposal_id.len() == 0 ==> distributions_total(pf2.milestone_distributions)
            == pf2.total_distributed),
{
    let source = FundingSource { stakeholder, token_mint: agro_mint, amount, agro_burned: amount, timestamp: now };
    assert(seq![source].drop_last() =~= Seq::<FundingSource>::empty());
    assert(sources_total(Seq::<FundingSource>::empty()) == 0);
    assert(sources_total(seq![source]) == amount);
    assert(pf.funding_sources.push(source).drop_last() =~= pf.funding_sources);
    assert(sources_total(pf.funding_sources.push(source)) == sources_total(pf.funding_sources) + amount);
    assert(distributions_total(Seq::<MilestoneDistribution>::empty()) == 0);
}

/// A payout keeps what is paid out within what was committed, takes
/// exactly the amount from the vault, pays each milestone at most once,
/// never leaves more than ten payouts recorded, and keeps the total paid
/// out equal to the sum of the recorded payouts.
pub proof fn lemma_distribution_accounting(d: DistributeProposalFunds, milestone_index: u8, amount: u64, now: i64)
    requires
        distribution_error(d, milestone_index, amount) is None,
    ensures
        ({
            let pf = d.proposal_funding@;
            let distributed = pf.total_distributed + amount;
            let ds2 = pf.milestone_distributions.push(MilestoneDistribution {
                milestone_index,
                amount_distributed: amount,
                token_mint: d.distribution_token_mint,
                recipient: d.recipient,
                distributed_at: now,
            });
            &&& distributed <= pf.total_committed
            &&& amount <= d.token_vault.available_balance
            &&& !already_distributed(pf.milestone_distributions, milestone_index)
            &&& already_distributed(ds2, milestone_index)
            &&& ds2.len() <= MAX_MILESTONE_DISTRIBUTIONS
            &&& distributions_total(pf.milestone_distributions) == pf.total_distributed
                ==> distributions_total(ds2) == distributed
        }),
{
    let pf = d.proposal_funding@;
    let ds2 = pf.milestone_distributions.push(MilestoneDistribution {
        milestone_index,
        amount_distributed: amount,
        token_mint: d.distribution_token_mint,
        recipient: d.recipient,
        distributed_at: now,
    });
    assert(ds2[pf.milestone_distributions.len() as int].milestone_index == milestone_index);
    assert(ds2.drop_last() =~= pf.milestone_distributions);
}

/// Each milestone is paid at most once: a payout for a milestone that any
/// recorded payout (at any position) already covers is refused, and an
/// accepted payout keeps the recorded milestone indices pairwise distinct.
pub proof fn lemma_milestone_paid_once(d: DistributeProposalFunds, milestone_index: u8, amount: u64, now: i64)
    ensures
        forall|j: int|
            0 <= j < d.proposal_funding.milestone_distributions@.len()
                && (#[trigger] d.proposal_funding.milestone_distributions@[j]).milestone_index == milestone_index
                ==> distribution_error(d, milestone_index, amount) is Some,
        ({
            let ds = d.proposal_funding.milestone_distributions@;
            let ds2 = ds.push(MilestoneDistribution {
                milestone_index,
                amount_distributed: amount,
                token_mint: d.distribution_token_mint,
                recipient: d.recipient,
                distributed_at: now,
            });
            (forall|a: int, b: int| 0 <= a < b < ds.len() ==> (#[trigger] ds[a]).milestone_index
                != (#[trigger] ds[b]).milestone_index) && distribution_error(d, milestone_index, amount) is None
                ==> forall|a: int, b: int| 0 <= a < b < ds2.len() ==> (#[trigger] ds2[a]).milestone_index
                != (#[trigger] ds2[b]).milestone_index
        }),
{
    let ds = d.proposal_funding.milestone_distributions@;
    let ds2 = ds.push(MilestoneDistribution {
        milestone_index,
        amount_distributed: amount,
        token_mint: d.distribution_token_mint,
        recipient: d.recipient,
        distributed_at: now,
    });
    if distribution_error(d, milestone_index, amount) is None {
        assert forall|a: int, b: int| 0 <= a < b < ds2.len() && (forall|x: int, y: int| 0 <= x < y < ds.len()
            ==> (#[trigger] ds[x]).milestone_index != (#[trigger] ds[y]).milestone_index) implies
            (#[trigger] ds2[a]).milestone_index != (#[trigger] ds2[b]).milestone_index by {
            if b == ds.len() {
                assert(ds[a].milestone_index != milestone_index);
            } else {
                assert(ds[a].milestone_index != ds[b].milestone_index);
            }
        }
    }
}

/// Pausing, then unpausing at least an hour later, gives back the
/// configuration as it was before the pause (when it carried no pause
/// timestamp).
pub proof fn lemma_pause_unpause_roundtrip(c: TreasuryConfig, authority: Pubkey, t1: i64, t2: i64)
    requires
        c.emergency_pause_timestamp == 0,
        t2 - t1 >= MIN_PAUSE_SECONDS,
        pause_outcome(c, authority, t1) is Ok,
    ensures
        pause_outcome(c, authority, t1) matches Ok(c1) && unpause_outcome(c1, authority, t2) == Ok::<TreasuryConfig, TreasuryError>(c),
{
}

} // verus!
