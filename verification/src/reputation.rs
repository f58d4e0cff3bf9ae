//! Reputation program: per-user reputation scores, tiers derived from
//! configurable thresholds, and the instructions that move scores.

use vstd::prelude::*;
use crate::pubkey::Pubkey;

verus! {

/// Lowest score a user can be brought to.
pub const MIN_REPUTATION_SCORE: i64 = -1000;
/// Highest score a user can be brought to.
pub const MAX_REPUTATION_SCORE: i64 = 10000;

pub const MILESTONE_SUCCESS_BONUS: i64 = 100;
pub const MILESTONE_FAILURE_PENALTY: i64 = -50;
pub const PROJECT_COMPLETION_BONUS: i64 = 200;
pub const PROJECT_ABANDONMENT_PENALTY: i64 = -100;
pub const PEER_REVIEW_BONUS: i64 = 25;
pub const DISPUTE_RESOLUTION_PENALTY: i64 = -75;

pub const DEFAULT_BRONZE_THRESHOLD: u64 = 100;
pub const DEFAULT_SILVER_THRESHOLD: u64 = 500;
pub const DEFAULT_GOLD_THRESHOLD: u64 = 1500;
pub const DEFAULT_PLATINUM_THRESHOLD: u64 = 3000;
pub const DEFAULT_DIAMOND_THRESHOLD: u64 = 5000;

/// Errors of the reputation program.
#[derive(Debug, Clone, Copy, PartialEq, Eq, Structural)]
pub enum ReputationError {
    SystemNotActive,
    Unauthorized,
    InvalidReputationScore,
    UserReputationNotFound,
    InvalidTierThreshold,
    ReputationOverflow,
    ReputationUnderflow,
    InvalidEventType,
    ZeroReputationChange,
    UserNotInitialized,
    ArithmeticOverflow,
    AlreadyAtMinimum,
}

/// What happened to a user, and so how their score moves.
#[derive(Debug, Clone, Copy, PartialEq, Eq, Structural)]
pub enum ReputationEvent {
    MilestoneCompleted,
    MilestoneFailed,
    ProjectCompleted,
    ProjectAbandoned,
    PeerReviewPositive,
    DisputeResolved,
    Custom(i64),
}

/// The score change attached to an event.
pub open spec fn event_delta(e: ReputationEvent) -> i64 {
    match e {
        ReputationEvent::MilestoneCompleted => MILESTONE_SUCCESS_BONUS,
        ReputationEvent::MilestoneFailed => MILESTONE_FAILURE_PENALTY,
        ReputationEvent::ProjectCompleted => PROJECT_COMPLETION_BONUS,
        ReputationEvent::ProjectAbandoned => PROJECT_ABANDONMENT_PENALTY,
        ReputationEvent::PeerReviewPositive => PEER_REVIEW_BONUS,
        ReputationEvent::DisputeResolved => DISPUTE_RESOLUTION_PENALTY,
        ReputationEvent::Custom(amount) => amount,
    }
}

impl ReputationEvent {
    /// The score change attached to this event.
    pub fn get_score_delta(&self) -> (delta: i64)
        ensures
            delta == event_delta(*self),
    {
        match self {
            ReputationEvent::MilestoneCompleted => MILESTONE_SUCCESS_BONUS,
            ReputationEvent::MilestoneFailed => MILESTONE_FAILURE_PENALTY,
            ReputationEvent::ProjectCompleted => PROJECT_COMPLETION_BONUS,
            ReputationEvent::ProjectAbandoned => PROJECT_ABANDONMENT_PENALTY,
            ReputationEvent::PeerReviewPositive => PEER_REVIEW_BONUS,
            ReputationEvent::DisputeResolved => DISPUTE_RESOLUTION_PENALTY,
            ReputationEvent::Custom(amount) => *amount,
        }
    }
}

/// Reputation tiers, from lowest to highest.
#[derive(Debug, Clone, Copy, PartialEq, Eq, Structural)]
pub enum ReputationTier {
    Unranked,
    Bronze,
    Silver,
    Gold,
    Platinum,
    Diamond,
}

/// Position of a tier in the ladder (`Unranked` is 0, `Diamond` is 5).
pub open spec fn tier_rank(t: ReputationTier) -> int {
    match t {
        ReputationTier::Unranked => 0,
        ReputationTier::Bronze => 1,
        ReputationTier::Silver => 2,
        ReputationTier::Gold => 3,
        ReputationTier::Platinum => 4,
        ReputationTier::Diamond => 5,
    }
}

/// Global configuration of the reputation program.
#[derive(Debug, Clone, Copy, PartialEq, Eq, Structural)]
pub struct ReputationConfig {
    pub bump: u8,
    pub authority: Pubkey,
    pub tier_threshold_bronze: u64,
    pub tier_threshold_silver: u64,
    pub tier_threshold_gold: u64,
    pub tier_threshold_platinum: u64,
    pub tier_threshold_diamond: u64,
    pub is_active: bool,
    pub created_at: i64,
    pub updated_at: i64,
}

/// The tier thresholds strictly increase from bronze to diamond.
pub open spec fn thresholds_ascending(c: ReputationConfig) -> bool {
    &&& c.tier_threshold_bronze < c.tier_threshold_silver
    &&& c.tier_threshold_silver < c.tier_threshold_gold
    &&& c.tier_threshold_gold < c.tier_threshold_platinum
    &&& c.tier_threshold_platinum < c.tier_threshold_diamond
}

/// The highest tier whose threshold `score` reaches; `Unranked` for negative
/// scores.
pub open spec fn tier_for(score: i64, c: ReputationConfig) -> ReputationTier {
    if score < 0 {
        ReputationTier::Unranked
    } else if score >= c.tier_threshold_diamond {
        ReputationTier::Diamond
    } else if score >= c.tier_threshold_platinum {
        ReputationTier::Platinum
    } else if score >= c.tier_threshold_gold {
        ReputationTier::Gold
    } else if score >= c.tier_threshold_silver {
        ReputationTier::Silver
    } else if score >= c.tier_threshold_bronze {
        ReputationTier::Bronze
    } else {
        ReputationTier::Unranked
    }
}

/// Whether `score` qualifies for `target` under `c`.
pub open spec fn eligible_for(score: i64, target: ReputationTier, c: ReputationConfig) -> bool {
    if score < 0 {
        false
    } else {
        match target {
            ReputationTier::Unranked => true,
            ReputationTier::Bronze => score >= c.tier_threshold_bronze,
            ReputationTier::Silver => score >= c.tier_threshold_silver,
            ReputationTier::Gold => score >= c.tier_threshold_gold,
            ReputationTier::Platinum => score >= c.tier_threshold_platinum,
            ReputationTier::Diamond => score >= c.tier_threshold_diamond,
        }
    }
}

impl ReputationTier {
    /// The tier that `score` earns under `config`.
    pub fn from_score(score: i64, config: &ReputationConfig) -> (tier: ReputationTier)
        ensures
            tier == tier_for(score, *config),
    {
        if score < 0 {
            return ReputationTier::Unranked;
        }
        let score_u64 = score as u64;
        if score_u64 >= config.tier_threshold_diamond {
            ReputationTier::Diamond
        } else if score_u64 >= config.tier_threshold_platinum {
            ReputationTier::Platinum
        } else if score_u64 >= config.tier_threshold_gold {
            ReputationTier::Gold
        } else if score_u64 >= config.tier_threshold_silver {
            ReputationTier::Silver
        } else if score_u64 >= config.tier_threshold_bronze {
            ReputationTier::Bronze
        } else {
            ReputationTier::Unranked
        }
    }
}

/// A user's reputation record.
#[derive(Debug, Clone, Copy, PartialEq, Eq, Structural)]
pub struct UserReputation {
    pub bump: u8,
    pub user: Pubkey,
    pub reputation_score: i64,
    pub events_count: u64,
    pub last_event_ts: i64,
    pub created_at: i64,
    pub tier: ReputationTier,
}

/// |x| as a mathematical integer.
pub open spec fn abs_int(x: i64) -> int {
    if x < 0 { -x } else { x as int }
}

/// `x` brought into `[MIN_REPUTATION_SCORE, MAX_REPUTATION_SCORE]`.
pub open spec fn clamp_score(x: int) -> int {
    if x < MIN_REPUTATION_SCORE {
        MIN_REPUTATION_SCORE as int
    } else if x > MAX_REPUTATION_SCORE {
        MAX_REPUTATION_SCORE as int
    } else {
        x
    }
}

/// |x| for any `x` but `i64::MIN`.
fn abs_i64(x: i64) -> (r: i64)
    requires
        x != i64::MIN,
    ensures
        r == abs_int(x),
{
    if x < 0 { -x } else { x }
}

/// `a - b` for `b >= 0`, held at `i64::MIN` where it would fall below.
fn saturating_sub_nonneg(a: i64, b: i64) -> (r: i64)
    requires
        b >= 0,
    ensures
        r == (if a - b < i64::MIN { i64::MIN as int } else { a - b }),
{
    match a.checked_sub(b) {
        Some(v) => v,
        None => i64::MIN,
    }
}

/// `a + b` for `b >= 0`, held at `i64::MAX` where it would rise above.
fn saturating_add_nonneg(a: i64, b: i64) -> (r: i64)
    requires
        b >= 0,
    ensures
        r == (if a + b > i64::MAX { i64::MAX as int } else { a + b }),
{
    match a.checked_add(b) {
        Some(v) => v,
        None => i64::MAX,
    }
}

impl UserReputation {
    /// Recomputes the stored tier from the stored score.
    pub fn update_tier(&mut self, config: &ReputationConfig)
        ensures
            *final(self) == (UserReputation { tier: tier_for(old(self).reputation_score, *config), ..*old(self) }),
    {
        self.tier = ReputationTier::from_score(self.reputation_score, config);
    }

    /// Whether lowering the score by `|amount|` keeps it at or above the minimum.
    pub fn can_decrease_reputation(&self, amount: i64) -> (ok: bool)
        requires
            amount != i64::MIN,
        ensures
            ok == (self.reputation_score - abs_int(amount) >= MIN_REPUTATION_SCORE),
    {
        let new_score = saturating_sub_nonneg(self.reputation_score, abs_i64(amount));
        new_score >= MIN_REPUTATION_SCORE
    }

    /// Whether raising the score by `|amount|` keeps it at or below the maximum.
    pub fn can_increase_reputation(&self, amount: i64) -> (ok: bool)
        requires
            amount != i64::MIN,
        ensures
            ok == (self.reputation_score + abs_int(amount) <= MAX_REPUTATION_SCORE),
    {
        let new_score = saturating_add_nonneg(self.reputation_score, abs_i64(amount));
        new_score <= MAX_REPUTATION_SCORE
    }
}


/// Why a user is being penalised.
#[derive(Debug, Clone, Copy, PartialEq, Eq, Structural)]
pub enum FailureType {
    MissedDeadline,
    ProjectAbandonment,
    DisputeResolution,
    Custom,
}

/// A user's reputation as reported to other programs.
#[derive(Debug, Clone, Copy, PartialEq, Eq, Structural)]
pub struct ReputationData {
    pub user: Pubkey,
    pub reputation_score: i64,
    pub tier: ReputationTier,
    pub events_count: u64,
    pub last_event_ts: i64,
    pub created_at: i64,
}

/// The five tier thresholds.
#[derive(Debug, Clone, Copy, PartialEq, Eq, Structural)]
pub struct TierInfo {
    pub bronze_threshold: u64,
    pub silver_threshold: u64,
    pub gold_threshold: u64,
    pub platinum_threshold: u64,
    pub diamond_threshold: u64,
}

/// Emitted when the configuration is created.
#[derive(Debug, Clone, Copy, PartialEq, Eq)]
pub struct ReputationConfigInitialized {
    pub authority: Pubkey,
    pub tier_thresholds: [u64; 5],
    pub timestamp: i64,
}

/// Emitted when a user's record is created.
#[derive(Debug, Clone, Copy, PartialEq, Eq, Structural)]
pub struct UserReputationInitialized {
    pub user: Pubkey,
    pub timestamp: i64,
}

/// Emitted when a score moves through `update_reputation`.
#[derive(Debug, Clone, Copy, PartialEq, Eq, Structural)]
pub struct ReputationUpdated {
    pub user: Pubkey,
    pub authority: Pubkey,
    pub event_type: ReputationEvent,
    pub old_score: i64,
    pub new_score: i64,
    pub old_tier: ReputationTier,
    pub new_tier: ReputationTier,
    pub timestamp: i64,
}

/// Emitted when a score is lowered through `decrease_reputation_on_failure`.
#[derive(Debug, Clone, Copy, PartialEq, Eq, Structural)]
pub struct ReputationDecreased {
    pub user: Pubkey,
    pub authority: Pubkey,
    pub failure_type: FailureType,
    pub penalty_amount: i64,
    pub old_score: i64,
    pub new_score: i64,
    pub old_tier: ReputationTier,
    pub new_tier: ReputationTier,
    pub timestamp: i64,
}

/// `opt` or, when absent, `default`.
pub open spec fn or_default(opt: Option<u64>, default: u64) -> u64 {
    match opt {
        Some(v) => v,
        None => default,
    }
}

/// The configuration the initialization builds from its arguments.
pub open spec fn initial_config(
    authority: Pubkey,
    bump: u8,
    bronze: u64,
    silver: u64,
    gold: u64,
    platinum: u64,
    diamond: u64,
    now: i64,
) -> ReputationConfig {
    ReputationConfig {
        bump,
        authority,
        tier_threshold_bronze: bronze,
        tier_threshold_silver: silver,
        tier_threshold_gold: gold,
        tier_threshold_platinum: platinum,
        tier_threshold_diamond: diamond,
        is_active: true,
        created_at: now,
        updated_at: now,
    }
}

/// Accounts of the configuration initialization: the paying authority.
pub struct InitializeReputationConfig {
    pub authority: Pubkey,
}

impl InitializeReputationConfig {
    /// Creates the configuration, taking the default for each threshold not
    /// given; refuses thresholds that do not strictly increase.
    pub fn initialize_reputation_config(
        &self,
        bump: u8,
        tier_threshold_bronze: Option<u64>,
        tier_threshold_silver: Option<u64>,
        tier_threshold_gold: Option<u64>,
        tier_threshold_platinum: Option<u64>,
        tier_threshold_diamond: Option<u64>,
        now: i64,
    ) -> (res: Result<(ReputationConfig, ReputationConfigInitialized), ReputationError>)
        ensures
            ({
                let b = or_default(tier_threshold_bronze, DEFAULT_BRONZE_THRESHOLD);
                let s = or_default(tier_threshold_silver, DEFAULT_SILVER_THRESHOLD);
                let g = or_default(tier_threshold_gold, DEFAULT_GOLD_THRESHOLD);
                let p = or_default(tier_threshold_platinum, DEFAULT_PLATINUM_THRESHOLD);
                let d = or_default(tier_threshold_diamond, DEFAULT_DIAMOND_THRESHOLD);
                let cfg = initial_config(self.authority, bump, b, s, g, p, d, now);
                if thresholds_ascending(cfg) {
                    res matches Ok((c, ev)) && c == cfg && ev.authority == self.authority
                        && ev.tier_thresholds@ == seq![b, s, g, p, d] && ev.timestamp == now
                } else {
                    res == Err::<(ReputationConfig, ReputationConfigInitialized), ReputationError>(
                        ReputationError::InvalidTierThreshold,
                    )
                }
            }),
    {
        let bronze = match tier_threshold_bronze { Some(v) => v, None => DEFAULT_BRONZE_THRESHOLD };
        let silver = match tier_threshold_silver { Some(v) => v, None => DEFAULT_SILVER_THRESHOLD };
        let gold = match tier_threshold_gold { Some(v) => v, None => DEFAULT_GOLD_THRESHOLD };
        let platinum = match tier_threshold_platinum { Some(v) => v, None => DEFAULT_PLATINUM_THRESHOLD };
        let diamond = match tier_threshold_diamond { Some(v) => v, None => DEFAULT_DIAMOND_THRESHOLD };
        if !(bronze < silver && silver < gold && gold < platinum && platinum < diamond) {
            return Err(ReputationError::InvalidTierThreshold);
        }
        let config = ReputationConfig {
            bump,
            authority: self.authority,
            tier_threshold_bronze: bronze,
            tier_threshold_silver: silver,
            tier_threshold_gold: gold,
            tier_threshold_platinum: platinum,
            tier_threshold_diamond: diamond,
            is_active: true,
            created_at: now,
            updated_at: now,
        };
        let event = ReputationConfigInitialized {
            authority: self.authority,
            tier_thresholds: [bronze, silver, gold, platinum, diamond],
            timestamp: now,
        };
        Ok((config, event))
    }
}

/// Accounts of a user record initialization: the user it is for.
pub struct InitializeUserReputation {
    pub user: Pubkey,
}

impl InitializeUserReputation {
    /// Creates a user's record with score 0 and no tier.
    pub fn initialize_user_reputation(&self, bump: u8, now: i64) -> (res: (UserReputation, UserReputationInitialized))
        ensures
            res.0 == (UserReputation {
                bump,
                user: self.user,
                reputation_score: 0,
                events_count: 0,
                last_event_ts: now,
                created_at: now,
                tier: ReputationTier::Unranked,
            }),
            res.1 == (UserReputationInitialized { user: self.user, timestamp: now }),
    {
        (
            UserReputation {
                bump,
                user: self.user,
                reputation_score: 0,
                events_count: 0,
                last_event_ts: now,
                created_at: now,
                tier: ReputationTier::Unranked,
            },
            UserReputationInitialized { user: self.user, timestamp: now },
        )
    }
}

/// The score change requested: the event's own delta, or for a custom event
/// the separately given amount.
pub open spec fn requested_delta(event_type: ReputationEvent, custom_amount: Option<i64>) -> Option<i64> {
    match event_type {
        ReputationEvent::Custom(_) => custom_amount,
        _ => Some(event_delta(event_type)),
    }
}

/// The outcome of applying `delta` to `r` under `c` at `now`: the refusal,
/// or the record afterwards.
pub open spec fn apply_delta(r: UserReputation, c: ReputationConfig, delta: i64, now: i64) -> Result<UserReputation, ReputationError> {
    if delta == 0 {
        Err(ReputationError::ZeroReputationChange)
    } else if delta > 0 && r.reputation_score + delta > MAX_REPUTATION_SCORE {
        Err(ReputationError::ReputationOverflow)
    } else if delta < 0 && r.reputation_score + delta < MIN_REPUTATION_SCORE {
        Err(ReputationError::ReputationUnderflow)
    } else if r.events_count == u64::MAX {
        Err(ReputationError::ArithmeticOverflow)
    } else {
        let score = clamp_score(r.reputation_score + delta) as i64;
        Ok(UserReputation {
            reputation_score: score,
            tier: tier_for(score, c),
            events_count: (r.events_count + 1) as u64,
            last_event_ts: now,
            ..r
        })
    }
}

/// The user's record after an update, refused or not: unchanged when the
/// update is refused.
pub open spec fn record_after_update(
    r: UserReputation,
    c: ReputationConfig,
    event_type: ReputationEvent,
    custom_amount: Option<i64>,
    now: i64,
) -> UserReputation {
    if !c.is_active {
        r
    } else {
        match requested_delta(event_type, custom_amount) {
            None => r,
            Some(d) => match apply_delta(r, c, d, now) {
                Ok(r2) => r2,
                Err(_) => r,
            },
        }
    }
}

/// Accounts of a score update.
pub struct UpdateReputation {
    pub reputation_config: ReputationConfig,
    pub user_reputation: UserReputation,
    pub authority: Pubkey,
}

impl UpdateReputation {
    /// Moves the user's score by the event's delta (or `custom_amount` for a
    /// custom event), keeping it within bounds, and recomputes the tier.
    /// Leaves the accounts unchanged when it refuses.
    pub fn update_reputation(
        &mut self,
        user: Pubkey,
        event_type: ReputationEvent,
        custom_amount: Option<i64>,
        now: i64,
    ) -> (res: Result<ReputationUpdated, ReputationError>)
        requires
            requested_delta(event_type, custom_amount) != Some(i64::MIN),
        ensures
            final(self).reputation_config == old(self).reputation_config,
            final(self).authority == old(self).authority,
            final(self).user_reputation == record_after_update(
                old(self).user_reputation,
                old(self).reputation_config,
                event_type,
                custom_amount,
                now,
            ),
            ({
                let r = old(self).user_reputation;
                match requested_delta(event_type, custom_amount) {
                    _ if !old(self).reputation_config.is_active => res == Err::<ReputationUpdated, ReputationError>(
                        ReputationError::SystemNotActive,
                    ) && final(self).user_reputation == r,
                    None => res == Err::<ReputationUpdated, ReputationError>(ReputationError::InvalidEventType)
                        && final(self).user_reputation == r,
                    Some(d) => match apply_delta(r, old(self).reputation_config, d, now) {
                        Err(e) => res == Err::<ReputationUpdated, ReputationError>(e)
                            && final(self).user_reputation == r,
                        Ok(r2) => final(self).user_reputation == r2 && res == Ok::<ReputationUpdated, ReputationError>(
                            ReputationUpdated {
                                user,
                                authority: old(self).authority,
                                event_type,
                                old_score: r.reputation_score,
                                new_score: r2.reputation_score,
                                old_tier: r.tier,
                                new_tier: r2.tier,
                                timestamp: now,
                            },
                        ),
                    },
                }
            }),
    {
        if !self.reputation_config.is_active {
            return Err(ReputationError::SystemNotActive);
        }
        let delta = match event_type {
            ReputationEvent::Custom(_) => match custom_amount {
                Some(v) => v,
                None => { return Err(ReputationError::InvalidEventType); },
            },
            _ => event_type.get_score_delta(),
        };
        if delta > 0 {
            if !self.user_reputation.can_increase_reputation(delta) {
                return Err(ReputationError::ReputationOverflow);
            }
        } else if delta < 0 {
            if !self.user_reputation.can_decrease_reputation(delta) {
                return Err(ReputationError::ReputationUnderflow);
            }
        } else {
            return Err(ReputationError::ZeroReputationChange);
        }
        if self.user_reputation.events_count == u64::MAX {
            return Err(ReputationError::ArithmeticOverflow);
        }
        let old_score = self.user_reputation.reputation_score;
        let old_tier = self.user_reputation.tier;
        let moved = if delta > 0 {
            saturating_add_nonneg(old_score, delta)
        } else {
            saturating_sub_nonneg(old_score, abs_i64(delta))
        };
        let bounded = moved.max(MIN_REPUTATION_SCORE).min(MAX_REPUTATION_SCORE);
        self.user_reputation.reputation_score = bounded;
        self.user_reputation.update_tier(&self.reputation_config);
        self.user_reputation.events_count = self.user_reputation.events_count + 1;
        self.user_reputation.last_event_ts = now;
        Ok(ReputationUpdated {
            user,
            authority: self.authority,
            event_type,
            old_score,
            new_score: self.user_reputation.reputation_score,
            old_tier,
            new_tier: self.user_reputation.tier,
            timestamp: now,
        })
    }
}

/// The penalty a failure carries; for a custom failure, the given penalty
/// if it is negative.
pub open spec fn failure_penalty(failure_type: FailureType, custom_penalty: Option<i64>) -> Option<i64> {
    match failure_type {
        FailureType::MissedDeadline => Some(MILESTONE_FAILURE_PENALTY),
        FailureType::ProjectAbandonment => Some(PROJECT_ABANDONMENT_PENALTY),
        FailureType::DisputeResolution => Some(DISPUTE_RESOLUTION_PENALTY),
        FailureType::Custom => match custom_penalty {
            Some(p) => if p < 0 { Some(p) } else { None },
            None => None,
        },
    }
}

/// The outcome of a penalty `p` (negative) on `r` under `c` at `now`: the
/// refusal, or the record afterwards.
pub open spec fn apply_penalty(r: UserReputation, c: ReputationConfig, p: i64, now: i64) -> Result<UserReputation, ReputationError> {
    if r.reputation_score <= MIN_REPUTATION_SCORE {
        Err(ReputationError::AlreadyAtMinimum)
    } else if r.reputation_score + p < MIN_REPUTATION_SCORE {
        Err(ReputationError::ReputationUnderflow)
    } else if r.events_count == u64::MAX {
        Err(ReputationError::ArithmeticOverflow)
    } else {
        let score = (r.reputation_score + p) as i64;
        Ok(UserReputation {
            reputation_score: score,
            tier: tier_for(score, c),
            events_count: (r.events_count + 1) as u64,
            last_event_ts: now,
            ..r
        })
    }
}

/// The user's record after a failure penalty, refused or not: unchanged
/// when the penalty is refused.
pub open spec fn record_after_penalty(
    r: UserReputation,
    c: ReputationConfig,
    failure_type: FailureType,
    custom_penalty: Option<i64>,
    now: i64,
) -> UserReputation {
    if !c.is_active {
        r
    } else {
        match failure_penalty(failure_type, custom_penalty) {
            None => r,
            Some(p) => match apply_penalty(r, c, p, now) {
                Ok(r2) => r2,
                Err(_) => r,
            },
        }
    }
}

/// Accounts of a failure penalty.
pub struct DecreaseReputationOnFailure {
    pub reputation_config: ReputationConfig,
    pub user_reputation: UserReputation,
    pub authority: Pubkey,
}

impl DecreaseReputationOnFailure {
    /// Lowers the user's score by the failure's penalty and recomputes the
    /// tier. Leaves the accounts unchanged when it refuses.
    pub fn decrease_reputation_on_failure(
        &mut self,
        user: Pubkey,
        failure_type: FailureType,
        custom_penalty: Option<i64>,
        now: i64,
    ) -> (res: Result<ReputationDecreased, ReputationError>)
        requires
            failure_penalty(failure_type, custom_penalty) == Some(i64::MIN) ==> !(
            old(self).reputation_config.is_active && old(self).user_reputation.reputation_score
                > MIN_REPUTATION_SCORE),
        ensures
            final(self).reputation_config == old(self).reputation_config,
            final(self).authority == old(self).authority,
            final(self).user_reputation == record_after_penalty(
                old(self).user_reputation,
                old(self).reputation_config,
                failure_type,
                custom_penalty,
                now,
            ),
            ({
                let r = old(self).user_reputation;
                let c = old(self).reputation_config;
                match failure_penalty(failure_type, custom_penalty) {
                    _ if !c.is_active => res == Err::<ReputationDecreased, ReputationError>(
                        ReputationError::SystemNotActive,
                    ) && final(self).user_reputation == r,
                    None => res == Err::<ReputationDecreased, ReputationError>(
                        ReputationError::InvalidEventType,
                    ) && final(self).user_reputation == r,
                    Some(p) => match apply_penalty(r, c, p, now) {
                        Err(e) => res == Err::<ReputationDecreased, ReputationError>(e)
                            && final(self).user_reputation == r,
                        Ok(r2) => final(self).user_reputation == r2 && res == Ok::<ReputationDecreased, ReputationError>(
                            ReputationDecreased {
                                user,
                                authority: old(self).authority,
                                failure_type,
                                penalty_amount: p,
                                old_score: r.reputation_score,
                                new_score: r2.reputation_score,
                                old_tier: r.tier,
                                new_tier: r2.tier,
                                timestamp: now,
                            },
                        ),
                    },
                }
            }),
    {
        if !self.reputation_config.is_active {
            return Err(ReputationError::SystemNotActive);
        }
        let penalty = match failure_type {
            FailureType::MissedDeadline => MILESTONE_FAILURE_PENALTY,
            FailureType::ProjectAbandonment => PROJECT_ABANDONMENT_PENALTY,
            FailureType::DisputeResolution => DISPUTE_RESOLUTION_PENALTY,
            FailureType::Custom => match custom_penalty {
                Some(p) => {
                    if p < 0 {
                        p
                    } else {
                        return Err(ReputationError::InvalidEventType);
                    }
                },
                None => { return Err(ReputationError::InvalidEventType); },
            },
        };
        if self.user_reputation.reputation_score <= MIN_REPUTATION_SCORE {
            return Err(ReputationError::AlreadyAtMinimum);
        }
        if !self.user_reputation.can_decrease_reputation(penalty) {
            return Err(ReputationError::ReputationUnderflow);
        }
        if self.user_reputation.events_count == u64::MAX {
            return Err(ReputationError::ArithmeticOverflow);
        }
        let old_score = self.user_reputation.reputation_score;
        let old_tier = self.user_reputation.tier;
        let lowered = saturating_sub_nonneg(old_score, abs_i64(penalty));
        self.user_reputation.reputation_score = lowered.max(MIN_REPUTATION_SCORE);
        self.user_reputation.update_tier(&self.reputation_config);
        self.user_reputation.events_count = self.user_reputation.events_count + 1;
        self.user_reputation.last_event_ts = now;
        Ok(ReputationDecreased {
            user,
            authority: self.authority,
            failure_type,
            penalty_amount: penalty,
            old_score,
            new_score: self.user_reputation.reputation_score,
            old_tier,
            new_tier: self.user_reputation.tier,
            timestamp: now,
        })
    }
}

/// Accounts read by the reputation queries.
pub struct GetReputation {
    pub reputation_config: ReputationConfig,
    pub user_reputation: UserReputation,
}

impl GetReputation {
    /// The user's reputation, when the system is active and the record is
    /// the user's.
    pub fn get_reputation(&self, user: Pubkey) -> (res: Result<ReputationData, ReputationError>)
        ensures
            res == (if !self.reputation_config.is_active {
                Err(ReputationError::SystemNotActive)
            } else if self.user_reputation.user != user {
                Err(ReputationError::UserReputationNotFound)
            } else {
                Ok(ReputationData {
                    user,
                    reputation_score: self.user_reputation.reputation_score,
                    tier: self.user_reputation.tier,
                    events_count: self.user_reputation.events_count,
                    last_event_ts: self.user_reputation.last_event_ts,
                    created_at: self.user_reputation.created_at,
                })
            }),
    {
        if !self.reputation_config.is_active {
            return Err(ReputationError::SystemNotActive);
        }
        if self.user_reputation.user != user {
            return Err(ReputationError::UserReputationNotFound);
        }
        Ok(ReputationData {
            user,
            reputation_score: self.user_reputation.reputation_score,
            tier: self.user_reputation.tier,
            events_count: self.user_reputation.events_count,
            last_event_ts: self.user_reputation.last_event_ts,
            created_at: self.user_reputation.created_at,
        })
    }

    /// The five tier thresholds, when the system is active.
    pub fn get_tier_info(&self) -> (res: Result<TierInfo, ReputationError>)
        ensures
            res == (if !self.reputation_config.is_active {
                Err(ReputationError::SystemNotActive)
            } else {
                Ok(TierInfo {
                    bronze_threshold: self.reputation_config.tier_threshold_bronze,
                    silver_threshold: self.reputation_config.tier_threshold_silver,
                    gold_threshold: self.reputation_config.tier_threshold_gold,
                    platinum_threshold: self.reputation_config.tier_threshold_platinum,
                    diamond_threshold: self.reputation_config.tier_threshold_diamond,
                })
            }),
    {
        if !self.reputation_config.is_active {
            return Err(ReputationError::SystemNotActive);
        }
        Ok(TierInfo {
            bronze_threshold: self.reputation_config.tier_threshold_bronze,
            silver_threshold: self.reputation_config.tier_threshold_silver,
            gold_threshold: self.reputation_config.tier_threshold_gold,
            platinum_threshold: self.reputation_config.tier_threshold_platinum,
            diamond_threshold: self.reputation_config.tier_threshold_diamond,
        })
    }

    /// Whether the user's score reaches `target_tier` (a negative score
    /// reaches none); the record must be the user's.
    pub fn check_tier_eligibility(&self, user: Pubkey, target_tier: ReputationTier) -> (res: Result<bool, ReputationError>)
        ensures
            res == (if self.user_reputation.user != user {
                Err(ReputationError::UserReputationNotFound)
            } else {
                Ok(eligible_for(self.user_reputation.reputation_score, target_tier, self.reputation_config))
            }),
    {
        if self.user_reputation.user != user {
            return Err(ReputationError::UserReputationNotFound);
        }
        let current_score = self.user_reputation.reputation_score;
        if current_score < 0 {
            return Ok(false);
        }
        let score_u64 = current_score as u64;
        let c = &self.reputation_config;
        let is_eligible = match target_tier {
            ReputationTier::Unranked => true,
            ReputationTier::Bronze => score_u64 >= c.tier_threshold_bronze,
            ReputationTier::Silver => score_u64 >= c.tier_threshold_silver,
            ReputationTier::Gold => score_u64 >= c.tier_threshold_gold,
            ReputationTier::Platinum => score_u64 >= c.tier_threshold_platinum,
            ReputationTier::Diamond => score_u64 >= c.tier_threshold_diamond,
        };
        Ok(is_eligible)
    }
}

/// Bytes of the configuration seed, `b"reputation_config"`.
pub open spec fn reputation_config_seed() -> Seq<u8> {
    seq![114u8, 101, 112, 117, 116, 97, 116, 105, 111, 110, 95, 99, 111, 110, 102, 105, 103]
}

/// Bytes of the user record seed, `b"user_reputation"`.
pub open spec fn user_reputation_seed() -> Seq<u8> {
    seq![117u8, 115, 101, 114, 95, 114, 101, 112, 117, 116, 97, 116, 105, 111, 110]
}

/// Seeds of the reputation program's accounts.
pub struct ReputationSeeds;

impl ReputationSeeds {
    /// The configuration seed.
    pub fn reputation_config() -> (seed: Vec<u8>)
        ensures
            seed@ == reputation_config_seed(),
    {
        vec![114, 101, 112, 117, 116, 97, 116, 105, 111, 110, 95, 99, 111, 110, 102, 105, 103]
    }

    /// Seeds of a user's record: the user record seed and the user's
    /// address bytes.
    pub fn user_reputation(user: &Pubkey) -> (seeds: Vec<Vec<u8>>)
        ensures
            seeds@.len() == 2,
            seeds@[0]@ == user_reputation_seed(),
            seeds@[1]@ == user@,
    {
        let mut seeds: Vec<Vec<u8>> = Vec::new();
        seeds.push(vec![117, 115, 101, 114, 95, 114, 101, 112, 117, 116, 97, 116, 105, 111, 110]);
        seeds.push(user.to_bytes());
        seeds
    }
}

/// A higher score never earns a lower tier.
pub proof fn lemma_tier_monotonic(s1: i64, s2: i64, c: ReputationConfig)
    requires
        s1 <= s2,
    ensures
        tier_rank(tier_for(s1, c)) <= tier_rank(tier_for(s2, c)),
{
}

/// A non-negative score is eligible for the tier it earns, and, when the
/// thresholds increase, for every tier below it.
pub proof fn lemma_tier_eligibility(s: i64, t: ReputationTier, c: ReputationConfig)
    ensures
        s >= 0 ==> eligible_for(s, tier_for(s, c), c),
        thresholds_ascending(c) && s >= 0 && tier_rank(t) <= tier_rank(tier_for(s, c)) ==> eligible_for(s, t, c),
{
}

/// Score moves keep a score that starts within bounds within bounds, and the
/// stored tier is always the one the new score earns.
pub proof fn lemma_score_stays_in_bounds(r: UserReputation, c: ReputationConfig, d: i64, p: i64, now: i64)
    requires
        MIN_REPUTATION_SCORE <= r.reputation_score <= MAX_REPUTATION_SCORE,
        p < 0,
    ensures
        apply_delta(r, c, d, now) matches Ok(r2) ==> MIN_REPUTATION_SCORE <= r2.reputation_score <= MAX_REPUTATION_SCORE
            && r2.tier == tier_for(r2.reputation_score, c) && r2.events_count == r.events_count + 1,
        apply_penalty(r, c, p, now) matches Ok(r2) ==> MIN_REPUTATION_SCORE <= r2.reputation_score < r.reputation_score
            && r2.tier == tier_for(r2.reputation_score, c) && r2.events_count == r.events_count + 1,
{
}

/// Whether `r` holds a score within bounds and the tier that score earns
/// under `c`.
pub open spec fn record_consistent(r: UserReputation, c: ReputationConfig) -> bool {
    &&& MIN_REPUTATION_SCORE <= r.reputation_score <= MAX_REPUTATION_SCORE
    &&& r.tier == tier_for(r.reputation_score, c)
}

/// Every score update and every failure penalty, accepted or refused, keeps
/// a record's score within bounds and its tier the one the score earns
/// (with the same configuration).
pub proof fn lemma_record_stays_consistent(
    r: UserReputation,
    c: ReputationConfig,
    event_type: ReputationEvent,
    custom_amount: Option<i64>,
    failure_type: FailureType,
    custom_penalty: Option<i64>,
    now: i64,
)
    requires
        record_consistent(r, c),
    ensures
        record_consistent(record_after_update(r, c, event_type, custom_amount, now), c),
        record_consistent(record_after_penalty(r, c, failure_type, custom_penalty, now), c),
{
}

} // verus!
