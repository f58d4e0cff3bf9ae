use agro_dao::pubkey::Pubkey;
use agro_dao::reputation::{
    DecreaseReputationOnFailure, FailureType, GetReputation, InitializeReputationConfig, InitializeUserReputation,
    ReputationConfig, ReputationError, ReputationEvent, ReputationSeeds, ReputationTier, TierInfo, UpdateReputation,
    UserReputation, MAX_REPUTATION_SCORE, MIN_REPUTATION_SCORE,
};

fn key(n: u8) -> Pubkey {
    Pubkey::new_from_array([n; 32])
}

fn config() -> ReputationConfig {
    let init = InitializeReputationConfig { authority: key(1) };
    init.initialize_reputation_config(3, None, None, None, None, None, 100).unwrap().0
}

fn user(score: i64) -> UserReputation {
    UserReputation {
        bump: 1,
        user: key(2),
        reputation_score: score,
        events_count: 0,
        last_event_ts: 0,
        created_at: 0,
        tier: ReputationTier::from_score(score, &config()),
    }
}

fn updater(score: i64) -> UpdateReputation {
    UpdateReputation { reputation_config: config(), user_reputation: user(score), authority: key(9) }
}

fn decreaser(score: i64) -> DecreaseReputationOnFailure {
    DecreaseReputationOnFailure { reputation_config: config(), user_reputation: user(score), authority: key(9) }
}

#[test]
fn score_deltas_of_events() {
    assert_eq!(ReputationEvent::MilestoneCompleted.get_score_delta(), 100);
    assert_eq!(ReputationEvent::MilestoneFailed.get_score_delta(), -50);
    assert_eq!(ReputationEvent::ProjectCompleted.get_score_delta(), 200);
    assert_eq!(ReputationEvent::ProjectAbandoned.get_score_delta(), -100);
    assert_eq!(ReputationEvent::PeerReviewPositive.get_score_delta(), 25);
    assert_eq!(ReputationEvent::DisputeResolved.get_score_delta(), -75);
    assert_eq!(ReputationEvent::Custom(-7).get_score_delta(), -7);
}

#[test]
fn tiers_from_default_thresholds() {
    let c = config();
    assert_eq!(ReputationTier::from_score(-5, &c), ReputationTier::Unranked);
    assert_eq!(ReputationTier::from_score(0, &c), ReputationTier::Unranked);
    assert_eq!(ReputationTier::from_score(99, &c), ReputationTier::Unranked);
    assert_eq!(ReputationTier::from_score(100, &c), ReputationTier::Bronze);
    assert_eq!(ReputationTier::from_score(499, &c), ReputationTier::Bronze);
    assert_eq!(ReputationTier::from_score(500, &c), ReputationTier::Silver);
    assert_eq!(ReputationTier::from_score(1500, &c), ReputationTier::Gold);
    assert_eq!(ReputationTier::from_score(3000, &c), ReputationTier::Platinum);
    assert_eq!(ReputationTier::from_score(5000, &c), ReputationTier::Diamond);
    assert_eq!(ReputationTier::from_score(i64::MAX, &c), ReputationTier::Diamond);
}

fn rank(t: ReputationTier) -> u8 {
    match t {
        ReputationTier::Unranked => 0,
        ReputationTier::Bronze => 1,
        ReputationTier::Silver => 2,
        ReputationTier::Gold => 3,
        ReputationTier::Platinum => 4,
        ReputationTier::Diamond => 5,
    }
}

#[test]
fn tier_never_drops_as_score_rises() {
    let c = config();
    let scores = [-1000i64, -1, 0, 50, 100, 101, 499, 500, 1499, 1500, 2999, 3000, 4999, 5000, 10000];
    for w in scores.windows(2) {
        assert!(rank(ReputationTier::from_score(w[0], &c)) <= rank(ReputationTier::from_score(w[1], &c)));
    }
}

#[test]
fn own_tier_is_eligible() {
    for score in [0i64, 150, 700, 2000, 3500, 9000] {
        let g = GetReputation { reputation_config: config(), user_reputation: user(score) };
        let tier = ReputationTier::from_score(score, &config());
        assert_eq!(g.check_tier_eligibility(key(2), tier), Ok(true));
        assert_eq!(g.check_tier_eligibility(key(2), ReputationTier::Unranked), Ok(true));
    }
}

#[test]
fn eligibility_rules() {
    let g = GetReputation { reputation_config: config(), user_reputation: user(600) };
    assert_eq!(g.check_tier_eligibility(key(2), ReputationTier::Silver), Ok(true));
    assert_eq!(g.check_tier_eligibility(key(2), ReputationTier::Gold), Ok(false));
    assert_eq!(g.check_tier_eligibility(key(3), ReputationTier::Silver), Err(ReputationError::UserReputationNotFound));
    let neg = GetReputation { reputation_config: config(), user_reputation: user(-1) };
    assert_eq!(neg.check_tier_eligibility(key(2), ReputationTier::Unranked), Ok(false));
}

#[test]
fn can_increase_and_decrease_bounds() {
    let u = user(9990);
    assert!(u.can_increase_reputation(10));
    assert!(!u.can_increase_reputation(11));
    assert!(u.can_increase_reputation(-10));
    let d = user(-990);
    assert!(d.can_decrease_reputation(10));
    assert!(d.can_decrease_reputation(-10));
    assert!(!d.can_decrease_reputation(-11));
}

#[test]
fn update_tier_recomputes() {
    let mut u = user(0);
    u.reputation_score = 1600;
    u.update_tier(&config());
    assert_eq!(u.tier, ReputationTier::Gold);
}

#[test]
fn config_defaults_and_order() {
    let init = InitializeReputationConfig { authority: key(1) };
    let (c, ev) = init.initialize_reputation_config(4, None, Some(600), None, None, None, 77).unwrap();
    assert_eq!(c.tier_threshold_bronze, 100);
    assert_eq!(c.tier_threshold_silver, 600);
    assert_eq!(c.tier_threshold_gold, 1500);
    assert_eq!(c.tier_threshold_platinum, 3000);
    assert_eq!(c.tier_threshold_diamond, 5000);
    assert!(c.is_active);
    assert_eq!(c.created_at, 77);
    assert_eq!(c.authority, key(1));
    assert_eq!(ev.tier_thresholds, [100, 600, 1500, 3000, 5000]);
    assert_eq!(
        init.initialize_reputation_config(4, Some(500), Some(500), None, None, None, 77).err(),
        Some(ReputationError::InvalidTierThreshold)
    );
    assert_eq!(
        init.initialize_reputation_config(4, None, None, None, Some(6000), None, 77).err(),
        Some(ReputationError::InvalidTierThreshold)
    );
}

#[test]
fn new_user_record() {
    let init = InitializeUserReputation { user: key(5) };
    let (r, ev) = init.initialize_user_reputation(8, 42);
    assert_eq!(r.reputation_score, 0);
    assert_eq!(r.tier, ReputationTier::Unranked);
    assert_eq!(r.user, key(5));
    assert_eq!(r.bump, 8);
    assert_eq!(r.created_at, 42);
    assert_eq!(ev.timestamp, 42);
}

#[test]
fn update_applies_event_delta() {
    let mut u = updater(450);
    let ev = u.update_reputation(key(2), ReputationEvent::MilestoneCompleted, None, 1000).unwrap();
    assert_eq!(u.user_reputation.reputation_score, 550);
    assert_eq!(u.user_reputation.tier, ReputationTier::Silver);
    assert_eq!(u.user_reputation.events_count, 1);
    assert_eq!(u.user_reputation.last_event_ts, 1000);
    assert_eq!(ev.old_score, 450);
    assert_eq!(ev.new_score, 550);
    assert_eq!(ev.old_tier, ReputationTier::Bronze);
    assert_eq!(ev.new_tier, ReputationTier::Silver);
    assert_eq!(ev.authority, key(9));
}

#[test]
fn custom_event_uses_custom_amount() {
    let mut u = updater(100);
    u.update_reputation(key(2), ReputationEvent::Custom(999), Some(-30), 5).unwrap();
    assert_eq!(u.user_reputation.reputation_score, 70);
    let mut v = updater(100);
    assert_eq!(v.update_reputation(key(2), ReputationEvent::Custom(5), None, 5), Err(ReputationError::InvalidEventType));
    assert_eq!(v.user_reputation, user(100));
    assert_eq!(v.update_reputation(key(2), ReputationEvent::Custom(5), Some(0), 5), Err(ReputationError::ZeroReputationChange));
}

#[test]
fn update_refuses_out_of_bounds() {
    let mut u = updater(9950);
    assert_eq!(u.update_reputation(key(2), ReputationEvent::MilestoneCompleted, None, 5), Err(ReputationError::ReputationOverflow));
    assert_eq!(u.user_reputation, user(9950));
    let mut d = updater(-980);
    assert_eq!(d.update_reputation(key(2), ReputationEvent::MilestoneFailed, None, 5), Err(ReputationError::ReputationUnderflow));
    let mut exact = updater(9900);
    exact.update_reputation(key(2), ReputationEvent::MilestoneCompleted, None, 5).unwrap();
    assert_eq!(exact.user_reputation.reputation_score, MAX_REPUTATION_SCORE);
}

#[test]
fn update_refuses_when_inactive_or_count_full() {
    let mut u = updater(0);
    u.reputation_config.is_active = false;
    assert_eq!(u.update_reputation(key(2), ReputationEvent::PeerReviewPositive, None, 5), Err(ReputationError::SystemNotActive));
    let mut full = updater(0);
    full.user_reputation.events_count = u64::MAX;
    assert_eq!(full.update_reputation(key(2), ReputationEvent::PeerReviewPositive, None, 5), Err(ReputationError::ArithmeticOverflow));
    assert_eq!(full.user_reputation.reputation_score, 0);
}

#[test]
fn scores_stay_within_bounds_over_a_history() {
    let mut u = updater(0);
    let events = [
        ReputationEvent::ProjectCompleted,
        ReputationEvent::ProjectAbandoned,
        ReputationEvent::DisputeResolved,
        ReputationEvent::DisputeResolved,
        ReputationEvent::MilestoneFailed,
        ReputationEvent::PeerReviewPositive,
    ];
    for (i, e) in events.iter().enumerate() {
        let _ = u.update_reputation(key(2), *e, None, i as i64);
        let s = u.user_reputation.reputation_score;
        assert!(MIN_REPUTATION_SCORE <= s && s <= MAX_REPUTATION_SCORE);
        assert_eq!(u.user_reputation.tier, ReputationTier::from_score(s, &config()));
    }
    assert_eq!(u.user_reputation.reputation_score, -75);
}

#[test]
fn failure_penalties() {
    let mut d = decreaser(200);
    let ev = d.decrease_reputation_on_failure(key(2), FailureType::MissedDeadline, None, 9).unwrap();
    assert_eq!(d.user_reputation.reputation_score, 150);
    assert_eq!(ev.penalty_amount, -50);
    assert_eq!(ev.new_tier, ReputationTier::Bronze);
    d.decrease_reputation_on_failure(key(2), FailureType::ProjectAbandonment, None, 10).unwrap();
    assert_eq!(d.user_reputation.reputation_score, 50);
    d.decrease_reputation_on_failure(key(2), FailureType::DisputeResolution, None, 11).unwrap();
    assert_eq!(d.user_reputation.reputation_score, -25);
    d.decrease_reputation_on_failure(key(2), FailureType::Custom, Some(-5), 12).unwrap();
    assert_eq!(d.user_reputation.reputation_score, -30);
    assert_eq!(d.user_reputation.events_count, 4);
}

#[test]
fn failure_refusals() {
    let mut d = decreaser(0);
    assert_eq!(d.decrease_reputation_on_failure(key(2), FailureType::Custom, Some(5), 1), Err(ReputationError::InvalidEventType));
    assert_eq!(d.decrease_reputation_on_failure(key(2), FailureType::Custom, None, 1), Err(ReputationError::InvalidEventType));
    let mut m = decreaser(MIN_REPUTATION_SCORE);
    assert_eq!(m.decrease_reputation_on_failure(key(2), FailureType::MissedDeadline, None, 1), Err(ReputationError::AlreadyAtMinimum));
    let mut near = decreaser(-960);
    assert_eq!(near.decrease_reputation_on_failure(key(2), FailureType::MissedDeadline, None, 1), Err(ReputationError::ReputationUnderflow));
    assert_eq!(near.user_reputation, user(-960));
    let mut off = decreaser(0);
    off.reputation_config.is_active = false;
    assert_eq!(off.decrease_reputation_on_failure(key(2), FailureType::MissedDeadline, None, 1), Err(ReputationError::SystemNotActive));
}

#[test]
fn reputation_queries() {
    let g = GetReputation { reputation_config: config(), user_reputation: user(700) };
    let data = g.get_reputation(key(2)).unwrap();
    assert_eq!(data.reputation_score, 700);
    assert_eq!(data.tier, ReputationTier::Silver);
    assert_eq!(g.get_reputation(key(4)).err(), Some(ReputationError::UserReputationNotFound));
    assert_eq!(
        g.get_tier_info(),
        Ok(TierInfo {
            bronze_threshold: 100,
            silver_threshold: 500,
            gold_threshold: 1500,
            platinum_threshold: 3000,
            diamond_threshold: 5000
        })
    );
    let mut off = GetReputation { reputation_config: config(), user_reputation: user(700) };
    off.reputation_config.is_active = false;
    assert_eq!(off.get_reputation(key(2)).err(), Some(ReputationError::SystemNotActive));
    assert_eq!(off.get_tier_info().err(), Some(ReputationError::SystemNotActive));
}

#[test]
fn reputation_seeds() {
    assert_eq!(ReputationSeeds::reputation_config(), b"reputation_config".to_vec());
    let seeds = ReputationSeeds::user_reputation(&key(6));
    assert_eq!(seeds, vec![b"user_reputation".to_vec(), vec![6u8; 32]]);
}

#[test]
fn refused_moves_keep_a_consistent_record() {
    // Near the ceiling: a large custom gain is refused and nothing moves.
    let mut u = updater(9_990);
    assert!(u.update_reputation(key(2), ReputationEvent::Custom(0), Some(100), 1).is_err());
    assert_eq!(u.user_reputation, user(9_990));
    assert_eq!(u.user_reputation.tier, ReputationTier::from_score(9_990, &config()));
    // Near the floor: a penalty past the minimum is refused, one that lands
    // on it is accepted and keeps the tier consistent.
    let mut d = decreaser(-980);
    assert!(d.decrease_reputation_on_failure(key(2), FailureType::Custom, Some(-21), 2).is_err());
    assert_eq!(d.user_reputation, user(-980));
    d.decrease_reputation_on_failure(key(2), FailureType::Custom, Some(-20), 3).unwrap();
    assert_eq!(d.user_reputation.reputation_score, MIN_REPUTATION_SCORE);
    assert_eq!(d.user_reputation.tier, ReputationTier::from_score(MIN_REPUTATION_SCORE, &config()));
}
