use trust_fabric::key::Key;
use trust_fabric::reputation::{
    apply_decay, get_default_points, get_tier, initialize, initialize_score, record_event,
    record_negative_event, record_positive_event, update_config, EventType, ReputationConfig,
    ReputationError, ReputationScore, ReputationTier,
};

const DAY: i64 = 86_400;

fn key(b: u8) -> Key {
    Key::new([b; 32])
}

fn config(rate: u16) -> ReputationConfig {
    initialize(key(1), key(2), 500, 1000, 0, rate, 0)
}

fn score(cfg: &ReputationConfig) -> ReputationScore {
    initialize_score(cfg, key(7), 0)
}

#[test]
fn tiers_follow_bands() {
    assert_eq!(ReputationTier::from_score(0), ReputationTier::Bronze);
    assert_eq!(ReputationTier::from_score(300), ReputationTier::Bronze);
    assert_eq!(ReputationTier::from_score(301), ReputationTier::Silver);
    assert_eq!(ReputationTier::from_score(500), ReputationTier::Silver);
    assert_eq!(ReputationTier::from_score(501), ReputationTier::Gold);
    assert_eq!(ReputationTier::from_score(700), ReputationTier::Gold);
    assert_eq!(ReputationTier::from_score(701), ReputationTier::Platinum);
    assert_eq!(ReputationTier::from_score(900), ReputationTier::Platinum);
    assert_eq!(ReputationTier::from_score(901), ReputationTier::Diamond);
    assert_eq!(ReputationTier::from_score(u64::MAX), ReputationTier::Diamond);
}

#[test]
fn default_points_table() {
    assert_eq!(get_default_points(&EventType::VerificationCompleted), 50);
    assert_eq!(get_default_points(&EventType::CredentialIssued), 30);
    assert_eq!(get_default_points(&EventType::SuccessfulTransaction), 10);
    assert_eq!(get_default_points(&EventType::StakeDeposited), 20);
    assert_eq!(get_default_points(&EventType::ConsistentActivity), 5);
    assert_eq!(get_default_points(&EventType::VerificationFailed), -30);
    assert_eq!(get_default_points(&EventType::CredentialRevoked), -50);
    assert_eq!(get_default_points(&EventType::SuspiciousActivity), -40);
    assert_eq!(get_default_points(&EventType::StakeSlashed), -60);
    assert_eq!(get_default_points(&EventType::InactivityPenalty), -10);
}

#[test]
fn new_score_starts_at_base() {
    let cfg = config(0);
    let s = score(&cfg);
    assert_eq!(s.score, 500);
    assert_eq!(s.tier, ReputationTier::Silver);
    assert_eq!(get_tier(&s), ReputationTier::Silver);
    assert_eq!(s.positive_events, 0);
    assert_eq!(s.negative_events, 0);
}

#[test]
fn event_moves_score_and_tier() {
    let cfg = config(0);
    let mut s = score(&cfg);
    let e = record_event(&cfg, &mut s, EventType::VerificationCompleted, None, [3u8; 32], key(5), 10)
        .unwrap();
    assert_eq!(s.score, 550);
    assert_eq!(s.tier, ReputationTier::Gold);
    assert_eq!(s.positive_events, 1);
    assert_eq!(s.total_points_earned, 50);
    assert_eq!(s.last_event, 10);
    assert_eq!(e.points, 50);
    assert_eq!(e.score_before, 500);
    assert_eq!(e.score_after, 550);
    assert_eq!(e.source, key(5));
    assert_eq!(e.metadata, [3u8; 32]);
}

#[test]
fn gains_stop_at_max_but_totals_count_all() {
    let cfg = config(0);
    let mut s = score(&cfg);
    let e = record_event(&cfg, &mut s, EventType::VerificationCompleted, Some(800), [0u8; 32], key(5), 1)
        .unwrap();
    assert_eq!(s.score, 1000);
    assert_eq!(s.tier, ReputationTier::Diamond);
    assert_eq!(s.total_points_earned, 800);
    assert_eq!(e.score_after - e.score_before, 500);
}

#[test]
fn losses_stop_at_min() {
    let cfg = initialize(key(1), key(2), 500, 1000, 100, 0, 0);
    let mut s = initialize_score(&cfg, key(7), 0);
    record_event(&cfg, &mut s, EventType::StakeSlashed, Some(-900), [0u8; 32], key(5), 1).unwrap();
    assert_eq!(s.score, 100);
    assert_eq!(s.tier, ReputationTier::Bronze);
    assert_eq!(s.negative_events, 1);
    assert_eq!(s.total_points_lost, 900);
}

#[test]
fn extreme_override_keeps_bounds() {
    let cfg = config(0);
    let mut s = score(&cfg);
    record_event(&cfg, &mut s, EventType::StakeSlashed, Some(i32::MIN), [0u8; 32], key(5), 1).unwrap();
    assert_eq!(s.score, 0);
    assert_eq!(s.total_points_lost, 2_147_483_648);
    record_event(&cfg, &mut s, EventType::StakeDeposited, Some(i32::MAX), [0u8; 32], key(5), 2).unwrap();
    assert_eq!(s.score, 1000);
}

#[test]
fn counter_overflow_changes_nothing() {
    let cfg = config(0);
    let mut s = score(&cfg);
    s.total_points_earned = i64::MAX - 10;
    let before = s;
    assert_eq!(
        record_event(&cfg, &mut s, EventType::CredentialIssued, None, [0u8; 32], key(5), 9).map(|e| e.points),
        Err(ReputationError::Overflow)
    );
    assert_eq!(s.score, before.score);
    assert_eq!(s.positive_events, before.positive_events);
    assert_eq!(s.last_event, before.last_event);
}

#[test]
fn positive_and_negative_helpers_check_sign() {
    let cfg = config(0);
    let mut s = score(&cfg);
    assert_eq!(
        record_positive_event(&cfg, &mut s, EventType::StakeSlashed, [0u8; 32], key(5), 1).map(|e| e.points),
        Err(ReputationError::InvalidPoints)
    );
    assert_eq!(
        record_negative_event(&cfg, &mut s, EventType::CredentialIssued, [0u8; 32], key(5), 1).map(|e| e.points),
        Err(ReputationError::InvalidPoints)
    );
    assert_eq!(s.score, 500);
    record_negative_event(&cfg, &mut s, EventType::CredentialRevoked, [0u8; 32], key(5), 1).unwrap();
    assert_eq!(s.score, 450);
    record_positive_event(&cfg, &mut s, EventType::ConsistentActivity, [0u8; 32], key(5), 1).unwrap();
    assert_eq!(s.score, 455);
}

#[test]
fn decay_per_whole_day() {
    let mut cfg = config(100);
    let mut s = score(&cfg);
    apply_decay(&mut cfg, &mut s, 3 * DAY + 5);
    assert_eq!(s.score, 485);
    assert_eq!(s.tier, ReputationTier::Silver);
    assert_eq!(s.last_event, 3 * DAY);
    assert_eq!(cfg.last_decay_run, 3 * DAY + 5);
}

#[test]
fn decay_twice_same_day_is_noop() {
    let mut cfg = config(100);
    let mut s = score(&cfg);
    apply_decay(&mut cfg, &mut s, DAY + 10);
    let once = s.score;
    apply_decay(&mut cfg, &mut s, DAY + 100);
    assert_eq!(s.score, once);
    assert_eq!(once, 495);
}

#[test]
fn decay_within_a_day_is_noop() {
    let mut cfg = config(100);
    let mut s = score(&cfg);
    apply_decay(&mut cfg, &mut s, DAY - 1);
    assert_eq!(s.score, 500);
    apply_decay(&mut cfg, &mut s, -5);
    assert_eq!(s.score, 500);
}

#[test]
fn decay_stops_at_min() {
    let mut cfg = initialize(key(1), key(2), 500, 1000, 200, 5000, 0);
    let mut s = initialize_score(&cfg, key(7), 0);
    apply_decay(&mut cfg, &mut s, 10 * DAY);
    assert_eq!(s.score, 200);
    assert_eq!(s.tier, ReputationTier::Bronze);
}

#[test]
fn sequences_stay_in_bounds() {
    let mut cfg = initialize(key(1), key(2), 500, 950, 50, 300, 0);
    let mut s = initialize_score(&cfg, key(7), 0);
    let events = [
        (EventType::VerificationCompleted, Some(400)),
        (EventType::StakeSlashed, None),
        (EventType::SuspiciousActivity, Some(-2000)),
        (EventType::CredentialIssued, None),
        (EventType::StakeDeposited, Some(1_000_000)),
    ];
    let mut t = 0;
    for (e, p) in events.iter() {
        t += 2 * DAY;
        record_event(&cfg, &mut s, *e, *p, [0u8; 32], key(5), t).unwrap();
        assert!(s.score >= 50 && s.score <= 950);
        assert_eq!(s.tier, ReputationTier::from_score(s.score));
        apply_decay(&mut cfg, &mut s, t + 3 * DAY);
        assert!(s.score >= 50 && s.score <= 950);
        assert_eq!(s.tier, ReputationTier::from_score(s.score));
    }
}

#[test]
fn reputation_config_is_admin_only() {
    let mut cfg = config(0);
    assert_eq!(
        update_config(&mut cfg, &key(9), Some(1), None, None, None),
        Err(ReputationError::UnauthorizedAdmin)
    );
    update_config(&mut cfg, &key(1), Some(600), None, None, Some(7)).unwrap();
    assert_eq!(cfg.base_score, 600);
    assert_eq!(cfg.decay_rate_bps, 7);
    assert_eq!(cfg.max_score, 1000);
}

#[test]
fn score_above_lowered_max_is_clamped() {
    let mut cfg = config(0);
    let mut s = score(&cfg);
    update_config(&mut cfg, &key(1), None, Some(100), None, None).unwrap();
    let e = record_event(&cfg, &mut s, EventType::InactivityPenalty, None, [0u8; 32], key(5), 1)
        .unwrap();
    assert_eq!(s.score, 100);
    assert_eq!(e.score_before, 500);
    assert_eq!(e.score_after, 100);
    assert_eq!(s.tier, ReputationTier::Bronze);
    assert_eq!(s.total_points_lost, 10);
}

#[test]
fn score_below_raised_min_is_clamped() {
    let mut cfg = config(0);
    let mut s = score(&cfg);
    update_config(&mut cfg, &key(1), None, None, Some(800), None).unwrap();
    record_event(&cfg, &mut s, EventType::ConsistentActivity, None, [0u8; 32], key(5), 1).unwrap();
    assert_eq!(s.score, 800);
    assert_eq!(s.tier, ReputationTier::Platinum);
    assert_eq!(s.total_points_earned, 5);
}
