//! Reputation scores: bounded scores per identity, moved by events and
//! eroded by time, with a tier derived from the score.
use vstd::prelude::*;
use crate::key::Key;

verus! {

/// Length of a day in seconds.
pub const SECONDS_PER_DAY: i64 = 86400;

/// Basis-point denominator (10000 = 100%).
pub const BPS_DENOMINATOR: u128 = 10000;

#[derive(Clone, Copy, Debug, PartialEq, Eq, Structural)]
pub enum ReputationError {
    ScoreOverflow,
    ScoreUnderflow,
    UnauthorizedAdmin,
    UnauthorizedSource,
    InvalidPoints,
    ScoreNotFound,
    DecayTooSoon,
    Overflow,
}

/// Discrete band of a score.
#[derive(Clone, Copy, Debug, PartialEq, Eq, Structural)]
pub enum ReputationTier {
    Bronze,
    Silver,
    Gold,
    Platinum,
    Diamond,
}

/// Kinds of events that move a score.
#[derive(Clone, Copy, Debug, PartialEq, Eq, Structural)]
pub enum EventType {
    VerificationCompleted,
    CredentialIssued,
    SuccessfulTransaction,
    StakeDeposited,
    ConsistentActivity,
    VerificationFailed,
    CredentialRevoked,
    SuspiciousActivity,
    StakeSlashed,
    InactivityPenalty,
}

/// Engine-wide settings.
#[derive(Clone, Copy, Debug)]
pub struct ReputationConfig {
    pub admin: Key,
    pub identity_registry: Key,
    pub base_score: u64,
    pub max_score: u64,
    pub min_score: u64,
    /// Decay per day of inactivity, in basis points.
    pub decay_rate_bps: u16,
    pub last_decay_run: i64,
}

/// The score of one identity.
#[derive(Clone, Copy, Debug)]
pub struct ReputationScore {
    pub identity: Key,
    pub score: u64,
    pub tier: ReputationTier,
    pub positive_events: u32,
    pub negative_events: u32,
    pub total_points_earned: i64,
    pub total_points_lost: i64,
    /// Reference time for decay: the last event, moved forward by whole
    /// days as decay is applied.
    pub last_event: i64,
    pub created_at: i64,
}

/// Audit record of one event.
#[derive(Clone, Copy, Debug)]
pub struct ReputationEvent {
    pub identity: Key,
    pub event_type: EventType,
    pub points: i32,
    pub score_before: u64,
    pub score_after: u64,
    pub source: Key,
    pub timestamp: i64,
    pub metadata: [u8; 32],
}

/// Tier band of a score: 0-300, 301-500, 501-700, 701-900, above 900.
pub open spec fn tier_of(score: int) -> ReputationTier {
    if score <= 300 {
        ReputationTier::Bronze
    } else if score <= 500 {
        ReputationTier::Silver
    } else if score <= 700 {
        ReputationTier::Gold
    } else if score <= 900 {
        ReputationTier::Platinum
    } else {
        ReputationTier::Diamond
    }
}

/// Points that an event is worth when no override is given.
pub open spec fn default_points(e: EventType) -> int {
    match e {
        EventType::VerificationCompleted => 50,
        EventType::CredentialIssued => 30,
        EventType::SuccessfulTransaction => 10,
        EventType::StakeDeposited => 20,
        EventType::ConsistentActivity => 5,
        EventType::VerificationFailed => -30,
        EventType::CredentialRevoked => -50,
        EventType::SuspiciousActivity => -40,
        EventType::StakeSlashed => -60,
        EventType::InactivityPenalty => -10,
    }
}

/// Points that an event applies: the override if given, else the default.
pub open spec fn event_points(e: EventType, custom: Option<i32>) -> int {
    match custom {
        Some(p) => p as int,
        None => default_points(e),
    }
}

/// The score after adding `points`: `score + points` clamped to
/// `[min, max]`.
pub open spec fn scored(score: int, points: int, min: int, max: int) -> int {
    let raw = score + points;
    if raw < min {
        min
    } else if raw > max {
        max
    } else {
        raw
    }
}

/// Whole days elapsed from `from` to `now`; none when `now` is not later.
pub open spec fn days_between(from: int, now: int) -> int {
    if now > from {
        (now - from) / 86400
    } else {
        0
    }
}

/// Decay over `days` days: `score * rate_bps * days / 10000`, rounded down.
pub open spec fn decay_amount(score: int, rate_bps: int, days: int) -> int {
    score * rate_bps * days / 10000
}

/// The score after decay, never below `min`.
pub open spec fn decayed(score: int, decay: int, min: int) -> int {
    if score - decay >= min {
        score - decay
    } else {
        min
    }
}

impl ReputationConfig {
    /// Scores start inside the bounds.
    pub open spec fn wf(&self) -> bool {
        self.min_score <= self.base_score <= self.max_score
    }
}

impl ReputationScore {
    /// The score lies within the configured bounds and its tier matches it.
    pub open spec fn within(&self, config: ReputationConfig) -> bool {
        &&& config.min_score <= self.score <= config.max_score
        &&& self.tier == tier_of(self.score as int)
    }
}

impl ReputationTier {
    /// The tier of a score.
    pub fn from_score(score: u64) -> (r: ReputationTier)
        ensures
            r == tier_of(score as int),
    {
        if score <= 300 {
            ReputationTier::Bronze
        } else if score <= 500 {
            ReputationTier::Silver
        } else if score <= 700 {
            ReputationTier::Gold
        } else if score <= 900 {
            ReputationTier::Platinum
        } else {
            ReputationTier::Diamond
        }
    }
}

/// Points that an event is worth when no override is given.
pub fn get_default_points(event_type: &EventType) -> (r: i32)
    ensures
        r as int == default_points(*event_type),
{
    match event_type {
        EventType::VerificationCompleted => 50,
        EventType::CredentialIssued => 30,
        EventType::SuccessfulTransaction => 10,
        EventType::StakeDeposited => 20,
        EventType::ConsistentActivity => 5,
        EventType::VerificationFailed => -30,
        EventType::CredentialRevoked => -50,
        EventType::SuspiciousActivity => -40,
        EventType::StakeSlashed => -60,
        EventType::InactivityPenalty => -10,
    }
}

/// Whether the lifetime counters can take an event of `points` points.
pub open spec fn event_fits(s: ReputationScore, points: int) -> bool {
    if points >= 0 {
        s.positive_events < u32::MAX && s.total_points_earned + points <= i64::MAX
    } else {
        s.negative_events < u32::MAX && s.total_points_lost - points <= i64::MAX
    }
}

/// The score record after an event of `points` points at time `now`.
pub open spec fn after_event(
    s: ReputationScore,
    config: ReputationConfig,
    points: int,
    now: i64,
) -> ReputationScore {
    let new_score = scored(
        s.score as int,
        points,
        config.min_score as int,
        config.max_score as int,
    );
    ReputationScore {
        identity: s.identity,
        score: new_score as u64,
        tier: tier_of(new_score),
        positive_events: if points >= 0 {
            (s.positive_events + 1) as u32
        } else {
            s.positive_events
        },
        negative_events: if points < 0 {
            (s.negative_events + 1) as u32
        } else {
            s.negative_events
        },
        total_points_earned: if points >= 0 {
            (s.total_points_earned + points) as i64
        } else {
            s.total_points_earned
        },
        total_points_lost: if points < 0 {
            (s.total_points_lost - points) as i64
        } else {
            s.total_points_lost
        },
        last_event: now,
        created_at: s.created_at,
    }
}

/// Sets up the engine.
pub fn initialize(
    admin: Key,
    identity_registry: Key,
    base_score: u64,
    max_score: u64,
    min_score: u64,
    decay_rate_bps: u16,
    now: i64,
) -> (r: ReputationConfig)
    ensures
        r.admin == admin,
        r.identity_registry == identity_registry,
        r.base_score == base_score,
        r.max_score == max_score,
        r.min_score == min_score,
        r.decay_rate_bps == decay_rate_bps,
        r.last_decay_run == now,
{
    ReputationConfig {
        admin,
        identity_registry,
        base_score,
        max_score,
        min_score,
        decay_rate_bps,
        last_decay_run: now,
    }
}

/// A fresh score for `identity`: the base score and its tier, no history.
pub fn initialize_score(config: &ReputationConfig, identity: Key, now: i64) -> (r: ReputationScore)
    ensures
        r.identity == identity,
        r.score == config.base_score,
        r.tier == tier_of(config.base_score as int),
        r.positive_events == 0,
        r.negative_events == 0,
        r.total_points_earned == 0,
        r.total_points_lost == 0,
        r.last_event == now,
        r.created_at == now,
        config.wf() ==> r.within(*config),
{
    ReputationScore {
        identity,
        score: config.base_score,
        tier: ReputationTier::from_score(config.base_score),
        positive_events: 0,
        negative_events: 0,
        total_points_earned: 0,
        total_points_lost: 0,
        last_event: now,
        created_at: now,
    }
}

/// Applies an event to a score. The override, if given, replaces the
/// event's default points. The new score is the old one plus the points,
/// clamped to the configured bounds; the lifetime counters move by the full
/// points, and when one of them would overflow nothing changes.
pub fn record_event(
    config: &ReputationConfig,
    score: &mut ReputationScore,
    event_type: EventType,
    custom_points: Option<i32>,
    metadata: [u8; 32],
    source: Key,
    now: i64,
) -> (r: Result<ReputationEvent, ReputationError>)
    ensures
        r is Ok <==> event_fits(*old(score), event_points(event_type, custom_points)),
        r is Err ==> r == Err::<ReputationEvent, ReputationError>(ReputationError::Overflow)
            && *final(score) == *old(score),
        r is Ok ==> *final(score) == after_event(
            *old(score),
            *config,
            event_points(event_type, custom_points),
            now,
        ),
        r is Ok ==> ({
            let e = r->Ok_0;
            &&& e.identity == old(score).identity
            &&& e.event_type == event_type
            &&& e.points as int == event_points(event_type, custom_points)
            &&& e.score_before == old(score).score
            &&& e.score_after == final(score).score
            &&& e.source == source
            &&& e.timestamp == now
            &&& e.metadata == metadata
        }),
        r is Ok && config.min_score <= config.max_score ==> final(score).within(*config),
{
    let points: i32 = match custom_points {
        Some(p) => p,
        None => get_default_points(&event_type),
    };
    let before: u64 = score.score;
    let mut next = *score;
    if points >= 0 {
        if next.positive_events == u32::MAX {
            return Err(ReputationError::Overflow);
        }
        let earned = match next.total_points_earned.checked_add(points as i64) {
            Some(v) => v,
            None => {
                return Err(ReputationError::Overflow);
            },
        };
        next.positive_events = next.positive_events + 1;
        next.total_points_earned = earned;
    } else {
        if next.negative_events == u32::MAX {
            return Err(ReputationError::Overflow);
        }
        let magnitude: i64 = -(points as i64);
        let lost = match next.total_points_lost.checked_add(magnitude) {
            Some(v) => v,
            None => {
                return Err(ReputationError::Overflow);
            },
        };
        next.negative_events = next.negative_events + 1;
        next.total_points_lost = lost;
    }
    let raw: i128 = before as i128 + points as i128;
    next.score = if raw < config.min_score as i128 {
        config.min_score
    } else if raw > config.max_score as i128 {
        config.max_score
    } else {
        raw as u64
    };
    next.tier = ReputationTier::from_score(next.score);
    next.last_event = now;
    *score = next;
    Ok(
        ReputationEvent {
            identity: next.identity,
            event_type,
            points,
            score_before: before,
            score_after: next.score,
            source,
            timestamp: now,
            metadata,
        },
    )
}

/// Records an event whose default points are a gain.
pub fn record_positive_event(
    config: &ReputationConfig,
    score: &mut ReputationScore,
    event_type: EventType,
    metadata: [u8; 32],
    source: Key,
    now: i64,
) -> (r: Result<ReputationEvent, ReputationError>)
    ensures
        default_points(event_type) <= 0 ==> r == Err::<ReputationEvent, ReputationError>(
            ReputationError::InvalidPoints,
        ) && *final(score) == *old(score),
        default_points(event_type) > 0 ==> (r is Ok <==> event_fits(
            *old(score),
            default_points(event_type),
        )),
        r is Ok ==> *final(score) == after_event(
            *old(score),
            *config,
            default_points(event_type),
            now,
        ),
        r is Err ==> *final(score) == *old(score),
{
    let points = get_default_points(&event_type);
    if points <= 0 {
        return Err(ReputationError::InvalidPoints);
    }
    record_event(config, score, event_type, None, metadata, source, now)
}

/// Records an event whose default points are a loss.
pub fn record_negative_event(
    config: &ReputationConfig,
    score: &mut ReputationScore,
    event_type: EventType,
    metadata: [u8; 32],
    source: Key,
    now: i64,
) -> (r: Result<ReputationEvent, ReputationError>)
    ensures
        default_points(event_type) >= 0 ==> r == Err::<ReputationEvent, ReputationError>(
            ReputationError::InvalidPoints,
        ) && *final(score) == *old(score),
        default_points(event_type) < 0 ==> (r is Ok <==> event_fits(
            *old(score),
            default_points(event_type),
        )),
        r is Ok ==> *final(score) == after_event(
            *old(score),
            *config,
            default_points(event_type),
            now,
        ),
        r is Err ==> *final(score) == *old(score),
{
    let points = get_default_points(&event_type);
    if points >= 0 {
        return Err(ReputationError::InvalidPoints);
    }
    record_event(config, score, event_type, None, metadata, source, now)
}

/// Erodes a score for each whole day since its reference time. With `d`
/// days elapsed the score loses `score * decay_rate_bps * d / 10000`, never
/// falling below the minimum, and the reference time moves forward by `d`
/// days, so a second call within the same day changes nothing. The run
/// time is recorded in the configuration.
pub fn apply_decay(config: &mut ReputationConfig, score: &mut ReputationScore, now: i64)
    ensures
        ({
            let s = *old(score);
            let days = days_between(s.last_event as int, now as int);
            if days > 0 {
                let next = decayed(
                    s.score as int,
                    decay_amount(s.score as int, old(config).decay_rate_bps as int, days),
                    old(config).min_score as int,
                );
                &&& final(score).score as int == next
                &&& final(score).tier == tier_of(next)
                &&& final(score).last_event == s.last_event + days * 86400
                &&& final(score).identity == s.identity
                &&& final(score).positive_events == s.positive_events
                &&& final(score).negative_events == s.negative_events
                &&& final(score).total_points_earned == s.total_points_earned
                &&& final(score).total_points_lost == s.total_points_lost
                &&& final(score).created_at == s.created_at
            } else {
                *final(score) == s
            }
        }),
        *final(config) == (ReputationConfig { last_decay_run: now, ..*old(config) }),
        old(config).min_score <= old(config).max_score && old(score).within(*old(config))
            ==> final(score).within(*final(config)),
        old(score).within(*old(config)) ==> final(score).score <= old(score).score,
{
    let elapsed: i128 = now as i128 - score.last_event as i128;
    if elapsed >= SECONDS_PER_DAY as i128 {
        let days: i128 = elapsed / (SECONDS_PER_DAY as i128);
        let current: u64 = score.score;
        let rate: u128 = config.decay_rate_bps as u128;
        proof {
            let c = current as int;
            let r = rate as int;
            let d = days as int;
            assert(d * 86400 <= elapsed) by (nonlinear_arith)
                requires
                    d == elapsed / 86400,
                    elapsed >= 86400,
            ;
            assert(0 < d < 0x1_0000_0000_0000) by (nonlinear_arith)
                requires
                    d == elapsed / 86400,
                    86400 <= elapsed < 0x1_0000_0000_0000_0000,
            ;
            assert(c * r <= 0xFFFF_FFFF_FFFF_FFFF_FFFF) by (nonlinear_arith)
                requires
                    0 <= c < 0x1_0000_0000_0000_0000,
                    0 <= r < 0x1_0000,
            ;
            assert(c * r * d <= u128::MAX) by (nonlinear_arith)
                requires
                    0 <= c < 0x1_0000_0000_0000_0000,
                    0 <= r < 0x1_0000,
                    0 < d < 0x1_0000_0000_0000,
            ;
        }
        let decay: u128 = (current as u128) * rate * (days as u128) / BPS_DENOMINATOR;
        let lowered: u64 = if decay <= current as u128 {
            current - decay as u64
        } else {
            0
        };
        let next: u64 = if lowered >= config.min_score {
            lowered
        } else {
            config.min_score
        };
        score.score = next;
        score.tier = ReputationTier::from_score(next);
        score.last_event = (score.last_event as i128 + days * (SECONDS_PER_DAY as i128)) as i64;
    }
    config.last_decay_run = now;
}

/// The tier stored with a score.
pub fn get_tier(score: &ReputationScore) -> (r: ReputationTier)
    ensures
        r == score.tier,
{
    score.tier
}

/// Replaces the given settings; only the admin may call it.
pub fn update_config(
    config: &mut ReputationConfig,
    caller: &Key,
    base_score: Option<u64>,
    max_score: Option<u64>,
    min_score: Option<u64>,
    decay_rate_bps: Option<u16>,
) -> (r: Result<(), ReputationError>)
    ensures
        r is Err <==> caller@ != old(config).admin@,
        r is Err ==> r == Err::<(), ReputationError>(ReputationError::UnauthorizedAdmin)
            && *final(config) == *old(config),
        r is Ok ==> *final(config) == (ReputationConfig {
            base_score: base_score.unwrap_or(old(config).base_score),
            max_score: max_score.unwrap_or(old(config).max_score),
            min_score: min_score.unwrap_or(old(config).min_score),
            decay_rate_bps: decay_rate_bps.unwrap_or(old(config).decay_rate_bps),
            ..*old(config)
        }),
{
    if !caller.same(&config.admin) {
        return Err(ReputationError::UnauthorizedAdmin);
    }
    if let Some(v) = base_score {
        config.base_score = v;
    }
    if let Some(v) = max_score {
        config.max_score = v;
    }
    if let Some(v) = min_score {
        config.min_score = v;
    }
    if let Some(v) = decay_rate_bps {
        config.decay_rate_bps = v;
    }
    Ok(())
}

} // verus!
