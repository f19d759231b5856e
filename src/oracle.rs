//! Oracle consensus: registered oracle nodes vote on verification requests,
//! and a request is settled by majority once a quorum has voted, or expires
//! at its deadline.
use vstd::prelude::*;
use crate::key::{Key, contains_key};
use crate::staking::SlashReason;

verus! {

/// Most oracles that may vote on one request.
pub const MAX_ORACLES: usize = 10;

/// Slashes after which an oracle is barred for good.
pub const SLASH_THRESHOLD: u8 = 3;

/// Verification types are bit positions in a 64-bit map.
pub const VERIFICATION_TYPE_LIMIT: u8 = 64;

pub const AADHAAR: u8 = 0;
pub const PAN: u8 = 1;
pub const EMAIL: u8 = 2;
pub const PHONE: u8 = 3;
pub const BANK_ACCOUNT: u8 = 4;
pub const EDUCATIONAL: u8 = 5;
pub const DRIVING_LICENSE: u8 = 6;
pub const PASSPORT: u8 = 7;

#[derive(Clone, Copy, Debug, PartialEq, Eq, Structural)]
pub enum OracleError {
    InsufficientStake,
    OracleNotActive,
    OracleAlreadyRegistered,
    OracleNotFound,
    RequestNotFound,
    RequestExpired,
    RequestNotPending,
    AlreadyResponded,
    InsufficientFee,
    AlreadyFinalized,
    InsufficientConfirmations,
    UnauthorizedAdmin,
    InvalidVerificationType,
    DeadlineNotReached,
    MaxOraclesReached,
    Overflow,
}

#[derive(Clone, Copy, Debug, PartialEq, Eq, Structural)]
pub enum OracleStatus {
    Active,
    Inactive,
    Slashed,
}

#[derive(Clone, Copy, Debug, PartialEq, Eq, Structural)]
pub enum VerificationStatus {
    Pending,
    InProgress,
    Verified,
    Rejected,
    Expired,
}

/// Network-wide settings and counters.
#[derive(Clone, Copy, Debug)]
pub struct OracleConfig {
    pub admin: Key,
    pub identity_registry: Key,
    pub staking_manager: Key,
    pub min_oracle_stake: u64,
    pub verification_fee: u64,
    /// Votes needed before a request can be settled.
    pub required_confirmations: u8,
    /// Seconds from a request to its deadline.
    pub verification_timeout: i64,
    pub slash_percentage_bps: u16,
    pub active_oracle_count: u32,
    pub total_verifications: u64,
}

/// A registered oracle.
#[derive(Clone, Copy, Debug)]
pub struct OracleNode {
    pub authority: Key,
    pub stake_account: Key,
    pub status: OracleStatus,
    pub verifications_submitted: u64,
    pub successful_verifications: u64,
    pub failed_verifications: u64,
    pub slash_count: u8,
    pub registered_at: i64,
    pub last_active: i64,
}

/// A request to verify one claim about an identity.
#[derive(Clone, Debug)]
pub struct VerificationRequest {
    pub identity: Key,
    pub verification_type: u8,
    pub verification_hash: [u8; 32],
    pub status: VerificationStatus,
    pub fee_paid: u64,
    pub created_at: i64,
    pub deadline: i64,
    pub confirmations: u8,
    pub rejections: u8,
    /// Authorities of the oracles that have voted, in order of voting.
    pub responded_oracles: Vec<Key>,
    /// The settled outcome; set once, when the request is finalized.
    pub result: Option<bool>,
}

/// One oracle's vote on one request.
#[derive(Clone, Copy, Debug)]
pub struct OracleResponse {
    pub request: Key,
    pub oracle: Key,
    pub verified: bool,
    pub responded_at: i64,
    pub metadata_hash: [u8; 32],
}

impl VerificationRequest {
    /// Whether `k` has voted.
    pub open spec fn has_responded(&self, k: Seq<u8>) -> bool {
        exists|i: int| 0 <= i < self.responded_oracles@.len() && self.responded_oracles@[i]@ == k
    }

    /// No authority has voted twice.
    pub open spec fn responders_distinct(&self) -> bool {
        forall|i: int, j: int|
            0 <= i < j < self.responded_oracles@.len() ==> self.responded_oracles@[i]@
                != self.responded_oracles@[j]@
    }

    /// Whether the request is still open to votes.
    pub open spec fn is_open(&self) -> bool {
        self.status == VerificationStatus::Pending || self.status == VerificationStatus::InProgress
    }

    /// Whether the request has been settled by a vote.
    pub open spec fn is_finalized(&self) -> bool {
        self.status == VerificationStatus::Verified || self.status == VerificationStatus::Rejected
    }

    /// The request's invariant: at most `MAX_ORACLES` distinct voters, one
    /// counted vote each, and a result present exactly when settled.
    pub open spec fn wf(&self) -> bool {
        &&& self.responded_oracles@.len() <= MAX_ORACLES
        &&& self.responders_distinct()
        &&& self.confirmations + self.rejections == self.responded_oracles@.len()
        &&& self.status == VerificationStatus::Pending ==> self.responded_oracles@.len() == 0
        &&& (self.status == VerificationStatus::Verified <==> self.result == Some(true))
        &&& (self.status == VerificationStatus::Rejected <==> self.result == Some(false))
    }
}

/// Sets up the oracle network with no oracles and no requests.
pub fn initialize(
    admin: Key,
    identity_registry: Key,
    staking_manager: Key,
    min_oracle_stake: u64,
    verification_fee: u64,
    required_confirmations: u8,
    verification_timeout: i64,
    slash_percentage_bps: u16,
) -> (r: OracleConfig)
    ensures
        r == (OracleConfig {
            admin,
            identity_registry,
            staking_manager,
            min_oracle_stake,
            verification_fee,
            required_confirmations,
            verification_timeout,
            slash_percentage_bps,
            active_oracle_count: 0,
            total_verifications: 0,
        }),
{
    OracleConfig {
        admin,
        identity_registry,
        staking_manager,
        min_oracle_stake,
        verification_fee,
        required_confirmations,
        verification_timeout,
        slash_percentage_bps,
        active_oracle_count: 0,
        total_verifications: 0,
    }
}

/// Why `node` cannot cast vote `verified` on `request` at `now`, checked in
/// order; `None` when it can.
pub open spec fn vote_error(
    node: OracleNode,
    request: VerificationRequest,
    verified: bool,
    now: i64,
) -> Option<OracleError> {
    if node.status != OracleStatus::Active {
        Some(OracleError::OracleNotActive)
    } else if !request.is_open() {
        Some(OracleError::RequestNotPending)
    } else if now > request.deadline {
        Some(OracleError::RequestExpired)
    } else if request.has_responded(node.authority@) {
        Some(OracleError::AlreadyResponded)
    } else if request.responded_oracles@.len() >= MAX_ORACLES {
        Some(OracleError::MaxOraclesReached)
    } else if node.verifications_submitted == u64::MAX || (verified && request.confirmations
        == u8::MAX) || (!verified && request.rejections == u8::MAX) {
        Some(OracleError::Overflow)
    } else {
        None
    }
}

/// A request that `MAX_ORACLES` oracles have voted on turns any further
/// oracle away for capacity, even an active one that has not voted, while
/// the request is open and before its deadline.
pub proof fn lemma_full_request_refuses(
    node: OracleNode,
    request: VerificationRequest,
    verified: bool,
    now: i64,
)
    requires
        request.responded_oracles@.len() == MAX_ORACLES,
        node.status == OracleStatus::Active,
        request.is_open(),
        now <= request.deadline,
        !request.has_responded(node.authority@),
    ensures
        vote_error(node, request, verified, now) == Some(OracleError::MaxOraclesReached),
{
}

/// A slashed oracle is turned away from every request.
pub proof fn lemma_slashed_cannot_vote(
    node: OracleNode,
    request: VerificationRequest,
    verified: bool,
    now: i64,
)
    requires
        node.status == OracleStatus::Slashed,
    ensures
        vote_error(node, request, verified, now) == Some(OracleError::OracleNotActive),
{
}

/// Records a vote of `node` on `request` (whose address is `request_key`).
/// The first vote moves the request to `InProgress`. An oracle votes at
/// most once per request, and at most `MAX_ORACLES` oracles vote.
pub fn submit_verification(
    node: &mut OracleNode,
    request: &mut VerificationRequest,
    request_key: Key,
    verified: bool,
    metadata_hash: [u8; 32],
    now: i64,
) -> (r: Result<OracleResponse, OracleError>)
    ensures
        ({
            let err = vote_error(*old(node), *old(request), verified, now);
            &&& r is Ok <==> err is None
            &&& r is Err ==> r == Err::<OracleResponse, OracleError>(err->Some_0)
        }),
        r is Err ==> *final(node) == *old(node) && *final(request) == *old(request),
        r is Ok ==> {
            &&& final(request).responded_oracles@ == old(request).responded_oracles@.push(
                old(node).authority,
            )
            &&& final(request).confirmations == if verified {
                (old(request).confirmations + 1) as u8
            } else {
                old(request).confirmations
            }
            &&& final(request).rejections == if verified {
                old(request).rejections
            } else {
                (old(request).rejections + 1) as u8
            }
            &&& final(request).status == VerificationStatus::InProgress
            &&& final(request).result == old(request).result
            &&& final(request).identity == old(request).identity
            &&& final(request).verification_type == old(request).verification_type
            &&& final(request).verification_hash == old(request).verification_hash
            &&& final(request).fee_paid == old(request).fee_paid
            &&& final(request).created_at == old(request).created_at
            &&& final(request).deadline == old(request).deadline
            &&& *final(node) == (OracleNode {
                verifications_submitted: (old(node).verifications_submitted + 1) as u64,
                last_active: now,
                ..*old(node)
            })
            &&& r->Ok_0 == (OracleResponse {
                request: request_key,
                oracle: old(node).authority,
                verified,
                responded_at: now,
                metadata_hash,
            })
        },
        old(request).wf() ==> final(request).wf(),
{
    if node.status != OracleStatus::Active {
        return Err(OracleError::OracleNotActive);
    }
    if !(request.status == VerificationStatus::Pending || request.status
        == VerificationStatus::InProgress) {
        return Err(OracleError::RequestNotPending);
    }
    if now > request.deadline {
        return Err(OracleError::RequestExpired);
    }
    if contains_key(&request.responded_oracles, &node.authority) {
        return Err(OracleError::AlreadyResponded);
    }
    if request.responded_oracles.len() >= MAX_ORACLES {
        return Err(OracleError::MaxOraclesReached);
    }
    if verified && request.confirmations == u8::MAX {
        return Err(OracleError::Overflow);
    }
    if !verified && request.rejections == u8::MAX {
        return Err(OracleError::Overflow);
    }
    if node.verifications_submitted == u64::MAX {
        return Err(OracleError::Overflow);
    }
    let ghost before = request.responded_oracles@;
    let ghost distinct_before = request.responders_distinct();
    if verified {
        request.confirmations = request.confirmations + 1;
    } else {
        request.rejections = request.rejections + 1;
    }
    request.responded_oracles.push(node.authority);
    proof {
        if distinct_before {
            assert forall|i: int, j: int|
                0 <= i < j < request.responded_oracles@.len() implies request.responded_oracles@[i]@
                    != request.responded_oracles@[j]@ by {
                if j == before.len() {
                    assert(before[i] == request.responded_oracles@[i]);
                } else {
                    assert(before[i] == request.responded_oracles@[i]);
                    assert(before[j] == request.responded_oracles@[j]);
                }
            }
        }
    }
    request.status = VerificationStatus::InProgress;
    node.verifications_submitted = node.verifications_submitted + 1;
    node.last_active = now;
    Ok(
        OracleResponse {
            request: request_key,
            oracle: node.authority,
            verified,
            responded_at: now,
            metadata_hash,
        },
    )
}

/// Opens a request to verify claim type `verification_type` of `identity`.
/// The request carries the configured fee, which the caller collects, and
/// a deadline `verification_timeout` seconds from `now`.
pub fn request_verification(
    config: &mut OracleConfig,
    identity: Key,
    verification_type: u8,
    verification_hash: [u8; 32],
    now: i64,
) -> (r: Result<VerificationRequest, OracleError>)
    ensures
        verification_type >= VERIFICATION_TYPE_LIMIT ==> r == Err::<
            VerificationRequest,
            OracleError,
        >(OracleError::InvalidVerificationType),
        verification_type < VERIFICATION_TYPE_LIMIT ==> (r is Ok <==> (i64::MIN
            <= now + old(config).verification_timeout <= i64::MAX
            && old(config).total_verifications < u64::MAX)),
        verification_type < VERIFICATION_TYPE_LIMIT && r is Err ==> r == Err::<
            VerificationRequest,
            OracleError,
        >(OracleError::Overflow),
        r is Err ==> *final(config) == *old(config),
        r is Ok ==> {
            let q = r->Ok_0;
            &&& q.identity == identity
            &&& q.verification_type == verification_type
            &&& q.verification_hash == verification_hash
            &&& q.status == VerificationStatus::Pending
            &&& q.fee_paid == old(config).verification_fee
            &&& q.created_at == now
            &&& q.deadline == now + old(config).verification_timeout
            &&& q.confirmations == 0
            &&& q.rejections == 0
            &&& q.responded_oracles@.len() == 0
            &&& q.result is None
            &&& q.wf()
            &&& *final(config) == (OracleConfig {
                total_verifications: (old(config).total_verifications + 1) as u64,
                ..*old(config)
            })
        },
{
    if verification_type >= VERIFICATION_TYPE_LIMIT {
        return Err(OracleError::InvalidVerificationType);
    }
    let deadline = match now.checked_add(config.verification_timeout) {
        Some(v) => v,
        None => {
            return Err(OracleError::Overflow);
        },
    };
    let total = match config.total_verifications.checked_add(1) {
        Some(v) => v,
        None => {
            return Err(OracleError::Overflow);
        },
    };
    config.total_verifications = total;
    Ok(
        VerificationRequest {
            identity,
            verification_type,
            verification_hash,
            status: VerificationStatus::Pending,
            fee_paid: config.verification_fee,
            created_at: now,
            deadline,
            confirmations: 0,
            rejections: 0,
            responded_oracles: Vec::new(),
            result: None,
        },
    )
}

/// Settles a request that has reached its quorum: the claim is verified
/// when confirmations strictly outnumber rejections, and a tie rejects it.
/// Returns the outcome; on `true` the caller sets the identity's
/// verification bit. A settled request never changes again.
pub fn finalize_verification(config: &OracleConfig, request: &mut VerificationRequest) -> (r:
    Result<bool, OracleError>)
    ensures
        old(request).is_finalized() ==> r == Err::<bool, OracleError>(
            OracleError::AlreadyFinalized,
        ),
        old(request).status == VerificationStatus::Pending || old(request).status
            == VerificationStatus::Expired ==> r == Err::<bool, OracleError>(
            OracleError::RequestNotPending,
        ),
        old(request).status == VerificationStatus::InProgress && old(request).confirmations
            + old(request).rejections < config.required_confirmations ==> r == Err::<
            bool,
            OracleError,
        >(OracleError::InsufficientConfirmations),
        r is Ok <==> old(request).status == VerificationStatus::InProgress
            && old(request).confirmations + old(request).rejections
            >= config.required_confirmations,
        r is Err ==> *final(request) == *old(request),
        r is Ok ==> {
            let verified = old(request).confirmations > old(request).rejections;
            &&& r->Ok_0 == verified
            &&& *final(request) == (VerificationRequest {
                status: if verified {
                    VerificationStatus::Verified
                } else {
                    VerificationStatus::Rejected
                },
                result: Some(verified),
                ..*old(request)
            })
        },
        old(request).wf() ==> final(request).wf(),
{
    if request.status == VerificationStatus::Verified || request.status
        == VerificationStatus::Rejected {
        return Err(OracleError::AlreadyFinalized);
    }
    if request.status != VerificationStatus::InProgress {
        return Err(OracleError::RequestNotPending);
    }
    let total: u16 = request.confirmations as u16 + request.rejections as u16;
    if total < config.required_confirmations as u16 {
        return Err(OracleError::InsufficientConfirmations);
    }
    let verified = request.confirmations > request.rejections;
    request.result = Some(verified);
    request.status = if verified {
        VerificationStatus::Verified
    } else {
        VerificationStatus::Rejected
    };
    Ok(verified)
}

/// Closes an open request whose deadline has passed, with no result. The
/// fee stays collected.
pub fn expire_verification(request: &mut VerificationRequest, now: i64) -> (r: Result<
    (),
    OracleError,
>)
    ensures
        !old(request).is_open() ==> r == Err::<(), OracleError>(OracleError::AlreadyFinalized),
        old(request).is_open() && now <= old(request).deadline ==> r == Err::<(), OracleError>(
            OracleError::DeadlineNotReached,
        ),
        r is Ok <==> old(request).is_open() && now > old(request).deadline,
        r is Err ==> *final(request) == *old(request),
        r is Ok ==> *final(request) == (VerificationRequest {
            status: VerificationStatus::Expired,
            result: None,
            ..*old(request)
        }),
        old(request).wf() ==> final(request).wf(),
{
    if !(request.status == VerificationStatus::Pending || request.status
        == VerificationStatus::InProgress) {
        return Err(OracleError::AlreadyFinalized);
    }
    if now <= request.deadline {
        return Err(OracleError::DeadlineNotReached);
    }
    request.status = VerificationStatus::Expired;
    request.result = None;
    Ok(())
}

/// Registers an active oracle controlled by `authority`.
pub fn register_oracle(
    config: &mut OracleConfig,
    authority: Key,
    stake_account: Key,
    now: i64,
) -> (r: Result<OracleNode, OracleError>)
    ensures
        r is Ok <==> old(config).active_oracle_count < u32::MAX,
        r is Err ==> r == Err::<OracleNode, OracleError>(OracleError::Overflow) && *final(config)
            == *old(config),
        r is Ok ==> r->Ok_0 == (OracleNode {
            authority,
            stake_account,
            status: OracleStatus::Active,
            verifications_submitted: 0,
            successful_verifications: 0,
            failed_verifications: 0,
            slash_count: 0,
            registered_at: now,
            last_active: now,
        }),
        r is Ok ==> *final(config) == (OracleConfig {
            active_oracle_count: (old(config).active_oracle_count + 1) as u32,
            ..*old(config)
        }),
{
    let count = match config.active_oracle_count.checked_add(1) {
        Some(v) => v,
        None => {
            return Err(OracleError::Overflow);
        },
    };
    config.active_oracle_count = count;
    Ok(
        OracleNode {
            authority,
            stake_account,
            status: OracleStatus::Active,
            verifications_submitted: 0,
            successful_verifications: 0,
            failed_verifications: 0,
            slash_count: 0,
            registered_at: now,
            last_active: now,
        },
    )
}

/// Withdraws an active oracle from the network. An oracle that is already
/// inactive or slashed stays as it is.
pub fn deregister_oracle(config: &mut OracleConfig, node: &mut OracleNode) -> (r: Result<
    (),
    OracleError,
>)
    ensures
        old(node).status != OracleStatus::Active ==> r == Err::<(), OracleError>(
            OracleError::OracleNotActive,
        ),
        old(node).status == OracleStatus::Active ==> (r is Ok <==> old(config).active_oracle_count
            > 0),
        old(node).status == OracleStatus::Active && r is Err ==> r == Err::<(), OracleError>(
            OracleError::Overflow,
        ),
        r is Err ==> *final(config) == *old(config) && *final(node) == *old(node),
        r is Ok ==> *final(node) == (OracleNode { status: OracleStatus::Inactive, ..*old(node) }),
        r is Ok ==> *final(config) == (OracleConfig {
            active_oracle_count: (old(config).active_oracle_count - 1) as u32,
            ..*old(config)
        }),
{
    if node.status != OracleStatus::Active {
        return Err(OracleError::OracleNotActive);
    }
    let count = match config.active_oracle_count.checked_sub(1) {
        Some(v) => v,
        None => {
            return Err(OracleError::Overflow);
        },
    };
    node.status = OracleStatus::Inactive;
    config.active_oracle_count = count;
    Ok(())
}

/// Penalises an oracle; only the admin may call it. The reason is kept by
/// the caller's records. Each slash counts as a failed verification. At
/// `SLASH_THRESHOLD` slashes the oracle is `Slashed` for good, and leaves
/// the active count if it was active.
pub fn slash_oracle(
    config: &mut OracleConfig,
    node: &mut OracleNode,
    caller: &Key,
    _reason: SlashReason,
) -> (r: Result<(), OracleError>)
    ensures
        caller@ != old(config).admin@ ==> r == Err::<(), OracleError>(
            OracleError::UnauthorizedAdmin,
        ),
        ({
            let barred = old(node).slash_count + 1 >= SLASH_THRESHOLD;
            let leaves = barred && old(node).status == OracleStatus::Active;
            &&& caller@ == old(config).admin@ ==> (r is Ok <==> (old(node).slash_count < u8::MAX
                && old(node).failed_verifications < u64::MAX
                && (leaves ==> old(config).active_oracle_count > 0)))
            &&& caller@ == old(config).admin@ && r is Err ==> r == Err::<(), OracleError>(
                OracleError::Overflow,
            )
            &&& r is Ok ==> *final(node) == (OracleNode {
                slash_count: (old(node).slash_count + 1) as u8,
                failed_verifications: (old(node).failed_verifications + 1) as u64,
                status: if barred {
                    OracleStatus::Slashed
                } else {
                    old(node).status
                },
                ..*old(node)
            })
            &&& r is Ok ==> *final(config) == (OracleConfig {
                active_oracle_count: if leaves {
                    (old(config).active_oracle_count - 1) as u32
                } else {
                    old(config).active_oracle_count
                },
                ..*old(config)
            })
        }),
        r is Err ==> *final(config) == *old(config) && *final(node) == *old(node),
        old(node).status == OracleStatus::Slashed ==> final(node).status == OracleStatus::Slashed,
        r is Ok && final(node).slash_count >= SLASH_THRESHOLD ==> final(node).status
            == OracleStatus::Slashed,
        caller@ == old(config).admin@ && old(node).status == OracleStatus::Active && old(node).slash_count + 1
            == SLASH_THRESHOLD && old(node).failed_verifications < u64::MAX
            && old(config).active_oracle_count > 0 ==> {
            &&& r is Ok
            &&& final(node).slash_count == SLASH_THRESHOLD
            &&& final(node).status == OracleStatus::Slashed
            &&& final(config).active_oracle_count == old(config).active_oracle_count - 1
        },
{
    if !caller.same(&config.admin) {
        return Err(OracleError::UnauthorizedAdmin);
    }
    let slashes = match node.slash_count.checked_add(1) {
        Some(v) => v,
        None => {
            return Err(OracleError::Overflow);
        },
    };
    let failed = match node.failed_verifications.checked_add(1) {
        Some(v) => v,
        None => {
            return Err(OracleError::Overflow);
        },
    };
    if slashes >= SLASH_THRESHOLD {
        if node.status == OracleStatus::Active {
            config.active_oracle_count = match config.active_oracle_count.checked_sub(1) {
                Some(v) => v,
                None => {
                    return Err(OracleError::Overflow);
                },
            };
        }
        node.status = OracleStatus::Slashed;
    }
    node.slash_count = slashes;
    node.failed_verifications = failed;
    Ok(())
}

/// Replaces the given settings; only the admin may call it.
pub fn update_config(
    config: &mut OracleConfig,
    caller: &Key,
    min_oracle_stake: Option<u64>,
    verification_fee: Option<u64>,
    required_confirmations: Option<u8>,
    verification_timeout: Option<i64>,
    slash_percentage_bps: Option<u16>,
) -> (r: Result<(), OracleError>)
    ensures
        r is Err <==> caller@ != old(config).admin@,
        r is Err ==> r == Err::<(), OracleError>(OracleError::UnauthorizedAdmin) && *final(config)
            == *old(config),
        r is Ok ==> *final(config) == (OracleConfig {
            min_oracle_stake: min_oracle_stake.unwrap_or(old(config).min_oracle_stake),
            verification_fee: verification_fee.unwrap_or(old(config).verification_fee),
            required_confirmations: required_confirmations.unwrap_or(
                old(config).required_confirmations,
            ),
            verification_timeout: verification_timeout.unwrap_or(old(config).verification_timeout),
            slash_percentage_bps: slash_percentage_bps.unwrap_or(old(config).slash_percentage_bps),
            ..*old(config)
        }),
{
    if !caller.same(&config.admin) {
        return Err(OracleError::UnauthorizedAdmin);
    }
    if let Some(v) = min_oracle_stake {
        config.min_oracle_stake = v;
    }
    if let Some(v) = verification_fee {
        config.verification_fee = v;
    }
    if let Some(v) = required_confirmations {
        config.required_confirmations = v;
    }
    if let Some(v) = verification_timeout {
        config.verification_timeout = v;
    }
    if let Some(v) = slash_percentage_bps {
        config.slash_percentage_bps = v;
    }
    Ok(())
}

} // verus!
