//! Identity records: the verification bitmap, score and stake that the
//! engines publish, and key recovery.
use vstd::prelude::*;
use crate::key::{Key, contains_key};
use vstd::utf8::encode_utf8;

verus! {

/// Longest DID, in bytes.
pub const MAX_DID_LEN: usize = 128;

/// Longest metadata URI, in bytes.
pub const MAX_URI_LEN: usize = 256;

/// Most recovery keys per identity.
pub const MAX_RECOVERY_KEYS: usize = 5;

/// Score that a new identity starts with.
pub const BASE_REPUTATION: u64 = 500;

/// Stake an oracle needs, in lamports (one SOL).
pub const DEFAULT_MIN_STAKE: u64 = 1_000_000_000;

/// Fee of a verification, in lamports.
pub const DEFAULT_VERIFICATION_FEE: u64 = 10_000_000;

#[derive(Clone, Copy, Debug, PartialEq, Eq, Structural)]
pub enum IdentityError {
    DIDTooLong,
    URITooLong,
    TooManyRecoveryKeys,
    InvalidVerificationType,
    UnauthorizedRecovery,
    InsufficientStake,
    AccountNotFound,
    UnauthorizedOracle,
    UnauthorizedReputationEngine,
    UnauthorizedStakingManager,
}

/// The registry's settings: which engine may write which field.
#[derive(Clone, Copy, Debug)]
pub struct GlobalConfig {
    pub admin: Key,
    pub verification_oracle: Key,
    pub credential_manager: Key,
    pub reputation_engine: Key,
    pub staking_manager: Key,
    pub min_stake_amount: u64,
    pub verification_fee: u64,
}

/// The parties that the registry lets write to identities.
#[derive(Clone, Copy, Debug, PartialEq, Eq, Structural)]
pub enum Role {
    Admin,
    VerificationOracle,
    CredentialManager,
    ReputationEngine,
    StakingManager,
}

impl GlobalConfig {
    /// The key configured for `role`.
    pub open spec fn holder(&self, role: Role) -> Key {
        match role {
            Role::Admin => self.admin,
            Role::VerificationOracle => self.verification_oracle,
            Role::CredentialManager => self.credential_manager,
            Role::ReputationEngine => self.reputation_engine,
            Role::StakingManager => self.staking_manager,
        }
    }

    /// Whether `caller` is the key configured for `role`.
    pub fn authorizes(&self, caller: &Key, role: Role) -> (r: bool)
        ensures
            r == (caller@ == self.holder(role)@),
    {
        let holder = match role {
            Role::Admin => &self.admin,
            Role::VerificationOracle => &self.verification_oracle,
            Role::CredentialManager => &self.credential_manager,
            Role::ReputationEngine => &self.reputation_engine,
            Role::StakingManager => &self.staking_manager,
        };
        caller.same(holder)
    }
}

/// One identity.
#[derive(Clone, Debug)]
pub struct IdentityAccount {
    pub authority: Key,
    pub did: String,
    pub metadata_uri: String,
    /// Bit `t` is set when claim type `t` has been verified.
    pub verification_bitmap: u64,
    pub reputation_score: u64,
    pub staked_amount: u64,
    pub created_at: i64,
    pub last_updated: i64,
    pub recovery_keys: Vec<Key>,
}

/// Length of a string in bytes, as `str::len` reports it.
pub open spec fn byte_len(s: &String) -> usize {
    encode_utf8(s@).len() as usize
}

/// Whether bit `t` of `m` is set.
pub open spec fn has_bit(m: u64, t: u64) -> bool {
    (m >> t) & 1u64 == 1u64
}

/// Whether `k` is among `keys`.
pub open spec fn listed(keys: Seq<Key>, k: Seq<u8>) -> bool {
    exists|i: int| 0 <= i < keys.len() && keys[i]@ == k
}

/// Sets up the registry with the engines allowed to write to identities.
pub fn initialize_config(
    admin: Key,
    verification_oracle: Key,
    credential_manager: Key,
    reputation_engine: Key,
    staking_manager: Key,
) -> (r: GlobalConfig)
    ensures
        r == (GlobalConfig {
            admin,
            verification_oracle,
            credential_manager,
            reputation_engine,
            staking_manager,
            min_stake_amount: DEFAULT_MIN_STAKE,
            verification_fee: DEFAULT_VERIFICATION_FEE,
        }),
{
    GlobalConfig {
        admin,
        verification_oracle,
        credential_manager,
        reputation_engine,
        staking_manager,
        min_stake_amount: DEFAULT_MIN_STAKE,
        verification_fee: DEFAULT_VERIFICATION_FEE,
    }
}

/// Creates an identity controlled by `authority`, with no verified claims
/// and the base score.
pub fn create_identity(
    authority: Key,
    did: String,
    metadata_uri: String,
    recovery_keys: Vec<Key>,
    now: i64,
) -> (r: Result<IdentityAccount, IdentityError>)
    ensures
        byte_len(&did) > MAX_DID_LEN ==> r == Err::<IdentityAccount, IdentityError>(
            IdentityError::DIDTooLong,
        ),
        byte_len(&did) <= MAX_DID_LEN && byte_len(&metadata_uri) > MAX_URI_LEN ==> r == Err::<
            IdentityAccount,
            IdentityError,
        >(IdentityError::URITooLong),
        byte_len(&did) <= MAX_DID_LEN && byte_len(&metadata_uri) <= MAX_URI_LEN
            && recovery_keys@.len() > MAX_RECOVERY_KEYS ==> r == Err::<
            IdentityAccount,
            IdentityError,
        >(IdentityError::TooManyRecoveryKeys),
        r is Ok <==> byte_len(&did) <= MAX_DID_LEN && byte_len(&metadata_uri) <= MAX_URI_LEN
            && recovery_keys@.len() <= MAX_RECOVERY_KEYS,
        r is Ok ==> {
            let a = r->Ok_0;
            &&& a.authority == authority
            &&& a.did@ == did@
            &&& a.metadata_uri@ == metadata_uri@
            &&& a.verification_bitmap == 0
            &&& a.reputation_score == BASE_REPUTATION
            &&& a.staked_amount == 0
            &&& a.created_at == now
            &&& a.last_updated == now
            &&& a.recovery_keys@ == recovery_keys@
        },
{
    if did.as_str().len() > MAX_DID_LEN {
        return Err(IdentityError::DIDTooLong);
    }
    if metadata_uri.as_str().len() > MAX_URI_LEN {
        return Err(IdentityError::URITooLong);
    }
    if recovery_keys.len() > MAX_RECOVERY_KEYS {
        return Err(IdentityError::TooManyRecoveryKeys);
    }
    Ok(
        IdentityAccount {
            authority,
            did,
            metadata_uri,
            verification_bitmap: 0,
            reputation_score: BASE_REPUTATION,
            staked_amount: 0,
            created_at: now,
            last_updated: now,
            recovery_keys,
        },
    )
}

/// Sets or clears the verification bit of claim type `verification_type`;
/// only the configured verification oracle may call it.
pub fn update_verification_status(
    config: &GlobalConfig,
    identity: &mut IdentityAccount,
    caller: &Key,
    verification_type: u8,
    verified: bool,
    now: i64,
) -> (r: Result<(), IdentityError>)
    ensures
        caller@ != config.verification_oracle@ ==> r == Err::<(), IdentityError>(
            IdentityError::UnauthorizedOracle,
        ),
        caller@ == config.verification_oracle@ && verification_type >= 64 ==> r == Err::<
            (),
            IdentityError,
        >(IdentityError::InvalidVerificationType),
        r is Ok <==> caller@ == config.verification_oracle@ && verification_type < 64,
        r is Err ==> *final(identity) == *old(identity),
        r is Ok ==> *final(identity) == (IdentityAccount {
            verification_bitmap: if verified {
                old(identity).verification_bitmap | (1u64 << verification_type)
            } else {
                old(identity).verification_bitmap & !(1u64 << verification_type)
            },
            last_updated: now,
            ..*old(identity)
        }),
        r is Ok ==> forall|i: u64|
            i < 64 ==> has_bit(final(identity).verification_bitmap, i) == if i
                == verification_type {
                verified
            } else {
                has_bit(old(identity).verification_bitmap, i)
            },
{
    if !config.authorizes(caller, Role::VerificationOracle) {
        return Err(IdentityError::UnauthorizedOracle);
    }
    if verification_type >= 64 {
        return Err(IdentityError::InvalidVerificationType);
    }
    let m = identity.verification_bitmap;
    let t = verification_type as u64;
    let next: u64 = if verified {
        m | (1u64 << t)
    } else {
        m & !(1u64 << t)
    };
    proof {
        assert forall|i: u64| i < 64 implies has_bit(next, i) == if i == t {
            verified
        } else {
            has_bit(m, i)
        } by {
            if verified {
                assert(((m | (1u64 << t)) >> i) & 1u64 == 1u64 <==> (i == t || (m >> i) & 1u64
                    == 1u64)) by (bit_vector)
                    requires
                        i < 64,
                        t < 64,
                ;
            } else {
                assert(((m & !(1u64 << t)) >> i) & 1u64 == 1u64 <==> (i != t && (m >> i) & 1u64
                    == 1u64)) by (bit_vector)
                    requires
                        i < 64,
                        t < 64,
                ;
            }
        }
    }
    identity.verification_bitmap = next;
    identity.last_updated = now;
    Ok(())
}

/// Publishes a new score; only the configured reputation engine may call it.
pub fn update_reputation(
    config: &GlobalConfig,
    identity: &mut IdentityAccount,
    caller: &Key,
    new_score: u64,
    now: i64,
) -> (r: Result<(), IdentityError>)
    ensures
        r is Err <==> caller@ != config.reputation_engine@,
        r is Err ==> r == Err::<(), IdentityError>(IdentityError::UnauthorizedReputationEngine)
            && *final(identity) == *old(identity),
        r is Ok ==> *final(identity) == (IdentityAccount {
            reputation_score: new_score,
            last_updated: now,
            ..*old(identity)
        }),
{
    if !config.authorizes(caller, Role::ReputationEngine) {
        return Err(IdentityError::UnauthorizedReputationEngine);
    }
    identity.reputation_score = new_score;
    identity.last_updated = now;
    Ok(())
}

/// Publishes a new stake; only the configured staking manager may call it.
pub fn update_staked_amount(
    config: &GlobalConfig,
    identity: &mut IdentityAccount,
    caller: &Key,
    new_amount: u64,
    now: i64,
) -> (r: Result<(), IdentityError>)
    ensures
        r is Err <==> caller@ != config.staking_manager@,
        r is Err ==> r == Err::<(), IdentityError>(IdentityError::UnauthorizedStakingManager)
            && *final(identity) == *old(identity),
        r is Ok ==> *final(identity) == (IdentityAccount {
            staked_amount: new_amount,
            last_updated: now,
            ..*old(identity)
        }),
{
    if !config.authorizes(caller, Role::StakingManager) {
        return Err(IdentityError::UnauthorizedStakingManager);
    }
    identity.staked_amount = new_amount;
    identity.last_updated = now;
    Ok(())
}

/// Adds a key that may later recover the identity.
pub fn add_recovery_key(identity: &mut IdentityAccount, recovery_key: Key, now: i64) -> (r: Result<
    (),
    IdentityError,
>)
    ensures
        r is Err <==> old(identity).recovery_keys@.len() >= MAX_RECOVERY_KEYS,
        r is Err ==> r == Err::<(), IdentityError>(IdentityError::TooManyRecoveryKeys),
        r is Err ==> *final(identity) == *old(identity),
        r is Ok ==> final(identity).recovery_keys@ == old(identity).recovery_keys@.push(
            recovery_key,
        ),
        r is Ok ==> final(identity).last_updated == now,
        r is Ok ==> final(identity).authority == old(identity).authority
            && final(identity).did == old(identity).did
            && final(identity).metadata_uri == old(identity).metadata_uri
            && final(identity).verification_bitmap == old(identity).verification_bitmap
            && final(identity).reputation_score == old(identity).reputation_score
            && final(identity).staked_amount == old(identity).staked_amount
            && final(identity).created_at == old(identity).created_at,
{
    if identity.recovery_keys.len() >= MAX_RECOVERY_KEYS {
        return Err(IdentityError::TooManyRecoveryKeys);
    }
    identity.recovery_keys.push(recovery_key);
    identity.last_updated = now;
    Ok(())
}

/// Hands control to `new_authority`; only a recovery key may call it.
pub fn recover_identity(
    identity: &mut IdentityAccount,
    caller: &Key,
    new_authority: Key,
    now: i64,
) -> (r: Result<(), IdentityError>)
    ensures
        r is Ok <==> listed(old(identity).recovery_keys@, caller@),
        r is Err ==> r == Err::<(), IdentityError>(IdentityError::UnauthorizedRecovery),
        r is Err ==> *final(identity) == *old(identity),
        r is Ok ==> *final(identity) == (IdentityAccount {
            authority: new_authority,
            last_updated: now,
            ..*old(identity)
        }),
{
    if !contains_key(&identity.recovery_keys, caller) {
        return Err(IdentityError::UnauthorizedRecovery);
    }
    identity.authority = new_authority;
    identity.last_updated = now;
    Ok(())
}

} // verus!
