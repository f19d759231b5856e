//! Verifiable credentials: schemas, issuers, and the credentials they issue,
//! with suspension, revocation, transfer and expiry.
use vstd::prelude::*;
use crate::key::Key;
use crate::identity::byte_len;

verus! {

/// Longest schema or issuer name, in bytes.
pub const MAX_NAME_LEN: usize = 64;

/// Longest credential metadata URI, in bytes.
pub const MAX_CREDENTIAL_URI_LEN: usize = 256;

/// Longest revocation reason, in bytes.
pub const MAX_REASON_LEN: usize = 128;

#[derive(Clone, Copy, Debug, PartialEq, Eq, Structural)]
pub enum CredentialError {
    SchemaNameTooLong,
    SchemaNotFound,
    SchemaNotActive,
    IssuerNotRegistered,
    IssuerNotActive,
    InsufficientIssuerVerification,
    CredentialNotFound,
    CredentialNotActive,
    CredentialAlreadyRevoked,
    CredentialExpired,
    CredentialNotTransferable,
    CredentialNotRevocable,
    HolderIdentityNotFound,
    UnauthorizedAdmin,
    UnauthorizedIssuer,
    UnauthorizedHolder,
    MetadataURITooLong,
    RevocationReasonTooLong,
    ValidityPeriodTooLong,
    Overflow,
}

#[derive(Clone, Copy, Debug, PartialEq, Eq, Structural)]
pub enum CredentialStatus {
    Active,
    Suspended,
    Revoked,
    Expired,
}

/// Settings and counters of the credential manager.
#[derive(Clone, Copy, Debug)]
pub struct CredentialConfig {
    pub admin: Key,
    pub identity_registry: Key,
    /// Validity in seconds when an issuer gives none; 0 or less never expires.
    pub default_validity_period: i64,
    pub max_validity_period: i64,
    pub total_schemas: u64,
    pub total_credentials: u64,
}

/// The shape of a kind of credential.
#[derive(Clone, Debug)]
pub struct CredentialSchema {
    pub schema_id: [u8; 32],
    pub name: String,
    pub version: u16,
    pub creator: Key,
    /// Least verification level of an issuer of this schema.
    pub required_issuer_verification: u8,
    pub transferable: bool,
    pub revocable: bool,
    pub active: bool,
    pub created_at: i64,
}

/// A party that issues credentials.
#[derive(Clone, Debug)]
pub struct CredentialIssuer {
    pub authority: Key,
    pub identity: Key,
    pub name: String,
    pub verification_level: u8,
    pub credentials_issued: u64,
    pub credentials_revoked: u64,
    pub active: bool,
    pub registered_at: i64,
}

/// An issued credential.
#[derive(Clone, Debug)]
pub struct Credential {
    pub credential_id: [u8; 32],
    pub schema: Key,
    pub holder: Key,
    pub issuer: Key,
    pub claims_hash: [u8; 32],
    pub status: CredentialStatus,
    pub issued_at: i64,
    /// Expiry time; 0 for never.
    pub expires_at: i64,
    /// Revocation time; 0 when not revoked.
    pub revoked_at: i64,
    pub revocation_reason: Option<String>,
    pub metadata_uri: String,
}

/// Whether a credential with expiry `expires_at` has expired at `now`.
pub open spec fn is_expired(expires_at: i64, now: i64) -> bool {
    expires_at > 0 && now > expires_at
}

/// Sets up the credential manager with no schemas and no credentials.
pub fn initialize(
    admin: Key,
    identity_registry: Key,
    default_validity_period: i64,
    max_validity_period: i64,
) -> (r: CredentialConfig)
    ensures
        r == (CredentialConfig {
            admin,
            identity_registry,
            default_validity_period,
            max_validity_period,
            total_schemas: 0,
            total_credentials: 0,
        }),
{
    CredentialConfig {
        admin,
        identity_registry,
        default_validity_period,
        max_validity_period,
        total_schemas: 0,
        total_credentials: 0,
    }
}

/// Creates an active schema.
pub fn create_schema(
    config: &mut CredentialConfig,
    creator: Key,
    schema_id: [u8; 32],
    name: String,
    version: u16,
    required_issuer_verification: u8,
    transferable: bool,
    revocable: bool,
    now: i64,
) -> (r: Result<CredentialSchema, CredentialError>)
    ensures
        byte_len(&name) > MAX_NAME_LEN ==> r == Err::<CredentialSchema, CredentialError>(
            CredentialError::SchemaNameTooLong,
        ),
        byte_len(&name) <= MAX_NAME_LEN ==> (r is Ok <==> old(config).total_schemas < u64::MAX),
        byte_len(&name) <= MAX_NAME_LEN && r is Err ==> r == Err::<
            CredentialSchema,
            CredentialError,
        >(CredentialError::Overflow),
        r is Err ==> *final(config) == *old(config),
        r is Ok ==> *final(config) == (CredentialConfig {
            total_schemas: (old(config).total_schemas + 1) as u64,
            ..*old(config)
        }),
        r is Ok ==> r->Ok_0 == (CredentialSchema {
            schema_id,
            name,
            version,
            creator,
            required_issuer_verification,
            transferable,
            revocable,
            active: true,
            created_at: now,
        }),
{
    if name.as_str().len() > MAX_NAME_LEN {
        return Err(CredentialError::SchemaNameTooLong);
    }
    let total = match config.total_schemas.checked_add(1) {
        Some(v) => v,
        None => {
            return Err(CredentialError::Overflow);
        },
    };
    config.total_schemas = total;
    Ok(
        CredentialSchema {
            schema_id,
            name,
            version,
            creator,
            required_issuer_verification,
            transferable,
            revocable,
            active: true,
            created_at: now,
        },
    )
}

/// Registers an active issuer controlled by `authority`.
pub fn register_issuer(
    authority: Key,
    identity: Key,
    name: String,
    verification_level: u8,
    now: i64,
) -> (r: Result<CredentialIssuer, CredentialError>)
    ensures
        r is Err <==> byte_len(&name) > MAX_NAME_LEN,
        r is Err ==> r == Err::<CredentialIssuer, CredentialError>(
            CredentialError::SchemaNameTooLong,
        ),
        r is Ok ==> r->Ok_0 == (CredentialIssuer {
            authority,
            identity,
            name,
            verification_level,
            credentials_issued: 0,
            credentials_revoked: 0,
            active: true,
            registered_at: now,
        }),
{
    if name.as_str().len() > MAX_NAME_LEN {
        return Err(CredentialError::SchemaNameTooLong);
    }
    Ok(
        CredentialIssuer {
            authority,
            identity,
            name,
            verification_level,
            credentials_issued: 0,
            credentials_revoked: 0,
            active: true,
            registered_at: now,
        },
    )
}

/// Validity period that applies: the one given, else the default.
pub open spec fn validity_of(config: CredentialConfig, validity_period: Option<i64>) -> int {
    match validity_period {
        Some(v) => v as int,
        None => config.default_validity_period as int,
    }
}

/// Why a credential cannot be issued, checked in order; `None` when it can.
pub open spec fn issue_error(
    config: CredentialConfig,
    schema: CredentialSchema,
    issuer: CredentialIssuer,
    validity_period: Option<i64>,
    metadata_uri: String,
    now: i64,
) -> Option<CredentialError> {
    let validity = validity_of(config, validity_period);
    if !schema.active {
        Some(CredentialError::SchemaNotActive)
    } else if !issuer.active {
        Some(CredentialError::IssuerNotActive)
    } else if issuer.verification_level < schema.required_issuer_verification {
        Some(CredentialError::InsufficientIssuerVerification)
    } else if byte_len(&metadata_uri) > MAX_CREDENTIAL_URI_LEN {
        Some(CredentialError::MetadataURITooLong)
    } else if validity > config.max_validity_period {
        Some(CredentialError::ValidityPeriodTooLong)
    } else if (validity > 0 && now + validity > i64::MAX) || issuer.credentials_issued == u64::MAX
        || config.total_credentials == u64::MAX {
        Some(CredentialError::Overflow)
    } else {
        None
    }
}

/// Issues a credential of `schema` (at address `schema_key`) to `holder`.
/// It expires after the validity period, or never when that is not
/// positive.
pub fn issue_credential(
    config: &mut CredentialConfig,
    schema: &CredentialSchema,
    schema_key: Key,
    issuer: &mut CredentialIssuer,
    holder: Key,
    credential_id: [u8; 32],
    claims_hash: [u8; 32],
    validity_period: Option<i64>,
    metadata_uri: String,
    now: i64,
) -> (r: Result<Credential, CredentialError>)
    ensures
        ({
            let err = issue_error(
                *old(config),
                *schema,
                *old(issuer),
                validity_period,
                metadata_uri,
                now,
            );
            &&& r is Ok <==> err is None
            &&& r is Err ==> r == Err::<Credential, CredentialError>(err->Some_0)
        }),
        r is Err ==> *final(config) == *old(config) && *final(issuer) == *old(issuer),
        r is Ok ==> *final(config) == (CredentialConfig {
            total_credentials: (old(config).total_credentials + 1) as u64,
            ..*old(config)
        }),
        r is Ok ==> *final(issuer) == (CredentialIssuer {
            credentials_issued: (old(issuer).credentials_issued + 1) as u64,
            ..*old(issuer)
        }),
        r is Ok ==> ({
            let validity = validity_of(*old(config), validity_period);
            r->Ok_0 == (Credential {
                credential_id,
                schema: schema_key,
                holder,
                issuer: old(issuer).authority,
                claims_hash,
                status: CredentialStatus::Active,
                issued_at: now,
                expires_at: if validity > 0 {
                    (now + validity) as i64
                } else {
                    0
                },
                revoked_at: 0,
                revocation_reason: None,
                metadata_uri,
            })
        }),
{
    if !schema.active {
        return Err(CredentialError::SchemaNotActive);
    }
    if !issuer.active {
        return Err(CredentialError::IssuerNotActive);
    }
    if issuer.verification_level < schema.required_issuer_verification {
        return Err(CredentialError::InsufficientIssuerVerification);
    }
    if metadata_uri.as_str().len() > MAX_CREDENTIAL_URI_LEN {
        return Err(CredentialError::MetadataURITooLong);
    }
    let validity = match validity_period {
        Some(v) => v,
        None => config.default_validity_period,
    };
    if validity > config.max_validity_period {
        return Err(CredentialError::ValidityPeriodTooLong);
    }
    let expires_at = if validity > 0 {
        match now.checked_add(validity) {
            Some(v) => v,
            None => {
                return Err(CredentialError::Overflow);
            },
        }
    } else {
        0
    };
    let issued = match issuer.credentials_issued.checked_add(1) {
        Some(v) => v,
        None => {
            return Err(CredentialError::Overflow);
        },
    };
    let total = match config.total_credentials.checked_add(1) {
        Some(v) => v,
        None => {
            return Err(CredentialError::Overflow);
        },
    };
    issuer.credentials_issued = issued;
    config.total_credentials = total;
    Ok(
        Credential {
            credential_id,
            schema: schema_key,
            holder,
            issuer: issuer.authority,
            claims_hash,
            status: CredentialStatus::Active,
            issued_at: now,
            expires_at,
            revoked_at: 0,
            revocation_reason: None,
            metadata_uri,
        },
    )
}

/// Why `issuer` cannot revoke `credential` of `schema` for `reason`,
/// checked in order; `None` when it can.
pub open spec fn revoke_error(
    schema: CredentialSchema,
    issuer: CredentialIssuer,
    credential: Credential,
    reason: String,
) -> Option<CredentialError> {
    if credential.issuer@ != issuer.authority@ {
        Some(CredentialError::UnauthorizedIssuer)
    } else if !schema.revocable {
        Some(CredentialError::CredentialNotRevocable)
    } else if credential.status == CredentialStatus::Revoked {
        Some(CredentialError::CredentialAlreadyRevoked)
    } else if byte_len(&reason) > MAX_REASON_LEN {
        Some(CredentialError::RevocationReasonTooLong)
    } else if issuer.credentials_revoked == u64::MAX {
        Some(CredentialError::Overflow)
    } else {
        None
    }
}

/// Revokes a credential of a revocable schema, for `reason`; only its
/// issuer may call it.
pub fn revoke_credential(
    schema: &CredentialSchema,
    issuer: &mut CredentialIssuer,
    credential: &mut Credential,
    reason: String,
    now: i64,
) -> (r: Result<(), CredentialError>)
    ensures
        ({
            let err = revoke_error(*schema, *old(issuer), *old(credential), reason);
            &&& r is Ok <==> err is None
            &&& r is Err ==> r == Err::<(), CredentialError>(err->Some_0)
        }),
        r is Err ==> *final(issuer) == *old(issuer) && *final(credential) == *old(credential),
        r is Ok ==> *final(credential) == (Credential {
            status: CredentialStatus::Revoked,
            revoked_at: now,
            revocation_reason: Some(reason),
            ..*old(credential)
        }),
        r is Ok ==> *final(issuer) == (CredentialIssuer {
            credentials_revoked: (old(issuer).credentials_revoked + 1) as u64,
            ..*old(issuer)
        }),
{
    if !credential.issuer.same(&issuer.authority) {
        return Err(CredentialError::UnauthorizedIssuer);
    }
    if !schema.revocable {
        return Err(CredentialError::CredentialNotRevocable);
    }
    if credential.status == CredentialStatus::Revoked {
        return Err(CredentialError::CredentialAlreadyRevoked);
    }
    if reason.as_str().len() > MAX_REASON_LEN {
        return Err(CredentialError::RevocationReasonTooLong);
    }
    let revoked = match issuer.credentials_revoked.checked_add(1) {
        Some(v) => v,
        None => {
            return Err(CredentialError::Overflow);
        },
    };
    credential.status = CredentialStatus::Revoked;
    credential.revoked_at = now;
    credential.revocation_reason = Some(reason);
    issuer.credentials_revoked = revoked;
    Ok(())
}

/// Suspends an active credential; only its issuer may call it.
pub fn suspend_credential(issuer: &CredentialIssuer, credential: &mut Credential) -> (r: Result<
    (),
    CredentialError,
>)
    ensures
        old(credential).issuer@ != issuer.authority@ ==> r == Err::<(), CredentialError>(
            CredentialError::UnauthorizedIssuer,
        ),
        old(credential).issuer@ == issuer.authority@ && old(credential).status
            != CredentialStatus::Active ==> r == Err::<(), CredentialError>(
            CredentialError::CredentialNotActive,
        ),
        r is Ok <==> old(credential).issuer@ == issuer.authority@ && old(credential).status
            == CredentialStatus::Active,
        r is Err ==> *final(credential) == *old(credential),
        r is Ok ==> *final(credential) == (Credential {
            status: CredentialStatus::Suspended,
            ..*old(credential)
        }),
{
    if !credential.issuer.same(&issuer.authority) {
        return Err(CredentialError::UnauthorizedIssuer);
    }
    if credential.status != CredentialStatus::Active {
        return Err(CredentialError::CredentialNotActive);
    }
    credential.status = CredentialStatus::Suspended;
    Ok(())
}

/// Makes a suspended credential active again, unless it has expired
/// meanwhile; only its issuer may call it.
pub fn reactivate_credential(
    issuer: &CredentialIssuer,
    credential: &mut Credential,
    now: i64,
) -> (r: Result<(), CredentialError>)
    ensures
        old(credential).issuer@ != issuer.authority@ ==> r == Err::<(), CredentialError>(
            CredentialError::UnauthorizedIssuer,
        ),
        old(credential).issuer@ == issuer.authority@ && old(credential).status
            != CredentialStatus::Suspended ==> r == Err::<(), CredentialError>(
            CredentialError::CredentialNotActive,
        ),
        old(credential).issuer@ == issuer.authority@ && old(credential).status
            == CredentialStatus::Suspended && is_expired(old(credential).expires_at, now) ==> r
            == Err::<(), CredentialError>(CredentialError::CredentialExpired),
        r is Ok <==> old(credential).issuer@ == issuer.authority@ && old(credential).status
            == CredentialStatus::Suspended && !is_expired(old(credential).expires_at, now),
        r is Err ==> *final(credential) == *old(credential),
        r is Ok ==> *final(credential) == (Credential {
            status: CredentialStatus::Active,
            ..*old(credential)
        }),
{
    if !credential.issuer.same(&issuer.authority) {
        return Err(CredentialError::UnauthorizedIssuer);
    }
    if credential.status != CredentialStatus::Suspended {
        return Err(CredentialError::CredentialNotActive);
    }
    if credential.expires_at > 0 && now > credential.expires_at {
        return Err(CredentialError::CredentialExpired);
    }
    credential.status = CredentialStatus::Active;
    Ok(())
}

/// Hands an active credential of a transferable schema to `new_holder`;
/// only its holder (`caller`) may call it.
pub fn transfer_credential(
    schema: &CredentialSchema,
    credential: &mut Credential,
    caller: &Key,
    new_holder: Key,
) -> (r: Result<(), CredentialError>)
    ensures
        old(credential).holder@ != caller@ ==> r == Err::<(), CredentialError>(
            CredentialError::UnauthorizedHolder,
        ),
        old(credential).holder@ == caller@ && !schema.transferable ==> r == Err::<
            (),
            CredentialError,
        >(CredentialError::CredentialNotTransferable),
        old(credential).holder@ == caller@ && schema.transferable && old(credential).status
            != CredentialStatus::Active ==> r == Err::<(), CredentialError>(
            CredentialError::CredentialNotActive,
        ),
        r is Ok <==> old(credential).holder@ == caller@ && schema.transferable
            && old(credential).status == CredentialStatus::Active,
        r is Err ==> *final(credential) == *old(credential),
        r is Ok ==> *final(credential) == (Credential { holder: new_holder, ..*old(credential) }),
{
    if !credential.holder.same(caller) {
        return Err(CredentialError::UnauthorizedHolder);
    }
    if !schema.transferable {
        return Err(CredentialError::CredentialNotTransferable);
    }
    if credential.status != CredentialStatus::Active {
        return Err(CredentialError::CredentialNotActive);
    }
    credential.holder = new_holder;
    Ok(())
}

/// Whether a credential is valid at `now`: active and not expired.
pub fn verify_credential(credential: &Credential, now: i64) -> (r: bool)
    ensures
        r == (credential.status == CredentialStatus::Active && !is_expired(
            credential.expires_at,
            now,
        )),
{
    match credential.status {
        CredentialStatus::Active => !(credential.expires_at > 0 && now > credential.expires_at),
        _ => false,
    }
}

/// Closes a schema to new credentials; only the admin may call it.
pub fn deactivate_schema(
    config: &CredentialConfig,
    schema: &mut CredentialSchema,
    caller: &Key,
) -> (r: Result<(), CredentialError>)
    ensures
        r is Err <==> caller@ != config.admin@,
        r is Err ==> r == Err::<(), CredentialError>(CredentialError::UnauthorizedAdmin)
            && *final(schema) == *old(schema),
        r is Ok ==> *final(schema) == (CredentialSchema { active: false, ..*old(schema) }),
{
    if !caller.same(&config.admin) {
        return Err(CredentialError::UnauthorizedAdmin);
    }
    schema.active = false;
    Ok(())
}

/// Bars an issuer from issuing; only the admin may call it.
pub fn deactivate_issuer(
    config: &CredentialConfig,
    issuer: &mut CredentialIssuer,
    caller: &Key,
) -> (r: Result<(), CredentialError>)
    ensures
        r is Err <==> caller@ != config.admin@,
        r is Err ==> r == Err::<(), CredentialError>(CredentialError::UnauthorizedAdmin)
            && *final(issuer) == *old(issuer),
        r is Ok ==> *final(issuer) == (CredentialIssuer { active: false, ..*old(issuer) }),
{
    if !caller.same(&config.admin) {
        return Err(CredentialError::UnauthorizedAdmin);
    }
    issuer.active = false;
    Ok(())
}

/// Replaces the given validity settings; only the admin may call it.
pub fn update_config(
    config: &mut CredentialConfig,
    caller: &Key,
    default_validity_period: Option<i64>,
    max_validity_period: Option<i64>,
) -> (r: Result<(), CredentialError>)
    ensures
        r is Err <==> caller@ != old(config).admin@,
        r is Err ==> r == Err::<(), CredentialError>(CredentialError::UnauthorizedAdmin)
            && *final(config) == *old(config),
        r is Ok ==> *final(config) == (CredentialConfig {
            default_validity_period: default_validity_period.unwrap_or(
                old(config).default_validity_period,
            ),
            max_validity_period: max_validity_period.unwrap_or(old(config).max_validity_period),
            ..*old(config)
        }),
{
    if !caller.same(&config.admin) {
        return Err(CredentialError::UnauthorizedAdmin);
    }
    if let Some(v) = default_validity_period {
        config.default_validity_period = v;
    }
    if let Some(v) = max_validity_period {
        config.max_validity_period = v;
    }
    Ok(())
}

} // verus!
