use trust_fabric::credential::{
    create_schema, deactivate_issuer, deactivate_schema, initialize, issue_credential,
    reactivate_credential, register_issuer, revoke_credential, suspend_credential,
    transfer_credential, update_config, verify_credential, Credential, CredentialConfig,
    CredentialError, CredentialIssuer, CredentialSchema, CredentialStatus,
};
use trust_fabric::key::Key;

fn key(b: u8) -> Key {
    Key::new([b; 32])
}

fn setup(transferable: bool, revocable: bool) -> (CredentialConfig, CredentialSchema, CredentialIssuer) {
    let mut cfg = initialize(key(1), key(2), 1000, 5000);
    let schema = create_schema(&mut cfg, key(3), [1u8; 32], "Degree".to_string(), 1, 2, transferable, revocable, 0)
        .unwrap();
    let issuer = register_issuer(key(4), key(5), "University".to_string(), 3, 0).unwrap();
    (cfg, schema, issuer)
}

fn issue(cfg: &mut CredentialConfig, schema: &CredentialSchema, issuer: &mut CredentialIssuer, validity: Option<i64>) -> Credential {
    issue_credential(cfg, schema, key(6), issuer, key(7), [2u8; 32], [3u8; 32], validity, "ipfs://c".to_string(), 100)
        .unwrap()
}

#[test]
fn issuing_counts_and_sets_expiry() {
    let (mut cfg, schema, mut issuer) = setup(false, true);
    assert_eq!(cfg.total_schemas, 1);
    let c = issue(&mut cfg, &schema, &mut issuer, None);
    assert_eq!(c.expires_at, 1100);
    assert_eq!(c.status, CredentialStatus::Active);
    assert_eq!(c.issuer, key(4));
    assert_eq!(c.holder, key(7));
    assert_eq!(c.schema, key(6));
    assert_eq!(issuer.credentials_issued, 1);
    assert_eq!(cfg.total_credentials, 1);
    let forever = issue(&mut cfg, &schema, &mut issuer, Some(0));
    assert_eq!(forever.expires_at, 0);
    assert!(verify_credential(&forever, i64::MAX));
}

#[test]
fn issuing_errors() {
    let (mut cfg, mut schema, mut issuer) = setup(false, true);
    let uri = "ipfs://c".to_string();
    assert_eq!(
        issue_credential(&mut cfg, &schema, key(6), &mut issuer, key(7), [0u8; 32], [0u8; 32], Some(5001), uri.clone(), 0)
            .map(|c| c.expires_at),
        Err(CredentialError::ValidityPeriodTooLong)
    );
    assert_eq!(
        issue_credential(&mut cfg, &schema, key(6), &mut issuer, key(7), [0u8; 32], [0u8; 32], None, "u".repeat(257), 0)
            .map(|c| c.expires_at),
        Err(CredentialError::MetadataURITooLong)
    );
    assert_eq!(
        issue_credential(&mut cfg, &schema, key(6), &mut issuer, key(7), [0u8; 32], [0u8; 32], Some(10), uri.clone(), i64::MAX)
            .map(|c| c.expires_at),
        Err(CredentialError::Overflow)
    );
    let mut weak = register_issuer(key(8), key(8), "Weak".to_string(), 1, 0).unwrap();
    assert_eq!(
        issue_credential(&mut cfg, &schema, key(6), &mut weak, key(7), [0u8; 32], [0u8; 32], None, uri.clone(), 0)
            .map(|c| c.expires_at),
        Err(CredentialError::InsufficientIssuerVerification)
    );
    deactivate_issuer(&cfg, &mut weak, &key(1)).unwrap();
    assert_eq!(
        issue_credential(&mut cfg, &schema, key(6), &mut weak, key(7), [0u8; 32], [0u8; 32], None, uri.clone(), 0)
            .map(|c| c.expires_at),
        Err(CredentialError::IssuerNotActive)
    );
    deactivate_schema(&cfg, &mut schema, &key(1)).unwrap();
    assert_eq!(
        issue_credential(&mut cfg, &schema, key(6), &mut issuer, key(7), [0u8; 32], [0u8; 32], None, uri, 0)
            .map(|c| c.expires_at),
        Err(CredentialError::SchemaNotActive)
    );
    assert_eq!(issuer.credentials_issued, 0);
    assert_eq!(cfg.total_credentials, 0);
}

#[test]
fn name_length_limits() {
    let mut cfg = initialize(key(1), key(2), 0, 0);
    assert_eq!(
        create_schema(&mut cfg, key(3), [0u8; 32], "n".repeat(65), 1, 0, false, false, 0).map(|s| s.version),
        Err(CredentialError::SchemaNameTooLong)
    );
    assert_eq!(cfg.total_schemas, 0);
    assert_eq!(
        register_issuer(key(4), key(5), "n".repeat(65), 0, 0).map(|i| i.verification_level),
        Err(CredentialError::SchemaNameTooLong)
    );
    assert!(register_issuer(key(4), key(5), "n".repeat(64), 0, 0).is_ok());
}

#[test]
fn revoke_once() {
    let (mut cfg, schema, mut issuer) = setup(false, true);
    let mut c = issue(&mut cfg, &schema, &mut issuer, None);
    assert_eq!(
        revoke_credential(&schema, &mut issuer, &mut c, "r".repeat(129), 200),
        Err(CredentialError::RevocationReasonTooLong)
    );
    revoke_credential(&schema, &mut issuer, &mut c, "fraud".to_string(), 200).unwrap();
    assert_eq!(c.status, CredentialStatus::Revoked);
    assert_eq!(c.revoked_at, 200);
    assert_eq!(c.revocation_reason, Some("fraud".to_string()));
    assert_eq!(issuer.credentials_revoked, 1);
    assert_eq!(
        revoke_credential(&schema, &mut issuer, &mut c, "again".to_string(), 300),
        Err(CredentialError::CredentialAlreadyRevoked)
    );
    assert!(!verify_credential(&c, 200));
}

#[test]
fn revoke_needs_revocable_schema_and_its_issuer() {
    let (mut cfg, schema, mut issuer) = setup(false, false);
    let mut c = issue(&mut cfg, &schema, &mut issuer, None);
    assert_eq!(
        revoke_credential(&schema, &mut issuer, &mut c, String::new(), 200),
        Err(CredentialError::CredentialNotRevocable)
    );
    let mut other = register_issuer(key(9), key(9), "Other".to_string(), 9, 0).unwrap();
    assert_eq!(
        revoke_credential(&schema, &mut other, &mut c, String::new(), 200),
        Err(CredentialError::UnauthorizedIssuer)
    );
}

#[test]
fn suspend_and_reactivate() {
    let (mut cfg, schema, mut issuer) = setup(false, true);
    let mut c = issue(&mut cfg, &schema, &mut issuer, None);
    assert_eq!(
        reactivate_credential(&issuer, &mut c, 150),
        Err(CredentialError::CredentialNotActive)
    );
    suspend_credential(&issuer, &mut c).unwrap();
    assert_eq!(c.status, CredentialStatus::Suspended);
    assert!(!verify_credential(&c, 150));
    assert_eq!(suspend_credential(&issuer, &mut c), Err(CredentialError::CredentialNotActive));
    reactivate_credential(&issuer, &mut c, 150).unwrap();
    assert_eq!(c.status, CredentialStatus::Active);
    assert!(verify_credential(&c, 1100));
    assert!(!verify_credential(&c, 1101));
}

#[test]
fn expired_credential_stays_suspended() {
    let (mut cfg, schema, mut issuer) = setup(false, true);
    let mut c = issue(&mut cfg, &schema, &mut issuer, None);
    suspend_credential(&issuer, &mut c).unwrap();
    assert_eq!(
        reactivate_credential(&issuer, &mut c, 1101),
        Err(CredentialError::CredentialExpired)
    );
    assert_eq!(c.status, CredentialStatus::Suspended);
}

#[test]
fn transfer_rules() {
    let (mut cfg, schema, mut issuer) = setup(true, true);
    let mut c = issue(&mut cfg, &schema, &mut issuer, None);
    assert_eq!(
        transfer_credential(&schema, &mut c, &key(8), key(9)),
        Err(CredentialError::UnauthorizedHolder)
    );
    transfer_credential(&schema, &mut c, &key(7), key(9)).unwrap();
    assert_eq!(c.holder, key(9));
    let (mut cfg2, fixed, mut issuer2) = setup(false, true);
    let mut d = issue(&mut cfg2, &fixed, &mut issuer2, None);
    assert_eq!(
        transfer_credential(&fixed, &mut d, &key(7), key(9)),
        Err(CredentialError::CredentialNotTransferable)
    );
    suspend_credential(&issuer, &mut c).unwrap();
    assert_eq!(
        transfer_credential(&schema, &mut c, &key(9), key(7)),
        Err(CredentialError::CredentialNotActive)
    );
}

#[test]
fn credential_admin_actions() {
    let (mut cfg, mut schema, mut issuer) = setup(false, true);
    assert_eq!(deactivate_schema(&cfg, &mut schema, &key(2)), Err(CredentialError::UnauthorizedAdmin));
    assert_eq!(deactivate_issuer(&cfg, &mut issuer, &key(2)), Err(CredentialError::UnauthorizedAdmin));
    assert!(schema.active && issuer.active);
    assert_eq!(update_config(&mut cfg, &key(2), Some(1), None), Err(CredentialError::UnauthorizedAdmin));
    update_config(&mut cfg, &key(1), Some(10), Some(20)).unwrap();
    assert_eq!(cfg.default_validity_period, 10);
    assert_eq!(cfg.max_validity_period, 20);
}
