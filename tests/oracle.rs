use trust_fabric::key::Key;
use trust_fabric::oracle::{
    deregister_oracle, expire_verification, finalize_verification, initialize, register_oracle,
    request_verification, slash_oracle, submit_verification, update_config, OracleConfig,
    OracleError, OracleNode, OracleStatus, VerificationRequest, VerificationStatus, MAX_ORACLES,
};
use trust_fabric::staking::SlashReason;

fn key(b: u8) -> Key {
    Key::new([b; 32])
}

fn config(required: u8) -> OracleConfig {
    initialize(key(1), key(2), key(3), 1000, 50, required, 100, 500)
}

fn oracle(config: &mut OracleConfig, b: u8) -> OracleNode {
    register_oracle(config, key(b), key(b), 0).unwrap()
}

fn request(config: &mut OracleConfig) -> VerificationRequest {
    request_verification(config, key(40), 2, [7u8; 32], 1000).unwrap()
}

fn vote(config: &mut OracleConfig, req: &mut VerificationRequest, b: u8, yes: bool) {
    let mut node = oracle(config, b);
    submit_verification(&mut node, req, key(99), yes, [0u8; 32], 1001).unwrap();
}

#[test]
fn majority_confirms() {
    let mut cfg = config(3);
    let mut req = request(&mut cfg);
    vote(&mut cfg, &mut req, 10, true);
    vote(&mut cfg, &mut req, 11, true);
    vote(&mut cfg, &mut req, 12, false);
    assert_eq!(finalize_verification(&cfg, &mut req), Ok(true));
    assert_eq!(req.status, VerificationStatus::Verified);
    assert_eq!(req.result, Some(true));
}

#[test]
fn majority_rejects() {
    let mut cfg = config(3);
    let mut req = request(&mut cfg);
    vote(&mut cfg, &mut req, 10, true);
    vote(&mut cfg, &mut req, 11, false);
    vote(&mut cfg, &mut req, 12, false);
    assert_eq!(finalize_verification(&cfg, &mut req), Ok(false));
    assert_eq!(req.status, VerificationStatus::Rejected);
    assert_eq!(req.result, Some(false));
}

#[test]
fn tie_rejects() {
    let mut cfg = config(2);
    let mut req = request(&mut cfg);
    vote(&mut cfg, &mut req, 10, true);
    vote(&mut cfg, &mut req, 11, false);
    assert_eq!(finalize_verification(&cfg, &mut req), Ok(false));
}

#[test]
fn finalize_twice_fails_and_keeps_result() {
    let mut cfg = config(1);
    let mut req = request(&mut cfg);
    vote(&mut cfg, &mut req, 10, true);
    assert_eq!(finalize_verification(&cfg, &mut req), Ok(true));
    assert_eq!(
        finalize_verification(&cfg, &mut req),
        Err(OracleError::AlreadyFinalized)
    );
    assert_eq!(req.result, Some(true));
    assert_eq!(
        expire_verification(&mut req, 5000),
        Err(OracleError::AlreadyFinalized)
    );
    let mut late = oracle(&mut cfg, 11);
    assert_eq!(
        submit_verification(&mut late, &mut req, key(99), false, [0u8; 32], 1002).map(|r| r.verified),
        Err(OracleError::RequestNotPending)
    );
    assert_eq!(req.result, Some(true));
    assert_eq!(req.status, VerificationStatus::Verified);
}

#[test]
fn finalize_needs_quorum() {
    let mut cfg = config(3);
    let mut req = request(&mut cfg);
    assert_eq!(
        finalize_verification(&cfg, &mut req),
        Err(OracleError::RequestNotPending)
    );
    vote(&mut cfg, &mut req, 10, true);
    vote(&mut cfg, &mut req, 11, true);
    assert_eq!(
        finalize_verification(&cfg, &mut req),
        Err(OracleError::InsufficientConfirmations)
    );
    assert_eq!(req.status, VerificationStatus::InProgress);
    assert_eq!(req.result, None);
}

#[test]
fn first_vote_moves_request_in_progress() {
    let mut cfg = config(3);
    let mut req = request(&mut cfg);
    assert_eq!(req.status, VerificationStatus::Pending);
    assert_eq!(req.deadline, 1100);
    assert_eq!(req.fee_paid, 50);
    assert_eq!(cfg.total_verifications, 1);
    let mut node = oracle(&mut cfg, 10);
    let resp = submit_verification(&mut node, &mut req, key(99), true, [5u8; 32], 1001).unwrap();
    assert_eq!(req.status, VerificationStatus::InProgress);
    assert_eq!(req.confirmations, 1);
    assert_eq!(req.responded_oracles, vec![key(10)]);
    assert_eq!(resp.oracle, key(10));
    assert_eq!(resp.request, key(99));
    assert_eq!(resp.metadata_hash, [5u8; 32]);
    assert_eq!(node.verifications_submitted, 1);
    assert_eq!(node.last_active, 1001);
}

#[test]
fn oracle_cannot_vote_twice() {
    let mut cfg = config(3);
    let mut req = request(&mut cfg);
    let mut node = oracle(&mut cfg, 10);
    submit_verification(&mut node, &mut req, key(99), true, [0u8; 32], 1001).unwrap();
    assert_eq!(
        submit_verification(&mut node, &mut req, key(99), false, [0u8; 32], 1002).map(|r| r.verified),
        Err(OracleError::AlreadyResponded)
    );
    assert_eq!(req.responded_oracles.len(), 1);
    assert_eq!(req.rejections, 0);
}

#[test]
fn eleventh_oracle_is_refused() {
    let mut cfg = config(3);
    let mut req = request(&mut cfg);
    for b in 0..MAX_ORACLES as u8 {
        vote(&mut cfg, &mut req, 10 + b, b % 2 == 0);
    }
    assert_eq!(req.responded_oracles.len(), 10);
    let mut node = oracle(&mut cfg, 30);
    assert_eq!(
        submit_verification(&mut node, &mut req, key(99), true, [0u8; 32], 1001).map(|r| r.verified),
        Err(OracleError::MaxOraclesReached)
    );
    assert_eq!(req.responded_oracles.len(), 10);
}

#[test]
fn vote_after_deadline_is_refused() {
    let mut cfg = config(3);
    let mut req = request(&mut cfg);
    let mut node = oracle(&mut cfg, 10);
    assert_eq!(
        submit_verification(&mut node, &mut req, key(99), true, [0u8; 32], 1101).map(|r| r.verified),
        Err(OracleError::RequestExpired)
    );
    assert!(submit_verification(&mut node, &mut req, key(99), true, [0u8; 32], 1100).is_ok());
}

#[test]
fn expiry_after_deadline() {
    let mut cfg = config(3);
    let mut req = request(&mut cfg);
    assert_eq!(
        expire_verification(&mut req, 1100),
        Err(OracleError::DeadlineNotReached)
    );
    assert_eq!(expire_verification(&mut req, 1101), Ok(()));
    assert_eq!(req.status, VerificationStatus::Expired);
    assert_eq!(req.result, None);
    assert_eq!(
        finalize_verification(&cfg, &mut req),
        Err(OracleError::RequestNotPending)
    );
}

#[test]
fn invalid_verification_type() {
    let mut cfg = config(3);
    assert_eq!(
        request_verification(&mut cfg, key(40), 64, [0u8; 32], 0).map(|r| r.verification_type),
        Err(OracleError::InvalidVerificationType)
    );
    assert_eq!(cfg.total_verifications, 0);
}

#[test]
fn request_deadline_overflow() {
    let mut cfg = config(3);
    assert_eq!(
        request_verification(&mut cfg, key(40), 1, [0u8; 32], i64::MAX).map(|r| r.deadline),
        Err(OracleError::Overflow)
    );
}

#[test]
fn third_slash_bars_oracle() {
    let mut cfg = config(3);
    let mut node = oracle(&mut cfg, 10);
    assert_eq!(cfg.active_oracle_count, 1);
    slash_oracle(&mut cfg, &mut node, &key(1), SlashReason::Timeout).unwrap();
    slash_oracle(&mut cfg, &mut node, &key(1), SlashReason::Timeout).unwrap();
    assert_eq!(node.status, OracleStatus::Active);
    slash_oracle(&mut cfg, &mut node, &key(1), SlashReason::ConsensusViolation).unwrap();
    assert_eq!(node.status, OracleStatus::Slashed);
    assert_eq!(node.slash_count, 3);
    assert_eq!(node.failed_verifications, 3);
    assert_eq!(cfg.active_oracle_count, 0);
    let mut req = request(&mut cfg);
    assert_eq!(
        submit_verification(&mut node, &mut req, key(99), true, [0u8; 32], 1001).map(|r| r.verified),
        Err(OracleError::OracleNotActive)
    );
    slash_oracle(&mut cfg, &mut node, &key(1), SlashReason::Timeout).unwrap();
    assert_eq!(node.status, OracleStatus::Slashed);
    assert_eq!(cfg.active_oracle_count, 0);
    assert_eq!(deregister_oracle(&mut cfg, &mut node), Err(OracleError::OracleNotActive));
    assert_eq!(node.status, OracleStatus::Slashed);
}

#[test]
fn slash_needs_admin() {
    let mut cfg = config(3);
    let mut node = oracle(&mut cfg, 10);
    assert_eq!(
        slash_oracle(&mut cfg, &mut node, &key(9), SlashReason::Timeout),
        Err(OracleError::UnauthorizedAdmin)
    );
    assert_eq!(node.slash_count, 0);
}

#[test]
fn deregistered_oracle_cannot_vote() {
    let mut cfg = config(3);
    let mut node = oracle(&mut cfg, 10);
    deregister_oracle(&mut cfg, &mut node).unwrap();
    assert_eq!(node.status, OracleStatus::Inactive);
    assert_eq!(cfg.active_oracle_count, 0);
    let mut req = request(&mut cfg);
    assert_eq!(
        submit_verification(&mut node, &mut req, key(99), true, [0u8; 32], 1001).map(|r| r.verified),
        Err(OracleError::OracleNotActive)
    );
}

#[test]
fn oracle_config_is_admin_only() {
    let mut cfg = config(3);
    assert_eq!(
        update_config(&mut cfg, &key(9), None, Some(1), None, None, None),
        Err(OracleError::UnauthorizedAdmin)
    );
    update_config(&mut cfg, &key(1), None, Some(1), Some(5), None, None).unwrap();
    assert_eq!(cfg.verification_fee, 1);
    assert_eq!(cfg.required_confirmations, 5);
    assert_eq!(cfg.verification_timeout, 100);
}
