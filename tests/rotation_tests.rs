use agentid::agent::AgentId;
use agentid::clock::NANOS_PER_DAY;
use agentid::crypto::{KeyManager, KeyPair};
use agentid::lifecycle::{StateTransition, TrustLifecycle, TrustState};
use agentid::rotation::{
    apply_trust_impact, create_rotation_policy, required_rotation_level, RotationConfig, RotationCoordinator, RotationError,
    RotationRecord, RotationStatus,
};
use agentid::score::TrustLevel;
use agentid::selector::VerifierCandidate;
use agentid::verification::{VerificationResult, VerificationStatus};

const DAY: i64 = NANOS_PER_DAY;

fn config() -> RotationConfig {
    RotationConfig::new(90 * DAY, 7 * DAY, 365 * DAY, true).unwrap()
}

fn active_lifecycle() -> TrustLifecycle {
    let mut l = TrustLifecycle::new();
    l.apply_transition(StateTransition::new(TrustState::Establishing, "start".to_string())).unwrap();
    l.apply_transition(StateTransition::new(TrustState::Active, "established".to_string())).unwrap();
    l
}

fn coordinator(level: TrustLevel) -> RotationCoordinator {
    let keys = KeyPair::generate().unwrap();
    RotationCoordinator::new(AgentId::new("test-agent"), KeyManager::new(keys, 128), config(), active_lifecycle(), level)
}

fn candidate(name: &str, level: TrustLevel, successes: u32) -> VerifierCandidate {
    VerifierCandidate { agent: AgentId::new(name), level, successful_verifications: successes, is_stable: true, recently_active: true }
}

fn high_pool(n: usize) -> Vec<VerifierCandidate> {
    (0..n).map(|i| candidate(&format!("verifier{}", i + 1), TrustLevel::High, i as u32)).collect()
}

fn attest(c: &mut RotationCoordinator, verifier: &AgentId, status: VerificationStatus) -> Result<(), RotationError> {
    let proof = c.ownership_proof().unwrap();
    c.submit_attestation(VerificationResult::new(verifier.clone(), status, TrustLevel::High), &proof)
}

/// Runs a first rotation to completion with three successful attestations.
fn complete_first_rotation(c: &mut RotationCoordinator) -> RotationRecord {
    c.begin_rotation().unwrap();
    let chosen = c.select_verifiers(&high_pool(4)).unwrap();
    for v in &chosen {
        attest(c, &v.agent, VerificationStatus::Verified).unwrap();
    }
    c.complete_rotation().unwrap()
}

#[test]
fn test_rotation_error_variants() {
    let invalid_state = RotationError::InvalidState("test".to_string());
    assert!(matches!(invalid_state, RotationError::InvalidState(_)));
    let not_allowed = RotationError::NotAllowed("test".to_string());
    assert!(matches!(not_allowed, RotationError::NotAllowed(_)));
    let verification_failed = RotationError::VerificationFailed("test".to_string());
    assert!(matches!(verification_failed, RotationError::VerificationFailed(_)));
    let distribution_failed = RotationError::DistributionFailed("test".to_string());
    assert!(matches!(distribution_failed, RotationError::DistributionFailed(_)));
    let internal = RotationError::Internal("test".to_string());
    assert!(matches!(internal, RotationError::Internal(_)));
}

#[test]
fn test_rotation_config_validation() {
    let valid_config = RotationConfig::new(90 * DAY, 7 * DAY, 365 * DAY, true).unwrap();
    assert!(valid_config.rotation_period() > valid_config.overlap_period());
    assert!(valid_config.max_key_age() > valid_config.rotation_period());
    let invalid_config = RotationConfig::new(7 * DAY, 90 * DAY, 365 * DAY, true);
    assert!(matches!(invalid_config, Err(RotationError::NotAllowed(_))));
}

#[test]
fn test_rotation_config_management() {
    let config = RotationConfig::new(90 * DAY, 7 * DAY, 365 * DAY, true).unwrap();
    let c = RotationCoordinator::new(
        AgentId::new("test"),
        KeyManager::new(KeyPair::generate().unwrap(), 128),
        config,
        active_lifecycle(),
        TrustLevel::Medium,
    );
    let retrieved_config = c.get_config();
    assert_eq!(retrieved_config.rotation_period(), 90 * DAY);
    assert_eq!(retrieved_config.overlap_period(), 7 * DAY);
    assert_eq!(retrieved_config.max_key_age(), 365 * DAY);
    assert!(retrieved_config.require_verification());
    assert!(RotationConfig::new(7 * DAY, 90 * DAY, 365 * DAY, true).is_err());
}

#[test]
fn config_bounds_are_strict() {
    assert!(RotationConfig::new(7 * DAY, 7 * DAY, 365 * DAY, false).is_err());
    assert!(RotationConfig::new(365 * DAY, 7 * DAY, 365 * DAY, false).is_err());
    assert!(RotationConfig::new(8 * DAY, 7 * DAY, 9 * DAY, false).is_ok());
}

#[test]
fn test_rotation_status_transitions() {
    let scheduled = RotationStatus::Scheduled { scheduled_at: 10 };
    assert!(matches!(scheduled, RotationStatus::Scheduled { .. }));
    let distributing = RotationStatus::Distributing { new_key: KeyPair::generate().unwrap().public_key().clone(), distributed_to: Vec::new() };
    assert!(matches!(distributing, RotationStatus::Distributing { .. }));
    let rotating = RotationStatus::Rotating { new_key: KeyPair::generate().unwrap().public_key().clone(), verifications: Vec::new() };
    assert!(matches!(rotating, RotationStatus::Rotating { .. }));
    let failed = RotationStatus::Failed { reason: "Test failure".to_string(), error: Some("Test error".to_string()) };
    assert!(matches!(failed, RotationStatus::Failed { .. }));
}

#[test]
fn test_rotation_record_creation() {
    let old_key = KeyPair::generate().unwrap().public_key().clone();
    let new_key = KeyPair::generate().unwrap().public_key().clone();
    let record = RotationRecord {
        old_key: old_key.clone(),
        new_key: new_key.clone(),
        rotated_at: 0,
        reason: "Test rotation".to_string(),
        verified: true,
        verified_by: Some(AgentId::new("verifier")),
        verification_count: 1,
        completed: true,
    };
    assert_eq!(record.old_key, old_key);
    assert_eq!(record.new_key, new_key);
    assert!(record.verified);
    assert!(record.verified_by.is_some());
    let copy = record.clone();
    assert_eq!(copy.new_key, new_key);
    assert_eq!(copy.verified_by, record.verified_by);
}

#[test]
fn test_trust_requirements() {
    assert_eq!(required_rotation_level(false, TrustLevel::VeryHigh), TrustLevel::High);
    assert_eq!(required_rotation_level(true, TrustLevel::High), TrustLevel::Medium);
    assert_eq!(required_rotation_level(true, TrustLevel::Medium), TrustLevel::Medium);
    assert_eq!(required_rotation_level(true, TrustLevel::Low), TrustLevel::High);
    let low = create_rotation_policy(TrustLevel::Low, 0);
    assert_eq!(low.min_verifiers, 1);
    assert!(!low.require_consensus);
    let medium = create_rotation_policy(TrustLevel::Medium, 0);
    assert_eq!(medium.min_verifiers, 2);
    assert!(!medium.require_consensus);
}

#[test]
fn test_verification_policy() {
    let high = create_rotation_policy(TrustLevel::High, 7 * DAY);
    assert_eq!(high.min_verifiers, 3);
    assert!(high.require_consensus);
    assert_eq!(high.required_level, TrustLevel::High);
    assert_eq!(high.validity_period, 7 * DAY);
}

#[test]
fn test_rotation_trust_basic() {
    let mut c = coordinator(TrustLevel::High);
    assert_eq!(c.current_policy().required_level, TrustLevel::High);
    assert!(matches!(c.schedule_rotation("Test rotation".to_string()), Err(RotationError::NotAllowed(_))));
    assert!(matches!(c.get_status(), RotationStatus::Stable));
    assert!(matches!(c.cancel_rotation(), Err(RotationError::InvalidState(_))));
}

#[test]
fn test_key_generation_and_validation() {
    let c = coordinator(TrustLevel::High);
    let new_key = c.generate_rotation_key().unwrap();
    assert!(new_key.is_valid());
    let proof = c.generate_ownership_proof(&new_key).unwrap();
    assert!(!proof.is_empty());
    assert!(c.validate_rotation_key(&new_key).is_ok());
    let current = KeyPair::new(c.current_public_key(), new_key.private_key().clone());
    assert!(matches!(c.validate_rotation_key(&current), Err(RotationError::NotAllowed(_))));
}

#[test]
fn test_ownership_proof() {
    let c = coordinator(TrustLevel::High);
    let key_pair = KeyPair::generate().unwrap();
    let proof = c.generate_ownership_proof(&key_pair).unwrap();
    assert_eq!(proof.len(), 96);
    assert_eq!(c.verify_ownership(key_pair.public_key(), &proof), Ok(true));
    let invalid_proof = vec![0u8; 32];
    assert!(matches!(c.verify_ownership(key_pair.public_key(), &invalid_proof), Err(RotationError::InvalidSignature(_))));
    let other = KeyPair::generate().unwrap();
    assert_eq!(c.verify_ownership(other.public_key(), &proof), Ok(false));
    let mut forged = proof.clone();
    forged[0] ^= 1;
    assert_eq!(c.verify_ownership(key_pair.public_key(), &forged), Ok(false));
}

#[test]
fn test_verification_proof_generation() {
    let c = coordinator(TrustLevel::High);
    let key_pair = KeyPair::generate().unwrap();
    let proof = c.generate_ownership_proof(&key_pair).unwrap();
    assert!(!proof.is_empty());
    assert!(c.verify_ownership(key_pair.public_key(), &proof).unwrap());
    assert!(c.verify_ownership(key_pair.public_key(), &vec![0u8; 32]).is_err());
    let wrong_key = KeyPair::generate().unwrap();
    assert!(!c.verify_ownership(wrong_key.public_key(), &proof).unwrap());
}

#[test]
fn complete_before_rotating_is_invalid_state() {
    let mut c = coordinator(TrustLevel::High);
    assert!(matches!(c.complete_rotation(), Err(RotationError::InvalidState(_))));
    c.begin_rotation().unwrap();
    assert!(matches!(c.get_status(), RotationStatus::Distributing { .. }));
    assert!(matches!(c.complete_rotation(), Err(RotationError::InvalidState(_))));
    assert!(matches!(c.get_status(), RotationStatus::Distributing { .. }));
}

#[test]
fn first_rotation_needs_three_successful_attestations() {
    let mut c = coordinator(TrustLevel::High);
    let old_key = c.current_public_key();
    c.begin_rotation().unwrap();
    let new_key = match c.get_status() {
        RotationStatus::Distributing { new_key, .. } => new_key.clone(),
        _ => panic!("expected Distributing"),
    };
    assert_ne!(new_key, old_key);
    let chosen = c.select_verifiers(&high_pool(5)).unwrap();
    assert_eq!(chosen.len(), 3);
    attest(&mut c, &chosen[0].agent, VerificationStatus::Verified).unwrap();
    attest(&mut c, &chosen[1].agent, VerificationStatus::Verified).unwrap();
    assert!(matches!(c.complete_rotation(), Err(RotationError::VerificationFailed(_))));
    assert!(matches!(c.get_status(), RotationStatus::Rotating { verifications, .. } if verifications.len() == 2));
    attest(&mut c, &chosen[2].agent, VerificationStatus::Verified).unwrap();
    let record = c.complete_rotation().unwrap();
    assert!(record.verified);
    assert!(record.completed);
    assert_eq!(record.verification_count, 3);
    assert_eq!(record.old_key, old_key);
    assert_eq!(record.new_key, new_key);
    assert_eq!(record.verified_by.as_ref(), Some(&chosen[0].agent));
    assert!(matches!(c.get_status(), RotationStatus::Complete { .. }));
    assert_eq!(c.current_public_key(), new_key);
}

#[test]
fn consensus_requires_every_attestation_to_succeed() {
    let mut c = coordinator(TrustLevel::High);
    c.begin_rotation().unwrap();
    let chosen = c.select_verifiers(&high_pool(3)).unwrap();
    attest(&mut c, &chosen[0].agent, VerificationStatus::Verified).unwrap();
    attest(&mut c, &chosen[1].agent, VerificationStatus::Failed).unwrap();
    attest(&mut c, &chosen[2].agent, VerificationStatus::Verified).unwrap();
    assert!(matches!(c.complete_rotation(), Err(RotationError::VerificationFailed(_))));
}

#[test]
fn attestations_below_the_required_level_do_not_count() {
    let mut c = coordinator(TrustLevel::High);
    c.begin_rotation().unwrap();
    c.select_verifiers(&high_pool(3)).unwrap();
    let proof = c.ownership_proof().unwrap();
    for name in ["v1", "v2", "v3"] {
        c.submit_attestation(VerificationResult::new(AgentId::new(name), VerificationStatus::Verified, TrustLevel::Medium), &proof)
            .unwrap();
    }
    assert!(matches!(c.complete_rotation(), Err(RotationError::VerificationFailed(_))));
}

#[test]
fn test_verification_process() {
    let mut c = coordinator(TrustLevel::High);
    c.begin_rotation().unwrap();
    let verifier = AgentId::new("verifier");
    attest(&mut c, &verifier, VerificationStatus::Verified).unwrap();
    assert!(matches!(c.get_status(), RotationStatus::Rotating { verifications, .. } if verifications.len() == 1));
    // duplicate verification
    assert!(matches!(attest(&mut c, &verifier, VerificationStatus::Verified), Err(RotationError::NotAllowed(_))));
    // invalid proof
    let r = c.submit_attestation(
        VerificationResult::new(AgentId::new("other"), VerificationStatus::Verified, TrustLevel::High),
        &vec![0u8; 32],
    );
    assert!(matches!(r, Err(RotationError::InvalidSignature(_))));
    let mut forged = c.ownership_proof().unwrap();
    forged[40] ^= 1;
    let r = c.submit_attestation(
        VerificationResult::new(AgentId::new("other"), VerificationStatus::Verified, TrustLevel::High),
        &forged,
    );
    assert!(matches!(r, Err(RotationError::VerificationFailed(_))));
    // self-verification
    let me = c.agent_id().clone();
    assert!(matches!(attest(&mut c, &me, VerificationStatus::Verified), Err(RotationError::NotAllowed(_))));
    assert!(matches!(c.get_status(), RotationStatus::Rotating { verifications, .. } if verifications.len() == 1));
}

#[test]
fn proof_of_another_key_is_rejected() {
    let mut c = coordinator(TrustLevel::High);
    c.begin_rotation().unwrap();
    let stranger = KeyPair::generate().unwrap();
    let proof = c.generate_ownership_proof(&stranger).unwrap();
    let r = c.submit_attestation(
        VerificationResult::new(AgentId::new("v"), VerificationStatus::Verified, TrustLevel::High),
        &proof,
    );
    assert!(matches!(r, Err(RotationError::VerificationFailed(_))));
}

#[test]
fn test_verification_request() {
    let mut c = coordinator(TrustLevel::High);
    c.begin_rotation().unwrap();
    let proof = c.ownership_proof().unwrap();
    let now = chrono::Utc::now().timestamp_nanos_opt().unwrap();
    let late = now + 8 * DAY;
    let r = c.submit_attestation_at(
        VerificationResult::new(AgentId::new("v"), VerificationStatus::Verified, TrustLevel::High),
        &proof,
        late,
    );
    assert!(matches!(r, Err(RotationError::VerificationFailed(_))));
    assert!(matches!(c.get_status(), RotationStatus::Distributing { .. }));
    let r = c.submit_attestation_at(
        VerificationResult::new(AgentId::new("v"), VerificationStatus::Verified, TrustLevel::High),
        &proof,
        now + DAY,
    );
    assert!(r.is_ok());
}

#[test]
fn test_key_distribution() {
    let mut c = coordinator(TrustLevel::High);
    assert!(matches!(c.select_verifiers(&high_pool(3)), Err(RotationError::InvalidState(_))));
    c.begin_rotation().unwrap();
    assert!(matches!(c.select_verifiers(&high_pool(2)), Err(RotationError::NotAllowed(_))));
    assert!(matches!(c.get_status(), RotationStatus::Distributing { .. }));
    let chosen = c.select_verifiers(&high_pool(3)).unwrap();
    assert_eq!(chosen.len(), 3);
    assert!(matches!(c.get_status(), RotationStatus::Rotating { .. }));
}

#[test]
fn cancel_is_rejected_once_failed() {
    let mut c = coordinator(TrustLevel::High);
    c.begin_rotation().unwrap();
    assert!(c.cancel_rotation().is_ok());
    assert!(matches!(c.get_status(), RotationStatus::Failed { reason, error: None } if reason == "cancelled"));
    assert_eq!(c.get_history(None).len(), 1);
    assert!(matches!(c.cancel_rotation(), Err(RotationError::InvalidState(_))));
    assert_eq!(c.get_history(None).len(), 1);
    assert!(c.ownership_proof().is_none());
}

#[test]
fn rotation_requires_a_trusting_lifecycle() {
    let keys = KeyPair::generate().unwrap();
    let mut c = RotationCoordinator::new(AgentId::new("a"), KeyManager::new(keys, 128), config(), TrustLifecycle::new(), TrustLevel::High);
    assert!(matches!(c.begin_rotation(), Err(RotationError::NotAllowed(_))));
    c.transition_lifecycle(StateTransition::new(TrustState::Establishing, "s".to_string())).unwrap();
    c.transition_lifecycle(StateTransition::new(TrustState::Active, "a".to_string())).unwrap();
    assert!(c.begin_rotation().is_ok());
    c.transition_lifecycle(StateTransition::new(TrustState::Suspended, "s".to_string())).unwrap();
    let chosen = c.select_verifiers(&high_pool(3));
    assert!(matches!(chosen, Err(RotationError::NotAllowed(_))));
    assert!(c.cancel_rotation().is_ok());
}

#[test]
fn test_rotation_operations() {
    let mut c = coordinator(TrustLevel::High);
    assert!(matches!(c.get_status(), RotationStatus::Stable));
    assert!(c.schedule_rotation("Test rotation".to_string()).is_err());
    let first = complete_first_rotation(&mut c);
    assert!(first.verified);
    assert!(c.schedule_rotation("too early".to_string()).is_err());
    c.reset().unwrap();
    assert!(matches!(c.get_status(), RotationStatus::Stable));
    assert_eq!(c.current_policy().required_level, TrustLevel::Medium);
    assert_eq!(c.current_policy().min_verifiers, 2);
    assert!(c.schedule_rotation("Another rotation".to_string()).is_ok());
    assert!(matches!(c.get_status(), RotationStatus::Scheduled { .. }));
    assert!(c.cancel_rotation().is_ok());
    assert!(matches!(c.get_status(), RotationStatus::Failed { .. }));
    c.reset().unwrap();
    assert!(matches!(c.get_status(), RotationStatus::Stable));
}

#[test]
fn test_rotation_history() {
    let mut c = coordinator(TrustLevel::High);
    complete_first_rotation(&mut c);
    c.reset().unwrap();
    c.schedule_rotation("Second rotation".to_string()).unwrap();
    c.cancel_rotation().unwrap();
    let history = c.get_history(None);
    assert_eq!(history.len(), 2);
    assert_eq!(history[0].reason, "cancelled");
    assert!(!history[0].completed);
    assert!(history[1].completed);
    let limited_history = c.get_history(Some(1));
    assert_eq!(limited_history.len(), 1);
    assert_eq!(limited_history[0].reason, "cancelled");
    assert_eq!(c.get_history(Some(10)).len(), 2);
}

#[test]
fn rotation_needed_advice() {
    let mut c = coordinator(TrustLevel::High);
    let now = chrono::Utc::now().timestamp_nanos_opt().unwrap();
    assert!(!c.check_rotation_needed_at(now));
    c.set_trust_level(TrustLevel::Low);
    assert!(c.check_rotation_needed());
    c.set_trust_level(TrustLevel::High);
    let record = complete_first_rotation(&mut c);
    assert!(!c.check_rotation_needed_at(now + 366 * DAY));
    c.reset().unwrap();
    assert!(!c.check_rotation_needed_at(record.rotated_at + 365 * DAY));
    assert!(c.check_rotation_needed_at(record.rotated_at + 365 * DAY + 1));
}

#[test]
fn weak_policy_rejects_new_keys_before_any_change() {
    let keys = KeyPair::generate().unwrap();
    let mut c = RotationCoordinator::new(AgentId::new("a"), KeyManager::new(keys, 256), config(), active_lifecycle(), TrustLevel::High);
    assert!(matches!(c.begin_rotation(), Err(RotationError::NotAllowed(_))));
    assert!(matches!(c.get_status(), RotationStatus::Stable));
    assert!(c.ownership_proof().is_none());
}

#[test]
fn scheduled_rotation_time_and_begin() {
    let mut c = coordinator(TrustLevel::High);
    complete_first_rotation(&mut c);
    c.reset().unwrap();
    c.schedule_rotation_at("routine".to_string(), 1_000).unwrap();
    assert!(matches!(c.get_status(), RotationStatus::Scheduled { scheduled_at } if *scheduled_at == 1_000 + 90 * DAY));
    assert!(matches!(c.schedule_rotation("again".to_string()), Err(RotationError::InvalidState(_))));
    c.begin_rotation().unwrap();
    let chosen = c.select_verifiers(&high_pool(2)).unwrap();
    assert_eq!(chosen.len(), 2);
    assert!(c.complete_rotation().is_err());
    for v in &chosen {
        attest(&mut c, &v.agent, VerificationStatus::Failed).unwrap();
    }
    let record = c.complete_rotation().unwrap();
    assert_eq!(record.reason, "routine");
    assert_eq!(c.get_history(None).len(), 2);
}

#[test]
fn test_trust_score_updates() {
    let mut c = coordinator(TrustLevel::High);
    let done = complete_first_rotation(&mut c);
    assert_eq!(done.trust_impact(), 100);
    c.reset().unwrap();
    c.schedule_rotation("again".to_string()).unwrap();
    c.cancel_rotation().unwrap();
    let cancelled = &c.get_history(Some(1))[0];
    assert_eq!(cancelled.trust_impact(), -50);
    let mut unverified = done.clone();
    unverified.verified = false;
    assert_eq!(unverified.trust_impact(), -100);
    assert_eq!(apply_trust_impact(500, 100), 600);
    assert_eq!(apply_trust_impact(950, 100), 1000);
    assert_eq!(apply_trust_impact(30, -50), 0);
    assert_eq!(apply_trust_impact(500, -50), 450);
}

#[test]
fn test_rotation_record_validation() {
    let old_key = KeyPair::generate().unwrap().public_key().clone();
    let new_key = KeyPair::generate().unwrap().public_key().clone();
    let valid_record = RotationRecord {
        old_key: old_key.clone(),
        new_key: new_key.clone(),
        rotated_at: 0,
        reason: "Test rotation".to_string(),
        verified: true,
        verified_by: Some(AgentId::new("test")),
        verification_count: 1,
        completed: true,
    };
    assert!(valid_record.verified);
    assert!(valid_record.verified_by.is_some());
    let unverified_record = RotationRecord {
        old_key: old_key.clone(),
        new_key: new_key.clone(),
        rotated_at: 0,
        reason: "Test rotation".to_string(),
        verified: false,
        verified_by: None,
        verification_count: 0,
        completed: true,
    };
    assert!(!unverified_record.verified);
    assert!(unverified_record.verified_by.is_none());
    let record_with_details = RotationRecord {
        old_key,
        new_key,
        rotated_at: 0,
        reason: "Test rotation".to_string(),
        verified: true,
        verified_by: Some(AgentId::new("test")),
        verification_count: 3,
        completed: true,
    };
    assert_eq!(record_with_details.verification_count, 3);
    assert_eq!(record_with_details.trust_impact(), 100);
}
