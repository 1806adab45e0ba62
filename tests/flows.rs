use agentid::agent::AgentId;
use agentid::clock::NANOS_PER_DAY;
use agentid::crypto::{KeyManager, KeyPair, Signature};
use agentid::lifecycle::{StateTransition, TrustLifecycle, TrustState};
use agentid::rotation::{RotationConfig, RotationCoordinator, RotationStatus};
use agentid::score::{TrustLevel, TrustMetrics, TrustScore};
use agentid::selector::{select, VerifierCandidate};
use agentid::verification::{VerificationResult, VerificationStatus};

fn thresholds() -> Vec<(TrustLevel, u32)> {
    vec![(TrustLevel::Low, 300), (TrustLevel::Medium, 600), (TrustLevel::High, 800), (TrustLevel::VeryHigh, 900)]
}

#[test]
fn test_basic_trust_flow() {
    let metrics = TrustMetrics {
        direct_trust: 900,
        indirect_trust: 800,
        historical_trust: 850,
        behavioral_trust: 900,
        identity_verification: 1000,
        custom_metrics: Vec::new(),
    };
    let score = TrustScore::calculate_weighted_score(&metrics, &Vec::new());
    assert_eq!(score, 880);
    let level = TrustScore::determine_trust_level(score, &thresholds());
    assert_eq!(level, TrustLevel::High);
    let assessment = TrustScore::new(score, level, metrics, 950, NANOS_PER_DAY).unwrap();
    assert!(assessment.is_valid());

    let mut lifecycle = TrustLifecycle::new();
    assert!(!lifecycle.is_valid_for_trust());
    lifecycle.apply_transition(StateTransition::new(TrustState::Establishing, "introduced".to_string())).unwrap();
    lifecycle.apply_transition(StateTransition::new(TrustState::Active, "score reached High".to_string())).unwrap();
    assert!(lifecycle.is_valid_for_trust());
    assert_eq!(lifecycle.state_history().len(), 3);
}

#[test]
fn test_complex_identity_flow() {
    let agent = AgentId::new("merchant");
    let keys = KeyPair::generate().unwrap();
    let order = b"order #42".to_vec();
    let signature = Signature::sign(&order, keys.private_key());
    assert_eq!(signature.verify(&order, keys.public_key()), Ok(true));

    let mut lifecycle = TrustLifecycle::new();
    lifecycle.apply_transition(StateTransition::new(TrustState::Establishing, "new".to_string())).unwrap();
    lifecycle.apply_transition(StateTransition::new(TrustState::Active, "ok".to_string())).unwrap();
    let config = RotationConfig::new(30 * NANOS_PER_DAY, NANOS_PER_DAY, 180 * NANOS_PER_DAY, true).unwrap();
    let mut rotation = RotationCoordinator::new(agent, KeyManager::new(keys, 128), config, lifecycle, TrustLevel::High);
    rotation.begin_rotation().unwrap();
    let pool: Vec<VerifierCandidate> = ["v1", "v2", "v3"]
        .iter()
        .map(|n| VerifierCandidate { agent: AgentId::new(n), level: TrustLevel::VeryHigh, successful_verifications: 1, is_stable: true, recently_active: false })
        .collect();
    let chosen = rotation.select_verifiers(&pool).unwrap();
    let proof = rotation.ownership_proof().unwrap();
    for v in chosen {
        rotation.submit_attestation(VerificationResult::new(v.agent, VerificationStatus::Verified, TrustLevel::VeryHigh), &proof).unwrap();
    }
    let record = rotation.complete_rotation().unwrap();
    assert!(matches!(rotation.get_status(), RotationStatus::Complete { .. }));

    // Old signatures stay checkable against the old key; new ones use the new key.
    assert_eq!(signature.verify(&order, &record.old_key), Ok(true));
    assert_eq!(signature.verify(&order, &record.new_key), Ok(false));
}

#[test]
fn test_complex_trust_flow() {
    let mut lifecycle = TrustLifecycle::new_at(0);
    for (target, at) in [
        (TrustState::Establishing, 10),
        (TrustState::Active, 20),
        (TrustState::Suspended, 30),
        (TrustState::Reviewing, 40),
        (TrustState::Active, 50),
        (TrustState::GracePeriod, 60),
        (TrustState::Expired, 70),
    ] {
        lifecycle.apply_transition(StateTransition::new_at(target, "step".to_string(), at)).unwrap();
    }
    assert_eq!(lifecycle.current_state, TrustState::Expired);
    assert!(!lifecycle.is_valid_for_trust());
    assert!(lifecycle.apply_transition(StateTransition::new_at(TrustState::Active, "back".to_string(), 80)).is_err());
    assert_eq!(lifecycle.state_history().len(), 8);
    let visited: Vec<TrustState> = lifecycle.state_history().iter().map(|e| e.state).collect();
    assert_eq!(
        visited,
        vec![
            TrustState::Initial,
            TrustState::Initial,
            TrustState::Establishing,
            TrustState::Active,
            TrustState::Suspended,
            TrustState::Reviewing,
            TrustState::Active,
            TrustState::GracePeriod
        ]
    );

    let pool = vec![
        VerifierCandidate { agent: AgentId::new("low"), level: TrustLevel::Low, successful_verifications: 9, is_stable: true, recently_active: true },
        VerifierCandidate { agent: AgentId::new("medium"), level: TrustLevel::Medium, successful_verifications: 0, is_stable: false, recently_active: false },
    ];
    let picked = select(&pool, TrustLevel::Low, 2).unwrap();
    assert_eq!(picked[0].agent.name(), "low");
    assert_eq!(picked[1].agent.name(), "medium");
}
