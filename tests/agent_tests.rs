use agentid::agent::{same_agent, AgentCapabilities, AgentError, AgentId, AgentIdError, AgentStatus, VerificationLevel};

#[test]
fn lib_test_agent_id_creation() {
    let agent_id = AgentId::new("test-agent");
    assert_eq!(agent_id.name(), "test-agent");
    assert!(agent_id.created_at() <= chrono::Utc::now().timestamp_nanos_opt().unwrap());
}

#[test]
fn lib_test_agent_capabilities_default() {
    let capabilities = AgentCapabilities::default();
    assert!(capabilities.can_commerce);
    assert!(!capabilities.can_verify);
    assert!(!capabilities.can_manage_trust);
}

#[test]
fn agent_ids_are_distinct_and_cloneable() {
    let a = AgentId::new("a");
    let b = AgentId::new("a");
    assert_ne!(a, b);
    assert_ne!(a.id(), b.id());
    let c = a.clone();
    assert_eq!(a, c);
    assert!(same_agent(&a, &c));
    assert!(!same_agent(&a, &b));
}

#[test]
fn agent_defaults() {
    assert_eq!(AgentStatus::default(), AgentStatus::Active);
    assert_eq!(VerificationLevel::default(), VerificationLevel::Unverified);
    assert!(matches!(AgentIdError::InvalidAgentId("x".to_string()), AgentIdError::InvalidAgentId(_)));
    assert!(matches!(AgentError::InvalidName("x".to_string()), AgentError::InvalidName(_)));
}

use agentid::agent::{Agent, Identity, TrustRelationship};
use agentid::score::TrustLevel;

fn json(text: &str) -> serde_json::Value {
    serde_json::from_str(text).unwrap()
}

#[test]
fn test_agent_creation() {
    let agent = Agent::new("test-agent").unwrap();
    assert_eq!(agent.id().name(), "test-agent");
    assert!(agent.can_commerce());
    assert!(!agent.can_verify());
    assert!(!agent.can_manage_trust());
}

#[test]
fn test_agent_capabilities() {
    let capabilities = AgentCapabilities { can_commerce: true, can_verify: true, can_manage_trust: true };
    let agent = Agent::with_capabilities("test-agent", capabilities).unwrap();
    assert!(agent.can_commerce());
    assert!(agent.can_verify());
    assert!(agent.can_manage_trust());
}

#[test]
fn test_agent_status() {
    let mut agent = Agent::new("test-agent").unwrap();
    assert!(agent.can_commerce());
    agent.update_status(AgentStatus::Suspended).unwrap();
    assert!(!agent.can_commerce());
    agent.update_status(AgentStatus::Active).unwrap();
    assert!(agent.can_commerce());
    agent.update_status(AgentStatus::Revoked).unwrap();
    assert!(!agent.can_commerce());
}

#[test]
fn test_agent_with_capabilities() {
    let capabilities = AgentCapabilities { can_commerce: false, can_verify: true, can_manage_trust: false };
    let agent = Agent::with_capabilities("test-agent", capabilities.clone()).unwrap();
    assert_eq!(agent.capabilities(), &capabilities);
    assert!(!agent.can_commerce());
    assert!(agent.can_verify());
    assert!(!agent.can_manage_trust());
}

#[test]
fn test_agent_update_capabilities() {
    let mut agent = Agent::new("test-agent").unwrap();
    let initial_capabilities = agent.capabilities().clone();
    let new_capabilities = AgentCapabilities { can_commerce: false, can_verify: true, can_manage_trust: true };
    agent.update_capabilities(new_capabilities.clone()).unwrap();
    assert_eq!(agent.capabilities(), &new_capabilities);
    assert_ne!(agent.capabilities(), &initial_capabilities);
    assert!(!agent.can_commerce());
    assert!(agent.can_verify());
    assert!(agent.can_manage_trust());
}

#[test]
fn test_agent_metadata() {
    let mut agent = Agent::new("test-agent").unwrap();
    assert_eq!(agent.metadata(), &json("{}"));
    let metadata = json(r#"{"name": "Test Agent", "version": "1.0", "tags": ["test", "agent"]}"#);
    agent.update_metadata(metadata.clone()).unwrap();
    assert_eq!(agent.metadata(), &metadata);
}

#[test]
fn test_identity_creation() {
    let agent = Agent::new("test-agent").unwrap();
    let identity = Identity::new(agent).unwrap();
    assert!(!identity.is_verified());
    assert!(!identity.is_agent_verified());
    assert!(!identity.is_authority_verified());
}

#[test]
fn test_identity_verification() {
    let agent = Agent::new("test-agent").unwrap();
    let verifier = agent.id().clone();
    let mut identity = Identity::new(agent).unwrap();
    identity.update_verification(VerificationLevel::AgentVerified, Some(verifier.clone())).unwrap();
    assert!(identity.is_verified());
    assert!(identity.is_agent_verified());
    assert!(!identity.is_authority_verified());
    assert_eq!(identity.verification().verified_by, Some(verifier));
    assert!(identity.verification().verified_at.is_some());
}

#[test]
fn test_identity_authority_verification() {
    let agent = Agent::new("test-agent").unwrap();
    let mut identity = Identity::new(agent).unwrap();
    identity.update_verification(VerificationLevel::AuthorityVerified, None).unwrap();
    assert!(identity.is_verified());
    assert!(!identity.is_agent_verified());
    assert!(identity.is_authority_verified());
}

#[test]
fn test_identity_creation_and_initial_state() {
    let agent = Agent::new("test-agent").unwrap();
    let identity = Identity::new(agent.clone()).unwrap();
    assert_eq!(identity.agent().id(), agent.id());
    assert!(!identity.is_verified());
    assert!(!identity.is_agent_verified());
    assert!(!identity.is_authority_verified());
    assert!(identity.metadata().as_object().unwrap().is_empty());
}

#[test]
fn test_identity_verification_progression() {
    let agent = Agent::new("test-agent").unwrap();
    let verifier_id = AgentId::new("verifier-agent");
    let mut identity = Identity::new(agent).unwrap();
    identity.update_verification(VerificationLevel::SelfVerified, None).unwrap();
    assert!(identity.is_verified());
    assert!(!identity.is_agent_verified());
    assert!(!identity.is_authority_verified());
    identity.update_verification(VerificationLevel::AgentVerified, Some(verifier_id.clone())).unwrap();
    assert!(identity.is_verified());
    assert!(identity.is_agent_verified());
    assert!(!identity.is_authority_verified());
    identity.update_verification(VerificationLevel::MultiAgentVerified, Some(verifier_id.clone())).unwrap();
    assert!(identity.is_verified());
    assert!(identity.is_agent_verified());
    assert!(!identity.is_authority_verified());
    identity.update_verification(VerificationLevel::AuthorityVerified, None).unwrap();
    assert!(identity.is_verified());
    assert!(!identity.is_agent_verified());
    assert!(identity.is_authority_verified());
}

#[test]
fn test_identity_metadata_updates() {
    let agent = Agent::new("test-agent").unwrap();
    let mut identity = Identity::new(agent).unwrap();
    assert!(identity.metadata().as_object().unwrap().is_empty());
    let metadata = json(r#"{"name": "Test Agent", "type": "individual", "location": "US"}"#);
    let original_updated_at = identity.updated_at();
    identity.update_metadata(metadata.clone()).unwrap();
    assert_eq!(identity.metadata(), &metadata);
    assert!(identity.updated_at() > original_updated_at);
    let new_metadata = json(r#"{"name": "Updated Test Agent", "type": "individual", "location": "EU"}"#);
    identity.update_metadata(new_metadata.clone()).unwrap();
    assert_eq!(identity.metadata(), &new_metadata);
}

#[test]
fn test_identity_verification_checks() {
    let agent = Agent::new("test-agent").unwrap();
    let mut identity = Identity::new(agent).unwrap();
    assert!(!identity.is_verified());
    assert!(!identity.is_agent_verified());
    assert!(!identity.is_authority_verified());
    identity.update_verification(VerificationLevel::SelfVerified, None).unwrap();
    assert!(identity.is_verified());
    assert!(!identity.is_agent_verified());
    assert!(!identity.is_authority_verified());
    identity.update_verification(VerificationLevel::AgentVerified, Some(AgentId::new("verifier"))).unwrap();
    assert!(identity.is_verified());
    assert!(identity.is_agent_verified());
    assert!(!identity.is_authority_verified());
    identity.update_verification(VerificationLevel::AuthorityVerified, None).unwrap();
    assert!(identity.is_verified());
    assert!(!identity.is_agent_verified());
    assert!(identity.is_authority_verified());
}

#[test]
fn trust_test_trust_relationship_creation() {
    let agent1 = AgentId::new("agent1");
    let agent2 = AgentId::new("agent2");
    let trust = TrustRelationship::new(agent1.clone(), agent2.clone(), TrustLevel::Low).unwrap();
    assert_eq!(trust.from(), &agent1);
    assert_eq!(trust.to(), &agent2);
    assert_eq!(trust.level(), TrustLevel::Low);
    assert!(trust.is_active());
}

#[test]
fn trust_test_trust_relationship_self_trust() {
    let agent = AgentId::new("agent");
    let result = TrustRelationship::new(agent.clone(), agent, TrustLevel::Low);
    assert!(result.is_err());
}

#[test]
fn test_trust_relationship_updates() {
    let agent1 = AgentId::new("agent1");
    let agent2 = AgentId::new("agent2");
    let mut trust = TrustRelationship::new(agent1, agent2, TrustLevel::Low).unwrap();
    trust.update_level(TrustLevel::High).unwrap();
    assert_eq!(trust.level(), TrustLevel::High);
    assert!(trust.is_at_least(TrustLevel::Medium));
    trust.update_level(TrustLevel::NoTrust).unwrap();
    assert!(!trust.is_active());
}

#[test]
fn test_trust_relationship_metadata() {
    let agent1 = AgentId::new("agent1");
    let agent2 = AgentId::new("agent2");
    let mut trust = TrustRelationship::new(agent1, agent2, TrustLevel::High).unwrap();
    let metadata = json(r#"{"reason": "Business partnership", "established_date": "2024-01-01", "review_period": "6 months"}"#);
    trust.update_metadata(metadata.clone()).unwrap();
    assert_eq!(trust.metadata(), &metadata);
}

#[test]
fn trust_flows_test_trust_relationship_creation() {
    let agent1 = AgentId::new("agent1");
    let agent2 = AgentId::new("agent2");
    let trust = TrustRelationship::new(agent1.clone(), agent2.clone(), TrustLevel::Low).unwrap();
    assert_eq!(trust.from(), &agent1);
    assert_eq!(trust.to(), &agent2);
    assert_eq!(trust.level(), TrustLevel::Low);
    assert!(trust.is_active());
    assert!(trust.metadata().as_object().unwrap().is_empty());
}

#[test]
fn trust_flows_test_trust_relationship_self_trust() {
    let agent = AgentId::new("agent");
    let result = TrustRelationship::new(agent.clone(), agent, TrustLevel::Low);
    assert!(result.is_err());
}

#[test]
fn test_trust_level_management() {
    let agent1 = AgentId::new("agent1");
    let agent2 = AgentId::new("agent2");
    let mut trust = TrustRelationship::new(agent1, agent2, TrustLevel::Low).unwrap();
    assert!(TrustLevel::VeryHigh > TrustLevel::High);
    assert!(TrustLevel::High > TrustLevel::Medium);
    assert!(TrustLevel::Medium > TrustLevel::Low);
    assert!(TrustLevel::Low > TrustLevel::NoTrust);
    trust.update_level(TrustLevel::High).unwrap();
    assert_eq!(trust.level(), TrustLevel::High);
    assert!(trust.is_active());
    assert!(trust.is_at_least(TrustLevel::Medium));
    assert!(!trust.is_at_least(TrustLevel::VeryHigh));
    trust.update_level(TrustLevel::NoTrust).unwrap();
    assert!(!trust.is_active());
    assert!(!trust.is_at_least(TrustLevel::Low));
}

#[test]
fn test_trust_metadata_management() {
    let agent1 = AgentId::new("agent1");
    let agent2 = AgentId::new("agent2");
    let mut trust = TrustRelationship::new(agent1, agent2, TrustLevel::Low).unwrap();
    assert!(trust.metadata().as_object().unwrap().is_empty());
    let metadata = json(r#"{"reason": "Business partnership", "scope": "Financial transactions", "expires_at": "2024-12-31"}"#);
    let original_updated_at = trust.updated_at();
    trust.update_metadata(metadata.clone()).unwrap();
    assert_eq!(trust.metadata(), &metadata);
    assert!(trust.updated_at() > original_updated_at);
    let new_metadata = json(r#"{"reason": "Updated partnership", "scope": "Extended operations", "expires_at": "2025-12-31"}"#);
    trust.update_metadata(new_metadata.clone()).unwrap();
    assert_eq!(trust.metadata(), &new_metadata);
}

#[test]
fn test_trust_relationship_validation() {
    let agent1 = AgentId::new("agent1");
    let agent2 = AgentId::new("agent2");
    let mut trust = TrustRelationship::new(agent1, agent2, TrustLevel::Low).unwrap();
    assert!(trust.is_active());
    assert!(trust.is_at_least(TrustLevel::Low));
    trust.update_level(TrustLevel::High).unwrap();
    assert!(trust.is_active());
    assert!(trust.is_at_least(TrustLevel::High));
    assert!(!trust.is_at_least(TrustLevel::VeryHigh));
    trust.update_level(TrustLevel::NoTrust).unwrap();
    assert!(!trust.is_active());
    assert!(!trust.is_at_least(TrustLevel::Low));
    trust.update_level(TrustLevel::Medium).unwrap();
    assert!(trust.is_active());
    assert!(trust.is_at_least(TrustLevel::Medium));
    assert!(!trust.is_at_least(TrustLevel::High));
}

#[test]
fn test_trust_relationship_chain() {
    let agent1 = AgentId::new("agent1");
    let agent2 = AgentId::new("agent2");
    let agent3 = AgentId::new("agent3");
    let trust1 = TrustRelationship::new(agent1.clone(), agent2.clone(), TrustLevel::High).unwrap();
    let trust2 = TrustRelationship::new(agent2, agent3.clone(), TrustLevel::High).unwrap();
    assert_eq!(trust1.to(), trust2.from());
    assert!(trust1.is_active() && trust2.is_active());
    assert!(trust1.is_at_least(TrustLevel::High) && trust2.is_at_least(TrustLevel::High));
}
