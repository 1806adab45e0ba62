use agentid::attributes::{AttributeSource, TrustAttribute, TrustAttributeSet};
use agentid::score::{TrustConfig, TrustError, TrustLevel};

fn json(text: &str) -> serde_json::Value {
    serde_json::from_str(text).unwrap()
}

fn attr(name: &str, source: AttributeSource, confidence: u32, created_at: i64) -> TrustAttribute {
    let mut a = TrustAttribute::new(name, json("true"), source, confidence).unwrap();
    a.created_at = created_at;
    a
}

#[test]
fn attribute_confidence_is_checked() {
    assert!(matches!(
        TrustAttribute::new("kyc", json("true"), AttributeSource::Verified, 1001),
        Err(TrustError::InvalidAttributes(_))
    ));
    let a = TrustAttribute::new("kyc", json("true"), AttributeSource::Verified, 1000).unwrap();
    assert_eq!(a.name, "kyc");
    assert!(a.is_valid());
    let expiring = a.with_expiration(50).with_metadata("by".to_string(), json("\"registry\""));
    assert!(expiring.is_valid_at(49));
    assert!(!expiring.is_valid_at(50));
    assert_eq!(expiring.metadata.len(), 1);
}

#[test]
fn attribute_set_keeps_one_per_name() {
    let mut set = TrustAttributeSet::new("agent");
    assert_eq!(set.agent_id(), "agent");
    set.add_attribute(attr("kyc", AttributeSource::Verified, 900, 1));
    set.add_attribute(attr("email", AttributeSource::SelfReported, 500, 2));
    set.add_attribute(attr("kyc", AttributeSource::System, 300, 3));
    assert_eq!(set.attributes().len(), 2);
    assert_eq!(set.get_attribute("kyc").unwrap().source, AttributeSource::System);
    assert!(set.get_attribute("phone").is_none());
    let removed = set.remove_attribute("kyc").unwrap();
    assert_eq!(removed.confidence, 300);
    assert!(set.get_attribute("kyc").is_none());
    assert!(set.remove_attribute("kyc").is_none());
    assert_eq!(set.attributes().len(), 1);
}

#[test]
fn attribute_set_filters() {
    let mut set = TrustAttributeSet::new("agent");
    set.add_attribute(attr("kyc", AttributeSource::Verified, 900, 1).with_expiration(100));
    set.add_attribute(attr("email", AttributeSource::SelfReported, 500, 2));
    set.add_attribute(attr("history", AttributeSource::Verified, 700, 3));
    let valid: Vec<&str> = set.valid_attributes_at(150).iter().map(|a| a.name.as_str()).collect();
    assert_eq!(valid, vec!["email", "history"]);
    assert_eq!(set.valid_attributes_at(50).len(), 3);
    let verified: Vec<&str> = set.attributes_by_source(AttributeSource::Verified).iter().map(|a| a.name.as_str()).collect();
    assert_eq!(verified, vec!["kyc", "history"]);
    assert!(set.attributes_by_source(AttributeSource::Derived).is_empty());
}

#[test]
fn merge_prefers_newer_or_more_confident() {
    let mut mine = TrustAttributeSet::new("agent");
    mine.add_attribute(attr("kyc", AttributeSource::Verified, 900, 10));
    mine.add_attribute(attr("email", AttributeSource::SelfReported, 500, 10));
    mine.add_attribute(attr("history", AttributeSource::Derived, 600, 10));
    let mut theirs = TrustAttributeSet::new("agent");
    theirs.add_attribute(attr("kyc", AttributeSource::System, 800, 5));
    theirs.add_attribute(attr("email", AttributeSource::Verified, 400, 20));
    theirs.add_attribute(attr("history", AttributeSource::Delegated, 700, 1));
    theirs.add_attribute(attr("phone", AttributeSource::SelfReported, 100, 1));
    mine.merge(theirs);
    assert_eq!(mine.attributes().len(), 4);
    assert_eq!(mine.get_attribute("kyc").unwrap().source, AttributeSource::Verified);
    assert_eq!(mine.get_attribute("email").unwrap().source, AttributeSource::Verified);
    assert_eq!(mine.get_attribute("history").unwrap().source, AttributeSource::Delegated);
    assert_eq!(mine.get_attribute("phone").unwrap().confidence, 100);
}

#[test]
fn trust_config_defaults() {
    let config = TrustConfig::default();
    assert_eq!(config.minimum_trust_score, 500);
    assert_eq!(
        config.trust_level_thresholds,
        vec![(TrustLevel::Low, 300), (TrustLevel::Medium, 600), (TrustLevel::High, 800), (TrustLevel::VeryHigh, 900)]
    );
    assert_eq!(config.max_delegation_depth, 3);
    assert!(config.attribute_weights.is_empty());
    assert!(config.verification_policies.is_empty());
}
