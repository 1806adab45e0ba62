//! Agent identifiers and the small value types describing an agent.
use vstd::prelude::*;

use crate::clock;
use crate::score::TrustLevel;

verus! {

/// Relies on uuid::Uuid::new_v4 and Uuid::as_u128: a random identifier. Nothing is
/// promised of its value.
#[verifier::external_body]
fn random_uuid() -> (r: u128) {
    uuid::Uuid::new_v4().as_u128()
}

/// Identifies an agent: a random 128-bit identifier, a name and a creation time.
#[derive(Debug)]
pub struct AgentId {
    pub id: u128,
    pub name: String,
    /// Creation time, in nanoseconds since the Unix epoch.
    pub created_at: i64,
}

impl AgentId {
    /// A fresh identifier for an agent called `name`, created now.
    pub fn new(name: &str) -> (r: AgentId)
        ensures
            r.name@ == name@,
    {
        AgentId { id: random_uuid(), name: name.to_owned(), created_at: clock::now() }
    }

    pub fn id(&self) -> (r: u128)
        ensures
            r == self.id,
    {
        self.id
    }

    pub fn name(&self) -> (r: &str)
        ensures
            r@ == self.name@,
    {
        self.name.as_str()
    }

    pub fn created_at(&self) -> (r: i64)
        ensures
            r == self.created_at,
    {
        self.created_at
    }
}

impl Clone for AgentId {
    fn clone(&self) -> (r: Self)
        ensures
            r == *self,
    {
        AgentId { id: self.id, name: self.name.clone(), created_at: self.created_at }
    }
}

impl PartialEq for AgentId {
    fn eq(&self, other: &AgentId) -> (r: bool) {
        self.id == other.id && self.name == other.name && self.created_at == other.created_at
    }
}

impl vstd::std_specs::cmp::PartialEqSpecImpl for AgentId {
    open spec fn obeys_eq_spec() -> bool {
        true
    }

    open spec fn eq_spec(&self, other: &AgentId) -> bool {
        self.id == other.id && self.name@ == other.name@ && self.created_at == other.created_at
    }
}

impl Eq for AgentId {

}

/// Two identifiers name the same agent: all three parts agree.
pub open spec fn spec_same_agent(a: AgentId, b: AgentId) -> bool {
    a.id == b.id && a.name@ == b.name@ && a.created_at == b.created_at
}

/// Whether two identifiers name the same agent.
pub fn same_agent(a: &AgentId, b: &AgentId) -> (r: bool)
    ensures
        r == spec_same_agent(*a, *b),
{
    a.id == b.id && a.name == b.name && a.created_at == b.created_at
}

/// What an agent may do.
#[derive(Debug, Clone, Copy, PartialEq, Eq, Structural)]
pub struct AgentCapabilities {
    pub can_commerce: bool,
    pub can_verify: bool,
    pub can_manage_trust: bool,
}

impl Default for AgentCapabilities {
    /// Commerce only.
    fn default() -> (r: AgentCapabilities)
        ensures
            r.can_commerce && !r.can_verify && !r.can_manage_trust,
    {
        AgentCapabilities { can_commerce: true, can_verify: false, can_manage_trust: false }
    }
}

/// Whether an agent may operate.
#[derive(Debug, Clone, Copy, PartialEq, Eq, Structural)]
pub enum AgentStatus {
    Active,
    Suspended,
    Revoked,
}

impl Default for AgentStatus {
    fn default() -> (r: AgentStatus)
        ensures
            r == AgentStatus::Active,
    {
        AgentStatus::Active
    }
}

/// How far an identity has been verified.
#[derive(Debug, Clone, Copy, PartialEq, Eq, Structural)]
pub enum VerificationLevel {
    Unverified,
    SelfVerified,
    AgentVerified,
    MultiAgentVerified,
    AuthorityVerified,
}

impl Default for VerificationLevel {
    fn default() -> (r: VerificationLevel)
        ensures
            r == VerificationLevel::Unverified,
    {
        VerificationLevel::Unverified
    }
}

/// Errors about agent identifiers and identities.
#[derive(Debug, Clone, PartialEq, Eq)]
pub enum AgentIdError {
    InvalidAgentId(String),
    InvalidIdentityData(String),
    VerificationFailed(String),
    TrustLevelError(String),
    Internal(String),
}

/// Errors about agent descriptions.
#[derive(Debug, Clone, PartialEq, Eq)]
pub enum AgentError {
    InvalidId(String),
    InvalidName(String),
    InvalidCapabilities(String),
    InvalidMetadata(String),
    Internal(String),
}

/// Free-form JSON metadata, carried through unchanged.
#[verifier::external_type_specification]
#[verifier::external_body]
pub struct ExJsonValue(serde_json::Value);

/// Relies on serde_json's derived Clone for Value: a deep copy, equal to the value copied.
pub assume_specification[ <serde_json::Value as Clone>::clone ](v: &serde_json::Value) -> (r: serde_json::Value)
    ensures
        r == *v,
;

/// Relies on serde_json::Value::Object and serde_json::Map::new: an empty JSON object.
#[verifier::external_body]
fn empty_json_object() -> (r: serde_json::Value) {
    serde_json::Value::Object(serde_json::Map::new())
}

/// An agent: its identifier, what it may do, whether it may operate, and metadata.
#[derive(Debug, Clone)]
pub struct Agent {
    pub id: AgentId,
    pub capabilities: AgentCapabilities,
    pub status: AgentStatus,
    /// Last update (nanoseconds since the Unix epoch).
    pub updated_at: i64,
    pub metadata: serde_json::Value,
}

impl Agent {
    /// A new active agent called `name` with the default capabilities and empty metadata.
    pub fn new(name: &str) -> (r: Result<Agent, AgentIdError>)
        ensures
            r is Ok,
            r matches Ok(a) ==> (a.id.name@ == name@ && a.capabilities.can_commerce
                && !a.capabilities.can_verify && !a.capabilities.can_manage_trust && a.status
                == AgentStatus::Active),
    {
        Self::with_capabilities(name, AgentCapabilities::default())
    }

    /// A new active agent called `name` with the given capabilities and empty metadata.
    pub fn with_capabilities(name: &str, capabilities: AgentCapabilities) -> (r: Result<Agent, AgentIdError>)
        ensures
            r is Ok,
            r matches Ok(a) ==> (a.id.name@ == name@ && a.capabilities == capabilities && a.status
                == AgentStatus::Active),
    {
        Ok(
            Agent {
                id: AgentId::new(name),
                capabilities,
                status: AgentStatus::Active,
                updated_at: clock::now(),
                metadata: empty_json_object(),
            },
        )
    }

    pub fn id(&self) -> (r: &AgentId)
        ensures
            r == &self.id,
    {
        &self.id
    }

    pub fn capabilities(&self) -> (r: &AgentCapabilities)
        ensures
            r == &self.capabilities,
    {
        &self.capabilities
    }

    pub fn status(&self) -> (r: AgentStatus)
        ensures
            r == self.status,
    {
        self.status
    }

    pub fn updated_at(&self) -> (r: i64)
        ensures
            r == self.updated_at,
    {
        self.updated_at
    }

    pub fn metadata(&self) -> (r: &serde_json::Value)
        ensures
            r == &self.metadata,
    {
        &self.metadata
    }

    /// Replaces the capabilities and stamps the update time.
    pub fn update_capabilities(&mut self, capabilities: AgentCapabilities) -> (r: Result<(), AgentIdError>)
        ensures
            r is Ok,
            final(self).capabilities == capabilities,
            final(self).id == old(self).id,
            final(self).status == old(self).status,
            final(self).metadata == old(self).metadata,
    {
        self.capabilities = capabilities;
        self.updated_at = clock::now();
        Ok(())
    }

    /// Replaces the status and stamps the update time.
    pub fn update_status(&mut self, status: AgentStatus) -> (r: Result<(), AgentIdError>)
        ensures
            r is Ok,
            final(self).status == status,
            final(self).id == old(self).id,
            final(self).capabilities == old(self).capabilities,
            final(self).metadata == old(self).metadata,
    {
        self.status = status;
        self.updated_at = clock::now();
        Ok(())
    }

    /// Replaces the metadata and stamps the update time.
    pub fn update_metadata(&mut self, metadata: serde_json::Value) -> (r: Result<(), AgentIdError>)
        ensures
            r is Ok,
            final(self).metadata == metadata,
            final(self).id == old(self).id,
            final(self).capabilities == old(self).capabilities,
            final(self).status == old(self).status,
    {
        self.metadata = metadata;
        self.updated_at = clock::now();
        Ok(())
    }

    pub fn can_commerce(&self) -> (r: bool)
        ensures
            r == (self.capabilities.can_commerce && self.status == AgentStatus::Active),
    {
        self.capabilities.can_commerce && self.status == AgentStatus::Active
    }

    pub fn can_verify(&self) -> (r: bool)
        ensures
            r == (self.capabilities.can_verify && self.status == AgentStatus::Active),
    {
        self.capabilities.can_verify && self.status == AgentStatus::Active
    }

    pub fn can_manage_trust(&self) -> (r: bool)
        ensures
            r == (self.capabilities.can_manage_trust && self.status == AgentStatus::Active),
    {
        self.capabilities.can_manage_trust && self.status == AgentStatus::Active
    }
}

/// The verification state of an identity.
#[derive(Debug, Clone)]
pub struct VerificationStatus {
    pub level: VerificationLevel,
    /// When the identity was last verified (nanoseconds since the Unix epoch).
    pub verified_at: Option<i64>,
    pub verified_by: Option<AgentId>,
    pub metadata: serde_json::Value,
}

impl Default for VerificationStatus {
    fn default() -> (r: VerificationStatus)
        ensures
            r.level == VerificationLevel::Unverified,
            r.verified_at is None,
            r.verified_by is None,
    {
        VerificationStatus {
            level: VerificationLevel::Unverified,
            verified_at: None,
            verified_by: None,
            metadata: empty_json_object(),
        }
    }
}

/// An agent's identity and how far it has been verified.
#[derive(Debug, Clone)]
pub struct Identity {
    pub agent: Agent,
    pub verification: VerificationStatus,
    /// Creation time (nanoseconds since the Unix epoch).
    pub created_at: i64,
    /// Last update (nanoseconds since the Unix epoch).
    pub updated_at: i64,
    pub metadata: serde_json::Value,
}

impl Identity {
    /// An unverified identity for `agent`, with empty metadata.
    pub fn new(agent: Agent) -> (r: Result<Identity, AgentIdError>)
        ensures
            r is Ok,
            r matches Ok(i) ==> (i.agent == agent && i.verification.level
                == VerificationLevel::Unverified && i.verification.verified_at is None
                && i.verification.verified_by is None),
    {
        let now = clock::now();
        Ok(
            Identity {
                agent,
                verification: VerificationStatus::default(),
                created_at: now,
                updated_at: now,
                metadata: empty_json_object(),
            },
        )
    }

    pub fn agent(&self) -> (r: &Agent)
        ensures
            r == &self.agent,
    {
        &self.agent
    }

    pub fn verification(&self) -> (r: &VerificationStatus)
        ensures
            r == &self.verification,
    {
        &self.verification
    }

    pub fn created_at(&self) -> (r: i64)
        ensures
            r == self.created_at,
    {
        self.created_at
    }

    pub fn updated_at(&self) -> (r: i64)
        ensures
            r == self.updated_at,
    {
        self.updated_at
    }

    pub fn metadata(&self) -> (r: &serde_json::Value)
        ensures
            r == &self.metadata,
    {
        &self.metadata
    }

    /// Records a verification at `level` by `verified_by`, stamped now.
    pub fn update_verification(&mut self, level: VerificationLevel, verified_by: Option<AgentId>) -> (r: Result<
        (),
        AgentIdError,
    >)
        ensures
            r is Ok,
            final(self).verification.level == level,
            final(self).verification.verified_at is Some,
            final(self).verification.verified_by == verified_by,
            final(self).agent == old(self).agent,
            final(self).metadata == old(self).metadata,
    {
        let now = clock::now();
        self.verification.level = level;
        self.verification.verified_at = Some(now);
        self.verification.verified_by = verified_by;
        self.updated_at = now;
        Ok(())
    }

    /// Replaces the metadata and stamps the update time.
    pub fn update_metadata(&mut self, metadata: serde_json::Value) -> (r: Result<(), AgentIdError>)
        ensures
            r is Ok,
            final(self).metadata == metadata,
            final(self).agent == old(self).agent,
            final(self).verification == old(self).verification,
    {
        self.metadata = metadata;
        self.updated_at = clock::now();
        Ok(())
    }

    /// Verified at any level above `Unverified`.
    pub fn is_verified(&self) -> (r: bool)
        ensures
            r == (self.verification.level != VerificationLevel::Unverified),
    {
        self.verification.level != VerificationLevel::Unverified
    }

    /// Verified by one or more other agents.
    pub fn is_agent_verified(&self) -> (r: bool)
        ensures
            r == (self.verification.level == VerificationLevel::AgentVerified
                || self.verification.level == VerificationLevel::MultiAgentVerified),
    {
        self.verification.level == VerificationLevel::AgentVerified || self.verification.level
            == VerificationLevel::MultiAgentVerified
    }

    /// Verified by a trusted authority.
    pub fn is_authority_verified(&self) -> (r: bool)
        ensures
            r == (self.verification.level == VerificationLevel::AuthorityVerified),
    {
        self.verification.level == VerificationLevel::AuthorityVerified
    }
}

/// A directed trust relationship between two agents at some level.
#[derive(Debug, Clone)]
pub struct TrustRelationship {
    pub from: AgentId,
    pub to: AgentId,
    pub level: TrustLevel,
    /// When the relationship was established (nanoseconds since the Unix epoch).
    pub established_at: i64,
    /// Last update (nanoseconds since the Unix epoch).
    pub updated_at: i64,
    pub metadata: serde_json::Value,
}

impl TrustRelationship {
    /// Establishes trust from `from` to `to`; fails with `TrustLevelError` exactly
    /// when the two name the same agent.
    pub fn new(from: AgentId, to: AgentId, level: TrustLevel) -> (r: Result<TrustRelationship, AgentIdError>)
        ensures
            r is Err <==> spec_same_agent(from, to),
            r matches Err(e) ==> e is TrustLevelError,
            r matches Ok(t) ==> t.from == from && t.to == to && t.level == level,
    {
        if same_agent(&from, &to) {
            return Err(AgentIdError::TrustLevelError("cannot establish trust with self".to_owned()));
        }
        let now = clock::now();
        Ok(TrustRelationship { from, to, level, established_at: now, updated_at: now, metadata: empty_json_object() })
    }

    pub fn from(&self) -> (r: &AgentId)
        ensures
            r == &self.from,
    {
        &self.from
    }

    pub fn to(&self) -> (r: &AgentId)
        ensures
            r == &self.to,
    {
        &self.to
    }

    pub fn level(&self) -> (r: TrustLevel)
        ensures
            r == self.level,
    {
        self.level
    }

    pub fn established_at(&self) -> (r: i64)
        ensures
            r == self.established_at,
    {
        self.established_at
    }

    pub fn updated_at(&self) -> (r: i64)
        ensures
            r == self.updated_at,
    {
        self.updated_at
    }

    pub fn metadata(&self) -> (r: &serde_json::Value)
        ensures
            r == &self.metadata,
    {
        &self.metadata
    }

    /// Sets the level and stamps the update time.
    pub fn update_level(&mut self, level: TrustLevel) -> (r: Result<(), AgentIdError>)
        ensures
            r is Ok,
            final(self).level == level,
            final(self).from == old(self).from,
            final(self).to == old(self).to,
            final(self).metadata == old(self).metadata,
    {
        self.level = level;
        self.updated_at = clock::now();
        Ok(())
    }

    /// Replaces the metadata and stamps the update time.
    pub fn update_metadata(&mut self, metadata: serde_json::Value) -> (r: Result<(), AgentIdError>)
        ensures
            r is Ok,
            final(self).metadata == metadata,
            final(self).from == old(self).from,
            final(self).to == old(self).to,
            final(self).level == old(self).level,
    {
        self.metadata = metadata;
        self.updated_at = clock::now();
        Ok(())
    }

    /// Any trust at all.
    pub fn is_active(&self) -> (r: bool)
        ensures
            r == (self.level != TrustLevel::NoTrust),
    {
        self.level != TrustLevel::NoTrust
    }

    /// At or above `level`.
    pub fn is_at_least(&self, level: TrustLevel) -> (r: bool)
        ensures
            r == self.level.spec_at_least(level),
    {
        self.level.at_least(level)
    }
}

} // verus!
