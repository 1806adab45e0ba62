//! Attestations collected for a rotation and the quorum/consensus check over them.
use vstd::prelude::*;

use crate::agent::AgentId;
use crate::clock;
use crate::score::TrustLevel;

verus! {

/// The outcome a verifier reports.
#[derive(Debug, Clone, Copy, PartialEq, Eq, Structural)]
pub enum VerificationStatus {
    Verified,
    Failed,
    Pending,
    Rejected,
    Expired,
}

/// What a set of attestations must satisfy.
#[derive(Debug, Clone, Copy, PartialEq, Eq, Structural)]
pub struct VerificationPolicy {
    /// Every attestation must reach at least this level.
    pub required_level: TrustLevel,
    /// Quorum size.
    pub min_verifiers: usize,
    /// Every attestation must be successful.
    pub require_consensus: bool,
    /// How long a verification request stays open, in nanoseconds.
    pub validity_period: i64,
}

impl Default for VerificationPolicy {
    fn default() -> (r: VerificationPolicy)
        ensures
            r.required_level == TrustLevel::Medium,
            r.min_verifiers == 1,
            !r.require_consensus,
            r.validity_period == crate::clock::NANOS_PER_DAY,
    {
        VerificationPolicy {
            required_level: TrustLevel::Medium,
            min_verifiers: 1,
            require_consensus: false,
            validity_period: crate::clock::NANOS_PER_DAY,
        }
    }
}

/// One verifier's attestation.
#[derive(Debug)]
pub struct VerificationResult {
    pub verifier_id: AgentId,
    pub status: VerificationStatus,
    /// The trust level the verifier achieved.
    pub level: TrustLevel,
    /// When the attestation was made (nanoseconds since the Unix epoch).
    pub verified_at: i64,
    pub evidence: Vec<(String, serde_json::Value)>,
    pub failure_reasons: Vec<String>,
}

impl VerificationResult {
    /// An attestation by `verifier_id` made at time `at`, with no evidence.
    pub fn new_at(verifier_id: AgentId, status: VerificationStatus, level: TrustLevel, at: i64) -> (r:
        VerificationResult)
        ensures
            r.verifier_id == verifier_id,
            r.status == status,
            r.level == level,
            r.verified_at == at,
            r.evidence@.len() == 0,
            r.failure_reasons@.len() == 0,
    {
        VerificationResult {
            verifier_id,
            status,
            level,
            verified_at: at,
            evidence: Vec::new(),
            failure_reasons: Vec::new(),
        }
    }

    /// An attestation by `verifier_id` made now.
    pub fn new(verifier_id: AgentId, status: VerificationStatus, level: TrustLevel) -> (r:
        VerificationResult)
        ensures
            r.verifier_id == verifier_id,
            r.status == status,
            r.level == level,
    {
        Self::new_at(verifier_id, status, level, clock::now())
    }

    /// Adds an evidence entry.
    pub fn with_evidence(self, key: String, value: serde_json::Value) -> (r: VerificationResult)
        ensures
            r.verifier_id == self.verifier_id,
            r.status == self.status,
            r.level == self.level,
            r.verified_at == self.verified_at,
            r.evidence@ == self.evidence@.push((key, value)),
            r.failure_reasons@ == self.failure_reasons@,
    {
        let mut r = self;
        r.evidence.push((key, value));
        r
    }

    /// Adds a failure reason.
    pub fn with_failure_reason(self, reason: String) -> (r: VerificationResult)
        ensures
            r.verifier_id == self.verifier_id,
            r.status == self.status,
            r.level == self.level,
            r.verified_at == self.verified_at,
            r.evidence@ == self.evidence@,
            r.failure_reasons@ == self.failure_reasons@.push(reason),
    {
        let mut r = self;
        r.failure_reasons.push(reason);
        r
    }

    /// The verifier reports success.
    pub fn is_verified(&self) -> (r: bool)
        ensures
            r == (self.status == VerificationStatus::Verified),
    {
        self.status == VerificationStatus::Verified
    }
}

/// Quorum, consensus and level: at least `min_verifiers` attestations, all of them
/// successful when consensus is required, and all at or above the required level.
pub open spec fn requirements_met(policy: VerificationPolicy, results: Seq<VerificationResult>) -> bool {
    &&& results.len() >= policy.min_verifiers
    &&& policy.require_consensus ==> forall|i: int|
        0 <= i < results.len() ==> (#[trigger] results[i]).status == VerificationStatus::Verified
    &&& forall|i: int|
        0 <= i < results.len() ==> (#[trigger] results[i]).level.spec_at_least(policy.required_level)
}

/// Quorum and consensus: a pure predicate over a snapshot of attestations.
pub fn check_verification_requirements(policy: &VerificationPolicy, results: &Vec<VerificationResult>) -> (r:
    bool)
    ensures
        r == requirements_met(*policy, results@),
{
    if results.len() < policy.min_verifiers {
        return false;
    }
    let mut i: usize = 0;
    while i < results.len()
        invariant
            i <= results@.len(),
            forall|j: int|
                0 <= j < i ==> (policy.require_consensus ==> (#[trigger] results@[j]).status
                    == VerificationStatus::Verified) && results@[j].level.spec_at_least(
                    policy.required_level,
                ),
        decreases results.len() - i,
    {
        if policy.require_consensus && !results[i].is_verified() {
            return false;
        }
        if !results[i].level.at_least(policy.required_level) {
            return false;
        }
        i = i + 1;
    }
    true
}

/// Errors of the verification service.
#[derive(Debug, Clone, PartialEq, Eq)]
pub enum VerifyError {
    VerificationError(String),
    PolicyError(String),
    RequestError(String),
    Internal(String),
}

} // verus!
