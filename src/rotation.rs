//! The key-rotation protocol: configuration, status, history records, and the
//! coordinator that drives a rotation from scheduling to completion.
use vstd::prelude::*;

use crate::agent::{same_agent, spec_same_agent, AgentId};
use crate::clock;
use crate::crypto::{
    copy_range, ed25519_accepts, ed25519_public_of, ed25519_signature_of, KeyManager, KeyPair, PublicKey, KEY_LENGTH,
    SIGNATURE_LENGTH,
};
use crate::lifecycle::{StateTransition, TrustLifecycle, TrustState};
use crate::score::{TrustError, TrustLevel};
use crate::selector::{select, VerifierCandidate};
use crate::verification::{check_verification_requirements, requirements_met, VerificationPolicy, VerificationResult};

verus! {

/// Errors of the rotation protocol.
#[derive(Debug, Clone, PartialEq, Eq)]
pub enum RotationError {
    /// The operation is not allowed in the current status.
    InvalidState(String),
    /// A policy, strength or self-attestation rule forbids the operation.
    NotAllowed(String),
    /// Quorum, consensus or level requirements are not met, or an attestation failed.
    VerificationFailed(String),
    DistributionFailed(String),
    /// Malformed signature material.
    InvalidSignature(String),
    /// An unexpected failure of a collaborator (entropy, key generation).
    Internal(String),
}

/// Rotation timing, in nanoseconds. Always `overlap_period < rotation_period < max_key_age`.
#[derive(Debug, Clone, Copy)]
pub struct RotationConfig {
    rotation_period: i64,
    overlap_period: i64,
    max_key_age: i64,
    require_verification: bool,
}

impl RotationConfig {
    #[verifier::type_invariant]
    spec fn well_formed(self) -> bool {
        self.overlap_period < self.rotation_period < self.max_key_age
    }

    pub closed spec fn spec_rotation_period(self) -> i64 {
        self.rotation_period
    }

    pub closed spec fn spec_overlap_period(self) -> i64 {
        self.overlap_period
    }

    pub closed spec fn spec_max_key_age(self) -> i64 {
        self.max_key_age
    }

    pub closed spec fn spec_require_verification(self) -> bool {
        self.require_verification
    }

    /// Validates and builds a configuration. Fails with `NotAllowed` exactly when
    /// `overlap_period < rotation_period < max_key_age` does not hold; nothing is clamped.
    pub fn new(rotation_period: i64, overlap_period: i64, max_key_age: i64, require_verification: bool) -> (r:
        Result<RotationConfig, RotationError>)
        ensures
            r is Ok <==> overlap_period < rotation_period < max_key_age,
            r matches Err(e) ==> e is NotAllowed,
            r matches Ok(c) ==> {
                &&& c.spec_rotation_period() == rotation_period
                &&& c.spec_overlap_period() == overlap_period
                &&& c.spec_max_key_age() == max_key_age
                &&& c.spec_require_verification() == require_verification
            },
    {
        if !(overlap_period < rotation_period && rotation_period < max_key_age) {
            return Err(
                RotationError::NotAllowed(
                    "overlap_period < rotation_period < max_key_age must hold".to_owned(),
                ),
            );
        }
        Ok(RotationConfig { rotation_period, overlap_period, max_key_age, require_verification })
    }

    pub fn rotation_period(&self) -> (r: i64)
        ensures
            r == self.spec_rotation_period(),
    {
        self.rotation_period
    }

    pub fn overlap_period(&self) -> (r: i64)
        ensures
            r == self.spec_overlap_period(),
    {
        self.overlap_period
    }

    pub fn max_key_age(&self) -> (r: i64)
        ensures
            r == self.spec_max_key_age(),
    {
        self.max_key_age
    }

    pub fn require_verification(&self) -> (r: bool)
        ensures
            r == self.spec_require_verification(),
    {
        self.require_verification
    }
}

/// A completed or cancelled rotation. Immutable once made.
#[derive(Debug)]
pub struct RotationRecord {
    pub old_key: PublicKey,
    /// The key rotated in; for a cancellation before a key was made, the old key.
    pub new_key: PublicKey,
    /// When the rotation completed or was cancelled (nanoseconds since the Unix epoch).
    pub rotated_at: i64,
    pub reason: String,
    pub verified: bool,
    /// The first verifier that attested, if any.
    pub verified_by: Option<AgentId>,
    pub verification_count: usize,
    /// True for a completed rotation, false for a cancelled one.
    pub completed: bool,
}

/// `a` and `b` hold the same record.
pub open spec fn same_record(a: RotationRecord, b: RotationRecord) -> bool {
    &&& a.old_key@ == b.old_key@
    &&& a.new_key@ == b.new_key@
    &&& a.rotated_at == b.rotated_at
    &&& a.reason == b.reason
    &&& a.verified == b.verified
    &&& a.verified_by == b.verified_by
    &&& a.verification_count == b.verification_count
    &&& a.completed == b.completed
}

impl Clone for RotationRecord {
    fn clone(&self) -> (r: Self)
        ensures
            same_record(r, *self),
    {
        RotationRecord {
            old_key: self.old_key.clone(),
            new_key: self.new_key.clone(),
            rotated_at: self.rotated_at,
            reason: self.reason.clone(),
            verified: self.verified,
            verified_by: match &self.verified_by {
                Some(a) => Some(a.clone()),
                None => None,
            },
            verification_count: self.verification_count,
            completed: self.completed,
        }
    }
}

/// The change, in thousandths, that a finished rotation makes to the rotating agent's
/// trust score: +0.1 for a verified completion, -0.1 for an unverified one, and
/// -0.05 for a cancellation.
pub open spec fn spec_trust_impact(record: RotationRecord) -> int {
    if !record.completed {
        -50
    } else if record.verified {
        100
    } else {
        -100
    }
}

/// `score + impact`, kept within `[0, SCORE_SCALE]`.
pub open spec fn spec_apply_impact(score: u32, impact: i32) -> int {
    let s = score + impact;
    if s < 0 {
        0
    } else if s > crate::score::SCORE_SCALE {
        crate::score::SCORE_SCALE as int
    } else {
        s
    }
}

impl RotationRecord {
    /// The trust-score change this rotation calls for (see `spec_trust_impact`).
    pub fn trust_impact(&self) -> (r: i32)
        ensures
            r == spec_trust_impact(*self),
    {
        if !self.completed {
            -50
        } else if self.verified {
            100
        } else {
            -100
        }
    }
}

/// Applies a trust-score change, clamping the result to `[0, SCORE_SCALE]`.
pub fn apply_trust_impact(score: u32, impact: i32) -> (r: u32)
    ensures
        r == spec_apply_impact(score, impact),
{
    let s: i64 = score as i64 + impact as i64;
    if s < 0 {
        0
    } else if s > crate::score::SCORE_SCALE as i64 {
        crate::score::SCORE_SCALE
    } else {
        s as u32
    }
}

/// Where a rotation stands.
#[derive(Debug)]
pub enum RotationStatus {
    Stable,
    Scheduled { scheduled_at: i64 },
    Distributing { new_key: PublicKey, distributed_to: Vec<AgentId> },
    Rotating { new_key: PublicKey, verifications: Vec<VerificationResult> },
    Complete { record: RotationRecord },
    Failed { reason: String, error: Option<String> },
}

/// The level a rotation must be attested at: `High` for an agent that has never
/// rotated, else `Medium` for an agent at `Medium` or above and `High` below that.
pub open spec fn spec_required_rotation_level(has_history: bool, level: TrustLevel) -> TrustLevel {
    if !has_history {
        TrustLevel::High
    } else if level.spec_at_least(TrustLevel::Medium) {
        TrustLevel::Medium
    } else {
        TrustLevel::High
    }
}

pub fn required_rotation_level(has_history: bool, level: TrustLevel) -> (r: TrustLevel)
    ensures
        r == spec_required_rotation_level(has_history, level),
{
    if !has_history {
        TrustLevel::High
    } else if level.at_least(TrustLevel::Medium) {
        TrustLevel::Medium
    } else {
        TrustLevel::High
    }
}

/// The policy for attesting a rotation at `required_level`: three verifiers and
/// consensus from `High` up, two at `Medium`, one below; requests stay open for
/// `validity_period` nanoseconds.
pub open spec fn spec_rotation_policy(required_level: TrustLevel, validity_period: i64) -> VerificationPolicy {
    VerificationPolicy {
        required_level,
        min_verifiers: if required_level.spec_at_least(TrustLevel::High) {
            3
        } else if required_level == TrustLevel::Medium {
            2
        } else {
            1
        },
        require_consensus: required_level.spec_at_least(TrustLevel::High),
        validity_period,
    }
}

pub fn create_rotation_policy(required_level: TrustLevel, validity_period: i64) -> (r: VerificationPolicy)
    ensures
        r == spec_rotation_policy(required_level, validity_period),
{
    let min_verifiers: usize = if required_level.at_least(TrustLevel::High) {
        3
    } else if required_level == TrustLevel::Medium {
        2
    } else {
        1
    };
    VerificationPolicy {
        required_level,
        min_verifiers,
        require_consensus: required_level.at_least(TrustLevel::High),
        validity_period,
    }
}

/// `proof` is an ownership proof for `secret`: a 32-byte challenge followed by the
/// signature over it.
pub open spec fn is_ownership_proof(proof: Seq<u8>, secret: Seq<u8>) -> bool {
    &&& proof.len() == KEY_LENGTH + SIGNATURE_LENGTH
    &&& proof.subrange(KEY_LENGTH as int, proof.len() as int) == ed25519_signature_of(
        secret,
        proof.subrange(0, KEY_LENGTH as int),
    )
}

/// `proof` is an ownership proof made with the secret that `public` was derived from.
pub open spec fn proves_ownership(proof: Seq<u8>, public: Seq<u8>) -> bool {
    exists|secret: Seq<u8>|
        secret.len() == KEY_LENGTH && public == #[trigger] ed25519_public_of(secret)
            && is_ownership_proof(proof, secret)
}

/// Whether some completed rotation is recorded.
pub open spec fn has_completed(history: Seq<RotationRecord>) -> bool {
    exists|i: int| 0 <= i < history.len() && (#[trigger] history[i]).completed
}

/// Index of the last completed rotation in `history`, if any.
pub open spec fn last_completed_index(history: Seq<RotationRecord>) -> Option<int>
    decreases history.len(),
{
    if history.len() == 0 {
        None
    } else if history.last().completed {
        Some(history.len() - 1)
    } else {
        last_completed_index(history.drop_last())
    }
}

/// Drives one agent's key rotation:
/// `Stable -> Scheduled -> Distributing -> Rotating -> Complete`, or `Failed` on
/// cancellation; `Complete` and `Failed` return to `Stable` through `reset`.
#[derive(Debug)]
pub struct RotationCoordinator {
    agent_id: AgentId,
    key_manager: KeyManager,
    config: RotationConfig,
    lifecycle: TrustLifecycle,
    trust_level: TrustLevel,
    status: RotationStatus,
    pending_key: Option<KeyPair>,
    ownership_proof: Vec<u8>,
    request_expires_at: i64,
    reason: String,
    /// Oldest first.
    history: Vec<RotationRecord>,
}

impl RotationCoordinator {
    pub closed spec fn spec_status(&self) -> RotationStatus {
        self.status
    }

    pub closed spec fn spec_history(&self) -> Seq<RotationRecord> {
        self.history@
    }

    pub closed spec fn spec_lifecycle(&self) -> TrustLifecycle {
        self.lifecycle
    }

    pub closed spec fn spec_config(&self) -> RotationConfig {
        self.config
    }

    pub closed spec fn spec_agent(&self) -> AgentId {
        self.agent_id
    }

    pub closed spec fn spec_trust_level(&self) -> TrustLevel {
        self.trust_level
    }

    pub closed spec fn spec_key_manager(&self) -> KeyManager {
        self.key_manager
    }

    pub closed spec fn spec_pending_key(&self) -> Option<KeyPair> {
        self.pending_key
    }

    pub closed spec fn spec_request_expires_at(&self) -> i64 {
        self.request_expires_at
    }

    /// While a new key is out, its key pair is held, matches the announced key, and
    /// the stored ownership proof was made with its secret.
    pub closed spec fn wf(&self) -> bool {
        match self.status {
            RotationStatus::Distributing { new_key, .. } => self.pending_key matches Some(k)
                && k.public_key@ == new_key@ && k.is_paired() && k.private_key@.len() == KEY_LENGTH
                && is_ownership_proof(
                self.ownership_proof@,
                k.private_key@,
            ),
            RotationStatus::Rotating { new_key, .. } => self.pending_key matches Some(k)
                && k.public_key@ == new_key@ && k.is_paired() && k.private_key@.len() == KEY_LENGTH
                && is_ownership_proof(
                self.ownership_proof@,
                k.private_key@,
            ),
            _ => true,
        }
    }

    /// Rotation may proceed: the lifecycle is `Active` or `GracePeriod`.
    pub open spec fn trust_permitted(&self) -> bool {
        self.spec_lifecycle().current_state == TrustState::Active
            || self.spec_lifecycle().current_state == TrustState::GracePeriod
    }

    /// The policy a rotation of this agent must meet now.
    pub open spec fn spec_policy(&self) -> VerificationPolicy {
        spec_rotation_policy(
            spec_required_rotation_level(has_completed(self.spec_history()), self.spec_trust_level()),
            self.spec_config().spec_overlap_period(),
        )
    }

    /// A coordinator in `Stable` with no history.
    pub fn new(
        agent_id: AgentId,
        key_manager: KeyManager,
        config: RotationConfig,
        lifecycle: TrustLifecycle,
        trust_level: TrustLevel,
    ) -> (r: RotationCoordinator)
        ensures
            r.wf(),
            r.spec_status() is Stable,
            r.spec_history().len() == 0,
            r.spec_agent() == agent_id,
            r.spec_key_manager() == key_manager,
            r.spec_config() == config,
            r.spec_lifecycle() == lifecycle,
            r.spec_trust_level() == trust_level,
    {
        RotationCoordinator {
            agent_id,
            key_manager,
            config,
            lifecycle,
            trust_level,
            status: RotationStatus::Stable,
            pending_key: None,
            ownership_proof: Vec::new(),
            request_expires_at: 0,
            reason: String::new(),
            history: Vec::new(),
        }
    }

    pub fn get_config(&self) -> (r: RotationConfig)
        ensures
            r == self.spec_config(),
    {
        self.config
    }

    pub fn get_status(&self) -> (r: &RotationStatus)
        ensures
            *r == self.spec_status(),
    {
        &self.status
    }

    pub fn agent_id(&self) -> (r: &AgentId)
        ensures
            *r == self.spec_agent(),
    {
        &self.agent_id
    }

    pub fn lifecycle(&self) -> (r: &TrustLifecycle)
        ensures
            *r == self.spec_lifecycle(),
    {
        &self.lifecycle
    }

    pub fn trust_level(&self) -> (r: TrustLevel)
        ensures
            r == self.spec_trust_level(),
    {
        self.trust_level
    }

    pub fn current_public_key(&self) -> (r: PublicKey)
        ensures
            r@ == self.spec_key_manager().current_key.public_key@,
    {
        self.key_manager.current_public_key()
    }

    /// Moves the agent's trust lifecycle along (see `TrustLifecycle::apply_transition`).
    pub fn transition_lifecycle(&mut self, transition: StateTransition) -> (r: Result<(), TrustError>)
        requires
            old(self).wf(),
        ensures
            final(self).wf(),
            r is Ok <==> crate::lifecycle::valid_edge(
                old(self).spec_lifecycle().current_state,
                transition.target_state,
            ),
            r is Ok ==> final(self).spec_lifecycle().current_state == transition.target_state,
            r is Err ==> *final(self) == *old(self),
            final(self).spec_status() == old(self).spec_status(),
            final(self).spec_history() == old(self).spec_history(),
            final(self).spec_trust_level() == old(self).spec_trust_level(),
            final(self).spec_config() == old(self).spec_config(),
            final(self).spec_agent() == old(self).spec_agent(),
            final(self).spec_key_manager() == old(self).spec_key_manager(),
    {
        self.lifecycle.apply_transition(transition)
    }

    /// Records the agent's current trust level, as the trust-score engine classified it.
    pub fn set_trust_level(&mut self, level: TrustLevel)
        requires
            old(self).wf(),
        ensures
            final(self).wf(),
            final(self).spec_trust_level() == level,
            final(self).spec_status() == old(self).spec_status(),
            final(self).spec_history() == old(self).spec_history(),
            final(self).spec_lifecycle() == old(self).spec_lifecycle(),
            final(self).spec_config() == old(self).spec_config(),
    {
        self.trust_level = level;
    }

    /// Whether a completed rotation is on record.
    fn has_rotated(&self) -> (r: bool)
        ensures
            r == has_completed(self.spec_history()),
    {
        let mut i: usize = 0;
        while i < self.history.len()
            invariant
                i <= self.history@.len(),
                forall|j: int| 0 <= j < i ==> !(#[trigger] self.history@[j]).completed,
            decreases self.history.len() - i,
        {
            if self.history[i].completed {
                return true;
            }
            i = i + 1;
        }
        false
    }

    /// The policy a rotation of this agent must meet now.
    pub fn current_policy(&self) -> (r: VerificationPolicy)
        ensures
            r == self.spec_policy(),
    {
        let level = required_rotation_level(self.has_rotated(), self.trust_level);
        create_rotation_policy(level, self.config.overlap_period())
    }

    /// A fresh key pair for the rotation, checked by `validate_rotation_key`.
    pub fn generate_rotation_key(&self) -> (r: Result<KeyPair, RotationError>)
        ensures
            r matches Ok(k) ==> k.is_paired() && k.private_key@.len() == KEY_LENGTH
                && self.spec_key_manager().spec_strong_enough(&k)
                && k.public_key@ != self.spec_key_manager().current_key.public_key@,
            r matches Err(e) ==> e is Internal || e is NotAllowed,
    {
        let key = match self.key_manager.generate_key_pair() {
            Ok(k) => k,
            Err(_) => {
                return Err(RotationError::Internal("key generation failed".to_owned()));
            },
        };
        match self.validate_rotation_key(&key) {
            Ok(()) => Ok(key),
            Err(e) => Err(e),
        }
    }

    /// A candidate key must meet the minimum strength and differ byte-wise from the
    /// current public key; otherwise `NotAllowed`.
    pub fn validate_rotation_key(&self, key: &KeyPair) -> (r: Result<(), RotationError>)
        ensures
            r is Ok <==> (self.spec_key_manager().spec_strong_enough(key) && key.public_key@
                != self.spec_key_manager().current_key.public_key@),
            r matches Err(e) ==> e is NotAllowed,
    {
        if !self.key_manager.validate_key_strength(key) {
            return Err(RotationError::NotAllowed("key does not meet strength requirements".to_owned()));
        }
        if key.public_key == self.key_manager.current_key.public_key {
            return Err(RotationError::NotAllowed("new key must differ from the current key".to_owned()));
        }
        Ok(())
    }

    /// `challenge || sign(challenge, key)` for a fresh 32-byte challenge.
    pub fn generate_ownership_proof(&self, key: &KeyPair) -> (r: Result<Vec<u8>, RotationError>)
        ensures
            r matches Ok(p) ==> is_ownership_proof(p@, key.private_key@),
            r matches Err(e) ==> e is Internal,
    {
        let challenge = match self.key_manager.generate_challenge() {
            Ok(c) => c,
            Err(_) => {
                return Err(RotationError::Internal("no entropy for a challenge".to_owned()));
            },
        };
        let signature = self.key_manager.sign(&challenge, key);
        let mut proof = challenge;
        let ghost c = proof@;
        let mut i: usize = 0;
        while i < signature.len()
            invariant
                i <= signature@.len() == SIGNATURE_LENGTH,
                c.len() == KEY_LENGTH,
                proof@ == c + signature@.subrange(0, i as int),
            decreases signature.len() - i,
        {
            proof.push(signature[i]);
            i = i + 1;
            assert(proof@ =~= c + signature@.subrange(0, i as int));
        }
        assert(proof@.subrange(0, KEY_LENGTH as int) =~= c);
        assert(proof@.subrange(KEY_LENGTH as int, proof@.len() as int) =~= signature@);
        Ok(proof)
    }

    /// Checks an ownership proof: the signature after the 32-byte challenge must
    /// verify under `key`. Fails with `InvalidSignature` when the proof is not 96
    /// bytes long.
    pub fn verify_ownership(&self, key: &PublicKey, proof: &Vec<u8>) -> (r: Result<bool, RotationError>)
        ensures
            proof@.len() != KEY_LENGTH + SIGNATURE_LENGTH ==> (r matches Err(e) && e is InvalidSignature),
            proof@.len() == KEY_LENGTH + SIGNATURE_LENGTH ==> r == Ok::<bool, RotationError>(
                ed25519_accepts(
                    key@,
                    proof@.subrange(0, KEY_LENGTH as int),
                    proof@.subrange(KEY_LENGTH as int, proof@.len() as int),
                ),
            ),
            forall|secret: Seq<u8>|
                secret.len() == KEY_LENGTH && key@ == #[trigger] crate::crypto::ed25519_public_of(secret)
                    && is_ownership_proof(proof@, secret) ==> r == Ok::<bool, RotationError>(true),
    {
        if proof.len() != KEY_LENGTH + SIGNATURE_LENGTH {
            return Err(RotationError::InvalidSignature("an ownership proof is 96 bytes".to_owned()));
        }
        let challenge = copy_range(proof, 0, KEY_LENGTH);
        let signature = copy_range(proof, KEY_LENGTH, proof.len());
        match self.key_manager.verify(&challenge, &signature, key) {
            Ok(b) => Ok(b),
            Err(_) => Err(RotationError::InvalidSignature("malformed signature".to_owned())),
        }
    }
}

impl RotationCoordinator {
    /// Schedules a rotation `rotation_period` nanoseconds after `now`. Only from
    /// `Stable` (else `InvalidState`); requires the lifecycle to permit trust and the
    /// required level not to be `High` (else `NotAllowed`). A failure changes nothing.
    pub fn schedule_rotation_at(&mut self, reason: String, now: i64) -> (r: Result<(), RotationError>)
        requires
            old(self).wf(),
        ensures
            final(self).wf(),
            !(old(self).spec_status() is Stable) ==> (r matches Err(e) && e is InvalidState),
            old(self).spec_status() is Stable && !old(self).trust_permitted() ==> (r matches Err(e)
                && e is NotAllowed),
            old(self).spec_status() is Stable && old(self).trust_permitted() ==> (r is Ok
                <==> old(self).spec_policy().required_level != TrustLevel::High),
            old(self).spec_status() is Stable && old(self).spec_policy().required_level
                == TrustLevel::High ==> (r matches Err(e) && e is NotAllowed),
            r is Err ==> *final(self) == *old(self),
            r is Ok ==> final(self).spec_status() == (RotationStatus::Scheduled {
                scheduled_at: clock::spec_offset(now, old(self).spec_config().spec_rotation_period()),
            }),
            r is Ok ==> final(self).spec_history() == old(self).spec_history()
                && final(self).spec_lifecycle() == old(self).spec_lifecycle()
                && final(self).spec_key_manager() == old(self).spec_key_manager()
                && final(self).spec_trust_level() == old(self).spec_trust_level()
                && final(self).spec_config() == old(self).spec_config()
                && final(self).spec_agent() == old(self).spec_agent(),
    {
        match &self.status {
            RotationStatus::Stable => {},
            _ => {
                return Err(RotationError::InvalidState("rotation can only be scheduled from Stable".to_owned()));
            },
        }
        if !self.lifecycle.is_valid_for_trust() {
            return Err(RotationError::NotAllowed("trust lifecycle does not permit rotation".to_owned()));
        }
        let policy = self.current_policy();
        if policy.required_level == TrustLevel::High {
            return Err(RotationError::NotAllowed("insufficient trust level for rotation".to_owned()));
        }
        self.status = RotationStatus::Scheduled {
            scheduled_at: clock::offset(now, self.config.rotation_period()),
        };
        self.reason = reason;
        Ok(())
    }

    /// `schedule_rotation_at` with the current time.
    pub fn schedule_rotation(&mut self, reason: String) -> (r: Result<(), RotationError>)
        requires
            old(self).wf(),
        ensures
            final(self).wf(),
            !(old(self).spec_status() is Stable) ==> (r matches Err(e) && e is InvalidState),
            old(self).spec_status() is Stable && !old(self).trust_permitted() ==> (r matches Err(e)
                && e is NotAllowed),
            old(self).spec_status() is Stable && old(self).trust_permitted() ==> (r is Ok
                <==> old(self).spec_policy().required_level != TrustLevel::High),
            old(self).spec_status() is Stable && old(self).spec_policy().required_level
                == TrustLevel::High ==> (r matches Err(e) && e is NotAllowed),
            r is Err ==> *final(self) == *old(self),
            r is Ok ==> final(self).spec_status() is Scheduled,
            r is Ok ==> final(self).spec_history() == old(self).spec_history()
                && final(self).spec_lifecycle() == old(self).spec_lifecycle()
                && final(self).spec_key_manager() == old(self).spec_key_manager()
                && final(self).spec_trust_level() == old(self).spec_trust_level()
                && final(self).spec_config() == old(self).spec_config()
                && final(self).spec_agent() == old(self).spec_agent(),
    {
        self.schedule_rotation_at(reason, clock::now())
    }

    /// Begins a rotation from `Stable` or `Scheduled`: makes a new key pair, checks
    /// it (strength, differs from the current key) and its ownership proof, and moves
    /// to `Distributing` with the new public key; verification requests stay open for
    /// `overlap_period` nanoseconds after `now`. A failure changes nothing: `InvalidState`
    /// from any other status, `NotAllowed` when the lifecycle forbids it or the key is
    /// rejected, `Internal` when no key or challenge can be made.
    pub fn begin_rotation_at(&mut self, now: i64) -> (r: Result<(), RotationError>)
        requires
            old(self).wf(),
        ensures
            final(self).wf(),
            !(old(self).spec_status() is Stable || old(self).spec_status() is Scheduled) ==> (r matches Err(e)
                && e is InvalidState),
            (old(self).spec_status() is Stable || old(self).spec_status() is Scheduled)
                && !old(self).trust_permitted() ==> (r matches Err(e) && e is NotAllowed),
            r matches Err(e) ==> (e is InvalidState || e is NotAllowed || e is Internal),
            r is Err ==> *final(self) == *old(self),
            r is Ok ==> {
                &&& final(self).spec_status() matches RotationStatus::Distributing { new_key, distributed_to }
                &&& distributed_to@.len() == 0
                &&& final(self).spec_pending_key() matches Some(k) && k.public_key@ == new_key@
                    && k.is_paired() && old(self).spec_key_manager().spec_strong_enough(&k)
                    && new_key@ != old(self).spec_key_manager().current_key.public_key@
                &&& final(self).spec_request_expires_at() == clock::spec_offset(
                    now,
                    old(self).spec_config().spec_overlap_period(),
                )
                &&& final(self).spec_history() == old(self).spec_history()
                &&& final(self).spec_lifecycle() == old(self).spec_lifecycle()
                &&& final(self).spec_key_manager() == old(self).spec_key_manager()
                &&& final(self).spec_trust_level() == old(self).spec_trust_level()
                &&& final(self).spec_config() == old(self).spec_config()
                &&& final(self).spec_agent() == old(self).spec_agent()
            },
    {
        match &self.status {
            RotationStatus::Stable => {},
            RotationStatus::Scheduled { .. } => {},
            _ => {
                return Err(RotationError::InvalidState("rotation can only begin from Stable or Scheduled".to_owned()));
            },
        }
        if !self.lifecycle.is_valid_for_trust() {
            return Err(RotationError::NotAllowed("trust lifecycle does not permit rotation".to_owned()));
        }
        let key = match self.generate_rotation_key() {
            Ok(k) => k,
            Err(e) => {
                return Err(e);
            },
        };
        let proof = match self.generate_ownership_proof(&key) {
            Ok(p) => p,
            Err(e) => {
                return Err(e);
            },
        };
        let new_key = key.public_key.clone();
        self.status = RotationStatus::Distributing { new_key, distributed_to: Vec::new() };
        self.pending_key = Some(key);
        self.ownership_proof = proof;
        self.request_expires_at = clock::offset(now, self.config.overlap_period());
        Ok(())
    }

    /// `begin_rotation_at` with the current time.
    pub fn begin_rotation(&mut self) -> (r: Result<(), RotationError>)
        requires
            old(self).wf(),
        ensures
            final(self).wf(),
            !(old(self).spec_status() is Stable || old(self).spec_status() is Scheduled) ==> (r matches Err(e)
                && e is InvalidState),
            (old(self).spec_status() is Stable || old(self).spec_status() is Scheduled)
                && !old(self).trust_permitted() ==> (r matches Err(e) && e is NotAllowed),
            r matches Err(e) ==> (e is InvalidState || e is NotAllowed || e is Internal),
            r is Err ==> *final(self) == *old(self),
            r is Ok ==> {
                &&& final(self).spec_status() matches RotationStatus::Distributing { new_key, distributed_to }
                &&& distributed_to@.len() == 0
                &&& final(self).spec_pending_key() matches Some(k) && k.public_key@ == new_key@
                    && k.is_paired() && old(self).spec_key_manager().spec_strong_enough(&k)
                    && new_key@ != old(self).spec_key_manager().current_key.public_key@
                &&& final(self).spec_history() == old(self).spec_history()
                &&& final(self).spec_lifecycle() == old(self).spec_lifecycle()
                &&& final(self).spec_key_manager() == old(self).spec_key_manager()
                &&& final(self).spec_trust_level() == old(self).spec_trust_level()
                &&& final(self).spec_config() == old(self).spec_config()
                &&& final(self).spec_agent() == old(self).spec_agent()
            },
    {
        self.begin_rotation_at(clock::now())
    }

    /// The ownership proof of the key being distributed, for verifiers to check.
    pub fn ownership_proof(&self) -> (r: Option<Vec<u8>>)
        requires
            self.wf(),
        ensures
            (self.spec_status() is Distributing || self.spec_status() is Rotating) <==> r is Some,
            r matches Some(p) ==> (announced_key(self.spec_status()) matches Some(a)
                && proves_ownership(p@, a@)),
    {
        proof {
            if self.status is Distributing || self.status is Rotating {
                let k = self.pending_key->0;
                assert(k.public_key@ == ed25519_public_of(k.private_key@));
                assert(proves_ownership(self.ownership_proof@, k.public_key@));
            }
        }
        match &self.status {
            RotationStatus::Distributing { .. } => Some(crate::crypto::copy_bytes(&self.ownership_proof)),
            RotationStatus::Rotating { .. } => Some(crate::crypto::copy_bytes(&self.ownership_proof)),
            _ => None,
        }
    }

    /// Picks the verifiers for the key being distributed (see `select`) under the
    /// current policy and moves to `Rotating` with no attestations yet. Only from
    /// `Distributing` (else `InvalidState`); `NotAllowed` when the lifecycle forbids
    /// it or too few candidates qualify. A failure changes nothing.
    pub fn select_verifiers(&mut self, pool: &Vec<VerifierCandidate>) -> (r: Result<
        Vec<VerifierCandidate>,
        RotationError,
    >)
        requires
            old(self).wf(),
        ensures
            final(self).wf(),
            !(old(self).spec_status() is Distributing) ==> (r matches Err(e) && e is InvalidState),
            old(self).spec_status() is Distributing && !old(self).trust_permitted() ==> (r matches Err(e)
                && e is NotAllowed),
            old(self).spec_status() is Distributing && old(self).trust_permitted() ==> (r is Ok
                <==> crate::selector::eligible_pool(pool@, old(self).spec_policy().required_level).len()
                >= old(self).spec_policy().min_verifiers),
            r is Err ==> *final(self) == *old(self),
            r matches Ok(v) ==> {
                &&& v@.len() == old(self).spec_policy().min_verifiers
                &&& v@.to_multiset().subset_of(
                    crate::selector::eligible_pool(pool@, old(self).spec_policy().required_level).to_multiset(),
                )
                &&& old(self).spec_status() matches RotationStatus::Distributing { new_key: k0, .. }
                &&& final(self).spec_status() matches RotationStatus::Rotating { new_key, verifications }
                &&& new_key@ == k0@
                &&& verifications@.len() == 0
                &&& final(self).spec_history() == old(self).spec_history()
                &&& final(self).spec_lifecycle() == old(self).spec_lifecycle()
                &&& final(self).spec_trust_level() == old(self).spec_trust_level()
                &&& final(self).spec_config() == old(self).spec_config()
            },
    {
        let key = match &self.status {
            RotationStatus::Distributing { new_key, .. } => new_key.clone(),
            _ => {
                return Err(RotationError::InvalidState("verifiers are chosen while distributing".to_owned()));
            },
        };
        if !self.lifecycle.is_valid_for_trust() {
            return Err(RotationError::NotAllowed("trust lifecycle does not permit rotation".to_owned()));
        }
        let policy = self.current_policy();
        let chosen = match select(pool, policy.required_level, policy.min_verifiers) {
            Ok(v) => v,
            Err(e) => {
                return Err(e);
            },
        };
        self.status = RotationStatus::Rotating { new_key: key, verifications: Vec::new() };
        Ok(chosen)
    }
}

/// The attestations collected so far: those of `Rotating`, none in `Distributing`.
pub open spec fn collected(status: RotationStatus) -> Seq<VerificationResult> {
    match status {
        RotationStatus::Rotating { verifications, .. } => verifications@,
        _ => Seq::empty(),
    }
}

/// The key being rotated in, while one is out.
pub open spec fn announced_key(status: RotationStatus) -> Option<PublicKey> {
    match status {
        RotationStatus::Distributing { new_key, .. } => Some(new_key),
        RotationStatus::Rotating { new_key, .. } => Some(new_key),
        _ => None,
    }
}

/// `verifier` already attested among the attestations of `status`.
pub open spec fn attested_by(status: RotationStatus, verifier: AgentId) -> bool {
    exists|i: int|
        0 <= i < collected(status).len() && spec_same_agent(
            (#[trigger] collected(status)[i]).verifier_id,
            verifier,
        )
}

/// `proof` is 96 bytes and its signature verifies over its challenge under `key`.
pub open spec fn proof_verifies(proof: Seq<u8>, key: Seq<u8>) -> bool {
    &&& proof.len() == KEY_LENGTH + SIGNATURE_LENGTH
    &&& ed25519_accepts(
        key,
        proof.subrange(0, KEY_LENGTH as int),
        proof.subrange(KEY_LENGTH as int, proof.len() as int),
    )
}

/// Whether `verifier` already attested among `results`.
fn already_attested(results: &Vec<VerificationResult>, verifier: &AgentId) -> (r: bool)
    ensures
        r == exists|i: int| 0 <= i < results@.len() && spec_same_agent((#[trigger] results@[i]).verifier_id, *verifier),
{
    let mut i: usize = 0;
    while i < results.len()
        invariant
            i <= results@.len(),
            forall|j: int| 0 <= j < i ==> !spec_same_agent((#[trigger] results@[j]).verifier_id, *verifier),
        decreases results.len() - i,
    {
        if same_agent(&results[i].verifier_id, verifier) {
            return true;
        }
        i = i + 1;
    }
    false
}

/// A copy of a list of attestations, element by element.
fn copy_results(v: &Vec<VerificationResult>) -> (r: Vec<VerificationResult>)
    ensures
        r@.len() == v@.len(),
        forall|i: int| 0 <= i < v@.len() ==> same_result(#[trigger] r@[i], v@[i]),
{
    let mut r: Vec<VerificationResult> = Vec::new();
    let mut i: usize = 0;
    while i < v.len()
        invariant
            i <= v@.len(),
            r@.len() == i,
            forall|j: int| 0 <= j < i ==> same_result(#[trigger] r@[j], v@[j]),
        decreases v.len() - i,
    {
        let x = &v[i];
        let mut reasons: Vec<String> = Vec::new();
        let mut t: usize = 0;
        while t < x.failure_reasons.len()
            invariant
                t <= x.failure_reasons@.len(),
                reasons@ == x.failure_reasons@.subrange(0, t as int),
            decreases x.failure_reasons.len() - t,
        {
            reasons.push(x.failure_reasons[t].clone());
            t = t + 1;
            assert(reasons@ =~= x.failure_reasons@.subrange(0, t as int));
        }
        assert(x.failure_reasons@.subrange(0, x.failure_reasons@.len() as int) =~= x.failure_reasons@);
        r.push(
            VerificationResult {
                verifier_id: x.verifier_id.clone(),
                status: x.status,
                level: x.level,
                verified_at: x.verified_at,
                evidence: crate::delegation::copy_entries(&x.evidence),
                failure_reasons: reasons,
            },
        );
        i = i + 1;
    }
    r
}

/// `a` and `b` hold the same attestation.
pub open spec fn same_result(a: VerificationResult, b: VerificationResult) -> bool {
    &&& a.verifier_id == b.verifier_id
    &&& a.status == b.status
    &&& a.level == b.level
    &&& a.verified_at == b.verified_at
    &&& a.evidence@ == b.evidence@
    &&& a.failure_reasons@ == b.failure_reasons@
}

impl RotationCoordinator {
    /// Accepts one verifier's attestation of the new key, given with the ownership
    /// proof the verifier checked. In `Distributing` or `Rotating` only (else
    /// `InvalidState`). Rejected with `NotAllowed` when the lifecycle forbids it, when
    /// the verifier is the rotating agent itself, or when it already attested; with
    /// `VerificationFailed` when the request has expired by `now` or the proof does
    /// not verify against the new key; with `InvalidSignature` for a malformed proof.
    /// On acceptance the attestation is appended and the status is `Rotating`; a
    /// rejection changes nothing.
    pub fn submit_attestation_at(&mut self, result: VerificationResult, proof: &Vec<u8>, now: i64) -> (r:
        Result<(), RotationError>)
        requires
            old(self).wf(),
        ensures
            final(self).wf(),
            announced_key(old(self).spec_status()) is None ==> (r matches Err(e) && e is InvalidState),
            r is Err ==> *final(self) == *old(self),
            spec_same_agent(result.verifier_id, old(self).spec_agent()) ==> r is Err,
            attested_by(old(self).spec_status(), result.verifier_id) ==> r is Err,
            now >= old(self).spec_request_expires_at() ==> r is Err,
            announced_key(old(self).spec_status()) is Some && !old(self).trust_permitted() ==> (r matches Err(
                e,
            ) && e is NotAllowed),
            announced_key(old(self).spec_status()) is Some && old(self).trust_permitted() && (
            spec_same_agent(result.verifier_id, old(self).spec_agent()) || attested_by(
                old(self).spec_status(),
                result.verifier_id,
            )) ==> (r matches Err(e) && e is NotAllowed),
            announced_key(old(self).spec_status()) is Some && old(self).trust_permitted()
                && !spec_same_agent(result.verifier_id, old(self).spec_agent()) && !attested_by(
                old(self).spec_status(),
                result.verifier_id,
            ) && now >= old(self).spec_request_expires_at() ==> (r matches Err(e)
                && e is VerificationFailed),
            (announced_key(old(self).spec_status()) is Some && old(self).trust_permitted()
                && !spec_same_agent(result.verifier_id, old(self).spec_agent()) && !attested_by(
                old(self).spec_status(),
                result.verifier_id,
            ) && now < old(self).spec_request_expires_at()) ==> (proof@.len() != KEY_LENGTH
                + SIGNATURE_LENGTH ==> (r matches Err(e) && e is InvalidSignature)) && (proof@.len()
                == KEY_LENGTH + SIGNATURE_LENGTH && !proof_verifies(proof@, announced_key(old(self).spec_status())->0@) ==> (r matches Err(e)
                && e is VerificationFailed)),
            (announced_key(old(self).spec_status()) matches Some(k) && old(self).trust_permitted()
                && !spec_same_agent(result.verifier_id, old(self).spec_agent()) && !attested_by(old(self).spec_status(), result.verifier_id) && now < old(self).spec_request_expires_at() && proves_ownership(proof@, k@))
                ==> r is Ok,
            r is Ok ==> {
                &&& announced_key(old(self).spec_status()) matches Some(k)
                &&& old(self).trust_permitted()
                &&& !spec_same_agent(result.verifier_id, old(self).spec_agent())
                &&& now < old(self).spec_request_expires_at()
                &&& proof@.len() == KEY_LENGTH + SIGNATURE_LENGTH
                &&& ed25519_accepts(
                    k@,
                    proof@.subrange(0, KEY_LENGTH as int),
                    proof@.subrange(KEY_LENGTH as int, proof@.len() as int),
                )
                &&& final(self).spec_status() matches RotationStatus::Rotating { new_key, verifications }
                &&& new_key@ == k@
                &&& verifications@.len() == collected(old(self).spec_status()).len() + 1
                &&& forall|i: int|
                    0 <= i < collected(old(self).spec_status()).len() ==> same_result(
                        #[trigger] verifications@[i],
                        collected(old(self).spec_status())[i],
                    )
                &&& same_result(verifications@.last(), result)
                &&& final(self).spec_history() == old(self).spec_history()
                &&& final(self).spec_lifecycle() == old(self).spec_lifecycle()
                &&& final(self).spec_trust_level() == old(self).spec_trust_level()
                &&& final(self).spec_config() == old(self).spec_config()
                &&& final(self).spec_agent() == old(self).spec_agent()
                &&& final(self).spec_key_manager() == old(self).spec_key_manager()
            },
    {
        let (key, mut verifications) = match &self.status {
            RotationStatus::Distributing { new_key, .. } => (new_key.clone(), Vec::new()),
            RotationStatus::Rotating { new_key, verifications } => (new_key.clone(), copy_results(verifications)),
            _ => {
                return Err(RotationError::InvalidState("no key is being rotated".to_owned()));
            },
        };
        if !self.lifecycle.is_valid_for_trust() {
            return Err(RotationError::NotAllowed("trust lifecycle does not permit rotation".to_owned()));
        }
        if same_agent(&result.verifier_id, &self.agent_id) {
            return Err(RotationError::NotAllowed("an agent cannot attest its own key".to_owned()));
        }
        if already_attested(&verifications, &result.verifier_id) {
            return Err(RotationError::NotAllowed("this verifier already attested".to_owned()));
        }
        assert forall|i: int| 0 <= i < collected(self.status).len() implies !spec_same_agent(
            (#[trigger] collected(self.status)[i]).verifier_id,
            result.verifier_id,
        ) by {
            assert(same_result(verifications@[i], collected(self.status)[i]));
            assert(!spec_same_agent(verifications@[i].verifier_id, result.verifier_id));
        }
        if now >= self.request_expires_at {
            return Err(RotationError::VerificationFailed("the verification request has expired".to_owned()));
        }
        match self.verify_ownership(&key, proof) {
            Ok(true) => {},
            Ok(false) => {
                return Err(RotationError::VerificationFailed("the ownership proof does not verify".to_owned()));
            },
            Err(e) => {
                return Err(e);
            },
        }
        let ghost before = verifications@;
        verifications.push(result);
        assert(forall|i: int| 0 <= i < before.len() ==> #[trigger] verifications@[i] == before[i]);
        self.status = RotationStatus::Rotating { new_key: key, verifications };
        Ok(())
    }

    /// `submit_attestation_at` with the current time.
    pub fn submit_attestation(&mut self, result: VerificationResult, proof: &Vec<u8>) -> (r: Result<
        (),
        RotationError,
    >)
        requires
            old(self).wf(),
        ensures
            final(self).wf(),
            announced_key(old(self).spec_status()) is None ==> (r matches Err(e) && e is InvalidState),
            r is Err ==> *final(self) == *old(self),
            spec_same_agent(result.verifier_id, old(self).spec_agent()) ==> r is Err,
            attested_by(old(self).spec_status(), result.verifier_id) ==> r is Err,
            !old(self).trust_permitted() ==> r is Err,
            announced_key(old(self).spec_status()) is Some && !old(self).trust_permitted() ==> (r matches Err(
                e,
            ) && e is NotAllowed),
            announced_key(old(self).spec_status()) is Some && old(self).trust_permitted() && (
            spec_same_agent(result.verifier_id, old(self).spec_agent()) || attested_by(
                old(self).spec_status(),
                result.verifier_id,
            )) ==> (r matches Err(e) && e is NotAllowed),
            announced_key(old(self).spec_status()) is Some && !proof_verifies(
                proof@,
                announced_key(old(self).spec_status())->0@,
            ) ==> r is Err,
            r is Ok ==> {
                &&& announced_key(old(self).spec_status()) matches Some(k)
                &&& old(self).trust_permitted()
                &&& !spec_same_agent(result.verifier_id, old(self).spec_agent())
                &&& !attested_by(old(self).spec_status(), result.verifier_id)
                &&& proof_verifies(proof@, k@)
                &&& final(self).spec_status() matches RotationStatus::Rotating { new_key, verifications }
                &&& new_key@ == k@
                &&& verifications@.len() == collected(old(self).spec_status()).len() + 1
                &&& forall|i: int|
                    0 <= i < collected(old(self).spec_status()).len() ==> same_result(
                        #[trigger] verifications@[i],
                        collected(old(self).spec_status())[i],
                    )
                &&& same_result(verifications@.last(), result)
                &&& final(self).spec_history() == old(self).spec_history()
                &&& final(self).spec_lifecycle() == old(self).spec_lifecycle()
                &&& final(self).spec_trust_level() == old(self).spec_trust_level()
                &&& final(self).spec_config() == old(self).spec_config()
                &&& final(self).spec_agent() == old(self).spec_agent()
                &&& final(self).spec_key_manager() == old(self).spec_key_manager()
            },
    {
        self.submit_attestation_at(result, proof, clock::now())
    }
}

impl RotationCoordinator {
    /// Completes the rotation. Only from `Rotating` (else `InvalidState`). Fails with
    /// `VerificationFailed` unless the collected attestations meet the current policy
    /// (quorum, consensus, level) and, when the configuration requires verification,
    /// at least one was collected; with `NotAllowed` when the lifecycle forbids it.
    /// On success the new key pair replaces the current one, the record (stamped
    /// `now`) is appended to the history and returned, and the status is `Complete`.
    /// A failure changes nothing.
    pub fn complete_rotation_at(&mut self, now: i64) -> (r: Result<RotationRecord, RotationError>)
        requires
            old(self).wf(),
        ensures
            final(self).wf(),
            !(old(self).spec_status() is Rotating) ==> (r matches Err(e) && e is InvalidState),
            old(self).spec_status() is Rotating && collected(old(self).spec_status()).len()
                < old(self).spec_policy().min_verifiers ==> (r matches Err(e) && e is VerificationFailed),
            old(self).spec_status() is Rotating && !requirements_met(
                old(self).spec_policy(),
                collected(old(self).spec_status()),
            ) ==> (r matches Err(e) && e is VerificationFailed),
            r is Err ==> *final(self) == *old(self),
            (old(self).spec_status() is Rotating && requirements_met(
                old(self).spec_policy(),
                collected(old(self).spec_status()),
            ) && (old(self).spec_config().spec_require_verification() ==> collected(
                old(self).spec_status(),
            ).len() > 0) && old(self).trust_permitted()) ==> r is Ok,
            r matches Ok(record) ==> {
                &&& old(self).spec_status() matches RotationStatus::Rotating { new_key, verifications }
                &&& old(self).spec_pending_key() matches Some(pending)
                &&& record.old_key@ == old(self).spec_key_manager().current_key.public_key@
                &&& record.new_key@ == new_key@
                &&& record.rotated_at == now
                &&& record.verified == (verifications@.len() > 0)
                &&& record.verification_count == verifications@.len()
                &&& record.completed
                &&& final(self).spec_key_manager().current_key.public_key@ == pending.public_key@
                &&& final(self).spec_key_manager().current_key.private_key@ == pending.private_key@
                &&& final(self).spec_status() matches RotationStatus::Complete { record: stored }
                &&& same_record(stored, record)
                &&& final(self).spec_history().len() == old(self).spec_history().len() + 1
                &&& final(self).spec_history().subrange(0, old(self).spec_history().len() as int)
                    == old(self).spec_history()
                &&& same_record(final(self).spec_history().last(), record)
                &&& final(self).spec_lifecycle() == old(self).spec_lifecycle()
                &&& final(self).spec_trust_level() == old(self).spec_trust_level()
                &&& final(self).spec_config() == old(self).spec_config()
                &&& final(self).spec_agent() == old(self).spec_agent()
            },
    {
        let policy = self.current_policy();
        let (new_key, count, verified_by, acceptable) = match &self.status {
            RotationStatus::Rotating { new_key, verifications } => {
                let met = check_verification_requirements(&policy, verifications);
                let count = verifications.len();
                let by = if count > 0 {
                    Some(verifications[0].verifier_id.clone())
                } else {
                    None
                };
                (new_key.clone(), count, by, met && (count > 0 || !self.config.require_verification()))
            },
            _ => {
                return Err(RotationError::InvalidState("only a rotating key can be completed".to_owned()));
            },
        };
        if !acceptable {
            return Err(RotationError::VerificationFailed("verification requirements not met".to_owned()));
        }
        if !self.lifecycle.is_valid_for_trust() {
            return Err(RotationError::NotAllowed("trust lifecycle does not permit rotation".to_owned()));
        }
        let pending = match &self.pending_key {
            Some(k) => k.clone(),
            None => {
                return Err(RotationError::Internal("the new key pair is missing".to_owned()));
            },
        };
        let record = RotationRecord {
            old_key: self.key_manager.current_public_key(),
            new_key,
            rotated_at: now,
            reason: self.reason.clone(),
            verified: count > 0,
            verified_by,
            verification_count: count,
            completed: true,
        };
        proof {
            assert(self.pending_key matches Some(k) && k.public_key@ == pending.public_key@);
        }
        self.key_manager.rotate_key(pending);
        self.history.push(record.clone());
        self.status = RotationStatus::Complete { record: record.clone() };
        self.pending_key = None;
        assert(self.history@.subrange(0, old(self).history@.len() as int) =~= old(self).history@);
        Ok(record)
    }

    /// `complete_rotation_at` with the current time.
    pub fn complete_rotation(&mut self) -> (r: Result<RotationRecord, RotationError>)
        requires
            old(self).wf(),
        ensures
            final(self).wf(),
            !(old(self).spec_status() is Rotating) ==> (r matches Err(e) && e is InvalidState),
            old(self).spec_status() is Rotating && collected(old(self).spec_status()).len()
                < old(self).spec_policy().min_verifiers ==> (r matches Err(e) && e is VerificationFailed),
            old(self).spec_status() is Rotating && !requirements_met(
                old(self).spec_policy(),
                collected(old(self).spec_status()),
            ) ==> (r matches Err(e) && e is VerificationFailed),
            r is Err ==> *final(self) == *old(self),
            (old(self).spec_status() is Rotating && requirements_met(
                old(self).spec_policy(),
                collected(old(self).spec_status()),
            ) && (old(self).spec_config().spec_require_verification() ==> collected(
                old(self).spec_status(),
            ).len() > 0) && old(self).trust_permitted()) ==> r is Ok,
            r matches Ok(record) ==> {
                &&& old(self).spec_status() matches RotationStatus::Rotating { new_key, verifications }
                &&& old(self).spec_pending_key() matches Some(pending)
                &&& record.old_key@ == old(self).spec_key_manager().current_key.public_key@
                &&& record.new_key@ == new_key@
                &&& record.verified == (verifications@.len() > 0)
                &&& record.verification_count == verifications@.len()
                &&& record.completed
                &&& final(self).spec_key_manager().current_key.public_key@ == pending.public_key@
                &&& final(self).spec_key_manager().current_key.private_key@ == pending.private_key@
                &&& final(self).spec_status() matches RotationStatus::Complete { record: stored }
                &&& same_record(stored, record)
                &&& final(self).spec_history().len() == old(self).spec_history().len() + 1
                &&& final(self).spec_history().subrange(0, old(self).spec_history().len() as int)
                    == old(self).spec_history()
                &&& same_record(final(self).spec_history().last(), record)
                &&& final(self).spec_lifecycle() == old(self).spec_lifecycle()
                &&& final(self).spec_trust_level() == old(self).spec_trust_level()
                &&& final(self).spec_config() == old(self).spec_config()
                &&& final(self).spec_agent() == old(self).spec_agent()
            },
    {
        self.complete_rotation_at(clock::now())
    }

    /// Cancels a rotation in `Scheduled`, `Distributing` or `Rotating`: the status
    /// becomes `Failed` with reason "cancelled", the pending key is dropped and a
    /// cancellation record (stamped `now`, not verified) is appended. From any other
    /// status, including `Failed`, fails with `InvalidState` and changes nothing.
    pub fn cancel_rotation_at(&mut self, now: i64) -> (r: Result<(), RotationError>)
        requires
            old(self).wf(),
        ensures
            final(self).wf(),
            (old(self).spec_status() is Scheduled || old(self).spec_status() is Distributing
                || old(self).spec_status() is Rotating) <==> r is Ok,
            r matches Err(e) ==> e is InvalidState && *final(self) == *old(self),
            r is Ok ==> {
                &&& final(self).spec_status() matches RotationStatus::Failed { reason, error }
                &&& reason@ == "cancelled"@
                &&& error is None
                &&& final(self).spec_pending_key() is None
                &&& final(self).spec_history().len() == old(self).spec_history().len() + 1
                &&& final(self).spec_history().subrange(0, old(self).spec_history().len() as int)
                    == old(self).spec_history()
                &&& !final(self).spec_history().last().completed
                &&& !final(self).spec_history().last().verified
                &&& final(self).spec_history().last().rotated_at == now
                &&& final(self).spec_key_manager() == old(self).spec_key_manager()
                &&& final(self).spec_lifecycle() == old(self).spec_lifecycle()
                &&& final(self).spec_trust_level() == old(self).spec_trust_level()
                &&& final(self).spec_config() == old(self).spec_config()
                &&& final(self).spec_agent() == old(self).spec_agent()
            },
    {
        let (new_key, count) = match &self.status {
            RotationStatus::Scheduled { .. } => (self.key_manager.current_public_key(), 0),
            RotationStatus::Distributing { new_key, .. } => (new_key.clone(), 0),
            RotationStatus::Rotating { new_key, verifications } => (new_key.clone(), verifications.len()),
            _ => {
                return Err(RotationError::InvalidState("no rotation to cancel".to_owned()));
            },
        };
        let record = RotationRecord {
            old_key: self.key_manager.current_public_key(),
            new_key,
            rotated_at: now,
            reason: "cancelled".to_owned(),
            verified: false,
            verified_by: None,
            verification_count: count,
            completed: false,
        };
        self.history.push(record);
        self.status = RotationStatus::Failed { reason: "cancelled".to_owned(), error: None };
        self.pending_key = None;
        assert(self.history@.subrange(0, old(self).history@.len() as int) =~= old(self).history@);
        Ok(())
    }

    /// `cancel_rotation_at` with the current time.
    pub fn cancel_rotation(&mut self) -> (r: Result<(), RotationError>)
        requires
            old(self).wf(),
        ensures
            final(self).wf(),
            (old(self).spec_status() is Scheduled || old(self).spec_status() is Distributing
                || old(self).spec_status() is Rotating) <==> r is Ok,
            r matches Err(e) ==> e is InvalidState && *final(self) == *old(self),
            r is Ok ==> {
                &&& final(self).spec_status() matches RotationStatus::Failed { reason, error }
                &&& reason@ == "cancelled"@
                &&& error is None
                &&& final(self).spec_pending_key() is None
                &&& final(self).spec_history().len() == old(self).spec_history().len() + 1
                &&& final(self).spec_history().subrange(0, old(self).spec_history().len() as int)
                    == old(self).spec_history()
                &&& !final(self).spec_history().last().completed
                &&& !final(self).spec_history().last().verified
                &&& final(self).spec_key_manager() == old(self).spec_key_manager()
                &&& final(self).spec_lifecycle() == old(self).spec_lifecycle()
                &&& final(self).spec_trust_level() == old(self).spec_trust_level()
                &&& final(self).spec_config() == old(self).spec_config()
                &&& final(self).spec_agent() == old(self).spec_agent()
            },
    {
        self.cancel_rotation_at(clock::now())
    }

    /// Returns a finished rotation (`Complete` or `Failed`) to `Stable`, so that a new
    /// cycle can be scheduled; from any other status fails with `InvalidState`.
    pub fn reset(&mut self) -> (r: Result<(), RotationError>)
        requires
            old(self).wf(),
        ensures
            final(self).wf(),
            (old(self).spec_status() is Complete || old(self).spec_status() is Failed) <==> r is Ok,
            r is Err ==> *final(self) == *old(self),
            r is Ok ==> final(self).spec_status() is Stable && final(self).spec_history()
                == old(self).spec_history() && final(self).spec_key_manager()
                == old(self).spec_key_manager(),
    {
        match &self.status {
            RotationStatus::Complete { .. } => {},
            RotationStatus::Failed { .. } => {},
            _ => {
                return Err(RotationError::InvalidState("the rotation has not finished".to_owned()));
            },
        }
        self.status = RotationStatus::Stable;
        Ok(())
    }

    /// Read-only advice, in `Stable` only: a rotation is due when the agent's trust
    /// level has degraded to `Low`, or the last completed rotation is older than
    /// `max_key_age` at `now`.
    pub fn check_rotation_needed_at(&self, now: i64) -> (r: bool)
        ensures
            r == (self.spec_status() is Stable && (self.spec_trust_level() == TrustLevel::Low
                || match last_completed_index(self.spec_history()) {
                Some(i) => now - self.spec_history()[i].rotated_at
                    > self.spec_config().spec_max_key_age(),
                None => false,
            })),
    {
        match &self.status {
            RotationStatus::Stable => {},
            _ => {
                return false;
            },
        }
        if self.trust_level == TrustLevel::Low {
            return true;
        }
        let mut i: usize = self.history.len();
        assert(self.history@.subrange(0, i as int) =~= self.history@);
        while i > 0
            invariant
                i <= self.history@.len(),
                self.status is Stable,
                self.trust_level != TrustLevel::Low,
                last_completed_index(self.history@) == last_completed_index(
                    self.history@.subrange(0, i as int),
                ),
            decreases i,
        {
            let ghost prefix = self.history@.subrange(0, i as int);
            assert(prefix.drop_last() =~= self.history@.subrange(0, i - 1));
            if self.history[i - 1].completed {
                assert(prefix.last() == self.history@[i - 1]);
                assert(last_completed_index(prefix) == Some((i - 1) as int));
                let age = clock::elapsed(self.history[i - 1].rotated_at, now);
                return age > self.config.max_key_age() as i128;
            }
            i = i - 1;
        }
        false
    }

    /// `check_rotation_needed_at` with the current time.
    pub fn check_rotation_needed(&self) -> (r: bool)
        ensures
            !(self.spec_status() is Stable) ==> !r,
            self.spec_status() is Stable && self.spec_trust_level() == TrustLevel::Low ==> r,
            self.spec_status() is Stable && self.spec_trust_level() != TrustLevel::Low
                && last_completed_index(self.spec_history()) is None ==> !r,
    {
        self.check_rotation_needed_at(clock::now())
    }

    /// The recorded rotations, most recent first, at most `limit` of them.
    pub fn get_history(&self, limit: Option<usize>) -> (r: Vec<RotationRecord>)
        ensures
            r@.len() == match limit {
                Some(l) => if l < self.spec_history().len() {
                    l as int
                } else {
                    self.spec_history().len() as int
                },
                None => self.spec_history().len() as int,
            },
            forall|i: int|
                0 <= i < r@.len() ==> same_record(
                    #[trigger] r@[i],
                    self.spec_history()[self.spec_history().len() - 1 - i],
                ),
    {
        let n = self.history.len();
        let take = match limit {
            Some(l) => if l < n {
                l
            } else {
                n
            },
            None => n,
        };
        let mut r: Vec<RotationRecord> = Vec::new();
        let mut i: usize = 0;
        while i < take
            invariant
                take <= n == self.history@.len(),
                i <= take,
                r@.len() == i,
                forall|j: int| 0 <= j < i ==> same_record(#[trigger] r@[j], self.history@[n - 1 - j]),
            decreases take - i,
        {
            r.push(self.history[n - 1 - i].clone());
            i = i + 1;
        }
        r
    }
}

} // verus!
