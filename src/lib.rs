//! Verifiable agent identity and trust: cryptographic primitives, the trust-score
//! engine, the trust lifecycle, verifier selection and the key-rotation protocol.

pub mod agent;
pub mod attributes;
pub mod clock;
pub mod crypto;
pub mod delegation;
pub mod encryption;
pub mod lifecycle;
pub mod rotation;
pub mod score;
pub mod selector;
pub mod verification;

pub use agent::{Agent, AgentCapabilities, AgentError, AgentId, AgentIdError, AgentStatus, Identity, VerificationLevel};
pub use attributes::{AttributeSource, TrustAttribute, TrustAttributeSet};
pub use delegation::{RelationshipType, TrustDelegation, TrustRelationshipSet};
pub use crypto::{CryptoError, KeyManager, KeyPair, PrivateKey, PublicKey, Signature};
pub use encryption::{EncryptedData, EncryptionKey};
pub use lifecycle::{StateHistoryEntry, StateTransition, TrustLifecycle, TrustState};
pub use rotation::{RotationConfig, RotationCoordinator, RotationError, RotationRecord, RotationStatus};
pub use score::{TrustConfig, TrustError, TrustLevel, TrustMetrics, TrustScore, SCORE_SCALE};
pub use selector::VerifierCandidate;
pub use verification::{VerificationPolicy, VerificationResult, VerificationStatus, VerifyError};
