//! Keys, detached Ed25519 signatures and the key manager, on top of ed25519-dalek
//! and the operating system's random source.
use vstd::prelude::*;

use ed25519_dalek::{Signer, Verifier};
use rand::RngCore;

verus! {

/// Security level, in bits, of an Ed25519 key.
pub const ED25519_SECURITY_BITS: u32 = 128;

/// Length in bytes of secret and public keys, and of ownership challenges.
pub const KEY_LENGTH: usize = 32;

/// Length in bytes of a signature.
pub const SIGNATURE_LENGTH: usize = 64;

/// The public key that ed25519-dalek derives from a 32-byte secret.
pub uninterp spec fn ed25519_public_of(secret: Seq<u8>) -> Seq<u8>;

/// The signature that ed25519-dalek makes over `message` with a 32-byte secret.
pub uninterp spec fn ed25519_signature_of(secret: Seq<u8>, message: Seq<u8>) -> Seq<u8>;

/// Whether ed25519-dalek accepts `signature` over `message` under `public`.
pub uninterp spec fn ed25519_accepts(public: Seq<u8>, message: Seq<u8>, signature: Seq<u8>) -> bool;

/// Whether 32 bytes decode as a compressed Edwards point.
pub uninterp spec fn ed25519_point_valid(public: Seq<u8>) -> bool;

/// Whether a decodable public key has low order (a weak key).
pub uninterp spec fn ed25519_weak(public: Seq<u8>) -> bool;

/// Relies on ed25519_dalek::SigningKey::from_bytes and SigningKey::verifying_key:
/// the public key is a function of the secret, 32 bytes long, and decodes again.
#[verifier::external_body]
fn derive_public_key(secret: &Vec<u8>) -> (r: Vec<u8>)
    requires
        secret@.len() == KEY_LENGTH,
    ensures
        r@ == ed25519_public_of(secret@),
        r@.len() == KEY_LENGTH,
        ed25519_point_valid(r@),
{
    let secret: [u8; 32] = secret.as_slice().try_into().unwrap();
    ed25519_dalek::SigningKey::from_bytes(&secret).verifying_key().to_bytes().to_vec()
}

/// Relies on ed25519_dalek's Signer::sign for SigningKey: signing is deterministic
/// in the secret and the message, and a signature is 64 bytes.
#[verifier::external_body]
fn ed25519_sign(secret: &Vec<u8>, message: &Vec<u8>) -> (r: Vec<u8>)
    requires
        secret@.len() == KEY_LENGTH,
    ensures
        r@ == ed25519_signature_of(secret@, message@),
        r@.len() == SIGNATURE_LENGTH,
{
    let secret: [u8; 32] = secret.as_slice().try_into().unwrap();
    ed25519_dalek::SigningKey::from_bytes(&secret).sign(message).to_bytes().to_vec()
}

/// Relies on ed25519_dalek::VerifyingKey::from_bytes and Verifier::verify: the
/// verdict depends on the three byte strings alone, and a signature made with the
/// secret that the public key was derived from is always accepted.
#[verifier::external_body]
fn ed25519_verify(public: &Vec<u8>, message: &Vec<u8>, signature: &Vec<u8>) -> (r: bool)
    requires
        public@.len() == KEY_LENGTH,
        signature@.len() == SIGNATURE_LENGTH,
    ensures
        r == ed25519_accepts(public@, message@, signature@),
        forall|secret: Seq<u8>|
            secret.len() == KEY_LENGTH && public@ == #[trigger] ed25519_public_of(secret)
                && signature@ == ed25519_signature_of(secret, message@) ==> r,
{
    let public: [u8; 32] = public.as_slice().try_into().unwrap();
    let signature: [u8; 64] = signature.as_slice().try_into().unwrap();
    match ed25519_dalek::VerifyingKey::from_bytes(&public) {
        Ok(key) => key.verify(message, &ed25519_dalek::Signature::from_bytes(&signature)).is_ok(),
        Err(_) => false,
    }
}

/// Relies on ed25519_dalek::VerifyingKey::from_bytes: whether the bytes decode.
#[verifier::external_body]
fn ed25519_decodes(public: &Vec<u8>) -> (r: bool)
    requires
        public@.len() == KEY_LENGTH,
    ensures
        r == ed25519_point_valid(public@),
{
    let public: [u8; 32] = public.as_slice().try_into().unwrap();
    ed25519_dalek::VerifyingKey::from_bytes(&public).is_ok()
}

/// Relies on ed25519_dalek::VerifyingKey::is_weak: whether a decodable key has low order.
#[verifier::external_body]
fn ed25519_is_weak(public: &Vec<u8>) -> (r: bool)
    requires
        public@.len() == KEY_LENGTH,
        ed25519_point_valid(public@),
    ensures
        r == ed25519_weak(public@),
{
    let public: [u8; 32] = public.as_slice().try_into().unwrap();
    ed25519_dalek::VerifyingKey::from_bytes(&public).unwrap().is_weak()
}

/// Relies on rand's RngCore::try_fill_bytes for OsRng: on success, `len` bytes from
/// the operating system's random source; `None` when entropy is unavailable.
#[verifier::external_body]
fn os_random_bytes(len: usize) -> (r: Option<Vec<u8>>)
    ensures
        r matches Some(v) ==> v@.len() == len,
{
    let mut buf = vec![0u8; len];
    match rand::rngs::OsRng.try_fill_bytes(&mut buf) {
        Ok(()) => Some(buf),
        Err(_) => None,
    }
}

/// Errors of the cryptographic layer.
#[derive(Debug, Clone, PartialEq, Eq)]
pub enum CryptoError {
    InvalidKeyFormat(String),
    InvalidSignature(String),
    EncryptionError(String),
    DecryptionError(String),
    KeyGenerationError(String),
    InternalError(String),
}

/// A copy of `v`.
pub fn copy_bytes(v: &Vec<u8>) -> (r: Vec<u8>)
    ensures
        r@ == v@,
{
    copy_range(v, 0, v.len())
}

/// The bytes of `v` from `start` up to `end`.
pub fn copy_range(v: &Vec<u8>, start: usize, end: usize) -> (r: Vec<u8>)
    requires
        start <= end <= v@.len(),
    ensures
        r@ == v@.subrange(start as int, end as int),
{
    let mut r: Vec<u8> = Vec::new();
    let mut i: usize = start;
    while i < end
        invariant
            start <= i <= end <= v@.len(),
            r@ == v@.subrange(start as int, i as int),
        decreases end - i,
    {
        r.push(v[i]);
        i = i + 1;
        assert(r@ =~= v@.subrange(start as int, i as int));
    }
    r
}

/// Byte-wise equality.
pub fn bytes_equal(a: &Vec<u8>, b: &Vec<u8>) -> (r: bool)
    ensures
        r == (a@ == b@),
{
    if a.len() != b.len() {
        return false;
    }
    let mut i: usize = 0;
    while i < a.len()
        invariant
            i <= a@.len() == b@.len(),
            forall|j: int| 0 <= j < i ==> a@[j] == b@[j],
        decreases a.len() - i,
    {
        if a[i] != b[i] {
            return false;
        }
        i = i + 1;
    }
    assert(a@ =~= b@);
    true
}

/// An Ed25519 public key: 32 bytes that decode as a curve point. Equality is byte-wise.
#[derive(Debug)]
pub struct PublicKey {
    key_bytes: Vec<u8>,
}

impl PublicKey {
    #[verifier::type_invariant]
    spec fn well_formed(self) -> bool {
        self.key_bytes@.len() == KEY_LENGTH && ed25519_point_valid(self.key_bytes@)
    }
}

impl View for PublicKey {
    type V = Seq<u8>;

    closed spec fn view(&self) -> Seq<u8> {
        self.key_bytes@
    }
}

impl PublicKey {
    /// Decodes a public key; fails with `InvalidKeyFormat` exactly when the bytes are
    /// not 32 long or are not a curve point.
    pub fn from_bytes(bytes: &Vec<u8>) -> (r: Result<PublicKey, CryptoError>)
        ensures
            r is Ok <==> (bytes@.len() == KEY_LENGTH && ed25519_point_valid(bytes@)),
            r matches Ok(k) ==> k@ == bytes@,
            r matches Err(e) ==> e is InvalidKeyFormat,
    {
        if bytes.len() != KEY_LENGTH {
            return Err(CryptoError::InvalidKeyFormat("a public key is 32 bytes".to_owned()));
        }
        if !ed25519_decodes(bytes) {
            return Err(CryptoError::InvalidKeyFormat("not a curve point".to_owned()));
        }
        Ok(PublicKey { key_bytes: copy_bytes(bytes) })
    }

    /// The raw key bytes.
    pub fn to_bytes(&self) -> (r: &[u8])
        ensures
            r@ == self@,
    {
        self.key_bytes.as_slice()
    }

    /// The key bytes as a vector.
    pub fn bytes(&self) -> (r: &Vec<u8>)
        ensures
            r@ == self@,
            r@.len() == KEY_LENGTH,
            ed25519_point_valid(r@),
    {
        proof {
            use_type_invariant(self);
        }
        &self.key_bytes
    }
}

impl Clone for PublicKey {
    fn clone(&self) -> (r: Self)
        ensures
            r@ == self@,
    {
        proof {
            use_type_invariant(self);
        }
        PublicKey { key_bytes: copy_bytes(&self.key_bytes) }
    }
}

impl PartialEq for PublicKey {
    fn eq(&self, other: &PublicKey) -> (r: bool) {
        bytes_equal(&self.key_bytes, &other.key_bytes)
    }
}

impl vstd::std_specs::cmp::PartialEqSpecImpl for PublicKey {
    open spec fn obeys_eq_spec() -> bool {
        true
    }

    open spec fn eq_spec(&self, other: &PublicKey) -> bool {
        self@ == other@
    }
}

impl Eq for PublicKey {

}

/// An Ed25519 secret key: 32 bytes.
#[derive(Debug)]
pub struct PrivateKey {
    key_bytes: Vec<u8>,
}

impl PrivateKey {
    #[verifier::type_invariant]
    spec fn well_formed(self) -> bool {
        self.key_bytes@.len() == KEY_LENGTH
    }
}

impl View for PrivateKey {
    type V = Seq<u8>;

    closed spec fn view(&self) -> Seq<u8> {
        self.key_bytes@
    }
}

impl PrivateKey {
    /// Takes 32 secret bytes; fails with `InvalidKeyFormat` for any other length.
    pub fn from_bytes(bytes: &Vec<u8>) -> (r: Result<PrivateKey, CryptoError>)
        ensures
            r is Ok <==> bytes@.len() == KEY_LENGTH,
            r matches Ok(k) ==> k@ == bytes@,
            r matches Err(e) ==> e is InvalidKeyFormat,
    {
        if bytes.len() != KEY_LENGTH {
            return Err(CryptoError::InvalidKeyFormat("a secret key is 32 bytes".to_owned()));
        }
        Ok(PrivateKey { key_bytes: copy_bytes(bytes) })
    }

    /// The raw key bytes.
    pub fn to_bytes(&self) -> (r: &[u8])
        ensures
            r@ == self@,
    {
        self.key_bytes.as_slice()
    }

    /// The key bytes as a vector.
    pub fn bytes(&self) -> (r: &Vec<u8>)
        ensures
            r@ == self@,
            r@.len() == KEY_LENGTH,
    {
        proof {
            use_type_invariant(self);
        }
        &self.key_bytes
    }
}

impl Clone for PrivateKey {
    fn clone(&self) -> (r: Self)
        ensures
            r@ == self@,
    {
        proof {
            use_type_invariant(self);
        }
        PrivateKey { key_bytes: copy_bytes(&self.key_bytes) }
    }
}

/// A public key and the secret it belongs to.
#[derive(Debug)]
pub struct KeyPair {
    pub public_key: PublicKey,
    pub private_key: PrivateKey,
}

impl Clone for KeyPair {
    fn clone(&self) -> (r: Self)
        ensures
            r.public_key@ == self.public_key@,
            r.private_key@ == self.private_key@,
    {
        KeyPair { public_key: self.public_key.clone(), private_key: self.private_key.clone() }
    }
}

impl KeyPair {
    /// The public half is the one derived from the secret half.
    pub open spec fn is_paired(&self) -> bool {
        self.public_key@ == ed25519_public_of(self.private_key@)
    }

    /// Puts two halves together, as given.
    pub fn new(public_key: PublicKey, private_key: PrivateKey) -> (r: KeyPair)
        ensures
            r.public_key == public_key,
            r.private_key == private_key,
    {
        KeyPair { public_key, private_key }
    }

    /// Draws a fresh 32-byte secret from the operating system and derives its public
    /// key; fails with `KeyGenerationError` when no entropy can be had.
    pub fn generate() -> (r: Result<KeyPair, CryptoError>)
        ensures
            r matches Ok(k) ==> k.is_paired() && k.private_key@.len() == KEY_LENGTH,
            r matches Err(e) ==> e is KeyGenerationError,
    {
        match os_random_bytes(KEY_LENGTH) {
            Some(secret) => {
                let public = derive_public_key(&secret);
                Ok(KeyPair { public_key: PublicKey { key_bytes: public }, private_key: PrivateKey { key_bytes: secret } })
            },
            None => Err(CryptoError::KeyGenerationError("no entropy available".to_owned())),
        }
    }

    pub fn public_key(&self) -> (r: &PublicKey)
        ensures
            r == &self.public_key,
    {
        &self.public_key
    }

    pub fn private_key(&self) -> (r: &PrivateKey)
        ensures
            r == &self.private_key,
    {
        &self.private_key
    }

    /// Whether the two halves belong together.
    pub fn is_valid(&self) -> (r: bool)
        ensures
            r == self.is_paired(),
    {
        let derived = derive_public_key(self.private_key.bytes());
        bytes_equal(&derived, self.public_key.bytes())
    }
}

/// A detached Ed25519 signature: 64 bytes.
#[derive(Debug)]
pub struct Signature {
    signature_bytes: Vec<u8>,
}

impl Signature {
    #[verifier::type_invariant]
    spec fn well_formed(self) -> bool {
        self.signature_bytes@.len() == SIGNATURE_LENGTH
    }
}

impl View for Signature {
    type V = Seq<u8>;

    closed spec fn view(&self) -> Seq<u8> {
        self.signature_bytes@
    }
}

impl Signature {
    /// Takes 64 signature bytes; fails with `InvalidSignature` for any other length.
    pub fn from_bytes(bytes: &Vec<u8>) -> (r: Result<Signature, CryptoError>)
        ensures
            r is Ok <==> bytes@.len() == SIGNATURE_LENGTH,
            r matches Ok(s) ==> s@ == bytes@,
            r matches Err(e) ==> e is InvalidSignature,
    {
        if bytes.len() != SIGNATURE_LENGTH {
            return Err(CryptoError::InvalidSignature("a signature is 64 bytes".to_owned()));
        }
        Ok(Signature { signature_bytes: copy_bytes(bytes) })
    }

    /// Signs `message` with `private_key`.
    pub fn sign(message: &Vec<u8>, private_key: &PrivateKey) -> (r: Signature)
        ensures
            r@ == ed25519_signature_of(private_key@, message@),
    {
        Signature { signature_bytes: ed25519_sign(private_key.bytes(), message) }
    }

    /// The raw signature bytes.
    pub fn as_bytes(&self) -> (r: &[u8])
        ensures
            r@ == self@,
    {
        self.signature_bytes.as_slice()
    }

    /// Checks the signature over `message` under `public_key`. A non-matching
    /// signature gives `Ok(false)`, not an error; one made with the secret of
    /// `public_key` always gives `Ok(true)`.
    pub fn verify(&self, message: &Vec<u8>, public_key: &PublicKey) -> (r: Result<bool, CryptoError>)
        ensures
            r == Ok::<bool, CryptoError>(ed25519_accepts(public_key@, message@, self@)),
            forall|secret: Seq<u8>|
                secret.len() == KEY_LENGTH && public_key@ == #[trigger] ed25519_public_of(secret)
                    && self@ == ed25519_signature_of(secret, message@) ==> r == Ok::<
                    bool,
                    CryptoError,
                >(true),
    {
        proof {
            use_type_invariant(self);
        }
        Ok(ed25519_verify(public_key.bytes(), message, &self.signature_bytes))
    }
}

/// Holds an agent's current key pair and the minimum strength new keys must meet.
#[derive(Debug)]
pub struct KeyManager {
    pub current_key: KeyPair,
    /// Minimum bits of security.
    pub min_key_strength: u32,
}

impl KeyManager {
    pub fn new(initial_key: KeyPair, min_key_strength: u32) -> (r: KeyManager)
        ensures
            r.current_key == initial_key,
            r.min_key_strength == min_key_strength,
    {
        KeyManager { current_key: initial_key, min_key_strength }
    }

    /// A fresh key pair (see `KeyPair::generate`).
    pub fn generate_key_pair(&self) -> (r: Result<KeyPair, CryptoError>)
        ensures
            r matches Ok(k) ==> k.is_paired() && k.private_key@.len() == KEY_LENGTH,
            r matches Err(e) ==> e is KeyGenerationError,
    {
        KeyPair::generate()
    }

    /// The key meets the minimum strength: Ed25519's security level reaches the
    /// required bits and the public key does not have low order.
    pub open spec fn spec_strong_enough(&self, key: &KeyPair) -> bool {
        ED25519_SECURITY_BITS >= self.min_key_strength && !ed25519_weak(key.public_key@)
    }

    pub fn validate_key_strength(&self, key: &KeyPair) -> (r: bool)
        ensures
            r == self.spec_strong_enough(key),
    {
        if ED25519_SECURITY_BITS < self.min_key_strength {
            return false;
        }
        !ed25519_is_weak(key.public_key.bytes())
    }

    /// A copy of the current public key.
    pub fn current_public_key(&self) -> (r: PublicKey)
        ensures
            r@ == self.current_key.public_key@,
    {
        self.current_key.public_key.clone()
    }

    /// A fresh 32-byte random challenge; fails with `KeyGenerationError` when no
    /// entropy can be had.
    pub fn generate_challenge(&self) -> (r: Result<Vec<u8>, CryptoError>)
        ensures
            r matches Ok(c) ==> c@.len() == KEY_LENGTH,
            r matches Err(e) ==> e is KeyGenerationError,
    {
        match os_random_bytes(KEY_LENGTH) {
            Some(c) => Ok(c),
            None => Err(CryptoError::KeyGenerationError("no entropy available".to_owned())),
        }
    }

    /// Signs `data` with the secret half of `key`.
    pub fn sign(&self, data: &Vec<u8>, key: &KeyPair) -> (r: Vec<u8>)
        ensures
            r@ == ed25519_signature_of(key.private_key@, data@),
            r@.len() == SIGNATURE_LENGTH,
    {
        ed25519_sign(key.private_key.bytes(), data)
    }

    /// Checks a detached signature. Fails with `InvalidSignature` exactly when the
    /// signature is not 64 bytes long; otherwise gives the verdict, which is `true`
    /// for a signature made with the secret of `public_key`.
    pub fn verify(&self, data: &Vec<u8>, signature: &Vec<u8>, public_key: &PublicKey) -> (r: Result<
        bool,
        CryptoError,
    >)
        ensures
            signature@.len() != SIGNATURE_LENGTH ==> (r matches Err(e) && e is InvalidSignature),
            signature@.len() == SIGNATURE_LENGTH ==> r == Ok::<bool, CryptoError>(
                ed25519_accepts(public_key@, data@, signature@),
            ),
            forall|secret: Seq<u8>|
                secret.len() == KEY_LENGTH && signature@.len() == SIGNATURE_LENGTH && public_key@
                    == #[trigger] ed25519_public_of(secret) && signature@ == ed25519_signature_of(
                    secret,
                    data@,
                ) ==> r == Ok::<
                    bool,
                    CryptoError,
                >(true),
    {
        if signature.len() != SIGNATURE_LENGTH {
            return Err(CryptoError::InvalidSignature("a signature is 64 bytes".to_owned()));
        }
        Ok(ed25519_verify(public_key.bytes(), data, signature))
    }

    /// Replaces the current key pair wholesale.
    pub fn rotate_key(&mut self, new_key: KeyPair)
        ensures
            final(self).current_key == new_key,
            final(self).min_key_strength == old(self).min_key_strength,
    {
        self.current_key = new_key;
    }
}

} // verus!
