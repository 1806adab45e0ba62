//! Authenticated encryption with ChaCha20-Poly1305, through ring. Every call to
//! `encrypt` draws a fresh nonce, so a nonce is never reused by construction.
use vstd::prelude::*;

use ring::rand::SecureRandom;

use crate::crypto::{copy_bytes, CryptoError};

verus! {

/// Length in bytes of an encryption key.
pub const ENCRYPTION_KEY_LENGTH: usize = 32;

/// Length in bytes of a nonce.
pub const NONCE_LENGTH: usize = 12;

/// What ring's ChaCha20-Poly1305 produces (ciphertext followed by the tag) when
/// sealing `plaintext` under `key`, `nonce` and `aad`.
pub uninterp spec fn chacha20_poly1305_sealed(
    key: Seq<u8>,
    nonce: Seq<u8>,
    aad: Seq<u8>,
    plaintext: Seq<u8>,
) -> Seq<u8>;

/// Relies on ring::aead::LessSafeKey::seal_in_place_append_tag with
/// CHACHA20_POLY1305: the sealed bytes depend on key, nonce, aad and plaintext alone.
#[verifier::external_body]
fn aead_seal(key: &Vec<u8>, nonce: &Vec<u8>, aad: &Vec<u8>, plaintext: &Vec<u8>) -> (r: Option<Vec<u8>>)
    requires
        key@.len() == ENCRYPTION_KEY_LENGTH,
        nonce@.len() == NONCE_LENGTH,
    ensures
        r matches Some(c) ==> c@ == chacha20_poly1305_sealed(key@, nonce@, aad@, plaintext@),
{
    let key = ring::aead::LessSafeKey::new(
        ring::aead::UnboundKey::new(&ring::aead::CHACHA20_POLY1305, key).unwrap(),
    );
    let nonce = ring::aead::Nonce::try_assume_unique_for_key(nonce).unwrap();
    let mut in_out = plaintext.clone();
    match key.seal_in_place_append_tag(nonce, ring::aead::Aad::from(aad), &mut in_out) {
        Ok(()) => Some(in_out),
        Err(_) => None,
    }
}

/// Relies on ring::aead::LessSafeKey::open_in_place with CHACHA20_POLY1305: it
/// returns a plaintext only when sealing that plaintext gives back `sealed`, and it
/// always opens what sealing produced.
#[verifier::external_body]
fn aead_open(key: &Vec<u8>, nonce: &Vec<u8>, aad: &Vec<u8>, sealed: &Vec<u8>) -> (r: Option<Vec<u8>>)
    requires
        key@.len() == ENCRYPTION_KEY_LENGTH,
        nonce@.len() == NONCE_LENGTH,
    ensures
        r matches Some(p) ==> sealed@ == chacha20_poly1305_sealed(key@, nonce@, aad@, p@),
        forall|p: Seq<u8>| sealed@ == #[trigger] chacha20_poly1305_sealed(key@, nonce@, aad@, p) ==> r is Some && r->0@ == p,
{
    let key = ring::aead::LessSafeKey::new(
        ring::aead::UnboundKey::new(&ring::aead::CHACHA20_POLY1305, key).unwrap(),
    );
    let nonce = ring::aead::Nonce::try_assume_unique_for_key(nonce).unwrap();
    let mut in_out = sealed.clone();
    match key.open_in_place(nonce, ring::aead::Aad::from(aad), &mut in_out) {
        Ok(plaintext) => Some(plaintext.to_vec()),
        Err(_) => None,
    }
}

/// Relies on ring::rand::SystemRandom::fill: on success, `len` random bytes;
/// `None` when the system source fails.
#[verifier::external_body]
fn system_random_bytes(len: usize) -> (r: Option<Vec<u8>>)
    ensures
        r matches Some(v) ==> v@.len() == len,
{
    let mut buf = vec![0u8; len];
    match ring::rand::SystemRandom::new().fill(&mut buf) {
        Ok(()) => Some(buf),
        Err(_) => None,
    }
}

/// Encrypted bytes with the nonce and the associated data they were sealed with.
#[derive(Debug, Clone)]
pub struct EncryptedData {
    /// Ciphertext followed by the authentication tag.
    pub ciphertext: Vec<u8>,
    pub nonce: Vec<u8>,
    pub aad: Option<Vec<u8>>,
}

/// The associated data as sealed: absent data counts as empty.
pub open spec fn aad_bytes(aad: Option<Vec<u8>>) -> Seq<u8> {
    match aad {
        Some(a) => a@,
        None => Seq::empty(),
    }
}

/// A 256-bit symmetric key.
#[derive(Debug)]
pub struct EncryptionKey {
    key_bytes: Vec<u8>,
}

impl EncryptionKey {
    #[verifier::type_invariant]
    spec fn well_formed(self) -> bool {
        self.key_bytes@.len() == ENCRYPTION_KEY_LENGTH
    }
}

impl View for EncryptionKey {
    type V = Seq<u8>;

    closed spec fn view(&self) -> Seq<u8> {
        self.key_bytes@
    }
}

impl EncryptionKey {
    /// Takes 32 key bytes; fails with `InvalidKeyFormat` for any other length.
    pub fn from_bytes(bytes: &Vec<u8>) -> (r: Result<EncryptionKey, CryptoError>)
        ensures
            r is Ok <==> bytes@.len() == ENCRYPTION_KEY_LENGTH,
            r matches Ok(k) ==> k@ == bytes@,
            r matches Err(e) ==> e is InvalidKeyFormat,
    {
        if bytes.len() != ENCRYPTION_KEY_LENGTH {
            return Err(CryptoError::InvalidKeyFormat("an encryption key is 32 bytes".to_owned()));
        }
        Ok(EncryptionKey { key_bytes: copy_bytes(bytes) })
    }

    /// A fresh random key; fails with `KeyGenerationError` when the system source fails.
    pub fn generate() -> (r: Result<EncryptionKey, CryptoError>)
        ensures
            r matches Ok(k) ==> k@.len() == ENCRYPTION_KEY_LENGTH,
            r matches Err(e) ==> e is KeyGenerationError,
    {
        match system_random_bytes(ENCRYPTION_KEY_LENGTH) {
            Some(bytes) => Ok(EncryptionKey { key_bytes: bytes }),
            None => Err(CryptoError::KeyGenerationError("no entropy available".to_owned())),
        }
    }

    /// The raw key bytes.
    pub fn as_bytes(&self) -> (r: &[u8])
        ensures
            r@ == self@,
    {
        self.key_bytes.as_slice()
    }

    /// Seals `data` under a fresh random nonce. The result records the nonce and the
    /// associated data (absent data is recorded as empty).
    pub fn encrypt(&self, data: &Vec<u8>, aad: Option<&Vec<u8>>) -> (r: Result<EncryptedData, CryptoError>)
        ensures
            r matches Ok(e) ==> {
                &&& e.nonce@.len() == NONCE_LENGTH
                &&& e.aad matches Some(a) && a@ == match aad {
                    Some(a) => a@,
                    None => Seq::<u8>::empty(),
                }
                &&& e.ciphertext@ == chacha20_poly1305_sealed(self@, e.nonce@, aad_bytes(e.aad), data@)
            },
            r matches Err(e) ==> e is EncryptionError,
    {
        proof {
            use_type_invariant(self);
        }
        let nonce = match system_random_bytes(NONCE_LENGTH) {
            Some(n) => n,
            None => {
                return Err(CryptoError::EncryptionError("no entropy for a nonce".to_owned()));
            },
        };
        let aad_copy = match aad {
            Some(a) => copy_bytes(a),
            None => Vec::new(),
        };
        match aead_seal(&self.key_bytes, &nonce, &aad_copy, data) {
            Some(ciphertext) => Ok(EncryptedData { ciphertext, nonce, aad: Some(aad_copy) }),
            None => Err(CryptoError::EncryptionError("input too long".to_owned())),
        }
    }

    /// Opens `encrypted`. Fails closed with `DecryptionError` when the nonce is
    /// malformed or the data does not authenticate; returns the plaintext only when
    /// sealing it gives back the ciphertext, and always returns what was sealed.
    pub fn decrypt(&self, encrypted: &EncryptedData) -> (r: Result<Vec<u8>, CryptoError>)
        ensures
            encrypted.nonce@.len() != NONCE_LENGTH ==> r is Err,
            r matches Ok(p) ==> encrypted.ciphertext@ == chacha20_poly1305_sealed(
                self@,
                encrypted.nonce@,
                aad_bytes(encrypted.aad),
                p@,
            ),
            forall|p: Seq<u8>|
                encrypted.nonce@.len() == NONCE_LENGTH && encrypted.ciphertext@
                    == #[trigger] chacha20_poly1305_sealed(self@, encrypted.nonce@, aad_bytes(encrypted.aad), p)
                    ==> (r matches Ok(q) && q@ == p),
            r matches Err(e) ==> e is DecryptionError,
    {
        proof {
            use_type_invariant(self);
        }
        if encrypted.nonce.len() != NONCE_LENGTH {
            return Err(CryptoError::DecryptionError("a nonce is 12 bytes".to_owned()));
        }
        let aad = match &encrypted.aad {
            Some(a) => copy_bytes(a),
            None => Vec::new(),
        };
        match aead_open(&self.key_bytes, &encrypted.nonce, &aad, &encrypted.ciphertext) {
            Some(p) => Ok(p),
            None => Err(CryptoError::DecryptionError("authentication failed".to_owned())),
        }
    }
}

} // verus!
