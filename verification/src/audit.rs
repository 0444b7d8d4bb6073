//! Encryption of audit payloads at rest.
//!
//! The payload of an audit entry is sealed with AES-256-GCM under a key
//! derived with Argon2 from the configured secret and a salt kept with the
//! log. A sealed payload is stored as `base64(nonce):base64(ciphertext)`;
//! reading it back gives the payload, and stored text that does not open
//! under the key is shown as it is.
use vstd::prelude::*;
use aes_gcm::aead::{Aead, KeyInit};
use aes_gcm::{Aes256Gcm, Key, Nonce};
use crate::clock::{random_salt, uuid_nonce};
use crate::codec::{b64_decode, b64_encode, base64_decoded, base64_encoded, hex_decode, hex_decoded, is_b64_char, utf8_string};
use crate::tenants::{hex_encode, hex_lower};
use crate::text::{copy_str, lacks, lemma_split_pair, push_char, split_on, split_str, strings_view};
use vstd::utf8::{decode_utf8, encode_utf8, valid_utf8};

verus! {

broadcast use vstd::utf8::encode_utf8_valid_utf8, vstd::utf8::encode_utf8_decode_utf8;

/// Counts of audit entries: all of them, the allowed and the denied.
pub struct VaultStats {
    /// All entries.
    pub total: usize,
    /// Entries with status `ALLOWED`.
    pub allowed: usize,
    /// Entries with status `DENIED`.
    pub denied: usize,
}

/// Why a payload key could not be made or a payload not sealed.
#[derive(Debug, PartialEq, Eq)]
pub enum AuditError {
    /// The stored salt is not hexadecimal.
    SaltDecode,
    /// Argon2 refused the secret or the salt.
    KeyDerivation,
    /// AES-GCM refused the payload (longer than it can seal).
    Encryption,
}

impl AuditError {
    /// The message of the error.
    pub fn message(&self) -> (s: String)
        ensures
            *self == AuditError::SaltDecode ==> s@ == "Failed to decode salt"@,
            *self == AuditError::KeyDerivation ==> s@ == "Failed to derive encryption key"@,
            *self == AuditError::Encryption ==> s@ == "Payload encryption failed"@,
    {
        match self {
            AuditError::SaltDecode => copy_str("Failed to decode salt"),
            AuditError::KeyDerivation => copy_str("Failed to derive encryption key"),
            AuditError::Encryption => copy_str("Payload encryption failed"),
        }
    }
}

// ---------------------------------------------------------------------------
// Argon2 and AES-256-GCM
// ---------------------------------------------------------------------------

/// The 32-byte key that `Argon2::default().hash_password_into` derives from
/// `password` and `salt`.
pub uninterp spec fn argon2_derived(password: Seq<u8>, salt: Seq<u8>) -> Seq<u8>;

/// What AES-256-GCM encryption under `key` with `nonce` makes of `plain`:
/// the ciphertext followed by the 16-byte tag.
pub uninterp spec fn aes_gcm_sealed(key: Seq<u8>, nonce: Seq<u8>, plain: Seq<u8>) -> Seq<u8>;

/// What AES-256-GCM decryption under `key` with `nonce` makes of `sealed`:
/// the plaintext, or `None` when the tag does not authenticate it.
pub uninterp spec fn aes_gcm_opened(key: Seq<u8>, nonce: Seq<u8>, sealed: Seq<u8>) -> Option<Seq<u8>>;

/// Whether Argon2 with its default parameters accepts the inputs: a
/// password of at most 2^32 - 1 bytes and a salt of 8 to 2^32 - 1 bytes.
pub open spec fn argon2_accepts(password: Seq<u8>, salt: Seq<u8>) -> bool {
    password.len() <= 0xFFFF_FFFF && 8 <= salt.len() <= 0xFFFF_FFFF
}

/// `Argon2::default().hash_password_into(password, salt, &mut [0u8; 32])`:
/// the derived key, or `None` on the errors the crate's `verify_inputs`
/// raises (password too long, salt too short or too long).
#[verifier::external_body]
fn argon2_key(password: &[u8], salt: &[u8]) -> (r: Option<Vec<u8>>)
    ensures
        r is Some <==> argon2_accepts(password@, salt@),
        r matches Some(k) ==> k@ == argon2_derived(password@, salt@),
        r matches Some(k) ==> k@.len() == 32,
{
    let mut key = [0u8; 32];
    match argon2::Argon2::default().hash_password_into(password, salt, &mut key) {
        Ok(()) => Some(key.to_vec()),
        Err(_) => None,
    }
}

/// `Aes256Gcm::new(key).encrypt(nonce, plain)`: the sealed bytes, or `None`
/// when `plain` is longer than the 2^36 bytes AES-GCM can seal (the crate's
/// `P_MAX`). Decrypting the result under the same key and nonce gives
/// `plain` back (AEAD correctness).
#[verifier::external_body]
fn aes_seal(key: &[u8], nonce: &[u8], plain: &[u8]) -> (r: Option<Vec<u8>>)
    requires
        key@.len() == 32,
        nonce@.len() == 12,
    ensures
        r is Some <==> plain@.len() <= 0x10_0000_0000,
        r matches Some(c) ==> c@ == aes_gcm_sealed(key@, nonce@, plain@),
        r matches Some(c) ==> aes_gcm_opened(key@, nonce@, c@) == Some(plain@),
{
    let cipher = Aes256Gcm::new(Key::<Aes256Gcm>::from_slice(key));
    cipher.encrypt(Nonce::from_slice(nonce), plain).ok()
}

/// `Aes256Gcm::new(key).decrypt(nonce, sealed)`, its error turned into
/// `None`.
#[verifier::external_body]
fn aes_open(key: &[u8], nonce: &[u8], sealed: &[u8]) -> (r: Option<Vec<u8>>)
    requires
        key@.len() == 32,
        nonce@.len() == 12,
    ensures
        r is None <==> aes_gcm_opened(key@, nonce@, sealed@) is None,
        r matches Some(p) ==> aes_gcm_opened(key@, nonce@, sealed@) == Some(p@),
{
    let cipher = Aes256Gcm::new(Key::<Aes256Gcm>::from_slice(key));
    cipher.decrypt(Nonce::from_slice(nonce), sealed).ok()
}

// ---------------------------------------------------------------------------
// The payload key
// ---------------------------------------------------------------------------

/// A payload key with the salt to record when the salt is new.
pub struct PayloadKey {
    /// The 32-byte AES-256-GCM key.
    pub key: Vec<u8>,
    /// The new salt in hexadecimal, to be stored with the log; `None` when
    /// the stored salt was used.
    pub new_salt_hex: Option<String>,
}

/// The key derived from `secret` (as UTF-8) and `salt`.
pub fn derive_payload_key(secret: &str, salt: &[u8]) -> (r: Result<Vec<u8>, AuditError>)
    ensures
        r is Ok <==> argon2_accepts(encode_utf8(secret@), salt@),
        r matches Ok(k) ==> k@ == argon2_derived(encode_utf8(secret@), salt@) && k@.len() == 32,
        r matches Err(e) ==> e == AuditError::KeyDerivation,
{
    match argon2_key(secret.as_bytes(), salt) {
        Some(k) => Ok(k),
        None => Err(AuditError::KeyDerivation),
    }
}

/// The payload key of a log: from the stored salt (hexadecimal) when there
/// is one, else from a fresh random 16-byte salt, which is returned for
/// storing.
pub fn payload_key(secret: &str, stored_salt_hex: Option<&str>) -> (r: Result<PayloadKey, AuditError>)
    ensures
        stored_salt_hex matches Some(h) ==> {
            &&& (r is Ok <==> (hex_decoded(h@) matches Some(salt) && argon2_accepts(encode_utf8(secret@), salt)))
            &&& (hex_decoded(h@) is None ==> r == Err::<PayloadKey, AuditError>(AuditError::SaltDecode))
            &&& (r matches Ok(pk) ==> pk.new_salt_hex is None)
            &&& (r matches Ok(pk) ==> (hex_decoded(h@) matches Some(salt) && pk.key@ == argon2_derived(
                encode_utf8(secret@),
                salt,
            )))
        },
        stored_salt_hex is None ==> {
            &&& (r is Ok <==> encode_utf8(secret@).len() <= 0xFFFF_FFFF)
            &&& (r matches Ok(pk) ==> (pk.new_salt_hex matches Some(t) && exists|salt: Seq<u8>|
                salt.len() == 16 && t@ == hex_lower(salt) && pk.key@ == argon2_derived(
                    encode_utf8(secret@),
                    salt,
                )))
        },
        r matches Ok(pk) ==> pk.key@.len() == 32,
        r matches Err(e) ==> e == AuditError::SaltDecode || e == AuditError::KeyDerivation,
{
    match stored_salt_hex {
        Some(h) => match hex_decode(h) {
            Some(salt) => match derive_payload_key(secret, salt.as_slice()) {
                Ok(key) => Ok(PayloadKey { key, new_salt_hex: None }),
                Err(e) => Err(e),
            },
            None => Err(AuditError::SaltDecode),
        },
        None => {
            let salt = random_salt();
            let t = hex_encode(salt.as_slice());
            match derive_payload_key(secret, salt.as_slice()) {
                Ok(key) => Ok(PayloadKey { key, new_salt_hex: Some(t) }),
                Err(e) => Err(e),
            }
        },
    }
}

// ---------------------------------------------------------------------------
// Sealing and opening payloads
// ---------------------------------------------------------------------------

/// The stored form of a sealed payload: `base64(nonce):base64(sealed)`.
pub open spec fn sealed_text(nonce: Seq<u8>, sealed: Seq<u8>) -> Seq<char> {
    base64_encoded(nonce) + seq![':'] + base64_encoded(sealed)
}

/// The stored text `stored` read back under `key`: when it is two base64
/// parts joined by one `:` whose ciphertext opens under the nonce to valid
/// UTF-8, that text; otherwise `stored` as it is.
pub open spec fn opened_payload(key: Seq<u8>, stored: Seq<char>) -> Seq<char> {
    let parts = split_on(stored, ':');
    if parts.len() == 2 {
        match (base64_decoded(parts[0]), base64_decoded(parts[1])) {
            (Some(nonce), Some(sealed)) => match aes_gcm_opened(key, nonce, sealed) {
                Some(p) => if valid_utf8(p) {
                    decode_utf8(p)
                } else {
                    stored
                },
                None => stored,
            },
            _ => stored,
        }
    } else {
        stored
    }
}

/// Whether decryption of `stored` can be attempted without a malformed
/// nonce: when it is two base64 parts joined by one `:`, the first decodes
/// to the 12 bytes of an AES-GCM nonce.
pub open spec fn nonce_fits(stored: Seq<char>) -> bool {
    let parts = split_on(stored, ':');
    parts.len() == 2 ==> match (base64_decoded(parts[0]), base64_decoded(parts[1])) {
        (Some(nonce), Some(_)) => nonce.len() == 12,
        _ => true,
    }
}

/// Base64 text has no `:`.
proof fn lemma_b64_lacks_colon(t: Seq<char>)
    requires
        forall|i: int| 0 <= i < t.len() ==> is_b64_char(#[trigger] t[i]),
    ensures
        lacks(t, ':'),
{
    assert forall|i: int| 0 <= i < t.len() implies t[i] != ':' by {
        assert(is_b64_char(t[i]));
    }
}

/// `plain` sealed under `key` with `nonce`, in its stored form. Reading the
/// result back under `key` gives `plain`.
pub fn seal_payload_with(key: &[u8], nonce: &[u8], plain: &str) -> (r: Result<String, AuditError>)
    requires
        key@.len() == 32,
        nonce@.len() == 12,
    ensures
        r is Ok <==> encode_utf8(plain@).len() <= 0x10_0000_0000,
        r matches Ok(t) ==> t@ == sealed_text(nonce@, aes_gcm_sealed(key@, nonce@, encode_utf8(plain@))),
        r matches Ok(t) ==> opened_payload(key@, t@) == plain@,
        r matches Ok(t) ==> nonce_fits(t@),
        r matches Err(e) ==> e == AuditError::Encryption,
{
    let bytes = plain.as_bytes();
    match aes_seal(key, nonce, bytes) {
        Some(sealed) => {
            let a = b64_encode(nonce);
            let b = b64_encode(sealed.as_slice());
            let mut t = copy_str(a.as_str());
            push_char(&mut t, ':');
            t.append(b.as_str());
            proof {
                lemma_b64_lacks_colon(a@);
                lemma_b64_lacks_colon(b@);
                lemma_split_pair(a@, b@, ':');
                assert(t@ =~= a@ + seq![':'] + b@);
            }
            Ok(t)
        },
        None => Err(AuditError::Encryption),
    }
}

/// `plain` sealed under `key` with a fresh random nonce, in its stored form.
/// Reading the result back under `key` gives `plain`.
pub fn seal_payload(key: &[u8], plain: &str) -> (r: Result<String, AuditError>)
    requires
        key@.len() == 32,
    ensures
        r is Ok <==> encode_utf8(plain@).len() <= 0x10_0000_0000,
        r matches Ok(t) ==> exists|nonce: Seq<u8>| nonce.len() == 12
            && t@ == sealed_text(nonce, aes_gcm_sealed(key@, nonce, encode_utf8(plain@))),
        r matches Ok(t) ==> opened_payload(key@, t@) == plain@,
        r matches Ok(t) ==> nonce_fits(t@),
        r matches Err(e) ==> e == AuditError::Encryption,
{
    let nonce = uuid_nonce();
    seal_payload_with(key, nonce.as_slice(), plain)
}

/// The stored text `stored` read back under `key`.
pub fn open_payload(key: &[u8], stored: &str) -> (r: String)
    requires
        key@.len() == 32,
        nonce_fits(stored@),
    ensures
        r@ == opened_payload(key@, stored@),
{
    let parts = split_str(stored, ':');
    if parts.len() == 2 {
        let ghost views = strings_view(parts@);
        assert(views[0] == parts[0]@ && views[1] == parts[1]@);
        match (b64_decode(parts[0].as_str()), b64_decode(parts[1].as_str())) {
            (Some(nonce), Some(sealed)) => match aes_open(key, nonce.as_slice(), sealed.as_slice()) {
                Some(p) => match utf8_string(p) {
                    Some(text) => text,
                    None => copy_str(stored),
                },
                None => copy_str(stored),
            },
            _ => copy_str(stored),
        }
    } else {
        copy_str(stored)
    }
}

/// The stored text `stored` read back under `key`, or `None` where the
/// stored nonce is malformed and decryption cannot be attempted.
pub fn read_payload(key: &[u8], stored: &str) -> (r: Option<String>)
    requires
        key@.len() == 32,
    ensures
        r is Some <==> nonce_fits(stored@),
        r matches Some(t) ==> t@ == opened_payload(key@, stored@),
{
    let parts = split_str(stored, ':');
    if parts.len() == 2 {
        let ghost views = strings_view(parts@);
        assert(views[0] == parts[0]@ && views[1] == parts[1]@);
        match (b64_decode(parts[0].as_str()), b64_decode(parts[1].as_str())) {
            (Some(nonce), Some(_)) => {
                if nonce.len() != 12 {
                    return None;
                }
            },
            _ => {},
        }
    }
    Some(open_payload(key, stored))
}

} // verus!
