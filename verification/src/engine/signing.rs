//! Signatures of WASM policy modules: a classic Ed25519 signature and a
//! post-quantum ML-DSA (Dilithium3) signature, each stored next to the
//! module as base64 text (`.wasm.sig`, `.wasm.pqs`). Each configured key
//! makes its signature mandatory. Reading the signature files is left to
//! the caller, who hands in their text (`None` for a missing file).
use vstd::prelude::*;
use ed25519_dalek::{Signature, Verifier, VerifyingKey};
use pqcrypto_dilithium::dilithium3;
use pqcrypto_traits::sign::{DetachedSignature as _, PublicKey as _};
use crate::codec::{b64_decode, base64_decoded, hex_decode, hex_decoded};
use crate::text::{copy_str, trim, trim_str};

verus! {

/// Why a verifier could not be set up or a module's signatures were
/// refused.
#[derive(Debug, Clone, Copy, PartialEq, Eq, Structural)]
pub enum SigningError {
    /// The Ed25519 public key is not hexadecimal.
    InvalidKeyHex,
    /// The Ed25519 public key is not 32 bytes long.
    KeyLength,
    /// The Ed25519 public key is not a point of the curve.
    InvalidKey,
    /// The post-quantum public key is not hexadecimal.
    InvalidPqKeyHex,
    /// The post-quantum public key has the wrong length.
    InvalidPqKey,
    /// The `.wasm.sig` file is missing.
    MissingSignature,
    /// The `.wasm.sig` file is not base64.
    InvalidSignatureBase64,
    /// The Ed25519 signature is not 64 bytes long.
    InvalidSignatureFormat,
    /// The Ed25519 signature does not verify.
    ClassicMismatch,
    /// The `.wasm.pqs` file is missing.
    MissingPqSignature,
    /// The `.wasm.pqs` file is not base64.
    InvalidPqSignatureBase64,
    /// The post-quantum signature is too long.
    InvalidPqSignatureFormat,
    /// The post-quantum signature does not verify.
    PqMismatch,
}

/// The message of an error.
pub open spec fn signing_message(e: SigningError) -> Seq<char> {
    match e {
        SigningError::InvalidKeyHex => "Invalid public key hex"@,
        SigningError::KeyLength => "Public key must be 32 bytes"@,
        SigningError::InvalidKey => "Invalid public key"@,
        SigningError::InvalidPqKeyHex => "Invalid PQ public key hex"@,
        SigningError::InvalidPqKey => "Invalid PQ public key format"@,
        SigningError::MissingSignature => "Missing required signature file"@,
        SigningError::InvalidSignatureBase64 => "Invalid signature base64"@,
        SigningError::InvalidSignatureFormat => "Invalid signature format"@,
        SigningError::ClassicMismatch => "Classic signature mismatch for policy"@,
        SigningError::MissingPqSignature => "Post-Quantum signature REQUIRED but missing"@,
        SigningError::InvalidPqSignatureBase64 => "Invalid PQ signature base64"@,
        SigningError::InvalidPqSignatureFormat => "Invalid PQ signature format"@,
        SigningError::PqMismatch => "Post-Quantum signature mismatch for policy"@,
    }
}

impl SigningError {
    /// The message of the error.
    pub fn message(&self) -> (s: String)
        ensures
            s@ == signing_message(*self),
    {
        match self {
            SigningError::InvalidKeyHex => copy_str("Invalid public key hex"),
            SigningError::KeyLength => copy_str("Public key must be 32 bytes"),
            SigningError::InvalidKey => copy_str("Invalid public key"),
            SigningError::InvalidPqKeyHex => copy_str("Invalid PQ public key hex"),
            SigningError::InvalidPqKey => copy_str("Invalid PQ public key format"),
            SigningError::MissingSignature => copy_str("Missing required signature file"),
            SigningError::InvalidSignatureBase64 => copy_str("Invalid signature base64"),
            SigningError::InvalidSignatureFormat => copy_str("Invalid signature format"),
            SigningError::ClassicMismatch => copy_str("Classic signature mismatch for policy"),
            SigningError::MissingPqSignature => copy_str("Post-Quantum signature REQUIRED but missing"),
            SigningError::InvalidPqSignatureBase64 => copy_str("Invalid PQ signature base64"),
            SigningError::InvalidPqSignatureFormat => copy_str("Invalid PQ signature format"),
            SigningError::PqMismatch => copy_str("Post-Quantum signature mismatch for policy"),
        }
    }
}

// ---------------------------------------------------------------------------
// ed25519-dalek and pqcrypto
// ---------------------------------------------------------------------------

/// Whether the 32 bytes `key` decompress to a point of the curve (what
/// `VerifyingKey::from_bytes` accepts).
pub uninterp spec fn ed25519_point_ok(key: Seq<u8>) -> bool;

/// Whether `sig` is a valid Ed25519 signature of `msg` under `key`
/// (`VerifyingKey::verify`).
pub uninterp spec fn ed25519_valid(key: Seq<u8>, msg: Seq<u8>, sig: Seq<u8>) -> bool;

/// Whether `sig` is a valid Dilithium3 detached signature of `msg` under
/// `key` (`dilithium3::verify_detached_signature`).
pub uninterp spec fn dilithium3_valid(key: Seq<u8>, msg: Seq<u8>, sig: Seq<u8>) -> bool;

/// Length of a Dilithium3 public key.
pub const PQ_PUBLIC_KEY_LEN: usize = 1952;

/// Largest Dilithium3 detached signature.
pub const PQ_SIGNATURE_MAX_LEN: usize = 3309;

/// `VerifyingKey::from_bytes(key).is_ok()`.
#[verifier::external_body]
fn ed25519_key_ok(key: &[u8]) -> (r: bool)
    requires
        key@.len() == 32,
    ensures
        r == ed25519_point_ok(key@),
{
    let bytes: [u8; 32] = key.try_into().unwrap();
    VerifyingKey::from_bytes(&bytes).is_ok()
}

/// `Signature::from_slice(sig).is_ok()`: the crate accepts exactly 64
/// bytes.
#[verifier::external_body]
fn ed25519_sig_ok(sig: &[u8]) -> (r: bool)
    ensures
        r == (sig@.len() == 64),
{
    Signature::from_slice(sig).is_ok()
}

/// `VerifyingKey::verify(msg, sig)` for the key and signature parsed from
/// their bytes, its error turned into `false`.
#[verifier::external_body]
fn ed25519_verify(key: &[u8], msg: &[u8], sig: &[u8]) -> (r: bool)
    requires
        key@.len() == 32,
        ed25519_point_ok(key@),
        sig@.len() == 64,
    ensures
        r == ed25519_valid(key@, msg@, sig@),
{
    let bytes: [u8; 32] = key.try_into().unwrap();
    let vk = VerifyingKey::from_bytes(&bytes).unwrap();
    vk.verify(msg, &Signature::from_slice(sig).unwrap()).is_ok()
}

/// `dilithium3::PublicKey::from_bytes(key).is_ok()`: the crate accepts
/// exactly 1952 bytes.
#[verifier::external_body]
fn dilithium_key_ok(key: &[u8]) -> (r: bool)
    ensures
        r == (key@.len() == PQ_PUBLIC_KEY_LEN),
{
    dilithium3::PublicKey::from_bytes(key).is_ok()
}

/// `dilithium3::DetachedSignature::from_bytes(sig).is_ok()`: the crate
/// accepts at most 3309 bytes.
#[verifier::external_body]
fn dilithium_sig_ok(sig: &[u8]) -> (r: bool)
    ensures
        r == (sig@.len() <= PQ_SIGNATURE_MAX_LEN),
{
    dilithium3::DetachedSignature::from_bytes(sig).is_ok()
}

/// `dilithium3::verify_detached_signature(sig, msg, key)` for the key and
/// signature parsed from their bytes, its error turned into `false`.
#[verifier::external_body]
fn dilithium_verify(key: &[u8], msg: &[u8], sig: &[u8]) -> (r: bool)
    requires
        key@.len() == PQ_PUBLIC_KEY_LEN,
        sig@.len() <= PQ_SIGNATURE_MAX_LEN,
    ensures
        r == dilithium3_valid(key@, msg@, sig@),
{
    let pk = dilithium3::PublicKey::from_bytes(key).unwrap();
    let ds = dilithium3::DetachedSignature::from_bytes(sig).unwrap();
    dilithium3::verify_detached_signature(&ds, msg, &pk).is_ok()
}

// ---------------------------------------------------------------------------
// The verifier
// ---------------------------------------------------------------------------

/// The Ed25519 key a verifier takes from its hexadecimal text, or the error
/// it refuses it with.
pub open spec fn classic_key_of(hex: Seq<char>) -> Result<Seq<u8>, SigningError> {
    match hex_decoded(hex) {
        None => Err(SigningError::InvalidKeyHex),
        Some(b) => if b.len() != 32 {
            Err(SigningError::KeyLength)
        } else if !ed25519_point_ok(b) {
            Err(SigningError::InvalidKey)
        } else {
            Ok(b)
        },
    }
}

/// The Dilithium3 key a verifier takes from its hexadecimal text, or the
/// error it refuses it with.
pub open spec fn pq_key_of(hex: Seq<char>) -> Result<Seq<u8>, SigningError> {
    match hex_decoded(hex) {
        None => Err(SigningError::InvalidPqKeyHex),
        Some(b) => if b.len() != PQ_PUBLIC_KEY_LEN {
            Err(SigningError::InvalidPqKey)
        } else {
            Ok(b)
        },
    }
}

/// What the classic check makes of a module: nothing to object to without
/// a key; with one, the signature file must exist, be base64 (around white
/// space), hold 64 bytes and verify.
pub open spec fn classic_objection(key: Option<Seq<u8>>, msg: Seq<u8>, sig_text: Option<Seq<char>>) -> Option<SigningError> {
    match key {
        None => None,
        Some(k) => match sig_text {
            None => Some(SigningError::MissingSignature),
            Some(t) => match base64_decoded(trim(t)) {
                None => Some(SigningError::InvalidSignatureBase64),
                Some(s) => if s.len() != 64 {
                    Some(SigningError::InvalidSignatureFormat)
                } else if !ed25519_valid(k, msg, s) {
                    Some(SigningError::ClassicMismatch)
                } else {
                    None
                },
            },
        },
    }
}

/// What the post-quantum check makes of a module, likewise.
pub open spec fn pq_objection(key: Option<Seq<u8>>, msg: Seq<u8>, sig_text: Option<Seq<char>>) -> Option<SigningError> {
    match key {
        None => None,
        Some(k) => match sig_text {
            None => Some(SigningError::MissingPqSignature),
            Some(t) => match base64_decoded(trim(t)) {
                None => Some(SigningError::InvalidPqSignatureBase64),
                Some(s) => if s.len() > PQ_SIGNATURE_MAX_LEN {
                    Some(SigningError::InvalidPqSignatureFormat)
                } else if !dilithium3_valid(k, msg, s) {
                    Some(SigningError::PqMismatch)
                } else {
                    None
                },
            },
        },
    }
}

/// Verifies module signatures against the configured keys.
pub struct PolicyVerifier {
    public_key: Option<Vec<u8>>,
    pq_public_key: Option<Vec<u8>>,
}

impl PolicyVerifier {
    /// The Ed25519 key.
    pub closed spec fn classic_key(&self) -> Option<Seq<u8>> {
        match self.public_key {
            Some(k) => Some(k@),
            None => None,
        }
    }

    /// The Dilithium3 key.
    pub closed spec fn pq_key(&self) -> Option<Seq<u8>> {
        match self.pq_public_key {
            Some(k) => Some(k@),
            None => None,
        }
    }

    /// The keys are usable: a 32-byte curve point, a 1952-byte key.
    pub closed spec fn wf(&self) -> bool {
        &&& (self.public_key matches Some(k) ==> k@.len() == 32 && ed25519_point_ok(k@))
        &&& (self.pq_public_key matches Some(k) ==> k@.len() == PQ_PUBLIC_KEY_LEN)
    }

    /// A verifier for the keys given in hexadecimal (`ZN_PQ_PUBLIC_KEY`
    /// for the post-quantum one); the classic key is checked first.
    pub fn new(public_key_hex: Option<&str>, pq_key_hex: Option<&str>) -> (r: Result<Self, SigningError>)
        ensures
            r is Ok <==> (public_key_hex matches Some(h) ==> classic_key_of(h@) is Ok) && (pq_key_hex matches Some(h) ==> pq_key_of(h@) is Ok),
            public_key_hex matches Some(h) ==> (classic_key_of(h@) matches Err(e) ==> r == Err::<Self, SigningError>(e)),
            r matches Ok(v) ==> v.wf(),
            r matches Ok(v) ==> v.classic_key() == (match public_key_hex {
                Some(h) => Some(classic_key_of(h@)->Ok_0),
                None => None,
            }),
            r matches Ok(v) ==> v.pq_key() == (match pq_key_hex {
                Some(h) => Some(pq_key_of(h@)->Ok_0),
                None => None,
            }),
            r matches Err(e) ==> (public_key_hex matches Some(h) && classic_key_of(h@) == Err::<Seq<u8>, SigningError>(e))
                || (pq_key_hex matches Some(h) && pq_key_of(h@) == Err::<Seq<u8>, SigningError>(e)),
    {
        let public_key = match public_key_hex {
            Some(h) => match hex_decode(h) {
                None => return Err(SigningError::InvalidKeyHex),
                Some(b) => {
                    if b.len() != 32 {
                        return Err(SigningError::KeyLength);
                    }
                    if !ed25519_key_ok(b.as_slice()) {
                        return Err(SigningError::InvalidKey);
                    }
                    Some(b)
                },
            },
            None => None,
        };
        let pq_public_key = match pq_key_hex {
            Some(h) => match hex_decode(h) {
                None => return Err(SigningError::InvalidPqKeyHex),
                Some(b) => {
                    if !dilithium_key_ok(b.as_slice()) {
                        return Err(SigningError::InvalidPqKey);
                    }
                    Some(b)
                },
            },
            None => None,
        };
        Ok(PolicyVerifier { public_key, pq_public_key })
    }

    /// Checks the signatures of the module `wasm_bytes`: the classic one
    /// first, then the post-quantum one; each is required when its key is
    /// configured. `classic_sig` and `pq_sig` are the texts of the
    /// signature files, `None` where a file is missing.
    pub fn verify(&self, wasm_bytes: &[u8], classic_sig: Option<&str>, pq_sig: Option<&str>) -> (r: Result<(), SigningError>)
        requires
            self.wf(),
        ensures
            r is Ok <==> classic_objection(self.classic_key(), wasm_bytes@, opt_view(classic_sig)) is None
                && pq_objection(self.pq_key(), wasm_bytes@, opt_view(pq_sig)) is None,
            r matches Err(e) ==> (classic_objection(self.classic_key(), wasm_bytes@, opt_view(classic_sig)) == Some(e))
                || (classic_objection(self.classic_key(), wasm_bytes@, opt_view(classic_sig)) is None
                && pq_objection(self.pq_key(), wasm_bytes@, opt_view(pq_sig)) == Some(e)),
    {
        if let Some(k) = &self.public_key {
            match classic_sig {
                None => return Err(SigningError::MissingSignature),
                Some(t) => {
                    let trimmed = trim_str(t);
                    match b64_decode(trimmed.as_str()) {
                        None => return Err(SigningError::InvalidSignatureBase64),
                        Some(s) => {
                            if !ed25519_sig_ok(s.as_slice()) {
                                return Err(SigningError::InvalidSignatureFormat);
                            }
                            if !ed25519_verify(k.as_slice(), wasm_bytes, s.as_slice()) {
                                return Err(SigningError::ClassicMismatch);
                            }
                        },
                    }
                },
            }
        }
        if let Some(k) = &self.pq_public_key {
            match pq_sig {
                None => return Err(SigningError::MissingPqSignature),
                Some(t) => {
                    let trimmed = trim_str(t);
                    match b64_decode(trimmed.as_str()) {
                        None => return Err(SigningError::InvalidPqSignatureBase64),
                        Some(s) => {
                            if !dilithium_sig_ok(s.as_slice()) {
                                return Err(SigningError::InvalidPqSignatureFormat);
                            }
                            if !dilithium_verify(k.as_slice(), wasm_bytes, s.as_slice()) {
                                return Err(SigningError::PqMismatch);
                            }
                        },
                    }
                },
            }
        }
        Ok(())
    }
}

/// The characters of an optional text.
pub open spec fn opt_view(o: Option<&str>) -> Option<Seq<char>> {
    match o {
        Some(s) => Some(s@),
        None => None,
    }
}

} // verus!
