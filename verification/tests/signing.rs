use base64::{engine::general_purpose, Engine as _};
use ed25519_dalek::{Signer, SigningKey};
use pqcrypto_dilithium::dilithium3;
use pqcrypto_traits::sign::{DetachedSignature as _, PublicKey as _};
use zn::engine::integrity::{admit_module, compute_hash, ZnEngineConfig};
use zn::engine::signing::{PolicyVerifier, SigningError};

const MODULE: &[u8] = b"\0asm\x01\0\0\0policy";

fn classic() -> (String, String) {
    let sk = SigningKey::from_bytes(&[7u8; 32]);
    let pk = hex::encode(sk.verifying_key().to_bytes());
    let sig = general_purpose::STANDARD.encode(sk.sign(MODULE).to_bytes());
    (pk, sig)
}

fn post_quantum() -> (String, String) {
    let (pk, sk) = dilithium3::keypair();
    let sig = dilithium3::detached_sign(MODULE, &sk);
    (hex::encode(pk.as_bytes()), general_purpose::STANDARD.encode(sig.as_bytes()))
}

fn config(allowed: Vec<String>) -> ZnEngineConfig {
    ZnEngineConfig {
        gas_limit: 1000,
        memory_limit: 1 << 20,
        timeout_ms: 1000,
        allowed_hashes: allowed,
        signing_public_key: None,
    }
}

#[test]
fn no_keys_accept_any_module() {
    let v = PolicyVerifier::new(None, None).unwrap();
    assert_eq!(v.verify(MODULE, None, None), Ok(()));
}

#[test]
fn bad_keys_are_refused() {
    assert_eq!(PolicyVerifier::new(Some("zz"), None).err(), Some(SigningError::InvalidKeyHex));
    assert_eq!(PolicyVerifier::new(Some("00ff"), None).err(), Some(SigningError::KeyLength));
    assert_eq!(PolicyVerifier::new(None, Some("0g")).err(), Some(SigningError::InvalidPqKeyHex));
    assert_eq!(PolicyVerifier::new(None, Some("00ff")).err(), Some(SigningError::InvalidPqKey));
    assert_eq!(
        PolicyVerifier::new(Some("00ff"), Some("0g")).err(),
        Some(SigningError::KeyLength)
    );
    assert_eq!(SigningError::KeyLength.message(), "Public key must be 32 bytes");
}

#[test]
fn classic_signature_is_required_and_checked() {
    let (pk, sig) = classic();
    let v = PolicyVerifier::new(Some(&pk), None).unwrap();
    assert_eq!(v.verify(MODULE, Some(&sig), None), Ok(()));
    assert_eq!(v.verify(MODULE, Some(&format!("  {sig}\n")), None), Ok(()));
    assert_eq!(v.verify(MODULE, None, None), Err(SigningError::MissingSignature));
    assert_eq!(v.verify(b"other module", Some(&sig), None), Err(SigningError::ClassicMismatch));
    assert_eq!(v.verify(MODULE, Some("!!!"), None), Err(SigningError::InvalidSignatureBase64));
    let short = general_purpose::STANDARD.encode([1u8; 10]);
    assert_eq!(v.verify(MODULE, Some(&short), None), Err(SigningError::InvalidSignatureFormat));
}

#[test]
fn post_quantum_signature_is_required_and_checked() {
    let (pk, sig) = post_quantum();
    let v = PolicyVerifier::new(None, Some(&pk)).unwrap();
    assert_eq!(v.verify(MODULE, None, Some(&sig)), Ok(()));
    assert_eq!(v.verify(MODULE, None, None), Err(SigningError::MissingPqSignature));
    assert_eq!(v.verify(b"tampered", None, Some(&sig)), Err(SigningError::PqMismatch));
    let long = general_purpose::STANDARD.encode(vec![0u8; 4000]);
    assert_eq!(v.verify(MODULE, None, Some(&long)), Err(SigningError::InvalidPqSignatureFormat));
}

#[test]
fn classic_check_comes_first() {
    let (pk, sig) = classic();
    let (pq_pk, pq_sig) = post_quantum();
    let v = PolicyVerifier::new(Some(&pk), Some(&pq_pk)).unwrap();
    assert_eq!(v.verify(MODULE, Some(&sig), Some(&pq_sig)), Ok(()));
    assert_eq!(v.verify(MODULE, None, None), Err(SigningError::MissingSignature));
    assert_eq!(v.verify(MODULE, Some(&sig), None), Err(SigningError::MissingPqSignature));
}

#[test]
fn admission_checks_hash_then_signature() {
    let (pk, sig) = classic();
    let v = PolicyVerifier::new(Some(&pk), None).unwrap();
    let h = compute_hash(MODULE);
    assert_eq!(admit_module(&config(vec![h.clone()]), &v, MODULE, Some(&sig), None), Ok(()));
    assert_eq!(
        admit_module(&config(vec!["00".to_string()]), &v, MODULE, None, None),
        Err(format!("Policy integrity check failed: hash {h} not allowed"))
    );
    assert_eq!(
        admit_module(&config(vec![]), &v, MODULE, None, None),
        Err("Missing required signature file".to_string())
    );
}
