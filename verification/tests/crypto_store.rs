use zn::audit::{
    derive_payload_key, open_payload, payload_key, read_payload, seal_payload, seal_payload_with,
    AuditError,
};
use zn::engine::integrity::{compute_hash, table_growth_allowed, ZnEngineConfig};
use zn::vault::{LocalVault, SecretVault, VaultError};

fn engine_config(allowed: Vec<String>) -> ZnEngineConfig {
    ZnEngineConfig {
        gas_limit: 10_000_000,
        memory_limit: 128 * 1024 * 1024,
        timeout_ms: 1000,
        allowed_hashes: allowed,
        signing_public_key: None,
    }
}

#[test]
fn test_compute_hash_consistency() {
    let data = b"test policy content";
    let hash1 = compute_hash(data);
    let hash2 = compute_hash(data);
    assert_eq!(hash1, hash2);
}

#[test]
fn test_compute_hash_different_data() {
    let hash1 = compute_hash(b"data1");
    let hash2 = compute_hash(b"data2");
    assert_ne!(hash1, hash2);
}

#[test]
fn compute_hash_is_lowercase_hex_sha256() {
    assert_eq!(
        compute_hash(b"abc"),
        "ba7816bf8f01cfea414140de5dae2223b00361a396177a9cb410ff61f20015ad"
    );
}

#[test]
fn integrity_admits_listed_modules_only() {
    let module = b"\0asm\x01\0\0\0";
    assert!(engine_config(vec![]).verify_policy_integrity(module).is_ok());
    let h = compute_hash(module);
    assert!(engine_config(vec!["00".to_string(), h.clone()]).verify_policy_integrity(module).is_ok());
    let err = engine_config(vec!["00".to_string()]).verify_policy_integrity(module).unwrap_err();
    assert_eq!(err, format!("Policy integrity check failed: hash {} not allowed", h));
}

#[test]
fn engine_limits() {
    let c = engine_config(vec![]);
    assert_eq!(c.epoch_deadline_ticks(), 10);
    let mut quick = engine_config(vec![]);
    quick.timeout_ms = 50;
    assert_eq!(quick.epoch_deadline_ticks(), 1);
    assert!(c.memory_growth_allowed(128 * 1024 * 1024));
    assert!(!c.memory_growth_allowed(128 * 1024 * 1024 + 1));
    assert!(table_growth_allowed(1000));
    assert!(!table_growth_allowed(1001));
}

#[test]
fn local_vault_decodes_hex_key() {
    let v = LocalVault::new(Some("00ffA0".to_string()));
    assert_eq!(v.get_encryption_key("any"), Ok(vec![0x00, 0xff, 0xa0]));
    assert_eq!(v.sign_data("any", b"data"), Err(VaultError::SigningUnsupported));
}

#[test]
fn local_vault_without_usable_key() {
    assert_eq!(
        LocalVault::new(None).get_encryption_key("k"),
        Err(VaultError::KeyNotConfigured)
    );
    assert_eq!(
        LocalVault::new(Some("abc".to_string())).get_encryption_key("k"),
        Err(VaultError::KeyNotConfigured)
    );
    assert_eq!(
        LocalVault::new(Some("zz".to_string())).get_encryption_key("k"),
        Err(VaultError::KeyNotConfigured)
    );
    assert_eq!(
        VaultError::KeyNotConfigured.message(),
        "Encryption key not configured in local vault"
    );
}

#[test]
fn payload_key_is_stable_under_its_salt() {
    let first = payload_key("test_encryption_key", None).unwrap();
    assert_eq!(first.key.len(), 32);
    let salt = first.new_salt_hex.clone().unwrap();
    assert_eq!(salt.len(), 32);
    let again = payload_key("test_encryption_key", Some(&salt)).unwrap();
    assert!(again.new_salt_hex.is_none());
    assert_eq!(again.key, first.key);
    let other = payload_key("another_key", Some(&salt)).unwrap();
    assert_ne!(other.key, first.key);
}

#[test]
fn payload_key_errors() {
    assert_eq!(payload_key("k", Some("not hex")).err(), Some(AuditError::SaltDecode));
    assert_eq!(derive_payload_key("k", b"short").err(), Some(AuditError::KeyDerivation));
    assert!(derive_payload_key("k", b"eight ok").is_ok());
    assert_eq!(AuditError::SaltDecode.message(), "Failed to decode salt");
}

#[test]
fn sealed_payload_reads_back() {
    let key = payload_key("test_encryption_key", None).unwrap().key;
    let plain = "{\"secret\": \"hidden\"}";
    let stored = seal_payload(&key, plain).unwrap();
    assert!(!stored.contains("secret"));
    assert_eq!(stored.matches(':').count(), 1);
    assert_eq!(read_payload(&key, &stored).as_deref(), Some(plain));
    assert_eq!(open_payload(&key, &stored), plain);
}

#[test]
fn sealing_with_a_given_nonce_is_deterministic() {
    let key = vec![7u8; 32];
    let nonce = [1u8; 12];
    let a = seal_payload_with(&key, &nonce, "payload").unwrap();
    let b = seal_payload_with(&key, &nonce, "payload").unwrap();
    assert_eq!(a, b);
    assert!(a.starts_with("AQEBAQEBAQEBAQEB:"));
}

#[test]
fn unreadable_payloads_are_shown_as_stored() {
    let key = vec![7u8; 32];
    let other = vec![8u8; 32];
    let stored = seal_payload(&key, "secret").unwrap();
    assert_eq!(read_payload(&other, &stored).as_deref(), Some(stored.as_str()));
    assert_eq!(read_payload(&key, "plain text").as_deref(), Some("plain text"));
    assert_eq!(read_payload(&key, "a:b:c").as_deref(), Some("a:b:c"));
    assert_eq!(read_payload(&key, "!!:AAAA").as_deref(), Some("!!:AAAA"));
}

#[test]
fn malformed_nonce_is_not_decrypted() {
    let key = vec![7u8; 32];
    assert_eq!(read_payload(&key, "AAAA:AAAA"), None);
}
