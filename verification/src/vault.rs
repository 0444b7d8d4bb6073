//! Secret vaults: where the keys for audit encryption and policy signing
//! come from. The local vault holds a key given in the configuration as
//! hexadecimal; other vaults (cloud KMS) implement the same trait.
use vstd::prelude::*;
use crate::codec::{hex_decode, hex_decoded};
use crate::text::copy_str;

verus! {

/// Why a vault could not hand out a key or a signature.
#[derive(Debug, PartialEq, Eq)]
pub enum VaultError {
    /// No encryption key is configured in the local vault.
    KeyNotConfigured,
    /// The local vault cannot sign.
    SigningUnsupported,
}

impl VaultError {
    /// The message of the error.
    pub fn message(&self) -> (s: String)
        ensures
            *self == VaultError::KeyNotConfigured ==> s@ == "Encryption key not configured in local vault"@,
            *self == VaultError::SigningUnsupported ==> s@ == "Asymmetric signing not yet implemented for local vault"@,
    {
        match self {
            VaultError::KeyNotConfigured => copy_str("Encryption key not configured in local vault"),
            VaultError::SigningUnsupported => copy_str(
                "Asymmetric signing not yet implemented for local vault",
            ),
        }
    }
}

/// A source of keys: a symmetric key for encryption (audit logs) and
/// signatures with an asymmetric key (policies).
pub trait SecretVault {
    /// The symmetric key `key_id`.
    fn get_encryption_key(&self, key_id: &str) -> Result<Vec<u8>, VaultError>;

    /// `data` signed with the asymmetric key `key_id`.
    fn sign_data(&self, key_id: &str, data: &[u8]) -> Result<Vec<u8>, VaultError>;
}

/// A vault holding the key given in the configuration.
pub struct LocalVault {
    encryption_key: Option<Vec<u8>>,
}

impl View for LocalVault {
    type V = Option<Seq<u8>>;

    /// The key the vault holds.
    closed spec fn view(&self) -> Option<Seq<u8>> {
        match self.encryption_key {
            Some(k) => Some(k@),
            None => None,
        }
    }
}

/// The key a local vault holds for the configured text: its hexadecimal
/// decoding, none when it is not hexadecimal.
pub open spec fn local_key(encryption_key: Option<Seq<char>>) -> Option<Seq<u8>> {
    match encryption_key {
        Some(k) => hex_decoded(k),
        None => None,
    }
}

impl LocalVault {
    /// A vault holding `encryption_key` decoded from hexadecimal; a key that
    /// is not hexadecimal leaves the vault without one.
    pub fn new(encryption_key: Option<String>) -> (v: Self)
        ensures
            v@ == local_key(crate::jsonrpc::opt_text(encryption_key)),
    {
        let key = match encryption_key {
            Some(k) => hex_decode(k.as_str()),
            None => None,
        };
        LocalVault { encryption_key: key }
    }
}

impl SecretVault for LocalVault {
    /// The configured key, whatever `key_id` names.
    fn get_encryption_key(&self, key_id: &str) -> (r: Result<Vec<u8>, VaultError>)
        ensures
            r is Ok <==> self@ is Some,
            r matches Ok(k) ==> self@ == Some(k@),
            r matches Err(e) ==> e == VaultError::KeyNotConfigured,
    {
        match &self.encryption_key {
            Some(k) => Ok(k.clone()),
            None => Err(VaultError::KeyNotConfigured),
        }
    }

    /// Always refused: the local vault holds no asymmetric key.
    fn sign_data(&self, key_id: &str, data: &[u8]) -> (r: Result<Vec<u8>, VaultError>)
        ensures
            r == Err::<Vec<u8>, VaultError>(VaultError::SigningUnsupported),
    {
        Err(VaultError::SigningUnsupported)
    }
}

} // verus!
