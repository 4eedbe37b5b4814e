//! Encryption at rest of the stored configuration. The storage layer is not
//! available in this kernel: every operation reports its failure, and none
//! touches a key, a cipher or a file.

use vstd::prelude::*;

verus! {

/// Failures of the configuration store.
#[derive(Debug, Clone, Copy, PartialEq, Eq, Structural)]
pub enum CryptoError {
    ConfigNotFound,
    ConfigCorrupted,
    EncryptionError,
    DecryptionError,
    IoError,
}

impl CryptoError {
    /// The text shown for each failure.
    pub open spec fn text(self) -> Seq<char> {
        match self {
            CryptoError::ConfigNotFound => "config not found"@,
            CryptoError::ConfigCorrupted => "config corrupted"@,
            CryptoError::EncryptionError => "encryption error"@,
            CryptoError::DecryptionError => "decryption error"@,
            CryptoError::IoError => "I/O error"@,
        }
    }

    /// Returns the text shown for the failure.
    pub fn describe(self) -> (r: &'static str)
        ensures
            r@ == self.text(),
    {
        match self {
            CryptoError::ConfigNotFound => "config not found",
            CryptoError::ConfigCorrupted => "config corrupted",
            CryptoError::EncryptionError => "encryption error",
            CryptoError::DecryptionError => "decryption error",
            CryptoError::IoError => "I/O error",
        }
    }
}

/// A configuration in its encrypted form: opaque bytes.
pub struct EncryptedConfig(pub Vec<u8>);

impl View for EncryptedConfig {
    type V = Seq<u8>;

    open spec fn view(&self) -> Seq<u8> {
        self.0@
    }
}

/// Encrypts a configuration. No cipher is available: the call always reports
/// `EncryptionError`.
pub fn encrypt_config(plaintext: &[u8]) -> (r: Result<EncryptedConfig, CryptoError>)
    ensures
        r is Err,
        r->Err_0 == CryptoError::EncryptionError,
{
    Err(CryptoError::EncryptionError)
}

/// Decrypts a configuration. No cipher is available: the call always reports
/// `DecryptionError`.
pub fn decrypt_config(cipher: &EncryptedConfig) -> (r: Result<Vec<u8>, CryptoError>)
    ensures
        r is Err,
        r->Err_0 == CryptoError::DecryptionError,
{
    Err(CryptoError::DecryptionError)
}

/// Loads the stored configuration. No store is available: the call always
/// reports `ConfigNotFound`.
pub fn load_encrypted_config() -> (r: Result<Option<EncryptedConfig>, CryptoError>)
    ensures
        r is Err,
        r->Err_0 == CryptoError::ConfigNotFound,
{
    Err(CryptoError::ConfigNotFound)
}

/// Saves a configuration. No store is available: the call always reports
/// `IoError`.
pub fn save_encrypted_config(cfg: &EncryptedConfig) -> (r: Result<(), CryptoError>)
    ensures
        r is Err,
        r->Err_0 == CryptoError::IoError,
{
    Err(CryptoError::IoError)
}

} // verus!
