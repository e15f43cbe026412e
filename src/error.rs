use vstd::prelude::*;

verus! {

/// Every failure of retrieval and transit decryption, each reported apart.
#[derive(Clone, Copy, Debug, PartialEq, Eq, Structural)]
pub enum SecretError {
    /// System time is unavailable or before the UNIX epoch.
    ClockError,
    /// The envelope is not valid standard base64.
    InvalidEncoding,
    /// The decoded envelope is shorter than a nonce.
    TruncatedCiphertext,
    /// The derived key bytes were rejected by the cipher.
    KeyConstructionFailed,
    /// The nonce bytes were rejected by the cipher.
    NonceConstructionFailed,
    /// Authenticated decryption failed: wrong key or altered data.
    DecryptionFailed,
    /// The decrypted bytes are not a JSON value.
    MalformedPlaintext,
    /// The server response held no ciphertext.
    RetrievalFailed,
    /// The configuration does not select exactly one retrieval mode and a table.
    UsageError,
}

impl SecretError {
    /// A short human-readable description of the failure.
    pub fn message(&self) -> (r: &'static str) {
        match self {
            SecretError::ClockError => "System time is before the UNIX epoch",
            SecretError::InvalidEncoding => "Failed to decode ciphertext",
            SecretError::TruncatedCiphertext => "Ciphertext is too short",
            SecretError::KeyConstructionFailed => "Failed to create AES key",
            SecretError::NonceConstructionFailed => "Failed to create nonce",
            SecretError::DecryptionFailed => "Failed to decrypt data",
            SecretError::MalformedPlaintext => "Failed to parse decrypted data as JSON",
            SecretError::RetrievalFailed => "No ciphertext found in the server response",
            SecretError::UsageError => "Table name and exactly one retrieval mode are required",
        }
    }
}

} // verus!
