use vstd::prelude::*;

verus! {

/// Why an operation on a stream was given up.
#[derive(Clone, Copy, Debug, PartialEq, Eq, Structural)]
pub enum CryptoError {
    /// The key material does not have the length the cipher needs.
    InvalidKeyLength,
    /// The ciphertext stream ends before a whole nonce was read.
    MalformedInput,
    /// The ciphertext was not sealed under this key and nonce.
    AuthenticationFailed,
    /// The cipher refused to seal the plaintext.
    EncryptionFailed,
}

impl CryptoError {
    /// A line for the operator.
    pub fn message(&self) -> (text: &'static str)
        ensures
            text@ == error_text(*self),
    {
        match self {
            CryptoError::InvalidKeyLength => "key must be exactly 32 bytes long",
            CryptoError::MalformedInput => "ciphertext is shorter than one nonce of 12 bytes",
            CryptoError::AuthenticationFailed => "failed to decrypt buffer",
            CryptoError::EncryptionFailed => "failed to encrypt buffer",
        }
    }
}

/// The text that `CryptoError::message` returns for each error.
pub open spec fn error_text(error: CryptoError) -> Seq<char> {
    match error {
        CryptoError::InvalidKeyLength => "key must be exactly 32 bytes long"@,
        CryptoError::MalformedInput => "ciphertext is shorter than one nonce of 12 bytes"@,
        CryptoError::AuthenticationFailed => "failed to decrypt buffer"@,
        CryptoError::EncryptionFailed => "failed to encrypt buffer"@,
    }
}

} // verus!
