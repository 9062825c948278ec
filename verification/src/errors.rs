//! The closed set of typed failures that the library reports.

use vstd::prelude::*;

verus! {

/// Every fallible operation of the crate returns one of these variants.
///
/// A verification *mismatch* is not an error: `verify` returns `false` for a
/// well-formed but incorrect signature and reserves `CryptError` for inputs
/// that cannot even be parsed into the expected shape.  `IOError` is never
/// produced here; it exists so that the calling binary, which resolves files
/// and standard input into bytes, can report its failures in the same type.
#[derive(Debug, Clone, Copy, PartialEq, Eq, Structural)]
pub enum CryptError {
    /// The key bytes have the wrong size or shape for the selected algorithm.
    InvalidKeyLength,
    /// Malformed base64 text, or a signature of the wrong length.
    EncodingError,
    /// The underlying cipher rejected an encryption request.
    EncryptionFailure,
    /// The payload is malformed or its authentication tag does not match.
    DecryptionFailure,
    /// The requested algorithm path is deliberately unfinished.
    NotImplemented,
    /// A stream could not be resolved into bytes by the caller.
    IOError,
}

impl CryptError {
    /// A short human-readable description, for callers that render errors.
    pub fn message(&self) -> (r: String)
        ensures
            self is InvalidKeyLength ==> r@ == "invalid key length"@,
            self is EncodingError ==> r@ == "malformed encoding"@,
            self is EncryptionFailure ==> r@ == "encryption failed"@,
            self is DecryptionFailure ==> r@ == "decryption failed"@,
            self is NotImplemented ==> r@ == "not implemented"@,
            self is IOError ==> r@ == "input could not be read"@,
    {
        match self {
            CryptError::InvalidKeyLength => "invalid key length".to_owned(),
            CryptError::EncodingError => "malformed encoding".to_owned(),
            CryptError::EncryptionFailure => "encryption failed".to_owned(),
            CryptError::DecryptionFailure => "decryption failed".to_owned(),
            CryptError::NotImplemented => "not implemented".to_owned(),
            CryptError::IOError => "input could not be read".to_owned(),
        }
    }
}

} // verus!
