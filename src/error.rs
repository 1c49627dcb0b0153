//! Error kinds of signing and opening.
use vstd::prelude::*;

verus! {

/// Why a digest could not be signed.
#[derive(Debug, Clone, Copy, PartialEq, Eq, Structural)]
pub enum SignError {
    /// The keypair text is shorter than a public-key text plus a keypair text.
    InvalidKeyLength,
    /// The keypair portion is not canonical padded base64.
    InvalidSecretKeyBase64,
    /// The keypair portion does not decode to exactly 64 bytes.
    InvalidSecretKeyLength,
    /// The 64 keypair bytes are not a seed followed by its own verification key.
    InvalidSecretKey,
    /// The system clock reads a time before the Unix epoch.
    ClockBeforeEpoch,
}

/// Why an envelope could not be opened.
#[derive(Debug, Clone, Copy, PartialEq, Eq, Structural)]
pub enum OpenError {
    /// The envelope is shorter than a public-key text.
    InvalidMessageLength,
    /// The part after the public key is not canonical padded base64.
    InvalidSignedBase64,
    /// The decoded part after the public key is shorter than a signature.
    SignedTooShort,
    /// The public-key part is not canonical padded base64.
    InvalidPublicKeyBase64,
    /// The public-key part does not decode to exactly 32 bytes.
    InvalidPublicKeyLength,
    /// The 32 public-key bytes are not a point of the curve.
    InvalidPublicKey,
    /// The signature does not check out for the payload under the public key.
    SignatureVerificationFailed,
    /// The signed payload is not valid UTF-8.
    InvalidUtf8,
}

} // verus!
