//! The outside primitives the protocol is built on: SHA-256, standard base64,
//! Ed25519, the system clock and the system random-number source.
//!
//! Each function here makes one outside call; its contract is what the
//! outside crate documents of that call.
use base64::engine::general_purpose;
use base64::Engine;
use ed25519_dalek::Signer;
use ed25519_dalek::Verifier;
use rand::Rng;
use sha2::Digest;
use vstd::prelude::*;

verus! {

/// The SHA-256 digest of a byte string.
pub uninterp spec fn sha256_of(data: Seq<u8>) -> Seq<u8>;

/// The standard (padded) base64 text of a byte string.
pub uninterp spec fn base64_of(data: Seq<u8>) -> Seq<char>;

/// What standard (padded, canonical) base64 decoding yields for a text,
/// `None` where the text is not such an encoding.
pub uninterp spec fn base64_decoding(text: Seq<char>) -> Option<Seq<u8>>;

/// The Ed25519 verification key derived from a 32-byte secret seed.
pub uninterp spec fn ed25519_public_of(seed: Seq<u8>) -> Seq<u8>;

/// The (deterministic) Ed25519 signature of a message under a 32-byte seed.
pub uninterp spec fn ed25519_signature_of(seed: Seq<u8>, msg: Seq<u8>) -> Seq<u8>;

/// Whether 32 bytes decompress to a curve point, i.e. form a usable
/// verification key.
pub uninterp spec fn ed25519_public_valid(public: Seq<u8>) -> bool;

/// Whether a 64-byte signature checks out for a message under a verification key.
pub uninterp spec fn ed25519_verifies(public: Seq<u8>, msg: Seq<u8>, sig: Seq<u8>) -> bool;

#[verifier::external_type_specification]
#[verifier::external_body]
pub struct ExDecodeError(base64::DecodeError);

#[verifier::external_type_specification]
#[verifier::external_body]
pub struct ExSignatureError(ed25519_dalek::SignatureError);

/// Relies on sha2's `Digest` for `Sha256` (`new`, `update`, `finalize`):
/// the 32-byte digest of the input.
#[verifier::external_body]
pub(crate) fn sha256(data: &[u8]) -> (r: [u8; 32])
    ensures
        r@ == sha256_of(data@),
{
    let mut hasher = sha2::Sha256::new();
    hasher.update(data);
    hasher.finalize().into()
}

/// Relies on base64's `Engine::encode` with `general_purpose::STANDARD`:
/// four characters for each started group of three bytes, and the canonical
/// decoder of the same engine gives the bytes back.
#[verifier::external_body]
pub(crate) fn base64_encode(data: &[u8]) -> (r: String)
    ensures
        r@ == base64_of(data@),
        r@.len() == 4 * ((data@.len() + 2) / 3),
        base64_decoding(r@) == Some(data@),
{
    general_purpose::STANDARD.encode(data)
}

/// Relies on base64's `Engine::decode` with `general_purpose::STANDARD`:
/// the decoded bytes, or an error where the text is not canonical padded base64.
#[verifier::external_body]
pub(crate) fn base64_decode(text: &str) -> (r: Result<Vec<u8>, base64::DecodeError>)
    ensures
        match r {
            Ok(v) => base64_decoding(text@) == Some(v@),
            Err(_) => base64_decoding(text@) is None,
        },
{
    general_purpose::STANDARD.decode(text)
}

/// Relies on ed25519_dalek's `SigningKey::from_bytes` and
/// `VerifyingKey::to_bytes`: the verification key of a seed, which is always
/// a valid curve point.
#[verifier::external_body]
pub(crate) fn ed25519_public_key(seed: &[u8]) -> (r: [u8; 32])
    requires
        seed@.len() == 32,
    ensures
        r@ == ed25519_public_of(seed@),
        ed25519_public_valid(r@),
{
    let seed: &[u8; 32] = seed.try_into().unwrap();
    ed25519_dalek::SigningKey::from_bytes(seed).verifying_key().to_bytes()
}

/// Relies on ed25519_dalek's `SigningKey::to_keypair_bytes`: the seed
/// followed by the verification key derived from it.
#[verifier::external_body]
pub(crate) fn ed25519_keypair_bytes(seed: &[u8]) -> (r: [u8; 64])
    requires
        seed@.len() == 32,
    ensures
        r@ == seed@ + ed25519_public_of(seed@),
{
    let seed: &[u8; 32] = seed.try_into().unwrap();
    ed25519_dalek::SigningKey::from_bytes(seed).to_keypair_bytes()
}

/// Relies on ed25519_dalek's `SigningKey::from_keypair_bytes` and
/// `Signer::sign`: the keypair is accepted exactly when its second half is
/// the key derived from its first half; the signature then verifies under
/// that key.
#[verifier::external_body]
pub(crate) fn ed25519_sign(
    keypair: &[u8],
    msg: &[u8],
) -> (r: Result<[u8; 64], ed25519_dalek::SignatureError>)
    requires
        keypair@.len() == 64,
    ensures
        r is Ok <==> keypair@.subrange(32, 64) == ed25519_public_of(keypair@.subrange(0, 32)),
        r matches Ok(sig) ==> sig@ == ed25519_signature_of(keypair@.subrange(0, 32), msg@)
            && ed25519_public_valid(keypair@.subrange(32, 64))
            && ed25519_verifies(keypair@.subrange(32, 64), msg@, sig@),
{
    let keypair: &[u8; 64] = keypair.try_into().unwrap();
    ed25519_dalek::SigningKey::from_keypair_bytes(keypair).map(|k| k.sign(msg).to_bytes())
}

/// Relies on ed25519_dalek's `VerifyingKey::from_bytes` and
/// `Verifier::verify`: an error where the key is not a curve point, else
/// whether the signature checks out.
#[verifier::external_body]
pub(crate) fn ed25519_verify(
    public: &[u8],
    msg: &[u8],
    sig: &[u8],
) -> (r: Result<bool, ed25519_dalek::SignatureError>)
    requires
        public@.len() == 32,
        sig@.len() == 64,
    ensures
        r is Ok <==> ed25519_public_valid(public@),
        r matches Ok(b) ==> b == ed25519_verifies(public@, msg@, sig@),
{
    let public: &[u8; 32] = public.try_into().unwrap();
    let sig: &[u8; 64] = sig.try_into().unwrap();
    let sig = ed25519_dalek::Signature::from_bytes(sig);
    ed25519_dalek::VerifyingKey::from_bytes(public).map(|k| k.verify(msg, &sig).is_ok())
}

/// Relies on `String::from_utf8`: the text exactly when the bytes are valid UTF-8.
#[verifier::external_body]
pub(crate) fn utf8_text(bytes: Vec<u8>) -> (r: Option<String>)
    ensures
        r is Some <==> vstd::utf8::valid_utf8(bytes@),
        r matches Some(s) ==> s@ == vstd::utf8::decode_utf8(bytes@),
{
    String::from_utf8(bytes).ok()
}

/// Relies on rand's `thread_rng` and `Rng::gen`: 32 bytes from the
/// operating system's cryptographic random source.
#[verifier::external_body]
pub(crate) fn random_seed() -> (r: [u8; 32]) {
    rand::thread_rng().gen()
}

/// Relies on `SystemTime::duration_since(UNIX_EPOCH)`: the wall-clock time in
/// milliseconds since the Unix epoch, `None` where the clock is set before it.
#[verifier::external_body]
pub(crate) fn unix_time_millis() -> (r: Option<u128>) {
    std::time::SystemTime::now().duration_since(std::time::UNIX_EPOCH).ok().map(|d| d.as_millis())
}

} // verus!
