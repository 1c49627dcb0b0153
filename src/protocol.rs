//! Key generation, hashing, signing and opening of envelopes.
//!
//! A keypair text is `base64(public key) ++ base64(seed ++ public key)`, and
//! an envelope is `public-key text ++ base64(signature ++ message)`, where the
//! message is the decimal millisecond timestamp followed by the UTF-8 bytes of
//! the signed digest text. Every field has a fixed width, so all offsets below
//! are constants.
use vstd::prelude::*;
use vstd::slice::slice_subrange;
use vstd::slice::slice_to_vec;
use vstd::utf8::decode_utf8;
use vstd::utf8::encode_utf8;
use vstd::utf8::valid_utf8;

use crate::decimal::decimal_text;
use crate::decimal::lemma_encode_utf8_concat;
use crate::decimal::push_decimal;
use crate::error::OpenError;
use crate::error::SignError;
use crate::primitives::base64_decode;
use crate::primitives::base64_decoding;
use crate::primitives::base64_encode;
use crate::primitives::base64_of;
use crate::primitives::ed25519_keypair_bytes;
use crate::primitives::ed25519_public_key;
use crate::primitives::ed25519_public_of;
use crate::primitives::ed25519_public_valid;
use crate::primitives::ed25519_sign;
use crate::primitives::ed25519_signature_of;
use crate::primitives::ed25519_verifies;
use crate::primitives::ed25519_verify;
use crate::primitives::random_seed;
use crate::primitives::sha256;
use crate::primitives::sha256_of;
use crate::primitives::unix_time_millis;
use crate::primitives::utf8_text;

verus! {

broadcast use vstd::utf8::encode_utf8_valid_utf8, vstd::utf8::encode_utf8_decode_utf8;

/// Bytes of an Ed25519 secret seed.
pub const SEED_LEN: usize = 32;

/// Bytes of an Ed25519 verification key.
pub const PUBLIC_KEY_LEN: usize = 32;

/// Bytes of a seed followed by its verification key.
pub const KEYPAIR_LEN: usize = 64;

/// Bytes of an Ed25519 signature.
pub const SIGNATURE_LEN: usize = 64;

/// Characters of the base64 text of a verification key.
pub const PUBLIC_KEY_TEXT_LEN: usize = 44;

/// Characters of the base64 text of the 64 keypair bytes.
pub const KEYPAIR_BYTES_TEXT_LEN: usize = 88;

/// Characters of a whole keypair text.
pub const KEY_TEXT_LEN: usize = PUBLIC_KEY_TEXT_LEN + KEYPAIR_BYTES_TEXT_LEN;

/// Characters of the base64 text of a SHA-256 digest.
pub const DIGEST_TEXT_LEN: usize = 44;

/// A `Result` over `String` seen as a `Result` over its characters.
pub open spec fn text_result<E>(r: Result<String, E>) -> Result<Seq<char>, E> {
    match r {
        Ok(s) => Ok(s@),
        Err(e) => Err(e),
    }
}

/// The digest text of `data`: base64 of the SHA-256 of its UTF-8 bytes.
pub open spec fn digest_text(data: Seq<char>) -> Seq<char> {
    base64_of(sha256_of(encode_utf8(data)))
}

/// The keypair text derived from a seed.
pub open spec fn keypair_text(seed: Seq<u8>) -> Seq<char> {
    base64_of(ed25519_public_of(seed)) + base64_of(seed + ed25519_public_of(seed))
}

/// A well-formed keypair text: 132 characters, whose keypair part decodes
/// to a seed followed by its own verification key, and whose public part
/// decodes to that same verification key.
pub open spec fn is_keypair_text(k: Seq<char>) -> bool {
    &&& k.len() == KEY_TEXT_LEN
    &&& base64_decoding(k.subrange(PUBLIC_KEY_TEXT_LEN as int, KEY_TEXT_LEN as int)) is Some
    &&& {
        let kp = base64_decoding(k.subrange(PUBLIC_KEY_TEXT_LEN as int, KEY_TEXT_LEN as int))->0;
        &&& kp.len() == KEYPAIR_LEN
        &&& kp.subrange(SEED_LEN as int, KEYPAIR_LEN as int) == ed25519_public_of(
            kp.subrange(0, SEED_LEN as int),
        )
        &&& base64_decoding(k.subrange(0, PUBLIC_KEY_TEXT_LEN as int)) == Some(
            kp.subrange(SEED_LEN as int, KEYPAIR_LEN as int),
        )
    }
}

/// The text that gets signed: the decimal timestamp, then the digest text.
pub open spec fn signed_text(ts: nat, h: Seq<char>) -> Seq<char> {
    decimal_text(ts) + h
}

/// The 64 keypair bytes carried by a keypair text, before they are checked
/// for consistency.
pub open spec fn keypair_bytes_of(k: Seq<char>) -> Result<Seq<u8>, SignError> {
    if k.len() < KEY_TEXT_LEN {
        Err(SignError::InvalidKeyLength)
    } else {
        match base64_decoding(k.subrange(PUBLIC_KEY_TEXT_LEN as int, k.len() as int)) {
            None => Err(SignError::InvalidSecretKeyBase64),
            Some(kp) => if kp.len() != KEYPAIR_LEN {
                Err(SignError::InvalidSecretKeyLength)
            } else {
                Ok(kp)
            },
        }
    }
}

/// The envelope that the keypair bytes `kp` seal for digest text `h` at time
/// `ts`, the public-key text `public_text` put in front unchanged.
pub open spec fn sealed(public_text: Seq<char>, kp: Seq<u8>, ts: nat, h: Seq<char>) -> Result<
    Seq<char>,
    SignError,
> {
    let msg = encode_utf8(signed_text(ts, h));
    let seed = kp.subrange(0, SEED_LEN as int);
    if kp.subrange(SEED_LEN as int, KEYPAIR_LEN as int) != ed25519_public_of(seed) {
        Err(SignError::InvalidSecretKey)
    } else {
        Ok(public_text + base64_of(ed25519_signature_of(seed, msg) + msg))
    }
}

/// What signing digest text `h` with keypair text `k` at time `ts` yields.
pub open spec fn signed(h: Seq<char>, k: Seq<char>, ts: nat) -> Result<Seq<char>, SignError> {
    match keypair_bytes_of(k) {
        Err(e) => Err(e),
        Ok(kp) => sealed(k.subrange(0, PUBLIC_KEY_TEXT_LEN as int), kp, ts, h),
    }
}

/// What opening envelope `m` yields: the signed text, or the first check
/// that fails.
pub open spec fn opened(m: Seq<char>) -> Result<Seq<char>, OpenError> {
    if m.len() < PUBLIC_KEY_TEXT_LEN {
        Err(OpenError::InvalidMessageLength)
    } else {
        match base64_decoding(m.subrange(PUBLIC_KEY_TEXT_LEN as int, m.len() as int)) {
            None => Err(OpenError::InvalidSignedBase64),
            Some(payload) => if payload.len() < SIGNATURE_LEN {
                Err(OpenError::SignedTooShort)
            } else {
                let sig = payload.subrange(0, SIGNATURE_LEN as int);
                let msg = payload.subrange(SIGNATURE_LEN as int, payload.len() as int);
                match base64_decoding(m.subrange(0, PUBLIC_KEY_TEXT_LEN as int)) {
                    None => Err(OpenError::InvalidPublicKeyBase64),
                    Some(pk) => if pk.len() != PUBLIC_KEY_LEN {
                        Err(OpenError::InvalidPublicKeyLength)
                    } else if !ed25519_public_valid(pk) {
                        Err(OpenError::InvalidPublicKey)
                    } else if !ed25519_verifies(pk, msg, sig) {
                        Err(OpenError::SignatureVerificationFailed)
                    } else if !valid_utf8(msg) {
                        Err(OpenError::InvalidUtf8)
                    } else {
                        Ok(decode_utf8(msg))
                    },
                }
            },
        }
    }
}

/// Short inputs are refused before anything is decoded: a keypair text
/// shorter than 132 characters fails signing with the key-length error, and
/// an envelope shorter than 44 characters fails opening with the
/// message-length error.
pub proof fn lemma_short_inputs_refused(h: Seq<char>, k: Seq<char>, ts: nat, m: Seq<char>)
    ensures
        k.len() < KEY_TEXT_LEN ==> signed(h, k, ts) == Err::<Seq<char>, SignError>(
            SignError::InvalidKeyLength,
        ),
        m.len() < PUBLIC_KEY_TEXT_LEN ==> opened(m) == Err::<Seq<char>, OpenError>(
            OpenError::InvalidMessageLength,
        ),
{
}

/// Opening only ever returns text that is authenticated: whenever an envelope
/// opens to `t`, its public-key part decodes to a valid verification key, its
/// body decodes to a signature followed by exactly the UTF-8 bytes of `t`, and
/// that signature verifies for those bytes under that key. Altered content or
/// a substituted key is therefore returned only if it carries a signature
/// that verifies for it.
pub proof fn lemma_opened_is_authenticated(m: Seq<char>)
    requires
        opened(m) is Ok,
    ensures
        ({
            let t = opened(m)->Ok_0;
            let pk = base64_decoding(m.subrange(0, PUBLIC_KEY_TEXT_LEN as int))->0;
            let payload = base64_decoding(m.subrange(PUBLIC_KEY_TEXT_LEN as int, m.len() as int))->0;
            &&& base64_decoding(m.subrange(0, PUBLIC_KEY_TEXT_LEN as int)) is Some
            &&& base64_decoding(m.subrange(PUBLIC_KEY_TEXT_LEN as int, m.len() as int)) is Some
            &&& pk.len() == PUBLIC_KEY_LEN
            &&& ed25519_public_valid(pk)
            &&& payload.len() >= SIGNATURE_LEN
            &&& payload.subrange(SIGNATURE_LEN as int, payload.len() as int) == encode_utf8(t)
            &&& ed25519_verifies(pk, encode_utf8(t), payload.subrange(0, SIGNATURE_LEN as int))
        }),
{
    let payload = base64_decoding(m.subrange(PUBLIC_KEY_TEXT_LEN as int, m.len() as int))->0;
    vstd::utf8::decode_utf8_encode_utf8(payload.subrange(SIGNATURE_LEN as int, payload.len() as int));
}

/// The keypair text of a 32-byte seed.
pub fn keypair_from_seed(seed: &[u8; 32]) -> (r: String)
    ensures
        r@ == keypair_text(seed@),
        r@.len() == KEY_TEXT_LEN,
        is_keypair_text(r@),
{
    let public = ed25519_public_key(seed.as_slice());
    let keypair = ed25519_keypair_bytes(seed.as_slice());
    let public_text = base64_encode(public.as_slice());
    let keypair_text = base64_encode(keypair.as_slice());
    let r = public_text.concat(keypair_text.as_str());
    proof {
        assert(r@.subrange(0, PUBLIC_KEY_TEXT_LEN as int) =~= public_text@);
        assert(r@.subrange(PUBLIC_KEY_TEXT_LEN as int, KEY_TEXT_LEN as int) =~= keypair_text@);
        assert(keypair@.subrange(0, SEED_LEN as int) =~= seed@);
        assert(keypair@.subrange(SEED_LEN as int, KEYPAIR_LEN as int) =~= public@);
    }
    r
}

/// A fresh keypair text from a random seed.
pub fn gen() -> (r: Result<String, String>)
    ensures
        r matches Ok(k) && k@.len() == KEY_TEXT_LEN && is_keypair_text(k@) && exists|seed: Seq<
            u8,
        >| seed.len() == SEED_LEN && k@ == keypair_text(seed),
{
    let seed = random_seed();
    let k = keypair_from_seed(&seed);
    proof {
        assert(seed@.len() == SEED_LEN && k@ == keypair_text(seed@));
    }
    Ok(k)
}

/// The digest text of `data`.
pub fn hash(data: &str) -> (r: String)
    ensures
        r@ == digest_text(data@),
        r@.len() == DIGEST_TEXT_LEN,
        base64_decoding(r@) == Some(sha256_of(encode_utf8(data@))),
        sha256_of(encode_utf8(data@)).len() == 32,
{
    let digest = sha256(data.as_bytes());
    base64_encode(digest.as_slice())
}

/// The 64 keypair bytes carried by keypair text `k`.
fn keypair_bytes(k: &str) -> (r: Result<Vec<u8>, SignError>)
    ensures
        match r {
            Ok(kp) => keypair_bytes_of(k@) == Ok::<Seq<u8>, SignError>(kp@),
            Err(e) => keypair_bytes_of(k@) == Err::<Seq<u8>, SignError>(e),
        },
{
    let n = k.unicode_len();
    if n < KEY_TEXT_LEN {
        return Err(SignError::InvalidKeyLength);
    }
    let secret_text = k.substring_char(PUBLIC_KEY_TEXT_LEN, n);
    let kp = match base64_decode(secret_text) {
        Ok(kp) => kp,
        Err(_) => return Err(SignError::InvalidSecretKeyBase64),
    };
    if kp.len() != KEYPAIR_LEN {
        return Err(SignError::InvalidSecretKeyLength);
    }
    Ok(kp)
}

/// Signs the timestamped digest text with keypair bytes `kp` and assembles
/// the envelope behind the public-key part of `k`.
fn seal(h: &str, k: &str, kp: &[u8], ts: u128) -> (r: Result<String, SignError>)
    requires
        k@.len() >= KEY_TEXT_LEN,
        kp@.len() == KEYPAIR_LEN,
    ensures
        text_result(r) == sealed(k@.subrange(0, PUBLIC_KEY_TEXT_LEN as int), kp@, ts as nat, h@),
        r is Ok && base64_decoding(k@.subrange(0, PUBLIC_KEY_TEXT_LEN as int)) == Some(
            kp@.subrange(SEED_LEN as int, KEYPAIR_LEN as int),
        ) ==> opened(r->Ok_0@) == Ok::<Seq<char>, OpenError>(signed_text(ts as nat, h@)),
{
    let mut msg: Vec<u8> = Vec::new();
    push_decimal(ts, &mut msg);
    msg.extend_from_slice(h.as_bytes());
    proof {
        lemma_encode_utf8_concat(decimal_text(ts as nat), h@);
        assert(msg@ =~= encode_utf8(signed_text(ts as nat, h@)));
    }
    let sig = match ed25519_sign(kp, msg.as_slice()) {
        Ok(sig) => sig,
        Err(_) => return Err(SignError::InvalidSecretKey),
    };
    let mut payload = slice_to_vec(sig.as_slice());
    payload.extend_from_slice(msg.as_slice());
    let payload_text = base64_encode(payload.as_slice());
    let public_text = k.substring_char(0, PUBLIC_KEY_TEXT_LEN);
    let r = public_text.to_owned().concat(payload_text.as_str());
    proof {
        assert(payload@ =~= sig@ + msg@);
        let e = r@;
        assert(e.subrange(0, PUBLIC_KEY_TEXT_LEN as int) =~= public_text@);
        assert(e.subrange(PUBLIC_KEY_TEXT_LEN as int, e.len() as int) =~= payload_text@);
        assert(payload@.subrange(0, SIGNATURE_LEN as int) =~= sig@);
        assert(payload@.subrange(SIGNATURE_LEN as int, payload@.len() as int) =~= msg@);
    }
    Ok(r)
}

/// Signs digest text `h` with keypair text `k` at millisecond time `ts`.
pub fn sign_at(h: &str, k: &str, ts: u128) -> (r: Result<String, SignError>)
    ensures
        text_result(r) == signed(h@, k@, ts as nat),
        is_keypair_text(k@) ==> r is Ok && opened(r->Ok_0@) == Ok::<Seq<char>, OpenError>(
            signed_text(ts as nat, h@),
        ),
{
    let kp = match keypair_bytes(k) {
        Ok(kp) => kp,
        Err(e) => return Err(e),
    };
    seal(h, k, kp.as_slice(), ts)
}

/// Signs digest text `h` with keypair text `k` at the current time.
pub fn sign(h: &str, k: &str) -> (r: Result<String, SignError>)
    ensures
        keypair_bytes_of(k@) matches Err(e) ==> r == Err::<String, SignError>(e),
        r == Err::<String, SignError>(SignError::ClockBeforeEpoch) || exists|ts: u128|
            text_result(r) == signed(h@, k@, ts as nat),
        is_keypair_text(k@) ==> r == Err::<String, SignError>(SignError::ClockBeforeEpoch) || (
        r is Ok && exists|ts: u128|
            opened(r->Ok_0@) == Ok::<Seq<char>, OpenError>(signed_text(ts as nat, h@))),
{
    let kp = match keypair_bytes(k) {
        Ok(kp) => kp,
        Err(e) => {
            let r = Err(e);
            proof {
                assert(text_result(r) == signed(h@, k@, 0u128 as nat));
            }
            return r;
        },
    };
    let ts = match unix_time_millis() {
        Some(ts) => ts,
        None => return Err(SignError::ClockBeforeEpoch),
    };
    let r = seal(h, k, kp.as_slice(), ts);
    proof {
        assert(text_result(r) == signed(h@, k@, ts as nat));
    }
    r
}

/// Opens envelope `m`: checks its signature and returns the signed text.
pub fn open(m: &str) -> (r: Result<String, OpenError>)
    ensures
        text_result(r) == opened(m@),
{
    let n = m.unicode_len();
    if n < PUBLIC_KEY_TEXT_LEN {
        return Err(OpenError::InvalidMessageLength);
    }
    let public_text = m.substring_char(0, PUBLIC_KEY_TEXT_LEN);
    let payload_text = m.substring_char(PUBLIC_KEY_TEXT_LEN, n);
    let payload = match base64_decode(payload_text) {
        Ok(p) => p,
        Err(_) => return Err(OpenError::InvalidSignedBase64),
    };
    if payload.len() < SIGNATURE_LEN {
        return Err(OpenError::SignedTooShort);
    }
    let sig = slice_subrange(payload.as_slice(), 0, SIGNATURE_LEN);
    let msg = slice_subrange(payload.as_slice(), SIGNATURE_LEN, payload.len());
    let public = match base64_decode(public_text) {
        Ok(p) => p,
        Err(_) => return Err(OpenError::InvalidPublicKeyBase64),
    };
    if public.len() != PUBLIC_KEY_LEN {
        return Err(OpenError::InvalidPublicKeyLength);
    }
    match ed25519_verify(public.as_slice(), msg, sig) {
        Err(_) => Err(OpenError::InvalidPublicKey),
        Ok(false) => Err(OpenError::SignatureVerificationFailed),
        Ok(true) => match utf8_text(slice_to_vec(msg)) {
            Some(text) => Ok(text),
            None => Err(OpenError::InvalidUtf8),
        },
    }
}

} // verus!
