use anproto::gen;
use anproto::hash;
use anproto::keypair_from_seed;
use anproto::open;
use anproto::sign;
use anproto::sign_at;
use anproto::OpenError;
use anproto::SignError;
use base64::engine::general_purpose;
use base64::Engine as _;
use ed25519_dalek::Signer;
use ed25519_dalek::SigningKey;

fn b64(bytes: &[u8]) -> String {
    general_purpose::STANDARD.encode(bytes)
}

fn unb64(text: &str) -> Vec<u8> {
    general_purpose::STANDARD.decode(text).unwrap()
}

#[test]
fn test_gen() {
    let k = gen().unwrap();
    assert_eq!(k.len(), 132);
}

#[test]
fn test_hash() {
    let h = hash("hello");
    assert_eq!(h.len(), 44); // base64 of 32 bytes
}

#[test]
fn test_sign_open() {
    let k = gen().unwrap();
    let h = hash("hello");
    let signed = sign(&h, &k).unwrap();
    assert!(signed.starts_with(&k[..44]));
    let opened = open(&signed).unwrap();
    assert!(opened.ends_with(&h));
}

#[test]
fn test_example() {
    let m = "Hello World";
    let h = hash(m);
    // Use fixed secret for deterministic output
    let secret = [0u8; 32];
    let signing_key = SigningKey::from_bytes(&secret);
    let verifying_key = signing_key.verifying_key();
    let pub_b64 = general_purpose::STANDARD.encode(verifying_key.to_bytes());
    let keypair_b64 = general_purpose::STANDARD.encode(signing_key.to_keypair_bytes());
    let k = pub_b64 + &keypair_b64;
    let s = sign(&h, &k).unwrap();
    let o = open(&s).unwrap();
    println!("{}", k);
    println!("{}", h);
    println!("{}", s);
    println!("{}", o);
}

#[test]
fn hash_known_values() {
    assert_eq!(hash("hello"), "LPJNul+wow4m6DsqxbninhsWHlwfp0JecwQzYpOLmCQ=");
    assert_eq!(hash("Hello World"), "pZGm1Av0IEBKARczz7exkNYsZb8LzaMrV7J32a2fFG4=");
    assert_eq!(hash(""), "47DEQpj8HBSa+/TImW+5JCeuQeRkm5NMpJWZG3hSuFU=");
}

#[test]
fn hash_is_deterministic_digest_text() {
    for m in ["", "a", "Hello World", "h\u{e9}llo \u{1f600}"] {
        let a = hash(m);
        let b = hash(m);
        assert_eq!(a, b);
        assert_eq!(a.len(), 44);
        assert_eq!(unb64(&a).len(), 32);
    }
    assert_ne!(hash("a"), hash("b"));
}

#[test]
fn keypair_from_zero_seed() {
    let k = keypair_from_seed(&[0u8; 32]);
    let signing_key = SigningKey::from_bytes(&[0u8; 32]);
    let expected = b64(&signing_key.verifying_key().to_bytes()) + &b64(&signing_key.to_keypair_bytes());
    assert_eq!(k, expected);
    assert_eq!(&k[..44], "O2onvM62pC1io6jQKm8Nc2UyFXcd4kOmOsBIoYtZ2ik=");
    assert_eq!(k.len(), 132);
}

#[test]
fn generated_keypairs_have_fixed_width() {
    for _ in 0..8 {
        let k = gen().unwrap();
        assert_eq!(k.len(), 132);
        assert_eq!(unb64(&k[..44]).len(), 32);
        let kp = unb64(&k[44..]);
        assert_eq!(kp.len(), 64);
        assert_eq!(&kp[32..], unb64(&k[..44]).as_slice());
    }
}

#[test]
fn sign_at_fixed_time_round_trip() {
    let k = keypair_from_seed(&[7u8; 32]);
    let h = hash("Hello World");
    let s = sign_at(&h, &k, 1700000000123).unwrap();
    assert!(s.starts_with(&k[..44]));
    let payload = unb64(&s[44..]);
    assert_eq!(payload.len(), 64 + 13 + 44);
    assert_eq!(&payload[64..], format!("1700000000123{}", h).as_bytes());
    assert_eq!(open(&s).unwrap(), format!("1700000000123{}", h));
    // Ed25519 signatures are deterministic.
    assert_eq!(sign_at(&h, &k, 1700000000123).unwrap(), s);
}

#[test]
fn sign_at_zero_time() {
    let k = keypair_from_seed(&[1u8; 32]);
    let s = sign_at("abc", &k, 0).unwrap();
    assert_eq!(open(&s).unwrap(), "0abc");
    let s = sign_at("", &k, 9).unwrap();
    assert_eq!(open(&s).unwrap(), "9");
}

#[test]
fn round_trip_ends_with_digest() {
    for m in ["", "hello", "Hello World", "\u{1f600}"] {
        let k = gen().unwrap();
        let h = hash(m);
        let o = open(&sign(&h, &k).unwrap()).unwrap();
        assert!(o.ends_with(&h));
        let digits = &o[..o.len() - h.len()];
        assert!(!digits.is_empty());
        assert!(digits.bytes().all(|b| b.is_ascii_digit()));
    }
}

#[test]
fn hello_world_scenario() {
    let h = hash("Hello World");
    assert_eq!(h.len(), 44);
    assert_eq!(h, hash("Hello World"));
    let k = gen().unwrap();
    let o = open(&sign(&h, &k).unwrap()).unwrap();
    assert!(o.ends_with(&h));
}

#[test]
fn sign_short_key() {
    let k = gen().unwrap();
    assert_eq!(sign("x", &k[..131]), Err(SignError::InvalidKeyLength));
    assert_eq!(sign("x", ""), Err(SignError::InvalidKeyLength));
    assert_eq!(sign_at("x", &k[..100], 5), Err(SignError::InvalidKeyLength));
}

#[test]
fn sign_bad_secret_base64() {
    let k = gen().unwrap();
    let bad = format!("{}{}", &k[..44], "!".repeat(88));
    assert_eq!(sign("x", &bad), Err(SignError::InvalidSecretKeyBase64));
}

#[test]
fn sign_bad_secret_length() {
    let k = gen().unwrap();
    let bad = format!("{}{}", &k[..44], b64(&[5u8; 66]));
    assert_eq!(bad.len(), 132);
    assert_eq!(sign("x", &bad), Err(SignError::InvalidSecretKeyLength));
}

#[test]
fn sign_mismatched_keypair() {
    let a = SigningKey::from_bytes(&[3u8; 32]);
    let b = SigningKey::from_bytes(&[4u8; 32]);
    let mut kp = a.to_keypair_bytes().to_vec();
    kp[32..].copy_from_slice(&b.verifying_key().to_bytes());
    let bad = b64(&a.verifying_key().to_bytes()) + &b64(&kp);
    assert_eq!(sign("x", &bad), Err(SignError::InvalidSecretKey));
    assert_eq!(sign_at("x", &bad, 1), Err(SignError::InvalidSecretKey));
}

#[test]
fn sign_keeps_public_part_unchecked() {
    let k = keypair_from_seed(&[9u8; 32]);
    let other = format!("{}{}", "A".repeat(44), &k[44..]);
    let s = sign_at("d", &other, 42).unwrap();
    assert!(s.starts_with(&"A".repeat(44)));
    assert_eq!(&s[44..], &sign_at("d", &k, 42).unwrap()[44..]);
}

#[test]
fn open_short_message() {
    assert_eq!(open(""), Err(OpenError::InvalidMessageLength));
    assert_eq!(open(&"A".repeat(43)), Err(OpenError::InvalidMessageLength));
}

#[test]
fn open_bad_signed_base64() {
    let m = format!("{}{}", "A".repeat(44), "!!!!");
    assert_eq!(open(&m), Err(OpenError::InvalidSignedBase64));
}

#[test]
fn open_signed_too_short() {
    let m = format!("{}{}", "A".repeat(44), b64(&[1u8; 63]));
    assert_eq!(open(&m), Err(OpenError::SignedTooShort));
    // Exactly 44 characters: the body is empty, which decodes to no bytes.
    assert_eq!(open(&"A".repeat(44)), Err(OpenError::SignedTooShort));
}

#[test]
fn open_bad_public_base64() {
    let m = format!("{}{}", "!".repeat(44), b64(&[1u8; 80]));
    assert_eq!(open(&m), Err(OpenError::InvalidPublicKeyBase64));
}

#[test]
fn open_bad_public_length() {
    let public = b64(&[1u8; 33]);
    assert_eq!(public.len(), 44);
    let m = format!("{}{}", public, b64(&[1u8; 80]));
    assert_eq!(open(&m), Err(OpenError::InvalidPublicKeyLength));
}

#[test]
fn open_invalid_public_point() {
    let mut found = false;
    for i in 0..=255u8 {
        let mut pk = [0u8; 32];
        pk[0] = i;
        pk[31] = 0x7f;
        if ed25519_dalek::VerifyingKey::from_bytes(&pk).is_err() {
            let m = format!("{}{}", b64(&pk), b64(&[1u8; 80]));
            assert_eq!(open(&m), Err(OpenError::InvalidPublicKey));
            found = true;
            break;
        }
    }
    assert!(found);
}

#[test]
fn open_tampered_payload() {
    let k = keypair_from_seed(&[11u8; 32]);
    let s = sign_at(&hash("hello"), &k, 1234).unwrap();
    let payload = unb64(&s[44..]);
    for i in [0usize, 10, 63, 64, 70, payload.len() - 1] {
        let mut p = payload.clone();
        p[i] ^= 0x01;
        let t = format!("{}{}", &s[..44], b64(&p));
        assert_eq!(open(&t), Err(OpenError::SignatureVerificationFailed));
    }
}

#[test]
fn open_with_other_public_key() {
    let a = keypair_from_seed(&[21u8; 32]);
    let b = keypair_from_seed(&[22u8; 32]);
    let s = sign_at(&hash("hello"), &a, 99).unwrap();
    let swapped = format!("{}{}", &b[..44], &s[44..]);
    assert_eq!(open(&swapped), Err(OpenError::SignatureVerificationFailed));
}

#[test]
fn open_invalid_utf8_payload() {
    let key = SigningKey::from_bytes(&[5u8; 32]);
    let msg = [0xffu8, 0xfe, 0x41];
    let sig = key.sign(&msg).to_bytes();
    let mut payload = sig.to_vec();
    payload.extend_from_slice(&msg);
    let m = b64(&key.verifying_key().to_bytes()) + &b64(&payload);
    assert_eq!(open(&m), Err(OpenError::InvalidUtf8));
}
