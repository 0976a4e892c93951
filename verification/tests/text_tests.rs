use rcli::process_text_generate;
use rcli::process_text_sign;
use rcli::process_text_verify;
use rcli::Blake3;
use rcli::Ed25519Signer;
use rcli::Ed25519Verifier;
use rcli::Error;
use rcli::KeyLoader;
use rcli::TextSign;
use rcli::TextSignFormat;
use rcli::TextVerify;

const FIXED_KEY: &[u8] = b"abcdefghijklmnopqrstuvwxyz012345";

#[test]
fn test_blake3_sign_verify() {
    let signer = Blake3::load(FIXED_KEY).unwrap();
    let data = b"Hello, world!";
    let sig = signer.sign(data).unwrap();
    let ret = signer.verify(data, &sig).unwrap();
    assert!(ret);
}

#[test]
fn test_ed25519_sign_verify() {
    let keys = process_text_generate(TextSignFormat::Ed25519).unwrap();
    let signer = Ed25519Signer::load(&keys[0]).unwrap();
    let verifier = Ed25519Verifier::load(&keys[1]).unwrap();
    let data = b"Hello, world!";
    let sig = signer.sign(data).unwrap();
    let ret = verifier.verify(data, &sig).unwrap();
    assert!(ret);
}

#[test]
fn test_blake3_golden_value() {
    // Signing a known text with a known key must reproduce one fixed tag.
    let golden = "kS5uZ6Du13F86T0pS2fr84R_1vnzcj9BXiEptebWP1o";
    let sig = process_text_sign(b"Hello, world!", FIXED_KEY, TextSignFormat::Blake3).unwrap();
    assert_eq!(sig, golden);
    let verified =
        process_text_verify(b"Hello, world!", FIXED_KEY, TextSignFormat::Blake3, &sig).unwrap();
    assert!(verified);
    // and decoding the golden text reproduces the raw 32-byte digest
    let chars: Vec<char> = golden.chars().collect();
    let raw = rcli::codec::b64_decode_chars(true, false, &chars).unwrap();
    assert_eq!(raw.len(), 32);
    let signer = Blake3::load(FIXED_KEY).unwrap();
    assert_eq!(raw, signer.sign(b"Hello, world!").unwrap());
}

#[test]
fn test_blake3_tamper_rejected() {
    let data = b"Hello, world!".to_vec();
    let sig = process_text_sign(&data, FIXED_KEY, TextSignFormat::Blake3).unwrap();
    // flip one bit of the data
    let mut tampered = data.clone();
    tampered[0] ^= 1;
    assert!(!process_text_verify(&tampered, FIXED_KEY, TextSignFormat::Blake3, &sig).unwrap());
    // flip one bit of the raw signature: re-encode a tampered tag
    let signer = Blake3::load(FIXED_KEY).unwrap();
    let mut raw = signer.sign(&data).unwrap();
    raw[5] ^= 0x40;
    assert!(!signer.verify(&data, &raw).unwrap());
}

#[test]
fn test_ed25519_tamper_rejected() {
    let keys = process_text_generate(TextSignFormat::Ed25519).unwrap();
    let data = b"Hello, world!".to_vec();
    let sig = process_text_sign(&data, &keys[0], TextSignFormat::Ed25519).unwrap();
    let mut tampered = data.clone();
    tampered[3] ^= 8;
    assert!(!process_text_verify(&tampered, &keys[1], TextSignFormat::Ed25519, &sig).unwrap());
    let signer = Ed25519Signer::load(&keys[0]).unwrap();
    let verifier = Ed25519Verifier::load(&keys[1]).unwrap();
    let mut raw = signer.sign(&data).unwrap();
    raw[10] ^= 2;
    assert!(!verifier.verify(&data, &raw).unwrap());
}

#[test]
fn test_cross_key_rejected() {
    let data = b"Hello, world!";
    // symmetric: a different shared key rejects the tag
    let other_key: &[u8] = b"abcdefghijklmnopqrstuvwxyz012346";
    let sig = process_text_sign(data, FIXED_KEY, TextSignFormat::Blake3).unwrap();
    assert!(!process_text_verify(data, other_key, TextSignFormat::Blake3, &sig).unwrap());
    // asymmetric: a validly shaped but unrelated public key rejects
    let keys1 = process_text_generate(TextSignFormat::Ed25519).unwrap();
    let keys2 = process_text_generate(TextSignFormat::Ed25519).unwrap();
    let sig = process_text_sign(data, &keys1[0], TextSignFormat::Ed25519).unwrap();
    assert!(!process_text_verify(data, &keys2[1], TextSignFormat::Ed25519, &sig).unwrap());
}

#[test]
fn test_symmetric_key_length_boundary() {
    assert_eq!(Blake3::try_new(&[7u8; 31]).unwrap_err(), Error::InvalidKeyLength);
    assert!(Blake3::try_new(&[7u8; 32]).is_ok());
    // longer material is truncated to its first 32 bytes
    let long = [7u8; 40];
    let sig_long = process_text_sign(b"x", &long, TextSignFormat::Blake3).unwrap();
    let sig_short = process_text_sign(b"x", &long[..32], TextSignFormat::Blake3).unwrap();
    assert_eq!(sig_long, sig_short);
    assert_eq!(
        process_text_sign(b"x", &[7u8; 31], TextSignFormat::Blake3).unwrap_err(),
        Error::InvalidKeyLength
    );
}

#[test]
fn test_asymmetric_key_length() {
    assert_eq!(Ed25519Signer::try_new(&[1u8; 31]).unwrap_err(), Error::InvalidKeyLength);
    assert_eq!(Ed25519Signer::try_new(&[1u8; 33]).unwrap_err(), Error::InvalidKeyLength);
    assert!(Ed25519Signer::try_new(&[1u8; 32]).is_ok());
    assert_eq!(Ed25519Verifier::try_new(&[1u8; 31]).unwrap_err(), Error::InvalidKeyLength);
}

#[test]
fn test_malformed_public_key() {
    // not every 32-byte string is a point of the key space
    let mut bad = [0xffu8; 32];
    let mut saw_malformed = false;
    for i in 0..8u8 {
        bad[31] = 0xf0 | i;
        if let Err(e) = Ed25519Verifier::try_new(&bad) {
            assert_eq!(e, Error::MalformedKey);
            saw_malformed = true;
        }
    }
    assert!(saw_malformed);
}

#[test]
fn test_generate_symmetric() {
    let keys = process_text_generate(TextSignFormat::Blake3).unwrap();
    assert_eq!(keys.len(), 1);
    assert_eq!(keys[0].len(), 32);
    // the key bytes come from the password generator's character classes
    let charset =
        "ABCDEFGHJKLMNPQRSTUVWXYZabcdefghijkmnopqrstuvwxyz123456789!@#$%^&*_";
    assert!(keys[0].iter().all(|&b| charset.contains(b as char)));
    // and the generated key signs and verifies
    let sig = process_text_sign(b"data", &keys[0], TextSignFormat::Blake3).unwrap();
    assert!(process_text_verify(b"data", &keys[0], TextSignFormat::Blake3, &sig).unwrap());
}

#[test]
fn test_generate_asymmetric() {
    // exactly two blobs of 32 bytes, private seed first
    let keys = process_text_generate(TextSignFormat::Ed25519).unwrap();
    assert_eq!(keys.len(), 2);
    assert_eq!(keys[0].len(), 32);
    assert_eq!(keys[1].len(), 32);
    assert_ne!(keys[0], keys[1]);
    // signing with the seed verifies against the public key
    let sig = process_text_sign(b"data", &keys[0], TextSignFormat::Ed25519).unwrap();
    assert!(process_text_verify(b"data", &keys[1], TextSignFormat::Ed25519, &sig).unwrap());
}

#[test]
fn test_unsupported_selector() {
    // the selector is rejected before any key is touched
    assert_eq!(TextSignFormat::parse("shake256").unwrap_err(), Error::UnsupportedAlgorithm);
}

#[test]
fn test_verify_rejects_bad_signature_text() {
    assert_eq!(
        process_text_verify(b"data", FIXED_KEY, TextSignFormat::Blake3, "not*base64").unwrap_err(),
        Error::InvalidEncoding
    );
    // well-formed text of the wrong raw length: symmetric verify says false
    assert!(!process_text_verify(b"data", FIXED_KEY, TextSignFormat::Blake3, "TWFu").unwrap());
}

#[test]
fn test_ed25519_signature_length_checked() {
    let keys = process_text_generate(TextSignFormat::Ed25519).unwrap();
    // 3 raw bytes decode fine but are no 64-byte signature
    assert_eq!(
        process_text_verify(b"data", &keys[1], TextSignFormat::Ed25519, "TWFu").unwrap_err(),
        Error::InvalidKeyLength
    );
}

#[test]
fn test_signature_is_urlsafe_text() {
    let sig = process_text_sign(b"Hello, world!", FIXED_KEY, TextSignFormat::Blake3).unwrap();
    assert!(!sig.contains('='));
    assert!(sig.chars().all(|c| c.is_ascii_alphanumeric() || c == '-' || c == '_'));
    let keys = process_text_generate(TextSignFormat::Ed25519).unwrap();
    let sig = process_text_sign(b"Hello, world!", &keys[0], TextSignFormat::Ed25519).unwrap();
    assert!(!sig.contains('='));
    assert!(sig.chars().all(|c| c.is_ascii_alphanumeric() || c == '-' || c == '_'));
}
