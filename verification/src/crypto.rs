//! Trusted bridges to the cryptographic primitives.
//!
//! The keyed hash and the signature scheme are computed by outside crates;
//! their outputs are pure functions of their inputs, named here by
//! uninterpreted spec functions, and each bridge states over those names
//! exactly what the primitive it calls returns.

use ed25519_dalek::Signer;
use ed25519_dalek::Verifier;
use vstd::prelude::*;

verus! {

/// The 32-byte keyed hash of `data` under a 32-byte `key`.
pub uninterp spec fn blake3_keyed(key: Seq<u8>, data: Seq<u8>) -> Seq<u8>;

/// The 64-byte signature over `data` produced from a 32-byte signing `seed`.
/// The scheme signs deterministically, so this is a function of the two.
pub uninterp spec fn ed25519_signature(seed: Seq<u8>, data: Seq<u8>) -> Seq<u8>;

/// The 32-byte public key derived from a 32-byte signing `seed`.
pub uninterp spec fn ed25519_public_key(seed: Seq<u8>) -> Seq<u8>;

/// Whether 32 bytes decode to a valid point of the scheme's key space.
pub uninterp spec fn ed25519_pk_valid(pk: Seq<u8>) -> bool;

/// Whether `sig` is a signature over `data` that the public key `pk` accepts.
pub uninterp spec fn ed25519_verifies(pk: Seq<u8>, data: Seq<u8>, sig: Seq<u8>) -> bool;

/// Relies on `blake3::keyed_hash`: the 32-byte keyed hash of `data` under
/// `key`, a pure function of the two arguments.
#[verifier::external_body]
pub fn blake3_keyed_hash(key: &[u8], data: &[u8]) -> (r: Vec<u8>)
    requires
        key@.len() == 32,
    ensures
        r@ == blake3_keyed(key@, data@),
        r@.len() == 32,
{
    let key: &[u8; 32] = key.try_into().unwrap();
    blake3::keyed_hash(key, data).as_bytes().to_vec()
}

/// Relies on `ed25519_dalek::SigningKey::from_bytes` (total on 32-byte
/// seeds) and `Signer::sign`: the 64-byte deterministic signature over
/// `data` under `seed`. By the scheme's defining property (RFC 8032), a
/// signature so produced is accepted by the public key derived from the
/// same seed.
#[verifier::external_body]
pub fn ed25519_sign(seed: &[u8], data: &[u8]) -> (r: Vec<u8>)
    requires
        seed@.len() == 32,
    ensures
        r@ == ed25519_signature(seed@, data@),
        r@.len() == 64,
        ed25519_verifies(ed25519_public_key(seed@), data@, r@),
{
    let seed: &[u8; 32] = seed.try_into().unwrap();
    let sk = ed25519_dalek::SigningKey::from_bytes(seed);
    sk.sign(data).to_bytes().to_vec()
}

/// Relies on `ed25519_dalek::SigningKey::from_bytes` and `verifying_key`:
/// the 32-byte public key a seed determines. A key so derived is a valid
/// point of the scheme's key space.
#[verifier::external_body]
pub fn ed25519_derive_public(seed: &[u8]) -> (r: Vec<u8>)
    requires
        seed@.len() == 32,
    ensures
        r@ == ed25519_public_key(seed@),
        r@.len() == 32,
        ed25519_pk_valid(r@),
{
    let seed: &[u8; 32] = seed.try_into().unwrap();
    let sk = ed25519_dalek::SigningKey::from_bytes(seed);
    sk.verifying_key().to_bytes().to_vec()
}

/// Relies on `ed25519_dalek::VerifyingKey::from_bytes`: whether the bytes
/// decompress to a valid point, a pure function of the bytes.
#[verifier::external_body]
pub fn ed25519_check_public(pk: &[u8]) -> (r: bool)
    requires
        pk@.len() == 32,
    ensures
        r == ed25519_pk_valid(pk@),
{
    let pk: &[u8; 32] = pk.try_into().unwrap();
    ed25519_dalek::VerifyingKey::from_bytes(pk).is_ok()
}

/// Relies on `ed25519_dalek::VerifyingKey::from_bytes`,
/// `Signature::from_bytes` (total on 64-byte slices) and `Verifier::verify`:
/// whether `pk` accepts `sig` as a signature over `data`, a pure function of
/// the three.
#[verifier::external_body]
pub fn ed25519_verify(pk: &[u8], data: &[u8], sig: &[u8]) -> (r: bool)
    requires
        pk@.len() == 32,
        ed25519_pk_valid(pk@),
        sig@.len() == 64,
    ensures
        r == ed25519_verifies(pk@, data@, sig@),
{
    let pk: &[u8; 32] = pk.try_into().unwrap();
    let sig: &[u8; 64] = sig.try_into().unwrap();
    let key = match ed25519_dalek::VerifyingKey::from_bytes(pk) {
        Ok(k) => k,
        Err(_) => return false,
    };
    let sig = ed25519_dalek::Signature::from_bytes(sig);
    key.verify(data, &sig).is_ok()
}

} // verus!
