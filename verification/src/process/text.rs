//! Text signing, verification, and key generation.
//!
//! Two algorithm families share one capability set: a symmetric keyed hash
//! (shared-secret authentication) and an asymmetric signature scheme
//! (public verifiability). A signer or verifier is built from the raw bytes
//! of a key source; it consumes the fully read input and produces or checks
//! raw signature bytes. The orchestration functions select the family by
//! selector, apply the key, and move signatures through the URL-safe,
//! padding-free text codec.

use vstd::prelude::*;
use vstd::utf8::is_ascii_chars;
use vstd::utf8::is_ascii_chars_encode_utf8;

use crate::cli::text::TextSignFormat;
use crate::codec;
use crate::crypto;
use crate::error::Error;
use crate::process::gen_pass;
use crate::rng;
use crate::strutil;

verus! {

/// A character of the password classes is printable ASCII.
proof fn lemma_class_char_ascii(c: char)
    requires
        gen_pass::in_classes(true, true, true, true, c),
    ensures
        '\0' <= c <= '\u{7f}',
        33 <= c as u32 <= 126,
{
    assert(33 <= c as u32 <= 126);
}

/// Capability to produce a raw signature over a byte stream.
pub trait TextSign {
    /// The raw signature bytes this signer produces over `data`.
    spec fn sig_spec(&self, data: Seq<u8>) -> Seq<u8>;

    /// The length of every signature of this family: 32 bytes for the
    /// keyed hash, 64 for the signature scheme.
    spec fn sig_len(&self) -> nat;

    /// Whether this family's own check accepts the signature produced over
    /// `data` under the key matched to this signer: tag equality for the
    /// keyed hash, true by construction; acceptance by the public key the
    /// seed derives, for the signature scheme.
    spec fn sig_verifies(&self, data: Seq<u8>) -> bool;

    /// Sign the fully read data and return the raw signature bytes.
    fn sign(&self, data: &[u8]) -> (r: Result<Vec<u8>, Error>)
        ensures
            r matches Ok(v) && v@ == self.sig_spec(data@) && v@.len() == self.sig_len(),
            self.sig_verifies(data@),
    ;
}

/// Capability to check a raw signature over a byte stream. A mismatch is a
/// successful `false`, never an error.
pub trait TextVerify {
    /// The outcome of checking `sig` over `data`: a boolean where the check
    /// can run, an error where it cannot.
    spec fn verify_spec(&self, data: Seq<u8>, sig: Seq<u8>) -> Result<bool, Error>;

    /// Check raw signature bytes over the fully read data.
    fn verify(&self, data: &[u8], sig: &[u8]) -> (r: Result<bool, Error>)
        ensures
            r == self.verify_spec(data@, sig@),
    ;
}

/// Capability to build a key holder from the full raw contents of a key
/// source.
pub trait KeyLoader: Sized + View<V = Seq<u8>> {
    /// Whether loading from these key bytes succeeds.
    spec fn load_ok(key: Seq<u8>) -> bool;

    /// The key bytes the loaded holder keeps, where loading succeeds.
    spec fn loaded_view(key: Seq<u8>) -> Seq<u8>;

    /// The failure reported, where loading fails.
    spec fn load_err(key: Seq<u8>) -> Error;

    /// Build from the full raw contents of a key source.
    fn load(key: &[u8]) -> (r: Result<Self, Error>)
        ensures
            match r {
                Ok(k) => Self::load_ok(key@) && k@ == Self::loaded_view(key@),
                Err(e) => !Self::load_ok(key@) && e == Self::load_err(key@),
            },
    ;
}

/// Capability to generate fresh key material: one blob for a shared key, a
/// private and a public blob, in that order, for a key pair.
pub trait KeyGenerator {
    /// What well-formed generated key material looks like. Generation draws
    /// fresh randomness, so no more than this shape is promised.
    spec fn generated_spec(keys: Seq<Seq<u8>>) -> bool;

    /// Generate fresh key material.
    fn generate() -> (r: Result<Vec<Vec<u8>>, Error>)
        ensures
            r matches Ok(v) && Self::generated_spec(v.deep_view()),
    ;
}

/// The symmetric authenticator: a 32-byte shared key for the keyed hash.
#[derive(Debug)]
pub struct Blake3 {
    key: [u8; 32],
}

impl View for Blake3 {
    type V = Seq<u8>;

    closed spec fn view(&self) -> Seq<u8> {
        self.key@
    }
}

impl Blake3 {
    /// An authenticator over exactly this 32-byte key.
    pub fn new(key: [u8; 32]) -> (r: Self)
        ensures
            r@ == key@,
    {
        Blake3 { key }
    }

    /// An authenticator over the first 32 bytes of `key`. Shorter key
    /// material is rejected; longer material is truncated to its first 32
    /// bytes.
    pub fn try_new(key: &[u8]) -> (r: Result<Self, Error>)
        ensures
            key@.len() >= 32 ==> (r matches Ok(b) && b@ == key@.take(32)),
            key@.len() < 32 ==> r == Err::<Blake3, Error>(Error::InvalidKeyLength),
    {
        if key.len() < 32 {
            return Err(Error::InvalidKeyLength);
        }
        let head = vstd::slice::slice_subrange(key, 0, 32);
        Ok(Blake3::new(strutil::bytes32(head)))
    }
}

/// The asymmetric signer: a 32-byte private seed.
#[derive(Debug)]
pub struct Ed25519Signer {
    key: [u8; 32],
}

impl View for Ed25519Signer {
    type V = Seq<u8>;

    closed spec fn view(&self) -> Seq<u8> {
        self.key@
    }
}

impl Ed25519Signer {
    /// A signer over exactly this 32-byte seed; every seed is acceptable.
    pub fn new(key: [u8; 32]) -> (r: Self)
        ensures
            r@ == key@,
    {
        Ed25519Signer { key }
    }

    /// A signer over a seed of exactly 32 bytes; any other length is
    /// rejected.
    pub fn try_new(key: &[u8]) -> (r: Result<Self, Error>)
        ensures
            key@.len() == 32 ==> (r matches Ok(s) && s@ == key@),
            key@.len() != 32 ==> r == Err::<Ed25519Signer, Error>(Error::InvalidKeyLength),
    {
        if key.len() != 32 {
            return Err(Error::InvalidKeyLength);
        }
        Ok(Ed25519Signer::new(strutil::bytes32(key)))
    }
}

/// The asymmetric verifier: a 32-byte public key, kept only when it is a
/// valid point of the scheme's key space.
#[derive(Debug)]
pub struct Ed25519Verifier {
    key: [u8; 32],
}

impl View for Ed25519Verifier {
    type V = Seq<u8>;

    closed spec fn view(&self) -> Seq<u8> {
        self.key@
    }
}

impl Ed25519Verifier {
    /// The bytes held are always a valid public key.
    #[verifier::type_invariant]
    closed spec fn wf(self) -> bool {
        crypto::ed25519_pk_valid(self.key@)
    }

    /// A verifier over exactly this 32-byte public key, which must be a
    /// valid point; `try_new` checks that and is the way in from raw bytes.
    pub fn new(key: [u8; 32]) -> (r: Self)
        requires
            crypto::ed25519_pk_valid(key@),
        ensures
            r@ == key@,
    {
        Ed25519Verifier { key }
    }

    /// A verifier over a public key of exactly 32 bytes; any other length
    /// is rejected, as are 32 bytes that do not decode to a valid point.
    pub fn try_new(key: &[u8]) -> (r: Result<Self, Error>)
        ensures
            key@.len() == 32 && crypto::ed25519_pk_valid(key@) ==> (r matches Ok(v) && v@
                == key@),
            key@.len() != 32 ==> r == Err::<Ed25519Verifier, Error>(Error::InvalidKeyLength),
            key@.len() == 32 && !crypto::ed25519_pk_valid(key@) ==> r == Err::<
                Ed25519Verifier,
                Error,
            >(Error::MalformedKey),
    {
        if key.len() != 32 {
            return Err(Error::InvalidKeyLength);
        }
        if !crypto::ed25519_check_public(key) {
            return Err(Error::MalformedKey);
        }
        Ok(Ed25519Verifier::new(strutil::bytes32(key)))
    }
}

impl TextSign for Blake3 {
    open spec fn sig_spec(&self, data: Seq<u8>) -> Seq<u8> {
        crypto::blake3_keyed(self@, data)
    }

    open spec fn sig_len(&self) -> nat {
        32
    }

    open spec fn sig_verifies(&self, data: Seq<u8>) -> bool {
        true
    }

    fn sign(&self, data: &[u8]) -> (r: Result<Vec<u8>, Error>) {
        let ret = crypto::blake3_keyed_hash(self.key.as_slice(), data);
        Ok(ret)
    }
}

impl TextVerify for Blake3 {
    open spec fn verify_spec(&self, data: Seq<u8>, sig: Seq<u8>) -> Result<bool, Error> {
        Ok(sig == crypto::blake3_keyed(self@, data))
    }

    fn verify(&self, data: &[u8], sig: &[u8]) -> (r: Result<bool, Error>) {
        let computed_hash = crypto::blake3_keyed_hash(self.key.as_slice(), data);
        Ok(strutil::bytes_eq(computed_hash.as_slice(), sig))
    }
}

impl KeyLoader for Blake3 {
    open spec fn load_ok(key: Seq<u8>) -> bool {
        key.len() >= 32
    }

    open spec fn loaded_view(key: Seq<u8>) -> Seq<u8> {
        key.take(32)
    }

    open spec fn load_err(key: Seq<u8>) -> Error {
        Error::InvalidKeyLength
    }

    fn load(key: &[u8]) -> (r: Result<Self, Error>) {
        Blake3::try_new(key)
    }
}

impl TextSign for Ed25519Signer {
    open spec fn sig_spec(&self, data: Seq<u8>) -> Seq<u8> {
        crypto::ed25519_signature(self@, data)
    }

    open spec fn sig_len(&self) -> nat {
        64
    }

    open spec fn sig_verifies(&self, data: Seq<u8>) -> bool {
        crypto::ed25519_verifies(
            crypto::ed25519_public_key(self@),
            data,
            crypto::ed25519_signature(self@, data),
        )
    }

    fn sign(&self, data: &[u8]) -> (r: Result<Vec<u8>, Error>) {
        let sig = crypto::ed25519_sign(self.key.as_slice(), data);
        Ok(sig)
    }
}

impl KeyLoader for Ed25519Signer {
    open spec fn load_ok(key: Seq<u8>) -> bool {
        key.len() == 32
    }

    open spec fn loaded_view(key: Seq<u8>) -> Seq<u8> {
        key
    }

    open spec fn load_err(key: Seq<u8>) -> Error {
        Error::InvalidKeyLength
    }

    fn load(key: &[u8]) -> (r: Result<Self, Error>) {
        Ed25519Signer::try_new(key)
    }
}

impl TextVerify for Ed25519Verifier {
    open spec fn verify_spec(&self, data: Seq<u8>, sig: Seq<u8>) -> Result<bool, Error> {
        if sig.len() != 64 {
            Err(Error::InvalidKeyLength)
        } else {
            Ok(crypto::ed25519_verifies(self@, data, sig))
        }
    }

    fn verify(&self, data: &[u8], sig: &[u8]) -> (r: Result<bool, Error>) {
        if sig.len() != 64 {
            return Err(Error::InvalidKeyLength);
        }
        proof {
            use_type_invariant(self);
        }
        Ok(crypto::ed25519_verify(self.key.as_slice(), data, sig))
    }
}

impl KeyLoader for Ed25519Verifier {
    open spec fn load_ok(key: Seq<u8>) -> bool {
        key.len() == 32 && crypto::ed25519_pk_valid(key)
    }

    open spec fn loaded_view(key: Seq<u8>) -> Seq<u8> {
        key
    }

    open spec fn load_err(key: Seq<u8>) -> Error {
        if key.len() != 32 {
            Error::InvalidKeyLength
        } else {
            Error::MalformedKey
        }
    }

    fn load(key: &[u8]) -> (r: Result<Self, Error>) {
        Ed25519Verifier::try_new(key)
    }
}

impl KeyGenerator for Blake3 {
    open spec fn generated_spec(keys: Seq<Seq<u8>>) -> bool {
        &&& keys.len() == 1
        &&& keys[0].len() == 32
        &&& forall|i: int|
            0 <= i < keys[0].len() ==> gen_pass::in_classes_byte(
                true,
                true,
                true,
                true,
                #[trigger] keys[0][i],
            )
    }

    /// One 32-byte shared key, drawn through the password generator at full
    /// character diversity and reinterpreted as raw bytes.
    fn generate() -> (r: Result<Vec<Vec<u8>>, Error>) {
        let password = match gen_pass::process_genpass(32, true, true, true, true) {
            Ok(p) => p,
            Err(e) => {
                proof {
                    assert(false);
                }
                return Err(e);
            },
        };
        proof {
            assert forall|i: int| 0 <= i < password@.len() implies '\0' <= #[trigger] password@[i]
                <= '\u{7f}' by {
                assert(gen_pass::in_classes(true, true, true, true, password@[i]));
                lemma_class_char_ascii(password@[i]);
            }
            assert(is_ascii_chars(password@));
            is_ascii_chars_encode_utf8(password@);
        }
        let key = strutil::string_into_bytes(password);
        proof {
            assert forall|i: int| 0 <= i < key@.len() implies gen_pass::in_classes_byte(
                true,
                true,
                true,
                true,
                #[trigger] key@[i],
            ) by {
                assert(key@[i] == password@[i] as u8);
                assert(gen_pass::in_classes(true, true, true, true, password@[i]));
                lemma_class_char_ascii(password@[i]);
            }
        }
        let keys = vec![key];
        proof {
            assert(keys.deep_view() =~~= seq![keys@[0]@]);
        }
        Ok(keys)
    }
}

impl KeyGenerator for Ed25519Signer {
    open spec fn generated_spec(keys: Seq<Seq<u8>>) -> bool {
        &&& keys.len() == 2
        &&& keys[0].len() == 32
        &&& keys[1] == crypto::ed25519_public_key(keys[0])
        &&& crypto::ed25519_pk_valid(keys[1])
    }

    /// A fresh key pair: a random 32-byte private seed and the 32-byte
    /// public key it derives, in that order.
    fn generate() -> (r: Result<Vec<Vec<u8>>, Error>) {
        let seed = rng::random_bytes_32();
        let pk = crypto::ed25519_derive_public(seed.as_slice());
        let sk = vstd::slice::slice_to_vec(seed.as_slice());
        let keys = vec![sk, pk];
        proof {
            assert(keys.deep_view() =~~= seq![keys@[0]@, keys@[1]@]);
        }
        Ok(keys)
    }
}

/// The outcome of a signing operation: the signature text, or the failure.
/// The symmetric family takes the first 32 bytes of longer key material;
/// the asymmetric family demands exactly a 32-byte seed. The raw signature
/// travels as URL-safe, padding-free base64 text.
pub open spec fn sign_outcome(data: Seq<u8>, key: Seq<u8>, format: TextSignFormat) -> Result<
    Seq<char>,
    Error,
> {
    match format {
        TextSignFormat::Blake3 => if key.len() >= 32 {
            Ok(codec::b64_encode_spec(true, false, crypto::blake3_keyed(key.take(32), data)))
        } else {
            Err(Error::InvalidKeyLength)
        },
        TextSignFormat::Ed25519 => if key.len() == 32 {
            Ok(codec::b64_encode_spec(true, false, crypto::ed25519_signature(key, data)))
        } else {
            Err(Error::InvalidKeyLength)
        },
    }
}

/// The outcome of a verification: signature text that is not URL-safe
/// padding-free base64 is rejected first; then the key is checked as in
/// signing; then the family's check runs. A cryptographic mismatch is a
/// successful `false`.
pub open spec fn verify_outcome(
    data: Seq<u8>,
    key: Seq<u8>,
    format: TextSignFormat,
    sig: Seq<char>,
) -> Result<bool, Error> {
    match codec::b64_decode_spec(true, false, sig) {
        Option::Some(raw) => match format {
            TextSignFormat::Blake3 => if key.len() >= 32 {
                Ok(raw == crypto::blake3_keyed(key.take(32), data))
            } else {
                Err(Error::InvalidKeyLength)
            },
            TextSignFormat::Ed25519 => if key.len() != 32 {
                Err(Error::InvalidKeyLength)
            } else if !crypto::ed25519_pk_valid(key) {
                Err(Error::MalformedKey)
            } else if raw.len() != 64 {
                Err(Error::InvalidKeyLength)
            } else {
                Ok(crypto::ed25519_verifies(key, data, raw))
            },
        },
        Option::None => Err(Error::InvalidEncoding),
    }
}

/// Sign fully read input data with fully read key material in the selected
/// family, and hand back the signature as URL-safe, padding-free text. For
/// the asymmetric family the signature produced is one that the public key
/// derived from the seed accepts.
pub fn process_text_sign(data: &[u8], key: &[u8], format: TextSignFormat) -> (r: Result<
    String,
    Error,
>)
    ensures
        match r {
            Ok(s) => sign_outcome(data@, key@, format) == Ok::<Seq<char>, Error>(s@),
            Err(e) => sign_outcome(data@, key@, format) == Err::<Seq<char>, Error>(e),
        },
        r is Ok && format is Ed25519 ==> crypto::ed25519_verifies(
            crypto::ed25519_public_key(key@),
            data@,
            crypto::ed25519_signature(key@, data@),
        ),
{
    let signed: Vec<u8> = match format {
        TextSignFormat::Blake3 => {
            let signer = match Blake3::load(key) {
                Ok(s) => s,
                Err(e) => return Err(e),
            };
            match signer.sign(data) {
                Ok(v) => v,
                Err(e) => return Err(e),
            }
        },
        TextSignFormat::Ed25519 => {
            let signer = match Ed25519Signer::load(key) {
                Ok(s) => s,
                Err(e) => return Err(e),
            };
            match signer.sign(data) {
                Ok(v) => v,
                Err(e) => return Err(e),
            }
        },
    };
    Ok(codec::b64_encode(true, false, signed.as_slice()))
}

/// Check an encoded signature over fully read input data with fully read
/// key material in the selected family.
pub fn process_text_verify(data: &[u8], key: &[u8], format: TextSignFormat, sig: &str) -> (r:
    Result<bool, Error>)
    ensures
        r == verify_outcome(data@, key@, format, sig@),
{
    let sig_chars = strutil::str_chars(sig);
    let raw = match codec::b64_decode_chars(true, false, sig_chars.as_slice()) {
        Ok(v) => v,
        Err(e) => return Err(e),
    };
    match format {
        TextSignFormat::Blake3 => {
            let verifier = match Blake3::load(key) {
                Ok(v) => v,
                Err(e) => return Err(e),
            };
            verifier.verify(data, raw.as_slice())
        },
        TextSignFormat::Ed25519 => {
            let verifier = match Ed25519Verifier::load(key) {
                Ok(v) => v,
                Err(e) => return Err(e),
            };
            verifier.verify(data, raw.as_slice())
        },
    }
}

/// Generate key material for the selected family: one 32-byte shared key
/// for the symmetric family; a 32-byte private seed and the 32-byte public
/// key it derives, in that order, for the asymmetric one.
pub fn process_text_generate(format: TextSignFormat) -> (r: Result<Vec<Vec<u8>>, Error>)
    ensures
        match format {
            TextSignFormat::Blake3 => r matches Ok(v) && <Blake3 as KeyGenerator>::generated_spec(
                v.deep_view(),
            ),
            TextSignFormat::Ed25519 => r matches Ok(v)
                && <Ed25519Signer as KeyGenerator>::generated_spec(v.deep_view()),
        },
{
    match format {
        TextSignFormat::Blake3 => Blake3::generate(),
        TextSignFormat::Ed25519 => Ed25519Signer::generate(),
    }
}

/// Verifying a fresh symmetric signature succeeds: for every data stream
/// and every shared key of at least 32 bytes, the text that signing
/// produces passes verification under the same key.
pub proof fn lemma_mac_sign_verify(data: Seq<u8>, key: Seq<u8>)
    requires
        key.len() >= 32,
    ensures
        sign_outcome(data, key, TextSignFormat::Blake3) matches Ok(s) && verify_outcome(
            data,
            key,
            TextSignFormat::Blake3,
            s,
        ) == Ok::<bool, Error>(true),
{
    codec::lemma_b64_round_trip(true, false, crypto::blake3_keyed(key.take(32), data));
}

/// The engine adds no failure of its own to the asymmetric round trip:
/// given the scheme's promise that a signature fresh from a 32-byte seed is
/// accepted by the derived public key — which is what the signing primitive
/// states — the text that signing produces passes verification under that
/// public key.
pub proof fn lemma_asym_sign_verify(data: Seq<u8>, seed: Seq<u8>)
    requires
        seed.len() == 32,
        crypto::ed25519_public_key(seed).len() == 32,
        crypto::ed25519_pk_valid(crypto::ed25519_public_key(seed)),
        crypto::ed25519_signature(seed, data).len() == 64,
        crypto::ed25519_verifies(
            crypto::ed25519_public_key(seed),
            data,
            crypto::ed25519_signature(seed, data),
        ),
    ensures
        sign_outcome(data, seed, TextSignFormat::Ed25519) matches Ok(s) && verify_outcome(
            data,
            crypto::ed25519_public_key(seed),
            TextSignFormat::Ed25519,
            s,
        ) == Ok::<bool, Error>(true),
{
    codec::lemma_b64_round_trip(true, false, crypto::ed25519_signature(seed, data));
}

/// Any signature text whose bytes differ from the keyed hash of the data is
/// rejected with a successful `false`: tampering with data or signature can
/// at best change bytes, never produce an error out of a well-formed text.
pub proof fn lemma_mac_rejects_mismatch(data: Seq<u8>, key: Seq<u8>, sig: Seq<char>)
    requires
        key.len() >= 32,
        codec::b64_decode_spec(true, false, sig) matches Some(raw) && raw != crypto::blake3_keyed(
            key.take(32),
            data,
        ),
    ensures
        verify_outcome(data, key, TextSignFormat::Blake3, sig) == Ok::<bool, Error>(false),
{
}

} // verus!
