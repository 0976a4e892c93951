//! Options and the algorithm selector for text signing and verification.

use vstd::prelude::*;

use crate::error::Error;

verus! {

/// The selector for a command that signs text data.
#[derive(Clone, Debug)]
pub struct TextSignOpts {
    /// Input source: a file name, or `-` for standard input.
    pub input: String,
    /// Key source. Input and key cannot both be standard input.
    pub key: String,
    /// Which algorithm family signs.
    pub format: TextSignFormat,
}

/// The selector for a command that verifies signed text data.
#[derive(Clone, Debug)]
pub struct TextVerifyOpts {
    /// Input source: a file name, or `-` for standard input.
    pub input: String,
    /// Key source.
    pub key: String,
    /// Which algorithm family verifies.
    pub format: TextSignFormat,
    /// The encoded signature text to check.
    pub sig: String,
}

/// The selector for a command that generates a key.
#[derive(Clone, Debug)]
pub struct TextGenOpts {
    /// Which algorithm family the key is for.
    pub format: TextSignFormat,
    /// Directory the generated key files are written to.
    pub output: String,
}

/// A command on signed text data.
#[derive(Clone, Debug)]
pub enum TextSubCommand {
    /// Sign text data with a private or shared key.
    Sign(TextSignOpts),
    /// Verify signed text data with a public key.
    Verify(TextVerifyOpts),
    /// Generate a key for text signing.
    Generate(TextGenOpts),
}

/// The two interchangeable algorithm families.
#[derive(Clone, Copy, Debug, PartialEq, Eq, Structural)]
pub enum TextSignFormat {
    /// Authentication only, by a keyed hash over a shared key.
    Blake3,
    /// Public verifiability, by an asymmetric signature scheme.
    Ed25519,
}

/// The code point of `c` with an ASCII capital letter folded to lower case.
pub open spec fn lower_u32(c: char) -> u32 {
    let u = c as u32;
    if 65 <= u <= 90 {
        (u + 32) as u32
    } else {
        u
    }
}

/// Whether `s`, ASCII-case-folded, spells exactly `t`.
pub open spec fn matches_lower(s: Seq<char>, t: Seq<char>) -> bool {
    s.len() == t.len() && forall|i: int| 0 <= i < s.len() ==> lower_u32(s[i]) == t[i] as u32
}

/// Whether `s`, ASCII-case-folded, spells exactly `t`.
pub fn eq_lower(s: &str, t: &str) -> (r: bool)
    ensures
        r == matches_lower(s@, t@),
{
    let n = s.unicode_len();
    if n != t.unicode_len() {
        return false;
    }
    let mut i: usize = 0;
    while i < n
        invariant
            n == s@.len() == t@.len(),
            i <= n,
            forall|j: int| 0 <= j < i ==> lower_u32(s@[j]) == t@[j] as u32,
        decreases n - i,
    {
        let a = s.get_char(i) as u32;
        let folded = if 65 <= a && a <= 90 {
            a + 32
        } else {
            a
        };
        if folded != t.get_char(i) as u32 {
            return false;
        }
        i = i + 1;
    }
    true
}

impl TextSignFormat {
    /// The format a selector value names, case-insensitively: `blake3` is the
    /// symmetric keyed hash, `ed25519` the asymmetric signature scheme, and
    /// any other value is unsupported.
    pub fn parse(s: &str) -> (r: Result<TextSignFormat, Error>)
        ensures
            r == if matches_lower(s@, "blake3"@) {
                Ok::<TextSignFormat, Error>(TextSignFormat::Blake3)
            } else if matches_lower(s@, "ed25519"@) {
                Ok::<TextSignFormat, Error>(TextSignFormat::Ed25519)
            } else {
                Err::<TextSignFormat, Error>(Error::UnsupportedAlgorithm)
            },
    {
        if eq_lower(s, "blake3") {
            Ok(TextSignFormat::Blake3)
        } else if eq_lower(s, "ed25519") {
            Ok(TextSignFormat::Ed25519)
        } else {
            Err(Error::UnsupportedAlgorithm)
        }
    }

    /// The selector value that names this format.
    pub fn as_str(&self) -> (r: &'static str)
        ensures
            self is Blake3 ==> r@ == "blake3"@,
            self is Ed25519 ==> r@ == "ed25519"@,
    {
        match self {
            TextSignFormat::Blake3 => "blake3",
            TextSignFormat::Ed25519 => "ed25519",
        }
    }
}

} // verus!
