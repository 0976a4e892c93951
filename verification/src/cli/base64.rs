//! Options and the variant selector for base64 encoding and decoding.

use vstd::prelude::*;

use crate::cli::text::matches_lower;
use crate::error::Error;

verus! {

/// A base64 command.
#[derive(Clone, Debug)]
pub enum Base64SubCommand {
    /// Encode a source to base64 text.
    Encode(Base64EncodeOpts),
    /// Decode base64 text from a source.
    Decode(Base64DecodeOpts),
}

/// The selector for an encode command.
#[derive(Clone, Debug)]
pub struct Base64EncodeOpts {
    /// Input source: a file name, or `-` for standard input.
    pub input: String,
    /// Which base64 variant encodes.
    pub format: Base64Format,
}

/// The selector for a decode command.
#[derive(Clone, Debug)]
pub struct Base64DecodeOpts {
    /// Input source: a file name, or `-` for standard input.
    pub input: String,
    /// Which base64 variant decodes.
    pub format: Base64Format,
}

/// The two base64 variants offered: the standard alphabet with padding, and
/// the URL-safe alphabet without padding.
#[derive(Clone, Copy, Debug, PartialEq, Eq, Structural)]
pub enum Base64Format {
    /// Standard alphabet, `=`-padded.
    Standard,
    /// URL-safe alphabet, no padding.
    UrlSafe,
}

impl Base64Format {
    /// Whether this variant uses the URL-safe alphabet.
    pub open spec fn url(self) -> bool {
        self is UrlSafe
    }

    /// Whether this variant pads the last block with `=`.
    pub open spec fn pad(self) -> bool {
        self is Standard
    }

    /// The variant a selector value names, case-insensitively; any value
    /// other than `standard` and `urlsafe` is unsupported.
    pub fn parse(s: &str) -> (r: Result<Base64Format, Error>)
        ensures
            r == if matches_lower(s@, "standard"@) {
                Ok::<Base64Format, Error>(Base64Format::Standard)
            } else if matches_lower(s@, "urlsafe"@) {
                Ok::<Base64Format, Error>(Base64Format::UrlSafe)
            } else {
                Err::<Base64Format, Error>(Error::UnsupportedAlgorithm)
            },
    {
        if crate::cli::text::eq_lower(s, "standard") {
            Ok(Base64Format::Standard)
        } else if crate::cli::text::eq_lower(s, "urlsafe") {
            Ok(Base64Format::UrlSafe)
        } else {
            Err(Error::UnsupportedAlgorithm)
        }
    }

    /// The selector value that names this variant.
    pub fn as_str(&self) -> (r: &'static str)
        ensures
            self is Standard ==> r@ == "standard"@,
            self is UrlSafe ==> r@ == "urlsafe"@,
    {
        match self {
            Base64Format::Standard => "standard",
            Base64Format::UrlSafe => "urlsafe",
        }
    }
}

} // verus!
