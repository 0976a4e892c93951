use vstd::prelude::*;

verus! {

/// The failures this engine reports. A cryptographic verification mismatch is
/// never an error: it is a successful boolean `false`.
#[derive(Clone, Copy, Debug, PartialEq, Eq, Structural)]
pub enum Error {
    /// A named file source does not exist or cannot be opened for reading.
    SourceUnavailable,
    /// Key material is shorter than required, or an asymmetric key or
    /// signature is not exactly 32 or 64 bytes respectively.
    InvalidKeyLength,
    /// Asymmetric key bytes do not decode to a valid point in the scheme's
    /// key space.
    MalformedKey,
    /// Text is not valid base64 in the expected alphabet, or decoded bytes
    /// are not valid text.
    InvalidEncoding,
    /// An algorithm selector value is not recognized.
    UnsupportedAlgorithm,
}

impl Error {
    /// A human-readable description of the failure.
    pub fn message(&self) -> (r: &'static str)
        ensures
            self is SourceUnavailable ==> r@ == "source not found or not readable"@,
            self is InvalidKeyLength ==> r@ == "invalid key length"@,
            self is MalformedKey ==> r@ == "malformed key"@,
            self is InvalidEncoding ==> r@ == "invalid encoding"@,
            self is UnsupportedAlgorithm ==> r@ == "unsupported format"@,
    {
        proof {
            reveal_strlit("source not found or not readable");
            reveal_strlit("invalid key length");
            reveal_strlit("malformed key");
            reveal_strlit("invalid encoding");
            reveal_strlit("unsupported format");
        }
        match self {
            Error::SourceUnavailable => "source not found or not readable",
            Error::InvalidKeyLength => "invalid key length",
            Error::MalformedKey => "malformed key",
            Error::InvalidEncoding => "invalid encoding",
            Error::UnsupportedAlgorithm => "unsupported format",
        }
    }
}

} // verus!
