//! Base64 transcoding of whole inputs, in the variant the caller selects.

use vstd::prelude::*;
use vstd::utf8::decode_utf8;
use vstd::utf8::valid_utf8;

use crate::cli::base64::Base64Format;
use crate::codec;
use crate::error::Error;
use crate::strutil;

verus! {

/// Whether `c` is whitespace, as dropped from encoded input before
/// decoding: the Unicode white-space code points.
pub open spec fn is_space_char(c: char) -> bool {
    let u = c as u32;
    (9 <= u <= 13) || u == 32 || u == 0x85 || u == 0xa0 || u == 0x1680 || (0x2000 <= u <= 0x200a)
        || u == 0x2028 || u == 0x2029 || u == 0x202f || u == 0x205f || u == 0x3000
}

/// Whether `c` is whitespace.
pub fn is_space(c: char) -> (r: bool)
    ensures
        r == is_space_char(c),
{
    let u = c as u32;
    (9 <= u && u <= 13) || u == 32 || u == 0x85 || u == 0xa0 || u == 0x1680 || (0x2000 <= u && u
        <= 0x200a) || u == 0x2028 || u == 0x2029 || u == 0x202f || u == 0x205f || u == 0x3000
}

/// The base64 text of `data` in the chosen variant.
pub fn process_encode(data: &[u8], format: Base64Format) -> (r: String)
    ensures
        r@ == codec::b64_encode_spec(format.url(), format.pad(), data@),
{
    match format {
        Base64Format::Standard => codec::b64_encode(false, true, data),
        Base64Format::UrlSafe => codec::b64_encode(true, false, data),
    }
}

/// The outcome of decoding base64 input: whitespace is dropped, what
/// remains must be an accepted encoding in the chosen variant, and the
/// decoded bytes must spell valid text.
pub open spec fn decode_outcome(data: Seq<char>, format: Base64Format) -> Result<Seq<char>, Error> {
    let kept = data.filter(|c: char| !is_space_char(c));
    match codec::b64_decode_spec(format.url(), format.pad(), kept) {
        Option::Some(bytes) => if valid_utf8(bytes) {
            Ok(decode_utf8(bytes))
        } else {
            Err(Error::InvalidEncoding)
        },
        Option::None => Err(Error::InvalidEncoding),
    }
}

/// The text that base64 input spells in the chosen variant, whitespace
/// ignored; `Error::InvalidEncoding` where the input is not an accepted
/// encoding or its bytes are not valid text.
pub fn process_decode(data: &str, format: Base64Format) -> (r: Result<String, Error>)
    ensures
        match r {
            Ok(s) => decode_outcome(data@, format) == Ok::<Seq<char>, Error>(s@),
            Err(e) => decode_outcome(data@, format) == Err::<Seq<char>, Error>(e),
        },
{
    let n = data.unicode_len();
    let mut kept: Vec<char> = Vec::new();
    let mut i: usize = 0;
    proof {
        reveal(Seq::filter);
        assert(data@.take(0) =~= Seq::<char>::empty());
    }
    while i < n
        invariant
            n == data@.len(),
            i <= n,
            kept@ == data@.take(i as int).filter(|c: char| !is_space_char(c)),
        decreases n - i,
    {
        let c = data.get_char(i);
        if !is_space(c) {
            kept.push(c);
        }
        proof {
            reveal(Seq::filter);
            assert(data@.take(i + 1).drop_last() =~= data@.take(i as int));
            assert(data@.take(i + 1).last() == c);
        }
        i = i + 1;
    }
    proof {
        assert(data@.take(n as int) =~= data@);
    }
    let decoded = match format {
        Base64Format::Standard => codec::b64_decode_chars(false, true, kept.as_slice()),
        Base64Format::UrlSafe => codec::b64_decode_chars(true, false, kept.as_slice()),
    };
    match decoded {
        Ok(bytes) => strutil::utf8_text(bytes),
        Err(e) => Err(e),
    }
}

} // verus!
