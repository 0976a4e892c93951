//! Signature transport codec: base64 text encoding of raw bytes.
//!
//! Two variants are offered, selected by the callers: the standard alphabet
//! with `=` padding, and the URL-safe alphabet with no padding. The URL-safe,
//! padding-free form is the one used for signatures, so that an encoded
//! signature is safe inside command lines and single-line text output.
//! Encoding and decoding are verified against one spec, and decoding an
//! encoded sequence is proved to give the original bytes back.

use vstd::prelude::*;

use crate::error::Error;

verus! {

/// The value of the `i`-th character of a base64 alphabet, as a byte in
/// `0..64`. The two alphabets agree on the first 62 characters and differ in
/// the last two: `+` and `/` for the standard form, `-` and `_` for the
/// URL-safe form.
pub open spec fn b64_char(url: bool, v: u8) -> char
    recommends
        v < 64,
{
    if v < 26 {
        ((v + 65) as char)  // 'A'..='Z'
    } else if v < 52 {
        ((v + 71) as char)  // 'a'..='z'
    } else if v < 62 {
        ((v - 4) as char)  // '0'..='9'
    } else if v == 62 {
        if url { '-' } else { '+' }
    } else {
        if url { '_' } else { '/' }
    }
}

/// The 6-bit value a character stands for in a base64 alphabet, or `None` for
/// a character outside the alphabet. The padding character `=` is outside
/// both alphabets.
pub open spec fn b64_value(url: bool, c: char) -> Option<u8> {
    let u = c as u32;
    if 65 <= u <= 90 {  // 'A'..='Z'
        Some((u - 65) as u8)
    } else if 97 <= u <= 122 {  // 'a'..='z'
        Some((u - 71) as u8)
    } else if 48 <= u <= 57 {  // '0'..='9'
        Some((u + 4) as u8)
    } else if c == (if url { '-' } else { '+' }) {
        Some(62)
    } else if c == (if url { '_' } else { '/' }) {
        Some(63)
    } else {
        None
    }
}

/// Each alphabet character maps back to the value it encodes: the alphabet
/// map is injective.
pub proof fn lemma_b64_char_value(url: bool, v: u8)
    requires
        v < 64,
    ensures
        b64_value(url, b64_char(url, v)) == Some(v),
{
    assert('-' as u32 == 45 && '+' as u32 == 43 && '_' as u32 == 95 && '/' as u32 == 47);
}

/// The base64 text for a byte sequence: each group of three bytes becomes
/// four alphabet characters; a final group of one or two bytes becomes two or
/// three characters, followed by enough `=` characters to fill the block when
/// padding is on and by nothing when it is off.
pub open spec fn b64_encode_spec(url: bool, pad: bool, s: Seq<u8>) -> Seq<char>
    decreases s.len(),
{
    if s.len() == 0 {
        Seq::empty()
    } else if s.len() == 1 {
        let b0 = s[0];
        seq![b64_char(url, b0 >> 2), b64_char(url, (b0 & 3) << 4)] + if pad {
            seq!['=', '=']
        } else {
            Seq::empty()
        }
    } else if s.len() == 2 {
        let b0 = s[0];
        let b1 = s[1];
        seq![
            b64_char(url, b0 >> 2),
            b64_char(url, (b0 & 3) << 4 | b1 >> 4),
            b64_char(url, (b1 & 15) << 2),
        ] + if pad {
            seq!['=']
        } else {
            Seq::empty()
        }
    } else {
        let b0 = s[0];
        let b1 = s[1];
        let b2 = s[2];
        seq![
            b64_char(url, b0 >> 2),
            b64_char(url, (b0 & 3) << 4 | b1 >> 4),
            b64_char(url, (b1 & 15) << 2 | b2 >> 6),
            b64_char(url, b2 & 63),
        ] + b64_encode_spec(url, pad, s.skip(3))
    }
}

/// The bytes a final four-character block stands for in padded form: no `=`
/// means three bytes, a single trailing `=` two, a double trailing `=` one.
/// A block whose unused low bits are not zero is rejected, so each byte
/// sequence has exactly one accepted encoding.
pub open spec fn b64_decode_tail_pad(url: bool, t: Seq<char>) -> Option<Seq<u8>>
    recommends
        t.len() == 4,
{
    if t[3] == '=' {
        if t[2] == '=' {
            match (b64_value(url, t[0]), b64_value(url, t[1])) {
                (Some(v0), Some(v1)) => if v1 & 15 == 0 {
                    Some(seq![v0 << 2 | v1 >> 4])
                } else {
                    None
                },
                _ => None,
            }
        } else {
            match (b64_value(url, t[0]), b64_value(url, t[1]), b64_value(url, t[2])) {
                (Some(v0), Some(v1), Some(v2)) => if v2 & 3 == 0 {
                    Some(seq![v0 << 2 | v1 >> 4, (v1 & 15) << 4 | v2 >> 2])
                } else {
                    None
                },
                _ => None,
            }
        }
    } else {
        match (b64_value(url, t[0]), b64_value(url, t[1]), b64_value(url, t[2]), b64_value(
            url,
            t[3],
        )) {
            (Some(v0), Some(v1), Some(v2), Some(v3)) => Some(
                seq![v0 << 2 | v1 >> 4, (v1 & 15) << 4 | v2 >> 2, (v2 & 3) << 6 | v3],
            ),
            _ => None,
        }
    }
}

/// The bytes a base64 text stands for, or `None` where the text is not an
/// accepted encoding. With padding on, the length must be a multiple of four
/// and `=` may appear only at the end of the last block; with padding off,
/// `=` is never accepted and a last block of two or three characters stands
/// for one or two bytes. Either way, unused low bits must be zero.
pub open spec fn b64_decode_spec(url: bool, pad: bool, t: Seq<char>) -> Option<Seq<u8>>
    decreases t.len(),
{
    if t.len() == 0 {
        Some(Seq::empty())
    } else if pad && t.len() < 4 {
        None
    } else if pad && t.len() == 4 {
        b64_decode_tail_pad(url, t)
    } else if !pad && t.len() == 1 {
        None
    } else if !pad && t.len() == 2 {
        match (b64_value(url, t[0]), b64_value(url, t[1])) {
            (Some(v0), Some(v1)) => if v1 & 15 == 0 {
                Some(seq![v0 << 2 | v1 >> 4])
            } else {
                None
            },
            _ => None,
        }
    } else if !pad && t.len() == 3 {
        match (b64_value(url, t[0]), b64_value(url, t[1]), b64_value(url, t[2])) {
            (Some(v0), Some(v1), Some(v2)) => if v2 & 3 == 0 {
                Some(seq![v0 << 2 | v1 >> 4, (v1 & 15) << 4 | v2 >> 2])
            } else {
                None
            },
            _ => None,
        }
    } else {
        match (b64_value(url, t[0]), b64_value(url, t[1]), b64_value(url, t[2]), b64_value(
            url,
            t[3],
        )) {
            (Some(v0), Some(v1), Some(v2), Some(v3)) => match b64_decode_spec(
                url,
                pad,
                t.skip(4),
            ) {
                Some(rest) => Some(
                    seq![v0 << 2 | v1 >> 4, (v1 & 15) << 4 | v2 >> 2, (v2 & 3) << 6 | v3] + rest,
                ),
                None => None,
            },
            _ => None,
        }
    }
}

proof fn lemma_bits_full(b0: u8, b1: u8, b2: u8)
    by (bit_vector)
    ensures
        b0 >> 2 < 64,
        ((b0 & 3) << 4 | b1 >> 4) < 64,
        ((b1 & 15) << 2 | b2 >> 6) < 64,
        b2 & 63 < 64,
        (b0 >> 2) << 2 | ((b0 & 3) << 4 | b1 >> 4) >> 4 == b0,
        (((b0 & 3) << 4 | b1 >> 4) & 15) << 4 | ((b1 & 15) << 2 | b2 >> 6) >> 2 == b1,
        (((b1 & 15) << 2 | b2 >> 6) & 3) << 6 | (b2 & 63) == b2,
{
}

proof fn lemma_bits_tail1(b0: u8)
    by (bit_vector)
    ensures
        b0 >> 2 < 64,
        (b0 & 3) << 4 < 64,
        ((b0 & 3) << 4) & 15 == 0,
        (b0 >> 2) << 2 | ((b0 & 3) << 4) >> 4 == b0,
{
}

proof fn lemma_bits_tail2(b0: u8, b1: u8)
    by (bit_vector)
    ensures
        b0 >> 2 < 64,
        ((b0 & 3) << 4 | b1 >> 4) < 64,
        (b1 & 15) << 2 < 64,
        ((b1 & 15) << 2) & 3 == 0,
        (b0 >> 2) << 2 | ((b0 & 3) << 4 | b1 >> 4) >> 4 == b0,
        (((b0 & 3) << 4 | b1 >> 4) & 15) << 4 | ((b1 & 15) << 2) >> 2 == b1,
{
}

/// A character of the alphabet is never the padding character.
proof fn lemma_b64_char_not_pad(url: bool, v: u8)
    requires
        v < 64,
    ensures
        b64_char(url, v) != '=',
{
    lemma_b64_char_value(url, v);
    assert('=' as u32 == 61);
    if b64_char(url, v) == '=' {
        assert(b64_value(url, '=') is None);
    }
}

proof fn lemma_b64_round_trip_1(url: bool, pad: bool, s: Seq<u8>)
    requires
        s.len() == 1,
    ensures
        b64_decode_spec(url, pad, b64_encode_spec(url, pad, s)) == Some(s),
{
    let b0 = s[0];
    lemma_bits_tail1(b0);
    lemma_b64_char_value(url, b0 >> 2);
    lemma_b64_char_value(url, (b0 & 3) << 4);
    lemma_b64_char_not_pad(url, (b0 & 3) << 4);
    assert(seq![b0 >> 2 << 2 | ((b0 & 3) << 4) >> 4] =~= s);
}

proof fn lemma_b64_round_trip_2(url: bool, pad: bool, s: Seq<u8>)
    requires
        s.len() == 2,
    ensures
        b64_decode_spec(url, pad, b64_encode_spec(url, pad, s)) == Some(s),
{
    let b0 = s[0];
    let b1 = s[1];
    lemma_bits_tail2(b0, b1);
    lemma_b64_char_value(url, b0 >> 2);
    lemma_b64_char_value(url, (b0 & 3) << 4 | b1 >> 4);
    lemma_b64_char_value(url, (b1 & 15) << 2);
    lemma_b64_char_not_pad(url, (b1 & 15) << 2);
    assert(seq![
        (b0 >> 2) << 2 | ((b0 & 3) << 4 | b1 >> 4) >> 4,
        (((b0 & 3) << 4 | b1 >> 4) & 15) << 4 | ((b1 & 15) << 2) >> 2,
    ] =~= s);
}

#[verifier::rlimit(60)]
proof fn lemma_b64_round_trip_block(url: bool, pad: bool, s: Seq<u8>)
    requires
        s.len() >= 3,
        b64_decode_spec(url, pad, b64_encode_spec(url, pad, s.skip(3))) == Some(s.skip(3)),
    ensures
        b64_decode_spec(url, pad, b64_encode_spec(url, pad, s)) == Some(s),
{
    let t = b64_encode_spec(url, pad, s);
    let b0 = s[0];
    let b1 = s[1];
    let b2 = s[2];
    let v0 = b0 >> 2;
    let v1 = (b0 & 3) << 4 | b1 >> 4;
    let v2 = (b1 & 15) << 2 | b2 >> 6;
    let v3 = b2 & 63;
    lemma_bits_full(b0, b1, b2);
    lemma_b64_char_value(url, v0);
    lemma_b64_char_value(url, v1);
    lemma_b64_char_value(url, v2);
    lemma_b64_char_value(url, v3);
    lemma_b64_char_not_pad(url, v3);
    let rest = b64_encode_spec(url, pad, s.skip(3));
    if s.len() == 3 {
        assert(s.skip(3) =~= Seq::<u8>::empty());
        assert(rest =~= Seq::<char>::empty());
        assert(t.len() == 4);
        assert(seq![v0 << 2 | v1 >> 4, (v1 & 15) << 4 | v2 >> 2, (v2 & 3) << 6 | v3] =~= s);
    } else {
        assert(rest.len() >= 2) by {
            if s.skip(3).len() == 1 {
            } else if s.skip(3).len() == 2 {
            }
        }
        assert(t.len() > 4);
        assert(t.skip(4) =~= rest);
        assert(b64_decode_spec(url, pad, t.skip(4)) == Some(s.skip(3)));
        assert(seq![v0 << 2 | v1 >> 4, (v1 & 15) << 4 | v2 >> 2, (v2 & 3) << 6 | v3] + s.skip(3)
            =~= s);
    }
}

/// Decoding inverts encoding: the base64 text of any byte sequence decodes
/// back to exactly that sequence, in either variant.
pub proof fn lemma_b64_round_trip(url: bool, pad: bool, s: Seq<u8>)
    ensures
        b64_decode_spec(url, pad, b64_encode_spec(url, pad, s)) == Some(s),
    decreases s.len(),
{
    if s.len() == 0 {
        assert(Seq::<u8>::empty() =~= s);
    } else if s.len() == 1 {
        lemma_b64_round_trip_1(url, pad, s);
    } else if s.len() == 2 {
        lemma_b64_round_trip_2(url, pad, s);
    } else {
        lemma_b64_round_trip(url, pad, s.skip(3));
        lemma_b64_round_trip_block(url, pad, s);
    }
}

/// Encoding is injective: distinct byte sequences never share a text.
pub proof fn lemma_b64_encode_injective(url: bool, pad: bool, a: Seq<u8>, b: Seq<u8>)
    requires
        b64_encode_spec(url, pad, a) == b64_encode_spec(url, pad, b),
    ensures
        a == b,
{
    lemma_b64_round_trip(url, pad, a);
    lemma_b64_round_trip(url, pad, b);
}

/// Encoded text never holds a character outside the chosen alphabet, except
/// the trailing padding; without padding, every character is an alphabet
/// character, so the text is free of whitespace and of `=`.
pub proof fn lemma_b64_encode_alphabet(url: bool, s: Seq<u8>)
    ensures
        forall|i: int|
            0 <= i < b64_encode_spec(url, false, s).len() ==> b64_value(
                url,
                #[trigger] b64_encode_spec(url, false, s)[i],
            ) is Some,
    decreases s.len(),
{
    let t = b64_encode_spec(url, false, s);
    if s.len() == 0 {
    } else if s.len() == 1 {
        lemma_bits_tail1(s[0]);
        lemma_b64_char_value(url, s[0] >> 2);
        lemma_b64_char_value(url, (s[0] & 3) << 4);
    } else if s.len() == 2 {
        lemma_bits_tail2(s[0], s[1]);
        lemma_b64_char_value(url, s[0] >> 2);
        lemma_b64_char_value(url, (s[0] & 3) << 4 | s[1] >> 4);
        lemma_b64_char_value(url, (s[1] & 15) << 2);
    } else {
        lemma_bits_full(s[0], s[1], s[2]);
        lemma_b64_char_value(url, s[0] >> 2);
        lemma_b64_char_value(url, (s[0] & 3) << 4 | s[1] >> 4);
        lemma_b64_char_value(url, (s[1] & 15) << 2 | s[2] >> 6);
        lemma_b64_char_value(url, s[2] & 63);
        lemma_b64_encode_alphabet(url, s.skip(3));
        assert forall|i: int| 0 <= i < t.len() implies b64_value(url, #[trigger] t[i]) is Some by {
            if i >= 4 {
                assert(t[i] == b64_encode_spec(url, false, s.skip(3))[i - 4]);
            }
        }
    }
}

/// The character at position `v` of the chosen alphabet.
pub fn b64_char_at(url: bool, v: u8) -> (c: char)
    requires
        v < 64,
    ensures
        c == b64_char(url, v),
{
    if v < 26 {
        (v + 65) as char
    } else if v < 52 {
        (v + 71) as char
    } else if v < 62 {
        (v - 4) as char
    } else if v == 62 {
        if url {
            '-'
        } else {
            '+'
        }
    } else {
        if url {
            '_'
        } else {
            '/'
        }
    }
}

/// The 6-bit value of an alphabet character, or `None` outside the alphabet.
pub fn b64_value_of(url: bool, c: char) -> (r: Option<u8>)
    ensures
        r == b64_value(url, c),
{
    let u = c as u32;
    if 65 <= u && u <= 90 {
        Some((u - 65) as u8)
    } else if 97 <= u && u <= 122 {
        Some((u - 71) as u8)
    } else if 48 <= u && u <= 57 {
        Some((u + 4) as u8)
    } else if c == (if url { '-' } else { '+' }) {
        Some(62)
    } else if c == (if url { '_' } else { '/' }) {
        Some(63)
    } else {
        None
    }
}

/// The base64 text of `data` in the chosen variant.
pub fn b64_encode(url: bool, pad: bool, data: &[u8]) -> (r: String)
    ensures
        r@ == b64_encode_spec(url, pad, data@),
{
    let n = data.len();
    let mut out = String::new();
    let mut i: usize = 0;
    proof {
        assert(data@.skip(0) =~= data@);
        assert(out@ + b64_encode_spec(url, pad, data@) =~= b64_encode_spec(url, pad, data@));
    }
    while n - i >= 3
        invariant
            n == data@.len(),
            i <= n,
            out@ + b64_encode_spec(url, pad, data@.skip(i as int)) == b64_encode_spec(
                url,
                pad,
                data@,
            ),
        decreases n - i,
    {
        let b0 = data[i];
        let b1 = data[i + 1];
        let b2 = data[i + 2];
        proof {
            lemma_bits_full(b0, b1, b2);
            assert(data@.skip(i as int)[0] == b0);
            assert(data@.skip(i as int)[1] == b1);
            assert(data@.skip(i as int)[2] == b2);
            assert(data@.skip(i as int).skip(3) =~= data@.skip(i + 3));
        }
        crate::strutil::push_char(&mut out, b64_char_at(url, b0 >> 2));
        crate::strutil::push_char(&mut out, b64_char_at(url, (b0 & 3) << 4 | b1 >> 4));
        crate::strutil::push_char(&mut out, b64_char_at(url, (b1 & 15) << 2 | b2 >> 6));
        crate::strutil::push_char(&mut out, b64_char_at(url, b2 & 63));
        proof {
            assert(out@ + b64_encode_spec(url, pad, data@.skip(i + 3)) =~= b64_encode_spec(
                url,
                pad,
                data@,
            ));
        }
        i = i + 3;
    }
    if n - i == 1 {
        let b0 = data[i];
        proof {
            lemma_bits_tail1(b0);
            assert(data@.skip(i as int) =~= seq![b0]);
        }
        crate::strutil::push_char(&mut out, b64_char_at(url, b0 >> 2));
        crate::strutil::push_char(&mut out, b64_char_at(url, (b0 & 3) << 4));
        if pad {
            crate::strutil::push_char(&mut out, '=');
            crate::strutil::push_char(&mut out, '=');
        }
    } else if n - i == 2 {
        let b0 = data[i];
        let b1 = data[i + 1];
        proof {
            lemma_bits_tail2(b0, b1);
            assert(data@.skip(i as int) =~= seq![b0, b1]);
        }
        crate::strutil::push_char(&mut out, b64_char_at(url, b0 >> 2));
        crate::strutil::push_char(&mut out, b64_char_at(url, (b0 & 3) << 4 | b1 >> 4));
        crate::strutil::push_char(&mut out, b64_char_at(url, (b1 & 15) << 2));
        if pad {
            crate::strutil::push_char(&mut out, '=');
        }
    } else {
        proof {
            assert(data@.skip(i as int) =~= Seq::<u8>::empty());
        }
    }
    proof {
        assert(out@ =~= b64_encode_spec(url, pad, data@));
    }
    out
}

/// The bytes a base64 text stands for, or `Error::InvalidEncoding` where the
/// text is not an accepted encoding of any byte sequence.
#[verifier::rlimit(60)]
pub fn b64_decode_chars(url: bool, pad: bool, t: &[char]) -> (r: Result<Vec<u8>, Error>)
    ensures
        match r {
            Ok(v) => b64_decode_spec(url, pad, t@) == Some(v@),
            Err(e) => b64_decode_spec(url, pad, t@) is None && e == Error::InvalidEncoding,
        },
{
    let n = t.len();
    let mut out: Vec<u8> = Vec::new();
    let mut i: usize = 0;
    proof {
        assert(t@.skip(0) =~= t@);
        if b64_decode_spec(url, pad, t@) is Some {
            assert(out@ + b64_decode_spec(url, pad, t@)->0 =~= b64_decode_spec(url, pad, t@)->0);
        }
    }
    let lim: usize = if pad {
        4
    } else {
        3
    };
    while n - i > lim
        invariant
            n == t@.len(),
            i <= n,
            lim == if pad {
                4int
            } else {
                3int
            },
            b64_decode_spec(url, pad, t@) == (match b64_decode_spec(url, pad, t@.skip(i as int)) {
                Some(rest) => Some(out@ + rest),
                None => None,
            }),
        decreases n - i,
    {
        let v0 = b64_value_of(url, t[i]);
        let v1 = b64_value_of(url, t[i + 1]);
        let v2 = b64_value_of(url, t[i + 2]);
        let v3 = b64_value_of(url, t[i + 3]);
        proof {
            assert(t@.skip(i as int)[0] == t@[i as int]);
            assert(t@.skip(i as int)[1] == t@[i + 1]);
            assert(t@.skip(i as int)[2] == t@[i + 2]);
            assert(t@.skip(i as int)[3] == t@[i + 3]);
            assert(t@.skip(i as int).skip(4) =~= t@.skip(i + 4));
        }
        match (v0, v1, v2, v3) {
            (Some(v0), Some(v1), Some(v2), Some(v3)) => {
                out.push(v0 << 2 | v1 >> 4);
                out.push((v1 & 15) << 4 | v2 >> 2);
                out.push((v2 & 3) << 6 | v3);
                proof {
                    if b64_decode_spec(url, pad, t@.skip(i + 4)) is Some {
                        assert(out@ + b64_decode_spec(url, pad, t@.skip(i + 4))->0 =~= (out@.take(
                            out@.len() - 3,
                        ) + (seq![
                            v0 << 2 | v1 >> 4,
                            (v1 & 15) << 4 | v2 >> 2,
                            (v2 & 3) << 6 | v3,
                        ] + b64_decode_spec(url, pad, t@.skip(i + 4))->0)));
                        assert(out@.take(out@.len() - 3) + (seq![
                            v0 << 2 | v1 >> 4,
                            (v1 & 15) << 4 | v2 >> 2,
                            (v2 & 3) << 6 | v3,
                        ] + b64_decode_spec(url, pad, t@.skip(i + 4))->0) =~= out@.take(
                            out@.len() - 3,
                        ) + b64_decode_spec(url, pad, t@.skip(i as int))->0);
                    }
                }
                i = i + 4;
            },
            _ => {
                return Err(Error::InvalidEncoding);
            },
        }
    }
    let rem = n - i;
    if rem == 0 {
        proof {
            assert(t@.skip(i as int) =~= Seq::<char>::empty());
            assert(out@ + Seq::<u8>::empty() =~= out@);
        }
        return Ok(out);
    }
    proof {
        assert(t@.skip(i as int)[0] == t@[i as int]);
    }
    if pad {
        if rem != 4 {
            return Err(Error::InvalidEncoding);
        }
        proof {
            assert(t@.skip(i as int)[1] == t@[i + 1]);
            assert(t@.skip(i as int)[2] == t@[i + 2]);
            assert(t@.skip(i as int)[3] == t@[i + 3]);
        }
        if t[i + 3] == '=' {
            if t[i + 2] == '=' {
                match (b64_value_of(url, t[i]), b64_value_of(url, t[i + 1])) {
                    (Some(v0), Some(v1)) => {
                        if v1 & 15 != 0 {
                            return Err(Error::InvalidEncoding);
                        }
                        out.push(v0 << 2 | v1 >> 4);
                        proof {
                            assert(out@ =~= out@.take(out@.len() - 1) + seq![v0 << 2 | v1 >> 4]);
                        }
                        return Ok(out);
                    },
                    _ => {
                        return Err(Error::InvalidEncoding);
                    },
                }
            } else {
                match (b64_value_of(url, t[i]), b64_value_of(url, t[i + 1]), b64_value_of(
                    url,
                    t[i + 2],
                )) {
                    (Some(v0), Some(v1), Some(v2)) => {
                        if v2 & 3 != 0 {
                            return Err(Error::InvalidEncoding);
                        }
                        out.push(v0 << 2 | v1 >> 4);
                        out.push((v1 & 15) << 4 | v2 >> 2);
                        proof {
                            assert(out@ =~= out@.take(out@.len() - 2) + seq![
                                v0 << 2 | v1 >> 4,
                                (v1 & 15) << 4 | v2 >> 2,
                            ]);
                        }
                        return Ok(out);
                    },
                    _ => {
                        return Err(Error::InvalidEncoding);
                    },
                }
            }
        } else {
            match (b64_value_of(url, t[i]), b64_value_of(url, t[i + 1]), b64_value_of(
                url,
                t[i + 2],
            ), b64_value_of(url, t[i + 3])) {
                (Some(v0), Some(v1), Some(v2), Some(v3)) => {
                    out.push(v0 << 2 | v1 >> 4);
                    out.push((v1 & 15) << 4 | v2 >> 2);
                    out.push((v2 & 3) << 6 | v3);
                    proof {
                        assert(out@ =~= out@.take(out@.len() - 3) + seq![
                            v0 << 2 | v1 >> 4,
                            (v1 & 15) << 4 | v2 >> 2,
                            (v2 & 3) << 6 | v3,
                        ]);
                    }
                    return Ok(out);
                },
                _ => {
                    return Err(Error::InvalidEncoding);
                },
            }
        }
    } else {
        if rem == 1 {
            return Err(Error::InvalidEncoding);
        }
        proof {
            assert(t@.skip(i as int)[1] == t@[i + 1]);
        }
        if rem == 2 {
            match (b64_value_of(url, t[i]), b64_value_of(url, t[i + 1])) {
                (Some(v0), Some(v1)) => {
                    if v1 & 15 != 0 {
                        return Err(Error::InvalidEncoding);
                    }
                    out.push(v0 << 2 | v1 >> 4);
                    proof {
                        assert(out@ =~= out@.take(out@.len() - 1) + seq![v0 << 2 | v1 >> 4]);
                    }
                    return Ok(out);
                },
                _ => {
                    return Err(Error::InvalidEncoding);
                },
            }
        } else {
            proof {
                assert(t@.skip(i as int)[2] == t@[i + 2]);
            }
            match (b64_value_of(url, t[i]), b64_value_of(url, t[i + 1]), b64_value_of(
                url,
                t[i + 2],
            )) {
                (Some(v0), Some(v1), Some(v2)) => {
                    if v2 & 3 != 0 {
                        return Err(Error::InvalidEncoding);
                    }
                    out.push(v0 << 2 | v1 >> 4);
                    out.push((v1 & 15) << 4 | v2 >> 2);
                    proof {
                        assert(out@ =~= out@.take(out@.len() - 2) + seq![
                            v0 << 2 | v1 >> 4,
                            (v1 & 15) << 4 | v2 >> 2,
                        ]);
                    }
                    return Ok(out);
                },
                _ => {
                    return Err(Error::InvalidEncoding);
                },
            }
        }
    }
}

} // verus!
