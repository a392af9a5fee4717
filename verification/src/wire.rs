//! The pieces of the binary wire format that the seams read and write:
//! single-byte tags, booleans, short integers and length-prefixed UTF-8
//! strings.
//!
//! A short integer takes one, two or four bytes (little endian). The low
//! bits of the first byte say which: `0` is the one-byte form, `01` the
//! two-byte form and `011` the four-byte form; the first byte
//! `LONG_INT_TRAILER` announces an arbitrary-precision integer, which this
//! crate never reads (the readers report it as unreadable).

use vstd::prelude::*;
use vstd::string::StringSliceAdditionalSpecFns;
use vstd::utf8::{decode_utf8, encode_utf8, valid_utf8};

verus! {

pub const MIN_ONE_BYTE_INT: i64 = -10;
pub const MAX_ONE_BYTE_INT: i64 = 117;
pub const MIN_TWO_BYTES_INT: i64 = -100;
pub const MAX_TWO_BYTES_INT: i64 = 16283;
pub const MIN_FOUR_BYTES_INT: i64 = -10000;
pub const MAX_FOUR_BYTES_INT: i64 = 536860911;
pub const LONG_INT_TRAILER: u8 = 15;

/// Whether `v` has a short-integer encoding.
pub open spec fn is_short_int(v: int) -> bool {
    MIN_FOUR_BYTES_INT <= v <= MAX_FOUR_BYTES_INT
}

/// The canonical (shortest) encoding of a short integer.
pub open spec fn spec_int_bytes(v: int) -> Seq<u8> {
    if MIN_ONE_BYTE_INT <= v <= MAX_ONE_BYTE_INT {
        seq![((v - MIN_ONE_BYTE_INT) * 2) as u8]
    } else if MIN_TWO_BYTES_INT <= v <= MAX_TWO_BYTES_INT {
        let u = (v - MIN_TWO_BYTES_INT) * 4 + 1;
        seq![(u % 256) as u8, (u / 256) as u8]
    } else {
        let u = (v - MIN_FOUR_BYTES_INT) * 8 + 3;
        seq![
            (u % 256) as u8,
            ((u / 256) % 256) as u8,
            ((u / 65536) % 256) as u8,
            (u / 16777216) as u8,
        ]
    }
}

/// The number of bytes of the canonical encoding of a short integer.
pub fn int_len(v: i64) -> (r: u64)
    requires
        is_short_int(v as int),
    ensures
        r == spec_int_bytes(v as int).len(),
{
    if MIN_ONE_BYTE_INT <= v && v <= MAX_ONE_BYTE_INT {
        1
    } else if MIN_TWO_BYTES_INT <= v && v <= MAX_TWO_BYTES_INT {
        2
    } else {
        4
    }
}

/// Append the canonical encoding of the short integer `v` to `buf`.
pub fn write_int_bare(buf: &mut Vec<u8>, v: i64)
    requires
        is_short_int(v as int),
    ensures
        final(buf)@ == old(buf)@ + spec_int_bytes(v as int),
{
    if MIN_ONE_BYTE_INT <= v && v <= MAX_ONE_BYTE_INT {
        let b: u8 = ((v - MIN_ONE_BYTE_INT) * 2) as u8;
        buf.push(b);
    } else if MIN_TWO_BYTES_INT <= v && v <= MAX_TWO_BYTES_INT {
        let u: i64 = (v - MIN_TWO_BYTES_INT) * 4 + 1;
        buf.push((u % 256) as u8);
        buf.push((u / 256) as u8);
    } else {
        let u: i64 = (v - MIN_FOUR_BYTES_INT) * 8 + 3;
        buf.push((u % 256) as u8);
        buf.push(((u / 256) % 256) as u8);
        buf.push(((u / 65536) % 256) as u8);
        buf.push((u / 16777216) as u8);
    }
    assert(final(buf)@ =~= old(buf)@ + spec_int_bytes(v as int));
}


/// Decode a short integer at the start of `s`: the value and the number of
/// bytes it took. `None` when `s` is too short or does not start with a
/// short-integer form.
pub open spec fn spec_read_int(s: Seq<u8>) -> Option<(int, int)> {
    if s.len() == 0 {
        None
    } else {
        let b0 = s[0] as int;
        if b0 % 2 == 0 {
            Some((b0 / 2 + MIN_ONE_BYTE_INT, 1))
        } else if b0 % 4 == 1 {
            if s.len() < 2 {
                None
            } else {
                Some(((b0 + 256 * s[1]) / 4 + MIN_TWO_BYTES_INT, 2))
            }
        } else if b0 % 8 == 3 {
            if s.len() < 4 {
                None
            } else {
                Some(
                    ((b0 + 256 * s[1] + 65536 * s[2] + 16777216 * s[3]) / 8 + MIN_FOUR_BYTES_INT, 4),
                )
            }
        } else {
            None
        }
    }
}

/// Decoding the canonical encoding of a short integer gives the integer
/// back and consumes exactly its bytes, whatever follows them.
pub proof fn lemma_int_roundtrip(v: int, rest: Seq<u8>)
    requires
        is_short_int(v),
    ensures
        spec_read_int(spec_int_bytes(v) + rest) == Some((v, spec_int_bytes(v).len() as int)),
        1 <= spec_int_bytes(v).len() <= 4,
{
    let s = spec_int_bytes(v) + rest;
    if MIN_ONE_BYTE_INT <= v <= MAX_ONE_BYTE_INT {
        assert(s[0] as int == (v - MIN_ONE_BYTE_INT) * 2);
    } else if MIN_TWO_BYTES_INT <= v <= MAX_TWO_BYTES_INT {
        let u = (v - MIN_TWO_BYTES_INT) * 4 + 1;
        assert(s[0] as int == u % 256);
        assert(s[1] as int == u / 256);
        assert(u % 256 + 256 * (u / 256) == u);
        assert((u % 256) % 4 == 1);
    } else {
        let u = (v - MIN_FOUR_BYTES_INT) * 8 + 3;
        assert(0 <= u < 0x1_0000_0000);
        assert(s[0] as int == u % 256);
        assert(s[1] as int == (u / 256) % 256);
        assert(s[2] as int == (u / 65536) % 256);
        assert(s[3] as int == u / 16777216);
        assert(u % 256 + 256 * ((u / 256) % 256) + 65536 * ((u / 65536) % 256) + 16777216 * (u
            / 16777216) == u) by (nonlinear_arith)
            requires
                0 <= u,
        ;
        assert((u % 256) % 8 == 3);
    }
}


/// Read the short integer at `pos`; on success the value and the position
/// just after it.
pub fn read_int_at(data: &[u8], pos: usize) -> (r: Option<(i64, usize)>)
    requires
        pos <= data.len(),
    ensures
        match r {
            Some((v, next)) => pos < next <= data.len() && spec_read_int(
                data@.subrange(pos as int, data.len() as int),
            ) == Some((v as int, next - pos)),
            None => spec_read_int(data@.subrange(pos as int, data.len() as int)) is None,
        },
{
    let ghost s = data@.subrange(pos as int, data.len() as int);
    if pos >= data.len() {
        return None;
    }
    let b0: u8 = data[pos];
    assert(b0 == s[0]);
    if b0 % 2 == 0 {
        let v: i64 = (b0 / 2) as i64 + MIN_ONE_BYTE_INT;
        Some((v, pos + 1))
    } else if b0 % 4 == 1 {
        if data.len() - pos < 2 {
            return None;
        }
        let b1: u8 = data[pos + 1];
        assert(b1 == s[1]);
        let u: i64 = b0 as i64 + 256 * (b1 as i64);
        Some((u / 4 + MIN_TWO_BYTES_INT, pos + 2))
    } else if b0 % 8 == 3 {
        if data.len() - pos < 4 {
            return None;
        }
        let b1: u8 = data[pos + 1];
        let b2: u8 = data[pos + 2];
        let b3: u8 = data[pos + 3];
        assert(b1 == s[1] && b2 == s[2] && b3 == s[3]);
        let u: i64 = b0 as i64 + 256 * (b1 as i64) + 65536 * (b2 as i64) + 16777216 * (b3 as i64);
        Some((u / 8 + MIN_FOUR_BYTES_INT, pos + 4))
    } else {
        None
    }
}

/// Decode a boolean (one byte, `0` or `1`) at the start of `s`.
pub open spec fn spec_read_bool(s: Seq<u8>) -> Option<bool> {
    if s.len() == 0 {
        None
    } else if s[0] == 0 {
        Some(false)
    } else if s[0] == 1 {
        Some(true)
    } else {
        None
    }
}

/// The encoding of a boolean.
pub open spec fn spec_bool_bytes(b: bool) -> Seq<u8> {
    if b {
        seq![1u8]
    } else {
        seq![0u8]
    }
}

/// Read the boolean at `pos`.
pub fn read_bool_at(data: &[u8], pos: usize) -> (r: Option<bool>)
    requires
        pos <= data.len(),
    ensures
        r == spec_read_bool(data@.subrange(pos as int, data.len() as int)),
{
    if pos >= data.len() {
        None
    } else if data[pos] == 0 {
        Some(false)
    } else if data[pos] == 1 {
        Some(true)
    } else {
        None
    }
}

/// Decode a length-prefixed UTF-8 string at the start of `s`: its
/// characters and the number of bytes it took.
#[verifier::opaque]
pub open spec fn spec_read_str(s: Seq<u8>) -> Option<(Seq<char>, int)> {
    match spec_read_int(s) {
        Some((len, n)) => {
            if len < 0 || n + len > s.len() {
                None
            } else {
                let bytes = s.subrange(n, n + len);
                if valid_utf8(bytes) {
                    Some((decode_utf8(bytes), n + len))
                } else {
                    None
                }
            }
        },
        None => None,
    }
}

/// The encoding of a string: its UTF-8 length, then its UTF-8 bytes.
pub open spec fn spec_str_bytes(chars: Seq<char>) -> Seq<u8> {
    spec_int_bytes(encode_utf8(chars).len() as int) + encode_utf8(chars)
}

/// `std::str::from_utf8`, which accepts exactly the valid UTF-8 byte
/// sequences and then views the same bytes as a string slice.
#[verifier::external_body]
fn str_from_utf8(bytes: &[u8]) -> (r: Option<&str>)
    ensures
        r is Some <==> valid_utf8(bytes@),
        r matches Some(s) ==> s.spec_bytes() == bytes@,
{
    std::str::from_utf8(bytes).ok()
}

/// Read the length-prefixed string at `pos`; on success the string and the
/// position just after it.
pub fn read_str_at(data: &[u8], pos: usize) -> (r: Option<(String, usize)>)
    requires
        pos <= data.len(),
    ensures
        match r {
            Some((st, next)) => pos < next <= data.len() && spec_read_str(
                data@.subrange(pos as int, data.len() as int),
            ) == Some((st@, next - pos)),
            None => spec_read_str(data@.subrange(pos as int, data.len() as int)) is None,
        },
{
    reveal(spec_read_str);
    let ghost s = data@.subrange(pos as int, data.len() as int);
    let (len, start) = match read_int_at(data, pos) {
        Some(p) => p,
        None => return None,
    };
    if len < 0 || (len as u64) > ((data.len() - start) as u64) {
        return None;
    }
    let end: usize = start + (len as usize);
    let bytes = vstd::slice::slice_subrange(data, start, end);
    assert(bytes@ =~= s.subrange(start - pos, start - pos + len));
    match str_from_utf8(bytes) {
        Some(text) => {
            proof {
                vstd::utf8::encode_utf8_decode_utf8(text@);
            }
            Some((text.to_owned(), end))
        },
        None => None,
    }
}

/// Decoding the encoding of a string gives the string back and consumes
/// exactly its bytes, whatever follows them.
pub proof fn lemma_str_roundtrip(chars: Seq<char>, rest: Seq<u8>)
    requires
        is_short_int(encode_utf8(chars).len() as int),
    ensures
        spec_read_str(spec_str_bytes(chars) + rest) == Some(
            (chars, spec_str_bytes(chars).len() as int),
        ),
{
    reveal(spec_read_str);
    let enc = encode_utf8(chars);
    let len = enc.len() as int;
    let head = spec_int_bytes(len);
    let s = spec_str_bytes(chars) + rest;
    assert(s =~= head + (enc + rest));
    lemma_int_roundtrip(len, enc + rest);
    let k = head.len() as int;
    assert(s.subrange(k, k + len) =~= enc);
    vstd::utf8::encode_utf8_valid_utf8(chars);
    vstd::utf8::encode_utf8_decode_utf8(chars);
}

/// Decoding the encoding of a boolean gives it back.
pub proof fn lemma_bool_roundtrip(b: bool, rest: Seq<u8>)
    ensures
        spec_read_bool(spec_bool_bytes(b) + rest) == Some(b),
        spec_bool_bytes(b).len() == 1,
{
    assert((spec_bool_bytes(b) + rest)[0] == spec_bool_bytes(b)[0]);
}

} // verus!
