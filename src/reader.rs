use vstd::prelude::*;
use vstd::slice::{slice_subrange, slice_to_vec};
use byteorder::{ByteOrder, LittleEndian};
use crate::format::PolError;

verus! {

/// The little-endian 16-bit integer stored at `s[p..p + 2]`.
pub open spec fn le16(s: Seq<u8>, p: int) -> int {
    s[p] as int + s[p + 1] as int * 0x100
}

/// The little-endian 32-bit integer stored at `s[p..p + 4]`.
pub open spec fn le32(s: Seq<u8>, p: int) -> int {
    s[p] as int + s[p + 1] as int * 0x100 + s[p + 2] as int * 0x1_0000 + s[p + 3] as int
        * 0x100_0000
}

/// What the bytes `b` decode to as UTF-8 text, or `None` when they are not
/// valid UTF-8.
pub uninterp spec fn utf8_text(b: Seq<u8>) -> Option<Seq<char>>;

/// Index of the first zero byte of `s` at or after `i`, or `s.len()`.
pub open spec fn first_nul_from(s: Seq<u8>, i: int) -> int
    decreases s.len() - i,
{
    if i >= s.len() {
        s.len() as int
    } else if s[i] == 0 {
        i
    } else {
        first_nul_from(s, i + 1)
    }
}

/// The bytes of a null-padded field up to (not including) its first zero.
pub open spec fn before_nul(s: Seq<u8>) -> Seq<u8> {
    s.take(first_nul_from(s, 0))
}

/// Relies on byteorder's `LittleEndian::read_u16`: the first two bytes as a
/// little-endian integer (it panics on fewer than two bytes).
#[verifier::external_body]
fn le_u16(b: &[u8]) -> (r: u16)
    requires
        b@.len() >= 2,
    ensures
        r as int == le16(b@, 0),
{
    LittleEndian::read_u16(b)
}

/// Relies on byteorder's `LittleEndian::read_u32`: the first four bytes as a
/// little-endian integer (it panics on fewer than four bytes).
#[verifier::external_body]
fn le_u32(b: &[u8]) -> (r: u32)
    requires
        b@.len() >= 4,
    ensures
        r as int == le32(b@, 0),
{
    LittleEndian::read_u32(b)
}

/// Relies on `String::from_utf8`: it succeeds exactly on valid UTF-8 and then
/// holds the decoded text.
#[verifier::external_body]
fn decode_utf8(b: Vec<u8>) -> (r: Option<String>)
    ensures
        match r {
            Some(s) => utf8_text(b@) == Some(s@),
            None => utf8_text(b@) is None,
        },
{
    String::from_utf8(b).ok()
}

/// Reads a little-endian `u16` at `*pos`; on failure `*pos` is unchanged.
pub fn read_u16(d: &[u8], pos: &mut usize) -> (r: Result<u16, PolError>)
    requires
        *old(pos) <= d@.len(),
    ensures
        match r {
            Ok(v) => *old(pos) + 2 <= d@.len() && v as int == le16(d@, *old(pos) as int)
                && *final(pos) == *old(pos) + 2,
            Err(e) => *old(pos) + 2 > d@.len() && e == PolError::Truncated && *final(pos)
                == *old(pos),
        },
{
    if d.len() - *pos < 2 {
        return Err(PolError::Truncated);
    }
    let s = slice_subrange(d, *pos, *pos + 2);
    let v = le_u16(s);
    *pos = *pos + 2;
    Ok(v)
}

/// Reads a little-endian `u32` at `*pos`; on failure `*pos` is unchanged.
pub fn read_u32(d: &[u8], pos: &mut usize) -> (r: Result<u32, PolError>)
    requires
        *old(pos) <= d@.len(),
    ensures
        match r {
            Ok(v) => *old(pos) + 4 <= d@.len() && v as int == le32(d@, *old(pos) as int)
                && *final(pos) == *old(pos) + 4,
            Err(e) => *old(pos) + 4 > d@.len() && e == PolError::Truncated && *final(pos)
                == *old(pos),
        },
{
    if d.len() - *pos < 4 {
        return Err(PolError::Truncated);
    }
    let s = slice_subrange(d, *pos, *pos + 4);
    let v = le_u32(s);
    *pos = *pos + 4;
    Ok(v)
}

/// Reads `n` raw bytes at `*pos`; on failure `*pos` is unchanged.
pub fn read_bytes(d: &[u8], pos: &mut usize, n: usize) -> (r: Result<Vec<u8>, PolError>)
    requires
        *old(pos) <= d@.len(),
    ensures
        match r {
            Ok(v) => *old(pos) + n <= d@.len() && v@ == d@.subrange(
                *old(pos) as int,
                *old(pos) + n,
            ) && *final(pos) == *old(pos) + n,
            Err(e) => *old(pos) + n > d@.len() && e == PolError::Truncated && *final(pos)
                == *old(pos),
        },
{
    if d.len() - *pos < n {
        return Err(PolError::Truncated);
    }
    let s = slice_subrange(d, *pos, *pos + n);
    let v = slice_to_vec(s);
    *pos = *pos + n;
    Ok(v)
}

/// The text of a 64-byte null-padded name field starting at `p`.
pub open spec fn name_at(s: Seq<u8>, p: int) -> Option<Seq<char>> {
    utf8_text(before_nul(s.subrange(p, p + 64)))
}

/// Reads a 64-byte null-padded name field at `*pos` and decodes the bytes
/// before its first zero as UTF-8. `*pos` moves only on success.
pub fn read_name(d: &[u8], pos: &mut usize) -> (r: Result<String, PolError>)
    requires
        *old(pos) <= d@.len(),
    ensures
        match r {
            Ok(t) => *old(pos) + 64 <= d@.len() && name_at(d@, *old(pos) as int) == Some(t@)
                && *final(pos) == *old(pos) + 64,
            Err(e) => *final(pos) == *old(pos) && if *old(pos) + 64 > d@.len() {
                e == PolError::Truncated
            } else {
                name_at(d@, *old(pos) as int) is None && e == PolError::InvalidText
            },
        },
{
    if d.len() - *pos < 64 {
        return Err(PolError::Truncated);
    }
    let field = slice_subrange(d, *pos, *pos + 64);
    let mut k: usize = 0;
    while k < field.len() && field[k] != 0
        invariant
            k <= field@.len(),
            first_nul_from(field@, 0) == first_nul_from(field@, k as int),
        decreases field@.len() - k,
    {
        k = k + 1;
    }
    let text = slice_to_vec(slice_subrange(field, 0, k));
    match decode_utf8(text) {
        Some(t) => {
            *pos = *pos + 64;
            Ok(t)
        },
        None => Err(PolError::InvalidText),
    }
}

} // verus!
