//! Byte strings: NUL-padded fields, number formatting for log lines, and
//! byte-wise comparison.

use crate::wire::DecodeError;
use vstd::prelude::*;
use vstd::slice::{slice_subrange, slice_to_vec};
use vstd::string::StringSliceAdditionalSpecFns;
use vstd::utf8::valid_utf8;

verus! {

/// `b` without its trailing zero bytes.
pub open spec fn trim_nul(b: Seq<u8>) -> Seq<u8>
    decreases b.len(),
{
    if b.len() > 0 && b.last() == 0 {
        trim_nul(b.drop_last())
    } else {
        b
    }
}

/// The ASCII digit for `d` in base sixteen, upper case.
pub open spec fn hex_digit(d: nat) -> u8 {
    if d < 10 {
        (48 + d) as u8
    } else {
        (55 + d) as u8
    }
}

/// `n` in base sixteen, upper case, without leading zeros.
pub open spec fn hex_text(n: nat) -> Seq<u8>
    decreases n,
{
    if n < 16 {
        seq![hex_digit(n)]
    } else {
        hex_text(n / 16).push(hex_digit(n % 16))
    }
}

/// `n` in base ten, without leading zeros.
pub open spec fn dec_text(n: nat) -> Seq<u8>
    decreases n,
{
    if n < 10 {
        seq![(48 + n) as u8]
    } else {
        dec_text(n / 10).push((48 + n % 10) as u8)
    }
}

/// Appends `n` in base sixteen, upper case.
pub fn push_hex(out: &mut Vec<u8>, n: u32)
    ensures
        final(out)@ == old(out)@ + hex_text(n as nat),
    decreases n,
{
    if n >= 16 {
        push_hex(out, n / 16);
    }
    let d = n % 16;
    let c: u8 = if d < 10 {
        48 + d as u8
    } else {
        55 + d as u8
    };
    out.push(c);
    assert(out@ =~= old(out)@ + hex_text(n as nat));
}

/// Appends `n` in base ten.
pub fn push_dec(out: &mut Vec<u8>, n: u32)
    ensures
        final(out)@ == old(out)@ + dec_text(n as nat),
    decreases n,
{
    if n >= 10 {
        push_dec(out, n / 10);
    }
    out.push(48 + (n % 10) as u8);
    assert(out@ =~= old(out)@ + dec_text(n as nat));
}

/// Appends the bytes of `s`.
pub fn push_str(out: &mut Vec<u8>, s: &str)
    ensures
        final(out)@ == old(out)@ + s.spec_bytes(),
{
    out.extend_from_slice(s.as_bytes());
}

/// `buf` with its trailing zero bytes removed.
pub fn trim_null_tail(buf: Vec<u8>) -> (r: Vec<u8>)
    ensures
        r@ == trim_nul(buf@),
{
    let mut buf = buf;
    let ghost orig = buf@;
    while buf.len() > 0 && buf[buf.len() - 1] == 0
        invariant
            trim_nul(buf@) == trim_nul(orig),
        decreases buf@.len(),
    {
        let _ = buf.pop();
    }
    buf
}

/// The `len` bytes at `pos`.
pub fn read_bytes(s: &[u8], pos: usize, len: usize) -> (r: Result<Vec<u8>, DecodeError>)
    ensures
        pos + len <= s@.len() ==> r == Ok::<Vec<u8>, DecodeError>(r->Ok_0) && r->Ok_0@
            == s@.subrange(pos as int, pos + len),
        pos + len > s@.len() ==> r == Err::<Vec<u8>, DecodeError>(DecodeError::UnexpectedEof),
{
    if pos > s.len() || s.len() - pos < len {
        return Err(DecodeError::UnexpectedEof);
    }
    Ok(slice_to_vec(slice_subrange(s, pos, pos + len)))
}

/// Relies on std's `str::from_utf8`: it accepts exactly the well-formed
/// UTF-8 byte sequences.
#[verifier::external_body]
fn is_utf8(b: &[u8]) -> (r: bool)
    ensures
        r == valid_utf8(b@),
{
    std::str::from_utf8(b).is_ok()
}

/// The string field of `len` bytes at `pos`: without trailing zero bytes,
/// and well-formed UTF-8.
pub open spec fn string_field(s: Seq<u8>, pos: int, len: int) -> Result<Seq<u8>, DecodeError> {
    if pos + len > s.len() {
        Err(DecodeError::UnexpectedEof)
    } else if !valid_utf8(trim_nul(s.subrange(pos, pos + len))) {
        Err(DecodeError::InvalidUtf8)
    } else {
        Ok(trim_nul(s.subrange(pos, pos + len)))
    }
}

/// The `len` bytes at `pos`, without trailing zero bytes; they must be UTF-8.
pub fn read_string(s: &[u8], pos: usize, len: usize) -> (r: Result<Vec<u8>, DecodeError>)
    ensures
        match r {
            Ok(b) => string_field(s@, pos as int, len as int) == Ok::<Seq<u8>, DecodeError>(b@),
            Err(err) => string_field(s@, pos as int, len as int) == Err::<Seq<u8>, DecodeError>(err),
        },
{
    match read_bytes(s, pos, len) {
        Ok(b) => {
            let t = trim_null_tail(b);
            if is_utf8(t.as_slice()) {
                Ok(t)
            } else {
                Err(DecodeError::InvalidUtf8)
            }
        },
        Err(err) => Err(err),
    }
}

/// Whether `a` and `b` hold the same bytes.
pub fn bytes_eq(a: &[u8], b: &[u8]) -> (r: bool)
    ensures
        r == (a@ == b@),
{
    if a.len() != b.len() {
        return false;
    }
    let mut i: usize = 0;
    while i < a.len()
        invariant
            a@.len() == b@.len(),
            i <= a@.len(),
            forall|j: int| 0 <= j < i ==> a@[j] == b@[j],
        decreases a@.len() - i,
    {
        if a[i] != b[i] {
            return false;
        }
        i = i + 1;
    }
    assert(a@ =~= b@);
    true
}

} // verus!
