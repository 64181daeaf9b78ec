//! Fixed-layout binary fields: 32-bit words in a chosen byte order,
//! length-prefixed byte strings, and the big-endian frame header.

use byteorder::{BigEndian, ByteOrder, LittleEndian};
use vstd::prelude::*;
use vstd::slice::slice_subrange;

verus! {

/// Byte order of the scalar fields inside a payload.
#[derive(Clone, Copy, Debug, PartialEq, Eq, Structural)]
pub enum Endian {
    Little,
    Big,
}

/// Failure to decode a field.
#[derive(Clone, Copy, Debug, PartialEq, Eq, Structural)]
pub enum DecodeError {
    /// A field reaches past the end of the buffer.
    UnexpectedEof,
    /// Scripts call each other more deeply than the interpreter allows.
    NestingTooDeep,
    /// A name or path is not well-formed UTF-8.
    InvalidUtf8,
}

/// The value of four bytes, least significant first.
pub open spec fn le_value(b0: u8, b1: u8, b2: u8, b3: u8) -> int {
    b0 as int + 256 * (b1 as int) + 65536 * (b2 as int) + 16777216 * (b3 as int)
}

/// The 32-bit word stored at `s[i..i + 4]` in byte order `e`.
pub open spec fn word_at(e: Endian, s: Seq<u8>, i: int) -> u32 {
    match e {
        Endian::Little => le_value(s[i], s[i + 1], s[i + 2], s[i + 3]) as u32,
        Endian::Big => le_value(s[i + 3], s[i + 2], s[i + 1], s[i]) as u32,
    }
}

/// The four bytes of `w` in byte order `e`.
pub open spec fn word_bytes(e: Endian, w: u32) -> Seq<u8> {
    let b0 = (w % 256) as u8;
    let b1 = (w / 256 % 256) as u8;
    let b2 = (w / 65536 % 256) as u8;
    let b3 = (w / 16777216) as u8;
    match e {
        Endian::Little => seq![b0, b1, b2, b3],
        Endian::Big => seq![b3, b2, b1, b0],
    }
}

/// The bytes of a sequence of words, one after the other.
pub open spec fn words_bytes(e: Endian, ws: Seq<u32>) -> Seq<u8>
    decreases ws.len(),
{
    if ws.len() == 0 {
        Seq::empty()
    } else {
        words_bytes(e, ws.drop_last()) + word_bytes(e, ws.last())
    }
}

/// The `n` words that start at byte `i`.
pub open spec fn words_at(e: Endian, s: Seq<u8>, i: int, n: nat) -> Seq<u32> {
    Seq::new(n, |k: int| word_at(e, s, i + 4 * k))
}

/// Reading back the bytes of a word gives the word.
pub proof fn lemma_word_round_trip(e: Endian, w: u32, s: Seq<u8>, i: int)
    requires
        0 <= i,
        i + 4 <= s.len(),
        s.subrange(i, i + 4) == word_bytes(e, w),
    ensures
        word_at(e, s, i) == w,
{
    let wi = w as int;
    assert(s[i] == s.subrange(i, i + 4)[0]);
    assert(s[i + 1] == s.subrange(i, i + 4)[1]);
    assert(s[i + 2] == s.subrange(i, i + 4)[2]);
    assert(s[i + 3] == s.subrange(i, i + 4)[3]);
    assert(wi == wi % 256 + 256 * (wi / 256 % 256) + 65536 * (wi / 65536 % 256) + 16777216 * (
    wi / 16777216)) by (nonlinear_arith)
        requires
            0 <= wi <= u32::MAX,
    {
        assert(wi == 256 * (wi / 256) + wi % 256);
        assert(wi / 256 == 256 * (wi / 65536) + wi / 256 % 256);
        assert(wi / 65536 == 256 * (wi / 16777216) + wi / 65536 % 256);
    }
}

/// Relies on byteorder's `LittleEndian::read_u32`: the first four bytes,
/// least significant first. It panics on fewer than four bytes.
#[verifier::external_body]
fn read_u32_le(b: &[u8]) -> (r: u32)
    requires
        b@.len() >= 4,
    ensures
        r == word_at(Endian::Little, b@, 0),
{
    LittleEndian::read_u32(b)
}

/// Relies on byteorder's `BigEndian::read_u32`: the first four bytes,
/// most significant first. It panics on fewer than four bytes.
#[verifier::external_body]
fn read_u32_be(b: &[u8]) -> (r: u32)
    requires
        b@.len() >= 4,
    ensures
        r == word_at(Endian::Big, b@, 0),
{
    BigEndian::read_u32(b)
}

/// Relies on byteorder's `LittleEndian::write_u32`: `w`, least significant
/// byte first, into a four-byte buffer.
#[verifier::external_body]
fn write_u32_le(w: u32) -> (r: [u8; 4])
    ensures
        r@ == word_bytes(Endian::Little, w),
{
    let mut b = [0u8; 4];
    LittleEndian::write_u32(&mut b, w);
    b
}

/// Relies on byteorder's `BigEndian::write_u32`: `w`, most significant
/// byte first, into a four-byte buffer.
#[verifier::external_body]
fn write_u32_be(w: u32) -> (r: [u8; 4])
    ensures
        r@ == word_bytes(Endian::Big, w),
{
    let mut b = [0u8; 4];
    BigEndian::write_u32(&mut b, w);
    b
}

/// The word at byte `pos`, if four bytes are there.
pub fn read_word(e: Endian, s: &[u8], pos: usize) -> (r: Result<u32, DecodeError>)
    ensures
        pos + 4 <= s@.len() ==> r == Ok::<u32, DecodeError>(word_at(e, s@, pos as int)),
        pos + 4 > s@.len() ==> r == Err::<u32, DecodeError>(DecodeError::UnexpectedEof),
{
    if pos > s.len() || s.len() - pos < 4 {
        return Err(DecodeError::UnexpectedEof);
    }
    let b = slice_subrange(s, pos, pos + 4);
    let w = match e {
        Endian::Little => read_u32_le(b),
        Endian::Big => read_u32_be(b),
    };
    assert(b@[0] == s@[pos as int]);
    assert(b@[1] == s@[pos + 1]);
    assert(b@[2] == s@[pos + 2]);
    assert(b@[3] == s@[pos + 3]);
    Ok(w)
}

/// Appends the four bytes of `w` in byte order `e`.
pub fn push_word(e: Endian, out: &mut Vec<u8>, w: u32)
    ensures
        final(out)@ == old(out)@ + word_bytes(e, w),
{
    let b = match e {
        Endian::Little => write_u32_le(w),
        Endian::Big => write_u32_be(w),
    };
    out.push(b[0]);
    out.push(b[1]);
    out.push(b[2]);
    out.push(b[3]);
    assert(out@ =~= old(out)@ + word_bytes(e, w));
}

} // verus!

verus! {

/// The bytes of `ws`, one word after the other, appended to `out`.
pub fn push_words(e: Endian, out: &mut Vec<u8>, ws: &Vec<u32>)
    ensures
        final(out)@ == old(out)@ + words_bytes(e, ws@),
{
    let mut i: usize = 0;
    while i < ws.len()
        invariant
            i <= ws@.len(),
            out@ == old(out)@ + words_bytes(e, ws@.take(i as int)),
        decreases ws@.len() - i,
    {
        push_word(e, out, ws[i]);
        assert(ws@.take(i + 1).drop_last() =~= ws@.take(i as int));
        assert(out@ =~= old(out)@ + words_bytes(e, ws@.take(i + 1)));
        i = i + 1;
    }
    assert(ws@.take(i as int) =~= ws@);
}

/// The words of `words_bytes` are read back from where they were written.
pub proof fn lemma_words_round_trip(e: Endian, ws: Seq<u32>, pre: Seq<u8>, post: Seq<u8>)
    ensures
        words_at(e, pre + words_bytes(e, ws) + post, pre.len() as int, ws.len()) == ws,
        words_bytes(e, ws).len() == 4 * ws.len(),
    decreases ws.len(),
{
    if ws.len() > 0 {
        let init = ws.drop_last();
        let last = ws.last();
        let s = pre + words_bytes(e, ws) + post;
        lemma_words_round_trip(e, init, pre, word_bytes(e, last) + post);
        assert(pre + words_bytes(e, init) + (word_bytes(e, last) + post) =~= s);
        let at = pre.len() + 4 * init.len() as int;
        assert(word_bytes(e, last).len() == 4);
        assert(s.subrange(at, at + 4) =~= word_bytes(e, last));
        lemma_word_round_trip(e, last, s, at);
        let r = words_at(e, s, pre.len() as int, ws.len());
        let ri = words_at(e, s, pre.len() as int, init.len());
        assert forall|k: int| 0 <= k < ws.len() implies r[k] == ws[k] by {
            if k < init.len() {
                assert(r[k] == ri[k]);
            }
        }
        assert(r =~= ws);
    }
}

/// The `i32` stored as a word (two's complement).
pub open spec fn word_i32(w: u32) -> i32 {
    w as i32
}

/// The word that stores an `i32` (two's complement).
pub open spec fn i32_word(x: i32) -> u32 {
    x as u32
}

/// The word that stores a flag: one for true, zero for false.
pub open spec fn bool_word(b: bool) -> u32 {
    if b {
        1
    } else {
        0
    }
}

/// Converting an `i32` to a word and back gives it unchanged.
pub proof fn lemma_i32_word(x: i32)
    ensures
        word_i32(i32_word(x)) == x,
{
    assert((x as u32) as i32 == x) by (bit_vector);
}

/// The word that stores `x`.
pub fn i32_to_word(x: i32) -> (r: u32)
    ensures
        r == i32_word(x),
{
    x as u32
}

/// The `i32` that `w` stores.
pub fn word_to_i32(w: u32) -> (r: i32)
    ensures
        r == word_i32(w),
{
    w as i32
}

/// The `n` words that start at byte `pos`.
pub fn read_words(e: Endian, s: &[u8], pos: usize, n: usize) -> (r: Vec<u32>)
    requires
        pos + 4 * n <= s@.len(),
    ensures
        r@ == words_at(e, s@, pos as int, n as nat),
{
    let mut r: Vec<u32> = Vec::new();
    let mut i: usize = 0;
    let len = s.len();
    while i < n
        invariant
            i <= n,
            len == s@.len(),
            pos + 4 * n <= s@.len(),
            r@ == words_at(e, s@, pos as int, i as nat),
        decreases n - i,
    {
        let w = match read_word(e, s, pos + 4 * i) {
            Ok(w) => w,
            Err(_) => 0,
        };
        r.push(w);
        assert(r@ =~= words_at(e, s@, pos as int, (i + 1) as nat));
        i = i + 1;
    }
    r
}

} // verus!
