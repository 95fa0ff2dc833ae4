//! Little-endian decoding of the fixed-size integers that PE structures are
//! made of, and the trait shared by every structure decoded from raw bytes.

use vstd::prelude::*;

verus! {

/// The `u16` stored little-endian at `s[i..i + 2]`.
pub open spec fn le_u16(s: Seq<u8>, i: int) -> u16 {
    (s[i] + s[i + 1] * 0x100) as u16
}

/// The `u32` stored little-endian at `s[i..i + 4]`.
pub open spec fn le_u32(s: Seq<u8>, i: int) -> u32 {
    (s[i] + s[i + 1] * 0x100 + s[i + 2] * 0x1_0000 + s[i + 3] * 0x100_0000) as u32
}

/// The `u64` stored little-endian at `s[i..i + 8]`.
pub open spec fn le_u64(s: Seq<u8>, i: int) -> u64 {
    (le_u32(s, i) + le_u32(s, i + 4) * 0x1_0000_0000) as u64
}

/// The two's-complement `i32` stored little-endian at `s[i..i + 4]`.
pub open spec fn le_i32(s: Seq<u8>, i: int) -> i32 {
    let u = le_u32(s, i);
    if u < 0x8000_0000 {
        u as i32
    } else {
        (u - 0x1_0000_0000) as i32
    }
}

/// A slice is never longer than `usize::MAX`.
pub proof fn lemma_slice_len_bound(s: &[u8])
    ensures
        s@.len() <= usize::MAX,
{
    assert(s@.len() == s.len());
}

pub fn read_u16(s: &[u8], i: usize) -> (r: u16)
    requires
        i + 2 <= s@.len(),
    ensures
        r == le_u16(s@, i as int),
{
    s[i] as u16 + (s[i + 1] as u16) * 0x100
}

pub fn read_u32(s: &[u8], i: usize) -> (r: u32)
    requires
        i + 4 <= s@.len(),
    ensures
        r == le_u32(s@, i as int),
{
    s[i] as u32 + (s[i + 1] as u32) * 0x100 + (s[i + 2] as u32) * 0x1_0000 + (s[i + 3] as u32)
        * 0x100_0000
}

pub fn read_u64(s: &[u8], i: usize) -> (r: u64)
    requires
        i + 8 <= s@.len(),
    ensures
        r == le_u64(s@, i as int),
{
    proof {
        lemma_slice_len_bound(s);
    }
    let lo = read_u32(s, i);
    let hi = read_u32(s, i + 4);
    lo as u64 + (hi as u64) * 0x1_0000_0000
}

pub fn read_i32(s: &[u8], i: usize) -> (r: i32)
    requires
        i + 4 <= s@.len(),
    ensures
        r == le_i32(s@, i as int),
{
    let u = read_u32(s, i);
    if u < 0x8000_0000 {
        u as i32
    } else {
        (u as i64 - 0x1_0000_0000i64) as i32
    }
}

/// The two bytes of `w`, least significant first.
pub open spec fn u16_le_bytes(w: u16) -> Seq<u8> {
    seq![(w & 0xff) as u8, (w >> 8u16) as u8]
}

/// The four bytes of `w`, least significant first.
pub open spec fn u32_le_bytes(w: u32) -> Seq<u8> {
    seq![(w & 0xff) as u8, ((w >> 8u32) & 0xff) as u8, ((w >> 16u32) & 0xff) as u8, (w >> 24u32) as u8]
}

/// Reading back the bytes of a `u16`, least significant first, gives it back.
pub proof fn lemma_le_u16_roundtrip(w: u16)
    ensures
        le_u16(u16_le_bytes(w), 0) == w,
{
    let b0 = w & 0xff;
    let b1 = w >> 8u16;
    assert(b0 < 256 && b1 < 256 && b0 + b1 * 256 == w) by (bit_vector)
        requires
            b0 == w & 0xff,
            b1 == w >> 8u16,
    ;
}

/// Reading back the bytes of a `u32`, least significant first, gives it back.
pub proof fn lemma_le_u32_roundtrip(w: u32)
    ensures
        le_u32(u32_le_bytes(w), 0) == w,
{
    let b0 = w & 0xff;
    let b1 = (w >> 8u32) & 0xff;
    let b2 = (w >> 16u32) & 0xff;
    let b3 = w >> 24u32;
    assert(b0 < 256 && b1 < 256 && b2 < 256 && b3 < 256 && b0 + b1 * 256 + b2 * 0x1_0000 + b3
        * 0x100_0000 == w) by (bit_vector)
        requires
            b0 == w & 0xff,
            b1 == (w >> 8u32) & 0xff,
            b2 == (w >> 16u32) & 0xff,
            b3 == w >> 24u32,
    ;
}

/// Reading back the bytes of two `u32`s, the low one first, gives the `u64`
/// they make up.
pub proof fn lemma_le_u64_roundtrip(lo: u32, hi: u32)
    ensures
        le_u64(u32_le_bytes(lo) + u32_le_bytes(hi), 0) == lo + hi * 0x1_0000_0000,
{
    let s = u32_le_bytes(lo) + u32_le_bytes(hi);
    lemma_le_u32_roundtrip(lo);
    lemma_le_u32_roundtrip(hi);
    assert(s.subrange(0, 4) =~= u32_le_bytes(lo));
    assert(s.subrange(4, 8) =~= u32_le_bytes(hi));
    assert(le_u32(s, 0) == le_u32(u32_le_bytes(lo), 0));
    assert(le_u32(s, 4) == le_u32(u32_le_bytes(hi), 0));
}

/// The signed value read back from the bytes of `w` is `w` read as two's
/// complement: `w` below 2^31, `w - 2^32` from there on.
pub proof fn lemma_le_i32_twos_complement(w: u32)
    ensures
        le_i32(u32_le_bytes(w), 0) == if w < 0x8000_0000 {
            w as int
        } else {
            w - 0x1_0000_0000
        },
{
    lemma_le_u32_roundtrip(w);
}

/// The `u16` slots stored little-endian in `s` (a trailing odd byte is no
/// slot).
pub open spec fn le_u16_slots(s: Seq<u8>) -> Seq<u16> {
    Seq::new(s.len() / 2, |i: int| le_u16(s, 2 * i))
}

/// A structure with a fixed little-endian layout of `spec_size()` bytes.
pub trait LeDecode: Sized {
    /// The number of bytes the structure occupies.
    spec fn spec_size() -> nat;

    /// The value stored at `s[off..off + spec_size()]`.
    spec fn spec_decode(s: Seq<u8>, off: int) -> Self;

    fn size() -> (n: usize)
        ensures
            n == Self::spec_size(),
    ;

    fn decode(s: &[u8], off: usize) -> (r: Self)
        requires
            off + Self::spec_size() <= s@.len(),
        ensures
            r == Self::spec_decode(s@, off as int),
    ;
}

impl LeDecode for u16 {
    open spec fn spec_size() -> nat {
        2
    }

    open spec fn spec_decode(s: Seq<u8>, off: int) -> u16 {
        le_u16(s, off)
    }

    fn size() -> (n: usize) {
        2
    }

    fn decode(s: &[u8], off: usize) -> (r: u16) {
        read_u16(s, off)
    }
}

impl LeDecode for u32 {
    open spec fn spec_size() -> nat {
        4
    }

    open spec fn spec_decode(s: Seq<u8>, off: int) -> u32 {
        le_u32(s, off)
    }

    fn size() -> (n: usize) {
        4
    }

    fn decode(s: &[u8], off: usize) -> (r: u32) {
        read_u32(s, off)
    }
}

impl LeDecode for u64 {
    open spec fn spec_size() -> nat {
        8
    }

    open spec fn spec_decode(s: Seq<u8>, off: int) -> u64 {
        le_u64(s, off)
    }

    fn size() -> (n: usize) {
        8
    }

    fn decode(s: &[u8], off: usize) -> (r: u64) {
        read_u64(s, off)
    }
}

} // verus!
