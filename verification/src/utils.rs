//! Reading NUL-terminated strings out of the image, and rounding offsets up
//! to an alignment.

use vstd::prelude::*;
use vstd::string::StringSliceAdditionalSpecFns;
use vstd::utf8::valid_utf8;

verus! {

/// `end` is the first NUL byte of `s` at or after `off`.
pub open spec fn c_str_end(s: Seq<u8>, off: int, end: int) -> bool {
    &&& 0 <= off <= end < s.len()
    &&& s[end] == 0
    &&& forall|k: int| off <= k < end ==> s[k] != 0
}

/// The bytes from `s[off]` up to (not including) the first NUL byte after it,
/// if there is such a byte.
pub open spec fn spec_c_str(s: Seq<u8>, off: int) -> Option<Seq<u8>> {
    if exists|end: int| c_str_end(s, off, end) {
        Some(s.subrange(off, choose|end: int| c_str_end(s, off, end)))
    } else {
        None
    }
}

/// The string that `conv_str_from_u8array` reads at `off`: the NUL-terminated
/// bytes there, when they are valid UTF-8.
pub open spec fn spec_str_at(s: Seq<u8>, off: int) -> Option<Seq<u8>> {
    match spec_c_str(s, off) {
        Some(b) => if valid_utf8(b) {
            Some(b)
        } else {
            None
        },
        None => None,
    }
}

/// `r` is the string whose UTF-8 bytes are `bytes`, or `None` with it.
pub open spec fn str_matches(r: Option<&str>, bytes: Option<Seq<u8>>) -> bool {
    match r {
        Some(t) => bytes == Some(t.spec_bytes()),
        None => bytes is None,
    }
}

/// `core::str::from_utf8`, which is documented to succeed exactly when the
/// bytes are valid UTF-8, and then to give the `str` made of those bytes.
#[verifier::external_body]
fn str_from_utf8<'b>(bytes: &'b [u8]) -> (r: Option<&'b str>)
    ensures
        r is Some <==> valid_utf8(bytes@),
        r matches Some(t) ==> t.spec_bytes() == bytes@,
{
    core::str::from_utf8(bytes).ok()
}

/// There is at most one first NUL byte.
pub proof fn lemma_c_str_end_unique(s: Seq<u8>, off: int, e1: int, e2: int)
    requires
        c_str_end(s, off, e1),
        c_str_end(s, off, e2),
    ensures
        e1 == e2,
{
    if e1 < e2 {
        assert(s[e1] != 0);
    } else if e2 < e1 {
        assert(s[e2] != 0);
    }
}

/// The bytes read as a string hold no NUL and are followed by one in `s`.
pub proof fn lemma_c_str_terminated(s: Seq<u8>, off: int)
    requires
        spec_c_str(s, off) is Some,
    ensures
        ({
            let b = spec_c_str(s, off).unwrap();
            &&& off + b.len() < s.len()
            &&& s[off + b.len()] == 0
            &&& forall|i: int| 0 <= i < b.len() ==> b[i] != 0
        }),
{
    let end = choose|end: int| c_str_end(s, off, end);
    let b = s.subrange(off, end);
    assert forall|i: int| 0 <= i < b.len() implies b[i] != 0 by {
        assert(b[i] == s[off + i]);
    }
}

/// Reads the NUL-terminated UTF-8 string that starts at `base[offset]`.
pub fn conv_str_from_u8array<'b>(base: &'b [u8], offset: usize) -> (r: Option<&'b str>)
    ensures
        str_matches(r, spec_str_at(base@, offset as int)),
{
    if base.len() <= offset {
        return None;
    }
    let mut end = offset;
    while end < base.len()
        invariant
            offset <= end <= base@.len(),
            forall|k: int| offset <= k < end ==> base@[k] != 0,
        decreases base@.len() - end,
    {
        if base[end] == 0 {
            proof {
                assert(c_str_end(base@, offset as int, end as int));
                let e = choose|e: int| c_str_end(base@, offset as int, e);
                lemma_c_str_end_unique(base@, offset as int, e, end as int);
            }
            return str_from_utf8(&base[offset..end]);
        }
        end += 1;
    }
    None
}

/// Rounds `val` up to the next value whose bits below `align` are clear; for a
/// power-of-two `align` that is the next multiple of `align`.
pub fn align_up(val: usize, align: usize) -> (r: usize)
    requires
        align >= 1,
        val + (align - 1) <= usize::MAX,
    ensures
        r == (val + (align - 1)) as usize & !((align - 1) as usize),
        r & (align - 1) as usize == 0,
        val <= r < val + align,
{
    let r = (val + (align - 1)) & (!(align - 1));
    proof {
        lemma_align_up(val, align);
    }
    r
}

/// Masking the bits of `align - 1` off `val + align - 1` gives a value with
/// none of those bits set that lies in `[val, val + align)`.
pub proof fn lemma_align_up(val: usize, align: usize)
    requires
        align >= 1,
        val + (align - 1) <= usize::MAX,
    ensures
        ({
            let r = (val + (align - 1)) as usize & !((align - 1) as usize);
            r & (align - 1) as usize == 0 && val <= r < val + align
        }),
{
    let m: usize = (align - 1) as usize;
    let x: usize = (val + m) as usize;
    let r: usize = x & !m;
    assert(r & m == 0) by (bit_vector)
        requires
            r == x & !m,
    ;
    assert(r <= x && r + (x & m) == x && x & m <= m) by (bit_vector)
        requires
            r == x & !m,
    ;
}

} // verus!
