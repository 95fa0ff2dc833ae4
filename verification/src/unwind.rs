//! x64 unwind data: the packed `UNWIND_INFO` header word, its flags, and the
//! array of unwind codes that follows it.

use bit_field::BitField;
use vstd::prelude::*;

use crate::le::{le_u16_slots, lemma_slice_len_bound, read_u16};

verus! {

/// The bits `lo..hi` of `x`, moved down to bit 0.
pub open spec fn bit_range_u32(x: u32, lo: u32, hi: u32) -> u32 {
    (x >> lo) & (((1u32 << (hi - lo) as u32) - 1) as u32)
}

/// The bits `lo..hi` of `x`, moved down to bit 0.
pub open spec fn bit_range_u16(x: u16, lo: u16, hi: u16) -> u16 {
    (x >> lo) & (((1u16 << (hi - lo) as u16) - 1) as u16)
}

/// `BitField::get_bits` of `bit_field` on a `u32`: its source shifts the bits
/// above `hi` out and then the bits below `lo`, which leaves bits `lo..hi` at
/// bit 0; it asserts `lo < 32`, `hi <= 32` and `lo <= hi`.
#[verifier::external_body]
fn get_bits_u32(x: u32, lo: u32, hi: u32) -> (r: u32)
    requires
        lo < hi <= 32,
        hi - lo < 32,
    ensures
        r == bit_range_u32(x, lo, hi),
{
    x.get_bits(lo as usize..hi as usize)
}

/// `BitField::get_bits` of `bit_field` on a `u16`, as for `get_bits_u32`.
#[verifier::external_body]
fn get_bits_u16(x: u16, lo: u16, hi: u16) -> (r: u16)
    requires
        lo < hi <= 16,
        hi - lo < 16,
    ensures
        r == bit_range_u16(x, lo, hi),
{
    x.get_bits(lo as usize..hi as usize)
}

pub const UNW_FLAG_NHANDLER: u8 = 0;

pub const UNW_FLAG_EHANDLER: u8 = 1;

pub const UNW_FLAG_UHANDLER: u8 = 2;

pub const UNW_FLAG_CHAININFO: u8 = 4;

/// The union of all known unwind flags.
pub const UNW_FLAG_ALL: u8 = 7;

/// A set of unwind flags; only the known flag bits are ever set.
#[derive(Clone, Copy, Debug, PartialEq, Eq)]
pub struct UnwindFlag {
    bits: u8,
}

impl View for UnwindFlag {
    type V = u8;

    closed spec fn view(&self) -> u8 {
        self.bits
    }
}

impl UnwindFlag {
    #[verifier::type_invariant]
    spec fn known_bits_only(self) -> bool {
        self.bits & !UNW_FLAG_ALL == 0
    }

    /// The flags of `bits` that are known; the other bits are dropped.
    pub fn from_bits_truncate(bits: u8) -> (r: UnwindFlag)
        ensures
            r@ == bits & UNW_FLAG_ALL,
    {
        let b = bits & UNW_FLAG_ALL;
        assert(b & !7u8 == 0) by (bit_vector)
            requires
                b == bits & 7u8,
        ;
        UnwindFlag { bits: b }
    }

    pub fn bits(&self) -> (r: u8)
        ensures
            r == self@,
            r & !UNW_FLAG_ALL == 0,
    {
        proof {
            use_type_invariant(self);
        }
        self.bits
    }

    /// Whether every flag of `other` is set.
    pub fn contains(&self, other: u8) -> (r: bool)
        ensures
            r == (self@ & other == other),
    {
        self.bits & other == other
    }
}

/// One unwind code, decoded from its 16-bit slot.
#[derive(Clone, Copy, Debug, PartialEq, Eq)]
pub struct UnwindCode {
    pub code_offset: u8,
    pub unwid_op: u8,
    pub op_info: u8,
}

/// The unwind code held in the 16-bit slot `raw`.
pub open spec fn spec_unwind_code(raw: u16) -> UnwindCode {
    UnwindCode {
        code_offset: (raw & 0xff) as u8,
        unwid_op: ((raw >> 8u16) & 0xf) as u8,
        op_info: (raw >> 12u16) as u8,
    }
}

fn unwind_code(raw: u16) -> (r: UnwindCode)
    ensures
        r == spec_unwind_code(raw),
{
    let code_offset = get_bits_u16(raw, 0, 8);
    let unwid_op = get_bits_u16(raw, 8, 12);
    let op_info = get_bits_u16(raw, 12, 16);
    assert(bit_range_u16(raw, 0, 8) == raw & 0xff) by (bit_vector);
    assert(bit_range_u16(raw, 8, 12) == (raw >> 8u16) & 0xf) by (bit_vector);
    assert(bit_range_u16(raw, 12, 16) == raw >> 12u16) by (bit_vector);
    assert(raw & 0xff < 256 && (raw >> 8u16) & 0xf < 16 && raw >> 12u16 < 16) by (bit_vector);
    UnwindCode { code_offset: code_offset as u8, unwid_op: unwid_op as u8, op_info: op_info as u8 }
}

/// A code's three fields put back into its slot give the slot back.
pub proof fn lemma_unwind_code_roundtrip(raw: u16)
    ensures
        ({
            let c = spec_unwind_code(raw);
            (c.code_offset as u16) | ((c.unwid_op as u16) << 8u16) | ((c.op_info as u16) << 12u16)
                == raw
        }),
{
    assert(raw & 0xff < 256 && (raw >> 8u16) & 0xf < 16 && raw >> 12u16 < 16) by (bit_vector);
    assert((raw & 0xff) | (((raw >> 8u16) & 0xf) << 8u16) | ((raw >> 12u16) << 12u16) == raw)
        by (bit_vector);
}

/// Walks the unwind codes of an `UNWIND_INFO` array, one 16-bit slot at a time.
pub struct UnwindCodeIter<'a> {
    codes: &'a [u8],
    pos: usize,
}

impl<'a> View for UnwindCodeIter<'a> {
    type V = Seq<u16>;

    /// The slots not yet walked.
    closed spec fn view(&self) -> Seq<u16> {
        le_u16_slots(self.codes@).skip(self.pos as int)
    }
}

impl<'a> UnwindCodeIter<'a> {
    #[verifier::type_invariant]
    spec fn pos_in_bounds(self) -> bool {
        2 * self.pos <= self.codes@.len()
    }

    /// Walks the slots that `codes` holds (a trailing odd byte is no slot).
    pub fn new(codes: &'a [u8]) -> (it: UnwindCodeIter<'a>)
        ensures
            it@ == le_u16_slots(codes@),
    {
        let it = UnwindCodeIter { codes, pos: 0 };
        assert(it@ =~= le_u16_slots(codes@));
        it
    }

    pub fn next(&mut self) -> (r: Option<UnwindCode>)
        ensures
            old(self)@.len() == 0 ==> r is None && final(self)@ == old(self)@,
            old(self)@.len() > 0 ==> r == Some(spec_unwind_code(old(self)@[0])) && final(self)@
                == old(self)@.drop_first(),
    {
        proof {
            use_type_invariant(&*self);
            lemma_slice_len_bound(self.codes);
        }
        if self.pos >= self.codes.len() / 2 {
            return None;
        }
        let raw = read_u16(self.codes, 2 * self.pos);
        let code = unwind_code(raw);
        let ghost before = self@;
        assert(before[0] == raw);
        self.pos = self.pos + 1;
        assert(self@ =~= before.drop_first());
        Some(code)
    }
}

/// The fields packed into the 32-bit header word of an `UNWIND_INFO`.
#[derive(Clone, Copy, Debug, PartialEq, Eq)]
pub struct UnwindInfo {
    pub version: u8,
    pub flags: UnwindFlag,
    pub size_of_prolog: u8,
    pub count_of_codes: u8,
    pub frame_register: u8,
    pub frame_offset: u8,
}

impl UnwindInfo {
    /// The fields are those packed into the header word `raw` (unknown flags
    /// dropped).
    pub open spec fn unpacks(&self, raw: u32) -> bool {
        &&& self.version == raw & 0x7
        &&& self.flags@ == (raw >> 3u32) & (UNW_FLAG_ALL as u32)
        &&& self.size_of_prolog == (raw >> 8u32) & 0xff
        &&& self.count_of_codes == (raw >> 16u32) & 0xff
        &&& self.frame_register == (raw >> 24u32) & 0xf
        &&& self.frame_offset == raw >> 28u32
    }

    /// Unpacks the header word: version in bits 0..3, flags in 3..8 (unknown
    /// flags dropped), prolog size in 8..16, code count in 16..24, frame
    /// register in 24..28 and frame offset in 28..32.
    pub fn new(raw: u32) -> (r: UnwindInfo)
        ensures
            r.unpacks(raw),
    {
        let version = get_bits_u32(raw, 0, 3);
        let flags = get_bits_u32(raw, 3, 8);
        let size_of_prolog = get_bits_u32(raw, 8, 16);
        let count_of_codes = get_bits_u32(raw, 16, 24);
        let frame_register = get_bits_u32(raw, 24, 28);
        let frame_offset = get_bits_u32(raw, 28, 32);
        assert(bit_range_u32(raw, 0, 3) == raw & 0x7) by (bit_vector);
        assert(bit_range_u32(raw, 3, 8) == (raw >> 3u32) & 0x1f) by (bit_vector);
        assert(bit_range_u32(raw, 8, 16) == (raw >> 8u32) & 0xff) by (bit_vector);
        assert(bit_range_u32(raw, 16, 24) == (raw >> 16u32) & 0xff) by (bit_vector);
        assert(bit_range_u32(raw, 24, 28) == (raw >> 24u32) & 0xf) by (bit_vector);
        assert(bit_range_u32(raw, 28, 32) == raw >> 28u32) by (bit_vector);
        assert(raw & 0x7 < 8 && (raw >> 3u32) & 0x1f < 32 && (raw >> 8u32) & 0xff < 256 && (raw
            >> 16u32) & 0xff < 256 && (raw >> 24u32) & 0xf < 16 && raw >> 28u32 < 16)
            by (bit_vector);
        let flag_bits = flags as u8;
        assert((flag_bits & 7u8) as u32 == (raw >> 3u32) & 7u32) by (bit_vector)
            requires
                flag_bits as u32 == (raw >> 3u32) & 0x1f,
        ;
        UnwindInfo {
            version: version as u8,
            flags: UnwindFlag::from_bits_truncate(flag_bits),
            size_of_prolog: size_of_prolog as u8,
            count_of_codes: count_of_codes as u8,
            frame_register: frame_register as u8,
            frame_offset: frame_offset as u8,
        }
    }
}

/// The header word that holds the given fields at their places.
pub open spec fn pack_unwind_info(
    version: u8,
    flags: u8,
    size_of_prolog: u8,
    count_of_codes: u8,
    frame_register: u8,
    frame_offset: u8,
) -> u32 {
    (version as u32) | ((flags as u32) << 3u32) | ((size_of_prolog as u32) << 8u32) | ((
    count_of_codes as u32) << 16u32) | ((frame_register as u32) << 24u32) | ((frame_offset as u32)
        << 28u32)
}

/// Unpacking a header word whose two top flag bits are clear loses nothing:
/// packing the fields that `UnwindInfo::new` reports gives the word back.
pub proof fn lemma_unwind_info_roundtrip(raw: u32)
    requires
        raw & 0xc0 == 0,
    ensures
        pack_unwind_info(
            (raw & 0x7) as u8,
            ((raw >> 3u32) & 7) as u8,
            ((raw >> 8u32) & 0xff) as u8,
            ((raw >> 16u32) & 0xff) as u8,
            ((raw >> 24u32) & 0xf) as u8,
            (raw >> 28u32) as u8,
        ) == raw,
{
    let v = raw & 0x7;
    let f = (raw >> 3u32) & 7;
    let p = (raw >> 8u32) & 0xff;
    let c = (raw >> 16u32) & 0xff;
    let g = (raw >> 24u32) & 0xf;
    let o = raw >> 28u32;
    assert(v < 256 && f < 256 && p < 256 && c < 256 && g < 256 && o < 256) by (bit_vector)
        requires
            v == raw & 0x7,
            f == (raw >> 3u32) & 7,
            p == (raw >> 8u32) & 0xff,
            c == (raw >> 16u32) & 0xff,
            g == (raw >> 24u32) & 0xf,
            o == raw >> 28u32,
    ;
    assert(v | (f << 3u32) | (p << 8u32) | (c << 16u32) | (g << 24u32) | (o << 28u32) == raw)
        by (bit_vector)
        requires
            raw & 0xc0 == 0,
            v == raw & 0x7,
            f == (raw >> 3u32) & 7,
            p == (raw >> 8u32) & 0xff,
            c == (raw >> 16u32) & 0xff,
            g == (raw >> 24u32) & 0xf,
            o == raw >> 28u32,
    ;
}

/// The fields that `UnwindInfo::new` reports fit their bit widths, and packed
/// back at their places they give the header word (when its two top flag bits,
/// which name no known flag, are clear).
pub proof fn lemma_unwind_info_fields_pack_back(info: UnwindInfo, raw: u32)
    requires
        info.unpacks(raw),
    ensures
        info.version < 8,
        info.flags@ < 8,
        info.frame_register < 16,
        info.frame_offset < 16,
        raw & 0xc0 == 0 ==> pack_unwind_info(
            info.version,
            info.flags@,
            info.size_of_prolog,
            info.count_of_codes,
            info.frame_register,
            info.frame_offset,
        ) == raw,
{
    assert(raw & 0x7 < 8 && (raw >> 3u32) & 7 < 8 && (raw >> 24u32) & 0xf < 16 && raw >> 28u32
        < 16 && (raw >> 8u32) & 0xff < 256 && (raw >> 16u32) & 0xff < 256) by (bit_vector);
    if raw & 0xc0 == 0 {
        lemma_unwind_info_roundtrip(raw);
    }
}

/// The flag values: exception handler 1, termination handler 2, chained
/// information 4, and no other flag.
pub proof fn lemma_unwind_flag_values()
    ensures
        UNW_FLAG_NHANDLER == 0,
        UNW_FLAG_EHANDLER == 1,
        UNW_FLAG_UHANDLER == 2,
        UNW_FLAG_CHAININFO == 4,
        UNW_FLAG_ALL == UNW_FLAG_EHANDLER | UNW_FLAG_UHANDLER | UNW_FLAG_CHAININFO,
{
    assert(1u8 | 2u8 | 4u8 == 7u8) by (bit_vector);
}

} // verus!
