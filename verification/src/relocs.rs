//! The base relocation directory: blocks of 16-bit entries, each naming a
//! relocation type and an offset in the block's page.

use vstd::prelude::*;

use crate::le::{le_u16, le_u16_slots, le_u32, lemma_slice_len_bound, read_u16, read_u32, LeDecode};
use crate::pe::{PEInfo, IMAGE_DIRECTORY_ENTRY_BASERELOC};

verus! {

pub const IMAGE_REL_BASED_ABSOLUTE: u16 = 0;

pub const IMAGE_REL_BASED_HIGHLOW: u16 = 3;

pub const IMAGE_REL_BASED_DIR64: u16 = 10;

#[derive(Clone, Copy, Debug, PartialEq, Eq, Structural)]
pub enum RelocType {
    TypeUnSupported,
    TypeZero,
    Type32bit,
    Type64bit,
}

/// The type an entry names in its top four bits.
pub open spec fn spec_reloc_type(raw: u16) -> RelocType {
    let flag = raw & 0xF000;
    if flag == IMAGE_REL_BASED_ABSOLUTE * 0x1000 {
        RelocType::TypeZero
    } else if flag == IMAGE_REL_BASED_HIGHLOW * 0x1000 {
        RelocType::Type32bit
    } else if flag == IMAGE_REL_BASED_DIR64 * 0x1000 {
        RelocType::Type64bit
    } else {
        RelocType::TypeUnSupported
    }
}

impl RelocType {
    fn new(raw: u16) -> (r: Self)
        ensures
            r == spec_reloc_type(raw),
    {
        let flag = raw & 0xF000;
        if flag == IMAGE_REL_BASED_ABSOLUTE * 0x1000 {
            return RelocType::TypeZero;
        } else if flag == IMAGE_REL_BASED_HIGHLOW * 0x1000 {
            return RelocType::Type32bit;
        } else if flag == IMAGE_REL_BASED_DIR64 * 0x1000 {
            return RelocType::Type64bit;
        } else {
            return RelocType::TypeUnSupported;
        }
    }
}

/// One relocation: its type and, for the 32- and 64-bit types, the RVA it
/// patches (0 otherwise).
#[derive(Clone, Copy, Debug, PartialEq, Eq)]
pub struct RelocList {
    pub reloc_type: RelocType,
    pub reloc_rva: u32,
}

/// Making the RVA of an entry of a 32- or 64-bit type stays within `u32`.
pub open spec fn reloc_entry_defined(raw: u16, base_rva: u32) -> bool {
    let t = spec_reloc_type(raw);
    (t == RelocType::Type32bit || t == RelocType::Type64bit) ==> (raw & 0xFFF) + base_rva
        <= u32::MAX
}

/// The relocation an entry describes in the block based at `base_rva`.
pub open spec fn spec_reloc_entry(raw: u16, base_rva: u32) -> RelocList {
    let t = spec_reloc_type(raw);
    RelocList {
        reloc_type: t,
        reloc_rva: if t == RelocType::TypeZero || t == RelocType::TypeUnSupported {
            0
        } else {
            ((raw & 0xFFF) + base_rva) as u32
        },
    }
}

/// A 32- or 64-bit relocation patches the page that its block is based at:
/// its RVA is the block's base plus the entry's low 12 bits.
pub proof fn lemma_reloc_rva_in_page(raw: u16, base_rva: u32)
    requires
        reloc_entry_defined(raw, base_rva),
    ensures
        ({
            let e = spec_reloc_entry(raw, base_rva);
            (e.reloc_type == RelocType::Type32bit || e.reloc_type == RelocType::Type64bit) ==> {
                &&& e.reloc_rva == base_rva + (raw & 0xFFF)
                &&& base_rva <= e.reloc_rva < base_rva + 0x1000
            }
        }),
{
    assert(raw & 0xFFF < 0x1000) by (bit_vector);
}

/// An entry's type depends on its top four bits only.
pub proof fn lemma_reloc_type_top_bits(a: u16, b: u16)
    requires
        a >> 12u16 == b >> 12u16,
    ensures
        spec_reloc_type(a) == spec_reloc_type(b),
{
    assert(a >> 12u16 == b >> 12u16 ==> a & 0xF000 == b & 0xF000) by (bit_vector);
}

/// Walks the entries of one relocation block; the walk ends after the first
/// entry of type `TypeZero` (padding).
pub struct RelocListIter<'a> {
    list: &'a [u8],
    pos: usize,
    base_rva: u32,
    skip: bool,
}

impl<'a> RelocListIter<'a> {
    #[verifier::type_invariant]
    spec fn pos_in_bounds(self) -> bool {
        2 * self.pos <= self.list@.len()
    }

    /// The entries not yet walked.
    pub closed spec fn remaining(&self) -> Seq<u16> {
        le_u16_slots(self.list@).skip(self.pos as int)
    }

    pub closed spec fn base(&self) -> u32 {
        self.base_rva
    }

    /// Whether a `TypeZero` entry has ended the walk.
    pub closed spec fn skipping(&self) -> bool {
        self.skip
    }

    /// The next entry can be walked without leaving `u32`.
    pub open spec fn next_defined(&self) -> bool {
        !self.skipping() && self.remaining().len() > 0 ==> reloc_entry_defined(
            self.remaining()[0],
            self.base(),
        )
    }

    /// Walks the entries stored in `list` for the block based at `base_rva`.
    pub fn new(list: &'a [u8], base_rva: u32) -> (it: Self)
        ensures
            it.remaining() == le_u16_slots(list@),
            it.base() == base_rva,
            !it.skipping(),
    {
        let it = RelocListIter { list, pos: 0, base_rva, skip: false };
        assert(it.remaining() =~= le_u16_slots(list@));
        it
    }

    /// Whether `next` can be called on the walk as it stands.
    pub fn can_advance(&self) -> (b: bool)
        ensures
            b == self.next_defined(),
    {
        proof {
            use_type_invariant(self);
            lemma_slice_len_bound(self.list);
        }
        if self.skip || self.pos >= self.list.len() / 2 {
            return true;
        }
        let val = read_u16(self.list, 2 * self.pos);
        let reloc_type = RelocType::new(val);
        if reloc_type == RelocType::Type32bit || reloc_type == RelocType::Type64bit {
            (val & 0xFFF) as u32 <= u32::MAX - self.base_rva
        } else {
            true
        }
    }

    pub fn next(&mut self) -> (r: Option<RelocList>)
        requires
            old(self).next_defined(),
        ensures
            final(self).base() == old(self).base(),
            old(self).skipping() || old(self).remaining().len() == 0 ==> {
                &&& r is None
                &&& final(self).remaining() == old(self).remaining()
                &&& final(self).skipping() == old(self).skipping()
            },
            !old(self).skipping() && old(self).remaining().len() > 0 ==> {
                let raw = old(self).remaining()[0];
                &&& r == Some(spec_reloc_entry(raw, old(self).base()))
                &&& final(self).remaining() == old(self).remaining().drop_first()
                &&& final(self).skipping() == (spec_reloc_type(raw) == RelocType::TypeZero)
            },
    {
        proof {
            use_type_invariant(&*self);
            lemma_slice_len_bound(self.list);
        }
        if self.skip == true {
            return None;
        }
        if self.pos >= self.list.len() / 2 {
            return None;
        }
        let val = read_u16(self.list, 2 * self.pos);
        let ghost before = self.remaining();
        assert(before[0] == val);
        self.pos = self.pos + 1;
        assert(self.remaining() =~= before.drop_first());
        let reloc_type = RelocType::new(val);
        if reloc_type == RelocType::TypeZero {
            self.skip = true;
        }
        let reloc_rva = if reloc_type == RelocType::TypeZero || reloc_type
            == RelocType::TypeUnSupported {
            0
        } else {
            (val & 0xFFF) as u32 + self.base_rva
        };
        Some(RelocList { reloc_type, reloc_rva })
    }
}

/// The header of a relocation block.
#[derive(Clone, Copy, Debug, PartialEq, Eq)]
pub struct ImageBaseRelocation {
    pub virtual_address: u32,
    pub size_of_block: u32,
}

impl LeDecode for ImageBaseRelocation {
    open spec fn spec_size() -> nat {
        8
    }

    open spec fn spec_decode(s: Seq<u8>, off: int) -> ImageBaseRelocation {
        ImageBaseRelocation { virtual_address: le_u32(s, off), size_of_block: le_u32(s, off + 4) }
    }

    fn size() -> (n: usize) {
        8
    }

    fn decode(s: &[u8], off: usize) -> (r: ImageBaseRelocation) {
        proof {
            lemma_slice_len_bound(s);
        }
        ImageBaseRelocation { virtual_address: read_u32(s, off), size_of_block: read_u32(s, off + 4) }
    }
}

/// One relocation block: its header, a walk over its entries and the number
/// of entries the header announces.
pub struct RelocDescriptor<'a> {
    pub base_reloc: ImageBaseRelocation,
    pub list_iter: RelocListIter<'a>,
    pub list_count: usize,
}

/// Walks the blocks of the base relocation directory.
pub struct RelocDescriptorIter<'a> {
    pe: &'a PEInfo<'a>,
    offset: usize,
    limit: usize,
}

impl<'a> RelocDescriptorIter<'a> {
    #[verifier::type_invariant]
    spec fn within_image(self) -> bool {
        &&& self.pe.wf()
    }

    pub closed spec fn pe(&self) -> &'a PEInfo<'a> {
        self.pe
    }

    /// The file offset of the next block.
    pub closed spec fn offset(&self) -> usize {
        self.offset
    }

    /// The file offset at which the directory ends.
    pub closed spec fn limit(&self) -> usize {
        self.limit
    }

    /// The header of the next block, if the image holds one.
    pub open spec fn next_header(&self) -> Option<ImageBaseRelocation> {
        if self.pe().bytes().len() < self.offset() + 8 {
            None
        } else {
            Some(ImageBaseRelocation::spec_decode(self.pe().bytes(), self.offset() as int))
        }
    }

    /// Reading the next block stays within `usize`, and the block, if any, is
    /// at least as long as its header.
    pub open spec fn next_defined(&self) -> bool {
        &&& self.offset() + 8 <= usize::MAX
        &&& match self.next_header() {
            Some(h) => (h.size_of_block != 0 && self.offset() < self.limit()) ==> {
                &&& h.size_of_block >= 8
                &&& self.offset() + 8 + h.size_of_block <= usize::MAX
            },
            None => true,
        }
    }

    /// Whether `next` can be called on the walk as it stands.
    pub fn can_advance(&self) -> (b: bool)
        ensures
            b == self.next_defined(),
    {
        proof {
            use_type_invariant(self);
        }
        if self.offset > usize::MAX - 8 {
            return false;
        }
        match self.pe.read_unalinged_from_offset::<ImageBaseRelocation>(self.offset) {
            Some(h) => !(h.size_of_block != 0 && self.offset < self.limit) || (h.size_of_block >= 8
                && h.size_of_block as usize <= usize::MAX - 8 - self.offset),
            None => true,
        }
    }

    pub fn next(&mut self) -> (r: Option<RelocDescriptor<'a>>)
        requires
            old(self).next_defined(),
        ensures
            final(self).pe() == old(self).pe(),
            final(self).limit() == old(self).limit(),
            r is Some ==> old(self).offset() < old(self).limit() && final(self).offset()
                >= old(self).offset() + 8,
            ({
                let s = old(self).pe().bytes();
                let o = old(self).offset();
                match old(self).next_header() {
                    None => r is None && final(self).offset() == o,
                    Some(h) => if h.size_of_block == 0 || o >= old(self).limit() || s.len() <= o + 8
                        + h.size_of_block {
                        r is None && final(self).offset() == o
                    } else {
                        &&& r matches Some(d)
                        &&& d.base_reloc == h
                        &&& d.list_count == (h.size_of_block - 8) / 2
                        &&& d.list_iter.remaining() == le_u16_slots(
                            s.subrange(o + 8, o + 8 + h.size_of_block),
                        )
                        &&& d.list_iter.base() == h.virtual_address
                        &&& !d.list_iter.skipping()
                        &&& final(self).offset() == o + h.size_of_block
                    },
                }
            }),
    {
        proof {
            use_type_invariant(&*self);
        }
        let base_reloc = match self.pe.read_unalinged_from_offset::<ImageBaseRelocation>(
            self.offset,
        ) {
            Some(b) => b,
            None => return None,
        };
        if base_reloc.size_of_block == 0 || self.offset >= self.limit {
            return None;
        }
        let list_count = ((base_reloc.size_of_block as usize) - ImageBaseRelocation::size()) / 2;
        let list_offset = self.offset + ImageBaseRelocation::size();
        let raw = self.pe.raw;
        if raw.len() <= list_offset + base_reloc.size_of_block as usize {
            return None;
        }
        let list_raw = &raw[list_offset..list_offset + base_reloc.size_of_block as usize];
        self.offset = self.offset + base_reloc.size_of_block as usize;
        Some(
            RelocDescriptor {
                base_reloc,
                list_iter: RelocListIter::new(list_raw, base_reloc.virtual_address),
                list_count,
            },
        )
    }
}

/// How many more blocks a walk at `offset` can yield before `limit`, when each
/// block is at least 8 bytes long.
pub open spec fn reloc_walk_bound(offset: int, limit: int) -> nat {
    if offset < limit {
        ((limit - offset + 7) / 8) as nat
    } else {
        0
    }
}

/// The relocation walk ends: every block it yields lies before the limit and
/// moves the walk on by at least 8 bytes, so the bound on the blocks still to
/// come drops with each one.
pub proof fn lemma_reloc_walk_ends(offset: int, next_offset: int, limit: int)
    requires
        offset < limit,
        next_offset >= offset + 8,
    ensures
        reloc_walk_bound(next_offset, limit) < reloc_walk_bound(offset, limit),
{
}

impl<'a> PEInfo<'a> {
    /// Walks the base relocation directory, when the NT headers are decoded and
    /// a section maps the directory.
    pub fn get_relocs(&self) -> (r: Option<RelocDescriptorIter<'_>>)
        requires
            self.wf(),
            self.dir_rva_defined(IMAGE_DIRECTORY_ENTRY_BASERELOC),
            self.dir_span_defined(IMAGE_DIRECTORY_ENTRY_BASERELOC),
        ensures
            match self.spec_data_dir(IMAGE_DIRECTORY_ENTRY_BASERELOC) {
                None => r is None,
                Some(dir) => match self.spec_rva_to_offset(dir.virtual_address) {
                    None => r is None,
                    Some(off) => r matches Some(it) && it.pe() == self && it.offset() == off
                        && it.limit() == off + dir.size,
                },
            },
    {
        let nt_header = match self.get_nt_header().as_ref() {
            Some(h) => h,
            None => return None,
        };
        let reloc_dir = nt_header.optional_header().data_directory(IMAGE_DIRECTORY_ENTRY_BASERELOC);
        let reloc_desc_offset = match self.rva_to_offset(reloc_dir.virtual_address) {
            Some(o) => o,
            None => return None,
        };
        Some(
            RelocDescriptorIter {
                pe: self,
                offset: reloc_desc_offset,
                limit: reloc_desc_offset + reloc_dir.size as usize,
            },
        )
    }
}

/// A decoded relocation block header holds the page RVA at 0 and the block
/// size at 4.
pub proof fn lemma_base_relocation_layout(s: Seq<u8>, off: int)
    ensures
        ImageBaseRelocation::spec_decode(s, off).virtual_address == le_u32(s, off),
        ImageBaseRelocation::spec_decode(s, off).size_of_block == le_u32(s, off + 4),
{
}

/// An entry's type is read from its top four bits: 0 is padding, 3 a 32-bit
/// (HIGHLOW) and 10 a 64-bit (DIR64) relocation, every other value unsupported;
/// the low 12 bits are the offset in the page.
pub proof fn lemma_reloc_type_classes(raw: u16)
    ensures
        raw >> 12u16 == 0 ==> spec_reloc_type(raw) == RelocType::TypeZero,
        raw >> 12u16 == 3 ==> spec_reloc_type(raw) == RelocType::Type32bit,
        raw >> 12u16 == 10 ==> spec_reloc_type(raw) == RelocType::Type64bit,
        (raw >> 12u16 != 0 && raw >> 12u16 != 3 && raw >> 12u16 != 10) ==> spec_reloc_type(raw)
            == RelocType::TypeUnSupported,
{
    assert((raw & 0xF000) == (raw >> 12u16) * 0x1000) by (bit_vector);
    assert(raw >> 12u16 < 16) by (bit_vector);
}

} // verus!
