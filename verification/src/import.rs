//! The import directory: one descriptor per imported DLL, and for each the
//! import name table, whose entries name a function or give its ordinal.

use vstd::prelude::*;
use vstd::string::StringSliceAdditionalSpecFns;

use crate::le::{le_u32, le_u64, lemma_slice_len_bound, read_u32, LeDecode};
use crate::pe::{ExeBit, PEInfo, IMAGE_DIRECTORY_ENTRY_IMPORT};
use crate::utils::{conv_str_from_u8array, spec_str_at, str_matches};

verus! {

/// One entry of an import name table, in the width of the image.
#[derive(Clone, Copy, Debug, PartialEq, Eq)]
pub enum ImageThunkDataEnum {
    Image32(u32),
    Image64(u64),
}

/// The value of an entry (the fields of the thunk union all share it).
pub open spec fn thunk_value(t: ImageThunkDataEnum) -> u64 {
    match t {
        ImageThunkDataEnum::Image32(v) => v as u64,
        ImageThunkDataEnum::Image64(v) => v,
    }
}

/// The bit that marks an import by ordinal.
pub open spec fn ordinal_flag(t: ImageThunkDataEnum) -> u64 {
    match t {
        ImageThunkDataEnum::Image32(_) => 0x8000_0000,
        ImageThunkDataEnum::Image64(_) => 0x8000_0000_0000_0000,
    }
}

pub open spec fn thunk_size(t: ImageThunkDataEnum) -> usize {
    match t {
        ImageThunkDataEnum::Image32(_) => 4,
        ImageThunkDataEnum::Image64(_) => 8,
    }
}

/// The low 32 bits of `v`.
pub open spec fn low_u32(v: u64) -> u32 {
    (v % 0x1_0000_0000) as u32
}

/// Where an import's name starts: after the 2-byte hint at the file offset of
/// its hint/name entry.
pub open spec fn hint_name_offset(entry_offset: int) -> int {
    entry_offset + 2
}

/// How an entry names its function.
#[derive(Clone, Copy, Debug, PartialEq, Eq)]
pub enum ImageThunkImportInfo<'a> {
    Ordinal(u64),
    Name(&'a str),
}

/// An import descriptor (20 bytes).
#[derive(Clone, Copy, Debug, PartialEq, Eq)]
pub struct ImageImportDescriptor {
    /// RVA of the import name table (also read as `Characteristics`).
    pub original_first_thunk: u32,
    pub time_date_stamp: u32,
    pub forwarder_chain: u32,
    /// RVA of the DLL's name.
    pub name: u32,
    /// RVA of the import address table.
    pub first_thunk: u32,
}

impl ImageImportDescriptor {
    /// The all-zero descriptor that ends the directory.
    pub open spec fn is_null(&self) -> bool {
        self.original_first_thunk == 0 && self.first_thunk == 0 && self.forwarder_chain == 0
            && self.name == 0 && self.time_date_stamp == 0
    }
}

impl LeDecode for ImageImportDescriptor {
    open spec fn spec_size() -> nat {
        20
    }

    open spec fn spec_decode(s: Seq<u8>, off: int) -> ImageImportDescriptor {
        ImageImportDescriptor {
            original_first_thunk: le_u32(s, off),
            time_date_stamp: le_u32(s, off + 4),
            forwarder_chain: le_u32(s, off + 8),
            name: le_u32(s, off + 12),
            first_thunk: le_u32(s, off + 16),
        }
    }

    fn size() -> (n: usize) {
        20
    }

    fn decode(s: &[u8], off: usize) -> (r: ImageImportDescriptor) {
        proof {
            lemma_slice_len_bound(s);
        }
        ImageImportDescriptor {
            original_first_thunk: read_u32(s, off),
            time_date_stamp: read_u32(s, off + 4),
            forwarder_chain: read_u32(s, off + 8),
            name: read_u32(s, off + 12),
            first_thunk: read_u32(s, off + 16),
        }
    }
}

/// An import descriptor of an image.
pub struct ImportDescriptor<'a> {
    pub pe: &'a PEInfo<'a>,
    pub desc: ImageImportDescriptor,
}

/// Walks the import descriptors, up to the null descriptor or the end of the
/// directory.
pub struct ImportDescriptorIter<'a> {
    pe: &'a PEInfo<'a>,
    offset: usize,
    limit: usize,
}

/// An entry of an import name table.
pub struct ImageThunkData<'a> {
    pub pe: &'a PEInfo<'a>,
    pub thunk: ImageThunkDataEnum,
}

/// Walks an import name table, up to its zero entry.
pub struct ImageThunkDataIter<'a> {
    pe: &'a PEInfo<'a>,
    thunk_offset: usize,
}

impl<'a> ImportDescriptor<'a> {
    pub open spec fn pe(&self) -> &'a PEInfo<'a> {
        self.pe
    }

    /// The descriptor as decoded (`desc`).
    pub open spec fn descriptor(&self) -> ImageImportDescriptor {
        self.desc
    }

    /// The name of the DLL.
    pub fn dll_name(&self) -> (r: Option<&'a str>)
        requires
            self.pe().wf(),
            self.pe().rva_defined(self.descriptor().name),
        ensures
            match self.pe().spec_rva_to_offset(self.descriptor().name) {
                None => r is None,
                Some(off) => str_matches(r, spec_str_at(self.pe().bytes(), off as int)),
            },
    {
        let str_offset = match self.pe.rva_to_offset(self.desc.name) {
            Some(o) => o,
            None => return None,
        };
        conv_str_from_u8array(self.pe.raw, str_offset)
    }

    /// Walks the DLL's import name table.
    pub fn get_int(&self) -> (r: Option<ImageThunkDataIter<'a>>)
        requires
            self.pe().wf(),
            self.pe().rva_defined(self.descriptor().original_first_thunk),
        ensures
            match self.pe().spec_rva_to_offset(self.descriptor().original_first_thunk) {
                None => r is None,
                Some(off) => r matches Some(it) && it.pe() == self.pe() && it.offset() == off,
            },
    {
        let thunk_offset = match self.pe.rva_to_offset(self.desc.original_first_thunk) {
            Some(o) => o,
            None => return None,
        };
        Some(ImageThunkDataIter { pe: self.pe, thunk_offset })
    }
}

impl<'a> ImportDescriptorIter<'a> {
    #[verifier::type_invariant]
    spec fn within_image(self) -> bool {
        &&& self.pe.wf()
        &&& self.offset <= self.pe.bytes().len()
        &&& self.limit <= self.pe.bytes().len()
    }

    pub closed spec fn pe(&self) -> &'a PEInfo<'a> {
        self.pe
    }

    /// The file offset of the next descriptor.
    pub closed spec fn offset(&self) -> usize {
        self.offset
    }

    /// The file offset at which the directory ends.
    pub closed spec fn limit(&self) -> usize {
        self.limit
    }

    pub fn next(&mut self) -> (r: Option<ImportDescriptor<'a>>)
        ensures
            final(self).pe() == old(self).pe(),
            final(self).limit() == old(self).limit(),
            ({
                let s = old(self).pe().bytes();
                let o = old(self).offset();
                let d = ImageImportDescriptor::spec_decode(s, o as int);
                if o >= old(self).limit() || s.len() < o + 20 || d.is_null() {
                    r is None && final(self).offset() == o
                } else {
                    &&& r matches Some(x)
                    &&& x.pe() == old(self).pe()
                    &&& x.descriptor() == d
                    &&& final(self).offset() == o + 20
                }
            }),
    {
        proof {
            use_type_invariant(&*self);
        }
        if self.offset >= self.limit {
            return None;
        }
        let desc = match self.pe.read_unalinged_from_offset::<ImageImportDescriptor>(self.offset) {
            Some(d) => d,
            None => return None,
        };
        if desc.original_first_thunk == 0 && desc.first_thunk == 0 && desc.forwarder_chain == 0
            && desc.name == 0 && desc.time_date_stamp == 0 {
            return None;
        }
        self.offset = self.offset + ImageImportDescriptor::size();
        Some(ImportDescriptor { pe: self.pe, desc: desc })
    }
}

impl<'a> ImageThunkData<'a> {
    pub open spec fn pe(&self) -> &'a PEInfo<'a> {
        self.pe
    }

    /// The entry as decoded (`thunk`).
    pub open spec fn entry(&self) -> ImageThunkDataEnum {
        self.thunk
    }

    pub fn forwarder_string(&self) -> (r: u64)
        ensures
            r == thunk_value(self.entry()),
    {
        match self.thunk {
            ImageThunkDataEnum::Image32(h) => h as u64,
            ImageThunkDataEnum::Image64(h) => h,
        }
    }

    pub fn function(&self) -> (r: u64)
        ensures
            r == thunk_value(self.entry()),
    {
        match self.thunk {
            ImageThunkDataEnum::Image32(h) => h as u64,
            ImageThunkDataEnum::Image64(h) => h,
        }
    }

    pub fn oridinal(&self) -> (r: u64)
        ensures
            r == thunk_value(self.entry()),
    {
        match self.thunk {
            ImageThunkDataEnum::Image32(h) => h as u64,
            ImageThunkDataEnum::Image64(h) => h,
        }
    }

    pub fn address_of_data(&self) -> (r: u64)
        ensures
            r == thunk_value(self.entry()),
    {
        match self.thunk {
            ImageThunkDataEnum::Image32(h) => h as u64,
            ImageThunkDataEnum::Image64(h) => h,
        }
    }

    /// The number of bytes the entry occupies.
    pub fn size(&self) -> (r: usize)
        ensures
            r == thunk_size(self.entry()),
    {
        match self.thunk {
            ImageThunkDataEnum::Image32(_) => 4,
            ImageThunkDataEnum::Image64(_) => 8,
        }
    }

    /// Whether this is the zero entry that ends the table.
    pub fn is_zero(&self) -> (r: bool)
        ensures
            r == (thunk_value(self.entry()) == 0),
    {
        self.forwarder_string() == 0
    }

    /// For an import by name, translating the name's RVA stays within `u32`
    /// and stepping over the hint stays within `usize`.
    pub open spec fn name_defined(&self) -> bool {
        let v = thunk_value(self.entry());
        v & ordinal_flag(self.entry()) == 0 ==> {
            &&& self.pe().rva_defined(low_u32(v))
            &&& self.pe().spec_rva_to_offset(low_u32(v)) matches Some(o) ==> o + 2 <= usize::MAX
        }
    }

    /// The function's ordinal, when the ordinal flag is set; else its name,
    /// which follows the 2-byte hint at the RVA that the low 32 bits give.
    pub fn get_name(&self) -> (r: Option<ImageThunkImportInfo<'a>>)
        requires
            self.pe().wf(),
            self.name_defined(),
        ensures
            ({
                let v = thunk_value(self.entry());
                let flag = ordinal_flag(self.entry());
                if v & flag != 0 {
                    r == Some(ImageThunkImportInfo::<'a>::Ordinal(v ^ flag))
                } else {
                    match self.pe().spec_rva_to_offset(low_u32(v)) {
                        None => r is None,
                        Some(off) => match spec_str_at(self.pe().bytes(), hint_name_offset(off as int)) {
                            None => r is None,
                            Some(b) => r matches Some(ImageThunkImportInfo::Name(t))
                                && t.spec_bytes() == b,
                        },
                    }
                }
            }),
    {
        let ordinal = self.oridinal();
        let flag: u64 = match self.thunk {
            ImageThunkDataEnum::Image32(_) => 0x80000000,
            ImageThunkDataEnum::Image64(_) => 0x8000000000000000,
        };
        if ordinal & flag != 0 {
            return Some(ImageThunkImportInfo::Ordinal(ordinal ^ flag));
        }
        let address = self.address_of_data();
        let rva = (address & 0xFFFF_FFFF) as u32;
        assert(address & 0xFFFF_FFFF == address % 0x1_0000_0000) by (bit_vector);
        let str_offset = match self.pe.rva_to_offset(rva) {
            Some(o) => o + 2,
            None => return None,
        };
        let name = match conv_str_from_u8array(self.pe.raw, str_offset) {
            Some(n) => n,
            None => return None,
        };
        Some(ImageThunkImportInfo::Name(name))
    }
}

/// An import by ordinal reports the entry with its flag bit cleared.
pub proof fn lemma_ordinal_clears_flag(v: u64, flag: u64)
    requires
        flag == 0x8000_0000 || flag == 0x8000_0000_0000_0000,
        v & flag != 0,
    ensures
        v ^ flag == v - flag,
        (v ^ flag) & flag == 0,
{
    assert(v & flag != 0 && (flag == 0x8000_0000u64 || flag == 0x8000_0000_0000_0000u64) ==> v
        >= flag && v ^ flag == v - flag && (v ^ flag) & flag == 0) by (bit_vector);
}

impl<'a> ImageThunkDataIter<'a> {
    #[verifier::type_invariant]
    spec fn within_image(self) -> bool {
        &&& self.pe.wf()
        &&& (self.thunk_offset <= u32::MAX || self.thunk_offset <= self.pe.bytes().len())
    }

    pub closed spec fn pe(&self) -> &'a PEInfo<'a> {
        self.pe
    }

    /// The file offset of the next entry.
    pub closed spec fn offset(&self) -> usize {
        self.thunk_offset
    }

    /// The width of the image's entries (0 when the width is unknown).
    pub open spec fn entry_width(&self) -> nat {
        match self.pe().exe_bit() {
            ExeBit::Bit32 => 4,
            ExeBit::Bit64 => 8,
            ExeBit::Unknown => 0,
        }
    }

    /// Reading the next entry stays within `usize`.
    pub open spec fn next_defined(&self) -> bool {
        self.offset() + self.entry_width() <= usize::MAX
    }

    /// Whether `next` can be called on the walk as it stands.
    pub fn can_advance(&self) -> (b: bool)
        ensures
            b == self.next_defined(),
    {
        let width: usize = match self.pe.bit {
            ExeBit::Bit32 => 4,
            ExeBit::Bit64 => 8,
            ExeBit::Unknown => 0,
        };
        self.thunk_offset <= usize::MAX - width
    }

    /// The next entry, in the width of the image, if the image holds it.
    pub open spec fn next_thunk(&self) -> Option<ImageThunkDataEnum> {
        let s = self.pe().bytes();
        let o = self.offset();
        match self.pe().exe_bit() {
            ExeBit::Bit32 => if s.len() < o + 4 {
                None
            } else {
                Some(ImageThunkDataEnum::Image32(le_u32(s, o as int)))
            },
            ExeBit::Bit64 => if s.len() < o + 8 {
                None
            } else {
                Some(ImageThunkDataEnum::Image64(le_u64(s, o as int)))
            },
            ExeBit::Unknown => None,
        }
    }

    pub fn next(&mut self) -> (r: Option<ImageThunkData<'a>>)
        requires
            old(self).next_defined(),
        ensures
            final(self).pe() == old(self).pe(),
            match old(self).next_thunk() {
                None => r is None && final(self).offset() == old(self).offset(),
                Some(t) => if thunk_value(t) == 0 {
                    r is None && final(self).offset() == old(self).offset()
                } else {
                    &&& r matches Some(d)
                    &&& d.pe() == old(self).pe()
                    &&& d.entry() == t
                    &&& final(self).offset() == old(self).offset() + thunk_size(t)
                },
            },
    {
        proof {
            use_type_invariant(&*self);
        }
        let thunk = match self.pe.bit {
            ExeBit::Bit32 => {
                match self.pe.read_unalinged_from_offset::<u32>(self.thunk_offset) {
                    Some(t) => ImageThunkDataEnum::Image32(t),
                    None => return None,
                }
            },
            ExeBit::Bit64 => {
                match self.pe.read_unalinged_from_offset::<u64>(self.thunk_offset) {
                    Some(t) => ImageThunkDataEnum::Image64(t),
                    None => return None,
                }
            },
            _ => return None,
        };
        let thunk_data = ImageThunkData { pe: self.pe, thunk };
        if thunk_data.is_zero() {
            return None;
        }
        self.thunk_offset = self.thunk_offset + thunk_data.size();
        Some(thunk_data)
    }
}

impl<'a> PEInfo<'a> {
    /// Walks the import directory, when the NT headers are decoded, a section
    /// maps the directory and the image holds all of it.
    pub fn get_imports(&self) -> (r: Option<ImportDescriptorIter<'_>>)
        requires
            self.wf(),
            self.dir_rva_defined(IMAGE_DIRECTORY_ENTRY_IMPORT),
            self.dir_span_defined(IMAGE_DIRECTORY_ENTRY_IMPORT),
        ensures
            match self.spec_data_dir(IMAGE_DIRECTORY_ENTRY_IMPORT) {
                None => r is None,
                Some(dir) => match self.spec_rva_to_offset(dir.virtual_address) {
                    None => r is None,
                    Some(off) => if self.bytes().len() < off + dir.size {
                        r is None
                    } else {
                        r matches Some(it) && it.pe() == self && it.offset() == off && it.limit()
                            == off + dir.size
                    },
                },
            },
    {
        let nt_headedr = match self.get_nt_header().as_ref() {
            Some(h) => h,
            None => return None,
        };
        let image_dir = nt_headedr.optional_header().data_directory(IMAGE_DIRECTORY_ENTRY_IMPORT);
        let import_desc_offset = match self.rva_to_offset(image_dir.virtual_address) {
            Some(o) => o,
            None => return None,
        };
        if self.raw.len() < import_desc_offset + image_dir.size as usize {
            return None;
        }
        Some(
            ImportDescriptorIter {
                pe: self,
                offset: import_desc_offset,
                limit: import_desc_offset + image_dir.size as usize,
            },
        )
    }
}

/// Every field of a decoded import descriptor is the `u32` stored at its
/// offset: name table at 0, time stamp at 4, forwarder chain at 8, DLL name at
/// 12, address table at 16.
pub proof fn lemma_import_descriptor_layout(s: Seq<u8>, off: int)
    ensures
        ({
            let d = ImageImportDescriptor::spec_decode(s, off);
            &&& d.original_first_thunk == le_u32(s, off)
            &&& d.time_date_stamp == le_u32(s, off + 4)
            &&& d.forwarder_chain == le_u32(s, off + 8)
            &&& d.name == le_u32(s, off + 12)
            &&& d.first_thunk == le_u32(s, off + 16)
        }),
{
}

/// The RVA of an import by name is the entry's low 32 bits: an entry value
/// below 2^32 (every 32-bit entry) is the RVA itself, and the bits above 31 of
/// a 64-bit entry do not change it.
pub proof fn lemma_low_u32(v: u64)
    ensures
        v < 0x1_0000_0000 ==> low_u32(v) == v,
        low_u32(v) as u64 == v & 0xFFFF_FFFF,
        v >= 0x1_0000_0000 ==> low_u32(v) == low_u32((v - 0x1_0000_0000) as u64),
{
    assert(v & 0xFFFF_FFFF == v % 0x1_0000_0000) by (bit_vector);
}

/// An entry of a 32-bit import name table names its function at its own value
/// as RVA.
pub proof fn lemma_thunk32_name_rva(x: u32)
    ensures
        low_u32(thunk_value(ImageThunkDataEnum::Image32(x))) == x,
{
}

/// The ordinal flag is the top bit of the entry's width, which is 4 bytes for
/// a 32-bit and 8 bytes for a 64-bit image.
pub proof fn lemma_thunk_widths(t: ImageThunkDataEnum)
    ensures
        t is Image32 ==> ordinal_flag(t) == 1u64 << 31u64 && thunk_size(t) == 4,
        t is Image64 ==> ordinal_flag(t) == 1u64 << 63u64 && thunk_size(t) == 8,
{
    assert(1u64 << 31u64 == 0x8000_0000u64) by (bit_vector);
    assert(1u64 << 63u64 == 0x8000_0000_0000_0000u64) by (bit_vector);
}

/// An import's name is read right after the 2-byte hint that opens its
/// hint/name entry.
pub proof fn lemma_hint_name_offset(entry_offset: int)
    ensures
        hint_name_offset(entry_offset) == entry_offset + 2,
{
}

} // verus!
