//! The image headers: DOS header, NT headers (32- and 64-bit), the section
//! table, and `PEInfo`, which decodes them from the raw bytes of an image and
//! translates relative virtual addresses (RVAs) to file offsets.

use vstd::prelude::*;

use crate::le::{
    le_i32, le_u16, le_u32, le_u64, lemma_slice_len_bound, read_i32, read_u16, read_u32, read_u64,
    LeDecode,
};

verus! {

pub const IMAGE_FILE_MACHINE_ALPHA64: u16 = 0x0284;

pub const IMAGE_FILE_MACHINE_AMD64: u16 = 0x8664;

pub const IMAGE_FILE_MACHINE_ARM64: u16 = 0xAA64;

pub const IMAGE_FILE_MACHINE_IA64: u16 = 0x0200;

pub const IMAGE_DIRECTORY_ENTRY_EXPORT: u16 = 0;

pub const IMAGE_DIRECTORY_ENTRY_IMPORT: u16 = 1;

pub const IMAGE_DIRECTORY_ENTRY_EXCEPTION: u16 = 3;

pub const IMAGE_DIRECTORY_ENTRY_BASERELOC: u16 = 5;

/// Whether the image was built for a 32- or 64-bit machine (`Unknown` until the
/// NT headers are found).
#[derive(Clone, Copy, Debug, PartialEq, Eq, Structural)]
pub enum ExeBit {
    Unknown,
    Bit32,
    Bit64,
}

/// The machine types whose images carry the 64-bit NT headers.
pub open spec fn is_64bit_machine(machine: u16) -> bool {
    machine == IMAGE_FILE_MACHINE_ALPHA64 || machine == IMAGE_FILE_MACHINE_AMD64 || machine
        == IMAGE_FILE_MACHINE_ARM64 || machine == IMAGE_FILE_MACHINE_IA64
}

/// The fields of the DOS header that the image layout depends on.
#[derive(Clone, Copy, Debug, PartialEq, Eq)]
pub struct DosHeader {
    pub e_magic: u16,
    /// File offset of the NT headers.
    pub e_lfanew: i32,
}

impl LeDecode for DosHeader {
    open spec fn spec_size() -> nat {
        64
    }

    open spec fn spec_decode(s: Seq<u8>, off: int) -> DosHeader {
        DosHeader { e_magic: le_u16(s, off), e_lfanew: le_i32(s, off + 60) }
    }

    fn size() -> (n: usize) {
        64
    }

    fn decode(s: &[u8], off: usize) -> (r: DosHeader) {
        proof {
            lemma_slice_len_bound(s);
        }
        DosHeader { e_magic: read_u16(s, off), e_lfanew: read_i32(s, off + 60) }
    }
}

#[derive(Clone, Copy, Debug, PartialEq, Eq)]
pub struct FileHeader {
    pub machine: u16,
    pub number_of_sections: u16,
    pub time_date_stamp: u32,
    pub pointer_to_symbol_table: u32,
    pub number_of_symbols: u32,
    pub size_of_optional_header: u16,
    pub characteristics: u16,
}

impl LeDecode for FileHeader {
    open spec fn spec_size() -> nat {
        20
    }

    open spec fn spec_decode(s: Seq<u8>, off: int) -> FileHeader {
        FileHeader {
            machine: le_u16(s, off),
            number_of_sections: le_u16(s, off + 2),
            time_date_stamp: le_u32(s, off + 4),
            pointer_to_symbol_table: le_u32(s, off + 8),
            number_of_symbols: le_u32(s, off + 12),
            size_of_optional_header: le_u16(s, off + 16),
            characteristics: le_u16(s, off + 18),
        }
    }

    fn size() -> (n: usize) {
        20
    }

    fn decode(s: &[u8], off: usize) -> (r: FileHeader) {
        proof {
            lemma_slice_len_bound(s);
        }
        FileHeader {
            machine: read_u16(s, off),
            number_of_sections: read_u16(s, off + 2),
            time_date_stamp: read_u32(s, off + 4),
            pointer_to_symbol_table: read_u32(s, off + 8),
            number_of_symbols: read_u32(s, off + 12),
            size_of_optional_header: read_u16(s, off + 16),
            characteristics: read_u16(s, off + 18),
        }
    }
}

/// One entry of the data directory: where a table lies in the image and how
/// large it is.
#[derive(Clone, Copy, Debug, PartialEq, Eq)]
pub struct DataDirectory {
    pub virtual_address: u32,
    pub size: u32,
}

impl LeDecode for DataDirectory {
    open spec fn spec_size() -> nat {
        8
    }

    open spec fn spec_decode(s: Seq<u8>, off: int) -> DataDirectory {
        DataDirectory { virtual_address: le_u32(s, off), size: le_u32(s, off + 4) }
    }

    fn size() -> (n: usize) {
        8
    }

    fn decode(s: &[u8], off: usize) -> (r: DataDirectory) {
        proof {
            lemma_slice_len_bound(s);
        }
        DataDirectory { virtual_address: read_u32(s, off), size: read_u32(s, off + 4) }
    }
}

/// The sixteen data directory entries stored from `s[off]` on.
pub open spec fn spec_data_directories(s: Seq<u8>, off: int) -> [DataDirectory; 16] {
    [
        DataDirectory::spec_decode(s, off),
        DataDirectory::spec_decode(s, off + 8),
        DataDirectory::spec_decode(s, off + 16),
        DataDirectory::spec_decode(s, off + 24),
        DataDirectory::spec_decode(s, off + 32),
        DataDirectory::spec_decode(s, off + 40),
        DataDirectory::spec_decode(s, off + 48),
        DataDirectory::spec_decode(s, off + 56),
        DataDirectory::spec_decode(s, off + 64),
        DataDirectory::spec_decode(s, off + 72),
        DataDirectory::spec_decode(s, off + 80),
        DataDirectory::spec_decode(s, off + 88),
        DataDirectory::spec_decode(s, off + 96),
        DataDirectory::spec_decode(s, off + 104),
        DataDirectory::spec_decode(s, off + 112),
        DataDirectory::spec_decode(s, off + 120),
    ]
}

fn read_data_directories(s: &[u8], off: usize) -> (r: [DataDirectory; 16])
    requires
        off + 128 <= s@.len(),
    ensures
        r == spec_data_directories(s@, off as int),
{
    proof {
        lemma_slice_len_bound(s);
    }
    [
        DataDirectory::decode(s, off),
        DataDirectory::decode(s, off + 8),
        DataDirectory::decode(s, off + 16),
        DataDirectory::decode(s, off + 24),
        DataDirectory::decode(s, off + 32),
        DataDirectory::decode(s, off + 40),
        DataDirectory::decode(s, off + 48),
        DataDirectory::decode(s, off + 56),
        DataDirectory::decode(s, off + 64),
        DataDirectory::decode(s, off + 72),
        DataDirectory::decode(s, off + 80),
        DataDirectory::decode(s, off + 88),
        DataDirectory::decode(s, off + 96),
        DataDirectory::decode(s, off + 104),
        DataDirectory::decode(s, off + 112),
        DataDirectory::decode(s, off + 120),
    ]
}

/// The optional header of a 32-bit image (224 bytes).
#[derive(Clone, Copy, Debug, PartialEq, Eq)]
pub struct OptionalHeader32 {
    pub magic: u16,
    pub size_of_code: u32,
    pub address_of_entry_point: u32,
    pub image_base: u32,
    pub size_of_image: u32,
    pub number_of_rva_and_sizes: u32,
    pub data_directory: [DataDirectory; 16],
}

impl LeDecode for OptionalHeader32 {
    open spec fn spec_size() -> nat {
        224
    }

    open spec fn spec_decode(s: Seq<u8>, off: int) -> OptionalHeader32 {
        OptionalHeader32 {
            magic: le_u16(s, off),
            size_of_code: le_u32(s, off + 4),
            address_of_entry_point: le_u32(s, off + 16),
            image_base: le_u32(s, off + 28),
            size_of_image: le_u32(s, off + 56),
            number_of_rva_and_sizes: le_u32(s, off + 92),
            data_directory: spec_data_directories(s, off + 96),
        }
    }

    fn size() -> (n: usize) {
        224
    }

    fn decode(s: &[u8], off: usize) -> (r: OptionalHeader32) {
        proof {
            lemma_slice_len_bound(s);
        }
        OptionalHeader32 {
            magic: read_u16(s, off),
            size_of_code: read_u32(s, off + 4),
            address_of_entry_point: read_u32(s, off + 16),
            image_base: read_u32(s, off + 28),
            size_of_image: read_u32(s, off + 56),
            number_of_rva_and_sizes: read_u32(s, off + 92),
            data_directory: read_data_directories(s, off + 96),
        }
    }
}

/// The optional header of a 64-bit image (240 bytes).
#[derive(Clone, Copy, Debug, PartialEq, Eq)]
pub struct OptionalHeader64 {
    pub magic: u16,
    pub size_of_code: u32,
    pub address_of_entry_point: u32,
    pub image_base: u64,
    pub size_of_image: u32,
    pub number_of_rva_and_sizes: u32,
    pub data_directory: [DataDirectory; 16],
}

impl LeDecode for OptionalHeader64 {
    open spec fn spec_size() -> nat {
        240
    }

    open spec fn spec_decode(s: Seq<u8>, off: int) -> OptionalHeader64 {
        OptionalHeader64 {
            magic: le_u16(s, off),
            size_of_code: le_u32(s, off + 4),
            address_of_entry_point: le_u32(s, off + 16),
            image_base: le_u64(s, off + 24),
            size_of_image: le_u32(s, off + 56),
            number_of_rva_and_sizes: le_u32(s, off + 108),
            data_directory: spec_data_directories(s, off + 112),
        }
    }

    fn size() -> (n: usize) {
        240
    }

    fn decode(s: &[u8], off: usize) -> (r: OptionalHeader64) {
        proof {
            lemma_slice_len_bound(s);
        }
        OptionalHeader64 {
            magic: read_u16(s, off),
            size_of_code: read_u32(s, off + 4),
            address_of_entry_point: read_u32(s, off + 16),
            image_base: read_u64(s, off + 24),
            size_of_image: read_u32(s, off + 56),
            number_of_rva_and_sizes: read_u32(s, off + 108),
            data_directory: read_data_directories(s, off + 112),
        }
    }
}

/// The NT headers of a 32-bit image (248 bytes).
#[derive(Clone, Copy, Debug, PartialEq, Eq)]
pub struct NtHeaders32 {
    pub signature: u32,
    pub file_header: FileHeader,
    pub optional_header: OptionalHeader32,
}

impl LeDecode for NtHeaders32 {
    open spec fn spec_size() -> nat {
        248
    }

    open spec fn spec_decode(s: Seq<u8>, off: int) -> NtHeaders32 {
        NtHeaders32 {
            signature: le_u32(s, off),
            file_header: FileHeader::spec_decode(s, off + 4),
            optional_header: OptionalHeader32::spec_decode(s, off + 24),
        }
    }

    fn size() -> (n: usize) {
        248
    }

    fn decode(s: &[u8], off: usize) -> (r: NtHeaders32) {
        proof {
            lemma_slice_len_bound(s);
        }
        NtHeaders32 {
            signature: read_u32(s, off),
            file_header: FileHeader::decode(s, off + 4),
            optional_header: OptionalHeader32::decode(s, off + 24),
        }
    }
}

/// The NT headers of a 64-bit image (264 bytes).
#[derive(Clone, Copy, Debug, PartialEq, Eq)]
pub struct NtHeaders64 {
    pub signature: u32,
    pub file_header: FileHeader,
    pub optional_header: OptionalHeader64,
}

impl LeDecode for NtHeaders64 {
    open spec fn spec_size() -> nat {
        264
    }

    open spec fn spec_decode(s: Seq<u8>, off: int) -> NtHeaders64 {
        NtHeaders64 {
            signature: le_u32(s, off),
            file_header: FileHeader::spec_decode(s, off + 4),
            optional_header: OptionalHeader64::spec_decode(s, off + 24),
        }
    }

    fn size() -> (n: usize) {
        264
    }

    fn decode(s: &[u8], off: usize) -> (r: NtHeaders64) {
        proof {
            lemma_slice_len_bound(s);
        }
        NtHeaders64 {
            signature: read_u32(s, off),
            file_header: FileHeader::decode(s, off + 4),
            optional_header: OptionalHeader64::decode(s, off + 24),
        }
    }
}

/// One entry of the section table (40 bytes).
#[derive(Clone, Copy, Debug, PartialEq, Eq)]
pub struct SectionHeader {
    pub name: [u8; 8],
    pub virtual_size: u32,
    pub virtual_address: u32,
    pub size_of_raw_data: u32,
    pub pointer_to_raw_data: u32,
    pub pointer_to_relocations: u32,
    pub pointer_to_linenumbers: u32,
    pub number_of_relocations: u16,
    pub number_of_linenumbers: u16,
    pub characteristics: u32,
}

impl LeDecode for SectionHeader {
    open spec fn spec_size() -> nat {
        40
    }

    open spec fn spec_decode(s: Seq<u8>, off: int) -> SectionHeader {
        SectionHeader {
            name: [
                s[off],
                s[off + 1],
                s[off + 2],
                s[off + 3],
                s[off + 4],
                s[off + 5],
                s[off + 6],
                s[off + 7],
            ],
            virtual_size: le_u32(s, off + 8),
            virtual_address: le_u32(s, off + 12),
            size_of_raw_data: le_u32(s, off + 16),
            pointer_to_raw_data: le_u32(s, off + 20),
            pointer_to_relocations: le_u32(s, off + 24),
            pointer_to_linenumbers: le_u32(s, off + 28),
            number_of_relocations: le_u16(s, off + 32),
            number_of_linenumbers: le_u16(s, off + 34),
            characteristics: le_u32(s, off + 36),
        }
    }

    fn size() -> (n: usize) {
        40
    }

    fn decode(s: &[u8], off: usize) -> (r: SectionHeader) {
        proof {
            lemma_slice_len_bound(s);
        }
        SectionHeader {
            name: [
                s[off],
                s[off + 1],
                s[off + 2],
                s[off + 3],
                s[off + 4],
                s[off + 5],
                s[off + 6],
                s[off + 7],
            ],
            virtual_size: read_u32(s, off + 8),
            virtual_address: read_u32(s, off + 12),
            size_of_raw_data: read_u32(s, off + 16),
            pointer_to_raw_data: read_u32(s, off + 20),
            pointer_to_relocations: read_u32(s, off + 24),
            pointer_to_linenumbers: read_u32(s, off + 28),
            number_of_relocations: read_u16(s, off + 32),
            number_of_linenumbers: read_u16(s, off + 34),
            characteristics: read_u32(s, off + 36),
        }
    }
}

/// The NT headers, in the variant the machine type selects.
#[derive(Clone, Copy, Debug, PartialEq, Eq)]
pub enum NTHeader {
    Image32(NtHeaders32),
    Image64(NtHeaders64),
}

/// The optional header, in the variant of the NT headers it belongs to.
#[derive(Clone, Copy, Debug, PartialEq, Eq)]
pub enum OptionalHeader {
    Image32(OptionalHeader32),
    Image64(OptionalHeader64),
}

impl NTHeader {
    #[verifier::allow_in_spec]
    pub fn signature(&self) -> u32
        returns
            (match self {
                NTHeader::Image32(h) => h.signature,
                NTHeader::Image64(h) => h.signature,
            }),
    {
        match self {
            NTHeader::Image32(h) => h.signature,
            NTHeader::Image64(h) => h.signature,
        }
    }

    #[verifier::allow_in_spec]
    pub fn file_header(&self) -> FileHeader
        returns
            (match self {
                NTHeader::Image32(h) => h.file_header,
                NTHeader::Image64(h) => h.file_header,
            }),
    {
        match self {
            NTHeader::Image32(h) => h.file_header,
            NTHeader::Image64(h) => h.file_header,
        }
    }

    #[verifier::allow_in_spec]
    pub fn optional_header(&self) -> OptionalHeader
        returns
            (match self {
                NTHeader::Image32(h) => OptionalHeader::Image32(h.optional_header),
                NTHeader::Image64(h) => OptionalHeader::Image64(h.optional_header),
            }),
    {
        match self {
            NTHeader::Image32(h) => OptionalHeader::Image32(h.optional_header),
            NTHeader::Image64(h) => OptionalHeader::Image64(h.optional_header),
        }
    }

    /// The number of bytes the headers occupy in the image.
    #[verifier::allow_in_spec]
    pub fn size(&self) -> usize
        returns
            (match self {
                NTHeader::Image32(_) => 248usize,
                NTHeader::Image64(_) => 264usize,
            }),
    {
        match self {
            NTHeader::Image32(_) => NtHeaders32::size(),
            NTHeader::Image64(_) => NtHeaders64::size(),
        }
    }
}

impl OptionalHeader {
    #[verifier::allow_in_spec]
    pub fn size_of_code(&self) -> u32
        returns
            (match self {
                OptionalHeader::Image32(h) => h.size_of_code,
                OptionalHeader::Image64(h) => h.size_of_code,
            }),
    {
        match self {
            OptionalHeader::Image32(h) => h.size_of_code,
            OptionalHeader::Image64(h) => h.size_of_code,
        }
    }

    /// The data directory entry at `index` (one of the `IMAGE_DIRECTORY_ENTRY_*`
    /// constants).
    #[verifier::allow_in_spec]
    pub fn data_directory(&self, index: u16) -> DataDirectory
        requires
            index < 16,
        returns
            (match self {
                OptionalHeader::Image32(h) => h.data_directory@[index as int],
                OptionalHeader::Image64(h) => h.data_directory@[index as int],
            }),
    {
        match self {
            OptionalHeader::Image32(h) => h.data_directory[index as usize],
            OptionalHeader::Image64(h) => h.data_directory[index as usize],
        }
    }
}

/// The file offset that `e_lfanew` names once converted to `usize` (a
/// negative value wraps around, as the two's-complement conversion does).
pub open spec fn lfanew_offset(e_lfanew: i32) -> int {
    if e_lfanew >= 0 {
        e_lfanew as int
    } else {
        e_lfanew + usize::MAX + 1
    }
}

/// The size of the NT headers that an image of the given machine type carries.
pub open spec fn nt_size_for_machine(machine: u16) -> int {
    if is_64bit_machine(machine) {
        264
    } else {
        248
    }
}

/// The images whose headers can be decoded: the offset of the NT headers
/// must not overflow when the size of the 64-bit headers is added to it, and
/// a section table that the headers announce must lie within the bytes.
pub open spec fn pe_input_defined(s: Seq<u8>) -> bool {
    s.len() >= 64 ==> {
        let off = lfanew_offset(le_i32(s, 60));
        &&& off + 264 <= usize::MAX
        &&& off + 264 <= s.len() ==> {
            let count = le_u16(s, off + 6);
            count == 0 || off + nt_size_for_machine(le_u16(s, off + 4)) + 40 * count <= s.len()
        }
    }
}

/// The DOS header, when the image is long enough to hold one.
pub open spec fn spec_dos_header(s: Seq<u8>) -> Option<DosHeader> {
    if s.len() < 64 {
        None
    } else {
        Some(DosHeader::spec_decode(s, 0))
    }
}

/// The offset of the NT headers, when the image holds the 64-bit headers' worth
/// of bytes there.
pub open spec fn spec_offset_nt(s: Seq<u8>) -> Option<usize> {
    if s.len() < 64 {
        None
    } else {
        let off = lfanew_offset(le_i32(s, 60));
        if s.len() < off + 264 {
            None
        } else {
            Some(off as usize)
        }
    }
}

/// The NT headers stored at `off`, in the variant that their machine type
/// selects.
pub open spec fn spec_nt_header_at(s: Seq<u8>, off: int) -> NTHeader {
    if is_64bit_machine(le_u16(s, off + 4)) {
        NTHeader::Image64(NtHeaders64::spec_decode(s, off))
    } else {
        NTHeader::Image32(NtHeaders32::spec_decode(s, off))
    }
}

/// The width of an image with the NT headers `nt`.
pub open spec fn bit_of(nt: NTHeader) -> ExeBit {
    match nt {
        NTHeader::Image32(_) => ExeBit::Bit32,
        NTHeader::Image64(_) => ExeBit::Bit64,
    }
}

/// `count` section headers stored one after another from `off` on.
pub open spec fn spec_sections_at(s: Seq<u8>, off: int, count: nat) -> Seq<SectionHeader> {
    Seq::new(count, |i: int| SectionHeader::spec_decode(s, off + 40 * i))
}

/// The NT headers, decoded in the variant that the machine type selects.
pub open spec fn spec_nt_header(s: Seq<u8>) -> Option<NTHeader> {
    match spec_offset_nt(s) {
        None => None,
        Some(off) => Some(spec_nt_header_at(s, off as int)),
    }
}

pub open spec fn spec_exe_bit(s: Seq<u8>) -> ExeBit {
    match spec_nt_header(s) {
        None => ExeBit::Unknown,
        Some(nt) => bit_of(nt),
    }
}

/// The section table: `number_of_sections` entries right after the NT headers.
pub open spec fn spec_section_table(s: Seq<u8>) -> Option<Seq<SectionHeader>> {
    match (spec_offset_nt(s), spec_nt_header(s)) {
        (Some(off), Some(nt)) => Some(
            spec_sections_at(s, off + nt.size(), nt.file_header().number_of_sections as nat),
        ),
        _ => None,
    }
}

/// Whether the section `h` maps `rva` (its raw data covers it).
pub open spec fn section_holds(h: SectionHeader, rva: u32) -> bool {
    h.virtual_address <= rva && h.virtual_address + h.size_of_raw_data > rva
}

/// The file offset of `rva` in the first section from `secs[i]` on that holds it.
pub open spec fn rva_lookup_from(secs: Seq<SectionHeader>, rva: u32, i: int) -> Option<usize>
    decreases secs.len() - i,
{
    if i < 0 || i >= secs.len() {
        None
    } else if section_holds(secs[i], rva) {
        Some((secs[i].pointer_to_raw_data + rva - secs[i].virtual_address) as usize)
    } else {
        rva_lookup_from(secs, rva, i + 1)
    }
}

/// The lookup of `rva` from `secs[i]` on stays within `u32`: for each section
/// it inspects, `virtual_address + size_of_raw_data` and, for the section that
/// holds `rva`, `pointer_to_raw_data + rva`.
pub open spec fn rva_lookup_defined_from(secs: Seq<SectionHeader>, rva: u32, i: int) -> bool
    decreases secs.len() - i,
{
    if i < 0 || i >= secs.len() {
        true
    } else {
        let h = secs[i];
        &&& h.virtual_address <= rva ==> h.virtual_address + h.size_of_raw_data <= u32::MAX
        &&& section_holds(h, rva) ==> h.pointer_to_raw_data + rva <= u32::MAX
        &&& !section_holds(h, rva) ==> rva_lookup_defined_from(secs, rva, i + 1)
    }
}

/// A decoded image. `raw` holds the file's bytes; the headers are decoded
/// once, when the value is made.
pub struct PEInfo<'a> {
    pub raw: &'a [u8],
    pub bit: ExeBit,
    pub offset_nt: Option<usize>,
    pub nt_header: Option<NTHeader>,
    pub section_headers: Option<Vec<SectionHeader>>,
}

impl<'a> PEInfo<'a> {
    /// The bytes of the image.
    pub open spec fn bytes(&self) -> Seq<u8> {
        self.raw@
    }

    pub open spec fn exe_bit(&self) -> ExeBit {
        self.bit
    }

    pub open spec fn nt_offset(&self) -> Option<usize> {
        self.offset_nt
    }

    pub open spec fn nt(&self) -> Option<NTHeader> {
        self.nt_header
    }

    pub open spec fn sections(&self) -> Option<Seq<SectionHeader>> {
        match self.section_headers {
            Some(v) => Some(v@),
            None => None,
        }
    }

    /// The decoded headers are those of `bytes()` (which, as every slice, hold
    /// at most `isize::MAX` bytes).
    pub open spec fn wf(&self) -> bool {
        &&& self.bytes().len() <= isize::MAX
        &&& pe_input_defined(self.bytes())
        &&& self.nt_offset() == spec_offset_nt(self.bytes())
        &&& self.nt() == spec_nt_header(self.bytes())
        &&& self.exe_bit() == spec_exe_bit(self.bytes())
        &&& self.sections() == spec_section_table(self.bytes())
    }

    /// The file offset of `rva`, if a section maps it.
    pub open spec fn spec_rva_to_offset(&self, rva: u32) -> Option<usize> {
        match self.sections() {
            Some(secs) => rva_lookup_from(secs, rva, 0),
            None => None,
        }
    }

    /// The data directory entry at `index`, once the NT headers are decoded.
    pub open spec fn spec_data_dir(&self, index: u16) -> Option<DataDirectory>
        recommends
            index < 16,
    {
        match self.nt() {
            Some(nt) => Some(nt.optional_header().data_directory(index)),
            None => None,
        }
    }

    /// Translating the RVA of the data directory entry at `index` stays within
    /// `u32` arithmetic.
    pub open spec fn dir_rva_defined(&self, index: u16) -> bool {
        match self.spec_data_dir(index) {
            Some(d) => self.rva_defined(d.virtual_address),
            None => true,
        }
    }

    /// The end of the data directory entry at `index` (its file offset plus
    /// its size) stays within `usize`.
    pub open spec fn dir_span_defined(&self, index: u16) -> bool {
        match self.spec_data_dir(index) {
            Some(d) => match self.spec_rva_to_offset(d.virtual_address) {
                Some(off) => off + d.size <= usize::MAX,
                None => true,
            },
            None => true,
        }
    }

    /// Translating `rva` stays within `u32` arithmetic.
    pub open spec fn rva_defined(&self, rva: u32) -> bool {
        match self.sections() {
            Some(secs) => rva_lookup_defined_from(secs, rva, 0),
            None => true,
        }
    }

    /// Decodes the headers and the section table of `file`.
    pub fn new(file: &'a [u8]) -> (pe: Self)
        requires
            file@.len() <= isize::MAX,
            pe_input_defined(file@),
        ensures
            pe.wf(),
            pe.bytes() == file@,
    {
        let mut pe = PEInfo {
            raw: file,
            offset_nt: None,
            bit: ExeBit::Unknown,
            nt_header: None,
            section_headers: None,
        };
        pe.set_nt_header();
        pe.set_section_headers();
        return pe;
    }

    /// Whether `new` accepts `file` on this target.
    pub fn accepts(file: &[u8]) -> (b: bool)
        ensures
            b == (file@.len() <= isize::MAX && pe_input_defined(file@)),
    {
        if file.len() > isize::MAX as usize {
            return false;
        }
        if file.len() < DosHeader::size() {
            return true;
        }
        let dos = DosHeader::decode(file, 0);
        let off = lfanew_to_usize(dos.e_lfanew);
        if off > usize::MAX - NtHeaders64::size() {
            return false;
        }
        if file.len() < off + NtHeaders64::size() {
            return true;
        }
        let file_header = FileHeader::decode(file, off + 4);
        let count = file_header.number_of_sections as usize;
        if count == 0 {
            return true;
        }
        let nt_size = if is_64bit_machine_exec(file_header.machine) {
            NtHeaders64::size()
        } else {
            NtHeaders32::size()
        };
        40 * count <= file.len() - (off + nt_size)
    }

    pub fn get_dos_header(&self) -> (r: Option<DosHeader>)
        ensures
            r == spec_dos_header(self.bytes()),
    {
        if self.raw.len() < DosHeader::size() {
            return None;
        }
        Some(DosHeader::decode(self.raw, 0))
    }

    pub fn get_nt_header(&self) -> (r: &Option<NTHeader>)
        ensures
            *r == self.nt(),
    {
        return &self.nt_header;
    }

    /// Decodes the NT headers, unless they are decoded already: at the recorded
    /// offset, or else at the offset that the DOS header names, when the image
    /// holds the 64-bit headers' worth of bytes there.
    fn set_nt_header(&mut self)
        requires
            old(self).nt_header is None ==> match old(self).offset_nt {
                Some(o) => {
                    &&& o + 248 <= old(self).raw@.len()
                    &&& is_64bit_machine(le_u16(old(self).raw@, o + 4)) ==> o + 264 <= old(
                        self,
                    ).raw@.len()
                },
                None => old(self).raw@.len() >= 64 ==> lfanew_offset(le_i32(old(self).raw@, 60))
                    + 264 <= usize::MAX,
            },
        ensures
            old(self).nt_header is Some ==> *final(self) == *old(self),
            old(self).nt_header is None ==> {
                let s = old(self).raw@;
                let off = match old(self).offset_nt {
                    Some(o) => Some(o),
                    None => spec_offset_nt(s),
                };
                &&& final(self).raw == old(self).raw
                &&& final(self).section_headers == old(self).section_headers
                &&& match off {
                    None => {
                        &&& final(self).offset_nt == old(self).offset_nt
                        &&& final(self).nt_header is None
                        &&& final(self).bit == old(self).bit
                    },
                    Some(o) => {
                        &&& final(self).offset_nt == Some(o)
                        &&& final(self).nt_header == Some(spec_nt_header_at(s, o as int))
                        &&& final(self).bit == bit_of(spec_nt_header_at(s, o as int))
                    },
                }
            },
    {
        if self.nt_header.is_some() {
            return;
        }
        if self.offset_nt.is_none() {
            if let Some(dos_header) = self.get_dos_header() {
                let offset_nt = lfanew_to_usize(dos_header.e_lfanew);
                if self.raw.len() < offset_nt + NtHeaders64::size() {
                    return;
                }
                self.offset_nt = Some(offset_nt);
            } else {
                return;
            }
        }
        let offset_nt = self.offset_nt.unwrap();
        let nt_head = NtHeaders32::decode(self.raw, offset_nt);
        if is_64bit_machine_exec(nt_head.file_header.machine) {
            self.bit = ExeBit::Bit64;
            let nt_head = NtHeaders64::decode(self.raw, offset_nt);
            self.nt_header = Some(NTHeader::Image64(nt_head));
        } else {
            self.bit = ExeBit::Bit32;
            self.nt_header = Some(NTHeader::Image32(nt_head));
        }
    }

    pub fn get_section_headers(&self) -> (r: &Option<Vec<SectionHeader>>)
        ensures
            match r {
                Some(v) => self.sections() == Some(v@),
                None => self.sections() is None,
            },
    {
        return &self.section_headers;
    }

    /// Decodes the section table that follows the NT headers, unless it is
    /// decoded already or the NT headers are not.
    fn set_section_headers(&mut self)
        requires
            old(self).section_headers is None ==> match (old(self).nt_header, old(
                self,
            ).offset_nt) {
                (Some(h), Some(o)) => {
                    &&& o + h.size() <= usize::MAX
                    &&& h.file_header().number_of_sections == 0 || o + h.size() + 40
                        * h.file_header().number_of_sections <= old(self).raw@.len()
                },
                _ => true,
            },
        ensures
            old(self).section_headers is Some ==> *final(self) == *old(self),
            old(self).section_headers is None ==> {
                &&& final(self).raw == old(self).raw
                &&& final(self).offset_nt == old(self).offset_nt
                &&& final(self).nt_header == old(self).nt_header
                &&& final(self).bit == old(self).bit
                &&& final(self).sections() == match (old(self).nt_header, old(self).offset_nt) {
                    (Some(h), Some(o)) => Some(
                        spec_sections_at(
                            old(self).raw@,
                            o + h.size(),
                            h.file_header().number_of_sections as nat,
                        ),
                    ),
                    _ => None,
                }
            },
    {
        if self.section_headers.is_some() {
            return;
        }
        let ghost s = self.raw@;
        let nt_header = self.get_nt_header();
        if let Some(nt_header) = nt_header {
            let num_section = nt_header.file_header().number_of_sections;
            let mut v: Vec<SectionHeader> = Vec::with_capacity(num_section as usize);
            if let Some(offset_nt) = self.offset_nt {
                let offset_section = offset_nt + nt_header.size();
                let ghost table = spec_sections_at(s, offset_section as int, num_section as nat);
                for i in 0..num_section
                    invariant
                        s == self.raw@,
                        table == spec_sections_at(s, offset_section as int, num_section as nat),
                        offset_section == offset_nt + nt_header.size(),
                        num_section > 0 ==> offset_section + 40 * num_section <= s.len(),
                        forall|k: int|
                            0 <= k < num_section ==> #[trigger] table[k]
                                == SectionHeader::spec_decode(s, offset_section + 40 * k),
                        v@ == table.take(i as int),
                {
                    proof {
                        lemma_slice_len_bound(self.raw);
                    }
                    assert(offset_section + (i as usize) * 40 + 40 <= s.len()) by (nonlinear_arith)
                        requires
                            offset_section + 40 * num_section <= s.len(),
                            i < num_section,
                    ;
                    let section = SectionHeader::decode(
                        self.raw,
                        offset_section + (i as usize) * 40,
                    );
                    v.push(section);
                    assert(v@ == table.take(i + 1));
                }
                assert(v@ == table);
                self.section_headers = Some(v);
            }
        }
    }

    /// Whether `rva_to_offset` can be called with `rva`.
    pub fn rva_translatable(&self, rva: u32) -> (b: bool)
        requires
            self.wf(),
        ensures
            b == self.rva_defined(rva),
    {
        if let Some(section_headers) = &self.section_headers {
            let ghost secs = section_headers@;
            assert(self.sections() == Some(secs));
            let mut i: usize = 0;
            while i < section_headers.len()
                invariant
                    secs == section_headers@,
                    self.sections() == Some(secs),
                    0 <= i <= secs.len(),
                    rva_lookup_defined_from(secs, rva, 0) == rva_lookup_defined_from(
                        secs,
                        rva,
                        i as int,
                    ),
                decreases secs.len() - i,
            {
                let h = &section_headers[i];
                if h.virtual_address <= rva {
                    if h.size_of_raw_data > u32::MAX - h.virtual_address {
                        return false;
                    }
                    if h.virtual_address + h.size_of_raw_data > rva {
                        return h.pointer_to_raw_data <= u32::MAX - rva;
                    }
                }
                i += 1;
            }
        }
        true
    }

    /// The file offset of `rva` in the first section whose raw data covers it.
    pub fn rva_to_offset(&self, rva: u32) -> (r: Option<usize>)
        requires
            self.wf(),
            self.rva_defined(rva),
        ensures
            r == self.spec_rva_to_offset(rva),
            r matches Some(o) ==> o <= u32::MAX,
    {
        if let Some(section_headers) = &self.section_headers {
            let ghost secs = section_headers@;
            assert(self.sections() == Some(secs));
            let mut i: usize = 0;
            while i < section_headers.len()
                invariant
                    secs == section_headers@,
                    self.sections() == Some(secs),
                    0 <= i <= secs.len(),
                    rva_lookup_from(secs, rva, 0) == rva_lookup_from(secs, rva, i as int),
                    rva_lookup_defined_from(secs, rva, i as int),
                decreases secs.len() - i,
            {
                let section_header = &section_headers[i];
                if section_header.virtual_address <= rva && section_header.virtual_address
                    + section_header.size_of_raw_data > rva {
                    let offset = section_header.pointer_to_raw_data + rva
                        - section_header.virtual_address;
                    assert(rva_lookup_from(secs, rva, i as int) == Some(offset as usize));
                    return Some(offset as usize);
                }
                i += 1;
            }
        }
        None
    }

    /// Decodes a `T` at `offset`, if the image holds it there.
    pub fn read_unalinged_from_offset<T: LeDecode>(&self, offset: usize) -> (r: Option<T>)
        requires
            offset + T::spec_size() <= usize::MAX,
        ensures
            r == if self.bytes().len() < offset + T::spec_size() {
                None
            } else {
                Some(T::spec_decode(self.bytes(), offset as int))
            },
    {
        if self.raw.len() < offset + T::size() {
            return None;
        }
        Some(T::decode(self.raw, offset))
    }

    /// Decodes a `T` at `offset`, if the image holds `size` bytes there; `size`
    /// must then cover the `T`.
    pub fn read_unalinged_from_offset_arb<T: LeDecode>(&self, offset: usize, size: usize) -> (r:
        Option<T>)
        requires
            offset + size <= usize::MAX,
            offset + size <= self.bytes().len() ==> T::spec_size() <= size,
        ensures
            r == if self.bytes().len() < offset + size {
                None
            } else {
                Some(T::spec_decode(self.bytes(), offset as int))
            },
    {
        if self.raw.len() < offset + size {
            return None;
        }
        Some(T::decode(self.raw, offset))
    }
}

/// An RVA translates through the first section that holds it: the lookup
/// gives `None` exactly when no section holds the RVA, and otherwise the
/// offset of the RVA in the raw data of the first section that holds it,
/// which lies within that section's raw data.
pub proof fn lemma_rva_lookup_first_section(secs: Seq<SectionHeader>, rva: u32, i: int)
    requires
        0 <= i <= secs.len(),
        rva_lookup_defined_from(secs, rva, i),
    ensures
        rva_lookup_from(secs, rva, i) is None <==> forall|j: int|
            i <= j < secs.len() ==> !section_holds(#[trigger] secs[j], rva),
        rva_lookup_from(secs, rva, i) matches Some(off) ==> exists|j: int|
            #![trigger secs[j]]
            i <= j < secs.len() && section_holds(secs[j], rva) && (forall|k: int|
                i <= k < j ==> !section_holds(#[trigger] secs[k], rva)) && off
                == secs[j].pointer_to_raw_data + rva - secs[j].virtual_address && secs[j].pointer_to_raw_data
                <= off < secs[j].pointer_to_raw_data + secs[j].size_of_raw_data,
    decreases secs.len() - i,
{
    if i < secs.len() {
        if !section_holds(secs[i], rva) {
            lemma_rva_lookup_first_section(secs, rva, i + 1);
            if let Some(off) = rva_lookup_from(secs, rva, i) {
                let j = choose|j: int|
                    #![trigger secs[j]]
                    i + 1 <= j < secs.len() && section_holds(secs[j], rva) && (forall|k: int|
                        i + 1 <= k < j ==> !section_holds(#[trigger] secs[k], rva)) && off
                        == secs[j].pointer_to_raw_data + rva - secs[j].virtual_address
                        && secs[j].pointer_to_raw_data <= off < secs[j].pointer_to_raw_data
                        + secs[j].size_of_raw_data;
                assert(forall|k: int| i <= k < j ==> !section_holds(#[trigger] secs[k], rva));
            }
        }
    }
}

/// The decoded headers agree with one another: the width recorded in `bit`
/// is that of the NT headers' variant, which the machine type selects, and the
/// section table is present exactly with the NT headers and holds as many
/// entries as the file header announces.
pub proof fn lemma_headers_consistent(pe: &PEInfo)
    requires
        pe.wf(),
    ensures
        pe.nt_offset() is Some <==> pe.nt() is Some,
        pe.sections() is Some <==> pe.nt() is Some,
        pe.nt() matches Some(nt) ==> {
            &&& pe.sections().unwrap().len() == nt.file_header().number_of_sections
            &&& (pe.exe_bit() == ExeBit::Bit64) == (nt is Image64)
            &&& (pe.exe_bit() == ExeBit::Bit32) == (nt is Image32)
            &&& (nt is Image64) == is_64bit_machine(nt.file_header().machine)
        },
        pe.nt() is None ==> pe.exe_bit() == ExeBit::Unknown,
{
    let s = pe.bytes();
    if let Some(off) = spec_offset_nt(s) {
        let m = le_u16(s, off + 4);
        assert(FileHeader::spec_decode(s, off + 4).machine == m);
    }
}

/// Every field of a decoded DOS header is the value stored at its offset:
/// the magic at 0 and the NT headers' offset at 60.
pub proof fn lemma_dos_header_layout(s: Seq<u8>, off: int)
    ensures
        DosHeader::spec_decode(s, off).e_magic == le_u16(s, off),
        DosHeader::spec_decode(s, off).e_lfanew == le_i32(s, off + 60),
{
}

/// Every field of a decoded file header is the value stored at its offset.
pub proof fn lemma_file_header_layout(s: Seq<u8>, off: int)
    ensures
        ({
            let h = FileHeader::spec_decode(s, off);
            &&& h.machine == le_u16(s, off)
            &&& h.number_of_sections == le_u16(s, off + 2)
            &&& h.time_date_stamp == le_u32(s, off + 4)
            &&& h.pointer_to_symbol_table == le_u32(s, off + 8)
            &&& h.number_of_symbols == le_u32(s, off + 12)
            &&& h.size_of_optional_header == le_u16(s, off + 16)
            &&& h.characteristics == le_u16(s, off + 18)
        }),
{
}

/// The data directory entry `k` of the array stored at `off` is the pair of
/// `u32`s (address, size) stored at `off + 8 * k`.
pub proof fn lemma_data_directories_layout(s: Seq<u8>, off: int, k: int)
    requires
        0 <= k < 16,
    ensures
        spec_data_directories(s, off)@[k].virtual_address == le_u32(s, off + 8 * k),
        spec_data_directories(s, off)@[k].size == le_u32(s, off + 8 * k + 4),
{
    let d = spec_data_directories(s, off);
    assert(d@[k] == DataDirectory::spec_decode(s, off + 8 * k)) by {
        if k == 0 {
        } else if k == 1 {
        } else if k == 2 {
        } else if k == 3 {
        } else if k == 4 {
        } else if k == 5 {
        } else if k == 6 {
        } else if k == 7 {
        } else if k == 8 {
        } else if k == 9 {
        } else if k == 10 {
        } else if k == 11 {
        } else if k == 12 {
        } else if k == 13 {
        } else if k == 14 {
        } else {
        }
    }
}

/// Every field of a decoded 32-bit optional header is the value stored at its
/// offset, with the data directory array at 96.
pub proof fn lemma_optional_header32_layout(s: Seq<u8>, off: int)
    ensures
        ({
            let h = OptionalHeader32::spec_decode(s, off);
            &&& h.magic == le_u16(s, off)
            &&& h.size_of_code == le_u32(s, off + 4)
            &&& h.address_of_entry_point == le_u32(s, off + 16)
            &&& h.image_base == le_u32(s, off + 28)
            &&& h.size_of_image == le_u32(s, off + 56)
            &&& h.number_of_rva_and_sizes == le_u32(s, off + 92)
            &&& h.data_directory == spec_data_directories(s, off + 96)
        }),
{
}

/// Every field of a decoded 64-bit optional header is the value stored at its
/// offset, with the 64-bit image base at 24 and the data directory array at 112.
pub proof fn lemma_optional_header64_layout(s: Seq<u8>, off: int)
    ensures
        ({
            let h = OptionalHeader64::spec_decode(s, off);
            &&& h.magic == le_u16(s, off)
            &&& h.size_of_code == le_u32(s, off + 4)
            &&& h.address_of_entry_point == le_u32(s, off + 16)
            &&& h.image_base == le_u64(s, off + 24)
            &&& h.size_of_image == le_u32(s, off + 56)
            &&& h.number_of_rva_and_sizes == le_u32(s, off + 108)
            &&& h.data_directory == spec_data_directories(s, off + 112)
        }),
{
}

/// The NT headers decoded at `o` have the signature at `o`, the file header at
/// `o + 4`, and the data directory entry `k` at `o + 24 + 96 + 8 * k` (32-bit)
/// or `o + 24 + 112 + 8 * k` (64-bit); the variant is 64-bit exactly for the
/// 64-bit machine types.
pub proof fn lemma_nt_header_layout(s: Seq<u8>, o: int, k: int)
    requires
        0 <= k < 16,
    ensures
        ({
            let nt = spec_nt_header_at(s, o);
            let dir_off = if is_64bit_machine(le_u16(s, o + 4)) {
                o + 24 + 112
            } else {
                o + 24 + 96
            };
            &&& nt.signature() == le_u32(s, o)
            &&& nt.file_header() == FileHeader::spec_decode(s, o + 4)
            &&& nt.file_header().machine == le_u16(s, o + 4)
            &&& nt.file_header().number_of_sections == le_u16(s, o + 6)
            &&& nt.optional_header().size_of_code() == le_u32(s, o + 28)
            &&& (nt is Image64) == is_64bit_machine(le_u16(s, o + 4))
            &&& nt.size() == if is_64bit_machine(le_u16(s, o + 4)) {
                264usize
            } else {
                248usize
            }
            &&& nt.optional_header().data_directory(k as u16).virtual_address == le_u32(
                s,
                dir_off + 8 * k,
            )
            &&& nt.optional_header().data_directory(k as u16).size == le_u32(
                s,
                dir_off + 8 * k + 4,
            )
        }),
{
    if is_64bit_machine(le_u16(s, o + 4)) {
        lemma_data_directories_layout(s, o + 24 + 112, k);
    } else {
        lemma_data_directories_layout(s, o + 24 + 96, k);
    }
}

/// Every field of a decoded section header is the value stored at its offset
/// in the 40-byte entry: name at 0..8, virtual size at 8, virtual address at
/// 12, raw data size at 16, raw data pointer at 20, relocations at 24, line
/// numbers at 28, their counts at 32 and 34, characteristics at 36.
pub proof fn lemma_section_header_layout(s: Seq<u8>, off: int)
    ensures
        ({
            let h = SectionHeader::spec_decode(s, off);
            &&& forall|i: int| 0 <= i < 8 ==> #[trigger] h.name@[i] == s[off + i]
            &&& h.virtual_size == le_u32(s, off + 8)
            &&& h.virtual_address == le_u32(s, off + 12)
            &&& h.size_of_raw_data == le_u32(s, off + 16)
            &&& h.pointer_to_raw_data == le_u32(s, off + 20)
            &&& h.pointer_to_relocations == le_u32(s, off + 24)
            &&& h.pointer_to_linenumbers == le_u32(s, off + 28)
            &&& h.number_of_relocations == le_u16(s, off + 32)
            &&& h.number_of_linenumbers == le_u16(s, off + 34)
            &&& h.characteristics == le_u32(s, off + 36)
        }),
{
    let h = SectionHeader::spec_decode(s, off);
    assert forall|i: int| 0 <= i < 8 implies #[trigger] h.name@[i] == s[off + i] by {
        if i == 0 {
        } else if i == 1 {
        } else if i == 2 {
        } else if i == 3 {
        } else if i == 4 {
        } else if i == 5 {
        } else if i == 6 {
        } else {
        }
    }
}

/// The section table of a well-formed image is `number_of_sections` entries
/// of 40 bytes each, the first right after the NT headers: entry `i` has its
/// virtual size, virtual address, raw size and raw pointer at
/// `table + 40 * i + 8`, `+ 12`, `+ 16` and `+ 20`.
pub proof fn lemma_section_table_layout(pe: &PEInfo, i: int)
    requires
        pe.wf(),
        pe.sections() is Some,
        0 <= i < pe.sections().unwrap().len(),
    ensures
        ({
            let s = pe.bytes();
            let nt = pe.nt().unwrap();
            let t = pe.nt_offset().unwrap() + nt.size() + 40 * i;
            let h = pe.sections().unwrap()[i];
            &&& pe.sections().unwrap().len() == nt.file_header().number_of_sections
            &&& h.virtual_size == le_u32(s, t + 8)
            &&& h.virtual_address == le_u32(s, t + 12)
            &&& h.size_of_raw_data == le_u32(s, t + 16)
            &&& h.pointer_to_raw_data == le_u32(s, t + 20)
        }),
{
    let s = pe.bytes();
    let nt = pe.nt().unwrap();
    let t = pe.nt_offset().unwrap() + nt.size() + 40 * i;
    lemma_section_header_layout(s, t);
}

/// The machine types with 64-bit headers are Alpha64 (0x284), AMD64
/// (0x8664), ARM64 (0xAA64) and IA64 (0x200); every other type, i386 (0x14c)
/// among them, has 32-bit headers.
pub proof fn lemma_64bit_machines(machine: u16)
    ensures
        is_64bit_machine(machine) <==> (machine == 0x284 || machine == 0x8664 || machine
            == 0xAA64 || machine == 0x200),
        !is_64bit_machine(0x14c),
{
}

/// A section holds exactly the RVAs from its virtual address up to, not
/// including, that address plus the size of its raw data.
pub proof fn lemma_section_holds(h: SectionHeader, rva: u32)
    ensures
        section_holds(h, rva) <==> (h.virtual_address as int <= rva as int && (rva as int)
            < h.virtual_address as int + h.size_of_raw_data as int),
{
}

fn is_64bit_machine_exec(machine: u16) -> (b: bool)
    ensures
        b == is_64bit_machine(machine),
{
    machine == IMAGE_FILE_MACHINE_ALPHA64 || machine == IMAGE_FILE_MACHINE_AMD64 || machine
        == IMAGE_FILE_MACHINE_ARM64 || machine == IMAGE_FILE_MACHINE_IA64
}

/// `e_lfanew as usize`.
fn lfanew_to_usize(e_lfanew: i32) -> (r: usize)
    ensures
        r == lfanew_offset(e_lfanew),
{
    if e_lfanew >= 0 {
        e_lfanew as usize
    } else {
        usize::MAX - ((-(e_lfanew + 1)) as usize)
    }
}

} // verus!
