use rpp::exceptions::ExceptionEntryIter;
use rpp::export::ExportInfoDescriptor;
use rpp::import::{ImageThunkDataEnum, ImageThunkImportInfo};
use rpp::pe::{
    ExeBit, NTHeader, OptionalHeader, IMAGE_DIRECTORY_ENTRY_EXCEPTION, IMAGE_DIRECTORY_ENTRY_EXPORT,
    IMAGE_DIRECTORY_ENTRY_IMPORT,
};
use rpp::relocs::{RelocList, RelocType};
use rpp::unwind::UnwindCode;
use rpp::PEInfo;

fn put16(b: &mut [u8], off: usize, v: u16) {
    b[off..off + 2].copy_from_slice(&v.to_le_bytes());
}

fn put32(b: &mut [u8], off: usize, v: u32) {
    b[off..off + 4].copy_from_slice(&v.to_le_bytes());
}

fn put64(b: &mut [u8], off: usize, v: u64) {
    b[off..off + 8].copy_from_slice(&v.to_le_bytes());
}

fn puts(b: &mut [u8], off: usize, s: &[u8]) {
    b[off..off + s.len()].copy_from_slice(s);
}

/// A small x64 DLL: one section mapping RVA 0x1000..0x2000 to file offset
/// 0x200, with import, export, relocation and exception directories.
fn image64() -> Vec<u8> {
    let mut b = vec![0u8; 0x1200];
    put16(&mut b, 0, 0x5A4D);
    put32(&mut b, 60, 0x40);
    put32(&mut b, 0x40, 0x4550);
    put16(&mut b, 0x44, 0x8664);
    put16(&mut b, 0x46, 1);
    put16(&mut b, 0x54, 240);
    put16(&mut b, 0x58, 0x20b);
    put32(&mut b, 0x58 + 4, 0x1234);
    put32(&mut b, 0x58 + 16, 0x2000);
    put64(&mut b, 0x58 + 24, 0x1_4000_0000);
    put32(&mut b, 0x58 + 56, 0x5000);
    put32(&mut b, 0x58 + 108, 16);
    let dir = |b: &mut [u8], k: usize, va: u32, size: u32| {
        put32(b, 0xC8 + 8 * k, va);
        put32(b, 0xC8 + 8 * k + 4, size);
    };
    dir(&mut b, 0, 0x1200, 0x100);
    dir(&mut b, 1, 0x1000, 0x28);
    dir(&mut b, 3, 0x1500, 0x24);
    dir(&mut b, 5, 0x1400, 0x20);
    // section table
    puts(&mut b, 0x148, b".text\0\0\0");
    put32(&mut b, 0x148 + 8, 0x1000);
    put32(&mut b, 0x148 + 12, 0x1000);
    put32(&mut b, 0x148 + 16, 0x1000);
    put32(&mut b, 0x148 + 20, 0x200);
    // imports
    put32(&mut b, 0x200, 0x1100);
    put32(&mut b, 0x20C, 0x1080);
    put32(&mut b, 0x210, 0x1100);
    puts(&mut b, 0x280, b"KERNEL32.dll\0");
    put64(&mut b, 0x300, 0x1180);
    put64(&mut b, 0x308, 0x8000_0000_0000_0010);
    put16(&mut b, 0x380, 0x0155);
    puts(&mut b, 0x382, b"ExitProcess\0");
    // exports
    put32(&mut b, 0x40C, 0x1300);
    put32(&mut b, 0x410, 1);
    put32(&mut b, 0x414, 2);
    put32(&mut b, 0x418, 2);
    put32(&mut b, 0x41C, 0x1240);
    put32(&mut b, 0x420, 0x1250);
    put32(&mut b, 0x424, 0x1260);
    put32(&mut b, 0x440, 0x2000);
    put32(&mut b, 0x444, 0x1270);
    put32(&mut b, 0x450, 0x1310);
    put32(&mut b, 0x454, 0x1320);
    put16(&mut b, 0x460, 1);
    put16(&mut b, 0x462, 0);
    puts(&mut b, 0x470, b"NTDLL.RtlFoo\0");
    puts(&mut b, 0x500, b"mylib.dll\0");
    puts(&mut b, 0x510, b"alpha\0");
    puts(&mut b, 0x520, b"beta\0");
    // relocations
    put32(&mut b, 0x600, 0x3000);
    put32(&mut b, 0x604, 12);
    put16(&mut b, 0x608, 0xA010);
    put16(&mut b, 0x60A, 0x0000);
    put32(&mut b, 0x60C, 0x4000);
    put32(&mut b, 0x610, 12);
    put16(&mut b, 0x614, 0x3008);
    put16(&mut b, 0x616, 0x1000);
    // exceptions
    put32(&mut b, 0x700, 0x2000);
    put32(&mut b, 0x704, 0x2050);
    put32(&mut b, 0x708, 0x1600);
    put32(&mut b, 0x70C, 0x2050);
    put32(&mut b, 0x710, 0x2060);
    put32(&mut b, 0x714, 0x1620);
    put32(&mut b, 0x800, 1 | (3 << 3) | (4 << 8) | (2 << 16) | (5 << 24) | (3 << 28));
    put16(&mut b, 0x804, 0x0204);
    put16(&mut b, 0x806, 0x3201);
    put32(&mut b, 0x808, 0x2100);
    put32(&mut b, 0x820, 1 | (4 << 3) | (1 << 16));
    put16(&mut b, 0x824, 0x0101);
    put32(&mut b, 0x828, 0x2000);
    put32(&mut b, 0x82C, 0x2050);
    put32(&mut b, 0x830, 0x1600);
    b
}

/// A 32-bit image with one section and an import name table of 32-bit entries.
fn image32() -> Vec<u8> {
    let mut b = vec![0u8; 0x1200];
    put16(&mut b, 0, 0x5A4D);
    put32(&mut b, 60, 0x40);
    put32(&mut b, 0x40, 0x4550);
    put16(&mut b, 0x44, 0x014c);
    put16(&mut b, 0x46, 1);
    put16(&mut b, 0x58, 0x10b);
    put32(&mut b, 0x58 + 4, 0x777);
    put32(&mut b, 0x58 + 28, 0x40_0000);
    // import directory entry at 0x58 + 96 + 8
    put32(&mut b, 0x58 + 96 + 8, 0x1000);
    put32(&mut b, 0x58 + 96 + 12, 0x28);
    // section table right after the 248-byte headers
    put32(&mut b, 0x138 + 12, 0x1000);
    put32(&mut b, 0x138 + 16, 0x1000);
    put32(&mut b, 0x138 + 20, 0x200);
    put32(&mut b, 0x200, 0x1100);
    put32(&mut b, 0x20C, 0x1080);
    puts(&mut b, 0x280, b"USER32.dll\0");
    put32(&mut b, 0x300, 0x8000_0007);
    put32(&mut b, 0x304, 0x1180);
    puts(&mut b, 0x382, b"MessageBoxA\0");
    b
}

#[test]
fn headers_of_64bit_image() {
    let raw = image64();
    assert!(PEInfo::accepts(&raw));
    let pe = PEInfo::new(&raw);
    assert_eq!(pe.bit, ExeBit::Bit64);
    let dos = pe.get_dos_header().unwrap();
    assert_eq!(dos.e_magic, 0x5A4D);
    assert_eq!(dos.e_lfanew, 0x40);
    let nt = pe.get_nt_header().as_ref().unwrap();
    assert!(matches!(nt, NTHeader::Image64(_)));
    assert_eq!(nt.signature(), 0x4550);
    assert_eq!(nt.size(), 264);
    assert_eq!(nt.file_header().machine, 0x8664);
    assert_eq!(nt.file_header().number_of_sections, 1);
    let opt = nt.optional_header();
    assert_eq!(opt.size_of_code(), 0x1234);
    match opt {
        OptionalHeader::Image64(h) => {
            assert_eq!(h.magic, 0x20b);
            assert_eq!(h.image_base, 0x1_4000_0000);
            assert_eq!(h.address_of_entry_point, 0x2000);
            assert_eq!(h.size_of_image, 0x5000);
            assert_eq!(h.number_of_rva_and_sizes, 16);
        }
        OptionalHeader::Image32(_) => panic!("expected the 64-bit optional header"),
    }
    let imp = opt.data_directory(IMAGE_DIRECTORY_ENTRY_IMPORT);
    assert_eq!((imp.virtual_address, imp.size), (0x1000, 0x28));
    let exp = opt.data_directory(IMAGE_DIRECTORY_ENTRY_EXPORT);
    assert_eq!((exp.virtual_address, exp.size), (0x1200, 0x100));
    let sections = pe.get_section_headers().as_ref().unwrap();
    assert_eq!(sections.len(), 1);
    assert_eq!(&sections[0].name, b".text\0\0\0");
    assert_eq!(sections[0].virtual_address, 0x1000);
    assert_eq!(sections[0].size_of_raw_data, 0x1000);
    assert_eq!(sections[0].pointer_to_raw_data, 0x200);
}

#[test]
fn headers_of_32bit_image() {
    let raw = image32();
    let pe = PEInfo::new(&raw);
    assert_eq!(pe.bit, ExeBit::Bit32);
    let nt = pe.get_nt_header().as_ref().unwrap();
    assert!(matches!(nt, NTHeader::Image32(_)));
    assert_eq!(nt.size(), 248);
    assert_eq!(nt.optional_header().size_of_code(), 0x777);
    let sections = pe.get_section_headers().as_ref().unwrap();
    assert_eq!(sections[0].pointer_to_raw_data, 0x200);
}

#[test]
fn short_file_has_no_headers() {
    let raw = vec![0u8; 40];
    let pe = PEInfo::new(&raw);
    assert_eq!(pe.bit, ExeBit::Unknown);
    assert!(pe.get_dos_header().is_none());
    assert!(pe.get_nt_header().is_none());
    assert!(pe.get_section_headers().is_none());
    assert_eq!(pe.rva_to_offset(0), None);
    assert!(pe.get_imports().is_none());
}

#[test]
fn nt_headers_beyond_the_file() {
    let mut raw = vec![0u8; 0x100];
    put32(&mut raw, 60, 0x80);
    let pe = PEInfo::new(&raw);
    assert!(pe.get_dos_header().is_some());
    assert!(pe.get_nt_header().is_none());
    assert_eq!(pe.bit, ExeBit::Unknown);
    assert!(pe.get_section_headers().is_none());
}

#[test]
fn accepts_rejects_overflowing_lfanew() {
    let mut raw = image64();
    put32(&mut raw, 60, (-1i32) as u32);
    assert!(!PEInfo::accepts(&raw));
    put32(&mut raw, 60, (-264i32) as u32);
    assert!(!PEInfo::accepts(&raw));
    put32(&mut raw, 60, (-1000i32) as u32);
    assert!(PEInfo::accepts(&raw));
    let pe = PEInfo::new(&raw);
    assert!(pe.get_nt_header().is_none());
}

#[test]
fn accepts_rejects_truncated_section_table() {
    let mut raw = image64();
    put16(&mut raw, 0x46, 200);
    assert!(!PEInfo::accepts(&raw));
    put16(&mut raw, 0x46, 0);
    assert!(PEInfo::accepts(&raw));
    let pe = PEInfo::new(&raw);
    assert_eq!(pe.get_section_headers().as_ref().unwrap().len(), 0);
    assert_eq!(pe.rva_to_offset(0x1000), None);
}

#[test]
fn rva_to_offset_maps_within_sections() {
    let raw = image64();
    let pe = PEInfo::new(&raw);
    assert_eq!(pe.rva_to_offset(0x1000), Some(0x200));
    assert_eq!(pe.rva_to_offset(0x1FFF), Some(0x11FF));
    assert_eq!(pe.rva_to_offset(0x2000), None);
    assert_eq!(pe.rva_to_offset(0xFFF), None);
    assert!(pe.rva_translatable(0x1234));
}

#[test]
fn rva_translatable_detects_overflow() {
    let mut raw = image64();
    put32(&mut raw, 0x148 + 12, 0xFFFF_F000);
    put32(&mut raw, 0x148 + 16, 0x2000);
    let pe = PEInfo::new(&raw);
    assert!(!pe.rva_translatable(0xFFFF_F800));
    assert!(pe.rva_translatable(0x1000));
    assert_eq!(pe.rva_to_offset(0x1000), None);
}

#[test]
fn read_unaligned_reads_little_endian() {
    let raw = image64();
    let pe = PEInfo::new(&raw);
    assert_eq!(pe.read_unalinged_from_offset::<u32>(0x40), Some(0x4550));
    assert_eq!(pe.read_unalinged_from_offset::<u16>(0x44), Some(0x8664));
    assert_eq!(pe.read_unalinged_from_offset::<u64>(0x308), Some(0x8000_0000_0000_0010));
    assert_eq!(pe.read_unalinged_from_offset::<u32>(0x11FE), None);
    assert_eq!(pe.read_unalinged_from_offset::<u32>(0x11FC), Some(0));
    assert_eq!(pe.read_unalinged_from_offset_arb::<u32>(0x40, 8), Some(0x4550));
    assert_eq!(pe.read_unalinged_from_offset_arb::<u32>(0x11F0, 0x20), None);
}

#[test]
fn imports_of_64bit_image() {
    let raw = image64();
    let pe = PEInfo::new(&raw);
    let mut descs = pe.get_imports().unwrap();
    let desc = descs.next().unwrap();
    assert_eq!(desc.desc.name, 0x1080);
    assert_eq!(desc.desc.first_thunk, 0x1100);
    assert_eq!(desc.dll_name(), Some("KERNEL32.dll"));
    let mut thunks = desc.get_int().unwrap();
    let first = thunks.next().unwrap();
    assert_eq!(first.thunk, ImageThunkDataEnum::Image64(0x1180));
    assert_eq!(first.address_of_data(), 0x1180);
    assert_eq!(first.function(), 0x1180);
    assert_eq!(first.forwarder_string(), 0x1180);
    assert_eq!(first.size(), 8);
    assert!(!first.is_zero());
    assert_eq!(first.get_name(), Some(ImageThunkImportInfo::Name("ExitProcess")));
    let second = thunks.next().unwrap();
    assert_eq!(second.oridinal(), 0x8000_0000_0000_0010);
    assert_eq!(second.get_name(), Some(ImageThunkImportInfo::Ordinal(0x10)));
    assert!(thunks.next().is_none());
    assert!(thunks.next().is_none());
    assert!(descs.next().is_none());
    assert!(descs.next().is_none());
}

#[test]
fn imports_of_32bit_image() {
    let raw = image32();
    let pe = PEInfo::new(&raw);
    let mut descs = pe.get_imports().unwrap();
    let desc = descs.next().unwrap();
    assert_eq!(desc.dll_name(), Some("USER32.dll"));
    let mut thunks = desc.get_int().unwrap();
    let first = thunks.next().unwrap();
    assert_eq!(first.thunk, ImageThunkDataEnum::Image32(0x8000_0007));
    assert_eq!(first.size(), 4);
    assert_eq!(first.get_name(), Some(ImageThunkImportInfo::Ordinal(7)));
    let second = thunks.next().unwrap();
    assert_eq!(second.get_name(), Some(ImageThunkImportInfo::Name("MessageBoxA")));
    assert!(thunks.next().is_none());
    assert!(descs.next().is_none());
}

#[test]
fn import_directory_past_the_file() {
    let mut raw = image64();
    put32(&mut raw, 0xC8 + 12, 0x2000);
    let pe = PEInfo::new(&raw);
    assert!(pe.get_imports().is_none());
}

#[test]
fn exports_of_64bit_image() {
    let raw = image64();
    let pe = PEInfo::new(&raw);
    let exports = pe.get_exports().unwrap();
    assert_eq!(exports.desc.number_of_functions, 2);
    assert_eq!(exports.desc.address_of_functions, 0x1240);
    assert_eq!(exports.get_dll_name(), Some("mylib.dll"));
    assert_eq!(exports.get_func_rva_array(), Some(vec![0x2000, 0x1270]));
    assert_eq!(exports.get_name_rva_array(), Some(vec![0x1310, 0x1320]));
    assert_eq!(exports.get_ord_array(), Some(vec![1, 0]));
    let mut names = exports.get_func_names().unwrap();
    assert!(names.can_advance());
    assert_eq!(names.next(), Some("alpha"));
    assert_eq!(names.next(), Some("beta"));
    assert_eq!(names.next(), None);
    let mut infos = exports.get_export_info().unwrap();
    assert!(infos.can_advance());
    let alpha = infos.next().unwrap();
    assert_eq!(
        alpha,
        ExportInfoDescriptor {
            ord: 1,
            function_rva: 0x1270,
            name_rva: 0x1310,
            function_name: "alpha",
            forwarder: Some("NTDLL.RtlFoo"),
        }
    );
    let beta = infos.next().unwrap();
    assert_eq!(beta.ord, 0);
    assert_eq!(beta.function_rva, 0x2000);
    assert_eq!(beta.function_name, "beta");
    assert_eq!(beta.forwarder, None);
    assert!(infos.next().is_none());
}

#[test]
fn export_with_ordinal_out_of_range() {
    let mut raw = image64();
    put16(&mut raw, 0x460, 5);
    let pe = PEInfo::new(&raw);
    let exports = pe.get_exports().unwrap();
    let mut infos = exports.get_export_info().unwrap();
    assert!(infos.next().is_none());
    let beta = infos.next().unwrap();
    assert_eq!(beta.function_name, "beta");
}

#[test]
fn relocations_of_64bit_image() {
    let raw = image64();
    let pe = PEInfo::new(&raw);
    let mut blocks = pe.get_relocs().unwrap();
    assert!(blocks.can_advance());
    let mut first = blocks.next().unwrap();
    assert_eq!(first.base_reloc.virtual_address, 0x3000);
    assert_eq!(first.base_reloc.size_of_block, 12);
    assert_eq!(first.list_count, 2);
    assert_eq!(
        first.list_iter.next(),
        Some(RelocList { reloc_type: RelocType::Type64bit, reloc_rva: 0x3010 })
    );
    assert_eq!(
        first.list_iter.next(),
        Some(RelocList { reloc_type: RelocType::TypeZero, reloc_rva: 0 })
    );
    assert_eq!(first.list_iter.next(), None);
    let mut second = blocks.next().unwrap();
    assert_eq!(second.base_reloc.virtual_address, 0x4000);
    assert_eq!(
        second.list_iter.next(),
        Some(RelocList { reloc_type: RelocType::Type32bit, reloc_rva: 0x4008 })
    );
    assert_eq!(
        second.list_iter.next(),
        Some(RelocList { reloc_type: RelocType::TypeUnSupported, reloc_rva: 0 })
    );
    assert_eq!(
        second.list_iter.next(),
        Some(RelocList { reloc_type: RelocType::TypeZero, reloc_rva: 0 })
    );
    assert_eq!(second.list_iter.next(), None);
    assert!(blocks.next().is_none());
    assert!(blocks.next().is_none());
}

#[test]
fn relocation_block_shorter_than_header_cannot_advance() {
    let mut raw = image64();
    put32(&mut raw, 0x604, 4);
    let pe = PEInfo::new(&raw);
    let blocks = pe.get_relocs().unwrap();
    assert!(!blocks.can_advance());
}

#[test]
fn exceptions_of_64bit_image() {
    let raw = image64();
    let pe = PEInfo::new(&raw);
    let ExceptionEntryIter::X86(mut entries) = pe.get_exceptions().unwrap();
    assert!(entries.can_advance());
    let first = entries.next().unwrap();
    assert_eq!(first.rt_function.begin_address, 0x2000);
    assert_eq!(first.rt_function.end_address, 0x2050);
    assert_eq!(first.rt_function.unwind_info_address, 0x1600);
    assert_eq!(first.unwind_info.version, 1);
    assert_eq!(first.unwind_info.flags.bits(), 3);
    assert_eq!(first.unwind_info.size_of_prolog, 4);
    assert_eq!(first.unwind_info.count_of_codes, 2);
    assert_eq!(first.unwind_info.frame_register, 5);
    assert_eq!(first.unwind_info.frame_offset, 3);
    assert_eq!(first.handler_rva, Some(0x2100));
    assert!(first.chain_info.is_none());
    let mut codes = first.unwind_code_iter.unwrap();
    assert_eq!(codes.next(), Some(UnwindCode { code_offset: 4, unwid_op: 2, op_info: 0 }));
    assert_eq!(codes.next(), Some(UnwindCode { code_offset: 1, unwid_op: 2, op_info: 3 }));
    assert_eq!(codes.next(), None);
    let second = entries.next().unwrap();
    assert_eq!(second.rt_function.begin_address, 0x2050);
    assert_eq!(second.unwind_info.flags.bits(), 4);
    assert_eq!(second.handler_rva, None);
    let mut chain = second.chain_info.unwrap();
    let chained = chain.next().unwrap();
    assert_eq!(chained.rt_function.begin_address, 0x2000);
    assert_eq!(chained.rt_function.unwind_info_address, 0x1600);
    assert!(chain.next().is_none());
    assert!(entries.next().is_none());
}

#[test]
fn exceptions_only_for_amd64() {
    let mut raw = image64();
    put16(&mut raw, 0x44, 0xAA64);
    let pe = PEInfo::new(&raw);
    assert_eq!(pe.bit, ExeBit::Bit64);
    assert!(pe.get_exceptions().is_none());
    let nt = pe.get_nt_header().as_ref().unwrap();
    let dir = nt.optional_header().data_directory(IMAGE_DIRECTORY_ENTRY_EXCEPTION);
    assert_eq!(dir.virtual_address, 0x1500);
}

#[test]
fn chained_entry_after_255_codes_cannot_advance() {
    let mut raw = image64();
    put32(&mut raw, 0x800, 1 | (4 << 3) | (255 << 16));
    let pe = PEInfo::new(&raw);
    let ExceptionEntryIter::X86(entries) = pe.get_exceptions().unwrap();
    assert!(!entries.can_advance());
}

#[test]
fn handler_needs_both_handler_flags() {
    let mut raw = image64();
    put32(&mut raw, 0x800, 1 | (1 << 3) | (2 << 16));
    let pe = PEInfo::new(&raw);
    let ExceptionEntryIter::X86(mut entries) = pe.get_exceptions().unwrap();
    let first = entries.next().unwrap();
    assert_eq!(first.unwind_info.flags.bits(), 1);
    assert_eq!(first.handler_rva, None);
}

#[test]
fn rva_to_offset_uses_first_holding_section() {
    let mut raw = image64();
    put16(&mut raw, 0x46, 3);
    // second section: maps 0x1800..0x2800 to 0x900, overlapping the first
    put32(&mut raw, 0x170 + 12, 0x1800);
    put32(&mut raw, 0x170 + 16, 0x1000);
    put32(&mut raw, 0x170 + 20, 0x900);
    // third section: maps 0x3000..0x3100 to 0x1100
    put32(&mut raw, 0x198 + 12, 0x3000);
    put32(&mut raw, 0x198 + 16, 0x100);
    put32(&mut raw, 0x198 + 20, 0x1100);
    let pe = PEInfo::new(&raw);
    assert_eq!(pe.get_section_headers().as_ref().unwrap().len(), 3);
    assert_eq!(pe.rva_to_offset(0x1900), Some(0xB00));
    assert_eq!(pe.rva_to_offset(0x2100), Some(0x1200));
    assert_eq!(pe.rva_to_offset(0x3050), Some(0x1150));
    assert_eq!(pe.rva_to_offset(0x3100), None);
}

#[test]
fn thunk_walk_can_advance() {
    let raw = image64();
    let pe = PEInfo::new(&raw);
    let mut descs = pe.get_imports().unwrap();
    let desc = descs.next().unwrap();
    let mut thunks = desc.get_int().unwrap();
    assert!(thunks.can_advance());
    thunks.next().unwrap();
    assert!(thunks.can_advance());
}

#[test]
fn header_fields_are_public() {
    let raw = image64();
    let pe = PEInfo::new(&raw);
    assert_eq!(pe.offset_nt, Some(0x40));
    assert_eq!(pe.raw.len(), 0x1200);
    assert_eq!(pe.section_headers.as_ref().unwrap().len(), 1);
    let mut descs = pe.get_imports().unwrap();
    let desc = descs.next().unwrap();
    assert_eq!(desc.pe.offset_nt, Some(0x40));
}

fn small_amd64_image(machine: u16) -> [u8; 0x300] {
    let mut b = [0u8; 0x300];
    b[0x3C] = 0x40;
    put16(&mut b, 0x44, machine);
    b[0x46] = 1;
    b[0xE1] = 0x10;
    b[0xE4] = 0x0C;
    b[0x155] = 0x10;
    b[0x159] = 1;
    b[0x15D] = 2;
    b[0x201] = 0x10;
    b[0x204] = 0x10;
    b[0x205] = 0x10;
    b[0x208] = 0x10;
    b[0x209] = 0x10;
    b[0x210] = 0x19;
    b[0x212] = 1;
    b[0x218] = 0x78;
    b[0x219] = 0x56;
    b
}

#[test]
fn single_exception_entry_with_handler() {
    let b = small_amd64_image(0x8664);
    let pe = PEInfo::new(&b);
    let ExceptionEntryIter::X86(mut it) = pe.get_exceptions().unwrap();
    let e = it.next().unwrap();
    assert_eq!(e.rt_function.begin_address, 0x1000);
    assert_eq!(e.unwind_info.version, 1);
    assert_eq!(e.unwind_info.flags.bits(), 3);
    assert_eq!(e.unwind_info.count_of_codes, 1);
    assert_eq!(e.handler_rva, Some(0x5678));
    assert!(e.chain_info.is_none());
    let mut codes = e.unwind_code_iter.unwrap();
    assert_eq!(codes.next(), Some(UnwindCode { code_offset: 0, unwid_op: 0, op_info: 0 }));
    assert_eq!(codes.next(), None);
    assert!(it.next().is_none());
}

#[test]
fn arm64_image_has_no_exception_walk() {
    let b = small_amd64_image(0xAA64);
    let pe = PEInfo::new(&b);
    assert!(pe.get_exceptions().is_none());
    assert_eq!(pe.bit, ExeBit::Bit64);
    assert_eq!(pe.rva_to_offset(0x1000), Some(0x200));
}

#[test]
fn dos_header_only() {
    let file = [0u8; 64];
    let pe = PEInfo::new(&file);
    assert!(pe.get_nt_header().is_none());
    assert!(pe.get_section_headers().is_none());
    assert_eq!(pe.bit, ExeBit::Unknown);
    assert_eq!(pe.get_dos_header().unwrap().e_lfanew, 0);
    assert_eq!(pe.raw, &file[..]);
}
