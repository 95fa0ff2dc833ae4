use rpp::relocs::{RelocList, RelocListIter, RelocType};
use rpp::unwind::{
    UnwindCode, UnwindCodeIter, UnwindFlag, UnwindInfo, UNW_FLAG_CHAININFO, UNW_FLAG_EHANDLER,
    UNW_FLAG_UHANDLER,
};
use rpp::utils::{align_up, conv_str_from_u8array};

#[test]
fn align_up_rounds_to_alignment() {
    assert_eq!(align_up(5, 4), 8);
    assert_eq!(align_up(8, 4), 8);
    assert_eq!(align_up(0, 1), 0);
    assert_eq!(align_up(0x805, 0x10), 0x810);
    assert_eq!(align_up(7, 1), 7);
    // a non-power-of-two alignment only clears the bits of `align - 1`
    assert_eq!(align_up(5, 3), 5);
    assert_eq!(align_up(4, 3), 4);
}

#[test]
fn conv_str_reads_up_to_nul() {
    let buf = b"ab\0cd\0";
    assert_eq!(conv_str_from_u8array(buf, 0), Some("ab"));
    assert_eq!(conv_str_from_u8array(buf, 1), Some("b"));
    assert_eq!(conv_str_from_u8array(buf, 2), Some(""));
    assert_eq!(conv_str_from_u8array(buf, 3), Some("cd"));
}

#[test]
fn conv_str_needs_nul_and_utf8() {
    assert_eq!(conv_str_from_u8array(b"abc", 0), None);
    assert_eq!(conv_str_from_u8array(b"abc\0", 4), None);
    assert_eq!(conv_str_from_u8array(b"abc\0", 10), None);
    assert_eq!(conv_str_from_u8array(b"\xff\xfe\0", 0), None);
    assert_eq!(conv_str_from_u8array(b"\xc3\xa9\0", 0), Some("\u{e9}"));
    // a truncated multi-byte sequence before the NUL is not UTF-8
    assert_eq!(conv_str_from_u8array(b"\xc3\0", 0), None);
}

#[test]
fn unwind_info_unpacks_fields() {
    let raw: u32 = 1 | (3 << 3) | (4 << 8) | (2 << 16) | (5 << 24) | (3 << 28);
    let info = UnwindInfo::new(raw);
    assert_eq!(info.version, 1);
    assert_eq!(info.flags.bits(), 3);
    assert_eq!(info.size_of_prolog, 4);
    assert_eq!(info.count_of_codes, 2);
    assert_eq!(info.frame_register, 5);
    assert_eq!(info.frame_offset, 3);
}

#[test]
fn unwind_info_drops_unknown_flags() {
    let info = UnwindInfo::new(0xFFFF_FFFF);
    assert_eq!(info.version, 7);
    assert_eq!(info.flags.bits(), 7);
    assert_eq!(info.size_of_prolog, 0xFF);
    assert_eq!(info.count_of_codes, 0xFF);
    assert_eq!(info.frame_register, 0xF);
    assert_eq!(info.frame_offset, 0xF);
    assert_eq!(UnwindInfo::new(0).flags.bits(), 0);
}

#[test]
fn unwind_flags_contain_all_bits() {
    let f = UnwindFlag::from_bits_truncate(0xF9);
    assert_eq!(f.bits(), 1);
    assert!(f.contains(UNW_FLAG_EHANDLER));
    assert!(!f.contains(UNW_FLAG_EHANDLER | UNW_FLAG_UHANDLER));
    assert!(!f.contains(UNW_FLAG_CHAININFO));
    assert!(UnwindFlag::from_bits_truncate(3).contains(UNW_FLAG_EHANDLER | UNW_FLAG_UHANDLER));
}

#[test]
fn unwind_codes_decode_slots() {
    let bytes = [0x04u8, 0x72, 0x10, 0xA3, 0xFF];
    let mut codes = UnwindCodeIter::new(&bytes);
    assert_eq!(codes.next(), Some(UnwindCode { code_offset: 4, unwid_op: 2, op_info: 7 }));
    assert_eq!(codes.next(), Some(UnwindCode { code_offset: 0x10, unwid_op: 3, op_info: 0xA }));
    assert_eq!(codes.next(), None);
    assert_eq!(codes.next(), None);
}

#[test]
fn reloc_list_classifies_entries() {
    let bytes = [0x34u8, 0x32, 0x08, 0xA1, 0x00, 0x50, 0x00, 0x00, 0x10, 0x30];
    let mut list = RelocListIter::new(&bytes, 0x7000);
    assert!(list.can_advance());
    assert_eq!(
        list.next(),
        Some(RelocList { reloc_type: RelocType::Type32bit, reloc_rva: 0x7234 })
    );
    assert_eq!(
        list.next(),
        Some(RelocList { reloc_type: RelocType::Type64bit, reloc_rva: 0x7108 })
    );
    assert_eq!(
        list.next(),
        Some(RelocList { reloc_type: RelocType::TypeUnSupported, reloc_rva: 0 })
    );
    assert_eq!(list.next(), Some(RelocList { reloc_type: RelocType::TypeZero, reloc_rva: 0 }));
    // after the padding entry the walk is over, though an entry follows
    assert_eq!(list.next(), None);
}

#[test]
fn reloc_list_overflow_cannot_advance() {
    let bytes = [0xFFu8, 0x3F];
    let list = RelocListIter::new(&bytes, 0xFFFF_FF00);
    assert!(!list.can_advance());
    let ok = RelocListIter::new(&bytes, 0x1000);
    assert!(ok.can_advance());
}

#[test]
fn unwind_info_fields_pack_back() {
    let raw: u32 = 0x5A07_3C2B & !0xC0;
    let info = UnwindInfo::new(raw);
    let packed = (info.version as u32)
        | ((info.flags.bits() as u32) << 3)
        | ((info.size_of_prolog as u32) << 8)
        | ((info.count_of_codes as u32) << 16)
        | ((info.frame_register as u32) << 24)
        | ((info.frame_offset as u32) << 28);
    assert_eq!(packed, raw);
}

#[test]
fn unwind_code_fields_pack_back() {
    let bytes = 0xBEEFu16.to_le_bytes();
    let mut codes = UnwindCodeIter::new(&bytes);
    let c = codes.next().unwrap();
    let packed = (c.code_offset as u16) | ((c.unwid_op as u16) << 8) | ((c.op_info as u16) << 12);
    assert_eq!(packed, 0xBEEF);
}
