//! The exception directory of x64 images: runtime function entries, each with
//! its unwind information, unwind codes, handler and chained entry.

use vstd::prelude::*;

use crate::le::{le_u16_slots, le_u32, lemma_slice_len_bound, read_u32, LeDecode};
use crate::pe::{PEInfo, IMAGE_DIRECTORY_ENTRY_EXCEPTION, IMAGE_FILE_MACHINE_AMD64};
use crate::unwind::{
    UnwindCodeIter, UnwindInfo, UNW_FLAG_CHAININFO, UNW_FLAG_EHANDLER, UNW_FLAG_UHANDLER,
};
use crate::utils::align_up;

verus! {

/// A runtime function entry (12 bytes).
#[derive(Clone, Copy, Debug, PartialEq, Eq)]
pub struct RuntimeFunctionEntry {
    pub begin_address: u32,
    pub end_address: u32,
    /// RVA of the function's `UNWIND_INFO`.
    pub unwind_info_address: u32,
}

impl LeDecode for RuntimeFunctionEntry {
    open spec fn spec_size() -> nat {
        12
    }

    open spec fn spec_decode(s: Seq<u8>, off: int) -> RuntimeFunctionEntry {
        RuntimeFunctionEntry {
            begin_address: le_u32(s, off),
            end_address: le_u32(s, off + 4),
            unwind_info_address: le_u32(s, off + 8),
        }
    }

    fn size() -> (n: usize) {
        12
    }

    fn decode(s: &[u8], off: usize) -> (r: RuntimeFunctionEntry) {
        proof {
            lemma_slice_len_bound(s);
        }
        RuntimeFunctionEntry {
            begin_address: read_u32(s, off),
            end_address: read_u32(s, off + 4),
            unwind_info_address: read_u32(s, off + 8),
        }
    }
}

/// A runtime function with its unwind information.
pub struct ExceptionEntryX86<'a> {
    pub rt_function: RuntimeFunctionEntry,
    pub unwind_info: UnwindInfo,
    /// The unwind codes, when there are any.
    pub unwind_code_iter: Option<UnwindCodeIter<'a>>,
    /// The RVA of the exception handler, when both handler flags are set.
    pub handler_rva: Option<u32>,
    /// The chained entry, when the chain flag is set.
    pub chain_info: Option<ExceptionEntryX86Iter<'a>>,
}

/// Walks runtime function entries, up to a zero entry or the end of the table.
pub struct ExceptionEntryX86Iter<'a> {
    pe: &'a PEInfo<'a>,
    offset: usize,
    limit: usize,
}

pub enum ExceptionEntryIter<'a> {
    X86(ExceptionEntryX86Iter<'a>),
}

/// Where the unwind codes of an `UNWIND_INFO` at `info_offset` end.
pub open spec fn code_limit(info_offset: int, raw: u32) -> int {
    info_offset + 4 + 2 * ((raw >> 16u32) & 0xff)
}

/// Where the handler RVA follows unwind codes that end at `code_limit`.
pub open spec fn handler_offset(code_limit: int) -> int {
    ((code_limit + 3) as usize & !3usize) as int
}

/// Where the chained entry of an `UNWIND_INFO` at `info_offset` lies: after the
/// unwind codes, their count rounded up to an even number.
pub open spec fn chain_offset(info_offset: int, raw: u32) -> int {
    info_offset + 4 + 2 * ((((raw >> 16u32) & 0xff) + 1) as u8 & !1u8)
}

/// Testing the flags reported for a header word tests the word's flag bits.
proof fn lemma_flag_tests(f: u8, raw: u32)
    requires
        f == (raw >> 3u32) & 7,
    ensures
        (f & 3 == 3) == ((raw >> 3u32) & 0x7 & 3 == 3),
        (f & 4 == 4) == ((raw >> 3u32) & 0x7 & 4 != 0),
        UNW_FLAG_EHANDLER | UNW_FLAG_UHANDLER == 3,
{
    assert((f & 3 == 3) == ((raw >> 3u32) & 0x7 & 3 == 3)) by (bit_vector)
        requires
            f == (raw >> 3u32) & 7,
    ;
    assert((f & 4 == 4) == ((raw >> 3u32) & 0x7 & 4 != 0)) by (bit_vector)
        requires
            f == (raw >> 3u32) & 7,
    ;
    assert(1u8 | 2u8 == 3u8) by (bit_vector);
}

/// The flag tests on the three flag bits of a header word.
proof fn lemma_flag_bits(raw: u32)
    ensures
        (((raw >> 3u32) & 7) & 4 == 4) == ((raw >> 3u32) & 4 != 0),
        (((raw >> 3u32) & 7) & 3 == 3) == ((raw >> 3u32) & 0x7 & 3 == 3),
        ((raw >> 3u32) & 0x7 & 4 == 0) == ((raw >> 3u32) & 4 == 0),
        (raw >> 16u32) & 0xff < 256,
{
    assert((((raw >> 3u32) & 7) & 4 == 4) == ((raw >> 3u32) & 4 != 0)) by (bit_vector);
    assert(((raw >> 3u32) & 0x7 & 4 == 0) == ((raw >> 3u32) & 4 == 0)) by (bit_vector);
    assert((raw >> 16u32) & 0xff < 256) by (bit_vector);
}

impl<'a> ExceptionEntryX86Iter<'a> {
    #[verifier::type_invariant]
    spec fn within_image(self) -> bool {
        &&& self.pe.wf()
    }

    pub closed spec fn pe(&self) -> &'a PEInfo<'a> {
        self.pe
    }

    /// The file offset of the next entry.
    pub closed spec fn offset(&self) -> usize {
        self.offset
    }

    /// The file offset at which the table ends.
    pub closed spec fn limit(&self) -> usize {
        self.limit
    }

    /// The next runtime function entry, when it lies before the limit, the
    /// image holds it and it is not the zero entry.
    pub open spec fn next_entry(&self) -> Option<RuntimeFunctionEntry> {
        let s = self.pe().bytes();
        let o = self.offset();
        let rt = RuntimeFunctionEntry::spec_decode(s, o as int);
        if o >= self.limit() || s.len() < o + 12 || rt.begin_address == 0 {
            None
        } else {
            Some(rt)
        }
    }

    /// The file offset of the next entry's `UNWIND_INFO` header word, when a
    /// section maps it and the image holds the word.
    pub open spec fn next_info_offset(&self) -> Option<usize> {
        match self.next_entry() {
            None => None,
            Some(rt) => match self.pe().spec_rva_to_offset(rt.unwind_info_address) {
                None => None,
                Some(io) => if self.pe().bytes().len() < io + 4 {
                    None
                } else {
                    Some(io)
                },
            },
        }
    }

    /// Decoding the next entry stays within `usize`, `u32` and `u8`
    /// arithmetic: the entry and its `UNWIND_INFO` word end within `usize`, its
    /// `UNWIND_INFO` RVA translates, and a chained entry does not follow 255
    /// unwind codes.
    pub open spec fn next_defined(&self) -> bool {
        &&& self.offset() < self.limit() ==> self.offset() + 12 <= usize::MAX
        &&& self.next_entry() matches Some(rt) ==> {
            &&& self.pe().rva_defined(rt.unwind_info_address)
            &&& self.pe().spec_rva_to_offset(rt.unwind_info_address) matches Some(io) ==> io + 4
                <= usize::MAX
        }
        &&& self.next_info_offset() matches Some(io) ==> {
            let raw = le_u32(self.pe().bytes(), io as int);
            let count = (raw >> 16u32) & 0xff;
            let codes_fit = count == 0 || code_limit(io as int, raw) <= self.pe().bytes().len();
            codes_fit && (raw >> 3u32) & (UNW_FLAG_CHAININFO as u32) != 0 ==> count != 255
        }
    }

    /// Whether `next` can be called on the walk as it stands.
    pub fn can_advance(&self) -> (b: bool)
        ensures
            b == self.next_defined(),
    {
        proof {
            use_type_invariant(self);
        }
        if self.offset >= self.limit {
            return true;
        }
        if self.offset > usize::MAX - 12 {
            return false;
        }
        let rt_function = match self.pe.read_unalinged_from_offset::<RuntimeFunctionEntry>(
            self.offset,
        ) {
            Some(rt) => rt,
            None => return true,
        };
        if rt_function.begin_address == 0 {
            return true;
        }
        if !self.pe.rva_translatable(rt_function.unwind_info_address) {
            return false;
        }
        let info_offset = match self.pe.rva_to_offset(rt_function.unwind_info_address) {
            Some(o) => o,
            None => return true,
        };
        if info_offset > usize::MAX - 4 {
            return false;
        }
        let raw = match self.pe.read_unalinged_from_offset::<u32>(info_offset) {
            Some(w) => w,
            None => return true,
        };
        let unwind_info = UnwindInfo::new(raw);
        proof {
            lemma_flag_bits(raw);
            lemma_flag_tests(unwind_info.flags@, raw);
        }
        let count = unwind_info.count_of_codes as usize;
        if count > 0 && self.pe.raw.len() < info_offset + 4 + 2 * count {
            return true;
        }
        !(unwind_info.flags.contains(UNW_FLAG_CHAININFO) && unwind_info.count_of_codes == 255)
    }

    pub fn next(&mut self) -> (r: Option<ExceptionEntryX86<'a>>)
        requires
            old(self).next_defined(),
        ensures
            final(self).pe() == old(self).pe(),
            final(self).limit() == old(self).limit(),
            r is Some ==> old(self).offset() < old(self).limit() && final(self).offset() == old(
                self,
            ).offset() + 12,
            ({
                let s = old(self).pe().bytes();
                match old(self).next_info_offset() {
                    None => r is None && final(self).offset() == old(self).offset(),
                    Some(io) => {
                        let raw = le_u32(s, io as int);
                        let count = (raw >> 16u32) & 0xff;
                        let flags = (raw >> 3u32) & 0x7;
                        let il = io + 4;
                        let cl = code_limit(io as int, raw);
                        if count > 0 && s.len() < cl {
                            r is None && final(self).offset() == old(self).offset()
                        } else {
                            &&& r matches Some(e)
                            &&& e.rt_function == old(self).next_entry().unwrap()
                            &&& e.unwind_info.unpacks(raw)
                            &&& count == 0 ==> e.unwind_code_iter is None
                            &&& count > 0 ==> (e.unwind_code_iter matches Some(it) && it@
                                == le_u16_slots(s.subrange(il, cl)))
                            &&& e.handler_rva == if flags & 3 == 3 {
                                let h = handler_offset(cl);
                                if s.len() < h + 4 {
                                    None
                                } else {
                                    Some(le_u32(s, h))
                                }
                            } else {
                                None
                            }
                            &&& flags & 4 == 0 ==> e.chain_info is None
                            &&& flags & 4 != 0 ==> (e.chain_info matches Some(c) && c.pe()
                                == old(self).pe() && c.offset() == chain_offset(io as int, raw)
                                && c.limit() == chain_offset(io as int, raw) + 12)
                            &&& final(self).offset() == old(self).offset() + 12
                        }
                    },
                }
            }),
    {
        proof {
            use_type_invariant(&*self);
        }
        if self.offset >= self.limit {
            return None;
        }
        let rt_function = match self.pe.read_unalinged_from_offset::<RuntimeFunctionEntry>(
            self.offset,
        ) {
            Some(rt) => rt,
            None => return None,
        };
        if rt_function.begin_address == 0 || rt_function.begin_address == 0 {
            return None;
        }
        let info_offset = match self.pe.rva_to_offset(rt_function.unwind_info_address) {
            Some(o) => o,
            None => return None,
        };
        let info_limit = info_offset + 4;
        let raw = match self.pe.read_unalinged_from_offset::<u32>(info_offset) {
            Some(w) => w,
            None => return None,
        };
        let unwind_info = UnwindInfo::new(raw);
        proof {
            lemma_flag_bits(raw);
            lemma_flag_tests(unwind_info.flags@, raw);
        }
        let code_limit = info_limit + unwind_info.count_of_codes as usize * 2;
        let raw_bytes = self.pe.raw;
        let unwind_code_iter = if code_limit > info_limit {
            if raw_bytes.len() < code_limit {
                return None;
            }
            Some(UnwindCodeIter::new(&raw_bytes[info_limit..code_limit]))
        } else {
            None
        };
        let handler_rva = if unwind_info.flags.contains(UNW_FLAG_EHANDLER | UNW_FLAG_UHANDLER) {
            let handler_at = align_up(code_limit, 4);
            assert(handler_at == handler_offset(code_limit as int));
            self.pe.read_unalinged_from_offset::<u32>(handler_at)
        } else {
            None
        };
        let chain_info = if unwind_info.flags.contains(UNW_FLAG_CHAININFO) {
            let chain_offset = info_limit + ((unwind_info.count_of_codes + 1) & !1) as usize * 2;
            Some(
                ExceptionEntryX86Iter {
                    pe: self.pe,
                    offset: chain_offset,
                    limit: chain_offset + RuntimeFunctionEntry::size(),
                },
            )
        } else {
            None
        };
        self.offset = self.offset + RuntimeFunctionEntry::size();
        Some(
            ExceptionEntryX86 {
                rt_function,
                unwind_info,
                unwind_code_iter,
                handler_rva,
                chain_info,
            },
        )
    }
}

/// How many more entries a walk at `offset` can yield before `limit`.
pub open spec fn exception_walk_bound(offset: int, limit: int) -> nat {
    if offset < limit {
        ((limit - offset + 11) / 12) as nat
    } else {
        0
    }
}

/// The exception walk ends: every entry it yields lies before the limit and
/// moves the walk on by 12 bytes, so the bound on the entries still to come
/// drops with each one.
pub proof fn lemma_exception_walk_ends(offset: int, limit: int)
    requires
        offset < limit,
    ensures
        exception_walk_bound(offset + 12, limit) < exception_walk_bound(offset, limit),
{
}

impl<'a> PEInfo<'a> {
    /// Walks the exception directory of an x64 image, when the NT headers are
    /// decoded and a section maps the directory; other machines give `None`.
    pub fn get_exceptions(&self) -> (r: Option<ExceptionEntryIter<'_>>)
        requires
            self.wf(),
            self.dir_rva_defined(IMAGE_DIRECTORY_ENTRY_EXCEPTION),
            self.dir_span_defined(IMAGE_DIRECTORY_ENTRY_EXCEPTION),
        ensures
            match self.spec_data_dir(IMAGE_DIRECTORY_ENTRY_EXCEPTION) {
                None => r is None,
                Some(dir) => match self.spec_rva_to_offset(dir.virtual_address) {
                    None => r is None,
                    Some(off) => if self.nt().unwrap().file_header().machine
                        == IMAGE_FILE_MACHINE_AMD64 {
                        r matches Some(ExceptionEntryIter::X86(it)) && it.pe() == self
                            && it.offset() == off && it.limit() == off + dir.size
                    } else {
                        r is None
                    },
                },
            },
    {
        let nt_header = match self.get_nt_header().as_ref() {
            Some(h) => h,
            None => return None,
        };
        let exception_dir = nt_header.optional_header().data_directory(
            IMAGE_DIRECTORY_ENTRY_EXCEPTION,
        );
        let exception_desc_offset = match self.rva_to_offset(exception_dir.virtual_address) {
            Some(o) => o,
            None => return None,
        };
        if nt_header.file_header().machine == IMAGE_FILE_MACHINE_AMD64 {
            Some(
                ExceptionEntryIter::X86(
                    ExceptionEntryX86Iter {
                        pe: self,
                        offset: exception_desc_offset,
                        limit: exception_desc_offset + exception_dir.size as usize,
                    },
                ),
            )
        } else {
            None
        }
    }
}

/// The unwind codes of an `UNWIND_INFO` at `io` take two bytes each and start
/// right after its 4-byte header word.
pub proof fn lemma_code_limit(io: int, raw: u32)
    ensures
        code_limit(io, raw) == io + 4 + 2 * ((raw >> 16u32) & 0xff),
        code_limit(io, raw) >= io + 4,
{
}

/// The chained entry follows the unwind codes, whose count is rounded up to
/// an even number: right after them for an even count, two bytes later for an
/// odd one.
pub proof fn lemma_chain_offset(io: int, raw: u32)
    requires
        (raw >> 16u32) & 0xff < 255,
    ensures
        ({
            let n = (raw >> 16u32) & 0xff;
            &&& chain_offset(io, raw) == io + 4 + 2 * (n + n % 2)
            &&& n % 2 == 0 ==> chain_offset(io, raw) == code_limit(io, raw)
            &&& n % 2 == 1 ==> chain_offset(io, raw) == code_limit(io, raw) + 2
        }),
{
    let n = (raw >> 16u32) & 0xff;
    assert(n < 255 ==> ((((n + 1) as u8) & !1u8) as u32) == n + n % 2) by (bit_vector);
}

/// The handler RVA is read at the first 4-byte-aligned offset at or after the
/// end of the unwind codes.
pub proof fn lemma_handler_offset(code_limit: usize)
    requires
        code_limit + 3 <= usize::MAX,
    ensures
        handler_offset(code_limit as int) % 4 == 0,
        code_limit <= handler_offset(code_limit as int) < code_limit + 4,
{
    let x: usize = (code_limit + 3) as usize;
    let h: usize = x & !3usize;
    assert(h % 4 == 0 && h <= x && x - h <= 3) by (bit_vector)
        requires
            h == x & !3usize,
    ;
}

/// Every field of a decoded runtime function entry is the `u32` stored at its
/// offset: begin at 0, end at 4, unwind information RVA at 8.
pub proof fn lemma_runtime_function_layout(s: Seq<u8>, off: int)
    ensures
        RuntimeFunctionEntry::spec_decode(s, off).begin_address == le_u32(s, off),
        RuntimeFunctionEntry::spec_decode(s, off).end_address == le_u32(s, off + 4),
        RuntimeFunctionEntry::spec_decode(s, off).unwind_info_address == le_u32(s, off + 8),
{
}

} // verus!
