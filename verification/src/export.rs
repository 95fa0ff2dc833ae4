//! The export directory: the DLL's name, its function RVA array, and the name
//! RVA and ordinal arrays that list the exports by name.

use vstd::prelude::*;
use vstd::string::StringSliceAdditionalSpecFns;

use crate::le::{le_u16, le_u32, lemma_slice_len_bound, read_u16, read_u32, LeDecode};
use crate::pe::{DataDirectory, PEInfo, IMAGE_DIRECTORY_ENTRY_EXPORT};
use crate::utils::{conv_str_from_u8array, spec_str_at, str_matches};

verus! {

/// The export directory table (40 bytes).
#[derive(Clone, Copy, Debug, PartialEq, Eq)]
pub struct ImageExportDirectory {
    pub characteristics: u32,
    pub time_date_stamp: u32,
    pub major_version: u16,
    pub minor_version: u16,
    pub name: u32,
    pub base: u32,
    pub number_of_functions: u32,
    pub number_of_names: u32,
    pub address_of_functions: u32,
    pub address_of_names: u32,
    pub address_of_name_ordinals: u32,
}

impl LeDecode for ImageExportDirectory {
    open spec fn spec_size() -> nat {
        40
    }

    open spec fn spec_decode(s: Seq<u8>, off: int) -> ImageExportDirectory {
        ImageExportDirectory {
            characteristics: le_u32(s, off),
            time_date_stamp: le_u32(s, off + 4),
            major_version: le_u16(s, off + 8),
            minor_version: le_u16(s, off + 10),
            name: le_u32(s, off + 12),
            base: le_u32(s, off + 16),
            number_of_functions: le_u32(s, off + 20),
            number_of_names: le_u32(s, off + 24),
            address_of_functions: le_u32(s, off + 28),
            address_of_names: le_u32(s, off + 32),
            address_of_name_ordinals: le_u32(s, off + 36),
        }
    }

    fn size() -> (n: usize) {
        40
    }

    fn decode(s: &[u8], off: usize) -> (r: ImageExportDirectory) {
        proof {
            lemma_slice_len_bound(s);
        }
        ImageExportDirectory {
            characteristics: read_u32(s, off),
            time_date_stamp: read_u32(s, off + 4),
            major_version: read_u16(s, off + 8),
            minor_version: read_u16(s, off + 10),
            name: read_u32(s, off + 12),
            base: read_u32(s, off + 16),
            number_of_functions: read_u32(s, off + 20),
            number_of_names: read_u32(s, off + 24),
            address_of_functions: read_u32(s, off + 28),
            address_of_names: read_u32(s, off + 32),
            address_of_name_ordinals: read_u32(s, off + 36),
        }
    }
}

/// The `count` `u32`s stored from the RVA `rva` on, when a section maps the RVA
/// and the image holds them all.
pub open spec fn spec_u32_array(pe: &PEInfo, rva: u32, count: u32) -> Option<Seq<u32>> {
    match pe.spec_rva_to_offset(rva) {
        None => None,
        Some(off) => if pe.bytes().len() < off + 4 * count {
            None
        } else {
            Some(Seq::new(count as nat, |i: int| le_u32(pe.bytes(), off + 4 * i)))
        },
    }
}

/// The `count` `u16`s stored from the RVA `rva` on, when a section maps the RVA
/// and the image holds them all.
pub open spec fn spec_u16_array(pe: &PEInfo, rva: u32, count: u32) -> Option<Seq<u16>> {
    match pe.spec_rva_to_offset(rva) {
        None => None,
        Some(off) => if pe.bytes().len() < off + 2 * count {
            None
        } else {
            Some(Seq::new(count as nat, |i: int| le_u16(pe.bytes(), off + 2 * i)))
        },
    }
}

/// Locating `count` elements of `width` bytes at the RVA `rva` stays within
/// `usize`: their size, and their end once the RVA translates.
pub open spec fn array_span_defined(pe: &PEInfo, rva: u32, count: u32, width: nat) -> bool {
    pe.spec_rva_to_offset(rva) matches Some(off) ==> count * width <= usize::MAX && off + count
        * width <= usize::MAX
}

/// The export directory of an image.
pub struct ExportDescriptor<'a> {
    pub pe: &'a PEInfo<'a>,
    pub desc: ImageExportDirectory,
}

/// Walks the names of the exports, one name RVA at a time.
pub struct RVAArrayIter<'a> {
    pe: &'a PEInfo<'a>,
    index: usize,
    array: Vec<u32>,
}

/// One export by name: its ordinal, the RVA of its function, the RVA and text
/// of its name, and, for a forwarded export, the forwarder string.
#[derive(Clone, Copy, Debug, PartialEq, Eq)]
pub struct ExportInfoDescriptor<'a> {
    pub ord: u16,
    pub function_rva: u32,
    pub name_rva: u32,
    pub function_name: &'a str,
    pub forwarder: Option<&'a str>,
}

/// Walks the exports by name: the ordinal array and the name RVA array in
/// step, with the function RVA array indexed by ordinal.
pub struct ExportInfoDescriptorIter<'a> {
    pe: &'a PEInfo<'a>,
    func_rva_array: Vec<u32>,
    name_rvas: Vec<u32>,
    name_pos: usize,
    ords: Vec<u16>,
    ord_pos: usize,
}

/// A function RVA inside the export directory names a forwarder string.
pub open spec fn is_forwarder(dir: DataDirectory, f: u32) -> bool {
    dir.virtual_address <= f && f < dir.virtual_address + dir.size
}

/// `r` is the export that the ordinal `ord` and the name RVA `name_rva` give:
/// `None` when the ordinal indexes no function, the NT headers are missing, a
/// function RVA inside the export directory (a forwarder) has no file offset,
/// or the name cannot be read.
pub open spec fn export_info_matches(
    r: Option<ExportInfoDescriptor>,
    pe: &PEInfo,
    funcs: Seq<u32>,
    ord: u16,
    name_rva: u32,
) -> bool {
    if ord >= funcs.len() {
        r is None
    } else {
        match pe.spec_data_dir(IMAGE_DIRECTORY_ENTRY_EXPORT) {
            None => r is None,
            Some(dir) => {
                let f = funcs[ord as int];
                let forwarded = is_forwarder(dir, f);
                if forwarded && pe.spec_rva_to_offset(f) is None {
                    r is None
                } else {
                    let fwd = if forwarded {
                        spec_str_at(pe.bytes(), pe.spec_rva_to_offset(f).unwrap() as int)
                    } else {
                        None
                    };
                    match pe.spec_rva_to_offset(name_rva) {
                        None => r is None,
                        Some(name_off) => match spec_str_at(pe.bytes(), name_off as int) {
                            None => r is None,
                            Some(name) => {
                                &&& r matches Some(e)
                                &&& e.ord == ord
                                &&& e.function_rva == f
                                &&& e.name_rva == name_rva
                                &&& e.function_name.spec_bytes() == name
                                &&& str_matches(e.forwarder, fwd)
                            },
                        },
                    }
                }
            },
        }
    }
}

/// Making the export of `ord` and `name_rva` stays within `u32` arithmetic.
pub open spec fn export_info_defined(pe: &PEInfo, funcs: Seq<u32>, ord: u16, name_rva: u32) -> bool {
    ord < funcs.len() ==> match pe.spec_data_dir(IMAGE_DIRECTORY_ENTRY_EXPORT) {
        None => true,
        Some(dir) => {
            let f = funcs[ord as int];
            let forwarded = is_forwarder(dir, f);
            &&& dir.virtual_address <= f ==> dir.virtual_address + dir.size <= u32::MAX
            &&& forwarded ==> pe.rva_defined(f)
            &&& !(forwarded && pe.spec_rva_to_offset(f) is None) ==> pe.rva_defined(name_rva)
        },
    }
}

impl<'a> ExportDescriptor<'a> {
    pub open spec fn pe(&self) -> &'a PEInfo<'a> {
        self.pe
    }

    /// The export directory table as decoded (`desc`).
    pub open spec fn directory(&self) -> ImageExportDirectory {
        self.desc
    }

    /// The name of the DLL.
    pub fn get_dll_name(&self) -> (r: Option<&'a str>)
        requires
            self.pe().wf(),
            self.pe().rva_defined(self.directory().name),
        ensures
            match self.pe().spec_rva_to_offset(self.directory().name) {
                None => r is None,
                Some(off) => str_matches(r, spec_str_at(self.pe().bytes(), off as int)),
            },
    {
        let name_offset = match self.pe.rva_to_offset(self.desc.name) {
            Some(o) => o,
            None => return None,
        };
        conv_str_from_u8array(self.pe.raw, name_offset)
    }

    fn rva_array_u32(&self, rva: u32, count: u32) -> (r: Option<Vec<u32>>)
        requires
            self.pe().wf(),
            self.pe().rva_defined(rva),
            array_span_defined(self.pe(), rva, count, 4),
        ensures
            match r {
                Some(v) => spec_u32_array(self.pe(), rva, count) == Some(v@),
                None => spec_u32_array(self.pe(), rva, count) is None,
            },
    {
        let offset = match self.pe.rva_to_offset(rva) {
            Some(o) => o,
            None => return None,
        };
        let array_size = count as usize * 4;
        let raw = self.pe.raw;
        proof {
            lemma_slice_len_bound(raw);
        }
        if raw.len() < offset + array_size {
            return None;
        }
        let ghost want = Seq::new(count as nat, |i: int| le_u32(raw@, offset + 4 * i));
        let mut v: Vec<u32> = Vec::new();
        let mut i: u32 = 0;
        while i < count
            invariant
                i <= count,
                raw@.len() <= usize::MAX,
                offset + 4 * count <= raw@.len(),
                want == Seq::new(count as nat, |k: int| le_u32(raw@, offset + 4 * k)),
                v@ == want.take(i as int),
            decreases count - i,
        {
            v.push(read_u32(raw, offset + 4 * (i as usize)));
            i = i + 1;
            assert(v@ == want.take(i as int));
        }
        assert(v@ == want);
        Some(v)
    }

    fn rva_array_u16(&self, rva: u32, count: u32) -> (r: Option<Vec<u16>>)
        requires
            self.pe().wf(),
            self.pe().rva_defined(rva),
            array_span_defined(self.pe(), rva, count, 2),
        ensures
            match r {
                Some(v) => spec_u16_array(self.pe(), rva, count) == Some(v@),
                None => spec_u16_array(self.pe(), rva, count) is None,
            },
    {
        let offset = match self.pe.rva_to_offset(rva) {
            Some(o) => o,
            None => return None,
        };
        let array_size = count as usize * 2;
        let raw = self.pe.raw;
        proof {
            lemma_slice_len_bound(raw);
        }
        if raw.len() < offset + array_size {
            return None;
        }
        let ghost want = Seq::new(count as nat, |i: int| le_u16(raw@, offset + 2 * i));
        let mut v: Vec<u16> = Vec::new();
        let mut i: u32 = 0;
        while i < count
            invariant
                i <= count,
                raw@.len() <= usize::MAX,
                offset + 2 * count <= raw@.len(),
                want == Seq::new(count as nat, |k: int| le_u16(raw@, offset + 2 * k)),
                v@ == want.take(i as int),
            decreases count - i,
        {
            v.push(read_u16(raw, offset + 2 * (i as usize)));
            i = i + 1;
            assert(v@ == want.take(i as int));
        }
        assert(v@ == want);
        Some(v)
    }

    /// The function RVA array (`number_of_functions` entries).
    pub fn get_func_rva_array(&self) -> (r: Option<Vec<u32>>)
        requires
            self.pe().wf(),
            self.pe().rva_defined(self.directory().address_of_functions),
            array_span_defined(
                self.pe(),
                self.directory().address_of_functions,
                self.directory().number_of_functions,
                4,
            ),
        ensures
            match r {
                Some(v) => spec_u32_array(
                    self.pe(),
                    self.directory().address_of_functions,
                    self.directory().number_of_functions,
                ) == Some(v@),
                None => spec_u32_array(
                    self.pe(),
                    self.directory().address_of_functions,
                    self.directory().number_of_functions,
                ) is None,
            },
    {
        self.rva_array_u32(self.desc.address_of_functions, self.desc.number_of_functions)
    }

    /// The name RVA array (`number_of_names` entries).
    pub fn get_name_rva_array(&self) -> (r: Option<Vec<u32>>)
        requires
            self.pe().wf(),
            self.pe().rva_defined(self.directory().address_of_names),
            array_span_defined(
                self.pe(),
                self.directory().address_of_names,
                self.directory().number_of_names,
                4,
            ),
        ensures
            match r {
                Some(v) => spec_u32_array(
                    self.pe(),
                    self.directory().address_of_names,
                    self.directory().number_of_names,
                ) == Some(v@),
                None => spec_u32_array(
                    self.pe(),
                    self.directory().address_of_names,
                    self.directory().number_of_names,
                ) is None,
            },
    {
        self.rva_array_u32(self.desc.address_of_names, self.desc.number_of_names)
    }

    /// The ordinal array (`number_of_names` entries).
    pub fn get_ord_array(&self) -> (r: Option<Vec<u16>>)
        requires
            self.pe().wf(),
            self.pe().rva_defined(self.directory().address_of_name_ordinals),
            array_span_defined(
                self.pe(),
                self.directory().address_of_name_ordinals,
                self.directory().number_of_names,
                2,
            ),
        ensures
            match r {
                Some(v) => spec_u16_array(
                    self.pe(),
                    self.directory().address_of_name_ordinals,
                    self.directory().number_of_names,
                ) == Some(v@),
                None => spec_u16_array(
                    self.pe(),
                    self.directory().address_of_name_ordinals,
                    self.directory().number_of_names,
                ) is None,
            },
    {
        self.rva_array_u16(self.desc.address_of_name_ordinals, self.desc.number_of_names)
    }

    /// Walks the export names.
    pub fn get_func_names(&self) -> (r: Option<RVAArrayIter<'a>>)
        requires
            self.pe().wf(),
            self.pe().rva_defined(self.directory().address_of_names),
            array_span_defined(
                self.pe(),
                self.directory().address_of_names,
                self.directory().number_of_names,
                4,
            ),
        ensures
            match spec_u32_array(
                self.pe(),
                self.directory().address_of_names,
                self.directory().number_of_names,
            ) {
                None => r is None,
                Some(names) => r matches Some(it) && it.pe() == self.pe() && it.remaining()
                    == names,
            },
    {
        let array = match self.get_name_rva_array() {
            Some(a) => a,
            None => return None,
        };
        let it = RVAArrayIter { pe: self.pe, index: 0, array: array };
        assert(it.remaining() =~= it.array@);
        Some(it)
    }

    /// Walks the exports by name.
    pub fn get_export_info(&self) -> (r: Option<ExportInfoDescriptorIter<'a>>)
        requires
            self.pe().wf(),
            self.pe().rva_defined(self.directory().address_of_functions),
            self.pe().rva_defined(self.directory().address_of_names),
            self.pe().rva_defined(self.directory().address_of_name_ordinals),
            array_span_defined(
                self.pe(),
                self.directory().address_of_functions,
                self.directory().number_of_functions,
                4,
            ),
            array_span_defined(
                self.pe(),
                self.directory().address_of_names,
                self.directory().number_of_names,
                4,
            ),
            array_span_defined(
                self.pe(),
                self.directory().address_of_name_ordinals,
                self.directory().number_of_names,
                2,
            ),
        ensures
            ({
                let d = self.directory();
                let funcs = spec_u32_array(self.pe(), d.address_of_functions, d.number_of_functions);
                let names = spec_u32_array(self.pe(), d.address_of_names, d.number_of_names);
                let ords = spec_u16_array(self.pe(), d.address_of_name_ordinals, d.number_of_names);
                if funcs is None || names is None || ords is None {
                    r is None
                } else {
                    &&& r matches Some(it)
                    &&& it.pe() == self.pe()
                    &&& it.funcs() == funcs.unwrap()
                    &&& it.names() == names.unwrap()
                    &&& it.ords() == ords.unwrap()
                }
            }),
    {
        let func_rva_array = match self.get_func_rva_array() {
            Some(a) => a,
            None => return None,
        };
        let name_rvas = match self.get_name_rva_array() {
            Some(a) => a,
            None => return None,
        };
        let ords = match self.get_ord_array() {
            Some(a) => a,
            None => return None,
        };
        let it = ExportInfoDescriptorIter {
            pe: self.pe,
            func_rva_array,
            name_rvas,
            name_pos: 0,
            ords,
            ord_pos: 0,
        };
        assert(it.names() =~= it.name_rvas@);
        assert(it.ords() =~= it.ords@);
        Some(it)
    }
}

impl<'a> RVAArrayIter<'a> {
    #[verifier::type_invariant]
    spec fn index_in_bounds(self) -> bool {
        &&& self.pe.wf()
        &&& self.index <= self.array@.len()
    }

    pub closed spec fn pe(&self) -> &'a PEInfo<'a> {
        self.pe
    }

    /// The name RVAs not yet walked.
    pub closed spec fn remaining(&self) -> Seq<u32> {
        self.array@.skip(self.index as int)
    }

    /// The next name RVA, if any, can be translated within `u32`.
    pub open spec fn next_defined(&self) -> bool {
        self.remaining().len() > 0 ==> self.pe().rva_defined(self.remaining()[0])
    }

    /// Whether `next` can be called on the walk as it stands.
    pub fn can_advance(&self) -> (b: bool)
        ensures
            b == self.next_defined(),
    {
        proof {
            use_type_invariant(self);
        }
        if self.index >= self.array.len() {
            return true;
        }
        self.pe.rva_translatable(self.array[self.index])
    }

    /// The next name; `None` also when a name cannot be read, after which the
    /// walk goes on with the following one.
    pub fn next(&mut self) -> (r: Option<&'a str>)
        requires
            old(self).next_defined(),
        ensures
            final(self).pe() == old(self).pe(),
            old(self).remaining().len() == 0 ==> r is None && final(self).remaining() == old(
                self,
            ).remaining(),
            old(self).remaining().len() > 0 ==> {
                &&& final(self).remaining() == old(self).remaining().drop_first()
                &&& match old(self).pe().spec_rva_to_offset(old(self).remaining()[0]) {
                    None => r is None,
                    Some(off) => str_matches(r, spec_str_at(old(self).pe().bytes(), off as int)),
                }
            },
    {
        proof {
            use_type_invariant(&*self);
        }
        if self.index >= self.array.len() {
            return None;
        }
        let rva = self.array[self.index];
        let ghost before = self.remaining();
        self.index = self.index + 1;
        assert(self.remaining() =~= before.drop_first());
        let offset = match self.pe.rva_to_offset(rva) {
            Some(o) => o,
            None => return None,
        };
        conv_str_from_u8array(self.pe.raw, offset)
    }
}

impl<'a> ExportInfoDescriptorIter<'a> {
    #[verifier::type_invariant]
    spec fn positions_in_bounds(self) -> bool {
        &&& self.pe.wf()
        &&& self.name_pos <= self.name_rvas@.len()
        &&& self.ord_pos <= self.ords@.len()
    }

    pub closed spec fn pe(&self) -> &'a PEInfo<'a> {
        self.pe
    }

    /// The function RVA array.
    pub closed spec fn funcs(&self) -> Seq<u32> {
        self.func_rva_array@
    }

    /// The name RVAs not yet walked.
    pub closed spec fn names(&self) -> Seq<u32> {
        self.name_rvas@.skip(self.name_pos as int)
    }

    /// The ordinals not yet walked.
    pub closed spec fn ords(&self) -> Seq<u16> {
        self.ords@.skip(self.ord_pos as int)
    }

    /// The next export, if any, can be made within `u32` arithmetic.
    pub open spec fn next_defined(&self) -> bool {
        self.ords().len() > 0 && self.names().len() > 0 ==> export_info_defined(
            self.pe(),
            self.funcs(),
            self.ords()[0],
            self.names()[0],
        )
    }

    /// Whether `next` can be called on the walk as it stands.
    pub fn can_advance(&self) -> (b: bool)
        ensures
            b == self.next_defined(),
    {
        proof {
            use_type_invariant(self);
        }
        if self.ord_pos >= self.ords.len() || self.name_pos >= self.name_rvas.len() {
            return true;
        }
        let ord = self.ords[self.ord_pos];
        let name_rva = self.name_rvas[self.name_pos];
        if ord as usize >= self.func_rva_array.len() {
            return true;
        }
        let function_rva = self.func_rva_array[ord as usize];
        let export_dir = match self.pe.get_nt_header().as_ref() {
            Some(h) => h.optional_header().data_directory(IMAGE_DIRECTORY_ENTRY_EXPORT),
            None => return true,
        };
        if function_rva >= export_dir.virtual_address && export_dir.size > u32::MAX
            - export_dir.virtual_address {
            return false;
        }
        let forwarded = function_rva >= export_dir.virtual_address && function_rva
            < export_dir.virtual_address + export_dir.size;
        if forwarded {
            if !self.pe.rva_translatable(function_rva) {
                return false;
            }
            if self.pe.rva_to_offset(function_rva).is_none() {
                return true;
            }
        }
        self.pe.rva_translatable(name_rva)
    }

    pub fn next(&mut self) -> (r: Option<ExportInfoDescriptor<'a>>)
        requires
            old(self).next_defined(),
        ensures
            final(self).pe() == old(self).pe(),
            final(self).funcs() == old(self).funcs(),
            old(self).ords().len() == 0 ==> {
                &&& r is None
                &&& final(self).ords() == old(self).ords()
                &&& final(self).names() == old(self).names()
            },
            old(self).ords().len() > 0 && old(self).names().len() == 0 ==> {
                &&& r is None
                &&& final(self).ords() == old(self).ords().drop_first()
                &&& final(self).names() == old(self).names()
            },
            old(self).ords().len() > 0 && old(self).names().len() > 0 ==> {
                &&& final(self).ords() == old(self).ords().drop_first()
                &&& final(self).names() == old(self).names().drop_first()
                &&& export_info_matches(
                    r,
                    old(self).pe(),
                    old(self).funcs(),
                    old(self).ords()[0],
                    old(self).names()[0],
                )
            },
    {
        proof {
            use_type_invariant(&*self);
        }
        let ghost ords_before = self.ords();
        let ghost names_before = self.names();
        if self.ord_pos >= self.ords.len() {
            return None;
        }
        let ord = self.ords[self.ord_pos];
        self.ord_pos = self.ord_pos + 1;
        assert(self.ords() =~= ords_before.drop_first());
        if self.name_pos >= self.name_rvas.len() {
            return None;
        }
        let name_rva = self.name_rvas[self.name_pos];
        self.name_pos = self.name_pos + 1;
        assert(self.names() =~= names_before.drop_first());
        if ord as usize >= self.func_rva_array.len() {
            return None;
        }
        let function_rva = self.func_rva_array[ord as usize];
        let export_dir: DataDirectory = match self.pe.get_nt_header().as_ref() {
            Some(h) => h.optional_header().data_directory(IMAGE_DIRECTORY_ENTRY_EXPORT),
            None => return None,
        };
        let forwarder = if function_rva >= export_dir.virtual_address && function_rva
            < export_dir.virtual_address + export_dir.size {
            let forwarder_offset = match self.pe.rva_to_offset(function_rva) {
                Some(o) => o,
                None => return None,
            };
            conv_str_from_u8array(self.pe.raw, forwarder_offset)
        } else {
            None
        };
        let name_offset = match self.pe.rva_to_offset(name_rva) {
            Some(o) => o,
            None => return None,
        };
        let function_name = match conv_str_from_u8array(self.pe.raw, name_offset) {
            Some(n) => n,
            None => return None,
        };
        Some(ExportInfoDescriptor { ord, function_rva, name_rva, function_name, forwarder })
    }
}

impl<'a> PEInfo<'a> {
    /// Reading the export directory table is defined: its RVA translates within
    /// `u32`, its end stays within `usize`, and a directory that the image holds
    /// is large enough for the table.
    pub open spec fn exports_defined(&self) -> bool {
        &&& self.dir_rva_defined(IMAGE_DIRECTORY_ENTRY_EXPORT)
        &&& self.dir_span_defined(IMAGE_DIRECTORY_ENTRY_EXPORT)
        &&& match self.spec_data_dir(IMAGE_DIRECTORY_ENTRY_EXPORT) {
            Some(dir) => match self.spec_rva_to_offset(dir.virtual_address) {
                Some(off) => off + dir.size <= self.bytes().len() ==> 40 <= dir.size,
                None => true,
            },
            None => true,
        }
    }

    /// The export directory table, when the NT headers are decoded, a section
    /// maps it and the image holds the directory.
    pub fn get_exports(&self) -> (r: Option<ExportDescriptor<'_>>)
        requires
            self.wf(),
            self.exports_defined(),
        ensures
            match self.spec_data_dir(IMAGE_DIRECTORY_ENTRY_EXPORT) {
                None => r is None,
                Some(dir) => match self.spec_rva_to_offset(dir.virtual_address) {
                    None => r is None,
                    Some(off) => if self.bytes().len() < off + dir.size {
                        r is None
                    } else {
                        &&& r matches Some(e)
                        &&& e.pe() == self
                        &&& e.directory() == ImageExportDirectory::spec_decode(
                            self.bytes(),
                            off as int,
                        )
                    },
                },
            },
    {
        let nt_header = match self.get_nt_header().as_ref() {
            Some(h) => h,
            None => return None,
        };
        let export_dir = nt_header.optional_header().data_directory(IMAGE_DIRECTORY_ENTRY_EXPORT);
        let export_desc_offset = match self.rva_to_offset(export_dir.virtual_address) {
            Some(o) => o,
            None => return None,
        };
        let desc = match self.read_unalinged_from_offset_arb::<ImageExportDirectory>(
            export_desc_offset,
            export_dir.size as usize,
        ) {
            Some(d) => d,
            None => return None,
        };
        Some(ExportDescriptor { pe: self, desc })
    }
}

/// Every field of a decoded export directory table is the value stored at its
/// offset; in particular the function count (at 20) and the name count (at 24)
/// are read from separate fields, as are the three array RVAs (28, 32, 36).
pub proof fn lemma_export_directory_layout(s: Seq<u8>, off: int)
    ensures
        ({
            let d = ImageExportDirectory::spec_decode(s, off);
            &&& d.characteristics == le_u32(s, off)
            &&& d.time_date_stamp == le_u32(s, off + 4)
            &&& d.major_version == le_u16(s, off + 8)
            &&& d.minor_version == le_u16(s, off + 10)
            &&& d.name == le_u32(s, off + 12)
            &&& d.base == le_u32(s, off + 16)
            &&& d.number_of_functions == le_u32(s, off + 20)
            &&& d.number_of_names == le_u32(s, off + 24)
            &&& d.address_of_functions == le_u32(s, off + 28)
            &&& d.address_of_names == le_u32(s, off + 32)
            &&& d.address_of_name_ordinals == le_u32(s, off + 36)
        }),
{
}

/// The name RVA and ordinal arrays both have as many entries as the table's
/// name count, and the function RVA array as many as its function count:
/// entry `i` of each lies `4 * i` (names, functions) or `2 * i` (ordinals)
/// bytes after the array's file offset.
pub proof fn lemma_export_arrays_layout(pe: &PEInfo, rva: u32, count: u32, i: int)
    requires
        0 <= i < count,
    ensures
        spec_u32_array(pe, rva, count) matches Some(a) ==> a.len() == count && a[i] == le_u32(
            pe.bytes(),
            pe.spec_rva_to_offset(rva).unwrap() + 4 * i,
        ),
        spec_u16_array(pe, rva, count) matches Some(a) ==> a.len() == count && a[i] == le_u16(
            pe.bytes(),
            pe.spec_rva_to_offset(rva).unwrap() + 2 * i,
        ),
{
}

/// An export is forwarded exactly when its function RVA lies within the export
/// directory: from its RVA up to, not including, its RVA plus its size.
pub proof fn lemma_is_forwarder(dir: DataDirectory, f: u32)
    ensures
        is_forwarder(dir, f) <==> (dir.virtual_address as int <= f as int && (f as int)
            < dir.virtual_address as int + dir.size as int),
{
}

/// The text of an export's forwarder and name are the strings at the file
/// offsets of their RVAs; an ordinal indexing no function, or a forwarder whose
/// RVA no section maps, gives no export.
pub proof fn lemma_export_info_sources(
    r: Option<ExportInfoDescriptor>,
    pe: &PEInfo,
    funcs: Seq<u32>,
    ord: u16,
    name_rva: u32,
)
    requires
        export_info_matches(r, pe, funcs, ord, name_rva),
    ensures
        ord >= funcs.len() ==> r is None,
        r matches Some(e) ==> {
            &&& e.ord == ord
            &&& e.function_rva == funcs[ord as int]
            &&& e.name_rva == name_rva
            &&& pe.spec_rva_to_offset(name_rva) matches Some(no) && spec_str_at(
                pe.bytes(),
                no as int,
            ) == Some(e.function_name.spec_bytes())
            &&& e.forwarder is Some ==> (pe.spec_data_dir(IMAGE_DIRECTORY_ENTRY_EXPORT) matches Some(
                dir,
            ) && is_forwarder(dir, e.function_rva))
        },
{
}

} // verus!
