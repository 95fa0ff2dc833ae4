# rpp

A reader for Portable Executable (PE) images. `PEInfo::new` decodes the DOS
header, the NT headers (32- or 64-bit, chosen by the machine type) and the
section table from the raw bytes of an image; the other modules walk the
import, export, base relocation and x64 exception directories.

- `src/le.rs`: little-endian integers and the `LeDecode` trait of fixed-layout
  structures.
- `src/pe.rs`: headers, section table, RVA-to-file-offset translation.
- `src/import.rs`, `src/export.rs`, `src/relocs.rs`, `src/exceptions.rs`,
  `src/unwind.rs`: the data directories.
- `src/utils.rs`: NUL-terminated UTF-8 strings and alignment.
- `app/main.rs`: a command-line dump of an image file.

Every function is stated over the bytes of the image. Where decoding an image
would overflow the integer arithmetic of the format (a section whose end
passes `u32::MAX`, a relocation block shorter than its header, ...), the
function's precondition leaves that image out; `PEInfo::accepts`,
`PEInfo::rva_translatable` and the walks' `can_advance` methods test those
preconditions.
