//! Parsing of Portable Executable (PE) images: the DOS and NT headers, the
//! section table, and the import, export, base relocation and exception
//! directories, decoded from the raw bytes of an image file.

pub mod exceptions;
pub mod export;
pub mod import;
pub mod le;
pub mod pe;
pub mod relocs;
pub mod unwind;
pub mod utils;

pub use pe::PEInfo;
