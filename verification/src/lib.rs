//! Decoder for the Metrowerks CodeWarrior object-file and library container
//! formats targeting the Motorola 68000 family.
//!
//! The crate turns a byte buffer produced by the CodeWarrior toolchain into a
//! fully populated in-memory model: library envelope, member files, object
//! headers, name tables, symbol tables and the tagged code-hunk stream. Every
//! decoder is specified against a mathematical parser over the byte sequence
//! and verified to return exactly what that parser describes.

pub mod code_m68k;
pub mod cursor;
pub mod error;
pub mod mwob_library;
pub mod objects_m68k;
pub mod symtable_m68k;
pub mod types_m68k;
pub mod util;

pub use code_m68k::decode_hunks;
pub use mwob_library::decode_library;
pub use objects_m68k::decode_object;
pub use symtable_m68k::decode_symbol_table;
