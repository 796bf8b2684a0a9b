//! The closed set of decoding failures.
//!
//! Every decoder in this crate either returns a fully constructed record or
//! exactly one of these errors; partial results are never exposed.

use vstd::prelude::*;

verus! {

/// The hunk kinds that the stream decoder refuses outright.
#[derive(Debug, Clone, Copy, PartialEq, Eq, Structural)]
pub enum ReservedHunkKind {
    LibraryBreak,
    DiffU8,
    DiffU16,
    DiffU32,
    DeinitCode,
    ForceActive,
    Illegal1,
    Illegal2,
    CFMInternal,
}

/// Header fields that must hold zero.
#[derive(Debug, Clone, Copy, PartialEq, Eq, Structural)]
pub enum ReservedField {
    LibraryFlags,
    ObjReserved1,
    ObjReserved3,
    ObjReserved4,
}

/// The redundant size counters of the object header.
#[derive(Debug, Clone, Copy, PartialEq, Eq, Structural)]
pub enum SizeField {
    Code,
    UData,
    IData,
}

/// One failure of a decoder, with the values that locate the fault.
#[derive(Debug, Clone, Copy, PartialEq, Eq, Structural)]
pub enum DecodeError {
    /// A read needed more bytes than the slice still held.
    TruncatedInput { needed: usize, available: usize },
    /// The library envelope does not start with `MWOB`.
    BadLibMagic { got: u32 },
    /// The object header does not start with `0xFEEDBEAD`.
    BadObjMagic { got: u32 },
    /// The symbol table does not start with `SYMH`.
    BadSymMagic { got: u32 },
    /// The object header version is not zero.
    BadObjVersion { got: u16 },
    /// The library version does not agree with its processor word.
    BadLibVersionForProcessor { expected: u32, got: u32 },
    /// A reserved header field held a non-zero value.
    ReservedNonZero { field: ReservedField, got: u32 },
    /// A name-table entry's stored hash disagrees with the computed one.
    NameHashMismatch { expected: u16, got: u16, id: u32 },
    /// A name-table entry's body runs past the 255-byte bound without a
    /// terminator.
    NameTooLong { id: u32 },
    /// An unknown tag in the type table.
    BadTypeTag { got: u16 },
    /// An unknown tag in the hunk stream.
    BadHunkTag { got: u16 },
    /// An out-of-range routine kind in the symbol table.
    BadRoutineType { got: u16 },
    /// An out-of-range storage kind on a local variable.
    BadStorageKind { got: u8 },
    /// An out-of-range storage class on a local variable.
    BadStorageClass { got: u8 },
    /// An enum record whose base is not a basic data type.
    BadEnumBase { got: u16 },
    /// A Pascal enum whose 32-bit count field cannot be read consistently:
    /// the member count lives in the field's upper half, and a non-zero
    /// lower half means reading the whole field as the count would disagree.
    BadPascalEnumCount { upper: u16, lower: u16 },
    /// A hunk the decoder classifies as reserved; decoding aborts.
    ReservedHunkEncountered { kind: ReservedHunkKind },
    /// A header size counter disagrees with the decoded hunks.
    SizeCrossCheckFailed { field: SizeField, expected: u32, got: u64 },
    /// The symbol-table slice length disagrees with the consumed routines.
    SymTableSizeMismatch,
}

/// The error for a read of `needed` bytes at `pos` in a buffer of `len`.
pub open spec fn truncated(needed: int, pos: int, len: int) -> DecodeError {
    DecodeError::TruncatedInput { needed: needed as usize, available: (len - pos) as usize }
}

} // verus!
