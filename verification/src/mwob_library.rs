//! The library envelope: the `MWOB` header, the member-file descriptors and
//! the member objects they point at.
//!
//! The decoder is specified by `library_parse` and proved to return exactly
//! what that parser describes. Member names and paths are library-absolute
//! nul-terminated strings; member object bytes are decoded with the object
//! decoder.

use crate::cursor::{take_be_u32};
use crate::error::{truncated, DecodeError, ReservedField};
use crate::objects_m68k::{
    cstr_end_at, decode_object, object_parse, MetrowerksObject, MetrowerksObjectView,
};
use crate::util::be_u32_at;
use vstd::prelude::*;
use vstd::string::StringSliceAdditionalSpecFns;

verus! {

/// The magic word that opens a library.
#[derive(Debug, Clone, Copy, PartialEq, Eq, Structural)]
pub enum LibraryMagicWord {
    LibraryMagicWord,
}

impl LibraryMagicWord {
    /// The numeric value of the magic word, `"MWOB"`.
    pub fn value(&self) -> (r: u32)
        ensures
            r == 0x4D574F42u32,
    {
        0x4D574F42
    }
}

/// The processor family a library was built for.
#[derive(Debug, Clone, Copy, PartialEq, Eq, Structural)]
pub enum LibraryProcessor {
    Unknown,
    PowerPC,
    M68k,
}

/// The processor a header word denotes.
pub open spec fn processor_of(value: u32) -> LibraryProcessor {
    if value == 0x4D36384B {
        LibraryProcessor::M68k
    } else if value == 0x50504320 {
        LibraryProcessor::PowerPC
    } else {
        LibraryProcessor::Unknown
    }
}

/// The header version that belongs to each processor.
pub open spec fn version_of_processor(p: LibraryProcessor) -> u32 {
    match p {
        LibraryProcessor::Unknown => 0,
        LibraryProcessor::PowerPC => 1,
        LibraryProcessor::M68k => 2,
    }
}

impl LibraryProcessor {
    /// Maps a header word to the processor it denotes.
    pub fn from_u32(value: u32) -> (r: LibraryProcessor)
        ensures
            r == processor_of(value),
    {
        if value == 0x4D36384B {
            LibraryProcessor::M68k
        } else if value == 0x50504320 {
            LibraryProcessor::PowerPC
        } else {
            LibraryProcessor::Unknown
        }
    }
}

/// The library flag word; only the empty value is defined.
#[derive(Debug, Clone, Copy, PartialEq, Eq, Structural)]
pub enum LibraryFlags {
    NoFlags,
}

/// One member of a library: its modification date (Mac epoch seconds), file
/// name, optional full path, and the owned object.
#[derive(Debug, Clone)]
pub struct MetrowerksFileObject {
    pub moddate: u32,
    pub file_name: Vec<u8>,
    pub full_path: Vec<u8>,
    pub obj: MetrowerksObject,
}

/// The mathematical value of a [`MetrowerksFileObject`].
#[verifier::ext_equal]
pub ghost struct MetrowerksFileObjectView {
    pub moddate: u32,
    pub file_name: Seq<u8>,
    pub full_path: Seq<u8>,
    pub obj: MetrowerksObjectView,
}

impl View for MetrowerksFileObject {
    type V = MetrowerksFileObjectView;

    open spec fn view(&self) -> MetrowerksFileObjectView {
        MetrowerksFileObjectView {
            moddate: self.moddate,
            file_name: self.file_name@,
            full_path: self.full_path@,
            obj: self.obj@,
        }
    }
}

impl MetrowerksFileObject {
    /// A fresh member wrapping the given object. The modification date is
    /// the current machine clock converted to Mac-epoch seconds; a clock
    /// outside the representable Mac range yields zero. Nothing is promised
    /// of the clock's value, so the contract leaves `moddate` unstated.
    pub fn new(file_name: &str, full_path: &str, mwob: MetrowerksObject) -> (r: MetrowerksFileObject)
        ensures
            r@.file_name == file_name.spec_bytes(),
            r@.full_path == full_path.spec_bytes(),
            r@.obj == mwob@,
    {
        let t: i64 = crate::util::now_unix_seconds();
        let off: i64 = crate::util::mac_epoch_offset();
        let moddate: u32 = if t >= -off && t <= 0xFFFFFFFFi64 - off {
            (t + off) as u32
        } else {
            0
        };
        let name_b = file_name.as_bytes();
        let path_b = full_path.as_bytes();
        proof {
            vstd::slice::axiom_spec_len(name_b);
            vstd::slice::axiom_spec_len(path_b);
        }
        let file_name_v = vstd::slice::slice_to_vec(name_b);
        let full_path_v = vstd::slice::slice_to_vec(path_b);
        MetrowerksFileObject { moddate, file_name: file_name_v, full_path: full_path_v, obj: mwob }
    }

    pub fn object(&self) -> (r: &MetrowerksObject)
        ensures
            r@ == self@.obj,
    {
        &self.obj
    }

    pub fn filename(&self) -> (r: &Vec<u8>)
        ensures
            r@ == self@.file_name,
    {
        &self.file_name
    }

    pub fn set_filename(&mut self, new_filename: &str)
        ensures
            final(self)@ == (MetrowerksFileObjectView {
                file_name: new_filename.spec_bytes(),
                ..old(self)@
            }),
    {
        let b = new_filename.as_bytes();
        proof {
            vstd::slice::axiom_spec_len(b);
        }
        self.file_name = vstd::slice::slice_to_vec(b);
    }

    pub fn fullpath(&self) -> (r: &Vec<u8>)
        ensures
            r@ == self@.full_path,
    {
        &self.full_path
    }

    pub fn set_fullpath(&mut self, new_full_path: &str)
        ensures
            final(self)@ == (MetrowerksFileObjectView {
                full_path: new_full_path.spec_bytes(),
                ..old(self)@
            }),
    {
        let b = new_full_path.as_bytes();
        proof {
            vstd::slice::axiom_spec_len(b);
        }
        self.full_path = vstd::slice::slice_to_vec(b);
    }

    /// The modification date as seconds in the Mac epoch.
    pub fn moddate(&self) -> (r: u32)
        ensures
            r == self@.moddate,
    {
        self.moddate
    }

    pub fn set_moddate(&mut self, new_moddate: u32)
        ensures
            final(self)@ == (MetrowerksFileObjectView { moddate: new_moddate, ..old(self)@ }),
    {
        self.moddate = new_moddate;
    }
}

/// A decoded library: the processor word, the flag word and the members.
#[derive(Debug, Clone)]
pub struct MetroWerksLibrary {
    pub proc: LibraryProcessor,
    pub flags: LibraryFlags,
    pub files: Vec<MetrowerksFileObject>,
}

/// The mathematical value of a [`MetroWerksLibrary`].
#[verifier::ext_equal]
pub ghost struct MetroWerksLibraryView {
    pub proc: LibraryProcessor,
    pub flags: LibraryFlags,
    pub files: Seq<MetrowerksFileObjectView>,
}

impl View for MetroWerksLibrary {
    type V = MetroWerksLibraryView;

    open spec fn view(&self) -> MetroWerksLibraryView {
        MetroWerksLibraryView {
            proc: self.proc,
            flags: self.flags,
            files: self.files@.map_values(|t: MetrowerksFileObject| t@),
        }
    }
}

impl MetroWerksLibrary {
    pub fn proc(&self) -> (r: LibraryProcessor)
        ensures
            r == self@.proc,
    {
        self.proc
    }

    pub fn flags(&self) -> (r: LibraryFlags)
        ensures
            r == self@.flags,
    {
        self.flags
    }

    /// The header version implied by the processor word.
    pub fn version(&self) -> (r: u32)
        ensures
            r == version_of_processor(self@.proc),
    {
        match self.proc {
            LibraryProcessor::Unknown => 0,
            LibraryProcessor::PowerPC => 1,
            LibraryProcessor::M68k => 2,
        }
    }

    pub fn files(&self) -> (r: &Vec<MetrowerksFileObject>)
        ensures
            r@.map_values(|t: MetrowerksFileObject| t@) == self@.files,
    {
        &self.files
    }

    /// A library assembled from parts.
    pub fn new(proc: LibraryProcessor, files: Vec<MetrowerksFileObject>) -> (r: MetroWerksLibrary)
        ensures
            r@.proc == proc,
            r@.flags == LibraryFlags::NoFlags,
            r@.files == files@.map_values(|t: MetrowerksFileObject| t@),
    {
        MetroWerksLibrary { proc, flags: LibraryFlags::NoFlags, files }
    }
}

/// A library-absolute nul-terminated string starting at `pos`.
pub open spec fn lib_cstr_at(s: Seq<u8>, pos: int) -> Result<Seq<u8>, DecodeError> {
    match cstr_end_at(s, pos, s.len() - pos) {
        Some(e) => Ok(s.subrange(pos, e)),
        None => Err(DecodeError::TruncatedInput { needed: 1, available: 0 }),
    }
}

/// Finds a nul terminator anywhere up to the end of the buffer, as
/// [`cstr_end_at`] with the remaining length as budget describes.
#[verifier::loop_isolation(false)]
fn find_nul(s: &[u8], start: usize) -> (r: Option<usize>)
    ensures
        match r {
            Some(e) => start <= e < s@.len() && cstr_end_at(
                s@,
                start as int,
                s@.len() - start as int,
            ) == Some(e as int),
            None => cstr_end_at(s@, start as int, s@.len() - start as int) is None,
        },
{
    proof {
        vstd::slice::axiom_spec_len(s);
    }
    let mut j: usize = start;
    while j < s.len()
        invariant
            start <= j,
            cstr_end_at(s@, start as int, s@.len() - start as int) == cstr_end_at(
                s@,
                j as int,
                s@.len() - j as int,
            ),
        decreases s@.len() - j as int,
    {
        let b: u8 = *vstd::slice::slice_index_get(s, j);
        if b == 0 {
            return Some(j);
        }
        j = j + 1;
    }
    None
}

/// The mathematical value of one file-entry view sequence parse: `k`
/// twenty-byte descriptors starting at `pos`, each pointing at its strings
/// and object bytes.
pub open spec fn file_entries_at(s: Seq<u8>, pos: int, k: int) -> Result<
    (Seq<MetrowerksFileObjectView>, int),
    DecodeError,
>
    decreases k,
{
    let len = s.len() as int;
    if k <= 0 {
        Ok((Seq::empty(), pos))
    } else if pos + 20 > len {
        Err(truncated(20, pos, len))
    } else {
        let moddate = be_u32_at(s, pos);
        let name_ptr = be_u32_at(s, pos + 4);
        let path_ptr = be_u32_at(s, pos + 8);
        let data_start = be_u32_at(s, pos + 12);
        let data_size = be_u32_at(s, pos + 16);
        match lib_cstr_at(s, name_ptr as int) {
            Err(e) => Err(e),
            Ok(fname) => {
                let path_r: Result<Seq<u8>, DecodeError> = if path_ptr == 0 {
                    Ok(Seq::empty())
                } else {
                    lib_cstr_at(s, path_ptr as int)
                };
                match path_r {
                    Err(e) => Err(e),
                    Ok(fpath) => {
                        if data_start as int + data_size as int > len {
                            Err(
                                DecodeError::TruncatedInput {
                                    needed: data_size as usize,
                                    available: if data_start as int <= len {
                                        (len - data_start as int) as usize
                                    } else {
                                        0usize
                                    },
                                },
                            )
                        } else {
                            match object_parse(
                                s.subrange(data_start as int, data_start as int + data_size as int),
                            ) {
                                Err(e) => Err(e),
                                Ok(o) => match file_entries_at(s, pos + 20, k - 1) {
                                    Ok(q) => Ok(
                                        (
                                            seq![
                                                MetrowerksFileObjectView {
                                                    moddate,
                                                    file_name: fname,
                                                    full_path: fpath,
                                                    obj: o,
                                                },
                                            ] + q.0,
                                            q.1,
                                        ),
                                    ),
                                    Err(e) => Err(e),
                                },
                            }
                        }
                    },
                }
            },
        }
    }
}

/// A whole library buffer: the 28-byte header, then one descriptor per
/// member file.
pub open spec fn library_parse(s: Seq<u8>) -> Result<MetroWerksLibraryView, DecodeError> {
    let len = s.len() as int;
    if len < 4 {
        Err(truncated(4, 0, len))
    } else if be_u32_at(s, 0) != 0x4D574F42 {
        Err(DecodeError::BadLibMagic { got: be_u32_at(s, 0) })
    } else if len < 28 {
        Err(truncated(24, 4, len))
    } else {
        let proc = processor_of(be_u32_at(s, 4));
        let flags_w = be_u32_at(s, 8);
        if flags_w != 0 {
            Err(DecodeError::ReservedNonZero { field: ReservedField::LibraryFlags, got: flags_w })
        } else {
            let version = be_u32_at(s, 12);
            if version != version_of_processor(proc) || proc == LibraryProcessor::Unknown {
                Err(
                    DecodeError::BadLibVersionForProcessor {
                        expected: version_of_processor(proc),
                        got: version,
                    },
                )
            } else {
                let num_files = be_u32_at(s, 24);
                match file_entries_at(s, 28, num_files as int) {
                    Ok(p) => Ok(
                        MetroWerksLibraryView {
                            proc,
                            flags: LibraryFlags::NoFlags,
                            files: p.0,
                        },
                    ),
                    Err(e) => Err(e),
                }
            }
        }
    }
}

/// A library whose header names zero member files decodes to an empty
/// member list.
pub proof fn lemma_empty_library(s: Seq<u8>)
    ensures
        match library_parse(s) {
            Ok(l) => be_u32_at(s, 24) == 0 ==> l.files.len() == 0,
            Err(_) => true,
        },
{
}

/// Decodes one member descriptor and its object, exactly as one unrolling of
/// [`file_entries_at`] describes.
fn decode_file_entry(s: &[u8], pos: &mut usize, k: Ghost<int>) -> (r: Result<
    MetrowerksFileObject,
    DecodeError,
>)
    requires
        *old(pos) <= s@.len(),
        k@ >= 1,
    ensures
        *final(pos) <= s@.len(),
        match r {
            Ok(f) => file_entries_at(s@, *old(pos) as int, k@) == (match file_entries_at(
                s@,
                *final(pos) as int,
                k@ - 1,
            ) {
                Ok(q) => Ok::<(Seq<MetrowerksFileObjectView>, int), DecodeError>((seq![f@] + q.0, q.1)),
                Err(e) => Err::<(Seq<MetrowerksFileObjectView>, int), DecodeError>(e),
            }) && *final(pos) == *old(pos) + 20,
            Err(e) => file_entries_at(s@, *old(pos) as int, k@) == Err::<
                (Seq<MetrowerksFileObjectView>, int),
                _,
            >(e),
        },
{
    proof {
        vstd::slice::axiom_spec_len(s);
    }
    if s.len() - *pos < 20 {
        return Err(DecodeError::TruncatedInput { needed: 20, available: s.len() - *pos });
    }
    let moddate = take_be_u32(s, pos);
    let name_ptr = take_be_u32(s, pos);
    let path_ptr = take_be_u32(s, pos);
    let data_start = take_be_u32(s, pos);
    let data_size = take_be_u32(s, pos);
    let file_name = match find_nul(s, name_ptr as usize) {
        Some(e) => {
            let b: &[u8] = vstd::slice::slice_subrange(s, name_ptr as usize, e);
            vstd::slice::slice_to_vec(b)
        },
        None => {
            return Err(DecodeError::TruncatedInput { needed: 1, available: 0 });
        },
    };
    let full_path = if path_ptr == 0 {
        let v: Vec<u8> = Vec::new();
        proof {
            assert(v@ =~= Seq::<u8>::empty());
        }
        v
    } else {
        match find_nul(s, path_ptr as usize) {
            Some(e) => {
                let b: &[u8] = vstd::slice::slice_subrange(s, path_ptr as usize, e);
                vstd::slice::slice_to_vec(b)
            },
            None => {
                return Err(DecodeError::TruncatedInput { needed: 1, available: 0 });
            },
        }
    };
    if (data_start as usize) > s.len() || s.len() - (data_start as usize) < (data_size as usize) {
        return Err(
            DecodeError::TruncatedInput {
                needed: data_size as usize,
                available: if data_start as usize <= s.len() {
                    s.len() - data_start as usize
                } else {
                    0
                },
            },
        );
    }
    let region: &[u8] = vstd::slice::slice_subrange(
        s,
        data_start as usize,
        data_start as usize + data_size as usize,
    );
    let obj = match decode_object(region) {
        Ok(o) => o,
        Err(e) => {
            return Err(e);
        },
    };
    Ok(MetrowerksFileObject { moddate, file_name, full_path, obj })
}

/// Decodes a whole library buffer, exactly as [`library_parse`] describes.
/// On success the member list holds exactly the count named in the header.
#[verifier::loop_isolation(false)]
pub fn decode_library(s: &[u8]) -> (r: Result<MetroWerksLibrary, DecodeError>)
    ensures
        match r {
            Ok(l) => library_parse(s@) == Ok::<_, DecodeError>(l@) && s@.len() >= 28 && l@.files.len()
                == be_u32_at(s@, 24),
            Err(e) => library_parse(s@) == Err::<MetroWerksLibraryView, _>(e),
        },
{
    proof {
        vstd::slice::axiom_spec_len(s);
    }
    let mut pos: usize = 0;
    if s.len() < 4 {
        return Err(DecodeError::TruncatedInput { needed: 4, available: s.len() });
    }
    let magic = take_be_u32(s, &mut pos);
    if magic != 0x4D574F42 {
        return Err(DecodeError::BadLibMagic { got: magic });
    }
    if s.len() < 28 {
        return Err(DecodeError::TruncatedInput { needed: 24, available: s.len() - 4 });
    }
    let proc_w = take_be_u32(s, &mut pos);
    let proc = LibraryProcessor::from_u32(proc_w);
    let flags_w = take_be_u32(s, &mut pos);
    if flags_w != 0 {
        return Err(
            DecodeError::ReservedNonZero { field: ReservedField::LibraryFlags, got: flags_w },
        );
    }
    let version = take_be_u32(s, &mut pos);
    let expected = match proc {
        LibraryProcessor::Unknown => 0u32,
        LibraryProcessor::PowerPC => 1u32,
        LibraryProcessor::M68k => 2u32,
    };
    let is_unknown = match proc {
        LibraryProcessor::Unknown => true,
        _ => false,
    };
    if version != expected || is_unknown {
        return Err(DecodeError::BadLibVersionForProcessor { expected, got: version });
    }
    let _code_size = take_be_u32(s, &mut pos);
    let _data_size = take_be_u32(s, &mut pos);
    let num_files = take_be_u32(s, &mut pos);
    let mut files: Vec<MetrowerksFileObject> = Vec::new();
    let mut i: u32 = 0;
    proof {
        match file_entries_at(s@, 28, num_files as int) {
            Ok(q) => {
                assert(files@.map_values(|t: MetrowerksFileObject| t@) + q.0 =~= q.0);
            },
            Err(_) => {},
        }
    }
    while i < num_files
        invariant
            pos <= s@.len(),
            i <= num_files,
            files@.len() == i,
            file_entries_at(s@, 28, num_files as int) == (match file_entries_at(
                s@,
                pos as int,
                num_files as int - i as int,
            ) {
                Ok(q) => Ok::<(Seq<MetrowerksFileObjectView>, int), DecodeError>((files@.map_values(
                    |t: MetrowerksFileObject| t@,
                ) + q.0, q.1)),
                Err(e) => Err::<(Seq<MetrowerksFileObjectView>, int), DecodeError>(e),
            }),
        decreases num_files as int - i as int,
    {
        let ghost pos_it: int = pos as int;
        let ghost out_it: Seq<MetrowerksFileObjectView> = files@.map_values(
            |t: MetrowerksFileObject| t@,
        );
        let ghost k: int = num_files as int - i as int;
        match decode_file_entry(s, &mut pos, Ghost(k)) {
            Ok(f) => {
                files.push(f);
                i = i + 1;
                proof {
                    let nv = files@.map_values(|t: MetrowerksFileObject| t@);
                    assert(nv =~= out_it.push(f@));
                    match file_entries_at(s@, pos as int, num_files as int - i as int) {
                        Ok(q) => {
                            assert(nv + q.0 =~= out_it + (seq![f@] + q.0));
                        },
                        Err(_) => {},
                    }
                }
            },
            Err(e) => {
                return Err(e);
            },
        }
    }
    proof {
        assert(files@.map_values(|t: MetrowerksFileObject| t@)
            + Seq::<MetrowerksFileObjectView>::empty() =~= files@.map_values(
            |t: MetrowerksFileObject| t@,
        ));
    }
    Ok(MetroWerksLibrary { proc, flags: LibraryFlags::NoFlags, files })
}

} // verus!
