use libmetro::code_m68k::{CodeHunks, Hunk, HunkType, ObjCodeFlag, ObjCodeHunk};
use libmetro::error::{DecodeError, ReservedField, SizeField};
use libmetro::mwob_library::{decode_library, LibraryProcessor, MetroWerksLibrary, MetrowerksFileObject};
use libmetro::objects_m68k::{decode_object, BaseRegister, NameEntry, ObjectFlags};
use libmetro::symtable_m68k::{LocalVar, Routine, StatementLocation, StorageClass, StorageKind, SymbolTable};
use libmetro::types_m68k::{BasicDataType, DataType};
use libmetro::util::nametable_hash;

fn push_u16(v: &mut Vec<u8>, x: u16) {
    v.extend_from_slice(&x.to_be_bytes());
}

fn push_u32(v: &mut Vec<u8>, x: u32) {
    v.extend_from_slice(&x.to_be_bytes());
}

fn push_i32(v: &mut Vec<u8>, x: i32) {
    v.extend_from_slice(&x.to_be_bytes());
}

fn push_name_entry(v: &mut Vec<u8>, name: &str) {
    push_u16(v, nametable_hash(name));
    v.extend_from_slice(name.as_bytes());
    v.push(0);
}

fn push_function_routine(v: &mut Vec<u8>) {
    push_u16(v, 1);
    push_i32(v, 0);
    push_u32(v, 198);
    push_i32(v, 8);
    push_u32(v, 211);
    push_i32(v, -1);
    push_u32(v, 211);
    push_u16(v, 2);
    push_u32(v, 2);
    push_u32(v, 3);
    v.push(1);
    v.push(3);
    push_u32(v, 4);
    push_u32(v, 3);
    push_u32(v, 3);
    v.push(1);
    v.push(3);
    push_u32(v, 8);
}

const ADD_CODE: [u8; 10] = [0x20, 0x2F, 0x00, 0x04, 0xD0, 0xAF, 0x00, 0x08, 0x4E, 0x75];

fn push_global_code(v: &mut Vec<u8>, name_id: u32, code: &[u8]) {
    push_u16(v, 0x456A);
    push_u32(v, name_id);
    push_u32(v, code.len() as u32);
    push_u32(v, 0x80000000);
    push_u32(v, 0);
    v.extend_from_slice(code);
}

/// One object holding the `add` routine: a start/code/end hunk stream, a
/// three-entry name table and a one-routine symbol table.
fn build_add_object() -> Vec<u8> {
    let mut hunks: Vec<u8> = Vec::new();
    push_u16(&mut hunks, 0x4567);
    push_global_code(&mut hunks, 1, &ADD_CODE);
    push_u16(&mut hunks, 0x4568);

    let mut names: Vec<u8> = Vec::new();
    push_name_entry(&mut names, "add");
    push_name_entry(&mut names, "a");
    push_name_entry(&mut names, "b");

    let mut symtab: Vec<u8> = Vec::new();
    push_u32(&mut symtab, 0x53594D48);
    push_u32(&mut symtab, 0);
    push_u32(&mut symtab, 0);
    push_u32(&mut symtab, 0);
    for _ in 0..4 {
        push_u32(&mut symtab, 0);
    }
    push_function_routine(&mut symtab);

    let obj_size = hunks.len() as u32;
    let nametable_offset = 64 + obj_size;
    let symtable_offset = nametable_offset + names.len() as u32;

    let mut v: Vec<u8> = Vec::new();
    push_u32(&mut v, 0xFEEDBEAD);
    push_u16(&mut v, 0); // version
    push_u16(&mut v, 0); // flags
    push_u32(&mut v, obj_size);
    push_u32(&mut v, nametable_offset);
    push_u32(&mut v, 4); // one more than the number of names
    push_u32(&mut v, symtable_offset);
    push_u32(&mut v, symtab.len() as u32);
    push_u32(&mut v, 0); // reserved
    push_u32(&mut v, ADD_CODE.len() as u32); // code size
    push_u32(&mut v, 0); // uninitialized data size
    push_u32(&mut v, 0); // initialized data size
    push_u32(&mut v, 0);
    push_u32(&mut v, 0);
    push_u32(&mut v, 0);
    v.push(1); // has flags
    v.push(0); // pascal
    v.push(1); // four-byte ints
    v.push(1); // eight-byte doubles
    v.push(0); // mc68881
    v.push(5); // base register a5
    v.push(0);
    v.push(0);
    v.extend_from_slice(&hunks);
    v.extend_from_slice(&names);
    v.extend_from_slice(&symtab);
    v
}

/// An object with two functions: four names, two routines, four hunks.
fn build_two_funcs_object() -> Vec<u8> {
    let mut hunks: Vec<u8> = Vec::new();
    push_u16(&mut hunks, 0x4567);
    push_global_code(&mut hunks, 1, &ADD_CODE);
    push_global_code(&mut hunks, 2, &ADD_CODE);
    push_u16(&mut hunks, 0x4568);

    let mut names: Vec<u8> = Vec::new();
    push_name_entry(&mut names, "add");
    push_name_entry(&mut names, "sub_fn");
    push_name_entry(&mut names, "a");
    push_name_entry(&mut names, "b");

    let mut symtab: Vec<u8> = Vec::new();
    push_u32(&mut symtab, 0x53594D48);
    push_u32(&mut symtab, 0);
    push_u32(&mut symtab, 0);
    push_u32(&mut symtab, 0);
    for _ in 0..4 {
        push_u32(&mut symtab, 0);
    }
    push_function_routine(&mut symtab);
    push_function_routine(&mut symtab);

    let obj_size = hunks.len() as u32;
    let nametable_offset = 64 + obj_size;
    let symtable_offset = nametable_offset + names.len() as u32;

    let mut v: Vec<u8> = Vec::new();
    push_u32(&mut v, 0xFEEDBEAD);
    push_u16(&mut v, 0);
    push_u16(&mut v, 0);
    push_u32(&mut v, obj_size);
    push_u32(&mut v, nametable_offset);
    push_u32(&mut v, 5);
    push_u32(&mut v, symtable_offset);
    push_u32(&mut v, symtab.len() as u32);
    push_u32(&mut v, 0);
    push_u32(&mut v, 2 * ADD_CODE.len() as u32);
    push_u32(&mut v, 0);
    push_u32(&mut v, 0);
    push_u32(&mut v, 0);
    push_u32(&mut v, 0);
    push_u32(&mut v, 0);
    for b in [1u8, 0, 1, 1, 0, 5, 0, 0] {
        v.push(b);
    }
    v.extend_from_slice(&hunks);
    v.extend_from_slice(&names);
    v.extend_from_slice(&symtab);
    v
}

/// Wraps one object into a library with a single member file.
fn build_library(obj: &[u8], moddate: u32, name: &str) -> Vec<u8> {
    let mut v: Vec<u8> = Vec::new();
    push_u32(&mut v, 0x4D574F42);
    push_u32(&mut v, 0x4D36384B);
    push_u32(&mut v, 0); // flags
    push_u32(&mut v, 2); // version for the 68K processor
    push_u32(&mut v, 0); // advisory code size
    push_u32(&mut v, 0); // advisory data size
    push_u32(&mut v, 1); // one member
    let name_ptr = 48u32;
    let data_start = name_ptr + name.len() as u32 + 1;
    push_u32(&mut v, moddate);
    push_u32(&mut v, name_ptr);
    push_u32(&mut v, 0); // no full path
    push_u32(&mut v, data_start);
    push_u32(&mut v, obj.len() as u32);
    v.extend_from_slice(name.as_bytes());
    v.push(0);
    v.extend_from_slice(obj);
    v
}

#[test]
fn test_simple_add_library() {
    let bytes = build_library(&build_add_object(), 0xDEADBEEF, "add.c");
    let lib = decode_library(&bytes).unwrap();

    assert_eq!(lib.proc(), LibraryProcessor::M68k);
    assert_eq!(lib.version(), 2);
    assert_eq!(lib.files().len(), 1);

    let f = &lib.files()[0];
    assert_eq!(f.moddate(), 0xDEADBEEF);
    assert_eq!(f.filename().as_slice(), b"add.c");
    assert_eq!(f.fullpath().len(), 0);

    let ob = f.object();
    assert_eq!(ob.names().len(), 3);
    assert_eq!(ob.names()[0].name().as_slice(), b"add");
    assert_eq!(ob.names()[1].name().as_slice(), b"a");
    assert_eq!(ob.names()[2].name().as_slice(), b"b");
    // Ids are contiguous, 1-based, in file order.
    for (i, n) in ob.names().iter().enumerate() {
        assert_eq!(n.id(), i as u32 + 1);
    }

    assert_eq!(ob.symbols().routines().len(), 1);
    assert!(ob.symbols().routines()[0].is_function());

    assert_eq!(ob.hunks().len(), 3);
    match ob.hunks().get(1).unwrap().hunk_type() {
        HunkType::GlobalCode(c) => {
            assert_eq!(c.code().as_slice(), &ADD_CODE);
            assert_eq!(c.flag(), ObjCodeFlag::NoFlag);
            assert_eq!(c.name_id(), 1);
            let name = ob.lookup_name(c.name_id()).unwrap();
            assert_eq!(name.name().as_slice(), b"add");
        }
        other => panic!("expected the code hunk, got {:?}", other),
    }

    // The header counters agree with the decoded hunks.
    assert_eq!(ob.code_size(), 10);
    assert_eq!(ob.udata_size(), 0);
    assert_eq!(ob.idata_size(), 0);
    assert!(ob.has_flags());
    assert!(ob.is_fourbyteint());
    assert!(ob.is_eightdouble());
    assert!(!ob.is_mc68881());
    assert!(matches!(ob.basereg(), BaseRegister::BaseRegA5));
}

#[test]
fn test_simple_multi_func_library() {
    let bytes = build_library(&build_two_funcs_object(), 7, "two_funcs.c");
    let lib = decode_library(&bytes).unwrap();

    assert_eq!(lib.files().len(), 1);
    let ob = lib.files()[0].object();
    assert_eq!(ob.names().len(), 4);
    assert_eq!(ob.symbols().routines().len(), 2);
    assert!(ob.symbols().routines()[0].is_function());
    assert!(ob.symbols().routines()[1].is_function());
    assert_eq!(ob.hunks().len(), 4);
    assert_eq!(ob.code_size(), 20);
}

#[test]
fn library_with_no_members() {
    let mut v: Vec<u8> = Vec::new();
    push_u32(&mut v, 0x4D574F42);
    push_u32(&mut v, 0x4D36384B);
    push_u32(&mut v, 0);
    push_u32(&mut v, 2);
    push_u32(&mut v, 0);
    push_u32(&mut v, 0);
    push_u32(&mut v, 0);
    let lib = decode_library(&v).unwrap();
    assert_eq!(lib.files().len(), 0);
    assert_eq!(lib.proc(), LibraryProcessor::M68k);
}

#[test]
fn bad_library_magic() {
    let r = decode_library(&[0, 1, 2, 3, 4, 5, 6, 7]);
    assert!(matches!(r, Err(DecodeError::BadLibMagic { got: 0x00010203 })));
}

#[test]
fn bad_library_flags() {
    let mut v = build_library(&build_add_object(), 0, "x.c");
    v[11] = 1;
    let r = decode_library(&v);
    assert!(matches!(
        r,
        Err(DecodeError::ReservedNonZero { field: ReservedField::LibraryFlags, got: 1 })
    ));
}

#[test]
fn bad_library_version() {
    let mut v = build_library(&build_add_object(), 0, "x.c");
    v[15] = 1; // the 68K word demands version 2
    let r = decode_library(&v);
    assert!(matches!(
        r,
        Err(DecodeError::BadLibVersionForProcessor { expected: 2, got: 1 })
    ));
}

#[test]
fn object_decodes_directly() {
    let obj = build_add_object();
    let ob = decode_object(&obj).unwrap();
    assert_eq!(ob.names().len(), 3);
    assert_eq!(ob.hunks().len(), 3);
    assert_eq!(ob.reserved1(), 0);
    assert_eq!(ob.reserved3(), 0);
    assert_eq!(ob.reserved4(), 0);
    assert_eq!(ob.flags().bits(), 0);
    assert!(!ob.flags().cfm());
}

#[test]
fn bad_object_magic() {
    let mut obj = build_add_object();
    obj[0] = 0;
    let r = decode_object(&obj);
    assert!(matches!(r, Err(DecodeError::BadObjMagic { .. })));
}

#[test]
fn bad_object_version() {
    let mut obj = build_add_object();
    obj[5] = 3;
    let r = decode_object(&obj);
    assert!(matches!(r, Err(DecodeError::BadObjVersion { got: 3 })));
}

#[test]
fn nonzero_reserved_field() {
    let mut obj = build_add_object();
    obj[31] = 9; // reserved word in the header
    let r = decode_object(&obj);
    assert!(matches!(
        r,
        Err(DecodeError::ReservedNonZero { field: ReservedField::ObjReserved1, got: 9 })
    ));
}

#[test]
fn name_hash_mismatch_is_fatal() {
    let mut obj = build_add_object();
    // The first name entry's stored hash sits right at the name-table
    // offset; flip a bit in it.
    let nametable_offset = u32::from_be_bytes([obj[12], obj[13], obj[14], obj[15]]) as usize;
    obj[nametable_offset + 1] ^= 1;
    let r = decode_object(&obj);
    assert!(matches!(r, Err(DecodeError::NameHashMismatch { id: 1, .. })));
}

#[test]
fn code_size_cross_check() {
    let mut obj = build_add_object();
    obj[35] = 99; // header code size no longer matches the hunks
    let r = decode_object(&obj);
    assert!(matches!(
        r,
        Err(DecodeError::SizeCrossCheckFailed { field: SizeField::Code, expected: 99, got: 10 })
    ));
}

#[test]
fn truncated_library() {
    let r = decode_library(&[0x4D, 0x57]);
    assert!(matches!(r, Err(DecodeError::TruncatedInput { needed: 4, available: 2 })));
}

/// A bare object: no name table, no symbol table, an empty hunk stream.
fn build_bare_object() -> Vec<u8> {
    let mut v: Vec<u8> = Vec::new();
    push_u32(&mut v, 0xFEEDBEAD);
    push_u16(&mut v, 0);
    push_u16(&mut v, 0);
    push_u32(&mut v, 0); // no hunk bytes
    push_u32(&mut v, 0); // no name table
    push_u32(&mut v, 0);
    push_u32(&mut v, 0); // no symbol table
    push_u32(&mut v, 0);
    push_u32(&mut v, 0);
    push_u32(&mut v, 0);
    push_u32(&mut v, 0);
    push_u32(&mut v, 0);
    push_u32(&mut v, 0);
    push_u32(&mut v, 0);
    push_u32(&mut v, 0);
    for _ in 0..8 {
        v.push(0);
    }
    v
}

#[test]
fn object_without_name_table() {
    let ob = decode_object(&build_bare_object()).unwrap();
    assert_eq!(ob.names().len(), 0);
    assert!(ob.lookup_name(1).is_none());
}

#[test]
fn object_without_symbol_table_gets_default() {
    let ob = decode_object(&build_bare_object()).unwrap();
    assert_eq!(ob.symbols().routines().len(), 0);
    assert_eq!(ob.symbols().types().len(), 0);
    assert_eq!(ob.symbols().num_unnamed(), 0);
    assert_eq!(ob.hunks().len(), 0);
}

#[test]
fn rebuild_simple_add_and_compare() {
    let symtab = {
        let mut symtab = SymbolTable::new();

        let add_routine = {
            let mut add_routine = Routine::new_func();

            add_routine.push_local_var(LocalVar::new(
                2,
                DataType::BasicDataType(BasicDataType::BasicTypeLong),
                StorageKind::Value,
                StorageClass::A7,
                4,
            ));
            add_routine.push_local_var(LocalVar::new(
                3,
                DataType::BasicDataType(BasicDataType::BasicTypeLong),
                StorageKind::Value,
                StorageClass::A7,
                8,
            ));

            add_routine.push_statement_location(StatementLocation::new(0, 198));
            add_routine.push_statement_location(StatementLocation::new(8, 211));
            add_routine.push_statement_location(StatementLocation::new(-1, 211));

            add_routine
        };

        symtab.push_routine(add_routine);
        symtab
    };

    let hunks: CodeHunks = {
        let mut code = CodeHunks::new();

        // A fresh stream already holds a start and an end hunk.
        let add_code = Hunk::new(HunkType::GlobalCode(ObjCodeHunk::new(
            1,
            173,
            ObjCodeFlag::NoFlag,
            &[32, 47, 0, 4, 208, 175, 0, 8, 78, 117],
        )));
        code.insert(1, add_code);

        code
    };

    let mwob = {
        let mut mwob = libmetro::objects_m68k::MetrowerksObject::new(hunks, symtab);

        mwob.push_name(NameEntry::new(1, b"add"));
        mwob.push_name(NameEntry::new(2, b"a"));
        mwob.push_name(NameEntry::new(3, b"b"));

        mwob.set_eightdouble(true);
        mwob.set_fourbyteint(true);
        mwob.set_basereg(BaseRegister::BaseRegA5);
        mwob.set_mc68881(false);
        mwob.set_current_version(0);
        mwob.set_old_def_version(0);
        mwob.set_old_imp_version(0);
        mwob.set_has_flags(true);
        mwob.set_object_flags(ObjectFlags::empty());

        mwob
    };

    let mfo = MetrowerksFileObject::new("CW11:Desktop Folder:Test:test:HelloWorld.c", "", mwob);

    let ml = MetroWerksLibrary::new(LibraryProcessor::M68k, vec![mfo]);

    println!("{:#?}", ml);
    assert_eq!(ml.files().len(), 1);
    assert_eq!(ml.version(), 2);
    let ob = ml.files()[0].object();
    assert_eq!(ob.names().len(), 3);
    assert_eq!(ob.hunks().len(), 3);
    assert_eq!(ob.code_size(), 10);
    assert!(ob.symbols().routines()[0].is_function());
}
