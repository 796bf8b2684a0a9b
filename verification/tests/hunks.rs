use libmetro::code_m68k::{decode_hunks, HunkType, ObjCodeFlag};
use libmetro::error::{DecodeError, ReservedHunkKind};

fn push_u16(v: &mut Vec<u8>, x: u16) {
    v.extend_from_slice(&x.to_be_bytes());
}

fn push_u32(v: &mut Vec<u8>, x: u32) {
    v.extend_from_slice(&x.to_be_bytes());
}

#[test]
fn reserved_hunk_aborts() {
    // A LibraryBreak tag at stream start: no partial hunks come back.
    let r = decode_hunks(&[0x45, 0x76]);
    assert!(matches!(
        r,
        Err(DecodeError::ReservedHunkEncountered { kind: ReservedHunkKind::LibraryBreak })
    ));
}

#[test]
fn empty_stream_decodes_to_no_hunks() {
    let r = decode_hunks(&[]).unwrap();
    assert_eq!(r.len(), 0);
}

#[test]
fn start_end_stream() {
    let mut v: Vec<u8> = Vec::new();
    push_u16(&mut v, 0x4567);
    push_u16(&mut v, 0x4568);
    let r = decode_hunks(&v).unwrap();
    assert_eq!(r.len(), 2);
    assert!(matches!(r.get(0).unwrap().hunk_type(), HunkType::Start(_)));
    assert!(matches!(r.get(1).unwrap().hunk_type(), HunkType::End(_)));
}

#[test]
fn incomplete_tail_is_truncated() {
    // A lone byte after a committed record cannot hold a tag.
    let mut v: Vec<u8> = Vec::new();
    push_u16(&mut v, 0x4567);
    v.push(0x45);
    let r = decode_hunks(&v);
    assert!(matches!(r, Err(DecodeError::TruncatedInput { needed: 2, available: 1 })));
}

#[test]
fn unknown_tag_is_rejected() {
    // 0x457A falls in the hole of the tag space.
    let r = decode_hunks(&[0x45, 0x7A]);
    assert!(matches!(r, Err(DecodeError::BadHunkTag { got: 0x457A })));
}

#[test]
fn cfm_export_marks_following_code_hunk() {
    // CFMExport then GlobalCode: the code hunk inherits the CFMExport flag.
    let mut v: Vec<u8> = Vec::new();
    push_u16(&mut v, 0x458E);
    push_u16(&mut v, 0x456A);
    push_u32(&mut v, 1); // name id
    push_u32(&mut v, 3); // size
    push_u32(&mut v, 0x80000000); // symbol offset: none
    push_u32(&mut v, 0); // symbol declaration offset
    v.extend_from_slice(&[0xAA, 0xBB, 0xCC]);
    let r = decode_hunks(&v).unwrap();
    assert_eq!(r.len(), 2);
    match r.get(1).unwrap().hunk_type() {
        HunkType::GlobalCode(c) => {
            assert_eq!(c.flag(), ObjCodeFlag::CFMExport);
            assert_eq!(c.code().as_slice(), &[0xAA, 0xBB, 0xCC]);
            assert!(!c.has_symtab());
            assert_eq!(c.name_id(), 1);
        }
        other => panic!("expected a global code hunk, got {:?}", other),
    }
}

#[test]
fn plain_code_hunk_has_no_flag() {
    let mut v: Vec<u8> = Vec::new();
    push_u16(&mut v, 0x4569);
    push_u32(&mut v, 7);
    push_u32(&mut v, 1);
    push_u32(&mut v, 16);
    push_u32(&mut v, 4);
    v.push(0x42);
    let r = decode_hunks(&v).unwrap();
    match r.get(0).unwrap().hunk_type() {
        HunkType::LocalCode(c) => {
            assert_eq!(c.flag(), ObjCodeFlag::NoFlag);
            assert!(c.has_symtab());
            assert_eq!(c.sym_offset(), 16);
            assert_eq!(c.sym_decl_offset(), 4);
        }
        other => panic!("expected a local code hunk, got {:?}", other),
    }
}

#[test]
fn uninitialized_data_keeps_declared_size() {
    // GlobalUData declares 32 bytes but carries none.
    let mut v: Vec<u8> = Vec::new();
    push_u16(&mut v, 0x456C);
    push_u32(&mut v, 2);
    push_u32(&mut v, 32);
    push_u32(&mut v, 0x80000000);
    push_u32(&mut v, 0);
    let r = decode_hunks(&v).unwrap();
    match r.get(0).unwrap().hunk_type() {
        HunkType::GlobalUninitializedData(d) => {
            assert_eq!(d.size(), 32);
            assert_eq!(d.data().len(), 0);
        }
        other => panic!("expected uninitialized data, got {:?}", other),
    }
    assert_eq!(r.udata_length(), 32);
    assert_eq!(r.code_length(), 0);
}

#[test]
fn initialized_data_carries_bytes() {
    let mut v: Vec<u8> = Vec::new();
    push_u16(&mut v, 0x456E);
    push_u32(&mut v, 2);
    push_u32(&mut v, 2);
    push_u32(&mut v, 0x80000000);
    push_u32(&mut v, 0);
    v.extend_from_slice(&[9, 8]);
    let r = decode_hunks(&v).unwrap();
    match r.get(0).unwrap().hunk_type() {
        HunkType::GlobalInitializedData(d) => {
            assert_eq!(d.data().as_slice(), &[9, 8]);
        }
        other => panic!("expected initialized data, got {:?}", other),
    }
    assert_eq!(r.idata_length(), 2);
}

#[test]
fn xref_hunk_pairs() {
    let mut v: Vec<u8> = Vec::new();
    push_u16(&mut v, 0x4575); // 32-bit cross-reference
    push_u32(&mut v, 5);
    push_u16(&mut v, 2);
    push_u32(&mut v, 0x10);
    push_u32(&mut v, 0x1000);
    push_u32(&mut v, 0x20);
    push_u32(&mut v, 0x2000);
    let r = decode_hunks(&v).unwrap();
    match r.get(0).unwrap().hunk_type() {
        HunkType::XRef32Bit(x) => {
            assert_eq!(x.name_id(), 5);
            assert_eq!(x.pairs().len(), 2);
            assert_eq!(x.pairs()[0].offset(), 0x10);
            assert_eq!(x.pairs()[1].value(), 0x2000);
        }
        other => panic!("expected a cross-reference hunk, got {:?}", other),
    }
}

#[test]
fn container_and_import_hunks() {
    let mut v: Vec<u8> = Vec::new();
    push_u16(&mut v, 0x4590); // CFM import container
    push_u32(&mut v, 1);
    push_u32(&mut v, 10);
    push_u32(&mut v, 11);
    push_u32(&mut v, 12);
    push_u16(&mut v, 0x458F); // CFM import
    push_u32(&mut v, 9);
    let r = decode_hunks(&v).unwrap();
    assert_eq!(r.len(), 2);
    match r.get(0).unwrap().hunk_type() {
        HunkType::CFMImportContainer(c) => {
            assert_eq!(c.old_def_version(), 10);
            assert_eq!(c.old_imp_version(), 11);
            assert_eq!(c.current_version(), 12);
        }
        other => panic!("expected an import container, got {:?}", other),
    }
    match r.get(1).unwrap().hunk_type() {
        HunkType::CFMImport(c) => assert_eq!(c.name_id(), 9),
        other => panic!("expected an import hunk, got {:?}", other),
    }
}

#[test]
fn method_class_definition_pairs() {
    let mut v: Vec<u8> = Vec::new();
    push_u16(&mut v, 0x4597);
    push_u32(&mut v, 3);
    push_u16(&mut v, 7); // method count
    push_u16(&mut v, 1); // pair count
    push_u32(&mut v, 21);
    push_u32(&mut v, 22);
    let r = decode_hunks(&v).unwrap();
    match r.get(0).unwrap().hunk_type() {
        HunkType::MethodClassDefinition(c) => {
            assert_eq!(c.methods(), 7);
            assert_eq!(c.pairs().len(), 1);
            assert_eq!(c.pairs()[0].base_id(), 21);
            assert_eq!(c.pairs()[0].bias(), 22);
        }
        other => panic!("expected a class definition, got {:?}", other),
    }
}

#[test]
fn truncated_code_payload() {
    let mut v: Vec<u8> = Vec::new();
    push_u16(&mut v, 0x456A);
    push_u32(&mut v, 1);
    push_u32(&mut v, 100); // declares more bytes than remain
    push_u32(&mut v, 0);
    push_u32(&mut v, 0);
    v.push(1);
    let r = decode_hunks(&v);
    assert!(matches!(r, Err(DecodeError::TruncatedInput { needed: 100, available: 1 })));
}
