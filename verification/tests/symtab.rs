use libmetro::error::DecodeError;
use libmetro::symtable_m68k::{decode_symbol_table, RoutineType, SymbolTable};
use libmetro::types_m68k::{
    decode_type_table, BasicDataType, DataType, OtherDataType, PascalString, TypeDefinition,
};

fn push_u16(v: &mut Vec<u8>, x: u16) {
    v.extend_from_slice(&x.to_be_bytes());
}

fn push_u32(v: &mut Vec<u8>, x: u32) {
    v.extend_from_slice(&x.to_be_bytes());
}

fn push_i32(v: &mut Vec<u8>, x: i32) {
    v.extend_from_slice(&x.to_be_bytes());
}

/// A 32-byte symbol-table header.
fn symtab_header(v: &mut Vec<u8>, type_offset: u32, num_types: u32, unnamed: u32) {
    push_u32(v, 0x53594D48);
    push_u32(v, type_offset);
    push_u32(v, num_types);
    push_u32(v, unnamed);
    for _ in 0..4 {
        push_u32(v, 0);
    }
}

/// One routine: a function with one sentinel-terminated location list and
/// two locals.
fn push_function_routine(v: &mut Vec<u8>) {
    push_u16(v, 1); // function
    push_i32(v, 0);
    push_u32(v, 198);
    push_i32(v, 8);
    push_u32(v, 211);
    push_i32(v, -1);
    push_u32(v, 211);
    push_u16(v, 2); // two locals
    push_u32(v, 2);
    push_u32(v, 3); // long
    v.push(1); // value
    v.push(3); // a7
    push_u32(v, 4);
    push_u32(v, 3);
    push_u32(v, 3);
    v.push(1);
    v.push(3);
    push_u32(v, 8);
}

#[test]
fn add_type_def_to_symtab() {
    let mut st = SymbolTable::new();

    assert_eq!(st.types().len(), 0);
    st.push_type(TypeDefinition::new(OtherDataType::Undefined, 1234));
    assert_eq!(st.types().len(), 1);

    st.push_type(TypeDefinition::new(
        OtherDataType::TypePascalString(PascalString::new(32, 1)),
        1235,
    ));
    assert_eq!(st.types().len(), 2);
}

#[test]
fn empty_symbol_table_buffer() {
    let mut v: Vec<u8> = Vec::new();
    symtab_header(&mut v, 0, 0, 0);
    let st = decode_symbol_table(&v).unwrap();
    assert_eq!(st.routines().len(), 0);
    assert_eq!(st.types().len(), 0);
    assert_eq!(st.num_unnamed(), 0);
    assert_eq!(st.reserved(), [0, 0, 0, 0]);
}

#[test]
fn bad_symtab_magic() {
    let mut v: Vec<u8> = Vec::new();
    push_u32(&mut v, 0x12345678);
    let r = decode_symbol_table(&v);
    assert!(matches!(r, Err(DecodeError::BadSymMagic { got: 0x12345678 })));
}

#[test]
fn one_function_routine() {
    let mut v: Vec<u8> = Vec::new();
    symtab_header(&mut v, 0, 0, 0);
    push_function_routine(&mut v);
    let st = decode_symbol_table(&v).unwrap();
    assert_eq!(st.routines().len(), 1);
    let rt = &st.routines()[0];
    assert!(rt.is_function());
    assert!(!rt.is_procedure());
    assert_eq!(rt.statement_locations().len(), 3);
    assert_eq!(rt.statement_locations()[0].obj_offset(), 0);
    assert_eq!(rt.statement_locations()[0].sourcecode_offset(), 198);
    assert_eq!(rt.statement_locations()[2].obj_offset(), -1);
    assert!(rt.statement_locations()[2].is_end_of_list());
    assert_eq!(rt.local_vars().len(), 2);
    assert_eq!(rt.local_vars()[0].wher(), 4);
    assert_eq!(*rt.local_vars()[0].var_type(), DataType::BasicDataType(BasicDataType::BasicTypeLong));
    let found = st.routine_at_offset(32).expect("routine starts right after the header");
    assert!(found.is_function());
    assert!(st.routine_at_offset(33).is_none());
}

#[test]
fn bad_routine_type() {
    let mut v: Vec<u8> = Vec::new();
    symtab_header(&mut v, 0, 0, 0);
    push_u16(&mut v, 7);
    // Pad so the routine region is not empty in a trivially detectable way.
    push_i32(&mut v, -1);
    push_u32(&mut v, 0);
    push_u16(&mut v, 0);
    let r = decode_symbol_table(&v);
    assert!(matches!(r, Err(DecodeError::BadRoutineType { got: 7 })));
}

#[test]
fn bad_storage_kind_and_class() {
    let mut v: Vec<u8> = Vec::new();
    symtab_header(&mut v, 0, 0, 0);
    push_u16(&mut v, 0); // procedure
    push_i32(&mut v, -1);
    push_u32(&mut v, 0);
    push_u16(&mut v, 1); // one local
    push_u32(&mut v, 1);
    push_u32(&mut v, 3);
    v.push(9); // storage kind out of range
    v.push(0);
    push_u32(&mut v, 0);
    let r = decode_symbol_table(&v);
    assert!(matches!(r, Err(DecodeError::BadStorageKind { got: 9 })));

    let kind_pos = v.len() - 6;
    v[kind_pos] = 1;
    v[kind_pos + 1] = 8; // storage class out of range
    let r2 = decode_symbol_table(&v);
    assert!(matches!(r2, Err(DecodeError::BadStorageClass { got: 8 })));
}

#[test]
fn routine_region_size_mismatch() {
    let mut v: Vec<u8> = Vec::new();
    symtab_header(&mut v, 0, 0, 0);
    push_u16(&mut v, 0); // a routine kind, then nothing else
    let r = decode_symbol_table(&v);
    assert!(matches!(r, Err(DecodeError::SymTableSizeMismatch)));
}

#[test]
fn type_table_pointer_and_string() {
    let mut v: Vec<u8> = Vec::new();
    push_u16(&mut v, 0); // pointer record
    push_u32(&mut v, 1000);
    push_u16(&mut v, 5);
    push_u32(&mut v, 3); // long
    push_u16(&mut v, 8); // pascal string record
    push_u32(&mut v, 1001);
    push_u32(&mut v, 64);
    push_u32(&mut v, 2);
    let t = decode_type_table(&v, 2).unwrap();
    assert_eq!(t.len(), 2);
    assert_eq!(t[0].id(), 1000);
    match t[0].data_type() {
        OtherDataType::TypePointer(p) => {
            assert_eq!(p.number(), 5);
            assert_eq!(*p.data_type(), DataType::BasicDataType(BasicDataType::BasicTypeLong));
        }
        other => panic!("expected a pointer record, got {:?}", other),
    }
    match t[1].data_type() {
        OtherDataType::TypePascalString(p) => {
            assert_eq!(p.size(), 64);
            assert_eq!(p.name_id(), 2);
        }
        other => panic!("expected a string record, got {:?}", other),
    }
}

#[test]
fn type_table_struct_members() {
    let mut v: Vec<u8> = Vec::new();
    push_u16(&mut v, 2); // struct record
    push_u32(&mut v, 7);
    push_u32(&mut v, 4); // struct name id
    push_u32(&mut v, 8); // struct byte size
    push_u16(&mut v, 2); // member count
    push_u32(&mut v, 5);
    push_u32(&mut v, 3);
    push_u32(&mut v, 0);
    push_u32(&mut v, 6);
    push_u32(&mut v, 2000); // a user type reference
    push_u32(&mut v, 4);
    let t = decode_type_table(&v, 1).unwrap();
    match t[0].data_type() {
        OtherDataType::TypeStruct(st) => {
            assert_eq!(st.name_id(), 4);
            assert_eq!(st.size(), 8);
            assert_eq!(st.members().len(), 2);
            assert_eq!(st.members()[1].offset(), 4);
            assert_eq!(*st.members()[1].data_type(), DataType::Other(2000));
        }
        other => panic!("expected a struct record, got {:?}", other),
    }
}

#[test]
fn enum_with_bad_base_type() {
    let mut v: Vec<u8> = Vec::new();
    push_u16(&mut v, 3); // enum record
    push_u32(&mut v, 9);
    push_u32(&mut v, 1); // name id
    push_u16(&mut v, 999); // base: not a basic type
    push_u16(&mut v, 0); // no members
    let r = decode_type_table(&v, 1);
    assert!(matches!(r, Err(DecodeError::BadEnumBase { got: 999 })));
}

#[test]
fn enum_with_members() {
    let mut v: Vec<u8> = Vec::new();
    push_u16(&mut v, 3);
    push_u32(&mut v, 9);
    push_u32(&mut v, 1);
    push_u16(&mut v, 3); // base: long
    push_u16(&mut v, 2);
    push_u32(&mut v, 11);
    push_u32(&mut v, 100);
    push_u32(&mut v, 12);
    push_u32(&mut v, 200);
    let t = decode_type_table(&v, 1).unwrap();
    match t[0].data_type() {
        OtherDataType::TypeEnum(e) => {
            assert_eq!(*e.data_type(), DataType::BasicDataType(BasicDataType::BasicTypeLong));
            assert_eq!(e.members().len(), 2);
            assert_eq!(e.members()[1].value(), 200);
        }
        other => panic!("expected an enum record, got {:?}", other),
    }
}

#[test]
fn pascal_enum_counts_from_upper_half() {
    let mut v: Vec<u8> = Vec::new();
    push_u16(&mut v, 7); // pascal enum record
    push_u32(&mut v, 9);
    push_u32(&mut v, 1); // name id
    push_u16(&mut v, 2); // the count lives in the upper half of a word
    push_u16(&mut v, 0);
    push_u32(&mut v, 41);
    push_u32(&mut v, 42);
    let t = decode_type_table(&v, 1).unwrap();
    match t[0].data_type() {
        OtherDataType::TypePascalEnum(pe) => {
            assert_eq!(pe.members().as_slice(), &[41, 42]);
        }
        other => panic!("expected a pascal enum record, got {:?}", other),
    }
}

#[test]
fn pascal_enum_inconsistent_count_field() {
    let mut v: Vec<u8> = Vec::new();
    push_u16(&mut v, 7); // pascal enum record
    push_u32(&mut v, 9);
    push_u32(&mut v, 1); // name id
    push_u16(&mut v, 0); // upper half: zero members
    push_u16(&mut v, 2); // lower half: a count stored as a plain word
    let r = decode_type_table(&v, 1);
    assert!(matches!(
        r,
        Err(DecodeError::BadPascalEnumCount { upper: 0, lower: 2 })
    ));
}

#[test]
fn data_type_codes_round_trip() {
    let long = DataType::BasicDataType(BasicDataType::BasicTypeLong);
    assert_eq!(long.code_u32(), Some(3));
    assert_eq!(long.code_u16(), Some(3));
    assert_eq!(DataType::Other(2000).code_u32(), Some(2000));
    assert_eq!(DataType::Other(2000).code_u16(), None);
    assert_eq!(DataType::Undefined.code_u32(), None);
    assert_eq!(DataType::from_code(108).code_u32(), Some(108));
}

#[test]
fn bad_type_tag() {
    let mut v: Vec<u8> = Vec::new();
    push_u16(&mut v, 42);
    push_u32(&mut v, 1);
    let r = decode_type_table(&v, 1);
    assert!(matches!(r, Err(DecodeError::BadTypeTag { got: 42 })));
}

#[test]
fn symtab_with_type_table() {
    let mut v: Vec<u8> = Vec::new();
    // One routine of 12 bytes follows the 32-byte header, so the type table
    // begins at offset 44.
    symtab_header(&mut v, 44, 1, 0);
    push_u16(&mut v, 0); // a procedure
    push_i32(&mut v, -1);
    push_u32(&mut v, 0);
    push_u16(&mut v, 0); // no locals
    push_u16(&mut v, 8); // pascal string record
    push_u32(&mut v, 77);
    push_u32(&mut v, 16);
    push_u32(&mut v, 3);
    let st = decode_symbol_table(&v).unwrap();
    assert_eq!(st.routines().len(), 1);
    assert!(st.routines()[0].is_procedure());
    assert_eq!(st.types().len(), 1);
    assert_eq!(st.types()[0].id(), 77);
}
