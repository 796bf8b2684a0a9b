//! The type table: tagged records describing pointers, arrays, structs,
//! enums and the Pascal type family, keyed by a type id.
//!
//! Every decoder here is specified by a mathematical parser over the byte
//! sequence (`type_record_at`, `type_table_at`) and proved to return exactly
//! what that parser describes, error values included.

use crate::cursor::{take_be_u16, take_be_u32};
use crate::error::{truncated, DecodeError};
use crate::util::{be_u16_at, be_u32_at};
use vstd::prelude::*;

verus! {

/// A reference to a data type: a built-in basic type, a user type id, or
/// nothing at all.
#[derive(Debug, Clone, Copy, PartialEq, Eq, Structural)]
pub enum DataType {
    Undefined,
    BasicDataType(BasicDataType),
    Other(u32),
}

/// The fixed catalogue of built-in basic types.
#[derive(Debug, Clone, Copy, PartialEq, Eq, Structural)]
pub enum BasicDataType {
    BasicTypeVoid,
    BasicTypePstring,
    BasicTypeUlong,
    BasicTypeLong,
    BasicTypeFloat10,
    BasicTypeBoolean,
    BasicTypeUbyte,
    BasicTypeByte,
    BasicTypeChar,
    BasicTypeWchar,
    BasicTypeUword,
    BasicTypeWord,
    BasicTypeFloat4,
    BasicTypeFloat8,
    BasicTypeFloat12,
    BasicTypeComp,
    BasicTypeCstring,
    BasicTypeAIstring,
    MyBasicTypeVoidPtr,
    MyBasicTypeVoidHdl,
    MyBasicTypeCharPtr,
    MyBasicTypeCharHdl,
    MyBasicTypeUcharPtr,
    MyBasicTypeUcharHdl,
    MyBasicTypeFunc,
    MyBasicTypeStringPtr,
    MyBasicTypePstringPtr,
}

/// The numeric code that the file format uses for a basic type.
pub open spec fn basic_type_code(b: BasicDataType) -> u32 {
    match b {
        BasicDataType::BasicTypeVoid => 0,
        BasicDataType::BasicTypePstring => 1,
        BasicDataType::BasicTypeUlong => 2,
        BasicDataType::BasicTypeLong => 3,
        BasicDataType::BasicTypeFloat10 => 4,
        BasicDataType::BasicTypeBoolean => 5,
        BasicDataType::BasicTypeUbyte => 6,
        BasicDataType::BasicTypeByte => 7,
        BasicDataType::BasicTypeChar => 8,
        BasicDataType::BasicTypeWchar => 9,
        BasicDataType::BasicTypeUword => 10,
        BasicDataType::BasicTypeWord => 11,
        BasicDataType::BasicTypeFloat4 => 12,
        BasicDataType::BasicTypeFloat8 => 13,
        BasicDataType::BasicTypeFloat12 => 14,
        BasicDataType::BasicTypeComp => 15,
        BasicDataType::BasicTypeCstring => 16,
        BasicDataType::BasicTypeAIstring => 17,
        BasicDataType::MyBasicTypeVoidPtr => 100,
        BasicDataType::MyBasicTypeVoidHdl => 101,
        BasicDataType::MyBasicTypeCharPtr => 102,
        BasicDataType::MyBasicTypeCharHdl => 103,
        BasicDataType::MyBasicTypeUcharPtr => 104,
        BasicDataType::MyBasicTypeUcharHdl => 105,
        BasicDataType::MyBasicTypeFunc => 106,
        BasicDataType::MyBasicTypeStringPtr => 107,
        BasicDataType::MyBasicTypePstringPtr => 108,
    }
}

/// The data type a numeric code denotes: the reserved ranges 0..=17 and
/// 100..=108 name basic types, everything else is a user type id.
pub open spec fn data_type_of_code(value: u32) -> DataType {
    if value == 0 {
        DataType::BasicDataType(BasicDataType::BasicTypeVoid)
    } else if value == 1 {
        DataType::BasicDataType(BasicDataType::BasicTypePstring)
    } else if value == 2 {
        DataType::BasicDataType(BasicDataType::BasicTypeUlong)
    } else if value == 3 {
        DataType::BasicDataType(BasicDataType::BasicTypeLong)
    } else if value == 4 {
        DataType::BasicDataType(BasicDataType::BasicTypeFloat10)
    } else if value == 5 {
        DataType::BasicDataType(BasicDataType::BasicTypeBoolean)
    } else if value == 6 {
        DataType::BasicDataType(BasicDataType::BasicTypeUbyte)
    } else if value == 7 {
        DataType::BasicDataType(BasicDataType::BasicTypeByte)
    } else if value == 8 {
        DataType::BasicDataType(BasicDataType::BasicTypeChar)
    } else if value == 9 {
        DataType::BasicDataType(BasicDataType::BasicTypeWchar)
    } else if value == 10 {
        DataType::BasicDataType(BasicDataType::BasicTypeUword)
    } else if value == 11 {
        DataType::BasicDataType(BasicDataType::BasicTypeWord)
    } else if value == 12 {
        DataType::BasicDataType(BasicDataType::BasicTypeFloat4)
    } else if value == 13 {
        DataType::BasicDataType(BasicDataType::BasicTypeFloat8)
    } else if value == 14 {
        DataType::BasicDataType(BasicDataType::BasicTypeFloat12)
    } else if value == 15 {
        DataType::BasicDataType(BasicDataType::BasicTypeComp)
    } else if value == 16 {
        DataType::BasicDataType(BasicDataType::BasicTypeCstring)
    } else if value == 17 {
        DataType::BasicDataType(BasicDataType::BasicTypeAIstring)
    } else if value == 100 {
        DataType::BasicDataType(BasicDataType::MyBasicTypeVoidPtr)
    } else if value == 101 {
        DataType::BasicDataType(BasicDataType::MyBasicTypeVoidHdl)
    } else if value == 102 {
        DataType::BasicDataType(BasicDataType::MyBasicTypeCharPtr)
    } else if value == 103 {
        DataType::BasicDataType(BasicDataType::MyBasicTypeCharHdl)
    } else if value == 104 {
        DataType::BasicDataType(BasicDataType::MyBasicTypeUcharPtr)
    } else if value == 105 {
        DataType::BasicDataType(BasicDataType::MyBasicTypeUcharHdl)
    } else if value == 106 {
        DataType::BasicDataType(BasicDataType::MyBasicTypeFunc)
    } else if value == 107 {
        DataType::BasicDataType(BasicDataType::MyBasicTypeStringPtr)
    } else if value == 108 {
        DataType::BasicDataType(BasicDataType::MyBasicTypePstringPtr)
    } else {
        DataType::Other(value)
    }
}

impl DataType {
    /// The 32-bit code this type is stored as: the basic-type code or the
    /// user type id. An undefined type has no code.
    pub fn code_u32(&self) -> (r: Option<u32>)
        ensures
            match *self {
                DataType::Undefined => r is None,
                DataType::BasicDataType(b) => r == Some(basic_type_code(b)),
                DataType::Other(id) => r == Some(id),
            },
    {
        match self {
            DataType::Undefined => None,
            DataType::BasicDataType(b) => Some(b.code()),
            DataType::Other(id) => Some(*id),
        }
    }

    /// The 16-bit code of a basic type; user and undefined types have none.
    pub fn code_u16(&self) -> (r: Option<u16>)
        ensures
            match *self {
                DataType::BasicDataType(b) => r == Some(basic_type_code(b) as u16),
                _ => r is None,
            },
    {
        match self {
            DataType::BasicDataType(b) => {
                let c = b.code();
                Some(c as u16)
            },
            _ => None,
        }
    }

    /// Maps a numeric on-disk code to the data type it denotes.
    pub fn from_code(value: u32) -> (r: DataType)
        ensures
            r == data_type_of_code(value),
    {
        if value <= 17 {
            if value == 0 {
                DataType::BasicDataType(BasicDataType::BasicTypeVoid)
            } else if value == 1 {
                DataType::BasicDataType(BasicDataType::BasicTypePstring)
            } else if value == 2 {
                DataType::BasicDataType(BasicDataType::BasicTypeUlong)
            } else if value == 3 {
                DataType::BasicDataType(BasicDataType::BasicTypeLong)
            } else if value == 4 {
                DataType::BasicDataType(BasicDataType::BasicTypeFloat10)
            } else if value == 5 {
                DataType::BasicDataType(BasicDataType::BasicTypeBoolean)
            } else if value == 6 {
                DataType::BasicDataType(BasicDataType::BasicTypeUbyte)
            } else if value == 7 {
                DataType::BasicDataType(BasicDataType::BasicTypeByte)
            } else if value == 8 {
                DataType::BasicDataType(BasicDataType::BasicTypeChar)
            } else if value == 9 {
                DataType::BasicDataType(BasicDataType::BasicTypeWchar)
            } else if value == 10 {
                DataType::BasicDataType(BasicDataType::BasicTypeUword)
            } else if value == 11 {
                DataType::BasicDataType(BasicDataType::BasicTypeWord)
            } else if value == 12 {
                DataType::BasicDataType(BasicDataType::BasicTypeFloat4)
            } else if value == 13 {
                DataType::BasicDataType(BasicDataType::BasicTypeFloat8)
            } else if value == 14 {
                DataType::BasicDataType(BasicDataType::BasicTypeFloat12)
            } else if value == 15 {
                DataType::BasicDataType(BasicDataType::BasicTypeComp)
            } else if value == 16 {
                DataType::BasicDataType(BasicDataType::BasicTypeCstring)
            } else {
                DataType::BasicDataType(BasicDataType::BasicTypeAIstring)
            }
        } else if 100 <= value && value <= 108 {
            if value == 100 {
                DataType::BasicDataType(BasicDataType::MyBasicTypeVoidPtr)
            } else if value == 101 {
                DataType::BasicDataType(BasicDataType::MyBasicTypeVoidHdl)
            } else if value == 102 {
                DataType::BasicDataType(BasicDataType::MyBasicTypeCharPtr)
            } else if value == 103 {
                DataType::BasicDataType(BasicDataType::MyBasicTypeCharHdl)
            } else if value == 104 {
                DataType::BasicDataType(BasicDataType::MyBasicTypeUcharPtr)
            } else if value == 105 {
                DataType::BasicDataType(BasicDataType::MyBasicTypeUcharHdl)
            } else if value == 106 {
                DataType::BasicDataType(BasicDataType::MyBasicTypeFunc)
            } else if value == 107 {
                DataType::BasicDataType(BasicDataType::MyBasicTypeStringPtr)
            } else {
                DataType::BasicDataType(BasicDataType::MyBasicTypePstringPtr)
            }
        } else {
            DataType::Other(value)
        }
    }
}

impl BasicDataType {
    /// The numeric code of this basic type, as the file format stores it.
    pub fn code(&self) -> (r: u32)
        ensures
            r == basic_type_code(*self),
    {
        match self {
            BasicDataType::BasicTypeVoid => 0,
            BasicDataType::BasicTypePstring => 1,
            BasicDataType::BasicTypeUlong => 2,
            BasicDataType::BasicTypeLong => 3,
            BasicDataType::BasicTypeFloat10 => 4,
            BasicDataType::BasicTypeBoolean => 5,
            BasicDataType::BasicTypeUbyte => 6,
            BasicDataType::BasicTypeByte => 7,
            BasicDataType::BasicTypeChar => 8,
            BasicDataType::BasicTypeWchar => 9,
            BasicDataType::BasicTypeUword => 10,
            BasicDataType::BasicTypeWord => 11,
            BasicDataType::BasicTypeFloat4 => 12,
            BasicDataType::BasicTypeFloat8 => 13,
            BasicDataType::BasicTypeFloat12 => 14,
            BasicDataType::BasicTypeComp => 15,
            BasicDataType::BasicTypeCstring => 16,
            BasicDataType::BasicTypeAIstring => 17,
            BasicDataType::MyBasicTypeVoidPtr => 100,
            BasicDataType::MyBasicTypeVoidHdl => 101,
            BasicDataType::MyBasicTypeCharPtr => 102,
            BasicDataType::MyBasicTypeCharHdl => 103,
            BasicDataType::MyBasicTypeUcharPtr => 104,
            BasicDataType::MyBasicTypeUcharHdl => 105,
            BasicDataType::MyBasicTypeFunc => 106,
            BasicDataType::MyBasicTypeStringPtr => 107,
            BasicDataType::MyBasicTypePstringPtr => 108,
        }
    }
}

impl From<u32> for DataType {
    /// Maps a numeric on-disk code to the data type it denotes.
    fn from(value: u32) -> (r: DataType) {
        DataType::from_code(value)
    }
}

impl vstd::std_specs::convert::FromSpecImpl<u32> for DataType {
    open spec fn obeys_from_spec() -> bool {
        true
    }

    open spec fn from_spec(v: u32) -> DataType {
        data_type_of_code(v)
    }
}

/// A pointer type record.
#[derive(Debug, Clone, Copy, PartialEq, Eq, Structural)]
pub struct Pointer {
    pub number: u16,
    pub typ: DataType,
}

impl Pointer {
    pub fn new(number: u16, typ: DataType) -> (r: Pointer)
        ensures
            r == (Pointer { number, typ }),
    {
        Pointer { number, typ }
    }

    pub fn number(&self) -> (r: u16)
        ensures
            r == self.number,
    {
        self.number
    }

    pub fn data_type(&self) -> (r: &DataType)
        ensures
            r == self.typ,
    {
        &self.typ
    }
}

/// An array type record.
#[derive(Debug, Clone, Copy, PartialEq, Eq, Structural)]
pub struct Array {
    pub size: u32,
    pub esize: u32,
    pub typ: DataType,
}

impl Array {
    pub fn new(size: u32, esize: u32, typ: DataType) -> (r: Array)
        ensures
            r == (Array { size, esize, typ }),
    {
        Array { size, esize, typ }
    }

    pub fn size(&self) -> (r: u32)
        ensures
            r == self.size,
    {
        self.size
    }

    pub fn esize(&self) -> (r: u32)
        ensures
            r == self.esize,
    {
        self.esize
    }

    pub fn data_type(&self) -> (r: &DataType)
        ensures
            r == self.typ,
    {
        &self.typ
    }
}

/// One member of a struct type record.
#[derive(Debug, Clone, Copy, PartialEq, Eq, Structural)]
pub struct StructMember {
    pub name_id: u32,
    pub typ: DataType,
    pub offset: u32,
}

impl StructMember {
    pub fn new(name_id: u32, typ: DataType, offset: u32) -> (r: StructMember)
        ensures
            r == (StructMember { name_id, typ, offset }),
    {
        StructMember { name_id, typ, offset }
    }

    pub fn name_id(&self) -> (r: u32)
        ensures
            r == self.name_id,
    {
        self.name_id
    }

    pub fn data_type(&self) -> (r: &DataType)
        ensures
            r == self.typ,
    {
        &self.typ
    }

    pub fn offset(&self) -> (r: u32)
        ensures
            r == self.offset,
    {
        self.offset
    }
}

/// A struct type record with its member list.
#[derive(Debug, Clone)]
pub struct Struct {
    pub name_id: u32,
    pub size: u32,
    pub members: Vec<StructMember>,
}

/// The mathematical value of a [`Struct`].
#[verifier::ext_equal]
pub ghost struct StructView {
    pub name_id: u32,
    pub size: u32,
    pub members: Seq<StructMember>,
}

impl View for Struct {
    type V = StructView;

    open spec fn view(&self) -> StructView {
        StructView { name_id: self.name_id, size: self.size, members: self.members@ }
    }
}

impl Struct {
    pub fn size(&self) -> (r: u32)
        ensures
            r == self.size,
    {
        self.size
    }

    pub fn name_id(&self) -> (r: u32)
        ensures
            r == self.name_id,
    {
        self.name_id
    }

    pub fn members(&self) -> (r: &Vec<StructMember>)
        ensures
            r@ == self@.members,
    {
        &self.members
    }
}

/// One named constant of an enum type record.
#[derive(Debug, Clone, Copy, PartialEq, Eq, Structural)]
pub struct EnumMember {
    pub name_id: u32,
    pub value: u32,
}

impl EnumMember {
    pub fn new(name_id: u32, value: u32) -> (r: EnumMember)
        ensures
            r == (EnumMember { name_id, value }),
    {
        EnumMember { name_id, value }
    }

    pub fn name_id(&self) -> (r: u32)
        ensures
            r == self.name_id,
    {
        self.name_id
    }

    pub fn value(&self) -> (r: u32)
        ensures
            r == self.value,
    {
        self.value
    }
}

/// An enum type record: a basic base type and its named constants.
#[derive(Debug, Clone)]
pub struct Enum {
    pub name_id: u32,
    pub typ: DataType,
    pub members: Vec<EnumMember>,
}

/// The mathematical value of an [`Enum`].
#[verifier::ext_equal]
pub ghost struct EnumView {
    pub name_id: u32,
    pub typ: DataType,
    pub members: Seq<EnumMember>,
}

impl View for Enum {
    type V = EnumView;

    open spec fn view(&self) -> EnumView {
        EnumView { name_id: self.name_id, typ: self.typ, members: self.members@ }
    }
}

impl Enum {
    pub fn new(name_id: u32, typ: DataType, members: Vec<EnumMember>) -> (r: Enum)
        ensures
            r@ == (EnumView { name_id, typ, members: members@ }),
    {
        Enum { name_id, typ, members }
    }

    pub fn name_id(&self) -> (r: u32)
        ensures
            r == self.name_id,
    {
        self.name_id
    }

    pub fn data_type(&self) -> (r: &DataType)
        ensures
            r == self.typ,
    {
        &self.typ
    }

    pub fn members(&self) -> (r: &Vec<EnumMember>)
        ensures
            r@ == self@.members,
    {
        &self.members
    }
}

/// A Pascal array type record.
#[derive(Debug, Clone, Copy, PartialEq, Eq, Structural)]
pub struct PascalArray {
    pub packed: bool,
    pub size: u32,
    pub iid: u32,
    pub eid: DataType,
    pub name_id: u32,
}

impl PascalArray {
    pub fn new(packed: bool, size: u32, iid: u32, eid: DataType, name_id: u32) -> (r: PascalArray)
        ensures
            r == (PascalArray { packed, size, iid, eid, name_id }),
    {
        PascalArray { packed, size, iid, eid, name_id }
    }

    pub fn is_packed(&self) -> (r: bool)
        ensures
            r == self.packed,
    {
        self.packed
    }

    pub fn size(&self) -> (r: u32)
        ensures
            r == self.size,
    {
        self.size
    }

    pub fn iid(&self) -> (r: u32)
        ensures
            r == self.iid,
    {
        self.iid
    }

    pub fn eid(&self) -> (r: &DataType)
        ensures
            r == self.eid,
    {
        &self.eid
    }

    pub fn name_id(&self) -> (r: u32)
        ensures
            r == self.name_id,
    {
        self.name_id
    }
}

/// A Pascal subrange type record.
#[derive(Debug, Clone, Copy, PartialEq, Eq, Structural)]
pub struct PascalRange {
    pub name_id: u32,
    pub typ: DataType,
    pub size: u32,
    pub lower: u32,
    pub upper: u32,
}

impl PascalRange {
    pub fn new(name_id: u32, typ: DataType, size: u32, lower: u32, upper: u32) -> (r: PascalRange)
        ensures
            r == (PascalRange { name_id, typ, size, lower, upper }),
    {
        PascalRange { name_id, typ, size, lower, upper }
    }

    pub fn lower(&self) -> (r: u32)
        ensures
            r == self.lower,
    {
        self.lower
    }

    pub fn upper(&self) -> (r: u32)
        ensures
            r == self.upper,
    {
        self.upper
    }

    pub fn size(&self) -> (r: u32)
        ensures
            r == self.size,
    {
        self.size
    }

    pub fn data_type(&self) -> (r: &DataType)
        ensures
            r == self.typ,
    {
        &self.typ
    }

    pub fn name_id(&self) -> (r: u32)
        ensures
            r == self.name_id,
    {
        self.name_id
    }
}

/// A Pascal set type record.
#[derive(Debug, Clone, Copy, PartialEq, Eq, Structural)]
pub struct PascalSet {
    pub name_id: u32,
    pub base: DataType,
    pub size: u32,
}

impl PascalSet {
    pub fn new(name_id: u32, base: DataType, size: u32) -> (r: PascalSet)
        ensures
            r == (PascalSet { name_id, base, size }),
    {
        PascalSet { name_id, base, size }
    }

    pub fn base(&self) -> (r: &DataType)
        ensures
            r == self.base,
    {
        &self.base
    }

    pub fn size(&self) -> (r: usize)
        ensures
            r == self.size,
    {
        self.size as usize
    }

    pub fn name_id(&self) -> (r: u32)
        ensures
            r == self.name_id,
    {
        self.name_id
    }
}

/// A Pascal enumeration type record: the member name ids.
#[derive(Debug, Clone)]
pub struct PascalEnum {
    pub name_id: u32,
    pub members: Vec<u32>,
}

/// The mathematical value of a [`PascalEnum`].
#[verifier::ext_equal]
pub ghost struct PascalEnumView {
    pub name_id: u32,
    pub members: Seq<u32>,
}

impl View for PascalEnum {
    type V = PascalEnumView;

    open spec fn view(&self) -> PascalEnumView {
        PascalEnumView { name_id: self.name_id, members: self.members@ }
    }
}

impl PascalEnum {
    pub fn new(name_id: u32, members: Vec<u32>) -> (r: PascalEnum)
        ensures
            r@ == (PascalEnumView { name_id, members: members@ }),
    {
        PascalEnum { name_id, members }
    }

    pub fn name_id(&self) -> (r: u32)
        ensures
            r == self.name_id,
    {
        self.name_id
    }

    pub fn members(&self) -> (r: &Vec<u32>)
        ensures
            r@ == self@.members,
    {
        &self.members
    }
}

/// A Pascal string type record.
#[derive(Debug, Clone, Copy, PartialEq, Eq, Structural)]
pub struct PascalString {
    pub size: u32,
    pub name_id: u32,
}

impl PascalString {
    pub fn new(size: u32, name_id: u32) -> (r: PascalString)
        ensures
            r == (PascalString { size, name_id }),
    {
        PascalString { size, name_id }
    }

    pub fn size(&self) -> (r: u32)
        ensures
            r == self.size,
    {
        self.size
    }

    pub fn name_id(&self) -> (r: u32)
        ensures
            r == self.name_id,
    {
        self.name_id
    }
}

/// The tagged union over all type records.
#[derive(Debug, Clone)]
pub enum OtherDataType {
    Undefined,
    TypePointer(Pointer),
    TypeArray(Array),
    TypeStruct(Struct),
    TypeEnum(Enum),
    TypePascalArray(PascalArray),
    TypePascalRange(PascalRange),
    TypePascalSet(PascalSet),
    TypePascalEnum(PascalEnum),
    TypePascalString(PascalString),
}

/// The mathematical value of an [`OtherDataType`].
#[verifier::ext_equal]
pub ghost enum OtherDataTypeView {
    Undefined,
    TypePointer(Pointer),
    TypeArray(Array),
    TypeStruct(StructView),
    TypeEnum(EnumView),
    TypePascalArray(PascalArray),
    TypePascalRange(PascalRange),
    TypePascalSet(PascalSet),
    TypePascalEnum(PascalEnumView),
    TypePascalString(PascalString),
}

impl View for OtherDataType {
    type V = OtherDataTypeView;

    open spec fn view(&self) -> OtherDataTypeView {
        match self {
            OtherDataType::Undefined => OtherDataTypeView::Undefined,
            OtherDataType::TypePointer(p) => OtherDataTypeView::TypePointer(*p),
            OtherDataType::TypeArray(a) => OtherDataTypeView::TypeArray(*a),
            OtherDataType::TypeStruct(st) => OtherDataTypeView::TypeStruct(st@),
            OtherDataType::TypeEnum(e) => OtherDataTypeView::TypeEnum(e@),
            OtherDataType::TypePascalArray(pa) => OtherDataTypeView::TypePascalArray(*pa),
            OtherDataType::TypePascalRange(pr) => OtherDataTypeView::TypePascalRange(*pr),
            OtherDataType::TypePascalSet(ps) => OtherDataTypeView::TypePascalSet(*ps),
            OtherDataType::TypePascalEnum(pe) => OtherDataTypeView::TypePascalEnum(pe@),
            OtherDataType::TypePascalString(ps) => OtherDataTypeView::TypePascalString(*ps),
        }
    }
}

/// One entry of the type table: a record and its type id.
#[derive(Debug, Clone)]
pub struct TypeDefinition {
    pub typ: OtherDataType,
    pub id: u32,
}

/// The mathematical value of a [`TypeDefinition`].
#[verifier::ext_equal]
pub ghost struct TypeDefinitionView {
    pub typ: OtherDataTypeView,
    pub id: u32,
}

impl View for TypeDefinition {
    type V = TypeDefinitionView;

    open spec fn view(&self) -> TypeDefinitionView {
        TypeDefinitionView { typ: self.typ@, id: self.id }
    }
}

impl TypeDefinition {
    pub fn new(typ: OtherDataType, id: u32) -> (r: TypeDefinition)
        ensures
            r@ == (TypeDefinitionView { typ: typ@, id }),
    {
        TypeDefinition { typ, id }
    }

    pub fn data_type(&self) -> (r: &OtherDataType)
        ensures
            r@ == self@.typ,
    {
        &self.typ
    }

    pub fn id(&self) -> (r: u32)
        ensures
            r == self.id,
    {
        self.id
    }
}

/// The struct member list at `pos`: `k` fixed-size records of twelve bytes.
pub open spec fn struct_members_at(s: Seq<u8>, pos: int, k: int) -> Result<
    (Seq<StructMember>, int),
    DecodeError,
>
    decreases k,
{
    if k <= 0 {
        Ok((Seq::empty(), pos))
    } else if pos + 12 <= s.len() {
        let m = StructMember {
            name_id: be_u32_at(s, pos),
            typ: data_type_of_code(be_u32_at(s, pos + 4)),
            offset: be_u32_at(s, pos + 8),
        };
        match struct_members_at(s, pos + 12, k - 1) {
            Ok(q) => Ok((seq![m] + q.0, q.1)),
            Err(e) => Err(e),
        }
    } else {
        Err(truncated(12, pos, s.len() as int))
    }
}

/// Decodes `n` struct members, exactly as [`struct_members_at`] describes.
#[verifier::loop_isolation(false)]
fn decode_struct_members(s: &[u8], pos: &mut usize, n: u16) -> (r: Result<
    Vec<StructMember>,
    DecodeError,
>)
    requires
        *old(pos) <= s@.len(),
    ensures
        *final(pos) <= s@.len(),
        match r {
            Ok(v) => struct_members_at(s@, *old(pos) as int, n as int) == Ok::<
                _,
                DecodeError,
            >((v@, *final(pos) as int)),
            Err(e) => struct_members_at(s@, *old(pos) as int, n as int) == Err::<
                (Seq<StructMember>, int),
                _,
            >(e),
        },
{
    proof {
        vstd::slice::axiom_spec_len(s);
    }
    let ghost pos0: int = *pos as int;
    let mut out: Vec<StructMember> = Vec::new();
    let mut i: u16 = 0;
    while i < n
        invariant
            *pos <= s@.len(),
            i <= n,
            struct_members_at(s@, pos0, n as int) == (match struct_members_at(
                s@,
                *pos as int,
                n as int - i as int,
            ) {
                Ok(q) => Ok::<(Seq<StructMember>, int), DecodeError>((out@ + q.0, q.1)),
                Err(e) => Err::<(Seq<StructMember>, int), DecodeError>(e),
            }),
        decreases n as int - i as int,
    {
        proof {
            vstd::slice::axiom_spec_len(s);
        }
        let ghost pos_it: int = *pos as int;
        let ghost out_it: Seq<StructMember> = out@;
        let ghost k: int = n as int - i as int;
        if s.len() - *pos < 12 {
            let e = DecodeError::TruncatedInput { needed: 12, available: s.len() - *pos };
            proof {
                assert(struct_members_at(s@, pos_it, k) == Err::<(Seq<StructMember>, int), _>(e));
            }
            return Err(e);
        }
        let name_id = take_be_u32(s, pos);
        let typc = take_be_u32(s, pos);
        let offset = take_be_u32(s, pos);
        let m = StructMember { name_id, typ: DataType::from_code(typc), offset };
        out.push(m);
        i = i + 1;
        proof {
            assert(struct_members_at(s@, pos_it, k) == (match struct_members_at(
                s@,
                pos_it + 12,
                k - 1,
            ) {
                Ok(q) => Ok::<(Seq<StructMember>, int), DecodeError>((seq![m] + q.0, q.1)),
                Err(e) => Err::<(Seq<StructMember>, int), DecodeError>(e),
            }));
            match struct_members_at(s@, *pos as int, n as int - i as int) {
                Ok(q) => {
                    assert(out@ + q.0 =~= out_it + (seq![m] + q.0));
                },
                Err(_) => {},
            }
        }
    }
    proof {
        assert(struct_members_at(s@, *pos as int, 0) == Ok::<(Seq<StructMember>, int), DecodeError>(
            (Seq::empty(), *pos as int),
        ));
        assert(out@ + Seq::<StructMember>::empty() =~= out@);
    }
    Ok(out)
}

/// The enum member list at `pos`: `k` fixed-size records of eight bytes.
pub open spec fn enum_members_at(s: Seq<u8>, pos: int, k: int) -> Result<
    (Seq<EnumMember>, int),
    DecodeError,
>
    decreases k,
{
    if k <= 0 {
        Ok((Seq::empty(), pos))
    } else if pos + 8 <= s.len() {
        let m = EnumMember { name_id: be_u32_at(s, pos), value: be_u32_at(s, pos + 4) };
        match enum_members_at(s, pos + 8, k - 1) {
            Ok(q) => Ok((seq![m] + q.0, q.1)),
            Err(e) => Err(e),
        }
    } else {
        Err(truncated(8, pos, s.len() as int))
    }
}

/// Decodes `n` enum members, exactly as [`enum_members_at`] describes.
#[verifier::loop_isolation(false)]
fn decode_enum_members(s: &[u8], pos: &mut usize, n: u16) -> (r: Result<
    Vec<EnumMember>,
    DecodeError,
>)
    requires
        *old(pos) <= s@.len(),
    ensures
        *final(pos) <= s@.len(),
        match r {
            Ok(v) => enum_members_at(s@, *old(pos) as int, n as int) == Ok::<
                _,
                DecodeError,
            >((v@, *final(pos) as int)),
            Err(e) => enum_members_at(s@, *old(pos) as int, n as int) == Err::<
                (Seq<EnumMember>, int),
                _,
            >(e),
        },
{
    proof {
        vstd::slice::axiom_spec_len(s);
    }
    let ghost pos0: int = *pos as int;
    let mut out: Vec<EnumMember> = Vec::new();
    let mut i: u16 = 0;
    while i < n
        invariant
            *pos <= s@.len(),
            i <= n,
            enum_members_at(s@, pos0, n as int) == (match enum_members_at(
                s@,
                *pos as int,
                n as int - i as int,
            ) {
                Ok(q) => Ok::<(Seq<EnumMember>, int), DecodeError>((out@ + q.0, q.1)),
                Err(e) => Err::<(Seq<EnumMember>, int), DecodeError>(e),
            }),
        decreases n as int - i as int,
    {
        let ghost pos_it: int = *pos as int;
        let ghost out_it: Seq<EnumMember> = out@;
        let ghost k: int = n as int - i as int;
        if s.len() - *pos < 8 {
            let e = DecodeError::TruncatedInput { needed: 8, available: s.len() - *pos };
            proof {
                assert(enum_members_at(s@, pos_it, k) == Err::<(Seq<EnumMember>, int), _>(e));
            }
            return Err(e);
        }
        let name_id = take_be_u32(s, pos);
        let value = take_be_u32(s, pos);
        let m = EnumMember { name_id, value };
        out.push(m);
        i = i + 1;
        proof {
            assert(enum_members_at(s@, pos_it, k) == (match enum_members_at(
                s@,
                pos_it + 8,
                k - 1,
            ) {
                Ok(q) => Ok::<(Seq<EnumMember>, int), DecodeError>((seq![m] + q.0, q.1)),
                Err(e) => Err::<(Seq<EnumMember>, int), DecodeError>(e),
            }));
            match enum_members_at(s@, *pos as int, n as int - i as int) {
                Ok(q) => {
                    assert(out@ + q.0 =~= out_it + (seq![m] + q.0));
                },
                Err(_) => {},
            }
        }
    }
    proof {
        assert(out@ + Seq::<EnumMember>::empty() =~= out@);
    }
    Ok(out)
}

/// The Pascal enum member list at `pos`: `k` four-byte name ids.
pub open spec fn penum_members_at(s: Seq<u8>, pos: int, k: int) -> Result<
    (Seq<u32>, int),
    DecodeError,
>
    decreases k,
{
    if k <= 0 {
        Ok((Seq::empty(), pos))
    } else if pos + 4 <= s.len() {
        let m = be_u32_at(s, pos);
        match penum_members_at(s, pos + 4, k - 1) {
            Ok(q) => Ok((seq![m] + q.0, q.1)),
            Err(e) => Err(e),
        }
    } else {
        Err(truncated(4, pos, s.len() as int))
    }
}

/// Decodes `n` Pascal enum member ids, exactly as [`penum_members_at`]
/// describes.
#[verifier::loop_isolation(false)]
fn decode_penum_members(s: &[u8], pos: &mut usize, n: u16) -> (r: Result<Vec<u32>, DecodeError>)
    requires
        *old(pos) <= s@.len(),
    ensures
        *final(pos) <= s@.len(),
        match r {
            Ok(v) => penum_members_at(s@, *old(pos) as int, n as int) == Ok::<
                _,
                DecodeError,
            >((v@, *final(pos) as int)),
            Err(e) => penum_members_at(s@, *old(pos) as int, n as int) == Err::<
                (Seq<u32>, int),
                _,
            >(e),
        },
{
    proof {
        vstd::slice::axiom_spec_len(s);
    }
    let ghost pos0: int = *pos as int;
    let mut out: Vec<u32> = Vec::new();
    let mut i: u16 = 0;
    while i < n
        invariant
            *pos <= s@.len(),
            i <= n,
            penum_members_at(s@, pos0, n as int) == (match penum_members_at(
                s@,
                *pos as int,
                n as int - i as int,
            ) {
                Ok(q) => Ok::<(Seq<u32>, int), DecodeError>((out@ + q.0, q.1)),
                Err(e) => Err::<(Seq<u32>, int), DecodeError>(e),
            }),
        decreases n as int - i as int,
    {
        let ghost pos_it: int = *pos as int;
        let ghost out_it: Seq<u32> = out@;
        let ghost k: int = n as int - i as int;
        if s.len() - *pos < 4 {
            let e = DecodeError::TruncatedInput { needed: 4, available: s.len() - *pos };
            proof {
                assert(penum_members_at(s@, pos_it, k) == Err::<(Seq<u32>, int), _>(e));
            }
            return Err(e);
        }
        let m = take_be_u32(s, pos);
        out.push(m);
        i = i + 1;
        proof {
            assert(penum_members_at(s@, pos_it, k) == (match penum_members_at(
                s@,
                pos_it + 4,
                k - 1,
            ) {
                Ok(q) => Ok::<(Seq<u32>, int), DecodeError>((seq![m] + q.0, q.1)),
                Err(e) => Err::<(Seq<u32>, int), DecodeError>(e),
            }));
            match penum_members_at(s@, *pos as int, n as int - i as int) {
                Ok(q) => {
                    assert(out@ + q.0 =~= out_it + (seq![m] + q.0));
                },
                Err(_) => {},
            }
        }
    }
    proof {
        assert(out@ + Seq::<u32>::empty() =~= out@);
    }
    Ok(out)
}

/// One tagged type record at `pos`: a two-byte tag, a four-byte id, and the
/// tag's own payload. Unknown tags fail with `BadTypeTag`; an enum whose base
/// is not a basic type fails with `BadEnumBase` after its members are read.
pub open spec fn type_record_at(s: Seq<u8>, pos: int) -> Result<
    (TypeDefinitionView, int),
    DecodeError,
> {
    let len = s.len() as int;
    if pos + 6 > len {
        Err(truncated(6, pos, len))
    } else {
        let tag = be_u16_at(s, pos);
        let id = be_u32_at(s, pos + 2);
        let p = pos + 6;
        if tag == 0 {
            if p + 6 > len {
                Err(truncated(6, p, len))
            } else {
                Ok(
                    (
                        TypeDefinitionView {
                            typ: OtherDataTypeView::TypePointer(
                                Pointer {
                                    number: be_u16_at(s, p),
                                    typ: data_type_of_code(be_u32_at(s, p + 2)),
                                },
                            ),
                            id,
                        },
                        p + 6,
                    ),
                )
            }
        } else if tag == 1 {
            if p + 12 > len {
                Err(truncated(12, p, len))
            } else {
                Ok(
                    (
                        TypeDefinitionView {
                            typ: OtherDataTypeView::TypeArray(
                                Array {
                                    size: be_u32_at(s, p),
                                    esize: be_u32_at(s, p + 4),
                                    typ: data_type_of_code(be_u32_at(s, p + 8)),
                                },
                            ),
                            id,
                        },
                        p + 12,
                    ),
                )
            }
        } else if tag == 2 {
            if p + 10 > len {
                Err(truncated(10, p, len))
            } else {
                let name_id = be_u32_at(s, p);
                let size = be_u32_at(s, p + 4);
                let nm = be_u16_at(s, p + 8);
                match struct_members_at(s, p + 10, nm as int) {
                    Ok(q) => Ok(
                        (
                            TypeDefinitionView {
                                typ: OtherDataTypeView::TypeStruct(
                                    StructView { name_id, size, members: q.0 },
                                ),
                                id,
                            },
                            q.1,
                        ),
                    ),
                    Err(e) => Err(e),
                }
            }
        } else if tag == 3 {
            if p + 8 > len {
                Err(truncated(8, p, len))
            } else {
                let name_id = be_u32_at(s, p);
                let base = be_u16_at(s, p + 4);
                let nm = be_u16_at(s, p + 6);
                match enum_members_at(s, p + 8, nm as int) {
                    Ok(q) => if data_type_of_code(base as u32) matches DataType::BasicDataType(_) {
                        Ok(
                            (
                                TypeDefinitionView {
                                    typ: OtherDataTypeView::TypeEnum(
                                        EnumView {
                                            name_id,
                                            typ: data_type_of_code(base as u32),
                                            members: q.0,
                                        },
                                    ),
                                    id,
                                },
                                q.1,
                            ),
                        )
                    } else {
                        Err(DecodeError::BadEnumBase { got: base })
                    },
                    Err(e) => Err(e),
                }
            }
        } else if tag == 4 {
            if p + 20 > len {
                Err(truncated(20, p, len))
            } else {
                Ok(
                    (
                        TypeDefinitionView {
                            typ: OtherDataTypeView::TypePascalArray(
                                PascalArray {
                                    packed: be_u32_at(s, p) != 0,
                                    size: be_u32_at(s, p + 4),
                                    iid: be_u32_at(s, p + 8),
                                    eid: data_type_of_code(be_u32_at(s, p + 12)),
                                    name_id: be_u32_at(s, p + 16),
                                },
                            ),
                            id,
                        },
                        p + 20,
                    ),
                )
            }
        } else if tag == 5 {
            if p + 20 > len {
                Err(truncated(20, p, len))
            } else {
                Ok(
                    (
                        TypeDefinitionView {
                            typ: OtherDataTypeView::TypePascalRange(
                                PascalRange {
                                    name_id: be_u32_at(s, p),
                                    typ: data_type_of_code(be_u32_at(s, p + 4)),
                                    size: be_u32_at(s, p + 8),
                                    lower: be_u32_at(s, p + 12),
                                    upper: be_u32_at(s, p + 16),
                                },
                            ),
                            id,
                        },
                        p + 20,
                    ),
                )
            }
        } else if tag == 6 {
            if p + 12 > len {
                Err(truncated(12, p, len))
            } else {
                Ok(
                    (
                        TypeDefinitionView {
                            typ: OtherDataTypeView::TypePascalSet(
                                PascalSet {
                                    name_id: be_u32_at(s, p),
                                    base: data_type_of_code(be_u32_at(s, p + 4)),
                                    size: be_u32_at(s, p + 8),
                                },
                            ),
                            id,
                        },
                        p + 12,
                    ),
                )
            }
        } else if tag == 7 {
            // The member count sits in the upper half of a 32-bit field; a
            // non-zero lower half would make the whole field disagree with
            // that count, so it is rejected rather than skipped silently.
            if p + 8 > len {
                Err(truncated(8, p, len))
            } else {
                let name_id = be_u32_at(s, p);
                let nm = be_u16_at(s, p + 4);
                let low = be_u16_at(s, p + 6);
                if low != 0 {
                    Err(DecodeError::BadPascalEnumCount { upper: nm, lower: low })
                } else {
                    match penum_members_at(s, p + 8, nm as int) {
                        Ok(q) => Ok(
                            (
                                TypeDefinitionView {
                                    typ: OtherDataTypeView::TypePascalEnum(
                                        PascalEnumView { name_id, members: q.0 },
                                    ),
                                    id,
                                },
                                q.1,
                            ),
                        ),
                        Err(e) => Err(e),
                    }
                }
            }
        } else if tag == 8 {
            if p + 8 > len {
                Err(truncated(8, p, len))
            } else {
                Ok(
                    (
                        TypeDefinitionView {
                            typ: OtherDataTypeView::TypePascalString(
                                PascalString { size: be_u32_at(s, p), name_id: be_u32_at(s, p + 4) },
                            ),
                            id,
                        },
                        p + 8,
                    ),
                )
            }
        } else {
            Err(DecodeError::BadTypeTag { got: tag })
        }
    }
}

/// Decodes one tagged type record, exactly as [`type_record_at`] describes.
#[verifier::rlimit(100)]
pub fn decode_type_record(s: &[u8], pos: &mut usize) -> (r: Result<TypeDefinition, DecodeError>)
    requires
        *old(pos) <= s@.len(),
    ensures
        *final(pos) <= s@.len(),
        match r {
            Ok(td) => type_record_at(s@, *old(pos) as int) == Ok::<
                _,
                DecodeError,
            >((td@, *final(pos) as int)),
            Err(e) => type_record_at(s@, *old(pos) as int) == Err::<
                (TypeDefinitionView, int),
                _,
            >(e),
        },
{
    proof {
        vstd::slice::axiom_spec_len(s);
    }
    if s.len() - *pos < 6 {
        return Err(DecodeError::TruncatedInput { needed: 6, available: s.len() - *pos });
    }
    let tag = take_be_u16(s, pos);
    let id = take_be_u32(s, pos);
    if tag == 0 {
        if s.len() - *pos < 6 {
            return Err(DecodeError::TruncatedInput { needed: 6, available: s.len() - *pos });
        }
        let number = take_be_u16(s, pos);
        let code = take_be_u32(s, pos);
        Ok(TypeDefinition { typ: OtherDataType::TypePointer(Pointer { number, typ: DataType::from_code(code) }), id })
    } else if tag == 1 {
        if s.len() - *pos < 12 {
            return Err(DecodeError::TruncatedInput { needed: 12, available: s.len() - *pos });
        }
        let size = take_be_u32(s, pos);
        let esize = take_be_u32(s, pos);
        let code = take_be_u32(s, pos);
        Ok(TypeDefinition { typ: OtherDataType::TypeArray(Array { size, esize, typ: DataType::from_code(code) }), id })
    } else if tag == 2 {
        if s.len() - *pos < 10 {
            return Err(DecodeError::TruncatedInput { needed: 10, available: s.len() - *pos });
        }
        let name_id = take_be_u32(s, pos);
        let size = take_be_u32(s, pos);
        let nm = take_be_u16(s, pos);
        match decode_struct_members(s, pos, nm) {
            Ok(members) => Ok(
                TypeDefinition { typ: OtherDataType::TypeStruct(Struct { name_id, size, members }), id },
            ),
            Err(e) => Err(e),
        }
    } else if tag == 3 {
        if s.len() - *pos < 8 {
            return Err(DecodeError::TruncatedInput { needed: 8, available: s.len() - *pos });
        }
        let name_id = take_be_u32(s, pos);
        let base = take_be_u16(s, pos);
        let nm = take_be_u16(s, pos);
        match decode_enum_members(s, pos, nm) {
            Ok(members) => {
                let bt = DataType::from_code(base as u32);
                match bt {
                    DataType::BasicDataType(_) => Ok(
                        TypeDefinition { typ: OtherDataType::TypeEnum(Enum { name_id, typ: bt, members }), id },
                    ),
                    _ => Err(DecodeError::BadEnumBase { got: base }),
                }
            },
            Err(e) => Err(e),
        }
    } else if tag == 4 {
        if s.len() - *pos < 20 {
            return Err(DecodeError::TruncatedInput { needed: 20, available: s.len() - *pos });
        }
        let packed = take_be_u32(s, pos);
        let size = take_be_u32(s, pos);
        let iid = take_be_u32(s, pos);
        let code = take_be_u32(s, pos);
        let name_id = take_be_u32(s, pos);
        Ok(
            TypeDefinition {
                typ: OtherDataType::TypePascalArray(
                    PascalArray {
                        packed: packed != 0,
                        size,
                        iid,
                        eid: DataType::from_code(code),
                        name_id,
                    },
                ),
                id,
            },
        )
    } else if tag == 5 {
        if s.len() - *pos < 20 {
            return Err(DecodeError::TruncatedInput { needed: 20, available: s.len() - *pos });
        }
        let name_id = take_be_u32(s, pos);
        let code = take_be_u32(s, pos);
        let size = take_be_u32(s, pos);
        let lower = take_be_u32(s, pos);
        let upper = take_be_u32(s, pos);
        Ok(
            TypeDefinition {
                typ: OtherDataType::TypePascalRange(
                    PascalRange { name_id, typ: DataType::from_code(code), size, lower, upper },
                ),
                id,
            },
        )
    } else if tag == 6 {
        if s.len() - *pos < 12 {
            return Err(DecodeError::TruncatedInput { needed: 12, available: s.len() - *pos });
        }
        let name_id = take_be_u32(s, pos);
        let code = take_be_u32(s, pos);
        let size = take_be_u32(s, pos);
        Ok(
            TypeDefinition {
                typ: OtherDataType::TypePascalSet(
                    PascalSet { name_id, base: DataType::from_code(code), size },
                ),
                id,
            },
        )
    } else if tag == 7 {
        if s.len() - *pos < 8 {
            return Err(DecodeError::TruncatedInput { needed: 8, available: s.len() - *pos });
        }
        let name_id = take_be_u32(s, pos);
        let nm = take_be_u16(s, pos);
        let low = take_be_u16(s, pos);
        if low != 0 {
            return Err(DecodeError::BadPascalEnumCount { upper: nm, lower: low });
        }
        match decode_penum_members(s, pos, nm) {
            Ok(members) => Ok(
                TypeDefinition { typ: OtherDataType::TypePascalEnum(PascalEnum { name_id, members }), id },
            ),
            Err(e) => Err(e),
        }
    } else if tag == 8 {
        if s.len() - *pos < 8 {
            return Err(DecodeError::TruncatedInput { needed: 8, available: s.len() - *pos });
        }
        let size = take_be_u32(s, pos);
        let name_id = take_be_u32(s, pos);
        Ok(TypeDefinition { typ: OtherDataType::TypePascalString(PascalString { size, name_id }), id })
    } else {
        Err(DecodeError::BadTypeTag { got: tag })
    }
}

/// The type table at `pos`: `k` consecutive tagged records.
pub open spec fn type_table_at(s: Seq<u8>, pos: int, k: int) -> Result<
    (Seq<TypeDefinitionView>, int),
    DecodeError,
>
    decreases k,
{
    if k <= 0 {
        Ok((Seq::empty(), pos))
    } else {
        match type_record_at(s, pos) {
            Ok(p) => match type_table_at(s, p.1, k - 1) {
                Ok(q) => Ok((seq![p.0] + q.0, q.1)),
                Err(e) => Err(e),
            },
            Err(e) => Err(e),
        }
    }
}

/// Decodes a type table of `num_types` records from the start of `s`, exactly
/// as [`type_table_at`] describes; a zero count yields an empty table without
/// reading a byte.
#[verifier::loop_isolation(false)]
pub fn decode_type_table(s: &[u8], num_types: u32) -> (r: Result<Vec<TypeDefinition>, DecodeError>)
    ensures
        match r {
            Ok(v) => type_table_at(s@, 0, num_types as int) matches Ok(q) && q.0
                == v@.map_values(|t: TypeDefinition| t@) && v@.len() == num_types,
            Err(e) => type_table_at(s@, 0, num_types as int) == Err::<
                (Seq<TypeDefinitionView>, int),
                _,
            >(e),
        },
{
    proof {
        vstd::slice::axiom_spec_len(s);
    }
    let mut pos: usize = 0;
    let mut out: Vec<TypeDefinition> = Vec::new();
    let mut done: u32 = 0;
    proof {
        match type_table_at(s@, 0, num_types as int) {
            Ok(q) => {
                assert(out@.map_values(|t: TypeDefinition| t@) + q.0 =~= q.0);
            },
            Err(_) => {},
        }
    }
    while done < num_types
        invariant
            pos <= s@.len(),
            done <= num_types,
            out@.len() == done,
            type_table_at(s@, 0, num_types as int) == (match type_table_at(
                s@,
                pos as int,
                num_types as int - done as int,
            ) {
                Ok(q) => Ok::<(Seq<TypeDefinitionView>, int), DecodeError>((out@.map_values(
                    |t: TypeDefinition| t@,
                ) + q.0, q.1)),
                Err(e) => Err::<(Seq<TypeDefinitionView>, int), DecodeError>(e),
            }),
        decreases num_types as int - done as int,
    {
        let ghost pos_it: int = pos as int;
        let ghost out_it: Seq<TypeDefinitionView> = out@.map_values(|t: TypeDefinition| t@);
        let ghost k: int = num_types as int - done as int;
        match decode_type_record(s, &mut pos) {
            Ok(td) => {
                out.push(td);
                done = done + 1;
                proof {
                    assert(type_table_at(s@, pos_it, k) == (match type_table_at(
                        s@,
                        pos as int,
                        k - 1,
                    ) {
                        Ok(q) => Ok::<(Seq<TypeDefinitionView>, int), DecodeError>((seq![td@]
                            + q.0, q.1)),
                        Err(e) => Err::<(Seq<TypeDefinitionView>, int), DecodeError>(e),
                    }));
                    match type_table_at(s@, pos as int, k - 1) {
                        Ok(q) => {
                            assert(out@.map_values(|t: TypeDefinition| t@) =~= out_it.push(td@));
                            assert(out@.map_values(|t: TypeDefinition| t@) + q.0 =~= out_it + (seq![
                                td@,
                            ] + q.0));
                        },
                        Err(_) => {},
                    }
                }
            },
            Err(e) => {
                proof {
                    assert(type_table_at(s@, pos_it, k) == Err::<
                        (Seq<TypeDefinitionView>, int),
                        DecodeError,
                    >(e));
                }
                return Err(e);
            },
        }
    }
    proof {
        assert(out@.map_values(|t: TypeDefinition| t@) + Seq::<TypeDefinitionView>::empty()
            =~= out@.map_values(|t: TypeDefinition| t@));
    }
    Ok(out)
}

} // verus!
