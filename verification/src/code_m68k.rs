//! The code-hunk stream: a tag-driven sequence of records carrying code,
//! data, cross-references, entries and CFM metadata.
//!
//! The stream decoder is specified by `hunks_parse` and proved to return
//! exactly what that parser describes. Context flows between records: the
//! special flag of a code hunk is derived from the hunk committed just
//! before it. Reserved tags abort the whole decode.

use crate::cursor::{take_be_u16, take_be_u32, take_bytes};
use crate::error::{truncated, DecodeError, ReservedHunkKind};
use crate::util::{be_u16_at, be_u32_at};
use vstd::prelude::*;

verus! {

/// A record kind the decoder refuses; it carries no payload of its own.
#[derive(Debug, Clone, Copy, PartialEq, Eq, Structural)]
pub struct ReservedHunk {}

/// A record with no payload at all.
#[derive(Debug, Clone, Copy, PartialEq, Eq, Structural)]
pub struct ObjSimpleHunk {}

/// The marker inherited by a code hunk from the record committed just
/// before it.
#[derive(Debug, Clone, Copy, PartialEq, Eq, Structural)]
pub enum ObjCodeFlag {
    NoFlag,
    GlobalMultiDef,
    GlobalOverload,
    CFMExport,
}

/// A code hunk: a named stretch of machine code with symbol-table links.
#[derive(Debug, Clone)]
pub struct ObjCodeHunk {
    pub name_id: u32,
    pub sym_offset: u32,
    pub sym_decl_offset: u32,
    pub special_flag: ObjCodeFlag,
    pub code: Vec<u8>,
}

/// The mathematical value of an [`ObjCodeHunk`].
#[verifier::ext_equal]
pub ghost struct ObjCodeHunkView {
    pub name_id: u32,
    pub sym_offset: u32,
    pub sym_decl_offset: u32,
    pub special_flag: ObjCodeFlag,
    pub code: Seq<u8>,
}

impl View for ObjCodeHunk {
    type V = ObjCodeHunkView;

    open spec fn view(&self) -> ObjCodeHunkView {
        ObjCodeHunkView {
            name_id: self.name_id,
            sym_offset: self.sym_offset,
            sym_decl_offset: self.sym_decl_offset,
            special_flag: self.special_flag,
            code: self.code@,
        }
    }
}

impl ObjCodeHunk {
    /// A hand-built code hunk; the symbol declaration offset starts at zero.
    pub fn new(name_id: u32, sym_offset: u32, flag: ObjCodeFlag, code: &[u8]) -> (r: ObjCodeHunk)
        ensures
            r@ == (ObjCodeHunkView {
                name_id,
                sym_offset,
                sym_decl_offset: 0,
                special_flag: flag,
                code: code@,
            }),
    {
        let mut pos: usize = 0;
        proof {
            vstd::slice::axiom_spec_len(code);
        }
        let owned = take_bytes(code, &mut pos, code.len());
        proof {
            assert(owned@ =~= code@);
        }
        ObjCodeHunk { name_id, sym_offset, sym_decl_offset: 0, special_flag: flag, code: owned }
    }

    pub fn name_id(&self) -> (r: u32)
        ensures
            r == self.name_id,
    {
        self.name_id
    }

    /// Whether the hunk points into the symbol table.
    pub fn has_symtab(&self) -> (r: bool)
        ensures
            r == (self.sym_offset != 0x80000000u32),
    {
        self.sym_offset != 0x80000000
    }

    pub fn sym_offset(&self) -> (r: u32)
        ensures
            r == self.sym_offset,
    {
        self.sym_offset
    }

    pub fn sym_decl_offset(&self) -> (r: u32)
        ensures
            r == self.sym_decl_offset,
    {
        self.sym_decl_offset
    }

    pub fn flag(&self) -> (r: ObjCodeFlag)
        ensures
            r == self.special_flag,
    {
        self.special_flag
    }

    pub fn code(&self) -> (r: &Vec<u8>)
        ensures
            r@ == self@.code,
    {
        &self.code
    }
}

/// An initialization-code hunk.
#[derive(Debug, Clone)]
pub struct ObjInitHunk {
    pub code: Vec<u8>,
}

/// The mathematical value of an [`ObjInitHunk`].
#[verifier::ext_equal]
pub ghost struct ObjInitHunkView {
    pub code: Seq<u8>,
}

impl View for ObjInitHunk {
    type V = ObjInitHunkView;

    open spec fn view(&self) -> ObjInitHunkView {
        ObjInitHunkView { code: self.code@ }
    }
}

impl ObjInitHunk {
    pub fn code(&self) -> (r: &Vec<u8>)
        ensures
            r@ == self@.code,
    {
        &self.code
    }
}

/// A data hunk. Initialized variants own their bytes; uninitialized ones
/// carry only the declared size.
#[derive(Debug, Clone)]
pub struct ObjDataHunk {
    pub name_id: u32,
    pub size: u32,
    pub sym_offset: u32,
    pub sym_decl_offset: u32,
    pub data: Vec<u8>,
}

/// The mathematical value of an [`ObjDataHunk`].
#[verifier::ext_equal]
pub ghost struct ObjDataHunkView {
    pub name_id: u32,
    pub size: u32,
    pub sym_offset: u32,
    pub sym_decl_offset: u32,
    pub data: Seq<u8>,
}

impl View for ObjDataHunk {
    type V = ObjDataHunkView;

    open spec fn view(&self) -> ObjDataHunkView {
        ObjDataHunkView {
            name_id: self.name_id,
            size: self.size,
            sym_offset: self.sym_offset,
            sym_decl_offset: self.sym_decl_offset,
            data: self.data@,
        }
    }
}

impl ObjDataHunk {
    pub fn name_id(&self) -> (r: u32)
        ensures
            r == self.name_id,
    {
        self.name_id
    }

    pub fn size(&self) -> (r: u32)
        ensures
            r == self.size,
    {
        self.size
    }

    pub fn sym_offset(&self) -> (r: u32)
        ensures
            r == self.sym_offset,
    {
        self.sym_offset
    }

    pub fn sym_decl_offset(&self) -> (r: u32)
        ensures
            r == self.sym_decl_offset,
    {
        self.sym_decl_offset
    }

    pub fn data(&self) -> (r: &Vec<u8>)
        ensures
            r@ == self@.data,
    {
        &self.data
    }
}

/// An alternate-entry hunk.
#[derive(Debug, Clone, Copy, PartialEq, Eq, Structural)]
pub struct ObjEntryHunk {
    pub name_id: u32,
    pub offset: u32,
}

impl ObjEntryHunk {
    pub fn name_id(&self) -> (r: u32)
        ensures
            r == self.name_id,
    {
        self.name_id
    }

    pub fn offset(&self) -> (r: u32)
        ensures
            r == self.offset,
    {
        self.offset
    }
}

/// One patch location of a cross-reference.
#[derive(Debug, Clone, Copy, PartialEq, Eq, Structural)]
pub struct ObjXRefPair {
    pub offset: u32,
    pub value: u32,
}

impl ObjXRefPair {
    pub fn offset(&self) -> (r: u32)
        ensures
            r == self.offset,
    {
        self.offset
    }

    pub fn value(&self) -> (r: u32)
        ensures
            r == self.value,
    {
        self.value
    }
}

/// A cross-reference hunk: a name and its patch locations.
#[derive(Debug, Clone)]
pub struct ObjXRefHunk {
    pub name_id: u32,
    pub pairs: Vec<ObjXRefPair>,
}

/// The mathematical value of an [`ObjXRefHunk`].
#[verifier::ext_equal]
pub ghost struct ObjXRefHunkView {
    pub name_id: u32,
    pub pairs: Seq<ObjXRefPair>,
}

impl View for ObjXRefHunk {
    type V = ObjXRefHunkView;

    open spec fn view(&self) -> ObjXRefHunkView {
        ObjXRefHunkView { name_id: self.name_id, pairs: self.pairs@ }
    }
}

impl ObjXRefHunk {
    pub fn name_id(&self) -> (r: u32)
        ensures
            r == self.name_id,
    {
        self.name_id
    }

    pub fn pairs(&self) -> (r: &Vec<ObjXRefPair>)
        ensures
            r@ == self@.pairs,
    {
        &self.pairs
    }
}

/// An exception-information hunk.
#[derive(Debug, Clone)]
pub struct ObjExceptInfo {
    pub info: Vec<u8>,
}

/// The mathematical value of an [`ObjExceptInfo`].
#[verifier::ext_equal]
pub ghost struct ObjExceptInfoView {
    pub info: Seq<u8>,
}

impl View for ObjExceptInfo {
    type V = ObjExceptInfoView;

    open spec fn view(&self) -> ObjExceptInfoView {
        ObjExceptInfoView { info: self.info@ }
    }
}

impl ObjExceptInfo {
    pub fn info(&self) -> (r: &Vec<u8>)
        ensures
            r@ == self@.info,
    {
        &self.info
    }
}

/// A CFM container hunk with its three binary-compatibility versions.
#[derive(Debug, Clone, Copy, PartialEq, Eq, Structural)]
pub struct ObjContainerHunk {
    pub name_id: u32,
    pub old_def_version: u32,
    pub old_imp_version: u32,
    pub current_version: u32,
}

impl ObjContainerHunk {
    pub fn name_id(&self) -> (r: u32)
        ensures
            r == self.name_id,
    {
        self.name_id
    }

    pub fn old_def_version(&self) -> (r: u32)
        ensures
            r == self.old_def_version,
    {
        self.old_def_version
    }

    pub fn old_imp_version(&self) -> (r: u32)
        ensures
            r == self.old_imp_version,
    {
        self.old_imp_version
    }

    pub fn current_version(&self) -> (r: u32)
        ensures
            r == self.current_version,
    {
        self.current_version
    }
}

/// A CFM import hunk.
#[derive(Debug, Clone, Copy, PartialEq, Eq, Structural)]
pub struct ObjImportHunk {
    pub name_id: u32,
}

impl ObjImportHunk {
    pub fn name_id(&self) -> (r: u32)
        ensures
            r == self.name_id,
    {
        self.name_id
    }
}

/// A pointer-to-data hunk.
#[derive(Debug, Clone, Copy, PartialEq, Eq, Structural)]
pub struct DataPointerHunk {
    pub name_id: u32,
    pub data_name: u32,
}

impl DataPointerHunk {
    pub fn name_id(&self) -> (r: u32)
        ensures
            r == self.name_id,
    {
        self.name_id
    }

    pub fn data_name_id(&self) -> (r: u32)
        ensures
            r == self.data_name,
    {
        self.data_name
    }
}

/// A pointer-to-xvector hunk.
#[derive(Debug, Clone, Copy, PartialEq, Eq, Structural)]
pub struct XPointerHunk {
    pub name_id: u32,
    pub xvector_name: u32,
}

impl XPointerHunk {
    pub fn name_id(&self) -> (r: u32)
        ensures
            r == self.name_id,
    {
        self.name_id
    }

    pub fn xvector_name(&self) -> (r: u32)
        ensures
            r == self.xvector_name,
    {
        self.xvector_name
    }
}

/// An xvector hunk naming its function.
#[derive(Debug, Clone, Copy, PartialEq, Eq, Structural)]
pub struct XVectorHunk {
    pub name_id: u32,
    pub function_name: u32,
}

impl XVectorHunk {
    pub fn name_id(&self) -> (r: u32)
        ensures
            r == self.name_id,
    {
        self.name_id
    }

    pub fn function_name(&self) -> (r: u32)
        ensures
            r == self.function_name,
    {
        self.function_name
    }
}

/// A source-break hunk: a file name id and a Mac-epoch modification date.
#[derive(Debug, Clone, Copy, PartialEq, Eq, Structural)]
pub struct ObjSourceHunk {
    pub name_id: u32,
    pub moddate: u32,
}

impl ObjSourceHunk {
    pub fn name_id(&self) -> (r: u32)
        ensures
            r == self.name_id,
    {
        self.name_id
    }

    /// The modification date as seconds in the Mac epoch.
    pub fn moddate(&self) -> (r: u32)
        ensures
            r == self.moddate,
    {
        self.moddate
    }
}

/// A segment hunk.
#[derive(Debug, Clone, Copy, PartialEq, Eq, Structural)]
pub struct ObjSegHunk {
    pub name_id: u32,
}

impl ObjSegHunk {
    pub fn name_id(&self) -> (r: u32)
        ensures
            r == self.name_id,
    {
        self.name_id
    }
}

/// A method-reference hunk.
#[derive(Debug, Clone, Copy, PartialEq, Eq, Structural)]
pub struct ObjMethHunk {
    pub name_id: u32,
    pub size: u32,
}

impl ObjMethHunk {
    pub fn name_id(&self) -> (r: u32)
        ensures
            r == self.name_id,
    {
        self.name_id
    }

    pub fn size(&self) -> (r: u32)
        ensures
            r == self.size,
    {
        self.size
    }
}

/// One base-class pair of a method-class definition.
#[derive(Debug, Clone, Copy, PartialEq, Eq, Structural)]
pub struct ObjClassPair {
    pub base_id: u32,
    pub bias: u32,
}

impl ObjClassPair {
    pub fn base_id(&self) -> (r: u32)
        ensures
            r == self.base_id,
    {
        self.base_id
    }

    pub fn bias(&self) -> (r: u32)
        ensures
            r == self.bias,
    {
        self.bias
    }
}

/// A method-class definition hunk.
#[derive(Debug, Clone)]
pub struct ObjClassHunk {
    pub name_id: u32,
    pub methods: u16,
    pub pairs: Vec<ObjClassPair>,
}

/// The mathematical value of an [`ObjClassHunk`].
#[verifier::ext_equal]
pub ghost struct ObjClassHunkView {
    pub name_id: u32,
    pub methods: u16,
    pub pairs: Seq<ObjClassPair>,
}

impl View for ObjClassHunk {
    type V = ObjClassHunkView;

    open spec fn view(&self) -> ObjClassHunkView {
        ObjClassHunkView { name_id: self.name_id, methods: self.methods, pairs: self.pairs@ }
    }
}

impl ObjClassHunk {
    pub fn name_id(&self) -> (r: u32)
        ensures
            r == self.name_id,
    {
        self.name_id
    }

    pub fn methods(&self) -> (r: u16)
        ensures
            r == self.methods,
    {
        self.methods
    }

    pub fn pairs(&self) -> (r: &Vec<ObjClassPair>)
        ensures
            r@ == self@.pairs,
    {
        &self.pairs
    }
}

/// The tagged union over every hunk record kind.
#[derive(Debug, Clone)]
pub enum HunkType {
    Undefined,
    Start(ObjSimpleHunk),
    End(ObjSimpleHunk),
    LocalCode(ObjCodeHunk),
    GlobalCode(ObjCodeHunk),
    LocalUninitializedData(ObjDataHunk),
    GlobalUninitializedData(ObjDataHunk),
    LocalInitializedData(ObjDataHunk),
    GlobalInitializedData(ObjDataHunk),
    LocalFarUninitializedData(ObjDataHunk),
    GlobalFarUninitializedData(ObjDataHunk),
    LocalFarInitializedData(ObjDataHunk),
    GlobalFarInitializedData(ObjDataHunk),
    XRefCodeJT16Bit(ObjXRefHunk),
    XRefData16Bit(ObjXRefHunk),
    XRef32Bit(ObjXRefHunk),
    LibraryBreak(ReservedHunk),
    GlobalEntry(ObjEntryHunk),
    LocalEntry(ObjEntryHunk),
    Diff8Bit(ReservedHunk),
    Diff16Bit(ReservedHunk),
    Diff32Bit(ReservedHunk),
    Segment(ObjSegHunk),
    InitCode(ObjInitHunk),
    DeInitCode(ReservedHunk),
    GlobalMultiDef(ObjSimpleHunk),
    GlobalOverload(ObjSimpleHunk),
    XRefCode16Bit(ObjXRefHunk),
    XRefCode32Bit(ObjXRefHunk),
    ForceActive(ReservedHunk),
    GlobalDataPointer(DataPointerHunk),
    GlobalXPointer(XPointerHunk),
    GlobalXVector(XVectorHunk),
    XRefPCRelative32Bit(ObjXRefHunk),
    Illegal1(ReservedHunk),
    Illegal2(ReservedHunk),
    CFMExport(ObjSimpleHunk),
    CFMImport(ObjImportHunk),
    CFMImportContainer(ObjContainerHunk),
    SrcBreak(ObjSourceHunk),
    LocalDataPointer(DataPointerHunk),
    LocalXPointer(XPointerHunk),
    LocalXVector(XVectorHunk),
    ExceptionInfo(ObjExceptInfo),
    CFMInternal(ReservedHunk),
    MethodReference(ObjMethHunk),
    MethodClassDefinition(ObjClassHunk),
    XRefAmbiguous16Bit(ObjXRefHunk),
    WeakImportContainer(ObjContainerHunk),
}

/// The mathematical value of a [`HunkType`].
#[verifier::ext_equal]
pub ghost enum HunkTypeView {
    Undefined,
    Start,
    End,
    LocalCode(ObjCodeHunkView),
    GlobalCode(ObjCodeHunkView),
    LocalUninitializedData(ObjDataHunkView),
    GlobalUninitializedData(ObjDataHunkView),
    LocalInitializedData(ObjDataHunkView),
    GlobalInitializedData(ObjDataHunkView),
    LocalFarUninitializedData(ObjDataHunkView),
    GlobalFarUninitializedData(ObjDataHunkView),
    LocalFarInitializedData(ObjDataHunkView),
    GlobalFarInitializedData(ObjDataHunkView),
    XRefCodeJT16Bit(ObjXRefHunkView),
    XRefData16Bit(ObjXRefHunkView),
    XRef32Bit(ObjXRefHunkView),
    LibraryBreak,
    GlobalEntry(ObjEntryHunk),
    LocalEntry(ObjEntryHunk),
    Diff8Bit,
    Diff16Bit,
    Diff32Bit,
    Segment(ObjSegHunk),
    InitCode(ObjInitHunkView),
    DeInitCode,
    GlobalMultiDef,
    GlobalOverload,
    XRefCode16Bit(ObjXRefHunkView),
    XRefCode32Bit(ObjXRefHunkView),
    ForceActive,
    GlobalDataPointer(DataPointerHunk),
    GlobalXPointer(XPointerHunk),
    GlobalXVector(XVectorHunk),
    XRefPCRelative32Bit(ObjXRefHunkView),
    Illegal1,
    Illegal2,
    CFMExport,
    CFMImport(ObjImportHunk),
    CFMImportContainer(ObjContainerHunk),
    SrcBreak(ObjSourceHunk),
    LocalDataPointer(DataPointerHunk),
    LocalXPointer(XPointerHunk),
    LocalXVector(XVectorHunk),
    ExceptionInfo(ObjExceptInfoView),
    CFMInternal,
    MethodReference(ObjMethHunk),
    MethodClassDefinition(ObjClassHunkView),
    XRefAmbiguous16Bit(ObjXRefHunkView),
    WeakImportContainer(ObjContainerHunk),
}

impl View for HunkType {
    type V = HunkTypeView;

    open spec fn view(&self) -> HunkTypeView {
        match self {
            HunkType::Undefined => HunkTypeView::Undefined,
            HunkType::Start(_) => HunkTypeView::Start,
            HunkType::End(_) => HunkTypeView::End,
            HunkType::LocalCode(h) => HunkTypeView::LocalCode(h@),
            HunkType::GlobalCode(h) => HunkTypeView::GlobalCode(h@),
            HunkType::LocalUninitializedData(h) => HunkTypeView::LocalUninitializedData(h@),
            HunkType::GlobalUninitializedData(h) => HunkTypeView::GlobalUninitializedData(h@),
            HunkType::LocalInitializedData(h) => HunkTypeView::LocalInitializedData(h@),
            HunkType::GlobalInitializedData(h) => HunkTypeView::GlobalInitializedData(h@),
            HunkType::LocalFarUninitializedData(h) => HunkTypeView::LocalFarUninitializedData(h@),
            HunkType::GlobalFarUninitializedData(h) => HunkTypeView::GlobalFarUninitializedData(h@),
            HunkType::LocalFarInitializedData(h) => HunkTypeView::LocalFarInitializedData(h@),
            HunkType::GlobalFarInitializedData(h) => HunkTypeView::GlobalFarInitializedData(h@),
            HunkType::XRefCodeJT16Bit(h) => HunkTypeView::XRefCodeJT16Bit(h@),
            HunkType::XRefData16Bit(h) => HunkTypeView::XRefData16Bit(h@),
            HunkType::XRef32Bit(h) => HunkTypeView::XRef32Bit(h@),
            HunkType::LibraryBreak(_) => HunkTypeView::LibraryBreak,
            HunkType::GlobalEntry(h) => HunkTypeView::GlobalEntry(*h),
            HunkType::LocalEntry(h) => HunkTypeView::LocalEntry(*h),
            HunkType::Diff8Bit(_) => HunkTypeView::Diff8Bit,
            HunkType::Diff16Bit(_) => HunkTypeView::Diff16Bit,
            HunkType::Diff32Bit(_) => HunkTypeView::Diff32Bit,
            HunkType::Segment(h) => HunkTypeView::Segment(*h),
            HunkType::InitCode(h) => HunkTypeView::InitCode(h@),
            HunkType::DeInitCode(_) => HunkTypeView::DeInitCode,
            HunkType::GlobalMultiDef(_) => HunkTypeView::GlobalMultiDef,
            HunkType::GlobalOverload(_) => HunkTypeView::GlobalOverload,
            HunkType::XRefCode16Bit(h) => HunkTypeView::XRefCode16Bit(h@),
            HunkType::XRefCode32Bit(h) => HunkTypeView::XRefCode32Bit(h@),
            HunkType::ForceActive(_) => HunkTypeView::ForceActive,
            HunkType::GlobalDataPointer(h) => HunkTypeView::GlobalDataPointer(*h),
            HunkType::GlobalXPointer(h) => HunkTypeView::GlobalXPointer(*h),
            HunkType::GlobalXVector(h) => HunkTypeView::GlobalXVector(*h),
            HunkType::XRefPCRelative32Bit(h) => HunkTypeView::XRefPCRelative32Bit(h@),
            HunkType::Illegal1(_) => HunkTypeView::Illegal1,
            HunkType::Illegal2(_) => HunkTypeView::Illegal2,
            HunkType::CFMExport(_) => HunkTypeView::CFMExport,
            HunkType::CFMImport(h) => HunkTypeView::CFMImport(*h),
            HunkType::CFMImportContainer(h) => HunkTypeView::CFMImportContainer(*h),
            HunkType::SrcBreak(h) => HunkTypeView::SrcBreak(*h),
            HunkType::LocalDataPointer(h) => HunkTypeView::LocalDataPointer(*h),
            HunkType::LocalXPointer(h) => HunkTypeView::LocalXPointer(*h),
            HunkType::LocalXVector(h) => HunkTypeView::LocalXVector(*h),
            HunkType::ExceptionInfo(h) => HunkTypeView::ExceptionInfo(h@),
            HunkType::CFMInternal(_) => HunkTypeView::CFMInternal,
            HunkType::MethodReference(h) => HunkTypeView::MethodReference(*h),
            HunkType::MethodClassDefinition(h) => HunkTypeView::MethodClassDefinition(h@),
            HunkType::XRefAmbiguous16Bit(h) => HunkTypeView::XRefAmbiguous16Bit(h@),
            HunkType::WeakImportContainer(h) => HunkTypeView::WeakImportContainer(*h),
        }
    }
}

/// One record of the stream, as the stream stores it.
#[derive(Debug, Clone)]
pub struct Hunk {
    pub hunk: HunkType,
}

impl View for Hunk {
    type V = HunkTypeView;

    open spec fn view(&self) -> HunkTypeView {
        self.hunk@
    }
}

impl Hunk {
    pub fn new(hunk: HunkType) -> (r: Hunk)
        ensures
            r@ == hunk@,
    {
        Hunk { hunk }
    }

    pub fn hunk_type(&self) -> (r: &HunkType)
        ensures
            r@ == self@,
    {
        &self.hunk
    }
}

/// The code-size contribution of one hunk: the byte length of a code hunk,
/// zero for everything else.
pub open spec fn code_size_of(h: HunkTypeView) -> int {
    match h {
        HunkTypeView::LocalCode(c) => c.code.len() as int,
        HunkTypeView::GlobalCode(c) => c.code.len() as int,
        _ => 0,
    }
}

/// The uninitialized-data contribution of one hunk: the declared size of an
/// uninitialized data hunk, zero for everything else.
pub open spec fn udata_size_of(h: HunkTypeView) -> int {
    match h {
        HunkTypeView::LocalUninitializedData(d) => d.size as int,
        HunkTypeView::GlobalUninitializedData(d) => d.size as int,
        HunkTypeView::LocalFarUninitializedData(d) => d.size as int,
        HunkTypeView::GlobalFarUninitializedData(d) => d.size as int,
        _ => 0,
    }
}

/// The initialized-data contribution of one hunk: the byte length of an
/// initialized data hunk, zero for everything else.
pub open spec fn idata_size_of(h: HunkTypeView) -> int {
    match h {
        HunkTypeView::LocalInitializedData(d) => d.data.len() as int,
        HunkTypeView::GlobalInitializedData(d) => d.data.len() as int,
        HunkTypeView::LocalFarInitializedData(d) => d.data.len() as int,
        HunkTypeView::GlobalFarInitializedData(d) => d.data.len() as int,
        _ => 0,
    }
}

/// The summed code length of a hunk sequence.
pub open spec fn code_len_of(hs: Seq<HunkTypeView>) -> int
    decreases hs.len(),
{
    if hs.len() == 0 {
        0
    } else {
        code_len_of(hs.drop_last()) + code_size_of(hs.last())
    }
}

/// The summed uninitialized-data length of a hunk sequence.
pub open spec fn udata_len_of(hs: Seq<HunkTypeView>) -> int
    decreases hs.len(),
{
    if hs.len() == 0 {
        0
    } else {
        udata_len_of(hs.drop_last()) + udata_size_of(hs.last())
    }
}

/// The summed initialized-data length of a hunk sequence.
pub open spec fn idata_len_of(hs: Seq<HunkTypeView>) -> int
    decreases hs.len(),
{
    if hs.len() == 0 {
        0
    } else {
        idata_len_of(hs.drop_last()) + idata_size_of(hs.last())
    }
}

/// The special flag that a code hunk inherits when `h` is the record
/// committed just before it.
pub open spec fn context_of(h: HunkTypeView) -> ObjCodeFlag {
    match h {
        HunkTypeView::CFMExport => ObjCodeFlag::CFMExport,
        HunkTypeView::GlobalOverload => ObjCodeFlag::GlobalOverload,
        HunkTypeView::GlobalMultiDef => ObjCodeFlag::GlobalMultiDef,
        _ => ObjCodeFlag::NoFlag,
    }
}

/// The cross-reference pair list at `pos`: `k` eight-byte records.
pub open spec fn xref_pairs_at(s: Seq<u8>, pos: int, k: int) -> Result<
    (Seq<ObjXRefPair>, int),
    DecodeError,
>
    decreases k,
{
    if k <= 0 {
        Ok((Seq::empty(), pos))
    } else if pos + 8 <= s.len() {
        let m = ObjXRefPair { offset: be_u32_at(s, pos), value: be_u32_at(s, pos + 4) };
        match xref_pairs_at(s, pos + 8, k - 1) {
            Ok(q) => Ok((seq![m] + q.0, q.1)),
            Err(e) => Err(e),
        }
    } else {
        Err(truncated(8, pos, s.len() as int))
    }
}

/// The class pair list at `pos`: `k` eight-byte records.
pub open spec fn class_pairs_at(s: Seq<u8>, pos: int, k: int) -> Result<
    (Seq<ObjClassPair>, int),
    DecodeError,
>
    decreases k,
{
    if k <= 0 {
        Ok((Seq::empty(), pos))
    } else if pos + 8 <= s.len() {
        let m = ObjClassPair { base_id: be_u32_at(s, pos), bias: be_u32_at(s, pos + 4) };
        match class_pairs_at(s, pos + 8, k - 1) {
            Ok(q) => Ok((seq![m] + q.0, q.1)),
            Err(e) => Err(e),
        }
    } else {
        Err(truncated(8, pos, s.len() as int))
    }
}

/// Whether a data-hunk tag is one of the initialized variants.
pub open spec fn data_tag_initialized(tag: u16) -> bool {
    tag == 0x456D || tag == 0x456E || tag == 0x4571 || tag == 0x4572
}

/// The hunk variant a data-hunk tag selects.
pub open spec fn data_view_of(tag: u16, d: ObjDataHunkView) -> HunkTypeView {
    if tag == 0x456B {
        HunkTypeView::LocalUninitializedData(d)
    } else if tag == 0x456C {
        HunkTypeView::GlobalUninitializedData(d)
    } else if tag == 0x456D {
        HunkTypeView::LocalInitializedData(d)
    } else if tag == 0x456E {
        HunkTypeView::GlobalInitializedData(d)
    } else if tag == 0x456F {
        HunkTypeView::LocalFarUninitializedData(d)
    } else if tag == 0x4570 {
        HunkTypeView::GlobalFarUninitializedData(d)
    } else if tag == 0x4571 {
        HunkTypeView::LocalFarInitializedData(d)
    } else {
        HunkTypeView::GlobalFarInitializedData(d)
    }
}

/// The hunk variant a cross-reference tag selects.
pub open spec fn xref_view_of(tag: u16, x: ObjXRefHunkView) -> HunkTypeView {
    if tag == 0x4573 {
        HunkTypeView::XRefCodeJT16Bit(x)
    } else if tag == 0x4574 {
        HunkTypeView::XRefData16Bit(x)
    } else if tag == 0x4575 {
        HunkTypeView::XRef32Bit(x)
    } else if tag == 0x4585 {
        HunkTypeView::XRefCode16Bit(x)
    } else if tag == 0x4586 {
        HunkTypeView::XRefCode32Bit(x)
    } else if tag == 0x458B {
        HunkTypeView::XRefPCRelative32Bit(x)
    } else {
        HunkTypeView::XRefAmbiguous16Bit(x)
    }
}

/// A code hunk payload at `pos` (the tag already read): a sixteen-byte
/// header, then `size` code bytes. The special flag comes from `prev`.
pub open spec fn code_hunk_at(s: Seq<u8>, pos: int, global: bool, prev: ObjCodeFlag) -> Result<
    (HunkTypeView, int),
    DecodeError,
> {
    let len = s.len() as int;
    if pos + 16 > len {
        Err(truncated(16, pos, len))
    } else {
        let size = be_u32_at(s, pos + 4);
        let p = pos + 16;
        if p + size > len {
            Err(truncated(size as int, p, len))
        } else {
            let v = ObjCodeHunkView {
                name_id: be_u32_at(s, pos),
                sym_offset: be_u32_at(s, pos + 8),
                sym_decl_offset: be_u32_at(s, pos + 12),
                special_flag: prev,
                code: s.subrange(p, p + size),
            };
            if global {
                Ok((HunkTypeView::GlobalCode(v), p + size))
            } else {
                Ok((HunkTypeView::LocalCode(v), p + size))
            }
        }
    }
}

/// A data hunk payload at `pos`: a sixteen-byte header, then `size` data
/// bytes for the initialized variants and none for the uninitialized ones.
pub open spec fn data_hunk_at(s: Seq<u8>, pos: int, tag: u16) -> Result<
    (HunkTypeView, int),
    DecodeError,
> {
    let len = s.len() as int;
    if pos + 16 > len {
        Err(truncated(16, pos, len))
    } else {
        let size = be_u32_at(s, pos + 4);
        let p = pos + 16;
        if data_tag_initialized(tag) {
            if p + size > len {
                Err(truncated(size as int, p, len))
            } else {
                let d = ObjDataHunkView {
                    name_id: be_u32_at(s, pos),
                    size,
                    sym_offset: be_u32_at(s, pos + 8),
                    sym_decl_offset: be_u32_at(s, pos + 12),
                    data: s.subrange(p, p + size),
                };
                Ok((data_view_of(tag, d), p + size))
            }
        } else {
            let d = ObjDataHunkView {
                name_id: be_u32_at(s, pos),
                size,
                sym_offset: be_u32_at(s, pos + 8),
                sym_decl_offset: be_u32_at(s, pos + 12),
                data: Seq::empty(),
            };
            Ok((data_view_of(tag, d), p))
        }
    }
}

/// An initialization-code payload: a four-byte size, then that many bytes.
pub open spec fn init_hunk_at(s: Seq<u8>, pos: int) -> Result<(HunkTypeView, int), DecodeError> {
    let len = s.len() as int;
    if pos + 4 > len {
        Err(truncated(4, pos, len))
    } else {
        let size = be_u32_at(s, pos);
        let p = pos + 4;
        if p + size > len {
            Err(truncated(size as int, p, len))
        } else {
            Ok((HunkTypeView::InitCode(ObjInitHunkView { code: s.subrange(p, p + size) }), p + size))
        }
    }
}

/// An exception-information payload: a four-byte size, then that many bytes.
pub open spec fn except_hunk_at(s: Seq<u8>, pos: int) -> Result<(HunkTypeView, int), DecodeError> {
    let len = s.len() as int;
    if pos + 4 > len {
        Err(truncated(4, pos, len))
    } else {
        let size = be_u32_at(s, pos);
        let p = pos + 4;
        if p + size > len {
            Err(truncated(size as int, p, len))
        } else {
            Ok(
                (
                    HunkTypeView::ExceptionInfo(ObjExceptInfoView { info: s.subrange(p, p + size) }),
                    p + size,
                ),
            )
        }
    }
}

/// An entry payload: a name id and an offset.
pub open spec fn entry_hunk_at(s: Seq<u8>, pos: int, global: bool) -> Result<
    (HunkTypeView, int),
    DecodeError,
> {
    let len = s.len() as int;
    if pos + 8 > len {
        Err(truncated(8, pos, len))
    } else {
        let h = ObjEntryHunk { name_id: be_u32_at(s, pos), offset: be_u32_at(s, pos + 4) };
        if global {
            Ok((HunkTypeView::GlobalEntry(h), pos + 8))
        } else {
            Ok((HunkTypeView::LocalEntry(h), pos + 8))
        }
    }
}

/// A cross-reference payload: a name id, a pair count, then the pairs.
pub open spec fn xref_hunk_at(s: Seq<u8>, pos: int, tag: u16) -> Result<
    (HunkTypeView, int),
    DecodeError,
> {
    let len = s.len() as int;
    if pos + 6 > len {
        Err(truncated(6, pos, len))
    } else {
        let name_id = be_u32_at(s, pos);
        let n = be_u16_at(s, pos + 4);
        match xref_pairs_at(s, pos + 6, n as int) {
            Ok(q) => Ok((xref_view_of(tag, ObjXRefHunkView { name_id, pairs: q.0 }), q.1)),
            Err(e) => Err(e),
        }
    }
}

/// A CFM container payload: a name id and three version words.
pub open spec fn container_hunk_at(s: Seq<u8>, pos: int, weak: bool) -> Result<
    (HunkTypeView, int),
    DecodeError,
> {
    let len = s.len() as int;
    if pos + 16 > len {
        Err(truncated(16, pos, len))
    } else {
        let h = ObjContainerHunk {
            name_id: be_u32_at(s, pos),
            old_def_version: be_u32_at(s, pos + 4),
            old_imp_version: be_u32_at(s, pos + 8),
            current_version: be_u32_at(s, pos + 12),
        };
        if weak {
            Ok((HunkTypeView::WeakImportContainer(h), pos + 16))
        } else {
            Ok((HunkTypeView::CFMImportContainer(h), pos + 16))
        }
    }
}

/// A CFM import payload: a name id.
pub open spec fn import_hunk_at(s: Seq<u8>, pos: int) -> Result<(HunkTypeView, int), DecodeError> {
    let len = s.len() as int;
    if pos + 4 > len {
        Err(truncated(4, pos, len))
    } else {
        Ok((HunkTypeView::CFMImport(ObjImportHunk { name_id: be_u32_at(s, pos) }), pos + 4))
    }
}

/// A data-pointer payload: a name id and the pointed-to data name.
pub open spec fn datapointer_hunk_at(s: Seq<u8>, pos: int, global: bool) -> Result<
    (HunkTypeView, int),
    DecodeError,
> {
    let len = s.len() as int;
    if pos + 8 > len {
        Err(truncated(8, pos, len))
    } else {
        let h = DataPointerHunk { name_id: be_u32_at(s, pos), data_name: be_u32_at(s, pos + 4) };
        if global {
            Ok((HunkTypeView::GlobalDataPointer(h), pos + 8))
        } else {
            Ok((HunkTypeView::LocalDataPointer(h), pos + 8))
        }
    }
}

/// An x-pointer payload: a name id and the xvector name.
pub open spec fn xpointer_hunk_at(s: Seq<u8>, pos: int, global: bool) -> Result<
    (HunkTypeView, int),
    DecodeError,
> {
    let len = s.len() as int;
    if pos + 8 > len {
        Err(truncated(8, pos, len))
    } else {
        let h = XPointerHunk { name_id: be_u32_at(s, pos), xvector_name: be_u32_at(s, pos + 4) };
        if global {
            Ok((HunkTypeView::GlobalXPointer(h), pos + 8))
        } else {
            Ok((HunkTypeView::LocalXPointer(h), pos + 8))
        }
    }
}

/// An xvector payload: a name id and the function name.
pub open spec fn xvector_hunk_at(s: Seq<u8>, pos: int, global: bool) -> Result<
    (HunkTypeView, int),
    DecodeError,
> {
    let len = s.len() as int;
    if pos + 8 > len {
        Err(truncated(8, pos, len))
    } else {
        let h = XVectorHunk { name_id: be_u32_at(s, pos), function_name: be_u32_at(s, pos + 4) };
        if global {
            Ok((HunkTypeView::GlobalXVector(h), pos + 8))
        } else {
            Ok((HunkTypeView::LocalXVector(h), pos + 8))
        }
    }
}

/// A segment payload: a name id.
pub open spec fn segment_hunk_at(s: Seq<u8>, pos: int) -> Result<(HunkTypeView, int), DecodeError> {
    let len = s.len() as int;
    if pos + 4 > len {
        Err(truncated(4, pos, len))
    } else {
        Ok((HunkTypeView::Segment(ObjSegHunk { name_id: be_u32_at(s, pos) }), pos + 4))
    }
}

/// A method-reference payload: a name id and a size.
pub open spec fn meth_hunk_at(s: Seq<u8>, pos: int) -> Result<(HunkTypeView, int), DecodeError> {
    let len = s.len() as int;
    if pos + 8 > len {
        Err(truncated(8, pos, len))
    } else {
        Ok(
            (
                HunkTypeView::MethodReference(
                    ObjMethHunk { name_id: be_u32_at(s, pos), size: be_u32_at(s, pos + 4) },
                ),
                pos + 8,
            ),
        )
    }
}

/// A method-class definition payload: a name id, a method count, a pair
/// count, then the pairs.
pub open spec fn class_hunk_at(s: Seq<u8>, pos: int) -> Result<(HunkTypeView, int), DecodeError> {
    let len = s.len() as int;
    if pos + 8 > len {
        Err(truncated(8, pos, len))
    } else {
        let name_id = be_u32_at(s, pos);
        let methods = be_u16_at(s, pos + 4);
        let n = be_u16_at(s, pos + 6);
        match class_pairs_at(s, pos + 8, n as int) {
            Ok(q) => Ok(
                (
                    HunkTypeView::MethodClassDefinition(
                        ObjClassHunkView { name_id, methods, pairs: q.0 },
                    ),
                    q.1,
                ),
            ),
            Err(e) => Err(e),
        }
    }
}

/// One hunk at `pos`: the two-byte tag, then the payload that the tag
/// dictates. Reserved tags abort with `ReservedHunkEncountered`; unknown
/// tags with `BadHunkTag`.
pub open spec fn hunk_at(s: Seq<u8>, pos: int, prev: ObjCodeFlag) -> Result<
    (HunkTypeView, int),
    DecodeError,
> {
    let len = s.len() as int;
    if pos + 2 > len {
        Err(truncated(2, pos, len))
    } else {
        let tag = be_u16_at(s, pos);
        let p = pos + 2;
        if tag == 0x4567 {
            Ok((HunkTypeView::Start, p))
        } else if tag == 0x4568 {
            Ok((HunkTypeView::End, p))
        } else if tag == 0x4569 {
            code_hunk_at(s, p, false, prev)
        } else if tag == 0x456A {
            code_hunk_at(s, p, true, prev)
        } else if 0x456B <= tag && tag <= 0x4572 {
            data_hunk_at(s, p, tag)
        } else if tag == 0x4573 || tag == 0x4574 || tag == 0x4575 {
            xref_hunk_at(s, p, tag)
        } else if tag == 0x4576 {
            Err(DecodeError::ReservedHunkEncountered { kind: ReservedHunkKind::LibraryBreak })
        } else if tag == 0x4577 {
            entry_hunk_at(s, p, true)
        } else if tag == 0x4578 {
            entry_hunk_at(s, p, false)
        } else if tag == 0x4579 {
            Err(DecodeError::ReservedHunkEncountered { kind: ReservedHunkKind::DiffU8 })
        } else if tag == 0x457E {
            Err(DecodeError::ReservedHunkEncountered { kind: ReservedHunkKind::DiffU16 })
        } else if tag == 0x457F {
            Err(DecodeError::ReservedHunkEncountered { kind: ReservedHunkKind::DiffU32 })
        } else if tag == 0x4580 {
            segment_hunk_at(s, p)
        } else if tag == 0x4581 {
            init_hunk_at(s, p)
        } else if tag == 0x4582 {
            Err(DecodeError::ReservedHunkEncountered { kind: ReservedHunkKind::DeinitCode })
        } else if tag == 0x4583 {
            Ok((HunkTypeView::GlobalMultiDef, p))
        } else if tag == 0x4584 {
            Ok((HunkTypeView::GlobalOverload, p))
        } else if tag == 0x4585 || tag == 0x4586 {
            xref_hunk_at(s, p, tag)
        } else if tag == 0x4587 {
            Err(DecodeError::ReservedHunkEncountered { kind: ReservedHunkKind::ForceActive })
        } else if tag == 0x4588 {
            datapointer_hunk_at(s, p, true)
        } else if tag == 0x4589 {
            xpointer_hunk_at(s, p, true)
        } else if tag == 0x458A {
            xvector_hunk_at(s, p, true)
        } else if tag == 0x458B {
            xref_hunk_at(s, p, tag)
        } else if tag == 0x458C {
            Err(DecodeError::ReservedHunkEncountered { kind: ReservedHunkKind::Illegal1 })
        } else if tag == 0x458D {
            Err(DecodeError::ReservedHunkEncountered { kind: ReservedHunkKind::Illegal2 })
        } else if tag == 0x458E {
            Ok((HunkTypeView::CFMExport, p))
        } else if tag == 0x458F {
            import_hunk_at(s, p)
        } else if tag == 0x4590 {
            container_hunk_at(s, p, false)
        } else if tag == 0x4591 {
            datapointer_hunk_at(s, p, false)
        } else if tag == 0x4592 {
            xpointer_hunk_at(s, p, false)
        } else if tag == 0x4593 {
            xvector_hunk_at(s, p, false)
        } else if tag == 0x4594 {
            except_hunk_at(s, p)
        } else if tag == 0x4595 {
            Err(DecodeError::ReservedHunkEncountered { kind: ReservedHunkKind::CFMInternal })
        } else if tag == 0x4596 {
            meth_hunk_at(s, p)
        } else if tag == 0x4597 {
            class_hunk_at(s, p)
        } else if tag == 0x4598 {
            xref_hunk_at(s, p, tag)
        } else if tag == 0x4599 {
            container_hunk_at(s, p, true)
        } else {
            Err(DecodeError::BadHunkTag { got: tag })
        }
    }
}

/// The hunk stream from `pos` to the end of the buffer; `prev` is the flag
/// context carried in from the record committed just before `pos`.
pub open spec fn hunks_at(s: Seq<u8>, pos: int, prev: ObjCodeFlag) -> Result<
    (Seq<HunkTypeView>, int),
    DecodeError,
>
    decreases s.len() - pos,
{
    if pos == s.len() {
        Ok((Seq::empty(), pos))
    } else {
        match hunk_at(s, pos, prev) {
            Ok(p) => if pos < p.1 <= s.len() {
                match hunks_at(s, p.1, context_of(p.0)) {
                    Ok(q) => Ok((seq![p.0] + q.0, q.1)),
                    Err(e) => Err(e),
                }
            } else {
                // Every well-formed hunk advances the cursor; this branch is
                // never reached by the decoder.
                Err(truncated(0, pos, s.len() as int))
            },
            Err(e) => Err(e),
        }
    }
}

/// A whole hunk-stream buffer: records until the bytes run out exactly.
pub open spec fn hunks_parse(s: Seq<u8>) -> Result<Seq<HunkTypeView>, DecodeError> {
    match hunks_at(s, 0, ObjCodeFlag::NoFlag) {
        Ok(p) => Ok(p.0),
        Err(e) => Err(e),
    }
}

/// Decodes `n` cross-reference pairs, exactly as [`xref_pairs_at`] describes.
#[verifier::loop_isolation(false)]
fn decode_xref_pairs(s: &[u8], pos: &mut usize, n: u16) -> (r: Result<Vec<ObjXRefPair>, DecodeError>)
    requires
        *old(pos) <= s@.len(),
    ensures
        *old(pos) <= *final(pos) <= s@.len(),
        match r {
            Ok(v) => xref_pairs_at(s@, *old(pos) as int, n as int) == Ok::<
                _,
                DecodeError,
            >((v@, *final(pos) as int)),
            Err(e) => xref_pairs_at(s@, *old(pos) as int, n as int) == Err::<
                (Seq<ObjXRefPair>, int),
                _,
            >(e),
        },
{
    proof {
        vstd::slice::axiom_spec_len(s);
    }
    let ghost pos0: int = *pos as int;
    let mut out: Vec<ObjXRefPair> = Vec::new();
    let mut i: u16 = 0;
    while i < n
        invariant
            pos0 <= *pos <= s@.len(),
            i <= n,
            xref_pairs_at(s@, pos0, n as int) == (match xref_pairs_at(
                s@,
                *pos as int,
                n as int - i as int,
            ) {
                Ok(q) => Ok::<(Seq<ObjXRefPair>, int), DecodeError>((out@ + q.0, q.1)),
                Err(e) => Err::<(Seq<ObjXRefPair>, int), DecodeError>(e),
            }),
        decreases n as int - i as int,
    {
        let ghost pos_it: int = *pos as int;
        let ghost out_it: Seq<ObjXRefPair> = out@;
        let ghost k: int = n as int - i as int;
        if s.len() - *pos < 8 {
            let e = DecodeError::TruncatedInput { needed: 8, available: s.len() - *pos };
            proof {
                assert(xref_pairs_at(s@, pos_it, k) == Err::<(Seq<ObjXRefPair>, int), _>(e));
            }
            return Err(e);
        }
        let offset = take_be_u32(s, pos);
        let value = take_be_u32(s, pos);
        let m = ObjXRefPair { offset, value };
        out.push(m);
        i = i + 1;
        proof {
            assert(xref_pairs_at(s@, pos_it, k) == (match xref_pairs_at(s@, pos_it + 8, k - 1) {
                Ok(q) => Ok::<(Seq<ObjXRefPair>, int), DecodeError>((seq![m] + q.0, q.1)),
                Err(e) => Err::<(Seq<ObjXRefPair>, int), DecodeError>(e),
            }));
            match xref_pairs_at(s@, *pos as int, n as int - i as int) {
                Ok(q) => {
                    assert(out@ + q.0 =~= out_it + (seq![m] + q.0));
                },
                Err(_) => {},
            }
        }
    }
    proof {
        assert(out@ + Seq::<ObjXRefPair>::empty() =~= out@);
    }
    Ok(out)
}

/// Decodes `n` class pairs, exactly as [`class_pairs_at`] describes.
#[verifier::loop_isolation(false)]
fn decode_class_pairs(s: &[u8], pos: &mut usize, n: u16) -> (r: Result<
    Vec<ObjClassPair>,
    DecodeError,
>)
    requires
        *old(pos) <= s@.len(),
    ensures
        *old(pos) <= *final(pos) <= s@.len(),
        match r {
            Ok(v) => class_pairs_at(s@, *old(pos) as int, n as int) == Ok::<
                _,
                DecodeError,
            >((v@, *final(pos) as int)),
            Err(e) => class_pairs_at(s@, *old(pos) as int, n as int) == Err::<
                (Seq<ObjClassPair>, int),
                _,
            >(e),
        },
{
    proof {
        vstd::slice::axiom_spec_len(s);
    }
    let ghost pos0: int = *pos as int;
    let mut out: Vec<ObjClassPair> = Vec::new();
    let mut i: u16 = 0;
    while i < n
        invariant
            pos0 <= *pos <= s@.len(),
            i <= n,
            class_pairs_at(s@, pos0, n as int) == (match class_pairs_at(
                s@,
                *pos as int,
                n as int - i as int,
            ) {
                Ok(q) => Ok::<(Seq<ObjClassPair>, int), DecodeError>((out@ + q.0, q.1)),
                Err(e) => Err::<(Seq<ObjClassPair>, int), DecodeError>(e),
            }),
        decreases n as int - i as int,
    {
        let ghost pos_it: int = *pos as int;
        let ghost out_it: Seq<ObjClassPair> = out@;
        let ghost k: int = n as int - i as int;
        if s.len() - *pos < 8 {
            let e = DecodeError::TruncatedInput { needed: 8, available: s.len() - *pos };
            proof {
                assert(class_pairs_at(s@, pos_it, k) == Err::<(Seq<ObjClassPair>, int), _>(e));
            }
            return Err(e);
        }
        let base_id = take_be_u32(s, pos);
        let bias = take_be_u32(s, pos);
        let m = ObjClassPair { base_id, bias };
        out.push(m);
        i = i + 1;
        proof {
            assert(class_pairs_at(s@, pos_it, k) == (match class_pairs_at(s@, pos_it + 8, k - 1) {
                Ok(q) => Ok::<(Seq<ObjClassPair>, int), DecodeError>((seq![m] + q.0, q.1)),
                Err(e) => Err::<(Seq<ObjClassPair>, int), DecodeError>(e),
            }));
            match class_pairs_at(s@, *pos as int, n as int - i as int) {
                Ok(q) => {
                    assert(out@ + q.0 =~= out_it + (seq![m] + q.0));
                },
                Err(_) => {},
            }
        }
    }
    proof {
        assert(out@ + Seq::<ObjClassPair>::empty() =~= out@);
    }
    Ok(out)
}

/// Decodes the sixteen-byte name/size/symbol header shared by code and data
/// hunks.
fn take_code_header(s: &[u8], pos: &mut usize) -> (r: (u32, u32, u32, u32))
    requires
        *old(pos) + 16 <= s@.len(),
    ensures
        *final(pos) == *old(pos) + 16,
        r.0 == be_u32_at(s@, *old(pos) as int),
        r.1 == be_u32_at(s@, *old(pos) + 4),
        r.2 == be_u32_at(s@, *old(pos) + 8),
        r.3 == be_u32_at(s@, *old(pos) + 12),
{
    let name_id = take_be_u32(s, pos);
    let size = take_be_u32(s, pos);
    let sym_offset = take_be_u32(s, pos);
    let sym_decl_offset = take_be_u32(s, pos);
    (name_id, size, sym_offset, sym_decl_offset)
}

/// Decodes one hunk at the cursor, exactly as [`hunk_at`] describes; the
/// cursor always advances by at least the tag on success.
#[verifier::rlimit(100)]
fn decode_hunk(s: &[u8], pos: &mut usize, prev: ObjCodeFlag) -> (r: Result<Hunk, DecodeError>)
    requires
        *old(pos) <= s@.len(),
    ensures
        *final(pos) <= s@.len(),
        match r {
            Ok(h) => hunk_at(s@, *old(pos) as int, prev) == Ok::<
                _,
                DecodeError,
            >((h@, *final(pos) as int)) && *old(pos) + 2 <= *final(pos) && code_size_of(h@)
                <= 0xFFFFFFFF && udata_size_of(h@) <= 0xFFFFFFFF && idata_size_of(h@) <= 0xFFFFFFFF,
            Err(e) => hunk_at(s@, *old(pos) as int, prev) == Err::<(HunkTypeView, int), _>(e),
        },
{
    proof {
        vstd::slice::axiom_spec_len(s);
    }
    if s.len() - *pos < 2 {
        return Err(DecodeError::TruncatedInput { needed: 2, available: s.len() - *pos });
    }
    let tag = take_be_u16(s, pos);
    if tag == 0x4567 {
        Ok(Hunk { hunk: HunkType::Start(ObjSimpleHunk {}) })
    } else if tag == 0x4568 {
        Ok(Hunk { hunk: HunkType::End(ObjSimpleHunk {}) })
    } else if tag == 0x4569 || tag == 0x456A {
        if s.len() - *pos < 16 {
            return Err(DecodeError::TruncatedInput { needed: 16, available: s.len() - *pos });
        }
        let (name_id, size, sym_offset, sym_decl_offset) = take_code_header(s, pos);
        let size_us = size as usize;
        if s.len() - *pos < size_us {
            return Err(DecodeError::TruncatedInput { needed: size_us, available: s.len() - *pos });
        }
        let code = take_bytes(s, pos, size_us);
        let h = ObjCodeHunk { name_id, sym_offset, sym_decl_offset, special_flag: prev, code };
        if tag == 0x4569 {
            Ok(Hunk { hunk: HunkType::LocalCode(h) })
        } else {
            Ok(Hunk { hunk: HunkType::GlobalCode(h) })
        }
    } else if 0x456B <= tag && tag <= 0x4572 {
        if s.len() - *pos < 16 {
            return Err(DecodeError::TruncatedInput { needed: 16, available: s.len() - *pos });
        }
        let (name_id, size, sym_offset, sym_decl_offset) = take_code_header(s, pos);
        let initialized = tag == 0x456D || tag == 0x456E || tag == 0x4571 || tag == 0x4572;
        let data = if initialized {
            let size_us = size as usize;
            if s.len() - *pos < size_us {
                return Err(
                    DecodeError::TruncatedInput { needed: size_us, available: s.len() - *pos },
                );
            }
            take_bytes(s, pos, size_us)
        } else {
            Vec::new()
        };
        proof {
            if !(tag == 0x456D || tag == 0x456E || tag == 0x4571 || tag == 0x4572) {
                assert(data@ =~= Seq::<u8>::empty());
            }
        }
        let h = ObjDataHunk { name_id, size, sym_offset, sym_decl_offset, data };
        if tag == 0x456B {
            Ok(Hunk { hunk: HunkType::LocalUninitializedData(h) })
        } else if tag == 0x456C {
            Ok(Hunk { hunk: HunkType::GlobalUninitializedData(h) })
        } else if tag == 0x456D {
            Ok(Hunk { hunk: HunkType::LocalInitializedData(h) })
        } else if tag == 0x456E {
            Ok(Hunk { hunk: HunkType::GlobalInitializedData(h) })
        } else if tag == 0x456F {
            Ok(Hunk { hunk: HunkType::LocalFarUninitializedData(h) })
        } else if tag == 0x4570 {
            Ok(Hunk { hunk: HunkType::GlobalFarUninitializedData(h) })
        } else if tag == 0x4571 {
            Ok(Hunk { hunk: HunkType::LocalFarInitializedData(h) })
        } else {
            Ok(Hunk { hunk: HunkType::GlobalFarInitializedData(h) })
        }
    } else if tag == 0x4573 || tag == 0x4574 || tag == 0x4575 || tag == 0x4585 || tag == 0x4586
        || tag == 0x458B || tag == 0x4598 {
        if s.len() - *pos < 6 {
            return Err(DecodeError::TruncatedInput { needed: 6, available: s.len() - *pos });
        }
        let name_id = take_be_u32(s, pos);
        let n = take_be_u16(s, pos);
        let pairs = match decode_xref_pairs(s, pos, n) {
            Ok(v) => v,
            Err(e) => {
                return Err(e);
            },
        };
        let h = ObjXRefHunk { name_id, pairs };
        if tag == 0x4573 {
            Ok(Hunk { hunk: HunkType::XRefCodeJT16Bit(h) })
        } else if tag == 0x4574 {
            Ok(Hunk { hunk: HunkType::XRefData16Bit(h) })
        } else if tag == 0x4575 {
            Ok(Hunk { hunk: HunkType::XRef32Bit(h) })
        } else if tag == 0x4585 {
            Ok(Hunk { hunk: HunkType::XRefCode16Bit(h) })
        } else if tag == 0x4586 {
            Ok(Hunk { hunk: HunkType::XRefCode32Bit(h) })
        } else if tag == 0x458B {
            Ok(Hunk { hunk: HunkType::XRefPCRelative32Bit(h) })
        } else {
            Ok(Hunk { hunk: HunkType::XRefAmbiguous16Bit(h) })
        }
    } else if tag == 0x4576 {
        Err(DecodeError::ReservedHunkEncountered { kind: ReservedHunkKind::LibraryBreak })
    } else if tag == 0x4577 || tag == 0x4578 {
        if s.len() - *pos < 8 {
            return Err(DecodeError::TruncatedInput { needed: 8, available: s.len() - *pos });
        }
        let name_id = take_be_u32(s, pos);
        let offset = take_be_u32(s, pos);
        let h = ObjEntryHunk { name_id, offset };
        if tag == 0x4577 {
            Ok(Hunk { hunk: HunkType::GlobalEntry(h) })
        } else {
            Ok(Hunk { hunk: HunkType::LocalEntry(h) })
        }
    } else if tag == 0x4579 {
        Err(DecodeError::ReservedHunkEncountered { kind: ReservedHunkKind::DiffU8 })
    } else if tag == 0x457E {
        Err(DecodeError::ReservedHunkEncountered { kind: ReservedHunkKind::DiffU16 })
    } else if tag == 0x457F {
        Err(DecodeError::ReservedHunkEncountered { kind: ReservedHunkKind::DiffU32 })
    } else if tag == 0x4580 {
        if s.len() - *pos < 4 {
            return Err(DecodeError::TruncatedInput { needed: 4, available: s.len() - *pos });
        }
        let name_id = take_be_u32(s, pos);
        Ok(Hunk { hunk: HunkType::Segment(ObjSegHunk { name_id }) })
    } else if tag == 0x4581 {
        if s.len() - *pos < 4 {
            return Err(DecodeError::TruncatedInput { needed: 4, available: s.len() - *pos });
        }
        let size = take_be_u32(s, pos);
        let size_us = size as usize;
        if s.len() - *pos < size_us {
            return Err(DecodeError::TruncatedInput { needed: size_us, available: s.len() - *pos });
        }
        let code = take_bytes(s, pos, size_us);
        Ok(Hunk { hunk: HunkType::InitCode(ObjInitHunk { code }) })
    } else if tag == 0x4582 {
        Err(DecodeError::ReservedHunkEncountered { kind: ReservedHunkKind::DeinitCode })
    } else if tag == 0x4583 {
        Ok(Hunk { hunk: HunkType::GlobalMultiDef(ObjSimpleHunk {}) })
    } else if tag == 0x4584 {
        Ok(Hunk { hunk: HunkType::GlobalOverload(ObjSimpleHunk {}) })
    } else if tag == 0x4587 {
        Err(DecodeError::ReservedHunkEncountered { kind: ReservedHunkKind::ForceActive })
    } else if tag == 0x4588 || tag == 0x4591 {
        if s.len() - *pos < 8 {
            return Err(DecodeError::TruncatedInput { needed: 8, available: s.len() - *pos });
        }
        let name_id = take_be_u32(s, pos);
        let data_name = take_be_u32(s, pos);
        let h = DataPointerHunk { name_id, data_name };
        if tag == 0x4588 {
            Ok(Hunk { hunk: HunkType::GlobalDataPointer(h) })
        } else {
            Ok(Hunk { hunk: HunkType::LocalDataPointer(h) })
        }
    } else if tag == 0x4589 || tag == 0x4592 {
        if s.len() - *pos < 8 {
            return Err(DecodeError::TruncatedInput { needed: 8, available: s.len() - *pos });
        }
        let name_id = take_be_u32(s, pos);
        let xvector_name = take_be_u32(s, pos);
        let h = XPointerHunk { name_id, xvector_name };
        if tag == 0x4589 {
            Ok(Hunk { hunk: HunkType::GlobalXPointer(h) })
        } else {
            Ok(Hunk { hunk: HunkType::LocalXPointer(h) })
        }
    } else if tag == 0x458A || tag == 0x4593 {
        if s.len() - *pos < 8 {
            return Err(DecodeError::TruncatedInput { needed: 8, available: s.len() - *pos });
        }
        let name_id = take_be_u32(s, pos);
        let function_name = take_be_u32(s, pos);
        let h = XVectorHunk { name_id, function_name };
        if tag == 0x458A {
            Ok(Hunk { hunk: HunkType::GlobalXVector(h) })
        } else {
            Ok(Hunk { hunk: HunkType::LocalXVector(h) })
        }
    } else if tag == 0x458C {
        Err(DecodeError::ReservedHunkEncountered { kind: ReservedHunkKind::Illegal1 })
    } else if tag == 0x458D {
        Err(DecodeError::ReservedHunkEncountered { kind: ReservedHunkKind::Illegal2 })
    } else if tag == 0x458E {
        Ok(Hunk { hunk: HunkType::CFMExport(ObjSimpleHunk {}) })
    } else if tag == 0x458F {
        if s.len() - *pos < 4 {
            return Err(DecodeError::TruncatedInput { needed: 4, available: s.len() - *pos });
        }
        let name_id = take_be_u32(s, pos);
        Ok(Hunk { hunk: HunkType::CFMImport(ObjImportHunk { name_id }) })
    } else if tag == 0x4590 || tag == 0x4599 {
        if s.len() - *pos < 16 {
            return Err(DecodeError::TruncatedInput { needed: 16, available: s.len() - *pos });
        }
        let name_id = take_be_u32(s, pos);
        let old_def_version = take_be_u32(s, pos);
        let old_imp_version = take_be_u32(s, pos);
        let current_version = take_be_u32(s, pos);
        let h = ObjContainerHunk { name_id, old_def_version, old_imp_version, current_version };
        if tag == 0x4590 {
            Ok(Hunk { hunk: HunkType::CFMImportContainer(h) })
        } else {
            Ok(Hunk { hunk: HunkType::WeakImportContainer(h) })
        }
    } else if tag == 0x4594 {
        if s.len() - *pos < 4 {
            return Err(DecodeError::TruncatedInput { needed: 4, available: s.len() - *pos });
        }
        let size = take_be_u32(s, pos);
        let size_us = size as usize;
        if s.len() - *pos < size_us {
            return Err(DecodeError::TruncatedInput { needed: size_us, available: s.len() - *pos });
        }
        let info = take_bytes(s, pos, size_us);
        Ok(Hunk { hunk: HunkType::ExceptionInfo(ObjExceptInfo { info }) })
    } else if tag == 0x4595 {
        Err(DecodeError::ReservedHunkEncountered { kind: ReservedHunkKind::CFMInternal })
    } else if tag == 0x4596 {
        if s.len() - *pos < 8 {
            return Err(DecodeError::TruncatedInput { needed: 8, available: s.len() - *pos });
        }
        let name_id = take_be_u32(s, pos);
        let size = take_be_u32(s, pos);
        Ok(Hunk { hunk: HunkType::MethodReference(ObjMethHunk { name_id, size }) })
    } else if tag == 0x4597 {
        if s.len() - *pos < 8 {
            return Err(DecodeError::TruncatedInput { needed: 8, available: s.len() - *pos });
        }
        let name_id = take_be_u32(s, pos);
        let methods = take_be_u16(s, pos);
        let n = take_be_u16(s, pos);
        let pairs = match decode_class_pairs(s, pos, n) {
            Ok(v) => v,
            Err(e) => {
                return Err(e);
            },
        };
        Ok(Hunk { hunk: HunkType::MethodClassDefinition(ObjClassHunk { name_id, methods, pairs }) })
    } else {
        Err(DecodeError::BadHunkTag { got: tag })
    }
}

/// The flag context that `h` leaves for the next record.
fn next_flag(h: &Hunk) -> (r: ObjCodeFlag)
    ensures
        r == context_of(h@),
{
    match &h.hunk {
        HunkType::CFMExport(_) => ObjCodeFlag::CFMExport,
        HunkType::GlobalOverload(_) => ObjCodeFlag::GlobalOverload,
        HunkType::GlobalMultiDef(_) => ObjCodeFlag::GlobalMultiDef,
        _ => ObjCodeFlag::NoFlag,
    }
}

/// The code-size contribution of one stored hunk.
fn code_size_exec(h: &Hunk) -> (r: usize)
    ensures
        r == code_size_of(h@),
{
    match &h.hunk {
        HunkType::LocalCode(c) => c.code.len(),
        HunkType::GlobalCode(c) => c.code.len(),
        _ => 0,
    }
}

/// The uninitialized-data contribution of one stored hunk.
fn udata_size_exec(h: &Hunk) -> (r: usize)
    ensures
        r == udata_size_of(h@),
{
    match &h.hunk {
        HunkType::LocalUninitializedData(d) => d.size as usize,
        HunkType::GlobalUninitializedData(d) => d.size as usize,
        HunkType::LocalFarUninitializedData(d) => d.size as usize,
        HunkType::GlobalFarUninitializedData(d) => d.size as usize,
        _ => 0,
    }
}

/// The initialized-data contribution of one stored hunk.
fn idata_size_exec(h: &Hunk) -> (r: usize)
    ensures
        r == idata_size_of(h@),
{
    match &h.hunk {
        HunkType::LocalInitializedData(d) => d.data.len(),
        HunkType::GlobalInitializedData(d) => d.data.len(),
        HunkType::LocalFarInitializedData(d) => d.data.len(),
        HunkType::GlobalFarInitializedData(d) => d.data.len(),
        _ => 0,
    }
}

/// The ordered hunk stream of one object.
#[derive(Debug, Clone)]
pub struct CodeHunks {
    pub hunks: Vec<Hunk>,
}

impl View for CodeHunks {
    type V = Seq<HunkTypeView>;

    open spec fn view(&self) -> Seq<HunkTypeView> {
        self.hunks@.map_values(|h: Hunk| h@)
    }
}

/// Decodes a whole hunk stream and totals its code, uninitialized-data and
/// initialized-data sizes along the way, exactly as [`hunks_parse`] and the
/// summed length functions describe.
#[verifier::loop_isolation(false)]
pub(crate) fn decode_hunk_stream(s: &[u8]) -> (r: Result<(CodeHunks, u64, u64, u64), DecodeError>)
    requires
        s@.len() <= 0xFFFFFFFF,
    ensures
        match r {
            Ok(p) => hunks_parse(s@) == Ok::<_, DecodeError>(p.0@) && p.1 == code_len_of(p.0@)
                && p.2 == udata_len_of(p.0@) && p.3 == idata_len_of(p.0@),
            Err(e) => hunks_parse(s@) == Err::<Seq<HunkTypeView>, _>(e),
        },
{
    proof {
        vstd::slice::axiom_spec_len(s);
    }
    let mut pos: usize = 0;
    let mut out: Vec<Hunk> = Vec::new();
    let mut prev: ObjCodeFlag = ObjCodeFlag::NoFlag;
    let mut code_c: u64 = 0;
    let mut udata_c: u64 = 0;
    let mut idata_c: u64 = 0;
    proof {
        match hunks_at(s@, 0, ObjCodeFlag::NoFlag) {
            Ok(q) => {
                assert(out@.map_values(|h: Hunk| h@) + q.0 =~= q.0);
            },
            Err(_) => {},
        }
    }
    while pos < s.len()
        invariant
            pos <= s@.len() <= 0xFFFFFFFF,
            2 * out@.len() <= pos as int,
            code_c <= out@.len() * 0xFFFFFFFF,
            udata_c <= out@.len() * 0xFFFFFFFF,
            idata_c <= out@.len() * 0xFFFFFFFF,
            code_c == code_len_of(out@.map_values(|h: Hunk| h@)),
            udata_c == udata_len_of(out@.map_values(|h: Hunk| h@)),
            idata_c == idata_len_of(out@.map_values(|h: Hunk| h@)),
            hunks_at(s@, 0, ObjCodeFlag::NoFlag) == (match hunks_at(s@, pos as int, prev) {
                Ok(q) => Ok::<(Seq<HunkTypeView>, int), DecodeError>((out@.map_values(
                    |h: Hunk| h@,
                ) + q.0, q.1)),
                Err(e) => Err::<(Seq<HunkTypeView>, int), DecodeError>(e),
            }),
        decreases s@.len() - pos as int,
    {
        let ghost pos_it: int = pos as int;
        let ghost prev_it: ObjCodeFlag = prev;
        let ghost out_it: Seq<HunkTypeView> = out@.map_values(|h: Hunk| h@);
        match decode_hunk(s, &mut pos, prev) {
            Ok(h) => {
                let dc = code_size_exec(&h);
                let du = udata_size_exec(&h);
                let di = idata_size_exec(&h);
                code_c = code_c + dc as u64;
                udata_c = udata_c + du as u64;
                idata_c = idata_c + di as u64;
                prev = next_flag(&h);
                out.push(h);
                proof {
                    assert(hunks_at(s@, pos_it, prev_it) == (match hunks_at(
                        s@,
                        pos as int,
                        prev,
                    ) {
                        Ok(q) => Ok::<(Seq<HunkTypeView>, int), DecodeError>((seq![h@] + q.0, q.1)),
                        Err(e) => Err::<(Seq<HunkTypeView>, int), DecodeError>(e),
                    }));
                    let nv = out@.map_values(|hh: Hunk| hh@);
                    assert(nv =~= out_it.push(h@));
                    assert(nv.drop_last() =~= out_it);
                    match hunks_at(s@, pos as int, prev) {
                        Ok(q) => {
                            assert(nv + q.0 =~= out_it + (seq![h@] + q.0));
                        },
                        Err(_) => {},
                    }
                }
            },
            Err(e) => {
                proof {
                    assert(hunks_at(s@, pos_it, prev_it) == Err::<
                        (Seq<HunkTypeView>, int),
                        DecodeError,
                    >(e));
                }
                return Err(e);
            },
        }
    }
    proof {
        assert(out@.map_values(|h: Hunk| h@) + Seq::<HunkTypeView>::empty() =~= out@.map_values(
            |h: Hunk| h@,
        ));
    }
    Ok((CodeHunks { hunks: out }, code_c, udata_c, idata_c))
}

/// Decodes a whole hunk-stream buffer, exactly as [`hunks_parse`] describes:
/// a slice ending exactly after a committed record decodes cleanly, and an
/// incomplete tail is reported as truncated input.
pub fn decode_hunks(s: &[u8]) -> (r: Result<CodeHunks, DecodeError>)
    requires
        s@.len() <= 0xFFFFFFFF,
    ensures
        match r {
            Ok(ch) => hunks_parse(s@) == Ok::<_, DecodeError>(ch@),
            Err(e) => hunks_parse(s@) == Err::<Seq<HunkTypeView>, _>(e),
        },
{
    match decode_hunk_stream(s) {
        Ok(p) => Ok(p.0),
        Err(e) => Err(e),
    }
}

/// A decoded hunk stream consumes its buffer exactly: parsing ends
/// precisely at the end of the supplied slice.
pub proof fn lemma_hunks_consume_all(s: Seq<u8>, pos: int, prev: ObjCodeFlag)
    ensures
        match hunks_at(s, pos, prev) {
            Ok(p) => p.1 == s.len(),
            Err(_) => true,
        },
    decreases s.len() - pos,
{
    if pos != s.len() {
        match hunk_at(s, pos, prev) {
            Ok(p) => {
                if pos < p.1 <= s.len() {
                    lemma_hunks_consume_all(s, p.1, context_of(p.0));
                }
            },
            Err(_) => {},
        }
    }
}

/// The on-disk size of one hunk record, its two-byte tag included.
pub open spec fn hunk_raw_size(h: HunkTypeView) -> int {
    match h {
        HunkTypeView::Undefined => 2,
        HunkTypeView::Start => 2,
        HunkTypeView::End => 2,
        HunkTypeView::LocalCode(c) => 18 + c.code.len() as int,
        HunkTypeView::GlobalCode(c) => 18 + c.code.len() as int,
        HunkTypeView::LocalUninitializedData(d) => 18 + d.data.len() as int,
        HunkTypeView::GlobalUninitializedData(d) => 18 + d.data.len() as int,
        HunkTypeView::LocalInitializedData(d) => 18 + d.data.len() as int,
        HunkTypeView::GlobalInitializedData(d) => 18 + d.data.len() as int,
        HunkTypeView::LocalFarUninitializedData(d) => 18 + d.data.len() as int,
        HunkTypeView::GlobalFarUninitializedData(d) => 18 + d.data.len() as int,
        HunkTypeView::LocalFarInitializedData(d) => 18 + d.data.len() as int,
        HunkTypeView::GlobalFarInitializedData(d) => 18 + d.data.len() as int,
        HunkTypeView::XRefCodeJT16Bit(x) => 8 + 8 * x.pairs.len() as int,
        HunkTypeView::XRefData16Bit(x) => 8 + 8 * x.pairs.len() as int,
        HunkTypeView::XRef32Bit(x) => 8 + 8 * x.pairs.len() as int,
        HunkTypeView::LibraryBreak => 2,
        HunkTypeView::GlobalEntry(_) => 10,
        HunkTypeView::LocalEntry(_) => 10,
        HunkTypeView::Diff8Bit => 2,
        HunkTypeView::Diff16Bit => 2,
        HunkTypeView::Diff32Bit => 2,
        HunkTypeView::Segment(_) => 6,
        HunkTypeView::InitCode(c) => 6 + c.code.len() as int,
        HunkTypeView::DeInitCode => 2,
        HunkTypeView::GlobalMultiDef => 2,
        HunkTypeView::GlobalOverload => 2,
        HunkTypeView::XRefCode16Bit(x) => 8 + 8 * x.pairs.len() as int,
        HunkTypeView::XRefCode32Bit(x) => 8 + 8 * x.pairs.len() as int,
        HunkTypeView::ForceActive => 2,
        HunkTypeView::GlobalDataPointer(_) => 10,
        HunkTypeView::GlobalXPointer(_) => 10,
        HunkTypeView::GlobalXVector(_) => 10,
        HunkTypeView::XRefPCRelative32Bit(x) => 8 + 8 * x.pairs.len() as int,
        HunkTypeView::Illegal1 => 2,
        HunkTypeView::Illegal2 => 2,
        HunkTypeView::CFMExport => 2,
        HunkTypeView::CFMImport(_) => 6,
        HunkTypeView::CFMImportContainer(_) => 18,
        HunkTypeView::SrcBreak(_) => 10,
        HunkTypeView::LocalDataPointer(_) => 10,
        HunkTypeView::LocalXPointer(_) => 10,
        HunkTypeView::LocalXVector(_) => 10,
        HunkTypeView::ExceptionInfo(e) => 6 + e.info.len() as int,
        HunkTypeView::CFMInternal => 2,
        HunkTypeView::MethodReference(_) => 10,
        HunkTypeView::MethodClassDefinition(c) => 10 + 8 * c.pairs.len() as int,
        HunkTypeView::XRefAmbiguous16Bit(x) => 8 + 8 * x.pairs.len() as int,
        HunkTypeView::WeakImportContainer(_) => 18,
    }
}

/// The summed on-disk size of a hunk sequence.
pub open spec fn hunks_raw_length_of(hs: Seq<HunkTypeView>) -> int
    decreases hs.len(),
{
    if hs.len() == 0 {
        0
    } else {
        hunks_raw_length_of(hs.drop_last()) + hunk_raw_size(hs.last())
    }
}

/// The on-disk size of one stored hunk, computed without overflow.
fn hunk_raw_size_exec(h: &Hunk) -> (r: u128)
    ensures
        r == hunk_raw_size(h@),
{
    match &h.hunk {
        HunkType::Undefined => 2,
        HunkType::Start(_) => 2,
        HunkType::End(_) => 2,
        HunkType::LocalCode(c) => 18 + c.code.len() as u128,
        HunkType::GlobalCode(c) => 18 + c.code.len() as u128,
        HunkType::LocalUninitializedData(d) => 18 + d.data.len() as u128,
        HunkType::GlobalUninitializedData(d) => 18 + d.data.len() as u128,
        HunkType::LocalInitializedData(d) => 18 + d.data.len() as u128,
        HunkType::GlobalInitializedData(d) => 18 + d.data.len() as u128,
        HunkType::LocalFarUninitializedData(d) => 18 + d.data.len() as u128,
        HunkType::GlobalFarUninitializedData(d) => 18 + d.data.len() as u128,
        HunkType::LocalFarInitializedData(d) => 18 + d.data.len() as u128,
        HunkType::GlobalFarInitializedData(d) => 18 + d.data.len() as u128,
        HunkType::XRefCodeJT16Bit(x) => 8 + 8 * x.pairs.len() as u128,
        HunkType::XRefData16Bit(x) => 8 + 8 * x.pairs.len() as u128,
        HunkType::XRef32Bit(x) => 8 + 8 * x.pairs.len() as u128,
        HunkType::LibraryBreak(_) => 2,
        HunkType::GlobalEntry(_) => 10,
        HunkType::LocalEntry(_) => 10,
        HunkType::Diff8Bit(_) => 2,
        HunkType::Diff16Bit(_) => 2,
        HunkType::Diff32Bit(_) => 2,
        HunkType::Segment(_) => 6,
        HunkType::InitCode(c) => 6 + c.code.len() as u128,
        HunkType::DeInitCode(_) => 2,
        HunkType::GlobalMultiDef(_) => 2,
        HunkType::GlobalOverload(_) => 2,
        HunkType::XRefCode16Bit(x) => 8 + 8 * x.pairs.len() as u128,
        HunkType::XRefCode32Bit(x) => 8 + 8 * x.pairs.len() as u128,
        HunkType::ForceActive(_) => 2,
        HunkType::GlobalDataPointer(_) => 10,
        HunkType::GlobalXPointer(_) => 10,
        HunkType::GlobalXVector(_) => 10,
        HunkType::XRefPCRelative32Bit(x) => 8 + 8 * x.pairs.len() as u128,
        HunkType::Illegal1(_) => 2,
        HunkType::Illegal2(_) => 2,
        HunkType::CFMExport(_) => 2,
        HunkType::CFMImport(_) => 6,
        HunkType::CFMImportContainer(_) => 18,
        HunkType::SrcBreak(_) => 10,
        HunkType::LocalDataPointer(_) => 10,
        HunkType::LocalXPointer(_) => 10,
        HunkType::LocalXVector(_) => 10,
        HunkType::ExceptionInfo(e) => 6 + e.info.len() as u128,
        HunkType::CFMInternal(_) => 2,
        HunkType::MethodReference(_) => 10,
        HunkType::MethodClassDefinition(c) => 10 + 8 * c.pairs.len() as u128,
        HunkType::XRefAmbiguous16Bit(x) => 8 + 8 * x.pairs.len() as u128,
        HunkType::WeakImportContainer(_) => 18,
    }
}

/// A prefix never sums to more than the whole sequence.
proof fn lemma_raw_len_take_le(hs: Seq<HunkTypeView>, i: int)
    requires
        0 <= i <= hs.len(),
    ensures
        hunks_raw_length_of(hs.take(i)) <= hunks_raw_length_of(hs),
    decreases hs.len() - i,
{
    if i == hs.len() {
        assert(hs.take(i) =~= hs);
    } else {
        lemma_raw_len_take_le(hs, i + 1);
        assert(hs.take(i + 1).drop_last() =~= hs.take(i));
    }
}

/// A prefix never sums to more than the whole sequence.
proof fn lemma_code_len_take_le(hs: Seq<HunkTypeView>, i: int)
    requires
        0 <= i <= hs.len(),
    ensures
        code_len_of(hs.take(i)) <= code_len_of(hs),
    decreases hs.len() - i,
{
    if i == hs.len() {
        assert(hs.take(i) =~= hs);
    } else {
        lemma_code_len_take_le(hs, i + 1);
        assert(hs.take(i + 1).drop_last() =~= hs.take(i));
    }
}

/// A prefix never sums to more than the whole sequence.
proof fn lemma_udata_len_take_le(hs: Seq<HunkTypeView>, i: int)
    requires
        0 <= i <= hs.len(),
    ensures
        udata_len_of(hs.take(i)) <= udata_len_of(hs),
    decreases hs.len() - i,
{
    if i == hs.len() {
        assert(hs.take(i) =~= hs);
    } else {
        lemma_udata_len_take_le(hs, i + 1);
        assert(hs.take(i + 1).drop_last() =~= hs.take(i));
    }
}

/// A prefix never sums to more than the whole sequence.
proof fn lemma_idata_len_take_le(hs: Seq<HunkTypeView>, i: int)
    requires
        0 <= i <= hs.len(),
    ensures
        idata_len_of(hs.take(i)) <= idata_len_of(hs),
    decreases hs.len() - i,
{
    if i == hs.len() {
        assert(hs.take(i) =~= hs);
    } else {
        lemma_idata_len_take_le(hs, i + 1);
        assert(hs.take(i + 1).drop_last() =~= hs.take(i));
    }
}

impl CodeHunks {
    /// A fresh stream holding just a start and an end record.
    pub fn new() -> (r: CodeHunks)
        ensures
            r@ =~= seq![HunkTypeView::Start, HunkTypeView::End],
    {
        let mut hunks: Vec<Hunk> = Vec::new();
        hunks.push(Hunk { hunk: HunkType::Start(ObjSimpleHunk {}) });
        hunks.push(Hunk { hunk: HunkType::End(ObjSimpleHunk {}) });
        let r = CodeHunks { hunks };
        proof {
            assert(r@ =~= seq![HunkTypeView::Start, HunkTypeView::End]);
        }
        r
    }

    pub fn hunks(&self) -> (r: &Vec<Hunk>)
        ensures
            r@.map_values(|h: Hunk| h@) == self@,
    {
        &self.hunks
    }

    pub fn len(&self) -> (r: usize)
        ensures
            r == self@.len(),
    {
        self.hunks.len()
    }

    /// The hunk at `index`, if the stream is that long.
    pub fn get(&self, index: usize) -> (r: Option<&Hunk>)
        ensures
            match r {
                Some(h) => index < self@.len() && h@ == self@[index as int],
                None => index >= self@.len(),
            },
    {
        if index < self.hunks.len() {
            Some(&self.hunks[index])
        } else {
            None
        }
    }

    /// Inserts a hunk at `index`, shifting the rest towards the end.
    pub fn insert(&mut self, index: usize, hunk: Hunk)
        requires
            index <= old(self)@.len(),
        ensures
            final(self)@ == old(self)@.insert(index as int, hunk@),
    {
        self.hunks.insert(index, hunk);
        proof {
            assert(self.hunks@.map_values(|h: Hunk| h@) =~= old(self).hunks@.map_values(
                |h: Hunk| h@,
            ).insert(index as int, hunk@));
        }
    }

    /// Appends a hunk at the end of the stream.
    pub fn push(&mut self, hunk: Hunk)
        ensures
            final(self)@ == old(self)@.push(hunk@),
    {
        self.hunks.push(hunk);
        proof {
            assert(self.hunks@.map_values(|h: Hunk| h@) =~= old(self).hunks@.map_values(
                |h: Hunk| h@,
            ).push(hunk@));
        }
    }

    /// The summed on-disk size of the whole stream, tags included.
    #[verifier::loop_isolation(false)]
    pub fn raw_length(&self) -> (r: usize)
        requires
            hunks_raw_length_of(self@) <= usize::MAX,
        ensures
            r == hunks_raw_length_of(self@),
    {
        let mut sum: u128 = 0;
        let mut i: usize = 0;
        let n = self.hunks.len();
        proof {
            assert(self@.take(0int) =~= Seq::<HunkTypeView>::empty());
        }
        while i < n
            invariant
                i <= n == self.hunks@.len(),
                sum == hunks_raw_length_of(self@.take(i as int)),
            decreases n - i,
        {
            let d = hunk_raw_size_exec(&self.hunks[i]);
            proof {
                lemma_raw_len_take_le(self@, i + 1);
                assert(self@.take(i + 1).drop_last() =~= self@.take(i as int));
                assert(self@.take(i + 1).last() == self@[i as int]);
                assert(hunks_raw_length_of(self@.take(i + 1)) == hunks_raw_length_of(
                    self@.take(i as int),
                ) + hunk_raw_size(self@[i as int]));
            }
            sum = sum + d;
            i = i + 1;
        }
        proof {
            assert(self@.take(n as int) =~= self@);
        }
        sum as usize
    }

    /// The summed size of the code hunks.
    #[verifier::loop_isolation(false)]
    pub fn code_length(&self) -> (r: usize)
        requires
            code_len_of(self@) <= usize::MAX,
        ensures
            r == code_len_of(self@),
    {
        let mut sum: usize = 0;
        let mut i: usize = 0;
        let n = self.hunks.len();
        proof {
            assert(self@.take(0int) =~= Seq::<HunkTypeView>::empty());
        }
        while i < n
            invariant
                i <= n == self.hunks@.len(),
                sum == code_len_of(self@.take(i as int)),
            decreases n - i,
        {
            let d = code_size_exec(&self.hunks[i]);
            proof {
                lemma_code_len_take_le(self@, i + 1);
                assert(self@.take(i + 1).drop_last() =~= self@.take(i as int));
                assert(self@.take(i + 1).last() == self@[i as int]);
                assert(code_len_of(self@.take(i + 1)) == code_len_of(self@.take(i as int))
                    + code_size_of(self@[i as int]));
            }
            sum = sum + d;
            i = i + 1;
        }
        proof {
            assert(self@.take(n as int) =~= self@);
        }
        sum
    }

    /// The summed declared size of the uninitialized data hunks.
    #[verifier::loop_isolation(false)]
    pub fn udata_length(&self) -> (r: usize)
        requires
            udata_len_of(self@) <= usize::MAX,
        ensures
            r == udata_len_of(self@),
    {
        let mut sum: usize = 0;
        let mut i: usize = 0;
        let n = self.hunks.len();
        proof {
            assert(self@.take(0int) =~= Seq::<HunkTypeView>::empty());
        }
        while i < n
            invariant
                i <= n == self.hunks@.len(),
                sum == udata_len_of(self@.take(i as int)),
            decreases n - i,
        {
            let d = udata_size_exec(&self.hunks[i]);
            proof {
                lemma_udata_len_take_le(self@, i + 1);
                assert(self@.take(i + 1).drop_last() =~= self@.take(i as int));
                assert(self@.take(i + 1).last() == self@[i as int]);
                assert(udata_len_of(self@.take(i + 1)) == udata_len_of(self@.take(i as int))
                    + udata_size_of(self@[i as int]));
            }
            sum = sum + d;
            i = i + 1;
        }
        proof {
            assert(self@.take(n as int) =~= self@);
        }
        sum
    }

    /// The summed size of the initialized data hunks.
    #[verifier::loop_isolation(false)]
    pub fn idata_length(&self) -> (r: usize)
        requires
            idata_len_of(self@) <= usize::MAX,
        ensures
            r == idata_len_of(self@),
    {
        let mut sum: usize = 0;
        let mut i: usize = 0;
        let n = self.hunks.len();
        proof {
            assert(self@.take(0int) =~= Seq::<HunkTypeView>::empty());
        }
        while i < n
            invariant
                i <= n == self.hunks@.len(),
                sum == idata_len_of(self@.take(i as int)),
            decreases n - i,
        {
            let d = idata_size_exec(&self.hunks[i]);
            proof {
                lemma_idata_len_take_le(self@, i + 1);
                assert(self@.take(i + 1).drop_last() =~= self@.take(i as int));
                assert(self@.take(i + 1).last() == self@[i as int]);
                assert(idata_len_of(self@.take(i + 1)) == idata_len_of(self@.take(i as int))
                    + idata_size_of(self@[i as int]));
            }
            sum = sum + d;
            i = i + 1;
        }
        proof {
            assert(self@.take(n as int) =~= self@);
        }
        sum
    }
}

} // verus!
