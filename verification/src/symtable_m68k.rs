//! The symbol table: routines with their statement locations and local
//! variables, followed by an optional type table.
//!
//! The decoder is specified by `symbol_table_parse` and proved to return
//! exactly what that parser describes. Routines fill the region between the
//! 32-byte header and the type-table offset (or the end of the buffer); a
//! region that is not an exact sequence of routines is a size mismatch.

use crate::cursor::{take_be_i32, take_be_u16, take_be_u32, take_u8};
use crate::error::{truncated, DecodeError};
use crate::types_m68k::{
    data_type_of_code, type_table_at, DataType, TypeDefinition, TypeDefinitionView,
};
use crate::util::{be_i32_at, be_u16_at, be_u32_at};
use vstd::prelude::*;

verus! {

/// The magic word that opens a symbol table.
#[derive(Debug, Clone, Copy, PartialEq, Eq, Structural)]
pub enum SymTableMagicWord {
    SymTableMagicWord,
}

impl SymTableMagicWord {
    /// The numeric value of the magic word, `"SYMH"`.
    pub fn value(&self) -> (r: u32)
        ensures
            r == 0x53594D48u32,
    {
        0x53594D48
    }
}

/// One statement location: an offset into the object code and an offset into
/// the source file. An object offset of -1 closes the list.
#[derive(Debug, Clone, Copy, PartialEq, Eq, Structural)]
pub struct StatementLocation {
    pub offset: i32,
    pub source_offset: u32,
}

impl StatementLocation {
    pub fn new(offset: i32, source_offset: u32) -> (r: StatementLocation)
        ensures
            r == (StatementLocation { offset, source_offset }),
    {
        StatementLocation { offset, source_offset }
    }

    pub fn is_end_of_list(&self) -> (r: bool)
        ensures
            r == (self.offset == -1),
    {
        self.offset == -1
    }

    pub fn obj_offset(&self) -> (r: i32)
        ensures
            r == self.offset,
    {
        self.offset
    }

    pub fn sourcecode_offset(&self) -> (r: u32)
        ensures
            r == self.source_offset,
    {
        self.source_offset
    }
}

/// How a local variable is stored.
#[derive(Debug, Clone, Copy, PartialEq, Eq, Structural)]
pub enum StorageKind {
    Local,
    Value,
    Reference,
}

/// The storage kind a byte denotes, if any.
pub open spec fn storage_kind_of(v: u8) -> Option<StorageKind> {
    if v == 0 {
        Some(StorageKind::Local)
    } else if v == 1 {
        Some(StorageKind::Value)
    } else if v == 2 {
        Some(StorageKind::Reference)
    } else {
        None
    }
}

/// The register or frame a local variable lives in.
#[derive(Debug, Clone, Copy, PartialEq, Eq, Structural)]
pub enum StorageClass {
    Register,
    A5,
    A6,
    A7,
}

/// The storage class a byte denotes, if any.
pub open spec fn storage_class_of(v: u8) -> Option<StorageClass> {
    if v == 0 {
        Some(StorageClass::Register)
    } else if v == 1 {
        Some(StorageClass::A5)
    } else if v == 2 {
        Some(StorageClass::A6)
    } else if v == 3 {
        Some(StorageClass::A7)
    } else {
        None
    }
}

/// One local variable of a routine.
#[derive(Debug, Clone, Copy, PartialEq, Eq, Structural)]
pub struct LocalVar {
    pub name_id: u32,
    pub var_type: DataType,
    pub kind: StorageKind,
    pub sclass: StorageClass,
    pub wher: u32,
}

impl LocalVar {
    pub fn new(name_id: u32, typ: DataType, kind: StorageKind, sclass: StorageClass, offset: u32) -> (r:
        LocalVar)
        ensures
            r == (LocalVar { name_id, var_type: typ, kind, sclass, wher: offset }),
    {
        LocalVar { name_id, var_type: typ, kind, sclass, wher: offset }
    }

    pub fn name_id(&self) -> (r: u32)
        ensures
            r == self.name_id,
    {
        self.name_id
    }

    pub fn var_type(&self) -> (r: &DataType)
        ensures
            r == self.var_type,
    {
        &self.var_type
    }

    pub fn kind(&self) -> (r: StorageKind)
        ensures
            r == self.kind,
    {
        self.kind
    }

    pub fn storage_class(&self) -> (r: StorageClass)
        ensures
            r == self.sclass,
    {
        self.sclass
    }

    pub fn wher(&self) -> (r: u32)
        ensures
            r == self.wher,
    {
        self.wher
    }
}

/// Whether a routine is a procedure or a function.
#[derive(Debug, Clone, Copy, PartialEq, Eq, Structural)]
pub enum RoutineType {
    Procedure,
    Function,
    Unknown,
}

/// One routine: its kind, statement locations (sentinel included) and local
/// variables.
#[derive(Debug, Clone)]
pub struct Routine {
    pub typ: RoutineType,
    pub statement_locations: Vec<StatementLocation>,
    pub local_vars: Vec<LocalVar>,
}

/// The mathematical value of a [`Routine`].
#[verifier::ext_equal]
pub ghost struct RoutineView {
    pub typ: RoutineType,
    pub statement_locations: Seq<StatementLocation>,
    pub local_vars: Seq<LocalVar>,
}

impl View for Routine {
    type V = RoutineView;

    open spec fn view(&self) -> RoutineView {
        RoutineView {
            typ: self.typ,
            statement_locations: self.statement_locations@,
            local_vars: self.local_vars@,
        }
    }
}

impl Routine {
    /// A fresh function routine with empty lists.
    pub fn new_func() -> (r: Routine)
        ensures
            r@ == (RoutineView {
                typ: RoutineType::Function,
                statement_locations: Seq::empty(),
                local_vars: Seq::empty(),
            }),
    {
        Routine { typ: RoutineType::Function, statement_locations: Vec::new(), local_vars: Vec::new() }
    }

    /// A fresh procedure routine with empty lists.
    pub fn new_procedure() -> (r: Routine)
        ensures
            r@ == (RoutineView {
                typ: RoutineType::Procedure,
                statement_locations: Seq::empty(),
                local_vars: Seq::empty(),
            }),
    {
        Routine {
            typ: RoutineType::Procedure,
            statement_locations: Vec::new(),
            local_vars: Vec::new(),
        }
    }

    pub fn statement_locations(&self) -> (r: &Vec<StatementLocation>)
        ensures
            r@ == self@.statement_locations,
    {
        &self.statement_locations
    }

    pub fn local_vars(&self) -> (r: &Vec<LocalVar>)
        ensures
            r@ == self@.local_vars,
    {
        &self.local_vars
    }

    /// Appends a statement location.
    pub fn push_statement_location(&mut self, loc: StatementLocation)
        ensures
            final(self)@.typ == old(self)@.typ,
            final(self)@.local_vars == old(self)@.local_vars,
            final(self)@.statement_locations == old(self)@.statement_locations.push(loc),
    {
        self.statement_locations.push(loc);
    }

    /// Appends a local variable.
    pub fn push_local_var(&mut self, lv: LocalVar)
        ensures
            final(self)@.typ == old(self)@.typ,
            final(self)@.statement_locations == old(self)@.statement_locations,
            final(self)@.local_vars == old(self)@.local_vars.push(lv),
    {
        self.local_vars.push(lv);
    }

    pub fn is_procedure(&self) -> (r: bool)
        ensures
            r == (self.typ == RoutineType::Procedure),
    {
        match self.typ {
            RoutineType::Procedure => true,
            _ => false,
        }
    }

    pub fn is_function(&self) -> (r: bool)
        ensures
            r == (self.typ == RoutineType::Function),
    {
        match self.typ {
            RoutineType::Function => true,
            _ => false,
        }
    }
}

/// The on-disk size of a routine record with these lists.
pub open spec fn routine_raw_length(r: RoutineView) -> int {
    4 + 8 * r.statement_locations.len() as int + 14 * r.local_vars.len() as int
}

/// The statement-location list at `pos`, read until the record whose object
/// offset is -1; the sentinel stays in the list. Running past `limit` is a
/// size mismatch.
pub open spec fn statement_locs_at(s: Seq<u8>, pos: int, limit: int) -> Result<
    (Seq<StatementLocation>, int),
    DecodeError,
>
    decreases limit - pos,
{
    if pos + 8 > limit {
        Err(DecodeError::SymTableSizeMismatch)
    } else {
        let m = StatementLocation { offset: be_i32_at(s, pos), source_offset: be_u32_at(s, pos + 4) };
        if m.offset == -1 {
            Ok((seq![m], pos + 8))
        } else {
            match statement_locs_at(s, pos + 8, limit) {
                Ok(q) => Ok((seq![m] + q.0, q.1)),
                Err(e) => Err(e),
            }
        }
    }
}

/// Decodes statement locations until the sentinel, exactly as
/// [`statement_locs_at`] describes.
#[verifier::loop_isolation(false)]
fn decode_statement_locs(s: &[u8], pos: &mut usize, limit: usize) -> (r: Result<
    Vec<StatementLocation>,
    DecodeError,
>)
    requires
        *old(pos) <= limit,
        limit <= s@.len(),
    ensures
        *final(pos) <= limit,
        match r {
            Ok(v) => statement_locs_at(s@, *old(pos) as int, limit as int) == Ok::<
                _,
                DecodeError,
            >((v@, *final(pos) as int)) && *old(pos) < *final(pos),
            Err(e) => statement_locs_at(s@, *old(pos) as int, limit as int) == Err::<
                (Seq<StatementLocation>, int),
                _,
            >(e),
        },
{
    proof {
        vstd::slice::axiom_spec_len(s);
    }
    let ghost pos0: int = *pos as int;
    let mut out: Vec<StatementLocation> = Vec::new();
    loop
        invariant
            pos0 <= *pos <= limit <= s@.len(),
            pos0 < *pos ==> out@.len() > 0,
            statement_locs_at(s@, pos0, limit as int) == (match statement_locs_at(
                s@,
                *pos as int,
                limit as int,
            ) {
                Ok(q) => Ok::<(Seq<StatementLocation>, int), DecodeError>((out@ + q.0, q.1)),
                Err(e) => Err::<(Seq<StatementLocation>, int), DecodeError>(e),
            }),
        decreases limit as int - *pos as int,
    {
        let ghost pos_it: int = *pos as int;
        let ghost out_it: Seq<StatementLocation> = out@;
        if limit - *pos < 8 {
            proof {
                assert(statement_locs_at(s@, pos_it, limit as int) == Err::<
                    (Seq<StatementLocation>, int),
                    _,
                >(DecodeError::SymTableSizeMismatch));
            }
            return Err(DecodeError::SymTableSizeMismatch);
        }
        let off = take_be_i32(s, pos);
        let src = take_be_u32(s, pos);
        let m = StatementLocation { offset: off, source_offset: src };
        out.push(m);
        if off == -1i32 {
            proof {
                assert(statement_locs_at(s@, pos_it, limit as int) == Ok::<
                    (Seq<StatementLocation>, int),
                    DecodeError,
                >((seq![m], pos_it + 8)));
                assert(out@ =~= out_it + seq![m]);
            }
            return Ok(out);
        }
        proof {
            assert(statement_locs_at(s@, pos_it, limit as int) == (match statement_locs_at(
                s@,
                pos_it + 8,
                limit as int,
            ) {
                Ok(q) => Ok::<(Seq<StatementLocation>, int), DecodeError>((seq![m] + q.0, q.1)),
                Err(e) => Err::<(Seq<StatementLocation>, int), DecodeError>(e),
            }));
            match statement_locs_at(s@, *pos as int, limit as int) {
                Ok(q) => {
                    assert(out@ + q.0 =~= out_it + (seq![m] + q.0));
                },
                Err(_) => {},
            }
        }
    }
}

/// The local-variable list at `pos`: `k` fixed-size records of fourteen
/// bytes, each with a validated storage kind and class.
pub open spec fn local_vars_at(s: Seq<u8>, pos: int, limit: int, k: int) -> Result<
    (Seq<LocalVar>, int),
    DecodeError,
>
    decreases k,
{
    if k <= 0 {
        Ok((Seq::empty(), pos))
    } else if pos + 14 > limit {
        Err(DecodeError::SymTableSizeMismatch)
    } else {
        let kind_b = s[pos + 8];
        let class_b = s[pos + 9];
        match storage_kind_of(kind_b) {
            Some(kind) => match storage_class_of(class_b) {
                Some(sclass) => {
                    let lv = LocalVar {
                        name_id: be_u32_at(s, pos),
                        var_type: data_type_of_code(be_u32_at(s, pos + 4)),
                        kind,
                        sclass,
                        wher: be_u32_at(s, pos + 10),
                    };
                    match local_vars_at(s, pos + 14, limit, k - 1) {
                        Ok(q) => Ok((seq![lv] + q.0, q.1)),
                        Err(e) => Err(e),
                    }
                },
                None => Err(DecodeError::BadStorageClass { got: class_b }),
            },
            None => Err(DecodeError::BadStorageKind { got: kind_b }),
        }
    }
}

/// Decodes `n` local variables, exactly as [`local_vars_at`] describes.
#[verifier::loop_isolation(false)]
fn decode_local_vars(s: &[u8], pos: &mut usize, limit: usize, n: u16) -> (r: Result<
    Vec<LocalVar>,
    DecodeError,
>)
    requires
        *old(pos) <= limit,
        limit <= s@.len(),
    ensures
        *final(pos) <= limit,
        *old(pos) <= *final(pos),
        match r {
            Ok(v) => local_vars_at(s@, *old(pos) as int, limit as int, n as int) == Ok::<
                _,
                DecodeError,
            >((v@, *final(pos) as int)),
            Err(e) => local_vars_at(s@, *old(pos) as int, limit as int, n as int) == Err::<
                (Seq<LocalVar>, int),
                _,
            >(e),
        },
{
    proof {
        vstd::slice::axiom_spec_len(s);
    }
    let ghost pos0: int = *pos as int;
    let mut out: Vec<LocalVar> = Vec::new();
    let mut i: u16 = 0;
    while i < n
        invariant
            pos0 <= *pos <= limit <= s@.len(),
            i <= n,
            local_vars_at(s@, pos0, limit as int, n as int) == (match local_vars_at(
                s@,
                *pos as int,
                limit as int,
                n as int - i as int,
            ) {
                Ok(q) => Ok::<(Seq<LocalVar>, int), DecodeError>((out@ + q.0, q.1)),
                Err(e) => Err::<(Seq<LocalVar>, int), DecodeError>(e),
            }),
        decreases n as int - i as int,
    {
        let ghost pos_it: int = *pos as int;
        let ghost out_it: Seq<LocalVar> = out@;
        let ghost k: int = n as int - i as int;
        if limit - *pos < 14 {
            proof {
                assert(local_vars_at(s@, pos_it, limit as int, k) == Err::<
                    (Seq<LocalVar>, int),
                    _,
                >(DecodeError::SymTableSizeMismatch));
            }
            return Err(DecodeError::SymTableSizeMismatch);
        }
        let name_id = take_be_u32(s, pos);
        let typc = take_be_u32(s, pos);
        let kind_b = take_u8(s, pos);
        let class_b = take_u8(s, pos);
        let wher = take_be_u32(s, pos);
        let kind = if kind_b == 0 {
            StorageKind::Local
        } else if kind_b == 1 {
            StorageKind::Value
        } else if kind_b == 2 {
            StorageKind::Reference
        } else {
            return Err(DecodeError::BadStorageKind { got: kind_b });
        };
        let sclass = if class_b == 0 {
            StorageClass::Register
        } else if class_b == 1 {
            StorageClass::A5
        } else if class_b == 2 {
            StorageClass::A6
        } else if class_b == 3 {
            StorageClass::A7
        } else {
            return Err(DecodeError::BadStorageClass { got: class_b });
        };
        let lv = LocalVar { name_id, var_type: DataType::from_code(typc), kind, sclass, wher };
        out.push(lv);
        i = i + 1;
        proof {
            assert(local_vars_at(s@, pos_it, limit as int, k) == (match local_vars_at(
                s@,
                pos_it + 14,
                limit as int,
                k - 1,
            ) {
                Ok(q) => Ok::<(Seq<LocalVar>, int), DecodeError>((seq![lv] + q.0, q.1)),
                Err(e) => Err::<(Seq<LocalVar>, int), DecodeError>(e),
            }));
            match local_vars_at(s@, *pos as int, limit as int, n as int - i as int) {
                Ok(q) => {
                    assert(out@ + q.0 =~= out_it + (seq![lv] + q.0));
                },
                Err(_) => {},
            }
        }
    }
    proof {
        assert(out@ + Seq::<LocalVar>::empty() =~= out@);
    }
    Ok(out)
}

/// One routine record at `pos`: a two-byte kind, the statement-location list
/// up to its sentinel, then a counted local-variable block.
pub open spec fn routine_at(s: Seq<u8>, pos: int, limit: int) -> Result<
    (RoutineView, int),
    DecodeError,
> {
    if pos + 2 > limit {
        Err(DecodeError::SymTableSizeMismatch)
    } else {
        let rt = be_u16_at(s, pos);
        if rt == 0 || rt == 1 {
            let typ = if rt == 1 {
                RoutineType::Function
            } else {
                RoutineType::Procedure
            };
            match statement_locs_at(s, pos + 2, limit) {
                Ok(p) => if p.1 + 2 > limit {
                    Err(DecodeError::SymTableSizeMismatch)
                } else {
                    let nl = be_u16_at(s, p.1);
                    match local_vars_at(s, p.1 + 2, limit, nl as int) {
                        Ok(q) => Ok(
                            (
                                RoutineView {
                                    typ,
                                    statement_locations: p.0,
                                    local_vars: q.0,
                                },
                                q.1,
                            ),
                        ),
                        Err(e) => Err(e),
                    }
                },
                Err(e) => Err(e),
            }
        } else {
            Err(DecodeError::BadRoutineType { got: rt })
        }
    }
}

/// Decodes one routine, exactly as [`routine_at`] describes.
fn decode_routine(s: &[u8], pos: &mut usize, limit: usize) -> (r: Result<Routine, DecodeError>)
    requires
        *old(pos) <= limit,
        limit <= s@.len(),
    ensures
        *final(pos) <= limit,
        match r {
            Ok(rt) => routine_at(s@, *old(pos) as int, limit as int) == Ok::<
                _,
                DecodeError,
            >((rt@, *final(pos) as int)) && *old(pos) < *final(pos),
            Err(e) => routine_at(s@, *old(pos) as int, limit as int) == Err::<
                (RoutineView, int),
                _,
            >(e),
        },
{
    proof {
        vstd::slice::axiom_spec_len(s);
    }
    if limit - *pos < 2 {
        return Err(DecodeError::SymTableSizeMismatch);
    }
    let rt = take_be_u16(s, pos);
    if rt > 1 {
        return Err(DecodeError::BadRoutineType { got: rt });
    }
    let typ = if rt == 1 {
        RoutineType::Function
    } else {
        RoutineType::Procedure
    };
    let slocs = match decode_statement_locs(s, pos, limit) {
        Ok(v) => v,
        Err(e) => {
            return Err(e);
        },
    };
    if limit - *pos < 2 {
        return Err(DecodeError::SymTableSizeMismatch);
    }
    let nl = take_be_u16(s, pos);
    let locals = match decode_local_vars(s, pos, limit, nl) {
        Ok(v) => v,
        Err(e) => {
            return Err(e);
        },
    };
    Ok(Routine { typ, statement_locations: slocs, local_vars: locals })
}

/// The routine region between `pos` and exactly `limit`: zero or more
/// routines that together fill it byte for byte.
pub open spec fn routines_at(s: Seq<u8>, pos: int, limit: int) -> Result<
    (Seq<RoutineView>, int),
    DecodeError,
>
    decreases limit - pos,
{
    if pos == limit {
        Ok((Seq::empty(), pos))
    } else {
        match routine_at(s, pos, limit) {
            Ok(p) => if pos < p.1 <= limit {
                match routines_at(s, p.1, limit) {
                    Ok(q) => Ok((seq![p.0] + q.0, q.1)),
                    Err(e) => Err(e),
                }
            } else {
                Err(DecodeError::SymTableSizeMismatch)
            },
            Err(e) => Err(e),
        }
    }
}

/// Decodes routines until the region is exactly used up, as [`routines_at`]
/// describes.
#[verifier::loop_isolation(false)]
fn decode_routines(s: &[u8], pos: &mut usize, limit: usize) -> (r: Result<Vec<Routine>, DecodeError>)
    requires
        *old(pos) <= limit,
        limit <= s@.len(),
    ensures
        *final(pos) <= limit,
        match r {
            Ok(v) => routines_at(s@, *old(pos) as int, limit as int) == Ok::<
                _,
                DecodeError,
            >((v@.map_values(|t: Routine| t@), *final(pos) as int)),
            Err(e) => routines_at(s@, *old(pos) as int, limit as int) == Err::<
                (Seq<RoutineView>, int),
                _,
            >(e),
        },
{
    proof {
        vstd::slice::axiom_spec_len(s);
    }
    let ghost pos0: int = *pos as int;
    let mut out: Vec<Routine> = Vec::new();
    proof {
        match routines_at(s@, pos0, limit as int) {
            Ok(q) => {
                assert(out@.map_values(|t: Routine| t@) + q.0 =~= q.0);
            },
            Err(_) => {},
        }
    }
    while *pos < limit
        invariant
            pos0 <= *pos <= limit <= s@.len(),
            routines_at(s@, pos0, limit as int) == (match routines_at(
                s@,
                *pos as int,
                limit as int,
            ) {
                Ok(q) => Ok::<(Seq<RoutineView>, int), DecodeError>((out@.map_values(
                    |t: Routine| t@,
                ) + q.0, q.1)),
                Err(e) => Err::<(Seq<RoutineView>, int), DecodeError>(e),
            }),
        decreases limit as int - *pos as int,
    {
        let ghost pos_it: int = *pos as int;
        let ghost out_it: Seq<RoutineView> = out@.map_values(|t: Routine| t@);
        match decode_routine(s, pos, limit) {
            Ok(rt) => {
                out.push(rt);
                proof {
                    assert(routines_at(s@, pos_it, limit as int) == (match routines_at(
                        s@,
                        *pos as int,
                        limit as int,
                    ) {
                        Ok(q) => Ok::<(Seq<RoutineView>, int), DecodeError>((seq![rt@] + q.0, q.1)),
                        Err(e) => Err::<(Seq<RoutineView>, int), DecodeError>(e),
                    }));
                    match routines_at(s@, *pos as int, limit as int) {
                        Ok(q) => {
                            assert(out@.map_values(|t: Routine| t@) =~= out_it.push(rt@));
                            assert(out@.map_values(|t: Routine| t@) + q.0 =~= out_it + (seq![rt@]
                                + q.0));
                        },
                        Err(_) => {},
                    }
                }
            },
            Err(e) => {
                proof {
                    assert(routines_at(s@, pos_it, limit as int) == Err::<
                        (Seq<RoutineView>, int),
                        DecodeError,
                    >(e));
                }
                return Err(e);
            },
        }
    }
    proof {
        assert(out@.map_values(|t: Routine| t@) + Seq::<RoutineView>::empty() =~= out@.map_values(
            |t: Routine| t@,
        ));
    }
    Ok(out)
}

/// A decoded symbol table.
#[derive(Debug, Clone)]
pub struct SymbolTable {
    pub unnamed: u32,
    pub reserved: [u32; 4],
    pub routines: Vec<Routine>,
    pub types: Vec<TypeDefinition>,
}

/// The mathematical value of a [`SymbolTable`].
#[verifier::ext_equal]
pub ghost struct SymbolTableView {
    pub unnamed: u32,
    pub reserved: Seq<u32>,
    pub routines: Seq<RoutineView>,
    pub types: Seq<TypeDefinitionView>,
}

impl View for SymbolTable {
    type V = SymbolTableView;

    open spec fn view(&self) -> SymbolTableView {
        SymbolTableView {
            unnamed: self.unnamed,
            reserved: self.reserved@,
            routines: self.routines@.map_values(|t: Routine| t@),
            types: self.types@.map_values(|t: TypeDefinition| t@),
        }
    }
}

impl SymbolTable {
    /// An empty symbol table: no routines, no types.
    pub fn new() -> (r: SymbolTable)
        ensures
            r@.unnamed == 0,
            r@.reserved =~= seq![0u32, 0u32, 0u32, 0u32],
            r@.routines =~= Seq::<RoutineView>::empty(),
            r@.types =~= Seq::<TypeDefinitionView>::empty(),
    {
        let reserved: [u32; 4] = [0, 0, 0, 0];
        SymbolTable { unnamed: 0, reserved, routines: Vec::new(), types: Vec::new() }
    }

    pub fn routines(&self) -> (r: &Vec<Routine>)
        ensures
            r@.map_values(|t: Routine| t@) == self@.routines,
    {
        &self.routines
    }

    pub fn types(&self) -> (r: &Vec<TypeDefinition>)
        ensures
            r@.map_values(|t: TypeDefinition| t@) == self@.types,
    {
        &self.types
    }

    /// Appends a routine.
    pub fn push_routine(&mut self, rt: Routine)
        ensures
            final(self)@.unnamed == old(self)@.unnamed,
            final(self)@.reserved == old(self)@.reserved,
            final(self)@.types == old(self)@.types,
            final(self)@.routines == old(self)@.routines.push(rt@),
    {
        self.routines.push(rt);
        proof {
            assert(self.routines@.map_values(|t: Routine| t@) =~= old(
                self,
            ).routines@.map_values(|t: Routine| t@).push(rt@));
        }
    }

    /// Appends a type definition.
    pub fn push_type(&mut self, td: TypeDefinition)
        ensures
            final(self)@.unnamed == old(self)@.unnamed,
            final(self)@.reserved == old(self)@.reserved,
            final(self)@.routines == old(self)@.routines,
            final(self)@.types == old(self)@.types.push(td@),
    {
        self.types.push(td);
        proof {
            assert(self.types@.map_values(|t: TypeDefinition| t@) =~= old(
                self,
            ).types@.map_values(|t: TypeDefinition| t@).push(td@));
        }
    }

    /// The routine list, by reference.
    pub fn borrow_routines(&self) -> (r: &Vec<Routine>)
        ensures
            r@.map_values(|t: Routine| t@) == self@.routines,
    {
        &self.routines
    }

    /// The type list, by reference.
    pub fn borrow_types(&self) -> (r: &Vec<TypeDefinition>)
        ensures
            r@.map_values(|t: TypeDefinition| t@) == self@.types,
    {
        &self.types
    }

    pub fn reserved(&self) -> (r: [u32; 4])
        ensures
            r@ == self@.reserved,
    {
        self.reserved
    }

    pub fn num_unnamed(&self) -> (r: u32)
        ensures
            r == self@.unnamed,
    {
        self.unnamed
    }

    /// The on-disk size of the whole table: the 32-byte header, the routine
    /// records and the type records.
    #[verifier::loop_isolation(false)]
    pub fn raw_length(&self) -> (r: usize)
        requires
            32 + routines_prefix_length(self@.routines, self@.routines.len() as int)
                + types_prefix_length(self@.types, self@.types.len() as int) <= usize::MAX,
        ensures
            r == 32 + routines_prefix_length(self@.routines, self@.routines.len() as int)
                + types_prefix_length(self@.types, self@.types.len() as int),
    {
        let mut sum: u128 = 32;
        let mut i: usize = 0;
        let rn = self.routines.len();
        while i < rn
            invariant
                i <= rn == self.routines@.len(),
                sum == 32 + routines_prefix_length(self@.routines, i as int),
            decreases rn - i,
        {
            let rt = &self.routines[i];
            let slocs: u128 = rt.statement_locations.len() as u128;
            let lvars: u128 = rt.local_vars.len() as u128;
            proof {
                assert(rt@ == self@.routines[i as int]);
                assert(routines_prefix_length(self@.routines, i + 1) == routines_prefix_length(
                    self@.routines,
                    i as int,
                ) + routine_raw_length(self@.routines[i as int]));
                lemma_routines_prefix_monotone(self@.routines, i + 1);
                lemma_types_prefix_monotone(self@.types, 0);
            }
            sum = sum + 4 + 8 * slocs + 14 * lvars;
            i = i + 1;
        }
        let mut j: usize = 0;
        let tn = self.types.len();
        while j < tn
            invariant
                j <= tn == self.types@.len(),
                sum == 32 + routines_prefix_length(self@.routines, self@.routines.len() as int)
                    + types_prefix_length(self@.types, j as int),
            decreases tn - j,
        {
            let d = type_record_raw_size_exec(&self.types[j]);
            proof {
                assert(self.types@[j as int]@ == self@.types[j as int]);
                assert(types_prefix_length(self@.types, j + 1) == types_prefix_length(
                    self@.types,
                    j as int,
                ) + type_record_raw_size(self@.types[j as int]));
                lemma_types_prefix_monotone(self@.types, j + 1);
            }
            sum = sum + d;
            j = j + 1;
        }
        sum as usize
    }

    /// The routine that starts at `offset` bytes into the symbol-table
    /// buffer, counting the 32-byte header and the raw lengths of the
    /// routines before it; `None` when no routine starts there.
    #[verifier::loop_isolation(false)]
    pub fn routine_at_offset(&self, offset: usize) -> (r: Option<&Routine>)
        requires
            routines_prefix_length(self@.routines, self@.routines.len() as int)
                <= 0xFFFFFFFFFFFFFFFF,
        ensures
            match r {
                Some(rt) => exists|i: int|
                    0 <= i < self@.routines.len() && rt@ == self@.routines[i] && 32
                        + routines_prefix_length(self@.routines, i) == offset,
                None => forall|i: int|
                    0 <= i < self@.routines.len() ==> 32 + routines_prefix_length(
                        self@.routines,
                        i,
                    ) != offset,
            },
    {
        let n = self.routines.len();
        let mut i: usize = 0;
        let mut acc: u128 = 32;
        proof {
            assert(routines_prefix_length(self@.routines, 0) == 0);
        }
        while i < n
            invariant
                i <= n == self.routines@.len(),
                acc == 32 + routines_prefix_length(self@.routines, i as int),
                forall|j: int|
                    0 <= j < i ==> 32 + routines_prefix_length(self@.routines, j) != offset,
            decreases n - i,
        {
            if acc == offset as u128 {
                let rt = &self.routines[i];
                proof {
                    assert(rt@ == self@.routines[i as int]);
                }
                return Some(rt);
            }
            let rt = &self.routines[i];
            let slocs: u128 = rt.statement_locations.len() as u128;
            let lvars: u128 = rt.local_vars.len() as u128;
            proof {
                assert(rt@ == self@.routines[i as int]);
                assert(routines_prefix_length(self@.routines, i + 1) == routines_prefix_length(
                    self@.routines,
                    i as int,
                ) + routine_raw_length(self@.routines[i as int]));
                lemma_routines_prefix_monotone(self@.routines, i + 1);
            }
            acc = acc + 4 + 8 * slocs + 14 * lvars;
            i = i + 1;
        }
        None
    }
}

/// The summed raw length of the first `i` routines.
pub open spec fn routines_prefix_length(rs: Seq<RoutineView>, i: int) -> int
    decreases i,
{
    if i <= 0 {
        0
    } else {
        routines_prefix_length(rs, i - 1) + routine_raw_length(rs[i - 1])
    }
}

/// The on-disk size of one type record: the six-byte tag and id, then the
/// payload its variant dictates.
pub open spec fn type_record_raw_size(t: TypeDefinitionView) -> int {
    6 + match t.typ {
        crate::types_m68k::OtherDataTypeView::Undefined => 0,
        crate::types_m68k::OtherDataTypeView::TypePointer(_) => 6,
        crate::types_m68k::OtherDataTypeView::TypeArray(_) => 12,
        crate::types_m68k::OtherDataTypeView::TypeStruct(st) => 10 + 12 * st.members.len() as int,
        crate::types_m68k::OtherDataTypeView::TypeEnum(e) => 8 + 8 * e.members.len() as int,
        crate::types_m68k::OtherDataTypeView::TypePascalArray(_) => 20,
        crate::types_m68k::OtherDataTypeView::TypePascalRange(_) => 20,
        crate::types_m68k::OtherDataTypeView::TypePascalSet(_) => 12,
        crate::types_m68k::OtherDataTypeView::TypePascalEnum(pe) => 8 + 4 * pe.members.len() as int,
        crate::types_m68k::OtherDataTypeView::TypePascalString(_) => 8,
    }
}

/// The summed on-disk size of the first `i` type records.
pub open spec fn types_prefix_length(ts: Seq<TypeDefinitionView>, i: int) -> int
    decreases i,
{
    if i <= 0 {
        0
    } else {
        types_prefix_length(ts, i - 1) + type_record_raw_size(ts[i - 1])
    }
}

/// A prefix of the type list never sums to more than the whole list.
proof fn lemma_types_prefix_monotone(ts: Seq<TypeDefinitionView>, i: int)
    requires
        0 <= i <= ts.len(),
    ensures
        types_prefix_length(ts, i) <= types_prefix_length(ts, ts.len() as int),
    decreases ts.len() - i,
{
    if i < ts.len() {
        assert(types_prefix_length(ts, i + 1) == types_prefix_length(ts, i)
            + type_record_raw_size(ts[i]));
        lemma_types_prefix_monotone(ts, i + 1);
    }
}

/// The on-disk size of one stored type record, computed without overflow.
fn type_record_raw_size_exec(t: &TypeDefinition) -> (r: u128)
    ensures
        r == type_record_raw_size(t@),
{
    6 + match &t.typ {
        crate::types_m68k::OtherDataType::Undefined => 0,
        crate::types_m68k::OtherDataType::TypePointer(_) => 6,
        crate::types_m68k::OtherDataType::TypeArray(_) => 12,
        crate::types_m68k::OtherDataType::TypeStruct(st) => 10 + 12 * st.members().len() as u128,
        crate::types_m68k::OtherDataType::TypeEnum(e) => 8 + 8 * e.members().len() as u128,
        crate::types_m68k::OtherDataType::TypePascalArray(_) => 20,
        crate::types_m68k::OtherDataType::TypePascalRange(_) => 20,
        crate::types_m68k::OtherDataType::TypePascalSet(_) => 12,
        crate::types_m68k::OtherDataType::TypePascalEnum(pe) => 8 + 4 * pe.members().len() as u128,
        crate::types_m68k::OtherDataType::TypePascalString(_) => 8,
    }
}

/// A prefix of the routine list never sums to more than the whole list.
proof fn lemma_routines_prefix_monotone(rs: Seq<RoutineView>, i: int)
    requires
        0 <= i <= rs.len(),
    ensures
        routines_prefix_length(rs, i) <= routines_prefix_length(rs, rs.len() as int),
    decreases rs.len() - i,
{
    if i < rs.len() {
        assert(routines_prefix_length(rs, i + 1) == routines_prefix_length(rs, i)
            + routine_raw_length(rs[i]));
        lemma_routines_prefix_monotone(rs, i + 1);
    }
}

impl Default for SymbolTable {
    /// The empty symbol table.
    fn default() -> (r: SymbolTable)
        ensures
            r@.unnamed == 0,
            r@.reserved =~= seq![0u32, 0u32, 0u32, 0u32],
            r@.routines =~= Seq::<RoutineView>::empty(),
            r@.types =~= Seq::<TypeDefinitionView>::empty(),
    {
        SymbolTable::new()
    }
}

impl Default for Routine {
    /// A routine of unknown kind with empty lists.
    fn default() -> (r: Routine)
        ensures
            r@ == (RoutineView {
                typ: RoutineType::Unknown,
                statement_locations: Seq::empty(),
                local_vars: Seq::empty(),
            }),
    {
        Routine { typ: RoutineType::Unknown, statement_locations: Vec::new(), local_vars: Vec::new() }
    }
}

/// A decoded statement-location list always ends with the sentinel whose
/// object offset is -1, and only its last element carries that offset.
pub proof fn lemma_statement_locs_form(s: Seq<u8>, pos: int, limit: int)
    ensures
        match statement_locs_at(s, pos, limit) {
            Ok(p) => p.0.len() > 0 && p.0.last().offset == -1 && forall|j: int|
                0 <= j < p.0.len() - 1 ==> p.0[j].offset != -1,
            Err(_) => true,
        },
    decreases limit - pos,
{
    if pos + 8 <= limit {
        let m = StatementLocation { offset: be_i32_at(s, pos), source_offset: be_u32_at(s, pos + 4) };
        if m.offset != -1 {
            lemma_statement_locs_form(s, pos + 8, limit);
        }
    }
}

/// Every routine of a decoded routine region carries a statement-location
/// list of the sentinel-terminated form.
pub proof fn lemma_routines_statement_form(s: Seq<u8>, pos: int, limit: int)
    ensures
        match routines_at(s, pos, limit) {
            Ok(p) => forall|i: int|
                0 <= i < p.0.len() ==> #[trigger] p.0[i].statement_locations.len() > 0
                    && p.0[i].statement_locations.last().offset == -1 && forall|j: int|
                    0 <= j < p.0[i].statement_locations.len() - 1
                        ==> p.0[i].statement_locations[j].offset != -1,
            Err(_) => true,
        },
    decreases limit - pos,
{
    if pos != limit {
        match routine_at(s, pos, limit) {
            Ok(p) => {
                if pos < p.1 <= limit {
                    lemma_statement_locs_form(s, pos + 2, limit);
                    lemma_routines_statement_form(s, p.1, limit);
                    match routines_at(s, p.1, limit) {
                        Ok(q) => {
                            match routines_at(s, pos, limit) {
                                Ok(w) => {
                                    assert(w.0 == seq![p.0] + q.0);
                                    assert(w.0[0] == p.0);
                                    assert forall|i: int|
                                        0 <= i < w.0.len() implies #[trigger] w.0[i].statement_locations.len()
                                        > 0 && w.0[i].statement_locations.last().offset == -1
                                        && forall|j: int|
                                        0 <= j < w.0[i].statement_locations.len() - 1
                                            ==> w.0[i].statement_locations[j].offset != -1 by {
                                        if i > 0 {
                                            assert(w.0[i] == q.0[i - 1]);
                                        }
                                    }
                                },
                                Err(_) => {},
                            }
                        },
                        Err(_) => {},
                    }
                }
            },
            Err(_) => {},
        }
    }
}

/// A decoded routine region consumes its bytes exactly: parsing ends
/// precisely at the region limit.
pub proof fn lemma_routines_exact(s: Seq<u8>, pos: int, limit: int)
    ensures
        match routines_at(s, pos, limit) {
            Ok(p) => p.1 == limit,
            Err(_) => true,
        },
    decreases limit - pos,
{
    if pos != limit {
        match routine_at(s, pos, limit) {
            Ok(p) => {
                if pos < p.1 <= limit {
                    lemma_routines_exact(s, p.1, limit);
                }
            },
            Err(_) => {},
        }
    }
}

/// A decoded symbol table consumes its routine region exactly: the routines
/// fill every byte between the 32-byte header and the type-table offset (or
/// the end of the buffer when that offset is zero). The type table itself is
/// read record by record from its offset; bytes after the final counted
/// record are not constrained, as the format's size law covers the routine
/// region alone.
pub proof fn lemma_symbol_table_region_consumption(s: Seq<u8>)
    ensures
        symbol_table_parse(s) is Ok ==> {
            let type_offset = be_u32_at(s, 4);
            let limit = if type_offset == 0 {
                s.len() as int
            } else {
                type_offset as int
            };
            routines_at(s, 32, limit) matches Ok(p) && p.1 == limit
        },
{
    if symbol_table_parse(s) is Ok {
        let type_offset = be_u32_at(s, 4);
        let limit = if type_offset == 0 {
            s.len() as int
        } else {
            type_offset as int
        };
        lemma_routines_exact(s, 32, limit);
    }
}

/// Every routine of a decoded symbol table carries a statement-location
/// list of the sentinel-terminated form.
pub proof fn lemma_symbol_table_statement_form(s: Seq<u8>)
    ensures
        match symbol_table_parse(s) {
            Ok(st) => forall|i: int|
                0 <= i < st.routines.len() ==> #[trigger] st.routines[i].statement_locations.len()
                    > 0 && st.routines[i].statement_locations.last().offset == -1 && forall|j: int|
                    0 <= j < st.routines[i].statement_locations.len() - 1
                        ==> st.routines[i].statement_locations[j].offset != -1,
            Err(_) => true,
        },
{
    let len = s.len() as int;
    if len >= 32 && be_u32_at(s, 0) == 0x53594D48 {
        let type_offset = be_u32_at(s, 4);
        let limit = if type_offset == 0 {
            len
        } else {
            type_offset as int
        };
        if 32 <= limit <= len {
            lemma_routines_statement_form(s, 32, limit);
        }
    }
}

/// A whole symbol-table buffer: the 32-byte header, the routine region up to
/// the type-table offset (or the buffer end when that offset is zero), and
/// the type table.
pub open spec fn symbol_table_parse(s: Seq<u8>) -> Result<SymbolTableView, DecodeError> {
    let len = s.len() as int;
    if len < 4 {
        Err(truncated(4, 0, len))
    } else if be_u32_at(s, 0) != 0x53594D48 {
        Err(DecodeError::BadSymMagic { got: be_u32_at(s, 0) })
    } else if len < 32 {
        Err(truncated(28, 4, len))
    } else {
        let type_offset = be_u32_at(s, 4);
        let num_types = be_u32_at(s, 8);
        let unnamed = be_u32_at(s, 12);
        let reserved = seq![be_u32_at(s, 16), be_u32_at(s, 20), be_u32_at(s, 24), be_u32_at(s, 28)];
        let limit = if type_offset == 0 {
            len
        } else {
            type_offset as int
        };
        if limit < 32 || limit > len {
            Err(DecodeError::SymTableSizeMismatch)
        } else {
            match routines_at(s, 32, limit) {
                Ok(p) => if type_offset == 0 {
                    Ok(
                        SymbolTableView {
                            unnamed,
                            reserved,
                            routines: p.0,
                            types: Seq::empty(),
                        },
                    )
                } else {
                    match type_table_at(s.subrange(type_offset as int, len), 0, num_types as int) {
                        Ok(q) => Ok(
                            SymbolTableView { unnamed, reserved, routines: p.0, types: q.0 },
                        ),
                        Err(e) => Err(e),
                    }
                },
                Err(e) => Err(e),
            }
        }
    }
}

/// Decodes a symbol-table buffer, exactly as [`symbol_table_parse`]
/// describes.
pub fn decode_symbol_table(s: &[u8]) -> (r: Result<SymbolTable, DecodeError>)
    ensures
        match r {
            Ok(st) => symbol_table_parse(s@) == Ok::<_, DecodeError>(st@),
            Err(e) => symbol_table_parse(s@) == Err::<SymbolTableView, _>(e),
        },
{
    proof {
        vstd::slice::axiom_spec_len(s);
    }
    let mut pos: usize = 0;
    if s.len() < 4 {
        return Err(DecodeError::TruncatedInput { needed: 4, available: s.len() });
    }
    let magic = take_be_u32(s, &mut pos);
    if magic != 0x53594D48 {
        return Err(DecodeError::BadSymMagic { got: magic });
    }
    if s.len() < 32 {
        return Err(DecodeError::TruncatedInput { needed: 28, available: s.len() - 4 });
    }
    let type_offset = take_be_u32(s, &mut pos);
    let num_types = take_be_u32(s, &mut pos);
    let unnamed = take_be_u32(s, &mut pos);
    let r0 = take_be_u32(s, &mut pos);
    let r1 = take_be_u32(s, &mut pos);
    let r2 = take_be_u32(s, &mut pos);
    let r3 = take_be_u32(s, &mut pos);
    let reserved: [u32; 4] = [r0, r1, r2, r3];
    proof {
        assert(reserved@ =~= seq![r0, r1, r2, r3]);
    }
    let limit: usize = if type_offset == 0 {
        s.len()
    } else {
        type_offset as usize
    };
    if limit < 32 || limit > s.len() {
        return Err(DecodeError::SymTableSizeMismatch);
    }
    let routines = match decode_routines(s, &mut pos, limit) {
        Ok(v) => v,
        Err(e) => {
            return Err(e);
        },
    };
    if type_offset == 0 {
        let st = SymbolTable { unnamed, reserved, routines, types: Vec::new() };
        proof {
            assert(st@.types =~= Seq::<TypeDefinitionView>::empty());
        }
        return Ok(st);
    }
    let tail: &[u8] = vstd::slice::slice_subrange(s, type_offset as usize, s.len());
    match crate::types_m68k::decode_type_table(tail, num_types) {
        Ok(types) => {
            let st = SymbolTable { unnamed, reserved, routines, types };
            Ok(st)
        },
        Err(e) => Err(e),
    }
}

} // verus!
