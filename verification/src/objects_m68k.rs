//! One CodeWarrior compilation unit: the 64-byte object header, the name
//! table, the symbol table and the hunk stream, with the redundant size
//! counters cross-checked against the decoded hunks.

use crate::code_m68k::{
    code_len_of, decode_hunk_stream, hunks_parse, CodeHunks, HunkTypeView, idata_len_of,
    udata_len_of,
};
use crate::cursor::{take_be_u16, take_be_u32, take_u8};
use crate::error::{truncated, DecodeError, ReservedField, SizeField};
use crate::symtable_m68k::{symbol_table_parse, SymbolTable, SymbolTableView};
use crate::util::{be_u16_at, be_u32_at, name_hash, nametable_hash_bytes};
use vstd::prelude::*;

verus! {

/// The magic word that opens an object.
#[derive(Debug, Clone, Copy, PartialEq, Eq, Structural)]
pub enum ObjectMagicWord {
    ObjectMagicWord,
}

impl ObjectMagicWord {
    /// The numeric value of the magic word.
    pub fn value(&self) -> (r: u32)
        ensures
            r == 0xFEEDBEADu32,
    {
        0xFEEDBEAD
    }
}

/// The CFM bit of the object-header flag word.
pub const OBJFLAG_CFM: u16 = 0x0001;

/// The shared-library bit of the object-header flag word.
pub const OBJFLAG_CFMSHAREDLIB: u16 = 0x0002;

/// The weak-import bit of the object-header flag word.
pub const OBJFLAG_WEAKIMPORT: u16 = 0x0004;

/// The initialize-before bit of the object-header flag word.
pub const OBJFLAG_INITBEFORE: u16 = 0x0008;

/// The processor-feature flag word of an object header.
#[derive(Debug, Clone, Copy, PartialEq, Eq, Hash, Structural)]
pub struct ObjectFlags {
    pub bits: u16,
}

impl ObjectFlags {
    /// No flags set.
    pub fn empty() -> (r: ObjectFlags)
        ensures
            r.bits == 0,
    {
        ObjectFlags { bits: 0 }
    }

    /// The flag word as read from a header.
    pub fn from_bits(bits: u16) -> (r: ObjectFlags)
        ensures
            r.bits == bits,
    {
        ObjectFlags { bits }
    }

    pub fn bits(&self) -> (r: u16)
        ensures
            r == self.bits,
    {
        self.bits
    }

    /// Whether the CFM bit is set.
    pub fn cfm(&self) -> (r: bool)
        ensures
            r == (self.bits & OBJFLAG_CFM != 0),
    {
        self.bits & OBJFLAG_CFM != 0
    }

    /// Whether the shared-library bit is set.
    pub fn cfm_shared_lib(&self) -> (r: bool)
        ensures
            r == (self.bits & OBJFLAG_CFMSHAREDLIB != 0),
    {
        self.bits & OBJFLAG_CFMSHAREDLIB != 0
    }

    /// Whether the weak-import bit is set.
    pub fn weak_import(&self) -> (r: bool)
        ensures
            r == (self.bits & OBJFLAG_WEAKIMPORT != 0),
    {
        self.bits & OBJFLAG_WEAKIMPORT != 0
    }

    /// Whether the initialize-before bit is set.
    pub fn init_before(&self) -> (r: bool)
        ensures
            r == (self.bits & OBJFLAG_INITBEFORE != 0),
    {
        self.bits & OBJFLAG_INITBEFORE != 0
    }
}

/// One interned name of an object: a 1-based id and the name's bytes.
#[derive(Debug, Clone)]
pub struct NameEntry {
    pub id: u32,
    pub name: Vec<u8>,
}

/// The mathematical value of a [`NameEntry`].
#[verifier::ext_equal]
pub ghost struct NameEntryView {
    pub id: u32,
    pub name: Seq<u8>,
}

impl View for NameEntry {
    type V = NameEntryView;

    open spec fn view(&self) -> NameEntryView {
        NameEntryView { id: self.id, name: self.name@ }
    }
}

impl NameEntry {
    pub fn new(id: u32, name: &[u8]) -> (r: NameEntry)
        ensures
            r@ == (NameEntryView { id, name: name@ }),
    {
        proof {
            vstd::slice::axiom_spec_len(name);
        }
        let mut pos: usize = 0;
        let owned = crate::cursor::take_bytes(name, &mut pos, name.len());
        proof {
            assert(owned@ =~= name@);
        }
        NameEntry { id, name: owned }
    }

    pub fn name(&self) -> (r: &Vec<u8>)
        ensures
            r@ == self@.name,
    {
        &self.name
    }

    pub fn id(&self) -> (r: u32)
        ensures
            r == self.id,
    {
        self.id
    }

    /// The name-table hash of this entry's name.
    pub fn hash(&self) -> (r: u16)
        ensures
            r == name_hash(self@.name),
            r < 1024,
    {
        nametable_hash_bytes(self.name.as_slice())
    }
}

/// The 68K base register an object uses for global data.
#[derive(Debug, Clone, Copy, PartialEq, Eq, Structural)]
pub enum BaseRegister {
    Unknown,
    BaseRegA4,
    BaseRegA5,
}

/// The base register a header byte denotes.
pub open spec fn base_register_of(v: u8) -> BaseRegister {
    if v == 4 {
        BaseRegister::BaseRegA4
    } else if v == 5 {
        BaseRegister::BaseRegA5
    } else {
        BaseRegister::Unknown
    }
}

impl BaseRegister {
    /// Maps a header byte to the base register it denotes.
    pub fn from_u8(v: u8) -> (r: BaseRegister)
        ensures
            r == base_register_of(v),
    {
        if v == 4 {
            BaseRegister::BaseRegA4
        } else if v == 5 {
            BaseRegister::BaseRegA5
        } else {
            BaseRegister::Unknown
        }
    }
}

/// The position of the first nul byte at or after `pos`, looking at most
/// `budget` bytes and never past the end of the buffer.
pub open spec fn cstr_end_at(s: Seq<u8>, pos: int, budget: int) -> Option<int>
    decreases budget,
{
    if budget <= 0 || pos >= s.len() {
        None
    } else if s[pos] == 0 {
        Some(pos)
    } else {
        cstr_end_at(s, pos + 1, budget - 1)
    }
}

/// Finds the nul terminator of a name body within the 256-byte window, as
/// [`cstr_end_at`] describes.
#[verifier::loop_isolation(false)]
fn find_nul_256(s: &[u8], start: usize) -> (r: Option<usize>)
    requires
        start <= s@.len(),
    ensures
        match r {
            Some(e) => cstr_end_at(s@, start as int, 256) == Some(e as int) && start <= e
                < s@.len(),
            None => cstr_end_at(s@, start as int, 256) is None,
        },
{
    proof {
        vstd::slice::axiom_spec_len(s);
    }
    let mut j: usize = 0;
    loop
        invariant
            j <= 256,
            cstr_end_at(s@, start as int, 256) == cstr_end_at(
                s@,
                start as int + j as int,
                256 - j as int,
            ),
        decreases 256 - j as int,
    {
        if j >= 256 {
            return None;
        }
        if s.len() - start <= j {
            return None;
        }
        let b: u8 = *vstd::slice::slice_index_get(s, start + j);
        if b == 0 {
            return Some(start + j);
        }
        j = j + 1;
    }
}

/// The name table at `pos`: `k` entries, each a stored hash and a
/// nul-terminated body of at most 255 bytes whose computed hash must match;
/// ids are assigned from `id` upward in file order.
pub open spec fn name_entries_at(s: Seq<u8>, pos: int, k: int, id: int) -> Result<
    (Seq<NameEntryView>, int),
    DecodeError,
>
    decreases k,
{
    if k <= 0 {
        Ok((Seq::empty(), pos))
    } else if pos + 2 > s.len() {
        Err(truncated(2, pos, s.len() as int))
    } else {
        let hash = be_u16_at(s, pos);
        match cstr_end_at(s, pos + 2, 256) {
            Some(e) => {
                let body = s.subrange(pos + 2, e);
                if hash == name_hash(body) {
                    match name_entries_at(s, e + 1, k - 1, id + 1) {
                        Ok(q) => Ok((seq![NameEntryView { id: id as u32, name: body }] + q.0, q.1)),
                        Err(err) => Err(err),
                    }
                } else {
                    Err(
                        DecodeError::NameHashMismatch {
                            expected: name_hash(body),
                            got: hash,
                            id: id as u32,
                        },
                    )
                }
            },
            None => if s.len() < pos + 2 + 256 {
                Err(truncated(1, s.len() as int, s.len() as int))
            } else {
                Err(DecodeError::NameTooLong { id: id as u32 })
            },
        }
    }
}

/// Decodes `n` name entries with ids `first..`, exactly as
/// [`name_entries_at`] describes.
#[verifier::loop_isolation(false)]
fn decode_name_entries(s: &[u8], pos: &mut usize, n: u32) -> (r: Result<Vec<NameEntry>, DecodeError>)
    requires
        *old(pos) <= s@.len(),
        n < 0xFFFFFFFFu32,
    ensures
        *final(pos) <= s@.len(),
        match r {
            Ok(v) => name_entries_at(s@, *old(pos) as int, n as int, 1) == Ok::<
                _,
                DecodeError,
            >((v@.map_values(|t: NameEntry| t@), *final(pos) as int)) && v@.len() == n,
            Err(e) => name_entries_at(s@, *old(pos) as int, n as int, 1) == Err::<
                (Seq<NameEntryView>, int),
                _,
            >(e),
        },
{
    proof {
        vstd::slice::axiom_spec_len(s);
    }
    let mut out: Vec<NameEntry> = Vec::new();
    let mut i: u32 = 0;
    let mut id: u32 = 1;
    proof {
        match name_entries_at(s@, *pos as int, n as int, 1) {
            Ok(q) => {
                assert(out@.map_values(|t: NameEntry| t@) + q.0 =~= q.0);
            },
            Err(_) => {},
        }
    }
    while i < n
        invariant
            *pos <= s@.len(),
            i <= n,
            n < 0xFFFFFFFFu32,
            id == i + 1,
            out@.len() == i,
            name_entries_at(s@, *old(pos) as int, n as int, 1) == (match name_entries_at(
                s@,
                *pos as int,
                n as int - i as int,
                id as int,
            ) {
                Ok(q) => Ok::<(Seq<NameEntryView>, int), DecodeError>((out@.map_values(
                    |t: NameEntry| t@,
                ) + q.0, q.1)),
                Err(e) => Err::<(Seq<NameEntryView>, int), DecodeError>(e),
            }),
        decreases n as int - i as int,
    {
        let ghost pos_it: int = *pos as int;
        let ghost out_it: Seq<NameEntryView> = out@.map_values(|t: NameEntry| t@);
        let ghost k: int = n as int - i as int;
        let ghost id_it: int = id as int;
        if s.len() - *pos < 2 {
            let e = DecodeError::TruncatedInput { needed: 2, available: s.len() - *pos };
            proof {
                assert(name_entries_at(s@, pos_it, k, id_it) == Err::<(Seq<NameEntryView>, int), _>(
                    e,
                ));
            }
            return Err(e);
        }
        let hash = take_be_u16(s, pos);
        let body_start = *pos;
        match find_nul_256(s, body_start) {
            Some(e) => {
                let body_slice: &[u8] = vstd::slice::slice_subrange(s, body_start, e);
                let computed = nametable_hash_bytes(body_slice);
                if computed != hash {
                    let err = DecodeError::NameHashMismatch { expected: computed, got: hash, id };
                    proof {
                        assert(name_entries_at(s@, pos_it, k, id_it) == Err::<
                            (Seq<NameEntryView>, int),
                            _,
                        >(err));
                    }
                    return Err(err);
                }
                let body = vstd::slice::slice_to_vec(body_slice);
                let entry = NameEntry { id, name: body };
                out.push(entry);
                *pos = e + 1;
                i = i + 1;
                id = id + 1;
                proof {
                    let ev = NameEntryView { id: id_it as u32, name: s@.subrange(pos_it + 2, e as int) };
                    assert(name_entries_at(s@, pos_it, k, id_it) == (match name_entries_at(
                        s@,
                        *pos as int,
                        k - 1,
                        id_it + 1,
                    ) {
                        Ok(q) => Ok::<(Seq<NameEntryView>, int), DecodeError>((seq![ev] + q.0, q.1)),
                        Err(err2) => Err::<(Seq<NameEntryView>, int), DecodeError>(err2),
                    }));
                    let nv = out@.map_values(|t: NameEntry| t@);
                    assert(nv =~= out_it.push(ev));
                    match name_entries_at(s@, *pos as int, k - 1, id_it + 1) {
                        Ok(q) => {
                            assert(nv + q.0 =~= out_it + (seq![ev] + q.0));
                        },
                        Err(_) => {},
                    }
                }
            },
            None => {
                if s.len() - body_start < 256 {
                    let e = DecodeError::TruncatedInput { needed: 1, available: 0 };
                    proof {
                        assert(name_entries_at(s@, pos_it, k, id_it) == Err::<
                            (Seq<NameEntryView>, int),
                            _,
                        >(e));
                    }
                    return Err(e);
                } else {
                    let e = DecodeError::NameTooLong { id };
                    proof {
                        assert(name_entries_at(s@, pos_it, k, id_it) == Err::<
                            (Seq<NameEntryView>, int),
                            _,
                        >(e));
                    }
                    return Err(e);
                }
            },
        }
    }
    proof {
        assert(out@.map_values(|t: NameEntry| t@) + Seq::<NameEntryView>::empty()
            =~= out@.map_values(|t: NameEntry| t@));
    }
    Ok(out)
}

/// Name ids are contiguous and 1-based in file order: a decoded name table
/// with ids starting at `id` carries exactly `k` entries whose ids count up
/// one by one.
pub proof fn lemma_name_ids_contiguous(s: Seq<u8>, pos: int, k: int, id: int)
    requires
        0 <= id,
        id + k <= 0x100000000,
    ensures
        match name_entries_at(s, pos, k, id) {
            Ok(p) => p.0.len() == (if k >= 0 {
                k
            } else {
                0
            }) && forall|j: int| 0 <= j < p.0.len() ==> p.0[j].id == id + j,
            Err(_) => true,
        },
    decreases k,
{
    if k > 0 {
        match name_entries_at(s, pos, k, id) {
            Ok(p) => {
                let e = match cstr_end_at(s, pos + 2, 256) {
                    Some(e) => e,
                    None => 0,
                };
                lemma_name_ids_contiguous(s, e + 1, k - 1, id + 1);
            },
            Err(_) => {},
        }
    }
}

/// Where entry `j` of a name table starting at `pos` begins.
pub open spec fn name_entry_pos(s: Seq<u8>, pos: int, j: int) -> int
    decreases j,
{
    if j <= 0 {
        pos
    } else {
        name_entry_end(s, name_entry_pos(s, pos, j - 1))
    }
}

/// Where the entry starting at `pos` ends: just past its nul terminator.
pub open spec fn name_entry_end(s: Seq<u8>, pos: int) -> int {
    match cstr_end_at(s, pos + 2, 256) {
        Some(e) => e + 1,
        None => pos,
    }
}

proof fn lemma_name_entry_pos_shift(s: Seq<u8>, pos: int, j: int)
    requires
        j >= 0,
    ensures
        name_entry_pos(s, pos, j + 1) == name_entry_pos(s, name_entry_end(s, pos), j),
    decreases j,
{
    if j == 0 {
        assert(name_entry_pos(s, pos, 0) == pos);
        assert(name_entry_pos(s, name_entry_end(s, pos), 0) == name_entry_end(s, pos));
        assert(name_entry_pos(s, pos, 1) == name_entry_end(s, name_entry_pos(s, pos, 0)));
    } else {
        lemma_name_entry_pos_shift(s, pos, j - 1);
        assert(name_entry_pos(s, pos, j + 1) == name_entry_end(s, name_entry_pos(s, pos, j)));
        assert(name_entry_pos(s, name_entry_end(s, pos), j) == name_entry_end(
            s,
            name_entry_pos(s, name_entry_end(s, pos), j - 1),
        ));
    }
}

/// Every decoded name entry hashes to the very value stored on disk in
/// front of it.
pub proof fn lemma_name_hashes_checked(s: Seq<u8>, pos: int, k: int, id: int)
    ensures
        match name_entries_at(s, pos, k, id) {
            Ok(p) => forall|j: int|
                0 <= j < p.0.len() ==> be_u16_at(s, name_entry_pos(s, pos, j)) == name_hash(
                    p.0[j].name,
                ),
            Err(_) => true,
        },
    decreases k,
{
    if k > 0 {
        match name_entries_at(s, pos, k, id) {
            Ok(p) => {
                let e = match cstr_end_at(s, pos + 2, 256) {
                    Some(e) => e,
                    None => 0,
                };
                lemma_name_hashes_checked(s, e + 1, k - 1, id + 1);
                match name_entries_at(s, e + 1, k - 1, id + 1) {
                    Ok(q) => {
                        assert forall|j: int| 0 <= j < p.0.len() implies be_u16_at(
                            s,
                            name_entry_pos(s, pos, j),
                        ) == name_hash(p.0[j].name) by {
                            if j == 0 {
                                assert(name_entry_pos(s, pos, 0) == pos);
                            } else {
                                lemma_name_entry_pos_shift(s, pos, j - 1);
                                assert(name_entry_end(s, pos) == e + 1);
                                assert(p.0[j] == q.0[j - 1]);
                            }
                        }
                    },
                    Err(_) => {},
                }
            },
            Err(_) => {},
        }
    }
}

/// An object whose header stores a zero name-table offset decodes with an
/// empty name table.
pub proof fn lemma_zero_nametable_offset_empty(s: Seq<u8>)
    ensures
        match object_parse(s) {
            Ok(o) => be_u32_at(s, 12) == 0 ==> o.names.len() == 0,
            Err(_) => true,
        },
{
}

/// An object whose header stores a zero symbol-table offset decodes with the
/// default, empty symbol table.
pub proof fn lemma_zero_symtable_offset_default(s: Seq<u8>)
    ensures
        match object_parse(s) {
            Ok(o) => be_u32_at(s, 20) == 0 ==> o.symtab == default_symtab_view(),
            Err(_) => true,
        },
{
}

/// The empty symbol table an object gets when its header points at none.
pub open spec fn default_symtab_view() -> SymbolTableView {
    SymbolTableView {
        unnamed: 0,
        reserved: seq![0u32, 0u32, 0u32, 0u32],
        routines: Seq::empty(),
        types: Seq::empty(),
    }
}

/// A decoded object.
#[derive(Debug, Clone)]
pub struct MetrowerksObject {
    pub flags: ObjectFlags,
    pub reserved1: u32,
    pub old_def_version: u32,
    pub old_imp_version: u32,
    pub current_version: u32,
    pub has_flags: bool,
    pub is_pascal: bool,
    pub is_fourbyteint: bool,
    pub is_eightdouble: bool,
    pub is_mc68881: bool,
    pub basereg: BaseRegister,
    pub reserved3: u8,
    pub reserved4: u8,
    pub names: Vec<NameEntry>,
    pub symtab: SymbolTable,
    pub hunks: CodeHunks,
}

/// The mathematical value of a [`MetrowerksObject`].
#[verifier::ext_equal]
pub ghost struct MetrowerksObjectView {
    pub flags: ObjectFlags,
    pub reserved1: u32,
    pub old_def_version: u32,
    pub old_imp_version: u32,
    pub current_version: u32,
    pub has_flags: bool,
    pub is_pascal: bool,
    pub is_fourbyteint: bool,
    pub is_eightdouble: bool,
    pub is_mc68881: bool,
    pub basereg: BaseRegister,
    pub reserved3: u8,
    pub reserved4: u8,
    pub names: Seq<NameEntryView>,
    pub symtab: SymbolTableView,
    pub hunks: Seq<HunkTypeView>,
}

impl View for MetrowerksObject {
    type V = MetrowerksObjectView;

    open spec fn view(&self) -> MetrowerksObjectView {
        MetrowerksObjectView {
            flags: self.flags,
            reserved1: self.reserved1,
            old_def_version: self.old_def_version,
            old_imp_version: self.old_imp_version,
            current_version: self.current_version,
            has_flags: self.has_flags,
            is_pascal: self.is_pascal,
            is_fourbyteint: self.is_fourbyteint,
            is_eightdouble: self.is_eightdouble,
            is_mc68881: self.is_mc68881,
            basereg: self.basereg,
            reserved3: self.reserved3,
            reserved4: self.reserved4,
            names: self.names@.map_values(|t: NameEntry| t@),
            symtab: self.symtab@,
            hunks: self.hunks@,
        }
    }
}

impl MetrowerksObject {
    /// A fresh object wrapping the given hunks and symbol table; every other
    /// field starts empty or zero.
    pub fn new(hunks: CodeHunks, symtab: SymbolTable) -> (r: MetrowerksObject)
        ensures
            r@.hunks == hunks@,
            r@.symtab == symtab@,
            r@.names =~= Seq::<NameEntryView>::empty(),
            r@.flags.bits == 0,
            r@.reserved1 == 0,
            r@.old_def_version == 0,
            r@.old_imp_version == 0,
            r@.current_version == 0,
            !r@.has_flags && !r@.is_pascal && !r@.is_fourbyteint && !r@.is_eightdouble
                && !r@.is_mc68881,
            r@.basereg == BaseRegister::Unknown,
            r@.reserved3 == 0 && r@.reserved4 == 0,
    {
        MetrowerksObject {
            flags: ObjectFlags { bits: 0 },
            reserved1: 0,
            old_def_version: 0,
            old_imp_version: 0,
            current_version: 0,
            has_flags: false,
            is_pascal: false,
            is_fourbyteint: false,
            is_eightdouble: false,
            is_mc68881: false,
            basereg: BaseRegister::Unknown,
            reserved3: 0,
            reserved4: 0,
            names: Vec::new(),
            symtab,
            hunks,
        }
    }

    pub fn names(&self) -> (r: &Vec<NameEntry>)
        ensures
            r@.map_values(|t: NameEntry| t@) == self@.names,
    {
        &self.names
    }

    /// Appends a name entry to the name table.
    pub fn push_name(&mut self, entry: NameEntry)
        ensures
            final(self)@ == (MetrowerksObjectView {
                names: old(self)@.names.push(entry@),
                ..old(self)@
            }),
    {
        self.names.push(entry);
        proof {
            assert(self.names@.map_values(|t: NameEntry| t@) =~= old(self).names@.map_values(
                |t: NameEntry| t@,
            ).push(entry@));
            assert(self@ =~= (MetrowerksObjectView { names: old(self)@.names.push(entry@), ..old(self)@ }));
        }
    }

    /// Resolves a name id against the name table, scanning in file order.
    pub fn lookup_name(&self, name_id: u32) -> (r: Option<&NameEntry>)
        ensures
            match r {
                Some(e) => e@.id == name_id && exists|j: int|
                    0 <= j < self@.names.len() && self@.names[j] == e@,
                None => forall|j: int| 0 <= j < self@.names.len() ==> self@.names[j].id != name_id,
            },
    {
        let mut i: usize = 0;
        let n = self.names.len();
        while i < n
            invariant
                i <= n == self.names@.len(),
                forall|j: int| 0 <= j < i ==> self@.names[j].id != name_id,
            decreases n - i,
        {
            if self.names[i].id == name_id {
                proof {
                    assert(self@.names[i as int] == self.names@[i as int]@);
                }
                return Some(&self.names[i]);
            }
            proof {
                assert(self@.names[i as int] == self.names@[i as int]@);
            }
            i = i + 1;
        }
        None
    }

    pub fn hunks(&self) -> (r: &CodeHunks)
        ensures
            r@ == self@.hunks,
    {
        &self.hunks
    }

    pub fn symbols(&self) -> (r: &SymbolTable)
        ensures
            r@ == self@.symtab,
    {
        &self.symtab
    }

    /// The summed size of the object's code hunks.
    pub fn code_size(&self) -> (r: usize)
        requires
            code_len_of(self@.hunks) <= usize::MAX,
        ensures
            r == code_len_of(self@.hunks),
    {
        self.hunks.code_length()
    }

    /// The summed declared size of the object's uninitialized data hunks.
    pub fn udata_size(&self) -> (r: usize)
        requires
            udata_len_of(self@.hunks) <= usize::MAX,
        ensures
            r == udata_len_of(self@.hunks),
    {
        self.hunks.udata_length()
    }

    /// The summed size of the object's initialized data hunks.
    pub fn idata_size(&self) -> (r: usize)
        requires
            idata_len_of(self@.hunks) <= usize::MAX,
        ensures
            r == idata_len_of(self@.hunks),
    {
        self.hunks.idata_length()
    }

    /// The on-disk size of the object's hunk stream.
    pub fn obj_length(&self) -> (r: usize)
        requires
            crate::code_m68k::hunks_raw_length_of(self@.hunks) <= usize::MAX,
        ensures
            r == crate::code_m68k::hunks_raw_length_of(self@.hunks),
    {
        self.hunks.raw_length()
    }

    /// The on-disk size of the object's symbol table.
    pub fn symtable_length(&self) -> (r: usize)
        requires
            32 + crate::symtable_m68k::routines_prefix_length(
                self@.symtab.routines,
                self@.symtab.routines.len() as int,
            ) + crate::symtable_m68k::types_prefix_length(
                self@.symtab.types,
                self@.symtab.types.len() as int,
            ) <= usize::MAX,
        ensures
            r == 32 + crate::symtable_m68k::routines_prefix_length(
                self@.symtab.routines,
                self@.symtab.routines.len() as int,
            ) + crate::symtable_m68k::types_prefix_length(
                self@.symtab.types,
                self@.symtab.types.len() as int,
            ),
    {
        self.symtab.raw_length()
    }

    pub fn reserved1(&self) -> (r: u32)
        ensures
            r == self@.reserved1,
    {
        self.reserved1
    }

    pub fn old_def_version(&self) -> (r: u32)
        ensures
            r == self@.old_def_version,
    {
        self.old_def_version
    }

    pub fn old_imp_version(&self) -> (r: u32)
        ensures
            r == self@.old_imp_version,
    {
        self.old_imp_version
    }

    pub fn current_version(&self) -> (r: u32)
        ensures
            r == self@.current_version,
    {
        self.current_version
    }

    pub fn flags(&self) -> (r: ObjectFlags)
        ensures
            r == self@.flags,
    {
        self.flags
    }

    pub fn has_flags(&self) -> (r: bool)
        ensures
            r == self@.has_flags,
    {
        self.has_flags
    }

    pub fn is_pascal(&self) -> (r: bool)
        ensures
            r == self@.is_pascal,
    {
        self.is_pascal
    }

    pub fn is_fourbyteint(&self) -> (r: bool)
        ensures
            r == self@.is_fourbyteint,
    {
        self.is_fourbyteint
    }

    pub fn is_eightdouble(&self) -> (r: bool)
        ensures
            r == self@.is_eightdouble,
    {
        self.is_eightdouble
    }

    pub fn is_mc68881(&self) -> (r: bool)
        ensures
            r == self@.is_mc68881,
    {
        self.is_mc68881
    }

    pub fn basereg(&self) -> (r: &BaseRegister)
        ensures
            r == self@.basereg,
    {
        &self.basereg
    }

    pub fn reserved3(&self) -> (r: u8)
        ensures
            r == self@.reserved3,
    {
        self.reserved3
    }

    pub fn reserved4(&self) -> (r: u8)
        ensures
            r == self@.reserved4,
    {
        self.reserved4
    }

    pub fn set_eightdouble(&mut self, arg: bool)
        ensures
            final(self)@ == (MetrowerksObjectView { is_eightdouble: arg, ..old(self)@ }),
    {
        self.is_eightdouble = arg;
    }

    pub fn set_fourbyteint(&mut self, arg: bool)
        ensures
            final(self)@ == (MetrowerksObjectView { is_fourbyteint: arg, ..old(self)@ }),
    {
        self.is_fourbyteint = arg;
    }

    pub fn set_basereg(&mut self, base_reg: BaseRegister)
        ensures
            final(self)@ == (MetrowerksObjectView { basereg: base_reg, ..old(self)@ }),
    {
        self.basereg = base_reg;
    }

    pub fn set_current_version(&mut self, arg: u32)
        ensures
            final(self)@ == (MetrowerksObjectView { current_version: arg, ..old(self)@ }),
    {
        self.current_version = arg;
    }

    pub fn set_old_def_version(&mut self, arg: u32)
        ensures
            final(self)@ == (MetrowerksObjectView { old_def_version: arg, ..old(self)@ }),
    {
        self.old_def_version = arg;
    }

    pub fn set_old_imp_version(&mut self, arg: u32)
        ensures
            final(self)@ == (MetrowerksObjectView { old_imp_version: arg, ..old(self)@ }),
    {
        self.old_imp_version = arg;
    }

    pub fn set_mc68881(&mut self, arg: bool)
        ensures
            final(self)@ == (MetrowerksObjectView { is_mc68881: arg, ..old(self)@ }),
    {
        self.is_mc68881 = arg;
    }

    pub fn set_has_flags(&mut self, arg: bool)
        ensures
            final(self)@ == (MetrowerksObjectView { has_flags: arg, ..old(self)@ }),
    {
        self.has_flags = arg;
    }

    pub fn set_object_flags(&mut self, arg: ObjectFlags)
        ensures
            final(self)@ == (MetrowerksObjectView { flags: arg, ..old(self)@ }),
    {
        self.flags = arg;
    }
}

impl Default for MetrowerksObject {
    /// An empty object: a bare start/end hunk stream, an empty symbol table,
    /// no names, and zeroed header fields.
    fn default() -> (r: MetrowerksObject)
        ensures
            r@.names =~= Seq::<NameEntryView>::empty(),
            r@.hunks =~= seq![
                crate::code_m68k::HunkTypeView::Start,
                crate::code_m68k::HunkTypeView::End,
            ],
            r@.symtab == default_symtab_view(),
            r@.flags.bits == 0,
            r@.basereg == BaseRegister::Unknown,
    {
        let st = SymbolTable::new();
        proof {
            assert(st@ =~= default_symtab_view());
        }
        MetrowerksObject::new(CodeHunks::new(), st)
    }
}

/// A whole object buffer: the 64-byte header, the name table at its offset,
/// the symbol table at its offset, the hunk stream right after the header,
/// and the three size cross-checks.
pub open spec fn object_parse(s: Seq<u8>) -> Result<MetrowerksObjectView, DecodeError> {
    let len = s.len() as int;
    if len < 4 {
        Err(truncated(4, 0, len))
    } else if be_u32_at(s, 0) != 0xFEEDBEAD {
        Err(DecodeError::BadObjMagic { got: be_u32_at(s, 0) })
    } else if len < 6 {
        Err(truncated(2, 4, len))
    } else if be_u16_at(s, 4) != 0 {
        Err(DecodeError::BadObjVersion { got: be_u16_at(s, 4) })
    } else if len < 64 {
        Err(truncated(58, 6, len))
    } else if be_u32_at(s, 28) != 0 {
        Err(
            DecodeError::ReservedNonZero {
                field: ReservedField::ObjReserved1,
                got: be_u32_at(s, 28),
            },
        )
    } else if s[62] != 0 {
        Err(DecodeError::ReservedNonZero { field: ReservedField::ObjReserved3, got: s[62] as u32 })
    } else if s[63] != 0 {
        Err(DecodeError::ReservedNonZero { field: ReservedField::ObjReserved4, got: s[63] as u32 })
    } else {
        let obj_size = be_u32_at(s, 8);
        let nametable_offset = be_u32_at(s, 12);
        let nametable_count = be_u32_at(s, 16);
        let symtable_offset = be_u32_at(s, 20);
        let symtable_size = be_u32_at(s, 24);
        let code_size = be_u32_at(s, 32);
        let udata_size = be_u32_at(s, 36);
        let idata_size = be_u32_at(s, 40);
        let name_k: int = if nametable_offset == 0 || nametable_count == 0 {
            0
        } else {
            nametable_count - 1
        };
        let name_pos: int = if nametable_offset == 0 {
            len
        } else {
            nametable_offset as int
        };
        if name_pos > len {
            Err(DecodeError::TruncatedInput { needed: 2, available: 0 })
        } else {
            match name_entries_at(s, name_pos, name_k, 1) {
                Err(e) => Err(e),
                Ok(np) => {
                    let symtab_r: Result<SymbolTableView, DecodeError> = if symtable_offset == 0 {
                        Ok(default_symtab_view())
                    } else if symtable_offset as int + symtable_size as int > len {
                        Err(
                            DecodeError::TruncatedInput {
                                needed: symtable_size as usize,
                                available: if symtable_offset as int <= len {
                                    (len - symtable_offset as int) as usize
                                } else {
                                    0usize
                                },
                            },
                        )
                    } else {
                        symbol_table_parse(
                            s.subrange(
                                symtable_offset as int,
                                symtable_offset as int + symtable_size as int,
                            ),
                        )
                    };
                    match symtab_r {
                        Err(e) => Err(e),
                        Ok(st) => {
                            if 64 + obj_size as int > len {
                                Err(truncated(obj_size as int, 64, len))
                            } else {
                                match hunks_parse(s.subrange(64, 64 + obj_size as int)) {
                                    Err(e) => Err(e),
                                    Ok(hs) => {
                                        if code_len_of(hs) != code_size as int {
                                            Err(
                                                DecodeError::SizeCrossCheckFailed {
                                                    field: SizeField::Code,
                                                    expected: code_size,
                                                    got: code_len_of(hs) as u64,
                                                },
                                            )
                                        } else if idata_len_of(hs) != idata_size as int {
                                            Err(
                                                DecodeError::SizeCrossCheckFailed {
                                                    field: SizeField::IData,
                                                    expected: idata_size,
                                                    got: idata_len_of(hs) as u64,
                                                },
                                            )
                                        } else if udata_len_of(hs) != udata_size as int {
                                            Err(
                                                DecodeError::SizeCrossCheckFailed {
                                                    field: SizeField::UData,
                                                    expected: udata_size,
                                                    got: udata_len_of(hs) as u64,
                                                },
                                            )
                                        } else {
                                            Ok(
                                                MetrowerksObjectView {
                                                    flags: ObjectFlags { bits: be_u16_at(s, 6) },
                                                    reserved1: be_u32_at(s, 28),
                                                    old_def_version: be_u32_at(s, 44),
                                                    old_imp_version: be_u32_at(s, 48),
                                                    current_version: be_u32_at(s, 52),
                                                    has_flags: s[56] != 0,
                                                    is_pascal: s[57] != 0,
                                                    is_fourbyteint: s[58] != 0,
                                                    is_eightdouble: s[59] != 0,
                                                    is_mc68881: s[60] != 0,
                                                    basereg: base_register_of(s[61]),
                                                    reserved3: s[62],
                                                    reserved4: s[63],
                                                    names: np.0,
                                                    symtab: st,
                                                    hunks: hs,
                                                },
                                            )
                                        }
                                    },
                                }
                            }
                        },
                    }
                },
            }
        }
    }
}

/// The size cross-check as a law: for every object that decodes, the
/// header's code, uninitialized-data and initialized-data counters equal the
/// corresponding sums over the decoded hunk stream.
pub proof fn lemma_object_size_counters(s: Seq<u8>)
    ensures
        match object_parse(s) {
            Ok(o) => code_len_of(o.hunks) == be_u32_at(s, 32) && udata_len_of(o.hunks) == be_u32_at(
                s,
                36,
            ) && idata_len_of(o.hunks) == be_u32_at(s, 40),
            Err(_) => true,
        },
{
}

/// Decodes a whole object buffer, exactly as [`object_parse`] describes.
/// On success the header's code, uninitialized-data and initialized-data
/// counters equal the sums over the decoded hunks.
pub fn decode_object(s: &[u8]) -> (r: Result<MetrowerksObject, DecodeError>)
    ensures
        match r {
            Ok(o) => object_parse(s@) == Ok::<_, DecodeError>(o@) && code_len_of(o@.hunks)
                == be_u32_at(s@, 32) && udata_len_of(o@.hunks) == be_u32_at(s@, 36) && idata_len_of(
                o@.hunks,
            ) == be_u32_at(s@, 40),
            Err(e) => object_parse(s@) == Err::<MetrowerksObjectView, _>(e),
        },
{
    proof {
        vstd::slice::axiom_spec_len(s);
    }
    let mut pos: usize = 0;
    if s.len() < 4 {
        return Err(DecodeError::TruncatedInput { needed: 4, available: s.len() });
    }
    let magic = take_be_u32(s, &mut pos);
    if magic != 0xFEEDBEAD {
        return Err(DecodeError::BadObjMagic { got: magic });
    }
    if s.len() < 6 {
        return Err(DecodeError::TruncatedInput { needed: 2, available: s.len() - 4 });
    }
    let version = take_be_u16(s, &mut pos);
    if version != 0 {
        return Err(DecodeError::BadObjVersion { got: version });
    }
    if s.len() < 64 {
        return Err(DecodeError::TruncatedInput { needed: 58, available: s.len() - 6 });
    }
    let flag_bits = take_be_u16(s, &mut pos);
    let obj_size = take_be_u32(s, &mut pos);
    let nametable_offset = take_be_u32(s, &mut pos);
    let nametable_count = take_be_u32(s, &mut pos);
    let symtable_offset = take_be_u32(s, &mut pos);
    let symtable_size = take_be_u32(s, &mut pos);
    let reserved1 = take_be_u32(s, &mut pos);
    if reserved1 != 0 {
        return Err(
            DecodeError::ReservedNonZero { field: ReservedField::ObjReserved1, got: reserved1 },
        );
    }
    let code_size = take_be_u32(s, &mut pos);
    let udata_size = take_be_u32(s, &mut pos);
    let idata_size = take_be_u32(s, &mut pos);
    let old_def_version = take_be_u32(s, &mut pos);
    let old_imp_version = take_be_u32(s, &mut pos);
    let current_version = take_be_u32(s, &mut pos);
    let has_flags = take_u8(s, &mut pos);
    let is_pascal = take_u8(s, &mut pos);
    let is_fourbyteint = take_u8(s, &mut pos);
    let is_eightdouble = take_u8(s, &mut pos);
    let is_mc68881 = take_u8(s, &mut pos);
    let basereg_b = take_u8(s, &mut pos);
    let reserved3 = take_u8(s, &mut pos);
    if reserved3 != 0 {
        return Err(
            DecodeError::ReservedNonZero {
                field: ReservedField::ObjReserved3,
                got: reserved3 as u32,
            },
        );
    }
    let reserved4 = take_u8(s, &mut pos);
    if reserved4 != 0 {
        return Err(
            DecodeError::ReservedNonZero {
                field: ReservedField::ObjReserved4,
                got: reserved4 as u32,
            },
        );
    }
    let name_k: u32 = if nametable_offset == 0 || nametable_count == 0 {
        0
    } else {
        nametable_count - 1
    };
    let name_pos: usize = if nametable_offset == 0 {
        s.len()
    } else {
        nametable_offset as usize
    };
    if name_pos > s.len() {
        return Err(
            DecodeError::TruncatedInput { needed: 2, available: 0 },
        );
    }
    let mut npos: usize = name_pos;
    let names = match decode_name_entries(s, &mut npos, name_k) {
        Ok(v) => v,
        Err(e) => {
            return Err(e);
        },
    };
    let symtab = if symtable_offset == 0 {
        let st = SymbolTable::new();
        proof {
            assert(st@ =~= default_symtab_view());
        }
        st
    } else {
        if symtable_offset as usize > s.len()
            || s.len() - (symtable_offset as usize) < symtable_size as usize {
            return Err(
                DecodeError::TruncatedInput {
                    needed: symtable_size as usize,
                    available: if symtable_offset as usize <= s.len() {
                        s.len() - symtable_offset as usize
                    } else {
                        0
                    },
                },
            );
        }
        let region: &[u8] = vstd::slice::slice_subrange(
            s,
            symtable_offset as usize,
            symtable_offset as usize + symtable_size as usize,
        );
        match crate::symtable_m68k::decode_symbol_table(region) {
            Ok(st) => st,
            Err(e) => {
                return Err(e);
            },
        }
    };
    if s.len() - 64 < obj_size as usize {
        return Err(
            DecodeError::TruncatedInput { needed: obj_size as usize, available: s.len() - 64 },
        );
    }
    let hunk_region: &[u8] = vstd::slice::slice_subrange(s, 64, 64 + obj_size as usize);
    let (hunks, code_c, udata_c, idata_c) = match decode_hunk_stream(hunk_region) {
        Ok(p) => p,
        Err(e) => {
            return Err(e);
        },
    };
    if code_c != code_size as u64 {
        return Err(
            DecodeError::SizeCrossCheckFailed {
                field: SizeField::Code,
                expected: code_size,
                got: code_c,
            },
        );
    }
    if idata_c != idata_size as u64 {
        return Err(
            DecodeError::SizeCrossCheckFailed {
                field: SizeField::IData,
                expected: idata_size,
                got: idata_c,
            },
        );
    }
    if udata_c != udata_size as u64 {
        return Err(
            DecodeError::SizeCrossCheckFailed {
                field: SizeField::UData,
                expected: udata_size,
                got: udata_c,
            },
        );
    }
    let obj = MetrowerksObject {
        flags: ObjectFlags { bits: flag_bits },
        reserved1,
        old_def_version,
        old_imp_version,
        current_version,
        has_flags: has_flags != 0,
        is_pascal: is_pascal != 0,
        is_fourbyteint: is_fourbyteint != 0,
        is_eightdouble: is_eightdouble != 0,
        is_mc68881: is_mc68881 != 0,
        basereg: BaseRegister::from_u8(basereg_b),
        reserved3,
        reserved4,
        names,
        symtab,
        hunks,
    };
    Ok(obj)
}

} // verus!
