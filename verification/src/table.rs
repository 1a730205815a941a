//! The two name tables of the lowering pass.
//!
//! The storage table maps an in-scope variable name to its stack slot; it is
//! per-function, flat (no block scoping), and a later binding of a name
//! overwrites an earlier one.  The function table maps a callee name to its
//! signature; it is filled once per module — built-ins first, then every
//! declared function — and read-only afterwards.
//!
//! Both are association lists whose abstract value is a `Map` in which the
//! latest entry for a name wins.

use vstd::prelude::*;
use crate::ir::{IrType, RegId};

verus! {

/// The stack slot a name is bound to: the `Alloca` that created it and the
/// primitive type it holds.
#[derive(Debug, Clone, Copy, PartialEq, Eq, Structural)]
pub struct SlotInfo {
    pub reg: RegId,
    pub ty: IrType,
}

/// One storage-table entry.
#[derive(Debug)]
pub struct Binding {
    pub name: String,
    pub info: SlotInfo,
}

/// The abstract value of the first `i` entries of a storage table: a map in
/// which a later entry for the same name overwrites an earlier one.
pub open spec fn storage_map_prefix(s: Seq<Binding>, i: int) -> Map<Seq<char>, SlotInfo>
    decreases i,
{
    if i <= 0 {
        Map::empty()
    } else {
        storage_map_prefix(s, i - 1).insert(s[i - 1].name@, s[i - 1].info)
    }
}

/// The abstract value of a whole storage table.
pub open spec fn storage_map(s: Seq<Binding>) -> Map<Seq<char>, SlotInfo> {
    storage_map_prefix(s, s.len() as int)
}

/// The per-function variable-storage table.
#[derive(Debug)]
pub struct StorageTable {
    pub entries: Vec<Binding>,
}

impl View for StorageTable {
    type V = Map<Seq<char>, SlotInfo>;

    open spec fn view(&self) -> Map<Seq<char>, SlotInfo> {
        storage_map(self.entries@)
    }
}

impl StorageTable {
    /// A fresh, empty table, created at the start of each function.
    pub fn new() -> (r: StorageTable)
        ensures
            r@ == Map::<Seq<char>, SlotInfo>::empty(),
    {
        StorageTable { entries: Vec::new() }
    }

    /// Binds `name` to `info`, overwriting any earlier binding of the same
    /// name: last write wins for the remainder of the function.
    pub fn insert(&mut self, name: String, info: SlotInfo)
        ensures
            final(self)@ == old(self)@.insert(name@, info),
    {
        let ghost before = self.entries@;
        self.entries.push(Binding { name, info });
        proof {
            assert(self.entries@.subrange(0, before.len() as int) =~= before);
            lemma_storage_prefix_stable(self.entries@, before, before.len() as int);
        }
    }

    fn lookup_prefix(&self, name: &String, i: usize) -> (r: Option<SlotInfo>)
        requires
            i <= self.entries@.len(),
        ensures
            r == (if storage_map_prefix(self.entries@, i as int).contains_key(name@) {
                Some(storage_map_prefix(self.entries@, i as int)[name@])
            } else {
                Option::<SlotInfo>::None
            }),
        decreases i,
    {
        if i == 0 {
            Option::None
        } else if self.entries[i - 1].name == *name {
            Option::Some(self.entries[i - 1].info)
        } else {
            self.lookup_prefix(name, i - 1)
        }
    }

    /// The slot currently bound to `name`, or `None` when the name was never
    /// bound in this function.
    pub fn lookup(&self, name: &String) -> (r: Option<SlotInfo>)
        ensures
            r == (if self@.contains_key(name@) {
                Some(self@[name@])
            } else {
                Option::<SlotInfo>::None
            }),
    {
        self.lookup_prefix(name, self.entries.len())
    }
}

/// A prefix of a sequence of entries denotes the same map in any extension
/// of that sequence.
proof fn lemma_storage_prefix_stable(s: Seq<Binding>, t: Seq<Binding>, i: int)
    requires
        0 <= i <= t.len(),
        t.len() <= s.len(),
        s.subrange(0, t.len() as int) == t,
    ensures
        storage_map_prefix(s, i) == storage_map_prefix(t, i),
    decreases i,
{
    if i > 0 {
        lemma_storage_prefix_stable(s, t, i - 1);
        assert(s[i - 1] == t[i - 1]);
    }
}

/// A function signature as the function table records it.
pub struct SpecSig {
    pub params: Seq<IrType>,
    pub ret: Option<IrType>,
}

/// One function-table entry: a callee name with its parameter types and its
/// optional return type (`None` means void).
#[derive(Debug)]
pub struct FuncDecl {
    pub name: String,
    pub params: Vec<IrType>,
    pub ret: Option<IrType>,
}

impl FuncDecl {
    pub open spec fn sig(&self) -> SpecSig {
        SpecSig { params: self.params@, ret: self.ret }
    }
}

/// The abstract value of the first `i` entries of a function table.
pub open spec fn func_map_prefix(s: Seq<FuncDecl>, i: int) -> Map<Seq<char>, SpecSig>
    decreases i,
{
    if i <= 0 {
        Map::empty()
    } else {
        func_map_prefix(s, i - 1).insert(s[i - 1].name@, s[i - 1].sig())
    }
}

/// The abstract value of a whole function table.
pub open spec fn func_map(s: Seq<FuncDecl>) -> Map<Seq<char>, SpecSig> {
    func_map_prefix(s, s.len() as int)
}

/// The module-wide function table consulted when lowering calls.
#[derive(Debug)]
pub struct FuncTable {
    pub entries: Vec<FuncDecl>,
}

impl View for FuncTable {
    type V = Map<Seq<char>, SpecSig>;

    open spec fn view(&self) -> Map<Seq<char>, SpecSig> {
        func_map(self.entries@)
    }
}

impl FuncTable {
    /// A fresh, empty function table.
    pub fn new() -> (r: FuncTable)
        ensures
            r@ == Map::<Seq<char>, SpecSig>::empty(),
    {
        FuncTable { entries: Vec::new() }
    }

    /// Records a function signature, overwriting any earlier entry under the
    /// same name.
    pub fn insert(&mut self, name: String, params: Vec<IrType>, ret: Option<IrType>)
        ensures
            final(self)@ == old(self)@.insert(name@, SpecSig { params: params@, ret }),
    {
        let ghost before = self.entries@;
        self.entries.push(FuncDecl { name, params, ret });
        proof {
            assert(self.entries@.subrange(0, before.len() as int) =~= before);
            lemma_func_prefix_stable(self.entries@, before, before.len() as int);
        }
    }

    fn lookup_prefix(&self, name: &String, i: usize) -> (r: Option<Option<IrType>>)
        requires
            i <= self.entries@.len(),
        ensures
            r == (if func_map_prefix(self.entries@, i as int).contains_key(name@) {
                Some(func_map_prefix(self.entries@, i as int)[name@].ret)
            } else {
                Option::<Option<IrType>>::None
            }),
        decreases i,
    {
        if i == 0 {
            Option::None
        } else if self.entries[i - 1].name == *name {
            Option::Some(self.entries[i - 1].ret)
        } else {
            self.lookup_prefix(name, i - 1)
        }
    }

    /// The return type of the function registered under `name` — `Some(ret)`
    /// when the name is declared, `None` when it is not.
    pub fn lookup_ret(&self, name: &String) -> (r: Option<Option<IrType>>)
        ensures
            r == (if self@.contains_key(name@) {
                Some(self@[name@].ret)
            } else {
                Option::<Option<IrType>>::None
            }),
    {
        self.lookup_prefix(name, self.entries.len())
    }
}

/// A prefix of a sequence of declarations denotes the same map in any
/// extension of that sequence.
proof fn lemma_func_prefix_stable(s: Seq<FuncDecl>, t: Seq<FuncDecl>, i: int)
    requires
        0 <= i <= t.len(),
        t.len() <= s.len(),
        s.subrange(0, t.len() as int) == t,
    ensures
        func_map_prefix(s, i) == func_map_prefix(t, i),
    decreases i,
{
    if i > 0 {
        lemma_func_prefix_stable(s, t, i - 1);
        assert(s[i - 1] == t[i - 1]);
    }
}

} // verus!
