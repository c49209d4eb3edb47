//! The decoded module handed to the engine: import/export tables, global
//! declarations with their initializer expressions, table and memory
//! declarations, and the optional start-function index.
//!
//! Parsing and validation of the binary format belong to a collaborator;
//! this crate consumes the already-decoded description.

use vstd::prelude::*;

use crate::memory::PAGE_SIZE;

verus! {

/// An exported entity: an index into the corresponding index space.
/// Function indices live in the combined import+local function-index space.
#[derive(Debug, Clone, Copy, PartialEq, Eq)]
pub enum Export {
    Function(u32),
    Table(u32),
    Memory(u32),
    Global(u32),
}

/// A global's initializer expression.
#[derive(Debug, Clone, PartialEq, Eq)]
pub enum GlobalInit {
    /// A 32-bit integer constant, sign-extended into the 8-byte slot.
    I32Const(i32),
    /// A 64-bit integer constant.
    I64Const(i64),
    /// The bit pattern of a 32-bit float constant, zero-extended.
    F32Const(u32),
    /// The bit pattern of a 64-bit float constant, reinterpreted.
    F64Const(u64),
    /// The value of the global at the given index, which must be strictly
    /// earlier in declaration order.
    GetGlobal(u32),
    /// The value supplied for this global in the import object, under the
    /// declaration's import name.
    Import,
}

/// One global declaration: its initializer, and its import name when the
/// initializer is `Import`.
pub struct GlobalDecl {
    pub initializer: GlobalInit,
    pub import_name: Option<(String, String)>,
}

/// One table declaration: the number of element slots to allocate.
#[derive(Debug, Clone, Copy, PartialEq, Eq)]
pub struct TableDecl {
    pub entries: u32,
}

/// One linear-memory declaration: initial size and optional maximum,
/// both in pages.
#[derive(Debug, Clone, Copy, PartialEq, Eq)]
pub struct MemoryDecl {
    pub initial: u32,
    pub maximum: Option<u32>,
}

/// One `name -> entity` export binding.
pub struct ExportEntry {
    pub name: String,
    pub export: Export,
}

/// The immutable module description.
pub struct Module {
    /// Imported-function declarations, in declaration order: the two-part
    /// `(module name, field name)` key of each.
    pub imported_funcs: Vec<(String, String)>,
    /// Global declarations, in declaration order.
    pub globals: Vec<GlobalDecl>,
    /// Table declarations, in declaration order.
    pub tables: Vec<TableDecl>,
    /// Memory declarations, in declaration order.
    pub memories: Vec<MemoryDecl>,
    /// Export name -> entity bindings; lookup is by exact name, first
    /// match wins.
    pub exports: Vec<ExportEntry>,
    /// The module-declared start function, an index into the combined
    /// function-index space.
    pub start_func: Option<u32>,
}

/// The entity exported under `name`, if any: the first binding whose name
/// matches.
pub open spec fn export_lookup_spec(entries: Seq<ExportEntry>, name: Seq<char>) -> Option<Export>
    decreases entries.len(),
{
    if entries.len() == 0 {
        None
    } else if entries[0].name@ == name {
        Some(entries[0].export)
    } else {
        export_lookup_spec(entries.drop_first(), name)
    }
}

/// Machine limits on the declarations: every declared memory must fit in
/// addressable bytes. The binary-format validator (a collaborator) is
/// expected to have enforced these before the module reaches the engine.
pub open spec fn module_wf(m: &Module) -> bool {
    &&& forall|i: int| 0 <= i < m.memories@.len() ==> {
        &&& (#[trigger] m.memories@[i]).initial as int * PAGE_SIZE as int <= usize::MAX as int
        &&& m.memories@[i].initial <= crate::memory::MAX_PAGES
        &&& (m.memories@[i].maximum matches Some(mx)
            ==> m.memories@[i].initial <= mx && mx <= crate::memory::MAX_PAGES)
    }
    &&& m.globals@.len() * 8 <= usize::MAX as int
}

impl Module {
    /// Look up the entity exported under `name`.
    pub fn get_export(&self, name: &String) -> (r: Option<Export>)
        ensures
            r == export_lookup_spec(self.exports@, name@),
    {
        let n = self.exports.len();
        let mut i: usize = 0;
        proof {
            assert(self.exports@.skip(0) =~= self.exports@);
        }
        while i < n
            invariant
                i <= n,
                n == self.exports@.len(),
                export_lookup_spec(self.exports@, name@)
                    == export_lookup_spec(self.exports@.skip(i as int), name@),
            decreases n - i,
        {
            let e = &self.exports[i];
            proof {
                assert(self.exports@.skip(i as int)[0] == self.exports@[i as int]);
                assert(self.exports@.skip(i as int).drop_first()
                    =~= self.exports@.skip(i as int + 1));
            }
            if e.name == *name {
                return Some(e.export);
            }
            i = i + 1;
        }
        proof {
            assert(self.exports@.skip(n as int) =~= Seq::<ExportEntry>::empty());
        }
        None
    }
}

} // verus!
