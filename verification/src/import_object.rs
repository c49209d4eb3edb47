//! The caller-supplied import object: a mapping keyed by a two-part
//! `(module name, field name)` string key to a tagged import value.
//!
//! Lookup is by exact key; absence is distinguishable from a kind mismatch
//! (the latter is a hard link error regardless of mock settings).

use vstd::prelude::*;

verus! {

/// A value supplied for an import: a native function address, an 8-byte
/// global value, a table, or a memory.
#[derive(Debug, Clone, Copy, PartialEq, Eq)]
pub enum ImportValue {
    /// The native address of an imported function.
    Func(u64),
    /// The 8-byte value of an imported global.
    Global(i64),
    /// An imported table (not connected by this engine; present so that a
    /// mis-kinded import can be told apart from a missing one).
    Table,
    /// An imported memory (not connected by this engine).
    Memory,
}

/// One `(module, field) -> value` binding.
pub struct ImportEntry {
    pub module: String,
    pub field: String,
    pub value: ImportValue,
}

/// The import object: an ordered list of bindings, looked up by exact
/// two-part key, first match wins.
pub struct ImportObject {
    pub entries: Vec<ImportEntry>,
}

/// The value bound to `(module, field)`, if any: the first entry whose key
/// matches, by exact character-for-character comparison.
pub open spec fn lookup_spec(
    entries: Seq<ImportEntry>,
    module: Seq<char>,
    field: Seq<char>,
) -> Option<ImportValue>
    decreases entries.len(),
{
    if entries.len() == 0 {
        None
    } else if entries[0].module@ == module && entries[0].field@ == field {
        Some(entries[0].value)
    } else {
        lookup_spec(entries.drop_first(), module, field)
    }
}

impl ImportObject {
    /// An import object with no bindings.
    pub fn new() -> (r: ImportObject)
        ensures
            r.entries@.len() == 0,
    {
        ImportObject { entries: Vec::new() }
    }

    /// Append a binding for `(module, field)`.
    pub fn register(&mut self, module: String, field: String, value: ImportValue)
        ensures
            final(self).entries@.len() == old(self).entries@.len() + 1,
            final(self).entries@.last().module@ == module@,
            final(self).entries@.last().field@ == field@,
            final(self).entries@.last().value == value,
            forall|i: int| 0 <= i < old(self).entries@.len()
                ==> final(self).entries@[i] == old(self).entries@[i],
    {
        self.entries.push(ImportEntry { module, field, value });
    }

    /// Look up the value bound to `(module, field)`.
    pub fn get(&self, module: &String, field: &String) -> (r: Option<ImportValue>)
        ensures
            r == lookup_spec(self.entries@, module@, field@),
    {
        let n = self.entries.len();
        let mut i: usize = 0;
        proof {
            assert(self.entries@.skip(0) =~= self.entries@);
        }
        while i < n
            invariant
                i <= n,
                n == self.entries@.len(),
                lookup_spec(self.entries@, module@, field@)
                    == lookup_spec(self.entries@.skip(i as int), module@, field@),
            decreases n - i,
        {
            let e = &self.entries[i];
            proof {
                assert(self.entries@.skip(i as int)[0] == self.entries@[i as int]);
                assert(self.entries@.skip(i as int).drop_first()
                    =~= self.entries@.skip(i as int + 1));
            }
            if e.module == *module && e.field == *field {
                return Some(e.value);
            }
            i = i + 1;
        }
        proof {
            assert(self.entries@.skip(n as int) =~= Seq::<ImportEntry>::empty());
        }
        None
    }
}

} // verus!
