//! Engine-wide laws, stated and proved over the same spec functions the
//! public contracts use.

use vstd::prelude::*;

use crate::func_addr_spec;
use crate::import_object::ImportEntry;
use crate::instance::{
    CompiledFunction, Instance, InstanceABI, InstanceOptions, compiled_codes, compiled_rel_lists,
    instantiation_ok, shim_exports_ok, start_func_spec,
};
use crate::link::{global_ok, global_value, resolved_import_addrs};
use crate::module::{GlobalDecl, GlobalInit, Module};
use crate::relocation::{HostAddrs, all_relocs_ok, apply_relocs_spec};

verus! {

/// A module with zero imported functions never fails the import-linking
/// phase, whatever the import object and the mock configuration: with an
/// empty import object and the remaining phases' own conditions met,
/// instantiation succeeds.
pub proof fn lemma_no_imports_instantiation_ok(
    m: &Module,
    options: InstanceOptions,
    compiled: Seq<CompiledFunction>,
)
    requires
        m.imported_funcs@.len() == 0,
        all_relocs_ok(
            compiled_codes(compiled),
            compiled_rel_lists(compiled),
            compiled.len() as int,
        ),
        forall|i: int| 0 <= i < m.globals@.len() ==> global_ok(
            m.globals@,
            Seq::<ImportEntry>::empty(),
            options.mock_missing_globals,
            i,
        ),
        start_func_spec(m) matches Some(s) ==> (s as int) < compiled.len(),
        options.abi == InstanceABI::Emscripten ==> shim_exports_ok(m, compiled.len() as int),
    ensures
        instantiation_ok(m, Seq::<ImportEntry>::empty(), options, compiled),
{
}

/// Global forward-reference law: a global whose initializer references
/// global index `k` always yields exactly the value global `k` was
/// initialized to, for every `k` less than the referencing global's own
/// index.
pub proof fn lemma_global_forward_reference(
    decls: Seq<GlobalDecl>,
    entries: Seq<ImportEntry>,
    mock: bool,
    i: int,
    k: u32,
)
    requires
        0 <= i < decls.len(),
        decls[i].initializer == GlobalInit::GetGlobal(k),
        (k as int) < i,
    ensures
        global_value(decls, entries, mock, i) == global_value(decls, entries, mock, k as int),
{
}

/// Relocation idempotence/determinism: two instances whose finalized code
/// satisfies the instantiation contract against equal inputs (module,
/// import bindings, compiled batch, address assignment, host routine
/// addresses) hold byte-identical machine-code buffers.
pub proof fn lemma_relocation_deterministic(
    inst1: &Instance,
    inst2: &Instance,
    m: &Module,
    entries: Seq<ImportEntry>,
    compiled: Seq<CompiledFunction>,
    bases: Seq<u64>,
    host: HostAddrs,
    mock_addr: u64,
)
    requires
        inst1.functions@.len() == compiled.len(),
        inst2.functions@.len() == compiled.len(),
        forall|i: int| 0 <= i < compiled.len() ==> (#[trigger] inst1.functions@[i])@
            == apply_relocs_spec(
            compiled[i].code_buf@,
            bases[i],
            compiled[i].relocs@,
            resolved_import_addrs(m.imported_funcs@, entries, mock_addr),
            bases,
            host,
        ),
        forall|i: int| 0 <= i < compiled.len() ==> (#[trigger] inst2.functions@[i])@
            == apply_relocs_spec(
            compiled[i].code_buf@,
            bases[i],
            compiled[i].relocs@,
            resolved_import_addrs(m.imported_funcs@, entries, mock_addr),
            bases,
            host,
        ),
    ensures
        inst1.functions@.len() == inst2.functions@.len(),
        forall|i: int| 0 <= i < compiled.len() ==> (#[trigger] inst1.functions@[i])@
            == inst2.functions@[i]@,
{
}

/// Function-index addressing: for `n` imports and `m` locals, index `i`
/// below `n` addresses the `i`-th import's registered address, and index
/// `i` in `[n, n+m)` addresses the `i-n`-th local function's buffer base.
pub proof fn lemma_function_index_addressing(imports: Seq<u64>, locals: Seq<u64>, i: int)
    requires
        0 <= i < imports.len() + locals.len(),
    ensures
        i < imports.len() ==> func_addr_spec(imports, locals, i) == imports[i],
        i >= imports.len() ==> func_addr_spec(imports, locals, i) == locals[i - imports.len()],
{
}

} // verus!
