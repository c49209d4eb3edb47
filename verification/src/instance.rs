//! The assembled, ready-to-run realization of a module, and the
//! instantiation algorithm that builds it.
//!
//! Instantiation runs in fixed phases: the import linker resolves imported
//! functions, the relocation resolver patches every compiled function
//! against the now-complete address space, the global initializer computes
//! the 8-byte global slots, table and memory slots are allocated from the
//! declarations (element/data segment population is an open extension
//! point), the start function is resolved and validated, the runtime
//! context descriptors are laid out, and the ABI compatibility shim is
//! optionally wired.
//!
//! The host supplies the compiled artifact of each local function together
//! with the final native address of its code buffer, and the addresses of
//! the stub/intrinsic/library routines; invoking the finished code is the
//! host's part, through a protected call.

use vstd::prelude::*;

use crate::errors::{ErrorKind, LinkFault};
use crate::func_addr_spec;
use crate::import_object::{ImportEntry, ImportObject};
use crate::link::{
    evaluate_globals, func_import_fault_matches, func_import_resolvable, global_fault_matches,
    global_ok, global_value, resolve_imported_functions, resolved_import_addrs,
};
use crate::memory::LinearMemory;
use crate::module::{Export, MemoryDecl, Module, TableDecl, export_lookup_spec, module_wf};
use crate::relocation::{
    HostAddrs, Relocation, all_relocs_ok, apply_relocations, apply_relocs_spec,
    reloc_fault_matches, reloc_ok, relocs_ok,
};

verus! {

/// The transient artifact of compiling one local function: its
/// machine-code buffer and its ordered relocation records. Consumed once
/// by the relocation resolver.
pub struct CompiledFunction {
    pub code_buf: Vec<u8>,
    pub relocs: Vec<Relocation>,
}

/// The code buffers of a compiled batch, in local-function order.
pub open spec fn compiled_codes(compiled: Seq<CompiledFunction>) -> Seq<Vec<u8>> {
    compiled.map_values(|cf: CompiledFunction| cf.code_buf)
}

/// The relocation lists of a compiled batch, in local-function order.
pub open spec fn compiled_rel_lists(compiled: Seq<CompiledFunction>) -> Seq<Vec<Relocation>> {
    compiled.map_values(|cf: CompiledFunction| cf.relocs)
}

/// Which guest ABI convention the instance is configured for.
#[derive(Debug, Clone, Copy, PartialEq, Eq, Structural)]
pub enum InstanceABI {
    Emscripten,
    /// No guest ABI convention: the shim is never installed.
    Plain,
}

/// Instantiation configuration.
#[derive(Debug, Clone, Copy, PartialEq, Eq, Structural)]
pub struct InstanceOptions {
    /// Substitute a stub for a missing imported function instead of
    /// failing with a link error.
    pub mock_missing_imports: bool,
    /// Substitute zero for a missing imported global.
    pub mock_missing_globals: bool,
    /// Substitute an empty table for a missing imported table.
    pub mock_missing_tables: bool,
    pub abi: InstanceABI,
    /// Whether the host should display compilation progress; carried for
    /// the host, never read by the engine.
    pub show_progressbar: bool,
}

/// The five well-known allocator/runtime-support exports captured when the
/// ABI compatibility shim is active. Entries whose export is absent hold
/// the sentinel zero address.
#[derive(Debug, Clone, Copy, PartialEq, Eq)]
pub struct EmscriptenData {
    pub malloc: u64,
    pub free: u64,
    pub memalign: u64,
    pub memset: u64,
    pub stack_alloc: u64,
}

/// The bound halves of the runtime-context descriptor block: the table
/// descriptor bounds, the memory descriptor bounds, and the byte size of
/// the global region, in that exact order. The pointer halves, and the
/// raw block generated code indexes into, are the host's part; the field
/// order and the offsets below are the ABI contract with the code
/// generator and must not be rearranged.
#[derive(Debug, Clone, PartialEq, Eq)]
pub struct DataPointers {
    /// Element count of each table slot.
    pub tables: Vec<usize>,
    /// Byte bound of each memory slot.
    pub memories: Vec<usize>,
    /// Byte size of the global region (8 bytes per global).
    pub globals: usize,
}

/// A fully linked, directly executable realization of a module.
#[derive(Debug)]
pub struct Instance {
    /// Runtime-context descriptor bounds (see `DataPointers`).
    pub data_pointers: DataPointers,
    /// Backing storage of the locally defined tables.
    pub tables: Vec<Vec<usize>>,
    /// Backing storage of the locally defined memories.
    pub memories: Vec<LinearMemory>,
    /// The 8-byte global slots, in declaration order.
    pub globals: Vec<i64>,
    /// The finalized (relocated) code buffer of each local function.
    pub functions: Vec<Vec<u8>>,
    /// The final native address of each local function's code buffer.
    pub function_bases: Vec<u64>,
    /// The resolved native address of each imported function.
    pub import_functions: Vec<u64>,
    /// The start function, if any, in the combined index space.
    pub start_func: Option<u32>,
    /// The ABI compatibility shim, when configured and present.
    pub emscripten_data: Option<EmscriptenData>,
}

/// The start function: the module-declared index, or else the export
/// named `main`.
pub open spec fn start_func_spec(m: &Module) -> Option<u32> {
    match m.start_func {
        Some(i) => Some(i),
        None => match export_lookup_spec(m.exports@, "main"@) {
            Some(Export::Function(i)) => Some(i),
            _ => None,
        },
    }
}

/// Whether the export under `name`, if it is a function, lies in the
/// combined index space.
pub open spec fn shim_export_ok(m: &Module, name: Seq<char>, n_funcs: int) -> bool {
    match export_lookup_spec(m.exports@, name) {
        Some(Export::Function(i)) => i < n_funcs,
        _ => true,
    }
}

/// The shim address captured for `name`: the export's resolved native
/// address when it is a function, the sentinel zero otherwise.
pub open spec fn shim_export_addr(
    m: &Module,
    name: Seq<char>,
    imports: Seq<u64>,
    bases: Seq<u64>,
) -> u64 {
    match export_lookup_spec(m.exports@, name) {
        Some(Export::Function(i)) => func_addr_spec(imports, bases, i as int),
        _ => 0,
    }
}

/// Whether any of the five well-known exports is present (under any
/// export kind); the shim is installed exactly when one is.
pub open spec fn shim_present(m: &Module) -> bool {
    ||| export_lookup_spec(m.exports@, "_malloc"@) is Some
    ||| export_lookup_spec(m.exports@, "_free"@) is Some
    ||| export_lookup_spec(m.exports@, "_memalign"@) is Some
    ||| export_lookup_spec(m.exports@, "_memset"@) is Some
    ||| export_lookup_spec(m.exports@, "stackAlloc"@) is Some
}

/// Whether all five well-known exports resolve cleanly.
pub open spec fn shim_exports_ok(m: &Module, n_funcs: int) -> bool {
    &&& shim_export_ok(m, "_malloc"@, n_funcs)
    &&& shim_export_ok(m, "_free"@, n_funcs)
    &&& shim_export_ok(m, "_memalign"@, n_funcs)
    &&& shim_export_ok(m, "_memset"@, n_funcs)
    &&& shim_export_ok(m, "stackAlloc"@, n_funcs)
}

/// The error owed when one of the five well-known exports is a function
/// whose index lies outside the combined index space.
pub open spec fn shim_fault_matches(m: &Module, n_funcs: int, e: ErrorKind) -> bool {
    exists|i: u32|
        {
            &&& e == ErrorKind::LinkError(LinkFault::InvalidFunctionIndex { index: i as usize })
            &&& i as int >= n_funcs
            &&& {
                ||| export_lookup_spec(m.exports@, "_malloc"@) == Some(Export::Function(i))
                ||| export_lookup_spec(m.exports@, "_free"@) == Some(Export::Function(i))
                ||| export_lookup_spec(m.exports@, "_memalign"@) == Some(Export::Function(i))
                ||| export_lookup_spec(m.exports@, "_memset"@) == Some(Export::Function(i))
                ||| export_lookup_spec(m.exports@, "stackAlloc"@) == Some(Export::Function(i))
            }
        }
}

/// Whether the whole instantiation succeeds: every phase's own condition,
/// over the module, the import object's bindings, the configuration and
/// the compiled batch.
pub open spec fn instantiation_ok(
    m: &Module,
    entries: Seq<ImportEntry>,
    options: InstanceOptions,
    compiled: Seq<CompiledFunction>,
) -> bool {
    let n_funcs = m.imported_funcs@.len() as int + compiled.len() as int;
    &&& (forall|i: int| 0 <= i < m.imported_funcs@.len() ==> func_import_resolvable(
        #[trigger] m.imported_funcs@[i],
        entries,
        options.mock_missing_imports,
    ))
    &&& all_relocs_ok(compiled_codes(compiled), compiled_rel_lists(compiled), n_funcs)
    &&& (forall|i: int| 0 <= i < m.globals@.len() ==> global_ok(
        m.globals@,
        entries,
        options.mock_missing_globals,
        i,
    ))
    &&& (start_func_spec(m) matches Some(s) ==> (s as int) < n_funcs)
    &&& (options.abi == InstanceABI::Emscripten ==> shim_exports_ok(m, n_funcs))
}

/// The error owed when instantiation fails: the fault of the first phase
/// that fails, in phase order, and within a phase the fault of the first
/// item that fails.
pub open spec fn instantiation_fault_matches(
    m: &Module,
    entries: Seq<ImportEntry>,
    options: InstanceOptions,
    compiled: Seq<CompiledFunction>,
    e: ErrorKind,
) -> bool {
    let n_funcs = m.imported_funcs@.len() as int + compiled.len() as int;
    let imports_ok = forall|i: int| 0 <= i < m.imported_funcs@.len() ==> func_import_resolvable(
        #[trigger] m.imported_funcs@[i],
        entries,
        options.mock_missing_imports,
    );
    let codes = compiled_codes(compiled);
    let rels = compiled_rel_lists(compiled);
    let rel_ok = all_relocs_ok(codes, rels, n_funcs);
    let globals_ok = forall|i: int| 0 <= i < m.globals@.len() ==> global_ok(
        m.globals@,
        entries,
        options.mock_missing_globals,
        i,
    );
    if !imports_ok {
        exists|j: int|
            {
                &&& 0 <= j < m.imported_funcs@.len()
                &&& (forall|i: int| 0 <= i < j ==> func_import_resolvable(
                    #[trigger] m.imported_funcs@[i],
                    entries,
                    options.mock_missing_imports,
                ))
                &&& func_import_fault_matches(
                    #[trigger] m.imported_funcs@[j],
                    entries,
                    options.mock_missing_imports,
                    e,
                )
            }
    } else if !rel_ok {
        exists|i: int, j: int|
            #![trigger rels[i]@[j]]
            {
                &&& 0 <= i < compiled.len()
                &&& (forall|i2: int| 0 <= i2 < i ==> relocs_ok(
                    (#[trigger] codes[i2])@.len() as int,
                    n_funcs,
                    rels[i2]@,
                ))
                &&& 0 <= j < rels[i]@.len()
                &&& (forall|j2: int| 0 <= j2 < j ==> reloc_ok(
                    codes[i]@.len() as int,
                    n_funcs,
                    #[trigger] rels[i]@[j2],
                ))
                &&& reloc_fault_matches(rels[i]@[j], codes[i]@.len() as int, n_funcs, e)
            }
    } else if !globals_ok {
        exists|j: int|
            {
                &&& 0 <= j < m.globals@.len()
                &&& (forall|i: int| 0 <= i < j ==> global_ok(
                    m.globals@,
                    entries,
                    options.mock_missing_globals,
                    i,
                ))
                &&& global_fault_matches(m.globals@, entries, options.mock_missing_globals, j, e)
            }
    } else if !(start_func_spec(m) matches Some(s) ==> (s as int) < n_funcs) {
        start_func_spec(m) matches Some(s) && e == ErrorKind::LinkError(
            LinkFault::InvalidFunctionIndex { index: s as usize },
        )
    } else {
        options.abi == InstanceABI::Emscripten && !shim_exports_ok(m, n_funcs)
            && shim_fault_matches(m, n_funcs, e)
    }
}

/// A zero-filled table of `n` element slots.
fn zero_table(n: u32) -> (r: Vec<usize>)
    ensures
        r@ == Seq::new(n as nat, |j: int| 0usize),
{
    let mut v: Vec<usize> = Vec::new();
    let mut i: u32 = 0;
    while i < n
        invariant
            i <= n,
            v@.len() == i,
            forall|j: int| 0 <= j < i ==> v@[j] == 0usize,
        decreases n - i,
    {
        v.push(0);
        i = i + 1;
    }
    proof {
        assert(v@ =~= Seq::new(n as nat, |j: int| 0usize));
    }
    v
}

/// Allocate the table slot structure: one zero-filled table per
/// declaration. (Element-segment population is an open extension point.)
fn build_tables(decls: &Vec<TableDecl>) -> (r: Vec<Vec<usize>>)
    ensures
        r@.len() == decls@.len(),
        forall|i: int| 0 <= i < decls@.len() ==> (#[trigger] r@[i])@ == Seq::new(
            decls@[i].entries as nat,
            |j: int| 0usize,
        ),
{
    let n = decls.len();
    let mut out: Vec<Vec<usize>> = Vec::new();
    let mut i: usize = 0;
    while i < n
        invariant
            i <= n,
            n == decls@.len(),
            out@.len() == i,
            forall|k: int| 0 <= k < i ==> (#[trigger] out@[k])@ == Seq::new(
                decls@[k].entries as nat,
                |j: int| 0usize,
            ),
        decreases n - i,
    {
        out.push(zero_table(decls[i].entries));
        i = i + 1;
    }
    out
}

/// Allocate the memory slot structure: one zero-filled memory per
/// declaration. (Data-segment population is an open extension point.)
fn build_memories(decls: &Vec<MemoryDecl>) -> (r: Vec<LinearMemory>)
    requires
        forall|i: int| 0 <= i < decls@.len() ==> {
            &&& (#[trigger] decls@[i]).initial as int * crate::memory::PAGE_SIZE as int <= usize::MAX as int
            &&& decls@[i].initial <= crate::memory::MAX_PAGES
            &&& (decls@[i].maximum matches Some(mx)
                ==> decls@[i].initial <= mx && mx <= crate::memory::MAX_PAGES)
        },
    ensures
        r@.len() == decls@.len(),
        forall|i: int| 0 <= i < decls@.len() ==> {
            &&& (#[trigger] r@[i]).wf()
            &&& r@[i].current == decls@[i].initial
            &&& r@[i].maximum == decls@[i].maximum
        },
{
    let n = decls.len();
    let mut out: Vec<LinearMemory> = Vec::new();
    let mut i: usize = 0;
    while i < n
        invariant
            i <= n,
            n == decls@.len(),
            out@.len() == i,
            forall|k: int| 0 <= k < n ==> {
                &&& (#[trigger] decls@[k]).initial as int * crate::memory::PAGE_SIZE as int <= usize::MAX as int
                &&& decls@[k].initial <= crate::memory::MAX_PAGES
                &&& (decls@[k].maximum matches Some(mx)
                    ==> decls@[k].initial <= mx && mx <= crate::memory::MAX_PAGES)
            },
            forall|k: int| 0 <= k < i ==> {
                &&& (#[trigger] out@[k]).wf()
                &&& out@[k].current == decls@[k].initial
                &&& out@[k].maximum == decls@[k].maximum
            },
        decreases n - i,
    {
        let d = decls[i];
        out.push(LinearMemory::new(d.initial, d.maximum));
        i = i + 1;
    }
    out
}

/// Lay out the runtime-context descriptor bounds from the backing storage:
/// each table's element count, each memory's current byte bound, and the
/// global region's byte size, in the contractual order.
fn build_data_pointers(
    tables: &Vec<Vec<usize>>,
    memories: &Vec<LinearMemory>,
    globals: &Vec<i64>,
) -> (r: DataPointers)
    requires
        globals@.len() * 8 <= usize::MAX as int,
    ensures
        r.tables@.len() == tables@.len(),
        forall|i: int| 0 <= i < tables@.len() ==> r.tables@[i] == (#[trigger] tables@[i])@.len(),
        r.memories@.len() == memories@.len(),
        forall|i: int| 0 <= i < memories@.len() ==> r.memories@[i]
            == (#[trigger] memories@[i]).data@.len(),
        r.globals == globals@.len() * 8,
{
    let mut tb: Vec<usize> = Vec::new();
    let mut i: usize = 0;
    let n = tables.len();
    while i < n
        invariant
            i <= n,
            n == tables@.len(),
            tb@.len() == i,
            forall|k: int| 0 <= k < i ==> tb@[k] == (#[trigger] tables@[k])@.len(),
        decreases n - i,
    {
        tb.push(tables[i].len());
        i = i + 1;
    }
    let mut mb: Vec<usize> = Vec::new();
    let m = memories.len();
    let mut j: usize = 0;
    while j < m
        invariant
            j <= m,
            m == memories@.len(),
            mb@.len() == j,
            forall|k: int| 0 <= k < j ==> mb@[k] == (#[trigger] memories@[k]).data@.len(),
        decreases m - j,
    {
        mb.push(memories[j].data.len());
        j = j + 1;
    }
    DataPointers { tables: tb, memories: mb, globals: globals.len() * 8 }
}

/// Resolve the start function: the module-declared index, or else the
/// export named `main`.
fn resolve_start_func(module: &Module) -> (r: Option<u32>)
    ensures
        r == start_func_spec(module),
{
    match module.start_func {
        Some(i) => Some(i),
        None => {
            let key: String = "main".to_owned();
            match module.get_export(&key) {
                Some(Export::Function(i)) => Some(i),
                _ => None,
            }
        },
    }
}

/// The shim address for one well-known export name: the export's resolved
/// native address when it is a function in range, the sentinel zero when
/// it is absent or not a function.
fn shim_addr(
    module: &Module,
    name: &String,
    import_functions: &Vec<u64>,
    function_bases: &Vec<u64>,
) -> (r: Result<u64, ErrorKind>)
    ensures
        r is Ok <==> shim_export_ok(
            module,
            name@,
            (import_functions@.len() + function_bases@.len()) as int,
        ),
        r matches Ok(a) ==> a == shim_export_addr(
            module,
            name@,
            import_functions@,
            function_bases@,
        ),
        r matches Err(e) ==> (export_lookup_spec(module.exports@, name@) matches Some(
            Export::Function(i),
        ) && i as int >= import_functions@.len() + function_bases@.len() && e
            == ErrorKind::LinkError(LinkFault::InvalidFunctionIndex { index: i as usize })),
{
    match module.get_export(name) {
        Some(Export::Function(i)) => {
            let idx = i as usize;
            let nimp = import_functions.len();
            if idx < nimp || idx - nimp < function_bases.len() {
                Ok(crate::get_function_addr(idx, import_functions, function_bases))
            } else {
                Err(ErrorKind::LinkError(LinkFault::InvalidFunctionIndex { index: idx }))
            }
        },
        _ => Ok(0),
    }
}

/// Wire the ABI compatibility shim: look up the five well-known exports;
/// if none is present the shim is absent, otherwise each present export's
/// address is captured and absent entries keep the sentinel zero.
fn build_emscripten_data(
    module: &Module,
    import_functions: &Vec<u64>,
    function_bases: &Vec<u64>,
) -> (r: Result<Option<EmscriptenData>, ErrorKind>)
    ensures
        r is Ok <==> shim_exports_ok(
            module,
            (import_functions@.len() + function_bases@.len()) as int,
        ),
        r matches Ok(d) ==> {
            &&& (d is Some <==> shim_present(module))
            &&& (d matches Some(data) ==> {
                &&& data.malloc == shim_export_addr(
                    module,
                    "_malloc"@,
                    import_functions@,
                    function_bases@,
                )
                &&& data.free == shim_export_addr(
                    module,
                    "_free"@,
                    import_functions@,
                    function_bases@,
                )
                &&& data.memalign == shim_export_addr(
                    module,
                    "_memalign"@,
                    import_functions@,
                    function_bases@,
                )
                &&& data.memset == shim_export_addr(
                    module,
                    "_memset"@,
                    import_functions@,
                    function_bases@,
                )
                &&& data.stack_alloc == shim_export_addr(
                    module,
                    "stackAlloc"@,
                    import_functions@,
                    function_bases@,
                )
            })
        },
        r matches Err(e) ==> shim_fault_matches(
            module,
            (import_functions@.len() + function_bases@.len()) as int,
            e,
        ),
{
    let malloc_name: String = "_malloc".to_owned();
    let free_name: String = "_free".to_owned();
    let memalign_name: String = "_memalign".to_owned();
    let memset_name: String = "_memset".to_owned();
    let stack_alloc_name: String = "stackAlloc".to_owned();
    let malloc_export = module.get_export(&malloc_name);
    let free_export = module.get_export(&free_name);
    let memalign_export = module.get_export(&memalign_name);
    let memset_export = module.get_export(&memset_name);
    let stack_alloc_export = module.get_export(&stack_alloc_name);
    if malloc_export.is_none() && free_export.is_none() && memalign_export.is_none()
        && memset_export.is_none() && stack_alloc_export.is_none() {
        Ok(None)
    } else {
        let malloc = match shim_addr(module, &malloc_name, import_functions, function_bases) {
            Ok(a) => a,
            Err(e) => {
                return Err(e);
            },
        };
        let free = match shim_addr(module, &free_name, import_functions, function_bases) {
            Ok(a) => a,
            Err(e) => {
                return Err(e);
            },
        };
        let memalign = match shim_addr(module, &memalign_name, import_functions, function_bases) {
            Ok(a) => a,
            Err(e) => {
                return Err(e);
            },
        };
        let memset = match shim_addr(module, &memset_name, import_functions, function_bases) {
            Ok(a) => a,
            Err(e) => {
                return Err(e);
            },
        };
        let stack_alloc = match shim_addr(
            module,
            &stack_alloc_name,
            import_functions,
            function_bases,
        ) {
            Ok(a) => a,
            Err(e) => {
                return Err(e);
            },
        };
        Ok(Some(EmscriptenData { malloc, free, memalign, memset, stack_alloc }))
    }
}

/// Offset of the table descriptors within the runtime-context block
/// (64-bit layout, one pointer-sized descriptor slot each): part of the
/// code generator's calling convention.
pub const TABLES_OFFSET: usize = 0;

/// Offset of the memory descriptors within the runtime-context block.
pub const MEMORIES_OFFSET: usize = 8;

/// Offset of the global region descriptor within the runtime-context
/// block.
pub const GLOBALS_OFFSET: usize = 16;

impl Instance {
    /// The instance's internal invariant: one base address per finalized
    /// function, well-formed memories, and a start function (when
    /// present) inside the combined index space.
    pub open spec fn wf(&self) -> bool {
        &&& self.function_bases@.len() == self.functions@.len()
        &&& (forall|i: int| 0 <= i < self.memories@.len()
            ==> (#[trigger] self.memories@[i]).wf())
        &&& (self.start_func matches Some(s) ==> (s as int)
            < self.import_functions@.len() + self.functions@.len())
    }

    /// The instantiation algorithm. `compiled[i]` is the compiled
    /// artifact of the `i`-th module-defined function and
    /// `function_bases[i]` the final native address of its code buffer;
    /// `host` carries the native addresses of the stub, intrinsic and
    /// library routines.
    pub fn new(
        module: &Module,
        import_object: &ImportObject,
        options: &InstanceOptions,
        compiled: Vec<CompiledFunction>,
        function_bases: Vec<u64>,
        host: &HostAddrs,
    ) -> (r: Result<Instance, ErrorKind>)
        requires
            function_bases@.len() == compiled@.len(),
            module_wf(module),
        ensures
            r is Ok <==> instantiation_ok(module, import_object.entries@, *options, compiled@),
            r matches Err(e) ==> instantiation_fault_matches(
                module,
                import_object.entries@,
                *options,
                compiled@,
                e,
            ),
            r matches Ok(inst) ==> {
                let entries = import_object.entries@;
                let imports_seq = resolved_import_addrs(
                    module.imported_funcs@,
                    entries,
                    host.mock_function,
                );
                &&& inst.wf()
                &&& inst.import_functions@ == imports_seq
                &&& inst.function_bases@ == function_bases@
                &&& inst.functions@.len() == compiled@.len()
                &&& (forall|i: int| 0 <= i < compiled@.len()
                    ==> (#[trigger] inst.functions@[i])@ == apply_relocs_spec(
                    compiled@[i].code_buf@,
                    function_bases@[i],
                    compiled@[i].relocs@,
                    imports_seq,
                    function_bases@,
                    *host,
                ))
                &&& inst.globals@.len() == module.globals@.len()
                &&& (forall|i: int| 0 <= i < module.globals@.len()
                    ==> inst.globals@[i] == global_value(
                    module.globals@,
                    entries,
                    options.mock_missing_globals,
                    i,
                ))
                &&& inst.tables@.len() == module.tables@.len()
                &&& (forall|i: int| 0 <= i < module.tables@.len()
                    ==> (#[trigger] inst.tables@[i])@ == Seq::new(
                    module.tables@[i].entries as nat,
                    |j: int| 0usize,
                ))
                &&& inst.memories@.len() == module.memories@.len()
                &&& (forall|i: int| 0 <= i < module.memories@.len() ==> {
                    &&& (#[trigger] inst.memories@[i]).current == module.memories@[i].initial
                    &&& inst.memories@[i].maximum == module.memories@[i].maximum
                })
                &&& inst.start_func == start_func_spec(module)
                &&& (options.abi == InstanceABI::Plain ==> inst.emscripten_data is None)
                &&& (options.abi == InstanceABI::Emscripten ==> {
                    &&& (inst.emscripten_data is Some <==> shim_present(module))
                    &&& (inst.emscripten_data matches Some(d) ==> {
                        &&& d.malloc == shim_export_addr(
                            module,
                            "_malloc"@,
                            imports_seq,
                            function_bases@,
                        )
                        &&& d.free == shim_export_addr(
                            module,
                            "_free"@,
                            imports_seq,
                            function_bases@,
                        )
                        &&& d.memalign == shim_export_addr(
                            module,
                            "_memalign"@,
                            imports_seq,
                            function_bases@,
                        )
                        &&& d.memset == shim_export_addr(
                            module,
                            "_memset"@,
                            imports_seq,
                            function_bases@,
                        )
                        &&& d.stack_alloc == shim_export_addr(
                            module,
                            "stackAlloc"@,
                            imports_seq,
                            function_bases@,
                        )
                    })
                })
                &&& inst.data_pointers.tables@.len() == inst.tables@.len()
                &&& (forall|i: int| 0 <= i < inst.tables@.len()
                    ==> inst.data_pointers.tables@[i] == (#[trigger] inst.tables@[i])@.len())
                &&& inst.data_pointers.memories@.len() == inst.memories@.len()
                &&& (forall|i: int| 0 <= i < inst.memories@.len()
                    ==> inst.data_pointers.memories@[i]
                    == (#[trigger] inst.memories@[i]).data@.len())
                &&& inst.data_pointers.globals == inst.globals@.len() * 8
            },
    {
        let ghost compiled0 = compiled@;
        let ghost entries = import_object.entries@;

        // Phase 1: the import linker resolves imported functions.
        let import_functions = match resolve_imported_functions(
            &module.imported_funcs,
            import_object,
            options.mock_missing_imports,
            host.mock_function,
        ) {
            Ok(v) => v,
            Err(e) => {
                return Err(e);
            },
        };
        proof {
            assert(import_functions@ =~= resolved_import_addrs(
                module.imported_funcs@,
                entries,
                host.mock_function,
            ));
        }

        // Split the compiled batch into its code buffers and record lists.
        let mut rest = compiled;
        let mut code: Vec<Vec<u8>> = Vec::new();
        let mut rel: Vec<Vec<Relocation>> = Vec::new();
        proof {
            assert(rest@ =~= compiled0.skip(0));
        }
        while rest.len() > 0
            invariant
                code@.len() + rest@.len() == compiled0.len(),
                rel@.len() == code@.len(),
                rest@ == compiled0.skip(code@.len() as int),
                forall|k: int| 0 <= k < code@.len()
                    ==> #[trigger] code@[k] == compiled0[k].code_buf,
                forall|k: int| 0 <= k < code@.len()
                    ==> #[trigger] rel@[k] == compiled0[k].relocs,
            decreases rest@.len(),
        {
            proof {
                assert(compiled0.skip(code@.len() as int)[0] == compiled0[code@.len() as int]);
            }
            let cf = rest.remove(0);
            code.push(cf.code_buf);
            rel.push(cf.relocs);
            proof {
                assert(rest@ =~= compiled0.skip(code@.len() as int));
            }
        }
        proof {
            assert(code@ =~= compiled_codes(compiled0));
            assert(rel@ =~= compiled_rel_lists(compiled0));
        }

        // Phase 2: the relocation resolver patches every function against
        // the now-complete address space.
        let functions = match apply_relocations(
            &code,
            &function_bases,
            &rel,
            &import_functions,
            host,
        ) {
            Ok(f) => f,
            Err(e) => {
                return Err(e);
            },
        };

        // Phase 3: the global initializer evaluates the 8-byte slots.
        let globals = match evaluate_globals(
            &module.globals,
            import_object,
            options.mock_missing_globals,
        ) {
            Ok(g) => g,
            Err(e) => {
                return Err(e);
            },
        };

        // Phase 4: table and memory slot structure. Element/data segment
        // population is an open extension point.
        let tables = build_tables(&module.tables);
        let memories = build_memories(&module.memories);

        // Phase 5: resolve and validate the start function.
        let start_func = resolve_start_func(module);
        if let Some(s) = start_func {
            let idx = s as usize;
            let nimp = import_functions.len();
            if !(idx < nimp || idx - nimp < functions.len()) {
                let e = ErrorKind::LinkError(LinkFault::InvalidFunctionIndex { index: idx });
                return Err(e);
            }
        }

        // Phase 6: the runtime-context descriptor bounds.
        let data_pointers = build_data_pointers(&tables, &memories, &globals);

        // Phase 7: the ABI compatibility shim, when configured.
        let emscripten_data = match options.abi {
            InstanceABI::Emscripten => match build_emscripten_data(
                module,
                &import_functions,
                &function_bases,
            ) {
                Ok(d) => d,
                Err(e) => {
                    return Err(e);
                },
            },
            InstanceABI::Plain => None,
        };

        Ok(Instance {
            data_pointers,
            tables,
            memories,
            globals,
            functions,
            function_bases,
            import_functions,
            start_func,
            emscripten_data,
        })
    }

    /// The callable native address of the function at `func_index` of the
    /// combined import+local index space.
    pub fn get_function_pointer(&self, func_index: usize) -> (r: u64)
        requires
            func_index < self.import_functions@.len() + self.functions@.len(),
            self.wf(),
        ensures
            r == func_addr_spec(self.import_functions@, self.function_bases@, func_index as int),
    {
        crate::get_function_addr(func_index, &self.import_functions, &self.function_bases)
    }

    /// The native address of the start function, if the module has one;
    /// the host invokes it through a protected call. Absence of a start
    /// function is not an error.
    pub fn start(&self) -> (r: Option<u64>)
        requires
            self.wf(),
        ensures
            match self.start_func {
                Some(s) => r == Some(func_addr_spec(
                    self.import_functions@,
                    self.function_bases@,
                    s as int,
                )),
                None => r is None,
            },
    {
        match self.start_func {
            Some(s) => Some(
                crate::get_function_addr(s as usize, &self.import_functions, &self.function_bases),
            ),
            None => None,
        }
    }

    /// The linear memory at `memory_index`, for mutation.
    pub fn memory_mut(&mut self, memory_index: usize) -> (r: &mut LinearMemory)
        requires
            memory_index < old(self).memories@.len(),
        ensures
            *r == old(self).memories@[memory_index as int],
            final(self).memories@ == old(self).memories@.update(
                memory_index as int,
                *final(r),
            ),
            final(self).data_pointers == old(self).data_pointers,
            final(self).tables == old(self).tables,
            final(self).globals == old(self).globals,
            final(self).functions == old(self).functions,
            final(self).function_bases == old(self).function_bases,
            final(self).import_functions == old(self).import_functions,
            final(self).start_func == old(self).start_func,
            final(self).emscripten_data == old(self).emscripten_data,
    {
        &mut self.memories[memory_index]
    }

    /// The contents of the addressed linear memory over
    /// `[address, address + len)`.
    pub fn inspect_memory(&self, memory_index: usize, address: usize, len: usize) -> (r: &[u8])
        requires
            memory_index < self.memories@.len(),
            address + len <= self.memories@[memory_index as int].data@.len(),
        ensures
            r@ == self.memories@[memory_index as int].data@.subrange(
                address as int,
                address as int + len as int,
            ),
    {
        let mem = &self.memories[memory_index];
        let dl: usize = mem.data.len();
        &mem.data.as_slice()[address..address + len]
    }
}

/// The memory-growth native entry point reachable by relocation: grow the
/// addressed memory by `size` pages, returning the previous page count,
/// or `-1` without mutating state when the request exceeds the memory's
/// limits. Only memory index 0 is supported.
pub fn grow_memory(size: u32, memory_index: u32, instance: &mut Instance) -> (r: i32)
    requires
        memory_index == 0,
        old(instance).memories@.len() > 0,
        old(instance).memories@[0].wf(),
    ensures
        final(instance).memories@.len() == old(instance).memories@.len(),
        r == -1 <==> !old(instance).memories@[0].fits(
            old(instance).memories@[0].current as int + size as int,
        ),
        r == -1 ==> final(instance).memories@ =~= old(instance).memories@,
        r != -1 ==> {
            &&& r == old(instance).memories@[0].current as i32
            &&& final(instance).memories@[0].wf()
            &&& final(instance).memories@[0].current == old(instance).memories@[0].current + size
            &&& final(instance).memories@[0].maximum == old(instance).memories@[0].maximum
            &&& final(instance).memories@ =~= old(instance).memories@.update(
                0,
                final(instance).memories@[0],
            )
        },
        final(instance).data_pointers == old(instance).data_pointers,
        final(instance).tables == old(instance).tables,
        final(instance).globals == old(instance).globals,
        final(instance).functions == old(instance).functions,
        final(instance).function_bases == old(instance).function_bases,
        final(instance).import_functions == old(instance).import_functions,
        final(instance).start_func == old(instance).start_func,
        final(instance).emscripten_data == old(instance).emscripten_data,
{
    let mem = instance.memory_mut(memory_index as usize);
    match mem.grow(size) {
        Ok(prev) => prev as i32,
        Err(_) => -1,
    }
}

/// The memory-size native entry point reachable by relocation: the
/// current page count of the addressed memory.
pub fn current_memory(memory_index: u32, instance: &Instance) -> (r: u32)
    requires
        (memory_index as int) < instance.memories@.len(),
    ensures
        r == instance.memories@[memory_index as int].current,
{
    instance.memories[memory_index as usize].current_pages()
}

} // verus!
