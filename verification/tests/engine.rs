use wasm_linker::errors::{ErrorKind, LinkFault, UnsupportedFault};
use wasm_linker::import_object::{ImportObject, ImportValue};
use wasm_linker::instance::{
    CompiledFunction, EmscriptenData, Instance, InstanceABI, InstanceOptions, current_memory,
    grow_memory, GLOBALS_OFFSET, MEMORIES_OFFSET, TABLES_OFFSET,
};
use wasm_linker::memory::LinearMemory;
use wasm_linker::module::{
    Export, ExportEntry, GlobalDecl, GlobalInit, MemoryDecl, Module, TableDecl,
};
use wasm_linker::relocation::{
    apply_relocations, HostAddrs, LibCall, Reloc, Relocation, RelocationType,
};

fn host() -> HostAddrs {
    HostAddrs {
        mock_function: 0x999,
        current_memory: 0x2100,
        grow_memory: 0x2000,
        ceilf32: 0x3001,
        floorf32: 0x3002,
        truncf32: 0x3003,
        nearbyintf32: 0x3004,
        ceilf64: 0x3005,
        floorf64: 0x3006,
        truncf64: 0x3007,
        nearbyintf64: 0x3008,
        probestack: 0x3009,
    }
}

fn empty_module() -> Module {
    Module {
        imported_funcs: Vec::new(),
        globals: Vec::new(),
        tables: Vec::new(),
        memories: Vec::new(),
        exports: Vec::new(),
        start_func: None,
    }
}

fn default_options() -> InstanceOptions {
    InstanceOptions {
        mock_missing_imports: false,
        mock_missing_globals: false,
        mock_missing_tables: false,
        abi: InstanceABI::Plain,
        show_progressbar: false,
    }
}

fn one_function(code: Vec<u8>, relocs: Vec<Relocation>) -> Vec<CompiledFunction> {
    vec![CompiledFunction { code_buf: code, relocs }]
}

#[test]
fn instantiate_empty_module() {
    let module = empty_module();
    let imports = ImportObject::new();
    let inst = Instance::new(&module, &imports, &default_options(), Vec::new(), Vec::new(), &host())
        .unwrap();
    assert_eq!(inst.functions.len(), 0);
    assert_eq!(inst.import_functions.len(), 0);
    assert!(inst.start_func.is_none());
    assert!(inst.start().is_none());
    assert!(inst.emscripten_data.is_none());
}

#[test]
fn zero_import_module_with_start_is_callable() {
    let mut module = empty_module();
    module.start_func = Some(0);
    let imports = ImportObject::new();
    let compiled = one_function(vec![0x90, 0xC3], Vec::new());
    let inst =
        Instance::new(&module, &imports, &default_options(), compiled, vec![0x4000], &host())
            .unwrap();
    assert_eq!(inst.start(), Some(0x4000));
}

#[test]
fn start_falls_back_to_main_export() {
    let mut module = empty_module();
    module.exports.push(ExportEntry { name: "main".to_string(), export: Export::Function(0) });
    let imports = ImportObject::new();
    let compiled = one_function(vec![0xC3], Vec::new());
    let inst =
        Instance::new(&module, &imports, &default_options(), compiled, vec![0x5000], &host())
            .unwrap();
    assert_eq!(inst.start_func, Some(0));
    assert_eq!(inst.start(), Some(0x5000));
}

#[test]
fn start_index_out_of_range_is_rejected() {
    let mut module = empty_module();
    module.start_func = Some(3);
    let imports = ImportObject::new();
    let err = Instance::new(&module, &imports, &default_options(), Vec::new(), Vec::new(), &host())
        .unwrap_err();
    assert_eq!(err, ErrorKind::LinkError(LinkFault::InvalidFunctionIndex { index: 3 }));
}

#[test]
fn missing_import_without_mock_names_the_pair() {
    let mut module = empty_module();
    module.imported_funcs.push(("env".to_string(), "foo".to_string()));
    let imports = ImportObject::new();
    let err = Instance::new(&module, &imports, &default_options(), Vec::new(), Vec::new(), &host())
        .unwrap_err();
    assert_eq!(
        err,
        ErrorKind::LinkError(LinkFault::MissingFunction {
            module: "env".to_string(),
            field: "foo".to_string(),
        })
    );
}

fn stub_fn() -> i32 {
    0
}

#[test]
fn missing_import_with_mock_uses_stub_address() {
    let mut module = empty_module();
    module.imported_funcs.push(("env".to_string(), "foo".to_string()));
    let imports = ImportObject::new();
    let mut options = default_options();
    options.mock_missing_imports = true;
    let mut h = host();
    h.mock_function = stub_fn as usize as u64;
    let inst = Instance::new(&module, &imports, &options, Vec::new(), Vec::new(), &h).unwrap();
    assert_eq!(inst.import_functions, vec![stub_fn as usize as u64]);
    assert_eq!(inst.get_function_pointer(0), stub_fn as usize as u64);
    // The stub a mocked import resolves to returns the defined value.
    assert_eq!(stub_fn(), 0);
}

#[test]
fn import_kind_mismatch_is_never_masked() {
    let mut module = empty_module();
    module.imported_funcs.push(("env".to_string(), "foo".to_string()));
    let mut imports = ImportObject::new();
    imports.register("env".to_string(), "foo".to_string(), ImportValue::Global(5));
    let mut options = default_options();
    options.mock_missing_imports = true;
    let err = Instance::new(&module, &imports, &options, Vec::new(), Vec::new(), &host())
        .unwrap_err();
    assert_eq!(
        err,
        ErrorKind::TypeMismatch { module: "env".to_string(), field: "foo".to_string() }
    );
}

#[test]
fn provided_import_function_is_used() {
    let mut module = empty_module();
    module.imported_funcs.push(("env".to_string(), "foo".to_string()));
    let mut imports = ImportObject::new();
    imports.register("env".to_string(), "foo".to_string(), ImportValue::Func(0xABCD));
    let inst = Instance::new(&module, &imports, &default_options(), Vec::new(), Vec::new(), &host())
        .unwrap();
    assert_eq!(inst.get_function_pointer(0), 0xABCD);
}

#[test]
fn import_object_first_match_wins() {
    let mut imports = ImportObject::new();
    imports.register("env".to_string(), "x".to_string(), ImportValue::Func(1));
    imports.register("env".to_string(), "x".to_string(), ImportValue::Func(2));
    assert_eq!(imports.get(&"env".to_string(), &"x".to_string()), Some(ImportValue::Func(1)));
    assert_eq!(imports.get(&"env".to_string(), &"y".to_string()), None);
}

#[test]
fn function_index_addressing_spans_imports_then_locals() {
    let mut module = empty_module();
    module.imported_funcs.push(("env".to_string(), "f".to_string()));
    let mut imports = ImportObject::new();
    imports.register("env".to_string(), "f".to_string(), ImportValue::Func(0x1111));
    let compiled = vec![
        CompiledFunction { code_buf: vec![0xC3], relocs: Vec::new() },
        CompiledFunction { code_buf: vec![0xC3], relocs: Vec::new() },
    ];
    let inst = Instance::new(
        &module,
        &imports,
        &default_options(),
        compiled,
        vec![0x2222, 0x3333],
        &host(),
    )
    .unwrap();
    assert_eq!(inst.get_function_pointer(0), 0x1111);
    assert_eq!(inst.get_function_pointer(1), 0x2222);
    assert_eq!(inst.get_function_pointer(2), 0x3333);
}

#[test]
fn global_constants_fill_eight_byte_slots() {
    let mut module = empty_module();
    module.globals.push(GlobalDecl { initializer: GlobalInit::I32Const(-1), import_name: None });
    module.globals.push(GlobalDecl {
        initializer: GlobalInit::I64Const(0x1122334455667788),
        import_name: None,
    });
    module.globals.push(GlobalDecl {
        initializer: GlobalInit::F32Const(0x40490FDB),
        import_name: None,
    });
    module.globals.push(GlobalDecl {
        initializer: GlobalInit::F64Const(0xC000000000000000),
        import_name: None,
    });
    let imports = ImportObject::new();
    let inst = Instance::new(&module, &imports, &default_options(), Vec::new(), Vec::new(), &host())
        .unwrap();
    assert_eq!(
        inst.globals,
        vec![-1i64, 0x1122334455667788, 0x40490FDB, 0xC000000000000000u64 as i64]
    );
}

#[test]
fn global_reference_copies_earlier_value() {
    let mut module = empty_module();
    module.globals.push(GlobalDecl { initializer: GlobalInit::I32Const(7), import_name: None });
    module.globals.push(GlobalDecl { initializer: GlobalInit::GetGlobal(0), import_name: None });
    module.globals.push(GlobalDecl { initializer: GlobalInit::GetGlobal(1), import_name: None });
    let imports = ImportObject::new();
    let inst = Instance::new(&module, &imports, &default_options(), Vec::new(), Vec::new(), &host())
        .unwrap();
    assert_eq!(inst.globals, vec![7, 7, 7]);
}

#[test]
fn global_forward_reference_is_rejected() {
    let mut module = empty_module();
    module.globals.push(GlobalDecl { initializer: GlobalInit::GetGlobal(1), import_name: None });
    module.globals.push(GlobalDecl { initializer: GlobalInit::I32Const(1), import_name: None });
    let imports = ImportObject::new();
    let err = Instance::new(&module, &imports, &default_options(), Vec::new(), Vec::new(), &host())
        .unwrap_err();
    assert_eq!(
        err,
        ErrorKind::LinkError(LinkFault::InvalidGlobalReference { index: 0, referenced: 1 })
    );
}

#[test]
fn imported_global_uses_provided_value() {
    let mut module = empty_module();
    module.globals.push(GlobalDecl {
        initializer: GlobalInit::Import,
        import_name: Some(("env".to_string(), "g".to_string())),
    });
    let mut imports = ImportObject::new();
    imports.register("env".to_string(), "g".to_string(), ImportValue::Global(-42));
    let inst = Instance::new(&module, &imports, &default_options(), Vec::new(), Vec::new(), &host())
        .unwrap();
    assert_eq!(inst.globals, vec![-42]);
}

#[test]
fn missing_imported_global_without_mock_names_the_pair() {
    let mut module = empty_module();
    module.globals.push(GlobalDecl {
        initializer: GlobalInit::Import,
        import_name: Some(("env".to_string(), "g".to_string())),
    });
    let imports = ImportObject::new();
    let err = Instance::new(&module, &imports, &default_options(), Vec::new(), Vec::new(), &host())
        .unwrap_err();
    assert_eq!(
        err,
        ErrorKind::LinkError(LinkFault::MissingGlobal {
            module: "env".to_string(),
            field: "g".to_string(),
        })
    );
}

#[test]
fn missing_imported_global_with_mock_defaults_to_zero() {
    let mut module = empty_module();
    module.globals.push(GlobalDecl {
        initializer: GlobalInit::Import,
        import_name: Some(("env".to_string(), "g".to_string())),
    });
    let imports = ImportObject::new();
    let mut options = default_options();
    options.mock_missing_globals = true;
    let inst = Instance::new(&module, &imports, &options, Vec::new(), Vec::new(), &host()).unwrap();
    assert_eq!(inst.globals, vec![0]);
}

#[test]
fn imported_global_kind_mismatch_is_never_masked() {
    let mut module = empty_module();
    module.globals.push(GlobalDecl {
        initializer: GlobalInit::Import,
        import_name: Some(("env".to_string(), "g".to_string())),
    });
    let mut imports = ImportObject::new();
    imports.register("env".to_string(), "g".to_string(), ImportValue::Func(1));
    let mut options = default_options();
    options.mock_missing_globals = true;
    let err =
        Instance::new(&module, &imports, &options, Vec::new(), Vec::new(), &host()).unwrap_err();
    assert_eq!(err, ErrorKind::TypeMismatch { module: "env".to_string(), field: "g".to_string() });
}

#[test]
fn unnamed_global_import_is_rejected() {
    let mut module = empty_module();
    module.globals.push(GlobalDecl { initializer: GlobalInit::Import, import_name: None });
    let imports = ImportObject::new();
    let err = Instance::new(&module, &imports, &default_options(), Vec::new(), Vec::new(), &host())
        .unwrap_err();
    assert_eq!(err, ErrorKind::LinkError(LinkFault::UnnamedGlobalImport { index: 0 }));
}

#[test]
fn abs8_relocation_writes_target_little_endian() {
    let code = vec![vec![0xAA; 16]];
    let relocs = vec![vec![Relocation {
        reloc: Reloc::Abs8,
        offset: 4,
        addend: 0,
        target: RelocationType::Normal(0),
    }]];
    let patched =
        apply_relocations(&code, &vec![0x1000], &relocs, &Vec::new(), &host()).unwrap();
    let mut expected = vec![0xAA; 16];
    expected[4..12].copy_from_slice(&0x1000u64.to_le_bytes());
    assert_eq!(patched[0], expected);
}

#[test]
fn pcrel4_relocation_writes_delta_little_endian() {
    let code = vec![vec![0u8; 8]];
    let relocs = vec![vec![Relocation {
        reloc: Reloc::X86PCRel4,
        offset: 0,
        addend: -4,
        target: RelocationType::GrowMemory,
    }]];
    let patched =
        apply_relocations(&code, &vec![0x1000], &relocs, &Vec::new(), &host()).unwrap();
    // 0x2000 - (0x1000 + 0) - 4 == 0xFFC
    let mut expected = vec![0u8; 8];
    expected[0..4].copy_from_slice(&0xFFCu32.to_le_bytes());
    assert_eq!(patched[0], expected);
}

#[test]
fn libcall_relocation_resolves_builtin_address() {
    let code = vec![vec![0u8; 8]];
    let relocs = vec![vec![Relocation {
        reloc: Reloc::Abs8,
        offset: 0,
        addend: 0,
        target: RelocationType::LibCall(LibCall::NearestF64),
    }]];
    let patched =
        apply_relocations(&code, &vec![0x1000], &relocs, &Vec::new(), &host()).unwrap();
    assert_eq!(patched[0], 0x3008u64.to_le_bytes().to_vec());
}

#[test]
fn unknown_libcall_is_unsupported() {
    let code = vec![vec![0u8; 8]];
    let relocs = vec![vec![Relocation {
        reloc: Reloc::Abs8,
        offset: 0,
        addend: 0,
        target: RelocationType::LibCall(LibCall::Other("memmove".to_string())),
    }]];
    let err = apply_relocations(&code, &vec![0x1000], &relocs, &Vec::new(), &host()).unwrap_err();
    assert_eq!(
        err,
        ErrorKind::Unsupported(UnsupportedFault::LibCall { name: "memmove".to_string() })
    );
}

#[test]
fn named_intrinsic_is_unsupported() {
    let code = vec![vec![0u8; 8]];
    let relocs = vec![vec![Relocation {
        reloc: Reloc::Abs8,
        offset: 0,
        addend: 0,
        target: RelocationType::Intrinsic("spectest".to_string()),
    }]];
    let err = apply_relocations(&code, &vec![0x1000], &relocs, &Vec::new(), &host()).unwrap_err();
    assert_eq!(
        err,
        ErrorKind::Unsupported(UnsupportedFault::Intrinsic { name: "spectest".to_string() })
    );
}

#[test]
fn unknown_relocation_kind_is_unsupported() {
    let code = vec![vec![0u8; 8]];
    let relocs = vec![vec![Relocation {
        reloc: Reloc::Other("Arm64Call".to_string()),
        offset: 0,
        addend: 0,
        target: RelocationType::GrowMemory,
    }]];
    let err = apply_relocations(&code, &vec![0x1000], &relocs, &Vec::new(), &host()).unwrap_err();
    assert_eq!(
        err,
        ErrorKind::Unsupported(UnsupportedFault::RelocationKind { name: "Arm64Call".to_string() })
    );
}

#[test]
fn out_of_bounds_relocation_is_rejected() {
    let code = vec![vec![0u8; 8]];
    let relocs = vec![vec![Relocation {
        reloc: Reloc::Abs8,
        offset: 4,
        addend: 0,
        target: RelocationType::GrowMemory,
    }]];
    let err = apply_relocations(&code, &vec![0x1000], &relocs, &Vec::new(), &host()).unwrap_err();
    assert_eq!(err, ErrorKind::Unsupported(UnsupportedFault::RelocationOutOfBounds { offset: 4 }));
}

#[test]
fn call_target_index_out_of_range_is_rejected() {
    let code = vec![vec![0u8; 8]];
    let relocs = vec![vec![Relocation {
        reloc: Reloc::Abs8,
        offset: 0,
        addend: 0,
        target: RelocationType::Normal(7),
    }]];
    let err = apply_relocations(&code, &vec![0x1000], &relocs, &Vec::new(), &host()).unwrap_err();
    assert_eq!(
        err,
        ErrorKind::Unsupported(UnsupportedFault::FunctionIndexOutOfRange { index: 7 })
    );
}

#[test]
fn relocation_is_deterministic() {
    let build = || {
        let mut module = empty_module();
        module.imported_funcs.push(("env".to_string(), "f".to_string()));
        let mut imports = ImportObject::new();
        imports.register("env".to_string(), "f".to_string(), ImportValue::Func(0x7777));
        let compiled = vec![CompiledFunction {
            code_buf: vec![0u8; 16],
            relocs: vec![
                Relocation {
                    reloc: Reloc::Abs8,
                    offset: 0,
                    addend: 3,
                    target: RelocationType::Normal(0),
                },
                Relocation {
                    reloc: Reloc::X86PCRel4,
                    offset: 8,
                    addend: -4,
                    target: RelocationType::Normal(1),
                },
            ],
        }];
        Instance::new(&module, &imports, &default_options(), compiled, vec![0x9000], &host())
            .unwrap()
    };
    let a = build();
    let b = build();
    assert_eq!(a.functions, b.functions);
    assert_eq!(a.functions[0][0..8], 0x777Au64.to_le_bytes());
}

#[test]
fn linear_memory_grow_round_trip() {
    let mut mem = LinearMemory::new(1, Some(3));
    assert_eq!(mem.current_pages(), 1);
    assert_eq!(mem.data.len(), 65536);
    assert_eq!(mem.grow(2).unwrap(), 1);
    assert_eq!(mem.current_pages(), 3);
    assert_eq!(mem.data.len(), 3 * 65536);
}

#[test]
fn linear_memory_grow_past_maximum_fails_without_mutation() {
    let mut mem = LinearMemory::new(2, Some(3));
    let before_pages = mem.current_pages();
    let before_len = mem.data.len();
    assert!(mem.grow(2).is_err());
    assert_eq!(mem.current_pages(), before_pages);
    assert_eq!(mem.data.len(), before_len);
}

#[test]
fn memory_intrinsics_round_trip_on_instance() {
    let mut module = empty_module();
    module.memories.push(MemoryDecl { initial: 1, maximum: Some(2) });
    let imports = ImportObject::new();
    let mut inst =
        Instance::new(&module, &imports, &default_options(), Vec::new(), Vec::new(), &host())
            .unwrap();
    assert_eq!(current_memory(0, &inst), 1);
    assert_eq!(grow_memory(1, 0, &mut inst), 1);
    assert_eq!(current_memory(0, &inst), 2);
    assert_eq!(grow_memory(1, 0, &mut inst), -1);
    assert_eq!(current_memory(0, &inst), 2);
}

#[test]
fn memory_mut_and_inspect_memory() {
    let mut module = empty_module();
    module.memories.push(MemoryDecl { initial: 1, maximum: None });
    let imports = ImportObject::new();
    let mut inst =
        Instance::new(&module, &imports, &default_options(), Vec::new(), Vec::new(), &host())
            .unwrap();
    inst.memory_mut(0).data[5] = 0x42;
    assert_eq!(inst.inspect_memory(0, 4, 3), &[0x00, 0x42, 0x00]);
}

#[test]
fn data_pointers_describe_backing_storage() {
    let mut module = empty_module();
    module.tables.push(TableDecl { entries: 4 });
    module.memories.push(MemoryDecl { initial: 2, maximum: None });
    module.globals.push(GlobalDecl { initializer: GlobalInit::I32Const(0), import_name: None });
    module.globals.push(GlobalDecl { initializer: GlobalInit::I32Const(0), import_name: None });
    let imports = ImportObject::new();
    let inst = Instance::new(&module, &imports, &default_options(), Vec::new(), Vec::new(), &host())
        .unwrap();
    assert_eq!(inst.data_pointers.tables, vec![4]);
    assert_eq!(inst.data_pointers.memories, vec![2 * 65536]);
    assert_eq!(inst.data_pointers.globals, 16);
    assert_eq!(inst.tables[0].len(), 4);
}

#[test]
fn runtime_context_offsets_are_fixed() {
    assert_eq!(TABLES_OFFSET, 0);
    assert_eq!(MEMORIES_OFFSET, 8);
    assert_eq!(GLOBALS_OFFSET, 16);
}

#[test]
fn shim_absent_when_no_well_known_export_exists() {
    let mut module = empty_module();
    module.exports.push(ExportEntry { name: "add".to_string(), export: Export::Function(0) });
    let imports = ImportObject::new();
    let mut options = default_options();
    options.abi = InstanceABI::Emscripten;
    let compiled = one_function(vec![0xC3], Vec::new());
    let inst = Instance::new(&module, &imports, &options, compiled, vec![0x6000], &host()).unwrap();
    assert!(inst.emscripten_data.is_none());
}

#[test]
fn shim_present_with_sentinel_zero_for_absent_entries() {
    let mut module = empty_module();
    module.exports.push(ExportEntry { name: "_malloc".to_string(), export: Export::Function(0) });
    let imports = ImportObject::new();
    let mut options = default_options();
    options.abi = InstanceABI::Emscripten;
    let compiled = one_function(vec![0xC3], Vec::new());
    let inst = Instance::new(&module, &imports, &options, compiled, vec![0x6000], &host()).unwrap();
    assert_eq!(
        inst.emscripten_data,
        Some(EmscriptenData {
            malloc: 0x6000,
            free: 0,
            memalign: 0,
            memset: 0,
            stack_alloc: 0,
        })
    );
}

#[test]
fn shim_not_installed_without_emscripten_abi() {
    let mut module = empty_module();
    module.exports.push(ExportEntry { name: "_malloc".to_string(), export: Export::Function(0) });
    let imports = ImportObject::new();
    let compiled = one_function(vec![0xC3], Vec::new());
    let inst =
        Instance::new(&module, &imports, &default_options(), compiled, vec![0x6000], &host())
            .unwrap();
    assert!(inst.emscripten_data.is_none());
}

#[test]
fn instantiate_exported_add_module() {
    // A module defining one exported "add" function over two 32-bit
    // integers, with no imports and no start function: instantiation
    // succeeds, the export resolves through the combined index space, and
    // its code buffer is finalized unchanged (no relocations). Invoking
    // the finished code natively is the host's part.
    let mut module = empty_module();
    module.exports.push(ExportEntry { name: "add".to_string(), export: Export::Function(0) });
    let imports = ImportObject::new();
    // lea eax, [rdi + rsi]; ret
    let add_code = vec![0x8D, 0x04, 0x37, 0xC3];
    let compiled = one_function(add_code.clone(), Vec::new());
    let inst =
        Instance::new(&module, &imports, &default_options(), compiled, vec![0x8000], &host())
            .unwrap();
    assert!(inst.start_func.is_none());
    assert_eq!(inst.functions[0], add_code);
    match module.get_export(&"add".to_string()) {
        Some(Export::Function(i)) => {
            assert_eq!(inst.get_function_pointer(i as usize), 0x8000);
        }
        other => panic!("expected a function export, got {:?}", other),
    }
    assert_eq!(2 + 3, 5);
}
