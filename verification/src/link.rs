//! The import linker and the global initializer.
//!
//! Imported functions and imported globals are resolved against the
//! caller-supplied import object under the same three-way policy: found
//! and of the right kind, use it; missing with mocking enabled,
//! substitute a stub; missing with mocking disabled, fail with a link
//! error naming the `(module, field)` pair. A value of the wrong kind is
//! an unconditional mismatch error; mocking never masks it.
//!
//! Globals are evaluated strictly in declaration order into 8-byte slots;
//! an initializer may reference only a strictly earlier global, and a
//! forward or out-of-range reference is rejected at link time.

use vstd::prelude::*;

use crate::errors::{ErrorKind, LinkFault};
use crate::import_object::{ImportEntry, ImportObject, ImportValue, lookup_spec};
use crate::module::{GlobalDecl, GlobalInit};

verus! {

/// Whether one imported-function declaration resolves under the policy.
pub open spec fn func_import_resolvable(
    decl: (String, String),
    entries: Seq<ImportEntry>,
    mock: bool,
) -> bool {
    match lookup_spec(entries, decl.0@, decl.1@) {
        Some(ImportValue::Func(_)) => true,
        Some(_) => false,
        None => mock,
    }
}

/// The address a resolvable imported-function declaration resolves to:
/// the provided function's address, or the stub's when mocked.
pub open spec fn func_import_addr(
    decl: (String, String),
    entries: Seq<ImportEntry>,
    mock_addr: u64,
) -> u64 {
    match lookup_spec(entries, decl.0@, decl.1@) {
        Some(ImportValue::Func(f)) => f,
        _ => mock_addr,
    }
}

/// The whole import-function address table, in declaration order.
pub open spec fn resolved_import_addrs(
    decls: Seq<(String, String)>,
    entries: Seq<ImportEntry>,
    mock_addr: u64,
) -> Seq<u64> {
    Seq::new(decls.len(), |i: int| func_import_addr(decls[i], entries, mock_addr))
}

/// The error owed for the first imported-function declaration that does
/// not resolve: a link error naming the missing pair, or a mismatch error
/// for a value of the wrong kind.
pub open spec fn func_import_fault_matches(
    decl: (String, String),
    entries: Seq<ImportEntry>,
    mock: bool,
    e: ErrorKind,
) -> bool {
    match lookup_spec(entries, decl.0@, decl.1@) {
        Some(ImportValue::Func(_)) => false,
        Some(_) => e matches ErrorKind::TypeMismatch { module, field }
            && module@ == decl.0@ && field@ == decl.1@,
        None => !mock && (e matches ErrorKind::LinkError(LinkFault::MissingFunction {
            module,
            field,
        }) && module@ == decl.0@ && field@ == decl.1@),
    }
}

/// The import linker for functions: resolve every imported-function
/// declaration, in declaration order, to a native address.
pub fn resolve_imported_functions(
    decls: &Vec<(String, String)>,
    imports: &ImportObject,
    mock_missing_imports: bool,
    mock_addr: u64,
) -> (r: Result<Vec<u64>, ErrorKind>)
    ensures
        r is Ok <==> (forall|i: int| 0 <= i < decls@.len() ==> func_import_resolvable(
            #[trigger] decls@[i],
            imports.entries@,
            mock_missing_imports,
        )),
        r matches Ok(a) ==> {
            &&& a@.len() == decls@.len()
            &&& forall|i: int| 0 <= i < decls@.len() ==> a@[i] == func_import_addr(
                #[trigger] decls@[i],
                imports.entries@,
                mock_addr,
            )
        },
        r matches Err(e) ==> exists|j: int|
            {
                &&& 0 <= j < decls@.len()
                &&& (forall|i: int| 0 <= i < j ==> func_import_resolvable(
                    #[trigger] decls@[i],
                    imports.entries@,
                    mock_missing_imports,
                ))
                &&& func_import_fault_matches(
                    #[trigger] decls@[j],
                    imports.entries@,
                    mock_missing_imports,
                    e,
                )
            },
{
    let n = decls.len();
    let mut out: Vec<u64> = Vec::new();
    let mut i: usize = 0;
    while i < n
        invariant
            i <= n,
            n == decls@.len(),
            out@.len() == i,
            forall|k: int| 0 <= k < i ==> func_import_resolvable(
                #[trigger] decls@[k],
                imports.entries@,
                mock_missing_imports,
            ),
            forall|k: int| 0 <= k < i ==> out@[k] == func_import_addr(
                #[trigger] decls@[k],
                imports.entries@,
                mock_addr,
            ),
        decreases n - i,
    {
        let d = &decls[i];
        match imports.get(&d.0, &d.1) {
            Some(ImportValue::Func(f)) => {
                out.push(f);
            },
            None => {
                if mock_missing_imports {
                    out.push(mock_addr);
                } else {
                    return Err(ErrorKind::LinkError(LinkFault::MissingFunction {
                        module: d.0.clone(),
                        field: d.1.clone(),
                    }));
                }
            },
            Some(_) => {
                return Err(ErrorKind::TypeMismatch { module: d.0.clone(), field: d.1.clone() });
            },
        }
        i = i + 1;
    }
    Ok(out)
}

/// Whether the global at declaration index `i` evaluates under the policy:
/// constants always do; a reference must name a strictly earlier global;
/// an import must carry a name and resolve to a global value (or be
/// mocked when missing).
pub open spec fn global_ok(
    decls: Seq<GlobalDecl>,
    entries: Seq<ImportEntry>,
    mock: bool,
    i: int,
) -> bool {
    match decls[i].initializer {
        GlobalInit::I32Const(_) => true,
        GlobalInit::I64Const(_) => true,
        GlobalInit::F32Const(_) => true,
        GlobalInit::F64Const(_) => true,
        GlobalInit::GetGlobal(k) => (k as int) < i,
        GlobalInit::Import => match decls[i].import_name {
            Some(name) => match lookup_spec(entries, name.0@, name.1@) {
                Some(ImportValue::Global(_)) => true,
                Some(_) => false,
                None => mock,
            },
            None => false,
        },
    }
}

/// The 8-byte slot value of the global at declaration index `i`: integer
/// constants widened or reinterpreted, float constants by bit pattern, a
/// reference copying the referenced global's already-computed slot, an
/// import taking the provided value (zero when mocked).
pub open spec fn global_value(
    decls: Seq<GlobalDecl>,
    entries: Seq<ImportEntry>,
    mock: bool,
    i: int,
) -> i64
    decreases i,
{
    if i < 0 {
        0
    } else {
        match decls[i].initializer {
            GlobalInit::I32Const(n) => n as i64,
            GlobalInit::I64Const(n) => n,
            GlobalInit::F32Const(b) => b as i64,
            GlobalInit::F64Const(b) => b as i64,
            GlobalInit::GetGlobal(k) => if (k as int) < i {
                global_value(decls, entries, mock, k as int)
            } else {
                0
            },
            GlobalInit::Import => match decls[i].import_name {
                Some(name) => match lookup_spec(entries, name.0@, name.1@) {
                    Some(ImportValue::Global(v)) => v,
                    _ => 0,
                },
                None => 0,
            },
        }
    }
}

/// The error owed for the first global that does not evaluate.
pub open spec fn global_fault_matches(
    decls: Seq<GlobalDecl>,
    entries: Seq<ImportEntry>,
    mock: bool,
    i: int,
    e: ErrorKind,
) -> bool {
    match decls[i].initializer {
        GlobalInit::GetGlobal(k) => (k as int) >= i && (e == ErrorKind::LinkError(
            LinkFault::InvalidGlobalReference { index: i as usize, referenced: k as usize },
        )),
        GlobalInit::Import => match decls[i].import_name {
            None => e == ErrorKind::LinkError(LinkFault::UnnamedGlobalImport { index: i as usize }),
            Some(name) => match lookup_spec(entries, name.0@, name.1@) {
                Some(ImportValue::Global(_)) => false,
                Some(_) => e matches ErrorKind::TypeMismatch { module, field }
                    && module@ == name.0@ && field@ == name.1@,
                None => !mock && (e matches ErrorKind::LinkError(LinkFault::MissingGlobal {
                    module,
                    field,
                }) && module@ == name.0@ && field@ == name.1@),
            },
        },
        _ => false,
    }
}

/// The global initializer: evaluate every global, strictly in declaration
/// order, into a contiguous array of 8-byte slots.
pub fn evaluate_globals(
    decls: &Vec<GlobalDecl>,
    imports: &ImportObject,
    mock_missing_globals: bool,
) -> (r: Result<Vec<i64>, ErrorKind>)
    ensures
        r is Ok <==> (forall|i: int| 0 <= i < decls@.len() ==> global_ok(
            decls@,
            imports.entries@,
            mock_missing_globals,
            i,
        )),
        r matches Ok(g) ==> {
            &&& g@.len() == decls@.len()
            &&& forall|i: int| 0 <= i < decls@.len() ==> g@[i] == global_value(
                decls@,
                imports.entries@,
                mock_missing_globals,
                i,
            )
        },
        r matches Err(e) ==> exists|j: int|
            {
                &&& 0 <= j < decls@.len()
                &&& (forall|i: int| 0 <= i < j ==> global_ok(
                    decls@,
                    imports.entries@,
                    mock_missing_globals,
                    i,
                ))
                &&& global_fault_matches(decls@, imports.entries@, mock_missing_globals, j, e)
            },
{
    let n = decls.len();
    let mut out: Vec<i64> = Vec::new();
    let mut i: usize = 0;
    while i < n
        invariant
            i <= n,
            n == decls@.len(),
            out@.len() == i,
            forall|k: int| 0 <= k < i ==> global_ok(
                decls@,
                imports.entries@,
                mock_missing_globals,
                k,
            ),
            forall|k: int| 0 <= k < i ==> out@[k] == global_value(
                decls@,
                imports.entries@,
                mock_missing_globals,
                k,
            ),
        decreases n - i,
    {
        let d = &decls[i];
        let value: i64 = match &d.initializer {
            GlobalInit::I32Const(v) => *v as i64,
            GlobalInit::I64Const(v) => *v,
            GlobalInit::F32Const(b) => *b as i64,
            GlobalInit::F64Const(b) => #[verifier::truncate] (*b as i64),
            GlobalInit::GetGlobal(k) => {
                let k = *k;
                if (k as usize) < i {
                    out[k as usize]
                } else {
                    let e = ErrorKind::LinkError(LinkFault::InvalidGlobalReference {
                        index: i,
                        referenced: k as usize,
                    });
                    proof {
                        assert(!global_ok(decls@, imports.entries@, mock_missing_globals, i as int));
                        assert(global_fault_matches(
                            decls@, imports.entries@, mock_missing_globals, i as int, e,
                        ));
                    }
                    return Err(e);
                }
            },
            GlobalInit::Import => match &d.import_name {
                Some(name) => match imports.get(&name.0, &name.1) {
                    Some(ImportValue::Global(v)) => v,
                    None => {
                        if mock_missing_globals {
                            0
                        } else {
                            let e = ErrorKind::LinkError(LinkFault::MissingGlobal {
                                module: name.0.clone(),
                                field: name.1.clone(),
                            });
                            proof {
                                assert(!global_ok(decls@, imports.entries@, mock_missing_globals, i as int));
                                assert(global_fault_matches(
                                    decls@, imports.entries@, mock_missing_globals, i as int, e,
                                ));
                            }
                            return Err(e);
                        }
                    },
                    Some(_) => {
                        let e = ErrorKind::TypeMismatch {
                            module: name.0.clone(),
                            field: name.1.clone(),
                        };
                        proof {
                            assert(!global_ok(decls@, imports.entries@, mock_missing_globals, i as int));
                            assert(global_fault_matches(
                                decls@, imports.entries@, mock_missing_globals, i as int, e,
                            ));
                        }
                        return Err(e);
                    },
                },
                None => {
                    let e = ErrorKind::LinkError(LinkFault::UnnamedGlobalImport { index: i });
                    proof {
                        assert(!global_ok(decls@, imports.entries@, mock_missing_globals, i as int));
                        assert(global_fault_matches(
                            decls@, imports.entries@, mock_missing_globals, i as int, e,
                        ));
                    }
                    return Err(e);
                },
            },
        };
        out.push(value);
        i = i + 1;
    }
    Ok(out)
}

} // verus!
