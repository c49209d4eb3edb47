//! Instantiation and linking engine for a WebAssembly execution runtime.
//!
//! Given a decoded module (import/export tables, global declarations) and the
//! compiled artifacts of its local functions (machine-code buffers plus
//! symbolic relocation records), this crate links imports against a
//! caller-supplied import object, patches every relocation against the final
//! address space, evaluates global initializers, lays out the runtime-context
//! descriptors, and assembles a live `Instance`.
//!
//! Native addresses are carried as plain `u64` values supplied by the host:
//! the host compiles each function body, decides where each code buffer and
//! each support routine lives, and hands those addresses in. Everything the
//! engine decides — which address every function index maps to, which bytes
//! every relocation writes, which value every global receives, when a link
//! error is owed — is stated in contracts and verified.

use vstd::prelude::*;

pub mod errors;
pub mod import_object;
pub mod instance;
pub mod laws;
pub mod link;
pub mod memory;
pub mod module;
pub mod relocation;

verus! {

/// The flat function-index space: indices below `imports.len()` address
/// imported functions in declaration order; the rest address module-defined
/// functions in declaration order.
pub open spec fn func_addr_spec(imports: Seq<u64>, locals: Seq<u64>, i: int) -> u64 {
    if i < imports.len() {
        imports[i]
    } else {
        locals[i - imports.len()]
    }
}

/// Resolve a function index to its native address across the combined
/// import+local index space.
pub fn get_function_addr(func_index: usize, import_functions: &Vec<u64>, functions: &Vec<u64>) -> (r: u64)
    requires
        func_index < import_functions@.len() + functions@.len(),
    ensures
        r == func_addr_spec(import_functions@, functions@, func_index as int),
{
    let len = import_functions.len();
    if func_index < len {
        import_functions[func_index]
    } else {
        functions[func_index - len]
    }
}

} // verus!
