//! Typed errors of the instantiation engine.
//!
//! Malformed input never panics: every such failure is surfaced as a
//! reportable variant, so that a malformed module cannot terminate a
//! hosting process.

use vstd::prelude::*;

verus! {

/// A failure to resolve something at link time.
#[derive(Debug, Clone, PartialEq, Eq)]
pub enum LinkFault {
    /// A required imported function was not provided, identified by its
    /// two-part `(module, field)` key.
    MissingFunction { module: String, field: String },
    /// A required imported global was not provided.
    MissingGlobal { module: String, field: String },
    /// A global declared as imported carries no import name.
    UnnamedGlobalImport { index: usize },
    /// A global initializer references a global that is not strictly earlier
    /// in declaration order (forward or out-of-range reference).
    InvalidGlobalReference { index: usize, referenced: usize },
    /// An export or start-function index lies outside the combined
    /// import+local function-index space.
    InvalidFunctionIndex { index: usize },
}

/// A relocation record that this engine cannot apply: it indicates a
/// codegen/runtime version mismatch, not a user-recoverable condition.
#[derive(Debug, Clone, PartialEq, Eq)]
pub enum UnsupportedFault {
    /// A library-call relocation target outside the fixed built-in set.
    LibCall { name: String },
    /// A named-intrinsic relocation target (unsupported in this design).
    Intrinsic { name: String },
    /// A relocation kind other than the two supported ones.
    RelocationKind { name: String },
    /// A relocation whose patched byte range does not fit in the owning
    /// function's code buffer.
    RelocationOutOfBounds { offset: u32 },
    /// A direct-call relocation whose function index lies outside the
    /// combined import+local index space.
    FunctionIndexOutOfRange { index: usize },
}

/// The error kinds the engine reports.
#[derive(Debug, Clone, PartialEq, Eq)]
pub enum ErrorKind {
    /// Failure to resolve a required import or index at link time;
    /// recoverable, instantiation aborts cleanly.
    LinkError(LinkFault),
    /// The code generator rejected a function body.
    CompileError(String),
    /// An import resolved to a value of the wrong kind; never masked by
    /// mock configuration.
    TypeMismatch { module: String, field: String },
    /// An unsupported relocation, library call or intrinsic.
    Unsupported(UnsupportedFault),
    /// A fault recovered at the protected-call boundary while executing
    /// generated code.
    RuntimeError(String),
}

} // verus!
