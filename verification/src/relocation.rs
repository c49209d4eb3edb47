//! Relocation records and the relocation resolver.
//!
//! Each compiled function carries an ordered list of relocation records:
//! symbolic call/reference targets to be patched into its code buffer once
//! every function's final address is known. The resolver runs once, after
//! all local functions are compiled: it resolves each record's target to a
//! concrete address across the combined import+local index space and
//! patches the owning function's buffer at the record's offset.
//!
//! Narrow relocations are applied with no range validation: a
//! `X86PCRel4` delta wider than 32 signed bits is truncated, an accepted
//! constraint of the supported target architecture.

use vstd::prelude::*;

use crate::errors::{ErrorKind, UnsupportedFault};
use crate::func_addr_spec;

verus! {

/// The fixed built-in set of library routines reachable by relocation:
/// rounding/truncation primitives for 32- and 64-bit floats and a
/// stack-probe routine. Any other symbol is unsupported.
#[derive(Debug, Clone, PartialEq, Eq)]
pub enum LibCall {
    CeilF32,
    FloorF32,
    TruncF32,
    NearestF32,
    CeilF64,
    FloorF64,
    TruncF64,
    NearestF64,
    Probestack,
    /// A symbol outside the built-in set; resolving it is a fatal
    /// unsupported-libcall error.
    Other(String),
}

/// A relocation's symbolic target.
#[derive(Debug, Clone, PartialEq, Eq)]
pub enum RelocationType {
    /// A direct call to the function at this index of the combined
    /// import+local index space.
    Normal(u32),
    /// A named intrinsic; unconditionally unsupported in this design.
    Intrinsic(String),
    /// One of the built-in library routines.
    LibCall(LibCall),
    /// The memory-growth native entry point.
    GrowMemory,
    /// The memory-size native entry point.
    CurrentMemory,
}

/// How the patch is written.
#[derive(Debug, Clone, PartialEq, Eq)]
pub enum Reloc {
    /// Write the absolute target address plus addend as a raw 8-byte
    /// little-endian value.
    Abs8,
    /// Write `target - (base + offset) + addend`, truncated to 32 bits, as
    /// a raw 4-byte little-endian value.
    X86PCRel4,
    /// Any other kind; applying it is a fatal unsupported-relocation error.
    Other(String),
}

/// One relocation record: where to patch, how, against what, and the
/// constant to add.
#[derive(Debug, Clone, PartialEq, Eq)]
pub struct Relocation {
    pub reloc: Reloc,
    pub offset: u32,
    pub addend: i64,
    pub target: RelocationType,
}

/// The native addresses the host exposes to generated code: the stub for
/// mocked imports, the two memory intrinsics, and the built-in library
/// routines.
#[derive(Debug, Clone, Copy, PartialEq, Eq)]
pub struct HostAddrs {
    pub mock_function: u64,
    pub current_memory: u64,
    pub grow_memory: u64,
    pub ceilf32: u64,
    pub floorf32: u64,
    pub truncf32: u64,
    pub nearbyintf32: u64,
    pub ceilf64: u64,
    pub floorf64: u64,
    pub truncf64: u64,
    pub nearbyintf64: u64,
    pub probestack: u64,
}

/// The address of a built-in library routine. (Zero for `Other`, which is
/// never resolved successfully.)
pub open spec fn libcall_addr_spec(host: HostAddrs, lc: LibCall) -> u64 {
    match lc {
        LibCall::CeilF32 => host.ceilf32,
        LibCall::FloorF32 => host.floorf32,
        LibCall::TruncF32 => host.truncf32,
        LibCall::NearestF32 => host.nearbyintf32,
        LibCall::CeilF64 => host.ceilf64,
        LibCall::FloorF64 => host.floorf64,
        LibCall::TruncF64 => host.truncf64,
        LibCall::NearestF64 => host.nearbyintf64,
        LibCall::Probestack => host.probestack,
        LibCall::Other(_) => 0,
    }
}

/// Whether a target resolves at all, given the size of the combined
/// function-index space.
pub open spec fn target_resolvable(t: RelocationType, n_funcs: int) -> bool {
    match t {
        RelocationType::Normal(i) => i < n_funcs,
        RelocationType::GrowMemory => true,
        RelocationType::CurrentMemory => true,
        RelocationType::LibCall(lc) => !(lc is Other),
        RelocationType::Intrinsic(_) => false,
    }
}

/// The concrete address a resolvable target resolves to.
pub open spec fn target_addr_spec(
    t: RelocationType,
    imports: Seq<u64>,
    locals: Seq<u64>,
    host: HostAddrs,
) -> u64 {
    match t {
        RelocationType::Normal(i) => func_addr_spec(imports, locals, i as int),
        RelocationType::GrowMemory => host.grow_memory,
        RelocationType::CurrentMemory => host.current_memory,
        RelocationType::LibCall(lc) => libcall_addr_spec(host, lc),
        RelocationType::Intrinsic(_) => 0,
    }
}

/// The error owed for an unresolvable target.
pub open spec fn target_fault_matches(t: RelocationType, e: ErrorKind) -> bool {
    match t {
        RelocationType::Normal(i) => e == ErrorKind::Unsupported(
            UnsupportedFault::FunctionIndexOutOfRange { index: i as usize },
        ),
        RelocationType::LibCall(lc) => match lc {
            LibCall::Other(name) => e matches ErrorKind::Unsupported(
                UnsupportedFault::LibCall { name: n },
            ) && n@ == name@,
            _ => false,
        },
        RelocationType::Intrinsic(name) => e matches ErrorKind::Unsupported(
            UnsupportedFault::Intrinsic { name: n },
        ) && n@ == name@,
        _ => false,
    }
}

/// Byte `k` (little-endian) of `v`.
pub open spec fn byte_of(v: u64, k: int) -> u8 {
    ((v >> ((8 * k) as u64)) & 0xff) as u8
}

/// The `n` low bytes of `v`, little-endian.
pub open spec fn le_bytes(v: u64, n: int) -> Seq<u8> {
    Seq::new(n as nat, |k: int| byte_of(v, k))
}

/// `code` with `bytes` overwritten starting at `off`; everything else, and
/// the length, unchanged.
pub open spec fn write_bytes(code: Seq<u8>, off: int, bytes: Seq<u8>) -> Seq<u8> {
    Seq::new(
        code.len(),
        |j: int| if off <= j < off + bytes.len() {
            bytes[j - off]
        } else {
            code[j]
        },
    )
}

/// The 8-byte value an `Abs8` record writes: the target address
/// (reinterpreted as signed) plus the addend, wrapped to 64 bits.
pub open spec fn abs8_value(target: u64, addend: i64) -> u64 {
    ((target as i64) + addend) as u64
}

/// The 4-byte value a `X86PCRel4` record writes: the delta from the
/// patched location to the target, plus the addend, truncated to 32 bits
/// with no range validation.
pub open spec fn pcrel4_value(target: u64, base: u64, offset: u32, addend: i64) -> u32 {
    ((target as int) - (base as int + offset as int) + (addend as int)) as u32
}

/// How many bytes a record patches.
pub open spec fn reloc_size(k: Reloc) -> int {
    match k {
        Reloc::Abs8 => 8,
        Reloc::X86PCRel4 => 4,
        Reloc::Other(_) => 0,
    }
}

/// Whether one record applies cleanly to a buffer of `code_len` bytes.
pub open spec fn reloc_ok(code_len: int, n_funcs: int, r: Relocation) -> bool {
    &&& target_resolvable(r.target, n_funcs)
    &&& !(r.reloc is Other)
    &&& r.offset as int + reloc_size(r.reloc) <= code_len
}

/// The error owed for the first record that does not apply cleanly.
pub open spec fn reloc_fault_matches(r: Relocation, code_len: int, n_funcs: int, e: ErrorKind) -> bool {
    if !target_resolvable(r.target, n_funcs) {
        target_fault_matches(r.target, e)
    } else {
        match r.reloc {
            Reloc::Other(name) => e matches ErrorKind::Unsupported(
                UnsupportedFault::RelocationKind { name: n },
            ) && n@ == name@,
            _ => r.offset as int + reloc_size(r.reloc) > code_len && e == ErrorKind::Unsupported(
                UnsupportedFault::RelocationOutOfBounds { offset: r.offset },
            ),
        }
    }
}

/// One record applied to a code buffer whose final address is `base`.
pub open spec fn apply_reloc_spec(
    code: Seq<u8>,
    base: u64,
    r: Relocation,
    imports: Seq<u64>,
    locals: Seq<u64>,
    host: HostAddrs,
) -> Seq<u8> {
    let t = target_addr_spec(r.target, imports, locals, host);
    match r.reloc {
        Reloc::Abs8 => write_bytes(code, r.offset as int, le_bytes(abs8_value(t, r.addend), 8)),
        Reloc::X86PCRel4 => write_bytes(
            code,
            r.offset as int,
            le_bytes(pcrel4_value(t, base, r.offset, r.addend) as u64, 4),
        ),
        Reloc::Other(_) => code,
    }
}

/// A whole record list applied in record order.
pub open spec fn apply_relocs_spec(
    code: Seq<u8>,
    base: u64,
    rs: Seq<Relocation>,
    imports: Seq<u64>,
    locals: Seq<u64>,
    host: HostAddrs,
) -> Seq<u8>
    decreases rs.len(),
{
    if rs.len() == 0 {
        code
    } else {
        apply_relocs_spec(
            apply_reloc_spec(code, base, rs[0], imports, locals, host),
            base,
            rs.drop_first(),
            imports,
            locals,
            host,
        )
    }
}

/// Whether every record of a list applies cleanly.
pub open spec fn relocs_ok(code_len: int, n_funcs: int, rs: Seq<Relocation>) -> bool {
    forall|i: int| 0 <= i < rs.len() ==> reloc_ok(code_len, n_funcs, #[trigger] rs[i])
}

/// Whether every function's record list applies cleanly.
pub open spec fn all_relocs_ok(
    code: Seq<Vec<u8>>,
    relocs: Seq<Vec<Relocation>>,
    n_funcs: int,
) -> bool {
    forall|i: int| 0 <= i < code.len()
        ==> relocs_ok(code[i]@.len() as int, n_funcs, (#[trigger] relocs[i])@)
}

/// Patching preserves the buffer's length.
pub proof fn lemma_apply_relocs_len(
    code: Seq<u8>,
    base: u64,
    rs: Seq<Relocation>,
    imports: Seq<u64>,
    locals: Seq<u64>,
    host: HostAddrs,
)
    ensures
        apply_relocs_spec(code, base, rs, imports, locals, host).len() == code.len(),
    decreases rs.len(),
{
    if rs.len() != 0 {
        lemma_apply_relocs_len(
            apply_reloc_spec(code, base, rs[0], imports, locals, host),
            base,
            rs.drop_first(),
            imports,
            locals,
            host,
        );
    }
}

/// Resolve a target to a concrete address across the combined import+local
/// index space, or report why it cannot be resolved.
pub fn resolve_reloc_target(
    t: &RelocationType,
    import_functions: &Vec<u64>,
    function_bases: &Vec<u64>,
    host: &HostAddrs,
) -> (r: Result<u64, ErrorKind>)
    ensures
        r is Ok <==> target_resolvable(
            *t,
            (import_functions@.len() + function_bases@.len()) as int,
        ),
        r matches Ok(a) ==> a == target_addr_spec(*t, import_functions@, function_bases@, *host),
        r matches Err(e) ==> target_fault_matches(*t, e),
{
    match t {
        RelocationType::Normal(i) => {
            let idx = *i as usize;
            let nimp = import_functions.len();
            if idx < nimp || idx - nimp < function_bases.len() {
                Ok(crate::get_function_addr(idx, import_functions, function_bases))
            } else {
                Err(ErrorKind::Unsupported(UnsupportedFault::FunctionIndexOutOfRange {
                    index: idx,
                }))
            }
        },
        RelocationType::GrowMemory => Ok(host.grow_memory),
        RelocationType::CurrentMemory => Ok(host.current_memory),
        RelocationType::LibCall(lc) => match lc {
            LibCall::CeilF32 => Ok(host.ceilf32),
            LibCall::FloorF32 => Ok(host.floorf32),
            LibCall::TruncF32 => Ok(host.truncf32),
            LibCall::NearestF32 => Ok(host.nearbyintf32),
            LibCall::CeilF64 => Ok(host.ceilf64),
            LibCall::FloorF64 => Ok(host.floorf64),
            LibCall::TruncF64 => Ok(host.truncf64),
            LibCall::NearestF64 => Ok(host.nearbyintf64),
            LibCall::Probestack => Ok(host.probestack),
            LibCall::Other(name) => Err(ErrorKind::Unsupported(UnsupportedFault::LibCall {
                name: name.clone(),
            })),
        },
        RelocationType::Intrinsic(name) => Err(ErrorKind::Unsupported(UnsupportedFault::Intrinsic {
            name: name.clone(),
        })),
    }
}

/// Overwrite `n` bytes of `buf` at `off` with the `n` low bytes of `v`,
/// little-endian.
fn write_le(buf: &mut Vec<u8>, off: usize, v: u64, n: usize)
    requires
        off + n <= old(buf)@.len(),
        n <= 8,
    ensures
        final(buf)@ == write_bytes(old(buf)@, off as int, le_bytes(v, n as int)),
{
    let len: usize = buf.len();
    let mut k: usize = 0;
    while k < n
        invariant
            k <= n,
            n <= 8,
            off + n <= len,
            len == buf@.len(),
            buf@.len() == old(buf)@.len(),
            forall|j: int| 0 <= j < k ==> buf@[off + j] == byte_of(v, j),
            forall|j: int| 0 <= j < buf@.len() && !(off <= j < off + k)
                ==> buf@[j] == old(buf)@[j],
        decreases n - k,
    {
        let shift: u64 = 8 * (k as u64);
        let b: u8 = #[verifier::truncate] (((v >> shift) & 0xff) as u8);
        buf[off + k] = b;
        k = k + 1;
    }
    proof {
        assert(buf@ =~= write_bytes(old(buf)@, off as int, le_bytes(v, n as int)));
    }
}

/// Apply one record to the owning function's buffer, whose final address
/// is `base`.
fn apply_reloc(
    buf: &mut Vec<u8>,
    base: u64,
    r: &Relocation,
    import_functions: &Vec<u64>,
    function_bases: &Vec<u64>,
    host: &HostAddrs,
) -> (res: Result<(), ErrorKind>)
    ensures
        res is Ok <==> reloc_ok(
            old(buf)@.len() as int,
            (import_functions@.len() + function_bases@.len()) as int,
            *r,
        ),
        res is Ok ==> final(buf)@ == apply_reloc_spec(
            old(buf)@,
            base,
            *r,
            import_functions@,
            function_bases@,
            *host,
        ),
        res is Err ==> final(buf)@ == old(buf)@,
        res matches Err(e) ==> reloc_fault_matches(
            *r,
            old(buf)@.len() as int,
            (import_functions@.len() + function_bases@.len()) as int,
            e,
        ),
{
    let target = match resolve_reloc_target(&r.target, import_functions, function_bases, host) {
        Ok(a) => a,
        Err(e) => {
            return Err(e);
        },
    };
    match &r.reloc {
        Reloc::Abs8 => {
            if !(r.offset as usize <= buf.len() && buf.len() - (r.offset as usize) >= 8) {
                return Err(ErrorKind::Unsupported(UnsupportedFault::RelocationOutOfBounds {
                    offset: r.offset,
                }));
            }
            let sum: i128 = (target as i64) as i128 + (r.addend as i128);
            let v: u64 = #[verifier::truncate] (sum as u64);
            assert(v == abs8_value(target, r.addend));
            write_le(buf, r.offset as usize, v, 8);
            Ok(())
        },
        Reloc::X86PCRel4 => {
            if !(r.offset as usize <= buf.len() && buf.len() - (r.offset as usize) >= 4) {
                return Err(ErrorKind::Unsupported(UnsupportedFault::RelocationOutOfBounds {
                    offset: r.offset,
                }));
            }
            let diff: i128 = (target as i128) - ((base as i128) + (r.offset as i128))
                + (r.addend as i128);
            let v32: u32 = #[verifier::truncate] (diff as u32);
            assert(v32 == pcrel4_value(target, base, r.offset, r.addend));
            write_le(buf, r.offset as usize, v32 as u64, 4);
            assert(le_bytes(v32 as u64, 4) =~= le_bytes(
                pcrel4_value(target, base, r.offset, r.addend) as u64,
                4,
            ));
            Ok(())
        },
        Reloc::Other(name) => Err(ErrorKind::Unsupported(UnsupportedFault::RelocationKind {
            name: name.clone(),
        })),
    }
}

/// Apply one function's whole record list, in record order.
fn apply_function_relocs(
    buf: &mut Vec<u8>,
    base: u64,
    rs: &Vec<Relocation>,
    import_functions: &Vec<u64>,
    function_bases: &Vec<u64>,
    host: &HostAddrs,
) -> (res: Result<(), ErrorKind>)
    ensures
        final(buf)@.len() == old(buf)@.len(),
        res is Ok <==> relocs_ok(
            old(buf)@.len() as int,
            (import_functions@.len() + function_bases@.len()) as int,
            rs@,
        ),
        res is Ok ==> final(buf)@ == apply_relocs_spec(
            old(buf)@,
            base,
            rs@,
            import_functions@,
            function_bases@,
            *host,
        ),
        res matches Err(e) ==> exists|j: int|
            {
                &&& 0 <= j < rs@.len()
                &&& (forall|i: int| 0 <= i < j ==> reloc_ok(
                    old(buf)@.len() as int,
                    (import_functions@.len() + function_bases@.len()) as int,
                    #[trigger] rs@[i],
                ))
                &&& reloc_fault_matches(
                    #[trigger] rs@[j],
                    old(buf)@.len() as int,
                    (import_functions@.len() + function_bases@.len()) as int,
                    e,
                )
            },
{
    let ghost n_funcs: int = (import_functions@.len() + function_bases@.len()) as int;
    let n = rs.len();
    let mut j: usize = 0;
    proof {
        assert(rs@.skip(0) =~= rs@);
    }
    while j < n
        invariant
            j <= n,
            n == rs@.len(),
            n_funcs == (import_functions@.len() + function_bases@.len()) as int,
            buf@.len() == old(buf)@.len(),
            forall|i: int| 0 <= i < j ==> reloc_ok(
                old(buf)@.len() as int,
                n_funcs,
                #[trigger] rs@[i],
            ),
            apply_relocs_spec(
                buf@,
                base,
                rs@.skip(j as int),
                import_functions@,
                function_bases@,
                *host,
            ) == apply_relocs_spec(
                old(buf)@,
                base,
                rs@,
                import_functions@,
                function_bases@,
                *host,
            ),
        decreases n - j,
    {
        let ghost pre = buf@;
        let r = &rs[j];
        let step = apply_reloc(buf, base, r, import_functions, function_bases, host);
        proof {
            assert(rs@.skip(j as int)[0] == rs@[j as int]);
            assert(rs@.skip(j as int).drop_first() =~= rs@.skip(j as int + 1));
        }
        match step {
            Ok(()) => {},
            Err(e) => {
                return Err(e);
            },
        }
        j = j + 1;
    }
    proof {
        assert(rs@.skip(n as int) =~= Seq::<Relocation>::empty());
    }
    Ok(())
}

/// Copy a byte buffer.
fn copy_bytes(v: &Vec<u8>) -> (r: Vec<u8>)
    ensures
        r@ == v@,
{
    let mut r: Vec<u8> = Vec::new();
    let n = v.len();
    let mut i: usize = 0;
    while i < n
        invariant
            i <= n,
            n == v@.len(),
            r@ == v@.subrange(0, i as int),
        decreases n - i,
    {
        r.push(v[i]);
        proof {
            assert(r@ =~= v@.subrange(0, i as int + 1));
        }
        i = i + 1;
    }
    proof {
        assert(v@.subrange(0, n as int) =~= v@);
    }
    r
}

/// The relocation resolver: patch every function's buffer against the
/// now-complete address space. `code[i]` is the `i`-th local function's
/// compiled buffer, `bases[i]` the final native address of that buffer,
/// `relocs[i]` its record list. Returns the patched buffers, in the same
/// order; or the fault of the first record (in function order, then record
/// order) that does not apply cleanly.
pub fn apply_relocations(
    code: &Vec<Vec<u8>>,
    bases: &Vec<u64>,
    relocs: &Vec<Vec<Relocation>>,
    import_functions: &Vec<u64>,
    host: &HostAddrs,
) -> (r: Result<Vec<Vec<u8>>, ErrorKind>)
    requires
        bases@.len() == code@.len(),
        relocs@.len() == code@.len(),
    ensures
        r is Ok <==> all_relocs_ok(
            code@,
            relocs@,
            (import_functions@.len() + code@.len()) as int,
        ),
        r matches Ok(fs) ==> {
            &&& fs@.len() == code@.len()
            &&& forall|i: int| 0 <= i < code@.len() ==> (#[trigger] fs@[i])@ == apply_relocs_spec(
                code@[i]@,
                bases@[i],
                relocs@[i]@,
                import_functions@,
                bases@,
                *host,
            )
        },
        r matches Err(e) ==> exists|i: int|
            {
                &&& 0 <= i < code@.len()
                &&& (forall|i2: int| 0 <= i2 < i ==> relocs_ok(
                    (#[trigger] code@[i2])@.len() as int,
                    (import_functions@.len() + code@.len()) as int,
                    relocs@[i2]@,
                ))
                &&& exists|j: int|
                    {
                        &&& 0 <= j < (#[trigger] relocs@[i])@.len()
                        &&& (forall|j2: int| 0 <= j2 < j ==> reloc_ok(
                            code@[i]@.len() as int,
                            (import_functions@.len() + code@.len()) as int,
                            #[trigger] relocs@[i]@[j2],
                        ))
                        &&& reloc_fault_matches(
                            relocs@[i]@[j],
                            code@[i]@.len() as int,
                            (import_functions@.len() + code@.len()) as int,
                            e,
                        )
                    }
            },
{
    let n = code.len();
    let mut out: Vec<Vec<u8>> = Vec::new();
    let mut i: usize = 0;
    while i < n
        invariant
            i <= n,
            n == code@.len(),
            bases@.len() == n,
            relocs@.len() == n,
            out@.len() == i,
            forall|k: int| 0 <= k < i ==> relocs_ok(
                (#[trigger] code@[k])@.len() as int,
                (import_functions@.len() + code@.len()) as int,
                relocs@[k]@,
            ),
            forall|k: int| 0 <= k < i ==> (#[trigger] out@[k])@ == apply_relocs_spec(
                code@[k]@,
                bases@[k],
                relocs@[k]@,
                import_functions@,
                bases@,
                *host,
            ),
        decreases n - i,
    {
        let mut buf = copy_bytes(&code[i]);
        match apply_function_relocs(&mut buf, bases[i], &relocs[i], import_functions, bases, host) {
            Ok(()) => {
                out.push(buf);
            },
            Err(e) => {
                return Err(e);
            },
        }
        i = i + 1;
    }
    Ok(out)
}

} // verus!
