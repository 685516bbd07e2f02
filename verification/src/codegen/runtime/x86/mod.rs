pub mod errors;
pub mod heap;
pub mod math;
pub mod mem;
pub mod net;
pub mod thread;

use vstd::prelude::*;
use crate::codegen::target::OperatingSystem;

verus! {

/// The x86 runtime: math, heap, socket, thread and error routines in that
/// order, as assembly text after `prefix`.
pub open spec fn x86_runtime_text(prefix: Seq<char>, os: OperatingSystem) -> Seq<char> {
    let s = math::math_routines(prefix, os);
    let s = heap::heap_routines(s, os);
    let s = net::net_routines(s, os);
    let s = thread::thread_routines(s, os);
    errors::errors_routines(s, os)
}

/// Appends the x86 runtime routines.
pub fn emit_x86_runtime(out: &mut String, os: OperatingSystem)
    ensures
        final(out)@ == x86_runtime_text(old(out)@, os),
{
    math::emit(out, os);
    heap::emit(out, os);
    net::emit(out, os);
    thread::emit(out, os);
    errors::emit(out, os);
}

/// The x86 runtime appended after any prefix does not depend on it.
pub proof fn lemma_x86_append(prefix: Seq<char>, os: OperatingSystem)
    ensures
        x86_runtime_text(prefix, os) == prefix + x86_runtime_text(seq![], os),
{
    let a = math::math_routines(seq![], os);
    let b = heap::heap_routines(seq![], os);
    let c = net::net_routines(seq![], os);
    let d = thread::thread_routines(seq![], os);
    let e = errors::errors_routines(seq![], os);
    math::lemma_routines_append(prefix, os);
    heap::lemma_routines_append(prefix + a, os);
    net::lemma_routines_append(prefix + a + b, os);
    thread::lemma_routines_append(prefix + a + b + c, os);
    errors::lemma_routines_append(prefix + a + b + c + d, os);
    heap::lemma_routines_append(a, os);
    net::lemma_routines_append(a + b, os);
    thread::lemma_routines_append(a + b + c, os);
    errors::lemma_routines_append(a + b + c + d, os);
    assert(prefix + a + b + c + d + e =~= prefix + (a + b + c + d + e));
}

} // verus!
