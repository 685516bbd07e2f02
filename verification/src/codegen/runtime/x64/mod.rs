pub mod arena;
pub mod errors;
pub mod heap;
pub mod io;
pub mod str_ops;
pub mod str_split;
pub mod strings;

use vstd::prelude::*;
use crate::codegen::target::OperatingSystem;

verus! {

/// The x64 runtime: the string routines followed by the error handlers,
/// as assembly text after `prefix`.
pub open spec fn x64_runtime_text(prefix: Seq<char>, os: OperatingSystem) -> Seq<char> {
    errors::errors_routines(strings::strings_routines(prefix, os), os)
}

/// Appends the x64 runtime routines.
pub fn emit_x64_runtime(out: &mut String, os: OperatingSystem)
    ensures
        final(out)@ == x64_runtime_text(old(out)@, os),
{
    strings::emit(out, os);
    errors::emit(out, os);
}

/// The x64 runtime appended after any prefix does not depend on it.
pub proof fn lemma_x64_append(prefix: Seq<char>, os: OperatingSystem)
    ensures
        x64_runtime_text(prefix, os) == prefix + x64_runtime_text(seq![], os),
{
    let a = strings::strings_routines(seq![], os);
    let b = errors::errors_routines(seq![], os);
    strings::lemma_routines_append(prefix, os);
    errors::lemma_routines_append(prefix + a, os);
    errors::lemma_routines_append(a, os);
    assert(prefix + a + b =~= prefix + (a + b));
}

} // verus!
