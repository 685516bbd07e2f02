pub mod arm64;
pub mod arm64_core;
pub mod data;
pub mod x64;
pub mod x64_core;
pub mod x86;

use vstd::prelude::*;
use crate::codegen::target::{Architecture, OperatingSystem};

verus! {

/// The whole runtime for `arch` and `os`: the data sections, then the
/// routines of that architecture, as assembly text after `prefix`.
pub open spec fn runtime_text(prefix: Seq<char>, arch: Architecture, os: OperatingSystem) -> Seq<char> {
    let s = data::data_sections(prefix, arch, os);
    match arch {
        Architecture::ARM64 => arm64_core::core_routines(s),
        Architecture::X64 => x64::x64_runtime_text(s, os),
        Architecture::X86 => x86::x86_runtime_text(s, os),
    }
}

/// Appends the runtime support code that generated programs link against.
pub fn emit_runtime(out: &mut String, arch: Architecture, os: OperatingSystem)
    ensures
        final(out)@ == runtime_text(old(out)@, arch, os),
{
    data::emit_data_sections(out, arch, os);
    match arch {
        Architecture::ARM64 => arm64_core::emit_arm64_runtime(out),
        Architecture::X64 => x64::emit_x64_runtime(out, os),
        Architecture::X86 => x86::emit_x86_runtime(out, os),
    }
}

/// The routines of `arch` on their own.
pub open spec fn routines_text(arch: Architecture, os: OperatingSystem) -> Seq<char> {
    match arch {
        Architecture::ARM64 => arm64_core::core_routines(seq![]),
        Architecture::X64 => x64::x64_runtime_text(seq![], os),
        Architecture::X86 => x86::x86_runtime_text(seq![], os),
    }
}

/// The runtime appended after any prefix is the data sections followed by
/// the routines of the architecture, whatever the prefix.
pub proof fn lemma_runtime_append(prefix: Seq<char>, arch: Architecture, os: OperatingSystem)
    ensures
        runtime_text(prefix, arch, os) == prefix + data::data_sections(seq![], arch, os)
            + routines_text(arch, os),
{
    let d = data::data_sections(seq![], arch, os);
    data::lemma_data_sections_append(prefix, arch, os);
    match arch {
        Architecture::ARM64 => {
            arm64_core::lemma_core_append(prefix + d);
        },
        Architecture::X64 => {
            x64::lemma_x64_append(prefix + d, os);
        },
        Architecture::X86 => {
            x86::lemma_x86_append(prefix + d, os);
        },
    }
}

} // verus!
