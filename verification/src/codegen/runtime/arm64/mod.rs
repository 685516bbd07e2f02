pub mod arena;
pub mod heap;
pub mod io;
pub mod net;

use vstd::prelude::*;
use crate::codegen::target::OperatingSystem;

verus! {

/// The two instructions that load the address of `label` into `reg`.
pub open spec fn adrp_add_text(reg: Seq<char>, label: Seq<char>, os: OperatingSystem) -> Seq<char> {
    if os == OperatingSystem::MacOS {
        "    adrp "@ + reg + ", "@ + label + "@PAGE\n"@ + "    add "@ + reg + ", "@ + reg + ", "@
            + label + "@PAGEOFF\n"@
    } else {
        "    adrp "@ + reg + ", "@ + label + "\n"@ + "    add "@ + reg + ", "@ + reg + ", :lo12:"@
            + label + "\n"@
    }
}

/// Appends the page-address pair that loads `label` into `reg`.
pub fn emit_adrp_add(out: &mut String, reg: &str, label: &str, os: OperatingSystem)
    ensures
        final(out)@ == old(out)@ + adrp_add_text(reg@, label@, os),
{
    if os == OperatingSystem::MacOS {
        out.append("    adrp ");
        out.append(reg);
        out.append(", ");
        out.append(label);
        out.append("@PAGE\n");
        out.append("    add ");
        out.append(reg);
        out.append(", ");
        out.append(reg);
        out.append(", ");
        out.append(label);
        out.append("@PAGEOFF\n");
    } else {
        out.append("    adrp ");
        out.append(reg);
        out.append(", ");
        out.append(label);
        out.append("\n");
        out.append("    add ");
        out.append(reg);
        out.append(", ");
        out.append(reg);
        out.append(", :lo12:");
        out.append(label);
        out.append("\n");
    }
}

} // verus!
