use vstd::prelude::*;
use crate::codegen::target::{Architecture, OperatingSystem};
use crate::text::{occurs_at, only_at, nowhere, occurs_once, breaks_last, concat_all, lines_only, lemma_nowhere_all, lemma_once_all, lemma_occurs_all};

verus! {

/// The data and read-only sections shared by the runtime routines, as assembly text after `prefix`.
pub open spec fn data_sections(prefix: Seq<char>, arch: Architecture, os: OperatingSystem) -> Seq<char> {
    let s = prefix;
    let s = if os == OperatingSystem::MacOS {
        let s = s + "\n.section __DATA,__bss\n.p2align 4\n"@;
        s
    } else {
        let s = s + "\n.section .bss\n.align 16\n"@;
        s
    };
    let s = s + "alya_str_buf:\n    .space 65536\n"@;
    let s = if arch == Architecture::X86 {
        let s = s + "alya_str_idx:\n    .long 0\nalya_catch_idx:\n    .long 0\nalya_catch_stack_handler:\n    .space 512\nalya_catch_stack_sp:\n    .space 512\nalya_catch_stack_bp:\n    .space 512\nalya_err_msg:\n    .long 0\n"@;
        s
    } else {
        let s = s + "alya_str_idx:\n    .quad 0\nalya_catch_idx:\n    .quad 0\nalya_catch_stack_handler:\n    .space 1024\nalya_catch_stack_sp:\n    .space 1024\nalya_catch_stack_bp:\n    .space 1024\nalya_err_msg:\n    .quad 0\n"@;
        s
    };
    let s = if os == OperatingSystem::MacOS {
        let s = s + "\n.section __TEXT,__cstring,cstring_literals\nalya_fmt_prompt:\n    .asciz \"%s\"\nalya_fmt_div_zero:\n    .asciz \"Runtime error: division by zero\\n\"\nalya_str_div_zero:\n    .asciz \"division by zero\"\nalya_fmt_bounds:\n    .asciz \"Runtime error: index out of bounds\\n\"\nalya_str_bounds:\n    .asciz \"index out of bounds\"\nalya_fmt_arr_empty:\n    .asciz \"[]\\n\"\nalya_fmt_arr_open:\n    .asciz \"[\"\nalya_fmt_arr_close:\n    .asciz \"]\\n\"\nalya_fmt_arr_elem:\n"@;
        let s = if arch == Architecture::X86 {
            let s = s + "    .asciz \"%d\"\n"@;
            s
        } else {
            let s = s + "    .asciz \"%ld\"\n"@;
            s
        };
        let s = s + "alya_fmt_arr_comma:\n    .asciz \", \"\n"@;
        s
    } else {
        let s = s + "\n.section .rodata\nalya_fmt_prompt:\n    .string \"%s\"\nalya_fmt_div_zero:\n    .string \"Runtime error: division by zero\\n\"\nalya_str_div_zero:\n    .string \"division by zero\"\nalya_fmt_bounds:\n    .string \"Runtime error: index out of bounds\\n\"\nalya_str_bounds:\n    .string \"index out of bounds\"\nalya_fmt_arr_empty:\n    .string \"[]\\n\"\nalya_fmt_arr_open:\n    .string \"[\"\nalya_fmt_arr_close:\n    .string \"]\\n\"\nalya_fmt_arr_elem:\n"@;
        let s = if arch == Architecture::X86 {
            let s = s + "    .string \"%d\"\n"@;
            s
        } else {
            let s = s + "    .string \"%ld\"\n"@;
            s
        };
        let s = s + "alya_fmt_arr_comma:\n    .string \", \"\n"@;
        s
    };
    let s = s + ".text\n"@;
    s
}

/// Appends the data and read-only sections shared by the runtime routines, as assembly text after `prefix`.
pub fn emit_data_sections(out: &mut String, arch: Architecture, os: OperatingSystem)
    ensures
        final(out)@ == data_sections(old(out)@, arch, os),
{
    if os == OperatingSystem::MacOS {
        out.append("\n.section __DATA,__bss\n.p2align 4\n");
    } else {
        out.append("\n.section .bss\n.align 16\n");
    }
    out.append("alya_str_buf:\n    .space 65536\n");
    if arch == Architecture::X86 {
        out.append("alya_str_idx:\n    .long 0\nalya_catch_idx:\n    .long 0\nalya_catch_stack_handler:\n    .space 512\nalya_catch_stack_sp:\n    .space 512\nalya_catch_stack_bp:\n    .space 512\nalya_err_msg:\n    .long 0\n");
    } else {
        out.append("alya_str_idx:\n    .quad 0\nalya_catch_idx:\n    .quad 0\nalya_catch_stack_handler:\n    .space 1024\nalya_catch_stack_sp:\n    .space 1024\nalya_catch_stack_bp:\n    .space 1024\nalya_err_msg:\n    .quad 0\n");
    }
    if os == OperatingSystem::MacOS {
        out.append("\n.section __TEXT,__cstring,cstring_literals\nalya_fmt_prompt:\n    .asciz \"%s\"\nalya_fmt_div_zero:\n    .asciz \"Runtime error: division by zero\\n\"\nalya_str_div_zero:\n    .asciz \"division by zero\"\nalya_fmt_bounds:\n    .asciz \"Runtime error: index out of bounds\\n\"\nalya_str_bounds:\n    .asciz \"index out of bounds\"\nalya_fmt_arr_empty:\n    .asciz \"[]\\n\"\nalya_fmt_arr_open:\n    .asciz \"[\"\nalya_fmt_arr_close:\n    .asciz \"]\\n\"\nalya_fmt_arr_elem:\n");
        if arch == Architecture::X86 {
            out.append("    .asciz \"%d\"\n");
        } else {
            out.append("    .asciz \"%ld\"\n");
        }
        out.append("alya_fmt_arr_comma:\n    .asciz \", \"\n");
    } else {
        out.append("\n.section .rodata\nalya_fmt_prompt:\n    .string \"%s\"\nalya_fmt_div_zero:\n    .string \"Runtime error: division by zero\\n\"\nalya_str_div_zero:\n    .string \"division by zero\"\nalya_fmt_bounds:\n    .string \"Runtime error: index out of bounds\\n\"\nalya_str_bounds:\n    .string \"index out of bounds\"\nalya_fmt_arr_empty:\n    .string \"[]\\n\"\nalya_fmt_arr_open:\n    .string \"[\"\nalya_fmt_arr_close:\n    .string \"]\\n\"\nalya_fmt_arr_elem:\n");
        if arch == Architecture::X86 {
            out.append("    .string \"%d\"\n");
        } else {
            out.append("    .string \"%ld\"\n");
        }
        out.append("alya_fmt_arr_comma:\n    .string \", \"\n");
    }
    out.append(".text\n");
}

/// The data sections appended after any prefix do not depend on it, and
/// they end by switching back to the text section.
pub proof fn lemma_data_sections_append(prefix: Seq<char>, arch: Architecture, os: OperatingSystem)
    ensures
        data_sections(prefix, arch, os) == prefix + data_sections(seq![], arch, os),
        data_sections(seq![], arch, os).len() >= 6,
        data_sections(seq![], arch, os).skip(data_sections(seq![], arch, os).len() - 6) == ".text\n"@,
{
    reveal_strlit(".text\n");
    let d = data_sections(seq![], arch, os);
    assert(data_sections(prefix, arch, os) =~= prefix + d);
    assert(d.skip(d.len() - 6) =~= ".text\n"@);
}

/// Where the patterns of the data section's labels occur in one of its
/// pieces.
#[verifier::rlimit(100)]
proof fn lemma_piece_0()
    ensures
        nowhere("\n.section __DATA,__bss\n.p2align 4\n"@, "alya_str_buf:\n"@),
        nowhere("\n.section __DATA,__bss\n.p2align 4\n"@, "alya_str_idx:\n"@),
        nowhere("\n.section __DATA,__bss\n.p2align 4\n"@, "alya_catch_idx:\n"@),
        nowhere("\n.section __DATA,__bss\n.p2align 4\n"@, "alya_catch_stack_handler:\n"@),
        nowhere("\n.section __DATA,__bss\n.p2align 4\n"@, "alya_catch_stack_sp:\n"@),
        nowhere("\n.section __DATA,__bss\n.p2align 4\n"@, "alya_catch_stack_bp:\n"@),
        nowhere("\n.section __DATA,__bss\n.p2align 4\n"@, "alya_err_msg:\n"@),
        nowhere("\n.section __DATA,__bss\n.p2align 4\n"@, "alya_fmt_prompt:\n"@),
        nowhere("\n.section __DATA,__bss\n.p2align 4\n"@, "alya_fmt_div_zero:\n"@),
        nowhere("\n.section __DATA,__bss\n.p2align 4\n"@, "alya_str_div_zero:\n"@),
        nowhere("\n.section __DATA,__bss\n.p2align 4\n"@, "alya_fmt_bounds:\n"@),
        nowhere("\n.section __DATA,__bss\n.p2align 4\n"@, "alya_str_bounds:\n"@),
        nowhere("\n.section __DATA,__bss\n.p2align 4\n"@, "alya_fmt_arr_empty:\n"@),
        nowhere("\n.section __DATA,__bss\n.p2align 4\n"@, "alya_fmt_arr_open:\n"@),
        nowhere("\n.section __DATA,__bss\n.p2align 4\n"@, "alya_fmt_arr_close:\n"@),
        nowhere("\n.section __DATA,__bss\n.p2align 4\n"@, "alya_fmt_arr_elem:\n"@),
        nowhere("\n.section __DATA,__bss\n.p2align 4\n"@, "alya_fmt_arr_comma:\n"@),
        nowhere("\n.section __DATA,__bss\n.p2align 4\n"@, ".asciz"@),
{
    reveal_strlit("\n.section __DATA,__bss\n.p2align 4\n");
    let m = "\n.section __DATA,__bss\n.p2align 4\n"@;
    reveal_strlit("alya_str_buf:\n");
    reveal_strlit("alya_str_idx:\n");
    reveal_strlit("alya_catch_idx:\n");
    reveal_strlit("alya_catch_stack_handler:\n");
    reveal_strlit("alya_catch_stack_sp:\n");
    reveal_strlit("alya_catch_stack_bp:\n");
    reveal_strlit("alya_err_msg:\n");
    reveal_strlit("alya_fmt_prompt:\n");
    reveal_strlit("alya_fmt_div_zero:\n");
    reveal_strlit("alya_str_div_zero:\n");
    reveal_strlit("alya_fmt_bounds:\n");
    reveal_strlit("alya_str_bounds:\n");
    reveal_strlit("alya_fmt_arr_empty:\n");
    reveal_strlit("alya_fmt_arr_open:\n");
    reveal_strlit("alya_fmt_arr_close:\n");
    reveal_strlit("alya_fmt_arr_elem:\n");
    reveal_strlit("alya_fmt_arr_comma:\n");
    reveal_strlit(".asciz");
    assert forall|j: int| !#[trigger] occurs_at(m, "alya_str_buf:\n"@, j) by {
        if occurs_at(m, "alya_str_buf:\n"@, j) {
            let w = m.subrange(j, j + 14);
            assert(w[0] == m[j + 0]);
        }
    }
    assert forall|j: int| !#[trigger] occurs_at(m, "alya_str_idx:\n"@, j) by {
        if occurs_at(m, "alya_str_idx:\n"@, j) {
            let w = m.subrange(j, j + 14);
            assert(w[0] == m[j + 0]);
        }
    }
    assert forall|j: int| !#[trigger] occurs_at(m, "alya_catch_idx:\n"@, j) by {
        if occurs_at(m, "alya_catch_idx:\n"@, j) {
            let w = m.subrange(j, j + 16);
            assert(w[0] == m[j + 0]);
        }
    }
    assert forall|j: int| !#[trigger] occurs_at(m, "alya_catch_stack_handler:\n"@, j) by {
        if occurs_at(m, "alya_catch_stack_handler:\n"@, j) {
            let w = m.subrange(j, j + 26);
            assert(w[0] == m[j + 0]);
        }
    }
    assert forall|j: int| !#[trigger] occurs_at(m, "alya_catch_stack_sp:\n"@, j) by {
        if occurs_at(m, "alya_catch_stack_sp:\n"@, j) {
            let w = m.subrange(j, j + 21);
            assert(w[0] == m[j + 0]);
        }
    }
    assert forall|j: int| !#[trigger] occurs_at(m, "alya_catch_stack_bp:\n"@, j) by {
        if occurs_at(m, "alya_catch_stack_bp:\n"@, j) {
            let w = m.subrange(j, j + 21);
            assert(w[0] == m[j + 0]);
        }
    }
    assert forall|j: int| !#[trigger] occurs_at(m, "alya_err_msg:\n"@, j) by {
        if occurs_at(m, "alya_err_msg:\n"@, j) {
            let w = m.subrange(j, j + 14);
            assert(w[0] == m[j + 0]);
        }
    }
    assert forall|j: int| !#[trigger] occurs_at(m, "alya_fmt_prompt:\n"@, j) by {
        if occurs_at(m, "alya_fmt_prompt:\n"@, j) {
            let w = m.subrange(j, j + 17);
            assert(w[0] == m[j + 0]);
        }
    }
    assert forall|j: int| !#[trigger] occurs_at(m, "alya_fmt_div_zero:\n"@, j) by {
        if occurs_at(m, "alya_fmt_div_zero:\n"@, j) {
            let w = m.subrange(j, j + 19);
            assert(w[0] == m[j + 0]);
        }
    }
    assert forall|j: int| !#[trigger] occurs_at(m, "alya_str_div_zero:\n"@, j) by {
        if occurs_at(m, "alya_str_div_zero:\n"@, j) {
            let w = m.subrange(j, j + 19);
            assert(w[0] == m[j + 0]);
        }
    }
    assert forall|j: int| !#[trigger] occurs_at(m, "alya_fmt_bounds:\n"@, j) by {
        if occurs_at(m, "alya_fmt_bounds:\n"@, j) {
            let w = m.subrange(j, j + 17);
            assert(w[0] == m[j + 0]);
        }
    }
    assert forall|j: int| !#[trigger] occurs_at(m, "alya_str_bounds:\n"@, j) by {
        if occurs_at(m, "alya_str_bounds:\n"@, j) {
            let w = m.subrange(j, j + 17);
            assert(w[0] == m[j + 0]);
        }
    }
    assert forall|j: int| !#[trigger] occurs_at(m, "alya_fmt_arr_empty:\n"@, j) by {
        if occurs_at(m, "alya_fmt_arr_empty:\n"@, j) {
            let w = m.subrange(j, j + 20);
            assert(w[0] == m[j + 0]);
        }
    }
    assert forall|j: int| !#[trigger] occurs_at(m, "alya_fmt_arr_open:\n"@, j) by {
        if occurs_at(m, "alya_fmt_arr_open:\n"@, j) {
            let w = m.subrange(j, j + 19);
            assert(w[0] == m[j + 0]);
        }
    }
    assert forall|j: int| !#[trigger] occurs_at(m, "alya_fmt_arr_close:\n"@, j) by {
        if occurs_at(m, "alya_fmt_arr_close:\n"@, j) {
            let w = m.subrange(j, j + 20);
            assert(w[0] == m[j + 0]);
        }
    }
    assert forall|j: int| !#[trigger] occurs_at(m, "alya_fmt_arr_elem:\n"@, j) by {
        if occurs_at(m, "alya_fmt_arr_elem:\n"@, j) {
            let w = m.subrange(j, j + 19);
            assert(w[0] == m[j + 0]);
        }
    }
    assert forall|j: int| !#[trigger] occurs_at(m, "alya_fmt_arr_comma:\n"@, j) by {
        if occurs_at(m, "alya_fmt_arr_comma:\n"@, j) {
            let w = m.subrange(j, j + 20);
            assert(w[0] == m[j + 0]);
        }
    }
    assert forall|j: int| !#[trigger] occurs_at(m, ".asciz"@, j) by {
        if occurs_at(m, ".asciz"@, j) {
            let w = m.subrange(j, j + 6);
            assert(w[5] == m[j + 5]);
        }
    }
}

/// Where the patterns of the data section's labels occur in one of its
/// pieces.
#[verifier::rlimit(100)]
proof fn lemma_piece_1()
    ensures
        nowhere("\n.section .bss\n.align 16\n"@, "alya_str_buf:\n"@),
        nowhere("\n.section .bss\n.align 16\n"@, "alya_str_idx:\n"@),
        nowhere("\n.section .bss\n.align 16\n"@, "alya_catch_idx:\n"@),
        nowhere("\n.section .bss\n.align 16\n"@, "alya_catch_stack_handler:\n"@),
        nowhere("\n.section .bss\n.align 16\n"@, "alya_catch_stack_sp:\n"@),
        nowhere("\n.section .bss\n.align 16\n"@, "alya_catch_stack_bp:\n"@),
        nowhere("\n.section .bss\n.align 16\n"@, "alya_err_msg:\n"@),
        nowhere("\n.section .bss\n.align 16\n"@, "alya_fmt_prompt:\n"@),
        nowhere("\n.section .bss\n.align 16\n"@, "alya_fmt_div_zero:\n"@),
        nowhere("\n.section .bss\n.align 16\n"@, "alya_str_div_zero:\n"@),
        nowhere("\n.section .bss\n.align 16\n"@, "alya_fmt_bounds:\n"@),
        nowhere("\n.section .bss\n.align 16\n"@, "alya_str_bounds:\n"@),
        nowhere("\n.section .bss\n.align 16\n"@, "alya_fmt_arr_empty:\n"@),
        nowhere("\n.section .bss\n.align 16\n"@, "alya_fmt_arr_open:\n"@),
        nowhere("\n.section .bss\n.align 16\n"@, "alya_fmt_arr_close:\n"@),
        nowhere("\n.section .bss\n.align 16\n"@, "alya_fmt_arr_elem:\n"@),
        nowhere("\n.section .bss\n.align 16\n"@, "alya_fmt_arr_comma:\n"@),
        nowhere("\n.section .bss\n.align 16\n"@, ".asciz"@),
{
    reveal_strlit("\n.section .bss\n.align 16\n");
    let m = "\n.section .bss\n.align 16\n"@;
    reveal_strlit("alya_str_buf:\n");
    reveal_strlit("alya_str_idx:\n");
    reveal_strlit("alya_catch_idx:\n");
    reveal_strlit("alya_catch_stack_handler:\n");
    reveal_strlit("alya_catch_stack_sp:\n");
    reveal_strlit("alya_catch_stack_bp:\n");
    reveal_strlit("alya_err_msg:\n");
    reveal_strlit("alya_fmt_prompt:\n");
    reveal_strlit("alya_fmt_div_zero:\n");
    reveal_strlit("alya_str_div_zero:\n");
    reveal_strlit("alya_fmt_bounds:\n");
    reveal_strlit("alya_str_bounds:\n");
    reveal_strlit("alya_fmt_arr_empty:\n");
    reveal_strlit("alya_fmt_arr_open:\n");
    reveal_strlit("alya_fmt_arr_close:\n");
    reveal_strlit("alya_fmt_arr_elem:\n");
    reveal_strlit("alya_fmt_arr_comma:\n");
    reveal_strlit(".asciz");
    assert forall|j: int| !#[trigger] occurs_at(m, "alya_str_buf:\n"@, j) by {
        if occurs_at(m, "alya_str_buf:\n"@, j) {
            let w = m.subrange(j, j + 14);
            assert(w[0] == m[j + 0]);
        }
    }
    assert forall|j: int| !#[trigger] occurs_at(m, "alya_str_idx:\n"@, j) by {
        if occurs_at(m, "alya_str_idx:\n"@, j) {
            let w = m.subrange(j, j + 14);
            assert(w[0] == m[j + 0]);
        }
    }
    assert forall|j: int| !#[trigger] occurs_at(m, "alya_catch_idx:\n"@, j) by {
        if occurs_at(m, "alya_catch_idx:\n"@, j) {
            let w = m.subrange(j, j + 16);
            assert(w[0] == m[j + 0]);
        }
    }
    assert(forall|j: int| !#[trigger] occurs_at(m, "alya_catch_stack_handler:\n"@, j));
    assert forall|j: int| !#[trigger] occurs_at(m, "alya_catch_stack_sp:\n"@, j) by {
        if occurs_at(m, "alya_catch_stack_sp:\n"@, j) {
            let w = m.subrange(j, j + 21);
            assert(w[0] == m[j + 0]);
        }
    }
    assert forall|j: int| !#[trigger] occurs_at(m, "alya_catch_stack_bp:\n"@, j) by {
        if occurs_at(m, "alya_catch_stack_bp:\n"@, j) {
            let w = m.subrange(j, j + 21);
            assert(w[0] == m[j + 0]);
        }
    }
    assert forall|j: int| !#[trigger] occurs_at(m, "alya_err_msg:\n"@, j) by {
        if occurs_at(m, "alya_err_msg:\n"@, j) {
            let w = m.subrange(j, j + 14);
            assert(w[0] == m[j + 0]);
        }
    }
    assert forall|j: int| !#[trigger] occurs_at(m, "alya_fmt_prompt:\n"@, j) by {
        if occurs_at(m, "alya_fmt_prompt:\n"@, j) {
            let w = m.subrange(j, j + 17);
            assert(w[0] == m[j + 0]);
        }
    }
    assert forall|j: int| !#[trigger] occurs_at(m, "alya_fmt_div_zero:\n"@, j) by {
        if occurs_at(m, "alya_fmt_div_zero:\n"@, j) {
            let w = m.subrange(j, j + 19);
            assert(w[0] == m[j + 0]);
        }
    }
    assert forall|j: int| !#[trigger] occurs_at(m, "alya_str_div_zero:\n"@, j) by {
        if occurs_at(m, "alya_str_div_zero:\n"@, j) {
            let w = m.subrange(j, j + 19);
            assert(w[0] == m[j + 0]);
        }
    }
    assert forall|j: int| !#[trigger] occurs_at(m, "alya_fmt_bounds:\n"@, j) by {
        if occurs_at(m, "alya_fmt_bounds:\n"@, j) {
            let w = m.subrange(j, j + 17);
            assert(w[0] == m[j + 0]);
        }
    }
    assert forall|j: int| !#[trigger] occurs_at(m, "alya_str_bounds:\n"@, j) by {
        if occurs_at(m, "alya_str_bounds:\n"@, j) {
            let w = m.subrange(j, j + 17);
            assert(w[0] == m[j + 0]);
        }
    }
    assert forall|j: int| !#[trigger] occurs_at(m, "alya_fmt_arr_empty:\n"@, j) by {
        if occurs_at(m, "alya_fmt_arr_empty:\n"@, j) {
            let w = m.subrange(j, j + 20);
            assert(w[0] == m[j + 0]);
        }
    }
    assert forall|j: int| !#[trigger] occurs_at(m, "alya_fmt_arr_open:\n"@, j) by {
        if occurs_at(m, "alya_fmt_arr_open:\n"@, j) {
            let w = m.subrange(j, j + 19);
            assert(w[0] == m[j + 0]);
        }
    }
    assert forall|j: int| !#[trigger] occurs_at(m, "alya_fmt_arr_close:\n"@, j) by {
        if occurs_at(m, "alya_fmt_arr_close:\n"@, j) {
            let w = m.subrange(j, j + 20);
            assert(w[0] == m[j + 0]);
        }
    }
    assert forall|j: int| !#[trigger] occurs_at(m, "alya_fmt_arr_elem:\n"@, j) by {
        if occurs_at(m, "alya_fmt_arr_elem:\n"@, j) {
            let w = m.subrange(j, j + 19);
            assert(w[0] == m[j + 0]);
        }
    }
    assert forall|j: int| !#[trigger] occurs_at(m, "alya_fmt_arr_comma:\n"@, j) by {
        if occurs_at(m, "alya_fmt_arr_comma:\n"@, j) {
            let w = m.subrange(j, j + 20);
            assert(w[0] == m[j + 0]);
        }
    }
    assert forall|j: int| !#[trigger] occurs_at(m, ".asciz"@, j) by {
        if occurs_at(m, ".asciz"@, j) {
            let w = m.subrange(j, j + 6);
            assert(w[5] == m[j + 5]);
        }
    }
}

/// Where the patterns of the data section's labels occur in one of its
/// pieces.
#[verifier::rlimit(100)]
proof fn lemma_piece_2()
    ensures
        only_at("alya_str_buf:\n    .space 65536\n"@, "alya_str_buf:\n"@, 0),
        nowhere("alya_str_buf:\n    .space 65536\n"@, "alya_str_idx:\n"@),
        nowhere("alya_str_buf:\n    .space 65536\n"@, "alya_catch_idx:\n"@),
        nowhere("alya_str_buf:\n    .space 65536\n"@, "alya_catch_stack_handler:\n"@),
        nowhere("alya_str_buf:\n    .space 65536\n"@, "alya_catch_stack_sp:\n"@),
        nowhere("alya_str_buf:\n    .space 65536\n"@, "alya_catch_stack_bp:\n"@),
        nowhere("alya_str_buf:\n    .space 65536\n"@, "alya_err_msg:\n"@),
        nowhere("alya_str_buf:\n    .space 65536\n"@, "alya_fmt_prompt:\n"@),
        nowhere("alya_str_buf:\n    .space 65536\n"@, "alya_fmt_div_zero:\n"@),
        nowhere("alya_str_buf:\n    .space 65536\n"@, "alya_str_div_zero:\n"@),
        nowhere("alya_str_buf:\n    .space 65536\n"@, "alya_fmt_bounds:\n"@),
        nowhere("alya_str_buf:\n    .space 65536\n"@, "alya_str_bounds:\n"@),
        nowhere("alya_str_buf:\n    .space 65536\n"@, "alya_fmt_arr_empty:\n"@),
        nowhere("alya_str_buf:\n    .space 65536\n"@, "alya_fmt_arr_open:\n"@),
        nowhere("alya_str_buf:\n    .space 65536\n"@, "alya_fmt_arr_close:\n"@),
        nowhere("alya_str_buf:\n    .space 65536\n"@, "alya_fmt_arr_elem:\n"@),
        nowhere("alya_str_buf:\n    .space 65536\n"@, "alya_fmt_arr_comma:\n"@),
        nowhere("alya_str_buf:\n    .space 65536\n"@, ".asciz"@),
{
    reveal_strlit("alya_str_buf:\n    .space 65536\n");
    let m = "alya_str_buf:\n    .space 65536\n"@;
    reveal_strlit("alya_str_buf:\n");
    reveal_strlit("alya_str_idx:\n");
    reveal_strlit("alya_catch_idx:\n");
    reveal_strlit("alya_catch_stack_handler:\n");
    reveal_strlit("alya_catch_stack_sp:\n");
    reveal_strlit("alya_catch_stack_bp:\n");
    reveal_strlit("alya_err_msg:\n");
    reveal_strlit("alya_fmt_prompt:\n");
    reveal_strlit("alya_fmt_div_zero:\n");
    reveal_strlit("alya_str_div_zero:\n");
    reveal_strlit("alya_fmt_bounds:\n");
    reveal_strlit("alya_str_bounds:\n");
    reveal_strlit("alya_fmt_arr_empty:\n");
    reveal_strlit("alya_fmt_arr_open:\n");
    reveal_strlit("alya_fmt_arr_close:\n");
    reveal_strlit("alya_fmt_arr_elem:\n");
    reveal_strlit("alya_fmt_arr_comma:\n");
    reveal_strlit(".asciz");
    assert(m.subrange(0, 14) =~= "alya_str_buf:\n"@);
    assert forall|j: int| #[trigger] occurs_at(m, "alya_str_buf:\n"@, j) implies j == 0 by {
        let w = m.subrange(j, j + 14);
        assert(w[1] == m[j + 1]);
    }
    assert forall|j: int| !#[trigger] occurs_at(m, "alya_str_idx:\n"@, j) by {
        if occurs_at(m, "alya_str_idx:\n"@, j) {
            let w = m.subrange(j, j + 14);
            assert(w[9] == m[j + 9]);
        }
    }
    assert forall|j: int| !#[trigger] occurs_at(m, "alya_catch_idx:\n"@, j) by {
        if occurs_at(m, "alya_catch_idx:\n"@, j) {
            let w = m.subrange(j, j + 16);
            assert(w[5] == m[j + 5]);
        }
    }
    assert forall|j: int| !#[trigger] occurs_at(m, "alya_catch_stack_handler:\n"@, j) by {
        if occurs_at(m, "alya_catch_stack_handler:\n"@, j) {
            let w = m.subrange(j, j + 26);
            assert(w[5] == m[j + 5]);
        }
    }
    assert forall|j: int| !#[trigger] occurs_at(m, "alya_catch_stack_sp:\n"@, j) by {
        if occurs_at(m, "alya_catch_stack_sp:\n"@, j) {
            let w = m.subrange(j, j + 21);
            assert(w[5] == m[j + 5]);
        }
    }
    assert forall|j: int| !#[trigger] occurs_at(m, "alya_catch_stack_bp:\n"@, j) by {
        if occurs_at(m, "alya_catch_stack_bp:\n"@, j) {
            let w = m.subrange(j, j + 21);
            assert(w[5] == m[j + 5]);
        }
    }
    assert forall|j: int| !#[trigger] occurs_at(m, "alya_err_msg:\n"@, j) by {
        if occurs_at(m, "alya_err_msg:\n"@, j) {
            let w = m.subrange(j, j + 14);
            assert(w[5] == m[j + 5]);
        }
    }
    assert forall|j: int| !#[trigger] occurs_at(m, "alya_fmt_prompt:\n"@, j) by {
        if occurs_at(m, "alya_fmt_prompt:\n"@, j) {
            let w = m.subrange(j, j + 17);
            assert(w[6] == m[j + 6]);
        }
    }
    assert forall|j: int| !#[trigger] occurs_at(m, "alya_fmt_div_zero:\n"@, j) by {
        if occurs_at(m, "alya_fmt_div_zero:\n"@, j) {
            let w = m.subrange(j, j + 19);
            assert(w[6] == m[j + 6]);
        }
    }
    assert forall|j: int| !#[trigger] occurs_at(m, "alya_str_div_zero:\n"@, j) by {
        if occurs_at(m, "alya_str_div_zero:\n"@, j) {
            let w = m.subrange(j, j + 19);
            assert(w[9] == m[j + 9]);
        }
    }
    assert forall|j: int| !#[trigger] occurs_at(m, "alya_fmt_bounds:\n"@, j) by {
        if occurs_at(m, "alya_fmt_bounds:\n"@, j) {
            let w = m.subrange(j, j + 17);
            assert(w[6] == m[j + 6]);
        }
    }
    assert forall|j: int| !#[trigger] occurs_at(m, "alya_str_bounds:\n"@, j) by {
        if occurs_at(m, "alya_str_bounds:\n"@, j) {
            let w = m.subrange(j, j + 17);
            assert(w[10] == m[j + 10]);
        }
    }
    assert forall|j: int| !#[trigger] occurs_at(m, "alya_fmt_arr_empty:\n"@, j) by {
        if occurs_at(m, "alya_fmt_arr_empty:\n"@, j) {
            let w = m.subrange(j, j + 20);
            assert(w[6] == m[j + 6]);
        }
    }
    assert forall|j: int| !#[trigger] occurs_at(m, "alya_fmt_arr_open:\n"@, j) by {
        if occurs_at(m, "alya_fmt_arr_open:\n"@, j) {
            let w = m.subrange(j, j + 19);
            assert(w[6] == m[j + 6]);
        }
    }
    assert forall|j: int| !#[trigger] occurs_at(m, "alya_fmt_arr_close:\n"@, j) by {
        if occurs_at(m, "alya_fmt_arr_close:\n"@, j) {
            let w = m.subrange(j, j + 20);
            assert(w[6] == m[j + 6]);
        }
    }
    assert forall|j: int| !#[trigger] occurs_at(m, "alya_fmt_arr_elem:\n"@, j) by {
        if occurs_at(m, "alya_fmt_arr_elem:\n"@, j) {
            let w = m.subrange(j, j + 19);
            assert(w[6] == m[j + 6]);
        }
    }
    assert forall|j: int| !#[trigger] occurs_at(m, "alya_fmt_arr_comma:\n"@, j) by {
        if occurs_at(m, "alya_fmt_arr_comma:\n"@, j) {
            let w = m.subrange(j, j + 20);
            assert(w[6] == m[j + 6]);
        }
    }
    assert forall|j: int| !#[trigger] occurs_at(m, ".asciz"@, j) by {
        if occurs_at(m, ".asciz"@, j) {
            let w = m.subrange(j, j + 6);
            assert(w[4] == m[j + 4]);
        }
    }
}

/// Where the patterns of the data section's labels occur in one of its
/// pieces.
#[verifier::rlimit(100)]
proof fn lemma_piece_3()
    ensures
        nowhere("alya_str_idx:\n    .long 0\nalya_catch_idx:\n    .long 0\nalya_catch_stack_handler:\n    .space 512\nalya_catch_stack_sp:\n    .space 512\nalya_catch_stack_bp:\n    .space 512\nalya_err_msg:\n    .long 0\n"@, "alya_str_buf:\n"@),
        only_at("alya_str_idx:\n    .long 0\nalya_catch_idx:\n    .long 0\nalya_catch_stack_handler:\n    .space 512\nalya_catch_stack_sp:\n    .space 512\nalya_catch_stack_bp:\n    .space 512\nalya_err_msg:\n    .long 0\n"@, "alya_str_idx:\n"@, 0),
        only_at("alya_str_idx:\n    .long 0\nalya_catch_idx:\n    .long 0\nalya_catch_stack_handler:\n    .space 512\nalya_catch_stack_sp:\n    .space 512\nalya_catch_stack_bp:\n    .space 512\nalya_err_msg:\n    .long 0\n"@, "alya_catch_idx:\n"@, 26),
        only_at("alya_str_idx:\n    .long 0\nalya_catch_idx:\n    .long 0\nalya_catch_stack_handler:\n    .space 512\nalya_catch_stack_sp:\n    .space 512\nalya_catch_stack_bp:\n    .space 512\nalya_err_msg:\n    .long 0\n"@, "alya_catch_stack_handler:\n"@, 54),
        only_at("alya_str_idx:\n    .long 0\nalya_catch_idx:\n    .long 0\nalya_catch_stack_handler:\n    .space 512\nalya_catch_stack_sp:\n    .space 512\nalya_catch_stack_bp:\n    .space 512\nalya_err_msg:\n    .long 0\n"@, "alya_catch_stack_sp:\n"@, 95),
        only_at("alya_str_idx:\n    .long 0\nalya_catch_idx:\n    .long 0\nalya_catch_stack_handler:\n    .space 512\nalya_catch_stack_sp:\n    .space 512\nalya_catch_stack_bp:\n    .space 512\nalya_err_msg:\n    .long 0\n"@, "alya_catch_stack_bp:\n"@, 131),
        only_at("alya_str_idx:\n    .long 0\nalya_catch_idx:\n    .long 0\nalya_catch_stack_handler:\n    .space 512\nalya_catch_stack_sp:\n    .space 512\nalya_catch_stack_bp:\n    .space 512\nalya_err_msg:\n    .long 0\n"@, "alya_err_msg:\n"@, 167),
        nowhere("alya_str_idx:\n    .long 0\nalya_catch_idx:\n    .long 0\nalya_catch_stack_handler:\n    .space 512\nalya_catch_stack_sp:\n    .space 512\nalya_catch_stack_bp:\n    .space 512\nalya_err_msg:\n    .long 0\n"@, "alya_fmt_prompt:\n"@),
        nowhere("alya_str_idx:\n    .long 0\nalya_catch_idx:\n    .long 0\nalya_catch_stack_handler:\n    .space 512\nalya_catch_stack_sp:\n    .space 512\nalya_catch_stack_bp:\n    .space 512\nalya_err_msg:\n    .long 0\n"@, "alya_fmt_div_zero:\n"@),
        nowhere("alya_str_idx:\n    .long 0\nalya_catch_idx:\n    .long 0\nalya_catch_stack_handler:\n    .space 512\nalya_catch_stack_sp:\n    .space 512\nalya_catch_stack_bp:\n    .space 512\nalya_err_msg:\n    .long 0\n"@, "alya_str_div_zero:\n"@),
        nowhere("alya_str_idx:\n    .long 0\nalya_catch_idx:\n    .long 0\nalya_catch_stack_handler:\n    .space 512\nalya_catch_stack_sp:\n    .space 512\nalya_catch_stack_bp:\n    .space 512\nalya_err_msg:\n    .long 0\n"@, "alya_fmt_bounds:\n"@),
        nowhere("alya_str_idx:\n    .long 0\nalya_catch_idx:\n    .long 0\nalya_catch_stack_handler:\n    .space 512\nalya_catch_stack_sp:\n    .space 512\nalya_catch_stack_bp:\n    .space 512\nalya_err_msg:\n    .long 0\n"@, "alya_str_bounds:\n"@),
        nowhere("alya_str_idx:\n    .long 0\nalya_catch_idx:\n    .long 0\nalya_catch_stack_handler:\n    .space 512\nalya_catch_stack_sp:\n    .space 512\nalya_catch_stack_bp:\n    .space 512\nalya_err_msg:\n    .long 0\n"@, "alya_fmt_arr_empty:\n"@),
        nowhere("alya_str_idx:\n    .long 0\nalya_catch_idx:\n    .long 0\nalya_catch_stack_handler:\n    .space 512\nalya_catch_stack_sp:\n    .space 512\nalya_catch_stack_bp:\n    .space 512\nalya_err_msg:\n    .long 0\n"@, "alya_fmt_arr_open:\n"@),
        nowhere("alya_str_idx:\n    .long 0\nalya_catch_idx:\n    .long 0\nalya_catch_stack_handler:\n    .space 512\nalya_catch_stack_sp:\n    .space 512\nalya_catch_stack_bp:\n    .space 512\nalya_err_msg:\n    .long 0\n"@, "alya_fmt_arr_close:\n"@),
        nowhere("alya_str_idx:\n    .long 0\nalya_catch_idx:\n    .long 0\nalya_catch_stack_handler:\n    .space 512\nalya_catch_stack_sp:\n    .space 512\nalya_catch_stack_bp:\n    .space 512\nalya_err_msg:\n    .long 0\n"@, "alya_fmt_arr_elem:\n"@),
        nowhere("alya_str_idx:\n    .long 0\nalya_catch_idx:\n    .long 0\nalya_catch_stack_handler:\n    .space 512\nalya_catch_stack_sp:\n    .space 512\nalya_catch_stack_bp:\n    .space 512\nalya_err_msg:\n    .long 0\n"@, "alya_fmt_arr_comma:\n"@),
        nowhere("alya_str_idx:\n    .long 0\nalya_catch_idx:\n    .long 0\nalya_catch_stack_handler:\n    .space 512\nalya_catch_stack_sp:\n    .space 512\nalya_catch_stack_bp:\n    .space 512\nalya_err_msg:\n    .long 0\n"@, ".asciz"@),
{
    reveal_strlit("alya_str_idx:\n    .long 0\nalya_catch_idx:\n    .long 0\nalya_catch_stack_handler:\n    .space 512\nalya_catch_stack_sp:\n    .space 512\nalya_catch_stack_bp:\n    .space 512\nalya_err_msg:\n    .long 0\n");
    let m = "alya_str_idx:\n    .long 0\nalya_catch_idx:\n    .long 0\nalya_catch_stack_handler:\n    .space 512\nalya_catch_stack_sp:\n    .space 512\nalya_catch_stack_bp:\n    .space 512\nalya_err_msg:\n    .long 0\n"@;
    reveal_strlit("alya_str_buf:\n");
    reveal_strlit("alya_str_idx:\n");
    reveal_strlit("alya_catch_idx:\n");
    reveal_strlit("alya_catch_stack_handler:\n");
    reveal_strlit("alya_catch_stack_sp:\n");
    reveal_strlit("alya_catch_stack_bp:\n");
    reveal_strlit("alya_err_msg:\n");
    reveal_strlit("alya_fmt_prompt:\n");
    reveal_strlit("alya_fmt_div_zero:\n");
    reveal_strlit("alya_str_div_zero:\n");
    reveal_strlit("alya_fmt_bounds:\n");
    reveal_strlit("alya_str_bounds:\n");
    reveal_strlit("alya_fmt_arr_empty:\n");
    reveal_strlit("alya_fmt_arr_open:\n");
    reveal_strlit("alya_fmt_arr_close:\n");
    reveal_strlit("alya_fmt_arr_elem:\n");
    reveal_strlit("alya_fmt_arr_comma:\n");
    reveal_strlit(".asciz");
    assert forall|j: int| !#[trigger] occurs_at(m, "alya_str_buf:\n"@, j) by {
        if occurs_at(m, "alya_str_buf:\n"@, j) {
            let w = m.subrange(j, j + 14);
            assert(w[10] == m[j + 10]);
        }
    }
    assert(m.subrange(0, 14) =~= "alya_str_idx:\n"@);
    assert forall|j: int| #[trigger] occurs_at(m, "alya_str_idx:\n"@, j) implies j == 0 by {
        let w = m.subrange(j, j + 14);
        assert(w[9] == m[j + 9] && w[0] == m[j + 0]);
    }
    assert(m.subrange(26, 42) =~= "alya_catch_idx:\n"@);
    assert forall|j: int| #[trigger] occurs_at(m, "alya_catch_idx:\n"@, j) implies j == 26 by {
        let w = m.subrange(j, j + 16);
        assert(w[11] == m[j + 11]);
    }
    assert(m.subrange(54, 80) =~= "alya_catch_stack_handler:\n"@);
    assert forall|j: int| #[trigger] occurs_at(m, "alya_catch_stack_handler:\n"@, j) implies j == 54 by {
        let w = m.subrange(j, j + 26);
        assert(w[20] == m[j + 20] && w[0] == m[j + 0]);
    }
    assert(m.subrange(95, 116) =~= "alya_catch_stack_sp:\n"@);
    assert forall|j: int| #[trigger] occurs_at(m, "alya_catch_stack_sp:\n"@, j) implies j == 95 by {
        let w = m.subrange(j, j + 21);
        assert(w[15] == m[j + 15] && w[17] == m[j + 17]);
    }
    assert(m.subrange(131, 152) =~= "alya_catch_stack_bp:\n"@);
    assert forall|j: int| #[trigger] occurs_at(m, "alya_catch_stack_bp:\n"@, j) implies j == 131 by {
        let w = m.subrange(j, j + 21);
        assert(w[17] == m[j + 17]);
    }
    assert(m.subrange(167, 181) =~= "alya_err_msg:\n"@);
    assert forall|j: int| #[trigger] occurs_at(m, "alya_err_msg:\n"@, j) implies j == 167 by {
        let w = m.subrange(j, j + 14);
        assert(w[9] == m[j + 9]);
    }
    assert forall|j: int| !#[trigger] occurs_at(m, "alya_fmt_prompt:\n"@, j) by {
        if occurs_at(m, "alya_fmt_prompt:\n"@, j) {
            let w = m.subrange(j, j + 17);
            assert(w[5] == m[j + 5]);
        }
    }
    assert forall|j: int| !#[trigger] occurs_at(m, "alya_fmt_div_zero:\n"@, j) by {
        if occurs_at(m, "alya_fmt_div_zero:\n"@, j) {
            let w = m.subrange(j, j + 19);
            assert(w[5] == m[j + 5]);
        }
    }
    assert forall|j: int| !#[trigger] occurs_at(m, "alya_str_div_zero:\n"@, j) by {
        if occurs_at(m, "alya_str_div_zero:\n"@, j) {
            let w = m.subrange(j, j + 19);
            assert(w[11] == m[j + 11]);
        }
    }
    assert forall|j: int| !#[trigger] occurs_at(m, "alya_fmt_bounds:\n"@, j) by {
        if occurs_at(m, "alya_fmt_bounds:\n"@, j) {
            let w = m.subrange(j, j + 17);
            assert(w[5] == m[j + 5]);
        }
    }
    assert forall|j: int| !#[trigger] occurs_at(m, "alya_str_bounds:\n"@, j) by {
        if occurs_at(m, "alya_str_bounds:\n"@, j) {
            let w = m.subrange(j, j + 17);
            assert(w[11] == m[j + 11]);
        }
    }
    assert forall|j: int| !#[trigger] occurs_at(m, "alya_fmt_arr_empty:\n"@, j) by {
        if occurs_at(m, "alya_fmt_arr_empty:\n"@, j) {
            let w = m.subrange(j, j + 20);
            assert(w[5] == m[j + 5]);
        }
    }
    assert forall|j: int| !#[trigger] occurs_at(m, "alya_fmt_arr_open:\n"@, j) by {
        if occurs_at(m, "alya_fmt_arr_open:\n"@, j) {
            let w = m.subrange(j, j + 19);
            assert(w[5] == m[j + 5]);
        }
    }
    assert forall|j: int| !#[trigger] occurs_at(m, "alya_fmt_arr_close:\n"@, j) by {
        if occurs_at(m, "alya_fmt_arr_close:\n"@, j) {
            let w = m.subrange(j, j + 20);
            assert(w[5] == m[j + 5]);
        }
    }
    assert forall|j: int| !#[trigger] occurs_at(m, "alya_fmt_arr_elem:\n"@, j) by {
        if occurs_at(m, "alya_fmt_arr_elem:\n"@, j) {
            let w = m.subrange(j, j + 19);
            assert(w[5] == m[j + 5]);
        }
    }
    assert forall|j: int| !#[trigger] occurs_at(m, "alya_fmt_arr_comma:\n"@, j) by {
        if occurs_at(m, "alya_fmt_arr_comma:\n"@, j) {
            let w = m.subrange(j, j + 20);
            assert(w[5] == m[j + 5]);
        }
    }
    assert forall|j: int| !#[trigger] occurs_at(m, ".asciz"@, j) by {
        if occurs_at(m, ".asciz"@, j) {
            let w = m.subrange(j, j + 6);
            assert(w[5] == m[j + 5]);
        }
    }
}

/// Where the patterns of the data section's labels occur in one of its
/// pieces.
#[verifier::rlimit(100)]
proof fn lemma_piece_4()
    ensures
        nowhere("alya_str_idx:\n    .quad 0\nalya_catch_idx:\n    .quad 0\nalya_catch_stack_handler:\n    .space 1024\nalya_catch_stack_sp:\n    .space 1024\nalya_catch_stack_bp:\n    .space 1024\nalya_err_msg:\n    .quad 0\n"@, "alya_str_buf:\n"@),
        only_at("alya_str_idx:\n    .quad 0\nalya_catch_idx:\n    .quad 0\nalya_catch_stack_handler:\n    .space 1024\nalya_catch_stack_sp:\n    .space 1024\nalya_catch_stack_bp:\n    .space 1024\nalya_err_msg:\n    .quad 0\n"@, "alya_str_idx:\n"@, 0),
        only_at("alya_str_idx:\n    .quad 0\nalya_catch_idx:\n    .quad 0\nalya_catch_stack_handler:\n    .space 1024\nalya_catch_stack_sp:\n    .space 1024\nalya_catch_stack_bp:\n    .space 1024\nalya_err_msg:\n    .quad 0\n"@, "alya_catch_idx:\n"@, 26),
        only_at("alya_str_idx:\n    .quad 0\nalya_catch_idx:\n    .quad 0\nalya_catch_stack_handler:\n    .space 1024\nalya_catch_stack_sp:\n    .space 1024\nalya_catch_stack_bp:\n    .space 1024\nalya_err_msg:\n    .quad 0\n"@, "alya_catch_stack_handler:\n"@, 54),
        only_at("alya_str_idx:\n    .quad 0\nalya_catch_idx:\n    .quad 0\nalya_catch_stack_handler:\n    .space 1024\nalya_catch_stack_sp:\n    .space 1024\nalya_catch_stack_bp:\n    .space 1024\nalya_err_msg:\n    .quad 0\n"@, "alya_catch_stack_sp:\n"@, 96),
        only_at("alya_str_idx:\n    .quad 0\nalya_catch_idx:\n    .quad 0\nalya_catch_stack_handler:\n    .space 1024\nalya_catch_stack_sp:\n    .space 1024\nalya_catch_stack_bp:\n    .space 1024\nalya_err_msg:\n    .quad 0\n"@, "alya_catch_stack_bp:\n"@, 133),
        only_at("alya_str_idx:\n    .quad 0\nalya_catch_idx:\n    .quad 0\nalya_catch_stack_handler:\n    .space 1024\nalya_catch_stack_sp:\n    .space 1024\nalya_catch_stack_bp:\n    .space 1024\nalya_err_msg:\n    .quad 0\n"@, "alya_err_msg:\n"@, 170),
        nowhere("alya_str_idx:\n    .quad 0\nalya_catch_idx:\n    .quad 0\nalya_catch_stack_handler:\n    .space 1024\nalya_catch_stack_sp:\n    .space 1024\nalya_catch_stack_bp:\n    .space 1024\nalya_err_msg:\n    .quad 0\n"@, "alya_fmt_prompt:\n"@),
        nowhere("alya_str_idx:\n    .quad 0\nalya_catch_idx:\n    .quad 0\nalya_catch_stack_handler:\n    .space 1024\nalya_catch_stack_sp:\n    .space 1024\nalya_catch_stack_bp:\n    .space 1024\nalya_err_msg:\n    .quad 0\n"@, "alya_fmt_div_zero:\n"@),
        nowhere("alya_str_idx:\n    .quad 0\nalya_catch_idx:\n    .quad 0\nalya_catch_stack_handler:\n    .space 1024\nalya_catch_stack_sp:\n    .space 1024\nalya_catch_stack_bp:\n    .space 1024\nalya_err_msg:\n    .quad 0\n"@, "alya_str_div_zero:\n"@),
        nowhere("alya_str_idx:\n    .quad 0\nalya_catch_idx:\n    .quad 0\nalya_catch_stack_handler:\n    .space 1024\nalya_catch_stack_sp:\n    .space 1024\nalya_catch_stack_bp:\n    .space 1024\nalya_err_msg:\n    .quad 0\n"@, "alya_fmt_bounds:\n"@),
        nowhere("alya_str_idx:\n    .quad 0\nalya_catch_idx:\n    .quad 0\nalya_catch_stack_handler:\n    .space 1024\nalya_catch_stack_sp:\n    .space 1024\nalya_catch_stack_bp:\n    .space 1024\nalya_err_msg:\n    .quad 0\n"@, "alya_str_bounds:\n"@),
        nowhere("alya_str_idx:\n    .quad 0\nalya_catch_idx:\n    .quad 0\nalya_catch_stack_handler:\n    .space 1024\nalya_catch_stack_sp:\n    .space 1024\nalya_catch_stack_bp:\n    .space 1024\nalya_err_msg:\n    .quad 0\n"@, "alya_fmt_arr_empty:\n"@),
        nowhere("alya_str_idx:\n    .quad 0\nalya_catch_idx:\n    .quad 0\nalya_catch_stack_handler:\n    .space 1024\nalya_catch_stack_sp:\n    .space 1024\nalya_catch_stack_bp:\n    .space 1024\nalya_err_msg:\n    .quad 0\n"@, "alya_fmt_arr_open:\n"@),
        nowhere("alya_str_idx:\n    .quad 0\nalya_catch_idx:\n    .quad 0\nalya_catch_stack_handler:\n    .space 1024\nalya_catch_stack_sp:\n    .space 1024\nalya_catch_stack_bp:\n    .space 1024\nalya_err_msg:\n    .quad 0\n"@, "alya_fmt_arr_close:\n"@),
        nowhere("alya_str_idx:\n    .quad 0\nalya_catch_idx:\n    .quad 0\nalya_catch_stack_handler:\n    .space 1024\nalya_catch_stack_sp:\n    .space 1024\nalya_catch_stack_bp:\n    .space 1024\nalya_err_msg:\n    .quad 0\n"@, "alya_fmt_arr_elem:\n"@),
        nowhere("alya_str_idx:\n    .quad 0\nalya_catch_idx:\n    .quad 0\nalya_catch_stack_handler:\n    .space 1024\nalya_catch_stack_sp:\n    .space 1024\nalya_catch_stack_bp:\n    .space 1024\nalya_err_msg:\n    .quad 0\n"@, "alya_fmt_arr_comma:\n"@),
        nowhere("alya_str_idx:\n    .quad 0\nalya_catch_idx:\n    .quad 0\nalya_catch_stack_handler:\n    .space 1024\nalya_catch_stack_sp:\n    .space 1024\nalya_catch_stack_bp:\n    .space 1024\nalya_err_msg:\n    .quad 0\n"@, ".asciz"@),
{
    reveal_strlit("alya_str_idx:\n    .quad 0\nalya_catch_idx:\n    .quad 0\nalya_catch_stack_handler:\n    .space 1024\nalya_catch_stack_sp:\n    .space 1024\nalya_catch_stack_bp:\n    .space 1024\nalya_err_msg:\n    .quad 0\n");
    let m = "alya_str_idx:\n    .quad 0\nalya_catch_idx:\n    .quad 0\nalya_catch_stack_handler:\n    .space 1024\nalya_catch_stack_sp:\n    .space 1024\nalya_catch_stack_bp:\n    .space 1024\nalya_err_msg:\n    .quad 0\n"@;
    reveal_strlit("alya_str_buf:\n");
    reveal_strlit("alya_str_idx:\n");
    reveal_strlit("alya_catch_idx:\n");
    reveal_strlit("alya_catch_stack_handler:\n");
    reveal_strlit("alya_catch_stack_sp:\n");
    reveal_strlit("alya_catch_stack_bp:\n");
    reveal_strlit("alya_err_msg:\n");
    reveal_strlit("alya_fmt_prompt:\n");
    reveal_strlit("alya_fmt_div_zero:\n");
    reveal_strlit("alya_str_div_zero:\n");
    reveal_strlit("alya_fmt_bounds:\n");
    reveal_strlit("alya_str_bounds:\n");
    reveal_strlit("alya_fmt_arr_empty:\n");
    reveal_strlit("alya_fmt_arr_open:\n");
    reveal_strlit("alya_fmt_arr_close:\n");
    reveal_strlit("alya_fmt_arr_elem:\n");
    reveal_strlit("alya_fmt_arr_comma:\n");
    reveal_strlit(".asciz");
    assert forall|j: int| !#[trigger] occurs_at(m, "alya_str_buf:\n"@, j) by {
        if occurs_at(m, "alya_str_buf:\n"@, j) {
            let w = m.subrange(j, j + 14);
            assert(w[11] == m[j + 11]);
        }
    }
    assert(m.subrange(0, 14) =~= "alya_str_idx:\n"@);
    assert forall|j: int| #[trigger] occurs_at(m, "alya_str_idx:\n"@, j) implies j == 0 by {
        let w = m.subrange(j, j + 14);
        assert(w[9] == m[j + 9] && w[0] == m[j + 0]);
    }
    assert(m.subrange(26, 42) =~= "alya_catch_idx:\n"@);
    assert forall|j: int| #[trigger] occurs_at(m, "alya_catch_idx:\n"@, j) implies j == 26 by {
        let w = m.subrange(j, j + 16);
        assert(w[11] == m[j + 11]);
    }
    assert(m.subrange(54, 80) =~= "alya_catch_stack_handler:\n"@);
    assert forall|j: int| #[trigger] occurs_at(m, "alya_catch_stack_handler:\n"@, j) implies j == 54 by {
        let w = m.subrange(j, j + 26);
        assert(w[19] == m[j + 19]);
    }
    assert(m.subrange(96, 117) =~= "alya_catch_stack_sp:\n"@);
    assert forall|j: int| #[trigger] occurs_at(m, "alya_catch_stack_sp:\n"@, j) implies j == 96 by {
        let w = m.subrange(j, j + 21);
        assert(w[15] == m[j + 15] && w[17] == m[j + 17]);
    }
    assert(m.subrange(133, 154) =~= "alya_catch_stack_bp:\n"@);
    assert forall|j: int| #[trigger] occurs_at(m, "alya_catch_stack_bp:\n"@, j) implies j == 133 by {
        let w = m.subrange(j, j + 21);
        assert(w[17] == m[j + 17]);
    }
    assert(m.subrange(170, 184) =~= "alya_err_msg:\n"@);
    assert forall|j: int| #[trigger] occurs_at(m, "alya_err_msg:\n"@, j) implies j == 170 by {
        let w = m.subrange(j, j + 14);
        assert(w[9] == m[j + 9]);
    }
    assert forall|j: int| !#[trigger] occurs_at(m, "alya_fmt_prompt:\n"@, j) by {
        if occurs_at(m, "alya_fmt_prompt:\n"@, j) {
            let w = m.subrange(j, j + 17);
            assert(w[5] == m[j + 5]);
        }
    }
    assert forall|j: int| !#[trigger] occurs_at(m, "alya_fmt_div_zero:\n"@, j) by {
        if occurs_at(m, "alya_fmt_div_zero:\n"@, j) {
            let w = m.subrange(j, j + 19);
            assert(w[5] == m[j + 5]);
        }
    }
    assert forall|j: int| !#[trigger] occurs_at(m, "alya_str_div_zero:\n"@, j) by {
        if occurs_at(m, "alya_str_div_zero:\n"@, j) {
            let w = m.subrange(j, j + 19);
            assert(w[11] == m[j + 11]);
        }
    }
    assert forall|j: int| !#[trigger] occurs_at(m, "alya_fmt_bounds:\n"@, j) by {
        if occurs_at(m, "alya_fmt_bounds:\n"@, j) {
            let w = m.subrange(j, j + 17);
            assert(w[5] == m[j + 5]);
        }
    }
    assert forall|j: int| !#[trigger] occurs_at(m, "alya_str_bounds:\n"@, j) by {
        if occurs_at(m, "alya_str_bounds:\n"@, j) {
            let w = m.subrange(j, j + 17);
            assert(w[10] == m[j + 10]);
        }
    }
    assert forall|j: int| !#[trigger] occurs_at(m, "alya_fmt_arr_empty:\n"@, j) by {
        if occurs_at(m, "alya_fmt_arr_empty:\n"@, j) {
            let w = m.subrange(j, j + 20);
            assert(w[5] == m[j + 5]);
        }
    }
    assert forall|j: int| !#[trigger] occurs_at(m, "alya_fmt_arr_open:\n"@, j) by {
        if occurs_at(m, "alya_fmt_arr_open:\n"@, j) {
            let w = m.subrange(j, j + 19);
            assert(w[5] == m[j + 5]);
        }
    }
    assert forall|j: int| !#[trigger] occurs_at(m, "alya_fmt_arr_close:\n"@, j) by {
        if occurs_at(m, "alya_fmt_arr_close:\n"@, j) {
            let w = m.subrange(j, j + 20);
            assert(w[5] == m[j + 5]);
        }
    }
    assert forall|j: int| !#[trigger] occurs_at(m, "alya_fmt_arr_elem:\n"@, j) by {
        if occurs_at(m, "alya_fmt_arr_elem:\n"@, j) {
            let w = m.subrange(j, j + 19);
            assert(w[5] == m[j + 5]);
        }
    }
    assert forall|j: int| !#[trigger] occurs_at(m, "alya_fmt_arr_comma:\n"@, j) by {
        if occurs_at(m, "alya_fmt_arr_comma:\n"@, j) {
            let w = m.subrange(j, j + 20);
            assert(w[5] == m[j + 5]);
        }
    }
    assert forall|j: int| !#[trigger] occurs_at(m, ".asciz"@, j) by {
        if occurs_at(m, ".asciz"@, j) {
            let w = m.subrange(j, j + 6);
            assert(w[5] == m[j + 5]);
        }
    }
}

/// Where the patterns of the data section's labels occur in one of its
/// pieces.
#[verifier::rlimit(100)]
proof fn lemma_piece_5()
    ensures
        nowhere("\n.section __TEXT,__cstring,cstring_literals\nalya_fmt_prompt:\n    .asciz \"%s\"\nalya_fmt_div_zero:\n    .asciz \"Runtime error: division by zero\\n\"\nalya_str_div_zero:\n    .asciz \"division by zero\"\nalya_fmt_bounds:\n    .asciz \"Runtime error: index out of bounds\\n\"\nalya_str_bounds:\n    .asciz \"index out of bounds\"\nalya_fmt_arr_empty:\n    .asciz \"[]\\n\"\nalya_fmt_arr_open:\n    .asciz \"[\"\nalya_fmt_arr_close:\n    .asciz \"]\\n\"\nalya_fmt_arr_elem:\n"@, "alya_str_buf:\n"@),
        nowhere("\n.section __TEXT,__cstring,cstring_literals\nalya_fmt_prompt:\n    .asciz \"%s\"\nalya_fmt_div_zero:\n    .asciz \"Runtime error: division by zero\\n\"\nalya_str_div_zero:\n    .asciz \"division by zero\"\nalya_fmt_bounds:\n    .asciz \"Runtime error: index out of bounds\\n\"\nalya_str_bounds:\n    .asciz \"index out of bounds\"\nalya_fmt_arr_empty:\n    .asciz \"[]\\n\"\nalya_fmt_arr_open:\n    .asciz \"[\"\nalya_fmt_arr_close:\n    .asciz \"]\\n\"\nalya_fmt_arr_elem:\n"@, "alya_str_idx:\n"@),
        nowhere("\n.section __TEXT,__cstring,cstring_literals\nalya_fmt_prompt:\n    .asciz \"%s\"\nalya_fmt_div_zero:\n    .asciz \"Runtime error: division by zero\\n\"\nalya_str_div_zero:\n    .asciz \"division by zero\"\nalya_fmt_bounds:\n    .asciz \"Runtime error: index out of bounds\\n\"\nalya_str_bounds:\n    .asciz \"index out of bounds\"\nalya_fmt_arr_empty:\n    .asciz \"[]\\n\"\nalya_fmt_arr_open:\n    .asciz \"[\"\nalya_fmt_arr_close:\n    .asciz \"]\\n\"\nalya_fmt_arr_elem:\n"@, "alya_catch_idx:\n"@),
        nowhere("\n.section __TEXT,__cstring,cstring_literals\nalya_fmt_prompt:\n    .asciz \"%s\"\nalya_fmt_div_zero:\n    .asciz \"Runtime error: division by zero\\n\"\nalya_str_div_zero:\n    .asciz \"division by zero\"\nalya_fmt_bounds:\n    .asciz \"Runtime error: index out of bounds\\n\"\nalya_str_bounds:\n    .asciz \"index out of bounds\"\nalya_fmt_arr_empty:\n    .asciz \"[]\\n\"\nalya_fmt_arr_open:\n    .asciz \"[\"\nalya_fmt_arr_close:\n    .asciz \"]\\n\"\nalya_fmt_arr_elem:\n"@, "alya_catch_stack_handler:\n"@),
        nowhere("\n.section __TEXT,__cstring,cstring_literals\nalya_fmt_prompt:\n    .asciz \"%s\"\nalya_fmt_div_zero:\n    .asciz \"Runtime error: division by zero\\n\"\nalya_str_div_zero:\n    .asciz \"division by zero\"\nalya_fmt_bounds:\n    .asciz \"Runtime error: index out of bounds\\n\"\nalya_str_bounds:\n    .asciz \"index out of bounds\"\nalya_fmt_arr_empty:\n    .asciz \"[]\\n\"\nalya_fmt_arr_open:\n    .asciz \"[\"\nalya_fmt_arr_close:\n    .asciz \"]\\n\"\nalya_fmt_arr_elem:\n"@, "alya_catch_stack_sp:\n"@),
        nowhere("\n.section __TEXT,__cstring,cstring_literals\nalya_fmt_prompt:\n    .asciz \"%s\"\nalya_fmt_div_zero:\n    .asciz \"Runtime error: division by zero\\n\"\nalya_str_div_zero:\n    .asciz \"division by zero\"\nalya_fmt_bounds:\n    .asciz \"Runtime error: index out of bounds\\n\"\nalya_str_bounds:\n    .asciz \"index out of bounds\"\nalya_fmt_arr_empty:\n    .asciz \"[]\\n\"\nalya_fmt_arr_open:\n    .asciz \"[\"\nalya_fmt_arr_close:\n    .asciz \"]\\n\"\nalya_fmt_arr_elem:\n"@, "alya_catch_stack_bp:\n"@),
        nowhere("\n.section __TEXT,__cstring,cstring_literals\nalya_fmt_prompt:\n    .asciz \"%s\"\nalya_fmt_div_zero:\n    .asciz \"Runtime error: division by zero\\n\"\nalya_str_div_zero:\n    .asciz \"division by zero\"\nalya_fmt_bounds:\n    .asciz \"Runtime error: index out of bounds\\n\"\nalya_str_bounds:\n    .asciz \"index out of bounds\"\nalya_fmt_arr_empty:\n    .asciz \"[]\\n\"\nalya_fmt_arr_open:\n    .asciz \"[\"\nalya_fmt_arr_close:\n    .asciz \"]\\n\"\nalya_fmt_arr_elem:\n"@, "alya_err_msg:\n"@),
        only_at("\n.section __TEXT,__cstring,cstring_literals\nalya_fmt_prompt:\n    .asciz \"%s\"\nalya_fmt_div_zero:\n    .asciz \"Runtime error: division by zero\\n\"\nalya_str_div_zero:\n    .asciz \"division by zero\"\nalya_fmt_bounds:\n    .asciz \"Runtime error: index out of bounds\\n\"\nalya_str_bounds:\n    .asciz \"index out of bounds\"\nalya_fmt_arr_empty:\n    .asciz \"[]\\n\"\nalya_fmt_arr_open:\n    .asciz \"[\"\nalya_fmt_arr_close:\n    .asciz \"]\\n\"\nalya_fmt_arr_elem:\n"@, "alya_fmt_prompt:\n"@, 44),
        only_at("\n.section __TEXT,__cstring,cstring_literals\nalya_fmt_prompt:\n    .asciz \"%s\"\nalya_fmt_div_zero:\n    .asciz \"Runtime error: division by zero\\n\"\nalya_str_div_zero:\n    .asciz \"division by zero\"\nalya_fmt_bounds:\n    .asciz \"Runtime error: index out of bounds\\n\"\nalya_str_bounds:\n    .asciz \"index out of bounds\"\nalya_fmt_arr_empty:\n    .asciz \"[]\\n\"\nalya_fmt_arr_open:\n    .asciz \"[\"\nalya_fmt_arr_close:\n    .asciz \"]\\n\"\nalya_fmt_arr_elem:\n"@, "alya_fmt_div_zero:\n"@, 77),
        only_at("\n.section __TEXT,__cstring,cstring_literals\nalya_fmt_prompt:\n    .asciz \"%s\"\nalya_fmt_div_zero:\n    .asciz \"Runtime error: division by zero\\n\"\nalya_str_div_zero:\n    .asciz \"division by zero\"\nalya_fmt_bounds:\n    .asciz \"Runtime error: index out of bounds\\n\"\nalya_str_bounds:\n    .asciz \"index out of bounds\"\nalya_fmt_arr_empty:\n    .asciz \"[]\\n\"\nalya_fmt_arr_open:\n    .asciz \"[\"\nalya_fmt_arr_close:\n    .asciz \"]\\n\"\nalya_fmt_arr_elem:\n"@, "alya_str_div_zero:\n"@, 143),
        only_at("\n.section __TEXT,__cstring,cstring_literals\nalya_fmt_prompt:\n    .asciz \"%s\"\nalya_fmt_div_zero:\n    .asciz \"Runtime error: division by zero\\n\"\nalya_str_div_zero:\n    .asciz \"division by zero\"\nalya_fmt_bounds:\n    .asciz \"Runtime error: index out of bounds\\n\"\nalya_str_bounds:\n    .asciz \"index out of bounds\"\nalya_fmt_arr_empty:\n    .asciz \"[]\\n\"\nalya_fmt_arr_open:\n    .asciz \"[\"\nalya_fmt_arr_close:\n    .asciz \"]\\n\"\nalya_fmt_arr_elem:\n"@, "alya_fmt_bounds:\n"@, 192),
        only_at("\n.section __TEXT,__cstring,cstring_literals\nalya_fmt_prompt:\n    .asciz \"%s\"\nalya_fmt_div_zero:\n    .asciz \"Runtime error: division by zero\\n\"\nalya_str_div_zero:\n    .asciz \"division by zero\"\nalya_fmt_bounds:\n    .asciz \"Runtime error: index out of bounds\\n\"\nalya_str_bounds:\n    .asciz \"index out of bounds\"\nalya_fmt_arr_empty:\n    .asciz \"[]\\n\"\nalya_fmt_arr_open:\n    .asciz \"[\"\nalya_fmt_arr_close:\n    .asciz \"]\\n\"\nalya_fmt_arr_elem:\n"@, "alya_str_bounds:\n"@, 259),
        only_at("\n.section __TEXT,__cstring,cstring_literals\nalya_fmt_prompt:\n    .asciz \"%s\"\nalya_fmt_div_zero:\n    .asciz \"Runtime error: division by zero\\n\"\nalya_str_div_zero:\n    .asciz \"division by zero\"\nalya_fmt_bounds:\n    .asciz \"Runtime error: index out of bounds\\n\"\nalya_str_bounds:\n    .asciz \"index out of bounds\"\nalya_fmt_arr_empty:\n    .asciz \"[]\\n\"\nalya_fmt_arr_open:\n    .asciz \"[\"\nalya_fmt_arr_close:\n    .asciz \"]\\n\"\nalya_fmt_arr_elem:\n"@, "alya_fmt_arr_empty:\n"@, 309),
        only_at("\n.section __TEXT,__cstring,cstring_literals\nalya_fmt_prompt:\n    .asciz \"%s\"\nalya_fmt_div_zero:\n    .asciz \"Runtime error: division by zero\\n\"\nalya_str_div_zero:\n    .asciz \"division by zero\"\nalya_fmt_bounds:\n    .asciz \"Runtime error: index out of bounds\\n\"\nalya_str_bounds:\n    .asciz \"index out of bounds\"\nalya_fmt_arr_empty:\n    .asciz \"[]\\n\"\nalya_fmt_arr_open:\n    .asciz \"[\"\nalya_fmt_arr_close:\n    .asciz \"]\\n\"\nalya_fmt_arr_elem:\n"@, "alya_fmt_arr_open:\n"@, 347),
        only_at("\n.section __TEXT,__cstring,cstring_literals\nalya_fmt_prompt:\n    .asciz \"%s\"\nalya_fmt_div_zero:\n    .asciz \"Runtime error: division by zero\\n\"\nalya_str_div_zero:\n    .asciz \"division by zero\"\nalya_fmt_bounds:\n    .asciz \"Runtime error: index out of bounds\\n\"\nalya_str_bounds:\n    .asciz \"index out of bounds\"\nalya_fmt_arr_empty:\n    .asciz \"[]\\n\"\nalya_fmt_arr_open:\n    .asciz \"[\"\nalya_fmt_arr_close:\n    .asciz \"]\\n\"\nalya_fmt_arr_elem:\n"@, "alya_fmt_arr_close:\n"@, 381),
        only_at("\n.section __TEXT,__cstring,cstring_literals\nalya_fmt_prompt:\n    .asciz \"%s\"\nalya_fmt_div_zero:\n    .asciz \"Runtime error: division by zero\\n\"\nalya_str_div_zero:\n    .asciz \"division by zero\"\nalya_fmt_bounds:\n    .asciz \"Runtime error: index out of bounds\\n\"\nalya_str_bounds:\n    .asciz \"index out of bounds\"\nalya_fmt_arr_empty:\n    .asciz \"[]\\n\"\nalya_fmt_arr_open:\n    .asciz \"[\"\nalya_fmt_arr_close:\n    .asciz \"]\\n\"\nalya_fmt_arr_elem:\n"@, "alya_fmt_arr_elem:\n"@, 418),
        nowhere("\n.section __TEXT,__cstring,cstring_literals\nalya_fmt_prompt:\n    .asciz \"%s\"\nalya_fmt_div_zero:\n    .asciz \"Runtime error: division by zero\\n\"\nalya_str_div_zero:\n    .asciz \"division by zero\"\nalya_fmt_bounds:\n    .asciz \"Runtime error: index out of bounds\\n\"\nalya_str_bounds:\n    .asciz \"index out of bounds\"\nalya_fmt_arr_empty:\n    .asciz \"[]\\n\"\nalya_fmt_arr_open:\n    .asciz \"[\"\nalya_fmt_arr_close:\n    .asciz \"]\\n\"\nalya_fmt_arr_elem:\n"@, "alya_fmt_arr_comma:\n"@),
        occurs_at("\n.section __TEXT,__cstring,cstring_literals\nalya_fmt_prompt:\n    .asciz \"%s\"\nalya_fmt_div_zero:\n    .asciz \"Runtime error: division by zero\\n\"\nalya_str_div_zero:\n    .asciz \"division by zero\"\nalya_fmt_bounds:\n    .asciz \"Runtime error: index out of bounds\\n\"\nalya_str_bounds:\n    .asciz \"index out of bounds\"\nalya_fmt_arr_empty:\n    .asciz \"[]\\n\"\nalya_fmt_arr_open:\n    .asciz \"[\"\nalya_fmt_arr_close:\n    .asciz \"]\\n\"\nalya_fmt_arr_elem:\n"@, ".asciz"@, 65),
{
    reveal_strlit("\n.section __TEXT,__cstring,cstring_literals\nalya_fmt_prompt:\n    .asciz \"%s\"\nalya_fmt_div_zero:\n    .asciz \"Runtime error: division by zero\\n\"\nalya_str_div_zero:\n    .asciz \"division by zero\"\nalya_fmt_bounds:\n    .asciz \"Runtime error: index out of bounds\\n\"\nalya_str_bounds:\n    .asciz \"index out of bounds\"\nalya_fmt_arr_empty:\n    .asciz \"[]\\n\"\nalya_fmt_arr_open:\n    .asciz \"[\"\nalya_fmt_arr_close:\n    .asciz \"]\\n\"\nalya_fmt_arr_elem:\n");
    let m = "\n.section __TEXT,__cstring,cstring_literals\nalya_fmt_prompt:\n    .asciz \"%s\"\nalya_fmt_div_zero:\n    .asciz \"Runtime error: division by zero\\n\"\nalya_str_div_zero:\n    .asciz \"division by zero\"\nalya_fmt_bounds:\n    .asciz \"Runtime error: index out of bounds\\n\"\nalya_str_bounds:\n    .asciz \"index out of bounds\"\nalya_fmt_arr_empty:\n    .asciz \"[]\\n\"\nalya_fmt_arr_open:\n    .asciz \"[\"\nalya_fmt_arr_close:\n    .asciz \"]\\n\"\nalya_fmt_arr_elem:\n"@;
    reveal_strlit("alya_str_buf:\n");
    reveal_strlit("alya_str_idx:\n");
    reveal_strlit("alya_catch_idx:\n");
    reveal_strlit("alya_catch_stack_handler:\n");
    reveal_strlit("alya_catch_stack_sp:\n");
    reveal_strlit("alya_catch_stack_bp:\n");
    reveal_strlit("alya_err_msg:\n");
    reveal_strlit("alya_fmt_prompt:\n");
    reveal_strlit("alya_fmt_div_zero:\n");
    reveal_strlit("alya_str_div_zero:\n");
    reveal_strlit("alya_fmt_bounds:\n");
    reveal_strlit("alya_str_bounds:\n");
    reveal_strlit("alya_fmt_arr_empty:\n");
    reveal_strlit("alya_fmt_arr_open:\n");
    reveal_strlit("alya_fmt_arr_close:\n");
    reveal_strlit("alya_fmt_arr_elem:\n");
    reveal_strlit("alya_fmt_arr_comma:\n");
    reveal_strlit(".asciz");
    assert forall|j: int| !#[trigger] occurs_at(m, "alya_str_buf:\n"@, j) by {
        if occurs_at(m, "alya_str_buf:\n"@, j) {
            let w = m.subrange(j, j + 14);
            assert(w[9] == m[j + 9] && w[10] == m[j + 10]);
        }
    }
    assert forall|j: int| !#[trigger] occurs_at(m, "alya_str_idx:\n"@, j) by {
        if occurs_at(m, "alya_str_idx:\n"@, j) {
            let w = m.subrange(j, j + 14);
            assert(w[11] == m[j + 11] && w[1] == m[j + 1]);
        }
    }
    assert forall|j: int| !#[trigger] occurs_at(m, "alya_catch_idx:\n"@, j) by {
        if occurs_at(m, "alya_catch_idx:\n"@, j) {
            let w = m.subrange(j, j + 16);
            assert(w[9] == m[j + 9]);
        }
    }
    assert forall|j: int| !#[trigger] occurs_at(m, "alya_catch_stack_handler:\n"@, j) by {
        if occurs_at(m, "alya_catch_stack_handler:\n"@, j) {
            let w = m.subrange(j, j + 26);
            assert(w[9] == m[j + 9]);
        }
    }
    assert forall|j: int| !#[trigger] occurs_at(m, "alya_catch_stack_sp:\n"@, j) by {
        if occurs_at(m, "alya_catch_stack_sp:\n"@, j) {
            let w = m.subrange(j, j + 21);
            assert(w[9] == m[j + 9]);
        }
    }
    assert forall|j: int| !#[trigger] occurs_at(m, "alya_catch_stack_bp:\n"@, j) by {
        if occurs_at(m, "alya_catch_stack_bp:\n"@, j) {
            let w = m.subrange(j, j + 21);
            assert(w[9] == m[j + 9]);
        }
    }
    assert forall|j: int| !#[trigger] occurs_at(m, "alya_err_msg:\n"@, j) by {
        if occurs_at(m, "alya_err_msg:\n"@, j) {
            let w = m.subrange(j, j + 14);
            assert(w[11] == m[j + 11] && w[0] == m[j + 0]);
        }
    }
    assert(m.subrange(44, 61) =~= "alya_fmt_prompt:\n"@);
    assert forall|j: int| #[trigger] occurs_at(m, "alya_fmt_prompt:\n"@, j) implies j == 44 by {
        let w = m.subrange(j, j + 17);
        assert(w[9] == m[j + 9] && w[0] == m[j + 0]);
    }
    assert(m.subrange(77, 96) =~= "alya_fmt_div_zero:\n"@);
    assert forall|j: int| #[trigger] occurs_at(m, "alya_fmt_div_zero:\n"@, j) implies j == 77 by {
        let w = m.subrange(j, j + 19);
        assert(w[11] == m[j + 11] && w[5] == m[j + 5]);
    }
    assert(m.subrange(143, 162) =~= "alya_str_div_zero:\n"@);
    assert forall|j: int| #[trigger] occurs_at(m, "alya_str_div_zero:\n"@, j) implies j == 143 by {
        let w = m.subrange(j, j + 19);
        assert(w[11] == m[j + 11] && w[5] == m[j + 5]);
    }
    assert(m.subrange(192, 209) =~= "alya_fmt_bounds:\n"@);
    assert forall|j: int| #[trigger] occurs_at(m, "alya_fmt_bounds:\n"@, j) implies j == 192 by {
        let w = m.subrange(j, j + 17);
        assert(w[9] == m[j + 9] && w[5] == m[j + 5]);
    }
    assert(m.subrange(259, 276) =~= "alya_str_bounds:\n"@);
    assert forall|j: int| #[trigger] occurs_at(m, "alya_str_bounds:\n"@, j) implies j == 259 by {
        let w = m.subrange(j, j + 17);
        assert(w[9] == m[j + 9] && w[5] == m[j + 5]);
    }
    assert(m.subrange(309, 329) =~= "alya_fmt_arr_empty:\n"@);
    assert forall|j: int| #[trigger] occurs_at(m, "alya_fmt_arr_empty:\n"@, j) implies j == 309 by {
        let w = m.subrange(j, j + 20);
        assert(w[15] == m[j + 15] && w[0] == m[j + 0]);
    }
    assert(m.subrange(347, 366) =~= "alya_fmt_arr_open:\n"@);
    assert forall|j: int| #[trigger] occurs_at(m, "alya_fmt_arr_open:\n"@, j) implies j == 347 by {
        let w = m.subrange(j, j + 19);
        assert(w[14] == m[j + 14] && w[0] == m[j + 0]);
    }
    assert(m.subrange(381, 401) =~= "alya_fmt_arr_close:\n"@);
    assert forall|j: int| #[trigger] occurs_at(m, "alya_fmt_arr_close:\n"@, j) implies j == 381 by {
        let w = m.subrange(j, j + 20);
        assert(w[5] == m[j + 5] && w[13] == m[j + 13]);
    }
    assert(m.subrange(418, 437) =~= "alya_fmt_arr_elem:\n"@);
    assert forall|j: int| #[trigger] occurs_at(m, "alya_fmt_arr_elem:\n"@, j) implies j == 418 by {
        let w = m.subrange(j, j + 19);
        assert(w[5] == m[j + 5] && w[16] == m[j + 16]);
    }
    assert forall|j: int| !#[trigger] occurs_at(m, "alya_fmt_arr_comma:\n"@, j) by {
        if occurs_at(m, "alya_fmt_arr_comma:\n"@, j) {
            let w = m.subrange(j, j + 20);
            assert(w[5] == m[j + 5] && w[14] == m[j + 14]);
        }
    }
    assert(m.subrange(65, 71) =~= ".asciz"@);
}

/// Where the patterns of the data section's labels occur in one of its
/// pieces.
#[verifier::rlimit(100)]
proof fn lemma_piece_6()
    ensures
        nowhere("    .asciz \"%d\"\n"@, "alya_str_buf:\n"@),
        nowhere("    .asciz \"%d\"\n"@, "alya_str_idx:\n"@),
        nowhere("    .asciz \"%d\"\n"@, "alya_catch_idx:\n"@),
        nowhere("    .asciz \"%d\"\n"@, "alya_catch_stack_handler:\n"@),
        nowhere("    .asciz \"%d\"\n"@, "alya_catch_stack_sp:\n"@),
        nowhere("    .asciz \"%d\"\n"@, "alya_catch_stack_bp:\n"@),
        nowhere("    .asciz \"%d\"\n"@, "alya_err_msg:\n"@),
        nowhere("    .asciz \"%d\"\n"@, "alya_fmt_prompt:\n"@),
        nowhere("    .asciz \"%d\"\n"@, "alya_fmt_div_zero:\n"@),
        nowhere("    .asciz \"%d\"\n"@, "alya_str_div_zero:\n"@),
        nowhere("    .asciz \"%d\"\n"@, "alya_fmt_bounds:\n"@),
        nowhere("    .asciz \"%d\"\n"@, "alya_str_bounds:\n"@),
        nowhere("    .asciz \"%d\"\n"@, "alya_fmt_arr_empty:\n"@),
        nowhere("    .asciz \"%d\"\n"@, "alya_fmt_arr_open:\n"@),
        nowhere("    .asciz \"%d\"\n"@, "alya_fmt_arr_close:\n"@),
        nowhere("    .asciz \"%d\"\n"@, "alya_fmt_arr_elem:\n"@),
        nowhere("    .asciz \"%d\"\n"@, "alya_fmt_arr_comma:\n"@),
        only_at("    .asciz \"%d\"\n"@, ".asciz"@, 4),
{
    reveal_strlit("    .asciz \"%d\"\n");
    let m = "    .asciz \"%d\"\n"@;
    reveal_strlit("alya_str_buf:\n");
    reveal_strlit("alya_str_idx:\n");
    reveal_strlit("alya_catch_idx:\n");
    reveal_strlit("alya_catch_stack_handler:\n");
    reveal_strlit("alya_catch_stack_sp:\n");
    reveal_strlit("alya_catch_stack_bp:\n");
    reveal_strlit("alya_err_msg:\n");
    reveal_strlit("alya_fmt_prompt:\n");
    reveal_strlit("alya_fmt_div_zero:\n");
    reveal_strlit("alya_str_div_zero:\n");
    reveal_strlit("alya_fmt_bounds:\n");
    reveal_strlit("alya_str_bounds:\n");
    reveal_strlit("alya_fmt_arr_empty:\n");
    reveal_strlit("alya_fmt_arr_open:\n");
    reveal_strlit("alya_fmt_arr_close:\n");
    reveal_strlit("alya_fmt_arr_elem:\n");
    reveal_strlit("alya_fmt_arr_comma:\n");
    reveal_strlit(".asciz");
    assert forall|j: int| !#[trigger] occurs_at(m, "alya_str_buf:\n"@, j) by {
        if occurs_at(m, "alya_str_buf:\n"@, j) {
            let w = m.subrange(j, j + 14);
            assert(w[0] == m[j + 0]);
        }
    }
    assert forall|j: int| !#[trigger] occurs_at(m, "alya_str_idx:\n"@, j) by {
        if occurs_at(m, "alya_str_idx:\n"@, j) {
            let w = m.subrange(j, j + 14);
            assert(w[0] == m[j + 0]);
        }
    }
    assert forall|j: int| !#[trigger] occurs_at(m, "alya_catch_idx:\n"@, j) by {
        if occurs_at(m, "alya_catch_idx:\n"@, j) {
            let w = m.subrange(j, j + 16);
            assert(w[0] == m[j + 0]);
        }
    }
    assert(forall|j: int| !#[trigger] occurs_at(m, "alya_catch_stack_handler:\n"@, j));
    assert(forall|j: int| !#[trigger] occurs_at(m, "alya_catch_stack_sp:\n"@, j));
    assert(forall|j: int| !#[trigger] occurs_at(m, "alya_catch_stack_bp:\n"@, j));
    assert forall|j: int| !#[trigger] occurs_at(m, "alya_err_msg:\n"@, j) by {
        if occurs_at(m, "alya_err_msg:\n"@, j) {
            let w = m.subrange(j, j + 14);
            assert(w[0] == m[j + 0]);
        }
    }
    assert(forall|j: int| !#[trigger] occurs_at(m, "alya_fmt_prompt:\n"@, j));
    assert(forall|j: int| !#[trigger] occurs_at(m, "alya_fmt_div_zero:\n"@, j));
    assert(forall|j: int| !#[trigger] occurs_at(m, "alya_str_div_zero:\n"@, j));
    assert(forall|j: int| !#[trigger] occurs_at(m, "alya_fmt_bounds:\n"@, j));
    assert(forall|j: int| !#[trigger] occurs_at(m, "alya_str_bounds:\n"@, j));
    assert(forall|j: int| !#[trigger] occurs_at(m, "alya_fmt_arr_empty:\n"@, j));
    assert(forall|j: int| !#[trigger] occurs_at(m, "alya_fmt_arr_open:\n"@, j));
    assert(forall|j: int| !#[trigger] occurs_at(m, "alya_fmt_arr_close:\n"@, j));
    assert(forall|j: int| !#[trigger] occurs_at(m, "alya_fmt_arr_elem:\n"@, j));
    assert(forall|j: int| !#[trigger] occurs_at(m, "alya_fmt_arr_comma:\n"@, j));
    assert(m.subrange(4, 10) =~= ".asciz"@);
    assert forall|j: int| #[trigger] occurs_at(m, ".asciz"@, j) implies j == 4 by {
        let w = m.subrange(j, j + 6);
        assert(w[0] == m[j + 0]);
    }
}

/// Where the patterns of the data section's labels occur in one of its
/// pieces.
#[verifier::rlimit(100)]
proof fn lemma_piece_7()
    ensures
        nowhere("    .asciz \"%ld\"\n"@, "alya_str_buf:\n"@),
        nowhere("    .asciz \"%ld\"\n"@, "alya_str_idx:\n"@),
        nowhere("    .asciz \"%ld\"\n"@, "alya_catch_idx:\n"@),
        nowhere("    .asciz \"%ld\"\n"@, "alya_catch_stack_handler:\n"@),
        nowhere("    .asciz \"%ld\"\n"@, "alya_catch_stack_sp:\n"@),
        nowhere("    .asciz \"%ld\"\n"@, "alya_catch_stack_bp:\n"@),
        nowhere("    .asciz \"%ld\"\n"@, "alya_err_msg:\n"@),
        nowhere("    .asciz \"%ld\"\n"@, "alya_fmt_prompt:\n"@),
        nowhere("    .asciz \"%ld\"\n"@, "alya_fmt_div_zero:\n"@),
        nowhere("    .asciz \"%ld\"\n"@, "alya_str_div_zero:\n"@),
        nowhere("    .asciz \"%ld\"\n"@, "alya_fmt_bounds:\n"@),
        nowhere("    .asciz \"%ld\"\n"@, "alya_str_bounds:\n"@),
        nowhere("    .asciz \"%ld\"\n"@, "alya_fmt_arr_empty:\n"@),
        nowhere("    .asciz \"%ld\"\n"@, "alya_fmt_arr_open:\n"@),
        nowhere("    .asciz \"%ld\"\n"@, "alya_fmt_arr_close:\n"@),
        nowhere("    .asciz \"%ld\"\n"@, "alya_fmt_arr_elem:\n"@),
        nowhere("    .asciz \"%ld\"\n"@, "alya_fmt_arr_comma:\n"@),
        only_at("    .asciz \"%ld\"\n"@, ".asciz"@, 4),
{
    reveal_strlit("    .asciz \"%ld\"\n");
    let m = "    .asciz \"%ld\"\n"@;
    reveal_strlit("alya_str_buf:\n");
    reveal_strlit("alya_str_idx:\n");
    reveal_strlit("alya_catch_idx:\n");
    reveal_strlit("alya_catch_stack_handler:\n");
    reveal_strlit("alya_catch_stack_sp:\n");
    reveal_strlit("alya_catch_stack_bp:\n");
    reveal_strlit("alya_err_msg:\n");
    reveal_strlit("alya_fmt_prompt:\n");
    reveal_strlit("alya_fmt_div_zero:\n");
    reveal_strlit("alya_str_div_zero:\n");
    reveal_strlit("alya_fmt_bounds:\n");
    reveal_strlit("alya_str_bounds:\n");
    reveal_strlit("alya_fmt_arr_empty:\n");
    reveal_strlit("alya_fmt_arr_open:\n");
    reveal_strlit("alya_fmt_arr_close:\n");
    reveal_strlit("alya_fmt_arr_elem:\n");
    reveal_strlit("alya_fmt_arr_comma:\n");
    reveal_strlit(".asciz");
    assert forall|j: int| !#[trigger] occurs_at(m, "alya_str_buf:\n"@, j) by {
        if occurs_at(m, "alya_str_buf:\n"@, j) {
            let w = m.subrange(j, j + 14);
            assert(w[0] == m[j + 0]);
        }
    }
    assert forall|j: int| !#[trigger] occurs_at(m, "alya_str_idx:\n"@, j) by {
        if occurs_at(m, "alya_str_idx:\n"@, j) {
            let w = m.subrange(j, j + 14);
            assert(w[0] == m[j + 0]);
        }
    }
    assert forall|j: int| !#[trigger] occurs_at(m, "alya_catch_idx:\n"@, j) by {
        if occurs_at(m, "alya_catch_idx:\n"@, j) {
            let w = m.subrange(j, j + 16);
            assert(w[0] == m[j + 0]);
        }
    }
    assert(forall|j: int| !#[trigger] occurs_at(m, "alya_catch_stack_handler:\n"@, j));
    assert(forall|j: int| !#[trigger] occurs_at(m, "alya_catch_stack_sp:\n"@, j));
    assert(forall|j: int| !#[trigger] occurs_at(m, "alya_catch_stack_bp:\n"@, j));
    assert forall|j: int| !#[trigger] occurs_at(m, "alya_err_msg:\n"@, j) by {
        if occurs_at(m, "alya_err_msg:\n"@, j) {
            let w = m.subrange(j, j + 14);
            assert(w[0] == m[j + 0]);
        }
    }
    assert forall|j: int| !#[trigger] occurs_at(m, "alya_fmt_prompt:\n"@, j) by {
        if occurs_at(m, "alya_fmt_prompt:\n"@, j) {
            let w = m.subrange(j, j + 17);
            assert(w[0] == m[j + 0]);
        }
    }
    assert(forall|j: int| !#[trigger] occurs_at(m, "alya_fmt_div_zero:\n"@, j));
    assert(forall|j: int| !#[trigger] occurs_at(m, "alya_str_div_zero:\n"@, j));
    assert forall|j: int| !#[trigger] occurs_at(m, "alya_fmt_bounds:\n"@, j) by {
        if occurs_at(m, "alya_fmt_bounds:\n"@, j) {
            let w = m.subrange(j, j + 17);
            assert(w[0] == m[j + 0]);
        }
    }
    assert forall|j: int| !#[trigger] occurs_at(m, "alya_str_bounds:\n"@, j) by {
        if occurs_at(m, "alya_str_bounds:\n"@, j) {
            let w = m.subrange(j, j + 17);
            assert(w[0] == m[j + 0]);
        }
    }
    assert(forall|j: int| !#[trigger] occurs_at(m, "alya_fmt_arr_empty:\n"@, j));
    assert(forall|j: int| !#[trigger] occurs_at(m, "alya_fmt_arr_open:\n"@, j));
    assert(forall|j: int| !#[trigger] occurs_at(m, "alya_fmt_arr_close:\n"@, j));
    assert(forall|j: int| !#[trigger] occurs_at(m, "alya_fmt_arr_elem:\n"@, j));
    assert(forall|j: int| !#[trigger] occurs_at(m, "alya_fmt_arr_comma:\n"@, j));
    assert(m.subrange(4, 10) =~= ".asciz"@);
    assert forall|j: int| #[trigger] occurs_at(m, ".asciz"@, j) implies j == 4 by {
        let w = m.subrange(j, j + 6);
        assert(w[0] == m[j + 0]);
    }
}

/// Where the patterns of the data section's labels occur in one of its
/// pieces.
#[verifier::rlimit(100)]
proof fn lemma_piece_8()
    ensures
        nowhere("alya_fmt_arr_comma:\n    .asciz \", \"\n"@, "alya_str_buf:\n"@),
        nowhere("alya_fmt_arr_comma:\n    .asciz \", \"\n"@, "alya_str_idx:\n"@),
        nowhere("alya_fmt_arr_comma:\n    .asciz \", \"\n"@, "alya_catch_idx:\n"@),
        nowhere("alya_fmt_arr_comma:\n    .asciz \", \"\n"@, "alya_catch_stack_handler:\n"@),
        nowhere("alya_fmt_arr_comma:\n    .asciz \", \"\n"@, "alya_catch_stack_sp:\n"@),
        nowhere("alya_fmt_arr_comma:\n    .asciz \", \"\n"@, "alya_catch_stack_bp:\n"@),
        nowhere("alya_fmt_arr_comma:\n    .asciz \", \"\n"@, "alya_err_msg:\n"@),
        nowhere("alya_fmt_arr_comma:\n    .asciz \", \"\n"@, "alya_fmt_prompt:\n"@),
        nowhere("alya_fmt_arr_comma:\n    .asciz \", \"\n"@, "alya_fmt_div_zero:\n"@),
        nowhere("alya_fmt_arr_comma:\n    .asciz \", \"\n"@, "alya_str_div_zero:\n"@),
        nowhere("alya_fmt_arr_comma:\n    .asciz \", \"\n"@, "alya_fmt_bounds:\n"@),
        nowhere("alya_fmt_arr_comma:\n    .asciz \", \"\n"@, "alya_str_bounds:\n"@),
        nowhere("alya_fmt_arr_comma:\n    .asciz \", \"\n"@, "alya_fmt_arr_empty:\n"@),
        nowhere("alya_fmt_arr_comma:\n    .asciz \", \"\n"@, "alya_fmt_arr_open:\n"@),
        nowhere("alya_fmt_arr_comma:\n    .asciz \", \"\n"@, "alya_fmt_arr_close:\n"@),
        nowhere("alya_fmt_arr_comma:\n    .asciz \", \"\n"@, "alya_fmt_arr_elem:\n"@),
        only_at("alya_fmt_arr_comma:\n    .asciz \", \"\n"@, "alya_fmt_arr_comma:\n"@, 0),
        only_at("alya_fmt_arr_comma:\n    .asciz \", \"\n"@, ".asciz"@, 24),
{
    reveal_strlit("alya_fmt_arr_comma:\n    .asciz \", \"\n");
    let m = "alya_fmt_arr_comma:\n    .asciz \", \"\n"@;
    reveal_strlit("alya_str_buf:\n");
    reveal_strlit("alya_str_idx:\n");
    reveal_strlit("alya_catch_idx:\n");
    reveal_strlit("alya_catch_stack_handler:\n");
    reveal_strlit("alya_catch_stack_sp:\n");
    reveal_strlit("alya_catch_stack_bp:\n");
    reveal_strlit("alya_err_msg:\n");
    reveal_strlit("alya_fmt_prompt:\n");
    reveal_strlit("alya_fmt_div_zero:\n");
    reveal_strlit("alya_str_div_zero:\n");
    reveal_strlit("alya_fmt_bounds:\n");
    reveal_strlit("alya_str_bounds:\n");
    reveal_strlit("alya_fmt_arr_empty:\n");
    reveal_strlit("alya_fmt_arr_open:\n");
    reveal_strlit("alya_fmt_arr_close:\n");
    reveal_strlit("alya_fmt_arr_elem:\n");
    reveal_strlit("alya_fmt_arr_comma:\n");
    reveal_strlit(".asciz");
    assert forall|j: int| !#[trigger] occurs_at(m, "alya_str_buf:\n"@, j) by {
        if occurs_at(m, "alya_str_buf:\n"@, j) {
            let w = m.subrange(j, j + 14);
            assert(w[9] == m[j + 9]);
        }
    }
    assert forall|j: int| !#[trigger] occurs_at(m, "alya_str_idx:\n"@, j) by {
        if occurs_at(m, "alya_str_idx:\n"@, j) {
            let w = m.subrange(j, j + 14);
            assert(w[10] == m[j + 10]);
        }
    }
    assert forall|j: int| !#[trigger] occurs_at(m, "alya_catch_idx:\n"@, j) by {
        if occurs_at(m, "alya_catch_idx:\n"@, j) {
            let w = m.subrange(j, j + 16);
            assert(w[9] == m[j + 9]);
        }
    }
    assert forall|j: int| !#[trigger] occurs_at(m, "alya_catch_stack_handler:\n"@, j) by {
        if occurs_at(m, "alya_catch_stack_handler:\n"@, j) {
            let w = m.subrange(j, j + 26);
            assert(w[9] == m[j + 9]);
        }
    }
    assert forall|j: int| !#[trigger] occurs_at(m, "alya_catch_stack_sp:\n"@, j) by {
        if occurs_at(m, "alya_catch_stack_sp:\n"@, j) {
            let w = m.subrange(j, j + 21);
            assert(w[9] == m[j + 9]);
        }
    }
    assert forall|j: int| !#[trigger] occurs_at(m, "alya_catch_stack_bp:\n"@, j) by {
        if occurs_at(m, "alya_catch_stack_bp:\n"@, j) {
            let w = m.subrange(j, j + 21);
            assert(w[9] == m[j + 9]);
        }
    }
    assert forall|j: int| !#[trigger] occurs_at(m, "alya_err_msg:\n"@, j) by {
        if occurs_at(m, "alya_err_msg:\n"@, j) {
            let w = m.subrange(j, j + 14);
            assert(w[5] == m[j + 5]);
        }
    }
    assert forall|j: int| !#[trigger] occurs_at(m, "alya_fmt_prompt:\n"@, j) by {
        if occurs_at(m, "alya_fmt_prompt:\n"@, j) {
            let w = m.subrange(j, j + 17);
            assert(w[9] == m[j + 9]);
        }
    }
    assert forall|j: int| !#[trigger] occurs_at(m, "alya_fmt_div_zero:\n"@, j) by {
        if occurs_at(m, "alya_fmt_div_zero:\n"@, j) {
            let w = m.subrange(j, j + 19);
            assert(w[9] == m[j + 9]);
        }
    }
    assert forall|j: int| !#[trigger] occurs_at(m, "alya_str_div_zero:\n"@, j) by {
        if occurs_at(m, "alya_str_div_zero:\n"@, j) {
            let w = m.subrange(j, j + 19);
            assert(w[5] == m[j + 5]);
        }
    }
    assert forall|j: int| !#[trigger] occurs_at(m, "alya_fmt_bounds:\n"@, j) by {
        if occurs_at(m, "alya_fmt_bounds:\n"@, j) {
            let w = m.subrange(j, j + 17);
            assert(w[9] == m[j + 9]);
        }
    }
    assert forall|j: int| !#[trigger] occurs_at(m, "alya_str_bounds:\n"@, j) by {
        if occurs_at(m, "alya_str_bounds:\n"@, j) {
            let w = m.subrange(j, j + 17);
            assert(w[5] == m[j + 5]);
        }
    }
    assert forall|j: int| !#[trigger] occurs_at(m, "alya_fmt_arr_empty:\n"@, j) by {
        if occurs_at(m, "alya_fmt_arr_empty:\n"@, j) {
            let w = m.subrange(j, j + 20);
            assert(w[13] == m[j + 13]);
        }
    }
    assert forall|j: int| !#[trigger] occurs_at(m, "alya_fmt_arr_open:\n"@, j) by {
        if occurs_at(m, "alya_fmt_arr_open:\n"@, j) {
            let w = m.subrange(j, j + 19);
            assert(w[14] == m[j + 14]);
        }
    }
    assert forall|j: int| !#[trigger] occurs_at(m, "alya_fmt_arr_close:\n"@, j) by {
        if occurs_at(m, "alya_fmt_arr_close:\n"@, j) {
            let w = m.subrange(j, j + 20);
            assert(w[14] == m[j + 14]);
        }
    }
    assert forall|j: int| !#[trigger] occurs_at(m, "alya_fmt_arr_elem:\n"@, j) by {
        if occurs_at(m, "alya_fmt_arr_elem:\n"@, j) {
            let w = m.subrange(j, j + 19);
            assert(w[13] == m[j + 13]);
        }
    }
    assert(m.subrange(0, 20) =~= "alya_fmt_arr_comma:\n"@);
    assert forall|j: int| #[trigger] occurs_at(m, "alya_fmt_arr_comma:\n"@, j) implies j == 0 by {
        let w = m.subrange(j, j + 20);
        assert(w[1] == m[j + 1]);
    }
    assert(m.subrange(24, 30) =~= ".asciz"@);
    assert forall|j: int| #[trigger] occurs_at(m, ".asciz"@, j) implies j == 24 by {
        let w = m.subrange(j, j + 6);
        assert(w[0] == m[j + 0]);
    }
}

/// Where the patterns of the data section's labels occur in one of its
/// pieces.
#[verifier::rlimit(100)]
proof fn lemma_piece_9()
    ensures
        nowhere("\n.section .rodata\nalya_fmt_prompt:\n    .string \"%s\"\nalya_fmt_div_zero:\n    .string \"Runtime error: division by zero\\n\"\nalya_str_div_zero:\n    .string \"division by zero\"\nalya_fmt_bounds:\n    .string \"Runtime error: index out of bounds\\n\"\nalya_str_bounds:\n    .string \"index out of bounds\"\nalya_fmt_arr_empty:\n    .string \"[]\\n\"\nalya_fmt_arr_open:\n    .string \"[\"\nalya_fmt_arr_close:\n    .string \"]\\n\"\nalya_fmt_arr_elem:\n"@, "alya_str_buf:\n"@),
        nowhere("\n.section .rodata\nalya_fmt_prompt:\n    .string \"%s\"\nalya_fmt_div_zero:\n    .string \"Runtime error: division by zero\\n\"\nalya_str_div_zero:\n    .string \"division by zero\"\nalya_fmt_bounds:\n    .string \"Runtime error: index out of bounds\\n\"\nalya_str_bounds:\n    .string \"index out of bounds\"\nalya_fmt_arr_empty:\n    .string \"[]\\n\"\nalya_fmt_arr_open:\n    .string \"[\"\nalya_fmt_arr_close:\n    .string \"]\\n\"\nalya_fmt_arr_elem:\n"@, "alya_str_idx:\n"@),
        nowhere("\n.section .rodata\nalya_fmt_prompt:\n    .string \"%s\"\nalya_fmt_div_zero:\n    .string \"Runtime error: division by zero\\n\"\nalya_str_div_zero:\n    .string \"division by zero\"\nalya_fmt_bounds:\n    .string \"Runtime error: index out of bounds\\n\"\nalya_str_bounds:\n    .string \"index out of bounds\"\nalya_fmt_arr_empty:\n    .string \"[]\\n\"\nalya_fmt_arr_open:\n    .string \"[\"\nalya_fmt_arr_close:\n    .string \"]\\n\"\nalya_fmt_arr_elem:\n"@, "alya_catch_idx:\n"@),
        nowhere("\n.section .rodata\nalya_fmt_prompt:\n    .string \"%s\"\nalya_fmt_div_zero:\n    .string \"Runtime error: division by zero\\n\"\nalya_str_div_zero:\n    .string \"division by zero\"\nalya_fmt_bounds:\n    .string \"Runtime error: index out of bounds\\n\"\nalya_str_bounds:\n    .string \"index out of bounds\"\nalya_fmt_arr_empty:\n    .string \"[]\\n\"\nalya_fmt_arr_open:\n    .string \"[\"\nalya_fmt_arr_close:\n    .string \"]\\n\"\nalya_fmt_arr_elem:\n"@, "alya_catch_stack_handler:\n"@),
        nowhere("\n.section .rodata\nalya_fmt_prompt:\n    .string \"%s\"\nalya_fmt_div_zero:\n    .string \"Runtime error: division by zero\\n\"\nalya_str_div_zero:\n    .string \"division by zero\"\nalya_fmt_bounds:\n    .string \"Runtime error: index out of bounds\\n\"\nalya_str_bounds:\n    .string \"index out of bounds\"\nalya_fmt_arr_empty:\n    .string \"[]\\n\"\nalya_fmt_arr_open:\n    .string \"[\"\nalya_fmt_arr_close:\n    .string \"]\\n\"\nalya_fmt_arr_elem:\n"@, "alya_catch_stack_sp:\n"@),
        nowhere("\n.section .rodata\nalya_fmt_prompt:\n    .string \"%s\"\nalya_fmt_div_zero:\n    .string \"Runtime error: division by zero\\n\"\nalya_str_div_zero:\n    .string \"division by zero\"\nalya_fmt_bounds:\n    .string \"Runtime error: index out of bounds\\n\"\nalya_str_bounds:\n    .string \"index out of bounds\"\nalya_fmt_arr_empty:\n    .string \"[]\\n\"\nalya_fmt_arr_open:\n    .string \"[\"\nalya_fmt_arr_close:\n    .string \"]\\n\"\nalya_fmt_arr_elem:\n"@, "alya_catch_stack_bp:\n"@),
        nowhere("\n.section .rodata\nalya_fmt_prompt:\n    .string \"%s\"\nalya_fmt_div_zero:\n    .string \"Runtime error: division by zero\\n\"\nalya_str_div_zero:\n    .string \"division by zero\"\nalya_fmt_bounds:\n    .string \"Runtime error: index out of bounds\\n\"\nalya_str_bounds:\n    .string \"index out of bounds\"\nalya_fmt_arr_empty:\n    .string \"[]\\n\"\nalya_fmt_arr_open:\n    .string \"[\"\nalya_fmt_arr_close:\n    .string \"]\\n\"\nalya_fmt_arr_elem:\n"@, "alya_err_msg:\n"@),
        only_at("\n.section .rodata\nalya_fmt_prompt:\n    .string \"%s\"\nalya_fmt_div_zero:\n    .string \"Runtime error: division by zero\\n\"\nalya_str_div_zero:\n    .string \"division by zero\"\nalya_fmt_bounds:\n    .string \"Runtime error: index out of bounds\\n\"\nalya_str_bounds:\n    .string \"index out of bounds\"\nalya_fmt_arr_empty:\n    .string \"[]\\n\"\nalya_fmt_arr_open:\n    .string \"[\"\nalya_fmt_arr_close:\n    .string \"]\\n\"\nalya_fmt_arr_elem:\n"@, "alya_fmt_prompt:\n"@, 18),
        only_at("\n.section .rodata\nalya_fmt_prompt:\n    .string \"%s\"\nalya_fmt_div_zero:\n    .string \"Runtime error: division by zero\\n\"\nalya_str_div_zero:\n    .string \"division by zero\"\nalya_fmt_bounds:\n    .string \"Runtime error: index out of bounds\\n\"\nalya_str_bounds:\n    .string \"index out of bounds\"\nalya_fmt_arr_empty:\n    .string \"[]\\n\"\nalya_fmt_arr_open:\n    .string \"[\"\nalya_fmt_arr_close:\n    .string \"]\\n\"\nalya_fmt_arr_elem:\n"@, "alya_fmt_div_zero:\n"@, 52),
        only_at("\n.section .rodata\nalya_fmt_prompt:\n    .string \"%s\"\nalya_fmt_div_zero:\n    .string \"Runtime error: division by zero\\n\"\nalya_str_div_zero:\n    .string \"division by zero\"\nalya_fmt_bounds:\n    .string \"Runtime error: index out of bounds\\n\"\nalya_str_bounds:\n    .string \"index out of bounds\"\nalya_fmt_arr_empty:\n    .string \"[]\\n\"\nalya_fmt_arr_open:\n    .string \"[\"\nalya_fmt_arr_close:\n    .string \"]\\n\"\nalya_fmt_arr_elem:\n"@, "alya_str_div_zero:\n"@, 119),
        only_at("\n.section .rodata\nalya_fmt_prompt:\n    .string \"%s\"\nalya_fmt_div_zero:\n    .string \"Runtime error: division by zero\\n\"\nalya_str_div_zero:\n    .string \"division by zero\"\nalya_fmt_bounds:\n    .string \"Runtime error: index out of bounds\\n\"\nalya_str_bounds:\n    .string \"index out of bounds\"\nalya_fmt_arr_empty:\n    .string \"[]\\n\"\nalya_fmt_arr_open:\n    .string \"[\"\nalya_fmt_arr_close:\n    .string \"]\\n\"\nalya_fmt_arr_elem:\n"@, "alya_fmt_bounds:\n"@, 169),
        only_at("\n.section .rodata\nalya_fmt_prompt:\n    .string \"%s\"\nalya_fmt_div_zero:\n    .string \"Runtime error: division by zero\\n\"\nalya_str_div_zero:\n    .string \"division by zero\"\nalya_fmt_bounds:\n    .string \"Runtime error: index out of bounds\\n\"\nalya_str_bounds:\n    .string \"index out of bounds\"\nalya_fmt_arr_empty:\n    .string \"[]\\n\"\nalya_fmt_arr_open:\n    .string \"[\"\nalya_fmt_arr_close:\n    .string \"]\\n\"\nalya_fmt_arr_elem:\n"@, "alya_str_bounds:\n"@, 237),
        only_at("\n.section .rodata\nalya_fmt_prompt:\n    .string \"%s\"\nalya_fmt_div_zero:\n    .string \"Runtime error: division by zero\\n\"\nalya_str_div_zero:\n    .string \"division by zero\"\nalya_fmt_bounds:\n    .string \"Runtime error: index out of bounds\\n\"\nalya_str_bounds:\n    .string \"index out of bounds\"\nalya_fmt_arr_empty:\n    .string \"[]\\n\"\nalya_fmt_arr_open:\n    .string \"[\"\nalya_fmt_arr_close:\n    .string \"]\\n\"\nalya_fmt_arr_elem:\n"@, "alya_fmt_arr_empty:\n"@, 288),
        only_at("\n.section .rodata\nalya_fmt_prompt:\n    .string \"%s\"\nalya_fmt_div_zero:\n    .string \"Runtime error: division by zero\\n\"\nalya_str_div_zero:\n    .string \"division by zero\"\nalya_fmt_bounds:\n    .string \"Runtime error: index out of bounds\\n\"\nalya_str_bounds:\n    .string \"index out of bounds\"\nalya_fmt_arr_empty:\n    .string \"[]\\n\"\nalya_fmt_arr_open:\n    .string \"[\"\nalya_fmt_arr_close:\n    .string \"]\\n\"\nalya_fmt_arr_elem:\n"@, "alya_fmt_arr_open:\n"@, 327),
        only_at("\n.section .rodata\nalya_fmt_prompt:\n    .string \"%s\"\nalya_fmt_div_zero:\n    .string \"Runtime error: division by zero\\n\"\nalya_str_div_zero:\n    .string \"division by zero\"\nalya_fmt_bounds:\n    .string \"Runtime error: index out of bounds\\n\"\nalya_str_bounds:\n    .string \"index out of bounds\"\nalya_fmt_arr_empty:\n    .string \"[]\\n\"\nalya_fmt_arr_open:\n    .string \"[\"\nalya_fmt_arr_close:\n    .string \"]\\n\"\nalya_fmt_arr_elem:\n"@, "alya_fmt_arr_close:\n"@, 362),
        only_at("\n.section .rodata\nalya_fmt_prompt:\n    .string \"%s\"\nalya_fmt_div_zero:\n    .string \"Runtime error: division by zero\\n\"\nalya_str_div_zero:\n    .string \"division by zero\"\nalya_fmt_bounds:\n    .string \"Runtime error: index out of bounds\\n\"\nalya_str_bounds:\n    .string \"index out of bounds\"\nalya_fmt_arr_empty:\n    .string \"[]\\n\"\nalya_fmt_arr_open:\n    .string \"[\"\nalya_fmt_arr_close:\n    .string \"]\\n\"\nalya_fmt_arr_elem:\n"@, "alya_fmt_arr_elem:\n"@, 400),
        nowhere("\n.section .rodata\nalya_fmt_prompt:\n    .string \"%s\"\nalya_fmt_div_zero:\n    .string \"Runtime error: division by zero\\n\"\nalya_str_div_zero:\n    .string \"division by zero\"\nalya_fmt_bounds:\n    .string \"Runtime error: index out of bounds\\n\"\nalya_str_bounds:\n    .string \"index out of bounds\"\nalya_fmt_arr_empty:\n    .string \"[]\\n\"\nalya_fmt_arr_open:\n    .string \"[\"\nalya_fmt_arr_close:\n    .string \"]\\n\"\nalya_fmt_arr_elem:\n"@, "alya_fmt_arr_comma:\n"@),
        nowhere("\n.section .rodata\nalya_fmt_prompt:\n    .string \"%s\"\nalya_fmt_div_zero:\n    .string \"Runtime error: division by zero\\n\"\nalya_str_div_zero:\n    .string \"division by zero\"\nalya_fmt_bounds:\n    .string \"Runtime error: index out of bounds\\n\"\nalya_str_bounds:\n    .string \"index out of bounds\"\nalya_fmt_arr_empty:\n    .string \"[]\\n\"\nalya_fmt_arr_open:\n    .string \"[\"\nalya_fmt_arr_close:\n    .string \"]\\n\"\nalya_fmt_arr_elem:\n"@, ".asciz"@),
{
    reveal_strlit("\n.section .rodata\nalya_fmt_prompt:\n    .string \"%s\"\nalya_fmt_div_zero:\n    .string \"Runtime error: division by zero\\n\"\nalya_str_div_zero:\n    .string \"division by zero\"\nalya_fmt_bounds:\n    .string \"Runtime error: index out of bounds\\n\"\nalya_str_bounds:\n    .string \"index out of bounds\"\nalya_fmt_arr_empty:\n    .string \"[]\\n\"\nalya_fmt_arr_open:\n    .string \"[\"\nalya_fmt_arr_close:\n    .string \"]\\n\"\nalya_fmt_arr_elem:\n");
    let m = "\n.section .rodata\nalya_fmt_prompt:\n    .string \"%s\"\nalya_fmt_div_zero:\n    .string \"Runtime error: division by zero\\n\"\nalya_str_div_zero:\n    .string \"division by zero\"\nalya_fmt_bounds:\n    .string \"Runtime error: index out of bounds\\n\"\nalya_str_bounds:\n    .string \"index out of bounds\"\nalya_fmt_arr_empty:\n    .string \"[]\\n\"\nalya_fmt_arr_open:\n    .string \"[\"\nalya_fmt_arr_close:\n    .string \"]\\n\"\nalya_fmt_arr_elem:\n"@;
    reveal_strlit("alya_str_buf:\n");
    reveal_strlit("alya_str_idx:\n");
    reveal_strlit("alya_catch_idx:\n");
    reveal_strlit("alya_catch_stack_handler:\n");
    reveal_strlit("alya_catch_stack_sp:\n");
    reveal_strlit("alya_catch_stack_bp:\n");
    reveal_strlit("alya_err_msg:\n");
    reveal_strlit("alya_fmt_prompt:\n");
    reveal_strlit("alya_fmt_div_zero:\n");
    reveal_strlit("alya_str_div_zero:\n");
    reveal_strlit("alya_fmt_bounds:\n");
    reveal_strlit("alya_str_bounds:\n");
    reveal_strlit("alya_fmt_arr_empty:\n");
    reveal_strlit("alya_fmt_arr_open:\n");
    reveal_strlit("alya_fmt_arr_close:\n");
    reveal_strlit("alya_fmt_arr_elem:\n");
    reveal_strlit("alya_fmt_arr_comma:\n");
    reveal_strlit(".asciz");
    assert forall|j: int| !#[trigger] occurs_at(m, "alya_str_buf:\n"@, j) by {
        if occurs_at(m, "alya_str_buf:\n"@, j) {
            let w = m.subrange(j, j + 14);
            assert(w[9] == m[j + 9] && w[10] == m[j + 10]);
        }
    }
    assert forall|j: int| !#[trigger] occurs_at(m, "alya_str_idx:\n"@, j) by {
        if occurs_at(m, "alya_str_idx:\n"@, j) {
            let w = m.subrange(j, j + 14);
            assert(w[11] == m[j + 11] && w[0] == m[j + 0]);
        }
    }
    assert forall|j: int| !#[trigger] occurs_at(m, "alya_catch_idx:\n"@, j) by {
        if occurs_at(m, "alya_catch_idx:\n"@, j) {
            let w = m.subrange(j, j + 16);
            assert(w[9] == m[j + 9]);
        }
    }
    assert forall|j: int| !#[trigger] occurs_at(m, "alya_catch_stack_handler:\n"@, j) by {
        if occurs_at(m, "alya_catch_stack_handler:\n"@, j) {
            let w = m.subrange(j, j + 26);
            assert(w[9] == m[j + 9]);
        }
    }
    assert forall|j: int| !#[trigger] occurs_at(m, "alya_catch_stack_sp:\n"@, j) by {
        if occurs_at(m, "alya_catch_stack_sp:\n"@, j) {
            let w = m.subrange(j, j + 21);
            assert(w[9] == m[j + 9]);
        }
    }
    assert forall|j: int| !#[trigger] occurs_at(m, "alya_catch_stack_bp:\n"@, j) by {
        if occurs_at(m, "alya_catch_stack_bp:\n"@, j) {
            let w = m.subrange(j, j + 21);
            assert(w[9] == m[j + 9]);
        }
    }
    assert forall|j: int| !#[trigger] occurs_at(m, "alya_err_msg:\n"@, j) by {
        if occurs_at(m, "alya_err_msg:\n"@, j) {
            let w = m.subrange(j, j + 14);
            assert(w[11] == m[j + 11] && w[0] == m[j + 0]);
        }
    }
    assert(m.subrange(18, 35) =~= "alya_fmt_prompt:\n"@);
    assert forall|j: int| #[trigger] occurs_at(m, "alya_fmt_prompt:\n"@, j) implies j == 18 by {
        let w = m.subrange(j, j + 17);
        assert(w[9] == m[j + 9] && w[0] == m[j + 0]);
    }
    assert(m.subrange(52, 71) =~= "alya_fmt_div_zero:\n"@);
    assert forall|j: int| #[trigger] occurs_at(m, "alya_fmt_div_zero:\n"@, j) implies j == 52 by {
        let w = m.subrange(j, j + 19);
        assert(w[11] == m[j + 11] && w[5] == m[j + 5]);
    }
    assert(m.subrange(119, 138) =~= "alya_str_div_zero:\n"@);
    assert forall|j: int| #[trigger] occurs_at(m, "alya_str_div_zero:\n"@, j) implies j == 119 by {
        let w = m.subrange(j, j + 19);
        assert(w[11] == m[j + 11] && w[5] == m[j + 5]);
    }
    assert(m.subrange(169, 186) =~= "alya_fmt_bounds:\n"@);
    assert forall|j: int| #[trigger] occurs_at(m, "alya_fmt_bounds:\n"@, j) implies j == 169 by {
        let w = m.subrange(j, j + 17);
        assert(w[9] == m[j + 9] && w[5] == m[j + 5]);
    }
    assert(m.subrange(237, 254) =~= "alya_str_bounds:\n"@);
    assert forall|j: int| #[trigger] occurs_at(m, "alya_str_bounds:\n"@, j) implies j == 237 by {
        let w = m.subrange(j, j + 17);
        assert(w[9] == m[j + 9] && w[5] == m[j + 5]);
    }
    assert(m.subrange(288, 308) =~= "alya_fmt_arr_empty:\n"@);
    assert forall|j: int| #[trigger] occurs_at(m, "alya_fmt_arr_empty:\n"@, j) implies j == 288 by {
        let w = m.subrange(j, j + 20);
        assert(w[15] == m[j + 15] && w[1] == m[j + 1]);
    }
    assert(m.subrange(327, 346) =~= "alya_fmt_arr_open:\n"@);
    assert forall|j: int| #[trigger] occurs_at(m, "alya_fmt_arr_open:\n"@, j) implies j == 327 by {
        let w = m.subrange(j, j + 19);
        assert(w[14] == m[j + 14] && w[0] == m[j + 0]);
    }
    assert(m.subrange(362, 382) =~= "alya_fmt_arr_close:\n"@);
    assert forall|j: int| #[trigger] occurs_at(m, "alya_fmt_arr_close:\n"@, j) implies j == 362 by {
        let w = m.subrange(j, j + 20);
        assert(w[13] == m[j + 13]);
    }
    assert(m.subrange(400, 419) =~= "alya_fmt_arr_elem:\n"@);
    assert forall|j: int| #[trigger] occurs_at(m, "alya_fmt_arr_elem:\n"@, j) implies j == 400 by {
        let w = m.subrange(j, j + 19);
        assert(w[5] == m[j + 5] && w[16] == m[j + 16]);
    }
    assert forall|j: int| !#[trigger] occurs_at(m, "alya_fmt_arr_comma:\n"@, j) by {
        if occurs_at(m, "alya_fmt_arr_comma:\n"@, j) {
            let w = m.subrange(j, j + 20);
            assert(w[13] == m[j + 13] && w[14] == m[j + 14]);
        }
    }
    assert forall|j: int| !#[trigger] occurs_at(m, ".asciz"@, j) by {
        if occurs_at(m, ".asciz"@, j) {
            let w = m.subrange(j, j + 6);
            assert(w[3] == m[j + 3] && w[1] == m[j + 1]);
        }
    }
}

/// Where the patterns of the data section's labels occur in one of its
/// pieces.
#[verifier::rlimit(100)]
proof fn lemma_piece_10()
    ensures
        nowhere("    .string \"%d\"\n"@, "alya_str_buf:\n"@),
        nowhere("    .string \"%d\"\n"@, "alya_str_idx:\n"@),
        nowhere("    .string \"%d\"\n"@, "alya_catch_idx:\n"@),
        nowhere("    .string \"%d\"\n"@, "alya_catch_stack_handler:\n"@),
        nowhere("    .string \"%d\"\n"@, "alya_catch_stack_sp:\n"@),
        nowhere("    .string \"%d\"\n"@, "alya_catch_stack_bp:\n"@),
        nowhere("    .string \"%d\"\n"@, "alya_err_msg:\n"@),
        nowhere("    .string \"%d\"\n"@, "alya_fmt_prompt:\n"@),
        nowhere("    .string \"%d\"\n"@, "alya_fmt_div_zero:\n"@),
        nowhere("    .string \"%d\"\n"@, "alya_str_div_zero:\n"@),
        nowhere("    .string \"%d\"\n"@, "alya_fmt_bounds:\n"@),
        nowhere("    .string \"%d\"\n"@, "alya_str_bounds:\n"@),
        nowhere("    .string \"%d\"\n"@, "alya_fmt_arr_empty:\n"@),
        nowhere("    .string \"%d\"\n"@, "alya_fmt_arr_open:\n"@),
        nowhere("    .string \"%d\"\n"@, "alya_fmt_arr_close:\n"@),
        nowhere("    .string \"%d\"\n"@, "alya_fmt_arr_elem:\n"@),
        nowhere("    .string \"%d\"\n"@, "alya_fmt_arr_comma:\n"@),
        nowhere("    .string \"%d\"\n"@, ".asciz"@),
{
    reveal_strlit("    .string \"%d\"\n");
    let m = "    .string \"%d\"\n"@;
    reveal_strlit("alya_str_buf:\n");
    reveal_strlit("alya_str_idx:\n");
    reveal_strlit("alya_catch_idx:\n");
    reveal_strlit("alya_catch_stack_handler:\n");
    reveal_strlit("alya_catch_stack_sp:\n");
    reveal_strlit("alya_catch_stack_bp:\n");
    reveal_strlit("alya_err_msg:\n");
    reveal_strlit("alya_fmt_prompt:\n");
    reveal_strlit("alya_fmt_div_zero:\n");
    reveal_strlit("alya_str_div_zero:\n");
    reveal_strlit("alya_fmt_bounds:\n");
    reveal_strlit("alya_str_bounds:\n");
    reveal_strlit("alya_fmt_arr_empty:\n");
    reveal_strlit("alya_fmt_arr_open:\n");
    reveal_strlit("alya_fmt_arr_close:\n");
    reveal_strlit("alya_fmt_arr_elem:\n");
    reveal_strlit("alya_fmt_arr_comma:\n");
    reveal_strlit(".asciz");
    assert forall|j: int| !#[trigger] occurs_at(m, "alya_str_buf:\n"@, j) by {
        if occurs_at(m, "alya_str_buf:\n"@, j) {
            let w = m.subrange(j, j + 14);
            assert(w[0] == m[j + 0]);
        }
    }
    assert forall|j: int| !#[trigger] occurs_at(m, "alya_str_idx:\n"@, j) by {
        if occurs_at(m, "alya_str_idx:\n"@, j) {
            let w = m.subrange(j, j + 14);
            assert(w[0] == m[j + 0]);
        }
    }
    assert forall|j: int| !#[trigger] occurs_at(m, "alya_catch_idx:\n"@, j) by {
        if occurs_at(m, "alya_catch_idx:\n"@, j) {
            let w = m.subrange(j, j + 16);
            assert(w[0] == m[j + 0]);
        }
    }
    assert(forall|j: int| !#[trigger] occurs_at(m, "alya_catch_stack_handler:\n"@, j));
    assert(forall|j: int| !#[trigger] occurs_at(m, "alya_catch_stack_sp:\n"@, j));
    assert(forall|j: int| !#[trigger] occurs_at(m, "alya_catch_stack_bp:\n"@, j));
    assert forall|j: int| !#[trigger] occurs_at(m, "alya_err_msg:\n"@, j) by {
        if occurs_at(m, "alya_err_msg:\n"@, j) {
            let w = m.subrange(j, j + 14);
            assert(w[0] == m[j + 0]);
        }
    }
    assert forall|j: int| !#[trigger] occurs_at(m, "alya_fmt_prompt:\n"@, j) by {
        if occurs_at(m, "alya_fmt_prompt:\n"@, j) {
            let w = m.subrange(j, j + 17);
            assert(w[0] == m[j + 0]);
        }
    }
    assert(forall|j: int| !#[trigger] occurs_at(m, "alya_fmt_div_zero:\n"@, j));
    assert(forall|j: int| !#[trigger] occurs_at(m, "alya_str_div_zero:\n"@, j));
    assert forall|j: int| !#[trigger] occurs_at(m, "alya_fmt_bounds:\n"@, j) by {
        if occurs_at(m, "alya_fmt_bounds:\n"@, j) {
            let w = m.subrange(j, j + 17);
            assert(w[0] == m[j + 0]);
        }
    }
    assert forall|j: int| !#[trigger] occurs_at(m, "alya_str_bounds:\n"@, j) by {
        if occurs_at(m, "alya_str_bounds:\n"@, j) {
            let w = m.subrange(j, j + 17);
            assert(w[0] == m[j + 0]);
        }
    }
    assert(forall|j: int| !#[trigger] occurs_at(m, "alya_fmt_arr_empty:\n"@, j));
    assert(forall|j: int| !#[trigger] occurs_at(m, "alya_fmt_arr_open:\n"@, j));
    assert(forall|j: int| !#[trigger] occurs_at(m, "alya_fmt_arr_close:\n"@, j));
    assert(forall|j: int| !#[trigger] occurs_at(m, "alya_fmt_arr_elem:\n"@, j));
    assert(forall|j: int| !#[trigger] occurs_at(m, "alya_fmt_arr_comma:\n"@, j));
    assert forall|j: int| !#[trigger] occurs_at(m, ".asciz"@, j) by {
        if occurs_at(m, ".asciz"@, j) {
            let w = m.subrange(j, j + 6);
            assert(w[1] == m[j + 1]);
        }
    }
}

/// Where the patterns of the data section's labels occur in one of its
/// pieces.
#[verifier::rlimit(100)]
proof fn lemma_piece_11()
    ensures
        nowhere("    .string \"%ld\"\n"@, "alya_str_buf:\n"@),
        nowhere("    .string \"%ld\"\n"@, "alya_str_idx:\n"@),
        nowhere("    .string \"%ld\"\n"@, "alya_catch_idx:\n"@),
        nowhere("    .string \"%ld\"\n"@, "alya_catch_stack_handler:\n"@),
        nowhere("    .string \"%ld\"\n"@, "alya_catch_stack_sp:\n"@),
        nowhere("    .string \"%ld\"\n"@, "alya_catch_stack_bp:\n"@),
        nowhere("    .string \"%ld\"\n"@, "alya_err_msg:\n"@),
        nowhere("    .string \"%ld\"\n"@, "alya_fmt_prompt:\n"@),
        nowhere("    .string \"%ld\"\n"@, "alya_fmt_div_zero:\n"@),
        nowhere("    .string \"%ld\"\n"@, "alya_str_div_zero:\n"@),
        nowhere("    .string \"%ld\"\n"@, "alya_fmt_bounds:\n"@),
        nowhere("    .string \"%ld\"\n"@, "alya_str_bounds:\n"@),
        nowhere("    .string \"%ld\"\n"@, "alya_fmt_arr_empty:\n"@),
        nowhere("    .string \"%ld\"\n"@, "alya_fmt_arr_open:\n"@),
        nowhere("    .string \"%ld\"\n"@, "alya_fmt_arr_close:\n"@),
        nowhere("    .string \"%ld\"\n"@, "alya_fmt_arr_elem:\n"@),
        nowhere("    .string \"%ld\"\n"@, "alya_fmt_arr_comma:\n"@),
        nowhere("    .string \"%ld\"\n"@, ".asciz"@),
{
    reveal_strlit("    .string \"%ld\"\n");
    let m = "    .string \"%ld\"\n"@;
    reveal_strlit("alya_str_buf:\n");
    reveal_strlit("alya_str_idx:\n");
    reveal_strlit("alya_catch_idx:\n");
    reveal_strlit("alya_catch_stack_handler:\n");
    reveal_strlit("alya_catch_stack_sp:\n");
    reveal_strlit("alya_catch_stack_bp:\n");
    reveal_strlit("alya_err_msg:\n");
    reveal_strlit("alya_fmt_prompt:\n");
    reveal_strlit("alya_fmt_div_zero:\n");
    reveal_strlit("alya_str_div_zero:\n");
    reveal_strlit("alya_fmt_bounds:\n");
    reveal_strlit("alya_str_bounds:\n");
    reveal_strlit("alya_fmt_arr_empty:\n");
    reveal_strlit("alya_fmt_arr_open:\n");
    reveal_strlit("alya_fmt_arr_close:\n");
    reveal_strlit("alya_fmt_arr_elem:\n");
    reveal_strlit("alya_fmt_arr_comma:\n");
    reveal_strlit(".asciz");
    assert forall|j: int| !#[trigger] occurs_at(m, "alya_str_buf:\n"@, j) by {
        if occurs_at(m, "alya_str_buf:\n"@, j) {
            let w = m.subrange(j, j + 14);
            assert(w[0] == m[j + 0]);
        }
    }
    assert forall|j: int| !#[trigger] occurs_at(m, "alya_str_idx:\n"@, j) by {
        if occurs_at(m, "alya_str_idx:\n"@, j) {
            let w = m.subrange(j, j + 14);
            assert(w[0] == m[j + 0]);
        }
    }
    assert forall|j: int| !#[trigger] occurs_at(m, "alya_catch_idx:\n"@, j) by {
        if occurs_at(m, "alya_catch_idx:\n"@, j) {
            let w = m.subrange(j, j + 16);
            assert(w[0] == m[j + 0]);
        }
    }
    assert(forall|j: int| !#[trigger] occurs_at(m, "alya_catch_stack_handler:\n"@, j));
    assert(forall|j: int| !#[trigger] occurs_at(m, "alya_catch_stack_sp:\n"@, j));
    assert(forall|j: int| !#[trigger] occurs_at(m, "alya_catch_stack_bp:\n"@, j));
    assert forall|j: int| !#[trigger] occurs_at(m, "alya_err_msg:\n"@, j) by {
        if occurs_at(m, "alya_err_msg:\n"@, j) {
            let w = m.subrange(j, j + 14);
            assert(w[0] == m[j + 0]);
        }
    }
    assert forall|j: int| !#[trigger] occurs_at(m, "alya_fmt_prompt:\n"@, j) by {
        if occurs_at(m, "alya_fmt_prompt:\n"@, j) {
            let w = m.subrange(j, j + 17);
            assert(w[0] == m[j + 0]);
        }
    }
    assert(forall|j: int| !#[trigger] occurs_at(m, "alya_fmt_div_zero:\n"@, j));
    assert(forall|j: int| !#[trigger] occurs_at(m, "alya_str_div_zero:\n"@, j));
    assert forall|j: int| !#[trigger] occurs_at(m, "alya_fmt_bounds:\n"@, j) by {
        if occurs_at(m, "alya_fmt_bounds:\n"@, j) {
            let w = m.subrange(j, j + 17);
            assert(w[0] == m[j + 0]);
        }
    }
    assert forall|j: int| !#[trigger] occurs_at(m, "alya_str_bounds:\n"@, j) by {
        if occurs_at(m, "alya_str_bounds:\n"@, j) {
            let w = m.subrange(j, j + 17);
            assert(w[0] == m[j + 0]);
        }
    }
    assert(forall|j: int| !#[trigger] occurs_at(m, "alya_fmt_arr_empty:\n"@, j));
    assert(forall|j: int| !#[trigger] occurs_at(m, "alya_fmt_arr_open:\n"@, j));
    assert(forall|j: int| !#[trigger] occurs_at(m, "alya_fmt_arr_close:\n"@, j));
    assert(forall|j: int| !#[trigger] occurs_at(m, "alya_fmt_arr_elem:\n"@, j));
    assert(forall|j: int| !#[trigger] occurs_at(m, "alya_fmt_arr_comma:\n"@, j));
    assert forall|j: int| !#[trigger] occurs_at(m, ".asciz"@, j) by {
        if occurs_at(m, ".asciz"@, j) {
            let w = m.subrange(j, j + 6);
            assert(w[1] == m[j + 1]);
        }
    }
}

/// Where the patterns of the data section's labels occur in one of its
/// pieces.
#[verifier::rlimit(100)]
proof fn lemma_piece_12()
    ensures
        nowhere("alya_fmt_arr_comma:\n    .string \", \"\n"@, "alya_str_buf:\n"@),
        nowhere("alya_fmt_arr_comma:\n    .string \", \"\n"@, "alya_str_idx:\n"@),
        nowhere("alya_fmt_arr_comma:\n    .string \", \"\n"@, "alya_catch_idx:\n"@),
        nowhere("alya_fmt_arr_comma:\n    .string \", \"\n"@, "alya_catch_stack_handler:\n"@),
        nowhere("alya_fmt_arr_comma:\n    .string \", \"\n"@, "alya_catch_stack_sp:\n"@),
        nowhere("alya_fmt_arr_comma:\n    .string \", \"\n"@, "alya_catch_stack_bp:\n"@),
        nowhere("alya_fmt_arr_comma:\n    .string \", \"\n"@, "alya_err_msg:\n"@),
        nowhere("alya_fmt_arr_comma:\n    .string \", \"\n"@, "alya_fmt_prompt:\n"@),
        nowhere("alya_fmt_arr_comma:\n    .string \", \"\n"@, "alya_fmt_div_zero:\n"@),
        nowhere("alya_fmt_arr_comma:\n    .string \", \"\n"@, "alya_str_div_zero:\n"@),
        nowhere("alya_fmt_arr_comma:\n    .string \", \"\n"@, "alya_fmt_bounds:\n"@),
        nowhere("alya_fmt_arr_comma:\n    .string \", \"\n"@, "alya_str_bounds:\n"@),
        nowhere("alya_fmt_arr_comma:\n    .string \", \"\n"@, "alya_fmt_arr_empty:\n"@),
        nowhere("alya_fmt_arr_comma:\n    .string \", \"\n"@, "alya_fmt_arr_open:\n"@),
        nowhere("alya_fmt_arr_comma:\n    .string \", \"\n"@, "alya_fmt_arr_close:\n"@),
        nowhere("alya_fmt_arr_comma:\n    .string \", \"\n"@, "alya_fmt_arr_elem:\n"@),
        only_at("alya_fmt_arr_comma:\n    .string \", \"\n"@, "alya_fmt_arr_comma:\n"@, 0),
        nowhere("alya_fmt_arr_comma:\n    .string \", \"\n"@, ".asciz"@),
{
    reveal_strlit("alya_fmt_arr_comma:\n    .string \", \"\n");
    let m = "alya_fmt_arr_comma:\n    .string \", \"\n"@;
    reveal_strlit("alya_str_buf:\n");
    reveal_strlit("alya_str_idx:\n");
    reveal_strlit("alya_catch_idx:\n");
    reveal_strlit("alya_catch_stack_handler:\n");
    reveal_strlit("alya_catch_stack_sp:\n");
    reveal_strlit("alya_catch_stack_bp:\n");
    reveal_strlit("alya_err_msg:\n");
    reveal_strlit("alya_fmt_prompt:\n");
    reveal_strlit("alya_fmt_div_zero:\n");
    reveal_strlit("alya_str_div_zero:\n");
    reveal_strlit("alya_fmt_bounds:\n");
    reveal_strlit("alya_str_bounds:\n");
    reveal_strlit("alya_fmt_arr_empty:\n");
    reveal_strlit("alya_fmt_arr_open:\n");
    reveal_strlit("alya_fmt_arr_close:\n");
    reveal_strlit("alya_fmt_arr_elem:\n");
    reveal_strlit("alya_fmt_arr_comma:\n");
    reveal_strlit(".asciz");
    assert forall|j: int| !#[trigger] occurs_at(m, "alya_str_buf:\n"@, j) by {
        if occurs_at(m, "alya_str_buf:\n"@, j) {
            let w = m.subrange(j, j + 14);
            assert(w[9] == m[j + 9]);
        }
    }
    assert forall|j: int| !#[trigger] occurs_at(m, "alya_str_idx:\n"@, j) by {
        if occurs_at(m, "alya_str_idx:\n"@, j) {
            let w = m.subrange(j, j + 14);
            assert(w[10] == m[j + 10]);
        }
    }
    assert forall|j: int| !#[trigger] occurs_at(m, "alya_catch_idx:\n"@, j) by {
        if occurs_at(m, "alya_catch_idx:\n"@, j) {
            let w = m.subrange(j, j + 16);
            assert(w[9] == m[j + 9]);
        }
    }
    assert forall|j: int| !#[trigger] occurs_at(m, "alya_catch_stack_handler:\n"@, j) by {
        if occurs_at(m, "alya_catch_stack_handler:\n"@, j) {
            let w = m.subrange(j, j + 26);
            assert(w[9] == m[j + 9]);
        }
    }
    assert forall|j: int| !#[trigger] occurs_at(m, "alya_catch_stack_sp:\n"@, j) by {
        if occurs_at(m, "alya_catch_stack_sp:\n"@, j) {
            let w = m.subrange(j, j + 21);
            assert(w[9] == m[j + 9]);
        }
    }
    assert forall|j: int| !#[trigger] occurs_at(m, "alya_catch_stack_bp:\n"@, j) by {
        if occurs_at(m, "alya_catch_stack_bp:\n"@, j) {
            let w = m.subrange(j, j + 21);
            assert(w[9] == m[j + 9]);
        }
    }
    assert forall|j: int| !#[trigger] occurs_at(m, "alya_err_msg:\n"@, j) by {
        if occurs_at(m, "alya_err_msg:\n"@, j) {
            let w = m.subrange(j, j + 14);
            assert(w[5] == m[j + 5]);
        }
    }
    assert forall|j: int| !#[trigger] occurs_at(m, "alya_fmt_prompt:\n"@, j) by {
        if occurs_at(m, "alya_fmt_prompt:\n"@, j) {
            let w = m.subrange(j, j + 17);
            assert(w[9] == m[j + 9]);
        }
    }
    assert forall|j: int| !#[trigger] occurs_at(m, "alya_fmt_div_zero:\n"@, j) by {
        if occurs_at(m, "alya_fmt_div_zero:\n"@, j) {
            let w = m.subrange(j, j + 19);
            assert(w[9] == m[j + 9]);
        }
    }
    assert forall|j: int| !#[trigger] occurs_at(m, "alya_str_div_zero:\n"@, j) by {
        if occurs_at(m, "alya_str_div_zero:\n"@, j) {
            let w = m.subrange(j, j + 19);
            assert(w[5] == m[j + 5]);
        }
    }
    assert forall|j: int| !#[trigger] occurs_at(m, "alya_fmt_bounds:\n"@, j) by {
        if occurs_at(m, "alya_fmt_bounds:\n"@, j) {
            let w = m.subrange(j, j + 17);
            assert(w[9] == m[j + 9]);
        }
    }
    assert forall|j: int| !#[trigger] occurs_at(m, "alya_str_bounds:\n"@, j) by {
        if occurs_at(m, "alya_str_bounds:\n"@, j) {
            let w = m.subrange(j, j + 17);
            assert(w[9] == m[j + 9]);
        }
    }
    assert forall|j: int| !#[trigger] occurs_at(m, "alya_fmt_arr_empty:\n"@, j) by {
        if occurs_at(m, "alya_fmt_arr_empty:\n"@, j) {
            let w = m.subrange(j, j + 20);
            assert(w[13] == m[j + 13]);
        }
    }
    assert forall|j: int| !#[trigger] occurs_at(m, "alya_fmt_arr_open:\n"@, j) by {
        if occurs_at(m, "alya_fmt_arr_open:\n"@, j) {
            let w = m.subrange(j, j + 19);
            assert(w[14] == m[j + 14]);
        }
    }
    assert forall|j: int| !#[trigger] occurs_at(m, "alya_fmt_arr_close:\n"@, j) by {
        if occurs_at(m, "alya_fmt_arr_close:\n"@, j) {
            let w = m.subrange(j, j + 20);
            assert(w[14] == m[j + 14]);
        }
    }
    assert forall|j: int| !#[trigger] occurs_at(m, "alya_fmt_arr_elem:\n"@, j) by {
        if occurs_at(m, "alya_fmt_arr_elem:\n"@, j) {
            let w = m.subrange(j, j + 19);
            assert(w[13] == m[j + 13]);
        }
    }
    assert(m.subrange(0, 20) =~= "alya_fmt_arr_comma:\n"@);
    assert forall|j: int| #[trigger] occurs_at(m, "alya_fmt_arr_comma:\n"@, j) implies j == 0 by {
        let w = m.subrange(j, j + 20);
        assert(w[1] == m[j + 1]);
    }
    assert forall|j: int| !#[trigger] occurs_at(m, ".asciz"@, j) by {
        if occurs_at(m, ".asciz"@, j) {
            let w = m.subrange(j, j + 6);
            assert(w[5] == m[j + 5]);
        }
    }
}

/// Where the patterns of the data section's labels occur in one of its
/// pieces.
#[verifier::rlimit(100)]
proof fn lemma_piece_13()
    ensures
        nowhere(".text\n"@, "alya_str_buf:\n"@),
        nowhere(".text\n"@, "alya_str_idx:\n"@),
        nowhere(".text\n"@, "alya_catch_idx:\n"@),
        nowhere(".text\n"@, "alya_catch_stack_handler:\n"@),
        nowhere(".text\n"@, "alya_catch_stack_sp:\n"@),
        nowhere(".text\n"@, "alya_catch_stack_bp:\n"@),
        nowhere(".text\n"@, "alya_err_msg:\n"@),
        nowhere(".text\n"@, "alya_fmt_prompt:\n"@),
        nowhere(".text\n"@, "alya_fmt_div_zero:\n"@),
        nowhere(".text\n"@, "alya_str_div_zero:\n"@),
        nowhere(".text\n"@, "alya_fmt_bounds:\n"@),
        nowhere(".text\n"@, "alya_str_bounds:\n"@),
        nowhere(".text\n"@, "alya_fmt_arr_empty:\n"@),
        nowhere(".text\n"@, "alya_fmt_arr_open:\n"@),
        nowhere(".text\n"@, "alya_fmt_arr_close:\n"@),
        nowhere(".text\n"@, "alya_fmt_arr_elem:\n"@),
        nowhere(".text\n"@, "alya_fmt_arr_comma:\n"@),
        nowhere(".text\n"@, ".asciz"@),
{
    reveal_strlit(".text\n");
    let m = ".text\n"@;
    reveal_strlit("alya_str_buf:\n");
    reveal_strlit("alya_str_idx:\n");
    reveal_strlit("alya_catch_idx:\n");
    reveal_strlit("alya_catch_stack_handler:\n");
    reveal_strlit("alya_catch_stack_sp:\n");
    reveal_strlit("alya_catch_stack_bp:\n");
    reveal_strlit("alya_err_msg:\n");
    reveal_strlit("alya_fmt_prompt:\n");
    reveal_strlit("alya_fmt_div_zero:\n");
    reveal_strlit("alya_str_div_zero:\n");
    reveal_strlit("alya_fmt_bounds:\n");
    reveal_strlit("alya_str_bounds:\n");
    reveal_strlit("alya_fmt_arr_empty:\n");
    reveal_strlit("alya_fmt_arr_open:\n");
    reveal_strlit("alya_fmt_arr_close:\n");
    reveal_strlit("alya_fmt_arr_elem:\n");
    reveal_strlit("alya_fmt_arr_comma:\n");
    reveal_strlit(".asciz");
    assert(forall|j: int| !#[trigger] occurs_at(m, "alya_str_buf:\n"@, j));
    assert(forall|j: int| !#[trigger] occurs_at(m, "alya_str_idx:\n"@, j));
    assert(forall|j: int| !#[trigger] occurs_at(m, "alya_catch_idx:\n"@, j));
    assert(forall|j: int| !#[trigger] occurs_at(m, "alya_catch_stack_handler:\n"@, j));
    assert(forall|j: int| !#[trigger] occurs_at(m, "alya_catch_stack_sp:\n"@, j));
    assert(forall|j: int| !#[trigger] occurs_at(m, "alya_catch_stack_bp:\n"@, j));
    assert(forall|j: int| !#[trigger] occurs_at(m, "alya_err_msg:\n"@, j));
    assert(forall|j: int| !#[trigger] occurs_at(m, "alya_fmt_prompt:\n"@, j));
    assert(forall|j: int| !#[trigger] occurs_at(m, "alya_fmt_div_zero:\n"@, j));
    assert(forall|j: int| !#[trigger] occurs_at(m, "alya_str_div_zero:\n"@, j));
    assert(forall|j: int| !#[trigger] occurs_at(m, "alya_fmt_bounds:\n"@, j));
    assert(forall|j: int| !#[trigger] occurs_at(m, "alya_str_bounds:\n"@, j));
    assert(forall|j: int| !#[trigger] occurs_at(m, "alya_fmt_arr_empty:\n"@, j));
    assert(forall|j: int| !#[trigger] occurs_at(m, "alya_fmt_arr_open:\n"@, j));
    assert(forall|j: int| !#[trigger] occurs_at(m, "alya_fmt_arr_close:\n"@, j));
    assert(forall|j: int| !#[trigger] occurs_at(m, "alya_fmt_arr_elem:\n"@, j));
    assert(forall|j: int| !#[trigger] occurs_at(m, "alya_fmt_arr_comma:\n"@, j));
    assert forall|j: int| !#[trigger] occurs_at(m, ".asciz"@, j) by {
        if occurs_at(m, ".asciz"@, j) {
            let w = m.subrange(j, j + 6);
            assert(w[1] == m[j + 1]);
        }
    }
}

/// The label and `.asciz` facts of the data sections for macOS on 32-bit x86.
#[verifier::rlimit(100)]
proof fn lemma_labels_mac_x86(arch: Architecture, os: OperatingSystem)
    requires
        os == OperatingSystem::MacOS && arch == Architecture::X86,
    ensures
        occurs_once(data_sections(seq![], arch, os), "alya_str_buf:\n"@),
        occurs_once(data_sections(seq![], arch, os), "alya_str_idx:\n"@),
        occurs_once(data_sections(seq![], arch, os), "alya_catch_idx:\n"@),
        occurs_once(data_sections(seq![], arch, os), "alya_catch_stack_handler:\n"@),
        occurs_once(data_sections(seq![], arch, os), "alya_catch_stack_sp:\n"@),
        occurs_once(data_sections(seq![], arch, os), "alya_catch_stack_bp:\n"@),
        occurs_once(data_sections(seq![], arch, os), "alya_err_msg:\n"@),
        occurs_once(data_sections(seq![], arch, os), "alya_fmt_prompt:\n"@),
        occurs_once(data_sections(seq![], arch, os), "alya_fmt_div_zero:\n"@),
        occurs_once(data_sections(seq![], arch, os), "alya_str_div_zero:\n"@),
        occurs_once(data_sections(seq![], arch, os), "alya_fmt_bounds:\n"@),
        occurs_once(data_sections(seq![], arch, os), "alya_str_bounds:\n"@),
        occurs_once(data_sections(seq![], arch, os), "alya_fmt_arr_empty:\n"@),
        occurs_once(data_sections(seq![], arch, os), "alya_fmt_arr_open:\n"@),
        occurs_once(data_sections(seq![], arch, os), "alya_fmt_arr_close:\n"@),
        occurs_once(data_sections(seq![], arch, os), "alya_fmt_arr_elem:\n"@),
        occurs_once(data_sections(seq![], arch, os), "alya_fmt_arr_comma:\n"@),
        (exists|i: int| #[trigger] occurs_at(data_sections(seq![], arch, os), ".asciz"@, i)) == (os
            == OperatingSystem::MacOS),
{
    lemma_patterns_break_last();
    lemma_piece_0();
    lemma_piece_1();
    lemma_piece_2();
    lemma_piece_3();
    lemma_piece_4();
    lemma_piece_5();
    lemma_piece_6();
    lemma_piece_7();
    lemma_piece_8();
    lemma_piece_9();
    lemma_piece_10();
    lemma_piece_11();
    lemma_piece_12();
    lemma_piece_13();
    let ps = seq!["\n.section __DATA,__bss\n.p2align 4\n"@, "alya_str_buf:\n    .space 65536\n"@, "alya_str_idx:\n    .long 0\nalya_catch_idx:\n    .long 0\nalya_catch_stack_handler:\n    .space 512\nalya_catch_stack_sp:\n    .space 512\nalya_catch_stack_bp:\n    .space 512\nalya_err_msg:\n    .long 0\n"@, "\n.section __TEXT,__cstring,cstring_literals\nalya_fmt_prompt:\n    .asciz \"%s\"\nalya_fmt_div_zero:\n    .asciz \"Runtime error: division by zero\\n\"\nalya_str_div_zero:\n    .asciz \"division by zero\"\nalya_fmt_bounds:\n    .asciz \"Runtime error: index out of bounds\\n\"\nalya_str_bounds:\n    .asciz \"index out of bounds\"\nalya_fmt_arr_empty:\n    .asciz \"[]\\n\"\nalya_fmt_arr_open:\n    .asciz \"[\"\nalya_fmt_arr_close:\n    .asciz \"]\\n\"\nalya_fmt_arr_elem:\n"@, "    .asciz \"%d\"\n"@, "alya_fmt_arr_comma:\n    .asciz \", \"\n"@, ".text\n"@];
    reveal_with_fuel(concat_all, 8);
    assert(data_sections(seq![], arch, os) =~= concat_all(ps));
    assert(lines_only(ps)) by {
        reveal_strlit("\n.section __DATA,__bss\n.p2align 4\n");
        reveal_strlit("alya_str_buf:\n    .space 65536\n");
        reveal_strlit("alya_str_idx:\n    .long 0\nalya_catch_idx:\n    .long 0\nalya_catch_stack_handler:\n    .space 512\nalya_catch_stack_sp:\n    .space 512\nalya_catch_stack_bp:\n    .space 512\nalya_err_msg:\n    .long 0\n");
        reveal_strlit("\n.section __TEXT,__cstring,cstring_literals\nalya_fmt_prompt:\n    .asciz \"%s\"\nalya_fmt_div_zero:\n    .asciz \"Runtime error: division by zero\\n\"\nalya_str_div_zero:\n    .asciz \"division by zero\"\nalya_fmt_bounds:\n    .asciz \"Runtime error: index out of bounds\\n\"\nalya_str_bounds:\n    .asciz \"index out of bounds\"\nalya_fmt_arr_empty:\n    .asciz \"[]\\n\"\nalya_fmt_arr_open:\n    .asciz \"[\"\nalya_fmt_arr_close:\n    .asciz \"]\\n\"\nalya_fmt_arr_elem:\n");
        reveal_strlit("    .asciz \"%d\"\n");
        reveal_strlit("alya_fmt_arr_comma:\n    .asciz \", \"\n");
        reveal_strlit(".text\n");
    }
    {
        lemma_once_all(ps, "alya_str_buf:\n"@, 1, 0);
        lemma_once_all(ps, "alya_str_idx:\n"@, 2, 0);
        lemma_once_all(ps, "alya_catch_idx:\n"@, 2, 26);
        lemma_once_all(ps, "alya_catch_stack_handler:\n"@, 2, 54);
        lemma_once_all(ps, "alya_catch_stack_sp:\n"@, 2, 95);
        lemma_once_all(ps, "alya_catch_stack_bp:\n"@, 2, 131);
        lemma_once_all(ps, "alya_err_msg:\n"@, 2, 167);
        lemma_once_all(ps, "alya_fmt_prompt:\n"@, 3, 44);
        lemma_once_all(ps, "alya_fmt_div_zero:\n"@, 3, 77);
        lemma_once_all(ps, "alya_str_div_zero:\n"@, 3, 143);
        lemma_once_all(ps, "alya_fmt_bounds:\n"@, 3, 192);
        lemma_once_all(ps, "alya_str_bounds:\n"@, 3, 259);
        lemma_once_all(ps, "alya_fmt_arr_empty:\n"@, 3, 309);
        lemma_once_all(ps, "alya_fmt_arr_open:\n"@, 3, 347);
        lemma_once_all(ps, "alya_fmt_arr_close:\n"@, 3, 381);
        lemma_once_all(ps, "alya_fmt_arr_elem:\n"@, 3, 418);
        lemma_once_all(ps, "alya_fmt_arr_comma:\n"@, 5, 0);
        lemma_occurs_all(ps, ".asciz"@, 3, 65);
    }
}

/// The label and `.asciz` facts of the data sections for macOS on the 64-bit targets.
#[verifier::rlimit(100)]
proof fn lemma_labels_mac_wide(arch: Architecture, os: OperatingSystem)
    requires
        os == OperatingSystem::MacOS && arch != Architecture::X86,
    ensures
        occurs_once(data_sections(seq![], arch, os), "alya_str_buf:\n"@),
        occurs_once(data_sections(seq![], arch, os), "alya_str_idx:\n"@),
        occurs_once(data_sections(seq![], arch, os), "alya_catch_idx:\n"@),
        occurs_once(data_sections(seq![], arch, os), "alya_catch_stack_handler:\n"@),
        occurs_once(data_sections(seq![], arch, os), "alya_catch_stack_sp:\n"@),
        occurs_once(data_sections(seq![], arch, os), "alya_catch_stack_bp:\n"@),
        occurs_once(data_sections(seq![], arch, os), "alya_err_msg:\n"@),
        occurs_once(data_sections(seq![], arch, os), "alya_fmt_prompt:\n"@),
        occurs_once(data_sections(seq![], arch, os), "alya_fmt_div_zero:\n"@),
        occurs_once(data_sections(seq![], arch, os), "alya_str_div_zero:\n"@),
        occurs_once(data_sections(seq![], arch, os), "alya_fmt_bounds:\n"@),
        occurs_once(data_sections(seq![], arch, os), "alya_str_bounds:\n"@),
        occurs_once(data_sections(seq![], arch, os), "alya_fmt_arr_empty:\n"@),
        occurs_once(data_sections(seq![], arch, os), "alya_fmt_arr_open:\n"@),
        occurs_once(data_sections(seq![], arch, os), "alya_fmt_arr_close:\n"@),
        occurs_once(data_sections(seq![], arch, os), "alya_fmt_arr_elem:\n"@),
        occurs_once(data_sections(seq![], arch, os), "alya_fmt_arr_comma:\n"@),
        (exists|i: int| #[trigger] occurs_at(data_sections(seq![], arch, os), ".asciz"@, i)) == (os
            == OperatingSystem::MacOS),
{
    lemma_patterns_break_last();
    lemma_piece_0();
    lemma_piece_1();
    lemma_piece_2();
    lemma_piece_3();
    lemma_piece_4();
    lemma_piece_5();
    lemma_piece_6();
    lemma_piece_7();
    lemma_piece_8();
    lemma_piece_9();
    lemma_piece_10();
    lemma_piece_11();
    lemma_piece_12();
    lemma_piece_13();
    let ps = seq!["\n.section __DATA,__bss\n.p2align 4\n"@, "alya_str_buf:\n    .space 65536\n"@, "alya_str_idx:\n    .quad 0\nalya_catch_idx:\n    .quad 0\nalya_catch_stack_handler:\n    .space 1024\nalya_catch_stack_sp:\n    .space 1024\nalya_catch_stack_bp:\n    .space 1024\nalya_err_msg:\n    .quad 0\n"@, "\n.section __TEXT,__cstring,cstring_literals\nalya_fmt_prompt:\n    .asciz \"%s\"\nalya_fmt_div_zero:\n    .asciz \"Runtime error: division by zero\\n\"\nalya_str_div_zero:\n    .asciz \"division by zero\"\nalya_fmt_bounds:\n    .asciz \"Runtime error: index out of bounds\\n\"\nalya_str_bounds:\n    .asciz \"index out of bounds\"\nalya_fmt_arr_empty:\n    .asciz \"[]\\n\"\nalya_fmt_arr_open:\n    .asciz \"[\"\nalya_fmt_arr_close:\n    .asciz \"]\\n\"\nalya_fmt_arr_elem:\n"@, "    .asciz \"%ld\"\n"@, "alya_fmt_arr_comma:\n    .asciz \", \"\n"@, ".text\n"@];
    reveal_with_fuel(concat_all, 8);
    assert(data_sections(seq![], arch, os) =~= concat_all(ps));
    assert(lines_only(ps)) by {
        reveal_strlit("\n.section __DATA,__bss\n.p2align 4\n");
        reveal_strlit("alya_str_buf:\n    .space 65536\n");
        reveal_strlit("alya_str_idx:\n    .quad 0\nalya_catch_idx:\n    .quad 0\nalya_catch_stack_handler:\n    .space 1024\nalya_catch_stack_sp:\n    .space 1024\nalya_catch_stack_bp:\n    .space 1024\nalya_err_msg:\n    .quad 0\n");
        reveal_strlit("\n.section __TEXT,__cstring,cstring_literals\nalya_fmt_prompt:\n    .asciz \"%s\"\nalya_fmt_div_zero:\n    .asciz \"Runtime error: division by zero\\n\"\nalya_str_div_zero:\n    .asciz \"division by zero\"\nalya_fmt_bounds:\n    .asciz \"Runtime error: index out of bounds\\n\"\nalya_str_bounds:\n    .asciz \"index out of bounds\"\nalya_fmt_arr_empty:\n    .asciz \"[]\\n\"\nalya_fmt_arr_open:\n    .asciz \"[\"\nalya_fmt_arr_close:\n    .asciz \"]\\n\"\nalya_fmt_arr_elem:\n");
        reveal_strlit("    .asciz \"%ld\"\n");
        reveal_strlit("alya_fmt_arr_comma:\n    .asciz \", \"\n");
        reveal_strlit(".text\n");
    }
    {
        lemma_once_all(ps, "alya_str_buf:\n"@, 1, 0);
        lemma_once_all(ps, "alya_str_idx:\n"@, 2, 0);
        lemma_once_all(ps, "alya_catch_idx:\n"@, 2, 26);
        lemma_once_all(ps, "alya_catch_stack_handler:\n"@, 2, 54);
        lemma_once_all(ps, "alya_catch_stack_sp:\n"@, 2, 96);
        lemma_once_all(ps, "alya_catch_stack_bp:\n"@, 2, 133);
        lemma_once_all(ps, "alya_err_msg:\n"@, 2, 170);
        lemma_once_all(ps, "alya_fmt_prompt:\n"@, 3, 44);
        lemma_once_all(ps, "alya_fmt_div_zero:\n"@, 3, 77);
        lemma_once_all(ps, "alya_str_div_zero:\n"@, 3, 143);
        lemma_once_all(ps, "alya_fmt_bounds:\n"@, 3, 192);
        lemma_once_all(ps, "alya_str_bounds:\n"@, 3, 259);
        lemma_once_all(ps, "alya_fmt_arr_empty:\n"@, 3, 309);
        lemma_once_all(ps, "alya_fmt_arr_open:\n"@, 3, 347);
        lemma_once_all(ps, "alya_fmt_arr_close:\n"@, 3, 381);
        lemma_once_all(ps, "alya_fmt_arr_elem:\n"@, 3, 418);
        lemma_once_all(ps, "alya_fmt_arr_comma:\n"@, 5, 0);
        lemma_occurs_all(ps, ".asciz"@, 3, 65);
    }
}

/// The label and `.asciz` facts of the data sections for Linux and Windows on 32-bit x86.
#[verifier::rlimit(100)]
proof fn lemma_labels_other_x86(arch: Architecture, os: OperatingSystem)
    requires
        os != OperatingSystem::MacOS && arch == Architecture::X86,
    ensures
        occurs_once(data_sections(seq![], arch, os), "alya_str_buf:\n"@),
        occurs_once(data_sections(seq![], arch, os), "alya_str_idx:\n"@),
        occurs_once(data_sections(seq![], arch, os), "alya_catch_idx:\n"@),
        occurs_once(data_sections(seq![], arch, os), "alya_catch_stack_handler:\n"@),
        occurs_once(data_sections(seq![], arch, os), "alya_catch_stack_sp:\n"@),
        occurs_once(data_sections(seq![], arch, os), "alya_catch_stack_bp:\n"@),
        occurs_once(data_sections(seq![], arch, os), "alya_err_msg:\n"@),
        occurs_once(data_sections(seq![], arch, os), "alya_fmt_prompt:\n"@),
        occurs_once(data_sections(seq![], arch, os), "alya_fmt_div_zero:\n"@),
        occurs_once(data_sections(seq![], arch, os), "alya_str_div_zero:\n"@),
        occurs_once(data_sections(seq![], arch, os), "alya_fmt_bounds:\n"@),
        occurs_once(data_sections(seq![], arch, os), "alya_str_bounds:\n"@),
        occurs_once(data_sections(seq![], arch, os), "alya_fmt_arr_empty:\n"@),
        occurs_once(data_sections(seq![], arch, os), "alya_fmt_arr_open:\n"@),
        occurs_once(data_sections(seq![], arch, os), "alya_fmt_arr_close:\n"@),
        occurs_once(data_sections(seq![], arch, os), "alya_fmt_arr_elem:\n"@),
        occurs_once(data_sections(seq![], arch, os), "alya_fmt_arr_comma:\n"@),
        (exists|i: int| #[trigger] occurs_at(data_sections(seq![], arch, os), ".asciz"@, i)) == (os
            == OperatingSystem::MacOS),
{
    lemma_patterns_break_last();
    lemma_piece_0();
    lemma_piece_1();
    lemma_piece_2();
    lemma_piece_3();
    lemma_piece_4();
    lemma_piece_5();
    lemma_piece_6();
    lemma_piece_7();
    lemma_piece_8();
    lemma_piece_9();
    lemma_piece_10();
    lemma_piece_11();
    lemma_piece_12();
    lemma_piece_13();
    let ps = seq!["\n.section .bss\n.align 16\n"@, "alya_str_buf:\n    .space 65536\n"@, "alya_str_idx:\n    .long 0\nalya_catch_idx:\n    .long 0\nalya_catch_stack_handler:\n    .space 512\nalya_catch_stack_sp:\n    .space 512\nalya_catch_stack_bp:\n    .space 512\nalya_err_msg:\n    .long 0\n"@, "\n.section .rodata\nalya_fmt_prompt:\n    .string \"%s\"\nalya_fmt_div_zero:\n    .string \"Runtime error: division by zero\\n\"\nalya_str_div_zero:\n    .string \"division by zero\"\nalya_fmt_bounds:\n    .string \"Runtime error: index out of bounds\\n\"\nalya_str_bounds:\n    .string \"index out of bounds\"\nalya_fmt_arr_empty:\n    .string \"[]\\n\"\nalya_fmt_arr_open:\n    .string \"[\"\nalya_fmt_arr_close:\n    .string \"]\\n\"\nalya_fmt_arr_elem:\n"@, "    .string \"%d\"\n"@, "alya_fmt_arr_comma:\n    .string \", \"\n"@, ".text\n"@];
    reveal_with_fuel(concat_all, 8);
    assert(data_sections(seq![], arch, os) =~= concat_all(ps));
    assert(lines_only(ps)) by {
        reveal_strlit("\n.section .bss\n.align 16\n");
        reveal_strlit("alya_str_buf:\n    .space 65536\n");
        reveal_strlit("alya_str_idx:\n    .long 0\nalya_catch_idx:\n    .long 0\nalya_catch_stack_handler:\n    .space 512\nalya_catch_stack_sp:\n    .space 512\nalya_catch_stack_bp:\n    .space 512\nalya_err_msg:\n    .long 0\n");
        reveal_strlit("\n.section .rodata\nalya_fmt_prompt:\n    .string \"%s\"\nalya_fmt_div_zero:\n    .string \"Runtime error: division by zero\\n\"\nalya_str_div_zero:\n    .string \"division by zero\"\nalya_fmt_bounds:\n    .string \"Runtime error: index out of bounds\\n\"\nalya_str_bounds:\n    .string \"index out of bounds\"\nalya_fmt_arr_empty:\n    .string \"[]\\n\"\nalya_fmt_arr_open:\n    .string \"[\"\nalya_fmt_arr_close:\n    .string \"]\\n\"\nalya_fmt_arr_elem:\n");
        reveal_strlit("    .string \"%d\"\n");
        reveal_strlit("alya_fmt_arr_comma:\n    .string \", \"\n");
        reveal_strlit(".text\n");
    }
    {
        lemma_once_all(ps, "alya_str_buf:\n"@, 1, 0);
        lemma_once_all(ps, "alya_str_idx:\n"@, 2, 0);
        lemma_once_all(ps, "alya_catch_idx:\n"@, 2, 26);
        lemma_once_all(ps, "alya_catch_stack_handler:\n"@, 2, 54);
        lemma_once_all(ps, "alya_catch_stack_sp:\n"@, 2, 95);
        lemma_once_all(ps, "alya_catch_stack_bp:\n"@, 2, 131);
        lemma_once_all(ps, "alya_err_msg:\n"@, 2, 167);
        lemma_once_all(ps, "alya_fmt_prompt:\n"@, 3, 18);
        lemma_once_all(ps, "alya_fmt_div_zero:\n"@, 3, 52);
        lemma_once_all(ps, "alya_str_div_zero:\n"@, 3, 119);
        lemma_once_all(ps, "alya_fmt_bounds:\n"@, 3, 169);
        lemma_once_all(ps, "alya_str_bounds:\n"@, 3, 237);
        lemma_once_all(ps, "alya_fmt_arr_empty:\n"@, 3, 288);
        lemma_once_all(ps, "alya_fmt_arr_open:\n"@, 3, 327);
        lemma_once_all(ps, "alya_fmt_arr_close:\n"@, 3, 362);
        lemma_once_all(ps, "alya_fmt_arr_elem:\n"@, 3, 400);
        lemma_once_all(ps, "alya_fmt_arr_comma:\n"@, 5, 0);
        lemma_nowhere_all(ps, ".asciz"@);
    }
}

/// The label and `.asciz` facts of the data sections for Linux and Windows on the 64-bit targets.
#[verifier::rlimit(100)]
proof fn lemma_labels_other_wide(arch: Architecture, os: OperatingSystem)
    requires
        os != OperatingSystem::MacOS && arch != Architecture::X86,
    ensures
        occurs_once(data_sections(seq![], arch, os), "alya_str_buf:\n"@),
        occurs_once(data_sections(seq![], arch, os), "alya_str_idx:\n"@),
        occurs_once(data_sections(seq![], arch, os), "alya_catch_idx:\n"@),
        occurs_once(data_sections(seq![], arch, os), "alya_catch_stack_handler:\n"@),
        occurs_once(data_sections(seq![], arch, os), "alya_catch_stack_sp:\n"@),
        occurs_once(data_sections(seq![], arch, os), "alya_catch_stack_bp:\n"@),
        occurs_once(data_sections(seq![], arch, os), "alya_err_msg:\n"@),
        occurs_once(data_sections(seq![], arch, os), "alya_fmt_prompt:\n"@),
        occurs_once(data_sections(seq![], arch, os), "alya_fmt_div_zero:\n"@),
        occurs_once(data_sections(seq![], arch, os), "alya_str_div_zero:\n"@),
        occurs_once(data_sections(seq![], arch, os), "alya_fmt_bounds:\n"@),
        occurs_once(data_sections(seq![], arch, os), "alya_str_bounds:\n"@),
        occurs_once(data_sections(seq![], arch, os), "alya_fmt_arr_empty:\n"@),
        occurs_once(data_sections(seq![], arch, os), "alya_fmt_arr_open:\n"@),
        occurs_once(data_sections(seq![], arch, os), "alya_fmt_arr_close:\n"@),
        occurs_once(data_sections(seq![], arch, os), "alya_fmt_arr_elem:\n"@),
        occurs_once(data_sections(seq![], arch, os), "alya_fmt_arr_comma:\n"@),
        (exists|i: int| #[trigger] occurs_at(data_sections(seq![], arch, os), ".asciz"@, i)) == (os
            == OperatingSystem::MacOS),
{
    lemma_patterns_break_last();
    lemma_piece_0();
    lemma_piece_1();
    lemma_piece_2();
    lemma_piece_3();
    lemma_piece_4();
    lemma_piece_5();
    lemma_piece_6();
    lemma_piece_7();
    lemma_piece_8();
    lemma_piece_9();
    lemma_piece_10();
    lemma_piece_11();
    lemma_piece_12();
    lemma_piece_13();
    let ps = seq!["\n.section .bss\n.align 16\n"@, "alya_str_buf:\n    .space 65536\n"@, "alya_str_idx:\n    .quad 0\nalya_catch_idx:\n    .quad 0\nalya_catch_stack_handler:\n    .space 1024\nalya_catch_stack_sp:\n    .space 1024\nalya_catch_stack_bp:\n    .space 1024\nalya_err_msg:\n    .quad 0\n"@, "\n.section .rodata\nalya_fmt_prompt:\n    .string \"%s\"\nalya_fmt_div_zero:\n    .string \"Runtime error: division by zero\\n\"\nalya_str_div_zero:\n    .string \"division by zero\"\nalya_fmt_bounds:\n    .string \"Runtime error: index out of bounds\\n\"\nalya_str_bounds:\n    .string \"index out of bounds\"\nalya_fmt_arr_empty:\n    .string \"[]\\n\"\nalya_fmt_arr_open:\n    .string \"[\"\nalya_fmt_arr_close:\n    .string \"]\\n\"\nalya_fmt_arr_elem:\n"@, "    .string \"%ld\"\n"@, "alya_fmt_arr_comma:\n    .string \", \"\n"@, ".text\n"@];
    reveal_with_fuel(concat_all, 8);
    assert(data_sections(seq![], arch, os) =~= concat_all(ps));
    assert(lines_only(ps)) by {
        reveal_strlit("\n.section .bss\n.align 16\n");
        reveal_strlit("alya_str_buf:\n    .space 65536\n");
        reveal_strlit("alya_str_idx:\n    .quad 0\nalya_catch_idx:\n    .quad 0\nalya_catch_stack_handler:\n    .space 1024\nalya_catch_stack_sp:\n    .space 1024\nalya_catch_stack_bp:\n    .space 1024\nalya_err_msg:\n    .quad 0\n");
        reveal_strlit("\n.section .rodata\nalya_fmt_prompt:\n    .string \"%s\"\nalya_fmt_div_zero:\n    .string \"Runtime error: division by zero\\n\"\nalya_str_div_zero:\n    .string \"division by zero\"\nalya_fmt_bounds:\n    .string \"Runtime error: index out of bounds\\n\"\nalya_str_bounds:\n    .string \"index out of bounds\"\nalya_fmt_arr_empty:\n    .string \"[]\\n\"\nalya_fmt_arr_open:\n    .string \"[\"\nalya_fmt_arr_close:\n    .string \"]\\n\"\nalya_fmt_arr_elem:\n");
        reveal_strlit("    .string \"%ld\"\n");
        reveal_strlit("alya_fmt_arr_comma:\n    .string \", \"\n");
        reveal_strlit(".text\n");
    }
    {
        lemma_once_all(ps, "alya_str_buf:\n"@, 1, 0);
        lemma_once_all(ps, "alya_str_idx:\n"@, 2, 0);
        lemma_once_all(ps, "alya_catch_idx:\n"@, 2, 26);
        lemma_once_all(ps, "alya_catch_stack_handler:\n"@, 2, 54);
        lemma_once_all(ps, "alya_catch_stack_sp:\n"@, 2, 96);
        lemma_once_all(ps, "alya_catch_stack_bp:\n"@, 2, 133);
        lemma_once_all(ps, "alya_err_msg:\n"@, 2, 170);
        lemma_once_all(ps, "alya_fmt_prompt:\n"@, 3, 18);
        lemma_once_all(ps, "alya_fmt_div_zero:\n"@, 3, 52);
        lemma_once_all(ps, "alya_str_div_zero:\n"@, 3, 119);
        lemma_once_all(ps, "alya_fmt_bounds:\n"@, 3, 169);
        lemma_once_all(ps, "alya_str_bounds:\n"@, 3, 237);
        lemma_once_all(ps, "alya_fmt_arr_empty:\n"@, 3, 288);
        lemma_once_all(ps, "alya_fmt_arr_open:\n"@, 3, 327);
        lemma_once_all(ps, "alya_fmt_arr_close:\n"@, 3, 362);
        lemma_once_all(ps, "alya_fmt_arr_elem:\n"@, 3, 400);
        lemma_once_all(ps, "alya_fmt_arr_comma:\n"@, 5, 0);
        lemma_nowhere_all(ps, ".asciz"@);
    }
}

/// The data sections define each of their labels exactly once, and write
/// their strings with `.asciz` exactly on macOS.
pub proof fn lemma_data_sections_labels(arch: Architecture, os: OperatingSystem)
    ensures
        occurs_once(data_sections(seq![], arch, os), "alya_str_buf:\n"@),
        occurs_once(data_sections(seq![], arch, os), "alya_str_idx:\n"@),
        occurs_once(data_sections(seq![], arch, os), "alya_catch_idx:\n"@),
        occurs_once(data_sections(seq![], arch, os), "alya_catch_stack_handler:\n"@),
        occurs_once(data_sections(seq![], arch, os), "alya_catch_stack_sp:\n"@),
        occurs_once(data_sections(seq![], arch, os), "alya_catch_stack_bp:\n"@),
        occurs_once(data_sections(seq![], arch, os), "alya_err_msg:\n"@),
        occurs_once(data_sections(seq![], arch, os), "alya_fmt_prompt:\n"@),
        occurs_once(data_sections(seq![], arch, os), "alya_fmt_div_zero:\n"@),
        occurs_once(data_sections(seq![], arch, os), "alya_str_div_zero:\n"@),
        occurs_once(data_sections(seq![], arch, os), "alya_fmt_bounds:\n"@),
        occurs_once(data_sections(seq![], arch, os), "alya_str_bounds:\n"@),
        occurs_once(data_sections(seq![], arch, os), "alya_fmt_arr_empty:\n"@),
        occurs_once(data_sections(seq![], arch, os), "alya_fmt_arr_open:\n"@),
        occurs_once(data_sections(seq![], arch, os), "alya_fmt_arr_close:\n"@),
        occurs_once(data_sections(seq![], arch, os), "alya_fmt_arr_elem:\n"@),
        occurs_once(data_sections(seq![], arch, os), "alya_fmt_arr_comma:\n"@),
        (exists|i: int| #[trigger] occurs_at(data_sections(seq![], arch, os), ".asciz"@, i)) == (os
            == OperatingSystem::MacOS),
{
    if os == OperatingSystem::MacOS && arch == Architecture::X86 {
        lemma_labels_mac_x86(arch, os);
    } else if os == OperatingSystem::MacOS && arch != Architecture::X86 {
        lemma_labels_mac_wide(arch, os);
    } else if os != OperatingSystem::MacOS && arch == Architecture::X86 {
        lemma_labels_other_x86(arch, os);
    } else if os != OperatingSystem::MacOS && arch != Architecture::X86 {
        lemma_labels_other_wide(arch, os);
    }
}

/// The patterns of the labels, and `.asciz`, hold a line break at most at
/// their end.
proof fn lemma_patterns_break_last()
    ensures
        breaks_last("alya_str_buf:\n"@),
        breaks_last("alya_str_idx:\n"@),
        breaks_last("alya_catch_idx:\n"@),
        breaks_last("alya_catch_stack_handler:\n"@),
        breaks_last("alya_catch_stack_sp:\n"@),
        breaks_last("alya_catch_stack_bp:\n"@),
        breaks_last("alya_err_msg:\n"@),
        breaks_last("alya_fmt_prompt:\n"@),
        breaks_last("alya_fmt_div_zero:\n"@),
        breaks_last("alya_str_div_zero:\n"@),
        breaks_last("alya_fmt_bounds:\n"@),
        breaks_last("alya_str_bounds:\n"@),
        breaks_last("alya_fmt_arr_empty:\n"@),
        breaks_last("alya_fmt_arr_open:\n"@),
        breaks_last("alya_fmt_arr_close:\n"@),
        breaks_last("alya_fmt_arr_elem:\n"@),
        breaks_last("alya_fmt_arr_comma:\n"@),
        breaks_last(".asciz"@),
{
    reveal_strlit("alya_str_buf:\n");
    reveal_strlit("alya_str_idx:\n");
    reveal_strlit("alya_catch_idx:\n");
    reveal_strlit("alya_catch_stack_handler:\n");
    reveal_strlit("alya_catch_stack_sp:\n");
    reveal_strlit("alya_catch_stack_bp:\n");
    reveal_strlit("alya_err_msg:\n");
    reveal_strlit("alya_fmt_prompt:\n");
    reveal_strlit("alya_fmt_div_zero:\n");
    reveal_strlit("alya_str_div_zero:\n");
    reveal_strlit("alya_fmt_bounds:\n");
    reveal_strlit("alya_str_bounds:\n");
    reveal_strlit("alya_fmt_arr_empty:\n");
    reveal_strlit("alya_fmt_arr_open:\n");
    reveal_strlit("alya_fmt_arr_close:\n");
    reveal_strlit("alya_fmt_arr_elem:\n");
    reveal_strlit("alya_fmt_arr_comma:\n");
    reveal_strlit(".asciz");
}

} // verus!
