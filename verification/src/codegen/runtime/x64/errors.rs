use vstd::prelude::*;
use crate::codegen::target::{OperatingSystem, symbol_prefix, symbol_prefix_str};

verus! {

/// The x64 runtime error handlers, as assembly text after `prefix`.
pub open spec fn errors_routines(prefix: Seq<char>, os: OperatingSystem) -> Seq<char> {
    let s = prefix;
    let s = s + "fn_exit:\n    push %rbp\n    mov %rsp, %rbp\n"@;
    let s = if os == OperatingSystem::Windows {
        let s = s + "    sub $32, %rsp\n    call exit\n"@;
        s
    } else {
        let s = s + "    sub $8, %rsp\n    call "@;
        let s = s + symbol_prefix(os);
        let s = s + "exit\n"@;
        s
    };
    let s = s + "alya_error_div_zero:\n    mov alya_catch_idx(%rip), %r8\n    test %r8, %r8\n    jz .L_x64_fatal_div_zero\n    dec %r8\n    mov %r8, alya_catch_idx(%rip)\n    lea alya_str_div_zero(%rip), %rax\n    mov %rax, alya_err_msg(%rip)\n    lea alya_catch_stack_sp(%rip), %r9\n    mov (%r9, %r8, 8), %rsp\n    lea alya_catch_stack_bp(%rip), %r9\n    mov (%r9, %r8, 8), %rbp\n    lea alya_catch_stack_handler(%rip), %r9\n    mov (%r9, %r8, 8), %r10\n    jmp *%r10\n.L_x64_fatal_div_zero:\n    and $-16, %rsp\n"@;
    let s = if os == OperatingSystem::Windows {
        let s = s + "    sub $32, %rsp\n    lea alya_fmt_div_zero(%rip), %rcx\n    call printf\n    mov $1, %rcx\n    call exit\n\n"@;
        s
    } else {
        let s = s + "    lea alya_fmt_div_zero(%rip), %rdi\n    xor %rax, %rax\n    call "@;
        let s = s + symbol_prefix(os);
        let s = s + "printf\n    mov $1, %rdi\n    call "@;
        let s = s + symbol_prefix(os);
        let s = s + "exit\n\n"@;
        s
    };
    let s = s + "alya_error_index_out_of_bounds:\n    mov alya_catch_idx(%rip), %r8\n    test %r8, %r8\n    jz .L_x64_fatal_bounds\n    dec %r8\n    mov %r8, alya_catch_idx(%rip)\n    lea alya_str_bounds(%rip), %rax\n    mov %rax, alya_err_msg(%rip)\n    lea alya_catch_stack_sp(%rip), %r9\n    mov (%r9, %r8, 8), %rsp\n    lea alya_catch_stack_bp(%rip), %r9\n    mov (%r9, %r8, 8), %rbp\n    lea alya_catch_stack_handler(%rip), %r9\n    mov (%r9, %r8, 8), %r10\n    jmp *%r10\n.L_x64_fatal_bounds:\n    and $-16, %rsp\n"@;
    let s = if os == OperatingSystem::Windows {
        let s = s + "    sub $32, %rsp\n    lea alya_fmt_bounds(%rip), %rcx\n    call printf\n    mov $1, %rcx\n    call exit\n\n"@;
        s
    } else {
        let s = s + "    lea alya_fmt_bounds(%rip), %rdi\n    xor %rax, %rax\n    call "@;
        let s = s + symbol_prefix(os);
        let s = s + "printf\n    mov $1, %rdi\n    call "@;
        let s = s + symbol_prefix(os);
        let s = s + "exit\n\n"@;
        s
    };
    let s = s + ".global fn_sleep\nfn_sleep:\n    push %rbp\n    mov %rsp, %rbp\n    sub $32, %rsp\n"@;
    let s = if os == OperatingSystem::Windows {
        let s = s + "    call Sleep\n"@;
        s
    } else {
        let s = s + "    imul $1000, %rdi, %rdi\n    call "@;
        let s = s + symbol_prefix(os);
        let s = s + "usleep\n"@;
        s
    };
    let s = s + "    xor %rax, %rax\n    add $32, %rsp\n    mov %rbp, %rsp\n    pop %rbp\n    ret\n\n.global fn_system_exec\nfn_system_exec:\n    push %rbp\n    mov %rsp, %rbp\n    sub $32, %rsp\n"@;
    let s = if os == OperatingSystem::Windows {
        let s = s + "    test %rcx, %rcx\n    jz .L_x64_sysexec_empty\n    call system\n"@;
        s
    } else {
        let s = s + "    test %rdi, %rdi\n    jz .L_x64_sysexec_empty\n    call "@;
        let s = s + symbol_prefix(os);
        let s = s + "system\n"@;
        s
    };
    let s = s + "    jmp .L_x64_sysexec_ret\n.L_x64_sysexec_empty:\n    xor %rax, %rax\n.L_x64_sysexec_ret:\n    add $32, %rsp\n    mov %rbp, %rsp\n    pop %rbp\n    ret\n\n"@;
    s
}

/// Appends the x64 runtime error handlers, as assembly text after `prefix`.
pub fn emit(out: &mut String, os: OperatingSystem)
    ensures
        final(out)@ == errors_routines(old(out)@, os),
{
    out.append("fn_exit:\n    push %rbp\n    mov %rsp, %rbp\n");
    if os == OperatingSystem::Windows {
        out.append("    sub $32, %rsp\n    call exit\n");
    } else {
        out.append("    sub $8, %rsp\n    call ");
        out.append(symbol_prefix_str(os));
        out.append("exit\n");
    }
    out.append("alya_error_div_zero:\n    mov alya_catch_idx(%rip), %r8\n    test %r8, %r8\n    jz .L_x64_fatal_div_zero\n    dec %r8\n    mov %r8, alya_catch_idx(%rip)\n    lea alya_str_div_zero(%rip), %rax\n    mov %rax, alya_err_msg(%rip)\n    lea alya_catch_stack_sp(%rip), %r9\n    mov (%r9, %r8, 8), %rsp\n    lea alya_catch_stack_bp(%rip), %r9\n    mov (%r9, %r8, 8), %rbp\n    lea alya_catch_stack_handler(%rip), %r9\n    mov (%r9, %r8, 8), %r10\n    jmp *%r10\n.L_x64_fatal_div_zero:\n    and $-16, %rsp\n");
    if os == OperatingSystem::Windows {
        out.append("    sub $32, %rsp\n    lea alya_fmt_div_zero(%rip), %rcx\n    call printf\n    mov $1, %rcx\n    call exit\n\n");
    } else {
        out.append("    lea alya_fmt_div_zero(%rip), %rdi\n    xor %rax, %rax\n    call ");
        out.append(symbol_prefix_str(os));
        out.append("printf\n    mov $1, %rdi\n    call ");
        out.append(symbol_prefix_str(os));
        out.append("exit\n\n");
    }
    out.append("alya_error_index_out_of_bounds:\n    mov alya_catch_idx(%rip), %r8\n    test %r8, %r8\n    jz .L_x64_fatal_bounds\n    dec %r8\n    mov %r8, alya_catch_idx(%rip)\n    lea alya_str_bounds(%rip), %rax\n    mov %rax, alya_err_msg(%rip)\n    lea alya_catch_stack_sp(%rip), %r9\n    mov (%r9, %r8, 8), %rsp\n    lea alya_catch_stack_bp(%rip), %r9\n    mov (%r9, %r8, 8), %rbp\n    lea alya_catch_stack_handler(%rip), %r9\n    mov (%r9, %r8, 8), %r10\n    jmp *%r10\n.L_x64_fatal_bounds:\n    and $-16, %rsp\n");
    if os == OperatingSystem::Windows {
        out.append("    sub $32, %rsp\n    lea alya_fmt_bounds(%rip), %rcx\n    call printf\n    mov $1, %rcx\n    call exit\n\n");
    } else {
        out.append("    lea alya_fmt_bounds(%rip), %rdi\n    xor %rax, %rax\n    call ");
        out.append(symbol_prefix_str(os));
        out.append("printf\n    mov $1, %rdi\n    call ");
        out.append(symbol_prefix_str(os));
        out.append("exit\n\n");
    }
    out.append(".global fn_sleep\nfn_sleep:\n    push %rbp\n    mov %rsp, %rbp\n    sub $32, %rsp\n");
    if os == OperatingSystem::Windows {
        out.append("    call Sleep\n");
    } else {
        out.append("    imul $1000, %rdi, %rdi\n    call ");
        out.append(symbol_prefix_str(os));
        out.append("usleep\n");
    }
    out.append("    xor %rax, %rax\n    add $32, %rsp\n    mov %rbp, %rsp\n    pop %rbp\n    ret\n\n.global fn_system_exec\nfn_system_exec:\n    push %rbp\n    mov %rsp, %rbp\n    sub $32, %rsp\n");
    if os == OperatingSystem::Windows {
        out.append("    test %rcx, %rcx\n    jz .L_x64_sysexec_empty\n    call system\n");
    } else {
        out.append("    test %rdi, %rdi\n    jz .L_x64_sysexec_empty\n    call ");
        out.append(symbol_prefix_str(os));
        out.append("system\n");
    }
    out.append("    jmp .L_x64_sysexec_ret\n.L_x64_sysexec_empty:\n    xor %rax, %rax\n.L_x64_sysexec_ret:\n    add $32, %rsp\n    mov %rbp, %rsp\n    pop %rbp\n    ret\n\n");
}

/// The routines appended after any prefix do not depend on it.
#[verifier::rlimit(100)]
pub proof fn lemma_routines_append(prefix: Seq<char>, os: OperatingSystem)
    ensures
        errors_routines(prefix, os) == prefix + errors_routines(seq![], os),
{
    match os {
        OperatingSystem::Linux => {
            assert(errors_routines(prefix, os) =~= prefix + errors_routines(seq![], os));
        },
        OperatingSystem::Windows => {
            assert(errors_routines(prefix, os) =~= prefix + errors_routines(seq![], os));
        },
        OperatingSystem::MacOS => {
            assert(errors_routines(prefix, os) =~= prefix + errors_routines(seq![], os));
        },
    }
}

} // verus!
