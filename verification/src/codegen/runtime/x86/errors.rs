use vstd::prelude::*;
use crate::codegen::target::{OperatingSystem, symbol_prefix, symbol_prefix_str};

verus! {

/// The x86 (32-bit) runtime error handlers, as assembly text after `prefix`.
pub open spec fn errors_routines(prefix: Seq<char>, os: OperatingSystem) -> Seq<char> {
    let s = prefix;
    let s = s + "fn_exit:\n    push %ebp\n    mov %esp, %ebp\n    push 8(%ebp)\n    call exit\n\n.global fn_throw\nfn_throw:\n    mov 4(%esp), %eax\n    mov %eax, alya_err_msg\n    mov alya_catch_idx, %ecx\n    test %ecx, %ecx\n    jz .L_x86_fatal_throw\n    dec %ecx\n    mov %ecx, alya_catch_idx\n    mov $alya_catch_stack_sp, %edx\n    mov (%edx, %ecx, 4), %esp\n    mov $alya_catch_stack_bp, %edx\n    mov (%edx, %ecx, 4), %ebp\n    mov $alya_catch_stack_handler, %edx\n    mov (%edx, %ecx, 4), %eax\n    jmp *%eax\n.L_x86_fatal_throw:\n    and $-16, %esp\n    push %eax\n    push $alya_fmt_runtime_err\n    call printf\n    push $0\n    call fflush\n    push $1\n    call exit\n\n.global fn_rethrow\nfn_rethrow:\n    mov alya_err_msg, %eax\n    test %eax, %eax\n    jnz .L_x86_rethrow_has_msg\n    mov $alya_str_unhandled_err, %eax\n.L_x86_rethrow_has_msg:\n    push %eax\n    call fn_throw\n\nalya_error_div_zero:\n    push $alya_str_div_zero\n    call fn_throw\n\nalya_error_index_out_of_bounds:\n    push $alya_str_bounds\n    call fn_throw\n\n.global fn_sleep\nfn_sleep:\n    push %ebp\n    mov %esp, %ebp\n    mov 8(%ebp), %eax\n"@;
    let s = if os == OperatingSystem::Windows {
        let s = s + "    push %eax\n    call Sleep\n"@;
        s
    } else {
        let s = s + "    imul $1000, %eax\n    push %eax\n    call usleep\n    add $4, %esp\n"@;
        s
    };
    let s = s + "    xor %eax, %eax\n    mov %ebp, %esp\n    pop %ebp\n    ret\n\n.global fn_system_exec\nfn_system_exec:\n    push %ebp\n    mov %esp, %ebp\n    mov 8(%ebp), %eax\n    test %eax, %eax\n    jz .L_x86_sysexec_empty\n    push %eax\n    call system\n    add $4, %esp\n    jmp .L_x86_sysexec_ret\n.L_x86_sysexec_empty:\n    xor %eax, %eax\n.L_x86_sysexec_ret:\n    mov %ebp, %esp\n    pop %ebp\n    ret\n\n"@;
    s
}

/// Appends the x86 (32-bit) runtime error handlers, as assembly text after `prefix`.
pub fn emit(out: &mut String, os: OperatingSystem)
    ensures
        final(out)@ == errors_routines(old(out)@, os),
{
    out.append("fn_exit:\n    push %ebp\n    mov %esp, %ebp\n    push 8(%ebp)\n    call exit\n\n.global fn_throw\nfn_throw:\n    mov 4(%esp), %eax\n    mov %eax, alya_err_msg\n    mov alya_catch_idx, %ecx\n    test %ecx, %ecx\n    jz .L_x86_fatal_throw\n    dec %ecx\n    mov %ecx, alya_catch_idx\n    mov $alya_catch_stack_sp, %edx\n    mov (%edx, %ecx, 4), %esp\n    mov $alya_catch_stack_bp, %edx\n    mov (%edx, %ecx, 4), %ebp\n    mov $alya_catch_stack_handler, %edx\n    mov (%edx, %ecx, 4), %eax\n    jmp *%eax\n.L_x86_fatal_throw:\n    and $-16, %esp\n    push %eax\n    push $alya_fmt_runtime_err\n    call printf\n    push $0\n    call fflush\n    push $1\n    call exit\n\n.global fn_rethrow\nfn_rethrow:\n    mov alya_err_msg, %eax\n    test %eax, %eax\n    jnz .L_x86_rethrow_has_msg\n    mov $alya_str_unhandled_err, %eax\n.L_x86_rethrow_has_msg:\n    push %eax\n    call fn_throw\n\nalya_error_div_zero:\n    push $alya_str_div_zero\n    call fn_throw\n\nalya_error_index_out_of_bounds:\n    push $alya_str_bounds\n    call fn_throw\n\n.global fn_sleep\nfn_sleep:\n    push %ebp\n    mov %esp, %ebp\n    mov 8(%ebp), %eax\n");
    if os == OperatingSystem::Windows {
        out.append("    push %eax\n    call Sleep\n");
    } else {
        out.append("    imul $1000, %eax\n    push %eax\n    call usleep\n    add $4, %esp\n");
    }
    out.append("    xor %eax, %eax\n    mov %ebp, %esp\n    pop %ebp\n    ret\n\n.global fn_system_exec\nfn_system_exec:\n    push %ebp\n    mov %esp, %ebp\n    mov 8(%ebp), %eax\n    test %eax, %eax\n    jz .L_x86_sysexec_empty\n    push %eax\n    call system\n    add $4, %esp\n    jmp .L_x86_sysexec_ret\n.L_x86_sysexec_empty:\n    xor %eax, %eax\n.L_x86_sysexec_ret:\n    mov %ebp, %esp\n    pop %ebp\n    ret\n\n");
}

/// The routines appended after any prefix do not depend on it.
#[verifier::rlimit(100)]
pub proof fn lemma_routines_append(prefix: Seq<char>, os: OperatingSystem)
    ensures
        errors_routines(prefix, os) == prefix + errors_routines(seq![], os),
{
    match os {
        OperatingSystem::Linux => {
            assert(errors_routines(prefix, os) =~= prefix + errors_routines(seq![], os));
        },
        OperatingSystem::Windows => {
            assert(errors_routines(prefix, os) =~= prefix + errors_routines(seq![], os));
        },
        OperatingSystem::MacOS => {
            assert(errors_routines(prefix, os) =~= prefix + errors_routines(seq![], os));
        },
    }
}

} // verus!
