use vstd::prelude::*;
use crate::codegen::target::{OperatingSystem, symbol_prefix, symbol_prefix_str};

verus! {

/// The core x64 string, arithmetic and input routines, as assembly text after `prefix`.
pub open spec fn core_routines(prefix: Seq<char>, os: OperatingSystem) -> Seq<char> {
    let s = prefix;
    let s = s + "alya_concat:\n    push %rsi\n    push %rdi\n    push %rbx\n"@;
    let s = if os == OperatingSystem::Windows {
        let s = s + "    mov %rcx, %rsi\n    mov %rdx, %r10\n"@;
        s
    } else {
        let s = s + "    mov %rsi, %r10\n    mov %rdi, %rsi\n"@;
        s
    };
    let s = s + "    lea alya_str_buf(%rip), %r8\n    mov alya_str_idx(%rip), %rbx\n    cmp $48000, %rbx\n    jl .L_x64_concat_ok\n    xor %rbx, %rbx\n.L_x64_concat_ok:\n    lea (%r8, %rbx), %rdi\n    mov %rdi, %rax\n.L_x64_copy1:\n    movb (%rsi), %cl\n    test %cl, %cl\n    jz .L_x64_copy2_start\n    movb %cl, (%rdi)\n    inc %rsi\n    inc %rdi\n    jmp .L_x64_copy1\n.L_x64_copy2_start:\n    mov %r10, %rsi\n.L_x64_copy2:\n    movb (%rsi), %cl\n    test %cl, %cl\n    jz .L_x64_concat_end\n    movb %cl, (%rdi)\n    inc %rsi\n    inc %rdi\n    jmp .L_x64_copy2\n.L_x64_concat_end:\n    movb $0, (%rdi)\n    inc %rdi\n    sub %r8, %rdi\n    add $7, %rdi\n    and $-8, %rdi\n    mov %rdi, alya_str_idx(%rip)\n    pop %rbx\n    pop %rdi\n    pop %rsi\n    ret\n\nfn_len:\n    push %rbp\n    mov %rsp, %rbp\n"@;
    let s = if os == OperatingSystem::Windows {
        let s = s + "    mov %rcx, %rdi\n"@;
        s
    } else {
        s
    };
    let s = s + "    xor %rax, %rax\n.L_x64_len_loop:\n    cmpb $0, (%rdi, %rax)\n    je .L_x64_len_end\n    inc %rax\n    jmp .L_x64_len_loop\n.L_x64_len_end:\n    mov %rbp, %rsp\n    pop %rbp\n    ret\n\nfn_abs:\n    push %rbp\n    mov %rsp, %rbp\n"@;
    let s = if os == OperatingSystem::Windows {
        let s = s + "    mov %rcx, %rax\n"@;
        s
    } else {
        let s = s + "    mov %rdi, %rax\n"@;
        s
    };
    let s = s + "    test %rax, %rax\n    jns .L_x64_abs_end\n    neg %rax\n.L_x64_abs_end:\n    mov %rbp, %rsp\n    pop %rbp\n    ret\n\nfn_min:\n    push %rbp\n    mov %rsp, %rbp\n"@;
    let s = if os == OperatingSystem::Windows {
        let s = s + "    mov %rcx, %rax\n    cmp %rdx, %rax\n    jle .L_x64_min_end\n    mov %rdx, %rax\n"@;
        s
    } else {
        let s = s + "    mov %rdi, %rax\n    cmp %rsi, %rax\n    jle .L_x64_min_end\n    mov %rsi, %rax\n"@;
        s
    };
    let s = s + ".L_x64_min_end:\n    mov %rbp, %rsp\n    pop %rbp\n    ret\n\nfn_max:\n    push %rbp\n    mov %rsp, %rbp\n"@;
    let s = if os == OperatingSystem::Windows {
        let s = s + "    mov %rcx, %rax\n    cmp %rdx, %rax\n    jge .L_x64_max_end\n    mov %rdx, %rax\n"@;
        s
    } else {
        let s = s + "    mov %rdi, %rax\n    cmp %rsi, %rax\n    jge .L_x64_max_end\n    mov %rsi, %rax\n"@;
        s
    };
    let s = s + ".L_x64_max_end:\n    mov %rbp, %rsp\n    pop %rbp\n    ret\n\nfn_exit:\n    push %rbp\n    mov %rsp, %rbp\n"@;
    let s = if os == OperatingSystem::Windows {
        let s = s + "    sub $32, %rsp\n    call exit\n"@;
        s
    } else {
        let s = s + "    sub $8, %rsp\n    call exit\n"@;
        s
    };
    let s = s + "fn_ask:\n    push %rbp\n    mov %rsp, %rbp\n    push %rbx\n    push %rsi\n    push %rdi\n    push %r12\n    sub $48, %rsp\n"@;
    let s = if os == OperatingSystem::Windows {
        let s = s + "    mov %rcx, %rdi\n    test %rdi, %rdi\n    jz .L_x64_ask_read\n    lea alya_fmt_prompt(%rip), %rcx\n    mov %rdi, %rdx\n    call printf\n    xor %rcx, %rcx\n    call fflush\n"@;
        s
    } else {
        let s = s + "    test %rdi, %rdi\n    jz .L_x64_ask_read\n    mov %rdi, %rsi\n    lea alya_fmt_prompt(%rip), %rdi\n    xor %rax, %rax\n    call printf\n    xor %rdi, %rdi\n    call fflush\n"@;
        s
    };
    let s = s + ".L_x64_ask_read:\n    lea alya_str_buf(%rip), %rbx\n    mov alya_str_idx(%rip), %rsi\n    cmp $48000, %rsi\n    jl .L_x64_ask_buf_ok\n    xor %rsi, %rsi\n.L_x64_ask_buf_ok:\n    lea (%rbx, %rsi), %r12\n    mov %r12, %rdi\n.L_x64_ask_loop:\n    call getchar\n    cmp $-1, %rax\n    je .L_x64_ask_done\n    cmp $10, %rax\n    je .L_x64_ask_done\n    cmp $13, %rax\n    je .L_x64_ask_loop\n    movb %al, (%rdi)\n    inc %rdi\n    jmp .L_x64_ask_loop\n.L_x64_ask_done:\n    movb $0, (%rdi)\n    inc %rdi\n    sub %rbx, %rdi\n    add $7, %rdi\n    and $-8, %rdi\n    mov %rdi, alya_str_idx(%rip)\n    mov %r12, %rax\n    add $48, %rsp\n    pop %r12\n    pop %rdi\n    pop %rsi\n    pop %rbx\n    mov %rbp, %rsp\n    pop %rbp\n    ret\n\nalya_error_div_zero:\n    mov alya_catch_idx(%rip), %r8\n    test %r8, %r8\n    jz .L_x64_fatal_div_zero\n    dec %r8\n    mov %r8, alya_catch_idx(%rip)\n    lea alya_str_div_zero(%rip), %rax\n    mov %rax, alya_err_msg(%rip)\n    lea alya_catch_stack_sp(%rip), %r9\n    mov (%r9, %r8, 8), %rsp\n    lea alya_catch_stack_bp(%rip), %r9\n    mov (%r9, %r8, 8), %rbp\n    lea alya_catch_stack_handler(%rip), %r9\n    mov (%r9, %r8, 8), %r10\n    jmp *%r10\n.L_x64_fatal_div_zero:\n    and $-16, %rsp\n"@;
    let s = if os == OperatingSystem::Windows {
        let s = s + "    sub $32, %rsp\n    lea alya_fmt_div_zero(%rip), %rcx\n    call printf\n    mov $1, %rcx\n    call exit\n\n"@;
        s
    } else {
        let s = s + "    lea alya_fmt_div_zero(%rip), %rdi\n    xor %rax, %rax\n    call printf\n    mov $1, %rdi\n    call exit\n\n"@;
        s
    };
    s
}

/// Appends the core x64 string, arithmetic and input routines, as assembly text after `prefix`.
pub fn emit_x64_runtime(out: &mut String, os: OperatingSystem)
    ensures
        final(out)@ == core_routines(old(out)@, os),
{
    out.append("alya_concat:\n    push %rsi\n    push %rdi\n    push %rbx\n");
    if os == OperatingSystem::Windows {
        out.append("    mov %rcx, %rsi\n    mov %rdx, %r10\n");
    } else {
        out.append("    mov %rsi, %r10\n    mov %rdi, %rsi\n");
    }
    out.append("    lea alya_str_buf(%rip), %r8\n    mov alya_str_idx(%rip), %rbx\n    cmp $48000, %rbx\n    jl .L_x64_concat_ok\n    xor %rbx, %rbx\n.L_x64_concat_ok:\n    lea (%r8, %rbx), %rdi\n    mov %rdi, %rax\n.L_x64_copy1:\n    movb (%rsi), %cl\n    test %cl, %cl\n    jz .L_x64_copy2_start\n    movb %cl, (%rdi)\n    inc %rsi\n    inc %rdi\n    jmp .L_x64_copy1\n.L_x64_copy2_start:\n    mov %r10, %rsi\n.L_x64_copy2:\n    movb (%rsi), %cl\n    test %cl, %cl\n    jz .L_x64_concat_end\n    movb %cl, (%rdi)\n    inc %rsi\n    inc %rdi\n    jmp .L_x64_copy2\n.L_x64_concat_end:\n    movb $0, (%rdi)\n    inc %rdi\n    sub %r8, %rdi\n    add $7, %rdi\n    and $-8, %rdi\n    mov %rdi, alya_str_idx(%rip)\n    pop %rbx\n    pop %rdi\n    pop %rsi\n    ret\n\nfn_len:\n    push %rbp\n    mov %rsp, %rbp\n");
    if os == OperatingSystem::Windows {
        out.append("    mov %rcx, %rdi\n");
    }
    out.append("    xor %rax, %rax\n.L_x64_len_loop:\n    cmpb $0, (%rdi, %rax)\n    je .L_x64_len_end\n    inc %rax\n    jmp .L_x64_len_loop\n.L_x64_len_end:\n    mov %rbp, %rsp\n    pop %rbp\n    ret\n\nfn_abs:\n    push %rbp\n    mov %rsp, %rbp\n");
    if os == OperatingSystem::Windows {
        out.append("    mov %rcx, %rax\n");
    } else {
        out.append("    mov %rdi, %rax\n");
    }
    out.append("    test %rax, %rax\n    jns .L_x64_abs_end\n    neg %rax\n.L_x64_abs_end:\n    mov %rbp, %rsp\n    pop %rbp\n    ret\n\nfn_min:\n    push %rbp\n    mov %rsp, %rbp\n");
    if os == OperatingSystem::Windows {
        out.append("    mov %rcx, %rax\n    cmp %rdx, %rax\n    jle .L_x64_min_end\n    mov %rdx, %rax\n");
    } else {
        out.append("    mov %rdi, %rax\n    cmp %rsi, %rax\n    jle .L_x64_min_end\n    mov %rsi, %rax\n");
    }
    out.append(".L_x64_min_end:\n    mov %rbp, %rsp\n    pop %rbp\n    ret\n\nfn_max:\n    push %rbp\n    mov %rsp, %rbp\n");
    if os == OperatingSystem::Windows {
        out.append("    mov %rcx, %rax\n    cmp %rdx, %rax\n    jge .L_x64_max_end\n    mov %rdx, %rax\n");
    } else {
        out.append("    mov %rdi, %rax\n    cmp %rsi, %rax\n    jge .L_x64_max_end\n    mov %rsi, %rax\n");
    }
    out.append(".L_x64_max_end:\n    mov %rbp, %rsp\n    pop %rbp\n    ret\n\nfn_exit:\n    push %rbp\n    mov %rsp, %rbp\n");
    if os == OperatingSystem::Windows {
        out.append("    sub $32, %rsp\n    call exit\n");
    } else {
        out.append("    sub $8, %rsp\n    call exit\n");
    }
    out.append("fn_ask:\n    push %rbp\n    mov %rsp, %rbp\n    push %rbx\n    push %rsi\n    push %rdi\n    push %r12\n    sub $48, %rsp\n");
    if os == OperatingSystem::Windows {
        out.append("    mov %rcx, %rdi\n    test %rdi, %rdi\n    jz .L_x64_ask_read\n    lea alya_fmt_prompt(%rip), %rcx\n    mov %rdi, %rdx\n    call printf\n    xor %rcx, %rcx\n    call fflush\n");
    } else {
        out.append("    test %rdi, %rdi\n    jz .L_x64_ask_read\n    mov %rdi, %rsi\n    lea alya_fmt_prompt(%rip), %rdi\n    xor %rax, %rax\n    call printf\n    xor %rdi, %rdi\n    call fflush\n");
    }
    out.append(".L_x64_ask_read:\n    lea alya_str_buf(%rip), %rbx\n    mov alya_str_idx(%rip), %rsi\n    cmp $48000, %rsi\n    jl .L_x64_ask_buf_ok\n    xor %rsi, %rsi\n.L_x64_ask_buf_ok:\n    lea (%rbx, %rsi), %r12\n    mov %r12, %rdi\n.L_x64_ask_loop:\n    call getchar\n    cmp $-1, %rax\n    je .L_x64_ask_done\n    cmp $10, %rax\n    je .L_x64_ask_done\n    cmp $13, %rax\n    je .L_x64_ask_loop\n    movb %al, (%rdi)\n    inc %rdi\n    jmp .L_x64_ask_loop\n.L_x64_ask_done:\n    movb $0, (%rdi)\n    inc %rdi\n    sub %rbx, %rdi\n    add $7, %rdi\n    and $-8, %rdi\n    mov %rdi, alya_str_idx(%rip)\n    mov %r12, %rax\n    add $48, %rsp\n    pop %r12\n    pop %rdi\n    pop %rsi\n    pop %rbx\n    mov %rbp, %rsp\n    pop %rbp\n    ret\n\nalya_error_div_zero:\n    mov alya_catch_idx(%rip), %r8\n    test %r8, %r8\n    jz .L_x64_fatal_div_zero\n    dec %r8\n    mov %r8, alya_catch_idx(%rip)\n    lea alya_str_div_zero(%rip), %rax\n    mov %rax, alya_err_msg(%rip)\n    lea alya_catch_stack_sp(%rip), %r9\n    mov (%r9, %r8, 8), %rsp\n    lea alya_catch_stack_bp(%rip), %r9\n    mov (%r9, %r8, 8), %rbp\n    lea alya_catch_stack_handler(%rip), %r9\n    mov (%r9, %r8, 8), %r10\n    jmp *%r10\n.L_x64_fatal_div_zero:\n    and $-16, %rsp\n");
    if os == OperatingSystem::Windows {
        out.append("    sub $32, %rsp\n    lea alya_fmt_div_zero(%rip), %rcx\n    call printf\n    mov $1, %rcx\n    call exit\n\n");
    } else {
        out.append("    lea alya_fmt_div_zero(%rip), %rdi\n    xor %rax, %rax\n    call printf\n    mov $1, %rdi\n    call exit\n\n");
    }
}

} // verus!
