use vstd::prelude::*;
use crate::codegen::target::{OperatingSystem, symbol_prefix, symbol_prefix_str};

verus! {

/// The x64 string splitting routines, as assembly text after `prefix`.
pub open spec fn str_split_routines(prefix: Seq<char>, os: OperatingSystem) -> Seq<char> {
    let s = prefix;
    let s = s + "fn_contains:\n    push %rbp\n    mov %rsp, %rbp\n    push %rsi\n    push %rdi\n"@;
    let s = if os == OperatingSystem::Windows {
        let s = s + "    mov %rcx, %rdi\n    mov %rdx, %rsi\n"@;
        s
    } else {
        s
    };
    let s = s + "    cmpb $0, (%rsi)\n    je .L_x64_contains_match\n.L_x64_contains_outer:\n    cmpb $0, (%rdi)\n    je .L_x64_contains_nomatch\n    mov %rdi, %rax\n    mov %rsi, %rdx\n.L_x64_contains_inner:\n    movb (%rdx), %cl\n    test %cl, %cl\n    jz .L_x64_contains_match\n    movb (%rax), %r8b\n    cmp %r8b, %cl\n    jne .L_x64_contains_next\n    inc %rax\n    inc %rdx\n    jmp .L_x64_contains_inner\n.L_x64_contains_next:\n    inc %rdi\n    jmp .L_x64_contains_outer\n.L_x64_contains_match:\n    mov $1, %rax\n    jmp .L_x64_contains_end\n.L_x64_contains_nomatch:\n    xor %rax, %rax\n.L_x64_contains_end:\n    pop %rdi\n    pop %rsi\n    mov %rbp, %rsp\n    pop %rbp\n    ret\n\n.global fn_join\nfn_join:\n    push %rbp\n    mov %rsp, %rbp\n    push %rsi\n    push %rdi\n    push %rbx\n    push %r12\n    push %r13\n    push %r14\n    push %r15\n    sub $24, %rsp\n"@;
    let s = if os == OperatingSystem::Windows {
        let s = s + "    movq %rcx, %r12\n    movq %rdx, %r13\n"@;
        s
    } else {
        let s = s + "    movq %rdi, %r12\n    movq %rsi, %r13\n"@;
        s
    };
    let s = s + "    testq %r12, %r12\n    jz .L_x64_join_empty\n    movq (%r12), %rax\n    testq %rax, %rax\n    jz .L_x64_join_empty\n    lea alya_str_buf(%rip), %r8\n    movq alya_str_idx(%rip), %rbx\n    cmpq $950000, %rbx\n    jl .L_x64_join_buf_ok\n    xorq %rbx, %rbx\n.L_x64_join_buf_ok:\n    lea (%r8, %rbx), %rdi\n    movq %rdi, %r14\n    xorq %r15, %r15\n.L_x64_join_loop:\n    cmpq (%r12), %r15\n    jge .L_x64_join_finish\n    testq %r15, %r15\n    jz .L_x64_join_copy_elem\n    movq %r13, %rsi\n.L_x64_join_copy_delim:\n    movb (%rsi), %al\n    testb %al, %al\n    jz .L_x64_join_copy_elem\n    movb %al, (%rdi)\n    incq %rsi\n    incq %rdi\n    jmp .L_x64_join_copy_delim\n.L_x64_join_copy_elem:\n    movq 16(%r12), %rsi\n    movq (%rsi, %r15, 8), %rsi\n.L_x64_join_copy_elem_loop:\n    movb (%rsi), %al\n    testb %al, %al\n    jz .L_x64_join_elem_done\n    movb %al, (%rdi)\n    incq %rsi\n    incq %rdi\n    jmp .L_x64_join_copy_elem_loop\n.L_x64_join_elem_done:\n    incq %r15\n    jmp .L_x64_join_loop\n.L_x64_join_finish:\n    movb $0, (%rdi)\n    incq %rdi\n    subq %r8, %rdi\n    addq $7, %rdi\n    andq $-8, %rdi\n    movq %rdi, alya_str_idx(%rip)\n    movq %r14, %rax\n    jmp .L_x64_join_ret\n.L_x64_join_empty:\n    lea alya_str_empty(%rip), %rax\n.L_x64_join_ret:\n    addq $24, %rsp\n    pop %r15\n    pop %r14\n    pop %r13\n    pop %r12\n    pop %rbx\n    pop %rdi\n    pop %rsi\n    mov %rbp, %rsp\n    pop %rbp\n    ret\n\n.global fn_split\nfn_split:\n    push %rbp\n    mov %rsp, %rbp\n    push %rsi\n    push %rdi\n    push %rbx\n    push %r12\n    push %r13\n    push %r14\n    push %r15\n    sub $56, %rsp\n"@;
    let s = if os == OperatingSystem::Windows {
        let s = s + "    movq %rcx, %r12\n    movq %rdx, %r13\n    xorq %rcx, %rcx\n    call alya_array_new\n"@;
        s
    } else {
        let s = s + "    movq %rdi, %r12\n    movq %rsi, %r13\n    xorq %rdi, %rdi\n    call alya_array_new\n"@;
        s
    };
    let s = s + "    movq %rax, %r14\n    movq %r13, %rsi\n    xorq %r15, %r15\n.L_x64_split_dlen_loop:\n    cmpb $0, (%rsi, %r15)\n    je .L_x64_split_dlen_done\n    incq %r15\n    jmp .L_x64_split_dlen_loop\n.L_x64_split_dlen_done:\n    testq %r15, %r15\n    jnz .L_x64_split_non_empty_delim\n    movq %r12, 32(%rsp)\n.L_x64_split_empty_loop:\n    movq 32(%rsp), %rsi\n    movb (%rsi), %al\n    testb %al, %al\n    jz .L_x64_split_ret\n    lea alya_str_buf(%rip), %r8\n    movq alya_str_idx(%rip), %rbx\n    cmpq $950000, %rbx\n    jl .L_x64_se1\n    xorq %rbx, %rbx\n.L_x64_se1:\n    lea (%r8, %rbx), %rdi\n    movq %rdi, %r10\n    movb %al, (%rdi)\n    movb $0, 1(%rdi)\n    addq $2, %rdi\n    subq %r8, %rdi\n    addq $7, %rdi\n    andq $-8, %rdi\n    movq %rdi, alya_str_idx(%rip)\n"@;
    let s = if os == OperatingSystem::Windows {
        let s = s + "    movq %r14, %rcx\n    movq %r10, %rdx\n    call alya_array_push\n"@;
        s
    } else {
        let s = s + "    movq %r14, %rdi\n    movq %r10, %rsi\n    call alya_array_push\n"@;
        s
    };
    let s = s + "    incq 32(%rsp)\n    jmp .L_x64_split_empty_loop\n.L_x64_split_non_empty_delim:\n    movq %r12, 32(%rsp)\n    movq %r12, 40(%rsp)\n.L_x64_split_main_loop:\n    movq 32(%rsp), %rsi\n    cmpb $0, (%rsi)\n    je .L_x64_split_emit_final\n    movq %r13, %rdx\n    xorq %rbx, %rbx\n.L_x64_split_cmp_loop:\n    cmpq %r15, %rbx\n    jge .L_x64_split_matched\n    movb (%rdx, %rbx), %al\n    cmpb %al, (%rsi, %rbx)\n    jne .L_x64_split_cmp_fail\n    incq %rbx\n    jmp .L_x64_split_cmp_loop\n.L_x64_split_cmp_fail:\n    incq 32(%rsp)\n    jmp .L_x64_split_main_loop\n.L_x64_split_matched:\n    lea alya_str_buf(%rip), %r8\n    movq alya_str_idx(%rip), %rbx\n    cmpq $950000, %rbx\n    jl .L_x64_se2\n    xorq %rbx, %rbx\n.L_x64_se2:\n    lea (%r8, %rbx), %rdi\n    movq %rdi, 48(%rsp)\n    movq 40(%rsp), %rsi\n    movq 32(%rsp), %rdx\n.L_x64_split_tok_copy:\n    cmpq %rdx, %rsi\n    jge .L_x64_split_tok_done\n    movb (%rsi), %al\n    movb %al, (%rdi)\n    incq %rsi\n    incq %rdi\n    jmp .L_x64_split_tok_copy\n.L_x64_split_tok_done:\n    movb $0, (%rdi)\n    incq %rdi\n    subq %r8, %rdi\n    addq $7, %rdi\n    andq $-8, %rdi\n    movq %rdi, alya_str_idx(%rip)\n"@;
    let s = if os == OperatingSystem::Windows {
        let s = s + "    movq %r14, %rcx\n    movq 48(%rsp), %rdx\n    call alya_array_push\n"@;
        s
    } else {
        let s = s + "    movq %r14, %rdi\n    movq 48(%rsp), %rsi\n    call alya_array_push\n"@;
        s
    };
    let s = s + "    addq %r15, 32(%rsp)\n    movq 32(%rsp), %rax\n    movq %rax, 40(%rsp)\n    jmp .L_x64_split_main_loop\n.L_x64_split_emit_final:\n    lea alya_str_buf(%rip), %r8\n    movq alya_str_idx(%rip), %rbx\n    cmpq $950000, %rbx\n    jl .L_x64_se3\n    xorq %rbx, %rbx\n.L_x64_se3:\n    lea (%r8, %rbx), %rdi\n    movq %rdi, 48(%rsp)\n    movq 40(%rsp), %rsi\n    movq 32(%rsp), %rdx\n.L_x64_split_final_copy:\n    cmpq %rdx, %rsi\n    jge .L_x64_split_final_done\n    movb (%rsi), %al\n    movb %al, (%rdi)\n    incq %rsi\n    incq %rdi\n    jmp .L_x64_split_final_copy\n.L_x64_split_final_done:\n    movb $0, (%rdi)\n    incq %rdi\n    subq %r8, %rdi\n    addq $7, %rdi\n    andq $-8, %rdi\n    movq %rdi, alya_str_idx(%rip)\n"@;
    let s = if os == OperatingSystem::Windows {
        let s = s + "    movq %r14, %rcx\n    movq 48(%rsp), %rdx\n    call alya_array_push\n"@;
        s
    } else {
        let s = s + "    movq %r14, %rdi\n    movq 48(%rsp), %rsi\n    call alya_array_push\n"@;
        s
    };
    let s = s + ".L_x64_split_ret:\n    movq %r14, %rax\n    addq $56, %rsp\n    pop %r15\n    pop %r14\n    pop %r13\n    pop %r12\n    pop %rbx\n    pop %rdi\n    pop %rsi\n    mov %rbp, %rsp\n    pop %rbp\n    ret\n\n"@;
    s
}

/// Appends the x64 string splitting routines, as assembly text after `prefix`.
pub fn emit(out: &mut String, os: OperatingSystem)
    ensures
        final(out)@ == str_split_routines(old(out)@, os),
{
    out.append("fn_contains:\n    push %rbp\n    mov %rsp, %rbp\n    push %rsi\n    push %rdi\n");
    if os == OperatingSystem::Windows {
        out.append("    mov %rcx, %rdi\n    mov %rdx, %rsi\n");
    }
    out.append("    cmpb $0, (%rsi)\n    je .L_x64_contains_match\n.L_x64_contains_outer:\n    cmpb $0, (%rdi)\n    je .L_x64_contains_nomatch\n    mov %rdi, %rax\n    mov %rsi, %rdx\n.L_x64_contains_inner:\n    movb (%rdx), %cl\n    test %cl, %cl\n    jz .L_x64_contains_match\n    movb (%rax), %r8b\n    cmp %r8b, %cl\n    jne .L_x64_contains_next\n    inc %rax\n    inc %rdx\n    jmp .L_x64_contains_inner\n.L_x64_contains_next:\n    inc %rdi\n    jmp .L_x64_contains_outer\n.L_x64_contains_match:\n    mov $1, %rax\n    jmp .L_x64_contains_end\n.L_x64_contains_nomatch:\n    xor %rax, %rax\n.L_x64_contains_end:\n    pop %rdi\n    pop %rsi\n    mov %rbp, %rsp\n    pop %rbp\n    ret\n\n.global fn_join\nfn_join:\n    push %rbp\n    mov %rsp, %rbp\n    push %rsi\n    push %rdi\n    push %rbx\n    push %r12\n    push %r13\n    push %r14\n    push %r15\n    sub $24, %rsp\n");
    if os == OperatingSystem::Windows {
        out.append("    movq %rcx, %r12\n    movq %rdx, %r13\n");
    } else {
        out.append("    movq %rdi, %r12\n    movq %rsi, %r13\n");
    }
    out.append("    testq %r12, %r12\n    jz .L_x64_join_empty\n    movq (%r12), %rax\n    testq %rax, %rax\n    jz .L_x64_join_empty\n    lea alya_str_buf(%rip), %r8\n    movq alya_str_idx(%rip), %rbx\n    cmpq $950000, %rbx\n    jl .L_x64_join_buf_ok\n    xorq %rbx, %rbx\n.L_x64_join_buf_ok:\n    lea (%r8, %rbx), %rdi\n    movq %rdi, %r14\n    xorq %r15, %r15\n.L_x64_join_loop:\n    cmpq (%r12), %r15\n    jge .L_x64_join_finish\n    testq %r15, %r15\n    jz .L_x64_join_copy_elem\n    movq %r13, %rsi\n.L_x64_join_copy_delim:\n    movb (%rsi), %al\n    testb %al, %al\n    jz .L_x64_join_copy_elem\n    movb %al, (%rdi)\n    incq %rsi\n    incq %rdi\n    jmp .L_x64_join_copy_delim\n.L_x64_join_copy_elem:\n    movq 16(%r12), %rsi\n    movq (%rsi, %r15, 8), %rsi\n.L_x64_join_copy_elem_loop:\n    movb (%rsi), %al\n    testb %al, %al\n    jz .L_x64_join_elem_done\n    movb %al, (%rdi)\n    incq %rsi\n    incq %rdi\n    jmp .L_x64_join_copy_elem_loop\n.L_x64_join_elem_done:\n    incq %r15\n    jmp .L_x64_join_loop\n.L_x64_join_finish:\n    movb $0, (%rdi)\n    incq %rdi\n    subq %r8, %rdi\n    addq $7, %rdi\n    andq $-8, %rdi\n    movq %rdi, alya_str_idx(%rip)\n    movq %r14, %rax\n    jmp .L_x64_join_ret\n.L_x64_join_empty:\n    lea alya_str_empty(%rip), %rax\n.L_x64_join_ret:\n    addq $24, %rsp\n    pop %r15\n    pop %r14\n    pop %r13\n    pop %r12\n    pop %rbx\n    pop %rdi\n    pop %rsi\n    mov %rbp, %rsp\n    pop %rbp\n    ret\n\n.global fn_split\nfn_split:\n    push %rbp\n    mov %rsp, %rbp\n    push %rsi\n    push %rdi\n    push %rbx\n    push %r12\n    push %r13\n    push %r14\n    push %r15\n    sub $56, %rsp\n");
    if os == OperatingSystem::Windows {
        out.append("    movq %rcx, %r12\n    movq %rdx, %r13\n    xorq %rcx, %rcx\n    call alya_array_new\n");
    } else {
        out.append("    movq %rdi, %r12\n    movq %rsi, %r13\n    xorq %rdi, %rdi\n    call alya_array_new\n");
    }
    out.append("    movq %rax, %r14\n    movq %r13, %rsi\n    xorq %r15, %r15\n.L_x64_split_dlen_loop:\n    cmpb $0, (%rsi, %r15)\n    je .L_x64_split_dlen_done\n    incq %r15\n    jmp .L_x64_split_dlen_loop\n.L_x64_split_dlen_done:\n    testq %r15, %r15\n    jnz .L_x64_split_non_empty_delim\n    movq %r12, 32(%rsp)\n.L_x64_split_empty_loop:\n    movq 32(%rsp), %rsi\n    movb (%rsi), %al\n    testb %al, %al\n    jz .L_x64_split_ret\n    lea alya_str_buf(%rip), %r8\n    movq alya_str_idx(%rip), %rbx\n    cmpq $950000, %rbx\n    jl .L_x64_se1\n    xorq %rbx, %rbx\n.L_x64_se1:\n    lea (%r8, %rbx), %rdi\n    movq %rdi, %r10\n    movb %al, (%rdi)\n    movb $0, 1(%rdi)\n    addq $2, %rdi\n    subq %r8, %rdi\n    addq $7, %rdi\n    andq $-8, %rdi\n    movq %rdi, alya_str_idx(%rip)\n");
    if os == OperatingSystem::Windows {
        out.append("    movq %r14, %rcx\n    movq %r10, %rdx\n    call alya_array_push\n");
    } else {
        out.append("    movq %r14, %rdi\n    movq %r10, %rsi\n    call alya_array_push\n");
    }
    out.append("    incq 32(%rsp)\n    jmp .L_x64_split_empty_loop\n.L_x64_split_non_empty_delim:\n    movq %r12, 32(%rsp)\n    movq %r12, 40(%rsp)\n.L_x64_split_main_loop:\n    movq 32(%rsp), %rsi\n    cmpb $0, (%rsi)\n    je .L_x64_split_emit_final\n    movq %r13, %rdx\n    xorq %rbx, %rbx\n.L_x64_split_cmp_loop:\n    cmpq %r15, %rbx\n    jge .L_x64_split_matched\n    movb (%rdx, %rbx), %al\n    cmpb %al, (%rsi, %rbx)\n    jne .L_x64_split_cmp_fail\n    incq %rbx\n    jmp .L_x64_split_cmp_loop\n.L_x64_split_cmp_fail:\n    incq 32(%rsp)\n    jmp .L_x64_split_main_loop\n.L_x64_split_matched:\n    lea alya_str_buf(%rip), %r8\n    movq alya_str_idx(%rip), %rbx\n    cmpq $950000, %rbx\n    jl .L_x64_se2\n    xorq %rbx, %rbx\n.L_x64_se2:\n    lea (%r8, %rbx), %rdi\n    movq %rdi, 48(%rsp)\n    movq 40(%rsp), %rsi\n    movq 32(%rsp), %rdx\n.L_x64_split_tok_copy:\n    cmpq %rdx, %rsi\n    jge .L_x64_split_tok_done\n    movb (%rsi), %al\n    movb %al, (%rdi)\n    incq %rsi\n    incq %rdi\n    jmp .L_x64_split_tok_copy\n.L_x64_split_tok_done:\n    movb $0, (%rdi)\n    incq %rdi\n    subq %r8, %rdi\n    addq $7, %rdi\n    andq $-8, %rdi\n    movq %rdi, alya_str_idx(%rip)\n");
    if os == OperatingSystem::Windows {
        out.append("    movq %r14, %rcx\n    movq 48(%rsp), %rdx\n    call alya_array_push\n");
    } else {
        out.append("    movq %r14, %rdi\n    movq 48(%rsp), %rsi\n    call alya_array_push\n");
    }
    out.append("    addq %r15, 32(%rsp)\n    movq 32(%rsp), %rax\n    movq %rax, 40(%rsp)\n    jmp .L_x64_split_main_loop\n.L_x64_split_emit_final:\n    lea alya_str_buf(%rip), %r8\n    movq alya_str_idx(%rip), %rbx\n    cmpq $950000, %rbx\n    jl .L_x64_se3\n    xorq %rbx, %rbx\n.L_x64_se3:\n    lea (%r8, %rbx), %rdi\n    movq %rdi, 48(%rsp)\n    movq 40(%rsp), %rsi\n    movq 32(%rsp), %rdx\n.L_x64_split_final_copy:\n    cmpq %rdx, %rsi\n    jge .L_x64_split_final_done\n    movb (%rsi), %al\n    movb %al, (%rdi)\n    incq %rsi\n    incq %rdi\n    jmp .L_x64_split_final_copy\n.L_x64_split_final_done:\n    movb $0, (%rdi)\n    incq %rdi\n    subq %r8, %rdi\n    addq $7, %rdi\n    andq $-8, %rdi\n    movq %rdi, alya_str_idx(%rip)\n");
    if os == OperatingSystem::Windows {
        out.append("    movq %r14, %rcx\n    movq 48(%rsp), %rdx\n    call alya_array_push\n");
    } else {
        out.append("    movq %r14, %rdi\n    movq 48(%rsp), %rsi\n    call alya_array_push\n");
    }
    out.append(".L_x64_split_ret:\n    movq %r14, %rax\n    addq $56, %rsp\n    pop %r15\n    pop %r14\n    pop %r13\n    pop %r12\n    pop %rbx\n    pop %rdi\n    pop %rsi\n    mov %rbp, %rsp\n    pop %rbp\n    ret\n\n");
}

} // verus!
