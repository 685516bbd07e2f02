use vstd::prelude::*;
use crate::codegen::target::{OperatingSystem, symbol_prefix, symbol_prefix_str};

verus! {

/// The x64 string operation routines, as assembly text after `prefix`.
pub open spec fn str_ops_routines(prefix: Seq<char>, os: OperatingSystem) -> Seq<char> {
    let s = prefix;
    let s = s + "alya_concat:\n    push %rsi\n    push %rdi\n    push %rbx\n"@;
    let s = if os == OperatingSystem::Windows {
        let s = s + "    mov %rcx, %rsi\n    mov %rdx, %r10\n"@;
        s
    } else {
        let s = s + "    mov %rsi, %r10\n    mov %rdi, %rsi\n"@;
        s
    };
    let s = s + "    lea alya_str_buf(%rip), %r8\n    mov alya_str_idx(%rip), %rbx\n    cmp $48000, %rbx\n    jl .L_x64_concat_ok\n    xor %rbx, %rbx\n.L_x64_concat_ok:\n    lea (%r8, %rbx), %rdi\n    mov %rdi, %rax\n.L_x64_copy1:\n    movb (%rsi), %cl\n    test %cl, %cl\n    jz .L_x64_copy2_start\n    movb %cl, (%rdi)\n    inc %rsi\n    inc %rdi\n    jmp .L_x64_copy1\n.L_x64_copy2_start:\n    mov %r10, %rsi\n.L_x64_copy2:\n    movb (%rsi), %cl\n    test %cl, %cl\n    jz .L_x64_concat_end\n    movb %cl, (%rdi)\n    inc %rsi\n    inc %rdi\n    jmp .L_x64_copy2\n.L_x64_concat_end:\n    movb $0, (%rdi)\n    inc %rdi\n    sub %r8, %rdi\n    add $7, %rdi\n    and $-8, %rdi\n    mov %rdi, alya_str_idx(%rip)\n    pop %rbx\n    pop %rdi\n    pop %rsi\n    ret\n\nfn_len:\n    push %rbp\n    mov %rsp, %rbp\n"@;
    let s = if os == OperatingSystem::Windows {
        let s = s + "    mov %rcx, %rdi\n"@;
        s
    } else {
        s
    };
    let s = s + "    xor %rax, %rax\n.L_x64_len_loop:\n    cmpb $0, (%rdi, %rax)\n    je .L_x64_len_end\n    inc %rax\n    jmp .L_x64_len_loop\n.L_x64_len_end:\n    mov %rbp, %rsp\n    pop %rbp\n    ret\n\nfn_upper:\n    push %rbp\n    mov %rsp, %rbp\n    push %rbx\n    push %r12\n    push %r13\n"@;
    let s = if os == OperatingSystem::Windows {
        let s = s + "    mov %rcx, %rdi\n"@;
        s
    } else {
        s
    };
    let s = s + "    lea alya_str_buf(%rip), %r8\n    mov alya_str_idx(%rip), %rbx\n    cmp $48000, %rbx\n    jl .L_x64_upper_buf_ok\n    xor %rbx, %rbx\n.L_x64_upper_buf_ok:\n    lea (%r8, %rbx), %r12\n    mov %r12, %rax\n    mov %r12, %r13\n.L_x64_upper_loop:\n    movb (%rdi), %cl\n    test %cl, %cl\n    jz .L_x64_upper_done\n    cmpb $'a', %cl\n    jl .L_x64_upper_store\n    cmpb $'z', %cl\n    jg .L_x64_upper_store\n    subb $32, %cl\n.L_x64_upper_store:\n    movb %cl, (%r13)\n    inc %rdi\n    inc %r13\n    jmp .L_x64_upper_loop\n.L_x64_upper_done:\n    movb $0, (%r13)\n    inc %r13\n    sub %r8, %r13\n    add $7, %r13\n    and $-8, %r13\n    mov %r13, alya_str_idx(%rip)\n    pop %r13\n    pop %r12\n    pop %rbx\n    mov %rbp, %rsp\n    pop %rbp\n    ret\n\nfn_lower:\n    push %rbp\n    mov %rsp, %rbp\n    push %rbx\n    push %r12\n    push %r13\n"@;
    let s = if os == OperatingSystem::Windows {
        let s = s + "    mov %rcx, %rdi\n"@;
        s
    } else {
        s
    };
    let s = s + "    lea alya_str_buf(%rip), %r8\n    mov alya_str_idx(%rip), %rbx\n    cmp $48000, %rbx\n    jl .L_x64_lower_buf_ok\n    xor %rbx, %rbx\n.L_x64_lower_buf_ok:\n    lea (%r8, %rbx), %r12\n    mov %r12, %rax\n    mov %r12, %r13\n.L_x64_lower_loop:\n    movb (%rdi), %cl\n    test %cl, %cl\n    jz .L_x64_lower_done\n    cmpb $'A', %cl\n    jl .L_x64_lower_store\n    cmpb $'Z', %cl\n    jg .L_x64_lower_store\n    addb $32, %cl\n.L_x64_lower_store:\n    movb %cl, (%r13)\n    inc %rdi\n    inc %r13\n    jmp .L_x64_lower_loop\n.L_x64_lower_done:\n    movb $0, (%r13)\n    inc %r13\n    sub %r8, %r13\n    add $7, %r13\n    and $-8, %r13\n    mov %r13, alya_str_idx(%rip)\n    pop %r13\n    pop %r12\n    pop %rbx\n    mov %rbp, %rsp\n    pop %rbp\n    ret\n\nfn_trim:\n    push %rbp\n    mov %rsp, %rbp\n    push %rbx\n    push %r12\n    push %r13\n    push %r14\n"@;
    let s = if os == OperatingSystem::Windows {
        let s = s + "    mov %rcx, %rdi\n"@;
        s
    } else {
        s
    };
    let s = s + ".L_x64_trim_lws:\n    movb (%rdi), %al\n    cmpb $32, %al\n    je .L_x64_trim_lws_inc\n    cmpb $9, %al\n    je .L_x64_trim_lws_inc\n    cmpb $10, %al\n    je .L_x64_trim_lws_inc\n    cmpb $13, %al\n    je .L_x64_trim_lws_inc\n    jmp .L_x64_trim_lws_done\n.L_x64_trim_lws_inc:\n    inc %rdi\n    jmp .L_x64_trim_lws\n.L_x64_trim_lws_done:\n    mov %rdi, %r12\n.L_x64_trim_end_loop:\n    cmpb $0, (%r12)\n    je .L_x64_trim_find_end_done\n    inc %r12\n    jmp .L_x64_trim_end_loop\n.L_x64_trim_find_end_done:\n.L_x64_trim_tws:\n    cmp %rdi, %r12\n    jle .L_x64_trim_copy_start\n    movb -1(%r12), %al\n    cmpb $32, %al\n    je .L_x64_trim_tws_dec\n    cmpb $9, %al\n    je .L_x64_trim_tws_dec\n    cmpb $10, %al\n    je .L_x64_trim_tws_dec\n    cmpb $13, %al\n    je .L_x64_trim_tws_dec\n    jmp .L_x64_trim_copy_start\n.L_x64_trim_tws_dec:\n    dec %r12\n    jmp .L_x64_trim_tws\n.L_x64_trim_copy_start:\n    lea alya_str_buf(%rip), %r8\n    mov alya_str_idx(%rip), %rbx\n    cmp $48000, %rbx\n    jl .L_x64_trim_buf_ok\n    xor %rbx, %rbx\n.L_x64_trim_buf_ok:\n    lea (%r8, %rbx), %r13\n    mov %r13, %rax\n    mov %r13, %r14\n.L_x64_trim_copy_loop:\n    cmp %r12, %rdi\n    jge .L_x64_trim_done\n    movb (%rdi), %cl\n    movb %cl, (%r14)\n    inc %rdi\n    inc %r14\n    jmp .L_x64_trim_copy_loop\n.L_x64_trim_done:\n    movb $0, (%r14)\n    inc %r14\n    sub %r8, %r14\n    add $7, %r14\n    and $-8, %r14\n    mov %r14, alya_str_idx(%rip)\n    pop %r14\n    pop %r13\n    pop %r12\n    pop %rbx\n    mov %rbp, %rsp\n    pop %rbp\n    ret\n\nfn_substr:\nfn_substring:\n    push %rbp\n    mov %rsp, %rbp\n    push %rbx\n    push %r12\n    push %r13\n"@;
    let s = if os == OperatingSystem::Windows {
        let s = s + "    mov %rcx, %rdi\n    mov %rdx, %rsi\n    mov %r8, %rdx\n"@;
        s
    } else {
        s
    };
    let s = s + "    cmp $0, %rsi\n    jge .L_x64_sub_adv\n    xor %rsi, %rsi\n.L_x64_sub_adv:\n    test %rsi, %rsi\n    jle .L_x64_sub_adv_done\n    cmpb $0, (%rdi)\n    je .L_x64_sub_adv_done\n    inc %rdi\n    dec %rsi\n    jmp .L_x64_sub_adv\n.L_x64_sub_adv_done:\n    lea alya_str_buf(%rip), %r8\n    mov alya_str_idx(%rip), %rbx\n    cmp $48000, %rbx\n    jl .L_x64_sub_buf_ok\n    xor %rbx, %rbx\n.L_x64_sub_buf_ok:\n    lea (%r8, %rbx), %r12\n    mov %r12, %rax\n    mov %r12, %r13\n.L_x64_sub_copy:\n    cmpb $0, (%rdi)\n    je .L_x64_sub_done\n    test %rdx, %rdx\n    jz .L_x64_sub_done\n    movb (%rdi), %cl\n    movb %cl, (%r13)\n    inc %rdi\n    inc %r13\n    cmp $0, %rdx\n    jl .L_x64_sub_copy\n    dec %rdx\n    jmp .L_x64_sub_copy\n.L_x64_sub_done:\n    movb $0, (%r13)\n    inc %r13\n    sub %r8, %r13\n    add $7, %r13\n    and $-8, %r13\n    mov %r13, alya_str_idx(%rip)\n    pop %r13\n    pop %r12\n    pop %rbx\n    mov %rbp, %rsp\n    pop %rbp\n    ret\n\nfn_char_at:\n    push %rbp\n    mov %rsp, %rbp\n    push %rbx\n    push %r12\n    push %r13\n"@;
    let s = if os == OperatingSystem::Windows {
        let s = s + "    mov %rcx, %rdi\n    mov %rdx, %rsi\n"@;
        s
    } else {
        s
    };
    let s = s + "    lea alya_str_empty(%rip), %rax\n    test %rdi, %rdi\n    jz .L_x64_char_at_end\n    cmp $0, %rsi\n    jl .L_x64_char_at_end\n.L_x64_char_at_adv:\n    test %rsi, %rsi\n    jle .L_x64_char_at_fetch\n    cmpb $0, (%rdi)\n    je .L_x64_char_at_end\n    inc %rdi\n    dec %rsi\n    jmp .L_x64_char_at_adv\n.L_x64_char_at_fetch:\n    movzbl (%rdi), %edx\n    test %edx, %edx\n    jz .L_x64_char_at_end\n    lea alya_str_buf(%rip), %r8\n    mov alya_str_idx(%rip), %rbx\n    cmp $48000, %rbx\n    jl .L_x64_char_at_buf_ok\n    xor %rbx, %rbx\n.L_x64_char_at_buf_ok:\n    lea (%r8, %rbx), %r12\n    mov %r12, %rax\n    movb %dl, (%r12)\n    movb $0, 1(%r12)\n    add $2, %r12\n    sub %r8, %r12\n    add $7, %r12\n    and $-8, %r12\n    mov %r12, alya_str_idx(%rip)\n.L_x64_char_at_end:\n    pop %r13\n    pop %r12\n    pop %rbx\n    mov %rbp, %rsp\n    pop %rbp\n    ret\n\nfn_char_code:\nfn_ord:\n    push %rbp\n    mov %rsp, %rbp\n"@;
    let s = if os == OperatingSystem::Windows {
        let s = s + "    mov %rcx, %rax\n"@;
        s
    } else {
        let s = s + "    mov %rdi, %rax\n"@;
        s
    };
    let s = s + "    test %rax, %rax\n    jz .L_x64_ord_ret\n    cmp $256, %rax\n    jb .L_x64_ord_ret\n    movzbl (%rax), %eax\n.L_x64_ord_ret:\n    mov %rbp, %rsp\n    pop %rbp\n    ret\n\nfn_char_from_code:\nfn_chr:\n    push %rbp\n    mov %rsp, %rbp\n    push %rbx\n    push %r12\n"@;
    let s = if os == OperatingSystem::Windows {
        let s = s + "    mov %rcx, %rdx\n"@;
        s
    } else {
        let s = s + "    mov %rdi, %rdx\n"@;
        s
    };
    let s = s + "    lea alya_str_empty(%rip), %rax\n    test %rdx, %rdx\n    jz .L_x64_chr_end\n    cmp $256, %rdx\n    jb .L_x64_chr_code\n    movzbl (%rdx), %edx\n.L_x64_chr_code:\n    and $255, %edx\n    jz .L_x64_chr_end\n    lea alya_str_buf(%rip), %r8\n    mov alya_str_idx(%rip), %rbx\n    cmp $48000, %rbx\n    jl .L_x64_chr_buf_ok\n    xor %rbx, %rbx\n.L_x64_chr_buf_ok:\n    lea (%r8, %rbx), %r12\n    mov %r12, %rax\n    movb %dl, (%r12)\n    movb $0, 1(%r12)\n    add $2, %r12\n    sub %r8, %r12\n    add $7, %r12\n    and $-8, %r12\n    mov %r12, alya_str_idx(%rip)\n.L_x64_chr_end:\n    pop %r12\n    pop %rbx\n    mov %rbp, %rsp\n    pop %rbp\n    ret\n\n.global fn_str\nfn_str:\n    push %rbp\n    mov %rsp, %rbp\n    push %rbx\n    push %r12\n    push %r13\n    push %r14\n"@;
    let s = if os == OperatingSystem::Windows {
        let s = s + "    mov %rcx, %rax\n"@;
        s
    } else {
        let s = s + "    mov %rdi, %rax\n"@;
        s
    };
    let s = s + "    lea alya_str_buf(%rip), %r8\n    mov alya_str_idx(%rip), %rbx\n    cmp $48000, %rbx\n    jl .L_x64_str_buf_ok\n    xor %rbx, %rbx\n.L_x64_str_buf_ok:\n    lea (%r8, %rbx), %r12\n    mov %r12, %r14\n    test %rax, %rax\n    jnz .L_x64_str_chk_neg\n    movb $'0', (%r12)\n    movb $0, 1(%r12)\n    add $2, %r12\n    jmp .L_x64_str_finish\n.L_x64_str_chk_neg:\n    jns .L_x64_str_pos\n    movb $'-', (%r12)\n    inc %r12\n    neg %rax\n.L_x64_str_pos:\n    xor %r13, %r13\n    mov $10, %rbx\n.L_x64_str_div_loop:\n    xor %rdx, %rdx\n    div %rbx\n    add $'0', %dl\n    push %rdx\n    inc %r13\n    test %rax, %rax\n    jnz .L_x64_str_div_loop\n.L_x64_str_copy_loop:\n    pop %rdx\n    movb %dl, (%r12)\n    inc %r12\n    dec %r13\n    jnz .L_x64_str_copy_loop\n    movb $0, (%r12)\n    inc %r12\n.L_x64_str_finish:\n    sub %r8, %r12\n    add $7, %r12\n    and $-8, %r12\n    mov %r12, alya_str_idx(%rip)\n    mov %r14, %rax\n    pop %r14\n    pop %r13\n    pop %r12\n    pop %rbx\n    mov %rbp, %rsp\n    pop %rbp\n    ret\n\nfn_is_digit:\n    push %rbp\n    mov %rsp, %rbp\n"@;
    let s = if os == OperatingSystem::Windows {
        let s = s + "    mov %rcx, %rdx\n"@;
        s
    } else {
        let s = s + "    mov %rdi, %rdx\n"@;
        s
    };
    let s = s + "    xor %rax, %rax\n    test %rdx, %rdx\n    jz .L_x64_is_digit_end\n    cmp $256, %rdx\n    jb .L_x64_is_digit_cmp\n    movzbl (%rdx), %edx\n.L_x64_is_digit_cmp:\n    cmp $'0', %edx\n    jb .L_x64_is_digit_end\n    cmp $'9', %edx\n    ja .L_x64_is_digit_end\n    mov $1, %rax\n.L_x64_is_digit_end:\n    mov %rbp, %rsp\n    pop %rbp\n    ret\n\nfn_is_alpha:\n    push %rbp\n    mov %rsp, %rbp\n"@;
    let s = if os == OperatingSystem::Windows {
        let s = s + "    mov %rcx, %rdx\n"@;
        s
    } else {
        let s = s + "    mov %rdi, %rdx\n"@;
        s
    };
    let s = s + "    xor %rax, %rax\n    test %rdx, %rdx\n    jz .L_x64_is_alpha_end\n    cmp $256, %rdx\n    jb .L_x64_is_alpha_cmp\n    movzbl (%rdx), %edx\n.L_x64_is_alpha_cmp:\n    cmp $'_', %edx\n    je .L_x64_is_alpha_true\n    cmp $'a', %edx\n    jb .L_x64_is_alpha_upper\n    cmp $'z', %edx\n    jbe .L_x64_is_alpha_true\n.L_x64_is_alpha_upper:\n    cmp $'A', %edx\n    jb .L_x64_is_alpha_end\n    cmp $'Z', %edx\n    jbe .L_x64_is_alpha_true\n    jmp .L_x64_is_alpha_end\n.L_x64_is_alpha_true:\n    mov $1, %rax\n.L_x64_is_alpha_end:\n    mov %rbp, %rsp\n    pop %rbp\n    ret\n\nfn_is_alnum:\n    push %rbp\n    mov %rsp, %rbp\n    push %rbx\n    push %r12\n"@;
    let s = if os == OperatingSystem::Windows {
        let s = s + "    mov %rcx, %rbx\n    sub $32, %rsp\n    call fn_is_alpha\n    add $32, %rsp\n    test %rax, %rax\n    jnz .L_x64_is_alnum_end\n    mov %rbx, %rcx\n    sub $32, %rsp\n    call fn_is_digit\n    add $32, %rsp\n"@;
        s
    } else {
        let s = s + "    mov %rdi, %rbx\n    call fn_is_alpha\n    test %rax, %rax\n    jnz .L_x64_is_alnum_end\n    mov %rbx, %rdi\n    call fn_is_digit\n"@;
        s
    };
    let s = s + ".L_x64_is_alnum_end:\n    pop %r12\n    pop %rbx\n    mov %rbp, %rsp\n    pop %rbp\n    ret\n\nfn_is_whitespace:\nfn_is_space:\n    push %rbp\n    mov %rsp, %rbp\n"@;
    let s = if os == OperatingSystem::Windows {
        let s = s + "    mov %rcx, %rdx\n"@;
        s
    } else {
        let s = s + "    mov %rdi, %rdx\n"@;
        s
    };
    let s = s + "    xor %rax, %rax\n    test %rdx, %rdx\n    jz .L_x64_is_space_end\n    cmp $256, %rdx\n    jb .L_x64_is_space_cmp\n    movzbl (%rdx), %edx\n.L_x64_is_space_cmp:\n    cmp $' ', %edx\n    je .L_x64_is_space_true\n    cmp $'\\t', %edx\n    je .L_x64_is_space_true\n    cmp $'\\n', %edx\n    je .L_x64_is_space_true\n    cmp $'\\r', %edx\n    je .L_x64_is_space_true\n    jmp .L_x64_is_space_end\n.L_x64_is_space_true:\n    mov $1, %rax\n.L_x64_is_space_end:\n    mov %rbp, %rsp\n    pop %rbp\n    ret\n\n"@;
    s
}

/// Appends the x64 string operation routines, as assembly text after `prefix`.
pub fn emit(out: &mut String, os: OperatingSystem)
    ensures
        final(out)@ == str_ops_routines(old(out)@, os),
{
    out.append("alya_concat:\n    push %rsi\n    push %rdi\n    push %rbx\n");
    if os == OperatingSystem::Windows {
        out.append("    mov %rcx, %rsi\n    mov %rdx, %r10\n");
    } else {
        out.append("    mov %rsi, %r10\n    mov %rdi, %rsi\n");
    }
    out.append("    lea alya_str_buf(%rip), %r8\n    mov alya_str_idx(%rip), %rbx\n    cmp $48000, %rbx\n    jl .L_x64_concat_ok\n    xor %rbx, %rbx\n.L_x64_concat_ok:\n    lea (%r8, %rbx), %rdi\n    mov %rdi, %rax\n.L_x64_copy1:\n    movb (%rsi), %cl\n    test %cl, %cl\n    jz .L_x64_copy2_start\n    movb %cl, (%rdi)\n    inc %rsi\n    inc %rdi\n    jmp .L_x64_copy1\n.L_x64_copy2_start:\n    mov %r10, %rsi\n.L_x64_copy2:\n    movb (%rsi), %cl\n    test %cl, %cl\n    jz .L_x64_concat_end\n    movb %cl, (%rdi)\n    inc %rsi\n    inc %rdi\n    jmp .L_x64_copy2\n.L_x64_concat_end:\n    movb $0, (%rdi)\n    inc %rdi\n    sub %r8, %rdi\n    add $7, %rdi\n    and $-8, %rdi\n    mov %rdi, alya_str_idx(%rip)\n    pop %rbx\n    pop %rdi\n    pop %rsi\n    ret\n\nfn_len:\n    push %rbp\n    mov %rsp, %rbp\n");
    if os == OperatingSystem::Windows {
        out.append("    mov %rcx, %rdi\n");
    }
    out.append("    xor %rax, %rax\n.L_x64_len_loop:\n    cmpb $0, (%rdi, %rax)\n    je .L_x64_len_end\n    inc %rax\n    jmp .L_x64_len_loop\n.L_x64_len_end:\n    mov %rbp, %rsp\n    pop %rbp\n    ret\n\nfn_upper:\n    push %rbp\n    mov %rsp, %rbp\n    push %rbx\n    push %r12\n    push %r13\n");
    if os == OperatingSystem::Windows {
        out.append("    mov %rcx, %rdi\n");
    }
    out.append("    lea alya_str_buf(%rip), %r8\n    mov alya_str_idx(%rip), %rbx\n    cmp $48000, %rbx\n    jl .L_x64_upper_buf_ok\n    xor %rbx, %rbx\n.L_x64_upper_buf_ok:\n    lea (%r8, %rbx), %r12\n    mov %r12, %rax\n    mov %r12, %r13\n.L_x64_upper_loop:\n    movb (%rdi), %cl\n    test %cl, %cl\n    jz .L_x64_upper_done\n    cmpb $'a', %cl\n    jl .L_x64_upper_store\n    cmpb $'z', %cl\n    jg .L_x64_upper_store\n    subb $32, %cl\n.L_x64_upper_store:\n    movb %cl, (%r13)\n    inc %rdi\n    inc %r13\n    jmp .L_x64_upper_loop\n.L_x64_upper_done:\n    movb $0, (%r13)\n    inc %r13\n    sub %r8, %r13\n    add $7, %r13\n    and $-8, %r13\n    mov %r13, alya_str_idx(%rip)\n    pop %r13\n    pop %r12\n    pop %rbx\n    mov %rbp, %rsp\n    pop %rbp\n    ret\n\nfn_lower:\n    push %rbp\n    mov %rsp, %rbp\n    push %rbx\n    push %r12\n    push %r13\n");
    if os == OperatingSystem::Windows {
        out.append("    mov %rcx, %rdi\n");
    }
    out.append("    lea alya_str_buf(%rip), %r8\n    mov alya_str_idx(%rip), %rbx\n    cmp $48000, %rbx\n    jl .L_x64_lower_buf_ok\n    xor %rbx, %rbx\n.L_x64_lower_buf_ok:\n    lea (%r8, %rbx), %r12\n    mov %r12, %rax\n    mov %r12, %r13\n.L_x64_lower_loop:\n    movb (%rdi), %cl\n    test %cl, %cl\n    jz .L_x64_lower_done\n    cmpb $'A', %cl\n    jl .L_x64_lower_store\n    cmpb $'Z', %cl\n    jg .L_x64_lower_store\n    addb $32, %cl\n.L_x64_lower_store:\n    movb %cl, (%r13)\n    inc %rdi\n    inc %r13\n    jmp .L_x64_lower_loop\n.L_x64_lower_done:\n    movb $0, (%r13)\n    inc %r13\n    sub %r8, %r13\n    add $7, %r13\n    and $-8, %r13\n    mov %r13, alya_str_idx(%rip)\n    pop %r13\n    pop %r12\n    pop %rbx\n    mov %rbp, %rsp\n    pop %rbp\n    ret\n\nfn_trim:\n    push %rbp\n    mov %rsp, %rbp\n    push %rbx\n    push %r12\n    push %r13\n    push %r14\n");
    if os == OperatingSystem::Windows {
        out.append("    mov %rcx, %rdi\n");
    }
    out.append(".L_x64_trim_lws:\n    movb (%rdi), %al\n    cmpb $32, %al\n    je .L_x64_trim_lws_inc\n    cmpb $9, %al\n    je .L_x64_trim_lws_inc\n    cmpb $10, %al\n    je .L_x64_trim_lws_inc\n    cmpb $13, %al\n    je .L_x64_trim_lws_inc\n    jmp .L_x64_trim_lws_done\n.L_x64_trim_lws_inc:\n    inc %rdi\n    jmp .L_x64_trim_lws\n.L_x64_trim_lws_done:\n    mov %rdi, %r12\n.L_x64_trim_end_loop:\n    cmpb $0, (%r12)\n    je .L_x64_trim_find_end_done\n    inc %r12\n    jmp .L_x64_trim_end_loop\n.L_x64_trim_find_end_done:\n.L_x64_trim_tws:\n    cmp %rdi, %r12\n    jle .L_x64_trim_copy_start\n    movb -1(%r12), %al\n    cmpb $32, %al\n    je .L_x64_trim_tws_dec\n    cmpb $9, %al\n    je .L_x64_trim_tws_dec\n    cmpb $10, %al\n    je .L_x64_trim_tws_dec\n    cmpb $13, %al\n    je .L_x64_trim_tws_dec\n    jmp .L_x64_trim_copy_start\n.L_x64_trim_tws_dec:\n    dec %r12\n    jmp .L_x64_trim_tws\n.L_x64_trim_copy_start:\n    lea alya_str_buf(%rip), %r8\n    mov alya_str_idx(%rip), %rbx\n    cmp $48000, %rbx\n    jl .L_x64_trim_buf_ok\n    xor %rbx, %rbx\n.L_x64_trim_buf_ok:\n    lea (%r8, %rbx), %r13\n    mov %r13, %rax\n    mov %r13, %r14\n.L_x64_trim_copy_loop:\n    cmp %r12, %rdi\n    jge .L_x64_trim_done\n    movb (%rdi), %cl\n    movb %cl, (%r14)\n    inc %rdi\n    inc %r14\n    jmp .L_x64_trim_copy_loop\n.L_x64_trim_done:\n    movb $0, (%r14)\n    inc %r14\n    sub %r8, %r14\n    add $7, %r14\n    and $-8, %r14\n    mov %r14, alya_str_idx(%rip)\n    pop %r14\n    pop %r13\n    pop %r12\n    pop %rbx\n    mov %rbp, %rsp\n    pop %rbp\n    ret\n\nfn_substr:\nfn_substring:\n    push %rbp\n    mov %rsp, %rbp\n    push %rbx\n    push %r12\n    push %r13\n");
    if os == OperatingSystem::Windows {
        out.append("    mov %rcx, %rdi\n    mov %rdx, %rsi\n    mov %r8, %rdx\n");
    }
    out.append("    cmp $0, %rsi\n    jge .L_x64_sub_adv\n    xor %rsi, %rsi\n.L_x64_sub_adv:\n    test %rsi, %rsi\n    jle .L_x64_sub_adv_done\n    cmpb $0, (%rdi)\n    je .L_x64_sub_adv_done\n    inc %rdi\n    dec %rsi\n    jmp .L_x64_sub_adv\n.L_x64_sub_adv_done:\n    lea alya_str_buf(%rip), %r8\n    mov alya_str_idx(%rip), %rbx\n    cmp $48000, %rbx\n    jl .L_x64_sub_buf_ok\n    xor %rbx, %rbx\n.L_x64_sub_buf_ok:\n    lea (%r8, %rbx), %r12\n    mov %r12, %rax\n    mov %r12, %r13\n.L_x64_sub_copy:\n    cmpb $0, (%rdi)\n    je .L_x64_sub_done\n    test %rdx, %rdx\n    jz .L_x64_sub_done\n    movb (%rdi), %cl\n    movb %cl, (%r13)\n    inc %rdi\n    inc %r13\n    cmp $0, %rdx\n    jl .L_x64_sub_copy\n    dec %rdx\n    jmp .L_x64_sub_copy\n.L_x64_sub_done:\n    movb $0, (%r13)\n    inc %r13\n    sub %r8, %r13\n    add $7, %r13\n    and $-8, %r13\n    mov %r13, alya_str_idx(%rip)\n    pop %r13\n    pop %r12\n    pop %rbx\n    mov %rbp, %rsp\n    pop %rbp\n    ret\n\nfn_char_at:\n    push %rbp\n    mov %rsp, %rbp\n    push %rbx\n    push %r12\n    push %r13\n");
    if os == OperatingSystem::Windows {
        out.append("    mov %rcx, %rdi\n    mov %rdx, %rsi\n");
    }
    out.append("    lea alya_str_empty(%rip), %rax\n    test %rdi, %rdi\n    jz .L_x64_char_at_end\n    cmp $0, %rsi\n    jl .L_x64_char_at_end\n.L_x64_char_at_adv:\n    test %rsi, %rsi\n    jle .L_x64_char_at_fetch\n    cmpb $0, (%rdi)\n    je .L_x64_char_at_end\n    inc %rdi\n    dec %rsi\n    jmp .L_x64_char_at_adv\n.L_x64_char_at_fetch:\n    movzbl (%rdi), %edx\n    test %edx, %edx\n    jz .L_x64_char_at_end\n    lea alya_str_buf(%rip), %r8\n    mov alya_str_idx(%rip), %rbx\n    cmp $48000, %rbx\n    jl .L_x64_char_at_buf_ok\n    xor %rbx, %rbx\n.L_x64_char_at_buf_ok:\n    lea (%r8, %rbx), %r12\n    mov %r12, %rax\n    movb %dl, (%r12)\n    movb $0, 1(%r12)\n    add $2, %r12\n    sub %r8, %r12\n    add $7, %r12\n    and $-8, %r12\n    mov %r12, alya_str_idx(%rip)\n.L_x64_char_at_end:\n    pop %r13\n    pop %r12\n    pop %rbx\n    mov %rbp, %rsp\n    pop %rbp\n    ret\n\nfn_char_code:\nfn_ord:\n    push %rbp\n    mov %rsp, %rbp\n");
    if os == OperatingSystem::Windows {
        out.append("    mov %rcx, %rax\n");
    } else {
        out.append("    mov %rdi, %rax\n");
    }
    out.append("    test %rax, %rax\n    jz .L_x64_ord_ret\n    cmp $256, %rax\n    jb .L_x64_ord_ret\n    movzbl (%rax), %eax\n.L_x64_ord_ret:\n    mov %rbp, %rsp\n    pop %rbp\n    ret\n\nfn_char_from_code:\nfn_chr:\n    push %rbp\n    mov %rsp, %rbp\n    push %rbx\n    push %r12\n");
    if os == OperatingSystem::Windows {
        out.append("    mov %rcx, %rdx\n");
    } else {
        out.append("    mov %rdi, %rdx\n");
    }
    out.append("    lea alya_str_empty(%rip), %rax\n    test %rdx, %rdx\n    jz .L_x64_chr_end\n    cmp $256, %rdx\n    jb .L_x64_chr_code\n    movzbl (%rdx), %edx\n.L_x64_chr_code:\n    and $255, %edx\n    jz .L_x64_chr_end\n    lea alya_str_buf(%rip), %r8\n    mov alya_str_idx(%rip), %rbx\n    cmp $48000, %rbx\n    jl .L_x64_chr_buf_ok\n    xor %rbx, %rbx\n.L_x64_chr_buf_ok:\n    lea (%r8, %rbx), %r12\n    mov %r12, %rax\n    movb %dl, (%r12)\n    movb $0, 1(%r12)\n    add $2, %r12\n    sub %r8, %r12\n    add $7, %r12\n    and $-8, %r12\n    mov %r12, alya_str_idx(%rip)\n.L_x64_chr_end:\n    pop %r12\n    pop %rbx\n    mov %rbp, %rsp\n    pop %rbp\n    ret\n\n.global fn_str\nfn_str:\n    push %rbp\n    mov %rsp, %rbp\n    push %rbx\n    push %r12\n    push %r13\n    push %r14\n");
    if os == OperatingSystem::Windows {
        out.append("    mov %rcx, %rax\n");
    } else {
        out.append("    mov %rdi, %rax\n");
    }
    out.append("    lea alya_str_buf(%rip), %r8\n    mov alya_str_idx(%rip), %rbx\n    cmp $48000, %rbx\n    jl .L_x64_str_buf_ok\n    xor %rbx, %rbx\n.L_x64_str_buf_ok:\n    lea (%r8, %rbx), %r12\n    mov %r12, %r14\n    test %rax, %rax\n    jnz .L_x64_str_chk_neg\n    movb $'0', (%r12)\n    movb $0, 1(%r12)\n    add $2, %r12\n    jmp .L_x64_str_finish\n.L_x64_str_chk_neg:\n    jns .L_x64_str_pos\n    movb $'-', (%r12)\n    inc %r12\n    neg %rax\n.L_x64_str_pos:\n    xor %r13, %r13\n    mov $10, %rbx\n.L_x64_str_div_loop:\n    xor %rdx, %rdx\n    div %rbx\n    add $'0', %dl\n    push %rdx\n    inc %r13\n    test %rax, %rax\n    jnz .L_x64_str_div_loop\n.L_x64_str_copy_loop:\n    pop %rdx\n    movb %dl, (%r12)\n    inc %r12\n    dec %r13\n    jnz .L_x64_str_copy_loop\n    movb $0, (%r12)\n    inc %r12\n.L_x64_str_finish:\n    sub %r8, %r12\n    add $7, %r12\n    and $-8, %r12\n    mov %r12, alya_str_idx(%rip)\n    mov %r14, %rax\n    pop %r14\n    pop %r13\n    pop %r12\n    pop %rbx\n    mov %rbp, %rsp\n    pop %rbp\n    ret\n\nfn_is_digit:\n    push %rbp\n    mov %rsp, %rbp\n");
    if os == OperatingSystem::Windows {
        out.append("    mov %rcx, %rdx\n");
    } else {
        out.append("    mov %rdi, %rdx\n");
    }
    out.append("    xor %rax, %rax\n    test %rdx, %rdx\n    jz .L_x64_is_digit_end\n    cmp $256, %rdx\n    jb .L_x64_is_digit_cmp\n    movzbl (%rdx), %edx\n.L_x64_is_digit_cmp:\n    cmp $'0', %edx\n    jb .L_x64_is_digit_end\n    cmp $'9', %edx\n    ja .L_x64_is_digit_end\n    mov $1, %rax\n.L_x64_is_digit_end:\n    mov %rbp, %rsp\n    pop %rbp\n    ret\n\nfn_is_alpha:\n    push %rbp\n    mov %rsp, %rbp\n");
    if os == OperatingSystem::Windows {
        out.append("    mov %rcx, %rdx\n");
    } else {
        out.append("    mov %rdi, %rdx\n");
    }
    out.append("    xor %rax, %rax\n    test %rdx, %rdx\n    jz .L_x64_is_alpha_end\n    cmp $256, %rdx\n    jb .L_x64_is_alpha_cmp\n    movzbl (%rdx), %edx\n.L_x64_is_alpha_cmp:\n    cmp $'_', %edx\n    je .L_x64_is_alpha_true\n    cmp $'a', %edx\n    jb .L_x64_is_alpha_upper\n    cmp $'z', %edx\n    jbe .L_x64_is_alpha_true\n.L_x64_is_alpha_upper:\n    cmp $'A', %edx\n    jb .L_x64_is_alpha_end\n    cmp $'Z', %edx\n    jbe .L_x64_is_alpha_true\n    jmp .L_x64_is_alpha_end\n.L_x64_is_alpha_true:\n    mov $1, %rax\n.L_x64_is_alpha_end:\n    mov %rbp, %rsp\n    pop %rbp\n    ret\n\nfn_is_alnum:\n    push %rbp\n    mov %rsp, %rbp\n    push %rbx\n    push %r12\n");
    if os == OperatingSystem::Windows {
        out.append("    mov %rcx, %rbx\n    sub $32, %rsp\n    call fn_is_alpha\n    add $32, %rsp\n    test %rax, %rax\n    jnz .L_x64_is_alnum_end\n    mov %rbx, %rcx\n    sub $32, %rsp\n    call fn_is_digit\n    add $32, %rsp\n");
    } else {
        out.append("    mov %rdi, %rbx\n    call fn_is_alpha\n    test %rax, %rax\n    jnz .L_x64_is_alnum_end\n    mov %rbx, %rdi\n    call fn_is_digit\n");
    }
    out.append(".L_x64_is_alnum_end:\n    pop %r12\n    pop %rbx\n    mov %rbp, %rsp\n    pop %rbp\n    ret\n\nfn_is_whitespace:\nfn_is_space:\n    push %rbp\n    mov %rsp, %rbp\n");
    if os == OperatingSystem::Windows {
        out.append("    mov %rcx, %rdx\n");
    } else {
        out.append("    mov %rdi, %rdx\n");
    }
    out.append("    xor %rax, %rax\n    test %rdx, %rdx\n    jz .L_x64_is_space_end\n    cmp $256, %rdx\n    jb .L_x64_is_space_cmp\n    movzbl (%rdx), %edx\n.L_x64_is_space_cmp:\n    cmp $' ', %edx\n    je .L_x64_is_space_true\n    cmp $'\\t', %edx\n    je .L_x64_is_space_true\n    cmp $'\\n', %edx\n    je .L_x64_is_space_true\n    cmp $'\\r', %edx\n    je .L_x64_is_space_true\n    jmp .L_x64_is_space_end\n.L_x64_is_space_true:\n    mov $1, %rax\n.L_x64_is_space_end:\n    mov %rbp, %rsp\n    pop %rbp\n    ret\n\n");
}

} // verus!
