use vstd::prelude::*;
use crate::codegen::target::{OperatingSystem, symbol_prefix, symbol_prefix_str};

verus! {

/// The x64 string and character routines, as assembly text after `prefix`.
pub open spec fn strings_routines(prefix: Seq<char>, os: OperatingSystem) -> Seq<char> {
    strings_later(strings_middle(strings_first(prefix, os), os), os)
}

/// The first group of the x64 string routines, as assembly text after `prefix`.
pub open spec fn strings_first(prefix: Seq<char>, os: OperatingSystem) -> Seq<char> {
    let s = prefix;
    let s = s + "alya_concat:\n    push %rsi\n    push %rdi\n    push %rbx\n"@;
    let s = if os == OperatingSystem::Windows {
        let s = s + "    mov %rcx, %rsi\n    mov %rdx, %r10\n"@;
        s
    } else {
        let s = s + "    mov %rsi, %r10\n    mov %rdi, %rsi\n"@;
        s
    };
    let s = s + "    lea alya_str_buf(%rip), %r8\n    mov alya_str_idx(%rip), %rbx\n    cmp $48000, %rbx\n    jl .L_x64_concat_ok\n    xor %rbx, %rbx\n.L_x64_concat_ok:\n    lea (%r8, %rbx), %rdi\n    mov %rdi, %rax\n.L_x64_copy1:\n    movb (%rsi), %cl\n    test %cl, %cl\n    jz .L_x64_copy2_start\n    movb %cl, (%rdi)\n    inc %rsi\n    inc %rdi\n    jmp .L_x64_copy1\n.L_x64_copy2_start:\n    mov %r10, %rsi\n.L_x64_copy2:\n    movb (%rsi), %cl\n    test %cl, %cl\n    jz .L_x64_concat_end\n    movb %cl, (%rdi)\n    inc %rsi\n    inc %rdi\n    jmp .L_x64_copy2\n.L_x64_concat_end:\n    movb $0, (%rdi)\n    inc %rdi\n    sub %r8, %rdi\n    add $7, %rdi\n    and $-8, %rdi\n    mov %rdi, alya_str_idx(%rip)\n    pop %rbx\n    pop %rdi\n    pop %rsi\n    ret\n\nfn_len:\n    push %rbp\n    mov %rsp, %rbp\n"@;
    let s = if os == OperatingSystem::Windows {
        let s = s + "    mov %rcx, %rdi\n"@;
        s
    } else {
        s
    };
    let s = s + "    xor %rax, %rax\n.L_x64_len_loop:\n    cmpb $0, (%rdi, %rax)\n    je .L_x64_len_end\n    inc %rax\n    jmp .L_x64_len_loop\n.L_x64_len_end:\n    mov %rbp, %rsp\n    pop %rbp\n    ret\n\nfn_ask:\n    push %rbp\n    mov %rsp, %rbp\n    push %rbx\n    push %rsi\n    push %rdi\n    push %r12\n    push %r13\n    sub $56, %rsp\n"@;
    let s = if os == OperatingSystem::Windows {
        let s = s + "    mov %rcx, %rdi\n    test %rdi, %rdi\n    jz .L_x64_ask_read\n    lea alya_fmt_prompt(%rip), %rcx\n    mov %rdi, %rdx\n    call printf\n    xor %rcx, %rcx\n    call fflush\n"@;
        s
    } else {
        let s = s + "    test %rdi, %rdi\n    jz .L_x64_ask_read\n    mov %rdi, %rsi\n    lea alya_fmt_prompt(%rip), %rdi\n    xor %rax, %rax\n    call "@;
        let s = s + symbol_prefix(os);
        let s = s + "printf\n    xor %rdi, %rdi\n    call "@;
        let s = s + symbol_prefix(os);
        let s = s + "fflush\n"@;
        s
    };
    let s = s + ".L_x64_ask_read:\n    lea alya_str_buf(%rip), %rbx\n    mov alya_str_idx(%rip), %rsi\n    cmp $48000, %rsi\n    jl .L_x64_ask_buf_ok\n    xor %rsi, %rsi\n.L_x64_ask_buf_ok:\n    lea (%rbx, %rsi), %r12\n    mov %r12, %r13\n.L_x64_ask_loop:\n    call "@;
    let s = s + symbol_prefix(os);
    let s = s + "getchar\n    cmp $-1, %rax\n    je .L_x64_ask_done\n    cmp $10, %rax\n    je .L_x64_ask_done\n    cmp $13, %rax\n    je .L_x64_ask_loop\n    movb %al, (%r13)\n    inc %r13\n    jmp .L_x64_ask_loop\n.L_x64_ask_done:\n    movb $0, (%r13)\n    inc %r13\n    lea alya_str_buf(%rip), %rbx\n    sub %rbx, %r13\n    add $7, %r13\n    and $-8, %r13\n    mov %r13, alya_str_idx(%rip)\n    mov %r12, %rax\n    add $56, %rsp\n    pop %r13\n    pop %r12\n    pop %rdi\n    pop %rsi\n    pop %rbx\n    mov %rbp, %rsp\n    pop %rbp\n    ret\n\nfn_upper:\n    push %rbp\n    mov %rsp, %rbp\n    push %rbx\n    push %r12\n    push %r13\n"@;
    let s = if os == OperatingSystem::Windows {
        let s = s + "    mov %rcx, %rdi\n"@;
        s
    } else {
        s
    };
    let s = s + "    lea alya_str_buf(%rip), %r8\n    mov alya_str_idx(%rip), %rbx\n    cmp $48000, %rbx\n    jl .L_x64_upper_buf_ok\n    xor %rbx, %rbx\n.L_x64_upper_buf_ok:\n    lea (%r8, %rbx), %r12\n    mov %r12, %rax\n    mov %r12, %r13\n.L_x64_upper_loop:\n    movb (%rdi), %cl\n    test %cl, %cl\n    jz .L_x64_upper_done\n    cmpb $'a', %cl\n    jl .L_x64_upper_store\n    cmpb $'z', %cl\n    jg .L_x64_upper_store\n    subb $32, %cl\n.L_x64_upper_store:\n    movb %cl, (%r13)\n    inc %rdi\n    inc %r13\n    jmp .L_x64_upper_loop\n.L_x64_upper_done:\n    movb $0, (%r13)\n    inc %r13\n    sub %r8, %r13\n    add $7, %r13\n    and $-8, %r13\n    mov %r13, alya_str_idx(%rip)\n    pop %r13\n    pop %r12\n    pop %rbx\n    mov %rbp, %rsp\n    pop %rbp\n    ret\n\nfn_lower:\n    push %rbp\n    mov %rsp, %rbp\n    push %rbx\n    push %r12\n    push %r13\n"@;
    let s = if os == OperatingSystem::Windows {
        let s = s + "    mov %rcx, %rdi\n"@;
        s
    } else {
        s
    };
    let s = s + "    lea alya_str_buf(%rip), %r8\n    mov alya_str_idx(%rip), %rbx\n    cmp $48000, %rbx\n    jl .L_x64_lower_buf_ok\n    xor %rbx, %rbx\n.L_x64_lower_buf_ok:\n    lea (%r8, %rbx), %r12\n    mov %r12, %rax\n    mov %r12, %r13\n.L_x64_lower_loop:\n    movb (%rdi), %cl\n    test %cl, %cl\n    jz .L_x64_lower_done\n    cmpb $'A', %cl\n    jl .L_x64_lower_store\n    cmpb $'Z', %cl\n    jg .L_x64_lower_store\n    addb $32, %cl\n.L_x64_lower_store:\n    movb %cl, (%r13)\n    inc %rdi\n    inc %r13\n    jmp .L_x64_lower_loop\n.L_x64_lower_done:\n    movb $0, (%r13)\n    inc %r13\n    sub %r8, %r13\n    add $7, %r13\n    and $-8, %r13\n    mov %r13, alya_str_idx(%rip)\n    pop %r13\n    pop %r12\n    pop %rbx\n    mov %rbp, %rsp\n    pop %rbp\n    ret\n\nfn_trim:\n    push %rbp\n    mov %rsp, %rbp\n    push %rbx\n    push %r12\n    push %r13\n    push %r14\n"@;
    let s = if os == OperatingSystem::Windows {
        let s = s + "    mov %rcx, %rdi\n"@;
        s
    } else {
        s
    };
    s
}

/// The second group of the x64 string routines, as assembly text after `prefix`.
pub open spec fn strings_middle(prefix: Seq<char>, os: OperatingSystem) -> Seq<char> {
    let s = prefix;
    let s = s + ".L_x64_trim_lws:\n    movb (%rdi), %al\n    cmpb $32, %al\n    je .L_x64_trim_lws_inc\n    cmpb $9, %al\n    je .L_x64_trim_lws_inc\n    cmpb $10, %al\n    je .L_x64_trim_lws_inc\n    cmpb $13, %al\n    je .L_x64_trim_lws_inc\n    jmp .L_x64_trim_lws_done\n.L_x64_trim_lws_inc:\n    inc %rdi\n    jmp .L_x64_trim_lws\n.L_x64_trim_lws_done:\n    mov %rdi, %r12\n.L_x64_trim_end_loop:\n    cmpb $0, (%r12)\n    je .L_x64_trim_find_end_done\n    inc %r12\n    jmp .L_x64_trim_end_loop\n.L_x64_trim_find_end_done:\n.L_x64_trim_tws:\n    cmp %rdi, %r12\n    jle .L_x64_trim_copy_start\n    movb -1(%r12), %al\n    cmpb $32, %al\n    je .L_x64_trim_tws_dec\n    cmpb $9, %al\n    je .L_x64_trim_tws_dec\n    cmpb $10, %al\n    je .L_x64_trim_tws_dec\n    cmpb $13, %al\n    je .L_x64_trim_tws_dec\n    jmp .L_x64_trim_copy_start\n.L_x64_trim_tws_dec:\n    dec %r12\n    jmp .L_x64_trim_tws\n.L_x64_trim_copy_start:\n    lea alya_str_buf(%rip), %r8\n    mov alya_str_idx(%rip), %rbx\n    cmp $48000, %rbx\n    jl .L_x64_trim_buf_ok\n    xor %rbx, %rbx\n.L_x64_trim_buf_ok:\n    lea (%r8, %rbx), %r13\n    mov %r13, %rax\n    mov %r13, %r14\n.L_x64_trim_copy_loop:\n    cmp %r12, %rdi\n    jge .L_x64_trim_done\n    movb (%rdi), %cl\n    movb %cl, (%r14)\n    inc %rdi\n    inc %r14\n    jmp .L_x64_trim_copy_loop\n.L_x64_trim_done:\n    movb $0, (%r14)\n    inc %r14\n    sub %r8, %r14\n    add $7, %r14\n    and $-8, %r14\n    mov %r14, alya_str_idx(%rip)\n    pop %r14\n    pop %r13\n    pop %r12\n    pop %rbx\n    mov %rbp, %rsp\n    pop %rbp\n    ret\n\nfn_contains:\n    push %rbp\n    mov %rsp, %rbp\n"@;
    let s = if os == OperatingSystem::Windows {
        let s = s + "    mov %rcx, %rdi\n    mov %rdx, %rsi\n"@;
        s
    } else {
        s
    };
    let s = s + "    cmpb $0, (%rsi)\n    je .L_x64_contains_match\n.L_x64_contains_outer:\n    cmpb $0, (%rdi)\n    je .L_x64_contains_nomatch\n    mov %rdi, %rax\n    mov %rsi, %rdx\n.L_x64_contains_inner:\n    movb (%rdx), %cl\n    test %cl, %cl\n    jz .L_x64_contains_match\n    movb (%rax), %r8b\n    cmp %r8b, %cl\n    jne .L_x64_contains_next\n    inc %rax\n    inc %rdx\n    jmp .L_x64_contains_inner\n.L_x64_contains_next:\n    inc %rdi\n    jmp .L_x64_contains_outer\n.L_x64_contains_match:\n    mov $1, %rax\n    jmp .L_x64_contains_end\n.L_x64_contains_nomatch:\n    xor %rax, %rax\n.L_x64_contains_end:\n    mov %rbp, %rsp\n    pop %rbp\n    ret\n\nfn_substr:\nfn_substring:\n    push %rbp\n    mov %rsp, %rbp\n    push %rbx\n    push %r12\n    push %r13\n"@;
    let s = if os == OperatingSystem::Windows {
        let s = s + "    mov %rcx, %rdi\n    mov %rdx, %rsi\n    mov %r8, %rdx\n"@;
        s
    } else {
        s
    };
    let s = s + "    cmp $0, %rsi\n    jge .L_x64_sub_adv\n    xor %rsi, %rsi\n.L_x64_sub_adv:\n    test %rsi, %rsi\n    jle .L_x64_sub_adv_done\n    cmpb $0, (%rdi)\n    je .L_x64_sub_adv_done\n    inc %rdi\n    dec %rsi\n    jmp .L_x64_sub_adv\n.L_x64_sub_adv_done:\n    lea alya_str_buf(%rip), %r8\n    mov alya_str_idx(%rip), %rbx\n    cmp $48000, %rbx\n    jl .L_x64_sub_buf_ok\n    xor %rbx, %rbx\n.L_x64_sub_buf_ok:\n    lea (%r8, %rbx), %r12\n    mov %r12, %rax\n    mov %r12, %r13\n.L_x64_sub_copy:\n    cmpb $0, (%rdi)\n    je .L_x64_sub_done\n    test %rdx, %rdx\n    jz .L_x64_sub_done\n    movb (%rdi), %cl\n    movb %cl, (%r13)\n    inc %rdi\n    inc %r13\n    cmp $0, %rdx\n    jl .L_x64_sub_copy\n    dec %rdx\n    jmp .L_x64_sub_copy\n.L_x64_sub_done:\n    movb $0, (%r13)\n    inc %r13\n    sub %r8, %r13\n    add $7, %r13\n    and $-8, %r13\n    mov %r13, alya_str_idx(%rip)\n    pop %r13\n    pop %r12\n    pop %rbx\n    mov %rbp, %rsp\n    pop %rbp\n    ret\n\nfn_char_at:\n    push %rbp\n    mov %rsp, %rbp\n    push %rbx\n    push %r12\n    push %r13\n"@;
    let s = if os == OperatingSystem::Windows {
        let s = s + "    mov %rcx, %rdi\n    mov %rdx, %rsi\n"@;
        s
    } else {
        s
    };
    let s = s + "    lea alya_str_empty(%rip), %rax\n    test %rdi, %rdi\n    jz .L_x64_char_at_end\n    cmp $0, %rsi\n    jl .L_x64_char_at_end\n.L_x64_char_at_adv:\n    test %rsi, %rsi\n    jle .L_x64_char_at_fetch\n    cmpb $0, (%rdi)\n    je .L_x64_char_at_end\n    inc %rdi\n    dec %rsi\n    jmp .L_x64_char_at_adv\n.L_x64_char_at_fetch:\n    movzbl (%rdi), %edx\n    test %edx, %edx\n    jz .L_x64_char_at_end\n    lea alya_str_buf(%rip), %r8\n    mov alya_str_idx(%rip), %rbx\n    cmp $48000, %rbx\n    jl .L_x64_char_at_buf_ok\n    xor %rbx, %rbx\n.L_x64_char_at_buf_ok:\n    lea (%r8, %rbx), %r12\n    mov %r12, %rax\n    movb %dl, (%r12)\n    movb $0, 1(%r12)\n    add $2, %r12\n    sub %r8, %r12\n    add $7, %r12\n    and $-8, %r12\n    mov %r12, alya_str_idx(%rip)\n.L_x64_char_at_end:\n    pop %r13\n    pop %r12\n    pop %rbx\n    mov %rbp, %rsp\n    pop %rbp\n    ret\n\nfn_char_code:\nfn_ord:\n    push %rbp\n    mov %rsp, %rbp\n"@;
    let s = if os == OperatingSystem::Windows {
        let s = s + "    mov %rcx, %rax\n"@;
        s
    } else {
        let s = s + "    mov %rdi, %rax\n"@;
        s
    };
    let s = s + "    test %rax, %rax\n    jz .L_x64_ord_ret\n    cmp $256, %rax\n    jb .L_x64_ord_ret\n    movzbl (%rax), %eax\n.L_x64_ord_ret:\n    mov %rbp, %rsp\n    pop %rbp\n    ret\n\nfn_char_from_code:\nfn_chr:\n    push %rbp\n    mov %rsp, %rbp\n    push %rbx\n    push %r12\n"@;
    let s = if os == OperatingSystem::Windows {
        let s = s + "    mov %rcx, %rdx\n"@;
        s
    } else {
        let s = s + "    mov %rdi, %rdx\n"@;
        s
    };
    let s = s + "    lea alya_str_empty(%rip), %rax\n    test %rdx, %rdx\n    jz .L_x64_chr_end\n    cmp $256, %rdx\n    jb .L_x64_chr_code\n    movzbl (%rdx), %edx\n.L_x64_chr_code:\n    and $255, %edx\n    jz .L_x64_chr_end\n    lea alya_str_buf(%rip), %r8\n    mov alya_str_idx(%rip), %rbx\n    cmp $48000, %rbx\n    jl .L_x64_chr_buf_ok\n    xor %rbx, %rbx\n.L_x64_chr_buf_ok:\n    lea (%r8, %rbx), %r12\n    mov %r12, %rax\n    movb %dl, (%r12)\n    movb $0, 1(%r12)\n    add $2, %r12\n    sub %r8, %r12\n    add $7, %r12\n    and $-8, %r12\n    mov %r12, alya_str_idx(%rip)\n.L_x64_chr_end:\n    pop %r12\n    pop %rbx\n    mov %rbp, %rsp\n    pop %rbp\n    ret\n\n.global fn_str\nfn_str:\n    push %rbp\n    mov %rsp, %rbp\n    push %rbx\n    push %r12\n    push %r13\n    push %r14\n"@;
    let s = if os == OperatingSystem::Windows {
        let s = s + "    mov %rcx, %rax\n"@;
        s
    } else {
        let s = s + "    mov %rdi, %rax\n"@;
        s
    };
    let s = s + "    lea alya_str_buf(%rip), %r8\n    mov alya_str_idx(%rip), %rbx\n    cmp $48000, %rbx\n    jl .L_x64_str_buf_ok\n    xor %rbx, %rbx\n.L_x64_str_buf_ok:\n    lea (%r8, %rbx), %r12\n    mov %r12, %r14\n    test %rax, %rax\n    jnz .L_x64_str_chk_neg\n    movb $'0', (%r12)\n    movb $0, 1(%r12)\n    add $2, %r12\n    jmp .L_x64_str_finish\n.L_x64_str_chk_neg:\n    jns .L_x64_str_pos\n    movb $'-', (%r12)\n    inc %r12\n    neg %rax\n.L_x64_str_pos:\n    xor %r13, %r13\n    mov $10, %rbx\n.L_x64_str_div_loop:\n    xor %rdx, %rdx\n    div %rbx\n    add $'0', %dl\n    push %rdx\n    inc %r13\n    test %rax, %rax\n    jnz .L_x64_str_div_loop\n.L_x64_str_copy_loop:\n    pop %rdx\n    movb %dl, (%r12)\n    inc %r12\n    dec %r13\n    jnz .L_x64_str_copy_loop\n    movb $0, (%r12)\n    inc %r12\n.L_x64_str_finish:\n    sub %r8, %r12\n    add $7, %r12\n    and $-8, %r12\n    mov %r12, alya_str_idx(%rip)\n    mov %r14, %rax\n    pop %r14\n    pop %r13\n    pop %r12\n    pop %rbx\n    mov %rbp, %rsp\n    pop %rbp\n    ret\n\nfn_is_digit:\n    push %rbp\n    mov %rsp, %rbp\n"@;
    let s = if os == OperatingSystem::Windows {
        let s = s + "    mov %rcx, %rdx\n"@;
        s
    } else {
        let s = s + "    mov %rdi, %rdx\n"@;
        s
    };
    s
}

/// The last group of the x64 string routines, as assembly text after `prefix`.
pub open spec fn strings_later(prefix: Seq<char>, os: OperatingSystem) -> Seq<char> {
    let s = prefix;
    let s = s + "    xor %rax, %rax\n    test %rdx, %rdx\n    jz .L_x64_is_digit_end\n    cmp $256, %rdx\n    jb .L_x64_is_digit_cmp\n    movzbl (%rdx), %edx\n.L_x64_is_digit_cmp:\n    cmp $'0', %edx\n    jb .L_x64_is_digit_end\n    cmp $'9', %edx\n    ja .L_x64_is_digit_end\n    mov $1, %rax\n.L_x64_is_digit_end:\n    mov %rbp, %rsp\n    pop %rbp\n    ret\n\nfn_is_alpha:\n    push %rbp\n    mov %rsp, %rbp\n"@;
    let s = if os == OperatingSystem::Windows {
        let s = s + "    mov %rcx, %rdx\n"@;
        s
    } else {
        let s = s + "    mov %rdi, %rdx\n"@;
        s
    };
    let s = s + "    xor %rax, %rax\n    test %rdx, %rdx\n    jz .L_x64_is_alpha_end\n    cmp $256, %rdx\n    jb .L_x64_is_alpha_cmp\n    movzbl (%rdx), %edx\n.L_x64_is_alpha_cmp:\n    cmp $'_', %edx\n    je .L_x64_is_alpha_true\n    cmp $'a', %edx\n    jb .L_x64_is_alpha_upper\n    cmp $'z', %edx\n    jbe .L_x64_is_alpha_true\n.L_x64_is_alpha_upper:\n    cmp $'A', %edx\n    jb .L_x64_is_alpha_end\n    cmp $'Z', %edx\n    jbe .L_x64_is_alpha_true\n    jmp .L_x64_is_alpha_end\n.L_x64_is_alpha_true:\n    mov $1, %rax\n.L_x64_is_alpha_end:\n    mov %rbp, %rsp\n    pop %rbp\n    ret\n\nfn_is_alnum:\n    push %rbp\n    mov %rsp, %rbp\n    push %rbx\n    push %r12\n"@;
    let s = if os == OperatingSystem::Windows {
        let s = s + "    mov %rcx, %rbx\n    sub $32, %rsp\n    call fn_is_alpha\n    add $32, %rsp\n    test %rax, %rax\n    jnz .L_x64_is_alnum_end\n    mov %rbx, %rcx\n    sub $32, %rsp\n    call fn_is_digit\n    add $32, %rsp\n"@;
        s
    } else {
        let s = s + "    mov %rdi, %rbx\n    call fn_is_alpha\n    test %rax, %rax\n    jnz .L_x64_is_alnum_end\n    mov %rbx, %rdi\n    call fn_is_digit\n"@;
        s
    };
    let s = s + ".L_x64_is_alnum_end:\n    pop %r12\n    pop %rbx\n    mov %rbp, %rsp\n    pop %rbp\n    ret\n\nfn_is_whitespace:\nfn_is_space:\n    push %rbp\n    mov %rsp, %rbp\n"@;
    let s = if os == OperatingSystem::Windows {
        let s = s + "    mov %rcx, %rdx\n"@;
        s
    } else {
        let s = s + "    mov %rdi, %rdx\n"@;
        s
    };
    let s = s + "    xor %rax, %rax\n    test %rdx, %rdx\n    jz .L_x64_is_space_end\n    cmp $256, %rdx\n    jb .L_x64_is_space_cmp\n    movzbl (%rdx), %edx\n.L_x64_is_space_cmp:\n    cmp $' ', %edx\n    je .L_x64_is_space_true\n    cmp $'\\t', %edx\n    je .L_x64_is_space_true\n    cmp $'\\n', %edx\n    je .L_x64_is_space_true\n    cmp $'\\r', %edx\n    je .L_x64_is_space_true\n    jmp .L_x64_is_space_end\n.L_x64_is_space_true:\n    mov $1, %rax\n.L_x64_is_space_end:\n    mov %rbp, %rsp\n    pop %rbp\n    ret\n\n.global fn_join\nfn_join:\n    push %rbp\n    mov %rsp, %rbp\n    push %rbx\n    push %r12\n    push %r13\n    push %r14\n    push %r15\n    sub $24, %rsp\n"@;
    let s = if os == OperatingSystem::Windows {
        let s = s + "    movq %rcx, %r12\n    movq %rdx, %r13\n"@;
        s
    } else {
        let s = s + "    movq %rdi, %r12\n    movq %rsi, %r13\n"@;
        s
    };
    let s = s + "    testq %r12, %r12\n    jz .L_x64_join_empty\n    movq (%r12), %rax\n    testq %rax, %rax\n    jz .L_x64_join_empty\n    lea alya_str_buf(%rip), %r8\n    movq alya_str_idx(%rip), %rbx\n    cmpq $48000, %rbx\n    jl .L_x64_join_buf_ok\n    xorq %rbx, %rbx\n.L_x64_join_buf_ok:\n    lea (%r8, %rbx), %rdi\n    movq %rdi, %r14\n    xorq %r15, %r15\n.L_x64_join_loop:\n    cmpq (%r12), %r15\n    jge .L_x64_join_finish\n    testq %r15, %r15\n    jz .L_x64_join_copy_elem\n    movq %r13, %rsi\n.L_x64_join_copy_delim:\n    movb (%rsi), %al\n    testb %al, %al\n    jz .L_x64_join_copy_elem\n    movb %al, (%rdi)\n    incq %rsi\n    incq %rdi\n    jmp .L_x64_join_copy_delim\n.L_x64_join_copy_elem:\n    movq 16(%r12), %rsi\n    movq (%rsi, %r15, 8), %rsi\n.L_x64_join_copy_elem_loop:\n    movb (%rsi), %al\n    testb %al, %al\n    jz .L_x64_join_elem_done\n    movb %al, (%rdi)\n    incq %rsi\n    incq %rdi\n    jmp .L_x64_join_copy_elem_loop\n.L_x64_join_elem_done:\n    incq %r15\n    jmp .L_x64_join_loop\n.L_x64_join_finish:\n    movb $0, (%rdi)\n    incq %rdi\n    subq %r8, %rdi\n    addq $7, %rdi\n    andq $-8, %rdi\n    movq %rdi, alya_str_idx(%rip)\n    movq %r14, %rax\n    jmp .L_x64_join_ret\n.L_x64_join_empty:\n    lea alya_str_empty(%rip), %rax\n.L_x64_join_ret:\n    addq $24, %rsp\n    pop %r15\n    pop %r14\n    pop %r13\n    pop %r12\n    pop %rbx\n    mov %rbp, %rsp\n    pop %rbp\n    ret\n\n.global fn_split\nfn_split:\n    push %rbp\n    mov %rsp, %rbp\n    push %rbx\n    push %r12\n    push %r13\n    push %r14\n    push %r15\n    sub $56, %rsp\n"@;
    let s = if os == OperatingSystem::Windows {
        let s = s + "    movq %rcx, %r12\n    movq %rdx, %r13\n    xorq %rcx, %rcx\n    call alya_array_new\n"@;
        s
    } else {
        let s = s + "    movq %rdi, %r12\n    movq %rsi, %r13\n    xorq %rdi, %rdi\n    call alya_array_new\n"@;
        s
    };
    let s = s + "    movq %rax, %r14\n    movq %r13, %rsi\n    xorq %r15, %r15\n.L_x64_split_dlen_loop:\n    cmpb $0, (%rsi, %r15)\n    je .L_x64_split_dlen_done\n    incq %r15\n    jmp .L_x64_split_dlen_loop\n.L_x64_split_dlen_done:\n    testq %r15, %r15\n    jnz .L_x64_split_non_empty_delim\n    movq %r12, 32(%rsp)\n.L_x64_split_empty_loop:\n    movq 32(%rsp), %rsi\n    movb (%rsi), %al\n    testb %al, %al\n    jz .L_x64_split_ret\n    lea alya_str_buf(%rip), %r8\n    movq alya_str_idx(%rip), %rbx\n    cmpq $48000, %rbx\n    jl .L_x64_se1\n    xorq %rbx, %rbx\n.L_x64_se1:\n    lea (%r8, %rbx), %rdi\n    movq %rdi, %r10\n    movb %al, (%rdi)\n    movb $0, 1(%rdi)\n    addq $2, %rdi\n    subq %r8, %rdi\n    addq $7, %rdi\n    andq $-8, %rdi\n    movq %rdi, alya_str_idx(%rip)\n"@;
    let s = if os == OperatingSystem::Windows {
        let s = s + "    movq %r14, %rcx\n    movq %r10, %rdx\n    call alya_array_push\n"@;
        s
    } else {
        let s = s + "    movq %r14, %rdi\n    movq %r10, %rsi\n    call alya_array_push\n"@;
        s
    };
    let s = s + "    incq 32(%rsp)\n    jmp .L_x64_split_empty_loop\n.L_x64_split_non_empty_delim:\n    movq %r12, 32(%rsp)\n    movq %r12, 40(%rsp)\n.L_x64_split_main_loop:\n    movq 32(%rsp), %rsi\n    cmpb $0, (%rsi)\n    je .L_x64_split_emit_final\n    movq %r13, %rdx\n    xorq %rbx, %rbx\n.L_x64_split_cmp_loop:\n    cmpq %r15, %rbx\n    jge .L_x64_split_matched\n    movb (%rdx, %rbx), %al\n    cmpb %al, (%rsi, %rbx)\n    jne .L_x64_split_cmp_fail\n    incq %rbx\n    jmp .L_x64_split_cmp_loop\n.L_x64_split_cmp_fail:\n    incq 32(%rsp)\n    jmp .L_x64_split_main_loop\n.L_x64_split_matched:\n    lea alya_str_buf(%rip), %r8\n    movq alya_str_idx(%rip), %rbx\n    cmpq $48000, %rbx\n    jl .L_x64_se2\n    xorq %rbx, %rbx\n.L_x64_se2:\n    lea (%r8, %rbx), %rdi\n    movq %rdi, 48(%rsp)\n    movq 40(%rsp), %rsi\n    movq 32(%rsp), %rdx\n.L_x64_split_tok_copy:\n    cmpq %rdx, %rsi\n    jge .L_x64_split_tok_done\n    movb (%rsi), %al\n    movb %al, (%rdi)\n    incq %rsi\n    incq %rdi\n    jmp .L_x64_split_tok_copy\n.L_x64_split_tok_done:\n    movb $0, (%rdi)\n    incq %rdi\n    subq %r8, %rdi\n    addq $7, %rdi\n    andq $-8, %rdi\n    movq %rdi, alya_str_idx(%rip)\n"@;
    let s = if os == OperatingSystem::Windows {
        let s = s + "    movq %r14, %rcx\n    movq 48(%rsp), %rdx\n    call alya_array_push\n"@;
        s
    } else {
        let s = s + "    movq %r14, %rdi\n    movq 48(%rsp), %rsi\n    call alya_array_push\n"@;
        s
    };
    let s = s + "    addq %r15, 32(%rsp)\n    movq 32(%rsp), %rax\n    movq %rax, 40(%rsp)\n    jmp .L_x64_split_main_loop\n.L_x64_split_emit_final:\n    lea alya_str_buf(%rip), %r8\n    movq alya_str_idx(%rip), %rbx\n    cmpq $48000, %rbx\n    jl .L_x64_se3\n    xorq %rbx, %rbx\n.L_x64_se3:\n    lea (%r8, %rbx), %rdi\n    movq %rdi, 48(%rsp)\n    movq 40(%rsp), %rsi\n    movq 32(%rsp), %rdx\n.L_x64_split_final_copy:\n    cmpq %rdx, %rsi\n    jge .L_x64_split_final_done\n    movb (%rsi), %al\n    movb %al, (%rdi)\n    incq %rsi\n    incq %rdi\n    jmp .L_x64_split_final_copy\n.L_x64_split_final_done:\n    movb $0, (%rdi)\n    incq %rdi\n    subq %r8, %rdi\n    addq $7, %rdi\n    andq $-8, %rdi\n    movq %rdi, alya_str_idx(%rip)\n"@;
    let s = if os == OperatingSystem::Windows {
        let s = s + "    movq %r14, %rcx\n    movq 48(%rsp), %rdx\n    call alya_array_push\n"@;
        s
    } else {
        let s = s + "    movq %r14, %rdi\n    movq 48(%rsp), %rsi\n    call alya_array_push\n"@;
        s
    };
    let s = s + ".L_x64_split_ret:\n    movq %r14, %rax\n    addq $56, %rsp\n    pop %r15\n    pop %r14\n    pop %r13\n    pop %r12\n    pop %rbx\n    mov %rbp, %rsp\n    pop %rbp\n    ret\n\n.global fn_get_env\nfn_get_env:\n    push %rbp\n    mov %rsp, %rbp\n    push %rbx\n    push %r12\n    push %r13\n    push %r14\n    sub $32, %rsp\n"@;
    let s = if os == OperatingSystem::Windows {
        let s = s + "    mov %rcx, %rbx\n    test %rbx, %rbx\n    jz .L_x64_getenv_empty\n    mov %rbx, %rcx\n    call getenv\n"@;
        s
    } else {
        let s = s + "    mov %rdi, %rbx\n    test %rbx, %rbx\n    jz .L_x64_getenv_empty\n    mov %rbx, %rdi\n    call "@;
        let s = s + symbol_prefix(os);
        let s = s + "getenv\n"@;
        s
    };
    let s = s + "    test %rax, %rax\n    jz .L_x64_getenv_empty\n    mov %rax, %rsi\n    lea alya_str_buf(%rip), %r8\n    mov alya_str_idx(%rip), %rbx\n    cmp $48000, %rbx\n    jl .L_x64_getenv_buf_ok\n    xor %rbx, %rbx\n.L_x64_getenv_buf_ok:\n    lea (%r8, %rbx), %r12\n    mov %r12, %r14\n.L_x64_getenv_copy:\n    movb (%rsi), %al\n    movb %al, (%r14)\n    testb %al, %al\n    jz .L_x64_getenv_done\n    inc %rsi\n    inc %r14\n    jmp .L_x64_getenv_copy\n.L_x64_getenv_done:\n    inc %r14\n    sub %r8, %r14\n    add $7, %r14\n    and $-8, %r14\n    mov %r14, alya_str_idx(%rip)\n    mov %r12, %rax\n    jmp .L_x64_getenv_ret\n.L_x64_getenv_empty:\n    lea alya_str_empty(%rip), %rax\n.L_x64_getenv_ret:\n    add $32, %rsp\n    pop %r14\n    pop %r13\n    pop %r12\n    pop %rbx\n    mov %rbp, %rsp\n    pop %rbp\n    ret\n\n"@;
    s
}


/// Appends the x64 string and character routines, as assembly text after `prefix`.
pub fn emit(out: &mut String, os: OperatingSystem)
    ensures
        final(out)@ == strings_routines(old(out)@, os),
{
    out.append("alya_concat:\n    push %rsi\n    push %rdi\n    push %rbx\n");
    if os == OperatingSystem::Windows {
        out.append("    mov %rcx, %rsi\n    mov %rdx, %r10\n");
    } else {
        out.append("    mov %rsi, %r10\n    mov %rdi, %rsi\n");
    }
    out.append("    lea alya_str_buf(%rip), %r8\n    mov alya_str_idx(%rip), %rbx\n    cmp $48000, %rbx\n    jl .L_x64_concat_ok\n    xor %rbx, %rbx\n.L_x64_concat_ok:\n    lea (%r8, %rbx), %rdi\n    mov %rdi, %rax\n.L_x64_copy1:\n    movb (%rsi), %cl\n    test %cl, %cl\n    jz .L_x64_copy2_start\n    movb %cl, (%rdi)\n    inc %rsi\n    inc %rdi\n    jmp .L_x64_copy1\n.L_x64_copy2_start:\n    mov %r10, %rsi\n.L_x64_copy2:\n    movb (%rsi), %cl\n    test %cl, %cl\n    jz .L_x64_concat_end\n    movb %cl, (%rdi)\n    inc %rsi\n    inc %rdi\n    jmp .L_x64_copy2\n.L_x64_concat_end:\n    movb $0, (%rdi)\n    inc %rdi\n    sub %r8, %rdi\n    add $7, %rdi\n    and $-8, %rdi\n    mov %rdi, alya_str_idx(%rip)\n    pop %rbx\n    pop %rdi\n    pop %rsi\n    ret\n\nfn_len:\n    push %rbp\n    mov %rsp, %rbp\n");
    if os == OperatingSystem::Windows {
        out.append("    mov %rcx, %rdi\n");
    }
    out.append("    xor %rax, %rax\n.L_x64_len_loop:\n    cmpb $0, (%rdi, %rax)\n    je .L_x64_len_end\n    inc %rax\n    jmp .L_x64_len_loop\n.L_x64_len_end:\n    mov %rbp, %rsp\n    pop %rbp\n    ret\n\nfn_ask:\n    push %rbp\n    mov %rsp, %rbp\n    push %rbx\n    push %rsi\n    push %rdi\n    push %r12\n    push %r13\n    sub $56, %rsp\n");
    if os == OperatingSystem::Windows {
        out.append("    mov %rcx, %rdi\n    test %rdi, %rdi\n    jz .L_x64_ask_read\n    lea alya_fmt_prompt(%rip), %rcx\n    mov %rdi, %rdx\n    call printf\n    xor %rcx, %rcx\n    call fflush\n");
    } else {
        out.append("    test %rdi, %rdi\n    jz .L_x64_ask_read\n    mov %rdi, %rsi\n    lea alya_fmt_prompt(%rip), %rdi\n    xor %rax, %rax\n    call ");
        out.append(symbol_prefix_str(os));
        out.append("printf\n    xor %rdi, %rdi\n    call ");
        out.append(symbol_prefix_str(os));
        out.append("fflush\n");
    }
    out.append(".L_x64_ask_read:\n    lea alya_str_buf(%rip), %rbx\n    mov alya_str_idx(%rip), %rsi\n    cmp $48000, %rsi\n    jl .L_x64_ask_buf_ok\n    xor %rsi, %rsi\n.L_x64_ask_buf_ok:\n    lea (%rbx, %rsi), %r12\n    mov %r12, %r13\n.L_x64_ask_loop:\n    call ");
    out.append(symbol_prefix_str(os));
    out.append("getchar\n    cmp $-1, %rax\n    je .L_x64_ask_done\n    cmp $10, %rax\n    je .L_x64_ask_done\n    cmp $13, %rax\n    je .L_x64_ask_loop\n    movb %al, (%r13)\n    inc %r13\n    jmp .L_x64_ask_loop\n.L_x64_ask_done:\n    movb $0, (%r13)\n    inc %r13\n    lea alya_str_buf(%rip), %rbx\n    sub %rbx, %r13\n    add $7, %r13\n    and $-8, %r13\n    mov %r13, alya_str_idx(%rip)\n    mov %r12, %rax\n    add $56, %rsp\n    pop %r13\n    pop %r12\n    pop %rdi\n    pop %rsi\n    pop %rbx\n    mov %rbp, %rsp\n    pop %rbp\n    ret\n\nfn_upper:\n    push %rbp\n    mov %rsp, %rbp\n    push %rbx\n    push %r12\n    push %r13\n");
    if os == OperatingSystem::Windows {
        out.append("    mov %rcx, %rdi\n");
    }
    out.append("    lea alya_str_buf(%rip), %r8\n    mov alya_str_idx(%rip), %rbx\n    cmp $48000, %rbx\n    jl .L_x64_upper_buf_ok\n    xor %rbx, %rbx\n.L_x64_upper_buf_ok:\n    lea (%r8, %rbx), %r12\n    mov %r12, %rax\n    mov %r12, %r13\n.L_x64_upper_loop:\n    movb (%rdi), %cl\n    test %cl, %cl\n    jz .L_x64_upper_done\n    cmpb $'a', %cl\n    jl .L_x64_upper_store\n    cmpb $'z', %cl\n    jg .L_x64_upper_store\n    subb $32, %cl\n.L_x64_upper_store:\n    movb %cl, (%r13)\n    inc %rdi\n    inc %r13\n    jmp .L_x64_upper_loop\n.L_x64_upper_done:\n    movb $0, (%r13)\n    inc %r13\n    sub %r8, %r13\n    add $7, %r13\n    and $-8, %r13\n    mov %r13, alya_str_idx(%rip)\n    pop %r13\n    pop %r12\n    pop %rbx\n    mov %rbp, %rsp\n    pop %rbp\n    ret\n\nfn_lower:\n    push %rbp\n    mov %rsp, %rbp\n    push %rbx\n    push %r12\n    push %r13\n");
    if os == OperatingSystem::Windows {
        out.append("    mov %rcx, %rdi\n");
    }
    out.append("    lea alya_str_buf(%rip), %r8\n    mov alya_str_idx(%rip), %rbx\n    cmp $48000, %rbx\n    jl .L_x64_lower_buf_ok\n    xor %rbx, %rbx\n.L_x64_lower_buf_ok:\n    lea (%r8, %rbx), %r12\n    mov %r12, %rax\n    mov %r12, %r13\n.L_x64_lower_loop:\n    movb (%rdi), %cl\n    test %cl, %cl\n    jz .L_x64_lower_done\n    cmpb $'A', %cl\n    jl .L_x64_lower_store\n    cmpb $'Z', %cl\n    jg .L_x64_lower_store\n    addb $32, %cl\n.L_x64_lower_store:\n    movb %cl, (%r13)\n    inc %rdi\n    inc %r13\n    jmp .L_x64_lower_loop\n.L_x64_lower_done:\n    movb $0, (%r13)\n    inc %r13\n    sub %r8, %r13\n    add $7, %r13\n    and $-8, %r13\n    mov %r13, alya_str_idx(%rip)\n    pop %r13\n    pop %r12\n    pop %rbx\n    mov %rbp, %rsp\n    pop %rbp\n    ret\n\nfn_trim:\n    push %rbp\n    mov %rsp, %rbp\n    push %rbx\n    push %r12\n    push %r13\n    push %r14\n");
    if os == OperatingSystem::Windows {
        out.append("    mov %rcx, %rdi\n");
    }
    out.append(".L_x64_trim_lws:\n    movb (%rdi), %al\n    cmpb $32, %al\n    je .L_x64_trim_lws_inc\n    cmpb $9, %al\n    je .L_x64_trim_lws_inc\n    cmpb $10, %al\n    je .L_x64_trim_lws_inc\n    cmpb $13, %al\n    je .L_x64_trim_lws_inc\n    jmp .L_x64_trim_lws_done\n.L_x64_trim_lws_inc:\n    inc %rdi\n    jmp .L_x64_trim_lws\n.L_x64_trim_lws_done:\n    mov %rdi, %r12\n.L_x64_trim_end_loop:\n    cmpb $0, (%r12)\n    je .L_x64_trim_find_end_done\n    inc %r12\n    jmp .L_x64_trim_end_loop\n.L_x64_trim_find_end_done:\n.L_x64_trim_tws:\n    cmp %rdi, %r12\n    jle .L_x64_trim_copy_start\n    movb -1(%r12), %al\n    cmpb $32, %al\n    je .L_x64_trim_tws_dec\n    cmpb $9, %al\n    je .L_x64_trim_tws_dec\n    cmpb $10, %al\n    je .L_x64_trim_tws_dec\n    cmpb $13, %al\n    je .L_x64_trim_tws_dec\n    jmp .L_x64_trim_copy_start\n.L_x64_trim_tws_dec:\n    dec %r12\n    jmp .L_x64_trim_tws\n.L_x64_trim_copy_start:\n    lea alya_str_buf(%rip), %r8\n    mov alya_str_idx(%rip), %rbx\n    cmp $48000, %rbx\n    jl .L_x64_trim_buf_ok\n    xor %rbx, %rbx\n.L_x64_trim_buf_ok:\n    lea (%r8, %rbx), %r13\n    mov %r13, %rax\n    mov %r13, %r14\n.L_x64_trim_copy_loop:\n    cmp %r12, %rdi\n    jge .L_x64_trim_done\n    movb (%rdi), %cl\n    movb %cl, (%r14)\n    inc %rdi\n    inc %r14\n    jmp .L_x64_trim_copy_loop\n.L_x64_trim_done:\n    movb $0, (%r14)\n    inc %r14\n    sub %r8, %r14\n    add $7, %r14\n    and $-8, %r14\n    mov %r14, alya_str_idx(%rip)\n    pop %r14\n    pop %r13\n    pop %r12\n    pop %rbx\n    mov %rbp, %rsp\n    pop %rbp\n    ret\n\nfn_contains:\n    push %rbp\n    mov %rsp, %rbp\n");
    if os == OperatingSystem::Windows {
        out.append("    mov %rcx, %rdi\n    mov %rdx, %rsi\n");
    }
    out.append("    cmpb $0, (%rsi)\n    je .L_x64_contains_match\n.L_x64_contains_outer:\n    cmpb $0, (%rdi)\n    je .L_x64_contains_nomatch\n    mov %rdi, %rax\n    mov %rsi, %rdx\n.L_x64_contains_inner:\n    movb (%rdx), %cl\n    test %cl, %cl\n    jz .L_x64_contains_match\n    movb (%rax), %r8b\n    cmp %r8b, %cl\n    jne .L_x64_contains_next\n    inc %rax\n    inc %rdx\n    jmp .L_x64_contains_inner\n.L_x64_contains_next:\n    inc %rdi\n    jmp .L_x64_contains_outer\n.L_x64_contains_match:\n    mov $1, %rax\n    jmp .L_x64_contains_end\n.L_x64_contains_nomatch:\n    xor %rax, %rax\n.L_x64_contains_end:\n    mov %rbp, %rsp\n    pop %rbp\n    ret\n\nfn_substr:\nfn_substring:\n    push %rbp\n    mov %rsp, %rbp\n    push %rbx\n    push %r12\n    push %r13\n");
    if os == OperatingSystem::Windows {
        out.append("    mov %rcx, %rdi\n    mov %rdx, %rsi\n    mov %r8, %rdx\n");
    }
    out.append("    cmp $0, %rsi\n    jge .L_x64_sub_adv\n    xor %rsi, %rsi\n.L_x64_sub_adv:\n    test %rsi, %rsi\n    jle .L_x64_sub_adv_done\n    cmpb $0, (%rdi)\n    je .L_x64_sub_adv_done\n    inc %rdi\n    dec %rsi\n    jmp .L_x64_sub_adv\n.L_x64_sub_adv_done:\n    lea alya_str_buf(%rip), %r8\n    mov alya_str_idx(%rip), %rbx\n    cmp $48000, %rbx\n    jl .L_x64_sub_buf_ok\n    xor %rbx, %rbx\n.L_x64_sub_buf_ok:\n    lea (%r8, %rbx), %r12\n    mov %r12, %rax\n    mov %r12, %r13\n.L_x64_sub_copy:\n    cmpb $0, (%rdi)\n    je .L_x64_sub_done\n    test %rdx, %rdx\n    jz .L_x64_sub_done\n    movb (%rdi), %cl\n    movb %cl, (%r13)\n    inc %rdi\n    inc %r13\n    cmp $0, %rdx\n    jl .L_x64_sub_copy\n    dec %rdx\n    jmp .L_x64_sub_copy\n.L_x64_sub_done:\n    movb $0, (%r13)\n    inc %r13\n    sub %r8, %r13\n    add $7, %r13\n    and $-8, %r13\n    mov %r13, alya_str_idx(%rip)\n    pop %r13\n    pop %r12\n    pop %rbx\n    mov %rbp, %rsp\n    pop %rbp\n    ret\n\nfn_char_at:\n    push %rbp\n    mov %rsp, %rbp\n    push %rbx\n    push %r12\n    push %r13\n");
    if os == OperatingSystem::Windows {
        out.append("    mov %rcx, %rdi\n    mov %rdx, %rsi\n");
    }
    out.append("    lea alya_str_empty(%rip), %rax\n    test %rdi, %rdi\n    jz .L_x64_char_at_end\n    cmp $0, %rsi\n    jl .L_x64_char_at_end\n.L_x64_char_at_adv:\n    test %rsi, %rsi\n    jle .L_x64_char_at_fetch\n    cmpb $0, (%rdi)\n    je .L_x64_char_at_end\n    inc %rdi\n    dec %rsi\n    jmp .L_x64_char_at_adv\n.L_x64_char_at_fetch:\n    movzbl (%rdi), %edx\n    test %edx, %edx\n    jz .L_x64_char_at_end\n    lea alya_str_buf(%rip), %r8\n    mov alya_str_idx(%rip), %rbx\n    cmp $48000, %rbx\n    jl .L_x64_char_at_buf_ok\n    xor %rbx, %rbx\n.L_x64_char_at_buf_ok:\n    lea (%r8, %rbx), %r12\n    mov %r12, %rax\n    movb %dl, (%r12)\n    movb $0, 1(%r12)\n    add $2, %r12\n    sub %r8, %r12\n    add $7, %r12\n    and $-8, %r12\n    mov %r12, alya_str_idx(%rip)\n.L_x64_char_at_end:\n    pop %r13\n    pop %r12\n    pop %rbx\n    mov %rbp, %rsp\n    pop %rbp\n    ret\n\nfn_char_code:\nfn_ord:\n    push %rbp\n    mov %rsp, %rbp\n");
    if os == OperatingSystem::Windows {
        out.append("    mov %rcx, %rax\n");
    } else {
        out.append("    mov %rdi, %rax\n");
    }
    out.append("    test %rax, %rax\n    jz .L_x64_ord_ret\n    cmp $256, %rax\n    jb .L_x64_ord_ret\n    movzbl (%rax), %eax\n.L_x64_ord_ret:\n    mov %rbp, %rsp\n    pop %rbp\n    ret\n\nfn_char_from_code:\nfn_chr:\n    push %rbp\n    mov %rsp, %rbp\n    push %rbx\n    push %r12\n");
    if os == OperatingSystem::Windows {
        out.append("    mov %rcx, %rdx\n");
    } else {
        out.append("    mov %rdi, %rdx\n");
    }
    out.append("    lea alya_str_empty(%rip), %rax\n    test %rdx, %rdx\n    jz .L_x64_chr_end\n    cmp $256, %rdx\n    jb .L_x64_chr_code\n    movzbl (%rdx), %edx\n.L_x64_chr_code:\n    and $255, %edx\n    jz .L_x64_chr_end\n    lea alya_str_buf(%rip), %r8\n    mov alya_str_idx(%rip), %rbx\n    cmp $48000, %rbx\n    jl .L_x64_chr_buf_ok\n    xor %rbx, %rbx\n.L_x64_chr_buf_ok:\n    lea (%r8, %rbx), %r12\n    mov %r12, %rax\n    movb %dl, (%r12)\n    movb $0, 1(%r12)\n    add $2, %r12\n    sub %r8, %r12\n    add $7, %r12\n    and $-8, %r12\n    mov %r12, alya_str_idx(%rip)\n.L_x64_chr_end:\n    pop %r12\n    pop %rbx\n    mov %rbp, %rsp\n    pop %rbp\n    ret\n\n.global fn_str\nfn_str:\n    push %rbp\n    mov %rsp, %rbp\n    push %rbx\n    push %r12\n    push %r13\n    push %r14\n");
    if os == OperatingSystem::Windows {
        out.append("    mov %rcx, %rax\n");
    } else {
        out.append("    mov %rdi, %rax\n");
    }
    out.append("    lea alya_str_buf(%rip), %r8\n    mov alya_str_idx(%rip), %rbx\n    cmp $48000, %rbx\n    jl .L_x64_str_buf_ok\n    xor %rbx, %rbx\n.L_x64_str_buf_ok:\n    lea (%r8, %rbx), %r12\n    mov %r12, %r14\n    test %rax, %rax\n    jnz .L_x64_str_chk_neg\n    movb $'0', (%r12)\n    movb $0, 1(%r12)\n    add $2, %r12\n    jmp .L_x64_str_finish\n.L_x64_str_chk_neg:\n    jns .L_x64_str_pos\n    movb $'-', (%r12)\n    inc %r12\n    neg %rax\n.L_x64_str_pos:\n    xor %r13, %r13\n    mov $10, %rbx\n.L_x64_str_div_loop:\n    xor %rdx, %rdx\n    div %rbx\n    add $'0', %dl\n    push %rdx\n    inc %r13\n    test %rax, %rax\n    jnz .L_x64_str_div_loop\n.L_x64_str_copy_loop:\n    pop %rdx\n    movb %dl, (%r12)\n    inc %r12\n    dec %r13\n    jnz .L_x64_str_copy_loop\n    movb $0, (%r12)\n    inc %r12\n.L_x64_str_finish:\n    sub %r8, %r12\n    add $7, %r12\n    and $-8, %r12\n    mov %r12, alya_str_idx(%rip)\n    mov %r14, %rax\n    pop %r14\n    pop %r13\n    pop %r12\n    pop %rbx\n    mov %rbp, %rsp\n    pop %rbp\n    ret\n\nfn_is_digit:\n    push %rbp\n    mov %rsp, %rbp\n");
    if os == OperatingSystem::Windows {
        out.append("    mov %rcx, %rdx\n");
    } else {
        out.append("    mov %rdi, %rdx\n");
    }
    out.append("    xor %rax, %rax\n    test %rdx, %rdx\n    jz .L_x64_is_digit_end\n    cmp $256, %rdx\n    jb .L_x64_is_digit_cmp\n    movzbl (%rdx), %edx\n.L_x64_is_digit_cmp:\n    cmp $'0', %edx\n    jb .L_x64_is_digit_end\n    cmp $'9', %edx\n    ja .L_x64_is_digit_end\n    mov $1, %rax\n.L_x64_is_digit_end:\n    mov %rbp, %rsp\n    pop %rbp\n    ret\n\nfn_is_alpha:\n    push %rbp\n    mov %rsp, %rbp\n");
    if os == OperatingSystem::Windows {
        out.append("    mov %rcx, %rdx\n");
    } else {
        out.append("    mov %rdi, %rdx\n");
    }
    out.append("    xor %rax, %rax\n    test %rdx, %rdx\n    jz .L_x64_is_alpha_end\n    cmp $256, %rdx\n    jb .L_x64_is_alpha_cmp\n    movzbl (%rdx), %edx\n.L_x64_is_alpha_cmp:\n    cmp $'_', %edx\n    je .L_x64_is_alpha_true\n    cmp $'a', %edx\n    jb .L_x64_is_alpha_upper\n    cmp $'z', %edx\n    jbe .L_x64_is_alpha_true\n.L_x64_is_alpha_upper:\n    cmp $'A', %edx\n    jb .L_x64_is_alpha_end\n    cmp $'Z', %edx\n    jbe .L_x64_is_alpha_true\n    jmp .L_x64_is_alpha_end\n.L_x64_is_alpha_true:\n    mov $1, %rax\n.L_x64_is_alpha_end:\n    mov %rbp, %rsp\n    pop %rbp\n    ret\n\nfn_is_alnum:\n    push %rbp\n    mov %rsp, %rbp\n    push %rbx\n    push %r12\n");
    if os == OperatingSystem::Windows {
        out.append("    mov %rcx, %rbx\n    sub $32, %rsp\n    call fn_is_alpha\n    add $32, %rsp\n    test %rax, %rax\n    jnz .L_x64_is_alnum_end\n    mov %rbx, %rcx\n    sub $32, %rsp\n    call fn_is_digit\n    add $32, %rsp\n");
    } else {
        out.append("    mov %rdi, %rbx\n    call fn_is_alpha\n    test %rax, %rax\n    jnz .L_x64_is_alnum_end\n    mov %rbx, %rdi\n    call fn_is_digit\n");
    }
    out.append(".L_x64_is_alnum_end:\n    pop %r12\n    pop %rbx\n    mov %rbp, %rsp\n    pop %rbp\n    ret\n\nfn_is_whitespace:\nfn_is_space:\n    push %rbp\n    mov %rsp, %rbp\n");
    if os == OperatingSystem::Windows {
        out.append("    mov %rcx, %rdx\n");
    } else {
        out.append("    mov %rdi, %rdx\n");
    }
    out.append("    xor %rax, %rax\n    test %rdx, %rdx\n    jz .L_x64_is_space_end\n    cmp $256, %rdx\n    jb .L_x64_is_space_cmp\n    movzbl (%rdx), %edx\n.L_x64_is_space_cmp:\n    cmp $' ', %edx\n    je .L_x64_is_space_true\n    cmp $'\\t', %edx\n    je .L_x64_is_space_true\n    cmp $'\\n', %edx\n    je .L_x64_is_space_true\n    cmp $'\\r', %edx\n    je .L_x64_is_space_true\n    jmp .L_x64_is_space_end\n.L_x64_is_space_true:\n    mov $1, %rax\n.L_x64_is_space_end:\n    mov %rbp, %rsp\n    pop %rbp\n    ret\n\n.global fn_join\nfn_join:\n    push %rbp\n    mov %rsp, %rbp\n    push %rbx\n    push %r12\n    push %r13\n    push %r14\n    push %r15\n    sub $24, %rsp\n");
    if os == OperatingSystem::Windows {
        out.append("    movq %rcx, %r12\n    movq %rdx, %r13\n");
    } else {
        out.append("    movq %rdi, %r12\n    movq %rsi, %r13\n");
    }
    out.append("    testq %r12, %r12\n    jz .L_x64_join_empty\n    movq (%r12), %rax\n    testq %rax, %rax\n    jz .L_x64_join_empty\n    lea alya_str_buf(%rip), %r8\n    movq alya_str_idx(%rip), %rbx\n    cmpq $48000, %rbx\n    jl .L_x64_join_buf_ok\n    xorq %rbx, %rbx\n.L_x64_join_buf_ok:\n    lea (%r8, %rbx), %rdi\n    movq %rdi, %r14\n    xorq %r15, %r15\n.L_x64_join_loop:\n    cmpq (%r12), %r15\n    jge .L_x64_join_finish\n    testq %r15, %r15\n    jz .L_x64_join_copy_elem\n    movq %r13, %rsi\n.L_x64_join_copy_delim:\n    movb (%rsi), %al\n    testb %al, %al\n    jz .L_x64_join_copy_elem\n    movb %al, (%rdi)\n    incq %rsi\n    incq %rdi\n    jmp .L_x64_join_copy_delim\n.L_x64_join_copy_elem:\n    movq 16(%r12), %rsi\n    movq (%rsi, %r15, 8), %rsi\n.L_x64_join_copy_elem_loop:\n    movb (%rsi), %al\n    testb %al, %al\n    jz .L_x64_join_elem_done\n    movb %al, (%rdi)\n    incq %rsi\n    incq %rdi\n    jmp .L_x64_join_copy_elem_loop\n.L_x64_join_elem_done:\n    incq %r15\n    jmp .L_x64_join_loop\n.L_x64_join_finish:\n    movb $0, (%rdi)\n    incq %rdi\n    subq %r8, %rdi\n    addq $7, %rdi\n    andq $-8, %rdi\n    movq %rdi, alya_str_idx(%rip)\n    movq %r14, %rax\n    jmp .L_x64_join_ret\n.L_x64_join_empty:\n    lea alya_str_empty(%rip), %rax\n.L_x64_join_ret:\n    addq $24, %rsp\n    pop %r15\n    pop %r14\n    pop %r13\n    pop %r12\n    pop %rbx\n    mov %rbp, %rsp\n    pop %rbp\n    ret\n\n.global fn_split\nfn_split:\n    push %rbp\n    mov %rsp, %rbp\n    push %rbx\n    push %r12\n    push %r13\n    push %r14\n    push %r15\n    sub $56, %rsp\n");
    if os == OperatingSystem::Windows {
        out.append("    movq %rcx, %r12\n    movq %rdx, %r13\n    xorq %rcx, %rcx\n    call alya_array_new\n");
    } else {
        out.append("    movq %rdi, %r12\n    movq %rsi, %r13\n    xorq %rdi, %rdi\n    call alya_array_new\n");
    }
    out.append("    movq %rax, %r14\n    movq %r13, %rsi\n    xorq %r15, %r15\n.L_x64_split_dlen_loop:\n    cmpb $0, (%rsi, %r15)\n    je .L_x64_split_dlen_done\n    incq %r15\n    jmp .L_x64_split_dlen_loop\n.L_x64_split_dlen_done:\n    testq %r15, %r15\n    jnz .L_x64_split_non_empty_delim\n    movq %r12, 32(%rsp)\n.L_x64_split_empty_loop:\n    movq 32(%rsp), %rsi\n    movb (%rsi), %al\n    testb %al, %al\n    jz .L_x64_split_ret\n    lea alya_str_buf(%rip), %r8\n    movq alya_str_idx(%rip), %rbx\n    cmpq $48000, %rbx\n    jl .L_x64_se1\n    xorq %rbx, %rbx\n.L_x64_se1:\n    lea (%r8, %rbx), %rdi\n    movq %rdi, %r10\n    movb %al, (%rdi)\n    movb $0, 1(%rdi)\n    addq $2, %rdi\n    subq %r8, %rdi\n    addq $7, %rdi\n    andq $-8, %rdi\n    movq %rdi, alya_str_idx(%rip)\n");
    if os == OperatingSystem::Windows {
        out.append("    movq %r14, %rcx\n    movq %r10, %rdx\n    call alya_array_push\n");
    } else {
        out.append("    movq %r14, %rdi\n    movq %r10, %rsi\n    call alya_array_push\n");
    }
    out.append("    incq 32(%rsp)\n    jmp .L_x64_split_empty_loop\n.L_x64_split_non_empty_delim:\n    movq %r12, 32(%rsp)\n    movq %r12, 40(%rsp)\n.L_x64_split_main_loop:\n    movq 32(%rsp), %rsi\n    cmpb $0, (%rsi)\n    je .L_x64_split_emit_final\n    movq %r13, %rdx\n    xorq %rbx, %rbx\n.L_x64_split_cmp_loop:\n    cmpq %r15, %rbx\n    jge .L_x64_split_matched\n    movb (%rdx, %rbx), %al\n    cmpb %al, (%rsi, %rbx)\n    jne .L_x64_split_cmp_fail\n    incq %rbx\n    jmp .L_x64_split_cmp_loop\n.L_x64_split_cmp_fail:\n    incq 32(%rsp)\n    jmp .L_x64_split_main_loop\n.L_x64_split_matched:\n    lea alya_str_buf(%rip), %r8\n    movq alya_str_idx(%rip), %rbx\n    cmpq $48000, %rbx\n    jl .L_x64_se2\n    xorq %rbx, %rbx\n.L_x64_se2:\n    lea (%r8, %rbx), %rdi\n    movq %rdi, 48(%rsp)\n    movq 40(%rsp), %rsi\n    movq 32(%rsp), %rdx\n.L_x64_split_tok_copy:\n    cmpq %rdx, %rsi\n    jge .L_x64_split_tok_done\n    movb (%rsi), %al\n    movb %al, (%rdi)\n    incq %rsi\n    incq %rdi\n    jmp .L_x64_split_tok_copy\n.L_x64_split_tok_done:\n    movb $0, (%rdi)\n    incq %rdi\n    subq %r8, %rdi\n    addq $7, %rdi\n    andq $-8, %rdi\n    movq %rdi, alya_str_idx(%rip)\n");
    if os == OperatingSystem::Windows {
        out.append("    movq %r14, %rcx\n    movq 48(%rsp), %rdx\n    call alya_array_push\n");
    } else {
        out.append("    movq %r14, %rdi\n    movq 48(%rsp), %rsi\n    call alya_array_push\n");
    }
    out.append("    addq %r15, 32(%rsp)\n    movq 32(%rsp), %rax\n    movq %rax, 40(%rsp)\n    jmp .L_x64_split_main_loop\n.L_x64_split_emit_final:\n    lea alya_str_buf(%rip), %r8\n    movq alya_str_idx(%rip), %rbx\n    cmpq $48000, %rbx\n    jl .L_x64_se3\n    xorq %rbx, %rbx\n.L_x64_se3:\n    lea (%r8, %rbx), %rdi\n    movq %rdi, 48(%rsp)\n    movq 40(%rsp), %rsi\n    movq 32(%rsp), %rdx\n.L_x64_split_final_copy:\n    cmpq %rdx, %rsi\n    jge .L_x64_split_final_done\n    movb (%rsi), %al\n    movb %al, (%rdi)\n    incq %rsi\n    incq %rdi\n    jmp .L_x64_split_final_copy\n.L_x64_split_final_done:\n    movb $0, (%rdi)\n    incq %rdi\n    subq %r8, %rdi\n    addq $7, %rdi\n    andq $-8, %rdi\n    movq %rdi, alya_str_idx(%rip)\n");
    if os == OperatingSystem::Windows {
        out.append("    movq %r14, %rcx\n    movq 48(%rsp), %rdx\n    call alya_array_push\n");
    } else {
        out.append("    movq %r14, %rdi\n    movq 48(%rsp), %rsi\n    call alya_array_push\n");
    }
    out.append(".L_x64_split_ret:\n    movq %r14, %rax\n    addq $56, %rsp\n    pop %r15\n    pop %r14\n    pop %r13\n    pop %r12\n    pop %rbx\n    mov %rbp, %rsp\n    pop %rbp\n    ret\n\n.global fn_get_env\nfn_get_env:\n    push %rbp\n    mov %rsp, %rbp\n    push %rbx\n    push %r12\n    push %r13\n    push %r14\n    sub $32, %rsp\n");
    if os == OperatingSystem::Windows {
        out.append("    mov %rcx, %rbx\n    test %rbx, %rbx\n    jz .L_x64_getenv_empty\n    mov %rbx, %rcx\n    call getenv\n");
    } else {
        out.append("    mov %rdi, %rbx\n    test %rbx, %rbx\n    jz .L_x64_getenv_empty\n    mov %rbx, %rdi\n    call ");
        out.append(symbol_prefix_str(os));
        out.append("getenv\n");
    }
    out.append("    test %rax, %rax\n    jz .L_x64_getenv_empty\n    mov %rax, %rsi\n    lea alya_str_buf(%rip), %r8\n    mov alya_str_idx(%rip), %rbx\n    cmp $48000, %rbx\n    jl .L_x64_getenv_buf_ok\n    xor %rbx, %rbx\n.L_x64_getenv_buf_ok:\n    lea (%r8, %rbx), %r12\n    mov %r12, %r14\n.L_x64_getenv_copy:\n    movb (%rsi), %al\n    movb %al, (%r14)\n    testb %al, %al\n    jz .L_x64_getenv_done\n    inc %rsi\n    inc %r14\n    jmp .L_x64_getenv_copy\n.L_x64_getenv_done:\n    inc %r14\n    sub %r8, %r14\n    add $7, %r14\n    and $-8, %r14\n    mov %r14, alya_str_idx(%rip)\n    mov %r12, %rax\n    jmp .L_x64_getenv_ret\n.L_x64_getenv_empty:\n    lea alya_str_empty(%rip), %rax\n.L_x64_getenv_ret:\n    add $32, %rsp\n    pop %r14\n    pop %r13\n    pop %r12\n    pop %rbx\n    mov %rbp, %rsp\n    pop %rbp\n    ret\n\n");
}

/// The routines appended after any prefix do not depend on it.
#[verifier::rlimit(100)]
proof fn lemma_first_append(prefix: Seq<char>, os: OperatingSystem)
    ensures
        strings_first(prefix, os) == prefix + strings_first(seq![], os),
{
    assert(strings_first(prefix, os) =~= prefix + strings_first(seq![], os));
}

#[verifier::rlimit(100)]
proof fn lemma_middle_append(prefix: Seq<char>, os: OperatingSystem)
    ensures
        strings_middle(prefix, os) == prefix + strings_middle(seq![], os),
{
    assert(strings_middle(prefix, os) =~= prefix + strings_middle(seq![], os));
}

#[verifier::rlimit(100)]
proof fn lemma_later_append(prefix: Seq<char>, os: OperatingSystem)
    ensures
        strings_later(prefix, os) == prefix + strings_later(seq![], os),
{
    assert(strings_later(prefix, os) =~= prefix + strings_later(seq![], os));
}

/// The string routines appended after any prefix do not depend on it.
pub proof fn lemma_routines_append(prefix: Seq<char>, os: OperatingSystem)
    ensures
        strings_routines(prefix, os) == prefix + strings_routines(seq![], os),
{
    let a = strings_first(seq![], os);
    let b = strings_middle(seq![], os);
    let c = strings_later(seq![], os);
    lemma_first_append(prefix, os);
    lemma_middle_append(prefix + a, os);
    lemma_later_append(prefix + a + b, os);
    lemma_middle_append(a, os);
    lemma_later_append(a + b, os);
    assert(prefix + a + b + c =~= prefix + (a + b + c));
}
} // verus!
