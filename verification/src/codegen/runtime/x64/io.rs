use vstd::prelude::*;
use crate::codegen::target::{OperatingSystem, symbol_prefix, symbol_prefix_str};

verus! {

/// The x64 console and process I/O routines, as assembly text after `prefix`.
pub open spec fn io_routines(prefix: Seq<char>, os: OperatingSystem) -> Seq<char> {
    let s = prefix;
    let s = s + "fn_ask:\n    push %rbp\n    mov %rsp, %rbp\n    push %rbx\n    push %rsi\n    push %rdi\n    push %r12\n    push %r13\n    sub $56, %rsp\n"@;
    let s = if os == OperatingSystem::Windows {
        let s = s + "    mov %rcx, %rdi\n    test %rdi, %rdi\n    jz .L_x64_ask_read\n    lea alya_fmt_prompt(%rip), %rcx\n    mov %rdi, %rdx\n    call printf\n    xor %rcx, %rcx\n    call fflush\n"@;
        s
    } else {
        let s = s + "    test %rdi, %rdi\n    jz .L_x64_ask_read\n    mov %rdi, %rsi\n    lea alya_fmt_prompt(%rip), %rdi\n    xor %rax, %rax\n    call "@;
        let s = s + symbol_prefix(os);
        let s = s + "printf\n    xor %rdi, %rdi\n    call "@;
        let s = s + symbol_prefix(os);
        let s = s + "fflush\n"@;
        s
    };
    let s = s + ".L_x64_ask_read:\n    lea alya_str_buf(%rip), %rbx\n    mov alya_str_idx(%rip), %rsi\n    cmp $950000, %rsi\n    jl .L_x64_ask_buf_ok\n    xor %rsi, %rsi\n.L_x64_ask_buf_ok:\n    lea (%rbx, %rsi), %r12\n    mov %r12, %r13\n.L_x64_ask_loop:\n    call "@;
    let s = s + symbol_prefix(os);
    let s = s + "getchar\n    cmp $-1, %rax\n    je .L_x64_ask_done\n    cmp $10, %rax\n    je .L_x64_ask_done\n    cmp $13, %rax\n    je .L_x64_ask_loop\n    movb %al, (%r13)\n    inc %r13\n    jmp .L_x64_ask_loop\n.L_x64_ask_done:\n    movb $0, (%r13)\n    inc %r13\n    lea alya_str_buf(%rip), %rbx\n    sub %rbx, %r13\n    add $7, %r13\n    and $-8, %r13\n    mov %r13, alya_str_idx(%rip)\n    mov %r12, %rax\n    add $56, %rsp\n    pop %r13\n    pop %r12\n    pop %rdi\n    pop %rsi\n    pop %rbx\n    mov %rbp, %rsp\n    pop %rbp\n    ret\n\n.global fn_get_env\nfn_get_env:\n    push %rbp\n    mov %rsp, %rbp\n    push %rbx\n    push %r12\n    push %r13\n    push %r14\n    sub $32, %rsp\n"@;
    let s = if os == OperatingSystem::Windows {
        let s = s + "    mov %rcx, %rbx\n    test %rbx, %rbx\n    jz .L_x64_getenv_empty\n    mov %rbx, %rcx\n    call getenv\n"@;
        s
    } else {
        let s = s + "    mov %rdi, %rbx\n    test %rbx, %rbx\n    jz .L_x64_getenv_empty\n    mov %rbx, %rdi\n    call "@;
        let s = s + symbol_prefix(os);
        let s = s + "getenv\n"@;
        s
    };
    let s = s + "    test %rax, %rax\n    jz .L_x64_getenv_empty\n    mov %rax, %rsi\n    lea alya_str_buf(%rip), %r8\n    mov alya_str_idx(%rip), %rbx\n    cmp $950000, %rbx\n    jl .L_x64_getenv_buf_ok\n    xor %rbx, %rbx\n.L_x64_getenv_buf_ok:\n    lea (%r8, %rbx), %r12\n    mov %r12, %r14\n.L_x64_getenv_copy:\n    movb (%rsi), %al\n    movb %al, (%r14)\n    testb %al, %al\n    jz .L_x64_getenv_done\n    inc %rsi\n    inc %r14\n    jmp .L_x64_getenv_copy\n.L_x64_getenv_done:\n    inc %r14\n    sub %r8, %r14\n    add $7, %r14\n    and $-8, %r14\n    mov %r14, alya_str_idx(%rip)\n    mov %r12, %rax\n    jmp .L_x64_getenv_ret\n.L_x64_getenv_empty:\n    lea alya_str_empty(%rip), %rax\n.L_x64_getenv_ret:\n    add $32, %rsp\n    pop %r14\n    pop %r13\n    pop %r12\n    pop %rbx\n    mov %rbp, %rsp\n    pop %rbp\n    ret\n\n.global fn_target_os\nfn_target_os:\n    lea alya_str_target_os(%rip), %rax\n    ret\n\n.global fn_target_arch\nfn_target_arch:\n    lea alya_str_target_arch(%rip), %rax\n    ret\n\n.global fn_set_console_output_cp\nfn_set_console_output_cp:\n"@;
    let s = if os == OperatingSystem::Windows {
        let s = s + "    push %rbp\n    mov %rsp, %rbp\n    sub $32, %rsp\n    call SetConsoleOutputCP\n    add $32, %rsp\n    mov %rbp, %rsp\n    pop %rbp\n    ret\n\n"@;
        s
    } else {
        let s = s + "    mov $1, %rax\n    ret\n\n"@;
        s
    };
    let s = s + ".global fn_set_console_input_cp\nfn_set_console_input_cp:\n"@;
    let s = if os == OperatingSystem::Windows {
        let s = s + "    push %rbp\n    mov %rsp, %rbp\n    sub $32, %rsp\n    call SetConsoleCP\n    add $32, %rsp\n    mov %rbp, %rsp\n    pop %rbp\n    ret\n\n"@;
        s
    } else {
        let s = s + "    mov $1, %rax\n    ret\n\n"@;
        s
    };
    let s = s + ".global fn_get_console_output_cp\nfn_get_console_output_cp:\n"@;
    let s = if os == OperatingSystem::Windows {
        let s = s + "    push %rbp\n    mov %rsp, %rbp\n    sub $32, %rsp\n    call GetConsoleOutputCP\n    add $32, %rsp\n    mov %rbp, %rsp\n    pop %rbp\n    ret\n\n"@;
        s
    } else {
        let s = s + "    mov $65001, %rax\n    ret\n\n"@;
        s
    };
    let s = s + ".global fn_get_console_input_cp\nfn_get_console_input_cp:\n"@;
    let s = if os == OperatingSystem::Windows {
        let s = s + "    push %rbp\n    mov %rsp, %rbp\n    sub $32, %rsp\n    call GetConsoleCP\n    add $32, %rsp\n    mov %rbp, %rsp\n    pop %rbp\n    ret\n\n"@;
        s
    } else {
        let s = s + "    mov $65001, %rax\n    ret\n\n"@;
        s
    };
    let s = s + ".global fn_enable_virtual_terminal\nfn_enable_virtual_terminal:\n"@;
    let s = if os == OperatingSystem::Windows {
        let s = s + "    push %rbp\n    mov %rsp, %rbp\n    sub $48, %rsp\n    mov $-11, %ecx\n    call GetStdHandle\n    mov %rax, %rcx\n    lea 32(%rsp), %rdx\n    call GetConsoleMode\n    mov $-11, %ecx\n    call GetStdHandle\n    mov %rax, %rcx\n    mov 32(%rsp), %edx\n    or $4, %edx\n    call SetConsoleMode\n    add $48, %rsp\n    mov %rbp, %rsp\n    pop %rbp\n    ret\n\n"@;
        s
    } else {
        let s = s + "    mov $1, %rax\n    ret\n\n"@;
        s
    };
    let s = s + ".global fn_set_console_title\nfn_set_console_title:\n"@;
    let s = if os == OperatingSystem::Windows {
        let s = s + "    push %rbp\n    mov %rsp, %rbp\n    sub $32, %rsp\n    call SetConsoleTitleA\n    add $32, %rsp\n    mov %rbp, %rsp\n    pop %rbp\n    mov $1, %rax\n    ret\n\n"@;
        s
    } else {
        let s = s + "    push %rbp\n    mov %rsp, %rbp\n    sub $16, %rsp\n    mov %rdi, %rsi\n    lea alya_fmt_console_title(%rip), %rdi\n    xor %rax, %rax\n    call "@;
        let s = s + symbol_prefix(os);
        let s = s + "printf\n    xor %rdi, %rdi\n    call "@;
        let s = s + symbol_prefix(os);
        let s = s + "fflush\n    mov %rbp, %rsp\n    pop %rbp\n    mov $1, %rax\n    ret\n\n"@;
        s
    };
    let s = s + ".global fn_beep_console\nfn_beep_console:\n"@;
    let s = if os == OperatingSystem::Windows {
        let s = s + "    push %rbp\n    mov %rsp, %rbp\n    sub $32, %rsp\n    mov $750, %ecx\n    mov $150, %edx\n    call Beep\n    add $32, %rsp\n    mov %rbp, %rsp\n    pop %rbp\n    mov $1, %rax\n    ret\n\n"@;
        s
    } else {
        let s = s + "    push %rbp\n    mov %rsp, %rbp\n    sub $16, %rsp\n    lea alya_str_console_bell(%rip), %rdi\n    xor %rax, %rax\n    call "@;
        let s = s + symbol_prefix(os);
        let s = s + "printf\n    xor %rdi, %rdi\n    call "@;
        let s = s + symbol_prefix(os);
        let s = s + "fflush\n    mov %rbp, %rsp\n    pop %rbp\n    mov $1, %rax\n    ret\n\n"@;
        s
    };
    let s = s + ".global fn_clear_console\nfn_clear_console:\n    push %rbp\n    mov %rsp, %rbp\n    sub $32, %rsp\n"@;
    let s = if os == OperatingSystem::Windows {
        let s = s + "    lea alya_str_console_clear(%rip), %rcx\n    call printf\n    xor %rcx, %rcx\n    call fflush\n"@;
        s
    } else {
        let s = s + "    lea alya_str_console_clear(%rip), %rdi\n    xor %rax, %rax\n    call "@;
        let s = s + symbol_prefix(os);
        let s = s + "printf\n    xor %rdi, %rdi\n    call "@;
        let s = s + symbol_prefix(os);
        let s = s + "fflush\n"@;
        s
    };
    let s = s + "    add $32, %rsp\n    mov %rbp, %rsp\n    pop %rbp\n    mov $1, %rax\n    ret\n\n"@;
    s
}

/// Appends the x64 console and process I/O routines, as assembly text after `prefix`.
pub fn emit(out: &mut String, os: OperatingSystem)
    ensures
        final(out)@ == io_routines(old(out)@, os),
{
    out.append("fn_ask:\n    push %rbp\n    mov %rsp, %rbp\n    push %rbx\n    push %rsi\n    push %rdi\n    push %r12\n    push %r13\n    sub $56, %rsp\n");
    if os == OperatingSystem::Windows {
        out.append("    mov %rcx, %rdi\n    test %rdi, %rdi\n    jz .L_x64_ask_read\n    lea alya_fmt_prompt(%rip), %rcx\n    mov %rdi, %rdx\n    call printf\n    xor %rcx, %rcx\n    call fflush\n");
    } else {
        out.append("    test %rdi, %rdi\n    jz .L_x64_ask_read\n    mov %rdi, %rsi\n    lea alya_fmt_prompt(%rip), %rdi\n    xor %rax, %rax\n    call ");
        out.append(symbol_prefix_str(os));
        out.append("printf\n    xor %rdi, %rdi\n    call ");
        out.append(symbol_prefix_str(os));
        out.append("fflush\n");
    }
    out.append(".L_x64_ask_read:\n    lea alya_str_buf(%rip), %rbx\n    mov alya_str_idx(%rip), %rsi\n    cmp $950000, %rsi\n    jl .L_x64_ask_buf_ok\n    xor %rsi, %rsi\n.L_x64_ask_buf_ok:\n    lea (%rbx, %rsi), %r12\n    mov %r12, %r13\n.L_x64_ask_loop:\n    call ");
    out.append(symbol_prefix_str(os));
    out.append("getchar\n    cmp $-1, %rax\n    je .L_x64_ask_done\n    cmp $10, %rax\n    je .L_x64_ask_done\n    cmp $13, %rax\n    je .L_x64_ask_loop\n    movb %al, (%r13)\n    inc %r13\n    jmp .L_x64_ask_loop\n.L_x64_ask_done:\n    movb $0, (%r13)\n    inc %r13\n    lea alya_str_buf(%rip), %rbx\n    sub %rbx, %r13\n    add $7, %r13\n    and $-8, %r13\n    mov %r13, alya_str_idx(%rip)\n    mov %r12, %rax\n    add $56, %rsp\n    pop %r13\n    pop %r12\n    pop %rdi\n    pop %rsi\n    pop %rbx\n    mov %rbp, %rsp\n    pop %rbp\n    ret\n\n.global fn_get_env\nfn_get_env:\n    push %rbp\n    mov %rsp, %rbp\n    push %rbx\n    push %r12\n    push %r13\n    push %r14\n    sub $32, %rsp\n");
    if os == OperatingSystem::Windows {
        out.append("    mov %rcx, %rbx\n    test %rbx, %rbx\n    jz .L_x64_getenv_empty\n    mov %rbx, %rcx\n    call getenv\n");
    } else {
        out.append("    mov %rdi, %rbx\n    test %rbx, %rbx\n    jz .L_x64_getenv_empty\n    mov %rbx, %rdi\n    call ");
        out.append(symbol_prefix_str(os));
        out.append("getenv\n");
    }
    out.append("    test %rax, %rax\n    jz .L_x64_getenv_empty\n    mov %rax, %rsi\n    lea alya_str_buf(%rip), %r8\n    mov alya_str_idx(%rip), %rbx\n    cmp $950000, %rbx\n    jl .L_x64_getenv_buf_ok\n    xor %rbx, %rbx\n.L_x64_getenv_buf_ok:\n    lea (%r8, %rbx), %r12\n    mov %r12, %r14\n.L_x64_getenv_copy:\n    movb (%rsi), %al\n    movb %al, (%r14)\n    testb %al, %al\n    jz .L_x64_getenv_done\n    inc %rsi\n    inc %r14\n    jmp .L_x64_getenv_copy\n.L_x64_getenv_done:\n    inc %r14\n    sub %r8, %r14\n    add $7, %r14\n    and $-8, %r14\n    mov %r14, alya_str_idx(%rip)\n    mov %r12, %rax\n    jmp .L_x64_getenv_ret\n.L_x64_getenv_empty:\n    lea alya_str_empty(%rip), %rax\n.L_x64_getenv_ret:\n    add $32, %rsp\n    pop %r14\n    pop %r13\n    pop %r12\n    pop %rbx\n    mov %rbp, %rsp\n    pop %rbp\n    ret\n\n.global fn_target_os\nfn_target_os:\n    lea alya_str_target_os(%rip), %rax\n    ret\n\n.global fn_target_arch\nfn_target_arch:\n    lea alya_str_target_arch(%rip), %rax\n    ret\n\n.global fn_set_console_output_cp\nfn_set_console_output_cp:\n");
    if os == OperatingSystem::Windows {
        out.append("    push %rbp\n    mov %rsp, %rbp\n    sub $32, %rsp\n    call SetConsoleOutputCP\n    add $32, %rsp\n    mov %rbp, %rsp\n    pop %rbp\n    ret\n\n");
    } else {
        out.append("    mov $1, %rax\n    ret\n\n");
    }
    out.append(".global fn_set_console_input_cp\nfn_set_console_input_cp:\n");
    if os == OperatingSystem::Windows {
        out.append("    push %rbp\n    mov %rsp, %rbp\n    sub $32, %rsp\n    call SetConsoleCP\n    add $32, %rsp\n    mov %rbp, %rsp\n    pop %rbp\n    ret\n\n");
    } else {
        out.append("    mov $1, %rax\n    ret\n\n");
    }
    out.append(".global fn_get_console_output_cp\nfn_get_console_output_cp:\n");
    if os == OperatingSystem::Windows {
        out.append("    push %rbp\n    mov %rsp, %rbp\n    sub $32, %rsp\n    call GetConsoleOutputCP\n    add $32, %rsp\n    mov %rbp, %rsp\n    pop %rbp\n    ret\n\n");
    } else {
        out.append("    mov $65001, %rax\n    ret\n\n");
    }
    out.append(".global fn_get_console_input_cp\nfn_get_console_input_cp:\n");
    if os == OperatingSystem::Windows {
        out.append("    push %rbp\n    mov %rsp, %rbp\n    sub $32, %rsp\n    call GetConsoleCP\n    add $32, %rsp\n    mov %rbp, %rsp\n    pop %rbp\n    ret\n\n");
    } else {
        out.append("    mov $65001, %rax\n    ret\n\n");
    }
    out.append(".global fn_enable_virtual_terminal\nfn_enable_virtual_terminal:\n");
    if os == OperatingSystem::Windows {
        out.append("    push %rbp\n    mov %rsp, %rbp\n    sub $48, %rsp\n    mov $-11, %ecx\n    call GetStdHandle\n    mov %rax, %rcx\n    lea 32(%rsp), %rdx\n    call GetConsoleMode\n    mov $-11, %ecx\n    call GetStdHandle\n    mov %rax, %rcx\n    mov 32(%rsp), %edx\n    or $4, %edx\n    call SetConsoleMode\n    add $48, %rsp\n    mov %rbp, %rsp\n    pop %rbp\n    ret\n\n");
    } else {
        out.append("    mov $1, %rax\n    ret\n\n");
    }
    out.append(".global fn_set_console_title\nfn_set_console_title:\n");
    if os == OperatingSystem::Windows {
        out.append("    push %rbp\n    mov %rsp, %rbp\n    sub $32, %rsp\n    call SetConsoleTitleA\n    add $32, %rsp\n    mov %rbp, %rsp\n    pop %rbp\n    mov $1, %rax\n    ret\n\n");
    } else {
        out.append("    push %rbp\n    mov %rsp, %rbp\n    sub $16, %rsp\n    mov %rdi, %rsi\n    lea alya_fmt_console_title(%rip), %rdi\n    xor %rax, %rax\n    call ");
        out.append(symbol_prefix_str(os));
        out.append("printf\n    xor %rdi, %rdi\n    call ");
        out.append(symbol_prefix_str(os));
        out.append("fflush\n    mov %rbp, %rsp\n    pop %rbp\n    mov $1, %rax\n    ret\n\n");
    }
    out.append(".global fn_beep_console\nfn_beep_console:\n");
    if os == OperatingSystem::Windows {
        out.append("    push %rbp\n    mov %rsp, %rbp\n    sub $32, %rsp\n    mov $750, %ecx\n    mov $150, %edx\n    call Beep\n    add $32, %rsp\n    mov %rbp, %rsp\n    pop %rbp\n    mov $1, %rax\n    ret\n\n");
    } else {
        out.append("    push %rbp\n    mov %rsp, %rbp\n    sub $16, %rsp\n    lea alya_str_console_bell(%rip), %rdi\n    xor %rax, %rax\n    call ");
        out.append(symbol_prefix_str(os));
        out.append("printf\n    xor %rdi, %rdi\n    call ");
        out.append(symbol_prefix_str(os));
        out.append("fflush\n    mov %rbp, %rsp\n    pop %rbp\n    mov $1, %rax\n    ret\n\n");
    }
    out.append(".global fn_clear_console\nfn_clear_console:\n    push %rbp\n    mov %rsp, %rbp\n    sub $32, %rsp\n");
    if os == OperatingSystem::Windows {
        out.append("    lea alya_str_console_clear(%rip), %rcx\n    call printf\n    xor %rcx, %rcx\n    call fflush\n");
    } else {
        out.append("    lea alya_str_console_clear(%rip), %rdi\n    xor %rax, %rax\n    call ");
        out.append(symbol_prefix_str(os));
        out.append("printf\n    xor %rdi, %rdi\n    call ");
        out.append(symbol_prefix_str(os));
        out.append("fflush\n");
    }
    out.append("    add $32, %rsp\n    mov %rbp, %rsp\n    pop %rbp\n    mov $1, %rax\n    ret\n\n");
}

} // verus!
