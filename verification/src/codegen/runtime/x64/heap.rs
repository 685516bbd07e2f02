use vstd::prelude::*;
use crate::codegen::target::{OperatingSystem, symbol_prefix, symbol_prefix_str};

verus! {

/// The x64 heap allocation routines, as assembly text after `prefix`.
pub open spec fn heap_routines(prefix: Seq<char>, os: OperatingSystem) -> Seq<char> {
    let s = prefix;
    let s = s + ".global fn_alloc\nfn_alloc:\n    push %rbp\n    mov %rsp, %rbp\n    sub $32, %rsp\n"@;
    let s = if os == OperatingSystem::Windows {
        let s = s + "    add %rcx, alya_allocated_bytes(%rip)\n    call malloc\n"@;
        s
    } else {
        let s = s + "    add %rdi, alya_allocated_bytes(%rip)\n    call "@;
        let s = s + symbol_prefix(os);
        let s = s + "malloc\n"@;
        s
    };
    let s = s + "    add $32, %rsp\n    mov %rbp, %rsp\n    pop %rbp\n    ret\n\n.global fn_free\nfn_free:\n    push %rbp\n    mov %rsp, %rbp\n    sub $32, %rsp\n"@;
    let s = if os == OperatingSystem::Windows {
        let s = s + "    test %rcx, %rcx\n    jz .L_x64_free_done\n    call free\n"@;
        s
    } else {
        let s = s + "    test %rdi, %rdi\n    jz .L_x64_free_done\n    call "@;
        let s = s + symbol_prefix(os);
        let s = s + "free\n"@;
        s
    };
    let s = s + ".L_x64_free_done:\n    xor %rax, %rax\n    add $32, %rsp\n    mov %rbp, %rsp\n    pop %rbp\n    ret\n\n.global fn_realloc\nfn_realloc:\n    push %rbp\n    mov %rsp, %rbp\n    sub $32, %rsp\n"@;
    let s = if os == OperatingSystem::Windows {
        let s = s + "    add %rdx, alya_allocated_bytes(%rip)\n    call realloc\n"@;
        s
    } else {
        let s = s + "    add %rsi, alya_allocated_bytes(%rip)\n    call "@;
        let s = s + symbol_prefix(os);
        let s = s + "realloc\n"@;
        s
    };
    let s = s + "    add $32, %rsp\n    mov %rbp, %rsp\n    pop %rbp\n    ret\n\n.global fn_copy_mem\nfn_copy_mem:\n    push %rbp\n    mov %rsp, %rbp\n    sub $32, %rsp\n"@;
    let s = if os == OperatingSystem::Windows {
        let s = s + "    call memcpy\n"@;
        s
    } else {
        let s = s + "    call "@;
        let s = s + symbol_prefix(os);
        let s = s + "memcpy\n"@;
        s
    };
    let s = s + "    add $32, %rsp\n    mov %rbp, %rsp\n    pop %rbp\n    ret\n\n.global fn_zero_mem\nfn_zero_mem:\n    push %rbp\n    mov %rsp, %rbp\n    sub $32, %rsp\n"@;
    let s = if os == OperatingSystem::Windows {
        let s = s + "    mov %rdx, %r8\n    xor %rdx, %rdx\n    call memset\n"@;
        s
    } else {
        let s = s + "    mov %rsi, %rdx\n    xor %rsi, %rsi\n    call "@;
        let s = s + symbol_prefix(os);
        let s = s + "memset\n"@;
        s
    };
    let s = s + "    add $32, %rsp\n    mov %rbp, %rsp\n    pop %rbp\n    ret\n\n.global fn_peek_byte\nfn_peek_byte:\n    push %rbp\n    mov %rsp, %rbp\n"@;
    let s = if os == OperatingSystem::Windows {
        let s = s + "    add %rdx, %rcx\n    movzbq (%rcx), %rax\n"@;
        s
    } else {
        let s = s + "    add %rsi, %rdi\n    movzbq (%rdi), %rax\n"@;
        s
    };
    let s = s + "    mov %rbp, %rsp\n    pop %rbp\n    ret\n\n.global fn_poke_byte\nfn_poke_byte:\n    push %rbp\n    mov %rsp, %rbp\n"@;
    let s = if os == OperatingSystem::Windows {
        let s = s + "    add %rdx, %rcx\n    movb %r8b, (%rcx)\n"@;
        s
    } else {
        let s = s + "    add %rsi, %rdi\n    movb %dl, (%rdi)\n"@;
        s
    };
    let s = s + "    xor %rax, %rax\n    mov %rbp, %rsp\n    pop %rbp\n    ret\n\n.global fn_peek_int\nfn_peek_int:\n    push %rbp\n    mov %rsp, %rbp\n"@;
    let s = if os == OperatingSystem::Windows {
        let s = s + "    add %rdx, %rcx\n    movq (%rcx), %rax\n"@;
        s
    } else {
        let s = s + "    add %rsi, %rdi\n    movq (%rdi), %rax\n"@;
        s
    };
    let s = s + "    mov %rbp, %rsp\n    pop %rbp\n    ret\n\n.global fn_poke_int\nfn_poke_int:\n    push %rbp\n    mov %rsp, %rbp\n"@;
    let s = if os == OperatingSystem::Windows {
        let s = s + "    add %rdx, %rcx\n    movq %r8, (%rcx)\n"@;
        s
    } else {
        let s = s + "    add %rsi, %rdi\n    movq %rdx, (%rdi)\n"@;
        s
    };
    let s = s + "    xor %rax, %rax\n    mov %rbp, %rsp\n    pop %rbp\n    ret\n\n.global fn_str_from_ptr\nfn_str_from_ptr:\n    push %rbp\n    mov %rsp, %rbp\n"@;
    let s = if os == OperatingSystem::Windows {
        let s = s + "    test %rcx, %rcx\n    jnz .L_x64_sfp_ok\n    lea alya_str_empty(%rip), %rax\n    jmp .L_x64_sfp_ret\n.L_x64_sfp_ok:\n    mov %rcx, %rax\n"@;
        s
    } else {
        let s = s + "    test %rdi, %rdi\n    jnz .L_x64_sfp_ok\n    lea alya_str_empty(%rip), %rax\n    jmp .L_x64_sfp_ret\n.L_x64_sfp_ok:\n    mov %rdi, %rax\n"@;
        s
    };
    let s = s + ".L_x64_sfp_ret:\n    mov %rbp, %rsp\n    pop %rbp\n    ret\n\n.global fn_str_to_ptr\nfn_str_to_ptr:\n    push %rbp\n    mov %rsp, %rbp\n"@;
    let s = if os == OperatingSystem::Windows {
        let s = s + "    mov %rcx, %rax\n"@;
        s
    } else {
        let s = s + "    mov %rdi, %rax\n"@;
        s
    };
    let s = s + "    mov %rbp, %rsp\n    pop %rbp\n    ret\n\n.global fn_mem_allocated\nfn_mem_allocated:\n    mov alya_allocated_bytes(%rip), %rax\n    ret\n\n.global fn_mem_reset_alloc\nfn_mem_reset_alloc:\n    movq $0, alya_allocated_bytes(%rip)\n    xor %rax, %rax\n    ret\n\n.global fn_str_clone\nfn_str_clone:\n    push %rbp\n    mov %rsp, %rbp\n    push %rbx\n    push %r12\n    push %r13\n    sub $40, %rsp\n"@;
    let s = if os == OperatingSystem::Windows {
        let s = s + "    mov %rcx, %rbx\n"@;
        s
    } else {
        let s = s + "    mov %rdi, %rbx\n"@;
        s
    };
    let s = s + "    test %rbx, %rbx\n    jz .L_x64_sclone_empty\n    mov %rbx, %r12\n    xor %r13, %r13\n.L_x64_sclone_len:\n    cmpb $0, (%r12)\n    je .L_x64_sclone_alloc\n    inc %r12\n    inc %r13\n    jmp .L_x64_sclone_len\n.L_x64_sclone_alloc:\n    lea 1(%r13), %r12\n"@;
    let s = if os == OperatingSystem::Windows {
        let s = s + "    mov %r12, %rcx\n    call malloc\n"@;
        s
    } else {
        let s = s + "    mov %r12, %rdi\n    call "@;
        let s = s + symbol_prefix(os);
        let s = s + "malloc\n"@;
        s
    };
    let s = s + "    test %rax, %rax\n    jz .L_x64_sclone_empty\n    add %r12, alya_allocated_bytes(%rip)\n"@;
    let s = if os == OperatingSystem::Windows {
        let s = s + "    mov %rax, %rcx\n    mov %rbx, %rdx\n    mov %r12, %r8\n    call memcpy\n"@;
        s
    } else {
        let s = s + "    mov %rax, %rdi\n    mov %rbx, %rsi\n    mov %r12, %rdx\n    call "@;
        let s = s + symbol_prefix(os);
        let s = s + "memcpy\n"@;
        s
    };
    let s = s + "    jmp .L_x64_sclone_done\n.L_x64_sclone_empty:\n    lea alya_str_empty(%rip), %rax\n.L_x64_sclone_done:\n    add $40, %rsp\n    pop %r13\n    pop %r12\n    pop %rbx\n    mov %rbp, %rsp\n    pop %rbp\n    ret\n\n.global fn_str_free\nfn_str_free:\n    push %rbp\n    mov %rsp, %rbp\n    sub $32, %rsp\n"@;
    let s = if os == OperatingSystem::Windows {
        let s = s + "    test %rcx, %rcx\n    jz .L_x64_sfree_done\n    call free\n"@;
        s
    } else {
        let s = s + "    test %rdi, %rdi\n    jz .L_x64_sfree_done\n    call "@;
        let s = s + symbol_prefix(os);
        let s = s + "free\n"@;
        s
    };
    let s = s + ".L_x64_sfree_done:\n    xor %rax, %rax\n    add $32, %rsp\n    mov %rbp, %rsp\n    pop %rbp\n    ret\n\n"@;
    s
}

/// Appends the x64 heap allocation routines, as assembly text after `prefix`.
pub fn emit(out: &mut String, os: OperatingSystem)
    ensures
        final(out)@ == heap_routines(old(out)@, os),
{
    out.append(".global fn_alloc\nfn_alloc:\n    push %rbp\n    mov %rsp, %rbp\n    sub $32, %rsp\n");
    if os == OperatingSystem::Windows {
        out.append("    add %rcx, alya_allocated_bytes(%rip)\n    call malloc\n");
    } else {
        out.append("    add %rdi, alya_allocated_bytes(%rip)\n    call ");
        out.append(symbol_prefix_str(os));
        out.append("malloc\n");
    }
    out.append("    add $32, %rsp\n    mov %rbp, %rsp\n    pop %rbp\n    ret\n\n.global fn_free\nfn_free:\n    push %rbp\n    mov %rsp, %rbp\n    sub $32, %rsp\n");
    if os == OperatingSystem::Windows {
        out.append("    test %rcx, %rcx\n    jz .L_x64_free_done\n    call free\n");
    } else {
        out.append("    test %rdi, %rdi\n    jz .L_x64_free_done\n    call ");
        out.append(symbol_prefix_str(os));
        out.append("free\n");
    }
    out.append(".L_x64_free_done:\n    xor %rax, %rax\n    add $32, %rsp\n    mov %rbp, %rsp\n    pop %rbp\n    ret\n\n.global fn_realloc\nfn_realloc:\n    push %rbp\n    mov %rsp, %rbp\n    sub $32, %rsp\n");
    if os == OperatingSystem::Windows {
        out.append("    add %rdx, alya_allocated_bytes(%rip)\n    call realloc\n");
    } else {
        out.append("    add %rsi, alya_allocated_bytes(%rip)\n    call ");
        out.append(symbol_prefix_str(os));
        out.append("realloc\n");
    }
    out.append("    add $32, %rsp\n    mov %rbp, %rsp\n    pop %rbp\n    ret\n\n.global fn_copy_mem\nfn_copy_mem:\n    push %rbp\n    mov %rsp, %rbp\n    sub $32, %rsp\n");
    if os == OperatingSystem::Windows {
        out.append("    call memcpy\n");
    } else {
        out.append("    call ");
        out.append(symbol_prefix_str(os));
        out.append("memcpy\n");
    }
    out.append("    add $32, %rsp\n    mov %rbp, %rsp\n    pop %rbp\n    ret\n\n.global fn_zero_mem\nfn_zero_mem:\n    push %rbp\n    mov %rsp, %rbp\n    sub $32, %rsp\n");
    if os == OperatingSystem::Windows {
        out.append("    mov %rdx, %r8\n    xor %rdx, %rdx\n    call memset\n");
    } else {
        out.append("    mov %rsi, %rdx\n    xor %rsi, %rsi\n    call ");
        out.append(symbol_prefix_str(os));
        out.append("memset\n");
    }
    out.append("    add $32, %rsp\n    mov %rbp, %rsp\n    pop %rbp\n    ret\n\n.global fn_peek_byte\nfn_peek_byte:\n    push %rbp\n    mov %rsp, %rbp\n");
    if os == OperatingSystem::Windows {
        out.append("    add %rdx, %rcx\n    movzbq (%rcx), %rax\n");
    } else {
        out.append("    add %rsi, %rdi\n    movzbq (%rdi), %rax\n");
    }
    out.append("    mov %rbp, %rsp\n    pop %rbp\n    ret\n\n.global fn_poke_byte\nfn_poke_byte:\n    push %rbp\n    mov %rsp, %rbp\n");
    if os == OperatingSystem::Windows {
        out.append("    add %rdx, %rcx\n    movb %r8b, (%rcx)\n");
    } else {
        out.append("    add %rsi, %rdi\n    movb %dl, (%rdi)\n");
    }
    out.append("    xor %rax, %rax\n    mov %rbp, %rsp\n    pop %rbp\n    ret\n\n.global fn_peek_int\nfn_peek_int:\n    push %rbp\n    mov %rsp, %rbp\n");
    if os == OperatingSystem::Windows {
        out.append("    add %rdx, %rcx\n    movq (%rcx), %rax\n");
    } else {
        out.append("    add %rsi, %rdi\n    movq (%rdi), %rax\n");
    }
    out.append("    mov %rbp, %rsp\n    pop %rbp\n    ret\n\n.global fn_poke_int\nfn_poke_int:\n    push %rbp\n    mov %rsp, %rbp\n");
    if os == OperatingSystem::Windows {
        out.append("    add %rdx, %rcx\n    movq %r8, (%rcx)\n");
    } else {
        out.append("    add %rsi, %rdi\n    movq %rdx, (%rdi)\n");
    }
    out.append("    xor %rax, %rax\n    mov %rbp, %rsp\n    pop %rbp\n    ret\n\n.global fn_str_from_ptr\nfn_str_from_ptr:\n    push %rbp\n    mov %rsp, %rbp\n");
    if os == OperatingSystem::Windows {
        out.append("    test %rcx, %rcx\n    jnz .L_x64_sfp_ok\n    lea alya_str_empty(%rip), %rax\n    jmp .L_x64_sfp_ret\n.L_x64_sfp_ok:\n    mov %rcx, %rax\n");
    } else {
        out.append("    test %rdi, %rdi\n    jnz .L_x64_sfp_ok\n    lea alya_str_empty(%rip), %rax\n    jmp .L_x64_sfp_ret\n.L_x64_sfp_ok:\n    mov %rdi, %rax\n");
    }
    out.append(".L_x64_sfp_ret:\n    mov %rbp, %rsp\n    pop %rbp\n    ret\n\n.global fn_str_to_ptr\nfn_str_to_ptr:\n    push %rbp\n    mov %rsp, %rbp\n");
    if os == OperatingSystem::Windows {
        out.append("    mov %rcx, %rax\n");
    } else {
        out.append("    mov %rdi, %rax\n");
    }
    out.append("    mov %rbp, %rsp\n    pop %rbp\n    ret\n\n.global fn_mem_allocated\nfn_mem_allocated:\n    mov alya_allocated_bytes(%rip), %rax\n    ret\n\n.global fn_mem_reset_alloc\nfn_mem_reset_alloc:\n    movq $0, alya_allocated_bytes(%rip)\n    xor %rax, %rax\n    ret\n\n.global fn_str_clone\nfn_str_clone:\n    push %rbp\n    mov %rsp, %rbp\n    push %rbx\n    push %r12\n    push %r13\n    sub $40, %rsp\n");
    if os == OperatingSystem::Windows {
        out.append("    mov %rcx, %rbx\n");
    } else {
        out.append("    mov %rdi, %rbx\n");
    }
    out.append("    test %rbx, %rbx\n    jz .L_x64_sclone_empty\n    mov %rbx, %r12\n    xor %r13, %r13\n.L_x64_sclone_len:\n    cmpb $0, (%r12)\n    je .L_x64_sclone_alloc\n    inc %r12\n    inc %r13\n    jmp .L_x64_sclone_len\n.L_x64_sclone_alloc:\n    lea 1(%r13), %r12\n");
    if os == OperatingSystem::Windows {
        out.append("    mov %r12, %rcx\n    call malloc\n");
    } else {
        out.append("    mov %r12, %rdi\n    call ");
        out.append(symbol_prefix_str(os));
        out.append("malloc\n");
    }
    out.append("    test %rax, %rax\n    jz .L_x64_sclone_empty\n    add %r12, alya_allocated_bytes(%rip)\n");
    if os == OperatingSystem::Windows {
        out.append("    mov %rax, %rcx\n    mov %rbx, %rdx\n    mov %r12, %r8\n    call memcpy\n");
    } else {
        out.append("    mov %rax, %rdi\n    mov %rbx, %rsi\n    mov %r12, %rdx\n    call ");
        out.append(symbol_prefix_str(os));
        out.append("memcpy\n");
    }
    out.append("    jmp .L_x64_sclone_done\n.L_x64_sclone_empty:\n    lea alya_str_empty(%rip), %rax\n.L_x64_sclone_done:\n    add $40, %rsp\n    pop %r13\n    pop %r12\n    pop %rbx\n    mov %rbp, %rsp\n    pop %rbp\n    ret\n\n.global fn_str_free\nfn_str_free:\n    push %rbp\n    mov %rsp, %rbp\n    sub $32, %rsp\n");
    if os == OperatingSystem::Windows {
        out.append("    test %rcx, %rcx\n    jz .L_x64_sfree_done\n    call free\n");
    } else {
        out.append("    test %rdi, %rdi\n    jz .L_x64_sfree_done\n    call ");
        out.append(symbol_prefix_str(os));
        out.append("free\n");
    }
    out.append(".L_x64_sfree_done:\n    xor %rax, %rax\n    add $32, %rsp\n    mov %rbp, %rsp\n    pop %rbp\n    ret\n\n");
}

} // verus!
