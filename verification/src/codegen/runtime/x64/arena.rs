use vstd::prelude::*;
use crate::codegen::target::{OperatingSystem, symbol_prefix, symbol_prefix_str};

verus! {

/// The x64 arena allocator, as assembly text after `prefix`.
pub open spec fn arena_routines(prefix: Seq<char>, os: OperatingSystem) -> Seq<char> {
    let s = prefix;
    let s = s + ".global fn_arena_create\nfn_arena_create:\n    push %rbp\n    mov %rsp, %rbp\n    push %r12\n    push %r13\n    sub $32, %rsp\n"@;
    let s = if os == OperatingSystem::Windows {
        let s = s + "    mov %rcx, %r12\n"@;
        s
    } else {
        let s = s + "    mov %rdi, %r12\n"@;
        s
    };
    let s = s + "    cmp $0, %r12\n    jg .L_x64_ac_size_ok\n    mov $65536, %r12\n.L_x64_ac_size_ok:\n"@;
    let s = if os == OperatingSystem::Windows {
        let s = s + "    mov $1, %rcx\n    mov $24, %rdx\n    call calloc\n"@;
        s
    } else {
        let s = s + "    mov $1, %rdi\n    mov $24, %rsi\n    call "@;
        let s = s + symbol_prefix(os);
        let s = s + "calloc\n"@;
        s
    };
    let s = s + "    mov %rax, %r13\n    lea 24(%r12), %rax\n"@;
    let s = if os == OperatingSystem::Windows {
        let s = s + "    mov %rax, %rcx\n    call malloc\n"@;
        s
    } else {
        let s = s + "    mov %rax, %rdi\n    call "@;
        let s = s + symbol_prefix(os);
        let s = s + "malloc\n"@;
        s
    };
    let s = s + "    movq $0, (%rax)\n    movq %r12, 8(%rax)\n    movq $0, 16(%rax)\n    movq %rax, (%r13)\n    movq %r12, 8(%r13)\n    movq $0, 16(%r13)\n    mov %r13, %rax\n    add $32, %rsp\n    pop %r13\n    pop %r12\n    mov %rbp, %rsp\n    pop %rbp\n    ret\n\n.global fn_arena_alloc\nfn_arena_alloc:\n    push %rbp\n    mov %rsp, %rbp\n    push %r12\n    push %r13\n    push %r14\n    sub $40, %rsp\n"@;
    let s = if os == OperatingSystem::Windows {
        let s = s + "    mov %rcx, %r12\n    mov %rdx, %r13\n"@;
        s
    } else {
        let s = s + "    mov %rdi, %r12\n    mov %rsi, %r13\n"@;
        s
    };
    let s = s + "    test %r12, %r12\n    jz .L_x64_aa_fail\n    cmp $0, %r13\n    jle .L_x64_aa_fail\n    add $7, %r13\n    and $-8, %r13\n    mov (%r12), %r14\n    test %r14, %r14\n    jz .L_x64_aa_new_chunk\n    mov 16(%r14), %rax\n    add %r13, %rax\n    cmp 8(%r14), %rax\n    jg .L_x64_aa_new_chunk\n    mov 16(%r14), %rdx\n    lea 24(%r14, %rdx), %rax\n    mov 16(%r14), %rcx\n    add %r13, %rcx\n    mov %rcx, 16(%r14)\n    add %r13, 16(%r12)\n    jmp .L_x64_aa_ret\n.L_x64_aa_new_chunk:\n    mov 8(%r12), %rdx\n    cmp %rdx, %r13\n    cmovg %r13, %rdx\n    mov %rdx, -8(%rbp)\n    lea 24(%rdx), %rax\n"@;
    let s = if os == OperatingSystem::Windows {
        let s = s + "    mov %rax, %rcx\n    call malloc\n"@;
        s
    } else {
        let s = s + "    mov %rax, %rdi\n    call "@;
        let s = s + symbol_prefix(os);
        let s = s + "malloc\n"@;
        s
    };
    let s = s + "    mov -8(%rbp), %rdx\n    mov (%r12), %rcx\n    mov %rcx, (%rax)\n    mov %rdx, 8(%rax)\n    mov %r13, 16(%rax)\n    mov %rax, (%r12)\n    add %r13, 16(%r12)\n    lea 24(%rax), %rax\n    jmp .L_x64_aa_ret\n.L_x64_aa_fail:\n    xor %rax, %rax\n.L_x64_aa_ret:\n    add $40, %rsp\n    pop %r14\n    pop %r13\n    pop %r12\n    mov %rbp, %rsp\n    pop %rbp\n    ret\n\n.global fn_arena_reset\nfn_arena_reset:\n    push %rbp\n    mov %rsp, %rbp\n"@;
    let s = if os == OperatingSystem::Windows {
        let s = s + "    mov %rcx, %rax\n"@;
        s
    } else {
        let s = s + "    mov %rdi, %rax\n"@;
        s
    };
    let s = s + "    test %rax, %rax\n    jz .L_x64_ar_done\n    mov (%rax), %rdx\n.L_x64_ar_loop:\n    test %rdx, %rdx\n    jz .L_x64_ar_fin\n    movq $0, 16(%rdx)\n    mov (%rdx), %rdx\n    jmp .L_x64_ar_loop\n.L_x64_ar_fin:\n    movq $0, 16(%rax)\n.L_x64_ar_done:\n    xor %rax, %rax\n    mov %rbp, %rsp\n    pop %rbp\n    ret\n\n.global fn_arena_destroy\nfn_arena_destroy:\n    push %rbp\n    mov %rsp, %rbp\n    push %r12\n    push %r13\n    push %r14\n    sub $40, %rsp\n"@;
    let s = if os == OperatingSystem::Windows {
        let s = s + "    mov %rcx, %r12\n"@;
        s
    } else {
        let s = s + "    mov %rdi, %r12\n"@;
        s
    };
    let s = s + "    test %r12, %r12\n    jz .L_x64_ad_done\n    mov (%r12), %r13\n.L_x64_ad_loop:\n    test %r13, %r13\n    jz .L_x64_ad_free_arena\n    mov (%r13), %r14\n"@;
    let s = if os == OperatingSystem::Windows {
        let s = s + "    mov %r13, %rcx\n    call free\n"@;
        s
    } else {
        let s = s + "    mov %r13, %rdi\n    call "@;
        let s = s + symbol_prefix(os);
        let s = s + "free\n"@;
        s
    };
    let s = s + "    mov %r14, %r13\n    jmp .L_x64_ad_loop\n.L_x64_ad_free_arena:\n"@;
    let s = if os == OperatingSystem::Windows {
        let s = s + "    mov %r12, %rcx\n    call free\n"@;
        s
    } else {
        let s = s + "    mov %r12, %rdi\n    call "@;
        let s = s + symbol_prefix(os);
        let s = s + "free\n"@;
        s
    };
    let s = s + ".L_x64_ad_done:\n    xor %rax, %rax\n    add $40, %rsp\n    pop %r14\n    pop %r13\n    pop %r12\n    mov %rbp, %rsp\n    pop %rbp\n    ret\n\n.global fn_arena_allocated\nfn_arena_allocated:\n    push %rbp\n    mov %rsp, %rbp\n"@;
    let s = if os == OperatingSystem::Windows {
        let s = s + "    test %rcx, %rcx\n    jz .L_x64_aal_zero\n    mov 16(%rcx), %rax\n"@;
        s
    } else {
        let s = s + "    test %rdi, %rdi\n    jz .L_x64_aal_zero\n    mov 16(%rdi), %rax\n"@;
        s
    };
    let s = s + "    jmp .L_x64_aal_ret\n.L_x64_aal_zero:\n    xor %rax, %rax\n.L_x64_aal_ret:\n    mov %rbp, %rsp\n    pop %rbp\n    ret\n\n"@;
    s
}

/// Appends the x64 arena allocator, as assembly text after `prefix`.
pub fn emit(out: &mut String, os: OperatingSystem)
    ensures
        final(out)@ == arena_routines(old(out)@, os),
{
    out.append(".global fn_arena_create\nfn_arena_create:\n    push %rbp\n    mov %rsp, %rbp\n    push %r12\n    push %r13\n    sub $32, %rsp\n");
    if os == OperatingSystem::Windows {
        out.append("    mov %rcx, %r12\n");
    } else {
        out.append("    mov %rdi, %r12\n");
    }
    out.append("    cmp $0, %r12\n    jg .L_x64_ac_size_ok\n    mov $65536, %r12\n.L_x64_ac_size_ok:\n");
    if os == OperatingSystem::Windows {
        out.append("    mov $1, %rcx\n    mov $24, %rdx\n    call calloc\n");
    } else {
        out.append("    mov $1, %rdi\n    mov $24, %rsi\n    call ");
        out.append(symbol_prefix_str(os));
        out.append("calloc\n");
    }
    out.append("    mov %rax, %r13\n    lea 24(%r12), %rax\n");
    if os == OperatingSystem::Windows {
        out.append("    mov %rax, %rcx\n    call malloc\n");
    } else {
        out.append("    mov %rax, %rdi\n    call ");
        out.append(symbol_prefix_str(os));
        out.append("malloc\n");
    }
    out.append("    movq $0, (%rax)\n    movq %r12, 8(%rax)\n    movq $0, 16(%rax)\n    movq %rax, (%r13)\n    movq %r12, 8(%r13)\n    movq $0, 16(%r13)\n    mov %r13, %rax\n    add $32, %rsp\n    pop %r13\n    pop %r12\n    mov %rbp, %rsp\n    pop %rbp\n    ret\n\n.global fn_arena_alloc\nfn_arena_alloc:\n    push %rbp\n    mov %rsp, %rbp\n    push %r12\n    push %r13\n    push %r14\n    sub $40, %rsp\n");
    if os == OperatingSystem::Windows {
        out.append("    mov %rcx, %r12\n    mov %rdx, %r13\n");
    } else {
        out.append("    mov %rdi, %r12\n    mov %rsi, %r13\n");
    }
    out.append("    test %r12, %r12\n    jz .L_x64_aa_fail\n    cmp $0, %r13\n    jle .L_x64_aa_fail\n    add $7, %r13\n    and $-8, %r13\n    mov (%r12), %r14\n    test %r14, %r14\n    jz .L_x64_aa_new_chunk\n    mov 16(%r14), %rax\n    add %r13, %rax\n    cmp 8(%r14), %rax\n    jg .L_x64_aa_new_chunk\n    mov 16(%r14), %rdx\n    lea 24(%r14, %rdx), %rax\n    mov 16(%r14), %rcx\n    add %r13, %rcx\n    mov %rcx, 16(%r14)\n    add %r13, 16(%r12)\n    jmp .L_x64_aa_ret\n.L_x64_aa_new_chunk:\n    mov 8(%r12), %rdx\n    cmp %rdx, %r13\n    cmovg %r13, %rdx\n    mov %rdx, -8(%rbp)\n    lea 24(%rdx), %rax\n");
    if os == OperatingSystem::Windows {
        out.append("    mov %rax, %rcx\n    call malloc\n");
    } else {
        out.append("    mov %rax, %rdi\n    call ");
        out.append(symbol_prefix_str(os));
        out.append("malloc\n");
    }
    out.append("    mov -8(%rbp), %rdx\n    mov (%r12), %rcx\n    mov %rcx, (%rax)\n    mov %rdx, 8(%rax)\n    mov %r13, 16(%rax)\n    mov %rax, (%r12)\n    add %r13, 16(%r12)\n    lea 24(%rax), %rax\n    jmp .L_x64_aa_ret\n.L_x64_aa_fail:\n    xor %rax, %rax\n.L_x64_aa_ret:\n    add $40, %rsp\n    pop %r14\n    pop %r13\n    pop %r12\n    mov %rbp, %rsp\n    pop %rbp\n    ret\n\n.global fn_arena_reset\nfn_arena_reset:\n    push %rbp\n    mov %rsp, %rbp\n");
    if os == OperatingSystem::Windows {
        out.append("    mov %rcx, %rax\n");
    } else {
        out.append("    mov %rdi, %rax\n");
    }
    out.append("    test %rax, %rax\n    jz .L_x64_ar_done\n    mov (%rax), %rdx\n.L_x64_ar_loop:\n    test %rdx, %rdx\n    jz .L_x64_ar_fin\n    movq $0, 16(%rdx)\n    mov (%rdx), %rdx\n    jmp .L_x64_ar_loop\n.L_x64_ar_fin:\n    movq $0, 16(%rax)\n.L_x64_ar_done:\n    xor %rax, %rax\n    mov %rbp, %rsp\n    pop %rbp\n    ret\n\n.global fn_arena_destroy\nfn_arena_destroy:\n    push %rbp\n    mov %rsp, %rbp\n    push %r12\n    push %r13\n    push %r14\n    sub $40, %rsp\n");
    if os == OperatingSystem::Windows {
        out.append("    mov %rcx, %r12\n");
    } else {
        out.append("    mov %rdi, %r12\n");
    }
    out.append("    test %r12, %r12\n    jz .L_x64_ad_done\n    mov (%r12), %r13\n.L_x64_ad_loop:\n    test %r13, %r13\n    jz .L_x64_ad_free_arena\n    mov (%r13), %r14\n");
    if os == OperatingSystem::Windows {
        out.append("    mov %r13, %rcx\n    call free\n");
    } else {
        out.append("    mov %r13, %rdi\n    call ");
        out.append(symbol_prefix_str(os));
        out.append("free\n");
    }
    out.append("    mov %r14, %r13\n    jmp .L_x64_ad_loop\n.L_x64_ad_free_arena:\n");
    if os == OperatingSystem::Windows {
        out.append("    mov %r12, %rcx\n    call free\n");
    } else {
        out.append("    mov %r12, %rdi\n    call ");
        out.append(symbol_prefix_str(os));
        out.append("free\n");
    }
    out.append(".L_x64_ad_done:\n    xor %rax, %rax\n    add $40, %rsp\n    pop %r14\n    pop %r13\n    pop %r12\n    mov %rbp, %rsp\n    pop %rbp\n    ret\n\n.global fn_arena_allocated\nfn_arena_allocated:\n    push %rbp\n    mov %rsp, %rbp\n");
    if os == OperatingSystem::Windows {
        out.append("    test %rcx, %rcx\n    jz .L_x64_aal_zero\n    mov 16(%rcx), %rax\n");
    } else {
        out.append("    test %rdi, %rdi\n    jz .L_x64_aal_zero\n    mov 16(%rdi), %rax\n");
    }
    out.append("    jmp .L_x64_aal_ret\n.L_x64_aal_zero:\n    xor %rax, %rax\n.L_x64_aal_ret:\n    mov %rbp, %rsp\n    pop %rbp\n    ret\n\n");
}

} // verus!
