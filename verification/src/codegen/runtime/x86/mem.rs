use vstd::prelude::*;
use crate::codegen::target::{OperatingSystem, symbol_prefix, symbol_prefix_str};

verus! {

/// The x86 (32-bit) raw memory access routines, as assembly text after `prefix`.
pub open spec fn mem_routines(prefix: Seq<char>, os: OperatingSystem) -> Seq<char> {
    let s = prefix;
    let s = s + ".global fn_alloc\nfn_alloc:\n    push %ebp\n    mov %esp, %ebp\n    push 8(%ebp)\n    call malloc\n    add $4, %esp\n    mov %ebp, %esp\n    pop %ebp\n    ret\n\n.global fn_free\nfn_free:\n    push %ebp\n    mov %esp, %ebp\n    mov 8(%ebp), %eax\n    test %eax, %eax\n    jz .L_x86_free_done\n    push %eax\n    call free\n    add $4, %esp\n.L_x86_free_done:\n    xor %eax, %eax\n    mov %ebp, %esp\n    pop %ebp\n    ret\n\n.global fn_realloc\nfn_realloc:\n    push %ebp\n    mov %esp, %ebp\n    push 12(%ebp)\n    push 8(%ebp)\n    call realloc\n    add $8, %esp\n    mov %ebp, %esp\n    pop %ebp\n    ret\n\n.global fn_copy_mem\nfn_copy_mem:\n    push %ebp\n    mov %esp, %ebp\n    push 16(%ebp)\n    push 12(%ebp)\n    push 8(%ebp)\n    call memcpy\n    add $12, %esp\n    mov %ebp, %esp\n    pop %ebp\n    ret\n\n.global fn_zero_mem\nfn_zero_mem:\n    push %ebp\n    mov %esp, %ebp\n    push 12(%ebp)\n    push $0\n    push 8(%ebp)\n    call memset\n    add $12, %esp\n    mov %ebp, %esp\n    pop %ebp\n    ret\n\n.global fn_peek_byte\nfn_peek_byte:\n    push %ebp\n    mov %esp, %ebp\n    mov 8(%ebp), %edx\n    mov 12(%ebp), %ecx\n    add %ecx, %edx\n    movzbl (%edx), %eax\n    mov %ebp, %esp\n    pop %ebp\n    ret\n\n.global fn_poke_byte\nfn_poke_byte:\n    push %ebp\n    mov %esp, %ebp\n    mov 8(%ebp), %edx\n    mov 12(%ebp), %ecx\n    mov 16(%ebp), %eax\n    add %ecx, %edx\n    movb %al, (%edx)\n    mov %ebp, %esp\n    pop %ebp\n    ret\n\n.global fn_peek_int\nfn_peek_int:\n    push %ebp\n    mov %esp, %ebp\n    mov 8(%ebp), %edx\n    mov 12(%ebp), %ecx\n    add %ecx, %edx\n    mov (%edx), %eax\n    mov %ebp, %esp\n    pop %ebp\n    ret\n\n.global fn_poke_int\nfn_poke_int:\n    push %ebp\n    mov %esp, %ebp\n    mov 8(%ebp), %edx\n    mov 12(%ebp), %ecx\n    mov 16(%ebp), %eax\n    add %ecx, %edx\n    mov %eax, (%edx)\n    mov %ebp, %esp\n    pop %ebp\n    ret\n\n.global fn_str_from_ptr\nfn_str_from_ptr:\n    push %ebp\n    mov %esp, %ebp\n    mov 8(%ebp), %eax\n    test %eax, %eax\n    jnz .L_x86_strfromptr_ret\n    mov $alya_str_empty, %eax\n.L_x86_strfromptr_ret:\n    mov %ebp, %esp\n    pop %ebp\n    ret\n\n.global fn_str_to_ptr\nfn_str_to_ptr:\n    push %ebp\n    mov %esp, %ebp\n    mov 8(%ebp), %eax\n    mov %ebp, %esp\n    pop %ebp\n    ret\n\n.global fn_arena_create\nfn_arena_create:\n    push %ebp\n    mov %esp, %ebp\n    push %ebx\n    push %esi\n    mov 8(%ebp), %ebx\n    cmp $0, %ebx\n    jg .L_x86_ac_size_ok\n    mov $65536, %ebx\n.L_x86_ac_size_ok:\n    push $12\n    push $1\n    call calloc\n    add $8, %esp\n    mov %eax, %esi\n    lea 12(%ebx), %eax\n    push %eax\n    call malloc\n    add $4, %esp\n    movl $0, (%eax)\n    movl %ebx, 4(%eax)\n    movl $0, 8(%eax)\n    movl %eax, (%esi)\n    movl %ebx, 4(%esi)\n    movl $0, 8(%esi)\n    mov %esi, %eax\n    pop %esi\n    pop %ebx\n    mov %ebp, %esp\n    pop %ebp\n    ret\n\n.global fn_arena_alloc\nfn_arena_alloc:\n    push %ebp\n    mov %esp, %ebp\n    push %ebx\n    push %esi\n    push %edi\n    mov 8(%ebp), %esi\n    mov 12(%ebp), %ebx\n    test %esi, %esi\n    jz .L_x86_aa_fail\n    cmp $0, %ebx\n    jle .L_x86_aa_fail\n    add $7, %ebx\n    and $-8, %ebx\n    mov (%esi), %edi\n    test %edi, %edi\n    jz .L_x86_aa_new_chunk\n    mov 8(%edi), %eax\n    add %ebx, %eax\n    cmp 4(%edi), %eax\n    jg .L_x86_aa_new_chunk\n    mov 8(%edi), %edx\n    lea 12(%edi, %edx), %eax\n    mov 8(%edi), %ecx\n    add %ebx, %ecx\n    mov %ecx, 8(%edi)\n    add %ebx, 8(%esi)\n    jmp .L_x86_aa_ret\n.L_x86_aa_new_chunk:\n    mov 4(%esi), %edx\n    cmp %edx, %ebx\n    cmovg %ebx, %edx\n    lea 12(%edx), %eax\n    push %edx\n    push %eax\n    call malloc\n    add $4, %esp\n    pop %edx\n    mov (%esi), %ecx\n    mov %ecx, (%eax)\n    mov %edx, 4(%eax)\n    mov %ebx, 8(%eax)\n    mov %eax, (%esi)\n    add %ebx, 8(%esi)\n    lea 12(%eax), %eax\n    jmp .L_x86_aa_ret\n.L_x86_aa_fail:\n    xor %eax, %eax\n.L_x86_aa_ret:\n    pop %edi\n    pop %esi\n    pop %ebx\n    mov %ebp, %esp\n    pop %ebp\n    ret\n\n.global fn_arena_reset\nfn_arena_reset:\n    push %ebp\n    mov %esp, %ebp\n    push %esi\n    mov 8(%ebp), %esi\n    test %esi, %esi\n    jz .L_x86_ar_done\n    mov (%esi), %eax\n.L_x86_ar_loop:\n    test %eax, %eax\n    jz .L_x86_ar_fin\n    movl $0, 8(%eax)\n    mov (%eax), %eax\n    jmp .L_x86_ar_loop\n.L_x86_ar_fin:\n    movl $0, 8(%esi)\n.L_x86_ar_done:\n    xor %eax, %eax\n    pop %esi\n    mov %ebp, %esp\n    pop %ebp\n    ret\n\n.global fn_arena_destroy\nfn_arena_destroy:\n    push %ebp\n    mov %esp, %ebp\n    push %esi\n    push %ebx\n    mov 8(%ebp), %esi\n    test %esi, %esi\n    jz .L_x86_ad_done\n    mov (%esi), %ebx\n.L_x86_ad_loop:\n    test %ebx, %ebx\n    jz .L_x86_ad_free_arena\n    mov (%ebx), %esi\n    push %ebx\n    call free\n    add $4, %esp\n    mov %esi, %ebx\n    jmp .L_x86_ad_loop\n.L_x86_ad_free_arena:\n    mov 8(%ebp), %esi\n    push %esi\n    call free\n    add $4, %esp\n.L_x86_ad_done:\n    xor %eax, %eax\n    pop %ebx\n    pop %esi\n    mov %ebp, %esp\n    pop %ebp\n    ret\n\n.global fn_arena_allocated\nfn_arena_allocated:\n    push %ebp\n    mov %esp, %ebp\n    mov 8(%ebp), %edx\n    test %edx, %edx\n    jz .L_x86_aal_zero\n    mov 8(%edx), %eax\n    jmp .L_x86_aal_ret\n.L_x86_aal_zero:\n    xor %eax, %eax\n.L_x86_aal_ret:\n    mov %ebp, %esp\n    pop %ebp\n    ret\n\n"@;
    s
}

/// Appends the x86 (32-bit) raw memory access routines, as assembly text after `prefix`.
pub fn emit(out: &mut String, os: OperatingSystem)
    ensures
        final(out)@ == mem_routines(old(out)@, os),
{
    out.append(".global fn_alloc\nfn_alloc:\n    push %ebp\n    mov %esp, %ebp\n    push 8(%ebp)\n    call malloc\n    add $4, %esp\n    mov %ebp, %esp\n    pop %ebp\n    ret\n\n.global fn_free\nfn_free:\n    push %ebp\n    mov %esp, %ebp\n    mov 8(%ebp), %eax\n    test %eax, %eax\n    jz .L_x86_free_done\n    push %eax\n    call free\n    add $4, %esp\n.L_x86_free_done:\n    xor %eax, %eax\n    mov %ebp, %esp\n    pop %ebp\n    ret\n\n.global fn_realloc\nfn_realloc:\n    push %ebp\n    mov %esp, %ebp\n    push 12(%ebp)\n    push 8(%ebp)\n    call realloc\n    add $8, %esp\n    mov %ebp, %esp\n    pop %ebp\n    ret\n\n.global fn_copy_mem\nfn_copy_mem:\n    push %ebp\n    mov %esp, %ebp\n    push 16(%ebp)\n    push 12(%ebp)\n    push 8(%ebp)\n    call memcpy\n    add $12, %esp\n    mov %ebp, %esp\n    pop %ebp\n    ret\n\n.global fn_zero_mem\nfn_zero_mem:\n    push %ebp\n    mov %esp, %ebp\n    push 12(%ebp)\n    push $0\n    push 8(%ebp)\n    call memset\n    add $12, %esp\n    mov %ebp, %esp\n    pop %ebp\n    ret\n\n.global fn_peek_byte\nfn_peek_byte:\n    push %ebp\n    mov %esp, %ebp\n    mov 8(%ebp), %edx\n    mov 12(%ebp), %ecx\n    add %ecx, %edx\n    movzbl (%edx), %eax\n    mov %ebp, %esp\n    pop %ebp\n    ret\n\n.global fn_poke_byte\nfn_poke_byte:\n    push %ebp\n    mov %esp, %ebp\n    mov 8(%ebp), %edx\n    mov 12(%ebp), %ecx\n    mov 16(%ebp), %eax\n    add %ecx, %edx\n    movb %al, (%edx)\n    mov %ebp, %esp\n    pop %ebp\n    ret\n\n.global fn_peek_int\nfn_peek_int:\n    push %ebp\n    mov %esp, %ebp\n    mov 8(%ebp), %edx\n    mov 12(%ebp), %ecx\n    add %ecx, %edx\n    mov (%edx), %eax\n    mov %ebp, %esp\n    pop %ebp\n    ret\n\n.global fn_poke_int\nfn_poke_int:\n    push %ebp\n    mov %esp, %ebp\n    mov 8(%ebp), %edx\n    mov 12(%ebp), %ecx\n    mov 16(%ebp), %eax\n    add %ecx, %edx\n    mov %eax, (%edx)\n    mov %ebp, %esp\n    pop %ebp\n    ret\n\n.global fn_str_from_ptr\nfn_str_from_ptr:\n    push %ebp\n    mov %esp, %ebp\n    mov 8(%ebp), %eax\n    test %eax, %eax\n    jnz .L_x86_strfromptr_ret\n    mov $alya_str_empty, %eax\n.L_x86_strfromptr_ret:\n    mov %ebp, %esp\n    pop %ebp\n    ret\n\n.global fn_str_to_ptr\nfn_str_to_ptr:\n    push %ebp\n    mov %esp, %ebp\n    mov 8(%ebp), %eax\n    mov %ebp, %esp\n    pop %ebp\n    ret\n\n.global fn_arena_create\nfn_arena_create:\n    push %ebp\n    mov %esp, %ebp\n    push %ebx\n    push %esi\n    mov 8(%ebp), %ebx\n    cmp $0, %ebx\n    jg .L_x86_ac_size_ok\n    mov $65536, %ebx\n.L_x86_ac_size_ok:\n    push $12\n    push $1\n    call calloc\n    add $8, %esp\n    mov %eax, %esi\n    lea 12(%ebx), %eax\n    push %eax\n    call malloc\n    add $4, %esp\n    movl $0, (%eax)\n    movl %ebx, 4(%eax)\n    movl $0, 8(%eax)\n    movl %eax, (%esi)\n    movl %ebx, 4(%esi)\n    movl $0, 8(%esi)\n    mov %esi, %eax\n    pop %esi\n    pop %ebx\n    mov %ebp, %esp\n    pop %ebp\n    ret\n\n.global fn_arena_alloc\nfn_arena_alloc:\n    push %ebp\n    mov %esp, %ebp\n    push %ebx\n    push %esi\n    push %edi\n    mov 8(%ebp), %esi\n    mov 12(%ebp), %ebx\n    test %esi, %esi\n    jz .L_x86_aa_fail\n    cmp $0, %ebx\n    jle .L_x86_aa_fail\n    add $7, %ebx\n    and $-8, %ebx\n    mov (%esi), %edi\n    test %edi, %edi\n    jz .L_x86_aa_new_chunk\n    mov 8(%edi), %eax\n    add %ebx, %eax\n    cmp 4(%edi), %eax\n    jg .L_x86_aa_new_chunk\n    mov 8(%edi), %edx\n    lea 12(%edi, %edx), %eax\n    mov 8(%edi), %ecx\n    add %ebx, %ecx\n    mov %ecx, 8(%edi)\n    add %ebx, 8(%esi)\n    jmp .L_x86_aa_ret\n.L_x86_aa_new_chunk:\n    mov 4(%esi), %edx\n    cmp %edx, %ebx\n    cmovg %ebx, %edx\n    lea 12(%edx), %eax\n    push %edx\n    push %eax\n    call malloc\n    add $4, %esp\n    pop %edx\n    mov (%esi), %ecx\n    mov %ecx, (%eax)\n    mov %edx, 4(%eax)\n    mov %ebx, 8(%eax)\n    mov %eax, (%esi)\n    add %ebx, 8(%esi)\n    lea 12(%eax), %eax\n    jmp .L_x86_aa_ret\n.L_x86_aa_fail:\n    xor %eax, %eax\n.L_x86_aa_ret:\n    pop %edi\n    pop %esi\n    pop %ebx\n    mov %ebp, %esp\n    pop %ebp\n    ret\n\n.global fn_arena_reset\nfn_arena_reset:\n    push %ebp\n    mov %esp, %ebp\n    push %esi\n    mov 8(%ebp), %esi\n    test %esi, %esi\n    jz .L_x86_ar_done\n    mov (%esi), %eax\n.L_x86_ar_loop:\n    test %eax, %eax\n    jz .L_x86_ar_fin\n    movl $0, 8(%eax)\n    mov (%eax), %eax\n    jmp .L_x86_ar_loop\n.L_x86_ar_fin:\n    movl $0, 8(%esi)\n.L_x86_ar_done:\n    xor %eax, %eax\n    pop %esi\n    mov %ebp, %esp\n    pop %ebp\n    ret\n\n.global fn_arena_destroy\nfn_arena_destroy:\n    push %ebp\n    mov %esp, %ebp\n    push %esi\n    push %ebx\n    mov 8(%ebp), %esi\n    test %esi, %esi\n    jz .L_x86_ad_done\n    mov (%esi), %ebx\n.L_x86_ad_loop:\n    test %ebx, %ebx\n    jz .L_x86_ad_free_arena\n    mov (%ebx), %esi\n    push %ebx\n    call free\n    add $4, %esp\n    mov %esi, %ebx\n    jmp .L_x86_ad_loop\n.L_x86_ad_free_arena:\n    mov 8(%ebp), %esi\n    push %esi\n    call free\n    add $4, %esp\n.L_x86_ad_done:\n    xor %eax, %eax\n    pop %ebx\n    pop %esi\n    mov %ebp, %esp\n    pop %ebp\n    ret\n\n.global fn_arena_allocated\nfn_arena_allocated:\n    push %ebp\n    mov %esp, %ebp\n    mov 8(%ebp), %edx\n    test %edx, %edx\n    jz .L_x86_aal_zero\n    mov 8(%edx), %eax\n    jmp .L_x86_aal_ret\n.L_x86_aal_zero:\n    xor %eax, %eax\n.L_x86_aal_ret:\n    mov %ebp, %esp\n    pop %ebp\n    ret\n\n");
}

} // verus!
