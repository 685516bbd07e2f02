use vstd::prelude::*;
use crate::codegen::target::{OperatingSystem, symbol_prefix, symbol_prefix_str};

verus! {

/// The x86 (32-bit) heap allocation routines, as assembly text after `prefix`.
pub open spec fn heap_routines(prefix: Seq<char>, os: OperatingSystem) -> Seq<char> {
    let s = prefix;
    let s = s + ".global fn_alloc\nfn_alloc:\n    push %ebp\n    mov %esp, %ebp\n    push 8(%ebp)\n    call malloc\n    add $4, %esp\n    mov %ebp, %esp\n    pop %ebp\n    ret\n\n.global fn_free\nfn_free:\n    push %ebp\n    mov %esp, %ebp\n    mov 8(%ebp), %eax\n    test %eax, %eax\n    jz .L_x86_free_done\n    push %eax\n    call free\n    add $4, %esp\n.L_x86_free_done:\n    xor %eax, %eax\n    mov %ebp, %esp\n    pop %ebp\n    ret\n\n.global fn_realloc\nfn_realloc:\n    push %ebp\n    mov %esp, %ebp\n    push 12(%ebp)\n    push 8(%ebp)\n    call realloc\n    add $8, %esp\n    mov %ebp, %esp\n    pop %ebp\n    ret\n\n.global fn_copy_mem\nfn_copy_mem:\n    push %ebp\n    mov %esp, %ebp\n    push 16(%ebp)\n    push 12(%ebp)\n    push 8(%ebp)\n    call memcpy\n    add $12, %esp\n    mov %ebp, %esp\n    pop %ebp\n    ret\n\n.global fn_zero_mem\nfn_zero_mem:\n    push %ebp\n    mov %esp, %ebp\n    push 12(%ebp)\n    push $0\n    push 8(%ebp)\n    call memset\n    add $12, %esp\n    mov %ebp, %esp\n    pop %ebp\n    ret\n\n.global fn_peek_byte\nfn_peek_byte:\n    push %ebp\n    mov %esp, %ebp\n    mov 8(%ebp), %edx\n    mov 12(%ebp), %ecx\n    add %ecx, %edx\n    movzbl (%edx), %eax\n    mov %ebp, %esp\n    pop %ebp\n    ret\n\n.global fn_poke_byte\nfn_poke_byte:\n    push %ebp\n    mov %esp, %ebp\n    mov 8(%ebp), %edx\n    mov 12(%ebp), %ecx\n    mov 16(%ebp), %eax\n    add %ecx, %edx\n    movb %al, (%edx)\n    mov %ebp, %esp\n    pop %ebp\n    ret\n\n.global fn_peek_int\nfn_peek_int:\n    push %ebp\n    mov %esp, %ebp\n    mov 8(%ebp), %edx\n    mov 12(%ebp), %ecx\n    add %ecx, %edx\n    mov (%edx), %eax\n    mov %ebp, %esp\n    pop %ebp\n    ret\n\n.global fn_poke_int\nfn_poke_int:\n    push %ebp\n    mov %esp, %ebp\n    mov 8(%ebp), %edx\n    mov 12(%ebp), %ecx\n    mov 16(%ebp), %eax\n    add %ecx, %edx\n    mov %eax, (%edx)\n    mov %ebp, %esp\n    pop %ebp\n    ret\n\n.global fn_str_from_ptr\nfn_str_from_ptr:\n    push %ebp\n    mov %esp, %ebp\n    mov 8(%ebp), %eax\n    test %eax, %eax\n    jnz .L_x86_strfromptr_ret\n    mov $alya_str_empty, %eax\n.L_x86_strfromptr_ret:\n    mov %ebp, %esp\n    pop %ebp\n    ret\n\n.global fn_str_to_ptr\nfn_str_to_ptr:\n    push %ebp\n    mov %esp, %ebp\n    mov 8(%ebp), %eax\n    mov %ebp, %esp\n    pop %ebp\n    ret\n\n"@;
    s
}

/// Appends the x86 (32-bit) heap allocation routines, as assembly text after `prefix`.
pub fn emit(out: &mut String, os: OperatingSystem)
    ensures
        final(out)@ == heap_routines(old(out)@, os),
{
    out.append(".global fn_alloc\nfn_alloc:\n    push %ebp\n    mov %esp, %ebp\n    push 8(%ebp)\n    call malloc\n    add $4, %esp\n    mov %ebp, %esp\n    pop %ebp\n    ret\n\n.global fn_free\nfn_free:\n    push %ebp\n    mov %esp, %ebp\n    mov 8(%ebp), %eax\n    test %eax, %eax\n    jz .L_x86_free_done\n    push %eax\n    call free\n    add $4, %esp\n.L_x86_free_done:\n    xor %eax, %eax\n    mov %ebp, %esp\n    pop %ebp\n    ret\n\n.global fn_realloc\nfn_realloc:\n    push %ebp\n    mov %esp, %ebp\n    push 12(%ebp)\n    push 8(%ebp)\n    call realloc\n    add $8, %esp\n    mov %ebp, %esp\n    pop %ebp\n    ret\n\n.global fn_copy_mem\nfn_copy_mem:\n    push %ebp\n    mov %esp, %ebp\n    push 16(%ebp)\n    push 12(%ebp)\n    push 8(%ebp)\n    call memcpy\n    add $12, %esp\n    mov %ebp, %esp\n    pop %ebp\n    ret\n\n.global fn_zero_mem\nfn_zero_mem:\n    push %ebp\n    mov %esp, %ebp\n    push 12(%ebp)\n    push $0\n    push 8(%ebp)\n    call memset\n    add $12, %esp\n    mov %ebp, %esp\n    pop %ebp\n    ret\n\n.global fn_peek_byte\nfn_peek_byte:\n    push %ebp\n    mov %esp, %ebp\n    mov 8(%ebp), %edx\n    mov 12(%ebp), %ecx\n    add %ecx, %edx\n    movzbl (%edx), %eax\n    mov %ebp, %esp\n    pop %ebp\n    ret\n\n.global fn_poke_byte\nfn_poke_byte:\n    push %ebp\n    mov %esp, %ebp\n    mov 8(%ebp), %edx\n    mov 12(%ebp), %ecx\n    mov 16(%ebp), %eax\n    add %ecx, %edx\n    movb %al, (%edx)\n    mov %ebp, %esp\n    pop %ebp\n    ret\n\n.global fn_peek_int\nfn_peek_int:\n    push %ebp\n    mov %esp, %ebp\n    mov 8(%ebp), %edx\n    mov 12(%ebp), %ecx\n    add %ecx, %edx\n    mov (%edx), %eax\n    mov %ebp, %esp\n    pop %ebp\n    ret\n\n.global fn_poke_int\nfn_poke_int:\n    push %ebp\n    mov %esp, %ebp\n    mov 8(%ebp), %edx\n    mov 12(%ebp), %ecx\n    mov 16(%ebp), %eax\n    add %ecx, %edx\n    mov %eax, (%edx)\n    mov %ebp, %esp\n    pop %ebp\n    ret\n\n.global fn_str_from_ptr\nfn_str_from_ptr:\n    push %ebp\n    mov %esp, %ebp\n    mov 8(%ebp), %eax\n    test %eax, %eax\n    jnz .L_x86_strfromptr_ret\n    mov $alya_str_empty, %eax\n.L_x86_strfromptr_ret:\n    mov %ebp, %esp\n    pop %ebp\n    ret\n\n.global fn_str_to_ptr\nfn_str_to_ptr:\n    push %ebp\n    mov %esp, %ebp\n    mov 8(%ebp), %eax\n    mov %ebp, %esp\n    pop %ebp\n    ret\n\n");
}

/// The routines appended after any prefix do not depend on it.
#[verifier::rlimit(100)]
pub proof fn lemma_routines_append(prefix: Seq<char>, os: OperatingSystem)
    ensures
        heap_routines(prefix, os) == prefix + heap_routines(seq![], os),
{
    match os {
        OperatingSystem::Linux => {
            assert(heap_routines(prefix, os) =~= prefix + heap_routines(seq![], os));
        },
        OperatingSystem::Windows => {
            assert(heap_routines(prefix, os) =~= prefix + heap_routines(seq![], os));
        },
        OperatingSystem::MacOS => {
            assert(heap_routines(prefix, os) =~= prefix + heap_routines(seq![], os));
        },
    }
}

} // verus!
