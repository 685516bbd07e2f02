use vstd::prelude::*;
use crate::codegen::target::{OperatingSystem, symbol_prefix, symbol_prefix_str};

verus! {

/// The x86 (32-bit) math routines, as assembly text after `prefix`.
pub open spec fn math_routines(prefix: Seq<char>, os: OperatingSystem) -> Seq<char> {
    let s = prefix;
    let s = s + "fn_abs:\n    push %ebp\n    mov %esp, %ebp\n    mov 8(%ebp), %eax\n    test %eax, %eax\n    jns .L_x86_abs_end\n    neg %eax\n.L_x86_abs_end:\n    mov %ebp, %esp\n    pop %ebp\n    ret\n\nfn_min:\n    push %ebp\n    mov %esp, %ebp\n    mov 8(%ebp), %eax\n    mov 12(%ebp), %edx\n    cmp %edx, %eax\n    jle .L_x86_min_end\n    mov %edx, %eax\n.L_x86_min_end:\n    mov %ebp, %esp\n    pop %ebp\n    ret\n\nfn_max:\n    push %ebp\n    mov %esp, %ebp\n    mov 8(%ebp), %eax\n    mov 12(%ebp), %edx\n    cmp %edx, %eax\n    jge .L_x86_max_end\n    mov %edx, %eax\n.L_x86_max_end:\n    mov %ebp, %esp\n    pop %ebp\n    ret\n\nfn_sqrt:\n    push %ebp\n    mov %esp, %ebp\n    mov 8(%ebp), %ecx\n    test %ecx, %ecx\n    jle .L_x86_sqrt_zero\n    cmp $4, %ecx\n    jl .L_x86_sqrt_one\n    push %ebx\n    mov %ecx, %ebx\n    shr $1, %ebx\n.L_x86_sqrt_loop:\n    mov %ecx, %eax\n    xor %edx, %edx\n    div %ebx\n    add %ebx, %eax\n    shr $1, %eax\n    cmp %ebx, %eax\n    jge .L_x86_sqrt_done\n    mov %eax, %ebx\n    jmp .L_x86_sqrt_loop\n.L_x86_sqrt_done:\n    mov %ebx, %eax\n    pop %ebx\n    jmp .L_x86_sqrt_end\n.L_x86_sqrt_one:\n    mov $1, %eax\n    jmp .L_x86_sqrt_end\n.L_x86_sqrt_zero:\n    xor %eax, %eax\n.L_x86_sqrt_end:\n    mov %ebp, %esp\n    pop %ebp\n    ret\n\nfn_pow:\n    push %ebp\n    mov %esp, %ebp\n    mov 8(%ebp), %ecx\n    mov 12(%ebp), %edx\n    test %edx, %edx\n    js .L_x86_pow_zero\n    mov $1, %eax\n.L_x86_pow_loop:\n    test %edx, %edx\n    jle .L_x86_pow_end\n    test $1, %edx\n    jz .L_x86_pow_even\n    imul %ecx, %eax\n.L_x86_pow_even:\n    imul %ecx, %ecx\n    shr $1, %edx\n    jmp .L_x86_pow_loop\n.L_x86_pow_zero:\n    xor %eax, %eax\n.L_x86_pow_end:\n    mov %ebp, %esp\n    pop %ebp\n    ret\n\n.global fn_bit_and\nfn_bit_and:\n    push %ebp\n    mov %esp, %ebp\n    mov 8(%ebp), %eax\n    and 12(%ebp), %eax\n    pop %ebp\n    ret\n\n.global fn_bit_or\nfn_bit_or:\n    push %ebp\n    mov %esp, %ebp\n    mov 8(%ebp), %eax\n    or 12(%ebp), %eax\n    pop %ebp\n    ret\n\n.global fn_bit_xor\nfn_bit_xor:\n    push %ebp\n    mov %esp, %ebp\n    mov 8(%ebp), %eax\n    xor 12(%ebp), %eax\n    pop %ebp\n    ret\n\n.global fn_bit_not\nfn_bit_not:\n    push %ebp\n    mov %esp, %ebp\n    mov 8(%ebp), %eax\n    not %eax\n    pop %ebp\n    ret\n\n.global fn_bit_shl\nfn_bit_shl:\n    push %ebp\n    mov %esp, %ebp\n    push %ecx\n    mov 8(%ebp), %eax\n    mov 12(%ebp), %ecx\n    shll %cl, %eax\n    pop %ecx\n    pop %ebp\n    ret\n\n.global fn_bit_shr\nfn_bit_shr:\n    push %ebp\n    mov %esp, %ebp\n    push %ecx\n    mov 8(%ebp), %eax\n    mov 12(%ebp), %ecx\n    shrl %cl, %eax\n    pop %ecx\n    pop %ebp\n    ret\n\n.global fn_rand\nfn_rand:\n    push %ebp\n    mov %esp, %ebp\n    mov alya_rand_state, %eax\n    test %eax, %eax\n    jnz .L_x86_rand_ok\n    mov $123456789, %eax\n.L_x86_rand_ok:\n    imul $1103515245, %eax\n    add $12345, %eax\n    and $0x7fffffff, %eax\n    mov %eax, alya_rand_state\n    mov %ebp, %esp\n    pop %ebp\n    ret\n\n.global fn_rand_seed\nfn_rand_seed:\n    push %ebp\n    mov %esp, %ebp\n    mov 8(%ebp), %eax\n    mov %eax, alya_rand_state\n    xor %eax, %eax\n    mov %ebp, %esp\n    pop %ebp\n    ret\n\n.global fn_time\nfn_time:\n    push %ebp\n    mov %esp, %ebp\n    push $0\n    call time\n    add $4, %esp\n    mov %ebp, %esp\n    pop %ebp\n    ret\n\n"@;
    s
}

/// Appends the x86 (32-bit) math routines, as assembly text after `prefix`.
pub fn emit(out: &mut String, os: OperatingSystem)
    ensures
        final(out)@ == math_routines(old(out)@, os),
{
    out.append("fn_abs:\n    push %ebp\n    mov %esp, %ebp\n    mov 8(%ebp), %eax\n    test %eax, %eax\n    jns .L_x86_abs_end\n    neg %eax\n.L_x86_abs_end:\n    mov %ebp, %esp\n    pop %ebp\n    ret\n\nfn_min:\n    push %ebp\n    mov %esp, %ebp\n    mov 8(%ebp), %eax\n    mov 12(%ebp), %edx\n    cmp %edx, %eax\n    jle .L_x86_min_end\n    mov %edx, %eax\n.L_x86_min_end:\n    mov %ebp, %esp\n    pop %ebp\n    ret\n\nfn_max:\n    push %ebp\n    mov %esp, %ebp\n    mov 8(%ebp), %eax\n    mov 12(%ebp), %edx\n    cmp %edx, %eax\n    jge .L_x86_max_end\n    mov %edx, %eax\n.L_x86_max_end:\n    mov %ebp, %esp\n    pop %ebp\n    ret\n\nfn_sqrt:\n    push %ebp\n    mov %esp, %ebp\n    mov 8(%ebp), %ecx\n    test %ecx, %ecx\n    jle .L_x86_sqrt_zero\n    cmp $4, %ecx\n    jl .L_x86_sqrt_one\n    push %ebx\n    mov %ecx, %ebx\n    shr $1, %ebx\n.L_x86_sqrt_loop:\n    mov %ecx, %eax\n    xor %edx, %edx\n    div %ebx\n    add %ebx, %eax\n    shr $1, %eax\n    cmp %ebx, %eax\n    jge .L_x86_sqrt_done\n    mov %eax, %ebx\n    jmp .L_x86_sqrt_loop\n.L_x86_sqrt_done:\n    mov %ebx, %eax\n    pop %ebx\n    jmp .L_x86_sqrt_end\n.L_x86_sqrt_one:\n    mov $1, %eax\n    jmp .L_x86_sqrt_end\n.L_x86_sqrt_zero:\n    xor %eax, %eax\n.L_x86_sqrt_end:\n    mov %ebp, %esp\n    pop %ebp\n    ret\n\nfn_pow:\n    push %ebp\n    mov %esp, %ebp\n    mov 8(%ebp), %ecx\n    mov 12(%ebp), %edx\n    test %edx, %edx\n    js .L_x86_pow_zero\n    mov $1, %eax\n.L_x86_pow_loop:\n    test %edx, %edx\n    jle .L_x86_pow_end\n    test $1, %edx\n    jz .L_x86_pow_even\n    imul %ecx, %eax\n.L_x86_pow_even:\n    imul %ecx, %ecx\n    shr $1, %edx\n    jmp .L_x86_pow_loop\n.L_x86_pow_zero:\n    xor %eax, %eax\n.L_x86_pow_end:\n    mov %ebp, %esp\n    pop %ebp\n    ret\n\n.global fn_bit_and\nfn_bit_and:\n    push %ebp\n    mov %esp, %ebp\n    mov 8(%ebp), %eax\n    and 12(%ebp), %eax\n    pop %ebp\n    ret\n\n.global fn_bit_or\nfn_bit_or:\n    push %ebp\n    mov %esp, %ebp\n    mov 8(%ebp), %eax\n    or 12(%ebp), %eax\n    pop %ebp\n    ret\n\n.global fn_bit_xor\nfn_bit_xor:\n    push %ebp\n    mov %esp, %ebp\n    mov 8(%ebp), %eax\n    xor 12(%ebp), %eax\n    pop %ebp\n    ret\n\n.global fn_bit_not\nfn_bit_not:\n    push %ebp\n    mov %esp, %ebp\n    mov 8(%ebp), %eax\n    not %eax\n    pop %ebp\n    ret\n\n.global fn_bit_shl\nfn_bit_shl:\n    push %ebp\n    mov %esp, %ebp\n    push %ecx\n    mov 8(%ebp), %eax\n    mov 12(%ebp), %ecx\n    shll %cl, %eax\n    pop %ecx\n    pop %ebp\n    ret\n\n.global fn_bit_shr\nfn_bit_shr:\n    push %ebp\n    mov %esp, %ebp\n    push %ecx\n    mov 8(%ebp), %eax\n    mov 12(%ebp), %ecx\n    shrl %cl, %eax\n    pop %ecx\n    pop %ebp\n    ret\n\n.global fn_rand\nfn_rand:\n    push %ebp\n    mov %esp, %ebp\n    mov alya_rand_state, %eax\n    test %eax, %eax\n    jnz .L_x86_rand_ok\n    mov $123456789, %eax\n.L_x86_rand_ok:\n    imul $1103515245, %eax\n    add $12345, %eax\n    and $0x7fffffff, %eax\n    mov %eax, alya_rand_state\n    mov %ebp, %esp\n    pop %ebp\n    ret\n\n.global fn_rand_seed\nfn_rand_seed:\n    push %ebp\n    mov %esp, %ebp\n    mov 8(%ebp), %eax\n    mov %eax, alya_rand_state\n    xor %eax, %eax\n    mov %ebp, %esp\n    pop %ebp\n    ret\n\n.global fn_time\nfn_time:\n    push %ebp\n    mov %esp, %ebp\n    push $0\n    call time\n    add $4, %esp\n    mov %ebp, %esp\n    pop %ebp\n    ret\n\n");
}

/// The routines appended after any prefix do not depend on it.
#[verifier::rlimit(100)]
pub proof fn lemma_routines_append(prefix: Seq<char>, os: OperatingSystem)
    ensures
        math_routines(prefix, os) == prefix + math_routines(seq![], os),
{
    match os {
        OperatingSystem::Linux => {
            assert(math_routines(prefix, os) =~= prefix + math_routines(seq![], os));
        },
        OperatingSystem::Windows => {
            assert(math_routines(prefix, os) =~= prefix + math_routines(seq![], os));
        },
        OperatingSystem::MacOS => {
            assert(math_routines(prefix, os) =~= prefix + math_routines(seq![], os));
        },
    }
}

} // verus!
