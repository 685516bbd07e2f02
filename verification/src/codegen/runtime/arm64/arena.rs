use vstd::prelude::*;
use crate::codegen::target::{OperatingSystem, symbol_prefix, symbol_prefix_str};

verus! {

/// The AArch64 arena allocator, as assembly text after `prefix`.
pub open spec fn arena_routines(prefix: Seq<char>, os: OperatingSystem) -> Seq<char> {
    let s = prefix;
    let s = s + ".align 2\n.global fn_arena_create\nfn_arena_create:\n    stp x29, x30, [sp, #-32]!\n    mov x29, sp\n    stp x19, x20, [sp, #16]\n    mov x19, x0\n    cmp x19, #0\n    b.gt .L_arm64_ac_size_ok\n    mov x19, #65536\n.L_arm64_ac_size_ok:\n    mov x0, #1\n    mov x1, #24\n    bl "@;
    let s = s + symbol_prefix(os);
    let s = s + "calloc\n    mov x20, x0\n    add x0, x19, #24\n    bl "@;
    let s = s + symbol_prefix(os);
    let s = s + "malloc\n    str xzr, [x0]\n    str x19, [x0, #8]\n    str xzr, [x0, #16]\n    str x0, [x20]\n    str x19, [x20, #8]\n    str xzr, [x20, #16]\n    mov x0, x20\n    ldp x19, x20, [sp, #16]\n    ldp x29, x30, [sp], #32\n    ret\n\n.align 2\n.global fn_arena_alloc\nfn_arena_alloc:\n    stp x29, x30, [sp, #-48]!\n    mov x29, sp\n    stp x19, x20, [sp, #16]\n    stp x21, x22, [sp, #32]\n    mov x19, x0\n    mov x20, x1\n    cbz x19, .L_arm64_aa_fail\n    cmp x20, #0\n    b.le .L_arm64_aa_fail\n    add x20, x20, #7\n    and x20, x20, #-8\n    ldr x21, [x19]\n    cbz x21, .L_arm64_aa_new_chunk\n    ldr x2, [x21, #16]\n    ldr x3, [x21, #8]\n    add x4, x2, x20\n    cmp x4, x3\n    b.gt .L_arm64_aa_new_chunk\n    add x0, x21, #24\n    add x0, x0, x2\n    str x4, [x21, #16]\n    ldr x5, [x19, #16]\n    add x5, x5, x20\n    str x5, [x19, #16]\n    b .L_arm64_aa_ret\n.L_arm64_aa_new_chunk:\n    ldr x22, [x19, #8]\n    cmp x20, x22\n    csel x22, x20, x22, gt\n    add x0, x22, #24\n    bl "@;
    let s = s + symbol_prefix(os);
    let s = s + "malloc\n    ldr x1, [x19]\n    str x1, [x0]\n    str x22, [x0, #8]\n    str x20, [x0, #16]\n    str x0, [x19]\n    ldr x5, [x19, #16]\n    add x5, x5, x20\n    str x5, [x19, #16]\n    add x0, x0, #24\n    b .L_arm64_aa_ret\n.L_arm64_aa_fail:\n    mov x0, #0\n.L_arm64_aa_ret:\n    ldp x21, x22, [sp, #32]\n    ldp x19, x20, [sp, #16]\n    ldp x29, x30, [sp], #48\n    ret\n\n.align 2\n.global fn_arena_reset\nfn_arena_reset:\n    cbz x0, .L_arm64_ar_ret\n    ldr x1, [x0]\n.L_arm64_ar_loop:\n    cbz x1, .L_arm64_ar_fin\n    str xzr, [x1, #16]\n    ldr x1, [x1]\n    b .L_arm64_ar_loop\n.L_arm64_ar_fin:\n    str xzr, [x0, #16]\n.L_arm64_ar_ret:\n    mov x0, #0\n    ret\n\n.align 2\n.global fn_arena_destroy\nfn_arena_destroy:\n    stp x29, x30, [sp, #-48]!\n    mov x29, sp\n    stp x19, x20, [sp, #16]\n    stp x21, x22, [sp, #32]\n    mov x19, x0\n    cbz x19, .L_arm64_ad_ret\n    ldr x20, [x19]\n.L_arm64_ad_loop:\n    cbz x20, .L_arm64_ad_free_arena\n    ldr x21, [x20]\n    mov x0, x20\n    bl "@;
    let s = s + symbol_prefix(os);
    let s = s + "free\n    mov x20, x21\n    b .L_arm64_ad_loop\n.L_arm64_ad_free_arena:\n    mov x0, x19\n    bl "@;
    let s = s + symbol_prefix(os);
    let s = s + "free\n.L_arm64_ad_ret:\n    mov x0, #0\n    ldp x21, x22, [sp, #32]\n    ldp x19, x20, [sp, #16]\n    ldp x29, x30, [sp], #48\n    ret\n\n.align 2\n.global fn_arena_allocated\nfn_arena_allocated:\n    cbz x0, .L_arm64_aal_zero\n    ldr x0, [x0, #16]\n    ret\n.L_arm64_aal_zero:\n    mov x0, #0\n    ret\n\n"@;
    s
}

/// Appends the AArch64 arena allocator, as assembly text after `prefix`.
pub fn emit(out: &mut String, os: OperatingSystem)
    ensures
        final(out)@ == arena_routines(old(out)@, os),
{
    out.append(".align 2\n.global fn_arena_create\nfn_arena_create:\n    stp x29, x30, [sp, #-32]!\n    mov x29, sp\n    stp x19, x20, [sp, #16]\n    mov x19, x0\n    cmp x19, #0\n    b.gt .L_arm64_ac_size_ok\n    mov x19, #65536\n.L_arm64_ac_size_ok:\n    mov x0, #1\n    mov x1, #24\n    bl ");
    out.append(symbol_prefix_str(os));
    out.append("calloc\n    mov x20, x0\n    add x0, x19, #24\n    bl ");
    out.append(symbol_prefix_str(os));
    out.append("malloc\n    str xzr, [x0]\n    str x19, [x0, #8]\n    str xzr, [x0, #16]\n    str x0, [x20]\n    str x19, [x20, #8]\n    str xzr, [x20, #16]\n    mov x0, x20\n    ldp x19, x20, [sp, #16]\n    ldp x29, x30, [sp], #32\n    ret\n\n.align 2\n.global fn_arena_alloc\nfn_arena_alloc:\n    stp x29, x30, [sp, #-48]!\n    mov x29, sp\n    stp x19, x20, [sp, #16]\n    stp x21, x22, [sp, #32]\n    mov x19, x0\n    mov x20, x1\n    cbz x19, .L_arm64_aa_fail\n    cmp x20, #0\n    b.le .L_arm64_aa_fail\n    add x20, x20, #7\n    and x20, x20, #-8\n    ldr x21, [x19]\n    cbz x21, .L_arm64_aa_new_chunk\n    ldr x2, [x21, #16]\n    ldr x3, [x21, #8]\n    add x4, x2, x20\n    cmp x4, x3\n    b.gt .L_arm64_aa_new_chunk\n    add x0, x21, #24\n    add x0, x0, x2\n    str x4, [x21, #16]\n    ldr x5, [x19, #16]\n    add x5, x5, x20\n    str x5, [x19, #16]\n    b .L_arm64_aa_ret\n.L_arm64_aa_new_chunk:\n    ldr x22, [x19, #8]\n    cmp x20, x22\n    csel x22, x20, x22, gt\n    add x0, x22, #24\n    bl ");
    out.append(symbol_prefix_str(os));
    out.append("malloc\n    ldr x1, [x19]\n    str x1, [x0]\n    str x22, [x0, #8]\n    str x20, [x0, #16]\n    str x0, [x19]\n    ldr x5, [x19, #16]\n    add x5, x5, x20\n    str x5, [x19, #16]\n    add x0, x0, #24\n    b .L_arm64_aa_ret\n.L_arm64_aa_fail:\n    mov x0, #0\n.L_arm64_aa_ret:\n    ldp x21, x22, [sp, #32]\n    ldp x19, x20, [sp, #16]\n    ldp x29, x30, [sp], #48\n    ret\n\n.align 2\n.global fn_arena_reset\nfn_arena_reset:\n    cbz x0, .L_arm64_ar_ret\n    ldr x1, [x0]\n.L_arm64_ar_loop:\n    cbz x1, .L_arm64_ar_fin\n    str xzr, [x1, #16]\n    ldr x1, [x1]\n    b .L_arm64_ar_loop\n.L_arm64_ar_fin:\n    str xzr, [x0, #16]\n.L_arm64_ar_ret:\n    mov x0, #0\n    ret\n\n.align 2\n.global fn_arena_destroy\nfn_arena_destroy:\n    stp x29, x30, [sp, #-48]!\n    mov x29, sp\n    stp x19, x20, [sp, #16]\n    stp x21, x22, [sp, #32]\n    mov x19, x0\n    cbz x19, .L_arm64_ad_ret\n    ldr x20, [x19]\n.L_arm64_ad_loop:\n    cbz x20, .L_arm64_ad_free_arena\n    ldr x21, [x20]\n    mov x0, x20\n    bl ");
    out.append(symbol_prefix_str(os));
    out.append("free\n    mov x20, x21\n    b .L_arm64_ad_loop\n.L_arm64_ad_free_arena:\n    mov x0, x19\n    bl ");
    out.append(symbol_prefix_str(os));
    out.append("free\n.L_arm64_ad_ret:\n    mov x0, #0\n    ldp x21, x22, [sp, #32]\n    ldp x19, x20, [sp, #16]\n    ldp x29, x30, [sp], #48\n    ret\n\n.align 2\n.global fn_arena_allocated\nfn_arena_allocated:\n    cbz x0, .L_arm64_aal_zero\n    ldr x0, [x0, #16]\n    ret\n.L_arm64_aal_zero:\n    mov x0, #0\n    ret\n\n");
}

} // verus!
