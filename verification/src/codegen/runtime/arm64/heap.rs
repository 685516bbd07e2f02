use vstd::prelude::*;
use crate::codegen::target::{OperatingSystem, symbol_prefix, symbol_prefix_str};
use super::{adrp_add_text, emit_adrp_add};

verus! {

/// The AArch64 heap allocation routines, as assembly text after `prefix`.
pub open spec fn heap_routines(prefix: Seq<char>, os: OperatingSystem) -> Seq<char> {
    let s = prefix;
    let s = s + ".align 2\n.global fn_alloc\nfn_alloc:\n    stp x29, x30, [sp, #-32]!\n    mov x29, sp\n    str x0, [sp, #16]\n"@;
    let s = s + adrp_add_text("x1"@, "alya_allocated_bytes"@, os);
    let s = s + "    ldr x2, [x1]\n    add x2, x2, x0\n    str x2, [x1]\n    ldr x0, [sp, #16]\n    bl "@;
    let s = s + symbol_prefix(os);
    let s = s + "malloc\n    ldp x29, x30, [sp], #32\n    ret\n\n.align 2\n.global fn_free\nfn_free:\n    stp x29, x30, [sp, #-16]!\n    mov x29, sp\n    cbz x0, .L_arm64_free_done\n    bl "@;
    let s = s + symbol_prefix(os);
    let s = s + "free\n.L_arm64_free_done:\n    mov x0, #0\n    ldp x29, x30, [sp], #16\n    ret\n\n.align 2\n.global fn_realloc\nfn_realloc:\n    stp x29, x30, [sp, #-32]!\n    mov x29, sp\n    str x0, [sp, #16]\n    str x1, [sp, #24]\n"@;
    let s = s + adrp_add_text("x2"@, "alya_allocated_bytes"@, os);
    let s = s + "    ldr x3, [x2]\n    add x3, x3, x1\n    str x3, [x2]\n    ldr x0, [sp, #16]\n    ldr x1, [sp, #24]\n    bl "@;
    let s = s + symbol_prefix(os);
    let s = s + "realloc\n    ldp x29, x30, [sp], #32\n    ret\n\n.align 2\n.global fn_copy_mem\nfn_copy_mem:\n    stp x29, x30, [sp, #-16]!\n    mov x29, sp\n    bl "@;
    let s = s + symbol_prefix(os);
    let s = s + "memcpy\n    ldp x29, x30, [sp], #16\n    ret\n\n.align 2\n.global fn_zero_mem\nfn_zero_mem:\n    stp x29, x30, [sp, #-16]!\n    mov x29, sp\n    mov x2, x1\n    mov x1, #0\n    bl "@;
    let s = s + symbol_prefix(os);
    let s = s + "memset\n    ldp x29, x30, [sp], #16\n    ret\n\n.align 2\n.global fn_peek_byte\nfn_peek_byte:\n    add x0, x0, x1\n    ldrb w0, [x0]\n    ret\n\n.align 2\n.global fn_poke_byte\nfn_poke_byte:\n    add x0, x0, x1\n    strb w2, [x0]\n    mov x0, #0\n    ret\n\n.align 2\n.global fn_peek_int\nfn_peek_int:\n    add x0, x0, x1\n    ldr x0, [x0]\n    ret\n\n.align 2\n.global fn_poke_int\nfn_poke_int:\n    add x0, x0, x1\n    str x2, [x0]\n    mov x0, #0\n    ret\n\n.align 2\n.global fn_str_from_ptr\nfn_str_from_ptr:\n    cbnz x0, .L_arm64_sfp_ret\n"@;
    let s = s + adrp_add_text("x0"@, "alya_str_empty"@, os);
    let s = s + ".L_arm64_sfp_ret:\n    ret\n\n.align 2\n.global fn_str_to_ptr\nfn_str_to_ptr:\n    ret\n\n.align 2\n.global fn_mem_allocated\nfn_mem_allocated:\n"@;
    let s = s + adrp_add_text("x1"@, "alya_allocated_bytes"@, os);
    let s = s + "    ldr x0, [x1]\n    ret\n\n.align 2\n.global fn_mem_reset_alloc\nfn_mem_reset_alloc:\n"@;
    let s = s + adrp_add_text("x1"@, "alya_allocated_bytes"@, os);
    let s = s + "    str xzr, [x1]\n    mov x0, #0\n    ret\n\n.align 2\n.global fn_str_clone\nfn_str_clone:\n    stp x29, x30, [sp, #-48]!\n    mov x29, sp\n    stp x19, x20, [sp, #16]\n    str x21, [sp, #32]\n    mov x19, x0\n    cbz x19, .L_arm64_sclone_empty\n    mov x20, x19\n    mov x21, #0\n.L_arm64_sclone_len:\n    ldrb w1, [x20]\n    cbz w1, .L_arm64_sclone_alloc\n    add x20, x20, #1\n    add x21, x21, #1\n    b .L_arm64_sclone_len\n.L_arm64_sclone_alloc:\n    add x21, x21, #1\n    mov x0, x21\n"@;
    let s = s + adrp_add_text("x1"@, "alya_allocated_bytes"@, os);
    let s = s + "    ldr x2, [x1]\n    add x2, x2, x21\n    str x2, [x1]\n    bl "@;
    let s = s + symbol_prefix(os);
    let s = s + "malloc\n    cbz x0, .L_arm64_sclone_empty\n    mov x20, x0\n    mov x1, x19\n    mov x2, x21\n    bl "@;
    let s = s + symbol_prefix(os);
    let s = s + "memcpy\n    mov x0, x20\n    b .L_arm64_sclone_done\n.L_arm64_sclone_empty:\n"@;
    let s = s + adrp_add_text("x0"@, "alya_str_empty"@, os);
    let s = s + ".L_arm64_sclone_done:\n    ldp x19, x20, [sp, #16]\n    ldr x21, [sp, #32]\n    ldp x29, x30, [sp], #48\n    ret\n\n.align 2\n.global fn_str_free\nfn_str_free:\n    stp x29, x30, [sp, #-16]!\n    mov x29, sp\n    cbz x0, .L_arm64_sfree_done\n    bl "@;
    let s = s + symbol_prefix(os);
    let s = s + "free\n.L_arm64_sfree_done:\n    mov x0, #0\n    ldp x29, x30, [sp], #16\n    ret\n\n"@;
    s
}

/// Appends the AArch64 heap allocation routines, as assembly text after `prefix`.
pub fn emit(out: &mut String, os: OperatingSystem)
    ensures
        final(out)@ == heap_routines(old(out)@, os),
{
    out.append(".align 2\n.global fn_alloc\nfn_alloc:\n    stp x29, x30, [sp, #-32]!\n    mov x29, sp\n    str x0, [sp, #16]\n");
    emit_adrp_add(out, "x1", "alya_allocated_bytes", os);
    out.append("    ldr x2, [x1]\n    add x2, x2, x0\n    str x2, [x1]\n    ldr x0, [sp, #16]\n    bl ");
    out.append(symbol_prefix_str(os));
    out.append("malloc\n    ldp x29, x30, [sp], #32\n    ret\n\n.align 2\n.global fn_free\nfn_free:\n    stp x29, x30, [sp, #-16]!\n    mov x29, sp\n    cbz x0, .L_arm64_free_done\n    bl ");
    out.append(symbol_prefix_str(os));
    out.append("free\n.L_arm64_free_done:\n    mov x0, #0\n    ldp x29, x30, [sp], #16\n    ret\n\n.align 2\n.global fn_realloc\nfn_realloc:\n    stp x29, x30, [sp, #-32]!\n    mov x29, sp\n    str x0, [sp, #16]\n    str x1, [sp, #24]\n");
    emit_adrp_add(out, "x2", "alya_allocated_bytes", os);
    out.append("    ldr x3, [x2]\n    add x3, x3, x1\n    str x3, [x2]\n    ldr x0, [sp, #16]\n    ldr x1, [sp, #24]\n    bl ");
    out.append(symbol_prefix_str(os));
    out.append("realloc\n    ldp x29, x30, [sp], #32\n    ret\n\n.align 2\n.global fn_copy_mem\nfn_copy_mem:\n    stp x29, x30, [sp, #-16]!\n    mov x29, sp\n    bl ");
    out.append(symbol_prefix_str(os));
    out.append("memcpy\n    ldp x29, x30, [sp], #16\n    ret\n\n.align 2\n.global fn_zero_mem\nfn_zero_mem:\n    stp x29, x30, [sp, #-16]!\n    mov x29, sp\n    mov x2, x1\n    mov x1, #0\n    bl ");
    out.append(symbol_prefix_str(os));
    out.append("memset\n    ldp x29, x30, [sp], #16\n    ret\n\n.align 2\n.global fn_peek_byte\nfn_peek_byte:\n    add x0, x0, x1\n    ldrb w0, [x0]\n    ret\n\n.align 2\n.global fn_poke_byte\nfn_poke_byte:\n    add x0, x0, x1\n    strb w2, [x0]\n    mov x0, #0\n    ret\n\n.align 2\n.global fn_peek_int\nfn_peek_int:\n    add x0, x0, x1\n    ldr x0, [x0]\n    ret\n\n.align 2\n.global fn_poke_int\nfn_poke_int:\n    add x0, x0, x1\n    str x2, [x0]\n    mov x0, #0\n    ret\n\n.align 2\n.global fn_str_from_ptr\nfn_str_from_ptr:\n    cbnz x0, .L_arm64_sfp_ret\n");
    emit_adrp_add(out, "x0", "alya_str_empty", os);
    out.append(".L_arm64_sfp_ret:\n    ret\n\n.align 2\n.global fn_str_to_ptr\nfn_str_to_ptr:\n    ret\n\n.align 2\n.global fn_mem_allocated\nfn_mem_allocated:\n");
    emit_adrp_add(out, "x1", "alya_allocated_bytes", os);
    out.append("    ldr x0, [x1]\n    ret\n\n.align 2\n.global fn_mem_reset_alloc\nfn_mem_reset_alloc:\n");
    emit_adrp_add(out, "x1", "alya_allocated_bytes", os);
    out.append("    str xzr, [x1]\n    mov x0, #0\n    ret\n\n.align 2\n.global fn_str_clone\nfn_str_clone:\n    stp x29, x30, [sp, #-48]!\n    mov x29, sp\n    stp x19, x20, [sp, #16]\n    str x21, [sp, #32]\n    mov x19, x0\n    cbz x19, .L_arm64_sclone_empty\n    mov x20, x19\n    mov x21, #0\n.L_arm64_sclone_len:\n    ldrb w1, [x20]\n    cbz w1, .L_arm64_sclone_alloc\n    add x20, x20, #1\n    add x21, x21, #1\n    b .L_arm64_sclone_len\n.L_arm64_sclone_alloc:\n    add x21, x21, #1\n    mov x0, x21\n");
    emit_adrp_add(out, "x1", "alya_allocated_bytes", os);
    out.append("    ldr x2, [x1]\n    add x2, x2, x21\n    str x2, [x1]\n    bl ");
    out.append(symbol_prefix_str(os));
    out.append("malloc\n    cbz x0, .L_arm64_sclone_empty\n    mov x20, x0\n    mov x1, x19\n    mov x2, x21\n    bl ");
    out.append(symbol_prefix_str(os));
    out.append("memcpy\n    mov x0, x20\n    b .L_arm64_sclone_done\n.L_arm64_sclone_empty:\n");
    emit_adrp_add(out, "x0", "alya_str_empty", os);
    out.append(".L_arm64_sclone_done:\n    ldp x19, x20, [sp, #16]\n    ldr x21, [sp, #32]\n    ldp x29, x30, [sp], #48\n    ret\n\n.align 2\n.global fn_str_free\nfn_str_free:\n    stp x29, x30, [sp, #-16]!\n    mov x29, sp\n    cbz x0, .L_arm64_sfree_done\n    bl ");
    out.append(symbol_prefix_str(os));
    out.append("free\n.L_arm64_sfree_done:\n    mov x0, #0\n    ldp x29, x30, [sp], #16\n    ret\n\n");
}

} // verus!
