use vstd::prelude::*;

verus! {

/// The core AArch64 string, arithmetic and input routines, as assembly text after `prefix`.
pub open spec fn core_routines(prefix: Seq<char>) -> Seq<char> {
    let s = prefix;
    let s = s + ".align 2\nalya_concat:\n    stp x29, x30, [sp, #-16]!\n    mov x29, sp\n    stp x19, x20, [sp, #-16]!\n    stp x21, x22, [sp, #-16]!\n    adrp x19, alya_str_buf\n    add x19, x19, :lo12:alya_str_buf\n    adrp x20, alya_str_idx\n    add x20, x20, :lo12:alya_str_idx\n    ldr x21, [x20]\n    cmp x21, #48000\n    b.lt .L_arm_concat_ok\n    mov x21, #0\n.L_arm_concat_ok:\n    add x22, x19, x21\n.L_arm_copy1:\n    ldrb w2, [x0], #1\n    cbz w2, .L_arm_copy2_start\n    strb w2, [x22], #1\n    b .L_arm_copy1\n.L_arm_copy2_start:\n.L_arm_copy2:\n    ldrb w2, [x1], #1\n    cbz w2, .L_arm_concat_end\n    strb w2, [x22], #1\n    b .L_arm_copy2\n.L_arm_concat_end:\n    strb wzr, [x22], #1\n    sub x2, x22, x19\n    add x2, x2, #7\n    and x2, x2, #~7\n    str x2, [x20]\n    add x0, x19, x21\n    ldp x21, x22, [sp], #16\n    ldp x19, x20, [sp], #16\n    ldp x29, x30, [sp], #16\n    ret\n\nfn_len:\n    mov x1, x0\n    mov x0, #0\n.L_arm_len_loop:\n    ldrb w2, [x1, x0]\n    cbz w2, .L_arm_len_end\n    add x0, x0, #1\n    b .L_arm_len_loop\n.L_arm_len_end:\n    ret\n\nfn_abs:\n    cmp x0, #0\n    b.ge .L_arm_abs_end\n    neg x0, x0\n.L_arm_abs_end:\n    ret\n\nfn_min:\n    cmp x0, x1\n    csel x0, x0, x1, le\n    ret\n\nfn_max:\n    cmp x0, x1\n    csel x0, x0, x1, ge\n    ret\n\nfn_exit:\n    b exit\n\nfn_ask:\n    stp x29, x30, [sp, #-16]!\n    mov x29, sp\n    stp x19, x20, [sp, #-16]!\n    stp x21, x22, [sp, #-16]!\n    cbz x0, .L_arm_ask_read\n    mov x1, x0\n    adrp x0, alya_fmt_prompt\n    add x0, x0, :lo12:alya_fmt_prompt\n    bl printf\n    mov x0, #0\n    bl fflush\n.L_arm_ask_read:\n    adrp x19, alya_str_buf\n    add x19, x19, :lo12:alya_str_buf\n    adrp x20, alya_str_idx\n    add x20, x20, :lo12:alya_str_idx\n    ldr x2, [x20]\n    cmp x2, #48000\n    b.lt .L_arm_ask_buf_ok\n    mov x2, #0\n.L_arm_ask_buf_ok:\n    add x19, x19, x2\n    mov x21, x19\n.L_arm_ask_loop:\n    bl getchar\n    cmp w0, #-1\n    b.eq .L_arm_ask_done\n    cmp w0, #10\n    b.eq .L_arm_ask_done\n    cmp w0, #13\n    b.eq .L_arm_ask_loop\n    strb w0, [x19], #1\n    b .L_arm_ask_loop\n.L_arm_ask_done:\n    strb wzr, [x19], #1\n    adrp x1, alya_str_buf\n    add x1, x1, :lo12:alya_str_buf\n    sub x2, x19, x1\n    add x2, x2, #7\n    and x2, x2, #~7\n    str x2, [x20]\n    mov x0, x21\n    ldp x21, x22, [sp], #16\n    ldp x19, x20, [sp], #16\n    ldp x29, x30, [sp], #16\n    ret\n\nalya_error_div_zero:\n    adrp x9, alya_catch_idx\n    add x9, x9, :lo12:alya_catch_idx\n    ldr x10, [x9]\n    cbz x10, .L_arm_fatal_div_zero\n    sub x10, x10, #1\n    str x10, [x9]\n    adrp x11, alya_str_div_zero\n    add x11, x11, :lo12:alya_str_div_zero\n    adrp x12, alya_err_msg\n    add x12, x12, :lo12:alya_err_msg\n    str x11, [x12]\n    adrp x11, alya_catch_stack_sp\n    add x11, x11, :lo12:alya_catch_stack_sp\n    ldr x13, [x11, x10, lsl #3]\n    mov sp, x13\n    adrp x11, alya_catch_stack_bp\n    add x11, x11, :lo12:alya_catch_stack_bp\n    ldr x29, [x11, x10, lsl #3]\n    adrp x11, alya_catch_stack_handler\n    add x11, x11, :lo12:alya_catch_stack_handler\n    ldr x14, [x11, x10, lsl #3]\n    br x14\n.L_arm_fatal_div_zero:\n    mov x19, sp\n    and x19, x19, #~15\n    mov sp, x19\n    adrp x0, alya_fmt_div_zero\n    add x0, x0, :lo12:alya_fmt_div_zero\n    bl printf\n    mov w0, #1\n    bl exit\n\n"@;
    s
}

/// Appends the core AArch64 string, arithmetic and input routines, as assembly text after `prefix`.
pub fn emit_arm64_runtime(out: &mut String)
    ensures
        final(out)@ == core_routines(old(out)@),
{
    out.append(".align 2\nalya_concat:\n    stp x29, x30, [sp, #-16]!\n    mov x29, sp\n    stp x19, x20, [sp, #-16]!\n    stp x21, x22, [sp, #-16]!\n    adrp x19, alya_str_buf\n    add x19, x19, :lo12:alya_str_buf\n    adrp x20, alya_str_idx\n    add x20, x20, :lo12:alya_str_idx\n    ldr x21, [x20]\n    cmp x21, #48000\n    b.lt .L_arm_concat_ok\n    mov x21, #0\n.L_arm_concat_ok:\n    add x22, x19, x21\n.L_arm_copy1:\n    ldrb w2, [x0], #1\n    cbz w2, .L_arm_copy2_start\n    strb w2, [x22], #1\n    b .L_arm_copy1\n.L_arm_copy2_start:\n.L_arm_copy2:\n    ldrb w2, [x1], #1\n    cbz w2, .L_arm_concat_end\n    strb w2, [x22], #1\n    b .L_arm_copy2\n.L_arm_concat_end:\n    strb wzr, [x22], #1\n    sub x2, x22, x19\n    add x2, x2, #7\n    and x2, x2, #~7\n    str x2, [x20]\n    add x0, x19, x21\n    ldp x21, x22, [sp], #16\n    ldp x19, x20, [sp], #16\n    ldp x29, x30, [sp], #16\n    ret\n\nfn_len:\n    mov x1, x0\n    mov x0, #0\n.L_arm_len_loop:\n    ldrb w2, [x1, x0]\n    cbz w2, .L_arm_len_end\n    add x0, x0, #1\n    b .L_arm_len_loop\n.L_arm_len_end:\n    ret\n\nfn_abs:\n    cmp x0, #0\n    b.ge .L_arm_abs_end\n    neg x0, x0\n.L_arm_abs_end:\n    ret\n\nfn_min:\n    cmp x0, x1\n    csel x0, x0, x1, le\n    ret\n\nfn_max:\n    cmp x0, x1\n    csel x0, x0, x1, ge\n    ret\n\nfn_exit:\n    b exit\n\nfn_ask:\n    stp x29, x30, [sp, #-16]!\n    mov x29, sp\n    stp x19, x20, [sp, #-16]!\n    stp x21, x22, [sp, #-16]!\n    cbz x0, .L_arm_ask_read\n    mov x1, x0\n    adrp x0, alya_fmt_prompt\n    add x0, x0, :lo12:alya_fmt_prompt\n    bl printf\n    mov x0, #0\n    bl fflush\n.L_arm_ask_read:\n    adrp x19, alya_str_buf\n    add x19, x19, :lo12:alya_str_buf\n    adrp x20, alya_str_idx\n    add x20, x20, :lo12:alya_str_idx\n    ldr x2, [x20]\n    cmp x2, #48000\n    b.lt .L_arm_ask_buf_ok\n    mov x2, #0\n.L_arm_ask_buf_ok:\n    add x19, x19, x2\n    mov x21, x19\n.L_arm_ask_loop:\n    bl getchar\n    cmp w0, #-1\n    b.eq .L_arm_ask_done\n    cmp w0, #10\n    b.eq .L_arm_ask_done\n    cmp w0, #13\n    b.eq .L_arm_ask_loop\n    strb w0, [x19], #1\n    b .L_arm_ask_loop\n.L_arm_ask_done:\n    strb wzr, [x19], #1\n    adrp x1, alya_str_buf\n    add x1, x1, :lo12:alya_str_buf\n    sub x2, x19, x1\n    add x2, x2, #7\n    and x2, x2, #~7\n    str x2, [x20]\n    mov x0, x21\n    ldp x21, x22, [sp], #16\n    ldp x19, x20, [sp], #16\n    ldp x29, x30, [sp], #16\n    ret\n\nalya_error_div_zero:\n    adrp x9, alya_catch_idx\n    add x9, x9, :lo12:alya_catch_idx\n    ldr x10, [x9]\n    cbz x10, .L_arm_fatal_div_zero\n    sub x10, x10, #1\n    str x10, [x9]\n    adrp x11, alya_str_div_zero\n    add x11, x11, :lo12:alya_str_div_zero\n    adrp x12, alya_err_msg\n    add x12, x12, :lo12:alya_err_msg\n    str x11, [x12]\n    adrp x11, alya_catch_stack_sp\n    add x11, x11, :lo12:alya_catch_stack_sp\n    ldr x13, [x11, x10, lsl #3]\n    mov sp, x13\n    adrp x11, alya_catch_stack_bp\n    add x11, x11, :lo12:alya_catch_stack_bp\n    ldr x29, [x11, x10, lsl #3]\n    adrp x11, alya_catch_stack_handler\n    add x11, x11, :lo12:alya_catch_stack_handler\n    ldr x14, [x11, x10, lsl #3]\n    br x14\n.L_arm_fatal_div_zero:\n    mov x19, sp\n    and x19, x19, #~15\n    mov sp, x19\n    adrp x0, alya_fmt_div_zero\n    add x0, x0, :lo12:alya_fmt_div_zero\n    bl printf\n    mov w0, #1\n    bl exit\n\n");
}

/// The routines appended after any prefix do not depend on it.
pub proof fn lemma_core_append(prefix: Seq<char>)
    ensures
        core_routines(prefix) == prefix + core_routines(seq![]),
{
    assert(core_routines(prefix) =~= prefix + core_routines(seq![]));
}

} // verus!
