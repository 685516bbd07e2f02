use vstd::prelude::*;
use crate::codegen::target::{OperatingSystem, symbol_prefix, symbol_prefix_str};
use super::{adrp_add_text, emit_adrp_add};

verus! {

/// The AArch64 console and process I/O routines, as assembly text after `prefix`.
pub open spec fn io_routines(prefix: Seq<char>, os: OperatingSystem) -> Seq<char> {
    let s = prefix;
    let s = s + "fn_ask:\n    stp x29, x30, [sp, #-16]!\n    mov x29, sp\n    stp x19, x20, [sp, #-16]!\n    stp x21, x22, [sp, #-16]!\n    cbz x0, .L_arm_ask_read\n    mov x1, x0\n"@;
    let s = s + adrp_add_text("x0"@, "alya_fmt_prompt"@, os);
    let s = if os == OperatingSystem::MacOS {
        let s = s + "    sub sp, sp, #16\n    str x1, [sp]\n    bl "@;
        let s = s + symbol_prefix(os);
        let s = s + "printf\n    add sp, sp, #16\n"@;
        s
    } else {
        let s = s + "    bl "@;
        let s = s + symbol_prefix(os);
        let s = s + "printf\n"@;
        s
    };
    let s = s + "    mov x0, #0\n    bl "@;
    let s = s + symbol_prefix(os);
    let s = s + "fflush\n.L_arm_ask_read:\n"@;
    let s = s + adrp_add_text("x19"@, "alya_str_buf"@, os);
    let s = s + adrp_add_text("x20"@, "alya_str_idx"@, os);
    let s = s + "    ldr x2, [x20]\n    mov x9, #48000\n    cmp x2, x9\n    b.lt .L_arm_ask_buf_ok\n    mov x2, #0\n.L_arm_ask_buf_ok:\n    add x19, x19, x2\n    mov x21, x19\n.L_arm_ask_loop:\n    bl "@;
    let s = s + symbol_prefix(os);
    let s = s + "getchar\n    cmp w0, #-1\n    b.eq .L_arm_ask_done\n    cmp w0, #10\n    b.eq .L_arm_ask_done\n    cmp w0, #13\n    b.eq .L_arm_ask_loop\n    strb w0, [x19], #1\n    b .L_arm_ask_loop\n.L_arm_ask_done:\n    strb wzr, [x19], #1\n"@;
    let s = s + adrp_add_text("x1"@, "alya_str_buf"@, os);
    let s = s + "    sub x2, x19, x1\n    add x2, x2, #7\n    and x2, x2, #~7\n    str x2, [x20]\n    mov x0, x21\n    ldp x21, x22, [sp], #16\n    ldp x19, x20, [sp], #16\n    ldp x29, x30, [sp], #16\n    ret\n\n.align 2\n.global fn_get_env\nfn_get_env:\n    stp x29, x30, [sp, #-48]!\n    mov x29, sp\n    stp x19, x20, [sp, #16]\n    stp x21, x22, [sp, #32]\n    cbz x0, .L_arm64_getenv_empty\n    bl "@;
    let s = s + symbol_prefix(os);
    let s = s + "getenv\n    cbz x0, .L_arm64_getenv_empty\n    mov x19, x0\n"@;
    let s = s + adrp_add_text("x2"@, "alya_str_buf"@, os);
    let s = s + adrp_add_text("x3"@, "alya_str_idx"@, os);
    let s = s + "    ldr x4, [x3]\n    mov x5, #48000\n    cmp x4, x5\n    b.lt .L_arm64_getenv_buf_ok\n    mov x4, #0\n.L_arm64_getenv_buf_ok:\n    add x20, x2, x4\n    mov x21, x20\n.L_arm64_getenv_copy:\n    ldrb w6, [x19], #1\n    strb w6, [x21], #1\n    cbnz w6, .L_arm64_getenv_copy\n    sub x7, x21, x2\n    add x7, x7, #7\n    and x7, x7, #-8\n    str x7, [x3]\n    mov x0, x20\n    b .L_arm64_getenv_ret\n.L_arm64_getenv_empty:\n"@;
    let s = s + adrp_add_text("x0"@, "alya_str_empty"@, os);
    let s = s + ".L_arm64_getenv_ret:\n    ldp x21, x22, [sp, #32]\n    ldp x19, x20, [sp, #16]\n    ldp x29, x30, [sp], #48\n    ret\n\n.align 2\n.global fn_target_os\nfn_target_os:\n"@;
    let s = s + adrp_add_text("x0"@, "alya_str_target_os"@, os);
    let s = s + "    ret\n\n.align 2\n.global fn_target_arch\nfn_target_arch:\n"@;
    let s = s + adrp_add_text("x0"@, "alya_str_target_arch"@, os);
    let s = s + "    ret\n\n.align 2\n.global fn_set_console_output_cp\nfn_set_console_output_cp:\n    mov x0, #1\n    ret\n\n.align 2\n.global fn_set_console_input_cp\nfn_set_console_input_cp:\n    mov x0, #1\n    ret\n\n.align 2\n.global fn_get_console_output_cp\nfn_get_console_output_cp:\n    mov x0, #65001\n    ret\n\n.align 2\n.global fn_get_console_input_cp\nfn_get_console_input_cp:\n    mov x0, #65001\n    ret\n\n.align 2\n.global fn_enable_virtual_terminal\nfn_enable_virtual_terminal:\n    mov x0, #1\n    ret\n\n"@;
    s
}

/// Appends the AArch64 console and process I/O routines, as assembly text after `prefix`.
pub fn emit(out: &mut String, os: OperatingSystem)
    ensures
        final(out)@ == io_routines(old(out)@, os),
{
    out.append("fn_ask:\n    stp x29, x30, [sp, #-16]!\n    mov x29, sp\n    stp x19, x20, [sp, #-16]!\n    stp x21, x22, [sp, #-16]!\n    cbz x0, .L_arm_ask_read\n    mov x1, x0\n");
    emit_adrp_add(out, "x0", "alya_fmt_prompt", os);
    if os == OperatingSystem::MacOS {
        out.append("    sub sp, sp, #16\n    str x1, [sp]\n    bl ");
        out.append(symbol_prefix_str(os));
        out.append("printf\n    add sp, sp, #16\n");
    } else {
        out.append("    bl ");
        out.append(symbol_prefix_str(os));
        out.append("printf\n");
    }
    out.append("    mov x0, #0\n    bl ");
    out.append(symbol_prefix_str(os));
    out.append("fflush\n.L_arm_ask_read:\n");
    emit_adrp_add(out, "x19", "alya_str_buf", os);
    emit_adrp_add(out, "x20", "alya_str_idx", os);
    out.append("    ldr x2, [x20]\n    mov x9, #48000\n    cmp x2, x9\n    b.lt .L_arm_ask_buf_ok\n    mov x2, #0\n.L_arm_ask_buf_ok:\n    add x19, x19, x2\n    mov x21, x19\n.L_arm_ask_loop:\n    bl ");
    out.append(symbol_prefix_str(os));
    out.append("getchar\n    cmp w0, #-1\n    b.eq .L_arm_ask_done\n    cmp w0, #10\n    b.eq .L_arm_ask_done\n    cmp w0, #13\n    b.eq .L_arm_ask_loop\n    strb w0, [x19], #1\n    b .L_arm_ask_loop\n.L_arm_ask_done:\n    strb wzr, [x19], #1\n");
    emit_adrp_add(out, "x1", "alya_str_buf", os);
    out.append("    sub x2, x19, x1\n    add x2, x2, #7\n    and x2, x2, #~7\n    str x2, [x20]\n    mov x0, x21\n    ldp x21, x22, [sp], #16\n    ldp x19, x20, [sp], #16\n    ldp x29, x30, [sp], #16\n    ret\n\n.align 2\n.global fn_get_env\nfn_get_env:\n    stp x29, x30, [sp, #-48]!\n    mov x29, sp\n    stp x19, x20, [sp, #16]\n    stp x21, x22, [sp, #32]\n    cbz x0, .L_arm64_getenv_empty\n    bl ");
    out.append(symbol_prefix_str(os));
    out.append("getenv\n    cbz x0, .L_arm64_getenv_empty\n    mov x19, x0\n");
    emit_adrp_add(out, "x2", "alya_str_buf", os);
    emit_adrp_add(out, "x3", "alya_str_idx", os);
    out.append("    ldr x4, [x3]\n    mov x5, #48000\n    cmp x4, x5\n    b.lt .L_arm64_getenv_buf_ok\n    mov x4, #0\n.L_arm64_getenv_buf_ok:\n    add x20, x2, x4\n    mov x21, x20\n.L_arm64_getenv_copy:\n    ldrb w6, [x19], #1\n    strb w6, [x21], #1\n    cbnz w6, .L_arm64_getenv_copy\n    sub x7, x21, x2\n    add x7, x7, #7\n    and x7, x7, #-8\n    str x7, [x3]\n    mov x0, x20\n    b .L_arm64_getenv_ret\n.L_arm64_getenv_empty:\n");
    emit_adrp_add(out, "x0", "alya_str_empty", os);
    out.append(".L_arm64_getenv_ret:\n    ldp x21, x22, [sp, #32]\n    ldp x19, x20, [sp, #16]\n    ldp x29, x30, [sp], #48\n    ret\n\n.align 2\n.global fn_target_os\nfn_target_os:\n");
    emit_adrp_add(out, "x0", "alya_str_target_os", os);
    out.append("    ret\n\n.align 2\n.global fn_target_arch\nfn_target_arch:\n");
    emit_adrp_add(out, "x0", "alya_str_target_arch", os);
    out.append("    ret\n\n.align 2\n.global fn_set_console_output_cp\nfn_set_console_output_cp:\n    mov x0, #1\n    ret\n\n.align 2\n.global fn_set_console_input_cp\nfn_set_console_input_cp:\n    mov x0, #1\n    ret\n\n.align 2\n.global fn_get_console_output_cp\nfn_get_console_output_cp:\n    mov x0, #65001\n    ret\n\n.align 2\n.global fn_get_console_input_cp\nfn_get_console_input_cp:\n    mov x0, #65001\n    ret\n\n.align 2\n.global fn_enable_virtual_terminal\nfn_enable_virtual_terminal:\n    mov x0, #1\n    ret\n\n");
}

} // verus!
