use vstd::prelude::*;
use crate::codegen::target::{OperatingSystem, symbol_prefix, symbol_prefix_str};
use super::{adrp_add_text, emit_adrp_add};

verus! {

/// The AArch64 socket routines, as assembly text after `prefix`.
pub open spec fn net_routines(prefix: Seq<char>, os: OperatingSystem) -> Seq<char> {
    let s = prefix;
    let s = s + ".align 2\n.global fn_net_socket\nfn_net_socket:\n    stp x29, x30, [sp, #-16]!\n    mov x29, sp\n    mov x0, #2\n    mov x1, #1\n    mov x2, #0\n    bl "@;
    let s = s + symbol_prefix(os);
    let s = s + "socket\n    cmp x0, #0\n    bge .L_arm64_socket_ok\n    mvn x0, xzr\n.L_arm64_socket_ok:\n    ldp x29, x30, [sp], #16\n    ret\n\n.align 2\n.global fn_net_connect\nfn_net_connect:\n    stp x29, x30, [sp, #-80]!\n    mov x29, sp\n    stp x19, x20, [sp, #16]\n    stp x21, x22, [sp, #32]\n    mov x19, x0\n    mov x20, x1\n    cbz x19, .L_arm64_conn_fail\n    str xzr, [sp, #48]\n    str xzr, [sp, #56]\n"@;
    let s = if os == OperatingSystem::MacOS {
        let s = s + "    mov w2, #0x0210\n    strh w2, [sp, #48]\n"@;
        s
    } else {
        let s = s + "    mov w2, #2\n    strh w2, [sp, #48]\n"@;
        s
    };
    let s = s + "    rev16 w2, w20\n    strh w2, [sp, #50]\n    mov x0, x19\n    bl "@;
    let s = s + symbol_prefix(os);
    let s = s + "inet_addr\n    cmn w0, #1\n    bne .L_arm64_conn_have_ip\n    mov x0, x19\n    bl "@;
    let s = s + symbol_prefix(os);
    let s = s + "gethostbyname\n    cbz x0, .L_arm64_conn_fail\n    ldr x0, [x0, #24]\n    cbz x0, .L_arm64_conn_fail\n    ldr x0, [x0]\n    cbz x0, .L_arm64_conn_fail\n    ldr w0, [x0]\n.L_arm64_conn_have_ip:\n    str w0, [sp, #52]\n    mov x0, #2\n    mov x1, #1\n    mov x2, #0\n    bl "@;
    let s = s + symbol_prefix(os);
    let s = s + "socket\n    cmp x0, #0\n    blt .L_arm64_conn_fail\n    mov x21, x0\n    mov x0, x21\n    add x1, sp, #48\n    mov x2, #16\n    bl "@;
    let s = s + symbol_prefix(os);
    let s = s + "connect\n    cmp w0, #0\n    blt .L_arm64_conn_close\n    mov x0, x21\n    b .L_arm64_conn_ret\n.L_arm64_conn_close:\n    mov x0, x21\n    bl "@;
    let s = s + symbol_prefix(os);
    let s = s + "close\n.L_arm64_conn_fail:\n    mvn x0, xzr\n.L_arm64_conn_ret:\n    ldp x19, x20, [sp, #16]\n    ldp x21, x22, [sp, #32]\n    ldp x29, x30, [sp], #80\n    ret\n\n.align 2\n.global fn_net_listen\nfn_net_listen:\n    stp x29, x30, [sp, #-80]!\n    mov x29, sp\n    stp x19, x20, [sp, #16]\n    stp x21, x22, [sp, #32]\n    mov x19, x0\n    mov x20, x1\n    cmp x20, #0\n    bgt .L_arm64_listen_bl_ok\n    mov x20, #10\n.L_arm64_listen_bl_ok:\n    mov x0, #2\n    mov x1, #1\n    mov x2, #0\n    bl "@;
    let s = s + symbol_prefix(os);
    let s = s + "socket\n    cmp x0, #0\n    blt .L_arm64_listen_fail\n    mov x21, x0\n    str xzr, [sp, #48]\n    str xzr, [sp, #56]\n"@;
    let s = if os == OperatingSystem::MacOS {
        let s = s + "    mov w2, #0x0210\n    strh w2, [sp, #48]\n"@;
        s
    } else {
        let s = s + "    mov w2, #2\n    strh w2, [sp, #48]\n"@;
        s
    };
    let s = s + "    rev16 w2, w19\n    strh w2, [sp, #50]\n    str wzr, [sp, #52]\n    mov x0, x21\n    add x1, sp, #48\n    mov x2, #16\n    bl "@;
    let s = s + symbol_prefix(os);
    let s = s + "bind\n    cmp w0, #0\n    blt .L_arm64_listen_close\n    mov x0, x21\n    mov x1, x20\n    bl "@;
    let s = s + symbol_prefix(os);
    let s = s + "listen\n    cmp w0, #0\n    blt .L_arm64_listen_close\n    mov x0, x21\n    b .L_arm64_listen_ret\n.L_arm64_listen_close:\n    mov x0, x21\n    bl "@;
    let s = s + symbol_prefix(os);
    let s = s + "close\n.L_arm64_listen_fail:\n    mvn x0, xzr\n.L_arm64_listen_ret:\n    ldp x19, x20, [sp, #16]\n    ldp x21, x22, [sp, #32]\n    ldp x29, x30, [sp], #80\n    ret\n\n.align 2\n.global fn_net_accept\nfn_net_accept:\n    stp x29, x30, [sp, #-16]!\n    mov x29, sp\n    mov x1, #0\n    mov x2, #0\n    bl "@;
    let s = s + symbol_prefix(os);
    let s = s + "accept\n    cmp x0, #0\n    bge .L_arm64_accept_ok\n    mvn x0, xzr\n.L_arm64_accept_ok:\n    ldp x29, x30, [sp], #16\n    ret\n\n.align 2\n.global fn_net_send\nfn_net_send:\n    stp x29, x30, [sp, #-48]!\n    mov x29, sp\n    stp x19, x20, [sp, #16]\n    stp x21, x22, [sp, #32]\n    mov x19, x0\n    mov x20, x1\n    cbz x20, .L_arm64_send_zero\n    mov x21, x20\n    mov x22, #0\n.L_arm64_send_len:\n    ldrb w2, [x21]\n    cbz w2, .L_arm64_send_do\n    add x21, x21, #1\n    add x22, x22, #1\n    b .L_arm64_send_len\n.L_arm64_send_do:\n    cbz x22, .L_arm64_send_zero\n    mov x0, x19\n    mov x1, x20\n    mov x2, x22\n    mov x3, #0\n    bl "@;
    let s = s + symbol_prefix(os);
    let s = s + "send\n    b .L_arm64_send_ret\n.L_arm64_send_zero:\n    mov x0, #0\n.L_arm64_send_ret:\n    ldp x19, x20, [sp, #16]\n    ldp x21, x22, [sp, #32]\n    ldp x29, x30, [sp], #48\n    ret\n\n.align 2\n.global fn_net_recv\nfn_net_recv:\n    stp x29, x30, [sp, #-48]!\n    mov x29, sp\n    stp x19, x20, [sp, #16]\n    stp x21, x22, [sp, #32]\n    mov x19, x0\n    mov x20, x1\n    cmp x20, #0\n    bgt .L_arm64_recv_chk\n    mov x20, #4096\n.L_arm64_recv_chk:\n    mov x2, #524288\n    cmp x20, x2\n    csel x20, x2, x20, gt\n"@;
    let s = s + adrp_add_text("x2"@, "alya_str_idx"@, os);
    let s = s + "    ldr x3, [x2]\n    mov x4, #1000000\n    sub x4, x4, x20\n    cmp x3, x4\n    csel x3, xzr, x3, gt\n"@;
    let s = s + adrp_add_text("x5"@, "alya_str_buf"@, os);
    let s = s + "    add x21, x5, x3\n    mov x22, x3\n    mov x0, x19\n    mov x1, x21\n    mov x2, x20\n    mov x3, #0\n    bl "@;
    let s = s + symbol_prefix(os);
    let s = s + "recv\n    cmp x0, #0\n    ble .L_arm64_recv_empty\n    strb wzr, [x21, x0]\n"@;
    let s = s + adrp_add_text("x2"@, "alya_str_idx"@, os);
    let s = s + "    add x1, x22, x0\n    add x1, x1, #8\n    and x1, x1, #-8\n    str x1, [x2]\n    mov x0, x21\n    b .L_arm64_recv_done\n.L_arm64_recv_empty:\n"@;
    let s = s + adrp_add_text("x0"@, "alya_str_empty"@, os);
    let s = s + ".L_arm64_recv_done:\n    ldp x19, x20, [sp, #16]\n    ldp x21, x22, [sp, #32]\n    ldp x29, x30, [sp], #48\n    ret\n\n.align 2\n.global fn_net_close\nfn_net_close:\n    stp x29, x30, [sp, #-16]!\n    mov x29, sp\n    bl "@;
    let s = s + symbol_prefix(os);
    let s = s + "close\n    mov x0, #0\n    ldp x29, x30, [sp], #16\n    ret\n\n"@;
    s
}

/// Appends the AArch64 socket routines, as assembly text after `prefix`.
pub fn emit(out: &mut String, os: OperatingSystem)
    ensures
        final(out)@ == net_routines(old(out)@, os),
{
    out.append(".align 2\n.global fn_net_socket\nfn_net_socket:\n    stp x29, x30, [sp, #-16]!\n    mov x29, sp\n    mov x0, #2\n    mov x1, #1\n    mov x2, #0\n    bl ");
    out.append(symbol_prefix_str(os));
    out.append("socket\n    cmp x0, #0\n    bge .L_arm64_socket_ok\n    mvn x0, xzr\n.L_arm64_socket_ok:\n    ldp x29, x30, [sp], #16\n    ret\n\n.align 2\n.global fn_net_connect\nfn_net_connect:\n    stp x29, x30, [sp, #-80]!\n    mov x29, sp\n    stp x19, x20, [sp, #16]\n    stp x21, x22, [sp, #32]\n    mov x19, x0\n    mov x20, x1\n    cbz x19, .L_arm64_conn_fail\n    str xzr, [sp, #48]\n    str xzr, [sp, #56]\n");
    if os == OperatingSystem::MacOS {
        out.append("    mov w2, #0x0210\n    strh w2, [sp, #48]\n");
    } else {
        out.append("    mov w2, #2\n    strh w2, [sp, #48]\n");
    }
    out.append("    rev16 w2, w20\n    strh w2, [sp, #50]\n    mov x0, x19\n    bl ");
    out.append(symbol_prefix_str(os));
    out.append("inet_addr\n    cmn w0, #1\n    bne .L_arm64_conn_have_ip\n    mov x0, x19\n    bl ");
    out.append(symbol_prefix_str(os));
    out.append("gethostbyname\n    cbz x0, .L_arm64_conn_fail\n    ldr x0, [x0, #24]\n    cbz x0, .L_arm64_conn_fail\n    ldr x0, [x0]\n    cbz x0, .L_arm64_conn_fail\n    ldr w0, [x0]\n.L_arm64_conn_have_ip:\n    str w0, [sp, #52]\n    mov x0, #2\n    mov x1, #1\n    mov x2, #0\n    bl ");
    out.append(symbol_prefix_str(os));
    out.append("socket\n    cmp x0, #0\n    blt .L_arm64_conn_fail\n    mov x21, x0\n    mov x0, x21\n    add x1, sp, #48\n    mov x2, #16\n    bl ");
    out.append(symbol_prefix_str(os));
    out.append("connect\n    cmp w0, #0\n    blt .L_arm64_conn_close\n    mov x0, x21\n    b .L_arm64_conn_ret\n.L_arm64_conn_close:\n    mov x0, x21\n    bl ");
    out.append(symbol_prefix_str(os));
    out.append("close\n.L_arm64_conn_fail:\n    mvn x0, xzr\n.L_arm64_conn_ret:\n    ldp x19, x20, [sp, #16]\n    ldp x21, x22, [sp, #32]\n    ldp x29, x30, [sp], #80\n    ret\n\n.align 2\n.global fn_net_listen\nfn_net_listen:\n    stp x29, x30, [sp, #-80]!\n    mov x29, sp\n    stp x19, x20, [sp, #16]\n    stp x21, x22, [sp, #32]\n    mov x19, x0\n    mov x20, x1\n    cmp x20, #0\n    bgt .L_arm64_listen_bl_ok\n    mov x20, #10\n.L_arm64_listen_bl_ok:\n    mov x0, #2\n    mov x1, #1\n    mov x2, #0\n    bl ");
    out.append(symbol_prefix_str(os));
    out.append("socket\n    cmp x0, #0\n    blt .L_arm64_listen_fail\n    mov x21, x0\n    str xzr, [sp, #48]\n    str xzr, [sp, #56]\n");
    if os == OperatingSystem::MacOS {
        out.append("    mov w2, #0x0210\n    strh w2, [sp, #48]\n");
    } else {
        out.append("    mov w2, #2\n    strh w2, [sp, #48]\n");
    }
    out.append("    rev16 w2, w19\n    strh w2, [sp, #50]\n    str wzr, [sp, #52]\n    mov x0, x21\n    add x1, sp, #48\n    mov x2, #16\n    bl ");
    out.append(symbol_prefix_str(os));
    out.append("bind\n    cmp w0, #0\n    blt .L_arm64_listen_close\n    mov x0, x21\n    mov x1, x20\n    bl ");
    out.append(symbol_prefix_str(os));
    out.append("listen\n    cmp w0, #0\n    blt .L_arm64_listen_close\n    mov x0, x21\n    b .L_arm64_listen_ret\n.L_arm64_listen_close:\n    mov x0, x21\n    bl ");
    out.append(symbol_prefix_str(os));
    out.append("close\n.L_arm64_listen_fail:\n    mvn x0, xzr\n.L_arm64_listen_ret:\n    ldp x19, x20, [sp, #16]\n    ldp x21, x22, [sp, #32]\n    ldp x29, x30, [sp], #80\n    ret\n\n.align 2\n.global fn_net_accept\nfn_net_accept:\n    stp x29, x30, [sp, #-16]!\n    mov x29, sp\n    mov x1, #0\n    mov x2, #0\n    bl ");
    out.append(symbol_prefix_str(os));
    out.append("accept\n    cmp x0, #0\n    bge .L_arm64_accept_ok\n    mvn x0, xzr\n.L_arm64_accept_ok:\n    ldp x29, x30, [sp], #16\n    ret\n\n.align 2\n.global fn_net_send\nfn_net_send:\n    stp x29, x30, [sp, #-48]!\n    mov x29, sp\n    stp x19, x20, [sp, #16]\n    stp x21, x22, [sp, #32]\n    mov x19, x0\n    mov x20, x1\n    cbz x20, .L_arm64_send_zero\n    mov x21, x20\n    mov x22, #0\n.L_arm64_send_len:\n    ldrb w2, [x21]\n    cbz w2, .L_arm64_send_do\n    add x21, x21, #1\n    add x22, x22, #1\n    b .L_arm64_send_len\n.L_arm64_send_do:\n    cbz x22, .L_arm64_send_zero\n    mov x0, x19\n    mov x1, x20\n    mov x2, x22\n    mov x3, #0\n    bl ");
    out.append(symbol_prefix_str(os));
    out.append("send\n    b .L_arm64_send_ret\n.L_arm64_send_zero:\n    mov x0, #0\n.L_arm64_send_ret:\n    ldp x19, x20, [sp, #16]\n    ldp x21, x22, [sp, #32]\n    ldp x29, x30, [sp], #48\n    ret\n\n.align 2\n.global fn_net_recv\nfn_net_recv:\n    stp x29, x30, [sp, #-48]!\n    mov x29, sp\n    stp x19, x20, [sp, #16]\n    stp x21, x22, [sp, #32]\n    mov x19, x0\n    mov x20, x1\n    cmp x20, #0\n    bgt .L_arm64_recv_chk\n    mov x20, #4096\n.L_arm64_recv_chk:\n    mov x2, #524288\n    cmp x20, x2\n    csel x20, x2, x20, gt\n");
    emit_adrp_add(out, "x2", "alya_str_idx", os);
    out.append("    ldr x3, [x2]\n    mov x4, #1000000\n    sub x4, x4, x20\n    cmp x3, x4\n    csel x3, xzr, x3, gt\n");
    emit_adrp_add(out, "x5", "alya_str_buf", os);
    out.append("    add x21, x5, x3\n    mov x22, x3\n    mov x0, x19\n    mov x1, x21\n    mov x2, x20\n    mov x3, #0\n    bl ");
    out.append(symbol_prefix_str(os));
    out.append("recv\n    cmp x0, #0\n    ble .L_arm64_recv_empty\n    strb wzr, [x21, x0]\n");
    emit_adrp_add(out, "x2", "alya_str_idx", os);
    out.append("    add x1, x22, x0\n    add x1, x1, #8\n    and x1, x1, #-8\n    str x1, [x2]\n    mov x0, x21\n    b .L_arm64_recv_done\n.L_arm64_recv_empty:\n");
    emit_adrp_add(out, "x0", "alya_str_empty", os);
    out.append(".L_arm64_recv_done:\n    ldp x19, x20, [sp, #16]\n    ldp x21, x22, [sp, #32]\n    ldp x29, x30, [sp], #48\n    ret\n\n.align 2\n.global fn_net_close\nfn_net_close:\n    stp x29, x30, [sp, #-16]!\n    mov x29, sp\n    bl ");
    out.append(symbol_prefix_str(os));
    out.append("close\n    mov x0, #0\n    ldp x29, x30, [sp], #16\n    ret\n\n");
}

} // verus!
