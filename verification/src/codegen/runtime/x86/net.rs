use vstd::prelude::*;
use crate::codegen::target::{OperatingSystem, symbol_prefix, symbol_prefix_str, socket_close_name, socket_close_name_str};

verus! {

/// The x86 (32-bit) socket routines, as assembly text after `prefix`.
pub open spec fn net_routines(prefix: Seq<char>, os: OperatingSystem) -> Seq<char> {
    let s = prefix;
    let s = s + ".global fn_net_socket\nfn_net_socket:\n    push %ebp\n    mov %esp, %ebp\n    push $0\n    push $1\n    push $2\n    call socket\n    add $12, %esp\n    cmp $0, %eax\n    jge .L_x86_socket_ok\n    mov $-1, %eax\n.L_x86_socket_ok:\n    mov %ebp, %esp\n    pop %ebp\n    ret\n\n.global fn_net_connect\nfn_net_connect:\n    push %ebp\n    mov %esp, %ebp\n    push %ebx\n    push %esi\n    push %edi\n    sub $32, %esp\n    mov 8(%ebp), %esi\n    mov 12(%ebp), %ebx\n    test %esi, %esi\n    jz .L_x86_conn_fail\n    movl $0, -44(%ebp)\n    movl $0, -40(%ebp)\n    movl $0, -36(%ebp)\n    movl $0, -32(%ebp)\n    movw $2, -44(%ebp)\n    mov %bx, %ax\n    xchg %al, %ah\n    mov %ax, -42(%ebp)\n    push %esi\n    call inet_addr\n    add $4, %esp\n    cmp $0xffffffff, %eax\n    jne .L_x86_conn_have_ip\n    push %esi\n    call gethostbyname\n    add $4, %esp\n    test %eax, %eax\n    jz .L_x86_conn_fail\n    mov 16(%eax), %eax\n    test %eax, %eax\n    jz .L_x86_conn_fail\n    mov (%eax), %eax\n    test %eax, %eax\n    jz .L_x86_conn_fail\n    movl (%eax), %eax\n.L_x86_conn_have_ip:\n    movl %eax, -40(%ebp)\n    push $0\n    push $1\n    push $2\n    call socket\n    add $12, %esp\n    cmp $0, %eax\n    jl .L_x86_conn_fail\n    mov %eax, %ebx\n    push $16\n    lea -44(%ebp), %eax\n    push %eax\n    push %ebx\n    call connect\n    add $12, %esp\n    cmp $0, %eax\n    jl .L_x86_conn_close\n    mov %ebx, %eax\n    jmp .L_x86_conn_ret\n.L_x86_conn_close:\n    push %ebx\n    call "@;
    let s = s + socket_close_name(os);
    let s = s + "\n    add $4, %esp\n.L_x86_conn_fail:\n    mov $-1, %eax\n.L_x86_conn_ret:\n    add $32, %esp\n    pop %edi\n    pop %esi\n    pop %ebx\n    mov %ebp, %esp\n    pop %ebp\n    ret\n\n.global fn_net_listen\nfn_net_listen:\n    push %ebp\n    mov %esp, %ebp\n    push %ebx\n    push %esi\n    push %edi\n    sub $32, %esp\n    mov 8(%ebp), %esi\n    mov 12(%ebp), %edi\n    cmp $0, %edi\n    jg .L_x86_listen_bl_ok\n    mov $10, %edi\n.L_x86_listen_bl_ok:\n    push $0\n    push $1\n    push $2\n    call socket\n    add $12, %esp\n    cmp $0, %eax\n    jl .L_x86_listen_fail\n    mov %eax, %ebx\n    movl $0, -44(%ebp)\n    movl $0, -40(%ebp)\n    movl $0, -36(%ebp)\n    movl $0, -32(%ebp)\n    movw $2, -44(%ebp)\n    mov %si, %ax\n    xchg %al, %ah\n    mov %ax, -42(%ebp)\n    movl $0, -40(%ebp)\n    push $16\n    lea -44(%ebp), %eax\n    push %eax\n    push %ebx\n    call bind\n    add $12, %esp\n    cmp $0, %eax\n    jl .L_x86_listen_close\n    push %edi\n    push %ebx\n    call listen\n    add $8, %esp\n    cmp $0, %eax\n    jl .L_x86_listen_close\n    mov %ebx, %eax\n    jmp .L_x86_listen_ret\n.L_x86_listen_close:\n    push %ebx\n    call "@;
    let s = s + socket_close_name(os);
    let s = s + "\n    add $4, %esp\n.L_x86_listen_fail:\n    mov $-1, %eax\n.L_x86_listen_ret:\n    add $32, %esp\n    pop %edi\n    pop %esi\n    pop %ebx\n    mov %ebp, %esp\n    pop %ebp\n    ret\n\n.global fn_net_accept\nfn_net_accept:\n    push %ebp\n    mov %esp, %ebp\n    push $0\n    push $0\n    push 8(%ebp)\n    call accept\n    add $12, %esp\n    cmp $0, %eax\n    jge .L_x86_accept_ok\n    mov $-1, %eax\n.L_x86_accept_ok:\n    mov %ebp, %esp\n    pop %ebp\n    ret\n\n.global fn_net_send\nfn_net_send:\n    push %ebp\n    mov %esp, %ebp\n    push %ebx\n    push %esi\n    push %edi\n    mov 8(%ebp), %ebx\n    mov 12(%ebp), %esi\n    test %esi, %esi\n    jz .L_x86_send_zero\n    mov %esi, %edi\n    xor %ecx, %ecx\n.L_x86_send_len:\n    cmpb $0, (%edi)\n    je .L_x86_send_do\n    inc %edi\n    inc %ecx\n    jmp .L_x86_send_len\n.L_x86_send_do:\n    test %ecx, %ecx\n    jz .L_x86_send_zero\n    push $0\n    push %ecx\n    push %esi\n    push %ebx\n    call send\n    add $16, %esp\n    jmp .L_x86_send_ret\n.L_x86_send_zero:\n    xor %eax, %eax\n.L_x86_send_ret:\n    pop %edi\n    pop %esi\n    pop %ebx\n    mov %ebp, %esp\n    pop %ebp\n    ret\n\n.global fn_net_recv\nfn_net_recv:\n    push %ebp\n    mov %esp, %ebp\n    push %ebx\n    push %esi\n    push %edi\n    mov 8(%ebp), %ebx\n    mov 12(%ebp), %esi\n    cmp $0, %esi\n    jg .L_x86_recv_chk\n    mov $4096, %esi\n.L_x86_recv_chk:\n    cmp $524288, %esi\n    jle .L_x86_recv_alloc\n    mov $524288, %esi\n.L_x86_recv_alloc:\n    mov alya_str_idx, %edi\n    mov $1000000, %ecx\n    sub %esi, %ecx\n    cmp %ecx, %edi\n    jl .L_x86_recv_buf_ok\n    xor %edi, %edi\n.L_x86_recv_buf_ok:\n    lea alya_str_buf, %edx\n    add %edi, %edx\n    push $0\n    push %esi\n    push %edx\n    push %ebx\n    call recv\n    add $16, %esp\n    cmp $0, %eax\n    jle .L_x86_recv_empty\n    lea alya_str_buf, %edx\n    add %edi, %edx\n    movb $0, (%edx, %eax)\n    lea 1(%eax, %edi), %ecx\n    add $7, %ecx\n    and $-8, %ecx\n    mov %ecx, alya_str_idx\n    mov %edx, %eax\n    jmp .L_x86_recv_done\n.L_x86_recv_empty:\n    mov $alya_str_empty, %eax\n.L_x86_recv_done:\n    pop %edi\n    pop %esi\n    pop %ebx\n    mov %ebp, %esp\n    pop %ebp\n    ret\n\n.global fn_net_close\nfn_net_close:\n    push %ebp\n    mov %esp, %ebp\n    push 8(%ebp)\n    call "@;
    let s = s + socket_close_name(os);
    let s = s + "\n    add $4, %esp\n    xor %eax, %eax\n    mov %ebp, %esp\n    pop %ebp\n    ret\n\n"@;
    s
}

/// Appends the x86 (32-bit) socket routines, as assembly text after `prefix`.
pub fn emit(out: &mut String, os: OperatingSystem)
    ensures
        final(out)@ == net_routines(old(out)@, os),
{
    out.append(".global fn_net_socket\nfn_net_socket:\n    push %ebp\n    mov %esp, %ebp\n    push $0\n    push $1\n    push $2\n    call socket\n    add $12, %esp\n    cmp $0, %eax\n    jge .L_x86_socket_ok\n    mov $-1, %eax\n.L_x86_socket_ok:\n    mov %ebp, %esp\n    pop %ebp\n    ret\n\n.global fn_net_connect\nfn_net_connect:\n    push %ebp\n    mov %esp, %ebp\n    push %ebx\n    push %esi\n    push %edi\n    sub $32, %esp\n    mov 8(%ebp), %esi\n    mov 12(%ebp), %ebx\n    test %esi, %esi\n    jz .L_x86_conn_fail\n    movl $0, -44(%ebp)\n    movl $0, -40(%ebp)\n    movl $0, -36(%ebp)\n    movl $0, -32(%ebp)\n    movw $2, -44(%ebp)\n    mov %bx, %ax\n    xchg %al, %ah\n    mov %ax, -42(%ebp)\n    push %esi\n    call inet_addr\n    add $4, %esp\n    cmp $0xffffffff, %eax\n    jne .L_x86_conn_have_ip\n    push %esi\n    call gethostbyname\n    add $4, %esp\n    test %eax, %eax\n    jz .L_x86_conn_fail\n    mov 16(%eax), %eax\n    test %eax, %eax\n    jz .L_x86_conn_fail\n    mov (%eax), %eax\n    test %eax, %eax\n    jz .L_x86_conn_fail\n    movl (%eax), %eax\n.L_x86_conn_have_ip:\n    movl %eax, -40(%ebp)\n    push $0\n    push $1\n    push $2\n    call socket\n    add $12, %esp\n    cmp $0, %eax\n    jl .L_x86_conn_fail\n    mov %eax, %ebx\n    push $16\n    lea -44(%ebp), %eax\n    push %eax\n    push %ebx\n    call connect\n    add $12, %esp\n    cmp $0, %eax\n    jl .L_x86_conn_close\n    mov %ebx, %eax\n    jmp .L_x86_conn_ret\n.L_x86_conn_close:\n    push %ebx\n    call ");
    out.append(socket_close_name_str(os));
    out.append("\n    add $4, %esp\n.L_x86_conn_fail:\n    mov $-1, %eax\n.L_x86_conn_ret:\n    add $32, %esp\n    pop %edi\n    pop %esi\n    pop %ebx\n    mov %ebp, %esp\n    pop %ebp\n    ret\n\n.global fn_net_listen\nfn_net_listen:\n    push %ebp\n    mov %esp, %ebp\n    push %ebx\n    push %esi\n    push %edi\n    sub $32, %esp\n    mov 8(%ebp), %esi\n    mov 12(%ebp), %edi\n    cmp $0, %edi\n    jg .L_x86_listen_bl_ok\n    mov $10, %edi\n.L_x86_listen_bl_ok:\n    push $0\n    push $1\n    push $2\n    call socket\n    add $12, %esp\n    cmp $0, %eax\n    jl .L_x86_listen_fail\n    mov %eax, %ebx\n    movl $0, -44(%ebp)\n    movl $0, -40(%ebp)\n    movl $0, -36(%ebp)\n    movl $0, -32(%ebp)\n    movw $2, -44(%ebp)\n    mov %si, %ax\n    xchg %al, %ah\n    mov %ax, -42(%ebp)\n    movl $0, -40(%ebp)\n    push $16\n    lea -44(%ebp), %eax\n    push %eax\n    push %ebx\n    call bind\n    add $12, %esp\n    cmp $0, %eax\n    jl .L_x86_listen_close\n    push %edi\n    push %ebx\n    call listen\n    add $8, %esp\n    cmp $0, %eax\n    jl .L_x86_listen_close\n    mov %ebx, %eax\n    jmp .L_x86_listen_ret\n.L_x86_listen_close:\n    push %ebx\n    call ");
    out.append(socket_close_name_str(os));
    out.append("\n    add $4, %esp\n.L_x86_listen_fail:\n    mov $-1, %eax\n.L_x86_listen_ret:\n    add $32, %esp\n    pop %edi\n    pop %esi\n    pop %ebx\n    mov %ebp, %esp\n    pop %ebp\n    ret\n\n.global fn_net_accept\nfn_net_accept:\n    push %ebp\n    mov %esp, %ebp\n    push $0\n    push $0\n    push 8(%ebp)\n    call accept\n    add $12, %esp\n    cmp $0, %eax\n    jge .L_x86_accept_ok\n    mov $-1, %eax\n.L_x86_accept_ok:\n    mov %ebp, %esp\n    pop %ebp\n    ret\n\n.global fn_net_send\nfn_net_send:\n    push %ebp\n    mov %esp, %ebp\n    push %ebx\n    push %esi\n    push %edi\n    mov 8(%ebp), %ebx\n    mov 12(%ebp), %esi\n    test %esi, %esi\n    jz .L_x86_send_zero\n    mov %esi, %edi\n    xor %ecx, %ecx\n.L_x86_send_len:\n    cmpb $0, (%edi)\n    je .L_x86_send_do\n    inc %edi\n    inc %ecx\n    jmp .L_x86_send_len\n.L_x86_send_do:\n    test %ecx, %ecx\n    jz .L_x86_send_zero\n    push $0\n    push %ecx\n    push %esi\n    push %ebx\n    call send\n    add $16, %esp\n    jmp .L_x86_send_ret\n.L_x86_send_zero:\n    xor %eax, %eax\n.L_x86_send_ret:\n    pop %edi\n    pop %esi\n    pop %ebx\n    mov %ebp, %esp\n    pop %ebp\n    ret\n\n.global fn_net_recv\nfn_net_recv:\n    push %ebp\n    mov %esp, %ebp\n    push %ebx\n    push %esi\n    push %edi\n    mov 8(%ebp), %ebx\n    mov 12(%ebp), %esi\n    cmp $0, %esi\n    jg .L_x86_recv_chk\n    mov $4096, %esi\n.L_x86_recv_chk:\n    cmp $524288, %esi\n    jle .L_x86_recv_alloc\n    mov $524288, %esi\n.L_x86_recv_alloc:\n    mov alya_str_idx, %edi\n    mov $1000000, %ecx\n    sub %esi, %ecx\n    cmp %ecx, %edi\n    jl .L_x86_recv_buf_ok\n    xor %edi, %edi\n.L_x86_recv_buf_ok:\n    lea alya_str_buf, %edx\n    add %edi, %edx\n    push $0\n    push %esi\n    push %edx\n    push %ebx\n    call recv\n    add $16, %esp\n    cmp $0, %eax\n    jle .L_x86_recv_empty\n    lea alya_str_buf, %edx\n    add %edi, %edx\n    movb $0, (%edx, %eax)\n    lea 1(%eax, %edi), %ecx\n    add $7, %ecx\n    and $-8, %ecx\n    mov %ecx, alya_str_idx\n    mov %edx, %eax\n    jmp .L_x86_recv_done\n.L_x86_recv_empty:\n    mov $alya_str_empty, %eax\n.L_x86_recv_done:\n    pop %edi\n    pop %esi\n    pop %ebx\n    mov %ebp, %esp\n    pop %ebp\n    ret\n\n.global fn_net_close\nfn_net_close:\n    push %ebp\n    mov %esp, %ebp\n    push 8(%ebp)\n    call ");
    out.append(socket_close_name_str(os));
    out.append("\n    add $4, %esp\n    xor %eax, %eax\n    mov %ebp, %esp\n    pop %ebp\n    ret\n\n");
}

/// The routines appended after any prefix do not depend on it.
#[verifier::rlimit(100)]
pub proof fn lemma_routines_append(prefix: Seq<char>, os: OperatingSystem)
    ensures
        net_routines(prefix, os) == prefix + net_routines(seq![], os),
{
    match os {
        OperatingSystem::Linux => {
            assert(net_routines(prefix, os) =~= prefix + net_routines(seq![], os));
        },
        OperatingSystem::Windows => {
            assert(net_routines(prefix, os) =~= prefix + net_routines(seq![], os));
        },
        OperatingSystem::MacOS => {
            assert(net_routines(prefix, os) =~= prefix + net_routines(seq![], os));
        },
    }
}

} // verus!
