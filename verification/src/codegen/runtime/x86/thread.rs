use vstd::prelude::*;
use crate::codegen::target::{OperatingSystem, symbol_prefix, symbol_prefix_str};

verus! {

/// The x86 (32-bit) thread and timing routines, as assembly text after `prefix`.
pub open spec fn thread_routines(prefix: Seq<char>, os: OperatingSystem) -> Seq<char> {
    let s = prefix;
    let s = s + ".global fn_alya_thread_proc\n"@;
    let s = if os == OperatingSystem::Windows {
        let s = s + ".global _fn_alya_thread_proc@4\n_fn_alya_thread_proc@4:\n"@;
        s
    } else {
        s
    };
    let s = s + "fn_alya_thread_proc:\n    push %ebp\n    mov %esp, %ebp\n    sub $16, %esp\n    mov 8(%ebp), %eax\n    mov %eax, -4(%ebp)\n    push 8(%eax)\n    call *4(%eax)\n    add $4, %esp\n    mov -4(%ebp), %edx\n    mov %eax, 12(%edx)\n    xor %eax, %eax\n    mov %ebp, %esp\n    pop %ebp\n"@;
    let s = if os == OperatingSystem::Windows {
        let s = s + "    ret $4\n\n"@;
        s
    } else {
        let s = s + "    ret\n\n"@;
        s
    };
    let s = s + ".global fn___native_thread_spawn\nfn___native_thread_spawn:\n    push %ebp\n    mov %esp, %ebp\n    push %ebx\n    push %esi\n    push %edi\n    mov 8(%ebp), %esi\n    mov 12(%ebp), %edi\n    push $16\n    call malloc\n    add $4, %esp\n    mov %eax, %ebx\n    mov %esi, 4(%ebx)\n    mov %edi, 8(%ebx)\n    movl $0, 12(%ebx)\n"@;
    let s = if os == OperatingSystem::Windows {
        let s = s + "    push $0\n    push $0\n    push %ebx\n    push $fn_alya_thread_proc\n    push $0\n    push $0\n    call CreateThread\n    mov %eax, 0(%ebx)\n"@;
        s
    } else {
        let s = s + "    push %ebx\n    push $fn_alya_thread_proc\n    push $0\n    push %ebx\n    call pthread_create\n    add $16, %esp\n"@;
        s
    };
    let s = s + "    mov %ebx, %eax\n    pop %edi\n    pop %esi\n    pop %ebx\n    mov %ebp, %esp\n    pop %ebp\n    ret\n\n.global fn___native_thread_join\nfn___native_thread_join:\n    push %ebp\n    mov %esp, %ebp\n    push %ebx\n    push %esi\n    mov 8(%ebp), %ebx\n    test %ebx, %ebx\n    jz .L_x86_join_null\n"@;
    let s = if os == OperatingSystem::Windows {
        let s = s + "    push $0xFFFFFFFF\n    push 0(%ebx)\n    call WaitForSingleObject\n    push 0(%ebx)\n    call CloseHandle\n"@;
        s
    } else {
        let s = s + "    push $0\n    push 0(%ebx)\n    call pthread_join\n    add $8, %esp\n"@;
        s
    };
    let s = s + "    mov 12(%ebx), %esi\n    push %ebx\n    call free\n    add $4, %esp\n    mov %esi, %eax\n    jmp .L_x86_join_done\n.L_x86_join_null:\n    xor %eax, %eax\n.L_x86_join_done:\n    pop %esi\n    pop %ebx\n    mov %ebp, %esp\n    pop %ebp\n    ret\n\n.global fn___native_thread_id\nfn___native_thread_id:\n    push %ebp\n    mov %esp, %ebp\n"@;
    let s = if os == OperatingSystem::Windows {
        let s = s + "    call GetCurrentThreadId\n"@;
        s
    } else {
        let s = s + "    call pthread_self\n"@;
        s
    };
    let s = s + "    mov %ebp, %esp\n    pop %ebp\n    ret\n\n.global fn___native_mutex_new\nfn___native_mutex_new:\n    push %ebp\n    mov %esp, %ebp\n"@;
    let s = if os == OperatingSystem::Windows {
        let s = s + "    push $0\n    push $0\n    push $0\n    call CreateMutexA\n"@;
        s
    } else {
        let s = s + "    push $40\n    push $1\n    call calloc\n    add $8, %esp\n    push %eax\n    push $0\n    push %eax\n    call pthread_mutex_init\n    add $8, %esp\n    pop %eax\n"@;
        s
    };
    let s = s + "    mov %ebp, %esp\n    pop %ebp\n    ret\n\n.global fn___native_mutex_lock\nfn___native_mutex_lock:\n    push %ebp\n    mov %esp, %ebp\n"@;
    let s = if os == OperatingSystem::Windows {
        let s = s + "    push $0xFFFFFFFF\n    push 8(%ebp)\n    call WaitForSingleObject\n"@;
        s
    } else {
        let s = s + "    push 8(%ebp)\n    call pthread_mutex_lock\n    add $4, %esp\n"@;
        s
    };
    let s = s + "    xor %eax, %eax\n    mov %ebp, %esp\n    pop %ebp\n    ret\n\n.global fn___native_mutex_unlock\nfn___native_mutex_unlock:\n    push %ebp\n    mov %esp, %ebp\n"@;
    let s = if os == OperatingSystem::Windows {
        let s = s + "    push 8(%ebp)\n    call ReleaseMutex\n"@;
        s
    } else {
        let s = s + "    push 8(%ebp)\n    call pthread_mutex_unlock\n    add $4, %esp\n"@;
        s
    };
    let s = s + "    xor %eax, %eax\n    mov %ebp, %esp\n    pop %ebp\n    ret\n\n.global fn___native_mutex_free\nfn___native_mutex_free:\n    push %ebp\n    mov %esp, %ebp\n"@;
    let s = if os == OperatingSystem::Windows {
        let s = s + "    push 8(%ebp)\n    call CloseHandle\n"@;
        s
    } else {
        let s = s + "    mov 8(%ebp), %eax\n    test %eax, %eax\n    jz .L_x86_mfree_done\n    push %eax\n    call pthread_mutex_destroy\n    call free\n    add $4, %esp\n.L_x86_mfree_done:\n"@;
        s
    };
    let s = s + "    xor %eax, %eax\n    mov %ebp, %esp\n    pop %ebp\n    ret\n\n"@;
    s
}

/// Appends the x86 (32-bit) thread and timing routines, as assembly text after `prefix`.
pub fn emit(out: &mut String, os: OperatingSystem)
    ensures
        final(out)@ == thread_routines(old(out)@, os),
{
    out.append(".global fn_alya_thread_proc\n");
    if os == OperatingSystem::Windows {
        out.append(".global _fn_alya_thread_proc@4\n_fn_alya_thread_proc@4:\n");
    }
    out.append("fn_alya_thread_proc:\n    push %ebp\n    mov %esp, %ebp\n    sub $16, %esp\n    mov 8(%ebp), %eax\n    mov %eax, -4(%ebp)\n    push 8(%eax)\n    call *4(%eax)\n    add $4, %esp\n    mov -4(%ebp), %edx\n    mov %eax, 12(%edx)\n    xor %eax, %eax\n    mov %ebp, %esp\n    pop %ebp\n");
    if os == OperatingSystem::Windows {
        out.append("    ret $4\n\n");
    } else {
        out.append("    ret\n\n");
    }
    out.append(".global fn___native_thread_spawn\nfn___native_thread_spawn:\n    push %ebp\n    mov %esp, %ebp\n    push %ebx\n    push %esi\n    push %edi\n    mov 8(%ebp), %esi\n    mov 12(%ebp), %edi\n    push $16\n    call malloc\n    add $4, %esp\n    mov %eax, %ebx\n    mov %esi, 4(%ebx)\n    mov %edi, 8(%ebx)\n    movl $0, 12(%ebx)\n");
    if os == OperatingSystem::Windows {
        out.append("    push $0\n    push $0\n    push %ebx\n    push $fn_alya_thread_proc\n    push $0\n    push $0\n    call CreateThread\n    mov %eax, 0(%ebx)\n");
    } else {
        out.append("    push %ebx\n    push $fn_alya_thread_proc\n    push $0\n    push %ebx\n    call pthread_create\n    add $16, %esp\n");
    }
    out.append("    mov %ebx, %eax\n    pop %edi\n    pop %esi\n    pop %ebx\n    mov %ebp, %esp\n    pop %ebp\n    ret\n\n.global fn___native_thread_join\nfn___native_thread_join:\n    push %ebp\n    mov %esp, %ebp\n    push %ebx\n    push %esi\n    mov 8(%ebp), %ebx\n    test %ebx, %ebx\n    jz .L_x86_join_null\n");
    if os == OperatingSystem::Windows {
        out.append("    push $0xFFFFFFFF\n    push 0(%ebx)\n    call WaitForSingleObject\n    push 0(%ebx)\n    call CloseHandle\n");
    } else {
        out.append("    push $0\n    push 0(%ebx)\n    call pthread_join\n    add $8, %esp\n");
    }
    out.append("    mov 12(%ebx), %esi\n    push %ebx\n    call free\n    add $4, %esp\n    mov %esi, %eax\n    jmp .L_x86_join_done\n.L_x86_join_null:\n    xor %eax, %eax\n.L_x86_join_done:\n    pop %esi\n    pop %ebx\n    mov %ebp, %esp\n    pop %ebp\n    ret\n\n.global fn___native_thread_id\nfn___native_thread_id:\n    push %ebp\n    mov %esp, %ebp\n");
    if os == OperatingSystem::Windows {
        out.append("    call GetCurrentThreadId\n");
    } else {
        out.append("    call pthread_self\n");
    }
    out.append("    mov %ebp, %esp\n    pop %ebp\n    ret\n\n.global fn___native_mutex_new\nfn___native_mutex_new:\n    push %ebp\n    mov %esp, %ebp\n");
    if os == OperatingSystem::Windows {
        out.append("    push $0\n    push $0\n    push $0\n    call CreateMutexA\n");
    } else {
        out.append("    push $40\n    push $1\n    call calloc\n    add $8, %esp\n    push %eax\n    push $0\n    push %eax\n    call pthread_mutex_init\n    add $8, %esp\n    pop %eax\n");
    }
    out.append("    mov %ebp, %esp\n    pop %ebp\n    ret\n\n.global fn___native_mutex_lock\nfn___native_mutex_lock:\n    push %ebp\n    mov %esp, %ebp\n");
    if os == OperatingSystem::Windows {
        out.append("    push $0xFFFFFFFF\n    push 8(%ebp)\n    call WaitForSingleObject\n");
    } else {
        out.append("    push 8(%ebp)\n    call pthread_mutex_lock\n    add $4, %esp\n");
    }
    out.append("    xor %eax, %eax\n    mov %ebp, %esp\n    pop %ebp\n    ret\n\n.global fn___native_mutex_unlock\nfn___native_mutex_unlock:\n    push %ebp\n    mov %esp, %ebp\n");
    if os == OperatingSystem::Windows {
        out.append("    push 8(%ebp)\n    call ReleaseMutex\n");
    } else {
        out.append("    push 8(%ebp)\n    call pthread_mutex_unlock\n    add $4, %esp\n");
    }
    out.append("    xor %eax, %eax\n    mov %ebp, %esp\n    pop %ebp\n    ret\n\n.global fn___native_mutex_free\nfn___native_mutex_free:\n    push %ebp\n    mov %esp, %ebp\n");
    if os == OperatingSystem::Windows {
        out.append("    push 8(%ebp)\n    call CloseHandle\n");
    } else {
        out.append("    mov 8(%ebp), %eax\n    test %eax, %eax\n    jz .L_x86_mfree_done\n    push %eax\n    call pthread_mutex_destroy\n    call free\n    add $4, %esp\n.L_x86_mfree_done:\n");
    }
    out.append("    xor %eax, %eax\n    mov %ebp, %esp\n    pop %ebp\n    ret\n\n");
}

/// The routines appended after any prefix do not depend on it.
#[verifier::rlimit(100)]
pub proof fn lemma_routines_append(prefix: Seq<char>, os: OperatingSystem)
    ensures
        thread_routines(prefix, os) == prefix + thread_routines(seq![], os),
{
    match os {
        OperatingSystem::Linux => {
            assert(thread_routines(prefix, os) =~= prefix + thread_routines(seq![], os));
        },
        OperatingSystem::Windows => {
            assert(thread_routines(prefix, os) =~= prefix + thread_routines(seq![], os));
        },
        OperatingSystem::MacOS => {
            assert(thread_routines(prefix, os) =~= prefix + thread_routines(seq![], os));
        },
    }
}

} // verus!
