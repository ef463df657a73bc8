//! Requests on threads: the arguments of a system call, the decoding of a
//! request to copy registers between threads, and the decoding and carrying
//! out of a request to set a thread's TLS base.
use vstd::prelude::*;

use crate::failures::{
    EXCEPTION_NONE, EXCEPTION_SYSCALL_ERROR, exception_t, seL4_InvalidCapability, seL4_TruncatedMessage, syscall_error,
};
use crate::object::{
    cap_get_capType, cap_t, cap_thread_cap, cap_thread_cap_get_capTCBPtr, spec_cap_tcb_ptr,
    spec_cap_type, ThreadState_Restart,
};
use crate::state::{cte_at, KernelState, KState, read_cte};
use crate::thread::{
    can_reschedule, spec_get_register, spec_reschedule_required, spec_set_register,
    spec_set_thread_state, TLS_BASE,
};
use crate::transfer::{msgRegisters, n_msgRegisters, spec_msg_register};
use crate::types::word_t;

verus! {

// ---------------------------------------------------------------------------
// Invocation labels and register-copy flags
// ---------------------------------------------------------------------------

/// The operations that a message to a kernel object can ask for, by label.
#[derive(Clone, Copy, PartialEq, Eq, Structural)]
pub enum invocation_label {
    InvalidInvocation,
    UntypedRetype,
    TCBReadRegisters,
    TCBWriteRegisters,
    TCBCopyRegisters,
    TCBConfigure,
    TCBSetPriority,
    TCBSetMCPriority,
    TCBSetSchedParams,
    TCBSetIPCBuffer,
    TCBSetSpace,
    TCBSuspend,
    TCBResume,
    TCBBindNotification,
    TCBUnbindNotification,
    TCBSetTLSBase,
    CNodeRevoke,
    CNodeDelete,
    CNodeCancelBadgedSends,
    CNodeCopy,
    CNodeMint,
    CNodeMove,
    CNodeMutate,
    CNodeRotate,
    CNodeSaveCaller,
    IRQIssueIRQHandler,
    IRQAckIRQ,
    IRQSetIRQHandler,
    IRQClearIRQHandler,
    DomainSetSet,
    nInvocationLabels,
}

impl invocation_label {
    pub open spec fn spec_value(self) -> u64 {
        match self {
            invocation_label::InvalidInvocation => 0,
            invocation_label::UntypedRetype => 1,
            invocation_label::TCBReadRegisters => 2,
            invocation_label::TCBWriteRegisters => 3,
            invocation_label::TCBCopyRegisters => 4,
            invocation_label::TCBConfigure => 5,
            invocation_label::TCBSetPriority => 6,
            invocation_label::TCBSetMCPriority => 7,
            invocation_label::TCBSetSchedParams => 8,
            invocation_label::TCBSetIPCBuffer => 9,
            invocation_label::TCBSetSpace => 10,
            invocation_label::TCBSuspend => 11,
            invocation_label::TCBResume => 12,
            invocation_label::TCBBindNotification => 13,
            invocation_label::TCBUnbindNotification => 14,
            invocation_label::TCBSetTLSBase => 15,
            invocation_label::CNodeRevoke => 16,
            invocation_label::CNodeDelete => 17,
            invocation_label::CNodeCancelBadgedSends => 18,
            invocation_label::CNodeCopy => 19,
            invocation_label::CNodeMint => 20,
            invocation_label::CNodeMove => 21,
            invocation_label::CNodeMutate => 22,
            invocation_label::CNodeRotate => 23,
            invocation_label::CNodeSaveCaller => 24,
            invocation_label::IRQIssueIRQHandler => 25,
            invocation_label::IRQAckIRQ => 26,
            invocation_label::IRQSetIRQHandler => 27,
            invocation_label::IRQClearIRQHandler => 28,
            invocation_label::DomainSetSet => 29,
            invocation_label::nInvocationLabels => 30,
        }
    }

    /// The label of a message that asks for this operation.
    pub fn value(self) -> (r: u64)
        ensures
            r == self.spec_value(),
    {
        match self {
            invocation_label::InvalidInvocation => 0,
            invocation_label::UntypedRetype => 1,
            invocation_label::TCBReadRegisters => 2,
            invocation_label::TCBWriteRegisters => 3,
            invocation_label::TCBCopyRegisters => 4,
            invocation_label::TCBConfigure => 5,
            invocation_label::TCBSetPriority => 6,
            invocation_label::TCBSetMCPriority => 7,
            invocation_label::TCBSetSchedParams => 8,
            invocation_label::TCBSetIPCBuffer => 9,
            invocation_label::TCBSetSpace => 10,
            invocation_label::TCBSuspend => 11,
            invocation_label::TCBResume => 12,
            invocation_label::TCBBindNotification => 13,
            invocation_label::TCBUnbindNotification => 14,
            invocation_label::TCBSetTLSBase => 15,
            invocation_label::CNodeRevoke => 16,
            invocation_label::CNodeDelete => 17,
            invocation_label::CNodeCancelBadgedSends => 18,
            invocation_label::CNodeCopy => 19,
            invocation_label::CNodeMint => 20,
            invocation_label::CNodeMove => 21,
            invocation_label::CNodeMutate => 22,
            invocation_label::CNodeRotate => 23,
            invocation_label::CNodeSaveCaller => 24,
            invocation_label::IRQIssueIRQHandler => 25,
            invocation_label::IRQAckIRQ => 26,
            invocation_label::IRQSetIRQHandler => 27,
            invocation_label::IRQClearIRQHandler => 28,
            invocation_label::DomainSetSet => 29,
            invocation_label::nInvocationLabels => 30,
        }
    }
}

/// The bits of the flags of a register-copy request.
#[derive(Clone, Copy, PartialEq, Eq, Structural)]
pub enum CopyRegistersFlags {
    CopyRegisters_suspendSource,
    CopyRegisters_resumeTarget,
    CopyRegisters_transferFrame,
    CopyRegisters_transferInteger,
}

impl CopyRegistersFlags {
    pub open spec fn spec_value(self) -> u64 {
        match self {
            CopyRegistersFlags::CopyRegisters_suspendSource => 0,
            CopyRegistersFlags::CopyRegisters_resumeTarget => 1,
            CopyRegistersFlags::CopyRegisters_transferFrame => 2,
            CopyRegistersFlags::CopyRegisters_transferInteger => 3,
        }
    }

    /// The index of the flag's bit.
    pub fn value(self) -> (r: u64)
        ensures
            r == self.spec_value(),
    {
        match self {
            CopyRegistersFlags::CopyRegisters_suspendSource => 0,
            CopyRegistersFlags::CopyRegisters_resumeTarget => 1,
            CopyRegistersFlags::CopyRegisters_transferFrame => 2,
            CopyRegistersFlags::CopyRegisters_transferInteger => 3,
        }
    }
}

// ---------------------------------------------------------------------------
// System-call arguments and the TLS base
// ---------------------------------------------------------------------------

/// The state after `invokeSetTLSBase(t, tls_base)`: the thread's TLS base
/// register is set, and a reschedule is required when it is the current
/// thread.
pub open spec fn spec_invoke_set_tls_base(s: KState, t: u64, tls_base: u64) -> KState {
    let s1 = KState { tcbs: spec_set_register(s.tcbs, t, TLS_BASE, tls_base), ..s };
    if t == s.cur_thread {
        spec_reschedule_required(s1)
    } else {
        s1
    }
}

/// `invokeSetTLSBase(t, _)` can run.
pub open spec fn can_invoke_set_tls_base(s: KState, t: u64) -> bool {
    &&& s.tcbs.contains_key(t)
    &&& t == s.cur_thread ==> can_reschedule(s)
}

/// System-call argument `i`: one of the current thread's message registers,
/// or past them a word of its IPC buffer.
pub open spec fn spec_syscall_arg(s: KState, i: u64, buffer: Option<Seq<u64>>) -> u64 {
    if i < n_msgRegisters {
        spec_get_register(s.tcbs, s.cur_thread, spec_msg_register(i))
    } else {
        buffer.unwrap()[i + 1]
    }
}

/// The state after `decodeSetTLSBase(c, length, _)`, and its result: a
/// message with no argument is refused as truncated; otherwise the current
/// thread is set to restart and the TLS base of the thread that `c` names is
/// set to the first argument.
pub open spec fn spec_decode_set_tls_base(s: KState, c: cap_t, length: u64) -> (KState, u64) {
    if length < 1 {
        (
            KState {
                current_syscall_error: syscall_error {
                    error_type: seL4_TruncatedMessage,
                    ..s.current_syscall_error
                },
                ..s
            },
            EXCEPTION_SYSCALL_ERROR,
        )
    } else {
        let tls_base = spec_syscall_arg(s, 0, None);
        let s1 = spec_set_thread_state(s, s.cur_thread, ThreadState_Restart);
        (spec_invoke_set_tls_base(s1, spec_cap_tcb_ptr(c), tls_base), EXCEPTION_NONE)
    }
}

/// `decodeSetTLSBase(c, length, _)` can run.
pub open spec fn can_decode_set_tls_base(s: KState, c: cap_t, length: u64) -> bool {
    length >= 1 ==> {
        &&& s.tcbs.contains_key(s.cur_thread)
        &&& can_invoke_set_tls_base(
            spec_set_thread_state(s, s.cur_thread, ThreadState_Restart),
            spec_cap_tcb_ptr(c),
        )
    }
}

impl KernelState {
    /// Sets the TLS base register of the thread at `thread`.
    pub fn invokeSetTLSBase(&mut self, thread: word_t, tls_base: word_t) -> (ret: exception_t)
        requires
            old(self).sched.wf(),
            can_invoke_set_tls_base(old(self)@, thread),
        ensures
            final(self).sched.wf(),
            final(self)@ == spec_invoke_set_tls_base(old(self)@, thread, tls_base),
            ret == EXCEPTION_NONE,
    {
        self.setRegister(thread, TLS_BASE, tls_base);
        if thread == self.sched.ksCurThread {
            self.rescheduleRequired();
        }
        EXCEPTION_NONE
    }

    /// System-call argument `i` of the current thread.
    pub fn getSyscallArg(&self, i: word_t, ipc_buffer: Option<&[word_t]>) -> (ret: word_t)
        requires
            self.tcbs@.contains_key(self.sched.ksCurThread),
            i >= n_msgRegisters ==> ipc_buffer is Some && i + 1 < ipc_buffer.unwrap()@.len(),
        ensures
            ret == spec_syscall_arg(
                self@,
                i,
                match ipc_buffer {
                    Some(b) => Some(b@),
                    None => None,
                },
            ),
    {
        if i < n_msgRegisters {
            return self.getRegister(self.sched.ksCurThread, msgRegisters(i));
        }
        let b = ipc_buffer.unwrap();
        let len: usize = b.len();
        assert(i + 1 < len);
        b[(i + 1) as usize]
    }

    /// Decodes a request to set the TLS base of the thread that `cap` names.
    pub fn decodeSetTLSBase(&mut self, cap: cap_t, length: word_t, buffer: Option<&[word_t]>) -> (ret:
        exception_t)
        requires
            old(self).sched.wf(),
            can_decode_set_tls_base(old(self)@, cap, length),
        ensures
            final(self).sched.wf(),
            (final(self)@, ret) == spec_decode_set_tls_base(old(self)@, cap, length),
    {
        if length < 1 {
            self.current_syscall_error.error_type = seL4_TruncatedMessage;
            return EXCEPTION_SYSCALL_ERROR;
        }
        let tls_base = self.getSyscallArg(0, buffer);
        let cur = self.sched.ksCurThread;
        self.setThreadState(cur, ThreadState_Restart);
        self.invokeSetTLSBase(cap_thread_cap_get_capTCBPtr(cap), tls_base)
    }
}

// ---------------------------------------------------------------------------
// Copying registers between threads
// ---------------------------------------------------------------------------

/// A decoded request to copy registers: the thread to copy to, the thread to
/// copy from, the four flags as the message gave them (each the flag's bit
/// of the first argument, zero or not), and the architecture's part.
#[derive(Clone, Copy, Debug, PartialEq, Eq, Structural)]
pub struct CopyRegistersInvocation {
    pub dest: word_t,
    pub src: word_t,
    pub suspendSource: u64,
    pub resumeTarget: u64,
    pub transferFrame: u64,
    pub transferInteger: u64,
    pub transferArch: word_t,
}

/// The architecture's part of a register-copy request: none on this
/// architecture.
pub fn Arch_decodeTransfer(flags: word_t) -> (ret: word_t)
    ensures
        ret == 0,
{
    0
}

/// The state after `decodeCopyRegisters(c, length, _)`, and its result: a
/// request with no argument or no extra capability is refused as truncated,
/// and one whose extra capability names no thread as naming an invalid
/// capability, the first extra one. Otherwise the current thread is set to
/// restart, and the request names the thread that `c` names as destination,
/// the thread that the extra capability names as source, and the flag bits
/// of the first argument.
pub open spec fn spec_decode_copy_registers(s: KState, c: cap_t, length: u64) -> (
    KState,
    Result<CopyRegistersInvocation, u64>,
) {
    let truncated = (
        KState {
            current_syscall_error: syscall_error {
                error_type: seL4_TruncatedMessage,
                ..s.current_syscall_error
            },
            ..s
        },
        Err(EXCEPTION_SYSCALL_ERROR),
    );
    if length < 1 || s.extra_caps[0] == 0 {
        truncated
    } else {
        let source_cap = cte_at(s.ctes, s.extra_caps[0]).cap;
        if spec_cap_type(source_cap) != cap_thread_cap {
            (
                KState {
                    current_syscall_error: syscall_error {
                        error_type: seL4_InvalidCapability,
                        invalidCapNumber: 1,
                        ..s.current_syscall_error
                    },
                    ..s
                },
                Err(EXCEPTION_SYSCALL_ERROR),
            )
        } else {
            let flags = spec_syscall_arg(s, 0, None);
            (
                spec_set_thread_state(s, s.cur_thread, ThreadState_Restart),
                Ok(
                    CopyRegistersInvocation {
                        dest: spec_cap_tcb_ptr(c),
                        src: spec_cap_tcb_ptr(source_cap),
                        suspendSource: flags & 1,
                        resumeTarget: flags & 2,
                        transferFrame: flags & 4,
                        transferInteger: flags & 8,
                        transferArch: 0,
                    },
                ),
            )
        }
    }
}

/// `decodeCopyRegisters(c, length, _)` can run: the extra-capability slots
/// are in place, and when the request is well formed the current thread
/// exists.
pub open spec fn can_decode_copy_registers(s: KState, length: u64) -> bool {
    &&& s.extra_caps.len() == 3
    &&& length >= 1 && s.extra_caps[0] != 0 ==> s.tcbs.contains_key(s.cur_thread)
}

impl KernelState {
    /// Decodes a request to copy registers from the thread named by the
    /// message's extra capability to the thread that `cap` names. On success
    /// the current thread is set to restart and the request is handed back
    /// for the thread-control routine to carry out.
    pub fn decodeCopyRegisters(&mut self, cap: cap_t, length: word_t, buffer: Option<&[word_t]>) -> (ret:
        Result<CopyRegistersInvocation, exception_t>)
        requires
            old(self).sched.wf(),
            can_decode_copy_registers(old(self)@, length),
        ensures
            final(self).sched.wf(),
            (final(self)@, ret) == spec_decode_copy_registers(old(self)@, cap, length),
    {
        if length < 1 || self.current_extra_caps.excaprefs[0] == 0 {
            self.current_syscall_error.error_type = seL4_TruncatedMessage;
            return Err(EXCEPTION_SYSCALL_ERROR);
        }
        let flags = self.getSyscallArg(0, buffer);
        let transferArch = Arch_decodeTransfer(flags >> 8);
        let source_cap = read_cte(&self.ctes, self.current_extra_caps.excaprefs[0]).cap;
        let srcTCB = if cap_get_capType(source_cap) == cap_thread_cap {
            cap_thread_cap_get_capTCBPtr(source_cap)
        } else {
            self.current_syscall_error.error_type = seL4_InvalidCapability;
            self.current_syscall_error.invalidCapNumber = 1;
            return Err(EXCEPTION_SYSCALL_ERROR);
        };
        let cur = self.sched.ksCurThread;
        self.setThreadState(cur, ThreadState_Restart);
        Ok(
            CopyRegistersInvocation {
                dest: cap_thread_cap_get_capTCBPtr(cap),
                src: srcTCB,
                suspendSource: flags & 1,
                resumeTarget: flags & 2,
                transferFrame: flags & 4,
                transferInteger: flags & 8,
                transferArch,
            },
        )
    }
}

} // verus!
