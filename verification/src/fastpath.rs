//! The IPC fast path: a call, or a reply followed by a receive, that needs no
//! capability transfer and switches straight to the partner thread.
//!
//! Each fast-path function checks whether it can handle the system call. If
//! not, it leaves the state alone and asks for the slow path; otherwise it
//! carries out the message transfer in the state and says how to return to
//! user level: which address space to switch to, and which badge and message
//! descriptor to hand to the thread that is now current.
use vstd::prelude::*;

use std::collections::HashMap;

use crate::bitfield_laws::law_ts_set_ts_type;
use crate::cnode::{
    set_cte_cap, set_cte_mdb, set_mdb_prev_at, write_cte_cap, write_cte_mdb, write_mdb_prev,
};
use crate::cspace::spec_slot_of;
use crate::notification::{spec_ep_get_queue, with_ep, with_tcb};
use crate::tcb::{ep_next_of, ep_prev_of, ep_queue_wf};
use crate::bitfield_laws::{law_ep_set_queue_head, law_ep_set_queue_tail, law_ep_set_state};
use crate::object::{
    cap_cnode_cap, cap_cnode_cap_get_capCNodeGuard, cap_cnode_cap_get_capCNodeGuardSize,
    cap_cnode_cap_get_capCNodePtr, cap_cnode_cap_get_capCNodeRadix, cap_endpoint_cap,
    cap_endpoint_cap_get_capCanGrant, cap_endpoint_cap_get_capCanGrantReply,
    cap_endpoint_cap_get_capCanReceive, cap_endpoint_cap_get_capCanSend,
    cap_endpoint_cap_get_capEPBadge, cap_endpoint_cap_get_capEPPtr, cap_get_capType, cap_null_cap,
    cap_null_cap_new, cap_pml4_cap, cap_pml4_cap_get_capPML4BasePtr,
    cap_pml4_cap_get_capPML4IsMapped, cap_pml4_cap_get_capPML4MappedASID, cap_reply_cap,
    cap_reply_cap_get_capTCBPtr, cap_reply_cap_new, cap_t, CTE_SIZE, cte_t, domainConstants,
    endpoint_ptr_get_epQueue_head, endpoint_ptr_get_epQueue_tail, endpoint_ptr_get_state,
    endpoint_ptr_set_epQueue_head, endpoint_ptr_set_epQueue_tail, endpoint_ptr_set_state,
    EPState_Idle, EPState_Recv, EPState_Send, lemma_constant_fields, mdb_node_get_mdbPrev,
    mdb_node_ptr_set_mdbFirstBadged, mdb_node_ptr_set_mdbNext, mdb_node_ptr_set_mdbRevocable,
    messageInfoFromWord_raw, notification_ptr_get_state, NtfnState_Active, nullMDBNode,
    seL4_Fault_get_seL4_FaultType, seL4_Fault_NullFault, seL4_Fault_VMFault, seL4_MessageInfo,
    seL4_MessageInfo_get_length, seL4_MessageInfo_set_capsUnwrapped, sign_extend_39, spec_cap_bit, spec_cap_ep_badge, spec_cap_ep_ptr,
    spec_cap_null_cap, spec_cap_pml4_base_ptr, spec_cap_pml4_mapped_asid, spec_cap_reply_cap,
    spec_cap_reply_tcb_ptr, spec_cap_type, spec_cnode_guard, spec_cnode_guard_size, spec_cnode_ptr,
    spec_cnode_radix, spec_ep_queue_head, spec_ep_queue_tail, spec_ep_set_queue_head,
    spec_ep_set_queue_tail, spec_ep_set_state, spec_ep_state, spec_fault_type, spec_mdb_prev,
    spec_mdb_set_first_badged, spec_mdb_set_next, spec_mdb_set_revocable, spec_mi_length,
    spec_mi_set_caps_unwrapped, spec_ntfn_state, spec_null_mdb_node, spec_tcb_cte_ptr,
    spec_ts_ipc_can_grant, spec_ts_set_blocking_object, spec_ts_set_ipc_can_grant,
    spec_ts_set_ts_type, spec_ts_type, syscall, TCB_PTR_CTE_PTR, tcb_t, tcbCaller, tcbCTable,
    tcbReply, tcbVTable, thread_state_ptr_get_blockingIPCCanGrant,
    thread_state_ptr_set_blockingIPCCanGrant, thread_state_ptr_set_blockingObject,
    thread_state_ptr_set_tsType, ThreadState_BlockedOnReceive, ThreadState_BlockedOnReply,
    ThreadState_Running, wordFromMessageInfo,
};
use crate::state::{cte_at, KernelState, KState, read_cte, read_ep, read_ntfn, read_tcb};
use crate::thread::spec_is_highest_prio;
use crate::transfer::{msgRegisters, spec_copy_msg_regs};
use crate::types::{cptr_t, word_t, wordBits};

verus! {

// ---------------------------------------------------------------------------
// Looking up a capability on the fast path
// ---------------------------------------------------------------------------

/// The capability that `cptr` names, looked up from the CNode capability `c`
/// with the `bits` most significant bits of `cptr` already resolved. The
/// guard of each CNode is checked against the bits that follow; a CNode
/// whose guard is empty is not checked. The walk goes on while bits are left
/// and the slot reached holds a CNode capability. It gives the null
/// capability when a guard does not match or more bits were resolved than
/// `cptr` has. (A CNode that resolves no index bits is not handled here.)
pub open spec fn spec_lookup_fp_from(ctes: Map<u64, cte_t>, c: cap_t, cptr: u64, bits: u64) -> cap_t
    decreases 64 - bits,
{
    let guardBits = spec_cnode_guard_size(c);
    let radixBits = spec_cnode_radix(c);
    let cptr2 = cptr << bits;
    if bits >= 64 || radixBits == 0 {
        spec_cap_null_cap()
    } else if guardBits != 0 && cptr2 >> ((64 - guardBits) as u64) != spec_cnode_guard(c) {
        spec_cap_null_cap()
    } else {
        let radix = (cptr2 << guardBits) >> ((64 - radixBits) as u64);
        let next = cte_at(ctes, spec_slot_of(spec_cnode_ptr(c), radix)).cap;
        let nbits = bits + guardBits + radixBits;
        if nbits < 64 && spec_cap_type(next) == cap_cnode_cap {
            spec_lookup_fp_from(ctes, next, cptr, nbits as u64)
        } else if nbits > 64 {
            spec_cap_null_cap()
        } else {
            next
        }
    }
}

/// Every CNode that the fast-path lookup of `cptr` from `c` visits resolves
/// at least one index bit.
pub open spec fn lookup_fp_walk_ok(ctes: Map<u64, cte_t>, c: cap_t, cptr: u64, bits: u64) -> bool
    decreases 64 - bits,
{
    let guardBits = spec_cnode_guard_size(c);
    let radixBits = spec_cnode_radix(c);
    let cptr2 = cptr << bits;
    bits < 64 && radixBits >= 1 && ((guardBits == 0 || cptr2 >> ((64 - guardBits) as u64)
        == spec_cnode_guard(c)) ==> {
        let radix = (cptr2 << guardBits) >> ((64 - radixBits) as u64);
        let next = cte_at(ctes, spec_slot_of(spec_cnode_ptr(c), radix)).cap;
        let nbits = bits + guardBits + radixBits;
        nbits < 64 && spec_cap_type(next) == cap_cnode_cap ==> lookup_fp_walk_ok(
            ctes,
            next,
            cptr,
            nbits as u64,
        )
    })
}

/// The capability that `cptr` names, looked up on the fast path from `c`:
/// the null capability when `c` is not a CNode capability.
pub open spec fn spec_lookup_fp(ctes: Map<u64, cte_t>, c: cap_t, cptr: u64) -> cap_t {
    if spec_cap_type(c) != cap_cnode_cap {
        spec_cap_null_cap()
    } else {
        spec_lookup_fp_from(ctes, c, cptr, 0)
    }
}

/// The fast-path lookup of `cptr` from `c` can run.
pub open spec fn lookup_fp_ok(ctes: Map<u64, cte_t>, c: cap_t, cptr: u64) -> bool {
    spec_cap_type(c) == cap_cnode_cap ==> lookup_fp_walk_ok(ctes, c, cptr, 0)
}

/// Looks up the capability that `cptr` names, starting from the CNode
/// capability `cap`; see `spec_lookup_fp`.
pub fn lookup_fp(ctes: &HashMap<u64, cte_t>, cap: cap_t, cptr: cptr_t) -> (ret: cap_t)
    requires
        lookup_fp_ok(ctes@, cap, cptr),
    ensures
        ret == spec_lookup_fp(ctes@, cap, cptr),
{
    if cap_get_capType(cap) != cap_cnode_cap {
        return cap_null_cap_new();
    }
    let mut c = cap;
    let mut bits: u64 = 0;
    loop
        invariant
            bits < 64,
            spec_cap_type(c) == cap_cnode_cap,
            lookup_fp_walk_ok(ctes@, c, cptr, bits),
            spec_lookup_fp_from(ctes@, c, cptr, bits) == spec_lookup_fp(ctes@, cap, cptr),
        decreases 64 - bits,
    {
        let guardBits = cap_cnode_cap_get_capCNodeGuardSize(c);
        let radixBits = cap_cnode_cap_get_capCNodeRadix(c);
        let cptr2 = cptr << bits;
        let capGuard = cap_cnode_cap_get_capCNodeGuard(c);
        if guardBits != 0 && cptr2 >> (wordBits - guardBits) != capGuard {
            return cap_null_cap_new();
        }
        let radix = (cptr2 << guardBits) >> (wordBits - radixBits);
        let slot = cap_cnode_cap_get_capCNodePtr(c).wrapping_add(radix.wrapping_mul(CTE_SIZE));
        let next = read_cte(ctes, slot).cap;
        let nbits = bits + guardBits + radixBits;
        if nbits < wordBits && cap_get_capType(next) == cap_cnode_cap {
            c = next;
            bits = nbits;
        } else if nbits > wordBits {
            return cap_null_cap_new();
        } else {
            return next;
        }
    }
}

// ---------------------------------------------------------------------------
// Checks and helpers
// ---------------------------------------------------------------------------

/// What a fast-path function decided.
pub enum FastpathOutcome {
    /// The fast path cannot handle the system call: the state is unchanged
    /// and the slow path is to handle it.
    Slowpath(syscall),
    /// The transfer is done and the partner thread is now current: switch
    /// to the address space of the page table at `vspaceRoot`, under
    /// address-space identifier `hwASID`, and return to user level with
    /// `badge` and the message descriptor `msgInfo`.
    Restore { badge: word_t, msgInfo: word_t, vspaceRoot: word_t, hwASID: word_t },
}

/// The address of slot `i` of the capability table of the TCB at `t`.
pub open spec fn tcb_slot(t: u64, i: u64) -> u64 {
    spec_tcb_cte_ptr(t, i) as u64
}

/// The message is not one for the fast path: it carries extra capabilities
/// or is longer than the message registers.
pub open spec fn spec_fastpath_mi_check(msgInfo: u64) -> bool {
    msgInfo & 0x1ffu64 > 4
}

/// A message that passes the check fits in the message registers.
proof fn lemma_fastpath_length(msgInfo: u64)
    by (bit_vector)
    ensures
        msgInfo & 0x1ffu64 <= 4 ==> msgInfo & 0x7fu64 <= 4,
{
}

/// Whether the message descriptor `msgInfo` is not one for the fast path.
pub fn fastpath_mi_check(msgInfo: word_t) -> (ret: bool)
    ensures
        ret == spec_fastpath_mi_check(msgInfo),
{
    (msgInfo & 0x1ffu64) > 4
}

/// The capability names a mapped top-level page table.
pub open spec fn spec_valid_vtable_root(c: cap_t) -> bool {
    spec_cap_type(c) == cap_pml4_cap && spec_cap_bit(c, 58) == 1
}

/// Whether `c` names a mapped top-level page table.
pub fn isValidVTableRoot_fp(c: cap_t) -> (ret: bool)
    ensures
        ret == spec_valid_vtable_root(c),
{
    cap_get_capType(c) == cap_pml4_cap && cap_pml4_cap_get_capPML4IsMapped(c) == 1
}

/// The address of the page table that a top-level page-table capability names.
pub fn cap_vtable_cap_get_vspace_root_fp(c: cap_t) -> (ret: word_t)
    ensures
        ret == spec_cap_pml4_base_ptr(c),
{
    cap_pml4_cap_get_capPML4BasePtr(c)
}

/// The node `n` with its next link set to `next` and both flags to `v`.
pub open spec fn spec_mdb_mset_next_flags(n: crate::object::mdb_node_t, next: u64, v: u64) -> crate::object::mdb_node_t {
    spec_mdb_set_first_badged(spec_mdb_set_revocable(spec_mdb_set_next(n, next), v), v)
}

/// The TCB `t` with its state kind set to `ty`.
pub open spec fn with_ts_type(t: tcb_t, ty: u64) -> tcb_t {
    tcb_t { tcbState: spec_ts_set_ts_type(t.tcbState, ty), ..t }
}

impl KernelState {
    /// Copies the first `length` message registers of the thread at `src`
    /// to the thread at `dest`.
    pub fn fastpath_copy_mrs(&mut self, length: word_t, src: word_t, dest: word_t)
        requires
            length <= 4,
            old(self).tcbs@.contains_key(src),
            old(self).tcbs@.contains_key(dest),
        ensures
            final(self)@ == (KState {
                tcbs: spec_copy_msg_regs(old(self)@.tcbs, src, dest, length as nat),
                ..old(self)@
            }),
            final(self).sched == old(self).sched,
    {
        let mut i: u64 = 0;
        while i < length
            invariant
                i <= length <= 4,
                self@ == (KState {
                    tcbs: spec_copy_msg_regs(old(self)@.tcbs, src, dest, i as nat),
                    ..old(self)@
                }),
                self.sched == old(self).sched,
                self.tcbs@.contains_key(src),
                self.tcbs@.contains_key(dest),
                forall|j: u64|
                    i <= j < 4 ==> #[trigger] crate::thread::spec_get_register(
                        self.tcbs@,
                        src,
                        crate::transfer::spec_msg_register(j),
                    ) == crate::thread::spec_get_register(
                        old(self).tcbs@,
                        src,
                        crate::transfer::spec_msg_register(j),
                    ),
            decreases length - i,
        {
            let reg = msgRegisters(i);
            let w = self.getRegister(src, reg);
            let ghost before = self.tcbs@;
            self.setRegister(dest, reg, w);
            proof {
                let regs = before[dest].tcbArch.tcbContext.registers;
                vstd::array::axiom_spec_array_update(regs, reg as int, w);
                assert forall|j: u64| i < j < 4 implies #[trigger] crate::thread::spec_get_register(
                    self.tcbs@,
                    src,
                    crate::transfer::spec_msg_register(j),
                ) == crate::thread::spec_get_register(
                    before,
                    src,
                    crate::transfer::spec_msg_register(j),
                ) by {
                    assert(crate::transfer::spec_msg_register(j) != reg);
                }
            }
            i = i + 1;
        }
    }
}

// ---------------------------------------------------------------------------
// Call
// ---------------------------------------------------------------------------

/// The state after the fast path carries out a call from the current thread
/// to the thread `dest` waiting on the endpoint at `ep`: `dest` leaves the
/// endpoint's queue (the endpoint becomes idle when it was the last), the
/// caller blocks on the reply, `dest` gets a reply capability to the caller
/// in its caller slot, linked after the caller's reply slot, the first
/// `length` message registers are copied, and `dest` runs as the current
/// thread.
pub open spec fn spec_fastpath_call_commit(s: KState, ep: u64, dest: u64, length: u64) -> KState {
    let cur = s.cur_thread;
    let next = s.tcbs[dest].tcbEPNext;
    let s1 = with_ep(s, ep, spec_ep_set_queue_head(s.eps[ep], next));
    let s2 = if next != 0 {
        with_tcb(s1, next, tcb_t { tcbEPPrev: 0, ..s1.tcbs[next] })
    } else {
        with_ep(
            s1,
            ep,
            spec_ep_set_state(spec_ep_set_queue_tail(s1.eps[ep], 0), EPState_Idle),
        )
    };
    let s3 = with_tcb(s2, cur, with_ts_type(s2.tcbs[cur], ThreadState_BlockedOnReply));
    let replySlot = tcb_slot(cur, tcbReply);
    let callerSlot = tcb_slot(dest, tcbCaller);
    let canGrant = spec_ts_ipc_can_grant(s3.tcbs[dest].tcbState);
    let m1 = set_cte_cap(s3.ctes, callerSlot, spec_cap_reply_cap(canGrant, 0, cur));
    let m2 = set_mdb_prev_at(m1, callerSlot, replySlot);
    let m3 = set_cte_mdb(
        m2,
        replySlot,
        spec_mdb_mset_next_flags(cte_at(m2, replySlot).cteMDBNode, callerSlot, 1),
    );
    let s4 = KState { ctes: m3, tcbs: spec_copy_msg_regs(s3.tcbs, cur, dest, length as nat), ..s3 };
    let s5 = with_tcb(s4, dest, with_ts_type(s4.tcbs[dest], ThreadState_Running));
    KState { cur_thread: dest, ..s5 }
}

/// What `fastpath_call(cptr, msgInfo)` does: it hands the call to the slow
/// path unless the message fits in the message registers with no extra
/// capabilities, the caller has no fault, `cptr` names an endpoint that the
/// caller may send on and that may grant (or grant replies), a thread is
/// waiting to receive on it, that thread has a mapped top-level page table,
/// and it does not have a lower priority than the caller while a higher
/// priority is runnable. Then the call is committed and the receiver runs,
/// with the badge of the endpoint capability and the message descriptor with
/// no capabilities unwrapped.
pub open spec fn spec_fastpath_call(s: KState, cptr: u64, msgInfo: u64) -> (KState, FastpathOutcome) {
    let cur = s.cur_thread;
    let slow = (s, FastpathOutcome::Slowpath(syscall::SysCall));
    let info = seL4_MessageInfo { words: [msgInfo] };
    if spec_fastpath_mi_check(msgInfo) || spec_fault_type(s.tcbs[cur].tcbFault) != seL4_Fault_NullFault {
        slow
    } else {
        let ep_cap = spec_lookup_fp(s.ctes, cte_at(s.ctes, tcb_slot(cur, tcbCTable)).cap, cptr);
        if spec_cap_type(ep_cap) != cap_endpoint_cap || spec_cap_bit(ep_cap, 55) == 0 {
            slow
        } else {
            let ep = spec_cap_ep_ptr(ep_cap);
            if spec_ep_state(s.eps[ep]) != EPState_Recv {
                slow
            } else {
                let dest = spec_ep_queue_head(s.eps[ep]);
                let vt = cte_at(s.ctes, tcb_slot(dest, tcbVTable)).cap;
                let dp = s.tcbs[dest].tcbPriority;
                if !spec_valid_vtable_root(vt) {
                    slow
                } else if dp < s.tcbs[cur].tcbPriority && !spec_is_highest_prio(s, dp) {
                    slow
                } else if spec_cap_bit(ep_cap, 57) == 0 && spec_cap_bit(ep_cap, 58) == 0 {
                    slow
                } else {
                    (
                        spec_fastpath_call_commit(s, ep, dest, spec_mi_length(info)),
                        FastpathOutcome::Restore {
                            badge: spec_cap_ep_badge(ep_cap),
                            msgInfo: spec_mi_set_caps_unwrapped(info, 0).words[0],
                            vspaceRoot: spec_cap_pml4_base_ptr(vt),
                            hwASID: spec_cap_pml4_mapped_asid(vt),
                        },
                    )
                }
            }
        }
    }
}

/// `fastpath_call(cptr, msgInfo)` can run: the objects that its checks and
/// its transfer reach exist, and the capability lookup can run.
pub open spec fn can_fastpath_call(s: KState, cptr: u64, msgInfo: u64) -> bool {
    let cur = s.cur_thread;
    let root = cte_at(s.ctes, tcb_slot(cur, tcbCTable)).cap;
    let ep_cap = spec_lookup_fp(s.ctes, root, cptr);
    let ep = spec_cap_ep_ptr(ep_cap);
    let dest = spec_ep_queue_head(s.eps[ep]);
    &&& s.tcbs.contains_key(cur)
    &&& !spec_fastpath_mi_check(msgInfo) && spec_fault_type(s.tcbs[cur].tcbFault) == seL4_Fault_NullFault
        ==> {
        &&& lookup_fp_ok(s.ctes, root, cptr)
        &&& spec_cap_type(ep_cap) == cap_endpoint_cap && spec_cap_bit(ep_cap, 55) != 0 ==> {
            &&& s.eps.contains_key(ep)
            &&& spec_ep_state(s.eps[ep]) == EPState_Recv ==> {
                &&& s.tcbs.contains_key(dest)
                &&& s.tcbs[dest].tcbEPNext != 0 ==> s.tcbs.contains_key(s.tcbs[dest].tcbEPNext)
            }
        }
    }
}

impl KernelState {
    /// The fast path of a call through the capability at `cptr` with the
    /// message descriptor `msgInfo`; see `spec_fastpath_call`.
    pub fn fastpath_call(&mut self, cptr: word_t, msgInfo: word_t) -> (ret: FastpathOutcome)
        requires
            old(self).sched.wf(),
            can_fastpath_call(old(self)@, cptr, msgInfo),
        ensures
            final(self).sched.wf(),
            (final(self)@, ret) == spec_fastpath_call(old(self)@, cptr, msgInfo),
            ret is Slowpath ==> final(self)@ == old(self)@,
    {
        let info = messageInfoFromWord_raw(msgInfo);
        let length = seL4_MessageInfo_get_length(info);
        let cur = self.sched.ksCurThread;
        let fault_type = seL4_Fault_get_seL4_FaultType(&read_tcb(&self.tcbs, cur).tcbFault);
        if fastpath_mi_check(msgInfo) || fault_type != seL4_Fault_NullFault {
            return FastpathOutcome::Slowpath(syscall::SysCall);
        }
        proof {
            lemma_fastpath_length(msgInfo);
        }
        let root = read_cte(&self.ctes, TCB_PTR_CTE_PTR(cur, tcbCTable)).cap;
        let ep_cap = lookup_fp(&self.ctes, root, cptr);
        if cap_get_capType(ep_cap) != cap_endpoint_cap || cap_endpoint_cap_get_capCanSend(ep_cap)
            == 0 {
            return FastpathOutcome::Slowpath(syscall::SysCall);
        }
        let ep_ptr = cap_endpoint_cap_get_capEPPtr(ep_cap);
        if endpoint_ptr_get_state(&read_ep(&self.eps, ep_ptr)) != EPState_Recv {
            return FastpathOutcome::Slowpath(syscall::SysCall);
        }
        let dest = endpoint_ptr_get_epQueue_head(&read_ep(&self.eps, ep_ptr));
        let newVTable = read_cte(&self.ctes, TCB_PTR_CTE_PTR(dest, tcbVTable)).cap;
        let cap_pd = cap_vtable_cap_get_vspace_root_fp(newVTable);
        if !isValidVTableRoot_fp(newVTable) {
            return FastpathOutcome::Slowpath(syscall::SysCall);
        }
        let stored_hw_asid = cap_pml4_cap_get_capPML4MappedASID(newVTable);
        let dom: u64 = if domainConstants::maxDom.value() != 0 {
            self.sched.ksCurDomain
        } else {
            0
        };
        let dest_prio = read_tcb(&self.tcbs, dest).tcbPriority;
        if dest_prio < read_tcb(&self.tcbs, cur).tcbPriority && !self.isHighestPrio(dom, dest_prio) {
            return FastpathOutcome::Slowpath(syscall::SysCall);
        }
        if cap_endpoint_cap_get_capCanGrant(ep_cap) == 0 && cap_endpoint_cap_get_capCanGrantReply(
            ep_cap,
        ) == 0 {
            return FastpathOutcome::Slowpath(syscall::SysCall);
        }
        if read_tcb(&self.tcbs, dest).tcbDomain != self.sched.ksCurDomain && 0
            < domainConstants::maxDom.value() {
            return FastpathOutcome::Slowpath(syscall::SysCall);
        }
        // The receiver leaves the endpoint's queue.
        let next = read_tcb(&self.tcbs, dest).tcbEPNext;
        let mut e = read_ep(&self.eps, ep_ptr);
        endpoint_ptr_set_epQueue_head(&mut e, next);
        self.eps.insert(ep_ptr, e);
        if next != 0 {
            let mut n = read_tcb(&self.tcbs, next);
            n.tcbEPPrev = 0;
            self.tcbs.insert(next, n);
        } else {
            let mut e = read_ep(&self.eps, ep_ptr);
            endpoint_ptr_set_epQueue_tail(&mut e, 0);
            endpoint_ptr_set_state(&mut e, EPState_Idle);
            self.eps.insert(ep_ptr, e);
        }
        let badge = cap_endpoint_cap_get_capEPBadge(ep_cap);
        // The caller blocks on the reply.
        let mut c = read_tcb(&self.tcbs, cur);
        thread_state_ptr_set_tsType(&mut c.tcbState, ThreadState_BlockedOnReply);
        self.tcbs.insert(cur, c);
        // The receiver gets a reply capability to the caller.
        let replySlot = TCB_PTR_CTE_PTR(cur, tcbReply);
        let callerSlot = TCB_PTR_CTE_PTR(dest, tcbCaller);
        let replyCanGrant = thread_state_ptr_get_blockingIPCCanGrant(
            &read_tcb(&self.tcbs, dest).tcbState,
        );
        write_cte_cap(&mut self.ctes, callerSlot, cap_reply_cap_new(replyCanGrant, 0, cur));
        write_mdb_prev(&mut self.ctes, callerSlot, replySlot);
        let mut node = read_cte(&self.ctes, replySlot).cteMDBNode;
        mdb_node_ptr_set_mdbNext(&mut node, callerSlot);
        mdb_node_ptr_set_mdbRevocable(&mut node, 1);
        mdb_node_ptr_set_mdbFirstBadged(&mut node, 1);
        write_cte_mdb(&mut self.ctes, replySlot, node);
        self.fastpath_copy_mrs(length, cur, dest);
        // The receiver runs.
        let mut d = read_tcb(&self.tcbs, dest);
        thread_state_ptr_set_tsType(&mut d.tcbState, ThreadState_Running);
        self.tcbs.insert(dest, d);
        self.sched.ksCurThread = dest;
        let msgInfo1 = wordFromMessageInfo(seL4_MessageInfo_set_capsUnwrapped(info, 0));
        FastpathOutcome::Restore {
            badge,
            msgInfo: msgInfo1,
            vspaceRoot: cap_pd,
            hwASID: stored_hw_asid,
        }
    }
}

// ---------------------------------------------------------------------------
// Reply and receive
// ---------------------------------------------------------------------------

/// The state after the fast path carries out a reply to the thread `caller`
/// followed by a receive on the endpoint at `ep` through the capability
/// `ep_cap`: the current thread blocks receiving on the endpoint (allowed to
/// be granted capabilities as the capability says) and joins the end of its
/// queue, the endpoint waits for senders, the reply capability in the
/// current thread's caller slot is deleted (the slot before it in the
/// mapping database gets no next link), the first `length` message
/// registers are copied, and `caller` runs as the current thread.
pub open spec fn spec_fastpath_reply_recv_commit(
    s: KState,
    ep_cap: cap_t,
    ep: u64,
    caller: u64,
    length: u64,
) -> KState {
    let cur = s.cur_thread;
    let ct = s.tcbs[cur];
    let ct1 = tcb_t {
        tcbState: spec_ts_set_ipc_can_grant(
            spec_ts_set_ts_type(
                spec_ts_set_blocking_object(ct.tcbState, ep),
                ThreadState_BlockedOnReceive,
            ),
            spec_cap_bit(ep_cap, 57),
        ),
        ..ct
    };
    let s1 = with_tcb(s, cur, ct1);
    let tail = spec_ep_queue_tail(s1.eps[ep]);
    let s2 = if tail == 0 {
        let s21 = with_tcb(s1, cur, tcb_t { tcbEPPrev: 0, tcbEPNext: 0, ..s1.tcbs[cur] });
        with_ep(
            s21,
            ep,
            spec_ep_set_state(
                spec_ep_set_queue_tail(spec_ep_set_queue_head(s21.eps[ep], cur), cur),
                EPState_Recv,
            ),
        )
    } else {
        let s21 = with_tcb(s1, tail, tcb_t { tcbEPNext: cur, ..s1.tcbs[tail] });
        let s22 = with_tcb(s21, cur, tcb_t { tcbEPPrev: tail, tcbEPNext: 0, ..s21.tcbs[cur] });
        with_ep(s22, ep, spec_ep_set_state(spec_ep_set_queue_tail(s22.eps[ep], cur), EPState_Recv))
    };
    let callerSlot = tcb_slot(cur, tcbCaller);
    let prevSlot = spec_mdb_prev(cte_at(s2.ctes, callerSlot).cteMDBNode);
    let m1 = set_cte_mdb(
        s2.ctes,
        prevSlot,
        spec_mdb_mset_next_flags(cte_at(s2.ctes, prevSlot).cteMDBNode, 0, 1),
    );
    let m2 = set_cte_mdb(set_cte_cap(m1, callerSlot, spec_cap_null_cap()), callerSlot, spec_null_mdb_node());
    let s3 = KState { ctes: m2, tcbs: spec_copy_msg_regs(s2.tcbs, cur, caller, length as nat), ..s2 };
    let s4 = with_tcb(s3, caller, with_ts_type(s3.tcbs[caller], ThreadState_Running));
    KState { cur_thread: caller, ..s4 }
}

/// What `fastpath_reply_recv(cptr, msgInfo)` does: it hands the system call
/// to the slow path unless the message fits in the message registers with no
/// extra capabilities, the current thread has no fault, `cptr` names an
/// endpoint that it may receive on, it has no bound notification that is
/// active, no thread is waiting to send on the endpoint, its caller slot
/// holds a reply capability, the thread replied to has no fault other than a
/// virtual-memory fault, has a mapped top-level page table, and no higher
/// priority than its own is runnable. Then the reply and receive are
/// committed and the thread replied to runs, with a zero badge and the
/// message descriptor with no capabilities unwrapped.
pub open spec fn spec_fastpath_reply_recv(s: KState, cptr: u64, msgInfo: u64) -> (KState, FastpathOutcome) {
    let cur = s.cur_thread;
    let slow = (s, FastpathOutcome::Slowpath(syscall::SysReplyRecv));
    let info = seL4_MessageInfo { words: [msgInfo] };
    if spec_fastpath_mi_check(msgInfo) || spec_fault_type(s.tcbs[cur].tcbFault) != seL4_Fault_NullFault {
        slow
    } else {
        let ep_cap = spec_lookup_fp(s.ctes, cte_at(s.ctes, tcb_slot(cur, tcbCTable)).cap, cptr);
        let bound = s.tcbs[cur].tcbBoundNotification;
        if spec_cap_type(ep_cap) != cap_endpoint_cap || spec_cap_bit(ep_cap, 56) == 0 {
            slow
        } else if bound != 0 && spec_ntfn_state(s.ntfns[bound]) == NtfnState_Active {
            slow
        } else {
            let ep = spec_cap_ep_ptr(ep_cap);
            let callerCap = cte_at(s.ctes, tcb_slot(cur, tcbCaller)).cap;
            let caller = spec_cap_reply_tcb_ptr(callerCap);
            let ft = spec_fault_type(s.tcbs[caller].tcbFault);
            let vt = cte_at(s.ctes, tcb_slot(caller, tcbVTable)).cap;
            if spec_ep_state(s.eps[ep]) == EPState_Send {
                slow
            } else if spec_cap_type(callerCap) != cap_reply_cap {
                slow
            } else if ft != seL4_Fault_NullFault && ft != seL4_Fault_VMFault {
                slow
            } else if !spec_valid_vtable_root(vt) {
                slow
            } else if !spec_is_highest_prio(s, s.tcbs[caller].tcbPriority) {
                slow
            } else {
                (
                    spec_fastpath_reply_recv_commit(s, ep_cap, ep, caller, spec_mi_length(info)),
                    FastpathOutcome::Restore {
                        badge: 0,
                        msgInfo: spec_mi_set_caps_unwrapped(info, 0).words[0],
                        vspaceRoot: spec_cap_pml4_base_ptr(vt),
                        hwASID: spec_cap_pml4_mapped_asid(vt),
                    },
                )
            }
        }
    }
}

/// `fastpath_reply_recv(cptr, msgInfo)` can run: the objects that its checks
/// and its transfer reach exist, and the capability lookup can run.
pub open spec fn can_fastpath_reply_recv(s: KState, cptr: u64, msgInfo: u64) -> bool {
    let cur = s.cur_thread;
    let root = cte_at(s.ctes, tcb_slot(cur, tcbCTable)).cap;
    let ep_cap = spec_lookup_fp(s.ctes, root, cptr);
    let bound = s.tcbs[cur].tcbBoundNotification;
    let ep = spec_cap_ep_ptr(ep_cap);
    let callerCap = cte_at(s.ctes, tcb_slot(cur, tcbCaller)).cap;
    let caller = spec_cap_reply_tcb_ptr(callerCap);
    let tail = spec_ep_queue_tail(s.eps[ep]);
    &&& s.tcbs.contains_key(cur)
    &&& !spec_fastpath_mi_check(msgInfo) && spec_fault_type(s.tcbs[cur].tcbFault) == seL4_Fault_NullFault
        ==> {
        &&& lookup_fp_ok(s.ctes, root, cptr)
        &&& spec_cap_type(ep_cap) == cap_endpoint_cap && spec_cap_bit(ep_cap, 56) != 0 ==> {
            &&& bound != 0 ==> s.ntfns.contains_key(bound)
            &&& s.eps.contains_key(ep)
            &&& spec_cap_type(callerCap) == cap_reply_cap ==> s.tcbs.contains_key(caller)
            &&& tail != 0 ==> s.tcbs.contains_key(tail)
        }
    }
}

impl KernelState {
    /// The fast path of a reply followed by a receive through the capability
    /// at `cptr`, with the message descriptor `msgInfo`; see
    /// `spec_fastpath_reply_recv`.
    pub fn fastpath_reply_recv(&mut self, cptr: word_t, msgInfo: word_t) -> (ret: FastpathOutcome)
        requires
            old(self).sched.wf(),
            can_fastpath_reply_recv(old(self)@, cptr, msgInfo),
        ensures
            final(self).sched.wf(),
            (final(self)@, ret) == spec_fastpath_reply_recv(old(self)@, cptr, msgInfo),
            ret is Slowpath ==> final(self)@ == old(self)@,
    {
        let info = messageInfoFromWord_raw(msgInfo);
        let length = seL4_MessageInfo_get_length(info);
        let cur = self.sched.ksCurThread;
        let fault_type = seL4_Fault_get_seL4_FaultType(&read_tcb(&self.tcbs, cur).tcbFault);
        if fastpath_mi_check(msgInfo) || fault_type != seL4_Fault_NullFault {
            return FastpathOutcome::Slowpath(syscall::SysReplyRecv);
        }
        proof {
            lemma_fastpath_length(msgInfo);
        }
        let root = read_cte(&self.ctes, TCB_PTR_CTE_PTR(cur, tcbCTable)).cap;
        let ep_cap = lookup_fp(&self.ctes, root, cptr);
        if cap_get_capType(ep_cap) != cap_endpoint_cap || cap_endpoint_cap_get_capCanReceive(
            ep_cap,
        ) == 0 {
            return FastpathOutcome::Slowpath(syscall::SysReplyRecv);
        }
        let bound = read_tcb(&self.tcbs, cur).tcbBoundNotification;
        if bound != 0 && notification_ptr_get_state(&read_ntfn(&self.ntfns, bound))
            == NtfnState_Active {
            return FastpathOutcome::Slowpath(syscall::SysReplyRecv);
        }
        let ep_ptr = cap_endpoint_cap_get_capEPPtr(ep_cap);
        if endpoint_ptr_get_state(&read_ep(&self.eps, ep_ptr)) == EPState_Send {
            return FastpathOutcome::Slowpath(syscall::SysReplyRecv);
        }
        let callerSlot = TCB_PTR_CTE_PTR(cur, tcbCaller);
        let callerCap = read_cte(&self.ctes, callerSlot).cap;
        if cap_get_capType(callerCap) != cap_reply_cap {
            return FastpathOutcome::Slowpath(syscall::SysReplyRecv);
        }
        let caller = cap_reply_cap_get_capTCBPtr(callerCap);
        let caller_fault = seL4_Fault_get_seL4_FaultType(&read_tcb(&self.tcbs, caller).tcbFault);
        if caller_fault != seL4_Fault_NullFault && caller_fault != seL4_Fault_VMFault {
            return FastpathOutcome::Slowpath(syscall::SysReplyRecv);
        }
        let newVTable = read_cte(&self.ctes, TCB_PTR_CTE_PTR(caller, tcbVTable)).cap;
        let cap_pd = cap_vtable_cap_get_vspace_root_fp(newVTable);
        if !isValidVTableRoot_fp(newVTable) {
            return FastpathOutcome::Slowpath(syscall::SysReplyRecv);
        }
        let stored_hw_asid = cap_pml4_cap_get_capPML4MappedASID(newVTable);
        let dom: u64 = if domainConstants::maxDom.value() != 0 {
            self.sched.ksCurDomain
        } else {
            0
        };
        if !self.isHighestPrio(dom, read_tcb(&self.tcbs, caller).tcbPriority) {
            return FastpathOutcome::Slowpath(syscall::SysReplyRecv);
        }
        if read_tcb(&self.tcbs, caller).tcbDomain != self.sched.ksCurDomain && 0
            < domainConstants::maxDom.value() {
            return FastpathOutcome::Slowpath(syscall::SysReplyRecv);
        }
        // The current thread blocks receiving on the endpoint.
        let mut c = read_tcb(&self.tcbs, cur);
        thread_state_ptr_set_blockingObject(&mut c.tcbState, ep_ptr);
        thread_state_ptr_set_tsType(&mut c.tcbState, ThreadState_BlockedOnReceive);
        thread_state_ptr_set_blockingIPCCanGrant(
            &mut c.tcbState,
            cap_endpoint_cap_get_capCanGrant(ep_cap),
        );
        self.tcbs.insert(cur, c);
        // It joins the end of the endpoint's queue.
        let endpointTail = endpoint_ptr_get_epQueue_tail(&read_ep(&self.eps, ep_ptr));
        if endpointTail == 0 {
            let mut c = read_tcb(&self.tcbs, cur);
            c.tcbEPPrev = 0;
            c.tcbEPNext = 0;
            self.tcbs.insert(cur, c);
            let mut e = read_ep(&self.eps, ep_ptr);
            endpoint_ptr_set_epQueue_head(&mut e, cur);
            endpoint_ptr_set_epQueue_tail(&mut e, cur);
            endpoint_ptr_set_state(&mut e, EPState_Recv);
            self.eps.insert(ep_ptr, e);
        } else {
            let mut t = read_tcb(&self.tcbs, endpointTail);
            t.tcbEPNext = cur;
            self.tcbs.insert(endpointTail, t);
            let mut c = read_tcb(&self.tcbs, cur);
            c.tcbEPPrev = endpointTail;
            c.tcbEPNext = 0;
            self.tcbs.insert(cur, c);
            let mut e = read_ep(&self.eps, ep_ptr);
            endpoint_ptr_set_epQueue_tail(&mut e, cur);
            endpoint_ptr_set_state(&mut e, EPState_Recv);
            self.eps.insert(ep_ptr, e);
        }
        // The reply capability is deleted.
        let prevSlot = mdb_node_get_mdbPrev(read_cte(&self.ctes, callerSlot).cteMDBNode);
        let mut node = read_cte(&self.ctes, prevSlot).cteMDBNode;
        mdb_node_ptr_set_mdbNext(&mut node, 0);
        mdb_node_ptr_set_mdbRevocable(&mut node, 1);
        mdb_node_ptr_set_mdbFirstBadged(&mut node, 1);
        write_cte_mdb(&mut self.ctes, prevSlot, node);
        write_cte_cap(&mut self.ctes, callerSlot, cap_null_cap_new());
        write_cte_mdb(&mut self.ctes, callerSlot, nullMDBNode());
        let badge: word_t = 0;
        self.fastpath_copy_mrs(length, cur, caller);
        // The thread replied to runs.
        let mut r = read_tcb(&self.tcbs, caller);
        thread_state_ptr_set_tsType(&mut r.tcbState, ThreadState_Running);
        self.tcbs.insert(caller, r);
        self.sched.ksCurThread = caller;
        let msgInfo1 = wordFromMessageInfo(seL4_MessageInfo_set_capsUnwrapped(info, 0));
        FastpathOutcome::Restore {
            badge,
            msgInfo: msgInfo1,
            vspaceRoot: cap_pd,
            hwASID: stored_hw_asid,
        }
    }
}

// ---------------------------------------------------------------------------
// A call and its reply
// ---------------------------------------------------------------------------

/// A fast call from the current thread, followed by a fast reply-and-receive
/// of the thread called that takes the fast path, hands control back to the
/// caller: the caller is current and running again, and the called thread's
/// caller slot is empty.
pub proof fn law_fastpath_call_then_reply(s: KState, cptr1: u64, mi1: u64, cptr2: u64, mi2: u64)
    requires
        spec_fastpath_call(s, cptr1, mi1).1 is Restore,
        spec_fastpath_reply_recv(spec_fastpath_call(s, cptr1, mi1).0, cptr2, mi2).1 is Restore,
    ensures
        ({
            let s1 = spec_fastpath_call(s, cptr1, mi1).0;
            let s2 = spec_fastpath_reply_recv(s1, cptr2, mi2).0;
            &&& s2.cur_thread == s.cur_thread
            &&& spec_ts_type(s2.tcbs[s.cur_thread].tcbState) == ThreadState_Running
            &&& spec_cap_type(cte_at(s2.ctes, tcb_slot(s1.cur_thread, tcbCaller)).cap)
                == cap_null_cap
        }),
{
    let s1 = spec_fastpath_call(s, cptr1, mi1).0;
    let callerSlot = tcb_slot(s1.cur_thread, tcbCaller);
    let callerCap = cte_at(s1.ctes, callerSlot).cap;
    assert(spec_cap_reply_tcb_ptr(callerCap) == s.cur_thread);
    let s2 = spec_fastpath_reply_recv(s1, cptr2, mi2).0;
    let ts = spec_fastpath_reply_recv_commit(
        s1,
        spec_lookup_fp(s1.ctes, cte_at(s1.ctes, tcb_slot(s1.cur_thread, tcbCTable)).cap, cptr2),
        spec_cap_ep_ptr(
            spec_lookup_fp(s1.ctes, cte_at(s1.ctes, tcb_slot(s1.cur_thread, tcbCTable)).cap, cptr2),
        ),
        s.cur_thread,
        spec_mi_length(seL4_MessageInfo { words: [mi2] }),
    );
    assert(s2 == ts);
    lemma_constant_fields();
    assert forall|x: crate::object::thread_state_t|
        spec_ts_type(#[trigger] spec_ts_set_ts_type(x, ThreadState_Running)) == ThreadState_Running by {
        law_ts_set_ts_type(x, ThreadState_Running);
    }
}

// ---------------------------------------------------------------------------
// The endpoint queue across a call
// ---------------------------------------------------------------------------

/// Copying message registers changes no thread's state.
proof fn lemma_copy_msg_regs_keeps_states(m: Map<u64, tcb_t>, src: u64, dest: u64, j: nat)
    requires
        m.contains_key(dest),
    ensures
        forall|a: u64|
            m.contains_key(a) ==> (#[trigger] spec_copy_msg_regs(m, src, dest, j)[a]).tcbState
                == m[a].tcbState,
    decreases j,
{
    if j > 0 {
        lemma_copy_msg_regs_keeps_states(m, src, dest, (j - 1) as nat);
        lemma_copy_msg_regs_keeps_links(m, src, dest, (j - 1) as nat);
    }
}

/// The endpoint that a call through the capability at `cptr` goes through.
pub open spec fn spec_fastpath_ep(s: KState, cptr: u64) -> u64 {
    spec_cap_ep_ptr(spec_lookup_fp(s.ctes, cte_at(s.ctes, tcb_slot(s.cur_thread, tcbCTable)).cap, cptr))
}

/// Copying message registers changes no thread's endpoint-queue links and
/// adds no thread.
proof fn lemma_copy_msg_regs_keeps_links(m: Map<u64, tcb_t>, src: u64, dest: u64, j: nat)
    requires
        m.contains_key(dest),
    ensures
        spec_copy_msg_regs(m, src, dest, j).dom() == m.dom(),
        forall|a: u64|
            (#[trigger] spec_copy_msg_regs(m, src, dest, j)[a]).tcbEPNext == m[a].tcbEPNext
                && spec_copy_msg_regs(m, src, dest, j)[a].tcbEPPrev == m[a].tcbEPPrev,
    decreases j,
{
    if j > 0 {
        lemma_copy_msg_regs_keeps_links(m, src, dest, (j - 1) as nat);
        let m1 = spec_copy_msg_regs(m, src, dest, (j - 1) as nat);
        assert(m1.contains_key(dest));
        assert(spec_copy_msg_regs(m, src, dest, j).dom() =~= m.dom());
    }
}

/// The endpoint's queue after a committed fast call: when it is the list
/// `q`, the receiver called is its first thread, and it is left as the list
/// of the others, idle when none is left and still receiving otherwise.
pub proof fn law_fastpath_call_commit_queue(s: KState, ep: u64, length: u64, q: Seq<u64>)
    requires
        s.eps.contains_key(ep),
        spec_ep_state(s.eps[ep]) == EPState_Recv,
        ep_queue_wf(s.tcbs, spec_ep_get_queue(s.eps[ep]), q),
        q.len() > 0,
    ensures
        ({
            let s2 = spec_fastpath_call_commit(s, ep, q[0], length);
            &&& s2.cur_thread == q[0]
            &&& s2.eps.contains_key(ep)
            &&& ep_queue_wf(s2.tcbs, spec_ep_get_queue(s2.eps[ep]), q.drop_first())
            &&& spec_ep_state(s2.eps[ep]) == if q.len() == 1 {
                EPState_Idle
            } else {
                EPState_Recv
            }
        }),
{
    let dest = q[0];
    let e = s.eps[ep];
    let rest = q.drop_first();
    let cur = s.cur_thread;
    assert(dest != 0 && s.tcbs.contains_key(dest));
    assert(s.tcbs[dest].tcbEPNext == ep_next_of(q, 0));
    let next = s.tcbs[dest].tcbEPNext;
    law_ep_set_queue_head(e, next);
    let e1 = spec_ep_set_queue_head(e, next);
    let s1 = with_ep(s, ep, e1);
    let s2 = if next != 0 {
        with_tcb(s1, next, tcb_t { tcbEPPrev: 0, ..s1.tcbs[next] })
    } else {
        with_ep(s1, ep, spec_ep_set_state(spec_ep_set_queue_tail(s1.eps[ep], 0), EPState_Idle))
    };
    if next == 0 {
        assert(q.len() == 1);
        law_ep_set_queue_tail(e1, 0);
        law_ep_set_state(spec_ep_set_queue_tail(e1, 0), EPState_Idle);
        assert(sign_extend_39(0u64 & 0x7ffffffffcu64) == 0) by (bit_vector);
        lemma_constant_fields();
    } else {
        assert(q.len() > 1);
        assert(next == q[1]);
        assert(q[1] != 0 && s.tcbs.contains_key(q[1]));
    }
    assert(spec_ep_state(s2.eps[ep]) == if q.len() == 1 {
        EPState_Idle
    } else {
        EPState_Recv
    });
    // Only the new head's back link changes among the threads of `rest`.
    assert(rest.len() == q.len() - 1);
    assert forall|i: int| 0 <= i < rest.len() implies #[trigger] rest[i] == q[i + 1] by {}
    assert(rest.no_duplicates()) by {
        assert forall|i: int, j: int| 0 <= i < rest.len() && 0 <= j < rest.len() && i != j implies rest[i]
            != rest[j] by {
            assert(rest[i] == q[i + 1] && rest[j] == q[j + 1]);
        }
    }
    assert forall|i: int| 0 <= i < rest.len() implies #[trigger] rest[i] != 0 && s2.tcbs.contains_key(
        rest[i],
    ) && s2.tcbs[rest[i]].tcbEPPrev == ep_prev_of(rest, i) && s2.tcbs[rest[i]].tcbEPNext
        == ep_next_of(rest, i) by {
        assert(rest[i] == q[i + 1]);
        assert(s.tcbs[q[i + 1]].tcbEPPrev == ep_prev_of(q, i + 1));
        assert(s.tcbs[q[i + 1]].tcbEPNext == ep_next_of(q, i + 1));
        if i + 1 < q.len() - 1 {
            assert(q[i + 2] == rest[i + 1]);
        }
        if i > 0 {
            assert(q[i + 1] != q[1]);
        }
    }
    let s3 = with_tcb(s2, cur, with_ts_type(s2.tcbs[cur], ThreadState_BlockedOnReply));
    let s4t = spec_copy_msg_regs(s3.tcbs, cur, dest, length as nat);
    assert(s3.tcbs.contains_key(dest));
    lemma_copy_msg_regs_keeps_links(s3.tcbs, cur, dest, length as nat);
    let s2c = spec_fastpath_call_commit(s, ep, dest, length);
    assert(s2c.eps == s2.eps);
    assert forall|i: int| 0 <= i < rest.len() implies #[trigger] rest[i] != 0 && s2c.tcbs.contains_key(
        rest[i],
    ) && s2c.tcbs[rest[i]].tcbEPPrev == ep_prev_of(rest, i) && s2c.tcbs[rest[i]].tcbEPNext
        == ep_next_of(rest, i) by {
        assert(s2.tcbs[rest[i]].tcbEPPrev == ep_prev_of(rest, i));
        assert(s4t[rest[i]].tcbEPPrev == s3.tcbs[rest[i]].tcbEPPrev);
        assert(s4t[rest[i]].tcbEPNext == s3.tcbs[rest[i]].tcbEPNext);
    }
    if rest.len() > 0 {
        assert(rest[0] == q[1]);
        assert(rest[rest.len() - 1] == q[q.len() - 1]);
    }
}

/// A fast call that is carried out takes its receiver off the front of the
/// endpoint's queue and leaves the other waiting threads queued, in order:
/// when the queue was the non-empty list `q`, it becomes the list of all of `q` but
/// its first thread, and the endpoint stays receiving unless none is left.
pub proof fn law_fastpath_call_queue(s: KState, cptr: u64, msgInfo: u64, q: Seq<u64>)
    requires
        spec_fastpath_call(s, cptr, msgInfo).1 is Restore,
        s.eps.contains_key(spec_fastpath_ep(s, cptr)),
        ep_queue_wf(s.tcbs, spec_ep_get_queue(s.eps[spec_fastpath_ep(s, cptr)]), q),
        q.len() > 0,
    ensures
        ({
            let ep = spec_fastpath_ep(s, cptr);
            let s2 = spec_fastpath_call(s, cptr, msgInfo).0;
            &&& s2.cur_thread == q[0]
            &&& s2.eps.contains_key(ep)
            &&& ep_queue_wf(s2.tcbs, spec_ep_get_queue(s2.eps[ep]), q.drop_first())
            &&& spec_ep_state(s2.eps[ep]) == if q.len() == 1 {
                EPState_Idle
            } else {
                EPState_Recv
            }
        }),
{
    let ep = spec_fastpath_ep(s, cptr);
    let info = seL4_MessageInfo { words: [msgInfo] };
    assert(spec_ep_state(s.eps[ep]) == EPState_Recv);
    law_fastpath_call_commit_queue(s, ep, spec_mi_length(info), q);
}

/// A fast call that is carried out blocks the caller on the reply, runs the
/// receiver as the current thread, and gives the receiver a reply
/// capability to the caller in its caller slot.
pub proof fn law_fastpath_call_threads(s: KState, cptr: u64, msgInfo: u64)
    requires
        can_fastpath_call(s, cptr, msgInfo),
        spec_fastpath_call(s, cptr, msgInfo).1 is Restore,
        s.cur_thread != spec_ep_queue_head(s.eps[spec_fastpath_ep(s, cptr)]),
    ensures
        ({
            let caller = s.cur_thread;
            let dest = spec_ep_queue_head(s.eps[spec_fastpath_ep(s, cptr)]);
            let s2 = spec_fastpath_call(s, cptr, msgInfo).0;
            let reply = cte_at(s2.ctes, tcb_slot(dest, tcbCaller)).cap;
            &&& s2.cur_thread == dest
            &&& spec_ts_type(s2.tcbs[caller].tcbState) == ThreadState_BlockedOnReply
            &&& spec_ts_type(s2.tcbs[dest].tcbState) == ThreadState_Running
            &&& spec_cap_type(reply) == cap_reply_cap
            &&& spec_cap_reply_tcb_ptr(reply) == caller
        }),
{
    lemma_constant_fields();
    assert forall|x: crate::object::thread_state_t, v: u64| v < 16 implies spec_ts_type(
        #[trigger] spec_ts_set_ts_type(x, v),
    ) == v by {
        law_ts_set_ts_type(x, v);
        assert(v < 16 ==> v & 0xfu64 == v) by (bit_vector);
    }
    let ep = spec_fastpath_ep(s, cptr);
    let dest = spec_ep_queue_head(s.eps[ep]);
    let cur = s.cur_thread;
    let info = seL4_MessageInfo { words: [msgInfo] };
    let length = spec_mi_length(info);
    let next = s.tcbs[dest].tcbEPNext;
    let s1 = with_ep(s, ep, spec_ep_set_queue_head(s.eps[ep], next));
    let s2 = if next != 0 {
        with_tcb(s1, next, tcb_t { tcbEPPrev: 0, ..s1.tcbs[next] })
    } else {
        with_ep(s1, ep, spec_ep_set_state(spec_ep_set_queue_tail(s1.eps[ep], 0), EPState_Idle))
    };
    let s3 = with_tcb(s2, cur, with_ts_type(s2.tcbs[cur], ThreadState_BlockedOnReply));
    assert(spec_ts_type(s3.tcbs[cur].tcbState) == ThreadState_BlockedOnReply);
    assert(s.tcbs.contains_key(dest));
    assert(s3.tcbs.contains_key(dest) && s3.tcbs.contains_key(cur));
    lemma_copy_msg_regs_keeps_states(s3.tcbs, cur, dest, length as nat);
    let t4 = spec_copy_msg_regs(s3.tcbs, cur, dest, length as nat);
    assert(t4[cur].tcbState == s3.tcbs[cur].tcbState);
    let r = spec_fastpath_call(s, cptr, msgInfo).0;
    assert(r == spec_fastpath_call_commit(s, ep, dest, length));
    assert(spec_ts_type(r.tcbs[cur].tcbState) == ThreadState_BlockedOnReply);
    assert(spec_ts_type(r.tcbs[dest].tcbState) == ThreadState_Running);
    let reply = cte_at(r.ctes, tcb_slot(dest, tcbCaller)).cap;
    assert(spec_cap_reply_tcb_ptr(reply) == s.cur_thread);
    let g = spec_ts_ipc_can_grant(s3.tcbs[dest].tcbState);
    assert(spec_cap_type(spec_cap_reply_cap(g, 0, cur)) == cap_reply_cap) by {
        assert(((8u64 << 59u64) | ((g & 1u64) << 1u64) | (0u64 & 1u64)) >> 59u64 & 0x1fu64 == 8u64)
            by (bit_vector);
    }
    assert(spec_cap_type(reply) == cap_reply_cap);
    assert(r.cur_thread == dest);
}

} // verus!
