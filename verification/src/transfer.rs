//! Message transfer between threads: the extra capabilities named in a
//! sender's IPC buffer, the receiver's slot for a transferred capability, the
//! copying of message registers, the transfer of capabilities, and the
//! delivery of a message, a fault or a reply.
//!
//! An IPC buffer is a thread's page of message words, handed to these
//! functions as a slice: word 0 is the message tag, words 1 to 120 the
//! message, words 122 to 124 the addresses (or, on receipt, the badges) of
//! the extra capabilities, and words 125 to 127 where the receiver wants a
//! capability put.
use vstd::prelude::*;

use crate::cnode::{
    can_cte_insert, delete_one_needs_no_finalise, DeleteOneEvent, spec_cte_insert, spec_empty_slot,
    with_ctes,
};
use crate::cspace::{fault_after, lemma_lookup_outcome, spec_lookup_fails_in, spec_lookup_in};
use crate::failures::{EXCEPTION_NONE, exception_t};
use crate::object::{
    cap_endpoint_cap, cap_endpoint_cap_get_capEPBadge, cap_endpoint_cap_get_capEPPtr,
    cap_get_capType, cap_null_cap, cap_reply_cap_new, cap_t, cte_t, messageInfoFromWord,
    seL4_Fault_CapFault_new, seL4_Fault_get_seL4_FaultType, seL4_Fault_NullFault,
    seL4_Fault_NullFault_new, seL4_MessageInfo_get_capsUnwrapped, seL4_MessageInfo_get_extraCaps,
    seL4_MessageInfo_get_length, seL4_MessageInfo_new, seL4_MessageInfo_set_capsUnwrapped,
    seL4_MessageInfo_set_extraCaps, seL4_MessageInfo_set_length, seL4_MessageInfo_t,
    seL4_MsgMaxExtraCaps, seL4_MsgMaxLength, spec_cap_ep_badge, spec_cap_ep_ptr, spec_cap_fault,
    spec_cap_reply_cap, spec_cap_type, spec_fault_type, spec_mi_caps_unwrapped, spec_mi_extra_caps,
    spec_mi_from_word, spec_mi_length, spec_mi_new, spec_mi_set_caps_unwrapped,
    spec_mi_set_extra_caps, spec_mi_set_length, spec_null_fault, spec_tcb_cte_ptr, TCB_PTR_CTE_PTR,
    tcb_t, tcbCaller, tcbReply, ThreadState_BlockedOnReply, ThreadState_Inactive,
    ThreadState_Restart, ThreadState_Running, wordFromMessageInfo,
};
use crate::state::{cte_at, KernelState, KState, read_cte, read_tcb};
use crate::thread::{
    badgeRegister, can_possible_switch_to, can_set_thread_state, msgInfoRegister, spec_get_register,
    spec_possible_switch_to, spec_set_register, spec_set_thread_state,
};
use crate::types::{cap_transfer, cap_transfer_t, word_t};

verus! {

/// The number of words in an IPC buffer.
pub const IPC_BUFFER_WORDS: u64 = 128;

/// The index in an IPC buffer of the word for extra capability `i`.
pub open spec fn extra_cap_index(i: int) -> int {
    seL4_MsgMaxLength + 2 + i
}

/// Reads the address of extra capability `i` from an IPC buffer.
pub fn getExtraCPtr(bufferPtr: &[word_t], i: word_t) -> (ret: word_t)
    requires
        extra_cap_index(i as int) < bufferPtr@.len(),
    ensures
        ret == bufferPtr@[extra_cap_index(i as int)],
{
    let len: usize = bufferPtr.len();
    assert(seL4_MsgMaxLength + 2 + i < len);
    bufferPtr[(seL4_MsgMaxLength + 2 + i) as usize]
}

/// Writes the badge of extra capability `i` into an IPC buffer.
pub fn setExtraBadge(bufferPtr: &mut Vec<word_t>, badge: word_t, i: word_t)
    requires
        extra_cap_index(i as int) < old(bufferPtr)@.len(),
    ensures
        final(bufferPtr)@ == old(bufferPtr)@.update(extra_cap_index(i as int), badge),
{
    let len: usize = bufferPtr.len();
    assert(seL4_MsgMaxLength + 2 + i < len);
    bufferPtr.set((seL4_MsgMaxLength + 2 + i) as usize, badge);
}

/// The index of the first extra capability, from `i` on and below `n`, whose
/// address fails to look up in the capability space of `thread`; `n` when
/// none fails.
pub open spec fn first_failed_extra(
    ctes: Map<u64, cte_t>,
    thread: u64,
    b: Seq<u64>,
    n: int,
    i: int,
) -> int
    decreases n - i,
{
    if i >= n {
        n
    } else if spec_lookup_in(ctes, thread, b[extra_cap_index(i)]).status != EXCEPTION_NONE {
        i
    } else {
        first_failed_extra(ctes, thread, b, n, i + 1)
    }
}

/// The slot that extra capability `i` of buffer `b` names.
pub open spec fn extra_slot(ctes: Map<u64, cte_t>, thread: u64, b: Seq<u64>, i: int) -> u64 {
    spec_lookup_in(ctes, thread, b[extra_cap_index(i)]).slot
}

/// The state after `lookupExtraCaps` with the IPC buffer `b`: the slots of
/// the extra capabilities are recorded in order up to the first one that
/// fails to look up. On such a failure a capability fault for its address is
/// recorded and the lookup's status returned; otherwise the list of slots is
/// ended by a zero entry when there is room.
pub open spec fn spec_lookup_extra_caps(s: KState, thread: u64, b: Seq<u64>, info: seL4_MessageInfo_t) -> (
    KState,
    u64,
) {
    let n = spec_mi_extra_caps(info) as int;
    let k = first_failed_extra(s.ctes, thread, b, n, 0);
    let refs = Seq::new(
        3,
        |j: int|
            if j < k {
                extra_slot(s.ctes, thread, b, j)
            } else if j == k && k == n {
                0
            } else {
                s.extra_caps[j]
            },
    );
    if k < n {
        let r = spec_lookup_in(s.ctes, thread, b[extra_cap_index(k)]);
        (
            KState {
                extra_caps: refs,
                current_fault: spec_cap_fault(b[extra_cap_index(k)], 0),
                current_lookup_fault: fault_after(r, s.current_lookup_fault),
                ..s
            },
            r.status,
        )
    } else {
        (KState { extra_caps: refs, ..s }, EXCEPTION_NONE)
    }
}

/// `lookupExtraCaps` can run on buffer `b`: it is an IPC buffer, and none of
/// the lookups it may make fails the kernel's assertion.
pub open spec fn can_lookup_extra_caps(s: KState, thread: u64, b: Seq<u64>, info: seL4_MessageInfo_t) -> bool {
    &&& b.len() >= IPC_BUFFER_WORDS
    &&& forall|i: int|
        0 <= i < spec_mi_extra_caps(info) ==> !#[trigger] spec_lookup_fails_in(
            s.ctes,
            thread,
            b[extra_cap_index(i)],
        )
}

impl KernelState {
    /// Looks up the extra capabilities that the message `info` of `thread`
    /// names in its IPC buffer, recording their slots in
    /// `current_extra_caps`. Without a buffer there are none.
    pub fn lookupExtraCaps(&mut self, thread: word_t, bufferPtr: Option<&[word_t]>, info:
        seL4_MessageInfo_t) -> (ret: exception_t)
        requires
            match bufferPtr {
                Some(b) => can_lookup_extra_caps(old(self)@, thread, b@, info),
                None => true,
            },
        ensures
            match bufferPtr {
                Some(b) => (final(self)@, ret) == spec_lookup_extra_caps(
                    old(self)@,
                    thread,
                    b@,
                    info,
                ),
                None => ret == EXCEPTION_NONE && final(self)@ == (KState {
                    extra_caps: old(self)@.extra_caps.update(0, 0),
                    ..old(self)@
                }),
            },
            final(self).sched == old(self).sched,
    {
        let buffer = match bufferPtr {
            Some(b) => b,
            None => {
                self.current_extra_caps.excaprefs[0] = 0;
                return EXCEPTION_NONE;
            },
        };
        let length = seL4_MessageInfo_get_extraCaps(info);
        let ghost s0 = self@;
        let ghost n = length as int;
        let ghost k = first_failed_extra(s0.ctes, thread, buffer@, n, 0);
        let mut i: u64 = 0;
        while i < length
            invariant
                bufferPtr == Some(buffer),
                s0 == old(self)@,
                i <= length,
                length == spec_mi_extra_caps(info),
                n == length,
                length < 4,
                can_lookup_extra_caps(s0, thread, buffer@, info),
                k == first_failed_extra(s0.ctes, thread, buffer@, n, 0),
                k == first_failed_extra(s0.ctes, thread, buffer@, n, i as int),
                self@ == (KState {
                    extra_caps: Seq::new(
                        3,
                        |j: int|
                            if j < i {
                                extra_slot(s0.ctes, thread, buffer@, j)
                            } else {
                                s0.extra_caps[j]
                            },
                    ),
                    ..s0
                }),
                self.sched == old(self).sched,
            decreases length - i,
        {
            let cptr = getExtraCPtr(buffer, i);
            proof {
                lemma_lookup_outcome(s0.ctes, thread, cptr);
                assert(!spec_lookup_fails_in(s0.ctes, thread, buffer@[extra_cap_index(i as int)]));
            }
            let lu_ret = self.lookupSlot(thread, cptr);
            if lu_ret.status != EXCEPTION_NONE {
                self.current_fault = seL4_Fault_CapFault_new(cptr, 0);
                proof {
                    assert(k == i);
                    let sp = spec_lookup_extra_caps(s0, thread, buffer@, info);
                    assert(self@.extra_caps =~= sp.0.extra_caps);
                    assert(self@.current_fault == sp.0.current_fault);
                    assert(self@.current_lookup_fault == sp.0.current_lookup_fault);
                    assert(lu_ret.status == sp.1);
                }
                return lu_ret.status;
            }
            self.current_extra_caps.excaprefs[i as usize] = lu_ret.slot;
            i = i + 1;
            proof {
                assert(self@.extra_caps =~= Seq::new(
                    3,
                    |j: int|
                        if j < i {
                            extra_slot(s0.ctes, thread, buffer@, j)
                        } else {
                            s0.extra_caps[j]
                        },
                ));
            }
        }
        if i < seL4_MsgMaxExtraCaps {
            self.current_extra_caps.excaprefs[i as usize] = 0;
        }
        proof {
            assert(self@.extra_caps =~= spec_lookup_extra_caps(s0, thread, buffer@, info).0.extra_caps);
        }
        EXCEPTION_NONE
    }
}

// ---------------------------------------------------------------------------
// The receiver's slot
// ---------------------------------------------------------------------------

/// The capability-transfer request held in the first three words of `w`.
pub open spec fn spec_cap_transfer_from(w: Seq<u64>) -> cap_transfer_t {
    cap_transfer { ctReceiveRoot: w[0], ctReceiveIndex: w[1], ctReceiveDepth: w[2] }
}

/// The index in an IPC buffer of the receiver's capability-transfer request.
pub open spec fn cap_transfer_index() -> int {
    seL4_MsgMaxLength + seL4_MsgMaxExtraCaps + 2
}

/// Reads a capability-transfer request from three words.
pub fn capTransferFromWords(wptr: &[word_t]) -> (ret: cap_transfer_t)
    requires
        wptr@.len() >= 3,
    ensures
        ret == spec_cap_transfer_from(wptr@),
{
    cap_transfer { ctReceiveRoot: wptr[0], ctReceiveIndex: wptr[1], ctReceiveDepth: wptr[2] }
}

/// Reads the receiver's capability-transfer request from its IPC buffer.
pub fn loadCapTransfer(buffer: &[word_t]) -> (ret: cap_transfer_t)
    requires
        buffer@.len() >= IPC_BUFFER_WORDS,
    ensures
        ret == spec_cap_transfer_from(buffer@.subrange(cap_transfer_index(), buffer@.len() as int)),
{
    let offset = (seL4_MsgMaxLength + seL4_MsgMaxExtraCaps + 2) as usize;
    capTransferFromWords(&buffer[offset..buffer.len()])
}

/// The state after `getReceiveSlots` with the IPC buffer `b`, and the slot
/// returned: the receiver's root names a CNode in its own capability space,
/// in which the requested index and depth name an empty slot. When any of
/// these fails the slot is zero, and the failing lookup has recorded its
/// fault and error.
pub open spec fn spec_get_receive_slots(s: KState, thread: u64, b: Seq<u64>) -> (KState, u64) {
    let ct = spec_cap_transfer_from(b.subrange(cap_transfer_index(), b.len() as int));
    let r = spec_lookup_in(s.ctes, thread, ct.ctReceiveRoot);
    if r.status != EXCEPTION_NONE {
        (KState { current_lookup_fault: fault_after(r, s.current_lookup_fault), ..s }, 0)
    } else {
        let cnode = cte_at(s.ctes, r.slot).cap;
        let (s2, lus) = KernelState::spec_lookup_slot_for_cnode_op(
            s,
            0,
            cnode,
            ct.ctReceiveIndex,
            ct.ctReceiveDepth,
        );
        if lus.status != EXCEPTION_NONE {
            (s2, 0)
        } else if spec_cap_type(cte_at(s2.ctes, lus.slot).cap) != cap_null_cap {
            (s2, 0)
        } else {
            (s2, lus.slot)
        }
    }
}

/// `getReceiveSlots` can run on buffer `b`: it is an IPC buffer, and neither
/// lookup it makes fails the kernel's assertion.
pub open spec fn can_get_receive_slots(s: KState, thread: u64, b: Seq<u64>) -> bool {
    let ct = spec_cap_transfer_from(b.subrange(cap_transfer_index(), b.len() as int));
    let r = spec_lookup_in(s.ctes, thread, ct.ctReceiveRoot);
    &&& b.len() >= IPC_BUFFER_WORDS
    &&& !spec_lookup_fails_in(s.ctes, thread, ct.ctReceiveRoot)
    &&& r.status == EXCEPTION_NONE ==> !KernelState::spec_cnode_op_lookup_fails(
        s.ctes,
        cte_at(s.ctes, r.slot).cap,
        ct.ctReceiveIndex,
        ct.ctReceiveDepth,
    )
}

impl KernelState {
    /// The empty slot in which the thread at `thread` asks, through its IPC
    /// buffer, to receive a capability; zero when there is no buffer or no
    /// such slot.
    pub fn getReceiveSlots(&mut self, thread: word_t, buffer: Option<&[word_t]>) -> (ret: word_t)
        requires
            match buffer {
                Some(b) => can_get_receive_slots(old(self)@, thread, b@),
                None => true,
            },
        ensures
            match buffer {
                Some(b) => (final(self)@, ret) == spec_get_receive_slots(old(self)@, thread, b@),
                None => ret == 0 && final(self)@ == old(self)@,
            },
            final(self).sched == old(self).sched,
            final(self)@.tcbs == old(self)@.tcbs,
    {
        let b = match buffer {
            Some(b) => b,
            None => {
                return 0;
            },
        };
        let ct = loadCapTransfer(b);
        let cptr = ct.ctReceiveRoot;
        proof {
            lemma_lookup_outcome(self.ctes@, thread, cptr);
        }
        let luc_ret = self.lookupCap(thread, cptr);
        if luc_ret.status != EXCEPTION_NONE {
            return 0;
        }
        let cnode = luc_ret.cap;
        let lus_ret = self.lookupTargetSlot(cnode, ct.ctReceiveIndex, ct.ctReceiveDepth);
        if lus_ret.status != EXCEPTION_NONE {
            return 0;
        }
        let slot = lus_ret.slot;
        if cap_get_capType(read_cte(&self.ctes, slot).cap) != cap_null_cap {
            return 0;
        }
        slot
    }
}

// ---------------------------------------------------------------------------
// Message registers
// ---------------------------------------------------------------------------

/// The number of message words passed in registers.
pub const n_msgRegisters: u64 = 4;

/// The registers that carry the first message words, in order.
pub open spec fn spec_msg_register(i: u64) -> u64 {
    (11 + i) as u64
}

/// The register that carries message word `i`, for `i < n_msgRegisters`.
pub fn msgRegisters(i: word_t) -> (ret: word_t)
    requires
        i < n_msgRegisters,
    ensures
        ret == spec_msg_register(i),
{
    11 + i
}

/// The TCBs after copying the first `j` message registers of the thread at
/// `sender` to the thread at `receiver`.
pub open spec fn spec_copy_msg_regs(m: Map<u64, tcb_t>, sender: u64, receiver: u64, j: nat) -> Map<
    u64,
    tcb_t,
>
    decreases j,
{
    if j == 0 {
        m
    } else {
        let r = spec_msg_register((j - 1) as u64);
        spec_set_register(
            spec_copy_msg_regs(m, sender, receiver, (j - 1) as nat),
            receiver,
            r,
            spec_get_register(m, sender, r),
        )
    }
}

/// The receive buffer after copying the message words from the register
/// count up to `n` out of the send buffer.
pub open spec fn spec_copy_msg_words(recv: Seq<u64>, send: Seq<u64>, n: int) -> Seq<u64> {
    Seq::new(recv.len(), |k: int| if n_msgRegisters < k <= n { send[k] } else { recv[k] })
}

/// The smaller of two numbers.
pub open spec fn min_u64(a: u64, b: u64) -> u64 {
    if a < b {
        a
    } else {
        b
    }
}

impl KernelState {
    /// Copies the first `n` message words from the thread at `sender` to the
    /// thread at `receiver`: the first ones through the message registers,
    /// the rest from the send buffer into the receive buffer, when both
    /// threads have one. Returns the number of words copied.
    pub fn copyMRs(
        &mut self,
        sender: word_t,
        sendBuf: Option<&[word_t]>,
        receiver: word_t,
        recvBuf: &mut Option<Vec<word_t>>,
        n: word_t,
    ) -> (ret: word_t)
        requires
            old(self).tcbs@.contains_key(sender),
            old(self).tcbs@.contains_key(receiver),
            sendBuf is Some && *old(recvBuf) is Some ==> n < sendBuf.unwrap()@.len() && n < old(
                recvBuf,
            ).unwrap()@.len(),
        ensures
            final(self)@ == (KState {
                tcbs: spec_copy_msg_regs(
                    old(self)@.tcbs,
                    sender,
                    receiver,
                    min_u64(n, n_msgRegisters) as nat,
                ),
                ..old(self)@
            }),
            final(self).sched == old(self).sched,
            *final(recvBuf) is Some == *old(recvBuf) is Some,
            sendBuf is Some && *old(recvBuf) is Some ==> ret == n && final(recvBuf).unwrap()@
                == spec_copy_msg_words(old(recvBuf).unwrap()@, sendBuf.unwrap()@, n as int),
            !(sendBuf is Some && *old(recvBuf) is Some) ==> ret == min_u64(n, n_msgRegisters) && *final(recvBuf) == *old(recvBuf),
    {
        let mut i: u64 = 0;
        while i < n && i < n_msgRegisters
            invariant
                i <= min_u64(n, n_msgRegisters),
                self@ == (KState {
                    tcbs: spec_copy_msg_regs(old(self)@.tcbs, sender, receiver, i as nat),
                    ..old(self)@
                }),
                self.sched == old(self).sched,
                self.tcbs@.contains_key(sender),
                self.tcbs@.contains_key(receiver),
                forall|j: u64|
                    i <= j < n_msgRegisters ==> #[trigger] spec_get_register(
                        self.tcbs@,
                        sender,
                        spec_msg_register(j),
                    ) == spec_get_register(old(self).tcbs@, sender, spec_msg_register(j)),
            decreases n_msgRegisters - i,
        {
            let r = msgRegisters(i);
            let w = self.getRegister(sender, r);
            let ghost before = self.tcbs@;
            self.setRegister(receiver, r, w);
            proof {
                let regs = before[receiver].tcbArch.tcbContext.registers;
                vstd::array::axiom_spec_array_update(regs, r as int, w);
                assert forall|j: u64| i < j < n_msgRegisters implies #[trigger] spec_get_register(
                    self.tcbs@,
                    sender,
                    spec_msg_register(j),
                ) == spec_get_register(before, sender, spec_msg_register(j)) by {
                    assert(spec_msg_register(j) != r);
                }
            }
            i = i + 1;
        }
        if sendBuf.is_none() || recvBuf.is_none() {
            return i;
        }
        let send = sendBuf.unwrap();
        match recvBuf {
            Some(recv) => {
                let ghost recv0 = recv@;
                while i < n
                    invariant
                        n_msgRegisters <= i || i == n,
                        i <= n,
                        n < send@.len(),
                        recv@.len() == recv0.len(),
                        n < recv0.len(),
                        forall|k: int|
                            0 <= k < recv0.len() ==> #[trigger] recv@[k] == if n_msgRegisters < k
                                <= i {
                                send@[k]
                            } else {
                                recv0[k]
                            },
                    decreases n - i,
                {
                    let k = (i + 1) as usize;
                    let w = send[k];
                    recv.set(k, w);
                    i = i + 1;
                }
                proof {
                    assert(recv@ =~= spec_copy_msg_words(recv0, send@, n as int));
                }
            },
            None => {},
        }
        i
    }
}

// ---------------------------------------------------------------------------
// Reply capabilities
// ---------------------------------------------------------------------------

/// The state after `setupCallerCap(sender, receiver, canGrant)`: the sender
/// blocks on the reply, and a reply capability to it (which may grant when
/// `canGrant` says so) is inserted in the receiver's caller slot as a child
/// of the sender's reply slot.
pub open spec fn spec_setup_caller_cap(s: KState, sender: u64, receiver: u64, canGrant: u64) -> KState {
    let s1 = spec_set_thread_state(s, sender, ThreadState_BlockedOnReply);
    KState {
        ctes: spec_cte_insert(
            s1.ctes,
            spec_cap_reply_cap(canGrant, 0, sender),
            spec_tcb_cte_ptr(sender, tcbReply) as u64,
            spec_tcb_cte_ptr(receiver, tcbCaller) as u64,
        ),
        ..s1
    }
}

impl KernelState {
    /// Blocks the thread at `sender` on the reply to its call, and gives the
    /// thread at `receiver` the reply capability to it.
    pub fn setupCallerCap(&mut self, sender: word_t, receiver: word_t, canGrant: u64)
        requires
            old(self).sched.wf(),
            can_set_thread_state(old(self)@, sender),
        ensures
            final(self).sched.wf(),
            final(self)@ == spec_setup_caller_cap(old(self)@, sender, receiver, canGrant),
    {
        self.setThreadState(sender, ThreadState_BlockedOnReply);
        let replySlot = TCB_PTR_CTE_PTR(sender, tcbReply);
        let callerSlot = TCB_PTR_CTE_PTR(receiver, tcbCaller);
        self.cteInsert(cap_reply_cap_new(canGrant, 0, sender), replySlot, callerSlot);
    }
}

// ---------------------------------------------------------------------------
// Capability transfer
// ---------------------------------------------------------------------------

/// What deriving a capability for transfer gave: a status, and the derived
/// capability.
#[derive(Clone, Copy)]
pub struct deriveCap_ret {
    pub status: exception_t,
    pub cap: cap_t,
}

/// The state, receive buffer, message descriptor and count of transferred
/// capabilities after `transferCaps` has dealt with the extra capabilities
/// from `i` on, with `dest` the receiver's empty slot (zero once used or when
/// there is none) and `derived[i]` what deriving extra capability `i` gives.
/// A capability to the endpoint `ep` itself is passed as its badge, written
/// into the receive buffer and marked unwrapped; any other is derived and
/// inserted into `dest`, as a child of its slot. The transfer stops at the
/// first empty reference, and at the first capability that cannot be placed:
/// no slot left, a failed derivation, or a null derived capability.
pub open spec fn spec_transfer_from(
    s: KState,
    info: seL4_MessageInfo_t,
    ep: u64,
    buf: Seq<u64>,
    dest: u64,
    derived: Seq<deriveCap_ret>,
    i: nat,
) -> (KState, Seq<u64>, seL4_MessageInfo_t, u64)
    decreases 3 - i,
{
    if i >= 3 {
        (s, buf, info, 3)
    } else {
        let slot = s.extra_caps[i as int];
        if slot == 0 {
            (s, buf, info, i as u64)
        } else {
            let c = cte_at(s.ctes, slot).cap;
            if spec_cap_type(c) == cap_endpoint_cap && spec_cap_ep_ptr(c) == ep {
                spec_transfer_from(
                    s,
                    spec_mi_set_caps_unwrapped(
                        info,
                        spec_mi_caps_unwrapped(info) | (1u64 << (i as u64)),
                    ),
                    ep,
                    buf.update(extra_cap_index(i as int), spec_cap_ep_badge(c)),
                    dest,
                    derived,
                    i + 1,
                )
            } else {
                let dc = derived[i as int];
                if dest == 0 || dc.status != EXCEPTION_NONE || spec_cap_type(dc.cap) == cap_null_cap {
                    (s, buf, info, i as u64)
                } else {
                    spec_transfer_from(
                        with_ctes(s, spec_cte_insert(s.ctes, dc.cap, slot, dest)),
                        info,
                        ep,
                        buf,
                        0,
                        derived,
                        i + 1,
                    )
                }
            }
        }
    }
}

/// Every insertion that `spec_transfer_from` makes can run.
pub open spec fn can_transfer_from(
    s: KState,
    info: seL4_MessageInfo_t,
    ep: u64,
    buf: Seq<u64>,
    dest: u64,
    derived: Seq<deriveCap_ret>,
    i: nat,
) -> bool
    decreases 3 - i,
{
    if i >= 3 {
        true
    } else {
        let slot = s.extra_caps[i as int];
        if slot == 0 {
            true
        } else {
            let c = cte_at(s.ctes, slot).cap;
            if spec_cap_type(c) == cap_endpoint_cap && spec_cap_ep_ptr(c) == ep {
                can_transfer_from(
                    s,
                    spec_mi_set_caps_unwrapped(
                        info,
                        spec_mi_caps_unwrapped(info) | (1u64 << (i as u64)),
                    ),
                    ep,
                    buf.update(extra_cap_index(i as int), spec_cap_ep_badge(c)),
                    dest,
                    derived,
                    i + 1,
                )
            } else {
                let dc = derived[i as int];
                if dest == 0 || dc.status != EXCEPTION_NONE || spec_cap_type(dc.cap) == cap_null_cap {
                    true
                } else {
                    &&& can_cte_insert(s.ctes, dc.cap, slot)
                    &&& can_transfer_from(
                        with_ctes(s, spec_cte_insert(s.ctes, dc.cap, slot, dest)),
                        info,
                        ep,
                        buf,
                        0,
                        derived,
                        i + 1,
                    )
                }
            }
        }
    }
}

/// The contents of an optional buffer.
pub open spec fn buffer_view(b: Option<Vec<u64>>) -> Option<Seq<u64>> {
    match b {
        Some(v) => Some(v@),
        None => None,
    }
}

/// The contents of an optional buffer, or `d` when there is none.
pub open spec fn buffer_or(b: Option<Vec<u64>>, d: Seq<u64>) -> Seq<u64> {
    match b {
        Some(v) => v@,
        None => d,
    }
}

/// The descriptor with no extra capabilities and none unwrapped.
pub open spec fn spec_mi_clear_caps(info: seL4_MessageInfo_t) -> seL4_MessageInfo_t {
    spec_mi_set_caps_unwrapped(spec_mi_set_extra_caps(info, 0), 0)
}

/// The state, receive buffer and descriptor after `transferCaps(info, ep,
/// receiver, buf, derived)`. When there is no extra capability or no receive
/// buffer, nothing changes and the descriptor only has its capability fields
/// cleared; otherwise the receiver's slot is looked up and the extra
/// capabilities are transferred as `spec_transfer_from` says, the descriptor
/// recording how many were.
pub open spec fn spec_transfer_caps(
    s: KState,
    info: seL4_MessageInfo_t,
    ep: u64,
    receiver: u64,
    buf: Option<Seq<u64>>,
    derived: Seq<deriveCap_ret>,
) -> (KState, Option<Seq<u64>>, seL4_MessageInfo_t) {
    let info0 = spec_mi_clear_caps(info);
    match buf {
        None => (s, None, info0),
        Some(b) => if s.extra_caps[0] == 0 {
            (s, Some(b), info0)
        } else {
            let (s1, dest) = spec_get_receive_slots(s, receiver, b);
            let r = spec_transfer_from(s1, info0, ep, b, dest, derived, 0);
            (r.0, Some(r.1), spec_mi_set_extra_caps(r.2, r.3))
        },
    }
}

/// `transferCaps(info, ep, receiver, buf, derived)` can run: with extra
/// capabilities and a receive buffer, the slot lookup and every insertion
/// can.
pub open spec fn can_transfer_caps(
    s: KState,
    info: seL4_MessageInfo_t,
    ep: u64,
    receiver: u64,
    buf: Option<Seq<u64>>,
    derived: Seq<deriveCap_ret>,
) -> bool {
    &&& s.extra_caps.len() == 3
    &&& match buf {
        None => true,
        Some(b) => s.extra_caps[0] != 0 ==> {
            &&& can_get_receive_slots(s, receiver, b)
            &&& {
                let (s1, dest) = spec_get_receive_slots(s, receiver, b);
                can_transfer_from(s1, spec_mi_clear_caps(info), ep, b, dest, derived, 0)
            }
        },
    }
}

impl KernelState {
    /// Transfers the message's extra capabilities (recorded in
    /// `current_extra_caps`) to the thread at `receiver` over the endpoint at
    /// `endpoint`, and returns the descriptor with the number transferred and
    /// the mask of those unwrapped into badges. `derived[i]` is what deriving
    /// extra capability `i` for transfer gives; the kernel's derivation
    /// routine makes it.
    pub fn transferCaps(
        &mut self,
        info: seL4_MessageInfo_t,
        endpoint: word_t,
        receiver: word_t,
        receiveBuffer: &mut Option<Vec<word_t>>,
        derived: [deriveCap_ret; 3],
    ) -> (ret: seL4_MessageInfo_t)
        requires
            can_transfer_caps(
                old(self)@,
                info,
                endpoint,
                receiver,
                buffer_view(*old(receiveBuffer)),
                derived@,
            ),
        ensures
            (final(self)@, buffer_view(*final(receiveBuffer)), ret) == spec_transfer_caps(
                old(self)@,
                info,
                endpoint,
                receiver,
                buffer_view(*old(receiveBuffer)),
                derived@,
            ),
            final(self).sched == old(self).sched,
            final(self)@.tcbs == old(self)@.tcbs,
    {
        let mut info = seL4_MessageInfo_set_extraCaps(info, 0);
        info = seL4_MessageInfo_set_capsUnwrapped(info, 0);
        if self.current_extra_caps.excaprefs[0] == 0 || receiveBuffer.is_none() {
            return info;
        }
        let mut destSlot = match receiveBuffer {
            Some(b) => self.getReceiveSlots(receiver, Some(b.as_slice())),
            None => 0,
        };
        let ghost b0 = buffer_or(*receiveBuffer, Seq::<u64>::empty());
        let ghost s1 = self@;
        let ghost info0 = info;
        let ghost dest0 = destSlot;
        let mut i: u64 = 0;
        while i < seL4_MsgMaxExtraCaps
            invariant_except_break
                i <= 3,
                self@.extra_caps == s1.extra_caps,
                s1.extra_caps.len() == 3,
                self.sched == old(self).sched,
                self@.tcbs == old(self)@.tcbs,
                *receiveBuffer is Some == *old(receiveBuffer) is Some,
                s1.extra_caps[0] != 0 ==> *receiveBuffer is Some,
                i > 0 ==> s1.extra_caps[0] != 0,
                *receiveBuffer is Some ==> receiveBuffer.unwrap()@.len() >= IPC_BUFFER_WORDS,
                spec_transfer_from(
                    self@,
                    info,
                    endpoint,
                    buffer_or(*receiveBuffer, b0),
                    destSlot,
                    derived@,
                    i as nat,
                ) == spec_transfer_from(s1, info0, endpoint, b0, dest0, derived@, 0),
                can_transfer_from(
                    self@,
                    info,
                    endpoint,
                    buffer_or(*receiveBuffer, b0),
                    destSlot,
                    derived@,
                    i as nat,
                ),
            ensures
                self.sched == old(self).sched,
                self@.tcbs == old(self)@.tcbs,
                *receiveBuffer is Some == *old(receiveBuffer) is Some,
                (self@, buffer_or(*receiveBuffer, b0), info, i) == spec_transfer_from(s1, info0, endpoint, b0, dest0, derived@, 0),
            decreases 3 - i,
        {
            let slot = self.current_extra_caps.excaprefs[i as usize];
            if slot == 0 {
                break;
            }
            let cap = read_cte(&self.ctes, slot).cap;
            if cap_get_capType(cap) == cap_endpoint_cap && cap_endpoint_cap_get_capEPPtr(cap)
                == endpoint {
                match receiveBuffer {
                    Some(b) => setExtraBadge(b, cap_endpoint_cap_get_capEPBadge(cap), i),
                    None => {},
                }
                info =
                seL4_MessageInfo_set_capsUnwrapped(
                    info,
                    seL4_MessageInfo_get_capsUnwrapped(info) | (1u64 << i),
                );
            } else {
                let dc_ret = derived[i as usize];
                if destSlot == 0 {
                    break;
                }
                if dc_ret.status != EXCEPTION_NONE {
                    break;
                }
                if cap_get_capType(dc_ret.cap) == cap_null_cap {
                    break;
                }
                self.cteInsert(dc_ret.cap, slot, destSlot);
                destSlot = 0;
            }
            i = i + 1;
        }
        seL4_MessageInfo_set_extraCaps(info, i)
    }
}

// ---------------------------------------------------------------------------
// Message transfer
// ---------------------------------------------------------------------------

/// The TCBs after the receiver at `receiver` is handed the descriptor `tag`
/// and the badge `badge` in its registers.
pub open spec fn spec_deliver(m: Map<u64, tcb_t>, receiver: u64, tag: seL4_MessageInfo_t, badge: u64) -> Map<
    u64,
    tcb_t,
> {
    spec_set_register(
        spec_set_register(m, receiver, msgInfoRegister, tag.words[0]),
        receiver,
        badgeRegister,
        badge,
    )
}

/// The state after `doFaultTransfer(badge, sender, receiver, sent)`: the
/// receiver gets a descriptor labelled with the type of the sender's fault
/// and of length `sent`, and the badge.
pub open spec fn spec_do_fault_transfer(s: KState, badge: u64, sender: u64, receiver: u64, sent: u64) -> KState {
    let tag = spec_mi_new(spec_fault_type(s.tcbs[sender].tcbFault), 0, 0, sent);
    KState { tcbs: spec_deliver(s.tcbs, receiver, tag, badge), ..s }
}

/// The state after the extra capabilities of a message with descriptor
/// `tag` are looked up for a normal transfer: only when the endpoint lets
/// the sender grant, and with the list emptied when a lookup fails.
pub open spec fn spec_transfer_extra_caps(
    s: KState,
    sender: u64,
    sb: Option<Seq<u64>>,
    canGrant: u64,
    tag: seL4_MessageInfo_t,
) -> KState {
    let cleared = |t: KState| KState { extra_caps: t.extra_caps.update(0, 0), ..t };
    if canGrant != 0 {
        match sb {
            Some(b) => {
                let (t, status) = spec_lookup_extra_caps(s, sender, b, tag);
                if status != EXCEPTION_NONE {
                    cleared(t)
                } else {
                    t
                }
            },
            None => cleared(s),
        }
    } else {
        cleared(s)
    }
}

/// The descriptor that the sender at `sender` put in its register.
pub open spec fn spec_sender_tag(s: KState, sender: u64) -> seL4_MessageInfo_t {
    spec_mi_from_word(spec_get_register(s.tcbs, sender, msgInfoRegister))
}

/// The state after the message words are copied in a normal transfer.
pub open spec fn spec_transfer_words(s: KState, sender: u64, receiver: u64, n: u64) -> KState {
    KState {
        tcbs: spec_copy_msg_regs(s.tcbs, sender, receiver, min_u64(n, n_msgRegisters) as nat),
        ..s
    }
}

/// The receive buffer after the message words are copied in a normal
/// transfer, and the number of words copied.
pub open spec fn spec_transfer_buffer(sb: Option<Seq<u64>>, rb: Option<Seq<u64>>, n: u64) -> (
    Option<Seq<u64>>,
    u64,
) {
    if sb is Some && rb is Some {
        (Some(spec_copy_msg_words(rb.unwrap(), sb.unwrap(), n as int)), n)
    } else {
        (rb, min_u64(n, n_msgRegisters))
    }
}

/// The state and receive buffer after `doNormalTransfer`: the extra
/// capabilities are looked up (`spec_transfer_extra_caps`), the message
/// words copied, the capabilities transferred (`spec_transfer_caps`), and the
/// receiver handed the resulting descriptor, with the number of words
/// copied as its length, and the badge.
pub open spec fn spec_do_normal_transfer(
    s: KState,
    sender: u64,
    sb: Option<Seq<u64>>,
    ep: u64,
    badge: u64,
    canGrant: u64,
    receiver: u64,
    rb: Option<Seq<u64>>,
    derived: Seq<deriveCap_ret>,
) -> (KState, Option<Seq<u64>>) {
    let tag = spec_sender_tag(s, sender);
    let n = spec_mi_length(tag);
    let s1 = spec_transfer_extra_caps(s, sender, sb, canGrant, tag);
    let s2 = spec_transfer_words(s1, sender, receiver, n);
    let (rb1, sent) = spec_transfer_buffer(sb, rb, n);
    let (s3, rb2, tag2) = spec_transfer_caps(s2, tag, ep, receiver, rb1, derived);
    (
        KState { tcbs: spec_deliver(s3.tcbs, receiver, spec_mi_set_length(tag2, sent), badge), ..s3 },
        rb2,
    )
}

/// `doNormalTransfer` can run: both threads exist, the buffers are IPC
/// buffers, and the lookup of the extra capabilities and their transfer can
/// run.
pub open spec fn can_do_normal_transfer(
    s: KState,
    sender: u64,
    sb: Option<Seq<u64>>,
    ep: u64,
    canGrant: u64,
    receiver: u64,
    rb: Option<Seq<u64>>,
    derived: Seq<deriveCap_ret>,
) -> bool {
    let tag = spec_sender_tag(s, sender);
    let n = spec_mi_length(tag);
    let s1 = spec_transfer_extra_caps(s, sender, sb, canGrant, tag);
    let s2 = spec_transfer_words(s1, sender, receiver, n);
    &&& s.tcbs.contains_key(sender)
    &&& s.tcbs.contains_key(receiver)
    &&& sb is Some ==> sb.unwrap().len() >= IPC_BUFFER_WORDS
    &&& rb is Some ==> rb.unwrap().len() >= IPC_BUFFER_WORDS
    &&& canGrant != 0 && sb is Some ==> can_lookup_extra_caps(s, sender, sb.unwrap(), tag)
    &&& can_transfer_caps(s2, tag, ep, receiver, spec_transfer_buffer(sb, rb, n).0, derived)
}

impl KernelState {
    /// Hands the thread at `receiver` the fault message of the thread at
    /// `sender`: `sent` is the number of message words that the kernel's
    /// fault-message routine wrote for it; the receiver gets a descriptor
    /// labelled with the fault's type and the badge.
    pub fn doFaultTransfer(&mut self, badge: word_t, sender: word_t, receiver: word_t, sent: word_t)
        requires
            old(self).tcbs@.contains_key(sender),
            old(self).tcbs@.contains_key(receiver),
        ensures
            final(self)@ == spec_do_fault_transfer(old(self)@, badge, sender, receiver, sent),
            final(self).sched == old(self).sched,
    {
        let fault = read_tcb(&self.tcbs, sender).tcbFault;
        let msgInfo = seL4_MessageInfo_new(seL4_Fault_get_seL4_FaultType(&fault), 0, 0, sent);
        self.setRegister(receiver, msgInfoRegister, wordFromMessageInfo(msgInfo));
        self.setRegister(receiver, badgeRegister, badge);
    }

    /// Transfers the message of the thread at `sender` to the thread at
    /// `receiver` over the endpoint at `endpoint`: its extra capabilities
    /// when `canGrant` allows, its message words, and its capabilities (with
    /// `derived` as in `transferCaps`), and hands the receiver the
    /// descriptor and the badge.
    pub fn doNormalTransfer(
        &mut self,
        sender: word_t,
        sendBuffer: Option<&[word_t]>,
        endpoint: word_t,
        badge: word_t,
        canGrant: u64,
        receiver: word_t,
        receiveBuffer: &mut Option<Vec<word_t>>,
        derived: [deriveCap_ret; 3],
    )
        requires
            can_do_normal_transfer(
                old(self)@,
                sender,
                match sendBuffer {
                    Some(b) => Some(b@),
                    None => None,
                },
                endpoint,
                canGrant,
                receiver,
                buffer_view(*old(receiveBuffer)),
                derived@,
            ),
        ensures
            (final(self)@, buffer_view(*final(receiveBuffer))) == spec_do_normal_transfer(
                old(self)@,
                sender,
                match sendBuffer {
                    Some(b) => Some(b@),
                    None => None,
                },
                endpoint,
                badge,
                canGrant,
                receiver,
                buffer_view(*old(receiveBuffer)),
                derived@,
            ),
            final(self).sched == old(self).sched,
    {
        let ghost sb = match sendBuffer {
            Some(b) => Some(b@),
            None => None,
        };
        let ghost s0 = self@;
        let mut tag = messageInfoFromWord(self.getRegister(sender, msgInfoRegister));
        let ghost tag0 = tag;
        if canGrant != 0 {
            let status = self.lookupExtraCaps(sender, sendBuffer, tag);
            if status != EXCEPTION_NONE {
                self.current_extra_caps.excaprefs[0] = 0;
            }
        } else {
            self.current_extra_caps.excaprefs[0] = 0;
        }
        assert(self@ == spec_transfer_extra_caps(s0, sender, sb, canGrant, tag0));
        let n = seL4_MessageInfo_get_length(tag);
        let msgTransferred = self.copyMRs(sender, sendBuffer, receiver, receiveBuffer, n);
        assert(self@ == spec_transfer_words(
            spec_transfer_extra_caps(s0, sender, sb, canGrant, tag0),
            sender,
            receiver,
            n,
        ));
        tag = self.transferCaps(tag, endpoint, receiver, receiveBuffer, derived);
        tag = seL4_MessageInfo_set_length(tag, msgTransferred);
        self.setRegister(receiver, msgInfoRegister, wordFromMessageInfo(tag));
        self.setRegister(receiver, badgeRegister, badge);
    }
}

/// The state and receive buffer after `doIPCTransfer`: a sender with no
/// fault sends its message (`spec_do_normal_transfer`); otherwise the
/// receiver is handed the fault (`spec_do_fault_transfer`).
pub open spec fn spec_do_ipc_transfer(
    s: KState,
    sender: u64,
    sb: Option<Seq<u64>>,
    ep: u64,
    badge: u64,
    grant: u64,
    receiver: u64,
    rb: Option<Seq<u64>>,
    derived: Seq<deriveCap_ret>,
    faultSent: u64,
) -> (KState, Option<Seq<u64>>) {
    if spec_fault_type(s.tcbs[sender].tcbFault) == seL4_Fault_NullFault {
        spec_do_normal_transfer(s, sender, sb, ep, badge, grant, receiver, rb, derived)
    } else {
        (spec_do_fault_transfer(s, badge, sender, receiver, faultSent), rb)
    }
}

/// `doIPCTransfer` can run.
pub open spec fn can_do_ipc_transfer(
    s: KState,
    sender: u64,
    sb: Option<Seq<u64>>,
    ep: u64,
    grant: u64,
    receiver: u64,
    rb: Option<Seq<u64>>,
    derived: Seq<deriveCap_ret>,
) -> bool {
    &&& s.tcbs.contains_key(sender)
    &&& s.tcbs.contains_key(receiver)
    &&& spec_fault_type(s.tcbs[sender].tcbFault) == seL4_Fault_NullFault ==> can_do_normal_transfer(
        s,
        sender,
        sb,
        ep,
        grant,
        receiver,
        rb,
        derived,
    )
}

/// The state and receive buffer after `doReplyTransfer(sender, receiver,
/// slot, ..)`. A receiver with no fault gets the reply as a message (over no
/// endpoint, with no badge, and with grant), the reply capability in `slot`
/// is deleted, and the receiver runs again and may be switched to. A
/// receiver with a fault has the reply capability deleted and its fault
/// cleared, and is restarted (and may be switched to) when `restart`, the
/// kernel's verdict on the fault reply, says so, and is left inactive
/// otherwise.
pub open spec fn spec_do_reply_transfer(
    s: KState,
    sender: u64,
    receiver: u64,
    slot: u64,
    sb: Option<Seq<u64>>,
    rb: Option<Seq<u64>>,
    derived: Seq<deriveCap_ret>,
    faultSent: u64,
    restart: u64,
) -> (KState, Option<Seq<u64>>) {
    if spec_fault_type(s.tcbs[receiver].tcbFault) == seL4_Fault_NullFault {
        let (s1, rb1) = spec_do_ipc_transfer(s, sender, sb, 0, 0, 1, receiver, rb, derived, faultSent);
        let s2 = with_ctes(s1, spec_empty_slot(s1.ctes, slot));
        let s3 = spec_set_thread_state(s2, receiver, ThreadState_Running);
        (spec_possible_switch_to(s3, receiver), rb1)
    } else {
        let s1 = with_ctes(s, spec_empty_slot(s.ctes, slot));
        let s2 = KState {
            tcbs: s1.tcbs.insert(receiver, tcb_t { tcbFault: spec_null_fault(), ..s1.tcbs[receiver] }),
            ..s1
        };
        if restart != 0 {
            (spec_possible_switch_to(spec_set_thread_state(s2, receiver, ThreadState_Restart), receiver), rb)
        } else {
            (spec_set_thread_state(s2, receiver, ThreadState_Inactive), rb)
        }
    }
}

/// `doReplyTransfer` can run: the transfer can, the slot holds a capability
/// that needs no finalisation when it is deleted, and the receiver can be
/// switched to.
pub open spec fn can_do_reply_transfer(
    s: KState,
    sender: u64,
    receiver: u64,
    slot: u64,
    sb: Option<Seq<u64>>,
    rb: Option<Seq<u64>>,
    derived: Seq<deriveCap_ret>,
    faultSent: u64,
    restart: u64,
) -> bool {
    &&& s.tcbs.contains_key(receiver)
    &&& if spec_fault_type(s.tcbs[receiver].tcbFault) == seL4_Fault_NullFault {
        let (s1, rb1) = spec_do_ipc_transfer(s, sender, sb, 0, 0, 1, receiver, rb, derived, faultSent);
        let s2 = with_ctes(s1, spec_empty_slot(s1.ctes, slot));
        &&& can_do_ipc_transfer(s, sender, sb, 0, 1, receiver, rb, derived)
        &&& delete_one_needs_no_finalise(s1.ctes, slot)
        &&& can_possible_switch_to(spec_set_thread_state(s2, receiver, ThreadState_Running), receiver)
    } else {
        let s1 = with_ctes(s, spec_empty_slot(s.ctes, slot));
        let s2 = KState {
            tcbs: s1.tcbs.insert(receiver, tcb_t { tcbFault: spec_null_fault(), ..s1.tcbs[receiver] }),
            ..s1
        };
        &&& delete_one_needs_no_finalise(s.ctes, slot)
        &&& restart != 0 ==> can_possible_switch_to(
            spec_set_thread_state(s2, receiver, ThreadState_Restart),
            receiver,
        )
    }
}

impl KernelState {
    /// Transfers a message from the thread at `sender` to the thread at
    /// `receiver`: the normal message when the sender has no fault, the
    /// fault message otherwise. The buffers and `derived` are as for
    /// `doNormalTransfer`, and `faultSent` as for `doFaultTransfer`.
    pub fn doIPCTransfer(
        &mut self,
        sender: word_t,
        sendBuffer: Option<&[word_t]>,
        endpoint: word_t,
        badge: word_t,
        grant: u64,
        receiver: word_t,
        receiveBuffer: &mut Option<Vec<word_t>>,
        derived: [deriveCap_ret; 3],
        faultSent: word_t,
    )
        requires
            can_do_ipc_transfer(
                old(self)@,
                sender,
                match sendBuffer {
                    Some(b) => Some(b@),
                    None => None,
                },
                endpoint,
                grant,
                receiver,
                buffer_view(*old(receiveBuffer)),
                derived@,
            ),
        ensures
            (final(self)@, buffer_view(*final(receiveBuffer))) == spec_do_ipc_transfer(
                old(self)@,
                sender,
                match sendBuffer {
                    Some(b) => Some(b@),
                    None => None,
                },
                endpoint,
                badge,
                grant,
                receiver,
                buffer_view(*old(receiveBuffer)),
                derived@,
                faultSent,
            ),
            final(self).sched == old(self).sched,
    {
        let fault = read_tcb(&self.tcbs, sender).tcbFault;
        if seL4_Fault_get_seL4_FaultType(&fault) == seL4_Fault_NullFault {
            self.doNormalTransfer(
                sender,
                sendBuffer,
                endpoint,
                badge,
                grant,
                receiver,
                receiveBuffer,
                derived,
            );
        } else {
            self.doFaultTransfer(badge, sender, receiver, faultSent);
        }
    }

    /// Delivers the reply of the thread at `sender` to the thread at
    /// `receiver`, which waited on it with the reply capability in `slot`.
    /// The buffers, `derived` and `faultSent` are as for `doIPCTransfer`;
    /// `restart` is the kernel's verdict on a reply to a fault (whether the
    /// faulting thread is to be restarted).
    pub fn doReplyTransfer(
        &mut self,
        sender: word_t,
        receiver: word_t,
        slot: word_t,
        sendBuffer: Option<&[word_t]>,
        receiveBuffer: &mut Option<Vec<word_t>>,
        derived: [deriveCap_ret; 3],
        faultSent: word_t,
        restart: u64,
    )
        requires
            old(self).sched.wf(),
            can_do_reply_transfer(
                old(self)@,
                sender,
                receiver,
                slot,
                match sendBuffer {
                    Some(b) => Some(b@),
                    None => None,
                },
                buffer_view(*old(receiveBuffer)),
                derived@,
                faultSent,
                restart,
            ),
        ensures
            final(self).sched.wf(),
            (final(self)@, buffer_view(*final(receiveBuffer))) == spec_do_reply_transfer(
                old(self)@,
                sender,
                receiver,
                slot,
                match sendBuffer {
                    Some(b) => Some(b@),
                    None => None,
                },
                buffer_view(*old(receiveBuffer)),
                derived@,
                faultSent,
                restart,
            ),
    {
        let fault = read_tcb(&self.tcbs, receiver).tcbFault;
        if seL4_Fault_get_seL4_FaultType(&fault) == seL4_Fault_NullFault {
            self.doIPCTransfer(
                sender,
                sendBuffer,
                0,
                0,
                1,
                receiver,
                receiveBuffer,
                derived,
                faultSent,
            );
            self.cteDeleteOne(slot, DeleteOneEvent::Start);
            self.setThreadState(receiver, ThreadState_Running);
            self.possibleSwitchTo(receiver);
        } else {
            self.cteDeleteOne(slot, DeleteOneEvent::Start);
            let mut t = read_tcb(&self.tcbs, receiver);
            t.tcbFault = seL4_Fault_NullFault_new();
            self.tcbs.insert(receiver, t);
            if restart != 0 {
                self.setThreadState(receiver, ThreadState_Restart);
                self.possibleSwitchTo(receiver);
            } else {
                self.setThreadState(receiver, ThreadState_Inactive);
            }
        }
    }
}

} // verus!
