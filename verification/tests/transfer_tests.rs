use sel4_rust::object::{
    arch_tcb, cap, cap_t, cte, lookup_fault, mdb_node, mdb_node_get_mdbNext, mdb_node_get_mdbPrev,
    seL4_Fault, seL4_MessageInfo_new, tcb, tcb_t, thread_state, thread_state_ptr_get_tsType,
};
use sel4_rust::state::{dschedule, KernelState, SchedState};
use sel4_rust::transfer::{
    capTransferFromWords, deriveCap_ret, getExtraCPtr, loadCapTransfer, msgRegisters,
    setExtraBadge,
};
use sel4_rust::types::user_context;

const IDLE: u64 = 0x9_0000;
const T: u64 = 0x1_0000;
const R: u64 = 0x1_0400;
const ROOT_NODE: u64 = 0x2_0000;
const LEAF_NODE: u64 = 0x3_0000;

fn thread(state: u64) -> tcb_t {
    tcb {
        tcbArch: arch_tcb { tcbContext: user_context { registers: [0; 35] } },
        tcbState: thread_state { words: [state, 0, 0] },
        tcbBoundNotification: 0,
        tcbFault: seL4_Fault { words: [0, 0] },
        tcbLookupFailure: lookup_fault { words: [0, 0] },
        tcbDomain: 0,
        tcbMCP: 255,
        tcbPriority: 10,
        tcbTimeSlice: 5,
        tcbFaultHandler: 0,
        tcbIPCBuffer: 0,
        tcbSchedNext: 0,
        tcbSchedPrev: 0,
        tcbEPNext: 0,
        tcbEPPrev: 0,
    }
}

fn cnode_cap(ptr: u64, guard_size: u64, guard: u64, radix: u64) -> cap_t {
    cap { words: [(10u64 << 59) | (guard_size << 53) | (radix << 47) | (ptr >> 1), guard] }
}

fn put(ks: &mut KernelState, at: u64, c: cap_t) {
    ks.ctes.insert(at, cte { cap: c, cteMDBNode: mdb_node { words: [0, 0] } });
}

/// Thread `T` with a one-level capability space: 56 guard bits and an 8-bit
/// index into the CNode at `ROOT_NODE`, whose slot 7 holds a CNode capability
/// to `LEAF_NODE`.
fn state() -> KernelState {
    let mut ks = KernelState::new(SchedState::new(IDLE, vec![dschedule { domain: 0, length: 10 }]));
    ks.tcbs.insert(IDLE, thread(7));
    ks.tcbs.insert(T, thread(1));
    ks.tcbs.insert(R, thread(1));
    put(&mut ks, T, cnode_cap(ROOT_NODE, 56, 0, 8));
    put(&mut ks, ROOT_NODE + 7 * 32, cnode_cap(LEAF_NODE, 0, 0, 8));
    ks
}

#[test]
fn extra_capability_words() {
    let mut buf = vec![0u64; 128];
    buf[123] = 0x55;
    assert_eq!(getExtraCPtr(&buf, 1), 0x55);
    setExtraBadge(&mut buf, 9, 2);
    assert_eq!(buf[124], 9);
    assert_eq!(buf[123], 0x55);
}

#[test]
fn no_buffer_means_no_extra_caps() {
    let mut ks = state();
    ks.current_extra_caps.excaprefs = [1, 2, 3];
    assert_eq!(ks.lookupExtraCaps(T, None, seL4_MessageInfo_new(0, 0, 2, 0)), 0);
    assert_eq!(ks.current_extra_caps.excaprefs, [0, 2, 3]);
}

#[test]
fn extra_caps_are_looked_up_in_order() {
    let mut ks = state();
    ks.current_extra_caps.excaprefs = [1, 2, 3];
    let mut buf = vec![0u64; 128];
    buf[122] = 5;
    buf[123] = 6;
    assert_eq!(ks.lookupExtraCaps(T, Some(&buf), seL4_MessageInfo_new(0, 0, 2, 0)), 0);
    assert_eq!(ks.current_extra_caps.excaprefs, [ROOT_NODE + 5 * 32, ROOT_NODE + 6 * 32, 0]);
    assert_eq!(ks.lookupExtraCaps(T, Some(&buf), seL4_MessageInfo_new(0, 0, 0, 0)), 0);
    assert_eq!(ks.current_extra_caps.excaprefs[0], 0);
}

#[test]
fn a_failed_extra_cap_lookup_raises_a_cap_fault() {
    let mut ks = state();
    ks.current_extra_caps.excaprefs = [1, 2, 3];
    let mut buf = vec![0u64; 128];
    buf[122] = 5;
    buf[123] = 0x105;
    assert_eq!(ks.lookupExtraCaps(T, Some(&buf), seL4_MessageInfo_new(0, 0, 3, 0)), 2);
    assert_eq!(ks.current_fault.words, [1, 0x105]);
    assert_eq!(ks.current_lookup_fault.words, [(64 << 9) | (56 << 2) | 3, 0]);
    assert_eq!(ks.current_extra_caps.excaprefs, [ROOT_NODE + 5 * 32, 2, 3]);
}

#[test]
fn capability_transfer_request() {
    let ct = capTransferFromWords(&[7, 3, 8]);
    assert_eq!((ct.ctReceiveRoot, ct.ctReceiveIndex, ct.ctReceiveDepth), (7, 3, 8));
    let mut buf = vec![0u64; 128];
    buf[125] = 11;
    buf[126] = 12;
    buf[127] = 13;
    let ct = loadCapTransfer(&buf);
    assert_eq!((ct.ctReceiveRoot, ct.ctReceiveIndex, ct.ctReceiveDepth), (11, 12, 13));
}

#[test]
fn receive_slot_is_an_empty_slot_of_the_named_cnode() {
    let mut ks = state();
    let mut buf = vec![0u64; 128];
    buf[125] = 7;
    buf[126] = 3;
    buf[127] = 8;
    assert_eq!(ks.getReceiveSlots(T, Some(&buf)), LEAF_NODE + 3 * 32);
    assert_eq!(ks.getReceiveSlots(T, None), 0);
    put(&mut ks, LEAF_NODE + 3 * 32, cap { words: [4u64 << 59, 0] });
    assert_eq!(ks.getReceiveSlots(T, Some(&buf)), 0);
}

#[test]
fn receive_slot_lookup_failures() {
    let mut ks = state();
    let mut buf = vec![0u64; 128];
    buf[125] = 0x105;
    assert_eq!(ks.getReceiveSlots(T, Some(&buf)), 0);
    assert_eq!(ks.current_lookup_fault.words, [(64 << 9) | (56 << 2) | 3, 0]);
    // The root names no CNode: the target lookup fails on an invalid root.
    buf[125] = 9;
    buf[126] = 3;
    buf[127] = 8;
    assert_eq!(ks.getReceiveSlots(T, Some(&buf)), 0);
    assert_eq!(ks.current_syscall_error.error_type, 6);
    assert_eq!(ks.current_syscall_error.failedLookupWasSource, 0);
    assert_eq!(ks.current_lookup_fault.words, [0, 0]);
}

#[test]
fn message_registers_then_buffer_words() {
    let mut ks = state();
    for i in 0..4 {
        ks.setRegister(T, msgRegisters(i), 100 + i);
    }
    let mut send = vec![0u64; 128];
    for (k, w) in send.iter_mut().enumerate() {
        *w = 1000 + k as u64;
    }
    let mut recv = Some(vec![0u64; 128]);
    assert_eq!(ks.copyMRs(T, Some(&send), R, &mut recv, 6), 6);
    for i in 0..4 {
        assert_eq!(ks.getRegister(R, 11 + i), 100 + i);
    }
    let recv = recv.unwrap();
    assert_eq!(recv[5], 1005);
    assert_eq!(recv[6], 1006);
    assert_eq!(recv[4], 0);
    assert_eq!(recv[7], 0);
}

#[test]
fn without_both_buffers_only_registers_are_copied() {
    let mut ks = state();
    ks.setRegister(T, 11, 5);
    ks.setRegister(T, 12, 6);
    let mut recv: Option<Vec<u64>> = None;
    assert_eq!(ks.copyMRs(T, None, R, &mut recv, 9), 4);
    assert_eq!(ks.getRegister(R, 11), 5);
    let mut recv = Some(vec![0u64; 128]);
    assert_eq!(ks.copyMRs(T, None, R, &mut recv, 2), 2);
    assert_eq!(recv.unwrap(), vec![0u64; 128]);
    assert_eq!(msgRegisters(3), 14);
}

#[test]
fn caller_capability_links_to_the_reply_slot() {
    let mut ks = state();
    ks.setupCallerCap(T, R, 1);
    assert_eq!(thread_state_ptr_get_tsType(&ks.tcbs[&T].tcbState), 5);
    let caller_slot = R + 3 * 32;
    let reply_slot = T + 2 * 32;
    assert_eq!(ks.ctes[&caller_slot].cap.words, [(8u64 << 59) | 2, T]);
    assert_eq!(mdb_node_get_mdbPrev(ks.ctes[&caller_slot].cteMDBNode), reply_slot);
    assert_eq!(mdb_node_get_mdbNext(ks.ctes[&reply_slot].cteMDBNode), caller_slot);
}

#[test]
fn syscall_arguments() {
    let mut ks = state();
    ks.sched.ksCurThread = T;
    ks.setRegister(T, 11, 0xaa);
    let mut buf = vec![0u64; 128];
    buf[6] = 0xbb;
    assert_eq!(ks.getSyscallArg(0, None), 0xaa);
    assert_eq!(ks.getSyscallArg(5, Some(&buf)), 0xbb);
}

#[test]
fn set_tls_base() {
    let mut ks = state();
    ks.sched.ksCurThread = T;
    let thread_cap = cap { words: [(12u64 << 59) | R, 0] };
    assert_eq!(ks.decodeSetTLSBase(thread_cap, 0, None), 3);
    assert_eq!(ks.current_syscall_error.error_type, 7);
    ks.setRegister(T, 11, 0x7000_0000);
    assert_eq!(ks.decodeSetTLSBase(thread_cap, 1, None), 0);
    assert_eq!(ks.getRegister(R, 3), 0x7000_0000);
    assert_eq!(thread_state_ptr_get_tsType(&ks.tcbs[&T].tcbState), 2);
    assert_eq!(ks.sched.ksSchedulerAction, 0);
    assert_eq!(ks.invokeSetTLSBase(T, 0x10), 0);
    assert_eq!(ks.getRegister(T, 3), 0x10);
    assert_eq!(ks.sched.ksSchedulerAction, 1);
}

#[test]
fn copy_registers_request() {
    let mut ks = state();
    ks.sched.ksCurThread = T;
    let dest_cap = cap { words: [(12u64 << 59) | R, 0] };
    // No argument: truncated.
    assert_eq!(ks.decodeCopyRegisters(dest_cap, 0, None), Err(3));
    assert_eq!(ks.current_syscall_error.error_type, 7);
    // No extra capability: truncated.
    ks.current_syscall_error.error_type = 0;
    assert_eq!(ks.decodeCopyRegisters(dest_cap, 1, None), Err(3));
    assert_eq!(ks.current_syscall_error.error_type, 7);
    // An extra capability that names no thread: an invalid capability.
    ks.current_syscall_error.error_type = 0;
    let slot = 0x5_0000;
    put(&mut ks, slot, cnode_cap(ROOT_NODE, 0, 0, 8));
    ks.current_extra_caps.excaprefs[0] = slot;
    assert_eq!(ks.decodeCopyRegisters(dest_cap, 1, None), Err(3));
    assert_eq!(ks.current_syscall_error.error_type, 2);
    assert_eq!(ks.current_syscall_error.invalidCapNumber, 1);
    assert_eq!(thread_state_ptr_get_tsType(&ks.tcbs[&T].tcbState), 1);
    // A thread capability: the flag bits of the first argument are handed on.
    put(&mut ks, slot, cap { words: [(12u64 << 59) | T, 0] });
    ks.setRegister(T, 11, 0b1010 | (3 << 8));
    let req = ks.decodeCopyRegisters(dest_cap, 1, None).unwrap();
    assert_eq!(req.dest, R);
    assert_eq!(req.src, T);
    assert_eq!(req.suspendSource, 0);
    assert_eq!(req.resumeTarget, 2);
    assert_eq!(req.transferFrame, 0);
    assert_eq!(req.transferInteger, 8);
    assert_eq!(req.transferArch, 0);
    assert_eq!(thread_state_ptr_get_tsType(&ks.tcbs[&T].tcbState), 2);
}

const EP: u64 = 0x4000;

fn ep_cap(ptr: u64, badge: u64) -> cap_t {
    cap { words: [(4u64 << 59) | ptr, badge] }
}

fn derived(status: u64, c: cap_t) -> deriveCap_ret {
    deriveCap_ret { status, cap: c }
}

/// A receive buffer that asks for slot 3 of the CNode at `LEAF_NODE`.
fn receive_buffer() -> Option<Vec<u64>> {
    let mut buf = vec![0u64; 128];
    buf[125] = 7;
    buf[126] = 3;
    buf[127] = 8;
    Some(buf)
}

#[test]
fn endpoint_capability_is_passed_as_its_badge_and_others_are_inserted() {
    let mut ks = state();
    let (a, b) = (0x6_0000, 0x6_0020);
    put(&mut ks, a, ep_cap(EP, 0x77));
    let other = cap { words: [(6u64 << 59) | 0x8000, 5] };
    put(&mut ks, b, other);
    ks.current_extra_caps.excaprefs = [a, b, 0];
    let mut buf = receive_buffer();
    let none = derived(0, cap { words: [0, 0] });
    let info = seL4_MessageInfo_new(9, 0, 2, 4);
    let out = ks.transferCaps(info, EP, T, &mut buf, [none, derived(0, other), none]);
    assert_eq!(out.words[0], seL4_MessageInfo_new(9, 1, 2, 4).words[0]);
    assert_eq!(buf.as_ref().unwrap()[122], 0x77);
    let dest = LEAF_NODE + 3 * 32;
    assert_eq!(ks.ctes[&dest].cap.words, other.words);
    assert_eq!(mdb_node_get_mdbPrev(ks.ctes[&dest].cteMDBNode), b);
    assert_eq!(mdb_node_get_mdbNext(ks.ctes[&b].cteMDBNode), dest);
}

#[test]
fn capability_transfer_stops_at_the_first_that_cannot_be_placed() {
    let mut ks = state();
    let (a, b, c) = (0x6_0000, 0x6_0020, 0x6_0040);
    let x = cap { words: [(6u64 << 59) | 0x8000, 1] };
    put(&mut ks, a, x);
    put(&mut ks, b, x);
    put(&mut ks, c, ep_cap(EP, 3));
    ks.current_extra_caps.excaprefs = [a, b, c];
    // The first is inserted; the second finds no slot left.
    let mut buf = receive_buffer();
    let ok = derived(0, x);
    let out = ks.transferCaps(seL4_MessageInfo_new(0, 7, 3, 0), EP, T, &mut buf, [ok, ok, ok]);
    assert_eq!(out.words[0], seL4_MessageInfo_new(0, 0, 1, 0).words[0]);
    assert_eq!(buf.as_ref().unwrap()[124], 0);
    // A failed derivation stops the transfer before anything is inserted.
    let mut ks = state();
    put(&mut ks, a, x);
    ks.current_extra_caps.excaprefs = [a, 0, 0];
    let mut buf = receive_buffer();
    let out = ks.transferCaps(seL4_MessageInfo_new(0, 0, 1, 0), EP, T, &mut buf, [derived(3, x), ok, ok]);
    assert_eq!(out.words[0], 0);
    assert!(!ks.ctes.contains_key(&(LEAF_NODE + 3 * 32)));
    // So does a null derived capability.
    let out = ks.transferCaps(seL4_MessageInfo_new(0, 0, 1, 0), EP, T, &mut buf, [derived(0, cap { words: [0, 0] }), ok, ok]);
    assert_eq!(out.words[0], 0);
}

#[test]
fn without_a_receive_buffer_no_capability_is_transferred() {
    let mut ks = state();
    put(&mut ks, 0x6_0000, ep_cap(EP, 1));
    ks.current_extra_caps.excaprefs = [0x6_0000, 0, 0];
    let mut buf: Option<Vec<u64>> = None;
    let none = derived(0, cap { words: [0, 0] });
    let out = ks.transferCaps(seL4_MessageInfo_new(2, 5, 1, 3), EP, T, &mut buf, [none; 3]);
    assert_eq!(out.words[0], seL4_MessageInfo_new(2, 0, 0, 3).words[0]);
}

#[test]
fn without_extra_capabilities_nothing_is_looked_up() {
    let mut ks = state();
    ks.current_extra_caps.excaprefs = [0, 0, 0];
    // A receive buffer whose request would fail to look up.
    let mut buf = vec![0u64; 128];
    buf[125] = 0x105;
    let mut buf = Some(buf);
    let before = ks.current_lookup_fault.words;
    let none = derived(0, cap { words: [0, 0] });
    let out = ks.transferCaps(seL4_MessageInfo_new(2, 5, 1, 3), EP, T, &mut buf, [none; 3]);
    assert_eq!(out.words[0], seL4_MessageInfo_new(2, 0, 0, 3).words[0]);
    assert_eq!(ks.current_lookup_fault.words, before);
    assert_eq!(ks.current_syscall_error.error_type, 0);
}
