use sel4_rust::fastpath::{fastpath_mi_check, isValidVTableRoot_fp, lookup_fp, FastpathOutcome};
use sel4_rust::object::{
    arch_tcb, cap, cap_t, cte, endpoint, endpoint_ptr_get_epQueue_head,
    endpoint_ptr_get_epQueue_tail, endpoint_ptr_get_state, endpoint_ptr_set_epQueue_head,
    endpoint_ptr_set_epQueue_tail, endpoint_ptr_set_state, lookup_fault, mdb_node,
    mdb_node_new, notification, seL4_Fault, syscall, tcb, tcb_t, thread_state,
    thread_state_ptr_get_blockingIPCCanGrant, thread_state_ptr_get_blockingObject,
    thread_state_ptr_get_tsType, mdb_node_get_mdbNext, mdb_node_get_mdbPrev,
};
use sel4_rust::state::{dschedule, KernelState, SchedState};
use sel4_rust::types::user_context;

const IDLE: u64 = 0x9_0000;
const A: u64 = 0x1_0000;
const B: u64 = 0x1_0400;
const C: u64 = 0x1_0800;
const ROOT_NODE: u64 = 0x2_0000;
const LEAF_NODE: u64 = 0x3_0000;
const E: u64 = 0x6000;

fn thread(state: u64, prio: u64) -> tcb_t {
    tcb {
        tcbArch: arch_tcb { tcbContext: user_context { registers: [0; 35] } },
        tcbState: thread_state { words: [state, 0, 0] },
        tcbBoundNotification: 0,
        tcbFault: seL4_Fault { words: [0, 0] },
        tcbLookupFailure: lookup_fault { words: [0, 0] },
        tcbDomain: 0,
        tcbMCP: 255,
        tcbPriority: prio,
        tcbTimeSlice: 5,
        tcbFaultHandler: 0,
        tcbIPCBuffer: 0,
        tcbSchedNext: 0,
        tcbSchedPrev: 0,
        tcbEPNext: 0,
        tcbEPPrev: 0,
    }
}

fn cnode_cap(ptr: u64, guard_size: u64, guard: u64, radix: u64) -> cap_t {
    cap { words: [(10u64 << 59) | (guard_size << 53) | (radix << 47) | (ptr >> 1), guard] }
}

/// An endpoint capability with the given rights bits set in its first word.
fn endpoint_cap(ptr: u64, rights: u64, badge: u64) -> cap_t {
    cap { words: [(4u64 << 59) | rights | ptr, badge] }
}

const CAN_SEND: u64 = 1 << 55;
const CAN_RECEIVE: u64 = 1 << 56;
const CAN_GRANT: u64 = 1 << 57;

fn vtable_cap(base: u64, asid: u64) -> cap_t {
    cap { words: [(9u64 << 59) | (1 << 58) | asid, base] }
}

fn put(ks: &mut KernelState, at: u64, c: cap_t) {
    ks.ctes.insert(at, cte { cap: c, cteMDBNode: mdb_node { words: [0, 0] } });
}

fn ts_type(ks: &KernelState, t: u64) -> u64 {
    thread_state_ptr_get_tsType(&ks.tcbs[&t].tcbState)
}

fn base_state() -> KernelState {
    let mut ks = KernelState::new(SchedState::new(IDLE, vec![dschedule { domain: 0, length: 10 }]));
    ks.tcbs.insert(IDLE, thread(7, 0));
    let mut a = thread(1, 10);
    a.tcbArch.tcbContext.registers[11] = 100;
    a.tcbArch.tcbContext.registers[12] = 200;
    ks.tcbs.insert(A, a);
    ks.sched.ksCurThread = A;
    put(&mut ks, A, cnode_cap(ROOT_NODE, 56, 0, 8));
    ks
}

/// `A` runs and can call the endpoint `E` through capability 5, on which `B`
/// waits to receive.
fn call_state() -> KernelState {
    let mut ks = base_state();
    put(&mut ks, ROOT_NODE + 5 * 32, endpoint_cap(E, CAN_SEND | CAN_GRANT, 0x33));
    let mut b = thread(3, 20);
    b.tcbState.words[0] |= E;
    b.tcbState.words[1] = 1 << 3;
    ks.tcbs.insert(B, b);
    put(&mut ks, B + 32, vtable_cap(0xa000, 0x2a));
    let mut e = endpoint { words: [0, 0] };
    endpoint_ptr_set_epQueue_head(&mut e, B);
    endpoint_ptr_set_epQueue_tail(&mut e, B);
    endpoint_ptr_set_state(&mut e, 2);
    ks.eps.insert(E, e);
    ks
}

/// `A` runs, was called by `C` (its caller slot holds a reply capability to
/// `C`), and can receive on the idle endpoint `E` through capability 5.
fn reply_state() -> KernelState {
    let mut ks = base_state();
    put(&mut ks, ROOT_NODE + 5 * 32, endpoint_cap(E, CAN_RECEIVE | CAN_GRANT, 0));
    ks.eps.insert(E, endpoint { words: [0, 0] });
    ks.tcbs.insert(C, thread(5, 10));
    put(&mut ks, C + 32, vtable_cap(0xb000, 7));
    ks.ctes.insert(
        A + 3 * 32,
        cte { cap: cap { words: [8u64 << 59, C] }, cteMDBNode: mdb_node_new(0, 0, 0, C + 2 * 32) },
    );
    ks.ctes.insert(
        C + 2 * 32,
        cte { cap: cap { words: [(8u64 << 59) | 3, C] }, cteMDBNode: mdb_node_new(A + 3 * 32, 1, 1, 0) },
    );
    ks
}

#[test]
fn fast_lookup() {
    let ks = call_state();
    let root = cnode_cap(ROOT_NODE, 56, 0, 8);
    assert_eq!(lookup_fp(&ks.ctes, root, 5).words, endpoint_cap(E, CAN_SEND | CAN_GRANT, 0x33).words);
    assert_eq!(lookup_fp(&ks.ctes, root, 0x105).words, [0, 0]);
    assert_eq!(lookup_fp(&ks.ctes, cap { words: [0, 0] }, 5).words, [0, 0]);
    let mut ks = base_state();
    let root = cnode_cap(ROOT_NODE, 48, 0, 8);
    put(&mut ks, ROOT_NODE + 3 * 32, cnode_cap(LEAF_NODE, 0, 0, 8));
    put(&mut ks, LEAF_NODE + 7 * 32, endpoint_cap(E, CAN_SEND, 1));
    assert_eq!(lookup_fp(&ks.ctes, root, (3 << 8) | 7).words, endpoint_cap(E, CAN_SEND, 1).words);
}

#[test]
fn message_checks() {
    assert!(!fastpath_mi_check(4));
    assert!(fastpath_mi_check(5));
    assert!(fastpath_mi_check(1 << 7));
    assert!(!fastpath_mi_check((3 << 12) | (7 << 9) | 2));
    assert!(isValidVTableRoot_fp(vtable_cap(0xa000, 1)));
    assert!(!isValidVTableRoot_fp(cap { words: [9u64 << 59, 0xa000] }));
}

#[test]
fn fast_call_switches_to_the_receiver() {
    let mut ks = call_state();
    let msg_info = (5u64 << 12) | (1 << 9) | 2;
    match ks.fastpath_call(5, msg_info) {
        FastpathOutcome::Restore { badge, msgInfo, vspaceRoot, hwASID } => {
            assert_eq!(badge, 0x33);
            assert_eq!(msgInfo, (5u64 << 12) | 2);
            assert_eq!(vspaceRoot, 0xa000);
            assert_eq!(hwASID, 0x2a);
        }
        FastpathOutcome::Slowpath(_) => panic!("expected the fast path"),
    }
    assert_eq!(ks.sched.ksCurThread, B);
    assert_eq!(ts_type(&ks, A), 5);
    assert_eq!(ts_type(&ks, B), 1);
    assert_eq!(endpoint_ptr_get_epQueue_head(&ks.eps[&E]), 0);
    assert_eq!(endpoint_ptr_get_epQueue_tail(&ks.eps[&E]), 0);
    assert_eq!(endpoint_ptr_get_state(&ks.eps[&E]), 0);
    assert_eq!(ks.getRegister(B, 11), 100);
    assert_eq!(ks.getRegister(B, 12), 200);
    let caller_slot = B + 3 * 32;
    let reply_slot = A + 2 * 32;
    assert_eq!(ks.ctes[&caller_slot].cap.words, [(8u64 << 59) | 2, A]);
    assert_eq!(mdb_node_get_mdbPrev(ks.ctes[&caller_slot].cteMDBNode), reply_slot);
    assert_eq!(ks.ctes[&reply_slot].cteMDBNode.words[1], caller_slot | 3);
}

#[test]
fn fast_call_falls_back_to_the_slow_path() {
    // Extra capabilities.
    let mut ks = call_state();
    assert!(matches!(ks.fastpath_call(5, 1 << 7), FastpathOutcome::Slowpath(syscall::SysCall)));
    assert_eq!(ks.sched.ksCurThread, A);
    // No right to send.
    let mut ks = call_state();
    put(&mut ks, ROOT_NODE + 5 * 32, endpoint_cap(E, CAN_GRANT, 0));
    assert!(matches!(ks.fastpath_call(5, 1), FastpathOutcome::Slowpath(syscall::SysCall)));
    // No receiver waiting.
    let mut ks = call_state();
    let mut e = ks.eps[&E];
    endpoint_ptr_set_state(&mut e, 0);
    ks.eps.insert(E, e);
    assert!(matches!(ks.fastpath_call(5, 1), FastpathOutcome::Slowpath(syscall::SysCall)));
    // The receiver's page table is not mapped.
    let mut ks = call_state();
    put(&mut ks, B + 32, cap { words: [9u64 << 59, 0xa000] });
    assert!(matches!(ks.fastpath_call(5, 1), FastpathOutcome::Slowpath(syscall::SysCall)));
    assert_eq!(ts_type(&ks, A), 1);
    assert_eq!(endpoint_ptr_get_state(&ks.eps[&E]), 2);
    // A lower-priority receiver while a higher priority is runnable.
    let mut ks = call_state();
    let mut b = ks.tcbs[&B];
    b.tcbPriority = 5;
    ks.tcbs.insert(B, b);
    ks.tcbs.insert(C, thread(1, 50));
    ks.tcbSchedEnqueue(C);
    assert!(matches!(ks.fastpath_call(5, 1), FastpathOutcome::Slowpath(syscall::SysCall)));
    // An endpoint that may not grant.
    let mut ks = call_state();
    put(&mut ks, ROOT_NODE + 5 * 32, endpoint_cap(E, CAN_SEND, 0));
    assert!(matches!(ks.fastpath_call(5, 1), FastpathOutcome::Slowpath(syscall::SysCall)));
}

#[test]
fn fast_reply_and_receive() {
    let mut ks = reply_state();
    let mut a = ks.tcbs[&A];
    a.tcbArch.tcbContext.registers[11] = 9;
    ks.tcbs.insert(A, a);
    match ks.fastpath_reply_recv(5, 1) {
        FastpathOutcome::Restore { badge, msgInfo, vspaceRoot, hwASID } => {
            assert_eq!((badge, msgInfo, vspaceRoot, hwASID), (0, 1, 0xb000, 7));
        }
        FastpathOutcome::Slowpath(_) => panic!("expected the fast path"),
    }
    assert_eq!(ks.sched.ksCurThread, C);
    assert_eq!(ts_type(&ks, C), 1);
    assert_eq!(ks.getRegister(C, 11), 9);
    assert_eq!(ts_type(&ks, A), 3);
    assert_eq!(thread_state_ptr_get_blockingObject(&ks.tcbs[&A].tcbState), E);
    assert_eq!(thread_state_ptr_get_blockingIPCCanGrant(&ks.tcbs[&A].tcbState), 1);
    assert_eq!(endpoint_ptr_get_epQueue_head(&ks.eps[&E]), A);
    assert_eq!(endpoint_ptr_get_epQueue_tail(&ks.eps[&E]), A);
    assert_eq!(endpoint_ptr_get_state(&ks.eps[&E]), 2);
    assert_eq!(ks.ctes[&(A + 3 * 32)].cap.words, [0, 0]);
    assert_eq!(ks.ctes[&(A + 3 * 32)].cteMDBNode.words, [0, 0]);
    assert_eq!(mdb_node_get_mdbNext(ks.ctes[&(C + 2 * 32)].cteMDBNode), 0);
    assert_eq!(ks.ctes[&(C + 2 * 32)].cteMDBNode.words[1], 3);
}

#[test]
fn fast_receive_joins_the_end_of_the_queue() {
    let mut ks = reply_state();
    let mut e = endpoint { words: [0, 0] };
    endpoint_ptr_set_epQueue_head(&mut e, B);
    endpoint_ptr_set_epQueue_tail(&mut e, B);
    endpoint_ptr_set_state(&mut e, 2);
    ks.eps.insert(E, e);
    let mut b = thread(3, 10);
    b.tcbState.words[0] |= E;
    ks.tcbs.insert(B, b);
    assert!(matches!(ks.fastpath_reply_recv(5, 0), FastpathOutcome::Restore { .. }));
    assert_eq!(endpoint_ptr_get_epQueue_head(&ks.eps[&E]), B);
    assert_eq!(endpoint_ptr_get_epQueue_tail(&ks.eps[&E]), A);
    assert_eq!(ks.tcbs[&B].tcbEPNext, A);
    assert_eq!(ks.tcbs[&A].tcbEPPrev, B);
}

#[test]
fn fast_reply_falls_back_to_the_slow_path() {
    // No reply capability in the caller slot.
    let mut ks = reply_state();
    ks.ctes.remove(&(A + 3 * 32));
    assert!(matches!(ks.fastpath_reply_recv(5, 1), FastpathOutcome::Slowpath(syscall::SysReplyRecv)));
    assert_eq!(ts_type(&ks, A), 1);
    // An active bound notification.
    let mut ks = reply_state();
    ks.ntfns.insert(0x5000, notification { words: [2, 0, 0, 0] });
    let mut a = ks.tcbs[&A];
    a.tcbBoundNotification = 0x5000;
    ks.tcbs.insert(A, a);
    assert!(matches!(ks.fastpath_reply_recv(5, 1), FastpathOutcome::Slowpath(syscall::SysReplyRecv)));
    // A sender already waits on the endpoint.
    let mut ks = reply_state();
    ks.eps.insert(E, endpoint { words: [1, 0] });
    assert!(matches!(ks.fastpath_reply_recv(5, 1), FastpathOutcome::Slowpath(syscall::SysReplyRecv)));
    // The thread replied to has a fault other than a memory fault.
    let mut ks = reply_state();
    let mut c = ks.tcbs[&C];
    c.tcbFault = seL4_Fault { words: [1, 0] };
    ks.tcbs.insert(C, c);
    assert!(matches!(ks.fastpath_reply_recv(5, 1), FastpathOutcome::Slowpath(syscall::SysReplyRecv)));
    // No right to receive.
    let mut ks = reply_state();
    put(&mut ks, ROOT_NODE + 5 * 32, endpoint_cap(E, CAN_SEND, 0));
    assert!(matches!(ks.fastpath_reply_recv(5, 1), FastpathOutcome::Slowpath(syscall::SysReplyRecv)));
    assert_eq!(ks.sched.ksCurThread, A);
}
