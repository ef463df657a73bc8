use sel4_rust::object::{
    arch_tcb, cap, cap_t, cte, lookup_fault, mdb_node, seL4_Fault, seL4_MessageInfo_new, tcb,
    tcb_t, thread_state, thread_state_ptr_get_tsType,
};
use sel4_rust::state::{dschedule, KernelState, SchedState};
use sel4_rust::transfer::deriveCap_ret;
use sel4_rust::types::user_context;

const IDLE: u64 = 0x9_0000;
const T: u64 = 0x1_0000;
const R: u64 = 0x1_0400;
const ROOT_NODE: u64 = 0x2_0000;
const LEAF_NODE: u64 = 0x3_0000;
const EP: u64 = 0x4000;

fn thread(state: u64) -> tcb_t {
    tcb {
        tcbArch: arch_tcb { tcbContext: user_context { registers: [0; 35] } },
        tcbState: thread_state { words: [state, 0, 0] },
        tcbBoundNotification: 0,
        tcbFault: seL4_Fault { words: [0, 0] },
        tcbLookupFailure: lookup_fault { words: [0, 0] },
        tcbDomain: 0,
        tcbMCP: 255,
        tcbPriority: 10,
        tcbTimeSlice: 5,
        tcbFaultHandler: 0,
        tcbIPCBuffer: 0,
        tcbSchedNext: 0,
        tcbSchedPrev: 0,
        tcbEPNext: 0,
        tcbEPPrev: 0,
    }
}

fn cnode_cap(ptr: u64, guard_size: u64, guard: u64, radix: u64) -> cap_t {
    cap { words: [(10u64 << 59) | (guard_size << 53) | (radix << 47) | (ptr >> 1), guard] }
}

fn put(ks: &mut KernelState, at: u64, c: cap_t) {
    ks.ctes.insert(at, cte { cap: c, cteMDBNode: mdb_node { words: [0, 0] } });
}

/// Threads `T` and `R` sharing a one-level capability space: slot 7 of the
/// CNode at `ROOT_NODE` holds a CNode capability to `LEAF_NODE`, and slot 5
/// an endpoint capability to `EP` with badge 0x33.
fn state() -> KernelState {
    let mut ks = KernelState::new(SchedState::new(IDLE, vec![dschedule { domain: 0, length: 10 }]));
    ks.tcbs.insert(IDLE, thread(7));
    ks.tcbs.insert(T, thread(1));
    ks.tcbs.insert(R, thread(1));
    put(&mut ks, T, cnode_cap(ROOT_NODE, 56, 0, 8));
    put(&mut ks, R, cnode_cap(ROOT_NODE, 56, 0, 8));
    put(&mut ks, ROOT_NODE + 7 * 32, cnode_cap(LEAF_NODE, 0, 0, 8));
    put(&mut ks, ROOT_NODE + 5 * 32, cap { words: [(4u64 << 59) | EP, 0x33] });
    ks
}

fn no_derived() -> [deriveCap_ret; 3] {
    [deriveCap_ret { status: 0, cap: cap { words: [0, 0] } }; 3]
}

/// A send buffer whose words are 1000 plus their index, naming extra
/// capability 5.
fn send_buffer() -> Vec<u64> {
    let mut send: Vec<u64> = (0..128u64).map(|k| 1000 + k).collect();
    send[122] = 5;
    send
}

/// A receive buffer that asks for slot 3 of the CNode at `LEAF_NODE`.
fn receive_buffer() -> Option<Vec<u64>> {
    let mut buf = vec![0u64; 128];
    buf[125] = 7;
    buf[126] = 3;
    buf[127] = 8;
    Some(buf)
}

fn ts_type(ks: &KernelState, t: u64) -> u64 {
    thread_state_ptr_get_tsType(&ks.tcbs[&t].tcbState)
}

#[test]
fn fault_message_carries_the_fault_type() {
    let mut ks = state();
    ks.tcbs.get_mut(&T).unwrap().tcbFault = seL4_Fault { words: [1, 0x105] };
    ks.doFaultTransfer(0x44, T, R, 3);
    assert_eq!(ks.getRegister(R, 10), (1 << 12) | 3);
    assert_eq!(ks.getRegister(R, 9), 0x44);
}

#[test]
fn normal_message_with_words_and_an_unwrapped_capability() {
    let mut ks = state();
    ks.setRegister(T, 10, seL4_MessageInfo_new(5, 0, 1, 6).words[0]);
    for i in 0..4 {
        ks.setRegister(T, 11 + i, 100 + i);
    }
    let send = send_buffer();
    let mut recv = receive_buffer();
    ks.doNormalTransfer(T, Some(&send), EP, 0x99, 1, R, &mut recv, no_derived());
    assert_eq!(ks.getRegister(R, 10), seL4_MessageInfo_new(5, 1, 1, 6).words[0]);
    assert_eq!(ks.getRegister(R, 9), 0x99);
    for i in 0..4 {
        assert_eq!(ks.getRegister(R, 11 + i), 100 + i);
    }
    let recv = recv.unwrap();
    assert_eq!((recv[5], recv[6], recv[7]), (1005, 1006, 0));
    assert_eq!(recv[122], 0x33);
}

#[test]
fn without_grant_no_capability_is_sent() {
    let mut ks = state();
    ks.setRegister(T, 10, seL4_MessageInfo_new(5, 0, 1, 2).words[0]);
    ks.current_extra_caps.excaprefs = [7, 8, 9];
    let send = send_buffer();
    let mut recv = receive_buffer();
    ks.doNormalTransfer(T, Some(&send), EP, 0x99, 0, R, &mut recv, no_derived());
    assert_eq!(ks.current_extra_caps.excaprefs[0], 0);
    assert_eq!(ks.getRegister(R, 10), seL4_MessageInfo_new(5, 0, 0, 2).words[0]);
    assert_eq!(recv.unwrap()[122], 0);
}

#[test]
fn message_length_is_cut_to_the_registers_without_buffers() {
    let mut ks = state();
    ks.setRegister(T, 10, seL4_MessageInfo_new(0, 0, 0, 127).words[0]);
    let mut recv: Option<Vec<u64>> = None;
    ks.doNormalTransfer(T, None, EP, 0, 1, R, &mut recv, no_derived());
    assert_eq!(ks.getRegister(R, 10), seL4_MessageInfo_new(0, 0, 0, 4).words[0]);
}

#[test]
fn ipc_transfer_chooses_by_the_sender_fault() {
    let mut ks = state();
    ks.setRegister(T, 10, seL4_MessageInfo_new(3, 0, 0, 1).words[0]);
    let mut recv = receive_buffer();
    ks.doIPCTransfer(T, None, EP, 7, 1, R, &mut recv, no_derived(), 2);
    assert_eq!(ks.getRegister(R, 10), seL4_MessageInfo_new(3, 0, 0, 1).words[0]);
    ks.tcbs.get_mut(&T).unwrap().tcbFault = seL4_Fault { words: [2, 0] };
    ks.doIPCTransfer(T, None, EP, 7, 1, R, &mut recv, no_derived(), 2);
    assert_eq!(ks.getRegister(R, 10), (2 << 12) | 2);
    assert_eq!(ks.getRegister(R, 9), 7);
}

#[test]
fn reply_to_a_waiting_caller() {
    let mut ks = state();
    let slot = 0x7_0000;
    put(&mut ks, slot, cap { words: [(8u64 << 59) | 2, T] });
    ks.tcbs.get_mut(&R).unwrap().tcbState = thread_state { words: [5, 0, 0] };
    ks.setRegister(T, 10, seL4_MessageInfo_new(1, 0, 0, 1).words[0]);
    ks.setRegister(T, 11, 0xabc);
    let mut recv: Option<Vec<u64>> = None;
    ks.doReplyTransfer(T, R, slot, None, &mut recv, no_derived(), 0, 0);
    assert_eq!(ks.getRegister(R, 11), 0xabc);
    assert_eq!(ks.getRegister(R, 9), 0);
    assert_eq!(ks.ctes[&slot].cap.words[0] >> 59, 0);
    assert_eq!(ts_type(&ks, R), 1);
    assert_eq!(ks.sched.ksSchedulerAction, R);
}

#[test]
fn reply_to_a_faulting_thread() {
    let slot = 0x7_0000;
    for (restart, state_after, action) in [(1u64, 2u64, R), (0, 0, 0)] {
        let mut ks = state();
        put(&mut ks, slot, cap { words: [(8u64 << 59) | 2, T] });
        ks.tcbs.get_mut(&R).unwrap().tcbFault = seL4_Fault { words: [1, 0x20] };
        let mut recv: Option<Vec<u64>> = None;
        ks.doReplyTransfer(T, R, slot, None, &mut recv, no_derived(), 0, restart);
        assert_eq!(ks.tcbs[&R].tcbFault.words, [0, 0]);
        assert_eq!(ts_type(&ks, R), state_after);
        assert_eq!(ks.ctes[&slot].cap.words[0] >> 59, 0);
        assert_eq!(ks.sched.ksSchedulerAction, action);
    }
}
