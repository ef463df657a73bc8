use sel4_rust::object::{
    arch_tcb, cap, cap_t, cte, endpoint, lookup_fault, mdb_node_new, notification,
    notification_ptr_get_ntfnBoundTCB, notification_ptr_get_ntfnMsgIdentifier,
    notification_ptr_get_ntfnQueue_head, notification_ptr_get_ntfnQueue_tail,
    notification_ptr_get_state, notification_ptr_set_ntfnBoundTCB,
    notification_ptr_set_ntfnMsgIdentifier, notification_ptr_set_ntfnQueue_head,
    notification_ptr_set_ntfnQueue_tail, notification_ptr_set_state, notification_t, seL4_Fault,
    tcb, tcb_t, thread_state, thread_state_ptr_get_blockingObject, thread_state_ptr_get_tsType,
    endpoint_ptr_get_epQueue_head, endpoint_ptr_get_state, endpoint_ptr_set_epQueue_head,
    endpoint_ptr_set_epQueue_tail, endpoint_ptr_set_state,
};
use sel4_rust::state::{dschedule, tcb_queue, KernelState, SchedState};
use sel4_rust::types::user_context;

const IDLE: u64 = 0x9_0000;
const T: u64 = 0x1_0000;
const W1: u64 = 0x1_0400;
const W2: u64 = 0x1_0800;
const N: u64 = 0x5000;
const E: u64 = 0x6000;

fn thread(state: u64, blocked_on: u64) -> tcb_t {
    tcb {
        tcbArch: arch_tcb { tcbContext: user_context { registers: [0; 35] } },
        tcbState: thread_state { words: [state | (blocked_on & 0x7f_ffff_fff0), 0, 0] },
        tcbBoundNotification: 0,
        tcbFault: seL4_Fault { words: [0, 0] },
        tcbLookupFailure: lookup_fault { words: [0, 0] },
        tcbDomain: 0,
        tcbMCP: 255,
        tcbPriority: 10,
        tcbTimeSlice: 5,
        tcbFaultHandler: 0,
        tcbIPCBuffer: 0,
        tcbSchedNext: 0,
        tcbSchedPrev: 0,
        tcbEPNext: 0,
        tcbEPPrev: 0,
    }
}

fn ntfn(state: u64, queue: u64, badge: u64, bound: u64) -> notification_t {
    let mut n = notification { words: [0, 0, 0, 0] };
    notification_ptr_set_state(&mut n, state);
    notification_ptr_set_ntfnQueue_head(&mut n, queue);
    notification_ptr_set_ntfnQueue_tail(&mut n, queue);
    notification_ptr_set_ntfnMsgIdentifier(&mut n, badge);
    notification_ptr_set_ntfnBoundTCB(&mut n, bound);
    n
}

fn ntfn_cap(ptr: u64) -> cap_t {
    cap { words: [(6u64 << 59) | ptr, 0] }
}

fn state() -> KernelState {
    let mut ks = KernelState::new(SchedState::new(IDLE, vec![dschedule { domain: 0, length: 10 }]));
    ks.tcbs.insert(IDLE, thread(7, 0));
    ks
}

fn ts_type(ks: &KernelState, t: u64) -> u64 {
    thread_state_ptr_get_tsType(&ks.tcbs[&t].tcbState)
}

#[test]
fn signal_an_idle_notification() {
    let mut ks = state();
    ks.ntfns.insert(N, ntfn(0, 0, 0, 0));
    ks.sendSignal(N, 5);
    assert_eq!(notification_ptr_get_state(&ks.ntfns[&N]), 2);
    assert_eq!(notification_ptr_get_ntfnMsgIdentifier(&ks.ntfns[&N]), 5);
}

#[test]
fn signals_accumulate_badges() {
    let mut ks = state();
    ks.ntfns.insert(N, ntfn(0, 0, 0, 0));
    ks.sendSignal(N, 0b0101);
    ks.sendSignal(N, 0b0011);
    assert_eq!(notification_ptr_get_state(&ks.ntfns[&N]), 2);
    assert_eq!(notification_ptr_get_ntfnMsgIdentifier(&ks.ntfns[&N]), 0b0111);
}

#[test]
fn signal_then_receive_delivers_the_badge() {
    let mut ks = state();
    ks.ntfns.insert(N, ntfn(0, 0, 0, 0));
    ks.tcbs.insert(T, thread(1, 0));
    ks.sendSignal(N, 42);
    ks.receiveSignal(T, ntfn_cap(N), 1);
    assert_eq!(ks.getRegister(T, 9), 42);
    assert_eq!(notification_ptr_get_state(&ks.ntfns[&N]), 0);
}

#[test]
fn signal_wakes_the_waiting_thread() {
    let mut ks = state();
    ks.ntfns.insert(N, ntfn(1, W1, 0, 0));
    ks.tcbs.insert(W1, thread(6, N));
    ks.sendSignal(N, 7);
    assert_eq!(ts_type(&ks, W1), 1);
    assert_eq!(ks.getRegister(W1, 9), 7);
    assert_eq!(notification_ptr_get_state(&ks.ntfns[&N]), 0);
    assert_eq!(ks.sched.ksSchedulerAction, W1);
}

#[test]
fn signal_wakes_the_bound_thread_that_waits_on_an_endpoint() {
    let mut ks = state();
    ks.ntfns.insert(N, ntfn(0, 0, 0, T));
    let mut t = thread(3, E);
    t.tcbBoundNotification = N;
    ks.tcbs.insert(T, t);
    let mut e = endpoint { words: [0, 0] };
    endpoint_ptr_set_epQueue_head(&mut e, T);
    endpoint_ptr_set_epQueue_tail(&mut e, T);
    endpoint_ptr_set_state(&mut e, 2);
    ks.eps.insert(E, e);
    ks.sendSignal(N, 9);
    assert_eq!(ts_type(&ks, T), 1);
    assert_eq!(ks.getRegister(T, 9), 9);
    assert_eq!(endpoint_ptr_get_epQueue_head(&ks.eps[&E]), 0);
    assert_eq!(endpoint_ptr_get_state(&ks.eps[&E]), 0);
    assert_eq!(notification_ptr_get_state(&ks.ntfns[&N]), 0);
}

#[test]
fn blocking_receive_joins_the_queue() {
    let mut ks = state();
    ks.ntfns.insert(N, ntfn(1, W1, 0, 0));
    ks.tcbs.insert(W1, thread(6, N));
    ks.tcbs.insert(T, thread(1, 0));
    ks.receiveSignal(T, ntfn_cap(N), 1);
    assert_eq!(ts_type(&ks, T), 6);
    assert_eq!(thread_state_ptr_get_blockingObject(&ks.tcbs[&T].tcbState), N);
    assert_eq!(ks.tcbs[&W1].tcbEPNext, T);
    assert_eq!(ks.tcbs[&T].tcbEPPrev, W1);
    assert_eq!(notification_ptr_get_ntfnQueue_tail(&ks.ntfns[&N]), T);
    assert_eq!(notification_ptr_get_state(&ks.ntfns[&N]), 1);
}

#[test]
fn non_blocking_receive_on_a_waiting_notification() {
    let mut ks = state();
    ks.ntfns.insert(N, ntfn(1, W1, 0, 0));
    ks.tcbs.insert(W1, thread(6, N));
    let mut t = thread(1, 0);
    t.tcbArch.tcbContext.registers[9] = 77;
    ks.tcbs.insert(T, t);
    ks.receiveSignal(T, ntfn_cap(N), 0);
    assert_eq!(ks.getRegister(T, 9), 0);
    assert_eq!(ts_type(&ks, T), 1);
}

#[test]
fn receive_on_an_idle_notification_blocks() {
    let mut ks = state();
    ks.ntfns.insert(N, ntfn(0, 0, 0, 0));
    ks.tcbs.insert(T, thread(1, 0));
    ks.receiveSignal(T, ntfn_cap(N), 1);
    assert_eq!(ts_type(&ks, T), 6);
    assert_eq!(notification_ptr_get_state(&ks.ntfns[&N]), 1);
    let q = ks.ntfn_ptr_get_queue(N);
    assert_eq!((q.head, q.end), (T, T));
    // Without blocking the badge register is cleared instead.
    let mut ks = state();
    ks.ntfns.insert(N, ntfn(0, 0, 0, 0));
    ks.tcbs.insert(T, thread(1, 0));
    ks.setRegister(T, 9, 7);
    ks.receiveSignal(T, ntfn_cap(N), 0);
    assert_eq!(ts_type(&ks, T), 1);
    assert_eq!(ks.getRegister(T, 9), 0);
    assert_eq!(notification_ptr_get_state(&ks.ntfns[&N]), 0);
}

#[test]
fn bind_then_unbind() {
    let mut ks = state();
    ks.ntfns.insert(N, ntfn(0, 0, 0, 0));
    ks.tcbs.insert(T, thread(1, 0));
    ks.bindNotification(T, N);
    assert_eq!(ks.tcbs[&T].tcbBoundNotification, N);
    assert_eq!(notification_ptr_get_ntfnBoundTCB(&ks.ntfns[&N]), T);
    ks.unbindNotification(T);
    assert_eq!(ks.tcbs[&T].tcbBoundNotification, 0);
    assert_eq!(notification_ptr_get_ntfnBoundTCB(&ks.ntfns[&N]), 0);
    ks.bindNotification(T, N);
    ks.unbindMaybeNotification(N);
    assert_eq!(ks.tcbs[&T].tcbBoundNotification, 0);
    assert_eq!(notification_ptr_get_ntfnBoundTCB(&ks.ntfns[&N]), 0);
    ks.doUnbindNotification(N, T);
    assert_eq!(ks.tcbs[&T].tcbBoundNotification, 0);
}

#[test]
fn queue_accessors() {
    let mut ks = state();
    ks.ntfns.insert(N, ntfn(1, W1, 0, 0));
    let q = ks.ntfn_ptr_get_queue(N);
    assert_eq!((q.head, q.end), (W1, W1));
    ks.ntfn_ptr_set_queue(N, tcb_queue { head: W1, end: W2 });
    assert_eq!(notification_ptr_get_ntfnQueue_tail(&ks.ntfns[&N]), W2);
    assert_eq!(notification_ptr_get_ntfnQueue_head(&ks.ntfns[&N]), W1);
    let q = ks.ntfn_ptr_get_queue(N);
    assert_eq!((q.head, q.end), (W1, W2));
    ks.ntfn_set_active(N, 3);
    assert_eq!(notification_ptr_get_state(&ks.ntfns[&N]), 2);
    ks.eps.insert(E, endpoint { words: [0, 0] });
    ks.ep_ptr_set_queue(E, tcb_queue { head: W1, end: W2 });
    let q = ks.ep_ptr_get_queue(E);
    assert_eq!((q.head, q.end), (W1, W2));
}

#[test]
fn cancel_signal_makes_the_waiter_inactive() {
    let mut ks = state();
    ks.ntfns.insert(N, ntfn(1, W1, 0, 0));
    ks.tcbs.insert(W1, thread(6, N));
    ks.cancelSignal(W1, N);
    assert_eq!(ts_type(&ks, W1), 0);
    assert_eq!(notification_ptr_get_state(&ks.ntfns[&N]), 0);
}

#[test]
fn complete_signal_delivers_the_badge() {
    let mut ks = state();
    ks.ntfns.insert(N, ntfn(2, 0, 0x55, 0));
    ks.tcbs.insert(T, thread(1, 0));
    ks.completeSignal(N, T);
    assert_eq!(ks.getRegister(T, 9), 0x55);
    assert_eq!(notification_ptr_get_state(&ks.ntfns[&N]), 0);
}

#[test]
fn cancel_all_signals_restarts_every_waiter() {
    let mut ks = state();
    // Two waiters, W1 then W2.
    let mut n = ntfn(1, W2, 0, 0);
    notification_ptr_set_ntfnQueue_head(&mut n, W1);
    ks.ntfns.insert(N, n);
    let mut w1 = thread(6, N);
    w1.tcbEPNext = W2;
    let mut w2 = thread(6, N);
    w2.tcbEPPrev = W1;
    ks.tcbs.insert(W1, w1);
    ks.tcbs.insert(W2, w2);
    ks.cancleAllSignals(N);
    assert_eq!(ts_type(&ks, W2), 2);
    assert_eq!(ts_type(&ks, W1), 2);
    assert_eq!(ks.sched.ksReadyQueues[10].head, W2);
    assert_eq!(ks.sched.ksReadyQueues[10].end, W1);
    assert_eq!(notification_ptr_get_state(&ks.ntfns[&N]), 0);
    assert_eq!(notification_ptr_get_ntfnQueue_tail(&ks.ntfns[&N]), 0);
    assert_eq!(ks.sched.ksSchedulerAction, 1);
}

#[test]
fn cancel_all_signals_leaves_other_notifications() {
    let mut ks = state();
    ks.ntfns.insert(N, ntfn(2, 0, 4, 0));
    ks.cancleAllSignals(N);
    assert_eq!(notification_ptr_get_state(&ks.ntfns[&N]), 2);
}

#[test]
fn cancel_ipc_by_state() {
    // Blocked on receive: leaves the endpoint's queue and becomes inactive.
    let mut ks = state();
    ks.tcbs.insert(T, thread(3, E));
    let mut e = endpoint { words: [0, 0] };
    endpoint_ptr_set_epQueue_head(&mut e, T);
    endpoint_ptr_set_epQueue_tail(&mut e, T);
    endpoint_ptr_set_state(&mut e, 2);
    ks.eps.insert(E, e);
    ks.cancelIPC(T);
    assert_eq!(ts_type(&ks, T), 0);
    assert_eq!(endpoint_ptr_get_state(&ks.eps[&E]), 0);
    // Blocked on send: the same.
    let mut ks = state();
    ks.tcbs.insert(T, thread(4, E));
    let mut e = endpoint { words: [0, 0] };
    endpoint_ptr_set_epQueue_head(&mut e, T);
    endpoint_ptr_set_epQueue_tail(&mut e, T);
    endpoint_ptr_set_state(&mut e, 1);
    ks.eps.insert(E, e);
    ks.cancelIPC(T);
    assert_eq!(ts_type(&ks, T), 0);
    assert_eq!(endpoint_ptr_get_state(&ks.eps[&E]), 0);
    assert_eq!(ks.ep_ptr_get_queue(E).head, 0);
    // Blocked on a reply: the fault is cleared and the reply capability that
    // follows the reply slot is deleted.
    let mut ks = state();
    let mut t = thread(5, 0);
    t.tcbFault = seL4_Fault { words: [1, 0x99] };
    ks.tcbs.insert(T, t);
    ks.ctes.insert(T + 64, cte { cap: cap { words: [(8u64 << 59) | 3, T] }, cteMDBNode: mdb_node_new(0x7_0040, 1, 1, 0) });
    ks.ctes.insert(0x7_0040, cte { cap: cap { words: [8u64 << 59, T] }, cteMDBNode: mdb_node_new(0, 0, 0, T + 64) });
    ks.cancelIPC(T);
    assert_eq!(ks.tcbs[&T].tcbFault.words, [0, 0]);
    assert_eq!(ks.ctes[&0x7_0040].cap.words, [0, 0]);
    assert_eq!(ks.ctes[&0x7_0040].cteMDBNode.words, [0, 0]);
    assert_eq!(ks.ctes[&(T + 64)].cteMDBNode.words, [0, 3]);
    // Blocked on a notification: the signal wait is cancelled.
    let mut ks = state();
    ks.ntfns.insert(N, ntfn(1, T, 0, 0));
    ks.tcbs.insert(T, thread(6, N));
    ks.cancelIPC(T);
    assert_eq!(ts_type(&ks, T), 0);
    assert_eq!(notification_ptr_get_state(&ks.ntfns[&N]), 0);
}

#[test]
fn signal_wakes_the_first_of_two_waiters() {
    let mut ks = state();
    let mut n = ntfn(1, W2, 0, 0);
    notification_ptr_set_ntfnQueue_head(&mut n, W1);
    ks.ntfns.insert(N, n);
    let mut w1 = thread(6, N);
    w1.tcbEPNext = W2;
    let mut w2 = thread(6, N);
    w2.tcbEPPrev = W1;
    ks.tcbs.insert(W1, w1);
    ks.tcbs.insert(W2, w2);
    ks.sendSignal(N, 7);
    assert_eq!(ts_type(&ks, W1), 1);
    assert_eq!(ks.getRegister(W1, 9), 7);
    assert_eq!(ts_type(&ks, W2), 6);
    assert_eq!(notification_ptr_get_state(&ks.ntfns[&N]), 1);
    let q = ks.ntfn_ptr_get_queue(N);
    assert_eq!((q.head, q.end), (W2, W2));
    assert_eq!(ks.tcbs[&W2].tcbEPPrev, 0);
}
