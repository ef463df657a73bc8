//! Notification objects: signalling, waiting, binding to a thread, and
//! cancelling the IPC a thread is blocked on.
use vstd::prelude::*;

use crate::cnode::{delete_one_needs_no_finalise, DeleteOneEvent, spec_empty_slot};
use crate::object::{
    cap_notification_cap_get_capNtfnPtr, cap_t, endpoint_ptr_get_epQueue_head,
    endpoint_ptr_get_epQueue_tail, endpoint_ptr_set_epQueue_head, endpoint_ptr_set_epQueue_tail,
    endpoint_ptr_set_state, endpoint_t, EPState_Idle, mdb_node_get_mdbNext,
    notification_ptr_get_ntfnBoundTCB, notification_ptr_get_ntfnMsgIdentifier,
    notification_ptr_get_ntfnQueue_head, notification_ptr_get_ntfnQueue_tail,
    notification_ptr_get_state, notification_ptr_set_ntfnBoundTCB,
    notification_ptr_set_ntfnMsgIdentifier, notification_ptr_set_ntfnQueue_head,
    notification_ptr_set_ntfnQueue_tail, notification_ptr_set_state, notification_t,
    NtfnState_Active, NtfnState_Idle, NtfnState_Waiting, seL4_Fault_NullFault_new,
    spec_cap_ntfn_ptr, spec_ep_queue_head, spec_ep_queue_tail, spec_ep_set_queue_head,
    spec_ep_set_queue_tail, spec_ep_set_state, spec_mdb_next, spec_ntfn_bound_tcb,
    spec_ntfn_msg_identifier, spec_ntfn_queue_head, spec_ntfn_queue_tail, spec_ntfn_set_bound_tcb,
    spec_ntfn_set_msg_identifier, spec_ntfn_set_queue_head, spec_ntfn_set_queue_tail,
    spec_ntfn_set_state, spec_ntfn_state, spec_null_fault, spec_tcb_cte_ptr,
    spec_ts_blocking_object, spec_ts_set_blocking_object, spec_ts_set_ts_type, spec_ts_type,
    TCB_PTR_CTE_PTR, tcb_t, tcbReply, thread_state_ptr_get_blockingObject,
    thread_state_ptr_get_tsType, thread_state_ptr_set_blockingObject, thread_state_ptr_set_tsType,
    ThreadState_BlockedOnNotification, ThreadState_BlockedOnReceive, ThreadState_BlockedOnReply,
    ThreadState_BlockedOnSend, ThreadState_Inactive, ThreadState_Restart, ThreadState_Running,
};
use crate::state::{
    cte_at, KernelState, KState, read_cte, read_ep, read_ntfn, read_tcb, tcb_queue, tcb_queue_t,
};
use crate::tcb::{
    can_enqueue, ep_dequeue_pre, spec_ep_append_queue, spec_ep_append_tcbs, spec_ep_dequeue_queue,
    spec_ep_dequeue_tcbs, spec_sched_enqueue, tcbEPAppend, tcbEPDequeue,
};
use crate::thread::{
    badgeRegister, can_possible_switch_to, can_reschedule, can_set_thread_state,
    spec_possible_switch_to, spec_reschedule_required, spec_schedule_tcb, spec_set_register,
    spec_set_thread_state,
};
use crate::types::word_t;

verus! {

// ---------------------------------------------------------------------------
// Queues held in notifications and endpoints
// ---------------------------------------------------------------------------

/// The queue stored in a notification.
pub open spec fn spec_ntfn_get_queue(n: notification_t) -> tcb_queue_t {
    tcb_queue { head: spec_ntfn_queue_head(n), end: spec_ntfn_queue_tail(n) }
}

/// The notification after storing queue `q` in it.
pub open spec fn spec_ntfn_set_queue(n: notification_t, q: tcb_queue_t) -> notification_t {
    spec_ntfn_set_queue_tail(spec_ntfn_set_queue_head(n, q.head), q.end)
}

/// The queue stored in an endpoint.
pub open spec fn spec_ep_get_queue(e: endpoint_t) -> tcb_queue_t {
    tcb_queue { head: spec_ep_queue_head(e), end: spec_ep_queue_tail(e) }
}

/// The endpoint after storing queue `q` in it.
pub open spec fn spec_ep_set_queue(e: endpoint_t, q: tcb_queue_t) -> endpoint_t {
    spec_ep_set_queue_tail(spec_ep_set_queue_head(e, q.head), q.end)
}

/// The state with the notification at `n` replaced by `v`.
pub open spec fn with_ntfn(s: KState, n: u64, v: notification_t) -> KState {
    KState { ntfns: s.ntfns.insert(n, v), ..s }
}

/// The state with the endpoint at `e` replaced by `v`.
pub open spec fn with_ep(s: KState, e: u64, v: endpoint_t) -> KState {
    KState { eps: s.eps.insert(e, v), ..s }
}

/// The state with the TCB at `t` replaced by `v`.
pub open spec fn with_tcb(s: KState, t: u64, v: tcb_t) -> KState {
    KState { tcbs: s.tcbs.insert(t, v), ..s }
}

/// The state after `ntfn_set_active(n, badge)`.
pub open spec fn spec_ntfn_set_active(s: KState, n: u64, badge: u64) -> KState {
    with_ntfn(
        s,
        n,
        spec_ntfn_set_msg_identifier(spec_ntfn_set_state(s.ntfns[n], NtfnState_Active), badge),
    )
}

impl KernelState {
    pub fn ntfn_ptr_get_queue(&self, ntfnPtr: word_t) -> (ret: tcb_queue_t)
        requires
            self.ntfns@.contains_key(ntfnPtr),
        ensures
            ret == spec_ntfn_get_queue(self.ntfns@[ntfnPtr]),
    {
        let n = read_ntfn(&self.ntfns, ntfnPtr);
        tcb_queue {
            head: notification_ptr_get_ntfnQueue_head(&n),
            end: notification_ptr_get_ntfnQueue_tail(&n),
        }
    }

    pub fn ntfn_ptr_set_queue(&mut self, ntfnPtr: word_t, ntfn_queue: tcb_queue_t)
        requires
            old(self).ntfns@.contains_key(ntfnPtr),
        ensures
            final(self)@ == with_ntfn(
                old(self)@,
                ntfnPtr,
                spec_ntfn_set_queue(old(self)@.ntfns[ntfnPtr], ntfn_queue),
            ),
            final(self).sched == old(self).sched,
    {
        let mut n = read_ntfn(&self.ntfns, ntfnPtr);
        notification_ptr_set_ntfnQueue_head(&mut n, ntfn_queue.head);
        notification_ptr_set_ntfnQueue_tail(&mut n, ntfn_queue.end);
        self.ntfns.insert(ntfnPtr, n);
    }

    pub fn ep_ptr_get_queue(&self, epptr: word_t) -> (ret: tcb_queue_t)
        requires
            self.eps@.contains_key(epptr),
        ensures
            ret == spec_ep_get_queue(self.eps@[epptr]),
    {
        let e = read_ep(&self.eps, epptr);
        tcb_queue { head: endpoint_ptr_get_epQueue_head(&e), end: endpoint_ptr_get_epQueue_tail(&e) }
    }

    pub fn ep_ptr_set_queue(&mut self, epptr: word_t, queue: tcb_queue_t)
        requires
            old(self).eps@.contains_key(epptr),
        ensures
            final(self)@ == with_ep(
                old(self)@,
                epptr,
                spec_ep_set_queue(old(self)@.eps[epptr], queue),
            ),
            final(self).sched == old(self).sched,
    {
        let mut e = read_ep(&self.eps, epptr);
        endpoint_ptr_set_epQueue_head(&mut e, queue.head);
        endpoint_ptr_set_epQueue_tail(&mut e, queue.end);
        self.eps.insert(epptr, e);
    }

    /// Makes the notification at `ntfnPtr` active with the given badge.
    pub fn ntfn_set_active(&mut self, ntfnPtr: word_t, badge: word_t)
        requires
            old(self).ntfns@.contains_key(ntfnPtr),
        ensures
            final(self)@ == spec_ntfn_set_active(old(self)@, ntfnPtr, badge),
            final(self).sched == old(self).sched,
    {
        let mut n = read_ntfn(&self.ntfns, ntfnPtr);
        notification_ptr_set_state(&mut n, NtfnState_Active);
        notification_ptr_set_ntfnMsgIdentifier(&mut n, badge);
        self.ntfns.insert(ntfnPtr, n);
    }
}

// ---------------------------------------------------------------------------
// Binding a notification to a thread
// ---------------------------------------------------------------------------

/// The state after `doUnbindNotification(n, t)`: the notification's bound
/// TCB and the thread's bound notification are cleared.
pub open spec fn spec_do_unbind_notification(s: KState, n: u64, t: u64) -> KState {
    let s1 = with_ntfn(s, n, spec_ntfn_set_bound_tcb(s.ntfns[n], 0));
    with_tcb(s1, t, tcb_t { tcbBoundNotification: 0, ..s1.tcbs[t] })
}

/// The state after `bindNotification(t, n)`.
pub open spec fn spec_bind_notification(s: KState, t: u64, n: u64) -> KState {
    let s1 = with_ntfn(s, n, spec_ntfn_set_bound_tcb(s.ntfns[n], t));
    with_tcb(s1, t, tcb_t { tcbBoundNotification: n, ..s1.tcbs[t] })
}

/// The state after `unbindMaybeNotification(n)`.
pub open spec fn spec_unbind_maybe_notification(s: KState, n: u64) -> KState {
    let t = spec_ntfn_bound_tcb(s.ntfns[n]);
    if t != 0 {
        spec_do_unbind_notification(s, n, t)
    } else {
        s
    }
}

/// The state after `unbindNotification(t)`.
pub open spec fn spec_unbind_notification(s: KState, t: u64) -> KState {
    let n = s.tcbs[t].tcbBoundNotification;
    if n != 0 {
        spec_do_unbind_notification(s, n, t)
    } else {
        s
    }
}

impl KernelState {
    pub fn doUnbindNotification(&mut self, ntfnPtr: word_t, tcbptr: word_t)
        requires
            old(self).ntfns@.contains_key(ntfnPtr),
            old(self).tcbs@.contains_key(tcbptr),
        ensures
            final(self)@ == spec_do_unbind_notification(old(self)@, ntfnPtr, tcbptr),
            final(self).sched == old(self).sched,
    {
        let mut n = read_ntfn(&self.ntfns, ntfnPtr);
        notification_ptr_set_ntfnBoundTCB(&mut n, 0);
        self.ntfns.insert(ntfnPtr, n);
        let mut t = read_tcb(&self.tcbs, tcbptr);
        t.tcbBoundNotification = 0;
        self.tcbs.insert(tcbptr, t);
    }

    pub fn unbindMaybeNotification(&mut self, ntfnPtr: word_t)
        requires
            old(self).ntfns@.contains_key(ntfnPtr),
            spec_ntfn_bound_tcb(old(self).ntfns@[ntfnPtr]) != 0 ==> old(self).tcbs@.contains_key(
                spec_ntfn_bound_tcb(old(self).ntfns@[ntfnPtr]),
            ),
        ensures
            final(self)@ == spec_unbind_maybe_notification(old(self)@, ntfnPtr),
            final(self).sched == old(self).sched,
    {
        let boundTCB = notification_ptr_get_ntfnBoundTCB(&read_ntfn(&self.ntfns, ntfnPtr));
        if boundTCB != 0 {
            self.doUnbindNotification(ntfnPtr, boundTCB);
        }
    }

    pub fn unbindNotification(&mut self, tcb: word_t)
        requires
            old(self).tcbs@.contains_key(tcb),
            old(self).tcbs@[tcb].tcbBoundNotification != 0 ==> old(self).ntfns@.contains_key(
                old(self).tcbs@[tcb].tcbBoundNotification,
            ),
        ensures
            final(self)@ == spec_unbind_notification(old(self)@, tcb),
            final(self).sched == old(self).sched,
    {
        let ntfnPtr = read_tcb(&self.tcbs, tcb).tcbBoundNotification;
        if ntfnPtr != 0 {
            self.doUnbindNotification(ntfnPtr, tcb);
        }
    }

    pub fn bindNotification(&mut self, tcb: word_t, ntfnPtr: word_t)
        requires
            old(self).ntfns@.contains_key(ntfnPtr),
            old(self).tcbs@.contains_key(tcb),
        ensures
            final(self)@ == spec_bind_notification(old(self)@, tcb, ntfnPtr),
            final(self).sched == old(self).sched,
    {
        let mut n = read_ntfn(&self.ntfns, ntfnPtr);
        notification_ptr_set_ntfnBoundTCB(&mut n, tcb);
        self.ntfns.insert(ntfnPtr, n);
        let mut t = read_tcb(&self.tcbs, tcb);
        t.tcbBoundNotification = ntfnPtr;
        self.tcbs.insert(tcb, t);
    }
}

// ---------------------------------------------------------------------------
// Cancelling waits
// ---------------------------------------------------------------------------

/// The state after removing the thread at `t` from the queue of the
/// notification at `n`, before the thread's own state changes.
pub open spec fn spec_ntfn_remove_waiter(s: KState, t: u64, n: u64) -> KState {
    let q = spec_ntfn_get_queue(s.ntfns[n]);
    let q1 = spec_ep_dequeue_queue(s.tcbs, t, q);
    let s1 = KState { tcbs: spec_ep_dequeue_tcbs(s.tcbs, t), ..s };
    let s2 = with_ntfn(s1, n, spec_ntfn_set_queue(s1.ntfns[n], q1));
    if q1.head == 0 {
        with_ntfn(s2, n, spec_ntfn_set_state(s2.ntfns[n], NtfnState_Idle))
    } else {
        s2
    }
}

/// The state after `cancelSignal(t, n)`: the thread leaves the queue of the
/// notification (which becomes idle when the queue empties) and becomes
/// inactive.
pub open spec fn spec_cancel_signal(s: KState, t: u64, n: u64) -> KState {
    spec_set_thread_state(spec_ntfn_remove_waiter(s, t, n), t, ThreadState_Inactive)
}

/// `cancelSignal(t, n)` can run.
pub open spec fn can_cancel_signal(s: KState, t: u64, n: u64) -> bool {
    &&& s.ntfns.contains_key(n)
    &&& ep_dequeue_pre(s.tcbs, t)
}

/// The state after removing the thread at `t` from the queue of the
/// endpoint at `e`, before the thread's own state changes.
pub open spec fn spec_ep_remove_waiter(s: KState, t: u64, e: u64) -> KState {
    let q = spec_ep_get_queue(s.eps[e]);
    let q1 = spec_ep_dequeue_queue(s.tcbs, t, q);
    let s1 = KState { tcbs: spec_ep_dequeue_tcbs(s.tcbs, t), ..s };
    let s2 = with_ep(s1, e, spec_ep_set_queue(s1.eps[e], q1));
    if q1.head == 0 {
        with_ep(s2, e, spec_ep_set_state(s2.eps[e], EPState_Idle))
    } else {
        s2
    }
}

/// The state after `cancelIPC(t)`. A thread blocked on send or receive
/// leaves the endpoint's queue (the endpoint becomes idle when the queue
/// empties) and becomes inactive; one blocked on a notification has
/// its signal cancelled; one blocked on a reply has its fault cleared, and
/// the capability that follows its reply slot in the mapping database (the
/// reply capability its caller holds) is deleted. Other threads are left
/// alone.
pub open spec fn spec_cancel_ipc(s: KState, t: u64) -> KState {
    let st = s.tcbs[t].tcbState;
    let ty = spec_ts_type(st);
    if ty == ThreadState_BlockedOnSend || ty == ThreadState_BlockedOnReceive {
        let e = spec_ts_blocking_object(st);
        spec_set_thread_state(spec_ep_remove_waiter(s, t, e), t, ThreadState_Inactive)
    } else if ty == ThreadState_BlockedOnNotification {
        spec_cancel_signal(s, t, spec_ts_blocking_object(st))
    } else if ty == ThreadState_BlockedOnReply {
        let s1 = with_tcb(s, t, tcb_t { tcbFault: spec_null_fault(), ..s.tcbs[t] });
        let caller = reply_successor(s1, t);
        if caller != 0 {
            KState { ctes: spec_empty_slot(s1.ctes, caller), ..s1 }
        } else {
            s1
        }
    } else {
        s
    }
}

/// The slot that follows the reply slot of the thread at `t` in the mapping
/// database.
pub open spec fn reply_successor(s: KState, t: u64) -> u64 {
    spec_mdb_next(cte_at(s.ctes, spec_tcb_cte_ptr(t, tcbReply) as u64).cteMDBNode)
}

/// `cancelIPC(t)` can run.
pub open spec fn can_cancel_ipc(s: KState, t: u64) -> bool {
    let st = s.tcbs[t].tcbState;
    let ty = spec_ts_type(st);
    &&& s.tcbs.contains_key(t)
    &&& ty == ThreadState_BlockedOnSend || ty == ThreadState_BlockedOnReceive ==> {
        &&& s.eps.contains_key(spec_ts_blocking_object(st))
        &&& ep_dequeue_pre(s.tcbs, t)
    }
    &&& ty == ThreadState_BlockedOnNotification ==> can_cancel_signal(
        s,
        t,
        spec_ts_blocking_object(st),
    )
    &&& ty == ThreadState_BlockedOnReply && reply_successor(s, t) != 0
        ==> delete_one_needs_no_finalise(s.ctes, reply_successor(s, t))
}

impl KernelState {
    /// Removes the waiting thread at `threadPtr` from the notification at
    /// `ntfnPtr` and makes it inactive.
    pub fn cancelSignal(&mut self, threadPtr: word_t, ntfnPtr: word_t)
        requires
            old(self).sched.wf(),
            can_cancel_signal(old(self)@, threadPtr, ntfnPtr),
        ensures
            final(self).sched.wf(),
            final(self)@ == spec_cancel_signal(old(self)@, threadPtr, ntfnPtr),
    {
        let ntfn_queue = self.ntfn_ptr_get_queue(ntfnPtr);
        let ntfn_queue = tcbEPDequeue(&mut self.tcbs, threadPtr, ntfn_queue);
        self.ntfn_ptr_set_queue(ntfnPtr, ntfn_queue);
        if ntfn_queue.head == 0 {
            let mut n = read_ntfn(&self.ntfns, ntfnPtr);
            notification_ptr_set_state(&mut n, NtfnState_Idle);
            self.ntfns.insert(ntfnPtr, n);
        }
        self.setThreadState(threadPtr, ThreadState_Inactive);
    }

    /// Delivers the badge of an active notification to the thread at `tcb`
    /// (in its badge register) and makes the notification idle.
    pub fn completeSignal(&mut self, ntfnPtr: word_t, tcb: word_t)
        requires
            old(self).ntfns@.contains_key(ntfnPtr),
            tcb != 0,
            spec_ntfn_state(old(self).ntfns@[ntfnPtr]) == NtfnState_Active,
            old(self).tcbs@.contains_key(tcb),
        ensures
            ({
                let s = old(self)@;
                let badge = spec_ntfn_msg_identifier(s.ntfns[ntfnPtr]);
                let s1 = KState { tcbs: spec_set_register(s.tcbs, tcb, badgeRegister, badge), ..s };
                final(self)@ == with_ntfn(
                    s1,
                    ntfnPtr,
                    spec_ntfn_set_state(s1.ntfns[ntfnPtr], NtfnState_Idle),
                )
            }),
            final(self).sched == old(self).sched,
    {
        let badge = notification_ptr_get_ntfnMsgIdentifier(&read_ntfn(&self.ntfns, ntfnPtr));
        self.setRegister(tcb, badgeRegister, badge);
        let mut n = read_ntfn(&self.ntfns, ntfnPtr);
        notification_ptr_set_state(&mut n, NtfnState_Idle);
        self.ntfns.insert(ntfnPtr, n);
    }

    /// Cancels the IPC operation that the thread at `tptr` is blocked on.
    pub fn cancelIPC(&mut self, tptr: word_t)
        requires
            old(self).sched.wf(),
            can_cancel_ipc(old(self)@, tptr),
        ensures
            final(self).sched.wf(),
            final(self)@ == spec_cancel_ipc(old(self)@, tptr),
    {
        let state = read_tcb(&self.tcbs, tptr).tcbState;
        let tmp = thread_state_ptr_get_tsType(&state);
        if tmp == ThreadState_BlockedOnSend || tmp == ThreadState_BlockedOnReceive {
            let epptr = thread_state_ptr_get_blockingObject(&state);
            let queue = self.ep_ptr_get_queue(epptr);
            let queue = tcbEPDequeue(&mut self.tcbs, tptr, queue);
            self.ep_ptr_set_queue(epptr, queue);
            if queue.head == 0 {
                let mut e = read_ep(&self.eps, epptr);
                endpoint_ptr_set_state(&mut e, EPState_Idle);
                self.eps.insert(epptr, e);
            }
            self.setThreadState(tptr, ThreadState_Inactive);
        } else if tmp == ThreadState_BlockedOnNotification {
            let ntfnPtr = thread_state_ptr_get_blockingObject(&state);
            self.cancelSignal(tptr, ntfnPtr);
        } else if tmp == ThreadState_BlockedOnReply {
            let mut t = read_tcb(&self.tcbs, tptr);
            t.tcbFault = seL4_Fault_NullFault_new();
            self.tcbs.insert(tptr, t);
            let slot = TCB_PTR_CTE_PTR(tptr, tcbReply);
            let callerCap = mdb_node_get_mdbNext(read_cte(&self.ctes, slot).cteMDBNode);
            if callerCap != 0 {
                self.cteDeleteOne(callerCap, DeleteOneEvent::Start);
            }
        }
    }
}

// ---------------------------------------------------------------------------
// Signalling and waiting
// ---------------------------------------------------------------------------

/// The state after waking the thread at `t` with `badge`: it becomes
/// running, receives the badge in its badge register, and may be switched to.
pub open spec fn spec_wake_with_badge(s: KState, t: u64, badge: u64) -> KState {
    let s1 = spec_set_thread_state(s, t, ThreadState_Running);
    let s2 = KState { tcbs: spec_set_register(s1.tcbs, t, badgeRegister, badge), ..s1 };
    spec_possible_switch_to(s2, t)
}

/// Waking the thread at `t` with a badge can run.
pub open spec fn can_wake_with_badge(s: KState, t: u64, badge: u64) -> bool {
    let s1 = spec_set_thread_state(s, t, ThreadState_Running);
    let s2 = KState { tcbs: spec_set_register(s1.tcbs, t, badgeRegister, badge), ..s1 };
    &&& can_set_thread_state(s, t)
    &&& can_possible_switch_to(s2, t)
}

/// The state after the first waiter `dest` leaves the queue of the
/// notification at `n`; the notification becomes idle when its queue
/// empties.
pub open spec fn spec_ntfn_pop_waiter(s: KState, n: u64, dest: u64) -> KState {
    spec_ntfn_remove_waiter(s, dest, n)
}

/// The state after `sendSignal(n, badge)`.
///
/// An idle notification wakes its bound thread if that thread waits to
/// receive (cancelling that receive); otherwise it becomes active with the
/// badge. A waiting notification wakes the thread at the head of its queue
/// with the badge. An active notification adds the badge to the ones it holds
/// (bitwise or).
pub open spec fn spec_send_signal(s: KState, n: u64, badge: u64) -> KState {
    let nt = s.ntfns[n];
    let st = spec_ntfn_state(nt);
    if st == NtfnState_Idle {
        let t = spec_ntfn_bound_tcb(nt);
        if t != 0 && spec_ts_type(s.tcbs[t].tcbState) == ThreadState_BlockedOnReceive {
            spec_wake_with_badge(spec_cancel_ipc(s, t), t, badge)
        } else {
            spec_ntfn_set_active(s, n, badge)
        }
    } else if st == NtfnState_Waiting {
        let dest = spec_ntfn_get_queue(nt).head;
        spec_wake_with_badge(spec_ntfn_pop_waiter(s, n, dest), dest, badge)
    } else if st == NtfnState_Active {
        with_ntfn(s, n, spec_ntfn_set_msg_identifier(nt, spec_ntfn_msg_identifier(nt) | badge))
    } else {
        s
    }
}

/// `sendSignal(n, badge)` can run.
pub open spec fn can_send_signal(s: KState, n: u64, badge: u64) -> bool {
    let nt = s.ntfns[n];
    let st = spec_ntfn_state(nt);
    &&& s.ntfns.contains_key(n)
    &&& st == NtfnState_Idle ==> {
        let t = spec_ntfn_bound_tcb(nt);
        &&& t != 0 ==> s.tcbs.contains_key(t)
        &&& t != 0 && spec_ts_type(s.tcbs[t].tcbState) == ThreadState_BlockedOnReceive ==> {
            &&& can_cancel_ipc(s, t)
            &&& can_wake_with_badge(spec_cancel_ipc(s, t), t, badge)
        }
    }
    &&& st == NtfnState_Waiting ==> {
        let dest = spec_ntfn_get_queue(nt).head;
        &&& can_cancel_signal(s, dest, n)
        &&& can_wake_with_badge(spec_ntfn_pop_waiter(s, n, dest), dest, badge)
    }
}

/// The TCB at `t` after it starts waiting on the notification at `n`.
pub open spec fn spec_block_on_ntfn(tt: tcb_t, n: u64) -> tcb_t {
    tcb_t {
        tcbState: spec_ts_set_blocking_object(
            spec_ts_set_ts_type(tt.tcbState, ThreadState_BlockedOnNotification),
            n,
        ),
        ..tt
    }
}

/// The state after `receiveSignal(t, cap, isBlocking)` on the notification
/// that `cap` names.
///
/// On an idle or waiting notification a blocking receiver blocks and joins
/// the end of the queue (the notification is then waiting), and a
/// non-blocking one has its badge register cleared. On an active
/// notification the receiver gets the badge in its badge register and the
/// notification becomes idle.
pub open spec fn spec_receive_signal(s: KState, t: u64, c: cap_t, isBlocking: u64) -> KState {
    let n = spec_cap_ntfn_ptr(c);
    let nt = s.ntfns[n];
    let st = spec_ntfn_state(nt);
    if st == NtfnState_Idle || st == NtfnState_Waiting {
        if isBlocking != 0 {
            let s1 = spec_schedule_tcb(with_tcb(s, t, spec_block_on_ntfn(s.tcbs[t], n)), t);
            let q = spec_ntfn_get_queue(s1.ntfns[n]);
            let q1 = spec_ep_append_queue(t, q);
            let s2 = KState { tcbs: spec_ep_append_tcbs(s1.tcbs, t, q), ..s1 };
            let s3 = with_ntfn(s2, n, spec_ntfn_set_state(s2.ntfns[n], NtfnState_Waiting));
            with_ntfn(s3, n, spec_ntfn_set_queue(s3.ntfns[n], q1))
        } else {
            KState { tcbs: spec_set_register(s.tcbs, t, badgeRegister, 0), ..s }
        }
    } else if st == NtfnState_Active {
        let s1 = KState {
            tcbs: spec_set_register(s.tcbs, t, badgeRegister, spec_ntfn_msg_identifier(nt)),
            ..s
        };
        with_ntfn(s1, n, spec_ntfn_set_state(s1.ntfns[n], NtfnState_Idle))
    } else {
        s
    }
}

/// `receiveSignal(t, cap, isBlocking)` can run.
pub open spec fn can_receive_signal(s: KState, t: u64, c: cap_t, isBlocking: u64) -> bool {
    let n = spec_cap_ntfn_ptr(c);
    let nt = s.ntfns[n];
    let st = spec_ntfn_state(nt);
    &&& s.ntfns.contains_key(n)
    &&& s.tcbs.contains_key(t)
    &&& (st == NtfnState_Idle || st == NtfnState_Waiting) && isBlocking != 0 ==> {
        let q = spec_ntfn_get_queue(nt);
        q.head != 0 ==> s.tcbs.contains_key(q.end)
    }
}

impl KernelState {
    /// Wakes the thread at `t` with `badge`.
    fn wake_with_badge(&mut self, t: word_t, badge: word_t)
        requires
            old(self).sched.wf(),
            can_wake_with_badge(old(self)@, t, badge),
        ensures
            final(self).sched.wf(),
            final(self)@ == spec_wake_with_badge(old(self)@, t, badge),
    {
        self.setThreadState(t, ThreadState_Running);
        self.setRegister(t, badgeRegister, badge);
        self.possibleSwitchTo(t);
    }

    /// Signals the notification at `ntfnPtr` with `badge`.
    pub fn sendSignal(&mut self, ntfnPtr: word_t, badge: word_t)
        requires
            old(self).sched.wf(),
            can_send_signal(old(self)@, ntfnPtr, badge),
        ensures
            final(self).sched.wf(),
            final(self)@ == spec_send_signal(old(self)@, ntfnPtr, badge),
    {
        let nt = read_ntfn(&self.ntfns, ntfnPtr);
        let tmp = notification_ptr_get_state(&nt);
        if tmp == NtfnState_Idle {
            let tcb = notification_ptr_get_ntfnBoundTCB(&nt);
            if tcb != 0 {
                if thread_state_ptr_get_tsType(&read_tcb(&self.tcbs, tcb).tcbState)
                    == ThreadState_BlockedOnReceive {
                    self.cancelIPC(tcb);
                    self.wake_with_badge(tcb, badge);
                } else {
                    self.ntfn_set_active(ntfnPtr, badge);
                }
            } else {
                self.ntfn_set_active(ntfnPtr, badge);
            }
        } else if tmp == NtfnState_Waiting {
            let ntfn_queue = self.ntfn_ptr_get_queue(ntfnPtr);
            let dest = ntfn_queue.head;
            let ntfn_queue = tcbEPDequeue(&mut self.tcbs, dest, ntfn_queue);
            self.ntfn_ptr_set_queue(ntfnPtr, ntfn_queue);
            if ntfn_queue.head == 0 {
                let mut n = read_ntfn(&self.ntfns, ntfnPtr);
                notification_ptr_set_state(&mut n, NtfnState_Idle);
                self.ntfns.insert(ntfnPtr, n);
            }
            self.wake_with_badge(dest, badge);
        } else if tmp == NtfnState_Active {
            let badge2 = notification_ptr_get_ntfnMsgIdentifier(&nt) | badge;
            let mut n = read_ntfn(&self.ntfns, ntfnPtr);
            notification_ptr_set_ntfnMsgIdentifier(&mut n, badge2);
            self.ntfns.insert(ntfnPtr, n);
        }
    }

    /// Receives a signal for the thread at `thread` from the notification
    /// that `cap` names.
    pub fn receiveSignal(&mut self, thread: word_t, cap: cap_t, isBlocking: word_t)
        requires
            old(self).sched.wf(),
            can_receive_signal(old(self)@, thread, cap, isBlocking),
        ensures
            final(self).sched.wf(),
            final(self)@ == spec_receive_signal(old(self)@, thread, cap, isBlocking),
    {
        let ntfnPtr = cap_notification_cap_get_capNtfnPtr(cap);
        let tmp = notification_ptr_get_state(&read_ntfn(&self.ntfns, ntfnPtr));
        if tmp == NtfnState_Idle || tmp == NtfnState_Waiting {
            if isBlocking != 0 {
                let mut t = read_tcb(&self.tcbs, thread);
                thread_state_ptr_set_tsType(&mut t.tcbState, ThreadState_BlockedOnNotification);
                thread_state_ptr_set_blockingObject(&mut t.tcbState, ntfnPtr);
                self.tcbs.insert(thread, t);
                self.scheduleTCB(thread);
                let ntfn_queue = self.ntfn_ptr_get_queue(ntfnPtr);
                let ntfn_queue = tcbEPAppend(&mut self.tcbs, thread, ntfn_queue);
                let mut n = read_ntfn(&self.ntfns, ntfnPtr);
                notification_ptr_set_state(&mut n, NtfnState_Waiting);
                self.ntfns.insert(ntfnPtr, n);
                self.ntfn_ptr_set_queue(ntfnPtr, ntfn_queue);
            } else {
                self.doNBRecvFailedTransfer(thread);
            }
        } else if tmp == NtfnState_Active {
            let badge = notification_ptr_get_ntfnMsgIdentifier(&read_ntfn(&self.ntfns, ntfnPtr));
            self.setRegister(thread, badgeRegister, badge);
            let mut n = read_ntfn(&self.ntfns, ntfnPtr);
            notification_ptr_set_state(&mut n, NtfnState_Idle);
            self.ntfns.insert(ntfnPtr, n);
        }
    }
}

// ---------------------------------------------------------------------------
// Cancelling all signals
// ---------------------------------------------------------------------------

/// `s` lists the threads reached by following the endpoint-queue successor
/// links from `start` until a zero link: each exists and links to the next.
pub open spec fn ep_chain(m: Map<u64, tcb_t>, start: u64, s: Seq<u64>) -> bool {
    &&& (s.len() == 0 <==> start == 0)
    &&& s.len() > 0 ==> s[0] == start
    &&& forall|i: int| 0 <= i < s.len() ==> #[trigger] ep_chain_link(m, s, i)
}

/// The `i`-th thread of `s` exists and links to the next one (to zero when
/// it is the last).
pub open spec fn ep_chain_link(m: Map<u64, tcb_t>, s: Seq<u64>, i: int) -> bool {
    &&& s[i] != 0
    &&& m.contains_key(s[i])
    &&& m[s[i]].tcbEPNext == if i + 1 < s.len() {
        s[i + 1]
    } else {
        0
    }
}

/// The state after restarting one thread of a cancelled notification: it is
/// set to restart, put into its ready queue, and a reschedule is required.
pub open spec fn spec_restart_one(s: KState, t: u64) -> KState {
    spec_reschedule_required(spec_sched_enqueue(spec_set_thread_state(s, t, ThreadState_Restart), t))
}

/// Restarting the thread at `t` can run.
pub open spec fn can_restart_one(s: KState, t: u64) -> bool {
    let s1 = spec_set_thread_state(s, t, ThreadState_Restart);
    &&& can_set_thread_state(s, t)
    &&& can_enqueue(s1, t)
    &&& can_reschedule(spec_sched_enqueue(s1, t))
}

/// The state after restarting the threads of `ts`, in order.
pub open spec fn spec_restart_all(s: KState, ts: Seq<u64>) -> KState
    decreases ts.len(),
{
    if ts.len() == 0 {
        s
    } else {
        spec_restart_all(spec_restart_one(s, ts[0]), ts.drop_first())
    }
}

/// Restarting the threads of `ts`, in order, can run.
pub open spec fn can_restart_all(s: KState, ts: Seq<u64>) -> bool
    decreases ts.len(),
{
    if ts.len() == 0 {
        true
    } else {
        can_restart_one(s, ts[0]) && can_restart_all(spec_restart_one(s, ts[0]), ts.drop_first())
    }
}

/// The state of a notification after `cancleAllSignals` clears it: idle,
/// with an empty queue.
pub open spec fn spec_ntfn_cleared(n: notification_t) -> notification_t {
    spec_ntfn_set_queue_tail(spec_ntfn_set_queue_head(spec_ntfn_set_state(n, NtfnState_Idle), 0), 0)
}

/// The state after `cancleAllSignals(n)` when the threads reached from the
/// queue head it reads are `ts`.
pub open spec fn spec_cancel_all_signals(s: KState, n: u64, ts: Seq<u64>) -> KState {
    if spec_ntfn_state(s.ntfns[n]) == NtfnState_Waiting {
        spec_restart_all(with_ntfn(s, n, spec_ntfn_cleared(s.ntfns[n])), ts)
    } else {
        s
    }
}

/// Restarting a thread leaves every TCB in place and keeps its
/// endpoint-queue successor link.
pub proof fn lemma_restart_one_keeps_ep_links(s: KState, t: u64)
    requires
        can_restart_one(s, t),
    ensures
        forall|a: u64|
            s.tcbs.contains_key(a) ==> #[trigger] spec_restart_one(s, t).tcbs.contains_key(a)
                && spec_restart_one(s, t).tcbs[a].tcbEPNext == s.tcbs[a].tcbEPNext,
{
    let s1 = spec_set_thread_state(s, t, ThreadState_Restart);
    let s2 = spec_sched_enqueue(s1, t);
    let s3 = spec_reschedule_required(s2);
    assert forall|a: u64| s.tcbs.contains_key(a) implies #[trigger] s3.tcbs.contains_key(a)
        && s3.tcbs[a].tcbEPNext == s.tcbs[a].tcbEPNext by {
        assert(s1.tcbs.contains_key(a) && s1.tcbs[a].tcbEPNext == s.tcbs[a].tcbEPNext);
        assert(s2.tcbs.contains_key(a) && s2.tcbs[a].tcbEPNext == s.tcbs[a].tcbEPNext);
    }
}

/// The first `k` threads of two chains from the same start agree.
proof fn lemma_ep_chain_prefix(m: Map<u64, tcb_t>, start: u64, s1: Seq<u64>, s2: Seq<u64>, k: int)
    requires
        ep_chain(m, start, s1),
        ep_chain(m, start, s2),
        0 <= k <= s1.len(),
        k <= s2.len(),
    ensures
        forall|i: int| 0 <= i < k ==> s1[i] == s2[i],
    decreases k,
{
    if k > 0 {
        lemma_ep_chain_prefix(m, start, s1, s2, k - 1);
        if k - 1 > 0 {
            assert(ep_chain_link(m, s1, k - 2));
            assert(ep_chain_link(m, s2, k - 2));
        }
    }
}

/// The threads reached from a start thread are determined by the links.
pub proof fn lemma_ep_chain_unique(m: Map<u64, tcb_t>, start: u64, s1: Seq<u64>, s2: Seq<u64>)
    requires
        ep_chain(m, start, s1),
        ep_chain(m, start, s2),
    ensures
        s1 == s2,
{
    if s1.len() <= s2.len() {
        lemma_ep_chain_prefix(m, start, s1, s2, s1.len() as int);
        if s1.len() < s2.len() {
            if s1.len() > 0 {
                let j = s1.len() - 1;
                assert(ep_chain_link(m, s1, j));
                assert(ep_chain_link(m, s2, j));
                assert(ep_chain_link(m, s2, j + 1));
            }
        }
    } else {
        lemma_ep_chain_prefix(m, start, s1, s2, s2.len() as int);
        if s2.len() > 0 {
            let j = s2.len() - 1;
            assert(ep_chain_link(m, s2, j));
            assert(ep_chain_link(m, s1, j));
            assert(ep_chain_link(m, s1, j + 1));
        }
    }
    assert(s1 =~= s2);
}

impl KernelState {
    /// Cancels every wait on the notification at `ntfnPtr`: a waiting
    /// notification becomes idle with an empty queue, and each thread reached
    /// from the queue head it reads (`ts`) is restarted and queued to run.
    pub fn cancleAllSignals(&mut self, ntfnPtr: word_t)
        requires
            old(self).sched.wf(),
            old(self).ntfns@.contains_key(ntfnPtr),
            spec_ntfn_state(old(self).ntfns@[ntfnPtr]) == NtfnState_Waiting ==> exists|ts: Seq<u64>|
                {
                    &&& ep_chain(
                        old(self).tcbs@,
                        spec_ntfn_get_queue(old(self).ntfns@[ntfnPtr]).head,
                        ts,
                    )
                    &&& can_restart_all(
                        with_ntfn(
                            old(self)@,
                            ntfnPtr,
                            spec_ntfn_cleared(old(self).ntfns@[ntfnPtr]),
                        ),
                        ts,
                    )
                },
        ensures
            final(self).sched.wf(),
            spec_ntfn_state(old(self).ntfns@[ntfnPtr]) != NtfnState_Waiting ==> final(self)@ == old(
                self,
            )@,
            forall|ts: Seq<u64>|
                ep_chain(old(self).tcbs@, spec_ntfn_get_queue(old(self).ntfns@[ntfnPtr]).head, ts)
                    ==> final(self)@ == spec_cancel_all_signals(old(self)@, ntfnPtr, ts),
    {
        let ghost ts = choose|ts: Seq<u64>|
            {
                &&& ep_chain(
                    old(self).tcbs@,
                    spec_ntfn_get_queue(old(self).ntfns@[ntfnPtr]).head,
                    ts,
                )
                &&& can_restart_all(
                    with_ntfn(old(self)@, ntfnPtr, spec_ntfn_cleared(old(self).ntfns@[ntfnPtr])),
                    ts,
                )
            };
        proof {
            assert forall|ts2: Seq<u64>|
                ep_chain(
                    old(self).tcbs@,
                    spec_ntfn_get_queue(old(self).ntfns@[ntfnPtr]).head,
                    ts2,
                ) && spec_ntfn_state(old(self).ntfns@[ntfnPtr]) == NtfnState_Waiting implies ts2
                == ts by {
                lemma_ep_chain_unique(
                    old(self).tcbs@,
                    spec_ntfn_get_queue(old(self).ntfns@[ntfnPtr]).head,
                    ts,
                    ts2,
                );
            }
        }
        let mut n = read_ntfn(&self.ntfns, ntfnPtr);
        if notification_ptr_get_state(&n) == NtfnState_Waiting {
            let mut thread = notification_ptr_get_ntfnQueue_head(&n);
            notification_ptr_set_state(&mut n, NtfnState_Idle);
            notification_ptr_set_ntfnQueue_head(&mut n, 0);
            notification_ptr_set_ntfnQueue_tail(&mut n, 0);
            self.ntfns.insert(ntfnPtr, n);
            let ghost mut rest = ts;
            let ghost target = spec_cancel_all_signals(old(self)@, ntfnPtr, ts);
            while thread != 0
                invariant
                    self.sched.wf(),
                    ep_chain(self.tcbs@, thread, rest),
                    can_restart_all(self@, rest),
                    spec_restart_all(self@, rest) == target,
                decreases rest.len(),
            {
                proof {
                    lemma_restart_one_keeps_ep_links(self@, thread);
                    assert(rest[0] == thread);
                    assert(ep_chain_link(self.tcbs@, rest, 0));
                }
                let ghost before = self@;
                self.setThreadState(thread, ThreadState_Restart);
                self.tcbSchedEnqueue(thread);
                self.rescheduleRequired();
                thread = read_tcb(&self.tcbs, thread).tcbEPNext;
                proof {
                    let r2 = rest.drop_first();
                    assert(self@ == spec_restart_one(before, rest[0]));
                    assert(self.tcbs@[rest[0]].tcbEPNext == before.tcbs[rest[0]].tcbEPNext);
                    if rest.len() > 1 {
                        assert(ep_chain_link(before.tcbs, rest, 1));
                    }
                    assert forall|i: int| 0 <= i < r2.len() implies #[trigger] ep_chain_link(
                        self.tcbs@,
                        r2,
                        i,
                    ) by {
                        assert(ep_chain_link(before.tcbs, rest, i + 1));
                        assert(r2[i] == rest[i + 1]);
                    }
                    rest = r2;
                }
            }
        }
    }
}

} // verus!
