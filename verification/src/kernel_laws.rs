//! Laws that relate several kernel operations.
use vstd::prelude::*;

use crate::bitfield_laws::{law_ntfn_set_bound_tcb, law_ntfn_set_msg_identifier, law_ntfn_set_state};
use crate::notification::{
    spec_bind_notification, spec_ntfn_set_active, spec_receive_signal, spec_send_signal,
    spec_unbind_notification,
};
use crate::object::{
    cap_t, lemma_constant_fields, NtfnState_Active, NtfnState_Idle, spec_cap_ntfn_ptr,
    spec_ntfn_bound_tcb, spec_ntfn_msg_identifier, spec_ntfn_state, tcb_t,
};
use crate::state::{KState, SchedulerAction_ChooseNewThread, tcb_queue_t};
use crate::bitfield_laws::law_ts_set_tcb_queued;
use crate::state::bit_set;
use crate::thread::prio_marked;
use crate::tcb::{
    can_enqueue, is_queued, queues_marked, spec_sched_dequeue, spec_sched_enqueue,
    ep_queue_wf, law_ep_append_wf, law_ep_dequeue_wf, lemma_prio_split, spec_add_to_bitmap,
    spec_ep_append_queue, spec_ep_append_tcbs, spec_ep_dequeue_queue, spec_ep_dequeue_tcbs,
    spec_invert_l1index, spec_prio_to_l1index, spec_remove_from_bitmap,
};
use crate::bitfield_laws::{law_ntfn_set_queue_head, law_ntfn_set_queue_tail, law_ts_set_ts_type};
use crate::object::spec_ts_blocking_object;
use crate::notification::{spec_cancel_ipc, spec_wake_with_badge};
use crate::cnode::spec_setup_reply_master;
use crate::object::{
    spec_ts_type, ThreadState_BlockedOnNotification, ThreadState_BlockedOnReceive,
    ThreadState_BlockedOnReply, ThreadState_BlockedOnSend, ThreadState_Inactive,
    ThreadState_Restart, ThreadState_Running, NtfnState_Waiting, spec_ntfn_queue_head,
};
use crate::state::SchedulerAction_ResumeCurrentThread;
use crate::thread::{
    spec_is_runnable, spec_restart, spec_set_priority, spec_set_register, spec_set_thread_state,
    spec_with_priority,
};
use crate::thread::{badgeRegister, can_reschedule, spec_get_register, spec_reschedule_required};

verus! {

/// A signal sent to an idle notification with no bound thread is delivered
/// to the next thread that receives from it: the receiver gets the badge in
/// its badge register and the notification is idle again.
pub proof fn law_signal_then_receive(s: KState, n: u64, badge: u64, t: u64, c: cap_t, isBlocking: u64)
    requires
        s.ntfns.contains_key(n),
        spec_ntfn_state(s.ntfns[n]) == NtfnState_Idle,
        spec_ntfn_bound_tcb(s.ntfns[n]) == 0,
        s.tcbs.contains_key(t),
        spec_cap_ntfn_ptr(c) == n,
    ensures
        ({
            let s2 = spec_receive_signal(spec_send_signal(s, n, badge), t, c, isBlocking);
            &&& spec_get_register(s2.tcbs, t, badgeRegister) == badge
            &&& spec_ntfn_state(s2.ntfns[n]) == NtfnState_Idle
        }),
{
    let nt = s.ntfns[n];
    law_ntfn_set_state(nt, NtfnState_Active);
    let nt1 = crate::object::spec_ntfn_set_state(nt, NtfnState_Active);
    law_ntfn_set_msg_identifier(nt1, badge);
    let nt2 = crate::object::spec_ntfn_set_msg_identifier(nt1, badge);
    law_ntfn_set_state(nt2, NtfnState_Idle);
    let s1 = spec_send_signal(s, n, badge);
    assert(s1 == spec_ntfn_set_active(s, n, badge));
    assert(s1.ntfns[n] == nt2);
    lemma_constant_fields();
    assert(spec_ntfn_state(nt2) == NtfnState_Active);
}

/// Signals sent to an idle notification with no bound thread accumulate:
/// after two of them it is active and holds the bitwise or of both badges.
pub proof fn law_signals_accumulate(s: KState, n: u64, b1: u64, b2: u64)
    requires
        s.ntfns.contains_key(n),
        spec_ntfn_state(s.ntfns[n]) == NtfnState_Idle,
        spec_ntfn_bound_tcb(s.ntfns[n]) == 0,
    ensures
        ({
            let s2 = spec_send_signal(spec_send_signal(s, n, b1), n, b2);
            &&& spec_ntfn_state(s2.ntfns[n]) == NtfnState_Active
            &&& spec_ntfn_msg_identifier(s2.ntfns[n]) == b1 | b2
        }),
{
    let nt = s.ntfns[n];
    law_ntfn_set_state(nt, NtfnState_Active);
    let nt1 = crate::object::spec_ntfn_set_state(nt, NtfnState_Active);
    law_ntfn_set_msg_identifier(nt1, b1);
    let nt2 = crate::object::spec_ntfn_set_msg_identifier(nt1, b1);
    law_ntfn_set_msg_identifier(nt2, b1 | b2);
    lemma_constant_fields();
}

/// Binding a notification to a thread and then unbinding the thread leaves
/// both unbound: the thread names no notification and the notification's
/// bound-TCB field reads zero. Every other object is as before binding.
pub proof fn law_bind_then_unbind(s: KState, t: u64, n: u64)
    requires
        s.tcbs.contains_key(t),
        s.ntfns.contains_key(n),
        n != 0,
    ensures
        ({
            let s2 = spec_unbind_notification(spec_bind_notification(s, t, n), t);
            &&& s2.tcbs[t].tcbBoundNotification == 0
            &&& spec_ntfn_bound_tcb(s2.ntfns[n]) == 0
            &&& s2.tcbs.dom() == s.tcbs.dom()
            &&& s2.ntfns.dom() == s.ntfns.dom()
            &&& forall|a: u64| s.tcbs.contains_key(a) && a != t ==> #[trigger] s2.tcbs[a] == s.tcbs[a]
            &&& forall|a: u64| s.ntfns.contains_key(a) && a != n ==> #[trigger] s2.ntfns[a] == s.ntfns[a]
            &&& s2.ctes == s.ctes
            &&& s2.eps == s.eps
        }),
{
    let nt = s.ntfns[n];
    let nt1 = crate::object::spec_ntfn_set_bound_tcb(nt, t);
    law_ntfn_set_bound_tcb(nt1, 0);
    let s1 = spec_bind_notification(s, t, n);
    let s2 = spec_unbind_notification(s1, t);
    assert(s1.tcbs[t].tcbBoundNotification == n);
    lemma_constant_fields();
    assert(s2.tcbs.dom() =~= s.tcbs.dom());
    assert(s2.ntfns.dom() =~= s.ntfns.dom());
}

/// Asking for a reschedule twice has the same effect as asking once.
pub proof fn law_reschedule_idempotent(s: KState)
    requires
        can_reschedule(s),
    ensures
        spec_reschedule_required(spec_reschedule_required(s)) == spec_reschedule_required(s),
        spec_reschedule_required(s).action == SchedulerAction_ChooseNewThread,
{
}

/// Appending a thread to a well-formed queue and then removing it again gives
/// a well-formed queue of the same threads in the same order.
pub proof fn law_ep_append_then_dequeue(m: Map<u64, tcb_t>, queue: tcb_queue_t, s: Seq<u64>, t: u64)
    requires
        ep_queue_wf(m, queue, s),
        t != 0,
        m.contains_key(t),
        !s.contains(t),
    ensures
        ({
            let m1 = spec_ep_append_tcbs(m, t, queue);
            let q1 = spec_ep_append_queue(t, queue);
            ep_queue_wf(spec_ep_dequeue_tcbs(m1, t), spec_ep_dequeue_queue(m1, t, q1), s)
        }),
{
    law_ep_append_wf(m, queue, s, t);
    let m1 = spec_ep_append_tcbs(m, t, queue);
    let q1 = spec_ep_append_queue(t, queue);
    let s1 = s.push(t);
    law_ep_dequeue_wf(m1, q1, s1, s.len() as int);
    assert(s1.remove(s.len() as int) =~= s);
}

/// Marking a priority runnable and then not runnable restores the bitmaps,
/// when it was not marked before.
pub proof fn law_bitmap_add_then_remove(s: KState, prio: u64)
    requires
        s.sched_wf(),
        prio < 256,
        !prio_marked(s.l2_bitmap, prio),
    ensures
        spec_remove_from_bitmap(spec_add_to_bitmap(s, prio), prio) == s,
{
    let l1i = spec_prio_to_l1index(prio);
    let i = spec_invert_l1index(l1i) as int;
    let l1 = s.l1_bitmap;
    let w = s.l2_bitmap[i];
    let b = prio & 63u64;
    lemma_prio_split(prio);
    assert(!bit_set(w, b));
    assert((w | (1u64 << b)) & !(1u64 << b) == w) by (bit_vector)
        requires
            b < 64,
            (w >> b) & 1u64 != 1u64,
    ;
    assert(bit_set(l1, l1i) <==> w != 0);
    if w == 0 {
        assert((l1 | (1u64 << l1i)) & !(1u64 << l1i) == l1) by (bit_vector)
            requires
                (l1 >> l1i) & 1u64 != 1u64,
                l1i < 4,
        ;
    } else {
        assert(l1 | (1u64 << l1i) == l1) by (bit_vector)
            requires
                (l1 >> l1i) & 1u64 == 1u64,
                l1i < 4,
        ;
    }
    let s1 = spec_add_to_bitmap(s, prio);
    let s2 = spec_remove_from_bitmap(s1, prio);
    assert(s2.l2_bitmap =~= s.l2_bitmap);
}

/// Putting a thread that is not queued into its ready queue and then taking
/// it out again restores the ready queues and the bitmaps, and leaves the
/// thread not queued.
pub proof fn law_sched_enqueue_then_dequeue(s: KState, t: u64)
    requires
        s.sched_wf(),
        queues_marked(s),
        can_enqueue(s, t),
        !is_queued(s.tcbs, t),
    ensures
        ({
            let s2 = spec_sched_dequeue(spec_sched_enqueue(s, t), t);
            &&& s2.ready_queues == s.ready_queues
            &&& s2.l1_bitmap == s.l1_bitmap
            &&& s2.l2_bitmap == s.l2_bitmap
            &&& !is_queued(s2.tcbs, t)
        }),
{
    let p = s.tcbs[t].tcbPriority;
    let q = s.ready_queues[p as int];
    let s1 = spec_sched_enqueue(s, t);
    law_ts_set_tcb_queued(s.tcbs[t].tcbState, 1);
    law_ts_set_tcb_queued(s1.tcbs[t].tcbState, 0);
    assert(1u64 & 0x1u64 == 1u64 && 0u64 & 0x1u64 == 0u64) by (bit_vector);
    assert(s1.tcbs[t].tcbSchedPrev == 0);
    assert(s1.tcbs[t].tcbSchedNext == q.head);
    assert(s1.tcbs[t].tcbPriority == p);
    assert(is_queued(s1.tcbs, t));
    assert(q.head == 0 <==> q.end == 0);
    assert(s1.ready_queues[p as int].head == t);
    if q.end == 0 {
        assert(q.head == 0);
        assert(!prio_marked(s.l2_bitmap, p));
        law_bitmap_add_then_remove(s, p);
    }
    let s2 = spec_sched_dequeue(s1, t);
    assert(s2.ready_queues =~= s.ready_queues);
}

/// A signal sent to an idle notification is never lost: unless the bound
/// thread is blocked receiving (and takes the badge at once), the
/// notification becomes active holding the badge, whatever thread it is
/// bound to.
pub proof fn law_signal_to_idle_is_kept(s: KState, n: u64, badge: u64)
    requires
        s.ntfns.contains_key(n),
        spec_ntfn_state(s.ntfns[n]) == NtfnState_Idle,
        spec_ntfn_bound_tcb(s.ntfns[n]) == 0 || spec_ts_type(
            s.tcbs[spec_ntfn_bound_tcb(s.ntfns[n])].tcbState,
        ) != ThreadState_BlockedOnReceive,
    ensures
        ({
            let s2 = spec_send_signal(s, n, badge);
            &&& s2.ntfns.contains_key(n)
            &&& spec_ntfn_state(s2.ntfns[n]) == NtfnState_Active
            &&& spec_ntfn_msg_identifier(s2.ntfns[n]) == badge
            &&& spec_ntfn_bound_tcb(s2.ntfns[n]) == spec_ntfn_bound_tcb(s.ntfns[n])
        }),
{
    let nt = s.ntfns[n];
    law_ntfn_set_state(nt, NtfnState_Active);
    let nt1 = crate::object::spec_ntfn_set_state(nt, NtfnState_Active);
    law_ntfn_set_msg_identifier(nt1, badge);
    lemma_constant_fields();
}

/// Putting a thread into its ready queue changes no thread's state kind,
/// priority or queued flag except to mark the thread put in as queued.
proof fn lemma_enqueue_keeps(s: KState, a: u64, t: u64)
    ensures
        ({
            let s2 = spec_sched_enqueue(s, a);
            &&& spec_ts_type(s2.tcbs[t].tcbState) == spec_ts_type(s.tcbs[t].tcbState)
            &&& s2.tcbs[t].tcbArch == s.tcbs[t].tcbArch
            &&& s2.tcbs[t].tcbPriority == s.tcbs[t].tcbPriority
            &&& is_queued(s.tcbs, t) ==> is_queued(s2.tcbs, t)
            &&& is_queued(s2.tcbs, a)
            &&& s2.cur_thread == s.cur_thread
            &&& s2.action == s.action
        }),
{
    law_ts_set_tcb_queued(s.tcbs[t].tcbState, 1);
    law_ts_set_tcb_queued(s.tcbs[a].tcbState, 1);
    assert(1u64 & 0x1u64 == 1u64) by (bit_vector);
}

/// Asking for a reschedule changes no thread's state kind, priority or
/// queued flag except to queue the thread the scheduler was about to switch
/// to, and the scheduler is then to choose a new thread.
proof fn lemma_reschedule_keeps(s: KState, t: u64)
    ensures
        ({
            let s2 = spec_reschedule_required(s);
            &&& spec_ts_type(s2.tcbs[t].tcbState) == spec_ts_type(s.tcbs[t].tcbState)
            &&& s2.tcbs[t].tcbArch == s.tcbs[t].tcbArch
            &&& s2.tcbs[t].tcbPriority == s.tcbs[t].tcbPriority
            &&& is_queued(s.tcbs, t) ==> is_queued(s2.tcbs, t)
            &&& s2.cur_thread == s.cur_thread
            &&& s2.action == SchedulerAction_ChooseNewThread
        }),
{
    lemma_enqueue_keeps(s, s.action, t);
}

/// Restarting a thread that is inactive or blocked (sending, receiving,
/// waiting on a notification or for a reply) leaves it set to restart and
/// marked as queued in its ready queue.
pub proof fn law_restart_stopped(s: KState, t: u64)
    requires
        ({
            let ty = spec_ts_type(s.tcbs[t].tcbState);
            ty == ThreadState_Inactive || ty == ThreadState_BlockedOnReceive || ty
                == ThreadState_BlockedOnSend || ty == ThreadState_BlockedOnNotification || ty
                == ThreadState_BlockedOnReply
        }),
    ensures
        ({
            let s2 = spec_restart(s, t);
            &&& spec_ts_type(s2.tcbs[t].tcbState) == ThreadState_Restart
            &&& is_queued(s2.tcbs, t)
        }),
{
    let s1 = spec_cancel_ipc(s, t);
    let s2 = KState { ctes: spec_setup_reply_master(s1.ctes, t), ..s1 };
    let s3a = spec_set_thread_state(s2, t, ThreadState_Restart);
    law_ts_set_ts_type(s2.tcbs[t].tcbState, ThreadState_Restart);
    lemma_constant_fields();
    assert(ThreadState_Restart & 0xfu64 == ThreadState_Restart) by (bit_vector)
        requires
            ThreadState_Restart < 16,
    ;
    assert(spec_ts_type(s3a.tcbs[t].tcbState) == ThreadState_Restart);
    let s3 = spec_sched_enqueue(s3a, t);
    lemma_enqueue_keeps(s3a, t, t);
    if s3.cur_domain != s3.tcbs[t].tcbDomain {
        lemma_enqueue_keeps(s3, t, t);
    } else if s3.action != SchedulerAction_ResumeCurrentThread {
        let s4 = spec_reschedule_required(s3);
        lemma_reschedule_keeps(s3, t);
        lemma_enqueue_keeps(s4, t, t);
    }
}

/// Setting the priority of the current thread while it is runnable gives it
/// that priority and makes the scheduler choose a new thread, so that a
/// thread of higher priority runs next.
pub proof fn law_set_priority_current(s: KState, prio: u64)
    requires
        spec_is_runnable(s.tcbs, s.cur_thread),
    ensures
        ({
            let s2 = spec_set_priority(s, s.cur_thread, prio);
            &&& s2.tcbs[s.cur_thread].tcbPriority == prio
            &&& s2.action == SchedulerAction_ChooseNewThread
        }),
{
    let t = s.cur_thread;
    let s0 = spec_sched_dequeue(s, t);
    law_ts_set_tcb_queued(s.tcbs[t].tcbState, 0);
    assert(spec_ts_type(s0.tcbs[t].tcbState) == spec_ts_type(s.tcbs[t].tcbState));
    let s1 = spec_with_priority(s0, t, prio);
    assert(spec_is_runnable(s1.tcbs, t));
    lemma_reschedule_keeps(s1, t);
}

/// Setting the priority of a runnable thread other than the current one
/// gives it that priority and leaves it either queued in its ready queue or
/// named as the thread the scheduler is to switch to.
pub proof fn law_set_priority_other(s: KState, t: u64, prio: u64)
    requires
        t != s.cur_thread,
        spec_is_runnable(s.tcbs, t),
    ensures
        ({
            let s2 = spec_set_priority(s, t, prio);
            &&& s2.tcbs[t].tcbPriority == prio
            &&& is_queued(s2.tcbs, t) || s2.action == t
        }),
{
    let s0 = spec_sched_dequeue(s, t);
    law_ts_set_tcb_queued(s.tcbs[t].tcbState, 0);
    assert(spec_ts_type(s0.tcbs[t].tcbState) == spec_ts_type(s.tcbs[t].tcbState));
    let s1 = spec_with_priority(s0, t, prio);
    assert(spec_is_runnable(s1.tcbs, t));
    lemma_enqueue_keeps(s1, t, t);
    if s1.cur_domain == s1.tcbs[t].tcbDomain && s1.action != SchedulerAction_ResumeCurrentThread {
        let s4 = spec_reschedule_required(s1);
        lemma_reschedule_keeps(s1, t);
        lemma_enqueue_keeps(s4, t, t);
    }
}

/// Waking a thread with a badge leaves it running with the badge in its
/// badge register.
proof fn lemma_wake_with_badge(s: KState, t: u64, badge: u64)
    ensures
        ({
            let s2 = spec_wake_with_badge(s, t, badge);
            &&& spec_ts_type(s2.tcbs[t].tcbState) == ThreadState_Running
            &&& spec_get_register(s2.tcbs, t, badgeRegister) == badge
        }),
{
    law_ts_set_ts_type(s.tcbs[t].tcbState, ThreadState_Running);
    lemma_constant_fields();
    assert(ThreadState_Running & 0xfu64 == ThreadState_Running) by (bit_vector)
        requires
            ThreadState_Running < 16,
    ;
    let s1 = spec_set_thread_state(s, t, ThreadState_Running);
    assert(spec_ts_type(s1.tcbs[t].tcbState) == ThreadState_Running);
    let regs = s1.tcbs[t].tcbArch.tcbContext.registers;
    vstd::array::axiom_spec_array_update(regs, badgeRegister as int, badge);
    let s2 = KState { tcbs: spec_set_register(s1.tcbs, t, badgeRegister, badge), ..s1 };
    assert(spec_get_register(s2.tcbs, t, badgeRegister) == badge);
    assert(spec_ts_type(s2.tcbs[t].tcbState) == ThreadState_Running);
    if s2.cur_domain != s2.tcbs[t].tcbDomain {
        lemma_enqueue_keeps(s2, t, t);
    } else if s2.action != SchedulerAction_ResumeCurrentThread {
        let s4 = spec_reschedule_required(s2);
        lemma_reschedule_keeps(s2, t);
        lemma_enqueue_keeps(s4, t, t);
    }
}

/// A signal is delivered whatever state the notification is in: a thread
/// waiting on it (the first in its queue), or its bound thread when idle and
/// blocked receiving, wakes running with the badge in its badge register;
/// an active notification adds the badge to those it holds.
pub proof fn law_signal_delivered(s: KState, n: u64, badge: u64)
    requires
        s.ntfns.contains_key(n),
    ensures
        ({
            let nt = s.ntfns[n];
            let s2 = spec_send_signal(s, n, badge);
            let bound = spec_ntfn_bound_tcb(nt);
            let head = spec_ntfn_queue_head(nt);
            &&& spec_ntfn_state(nt) == NtfnState_Waiting ==> spec_ts_type(s2.tcbs[head].tcbState)
                == ThreadState_Running && spec_get_register(s2.tcbs, head, badgeRegister) == badge
            &&& spec_ntfn_state(nt) == NtfnState_Idle && bound != 0 && spec_ts_type(
                s.tcbs[bound].tcbState,
            ) == ThreadState_BlockedOnReceive ==> spec_ts_type(s2.tcbs[bound].tcbState)
                == ThreadState_Running && spec_get_register(s2.tcbs, bound, badgeRegister) == badge
            &&& spec_ntfn_state(nt) == NtfnState_Active ==> spec_ntfn_state(s2.ntfns[n])
                == NtfnState_Active && spec_ntfn_msg_identifier(s2.ntfns[n])
                == spec_ntfn_msg_identifier(nt) | badge
        }),
{
    let nt = s.ntfns[n];
    lemma_constant_fields();
    if spec_ntfn_state(nt) == NtfnState_Waiting {
        let dest = crate::notification::spec_ntfn_get_queue(nt).head;
        lemma_wake_with_badge(crate::notification::spec_ntfn_pop_waiter(s, n, dest), dest, badge);
    } else if spec_ntfn_state(nt) == NtfnState_Idle {
        let t = spec_ntfn_bound_tcb(nt);
        if t != 0 && spec_ts_type(s.tcbs[t].tcbState) == ThreadState_BlockedOnReceive {
            lemma_wake_with_badge(spec_cancel_ipc(s, t), t, badge);
        }
    } else if spec_ntfn_state(nt) == NtfnState_Active {
        law_ntfn_set_msg_identifier(nt, spec_ntfn_msg_identifier(nt) | badge);
    }
}

/// Restarting the only thread waiting on a notification cancels its wait:
/// the notification is left idle with an empty queue.
pub proof fn law_restart_cancels_notification_wait(s: KState, t: u64, n: u64)
    requires
        spec_ts_type(s.tcbs[t].tcbState) == ThreadState_BlockedOnNotification,
        spec_ts_blocking_object(s.tcbs[t].tcbState) == n,
        s.ntfns.contains_key(n),
        ep_queue_wf(s.tcbs, crate::notification::spec_ntfn_get_queue(s.ntfns[n]), seq![t]),
    ensures
        ({
            let s2 = spec_restart(s, t);
            &&& s2.ntfns.contains_key(n)
            &&& spec_ntfn_state(s2.ntfns[n]) == NtfnState_Idle
            &&& spec_ntfn_queue_head(s2.ntfns[n]) == 0
            &&& crate::object::spec_ntfn_queue_tail(s2.ntfns[n]) == 0
        }),
{
    let q = seq![t];
    assert(q[0] == t);
    assert(s.tcbs[t].tcbEPPrev == 0 && s.tcbs[t].tcbEPNext == 0);
    let nt = s.ntfns[n];
    let nt1 = crate::object::spec_ntfn_set_queue_head(nt, 0);
    let nt2 = crate::object::spec_ntfn_set_queue_tail(nt1, 0);
    law_ntfn_set_queue_head(nt, 0);
    law_ntfn_set_queue_tail(nt1, 0);
    law_ntfn_set_state(nt2, NtfnState_Idle);
    assert(crate::object::sign_extend_39(0u64 & 0x7fffffffffu64) == 0) by (bit_vector);
    lemma_constant_fields();
    let s1 = spec_cancel_ipc(s, t);
    assert(s1.ntfns.contains_key(n));
    assert(spec_ntfn_state(s1.ntfns[n]) == NtfnState_Idle);
    assert(spec_ntfn_queue_head(s1.ntfns[n]) == 0);
    assert(crate::object::spec_ntfn_queue_tail(s1.ntfns[n]) == 0);
    let s2 = KState { ctes: spec_setup_reply_master(s1.ctes, t), ..s1 };
    let s3a = spec_set_thread_state(s2, t, ThreadState_Restart);
    assert(s3a.ntfns == s1.ntfns);
    let s3 = spec_sched_enqueue(s3a, t);
    assert(s3.ntfns == s1.ntfns);
    assert(spec_restart(s, t).ntfns == s1.ntfns);
}

/// Restarting a thread that is neither inactive nor blocked changes nothing.
pub proof fn law_restart_other_unchanged(s: KState, t: u64)
    requires
        ({
            let ty = spec_ts_type(s.tcbs[t].tcbState);
            ty != ThreadState_Inactive && ty != ThreadState_BlockedOnReceive && ty
                != ThreadState_BlockedOnSend && ty != ThreadState_BlockedOnNotification && ty
                != ThreadState_BlockedOnReply
        }),
    ensures
        spec_restart(s, t) == s,
{
}

/// Setting the priority of a thread that is not runnable gives it that
/// priority, leaves it out of every ready queue and leaves the scheduler's
/// action and current thread alone.
pub proof fn law_set_priority_not_runnable(s: KState, t: u64, prio: u64)
    requires
        !spec_is_runnable(s.tcbs, t),
    ensures
        ({
            let s2 = spec_set_priority(s, t, prio);
            &&& s2.tcbs[t].tcbPriority == prio
            &&& !is_queued(s2.tcbs, t)
            &&& s2.action == s.action
            &&& s2.cur_thread == s.cur_thread
        }),
{
    law_ts_set_tcb_queued(s.tcbs[t].tcbState, 0);
    assert(0u64 & 0x1u64 == 0u64) by (bit_vector);
    let s0 = spec_sched_dequeue(s, t);
    assert(spec_ts_type(s0.tcbs[t].tcbState) == spec_ts_type(s.tcbs[t].tcbState));
    assert(!is_queued(s0.tcbs, t));
}

} // verus!
