//! Thread queues: the doubly linked queues of threads waiting on an endpoint
//! or notification, and the per-priority ready queues of the scheduler.
use vstd::prelude::*;

use std::collections::HashMap;

use crate::failures::{
    EXCEPTION_NONE, EXCEPTION_SYSCALL_ERROR, exception_t, seL4_RangeError, syscall_error,
};
use crate::object::{
    seL4_MinPrio, spec_ts_set_tcb_queued, spec_ts_tcb_queued, tcb_t, thread_state_get_tcbQueued,
    thread_state_ptr_set_tcbQueued,
};
use crate::state::{
    bitmap_wf, KernelState, KState, L2_BITMAP_SIZE, NUM_PRIORITIES, read_tcb, tcb_queue,
    tcb_queue_t,
};
use crate::ready_queues::{
    law_ready_queues_append, law_ready_queues_dequeue, law_ready_queues_enqueue, qs_push_back,
    qs_push_front, qs_take_out, ready_queues_wf,
};
use crate::types::{dom_t, prio_t, word_t, wordRadix};

verus! {

// ---------------------------------------------------------------------------
// Endpoint and notification queues
// ---------------------------------------------------------------------------

/// The TCB at `a` with its endpoint-queue successor set to `next`.
pub open spec fn with_ep_next(m: Map<u64, tcb_t>, a: u64, next: u64) -> Map<u64, tcb_t> {
    m.insert(a, tcb_t { tcbEPNext: next, ..m[a] })
}

/// The TCB at `a` with its endpoint-queue predecessor set to `prev`.
pub open spec fn with_ep_prev(m: Map<u64, tcb_t>, a: u64, prev: u64) -> Map<u64, tcb_t> {
    m.insert(a, tcb_t { tcbEPPrev: prev, ..m[a] })
}

/// The TCBs after appending `t` to `queue`.
pub open spec fn spec_ep_append_tcbs(m: Map<u64, tcb_t>, t: u64, queue: tcb_queue_t) -> Map<u64, tcb_t> {
    let m1 = if queue.head == 0 {
        m
    } else {
        with_ep_next(m, queue.end, t)
    };
    m1.insert(t, tcb_t { tcbEPPrev: queue.end, tcbEPNext: 0, ..m1[t] })
}

/// The queue after appending `t` to `queue`.
pub open spec fn spec_ep_append_queue(t: u64, queue: tcb_queue_t) -> tcb_queue_t {
    tcb_queue { head: if queue.head == 0 { t } else { queue.head }, end: t }
}

/// The TCBs after unlinking `t` from its predecessor.
pub open spec fn spec_ep_dequeue_step1(m: Map<u64, tcb_t>, t: u64) -> Map<u64, tcb_t> {
    if m[t].tcbEPPrev != 0 {
        with_ep_next(m, m[t].tcbEPPrev, m[t].tcbEPNext)
    } else {
        m
    }
}

/// The TCBs after removing `t` from its queue.
pub open spec fn spec_ep_dequeue_tcbs(m: Map<u64, tcb_t>, t: u64) -> Map<u64, tcb_t> {
    let m1 = spec_ep_dequeue_step1(m, t);
    if m1[t].tcbEPNext != 0 {
        with_ep_prev(m1, m1[t].tcbEPNext, m1[t].tcbEPPrev)
    } else {
        m1
    }
}

/// The queue after removing `t` from `queue`.
pub open spec fn spec_ep_dequeue_queue(m: Map<u64, tcb_t>, t: u64, queue: tcb_queue_t) -> tcb_queue_t {
    let m1 = spec_ep_dequeue_step1(m, t);
    tcb_queue {
        head: if m[t].tcbEPPrev != 0 {
            queue.head
        } else {
            m[t].tcbEPNext
        },
        end: if m1[t].tcbEPNext != 0 {
            queue.end
        } else {
            m1[t].tcbEPPrev
        },
    }
}

/// The objects that `tcbEPDequeue` reads and writes exist.
pub open spec fn ep_dequeue_pre(m: Map<u64, tcb_t>, t: u64) -> bool {
    &&& m.contains_key(t)
    &&& m[t].tcbEPPrev != 0 ==> m.contains_key(m[t].tcbEPPrev)
    &&& spec_ep_dequeue_step1(m, t)[t].tcbEPNext != 0 ==> m.contains_key(
        spec_ep_dequeue_step1(m, t)[t].tcbEPNext,
    )
}

/// Appends the thread at `tcb` to the end of `queue`, linking it in through
/// the endpoint-queue fields of the TCBs, and returns the new queue.
pub fn tcbEPAppend(tcbs: &mut HashMap<u64, tcb_t>, tcb: word_t, queue: tcb_queue_t) -> (ret:
    tcb_queue_t)
    requires
        old(tcbs)@.contains_key(tcb),
        queue.head != 0 ==> old(tcbs)@.contains_key(queue.end),
    ensures
        final(tcbs)@ == spec_ep_append_tcbs(old(tcbs)@, tcb, queue),
        ret == spec_ep_append_queue(tcb, queue),
{
    let mut queue = queue;
    if queue.head == 0 {
        queue.head = tcb;
    } else {
        let mut e = read_tcb(tcbs, queue.end);
        e.tcbEPNext = tcb;
        tcbs.insert(queue.end, e);
    }
    let mut t = read_tcb(tcbs, tcb);
    t.tcbEPPrev = queue.end;
    t.tcbEPNext = 0;
    tcbs.insert(tcb, t);
    queue.end = tcb;
    queue
}

/// Removes the thread at `tcb` from `queue`, unlinking it from its
/// neighbours, and returns the new queue. The removed TCB keeps its links.
pub fn tcbEPDequeue(tcbs: &mut HashMap<u64, tcb_t>, tcb: word_t, queue: tcb_queue_t) -> (ret:
    tcb_queue_t)
    requires
        ep_dequeue_pre(old(tcbs)@, tcb),
    ensures
        final(tcbs)@ == spec_ep_dequeue_tcbs(old(tcbs)@, tcb),
        ret == spec_ep_dequeue_queue(old(tcbs)@, tcb, queue),
{
    let mut queue = queue;
    let t = read_tcb(tcbs, tcb);
    if t.tcbEPPrev != 0 {
        let mut p = read_tcb(tcbs, t.tcbEPPrev);
        p.tcbEPNext = t.tcbEPNext;
        tcbs.insert(t.tcbEPPrev, p);
    } else {
        queue.head = t.tcbEPNext;
    }
    let t1 = read_tcb(tcbs, tcb);
    if t1.tcbEPNext != 0 {
        let mut n = read_tcb(tcbs, t1.tcbEPNext);
        n.tcbEPPrev = t1.tcbEPPrev;
        tcbs.insert(t1.tcbEPNext, n);
    } else {
        queue.end = t1.tcbEPPrev;
    }
    queue
}

// ---------------------------------------------------------------------------
// Well-formed queues
// ---------------------------------------------------------------------------

/// The predecessor that the `i`-th thread of queue `s` links to.
pub open spec fn ep_prev_of(s: Seq<u64>, i: int) -> u64 {
    if i == 0 {
        0
    } else {
        s[i - 1]
    }
}

/// The successor that the `i`-th thread of queue `s` links to.
pub open spec fn ep_next_of(s: Seq<u64>, i: int) -> u64 {
    if i == s.len() - 1 {
        0
    } else {
        s[i + 1]
    }
}

/// `queue` holds exactly the threads of `s`, in order: its head and end are
/// the first and last of them (zero when `s` is empty), every thread of `s`
/// is a distinct existing TCB, and each links to its neighbours in `s`.
pub open spec fn ep_queue_wf(m: Map<u64, tcb_t>, queue: tcb_queue_t, s: Seq<u64>) -> bool {
    &&& s.len() == 0 ==> queue.head == 0 && queue.end == 0
    &&& s.len() > 0 ==> queue.head == s[0] && queue.end == s[s.len() - 1]
    &&& s.no_duplicates()
    &&& forall|i: int| 0 <= i < s.len() ==> #[trigger] s[i] != 0 && m.contains_key(s[i])
    &&& forall|i: int| 0 <= i < s.len() ==> (#[trigger] m[s[i]]).tcbEPPrev == ep_prev_of(s, i)
    &&& forall|i: int| 0 <= i < s.len() ==> (#[trigger] m[s[i]]).tcbEPNext == ep_next_of(s, i)
}

/// Appending a thread that is not in a well-formed queue gives a well-formed
/// queue with the thread at its end; only the appended TCB and the old last
/// TCB change.
pub proof fn law_ep_append_wf(m: Map<u64, tcb_t>, queue: tcb_queue_t, s: Seq<u64>, t: u64)
    requires
        ep_queue_wf(m, queue, s),
        t != 0,
        m.contains_key(t),
        !s.contains(t),
    ensures
        queue.head != 0 ==> m.contains_key(queue.end),
        ep_queue_wf(spec_ep_append_tcbs(m, t, queue), spec_ep_append_queue(t, queue), s.push(t)),
        forall|a: u64|
            a != t && (s.len() == 0 || a != s[s.len() - 1]) ==> #[trigger] spec_ep_append_tcbs(
                m,
                t,
                queue,
            ).contains_key(a) == m.contains_key(a) && spec_ep_append_tcbs(m, t, queue)[a] == m[a],
{
    let m2 = spec_ep_append_tcbs(m, t, queue);
    let q2 = spec_ep_append_queue(t, queue);
    let s2 = s.push(t);
    if s.len() > 0 {
        assert(s[0] != 0);
        assert(m.contains_key(s[s.len() - 1]));
    }
    assert(s2.no_duplicates()) by {
        assert forall|i: int, j: int| 0 <= i < s2.len() && 0 <= j < s2.len() && i != j implies s2[i]
            != s2[j] by {
            if i < s.len() && j < s.len() {
            } else if i == s.len() {
                assert(s.contains(s2[j]) || j == s.len());
            } else {
                assert(s.contains(s2[i]));
            }
        }
    }
    assert forall|i: int| 0 <= i < s2.len() implies #[trigger] s2[i] != 0 && m2.contains_key(s2[i]) by {
        if i < s.len() {
            assert(s2[i] == s[i]);
        }
    }
    assert forall|i: int| 0 <= i < s2.len() implies (#[trigger] m2[s2[i]]).tcbEPPrev == ep_prev_of(
        s2,
        i,
    ) && m2[s2[i]].tcbEPNext == ep_next_of(s2, i) by {
        if i < s.len() {
            assert(s2[i] == s[i]);
            assert(s[i] != t) by {
                assert(s.contains(s[i]));
            }
            if i == s.len() - 1 {
                assert(queue.head != 0);
            } else {
                assert(s[i] != s[s.len() - 1]);
            }
        } else {
            assert(s2[i] == t);
        }
    }
}

/// Removing the `k`-th thread of a well-formed queue is possible (every TCB
/// it touches exists) and gives a well-formed queue of the other threads in
/// the same order. Only the removed thread's neighbours change.
pub proof fn law_ep_dequeue_wf(m: Map<u64, tcb_t>, queue: tcb_queue_t, s: Seq<u64>, k: int)
    requires
        ep_queue_wf(m, queue, s),
        0 <= k < s.len(),
    ensures
        ep_dequeue_pre(m, s[k]),
        ep_queue_wf(
            spec_ep_dequeue_tcbs(m, s[k]),
            spec_ep_dequeue_queue(m, s[k], queue),
            s.remove(k),
        ),
        forall|a: u64|
            a != ep_prev_of(s, k) && a != ep_next_of(s, k) ==> #[trigger] spec_ep_dequeue_tcbs(
                m,
                s[k],
            ).contains_key(a) == m.contains_key(a) && spec_ep_dequeue_tcbs(m, s[k])[a] == m[a],
{
    let t = s[k];
    let m1 = spec_ep_dequeue_step1(m, t);
    let m2 = spec_ep_dequeue_tcbs(m, t);
    let q2 = spec_ep_dequeue_queue(m, t, queue);
    let s2 = s.remove(k);
    assert(m[t].tcbEPPrev == ep_prev_of(s, k));
    assert(m[t].tcbEPNext == ep_next_of(s, k));
    if k > 0 {
        assert(s[k - 1] != 0 && m.contains_key(s[k - 1]));
        assert(s[k - 1] != t);
    }
    assert(m1[t] == m[t]);
    if k < s.len() - 1 {
        assert(s[k + 1] != 0 && m.contains_key(s[k + 1]));
        assert(s[k + 1] != t);
        if k > 0 {
            assert(s[k + 1] != s[k - 1]);
        }
    }
    assert(s2.len() == s.len() - 1);
    assert forall|i: int| 0 <= i < s2.len() implies #[trigger] s2[i] == if i < k {
        s[i]
    } else {
        s[i + 1]
    } by {}
    assert(s2.no_duplicates()) by {
        assert forall|i: int, j: int| 0 <= i < s2.len() && 0 <= j < s2.len() && i != j implies s2[i]
            != s2[j] by {
            let ii = if i < k { i } else { i + 1 };
            let jj = if j < k { j } else { j + 1 };
            assert(s2[i] == s[ii] && s2[j] == s[jj]);
        }
    }
    assert forall|i: int| 0 <= i < s2.len() implies #[trigger] s2[i] != 0 && m2.contains_key(s2[i]) by {
        let ii = if i < k { i } else { i + 1 };
        assert(s2[i] == s[ii]);
    }
    assert forall|i: int| 0 <= i < s2.len() implies (#[trigger] m2[s2[i]]).tcbEPPrev == ep_prev_of(
        s2,
        i,
    ) && m2[s2[i]].tcbEPNext == ep_next_of(s2, i) by {
        let ii = if i < k { i } else { i + 1 };
        assert(s2[i] == s[ii]);
        assert(s[ii] != t);
        if i > 0 {
            let pi = if i - 1 < k { i - 1 } else { i };
            assert(s2[i - 1] == s[pi]);
        }
        if i < s2.len() - 1 {
            let ni = if i + 1 < k { i + 1 } else { i + 2 };
            assert(s2[i + 1] == s[ni]);
        }
        if ii == k - 1 {
        } else if ii == k + 1 {
        } else {
            if k > 0 {
                assert(s[ii] != s[k - 1]);
            }
            if k < s.len() - 1 {
                assert(s[ii] != s[k + 1]);
            }
        }
    }
    if s2.len() > 0 {
        assert(q2.head == s2[0]) by {
            if k == 0 {
                assert(s2[0] == s[1]);
            } else {
                assert(s2[0] == s[0]);
            }
        }
        assert(q2.end == s2[s2.len() - 1]) by {
            if k == s.len() - 1 {
                assert(s2[s2.len() - 1] == s[s.len() - 2]);
            } else {
                assert(s2[s2.len() - 1] == s[s.len() - 1]);
            }
        }
    }
}

// ---------------------------------------------------------------------------
// Priorities and the ready-queue bitmap
// ---------------------------------------------------------------------------

/// The state after checking priority `prio` against the maximum controlled
/// priority of the thread at `auth`, and the exception returned.
pub open spec fn spec_check_prio(s: KState, prio: u64, auth: u64) -> (KState, u64) {
    let mcp = s.tcbs[auth].tcbMCP;
    if prio > mcp {
        (
            KState {
                current_syscall_error: syscall_error {
                    error_type: seL4_RangeError,
                    rangeErrorMin: seL4_MinPrio,
                    rangeErrorMax: mcp,
                    ..s.current_syscall_error
                },
                ..s
            },
            EXCEPTION_SYSCALL_ERROR,
        )
    } else {
        (s, EXCEPTION_NONE)
    }
}

impl KernelState {
    /// Checks that `prio` does not exceed the maximum controlled priority of
    /// the thread at `auth`; if it does, records a range error
    /// `[seL4_MinPrio, mcp]`.
    pub fn checkPrio(&mut self, prio: prio_t, auth: word_t) -> (ret: exception_t)
        requires
            old(self).tcbs@.contains_key(auth),
        ensures
            (final(self)@, ret) == spec_check_prio(old(self)@, prio, auth),
            final(self).sched == old(self).sched,
    {
        let mcp = read_tcb(&self.tcbs, auth).tcbMCP;
        if prio > mcp {
            self.current_syscall_error.error_type = seL4_RangeError;
            self.current_syscall_error.rangeErrorMin = seL4_MinPrio;
            self.current_syscall_error.rangeErrorMax = mcp;
            return EXCEPTION_SYSCALL_ERROR;
        }
        EXCEPTION_NONE
    }
}

/// The index of the first-level bitmap bit that covers priority `prio`.
pub open spec fn spec_prio_to_l1index(prio: u64) -> u64 {
    prio >> wordRadix
}

/// The index of the second-level bitmap word for first-level index `l1`.
/// The words are stored highest priorities first.
pub open spec fn spec_invert_l1index(l1: u64) -> u64 {
    (L2_BITMAP_SIZE - 1 - l1) as u64
}

pub fn prio_to_l1index(prio: word_t) -> (ret: word_t)
    ensures
        ret == spec_prio_to_l1index(prio),
{
    prio >> wordRadix
}

pub fn invert_l1index(l1index: word_t) -> (ret: word_t)
    requires
        l1index < L2_BITMAP_SIZE,
    ensures
        ret == spec_invert_l1index(l1index),
{
    L2_BITMAP_SIZE - 1 - l1index
}

/// The ready queue that holds threads of domain `dom` at priority `prio`.
pub open spec fn spec_ready_queues_index(dom: u64, prio: u64) -> int {
    dom * NUM_PRIORITIES + prio
}

pub fn ready_queues_index(dom: dom_t, prio: prio_t) -> (ret: word_t)
    requires
        dom == 0,
        prio < NUM_PRIORITIES,
    ensures
        ret == spec_ready_queues_index(dom, prio),
{
    dom * NUM_PRIORITIES + prio
}

/// The first-level bitmap after marking priority `prio` non-empty.
pub open spec fn spec_l1_add(l1: u64, prio: u64) -> u64 {
    l1 | (1u64 << spec_prio_to_l1index(prio))
}

/// The second-level bitmap after marking priority `prio` non-empty.
pub open spec fn spec_l2_add(l2: Seq<u64>, prio: u64) -> Seq<u64> {
    let i = spec_invert_l1index(spec_prio_to_l1index(prio)) as int;
    l2.update(i, l2[i] | (1u64 << (prio & 63u64)))
}

/// The second-level bitmap after marking priority `prio` empty.
pub open spec fn spec_l2_remove(l2: Seq<u64>, prio: u64) -> Seq<u64> {
    let i = spec_invert_l1index(spec_prio_to_l1index(prio)) as int;
    l2.update(i, l2[i] & !(1u64 << (prio & 63u64)))
}

/// The first-level bitmap after marking priority `prio` empty: its bit is
/// cleared when no priority of its group is left in the second level.
pub open spec fn spec_l1_remove(l1: u64, l2: Seq<u64>, prio: u64) -> u64 {
    let i = spec_invert_l1index(spec_prio_to_l1index(prio)) as int;
    if spec_l2_remove(l2, prio)[i] == 0 {
        l1 & !(1u64 << spec_prio_to_l1index(prio))
    } else {
        l1
    }
}

/// The state after marking priority `prio` as having a runnable thread.
pub open spec fn spec_add_to_bitmap(s: KState, prio: u64) -> KState {
    KState { l1_bitmap: spec_l1_add(s.l1_bitmap, prio), l2_bitmap: spec_l2_add(s.l2_bitmap, prio), ..s }
}

/// The state after marking priority `prio` as having no runnable thread.
pub open spec fn spec_remove_from_bitmap(s: KState, prio: u64) -> KState {
    KState {
        l1_bitmap: spec_l1_remove(s.l1_bitmap, s.l2_bitmap, prio),
        l2_bitmap: spec_l2_remove(s.l2_bitmap, prio),
        ..s
    }
}

/// A priority splits into its group (the first-level index) and its
/// position in the group.
pub proof fn lemma_prio_split(prio: u64)
    by (bit_vector)
    requires
        prio < 256,
    ensures
        prio >> 6u64 < 4,
        prio & 63u64 < 64,
        ((prio >> 6u64) << 6u64) | (prio & 63u64) == prio,
{
}

/// Setting bit `g0` of a first-level word sets that bit and no other.
proof fn lemma_l1_set(l1: u64, g0: u64, g: u64)
    by (bit_vector)
    requires
        l1 < 16,
        g0 < 4,
        g < 4,
    ensures
        (l1 | (1u64 << g0)) < 16,
        ((l1 | (1u64 << g0)) >> g) & 1u64 == 1u64 <==> (g == g0 || (l1 >> g) & 1u64 == 1u64),
{
}

/// Clearing bit `g0` of a first-level word clears that bit and no other.
proof fn lemma_l1_clear(l1: u64, g0: u64, g: u64)
    by (bit_vector)
    requires
        l1 < 16,
        g0 < 4,
        g < 4,
    ensures
        (l1 & !(1u64 << g0)) < 16,
        ((l1 & !(1u64 << g0)) >> g) & 1u64 == 1u64 <==> (g != g0 && (l1 >> g) & 1u64 == 1u64),
{
}

/// A word with a bit set is non-zero, and a word that is non-zero after
/// clearing a bit was non-zero before.
proof fn lemma_word_bit(w: u64, b: u64)
    by (bit_vector)
    requires
        b < 64,
    ensures
        w | (1u64 << b) != 0,
        w & !(1u64 << b) != 0 ==> w != 0,
{
}

/// Marking a priority runnable keeps the two levels of the bitmap in
/// agreement.
pub proof fn lemma_add_keeps_bitmap_wf(l1: u64, l2: Seq<u64>, prio: u64)
    requires
        bitmap_wf(l1, l2),
        l2.len() == L2_BITMAP_SIZE,
        prio < NUM_PRIORITIES,
    ensures
        bitmap_wf(spec_l1_add(l1, prio), spec_l2_add(l2, prio)),
{
    lemma_prio_split(prio);
    let g0 = spec_prio_to_l1index(prio);
    lemma_word_bit(l2[spec_invert_l1index(g0) as int], prio & 63u64);
    lemma_l1_set(l1, g0, 0);
    lemma_l1_set(l1, g0, 1);
    lemma_l1_set(l1, g0, 2);
    lemma_l1_set(l1, g0, 3);
}

/// Marking a priority not runnable keeps the two levels of the bitmap in
/// agreement.
pub proof fn lemma_remove_keeps_bitmap_wf(l1: u64, l2: Seq<u64>, prio: u64)
    requires
        bitmap_wf(l1, l2),
        l2.len() == L2_BITMAP_SIZE,
        prio < NUM_PRIORITIES,
    ensures
        bitmap_wf(spec_l1_remove(l1, l2, prio), spec_l2_remove(l2, prio)),
{
    lemma_prio_split(prio);
    let g0 = spec_prio_to_l1index(prio);
    lemma_word_bit(l2[spec_invert_l1index(g0) as int], prio & 63u64);
    lemma_l1_clear(l1, g0, 0);
    lemma_l1_clear(l1, g0, 1);
    lemma_l1_clear(l1, g0, 2);
    lemma_l1_clear(l1, g0, 3);
}

impl KernelState {
    /// Marks priority `prio` of domain `dom` as having a runnable thread.
    pub fn addToBitmap(&mut self, cpu: word_t, dom: word_t, prio: word_t)
        requires
            old(self).sched.layout_wf(),
            dom == 0,
            prio < NUM_PRIORITIES,
        ensures
            final(self).sched.layout_wf(),
            final(self)@ == spec_add_to_bitmap(old(self)@, prio),
    {
        proof {
            lemma_prio_split(prio);
            lemma_add_keeps_bitmap_wf(
                self.sched.ksReadyQueuesL1Bitmap,
                self.sched.ksReadyQueuesL2Bitmap@,
                prio,
            );
        }
        let l1index = prio_to_l1index(prio);
        let l1index_inverted = invert_l1index(l1index);
        self.sched.ksReadyQueuesL1Bitmap = self.sched.ksReadyQueuesL1Bitmap | (1u64 << l1index);
        let i = l1index_inverted as usize;
        let old_word = self.sched.ksReadyQueuesL2Bitmap[i];
        self.sched.ksReadyQueuesL2Bitmap.set(i, old_word | (1u64 << (prio & 63u64)));
    }

    /// Marks priority `prio` of domain `dom` as having no runnable thread,
    /// clearing the first-level bit when its whole group is empty.
    pub fn removeFromBitmap(&mut self, cpu: word_t, dom: word_t, prio: word_t)
        requires
            old(self).sched.layout_wf(),
            dom == 0,
            prio < NUM_PRIORITIES,
        ensures
            final(self).sched.layout_wf(),
            final(self)@ == spec_remove_from_bitmap(old(self)@, prio),
    {
        proof {
            lemma_prio_split(prio);
            lemma_remove_keeps_bitmap_wf(
                self.sched.ksReadyQueuesL1Bitmap,
                self.sched.ksReadyQueuesL2Bitmap@,
                prio,
            );
        }
        let l1index = prio_to_l1index(prio);
        let l1index_inverted = invert_l1index(l1index);
        let i = l1index_inverted as usize;
        let old_word = self.sched.ksReadyQueuesL2Bitmap[i];
        self.sched.ksReadyQueuesL2Bitmap.set(i, old_word & !(1u64 << (prio & 63u64)));
        if self.sched.ksReadyQueuesL2Bitmap[i] == 0 {
            self.sched.ksReadyQueuesL1Bitmap = self.sched.ksReadyQueuesL1Bitmap & !(1u64
                << l1index);
        }
    }
}

// ---------------------------------------------------------------------------
// Ready queues
// ---------------------------------------------------------------------------

/// Whether the thread at `t` is marked as being in a ready queue.
pub open spec fn is_queued(m: Map<u64, tcb_t>, t: u64) -> bool {
    spec_ts_tcb_queued(m[t].tcbState) != 0
}

/// The thread at `t` can be put at the front of its ready queue: it exists,
/// and unless it is already queued it is in the one domain, its priority has
/// a queue, and the head of that queue exists when the queue is not empty.
pub open spec fn can_enqueue(s: KState, t: u64) -> bool {
    &&& s.tcbs.contains_key(t)
    &&& t != 0
    &&& !is_queued(s.tcbs, t) ==> {
        let p = s.tcbs[t].tcbPriority;
        &&& s.tcbs[t].tcbDomain == 0
        &&& p < NUM_PRIORITIES
        &&& s.ready_queues[p as int].end != 0 ==> s.tcbs.contains_key(s.ready_queues[p as int].head)
    }
}

/// The thread at `t` can be put at the end of its ready queue.
pub open spec fn can_append(s: KState, t: u64) -> bool {
    &&& s.tcbs.contains_key(t)
    &&& t != 0
    &&& !is_queued(s.tcbs, t) ==> {
        let p = s.tcbs[t].tcbPriority;
        &&& s.tcbs[t].tcbDomain == 0
        &&& p < NUM_PRIORITIES
        &&& s.ready_queues[p as int].head != 0 ==> s.tcbs.contains_key(s.ready_queues[p as int].end)
    }
}

/// The thread at `t` can go through the dequeue step: it exists, and when
/// it is marked as queued it sits in the ready queue of its priority (in the
/// one domain) as its links say: it is the head exactly when it has no
/// predecessor, the end exactly when it has no successor, and its
/// neighbours exist.
pub open spec fn can_dequeue(s: KState, t: u64) -> bool {
    &&& s.tcbs.contains_key(t)
    &&& t != 0
    &&& is_queued(s.tcbs, t) ==> {
        let tt = s.tcbs[t];
        let q = s.ready_queues[tt.tcbPriority as int];
        &&& tt.tcbDomain == 0
        &&& tt.tcbPriority < NUM_PRIORITIES
        &&& tt.tcbSchedPrev != 0 ==> s.tcbs.contains_key(tt.tcbSchedPrev) && q.head != 0
        &&& tt.tcbSchedPrev == 0 ==> q.head == t
        &&& tt.tcbSchedNext != 0 ==> s.tcbs.contains_key(tt.tcbSchedNext) && q.end != 0
        &&& tt.tcbSchedNext == 0 ==> q.end == t
    }
}

/// The TCBs after putting `t` at the front of ready queue `q`.
pub open spec fn spec_sched_enqueue_tcbs(m: Map<u64, tcb_t>, t: u64, q: tcb_queue_t) -> Map<u64, tcb_t> {
    let m1 = if q.end == 0 {
        m
    } else {
        m.insert(q.head, tcb_t { tcbSchedPrev: t, ..m[q.head] })
    };
    m1.insert(
        t,
        tcb_t {
            tcbSchedPrev: 0,
            tcbSchedNext: q.head,
            tcbState: spec_ts_set_tcb_queued(m1[t].tcbState, 1),
            ..m1[t]
        },
    )
}

/// The TCBs after putting `t` at the end of ready queue `q`.
pub open spec fn spec_sched_append_tcbs(m: Map<u64, tcb_t>, t: u64, q: tcb_queue_t) -> Map<u64, tcb_t> {
    let m1 = if q.head == 0 {
        m
    } else {
        m.insert(q.end, tcb_t { tcbSchedNext: t, ..m[q.end] })
    };
    m1.insert(
        t,
        tcb_t {
            tcbSchedPrev: q.end,
            tcbSchedNext: 0,
            tcbState: spec_ts_set_tcb_queued(m1[t].tcbState, 1),
            ..m1[t]
        },
    )
}

/// The state after putting the thread at `t` at the front of the ready queue
/// of its priority; a thread already marked as queued is left alone.
pub open spec fn spec_sched_enqueue(s: KState, t: u64) -> KState {
    if is_queued(s.tcbs, t) {
        s
    } else {
        let p = s.tcbs[t].tcbPriority;
        let q = s.ready_queues[p as int];
        let s1 = if q.end == 0 {
            spec_add_to_bitmap(s, p)
        } else {
            s
        };
        KState {
            tcbs: spec_sched_enqueue_tcbs(s.tcbs, t, q),
            ready_queues: s.ready_queues.update(
                p as int,
                tcb_queue { head: t, end: if q.end == 0 { t } else { q.end } },
            ),
            ..s1
        }
    }
}

/// The state after putting the thread at `t` at the end of the ready queue
/// of its priority; a thread already marked as queued is left alone.
pub open spec fn spec_sched_append(s: KState, t: u64) -> KState {
    if is_queued(s.tcbs, t) {
        s
    } else {
        let p = s.tcbs[t].tcbPriority;
        let q = s.ready_queues[p as int];
        let s1 = if q.head == 0 {
            spec_add_to_bitmap(s, p)
        } else {
            s
        };
        KState {
            tcbs: spec_sched_append_tcbs(s.tcbs, t, q),
            ready_queues: s.ready_queues.update(
                p as int,
                tcb_queue { head: if q.head == 0 { t } else { q.head }, end: t },
            ),
            ..s1
        }
    }
}

/// The state after taking the thread at `t` out of the ready queue of its
/// priority; a thread not marked as queued is left alone. Its predecessor
/// is linked to its successor (or the successor becomes the queue head,
/// the bitmap bit being cleared when there is none), its successor back to
/// its predecessor (or the predecessor becomes the queue end), and its flag
/// is cleared.
pub open spec fn spec_sched_dequeue(s: KState, t: u64) -> KState {
    if !is_queued(s.tcbs, t) {
        s
    } else {
        let tt = s.tcbs[t];
        let p = tt.tcbPriority;
        let q = s.ready_queues[p as int];
        let prev = tt.tcbSchedPrev;
        let next = tt.tcbSchedNext;
        let m1 = if prev != 0 {
            s.tcbs.insert(prev, tcb_t { tcbSchedNext: next, ..s.tcbs[prev] })
        } else {
            s.tcbs
        };
        let m2 = if next != 0 {
            m1.insert(next, tcb_t { tcbSchedPrev: prev, ..m1[next] })
        } else {
            m1
        };
        let s1 = if prev == 0 && next == 0 {
            spec_remove_from_bitmap(s, p)
        } else {
            s
        };
        KState {
            tcbs: m2.insert(t, tcb_t { tcbState: spec_ts_set_tcb_queued(m2[t].tcbState, 0), ..m2[t] }),
            ready_queues: s.ready_queues.update(
                p as int,
                tcb_queue {
                    head: if prev != 0 {
                        q.head
                    } else {
                        next
                    },
                    end: if next != 0 {
                        q.end
                    } else {
                        prev
                    },
                },
            ),
            ..s1
        }
    }
}

/// Marking a bit of a word sets it and no other; clearing one clears it and
/// no other.
proof fn lemma_word_bits(w: u64, b0: u64, b: u64)
    by (bit_vector)
    requires
        b0 < 64,
        b < 64,
    ensures
        ((w | (1u64 << b0)) >> b) & 1u64 == 1u64 <==> (b == b0 || (w >> b) & 1u64 == 1u64),
        ((w & !(1u64 << b0)) >> b) & 1u64 == 1u64 <==> (b != b0 && (w >> b) & 1u64 == 1u64),
{
}

/// How marking and clearing priority `p0` in the second level of the
/// bitmap changes whether priority `p` is marked.
proof fn lemma_marked_update(l2: Seq<u64>, p0: u64, p: u64)
    requires
        l2.len() == L2_BITMAP_SIZE,
        p0 < NUM_PRIORITIES,
        p < NUM_PRIORITIES,
    ensures
        crate::thread::prio_marked(spec_l2_add(l2, p0), p) <==> (crate::thread::prio_marked(l2, p)
            || p == p0),
        crate::thread::prio_marked(spec_l2_remove(l2, p0), p) <==> (crate::thread::prio_marked(
            l2,
            p,
        ) && p != p0),
{
    lemma_prio_split(p0);
    lemma_prio_split(p);
    let i0 = spec_invert_l1index(spec_prio_to_l1index(p0)) as int;
    let i = spec_invert_l1index(spec_prio_to_l1index(p)) as int;
    if i == i0 {
        assert(spec_prio_to_l1index(p) == spec_prio_to_l1index(p0));
        lemma_word_bits(l2[i], p0 & 63u64, p & 63u64);
        assert((p & 63u64) == (p0 & 63u64) <==> p == p0);
    } else {
        assert(p != p0);
    }
}

/// The bitmap marks exactly the non-empty ready queues, in a state.
pub open spec fn queues_marked(s: KState) -> bool {
    crate::state::ready_queues_marked(s.ready_queues, s.l2_bitmap)
}

/// Putting a thread at the front or the end of its ready queue, or taking
/// it out, keeps the bitmap marking exactly the non-empty ready queues.
pub proof fn lemma_queue_ops_keep_marked(s: KState, t: u64)
    requires
        queues_marked(s),
        s.ready_queues.len() == NUM_PRIORITIES,
        s.l2_bitmap.len() == L2_BITMAP_SIZE,
    ensures
        can_enqueue(s, t) ==> queues_marked(spec_sched_enqueue(s, t)),
        can_append(s, t) ==> queues_marked(spec_sched_append(s, t)),
        can_dequeue(s, t) ==> queues_marked(spec_sched_dequeue(s, t)),
{
    let p0 = s.tcbs[t].tcbPriority;
    if p0 < NUM_PRIORITIES {
        assert forall|p: u64| p < NUM_PRIORITIES implies (crate::thread::prio_marked(
            spec_l2_add(s.l2_bitmap, p0),
            p,
        ) <==> (crate::thread::prio_marked(s.l2_bitmap, p) || p == p0)) && (
        crate::thread::prio_marked(spec_l2_remove(s.l2_bitmap, p0), p) <==> (
        crate::thread::prio_marked(s.l2_bitmap, p) && p != p0)) by {
            lemma_marked_update(s.l2_bitmap, p0, p);
        }
        assert(s.ready_queues[p0 as int] == s.ready_queues[p0 as int]);
    }
}


impl KernelState {
    /// Puts the thread at `tcb` at the front of the ready queue of its
    /// priority, unless it is already marked as queued.
    pub fn tcbSchedEnqueue(&mut self, tcb: word_t)
        requires
            old(self).sched.wf(),
            can_enqueue(old(self)@, tcb),
        ensures
            final(self).sched.wf(),
            final(self)@ == spec_sched_enqueue(old(self)@, tcb),
            forall|qs: Seq<Seq<u64>>|
                #[trigger] ready_queues_wf(old(self)@.tcbs, old(self)@.ready_queues, qs)
                    ==> ready_queues_wf(
                    final(self)@.tcbs,
                    final(self)@.ready_queues,
                    if is_queued(old(self)@.tcbs, tcb) {
                        qs
                    } else {
                        qs_push_front(qs, old(self)@.tcbs[tcb].tcbPriority, tcb)
                    },
                ),
    {
        proof {
            lemma_queue_ops_keep_marked(self@, tcb);
            let s0 = self@;
            assert forall|qs: Seq<Seq<u64>>| #[trigger]
                ready_queues_wf(s0.tcbs, s0.ready_queues, qs) implies ready_queues_wf(
                spec_sched_enqueue(s0, tcb).tcbs,
                spec_sched_enqueue(s0, tcb).ready_queues,
                if is_queued(s0.tcbs, tcb) {
                    qs
                } else {
                    qs_push_front(qs, s0.tcbs[tcb].tcbPriority, tcb)
                },
            ) by {
                if !is_queued(s0.tcbs, tcb) {
                    law_ready_queues_enqueue(s0, qs, tcb);
                }
            }
        }
        let t0 = read_tcb(&self.tcbs, tcb);
        if thread_state_get_tcbQueued(&t0.tcbState) == 0 {
            let dom = t0.tcbDomain;
            let prio = t0.tcbPriority;
            let idx = ready_queues_index(dom, prio) as usize;
            let mut queue = self.sched.ksReadyQueues[idx];
            if queue.end == 0 {
                queue.end = tcb;
                self.addToBitmap(0, dom, prio);
            } else {
                let mut h = read_tcb(&self.tcbs, queue.head);
                h.tcbSchedPrev = tcb;
                self.tcbs.insert(queue.head, h);
            }
            let mut t = read_tcb(&self.tcbs, tcb);
            t.tcbSchedPrev = 0;
            t.tcbSchedNext = queue.head;
            queue.head = tcb;
            self.sched.ksReadyQueues.set(idx, queue);
            thread_state_ptr_set_tcbQueued(&mut t.tcbState, 1);
            self.tcbs.insert(tcb, t);
        }
    }

    /// Puts the thread at `tcb` at the end of the ready queue of its
    /// priority, unless it is already marked as queued.
    pub fn tcbSchedAppend(&mut self, tcb: word_t)
        requires
            old(self).sched.wf(),
            can_append(old(self)@, tcb),
        ensures
            final(self).sched.wf(),
            final(self)@ == spec_sched_append(old(self)@, tcb),
            forall|qs: Seq<Seq<u64>>|
                #[trigger] ready_queues_wf(old(self)@.tcbs, old(self)@.ready_queues, qs)
                    ==> ready_queues_wf(
                    final(self)@.tcbs,
                    final(self)@.ready_queues,
                    if is_queued(old(self)@.tcbs, tcb) {
                        qs
                    } else {
                        qs_push_back(qs, old(self)@.tcbs[tcb].tcbPriority, tcb)
                    },
                ),
    {
        proof {
            lemma_queue_ops_keep_marked(self@, tcb);
            let s0 = self@;
            assert forall|qs: Seq<Seq<u64>>| #[trigger]
                ready_queues_wf(s0.tcbs, s0.ready_queues, qs) implies ready_queues_wf(
                spec_sched_append(s0, tcb).tcbs,
                spec_sched_append(s0, tcb).ready_queues,
                if is_queued(s0.tcbs, tcb) {
                    qs
                } else {
                    qs_push_back(qs, s0.tcbs[tcb].tcbPriority, tcb)
                },
            ) by {
                if !is_queued(s0.tcbs, tcb) {
                    law_ready_queues_append(s0, qs, tcb);
                }
            }
        }
        let t0 = read_tcb(&self.tcbs, tcb);
        if thread_state_get_tcbQueued(&t0.tcbState) == 0 {
            let dom = t0.tcbDomain;
            let prio = t0.tcbPriority;
            let idx = ready_queues_index(dom, prio) as usize;
            let mut queue = self.sched.ksReadyQueues[idx];
            if queue.head == 0 {
                queue.head = tcb;
                self.addToBitmap(0, dom, prio);
            } else {
                let mut e = read_tcb(&self.tcbs, queue.end);
                e.tcbSchedNext = tcb;
                self.tcbs.insert(queue.end, e);
            }
            let mut t = read_tcb(&self.tcbs, tcb);
            t.tcbSchedPrev = queue.end;
            t.tcbSchedNext = 0;
            queue.end = tcb;
            self.sched.ksReadyQueues.set(idx, queue);
            thread_state_ptr_set_tcbQueued(&mut t.tcbState, 1);
            self.tcbs.insert(tcb, t);
        }
    }

    /// Takes the thread at `tcb` out of the ready queue of its priority, if
    /// it is marked as queued; see `spec_sched_dequeue`.
    pub fn tcbSchedDequeue(&mut self, tcb: word_t)
        requires
            old(self).sched.wf(),
            can_dequeue(old(self)@, tcb),
        ensures
            final(self).sched.wf(),
            final(self)@ == spec_sched_dequeue(old(self)@, tcb),
            forall|qs: Seq<Seq<u64>>|
                #[trigger] ready_queues_wf(old(self)@.tcbs, old(self)@.ready_queues, qs)
                    ==> ready_queues_wf(
                    final(self)@.tcbs,
                    final(self)@.ready_queues,
                    if is_queued(old(self)@.tcbs, tcb) {
                        qs_take_out(qs, old(self)@.tcbs[tcb].tcbPriority, tcb)
                    } else {
                        qs
                    },
                ),
    {
        proof {
            lemma_queue_ops_keep_marked(self@, tcb);
            let s0 = self@;
            assert forall|qs: Seq<Seq<u64>>| #[trigger]
                ready_queues_wf(s0.tcbs, s0.ready_queues, qs) implies ready_queues_wf(
                spec_sched_dequeue(s0, tcb).tcbs,
                spec_sched_dequeue(s0, tcb).ready_queues,
                if is_queued(s0.tcbs, tcb) {
                    qs_take_out(qs, s0.tcbs[tcb].tcbPriority, tcb)
                } else {
                    qs
                },
            ) by {
                law_ready_queues_dequeue(s0, qs, tcb);
            }
        }
        let t = read_tcb(&self.tcbs, tcb);
        if thread_state_get_tcbQueued(&t.tcbState) != 0 {
            let dom = t.tcbDomain;
            let prio = t.tcbPriority;
            let idx = ready_queues_index(dom, prio) as usize;
            let mut queue = self.sched.ksReadyQueues[idx];
            if t.tcbSchedPrev != 0 {
                let mut pr = read_tcb(&self.tcbs, t.tcbSchedPrev);
                pr.tcbSchedNext = t.tcbSchedNext;
                self.tcbs.insert(t.tcbSchedPrev, pr);
            } else {
                queue.head = t.tcbSchedNext;
                if t.tcbSchedNext == 0 {
                    self.removeFromBitmap(0, dom, prio);
                }
            }
            if t.tcbSchedNext != 0 {
                let mut nx = read_tcb(&self.tcbs, t.tcbSchedNext);
                nx.tcbSchedPrev = t.tcbSchedPrev;
                self.tcbs.insert(t.tcbSchedNext, nx);
            } else {
                queue.end = t.tcbSchedPrev;
            }
            self.sched.ksReadyQueues.set(idx, queue);
            let mut t1 = read_tcb(&self.tcbs, tcb);
            thread_state_ptr_set_tcbQueued(&mut t1.tcbState, 0);
            self.tcbs.insert(tcb, t1);
        }
    }
}

} // verus!
