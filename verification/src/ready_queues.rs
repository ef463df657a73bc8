//! The ready queues as lists of threads: each ready queue links, through the
//! scheduler links of the TCBs, exactly the threads marked as queued at its
//! priority, and putting a thread in or taking it out keeps it so.
use vstd::prelude::*;

use crate::bitfield_laws::law_ts_set_tcb_queued;
use crate::object::tcb_t;
use crate::state::{KState, NUM_PRIORITIES, tcb_queue_t};
use crate::tcb::{
    can_append, can_dequeue, can_enqueue, ep_next_of, ep_prev_of, is_queued, spec_sched_append,
    spec_sched_dequeue, spec_sched_enqueue,
};

verus! {

/// `queue` links exactly the threads of `s`, in order, through their
/// scheduler links: its head and end are the first and last of them (zero
/// when `s` is empty), every thread of `s` is a distinct existing TCB, and
/// each links to its neighbours in `s`.
pub open spec fn sched_queue_wf(m: Map<u64, tcb_t>, queue: tcb_queue_t, s: Seq<u64>) -> bool {
    &&& s.len() == 0 ==> queue.head == 0 && queue.end == 0
    &&& s.len() > 0 ==> queue.head == s[0] && queue.end == s[s.len() - 1]
    &&& s.no_duplicates()
    &&& forall|i: int| 0 <= i < s.len() ==> #[trigger] s[i] != 0 && m.contains_key(s[i])
    &&& forall|i: int| 0 <= i < s.len() ==> (#[trigger] m[s[i]]).tcbSchedPrev == ep_prev_of(s, i)
    &&& forall|i: int| 0 <= i < s.len() ==> (#[trigger] m[s[i]]).tcbSchedNext == ep_next_of(s, i)
}

/// The ready queues, one per priority, are the lists `qs`: each ready queue
/// links its list, every thread listed at priority `p` is marked as queued
/// and has priority `p` in the one domain, and every thread marked as queued
/// is listed.
pub open spec fn ready_queues_wf(m: Map<u64, tcb_t>, queues: Seq<tcb_queue_t>, qs: Seq<Seq<u64>>) -> bool {
    &&& queues.len() == NUM_PRIORITIES
    &&& qs.len() == NUM_PRIORITIES
    &&& forall|p: int| 0 <= p < NUM_PRIORITIES ==> sched_queue_wf(m, queues[p], #[trigger] qs[p])
    &&& forall|p: int, i: int|
        0 <= p < NUM_PRIORITIES && 0 <= i < qs[p].len() ==> is_queued(m, #[trigger] qs[p][i])
            && m[qs[p][i]].tcbPriority == p && m[qs[p][i]].tcbDomain == 0
    &&& forall|a: u64|
        m.contains_key(a) && #[trigger] is_queued(m, a) ==> a != 0 && m[a].tcbPriority
            < NUM_PRIORITIES && qs[m[a].tcbPriority as int].contains(a)
}

/// The ready queues as lists after putting `t` at the front of its list.
pub open spec fn qs_push_front(qs: Seq<Seq<u64>>, p: u64, t: u64) -> Seq<Seq<u64>> {
    qs.update(p as int, seq![t] + qs[p as int])
}

/// The ready queues as lists after putting `t` at the end of its list.
pub open spec fn qs_push_back(qs: Seq<Seq<u64>>, p: u64, t: u64) -> Seq<Seq<u64>> {
    qs.update(p as int, qs[p as int].push(t))
}

/// The ready queues as lists after taking `t` out of its list.
pub open spec fn qs_take_out(qs: Seq<Seq<u64>>, p: u64, t: u64) -> Seq<Seq<u64>> {
    qs.update(p as int, qs[p as int].remove(qs[p as int].index_of(t)))
}

/// A list stays linked when the TCBs of its threads keep their scheduler
/// links.
proof fn lemma_sched_queue_frame(
    m: Map<u64, tcb_t>,
    m2: Map<u64, tcb_t>,
    queue: tcb_queue_t,
    s: Seq<u64>,
)
    requires
        sched_queue_wf(m, queue, s),
        forall|i: int|
            0 <= i < s.len() ==> m2.contains_key(#[trigger] s[i]) && m2[s[i]].tcbSchedPrev
                == m[s[i]].tcbSchedPrev && m2[s[i]].tcbSchedNext == m[s[i]].tcbSchedNext,
    ensures
        sched_queue_wf(m2, queue, s),
{
    assert forall|i: int| 0 <= i < s.len() implies (#[trigger] m2[s[i]]).tcbSchedPrev == ep_prev_of(
        s,
        i,
    ) && m2[s[i]].tcbSchedNext == ep_next_of(s, i) by {
        assert(m[s[i]].tcbSchedPrev == ep_prev_of(s, i));
        assert(m[s[i]].tcbSchedNext == ep_next_of(s, i));
    }
}

/// A thread not marked as queued is in none of the lists.
proof fn lemma_unqueued_unlisted(m: Map<u64, tcb_t>, queues: Seq<tcb_queue_t>, qs: Seq<Seq<u64>>, t: u64)
    requires
        ready_queues_wf(m, queues, qs),
        !is_queued(m, t),
    ensures
        forall|p: int| 0 <= p < NUM_PRIORITIES ==> !(#[trigger] qs[p]).contains(t),
{
    assert forall|p: int| 0 <= p < NUM_PRIORITIES implies !(#[trigger] qs[p]).contains(t) by {
        if qs[p].contains(t) {
            let i = qs[p].index_of(t);
            assert(is_queued(m, qs[p][i]));
        }
    }
}

/// How the TCBs change in a queue operation: the same threads exist, and
/// each thread but `t` keeps its state, priority and domain.
pub open spec fn only_links_change(m: Map<u64, tcb_t>, m2: Map<u64, tcb_t>, t: u64) -> bool {
    &&& m2.dom() == m.dom()
    &&& forall|a: u64|
        #![trigger m2[a]]
        m.contains_key(a) && a != t ==> m2[a].tcbState == m[a].tcbState && m2[a].tcbPriority
            == m[a].tcbPriority && m2[a].tcbDomain == m[a].tcbDomain
}

/// The lists `qs2` are the ready queues of the TCBs `m2` when only the list
/// at `p` changed, it is linked, its threads are those of the old list and
/// perhaps `t`, `t` is listed exactly when it is now marked as queued, and
/// no thread of another list changed its links.
proof fn lemma_ready_queues_rebuilt(
    m: Map<u64, tcb_t>,
    queues: Seq<tcb_queue_t>,
    qs: Seq<Seq<u64>>,
    m2: Map<u64, tcb_t>,
    queues2: Seq<tcb_queue_t>,
    qs2: Seq<Seq<u64>>,
    p: int,
    t: u64,
)
    requires
        ready_queues_wf(m, queues, qs),
        0 <= p < NUM_PRIORITIES,
        m.contains_key(t),
        m[t].tcbPriority == p,
        m[t].tcbDomain == 0,
        only_links_change(m, m2, t),
        m2[t].tcbPriority == p,
        m2[t].tcbDomain == 0,
        queues2 == queues.update(p, queues2[p]),
        qs2 == qs.update(p, qs2[p]),
        sched_queue_wf(m2, queues2[p], qs2[p]),
        forall|a: u64| a != t ==> (qs2[p].contains(a) <==> qs[p].contains(a)),
        qs2[p].contains(t) <==> is_queued(m2, t),
        forall|q: int, i: int|
            0 <= q < NUM_PRIORITIES && q != p && 0 <= i < qs[q].len() ==> m2[#[trigger] qs[q][i]].tcbSchedPrev
                == m[qs[q][i]].tcbSchedPrev && m2[qs[q][i]].tcbSchedNext
                == m[qs[q][i]].tcbSchedNext,
    ensures
        ready_queues_wf(m2, queues2, qs2),
{
    assert forall|q: int| 0 <= q < NUM_PRIORITIES implies sched_queue_wf(
        m2,
        queues2[q],
        #[trigger] qs2[q],
    ) by {
        if q != p {
            assert(qs2[q] == qs[q]);
            assert(queues2[q] == queues[q]);
            assert(sched_queue_wf(m, queues[q], qs[q]));
            assert forall|i: int| 0 <= i < qs[q].len() implies m2.contains_key(
                #[trigger] qs[q][i],
            ) && m2[qs[q][i]].tcbSchedPrev == m[qs[q][i]].tcbSchedPrev
                && m2[qs[q][i]].tcbSchedNext == m[qs[q][i]].tcbSchedNext by {
                assert(m.contains_key(qs[q][i]));
            }
            lemma_sched_queue_frame(m, m2, queues[q], qs[q]);
        }
    }
    assert forall|q: int, i: int| 0 <= q < NUM_PRIORITIES && 0 <= i < qs2[q].len() implies is_queued(
        m2,
        #[trigger] qs2[q][i],
    ) && m2[qs2[q][i]].tcbPriority == q && m2[qs2[q][i]].tcbDomain == 0 by {
        let a = qs2[q][i];
        if q != p {
            assert(qs2[q] == qs[q]);
            assert(is_queued(m, qs[q][i]));
            assert(sched_queue_wf(m, queues[q], qs[q]));
            assert(m.contains_key(qs[q][i]));
            if a == t {
                assert(m[t].tcbPriority == q);
            }
        } else {
            assert(qs2[p].contains(a));
            if a == t {
            } else {
                assert(qs[p].contains(a));
                let j = qs[p].index_of(a);
                assert(is_queued(m, qs[p][j]));
                assert(sched_queue_wf(m, queues[p], qs[p]));
                assert(m.contains_key(qs[p][j]));
            }
        }
    }
    assert forall|a: u64| m2.contains_key(a) && #[trigger] is_queued(m2, a) implies a != 0
        && m2[a].tcbPriority < NUM_PRIORITIES && qs2[m2[a].tcbPriority as int].contains(a) by {
        assert(m.contains_key(a));
        if a == t {
            assert(sched_queue_wf(m2, queues2[p], qs2[p]));
            let j = qs2[p].index_of(t);
            assert(qs2[p][j] != 0);
        } else {
            assert(is_queued(m, a));
            let q = m[a].tcbPriority as int;
            assert(qs[q].contains(a));
            if q == p {
                assert(qs2[p].contains(a));
            } else {
                assert(qs2[q] == qs[q]);
            }
        }
    }
}

/// Putting a thread into its ready queue is possible whenever the ready
/// queues are lists as described: a thread not marked as queued is in none
/// of them, and afterwards the ready queues are the same lists with the
/// thread in front of the list of its priority (or unchanged when it was
/// already queued).
pub proof fn law_ready_queues_enqueue(s: KState, qs: Seq<Seq<u64>>, t: u64)
    requires
        ready_queues_wf(s.tcbs, s.ready_queues, qs),
        s.tcbs.contains_key(t),
        t != 0,
        s.tcbs[t].tcbPriority < NUM_PRIORITIES,
        s.tcbs[t].tcbDomain == 0,
    ensures
        can_enqueue(s, t),
        !is_queued(s.tcbs, t) ==> forall|p: int| 0 <= p < NUM_PRIORITIES ==> !(
        #[trigger] qs[p]).contains(t),
        ({
            let s2 = spec_sched_enqueue(s, t);
            let qs2 = if is_queued(s.tcbs, t) {
                qs
            } else {
                qs_push_front(qs, s.tcbs[t].tcbPriority, t)
            };
            ready_queues_wf(s2.tcbs, s2.ready_queues, qs2)
        }),
{
    let m = s.tcbs;
    let p = m[t].tcbPriority;
    let q = s.ready_queues[p as int];
    assert(sched_queue_wf(m, q, qs[p as int]));
    if !is_queued(m, t) {
        lemma_unqueued_unlisted(m, s.ready_queues, qs, t);
        let sq = qs[p as int];
        let s2 = spec_sched_enqueue(s, t);
        let m2 = s2.tcbs;
        let qs2 = qs_push_front(qs, p, t);
        let sq2 = seq![t] + sq;
        assert(qs2[p as int] == sq2);
        assert(!sq.contains(t));
        if sq.len() > 0 {
            assert(sq[0] != 0 && m.contains_key(sq[0]));
            assert(sq[sq.len() - 1] != 0);
            assert(sq[0] != t);
        }
        law_ts_set_tcb_queued(m[t].tcbState, 1);
        assert(1u64 & 0x1u64 == 1u64) by (bit_vector);
        assert(is_queued(m2, t));
        assert(m2.dom() =~= m.dom());
        assert forall|i: int| 0 <= i < sq2.len() implies #[trigger] sq2[i] == if i == 0 {
            t
        } else {
            sq[i - 1]
        } by {}
        assert(sq2.no_duplicates()) by {
            assert forall|i: int, j: int| 0 <= i < sq2.len() && 0 <= j < sq2.len() && i != j implies sq2[i]
                != sq2[j] by {
                if i > 0 && j > 0 {
                } else if i == 0 {
                    assert(sq.contains(sq2[j]));
                } else {
                    assert(sq.contains(sq2[i]));
                }
            }
        }
        assert forall|i: int| 0 <= i < sq2.len() implies #[trigger] sq2[i] != 0 && m2.contains_key(sq2[i]) by {
            if i > 0 {
                assert(sq2[i] == sq[i - 1]);
            }
        }
        assert forall|i: int| 0 <= i < sq2.len() implies (#[trigger] m2[sq2[i]]).tcbSchedPrev
            == ep_prev_of(sq2, i) && m2[sq2[i]].tcbSchedNext == ep_next_of(sq2, i) by {
            if i > 0 {
                assert(sq2[i] == sq[i - 1]);
                assert(sq[i - 1] != t) by {
                    assert(sq.contains(sq[i - 1]));
                }
                if i == 1 {
                    assert(q.end != 0);
                } else {
                    assert(sq[i - 1] != sq[0]);
                    assert(sq2[i - 1] == sq[i - 2]);
                }
                if i < sq2.len() - 1 {
                    assert(sq2[i + 1] == sq[i]);
                }
            } else {
                if sq2.len() > 1 {
                    assert(sq2[1] == sq[0]);
                }
            }
        }
        assert(sched_queue_wf(m2, s2.ready_queues[p as int], sq2)) by {
            if sq.len() > 0 {
                assert(sq2[sq2.len() - 1] == sq[sq.len() - 1]);
            }
        }
        assert forall|a: u64| #![trigger m2[a]] m.contains_key(a) && a != t implies m2[a].tcbState
            == m[a].tcbState && m2[a].tcbPriority == m[a].tcbPriority && m2[a].tcbDomain
            == m[a].tcbDomain by {}
        assert forall|a: u64| a != t implies (qs2[p as int].contains(a) <==> qs[p as int].contains(a)) by {
            if sq.contains(a) {
                let j = sq.index_of(a);
                assert(sq2[j + 1] == a);
            }
            if sq2.contains(a) {
                let j = sq2.index_of(a);
                assert(j > 0);
                assert(sq[j - 1] == a);
            }
        }
        assert(sq2[0] == t);
        assert forall|r: int, i: int|
            0 <= r < NUM_PRIORITIES && r != p && 0 <= i < qs[r].len() implies m2[#[trigger] qs[r][i]].tcbSchedPrev
            == m[qs[r][i]].tcbSchedPrev && m2[qs[r][i]].tcbSchedNext == m[qs[r][i]].tcbSchedNext by {
            let a = qs[r][i];
            assert(m[a].tcbPriority == r);
            assert(!qs[r].contains(t));
            if sq.len() > 0 {
                assert(m[sq[0]].tcbPriority == p);
            }
        }
        assert(s2.ready_queues == s.ready_queues.update(p as int, s2.ready_queues[p as int]));
        assert(qs2 == qs.update(p as int, qs2[p as int]));
        lemma_ready_queues_rebuilt(
            m,
            s.ready_queues,
            qs,
            m2,
            s2.ready_queues,
            qs2,
            p as int,
            t,
        );
    }
}

/// Putting a thread at the end of its ready queue is possible whenever the
/// ready queues are lists as described, and afterwards the ready queues are
/// the same lists with the thread at the end of the list of its priority (or
/// unchanged when it was already queued).
pub proof fn law_ready_queues_append(s: KState, qs: Seq<Seq<u64>>, t: u64)
    requires
        ready_queues_wf(s.tcbs, s.ready_queues, qs),
        s.tcbs.contains_key(t),
        t != 0,
        s.tcbs[t].tcbPriority < NUM_PRIORITIES,
        s.tcbs[t].tcbDomain == 0,
    ensures
        can_append(s, t),
        ({
            let s2 = spec_sched_append(s, t);
            let qs2 = if is_queued(s.tcbs, t) {
                qs
            } else {
                qs_push_back(qs, s.tcbs[t].tcbPriority, t)
            };
            ready_queues_wf(s2.tcbs, s2.ready_queues, qs2)
        }),
{
    let m = s.tcbs;
    let p = m[t].tcbPriority;
    let q = s.ready_queues[p as int];
    assert(sched_queue_wf(m, q, qs[p as int]));
    if !is_queued(m, t) {
        lemma_unqueued_unlisted(m, s.ready_queues, qs, t);
        let sq = qs[p as int];
        let s2 = spec_sched_append(s, t);
        let m2 = s2.tcbs;
        let qs2 = qs_push_back(qs, p, t);
        let sq2 = sq.push(t);
        assert(qs2[p as int] == sq2);
        assert(!sq.contains(t));
        let last = sq.len() - 1;
        if sq.len() > 0 {
            assert(sq[0] != 0);
            assert(sq[last] != 0 && m.contains_key(sq[last]));
            assert(sq[last] != t);
        }
        law_ts_set_tcb_queued(m[t].tcbState, 1);
        assert(1u64 & 0x1u64 == 1u64) by (bit_vector);
        assert(is_queued(m2, t));
        assert(m2.dom() =~= m.dom());
        assert(sq2.no_duplicates()) by {
            assert forall|i: int, j: int| 0 <= i < sq2.len() && 0 <= j < sq2.len() && i != j implies sq2[i]
                != sq2[j] by {
                if i < sq.len() && j < sq.len() {
                } else if i == sq.len() {
                    assert(sq.contains(sq2[j]));
                } else {
                    assert(sq.contains(sq2[i]));
                }
            }
        }
        assert forall|i: int| 0 <= i < sq2.len() implies #[trigger] sq2[i] != 0 && m2.contains_key(sq2[i]) by {
            if i < sq.len() {
                assert(sq2[i] == sq[i]);
            }
        }
        assert forall|i: int| 0 <= i < sq2.len() implies (#[trigger] m2[sq2[i]]).tcbSchedPrev
            == ep_prev_of(sq2, i) && m2[sq2[i]].tcbSchedNext == ep_next_of(sq2, i) by {
            if i < sq.len() {
                assert(sq2[i] == sq[i]);
                assert(sq[i] != t) by {
                    assert(sq.contains(sq[i]));
                }
                if i == last {
                    assert(q.head != 0);
                } else {
                    assert(sq[i] != sq[last]);
                }
            } else {
                assert(sq2[i] == t);
            }
        }
        assert(sched_queue_wf(m2, s2.ready_queues[p as int], sq2));
        assert forall|a: u64| #![trigger m2[a]] m.contains_key(a) && a != t implies m2[a].tcbState
            == m[a].tcbState && m2[a].tcbPriority == m[a].tcbPriority && m2[a].tcbDomain
            == m[a].tcbDomain by {}
        assert forall|a: u64| a != t implies (qs2[p as int].contains(a) <==> qs[p as int].contains(a)) by {
            if sq.contains(a) {
                let j = sq.index_of(a);
                assert(sq2[j] == a);
            }
            if sq2.contains(a) {
                let j = sq2.index_of(a);
                assert(j < sq.len());
                assert(sq[j] == a);
            }
        }
        assert(sq2[sq.len() as int] == t);
        assert forall|r: int, i: int|
            0 <= r < NUM_PRIORITIES && r != p && 0 <= i < qs[r].len() implies m2[#[trigger] qs[r][i]].tcbSchedPrev
            == m[qs[r][i]].tcbSchedPrev && m2[qs[r][i]].tcbSchedNext == m[qs[r][i]].tcbSchedNext by {
            let a = qs[r][i];
            assert(m[a].tcbPriority == r);
            assert(!qs[r].contains(t));
            if sq.len() > 0 {
                assert(m[sq[last]].tcbPriority == p);
            }
        }
        assert(s2.ready_queues == s.ready_queues.update(p as int, s2.ready_queues[p as int]));
        assert(qs2 == qs.update(p as int, qs2[p as int]));
        lemma_ready_queues_rebuilt(
            m,
            s.ready_queues,
            qs,
            m2,
            s2.ready_queues,
            qs2,
            p as int,
            t,
        );
    }
}

/// Taking a thread out of its ready queue is possible whenever the ready
/// queues are lists as described, and afterwards the ready queues are the
/// same lists without the thread, the others in the same order (or unchanged
/// when it was not queued).
pub proof fn law_ready_queues_dequeue(s: KState, qs: Seq<Seq<u64>>, t: u64)
    requires
        ready_queues_wf(s.tcbs, s.ready_queues, qs),
        s.tcbs.contains_key(t),
        t != 0,
    ensures
        can_dequeue(s, t),
        ({
            let s2 = spec_sched_dequeue(s, t);
            let qs2 = if is_queued(s.tcbs, t) {
                qs_take_out(qs, s.tcbs[t].tcbPriority, t)
            } else {
                qs
            };
            ready_queues_wf(s2.tcbs, s2.ready_queues, qs2)
        }),
{
    let m = s.tcbs;
    if is_queued(m, t) {
        let p = m[t].tcbPriority;
        let q = s.ready_queues[p as int];
        let sq = qs[p as int];
        assert(sched_queue_wf(m, q, sq));
        assert(sq.contains(t));
        let k = sq.index_of(t);
        assert(sq[k] == t);
        assert(m[sq[k]].tcbDomain == 0);
        let prev = m[t].tcbSchedPrev;
        let next = m[t].tcbSchedNext;
        assert(prev == ep_prev_of(sq, k));
        assert(next == ep_next_of(sq, k));
        assert(sq[0] != 0);
        if k > 0 {
            assert(sq[k - 1] != 0 && m.contains_key(sq[k - 1]));
            assert(sq[k - 1] != t);
        }
        if k < sq.len() - 1 {
            assert(sq[k + 1] != 0 && m.contains_key(sq[k + 1]));
            assert(sq[k + 1] != t);
            if k > 0 {
                assert(sq[k + 1] != sq[k - 1]);
            }
        }
        assert(sq[sq.len() - 1] != 0);
        assert(can_dequeue(s, t));
        let s2 = spec_sched_dequeue(s, t);
        let m2 = s2.tcbs;
        let qs2 = qs_take_out(qs, p, t);
        let sq2 = sq.remove(k);
        assert(qs2[p as int] == sq2);
        law_ts_set_tcb_queued(m[t].tcbState, 0);
        assert(0u64 & 0x1u64 == 0u64) by (bit_vector);
        assert(!is_queued(m2, t));
        assert(m2.dom() =~= m.dom());
        assert(sq2.len() == sq.len() - 1);
        assert forall|i: int| 0 <= i < sq2.len() implies #[trigger] sq2[i] == if i < k {
            sq[i]
        } else {
            sq[i + 1]
        } by {}
        assert(sq2.no_duplicates()) by {
            assert forall|i: int, j: int| 0 <= i < sq2.len() && 0 <= j < sq2.len() && i != j implies sq2[i]
                != sq2[j] by {
                let ii = if i < k { i } else { i + 1 };
                let jj = if j < k { j } else { j + 1 };
                assert(sq2[i] == sq[ii] && sq2[j] == sq[jj]);
            }
        }
        assert forall|i: int| 0 <= i < sq2.len() implies #[trigger] sq2[i] != 0 && m2.contains_key(sq2[i]) by {
            let ii = if i < k { i } else { i + 1 };
            assert(sq2[i] == sq[ii]);
        }
        assert forall|i: int| 0 <= i < sq2.len() implies (#[trigger] m2[sq2[i]]).tcbSchedPrev
            == ep_prev_of(sq2, i) && m2[sq2[i]].tcbSchedNext == ep_next_of(sq2, i) by {
            let ii = if i < k { i } else { i + 1 };
            assert(sq2[i] == sq[ii]);
            assert(sq[ii] != t);
            if i > 0 {
                let pi = if i - 1 < k { i - 1 } else { i };
                assert(sq2[i - 1] == sq[pi]);
            }
            if i < sq2.len() - 1 {
                let ni = if i + 1 < k { i + 1 } else { i + 2 };
                assert(sq2[i + 1] == sq[ni]);
            }
            if ii == k - 1 {
            } else if ii == k + 1 {
            } else {
                if k > 0 {
                    assert(sq[ii] != sq[k - 1]);
                }
                if k < sq.len() - 1 {
                    assert(sq[ii] != sq[k + 1]);
                }
            }
        }
        assert(sched_queue_wf(m2, s2.ready_queues[p as int], sq2)) by {
            if sq2.len() > 0 {
                if k == 0 {
                    assert(sq2[0] == sq[1]);
                } else {
                    assert(sq2[0] == sq[0]);
                }
                if k == sq.len() - 1 {
                    assert(sq2[sq2.len() - 1] == sq[sq.len() - 2]);
                } else {
                    assert(sq2[sq2.len() - 1] == sq[sq.len() - 1]);
                }
            }
        }
        assert forall|a: u64| #![trigger m2[a]] m.contains_key(a) && a != t implies m2[a].tcbState
            == m[a].tcbState && m2[a].tcbPriority == m[a].tcbPriority && m2[a].tcbDomain
            == m[a].tcbDomain by {}
        assert forall|a: u64| a != t implies (qs2[p as int].contains(a) <==> qs[p as int].contains(a)) by {
            if sq.contains(a) {
                let j = sq.index_of(a);
                assert(j != k);
                if j < k {
                    assert(sq2[j] == a);
                } else {
                    assert(sq2[j - 1] == a);
                }
            }
            if sq2.contains(a) {
                let j = sq2.index_of(a);
                if j < k {
                    assert(sq[j] == a);
                } else {
                    assert(sq[j + 1] == a);
                }
            }
        }
        assert(!sq2.contains(t)) by {
            if sq2.contains(t) {
                let j = sq2.index_of(t);
                if j < k {
                    assert(sq[j] == t);
                } else {
                    assert(sq[j + 1] == t);
                }
            }
        }
        assert forall|r: int, i: int|
            0 <= r < NUM_PRIORITIES && r != p && 0 <= i < qs[r].len() implies m2[#[trigger] qs[r][i]].tcbSchedPrev
            == m[qs[r][i]].tcbSchedPrev && m2[qs[r][i]].tcbSchedNext == m[qs[r][i]].tcbSchedNext by {
            let a = qs[r][i];
            assert(m[a].tcbPriority == r);
            if k > 0 {
                assert(m[sq[k - 1]].tcbPriority == p);
            }
            if k < sq.len() - 1 {
                assert(m[sq[k + 1]].tcbPriority == p);
            }
        }
        assert(s2.ready_queues == s.ready_queues.update(p as int, s2.ready_queues[p as int]));
        assert(qs2 == qs.update(p as int, qs2[p as int]));
        lemma_ready_queues_rebuilt(
            m,
            s.ready_queues,
            qs,
            m2,
            s2.ready_queues,
            qs2,
            p as int,
            t,
        );
    }
}

/// Empty ready queues are the empty lists whenever no thread is marked as
/// queued; this is where the description starts.
pub proof fn law_ready_queues_empty(m: Map<u64, tcb_t>, queues: Seq<tcb_queue_t>)
    requires
        queues.len() == NUM_PRIORITIES,
        forall|p: int| 0 <= p < NUM_PRIORITIES ==> (#[trigger] queues[p]).head == 0 && queues[p].end == 0,
        forall|a: u64| m.contains_key(a) ==> !#[trigger] is_queued(m, a),
    ensures
        ready_queues_wf(m, queues, Seq::new(NUM_PRIORITIES as nat, |p: int| Seq::<u64>::empty())),
{
    let qs = Seq::new(NUM_PRIORITIES as nat, |p: int| Seq::<u64>::empty());
    assert forall|p: int| 0 <= p < NUM_PRIORITIES implies sched_queue_wf(m, queues[p], #[trigger] qs[p]) by {
        assert(qs[p].len() == 0);
    }
}

} // verus!
