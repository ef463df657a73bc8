//! The kernel's memory and global variables, held as plain values.
//!
//! Kernel objects live at addresses. Each kind of object is kept in a map
//! from its address to its contents; a slot that was never written reads as
//! an empty slot (the null capability with a null mapping-database node).
use vstd::prelude::*;

use std::collections::HashMap;

use crate::failures::{syscall_error, syscall_error_t};
use crate::object::{
    cap, cte, cte_t, endpoint_t, lookup_fault, lookup_fault_t, mdb_node, notification_t, seL4_Fault,
    seL4_Fault_t, tcb_t,
};
use crate::types::{dom_t, word_t};

verus! {

/// Number of scheduling priorities.
pub const NUM_PRIORITIES: u64 = 256;

/// Number of words in the second level of the ready-queue bitmap.
pub const L2_BITMAP_SIZE: u64 = 4;

/// The value of `ksSchedulerAction` that resumes the current thread.
pub const SchedulerAction_ResumeCurrentThread: u64 = 0;

/// The value of `ksSchedulerAction` that asks the scheduler to choose a thread.
pub const SchedulerAction_ChooseNewThread: u64 = 1;

/// A doubly linked queue of threads, given by the addresses of its first and
/// last TCB (zero when the queue is empty).
#[derive(Clone, Copy)]
pub struct tcb_queue {
    pub head: word_t,
    pub end: word_t,
}

pub type tcb_queue_t = tcb_queue;

/// The slots of the extra capabilities of the message being transferred,
/// ended by the first zero entry when there are fewer than three.
#[derive(Clone, Copy)]
pub struct extra_caps {
    pub excaprefs: [word_t; 3],
}

pub type extra_caps_t = extra_caps;

/// One entry of the domain schedule.
#[derive(Clone, Copy)]
pub struct dschedule {
    pub domain: dom_t,
    pub length: word_t,
}

pub type dschedule_t = dschedule;

/// Whether bit `i` of `w` is set.
pub open spec fn bit_set(w: u64, i: u64) -> bool {
    (w >> i) & 1u64 == 1u64
}

/// The zero word has no bit set.
pub proof fn lemma_zero_word_bits(j: u64)
    by (bit_vector)
    ensures
        (0u64 >> j) & 1u64 == 0u64,
{
}

/// Priority group `g` (the 64 priorities from `64 * g`) is marked in the
/// first level of the ready-queue bitmap exactly when its second-level word,
/// stored at index `L2_BITMAP_SIZE - 1 - g`, is non-zero.
pub open spec fn bitmap_group_ok(l1: u64, l2: Seq<u64>, g: u64) -> bool {
    bit_set(l1, g) <==> l2[(L2_BITMAP_SIZE - 1 - g) as int] != 0
}

/// The two levels of the ready-queue bitmap agree: the first level has one
/// bit per group of priorities and no other, set exactly for the groups with
/// a non-zero second-level word.
pub open spec fn bitmap_wf(l1: u64, l2: Seq<u64>) -> bool {
    &&& l1 < 16
    &&& bitmap_group_ok(l1, l2, 0)
    &&& bitmap_group_ok(l1, l2, 1)
    &&& bitmap_group_ok(l1, l2, 2)
    &&& bitmap_group_ok(l1, l2, 3)
}

/// The content of an empty capability slot.
pub open spec fn spec_empty_cte() -> cte_t {
    cte { cap: cap { words: [0u64, 0u64] }, cteMDBNode: mdb_node { words: [0u64, 0u64] } }
}

/// The capability-table entry at address `a`.
pub open spec fn cte_at(ctes: Map<u64, cte_t>, a: u64) -> cte_t {
    if ctes.contains_key(a) {
        ctes[a]
    } else {
        spec_empty_cte()
    }
}

/// Reads the capability-table entry at address `a`.
pub fn read_cte(ctes: &HashMap<u64, cte_t>, a: u64) -> (r: cte_t)
    ensures
        r == cte_at(ctes@, a),
{
    match ctes.get(&a) {
        Some(c) => *c,
        None => cte { cap: cap { words: [0u64, 0u64] }, cteMDBNode: mdb_node { words: [0u64, 0u64] } },
    }
}

/// Reads the TCB at address `a`, which must exist.
pub fn read_tcb(tcbs: &HashMap<u64, tcb_t>, a: u64) -> (r: tcb_t)
    requires
        tcbs@.contains_key(a),
    ensures
        r == tcbs@[a],
{
    *tcbs.get(&a).unwrap()
}

/// Reads the notification at address `a`, which must exist.
pub fn read_ntfn(ntfns: &HashMap<u64, notification_t>, a: u64) -> (r: notification_t)
    requires
        ntfns@.contains_key(a),
    ensures
        r == ntfns@[a],
{
    *ntfns.get(&a).unwrap()
}

/// Reads the endpoint at address `a`, which must exist.
pub fn read_ep(eps: &HashMap<u64, endpoint_t>, a: u64) -> (r: endpoint_t)
    requires
        eps@.contains_key(a),
    ensures
        r == eps@[a],
{
    *eps.get(&a).unwrap()
}

/// The scheduler's global variables.
pub struct SchedState {
    pub ksCurThread: word_t,
    pub ksIdleThread: word_t,
    pub ksSchedulerAction: word_t,
    pub ksCurDomain: dom_t,
    pub ksDomainTime: word_t,
    pub ksDomScheduleIdx: word_t,
    pub ksWorkUnitsCompleted: word_t,
    pub ksDomSchedule: Vec<dschedule_t>,
    pub ksReadyQueues: Vec<tcb_queue_t>,
    pub ksReadyQueuesL1Bitmap: word_t,
    pub ksReadyQueuesL2Bitmap: Vec<word_t>,
}

/// The kernel's objects and global variables.
pub struct KernelState {
    pub ctes: HashMap<u64, cte_t>,
    pub tcbs: HashMap<u64, tcb_t>,
    pub ntfns: HashMap<u64, notification_t>,
    pub eps: HashMap<u64, endpoint_t>,
    pub current_lookup_fault: lookup_fault_t,
    pub current_fault: seL4_Fault_t,
    pub current_syscall_error: syscall_error_t,
    pub current_extra_caps: extra_caps_t,
    pub sched: SchedState,
}

/// Each ready queue is empty at both ends or at neither, and the bitmap
/// marks exactly the priorities whose ready queue is not empty.
pub open spec fn ready_queues_marked(queues: Seq<tcb_queue_t>, l2: Seq<u64>) -> bool {
    forall|p: u64|
        #![trigger queues[p as int]]
        p < NUM_PRIORITIES ==> {
            &&& (queues[p as int].head == 0 <==> queues[p as int].end == 0)
            &&& (crate::thread::prio_marked(l2, p) <==> queues[p as int].head != 0)
        }
}

impl SchedState {
    /// The layout of the scheduler's variables: one ready queue per
    /// priority, one bitmap word per group of 64 priorities, the two levels
    /// of the bitmap in agreement, and the domain schedule index inside the
    /// schedule.
    pub open spec fn layout_wf(&self) -> bool {
        &&& self.ksReadyQueues@.len() == NUM_PRIORITIES
        &&& self.ksReadyQueuesL2Bitmap@.len() == L2_BITMAP_SIZE
        &&& bitmap_wf(self.ksReadyQueuesL1Bitmap, self.ksReadyQueuesL2Bitmap@)
        &&& self.ksDomSchedule@.len() > 0
        &&& self.ksDomScheduleIdx < self.ksDomSchedule@.len()
    }

    /// The scheduler's variables are well formed: their layout is, and the
    /// bitmap marks exactly the non-empty ready queues.
    pub open spec fn wf(&self) -> bool {
        &&& self.layout_wf()
        &&& ready_queues_marked(self.ksReadyQueues@, self.ksReadyQueuesL2Bitmap@)
    }

    /// Whether the scheduler's variables are well formed, checked on their
    /// values.
    pub fn is_wf(&self) -> (r: bool)
        ensures
            r == self.wf(),
    {
        if self.ksReadyQueues.len() != 256 || self.ksReadyQueuesL2Bitmap.len() != 4
            || self.ksDomSchedule.len() == 0 || self.ksDomScheduleIdx >= self.ksDomSchedule.len() as u64
            || self.ksReadyQueuesL1Bitmap >= 16 {
            return false;
        }
        let l1 = self.ksReadyQueuesL1Bitmap;
        let mut g: u64 = 0;
        while g < 4
            invariant
                g <= 4,
                l1 == self.ksReadyQueuesL1Bitmap,
                self.ksReadyQueuesL2Bitmap@.len() == 4,
                forall|h: u64| h < g ==> #[trigger] bitmap_group_ok(l1, self.ksReadyQueuesL2Bitmap@, h),
            decreases 4 - g,
        {
            let set = (l1 >> g) & 1 == 1;
            let nonzero = self.ksReadyQueuesL2Bitmap[(3 - g) as usize] != 0;
            if set != nonzero {
                assert(!bitmap_group_ok(l1, self.ksReadyQueuesL2Bitmap@, g));
                return false;
            }
            g = g + 1;
        }
        assert(bitmap_wf(l1, self.ksReadyQueuesL2Bitmap@)) by {
            assert(bitmap_group_ok(l1, self.ksReadyQueuesL2Bitmap@, 0));
            assert(bitmap_group_ok(l1, self.ksReadyQueuesL2Bitmap@, 1));
            assert(bitmap_group_ok(l1, self.ksReadyQueuesL2Bitmap@, 2));
            assert(bitmap_group_ok(l1, self.ksReadyQueuesL2Bitmap@, 3));
        }
        let mut p: u64 = 0;
        while p < 256
            invariant
                p <= 256,
                self.ksReadyQueues@.len() == 256,
                self.ksReadyQueuesL2Bitmap@.len() == 4,
                forall|p2: u64|
                    #![trigger self.ksReadyQueues@[p2 as int]]
                    p2 < p ==> {
                        &&& (self.ksReadyQueues@[p2 as int].head == 0
                            <==> self.ksReadyQueues@[p2 as int].end == 0)
                        &&& (crate::thread::prio_marked(self.ksReadyQueuesL2Bitmap@, p2)
                            <==> self.ksReadyQueues@[p2 as int].head != 0)
                    },
            decreases 256 - p,
        {
            let q = self.ksReadyQueues[p as usize];
            let l1index = crate::tcb::prio_to_l1index(p);
            assert(l1index < 4) by (bit_vector)
                requires
                    l1index == p >> 6u64,
                    p < 256,
            ;
            let w = self.ksReadyQueuesL2Bitmap[crate::tcb::invert_l1index(l1index) as usize];
            let b = p & 63u64;
            assert(b < 64) by (bit_vector)
                requires
                    b == p & 63u64,
            ;
            let marked = (w >> b) & 1u64 == 1u64;
            assert(marked == crate::thread::prio_marked(self.ksReadyQueuesL2Bitmap@, p));
            if (q.head == 0) != (q.end == 0) || marked != (q.head != 0) {
                assert(!ready_queues_marked(self.ksReadyQueues@, self.ksReadyQueuesL2Bitmap@));
                return false;
            }
            p = p + 1;
        }
        true
    }

    /// A scheduler state with an idle current thread, empty ready queues and
    /// the given domain schedule.
    pub fn new(idle: word_t, schedule: Vec<dschedule_t>) -> (r: SchedState)
        requires
            schedule@.len() > 0,
        ensures
            r.wf(),
            r.ksCurThread == idle,
            r.ksIdleThread == idle,
            r.ksSchedulerAction == SchedulerAction_ResumeCurrentThread,
            r.ksCurDomain == schedule@[0].domain,
            r.ksDomainTime == schedule@[0].length,
            r.ksDomScheduleIdx == 0,
            r.ksWorkUnitsCompleted == 0,
            r.ksDomSchedule@ == schedule@,
            forall|i: int| 0 <= i < NUM_PRIORITIES ==> r.ksReadyQueues@[i].head == 0 && (
            #[trigger] r.ksReadyQueues@[i]).end == 0,
            r.ksReadyQueuesL1Bitmap == 0,
            forall|i: int| 0 <= i < L2_BITMAP_SIZE ==> #[trigger] r.ksReadyQueuesL2Bitmap@[i] == 0,
    {
        let mut queues: Vec<tcb_queue_t> = Vec::new();
        let mut i: u64 = 0;
        while i < NUM_PRIORITIES
            invariant
                i <= NUM_PRIORITIES,
                queues@.len() == i,
                forall|j: int| 0 <= j < i ==> queues@[j].head == 0 && (#[trigger] queues@[j]).end
                    == 0,
            decreases NUM_PRIORITIES - i,
        {
            queues.push(tcb_queue { head: 0, end: 0 });
            i = i + 1;
        }
        let mut l2: Vec<word_t> = Vec::new();
        let mut j: u64 = 0;
        while j < L2_BITMAP_SIZE
            invariant
                j <= L2_BITMAP_SIZE,
                l2@.len() == j,
                forall|k: int| 0 <= k < j ==> #[trigger] l2@[k] == 0,
            decreases L2_BITMAP_SIZE - j,
        {
            l2.push(0);
            j = j + 1;
        }
        let first = schedule[0];
        proof {
            lemma_zero_word_bits(0);
            lemma_zero_word_bits(1);
            lemma_zero_word_bits(2);
            lemma_zero_word_bits(3);
            assert forall|p: u64| p < NUM_PRIORITIES implies !crate::thread::prio_marked(l2@, p) by {
                crate::tcb::lemma_prio_split(p);
                lemma_zero_word_bits(p & 63u64);
            }
        }
        SchedState {
            ksCurThread: idle,
            ksIdleThread: idle,
            ksSchedulerAction: SchedulerAction_ResumeCurrentThread,
            ksCurDomain: first.domain,
            ksDomainTime: first.length,
            ksDomScheduleIdx: 0,
            ksWorkUnitsCompleted: 0,
            ksDomSchedule: schedule,
            ksReadyQueues: queues,
            ksReadyQueuesL1Bitmap: 0,
            ksReadyQueuesL2Bitmap: l2,
        }
    }
}

impl KernelState {
    /// A kernel state with no objects, no recorded errors and the given
    /// scheduler variables.
    pub fn new(sched: SchedState) -> (r: KernelState)
        ensures
            r.ctes@ == Map::<u64, cte_t>::empty(),
            r.tcbs@ == Map::<u64, tcb_t>::empty(),
            r.ntfns@ == Map::<u64, notification_t>::empty(),
            r.eps@ == Map::<u64, endpoint_t>::empty(),
            r.current_lookup_fault == (lookup_fault { words: [0u64, 0u64] }),
            r.current_fault == (seL4_Fault { words: [0u64, 0u64] }),
            r.current_syscall_error.error_type == 0,
            r.current_syscall_error.failedLookupWasSource == 0,
            r.current_syscall_error.rangeErrorMin == 0,
            r.current_syscall_error.rangeErrorMax == 0,
            r.current_extra_caps.excaprefs@ == seq![0u64, 0u64, 0u64],
            r.sched == sched,
    {
        KernelState {
            ctes: HashMap::new(),
            tcbs: HashMap::new(),
            ntfns: HashMap::new(),
            eps: HashMap::new(),
            current_lookup_fault: lookup_fault { words: [0u64, 0u64] },
            current_fault: seL4_Fault { words: [0u64, 0u64] },
            current_syscall_error: syscall_error::empty(),
            current_extra_caps: extra_caps { excaprefs: [0u64, 0u64, 0u64] },
            sched,
        }
    }
}

/// The abstract value of a kernel state: its objects as maps from address
/// to contents, and its global variables.
#[verifier::ext_equal]
pub struct KState {
    pub ctes: Map<u64, cte_t>,
    pub tcbs: Map<u64, tcb_t>,
    pub ntfns: Map<u64, notification_t>,
    pub eps: Map<u64, endpoint_t>,
    pub current_lookup_fault: lookup_fault_t,
    pub current_fault: seL4_Fault_t,
    pub current_syscall_error: syscall_error_t,
    pub extra_caps: Seq<u64>,
    pub cur_thread: u64,
    pub idle_thread: u64,
    pub action: u64,
    pub cur_domain: u64,
    pub domain_time: u64,
    pub dom_schedule_idx: u64,
    pub work_units: u64,
    pub dom_schedule: Seq<dschedule_t>,
    pub ready_queues: Seq<tcb_queue_t>,
    pub l1_bitmap: u64,
    pub l2_bitmap: Seq<u64>,
}

impl KState {
    /// The scheduler variables are well formed.
    pub open spec fn sched_wf(self) -> bool {
        &&& self.ready_queues.len() == NUM_PRIORITIES
        &&& self.l2_bitmap.len() == L2_BITMAP_SIZE
        &&& bitmap_wf(self.l1_bitmap, self.l2_bitmap)
        &&& self.dom_schedule.len() > 0
        &&& self.dom_schedule_idx < self.dom_schedule.len()
    }
}

impl View for KernelState {
    type V = KState;

    open spec fn view(&self) -> KState {
        KState {
            ctes: self.ctes@,
            tcbs: self.tcbs@,
            ntfns: self.ntfns@,
            eps: self.eps@,
            current_lookup_fault: self.current_lookup_fault,
            current_fault: self.current_fault,
            current_syscall_error: self.current_syscall_error,
            extra_caps: self.current_extra_caps.excaprefs@,
            cur_thread: self.sched.ksCurThread,
            idle_thread: self.sched.ksIdleThread,
            action: self.sched.ksSchedulerAction,
            cur_domain: self.sched.ksCurDomain,
            domain_time: self.sched.ksDomainTime,
            dom_schedule_idx: self.sched.ksDomScheduleIdx,
            work_units: self.sched.ksWorkUnitsCompleted,
            dom_schedule: self.sched.ksDomSchedule@,
            ready_queues: self.sched.ksReadyQueues@,
            l1_bitmap: self.sched.ksReadyQueuesL1Bitmap,
            l2_bitmap: self.sched.ksReadyQueuesL2Bitmap@,
        }
    }
}

} // verus!
