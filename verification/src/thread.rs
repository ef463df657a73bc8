//! Thread state changes and the scheduler's decisions: rescheduling,
//! switching to a woken thread, timer ticks, priorities and domains.
use vstd::prelude::*;

use vstd::array::spec_array_update;
use vstd::std_specs::bits::{axiom_u64_leading_zeros, u64_leading_zeros};

use crate::cnode::spec_setup_reply_master;
use crate::notification::{can_cancel_ipc, spec_cancel_ipc};
use crate::object::{
    arch_tcb, spec_ts_set_ts_type, spec_ts_type, tcb_t, thread_state_ptr_get_tsType,
    thread_state_ptr_set_tsType, ThreadState_BlockedOnNotification, ThreadState_BlockedOnReceive,
    ThreadState_BlockedOnReply, ThreadState_BlockedOnSend, ThreadState_IdleThreadState,
    ThreadState_Inactive, ThreadState_Restart, ThreadState_Running,
};
use crate::state::{
    bit_set, KernelState, KState, lemma_zero_word_bits, NUM_PRIORITIES, read_tcb,
    SchedulerAction_ChooseNewThread, SchedulerAction_ResumeCurrentThread,
};
use crate::tcb::{
    can_append, can_dequeue, can_enqueue, invert_l1index, lemma_prio_split, ready_queues_index,
    spec_invert_l1index, spec_prio_to_l1index, spec_sched_append, spec_sched_dequeue,
    spec_sched_enqueue,
};
use crate::types::{dom_t, prio_t, user_context, word_t, wordBits, wordRadix};

verus! {

/// The register that carries the badge of a received message or signal.
pub const badgeRegister: u64 = 9;

/// Number of saved registers of a thread.
pub const n_contextRegisters: u64 = 35;

/// The register that carries the message descriptor.
pub const msgInfoRegister: u64 = 10;

/// The register that holds the thread-local storage base.
pub const TLS_BASE: u64 = 3;

/// The register that holds the address of the instruction that faulted or
/// trapped into the kernel.
pub const FaultIP: u64 = 33;

/// The register that holds the address the thread resumes at.
pub const NextIP: u64 = 34;

/// The length of a time slice, in timer ticks.
pub const CONFIG_TIME_SLICE: u64 = 5;

// ---------------------------------------------------------------------------
// Registers
// ---------------------------------------------------------------------------

/// The TCBs after setting register `reg` of the thread at `t` to `w`.
pub open spec fn spec_set_register(m: Map<u64, tcb_t>, t: u64, reg: u64, w: u64) -> Map<u64, tcb_t> {
    m.insert(
        t,
        tcb_t {
            tcbArch: arch_tcb {
                tcbContext: user_context {
                    registers: spec_array_update(m[t].tcbArch.tcbContext.registers, reg as int, w),
                },
            },
            ..m[t]
        },
    )
}

/// Register `reg` of the thread at `t`.
pub open spec fn spec_get_register(m: Map<u64, tcb_t>, t: u64, reg: u64) -> u64 {
    m[t].tcbArch.tcbContext.registers[reg as int]
}

impl KernelState {
    /// Sets register `reg` of the thread at `tptr` to `w`.
    pub fn setRegister(&mut self, tptr: word_t, reg: word_t, w: word_t)
        requires
            old(self).tcbs@.contains_key(tptr),
            reg < n_contextRegisters,
        ensures
            final(self)@ == (KState { tcbs: spec_set_register(old(self)@.tcbs, tptr, reg, w), ..old(self)@ }),
            final(self).sched == old(self).sched,
    {
        let mut t = read_tcb(&self.tcbs, tptr);
        t.tcbArch.tcbContext.registers[reg as usize] = w;
        self.tcbs.insert(tptr, t);
    }

    /// Reads register `reg` of the thread at `tptr`.
    pub fn getRegister(&self, tptr: word_t, reg: word_t) -> (ret: word_t)
        requires
            self.tcbs@.contains_key(tptr),
            reg < n_contextRegisters,
        ensures
            ret == spec_get_register(self.tcbs@, tptr, reg),
    {
        let t = read_tcb(&self.tcbs, tptr);
        t.tcbArch.tcbContext.registers[reg as usize]
    }
}

// ---------------------------------------------------------------------------
// Scheduling decisions
// ---------------------------------------------------------------------------

/// A thread is runnable when it is running or about to restart.
pub open spec fn spec_is_runnable(m: Map<u64, tcb_t>, t: u64) -> bool {
    spec_ts_type(m[t].tcbState) == ThreadState_Running || spec_ts_type(m[t].tcbState)
        == ThreadState_Restart
}

/// The scheduler action names a thread (it is neither "resume the current
/// thread" nor "choose a new thread").
pub open spec fn action_is_thread(s: KState) -> bool {
    s.action != SchedulerAction_ResumeCurrentThread && s.action != SchedulerAction_ChooseNewThread
}

/// `rescheduleRequired` can run: a thread named by the scheduler action can
/// be put into its ready queue.
pub open spec fn can_reschedule(s: KState) -> bool {
    action_is_thread(s) ==> can_enqueue(s, s.action)
}

/// The state after `rescheduleRequired`: a thread that the scheduler was
/// about to switch to goes back into its ready queue, and the scheduler is
/// asked to choose a new thread.
pub open spec fn spec_reschedule_required(s: KState) -> KState {
    let s1 = if action_is_thread(s) {
        spec_sched_enqueue(s, s.action)
    } else {
        s
    };
    KState { action: SchedulerAction_ChooseNewThread, ..s1 }
}

/// `possibleSwitchTo(t)` can run.
pub open spec fn can_possible_switch_to(s: KState, t: u64) -> bool {
    &&& s.tcbs.contains_key(t)
    &&& s.cur_domain != s.tcbs[t].tcbDomain ==> can_enqueue(s, t)
    &&& s.cur_domain == s.tcbs[t].tcbDomain && s.action != SchedulerAction_ResumeCurrentThread
        ==> can_reschedule(s) && can_enqueue(spec_reschedule_required(s), t)
}

/// The state after `possibleSwitchTo(t)`: a thread of another domain is
/// queued; otherwise, if the scheduler already has work to do, it is asked to
/// reschedule and the thread is queued; otherwise the scheduler is told to
/// switch to the thread.
pub open spec fn spec_possible_switch_to(s: KState, t: u64) -> KState {
    if s.cur_domain != s.tcbs[t].tcbDomain {
        spec_sched_enqueue(s, t)
    } else if s.action != SchedulerAction_ResumeCurrentThread {
        spec_sched_enqueue(spec_reschedule_required(s), t)
    } else {
        KState { action: t, ..s }
    }
}

/// The state after `scheduleTCB(t)`: when `t` is the current thread, the
/// scheduler would resume it, and it is no longer runnable, a reschedule is
/// required.
pub open spec fn spec_schedule_tcb(s: KState, t: u64) -> KState {
    if t == s.cur_thread && s.action == SchedulerAction_ResumeCurrentThread && !spec_is_runnable(
        s.tcbs,
        t,
    ) {
        spec_reschedule_required(s)
    } else {
        s
    }
}

/// The TCBs after setting the state kind of the thread at `t` to `ts`.
pub open spec fn spec_set_ts_type_tcbs(m: Map<u64, tcb_t>, t: u64, ts: u64) -> Map<u64, tcb_t> {
    m.insert(t, tcb_t { tcbState: spec_ts_set_ts_type(m[t].tcbState, ts), ..m[t] })
}

/// The state after `setThreadState(t, ts)`.
pub open spec fn spec_set_thread_state(s: KState, t: u64, ts: u64) -> KState {
    spec_schedule_tcb(KState { tcbs: spec_set_ts_type_tcbs(s.tcbs, t, ts), ..s }, t)
}

/// `setThreadState(t, ts)` can run.
pub open spec fn can_set_thread_state(s: KState, t: u64) -> bool {
    s.tcbs.contains_key(t)
}

impl KernelState {
    /// Whether the thread at `t` can be scheduled: it is runnable.
    pub fn isSchedulable(&self, t: word_t) -> (ret: bool)
        requires
            self.tcbs@.contains_key(t),
        ensures
            ret == spec_is_runnable(self.tcbs@, t),
    {
        let ty = thread_state_ptr_get_tsType(&read_tcb(&self.tcbs, t).tcbState);
        ty == ThreadState_Running || ty == ThreadState_Restart
    }

    /// Asks the scheduler to choose a new thread, first putting back into its
    /// ready queue a thread that it was about to switch to.
    pub fn rescheduleRequired(&mut self)
        requires
            old(self).sched.wf(),
            can_reschedule(old(self)@),
        ensures
            final(self).sched.wf(),
            final(self)@ == spec_reschedule_required(old(self)@),
    {
        let action = self.sched.ksSchedulerAction;
        if action != SchedulerAction_ResumeCurrentThread && action
            != SchedulerAction_ChooseNewThread {
            self.tcbSchedEnqueue(action);
        }
        self.sched.ksSchedulerAction = SchedulerAction_ChooseNewThread;
    }

    /// Makes the woken thread at `target` a candidate to run.
    pub fn possibleSwitchTo(&mut self, target: word_t)
        requires
            old(self).sched.wf(),
            can_possible_switch_to(old(self)@, target),
        ensures
            final(self).sched.wf(),
            final(self)@ == spec_possible_switch_to(old(self)@, target),
    {
        let dom = read_tcb(&self.tcbs, target).tcbDomain;
        if self.sched.ksCurDomain != dom {
            self.tcbSchedEnqueue(target);
        } else if self.sched.ksSchedulerAction != SchedulerAction_ResumeCurrentThread {
            self.rescheduleRequired();
            self.tcbSchedEnqueue(target);
        } else {
            self.sched.ksSchedulerAction = target;
        }
    }

    /// Requires a reschedule when the current thread, which the scheduler
    /// would resume, is no longer runnable.
    pub fn scheduleTCB(&mut self, tptr: word_t)
        requires
            old(self).sched.wf(),
            old(self).tcbs@.contains_key(tptr),
        ensures
            final(self).sched.wf(),
            final(self)@ == spec_schedule_tcb(old(self)@, tptr),
    {
        if tptr == self.sched.ksCurThread && self.sched.ksSchedulerAction
            == SchedulerAction_ResumeCurrentThread && !self.isSchedulable(tptr) {
            self.rescheduleRequired();
        }
    }

    /// Sets the state kind of the thread at `tptr` and tells the scheduler.
    pub fn setThreadState(&mut self, tptr: word_t, ts: word_t)
        requires
            old(self).sched.wf(),
            can_set_thread_state(old(self)@, tptr),
        ensures
            final(self).sched.wf(),
            final(self)@ == spec_set_thread_state(old(self)@, tptr, ts),
    {
        let mut t = read_tcb(&self.tcbs, tptr);
        thread_state_ptr_set_tsType(&mut t.tcbState, ts);
        self.tcbs.insert(tptr, t);
        self.scheduleTCB(tptr);
    }
}

// ---------------------------------------------------------------------------
// Timer ticks, priorities and domains
// ---------------------------------------------------------------------------

/// The state after `timerTick`: a running current thread uses up one tick of
/// its time slice; when the slice runs out it gets a fresh one, goes to the
/// end of its ready queue, and a reschedule is required.
pub open spec fn spec_timer_tick(s: KState) -> KState {
    let c = s.cur_thread;
    let t = s.tcbs[c];
    if spec_ts_type(t.tcbState) != ThreadState_Running {
        s
    } else if t.tcbTimeSlice > 1 {
        KState { tcbs: s.tcbs.insert(c, tcb_t { tcbTimeSlice: (t.tcbTimeSlice - 1) as u64, ..t }), ..s }
    } else {
        let s1 = KState {
            tcbs: s.tcbs.insert(c, tcb_t { tcbTimeSlice: CONFIG_TIME_SLICE, ..t }),
            ..s
        };
        spec_reschedule_required(spec_sched_append(s1, c))
    }
}

/// `timerTick` can run.
pub open spec fn can_timer_tick(s: KState) -> bool {
    let c = s.cur_thread;
    let t = s.tcbs[c];
    let s1 = KState { tcbs: s.tcbs.insert(c, tcb_t { tcbTimeSlice: CONFIG_TIME_SLICE, ..t }), ..s };
    &&& s.tcbs.contains_key(c)
    &&& spec_ts_type(t.tcbState) == ThreadState_Running && t.tcbTimeSlice <= 1 ==> {
        &&& can_append(s1, c)
        &&& can_reschedule(spec_sched_append(s1, c))
    }
}

/// The TCBs after setting field `tcbPriority` of the thread at `t`.
pub open spec fn spec_with_priority(s: KState, t: u64, prio: u64) -> KState {
    KState { tcbs: s.tcbs.insert(t, tcb_t { tcbPriority: prio, ..s.tcbs[t] }), ..s }
}

/// The TCBs after setting field `tcbDomain` of the thread at `t`.
pub open spec fn spec_with_domain(s: KState, t: u64, dom: u64) -> KState {
    KState { tcbs: s.tcbs.insert(t, tcb_t { tcbDomain: dom, ..s.tcbs[t] }), ..s }
}

/// The state after `setPriority(t, prio)`: the dequeue step, the new
/// priority, and then, for a runnable thread, a reschedule if it is the
/// current thread or a possible switch to it otherwise.
pub open spec fn spec_set_priority(s: KState, t: u64, prio: u64) -> KState {
    let s1 = spec_with_priority(spec_sched_dequeue(s, t), t, prio);
    if spec_is_runnable(s1.tcbs, t) {
        if t == s1.cur_thread {
            spec_reschedule_required(s1)
        } else {
            spec_possible_switch_to(s1, t)
        }
    } else {
        s1
    }
}

/// `setPriority(t, prio)` can run.
pub open spec fn can_set_priority(s: KState, t: u64, prio: u64) -> bool {
    let s1 = spec_with_priority(spec_sched_dequeue(s, t), t, prio);
    &&& can_dequeue(s, t)
    &&& spec_is_runnable(s1.tcbs, t) && t == s1.cur_thread ==> can_reschedule(s1)
    &&& spec_is_runnable(s1.tcbs, t) && t != s1.cur_thread ==> can_possible_switch_to(s1, t)
}

/// The state after `setDomain(t, dom)`: the dequeue step, the new domain,
/// the thread queued again if it is runnable, and a reschedule if it is the
/// current thread.
pub open spec fn spec_set_domain(s: KState, t: u64, dom: u64) -> KState {
    let s1 = spec_with_domain(spec_sched_dequeue(s, t), t, dom);
    let s2 = if spec_is_runnable(s1.tcbs, t) {
        spec_sched_enqueue(s1, t)
    } else {
        s1
    };
    if t == s2.cur_thread {
        spec_reschedule_required(s2)
    } else {
        s2
    }
}

/// `setDomain(t, dom)` can run.
pub open spec fn can_set_domain(s: KState, t: u64, dom: u64) -> bool {
    let s1 = spec_with_domain(spec_sched_dequeue(s, t), t, dom);
    let s2 = if spec_is_runnable(s1.tcbs, t) {
        spec_sched_enqueue(s1, t)
    } else {
        s1
    };
    &&& can_dequeue(s, t)
    &&& spec_is_runnable(s1.tcbs, t) ==> can_enqueue(s1, t)
    &&& t == s2.cur_thread ==> can_reschedule(s2)
}

/// The state after `nextDomain`: the domain schedule advances (wrapping
/// around at its end), the work count is reset, and the current domain and
/// its time come from the new schedule entry.
pub open spec fn spec_next_domain(s: KState) -> KState {
    let idx = if s.dom_schedule_idx + 1 >= s.dom_schedule.len() {
        0
    } else {
        (s.dom_schedule_idx + 1) as u64
    };
    KState {
        dom_schedule_idx: idx,
        work_units: 0,
        cur_domain: s.dom_schedule[idx as int].domain,
        domain_time: s.dom_schedule[idx as int].length,
        ..s
    }
}

impl KernelState {
    /// Accounts one timer tick to the current thread.
    pub fn timerTick(&mut self)
        requires
            old(self).sched.wf(),
            can_timer_tick(old(self)@),
        ensures
            final(self).sched.wf(),
            final(self)@ == spec_timer_tick(old(self)@),
    {
        let c = self.sched.ksCurThread;
        let mut t = read_tcb(&self.tcbs, c);
        if thread_state_ptr_get_tsType(&t.tcbState) == ThreadState_Running {
            if t.tcbTimeSlice > 1 {
                t.tcbTimeSlice = t.tcbTimeSlice - 1;
                self.tcbs.insert(c, t);
            } else {
                t.tcbTimeSlice = CONFIG_TIME_SLICE;
                self.tcbs.insert(c, t);
                self.tcbSchedAppend(c);
                self.rescheduleRequired();
            }
        }
    }

    /// Sets the maximum controlled priority of the thread at `tptr`.
    pub fn setMCPriority(&mut self, tptr: word_t, mcp: prio_t)
        requires
            old(self).tcbs@.contains_key(tptr),
        ensures
            final(self)@ == (KState {
                tcbs: old(self)@.tcbs.insert(tptr, tcb_t { tcbMCP: mcp, ..old(self)@.tcbs[tptr] }),
                ..old(self)@
            }),
            final(self).sched == old(self).sched,
    {
        let mut t = read_tcb(&self.tcbs, tptr);
        t.tcbMCP = mcp;
        self.tcbs.insert(tptr, t);
    }

    /// Sets the priority of the thread at `tptr`.
    pub fn setPriority(&mut self, tptr: word_t, prio: prio_t)
        requires
            old(self).sched.wf(),
            can_set_priority(old(self)@, tptr, prio),
        ensures
            final(self).sched.wf(),
            final(self)@ == spec_set_priority(old(self)@, tptr, prio),
    {
        self.tcbSchedDequeue(tptr);
        let mut t = read_tcb(&self.tcbs, tptr);
        t.tcbPriority = prio;
        self.tcbs.insert(tptr, t);
        if self.isSchedulable(tptr) {
            if tptr == self.sched.ksCurThread {
                self.rescheduleRequired();
            } else {
                self.possibleSwitchTo(tptr);
            }
        }
    }

    /// Moves the thread at `tptr` to domain `dom`.
    pub fn setDomain(&mut self, tptr: word_t, dom: dom_t)
        requires
            old(self).sched.wf(),
            can_set_domain(old(self)@, tptr, dom),
        ensures
            final(self).sched.wf(),
            final(self)@ == spec_set_domain(old(self)@, tptr, dom),
    {
        self.tcbSchedDequeue(tptr);
        let mut t = read_tcb(&self.tcbs, tptr);
        t.tcbDomain = dom;
        self.tcbs.insert(tptr, t);
        if self.isSchedulable(tptr) {
            self.tcbSchedEnqueue(tptr);
        }
        if tptr == self.sched.ksCurThread {
            self.rescheduleRequired();
        }
    }

    /// Advances the domain schedule.
    pub fn nextDomain(&mut self)
        requires
            old(self).sched.wf(),
        ensures
            final(self).sched.wf(),
            final(self)@ == spec_next_domain(old(self)@),
    {
        let len = self.sched.ksDomSchedule.len() as u64;
        self.sched.ksDomScheduleIdx = self.sched.ksDomScheduleIdx + 1;
        if self.sched.ksDomScheduleIdx >= len {
            self.sched.ksDomScheduleIdx = 0;
        }
        self.sched.ksWorkUnitsCompleted = 0;
        let entry = self.sched.ksDomSchedule[self.sched.ksDomScheduleIdx as usize];
        self.sched.ksCurDomain = entry.domain;
        self.sched.ksDomainTime = entry.length;
    }

    /// Reports a failed non-blocking receive to the thread at `thread`: its
    /// badge register is cleared.
    pub fn doNBRecvFailedTransfer(&mut self, thread: word_t)
        requires
            old(self).tcbs@.contains_key(thread),
        ensures
            final(self)@ == (KState {
                tcbs: spec_set_register(old(self)@.tcbs, thread, badgeRegister, 0),
                ..old(self)@
            }),
            final(self).sched == old(self).sched,
    {
        self.setRegister(thread, badgeRegister, 0);
    }
}

// ---------------------------------------------------------------------------
// Choosing the thread to run
// ---------------------------------------------------------------------------

/// The index of the highest set bit of a non-zero word.
pub open spec fn top_bit(w: u64) -> u64 {
    (63 - u64_leading_zeros(w)) as u64
}

/// The highest priority marked in the ready-queue bitmap: the highest set
/// bit of the first level picks the group of 64 priorities, the highest set
/// bit of that group's second-level word the priority inside the group.
pub open spec fn spec_highest_prio(l1: u64, l2: Seq<u64>) -> u64 {
    let l1index = top_bit(l1);
    (l1index << 6u64) | top_bit(l2[spec_invert_l1index(l1index) as int])
}

/// No thread of a higher priority than `prio` is marked runnable.
pub open spec fn spec_is_highest_prio(s: KState, prio: u64) -> bool {
    s.l1_bitmap == 0 || prio >= spec_highest_prio(s.l1_bitmap, s.l2_bitmap)
}

/// A first-level word below 16 has no bit set from bit 4 up.
proof fn lemma_small_word_bits(l1: u64, j: u64)
    by (bit_vector)
    requires
        l1 < 16,
        4 <= j < 64,
    ensures
        (l1 >> j) & 1u64 == 0u64,
{
}

/// A group index and a position inside the group make up a priority.
proof fn lemma_prio_join(g: u64, b: u64)
    by (bit_vector)
    requires
        g < 4,
        b < 64,
    ensures
        (g << 6u64) | b < 256,
        (g << 6u64) | b == g * 64 + b,
        ((g << 6u64) | b) >> 6u64 == g,
        ((g << 6u64) | b) & 63u64 == b,
{
}

/// The lowest bit of a word is one when it is not zero.
proof fn lemma_low_bit(x: u64)
    by (bit_vector)
    ensures
        (x & 1u64 != 0u64) == (x & 1u64 == 1u64),
{
}

/// The highest set bit of a non-zero word is set, and no bit above it is.
pub proof fn lemma_top_bit(w: u64)
    requires
        w != 0,
    ensures
        top_bit(w) < 64,
        bit_set(w, top_bit(w)),
        forall|j: u64| top_bit(w) < j < 64 ==> !#[trigger] bit_set(w, j),
{
    axiom_u64_leading_zeros(w);
    lemma_low_bit(w >> top_bit(w));
    assert forall|j: u64| top_bit(w) < j < 64 implies !#[trigger] bit_set(w, j) by {
        assert(64 - u64_leading_zeros(w) <= j);
    }
}

/// The highest set bit of a non-zero first-level word names one of the four
/// priority groups, whose second-level word is non-zero.
pub proof fn lemma_top_group(l1: u64, l2: Seq<u64>)
    requires
        bitmap_wf_of(l1, l2),
        l1 != 0,
    ensures
        top_bit(l1) < 4,
        l2[spec_invert_l1index(top_bit(l1)) as int] != 0,
{
    lemma_top_bit(l1);
    if top_bit(l1) >= 4 {
        lemma_small_word_bits(l1, top_bit(l1));
    }
}

/// The bitmap agreement of the scheduler state, as used here.
pub open spec fn bitmap_wf_of(l1: u64, l2: Seq<u64>) -> bool {
    crate::state::bitmap_wf(l1, l2)
}

/// Priority `p` is marked runnable in the second level of the bitmap.
pub open spec fn prio_marked(l2: Seq<u64>, p: u64) -> bool {
    bit_set(l2[spec_invert_l1index(spec_prio_to_l1index(p)) as int], p & 63u64)
}

/// The highest priority read from a consistent, non-empty bitmap is marked
/// runnable, and no priority above it is.
pub proof fn law_highest_prio(l1: u64, l2: Seq<u64>)
    requires
        crate::state::bitmap_wf(l1, l2),
        l2.len() == 4,
        l1 != 0,
    ensures
        spec_highest_prio(l1, l2) < NUM_PRIORITIES,
        prio_marked(l2, spec_highest_prio(l1, l2)),
        forall|p: u64|
            spec_highest_prio(l1, l2) < p < NUM_PRIORITIES ==> !#[trigger] prio_marked(l2, p),
{
    lemma_top_group(l1, l2);
    lemma_top_bit(l1);
    let g = top_bit(l1);
    let w = l2[spec_invert_l1index(g) as int];
    lemma_top_bit(w);
    let b = top_bit(w);
    lemma_prio_join(g, b);
    let h = spec_highest_prio(l1, l2);
    assert forall|p: u64| h < p < NUM_PRIORITIES implies !#[trigger] prio_marked(l2, p) by {
        lemma_prio_split(p);
        lemma_prio_join(p >> 6u64, p & 63u64);
        let gp = p >> 6u64;
        if gp > g {
            assert(!bit_set(l1, gp));
            assert(l2[spec_invert_l1index(gp) as int] == 0);
            lemma_zero_word_bits(p & 63u64);
        }
    }
}

/// `isHighestPrio(prio)` holds exactly when no priority above `prio` is
/// marked runnable.
pub proof fn law_is_highest_prio(s: KState, prio: u64)
    requires
        s.sched_wf(),
        prio < NUM_PRIORITIES,
    ensures
        spec_is_highest_prio(s, prio) <==> forall|p: u64|
            prio < p < NUM_PRIORITIES ==> !#[trigger] prio_marked(s.l2_bitmap, p),
{
    if s.l1_bitmap == 0 {
        assert forall|p: u64| prio < p < NUM_PRIORITIES implies !#[trigger] prio_marked(
            s.l2_bitmap,
            p,
        ) by {
            lemma_prio_split(p);
            lemma_zero_word_bits(p & 63u64);
            lemma_zero_word_bits(p >> 6u64);
        }
    } else {
        law_highest_prio(s.l1_bitmap, s.l2_bitmap);
    }
}

/// The state after `switchToThread(t)`: the dequeue step on `t`, which then
/// becomes the current thread.
pub open spec fn spec_switch_to_thread(s: KState, t: u64) -> KState {
    KState { cur_thread: t, ..spec_sched_dequeue(s, t) }
}

/// The state after `chooseThread`: the head of the ready queue of the
/// highest runnable priority becomes the current thread, or the idle thread
/// does when no thread is runnable. (There is a single domain, whose queues
/// are the ones held.)
pub open spec fn spec_choose_thread(s: KState) -> KState {
    if s.l1_bitmap != 0 {
        let prio = spec_highest_prio(s.l1_bitmap, s.l2_bitmap);
        spec_switch_to_thread(s, s.ready_queues[prio as int].head)
    } else {
        KState { cur_thread: s.idle_thread, ..s }
    }
}

/// `chooseThread` can run: the chosen thread can go through the dequeue
/// step.
pub open spec fn can_choose_thread(s: KState) -> bool {
    s.l1_bitmap != 0 ==> can_dequeue(
        s,
        s.ready_queues[spec_highest_prio(s.l1_bitmap, s.l2_bitmap) as int].head,
    )
}

/// The state after `scheduleChooseNewThread`: the domain schedule advances
/// when the current domain's time is used up, then a thread is chosen.
pub open spec fn spec_schedule_choose_new_thread(s: KState) -> KState {
    let s1 = if s.domain_time == 0 {
        spec_next_domain(s)
    } else {
        s
    };
    spec_choose_thread(s1)
}

/// `scheduleChooseNewThread` can run.
pub open spec fn can_schedule_choose_new_thread(s: KState) -> bool {
    can_choose_thread(
        if s.domain_time == 0 {
            spec_next_domain(s)
        } else {
            s
        },
    )
}

/// The state after the current thread is put back into its ready queue, if
/// it is runnable, at the start of `schedule`.
pub open spec fn spec_schedule_requeue(s: KState) -> KState {
    if spec_is_runnable(s.tcbs, s.cur_thread) {
        spec_sched_enqueue(s, s.cur_thread)
    } else {
        s
    }
}

/// Whether the candidate named by the scheduler action fails the fast check:
/// the current thread is idle or has a higher priority than the candidate.
pub open spec fn schedule_fastfail(s1: KState, cand: u64) -> bool {
    s1.cur_thread == s1.idle_thread || s1.tcbs[cand].tcbPriority
        < s1.tcbs[s1.cur_thread].tcbPriority
}

/// The state after a candidate named by the scheduler action has been
/// dealt with in `schedule` (before a new thread is chosen, when one is):
/// it is queued at the front (when it fails the fast check and a higher
/// priority is runnable) or at the end (when the current thread was runnable
/// with the same priority), and a new thread is then to be chosen; otherwise
/// it is switched to.
pub open spec fn spec_schedule_candidate(s1: KState, cand: u64, was_runnable: bool) -> KState {
    let cp = s1.tcbs[cand].tcbPriority;
    if schedule_fastfail(s1, cand) && !spec_is_highest_prio(s1, cp) {
        KState { action: SchedulerAction_ChooseNewThread, ..spec_sched_enqueue(s1, cand) }
    } else if was_runnable && cp == s1.tcbs[s1.cur_thread].tcbPriority {
        KState { action: SchedulerAction_ChooseNewThread, ..spec_sched_append(s1, cand) }
    } else {
        spec_switch_to_thread(s1, cand)
    }
}

/// The state after `schedule`: when the scheduler action asks for a change,
/// a runnable current thread goes back into its ready queue. When the action
/// asks for a new thread, or when a candidate named by the action is queued
/// rather than switched to (`spec_schedule_candidate`), the domain schedule
/// advances if its time is up and the highest-priority ready thread (or the
/// idle thread) is chosen. The action ends as "resume the current thread".
pub open spec fn spec_schedule(s: KState) -> KState {
    if s.action == SchedulerAction_ResumeCurrentThread {
        s
    } else {
        let was_runnable = spec_is_runnable(s.tcbs, s.cur_thread);
        let s1 = spec_schedule_requeue(s);
        let s2 = if s.action == SchedulerAction_ChooseNewThread {
            spec_schedule_choose_new_thread(s1)
        } else {
            let s3 = spec_schedule_candidate(s1, s.action, was_runnable);
            if s3.action == SchedulerAction_ChooseNewThread {
                spec_schedule_choose_new_thread(s3)
            } else {
                s3
            }
        };
        KState { action: SchedulerAction_ResumeCurrentThread, ..s2 }
    }
}

/// `schedule` can run: the threads it reads exist, the current domain has
/// ready queues when the bitmap is consulted, and each queue operation it
/// makes can run.
pub open spec fn can_schedule(s: KState) -> bool {
    s.action != SchedulerAction_ResumeCurrentThread ==> {
        let s1 = spec_schedule_requeue(s);
        let cand = s.action;
        let cp = s1.tcbs[cand].tcbPriority;
        &&& s.tcbs.contains_key(s.cur_thread)
        &&& spec_is_runnable(s.tcbs, s.cur_thread) ==> can_enqueue(s, s.cur_thread)
        &&& s.action == SchedulerAction_ChooseNewThread ==> can_schedule_choose_new_thread(s1)
        &&& action_is_thread(s) ==> {
            &&& s1.tcbs.contains_key(cand)
            &&& schedule_fastfail(s1, cand) ==> s1.cur_domain == 0
            &&& if schedule_fastfail(s1, cand) && !spec_is_highest_prio(s1, cp) {
                can_enqueue(s1, cand)
            } else if spec_is_runnable(s.tcbs, s.cur_thread) && cp == s1.tcbs[s1.cur_thread].tcbPriority {
                can_append(s1, cand)
            } else {
                can_dequeue(s1, cand)
            }
            &&& ({
                let s3 = spec_schedule_candidate(
                    s1,
                    cand,
                    spec_is_runnable(s.tcbs, s.cur_thread),
                );
                s3.action == SchedulerAction_ChooseNewThread ==> can_schedule_choose_new_thread(s3)
            })
        }
    }
}

impl KernelState {
    /// The highest priority with a runnable thread in domain `dom`.
    pub fn getHighestPrio(&self, dom: dom_t) -> (ret: prio_t)
        requires
            self.sched.wf(),
            dom == 0,
            self.sched.ksReadyQueuesL1Bitmap != 0,
        ensures
            ret == spec_highest_prio(self@.l1_bitmap, self@.l2_bitmap),
            ret < NUM_PRIORITIES,
    {
        let l1 = self.sched.ksReadyQueuesL1Bitmap;
        proof {
            lemma_top_group(l1, self.sched.ksReadyQueuesL2Bitmap@);
            axiom_u64_leading_zeros(l1);
        }
        let l1index = wordBits - 1 - (l1.leading_zeros() as u64);
        let l1index_inverted = invert_l1index(l1index);
        let w = self.sched.ksReadyQueuesL2Bitmap[l1index_inverted as usize];
        proof {
            lemma_top_bit(w);
            axiom_u64_leading_zeros(w);
        }
        let l2index = wordBits - 1 - (w.leading_zeros() as u64);
        proof {
            lemma_prio_join(l1index, l2index);
        }
        (l1index << wordRadix) | l2index
    }

    /// Whether no thread of a higher priority than `prio` is runnable in
    /// domain `dom`.
    pub fn isHighestPrio(&self, dom: dom_t, prio: prio_t) -> (ret: bool)
        requires
            self.sched.wf(),
            dom == 0,
        ensures
            ret == spec_is_highest_prio(self@, prio),
    {
        self.sched.ksReadyQueuesL1Bitmap == 0 || prio >= self.getHighestPrio(dom)
    }

    /// Makes the thread at `thread` the current thread, taking it through the
    /// dequeue step. The machine-level switch of address space and registers
    /// is not part of this state.
    pub fn switchToThread(&mut self, thread: word_t)
        requires
            old(self).sched.wf(),
            can_dequeue(old(self)@, thread),
        ensures
            final(self).sched.wf(),
            final(self)@ == spec_switch_to_thread(old(self)@, thread),
    {
        self.tcbSchedDequeue(thread);
        self.sched.ksCurThread = thread;
    }

    /// Makes the idle thread the current thread.
    pub fn switchToIdleThread(&mut self)
        ensures
            final(self)@ == (KState { cur_thread: old(self)@.idle_thread, ..old(self)@ }),
            final(self).sched.wf() == old(self).sched.wf(),
    {
        self.sched.ksCurThread = self.sched.ksIdleThread;
    }

    /// Switches to the highest-priority runnable thread of the current
    /// domain (the head of its ready queue), or to the idle thread when none
    /// is runnable.
    pub fn chooseThread(&mut self)
        requires
            old(self).sched.wf(),
            can_choose_thread(old(self)@),
        ensures
            final(self).sched.wf(),
            final(self)@ == spec_choose_thread(old(self)@),
    {
        let dom: u64 = 0;
        if self.sched.ksReadyQueuesL1Bitmap != 0 {
            let prio = self.getHighestPrio(dom);
            let thread = self.sched.ksReadyQueues[ready_queues_index(dom, prio) as usize].head;
            self.switchToThread(thread);
        } else {
            self.switchToIdleThread();
        }
    }

    /// Moves on to the next domain when the current one has used its time,
    /// then chooses the thread to run.
    pub fn scheduleChooseNewThread(&mut self)
        requires
            old(self).sched.wf(),
            can_schedule_choose_new_thread(old(self)@),
        ensures
            final(self).sched.wf(),
            final(self)@ == spec_schedule_choose_new_thread(old(self)@),
    {
        if self.sched.ksDomainTime == 0 {
            self.nextDomain();
        }
        self.chooseThread();
    }

    /// Carries out the scheduler action; see `spec_schedule`. Afterwards the
    /// scheduler resumes the current thread.
    pub fn schedule(&mut self)
        requires
            old(self).sched.wf(),
            can_schedule(old(self)@),
        ensures
            final(self).sched.wf(),
            final(self)@ == spec_schedule(old(self)@),
            final(self).sched.ksSchedulerAction == SchedulerAction_ResumeCurrentThread,
    {
        if self.sched.ksSchedulerAction != SchedulerAction_ResumeCurrentThread {
            let cur = self.sched.ksCurThread;
            let was_runnable = self.isSchedulable(cur);
            if was_runnable {
                self.tcbSchedEnqueue(cur);
            }
            if self.sched.ksSchedulerAction == SchedulerAction_ChooseNewThread {
                self.scheduleChooseNewThread();
            } else {
                let candidate = self.sched.ksSchedulerAction;
                let cand_prio = read_tcb(&self.tcbs, candidate).tcbPriority;
                let cur_prio = read_tcb(&self.tcbs, self.sched.ksCurThread).tcbPriority;
                let fastfail = self.sched.ksCurThread == self.sched.ksIdleThread || cand_prio
                    < cur_prio;
                if fastfail && !self.isHighestPrio(self.sched.ksCurDomain, cand_prio) {
                    self.tcbSchedEnqueue(candidate);
                    self.sched.ksSchedulerAction = SchedulerAction_ChooseNewThread;
                    self.scheduleChooseNewThread();
                } else if was_runnable && cand_prio == cur_prio {
                    self.tcbSchedAppend(candidate);
                    self.sched.ksSchedulerAction = SchedulerAction_ChooseNewThread;
                    self.scheduleChooseNewThread();
                } else {
                    self.switchToThread(candidate);
                }
            }
        }
        self.sched.ksSchedulerAction = SchedulerAction_ResumeCurrentThread;
    }
}

// ---------------------------------------------------------------------------
// Starting and stopping threads
// ---------------------------------------------------------------------------

/// A thread is stopped when it is inactive or blocked.
pub open spec fn spec_is_stopped(m: Map<u64, tcb_t>, t: u64) -> bool {
    let ty = spec_ts_type(m[t].tcbState);
    ty == ThreadState_Inactive || ty == ThreadState_BlockedOnReceive || ty
        == ThreadState_BlockedOnSend || ty == ThreadState_BlockedOnNotification || ty
        == ThreadState_BlockedOnReply
}

/// The state after `suspend(t)`: the thread's IPC is cancelled, it becomes
/// inactive, and it goes through the dequeue step.
pub open spec fn spec_suspend(s: KState, t: u64) -> KState {
    spec_sched_dequeue(spec_set_thread_state(spec_cancel_ipc(s, t), t, ThreadState_Inactive), t)
}

/// `suspend(t)` can run.
pub open spec fn can_suspend(s: KState, t: u64) -> bool {
    &&& can_cancel_ipc(s, t)
    &&& can_dequeue(spec_set_thread_state(spec_cancel_ipc(s, t), t, ThreadState_Inactive), t)
}

/// The state after `restart(t)`: a stopped thread has its IPC cancelled,
/// gets its master reply capability, is set to restart, is queued, and may
/// be switched to. Other threads are left alone.
pub open spec fn spec_restart(s: KState, t: u64) -> KState {
    if spec_is_stopped(s.tcbs, t) {
        let s1 = spec_cancel_ipc(s, t);
        let s2 = KState { ctes: spec_setup_reply_master(s1.ctes, t), ..s1 };
        let s3 = spec_sched_enqueue(spec_set_thread_state(s2, t, ThreadState_Restart), t);
        spec_possible_switch_to(s3, t)
    } else {
        s
    }
}

/// `restart(t)` can run.
pub open spec fn can_restart(s: KState, t: u64) -> bool {
    let s1 = spec_cancel_ipc(s, t);
    let s2 = KState { ctes: spec_setup_reply_master(s1.ctes, t), ..s1 };
    let s3 = spec_set_thread_state(s2, t, ThreadState_Restart);
    &&& s.tcbs.contains_key(t)
    &&& spec_is_stopped(s.tcbs, t) ==> {
        &&& can_cancel_ipc(s, t)
        &&& can_enqueue(s3, t)
        &&& can_possible_switch_to(spec_sched_enqueue(s3, t), t)
    }
}

/// The state after `activateThread`: a current thread that is to restart
/// resumes at the instruction that trapped and becomes running; a running
/// or idle current thread is left alone.
pub open spec fn spec_activate_thread(s: KState) -> KState {
    let t = s.cur_thread;
    if spec_ts_type(s.tcbs[t].tcbState) == ThreadState_Restart {
        let pc = spec_get_register(s.tcbs, t, FaultIP);
        let s1 = KState { tcbs: spec_set_register(s.tcbs, t, NextIP, pc), ..s };
        spec_set_thread_state(s1, t, ThreadState_Running)
    } else {
        s
    }
}

/// `activateThread` can run: the current thread is running, about to
/// restart, or the idle thread; the kernel stops on a blocked one.
pub open spec fn can_activate_thread(s: KState) -> bool {
    let ty = spec_ts_type(s.tcbs[s.cur_thread].tcbState);
    &&& s.tcbs.contains_key(s.cur_thread)
    &&& ty == ThreadState_Running || ty == ThreadState_Restart || ty == ThreadState_IdleThreadState
}


impl KernelState {
    /// Stops the thread at `target`.
    pub fn suspend(&mut self, target: word_t)
        requires
            old(self).sched.wf(),
            can_suspend(old(self)@, target),
        ensures
            final(self).sched.wf(),
            final(self)@ == spec_suspend(old(self)@, target),
    {
        self.cancelIPC(target);
        self.setThreadState(target, ThreadState_Inactive);
        self.tcbSchedDequeue(target);
    }

    /// Restarts the thread at `target` if it is stopped.
    pub fn restart(&mut self, target: word_t)
        requires
            old(self).sched.wf(),
            can_restart(old(self)@, target),
        ensures
            final(self).sched.wf(),
            final(self)@ == spec_restart(old(self)@, target),
    {
        let ty = thread_state_ptr_get_tsType(&read_tcb(&self.tcbs, target).tcbState);
        if ty == ThreadState_Inactive || ty == ThreadState_BlockedOnReceive || ty
            == ThreadState_BlockedOnSend || ty == ThreadState_BlockedOnNotification || ty
            == ThreadState_BlockedOnReply {
            self.cancelIPC(target);
            self.setupReplyMaster(target);
            self.setThreadState(target, ThreadState_Restart);
            self.tcbSchedEnqueue(target);
            self.possibleSwitchTo(target);
        }
    }

    /// Prepares the current thread to run.
    pub fn activateThread(&mut self)
        requires
            old(self).sched.wf(),
            can_activate_thread(old(self)@),
        ensures
            final(self).sched.wf(),
            final(self)@ == spec_activate_thread(old(self)@),
    {
        let cur = self.sched.ksCurThread;
        let ty = thread_state_ptr_get_tsType(&read_tcb(&self.tcbs, cur).tcbState);
        if ty == ThreadState_Restart {
            let pc = self.getRegister(cur, FaultIP);
            self.setRegister(cur, NextIP, pc);
            self.setThreadState(cur, ThreadState_Running);
        }
    }

    /// Marks the thread at `tcb` as the idle thread. Setting up its registers
    /// is the architecture's part and is not held in this state.
    pub fn configureIdleThread(&mut self, tcb: word_t)
        requires
            old(self).sched.wf(),
            can_set_thread_state(old(self)@, tcb),
        ensures
            final(self).sched.wf(),
            final(self)@ == spec_set_thread_state(old(self)@, tcb, ThreadState_IdleThreadState),
    {
        self.setThreadState(tcb, ThreadState_IdleThreadState);
    }
}

} // verus!
