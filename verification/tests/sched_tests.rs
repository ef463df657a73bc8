use sel4_rust::object::{
    arch_tcb, lookup_fault, seL4_Fault, tcb, tcb_t, thread_state, thread_state_get_tcbQueued,
    thread_state_ptr_get_tsType,
};
use sel4_rust::state::{dschedule, KernelState, SchedState};
use sel4_rust::types::user_context;

const IDLE: u64 = 0x9_0000;
const A: u64 = 0x1_0000;
const B: u64 = 0x1_0400;
const C: u64 = 0x1_0800;

fn thread(state: u64, prio: u64) -> tcb_t {
    tcb {
        tcbArch: arch_tcb { tcbContext: user_context { registers: [0; 35] } },
        tcbState: thread_state { words: [state, 0, 0] },
        tcbBoundNotification: 0,
        tcbFault: seL4_Fault { words: [0, 0] },
        tcbLookupFailure: lookup_fault { words: [0, 0] },
        tcbDomain: 0,
        tcbMCP: 255,
        tcbPriority: prio,
        tcbTimeSlice: 5,
        tcbFaultHandler: 0,
        tcbIPCBuffer: 0,
        tcbSchedNext: 0,
        tcbSchedPrev: 0,
        tcbEPNext: 0,
        tcbEPPrev: 0,
    }
}

fn state() -> KernelState {
    let mut ks = KernelState::new(SchedState::new(
        IDLE,
        vec![dschedule { domain: 0, length: 10 }, dschedule { domain: 0, length: 7 }],
    ));
    ks.tcbs.insert(IDLE, thread(7, 0));
    ks
}

fn queued(ks: &KernelState, t: u64) -> u64 {
    thread_state_get_tcbQueued(&ks.tcbs[&t].tcbState)
}

fn ts_type(ks: &KernelState, t: u64) -> u64 {
    thread_state_ptr_get_tsType(&ks.tcbs[&t].tcbState)
}

#[test]
fn new_scheduler_state_is_empty() {
    let ks = state();
    assert_eq!(ks.sched.ksCurThread, IDLE);
    assert_eq!(ks.sched.ksSchedulerAction, 0);
    assert_eq!(ks.sched.ksReadyQueues.len(), 256);
    assert_eq!(ks.sched.ksReadyQueuesL2Bitmap, vec![0, 0, 0, 0]);
    assert_eq!(ks.sched.ksDomainTime, 10);
    assert_eq!(ks.current_extra_caps.excaprefs, [0, 0, 0]);
}

#[test]
fn enqueue_puts_threads_at_the_front() {
    let mut ks = state();
    ks.tcbs.insert(A, thread(1, 10));
    ks.tcbs.insert(B, thread(1, 10));
    ks.tcbSchedEnqueue(A);
    assert_eq!(ks.sched.ksReadyQueues[10].head, A);
    assert_eq!(ks.sched.ksReadyQueues[10].end, A);
    assert_eq!(ks.sched.ksReadyQueuesL1Bitmap, 1);
    assert_eq!(ks.sched.ksReadyQueuesL2Bitmap[3], 1 << 10);
    assert_eq!(queued(&ks, A), 1);
    ks.tcbSchedEnqueue(B);
    assert_eq!(ks.sched.ksReadyQueues[10].head, B);
    assert_eq!(ks.sched.ksReadyQueues[10].end, A);
    assert_eq!(ks.tcbs[&B].tcbSchedNext, A);
    assert_eq!(ks.tcbs[&A].tcbSchedPrev, B);
    // Queuing a queued thread again changes nothing.
    ks.tcbSchedEnqueue(B);
    assert_eq!(ks.sched.ksReadyQueues[10].head, B);
}

#[test]
fn append_puts_threads_at_the_end() {
    let mut ks = state();
    ks.tcbs.insert(A, thread(1, 70));
    ks.tcbs.insert(B, thread(1, 70));
    ks.tcbSchedAppend(A);
    ks.tcbSchedAppend(B);
    assert_eq!(ks.sched.ksReadyQueues[70].head, A);
    assert_eq!(ks.sched.ksReadyQueues[70].end, B);
    assert_eq!(ks.tcbs[&A].tcbSchedNext, B);
    assert_eq!(ks.tcbs[&B].tcbSchedPrev, A);
    assert_eq!(ks.sched.ksReadyQueuesL1Bitmap, 0b10);
    assert_eq!(ks.sched.ksReadyQueuesL2Bitmap[2], 1 << 6);
}

#[test]
fn enqueue_then_dequeue_restores_the_queues() {
    let mut ks = state();
    ks.tcbs.insert(A, thread(1, 10));
    ks.tcbSchedEnqueue(A);
    assert_eq!(queued(&ks, A), 1);
    ks.tcbSchedDequeue(A);
    assert_eq!(ks.sched.ksReadyQueues[10].head, 0);
    assert_eq!(ks.sched.ksReadyQueues[10].end, 0);
    assert_eq!(queued(&ks, A), 0);
    assert_eq!(ks.sched.ksReadyQueuesL1Bitmap, 0);
    assert_eq!(ks.sched.ksReadyQueuesL2Bitmap[3], 0);
    // A thread not marked as queued is left alone.
    ks.tcbSchedDequeue(A);
    assert_eq!(ks.sched.ksReadyQueues[10].head, 0);
}

#[test]
fn dequeue_relinks_both_neighbours() {
    let mut ks = state();
    for t in [A, B, C] {
        ks.tcbs.insert(t, thread(1, 10));
        ks.tcbSchedEnqueue(t);
    }
    // The queue reads C, B, A.
    ks.tcbSchedDequeue(B);
    assert_eq!(ks.tcbs[&C].tcbSchedNext, A);
    assert_eq!(ks.tcbs[&A].tcbSchedPrev, C);
    assert_eq!(queued(&ks, B), 0);
    ks.tcbSchedDequeue(A);
    assert_eq!(ks.sched.ksReadyQueues[10].end, C);
    assert_eq!(ks.tcbs[&C].tcbSchedNext, 0);
    ks.tcbSchedDequeue(C);
    assert_eq!((ks.sched.ksReadyQueues[10].head, ks.sched.ksReadyQueues[10].end), (0, 0));
    assert_eq!(ks.sched.ksReadyQueuesL1Bitmap, 0);
}

fn walk(ks: &KernelState, prio: usize) -> Vec<u64> {
    let mut out = Vec::new();
    let mut prev = 0;
    let mut t = ks.sched.ksReadyQueues[prio].head;
    while t != 0 {
        assert_eq!(ks.tcbs[&t].tcbSchedPrev, prev);
        out.push(t);
        prev = t;
        t = ks.tcbs[&t].tcbSchedNext;
    }
    assert_eq!(ks.sched.ksReadyQueues[prio].end, prev);
    out
}

#[test]
fn ready_queues_link_exactly_the_queued_threads() {
    let mut ks = state();
    ks.tcbs.insert(A, thread(1, 10));
    ks.tcbs.insert(B, thread(1, 10));
    ks.tcbs.insert(C, thread(1, 20));
    ks.tcbSchedEnqueue(A);
    ks.tcbSchedAppend(B);
    ks.tcbSchedEnqueue(C);
    assert_eq!(walk(&ks, 10), vec![A, B]);
    assert_eq!(walk(&ks, 20), vec![C]);
    ks.tcbSchedDequeue(A);
    assert_eq!(walk(&ks, 10), vec![B]);
    assert_eq!(walk(&ks, 20), vec![C]);
    assert_eq!((queued(&ks, A), queued(&ks, B), queued(&ks, C)), (0, 1, 1));
    ks.tcbSchedEnqueue(A);
    assert_eq!(walk(&ks, 10), vec![A, B]);
}

#[test]
fn scheduler_state_check() {
    let mut ks = state();
    assert!(ks.sched.is_wf());
    ks.tcbs.insert(A, thread(1, 10));
    ks.tcbSchedEnqueue(A);
    assert!(ks.sched.is_wf());
    ks.sched.ksReadyQueuesL2Bitmap[3] = 0;
    assert!(!ks.sched.is_wf());
    ks.sched.ksReadyQueuesL2Bitmap[3] = 1 << 10;
    ks.sched.ksReadyQueues[10].end = 0;
    assert!(!ks.sched.is_wf());
}

#[test]
fn bitmap_add_then_remove() {
    let mut ks = state();
    ks.addToBitmap(0, 0, 130);
    assert_eq!(ks.sched.ksReadyQueuesL1Bitmap, 0b100);
    assert_eq!(ks.sched.ksReadyQueuesL2Bitmap[1], 1 << 2);
    ks.addToBitmap(0, 0, 131);
    ks.removeFromBitmap(0, 0, 130);
    assert_eq!(ks.sched.ksReadyQueuesL1Bitmap, 0b100);
    assert_eq!(ks.sched.ksReadyQueuesL2Bitmap[1], 1 << 3);
    ks.removeFromBitmap(0, 0, 131);
    assert_eq!(ks.sched.ksReadyQueuesL1Bitmap, 0);
    assert_eq!(ks.sched.ksReadyQueuesL2Bitmap, vec![0, 0, 0, 0]);
}

#[test]
fn highest_priority_is_read_from_the_bitmap() {
    let mut ks = state();
    assert!(ks.isHighestPrio(0, 0));
    ks.tcbs.insert(A, thread(1, 10));
    ks.tcbs.insert(B, thread(1, 200));
    ks.tcbSchedEnqueue(A);
    assert_eq!(ks.getHighestPrio(0), 10);
    ks.tcbSchedEnqueue(B);
    assert_eq!(ks.getHighestPrio(0), 200);
    assert!(!ks.isHighestPrio(0, 150));
    assert!(ks.isHighestPrio(0, 200));
    assert!(ks.isHighestPrio(0, 255));
}

#[test]
fn check_prio_against_the_maximum() {
    let mut ks = state();
    let mut t = thread(1, 10);
    t.tcbMCP = 100;
    ks.tcbs.insert(A, t);
    assert_eq!(ks.checkPrio(100, A), 0);
    assert_eq!(ks.current_syscall_error.error_type, 0);
    assert_eq!(ks.checkPrio(101, A), 3);
    assert_eq!(ks.current_syscall_error.error_type, 4);
    assert_eq!(ks.current_syscall_error.rangeErrorMin, 0);
    assert_eq!(ks.current_syscall_error.rangeErrorMax, 100);
}

#[test]
fn reschedule_requeues_the_chosen_thread() {
    let mut ks = state();
    ks.tcbs.insert(A, thread(1, 10));
    ks.sched.ksSchedulerAction = A;
    ks.rescheduleRequired();
    assert_eq!(ks.sched.ksSchedulerAction, 1);
    assert_eq!(ks.sched.ksReadyQueues[10].head, A);
    ks.rescheduleRequired();
    assert_eq!(ks.sched.ksSchedulerAction, 1);
}

#[test]
fn possible_switch_to() {
    let mut ks = state();
    ks.tcbs.insert(A, thread(1, 10));
    ks.tcbs.insert(B, thread(1, 20));
    ks.possibleSwitchTo(A);
    assert_eq!(ks.sched.ksSchedulerAction, A);
    ks.possibleSwitchTo(B);
    assert_eq!(ks.sched.ksSchedulerAction, 1);
    assert_eq!(ks.sched.ksReadyQueues[10].head, A);
    assert_eq!(ks.sched.ksReadyQueues[20].head, B);
    let mut ks = state();
    ks.tcbs.insert(A, thread(1, 10));
    ks.sched.ksCurDomain = 1;
    ks.possibleSwitchTo(A);
    assert_eq!(ks.sched.ksSchedulerAction, 0);
    assert_eq!(ks.sched.ksReadyQueues[10].head, A);
}

#[test]
fn blocking_the_current_thread_asks_for_a_reschedule() {
    let mut ks = state();
    ks.tcbs.insert(A, thread(1, 10));
    ks.sched.ksCurThread = A;
    assert!(ks.isSchedulable(A));
    ks.setThreadState(A, 0);
    assert_eq!(ts_type(&ks, A), 0);
    assert!(!ks.isSchedulable(A));
    assert_eq!(ks.sched.ksSchedulerAction, 1);
    let mut ks = state();
    ks.tcbs.insert(A, thread(1, 10));
    ks.setThreadState(A, 3);
    assert_eq!(ks.sched.ksSchedulerAction, 0);
}

#[test]
fn timer_ticks_use_up_the_time_slice() {
    let mut ks = state();
    let mut t = thread(1, 10);
    t.tcbTimeSlice = 2;
    ks.tcbs.insert(A, t);
    ks.sched.ksCurThread = A;
    ks.timerTick();
    assert_eq!(ks.tcbs[&A].tcbTimeSlice, 1);
    assert_eq!(ks.sched.ksSchedulerAction, 0);
    ks.timerTick();
    assert_eq!(ks.tcbs[&A].tcbTimeSlice, 5);
    assert_eq!(ks.sched.ksReadyQueues[10].end, A);
    assert_eq!(ks.sched.ksSchedulerAction, 1);
}

#[test]
fn priorities_and_domains() {
    let mut ks = state();
    ks.tcbs.insert(A, thread(1, 10));
    ks.setMCPriority(A, 50);
    assert_eq!(ks.tcbs[&A].tcbMCP, 50);
    ks.setPriority(A, 40);
    assert_eq!(ks.tcbs[&A].tcbPriority, 40);
    assert_eq!(ks.sched.ksSchedulerAction, A);
    ks.tcbs.insert(B, thread(0, 10));
    ks.setDomain(B, 0);
    assert_eq!(ks.tcbs[&B].tcbDomain, 0);
    assert_eq!(ks.sched.ksReadyQueues[10].head, 0);
    ks.tcbs.insert(C, thread(1, 12));
    ks.setDomain(C, 0);
    assert_eq!(ks.sched.ksReadyQueues[12].head, C);
}

#[test]
fn domain_schedule_wraps_around() {
    let mut ks = state();
    ks.sched.ksWorkUnitsCompleted = 9;
    ks.nextDomain();
    assert_eq!(ks.sched.ksDomScheduleIdx, 1);
    assert_eq!(ks.sched.ksDomainTime, 7);
    assert_eq!(ks.sched.ksWorkUnitsCompleted, 0);
    ks.nextDomain();
    assert_eq!(ks.sched.ksDomScheduleIdx, 0);
    assert_eq!(ks.sched.ksDomainTime, 10);
}

#[test]
fn schedule_resumes_when_nothing_is_asked() {
    let mut ks = state();
    ks.tcbs.insert(A, thread(1, 10));
    ks.sched.ksCurThread = A;
    ks.schedule();
    assert_eq!(ks.sched.ksCurThread, A);
    assert_eq!(ks.sched.ksReadyQueues[10].head, 0);
}

#[test]
fn schedule_switches_to_a_higher_priority_candidate() {
    let mut ks = state();
    ks.tcbs.insert(A, thread(1, 10));
    ks.tcbs.insert(B, thread(1, 20));
    ks.sched.ksCurThread = A;
    ks.sched.ksSchedulerAction = B;
    ks.schedule();
    assert_eq!(ks.sched.ksCurThread, B);
    assert_eq!(ks.sched.ksSchedulerAction, 0);
    assert_eq!(ks.sched.ksReadyQueues[10].head, A);
    assert_eq!(queued(&ks, A), 1);
}

#[test]
fn schedule_queues_a_candidate_that_is_not_the_highest() {
    let mut ks = state();
    ks.tcbs.insert(A, thread(1, 10));
    ks.tcbs.insert(B, thread(1, 5));
    ks.tcbSchedEnqueue(A);
    ks.sched.ksSchedulerAction = B;
    ks.schedule();
    // The candidate is queued and the highest ready thread is chosen.
    assert_eq!(ks.sched.ksCurThread, A);
    assert_eq!(ks.sched.ksSchedulerAction, 0);
    assert_eq!(ks.sched.ksReadyQueues[5].head, B);
    assert_eq!(ks.sched.ksReadyQueues[10].head, 0);
}

#[test]
fn schedule_appends_a_candidate_of_the_same_priority() {
    let mut ks = state();
    ks.tcbs.insert(A, thread(1, 10));
    ks.tcbs.insert(B, thread(1, 10));
    ks.sched.ksCurThread = A;
    ks.sched.ksSchedulerAction = B;
    ks.schedule();
    // The candidate goes behind the current thread, which is chosen again.
    assert_eq!(ks.sched.ksCurThread, A);
    assert_eq!(ks.sched.ksReadyQueues[10].head, B);
    assert_eq!(ks.sched.ksReadyQueues[10].end, B);
    assert_eq!(queued(&ks, A), 0);
    assert_eq!(ks.sched.ksSchedulerAction, 0);
}

#[test]
fn schedule_with_choose_new_thread_picks_the_highest_ready_thread() {
    let mut ks = state();
    ks.tcbs.insert(A, thread(1, 10));
    ks.tcbs.insert(B, thread(1, 20));
    ks.tcbSchedEnqueue(B);
    ks.sched.ksCurThread = A;
    ks.sched.ksSchedulerAction = 1;
    ks.schedule();
    assert_eq!(ks.sched.ksCurThread, B);
    assert_eq!(queued(&ks, B), 0);
    assert_eq!(ks.sched.ksReadyQueues[10].head, A);
    assert_eq!(ks.sched.ksSchedulerAction, 0);
    // A current thread that cannot run, with nothing ready: the idle thread.
    let mut ks = state();
    ks.tcbs.insert(A, thread(0, 10));
    ks.sched.ksCurThread = A;
    ks.sched.ksSchedulerAction = 1;
    ks.schedule();
    assert_eq!(ks.sched.ksCurThread, IDLE);
    assert_eq!(ks.sched.ksSchedulerAction, 0);
}

#[test]
fn choose_thread_takes_the_highest_queue_head() {
    let mut ks = state();
    ks.chooseThread();
    assert_eq!(ks.sched.ksCurThread, IDLE);
    ks.tcbs.insert(A, thread(1, 10));
    ks.tcbs.insert(B, thread(1, 90));
    ks.tcbSchedEnqueue(A);
    ks.tcbSchedEnqueue(B);
    ks.chooseThread();
    assert_eq!(ks.sched.ksCurThread, B);
    ks.switchToIdleThread();
    assert_eq!(ks.sched.ksCurThread, IDLE);
}

#[test]
fn schedule_choose_new_thread_moves_on_when_time_is_up() {
    let mut ks = state();
    ks.sched.ksDomainTime = 0;
    ks.scheduleChooseNewThread();
    assert_eq!(ks.sched.ksDomScheduleIdx, 1);
    assert_eq!(ks.sched.ksDomainTime, 7);
    assert_eq!(ks.sched.ksCurThread, IDLE);
    ks.scheduleChooseNewThread();
    assert_eq!(ks.sched.ksDomScheduleIdx, 1);
}

#[test]
fn switch_to_thread_makes_it_current() {
    let mut ks = state();
    ks.tcbs.insert(A, thread(1, 10));
    ks.switchToThread(A);
    assert_eq!(ks.sched.ksCurThread, A);
}

#[test]
fn activate_restarting_thread() {
    let mut ks = state();
    let mut t = thread(2, 10);
    t.tcbArch.tcbContext.registers[33] = 0x4000_1234;
    ks.tcbs.insert(A, t);
    ks.sched.ksCurThread = A;
    ks.activateThread();
    assert_eq!(ks.getRegister(A, 34), 0x4000_1234);
    assert_eq!(ts_type(&ks, A), 1);
    ks.activateThread();
    assert_eq!(ts_type(&ks, A), 1);
}

#[test]
fn configure_idle_thread() {
    let mut ks = state();
    ks.tcbs.insert(A, thread(0, 0));
    ks.configureIdleThread(A);
    assert_eq!(ts_type(&ks, A), 7);
}

#[test]
fn registers() {
    let mut ks = state();
    ks.tcbs.insert(A, thread(1, 0));
    ks.setRegister(A, 12, 99);
    assert_eq!(ks.getRegister(A, 12), 99);
    ks.doNBRecvFailedTransfer(A);
    assert_eq!(ks.getRegister(A, 9), 0);
}

#[test]
fn suspend_stops_a_running_thread() {
    let mut ks = state();
    ks.tcbs.insert(A, thread(1, 10));
    ks.sched.ksCurThread = A;
    ks.suspend(A);
    assert_eq!(ts_type(&ks, A), 0);
    assert_eq!(ks.sched.ksSchedulerAction, 1);
}

#[test]
fn restart_an_inactive_thread() {
    let mut ks = state();
    ks.tcbs.insert(A, thread(0, 10));
    ks.restart(A);
    assert_eq!(ts_type(&ks, A), 2);
    assert_eq!(ks.sched.ksReadyQueues[10].head, A);
    // Its reply slot holds the master reply capability to it.
    let reply = ks.ctes[&(A + 2 * 32)];
    assert_eq!(reply.cap.words, [(8u64 << 59) | 3, A]);
    assert_eq!(reply.cteMDBNode.words, [0, 3]);
    // A running thread is left alone.
    ks.tcbs.insert(B, thread(1, 10));
    ks.restart(B);
    assert_eq!(ts_type(&ks, B), 1);
}
