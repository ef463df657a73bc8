use sel4_rust::cnode::invokeCNodeCancelBadgedSends;
use sel4_rust::cnode::finaliseSlot_ret;
use sel4_rust::delete::{
    finaliseCap_ret, FinaliseSlotAction, FinaliseSlotEvent, ReduceZombieAction, ReduceZombieEvent,
    RevokeAction, RevokeEvent,
};
use sel4_rust::object::{
    cap, cap_t, cap_zombie_cap_get_capZombieNumber, cap_zombie_cap_set_capZombieNumber, cte,
    mdb_node_get_mdbNext, mdb_node_get_mdbPrev, mdb_node_new, mdb_node_t,
};
use sel4_rust::state::{dschedule, KernelState, SchedState};

const S: u64 = 0x2_0000;
const P: u64 = 0x2_0080;
const Z: u64 = 0x5_0000;

fn state() -> KernelState {
    KernelState::new(SchedState::new(0x9_0000, vec![dschedule { domain: 0, length: 10 }]))
}

fn put(ks: &mut KernelState, at: u64, c: cap_t, m: mdb_node_t) {
    ks.ctes.insert(at, cte { cap: c, cteMDBNode: m });
}

fn zombie(kind: u64, id: u64) -> cap_t {
    cap { words: [(18u64 << 59) | kind, id] }
}

fn endpoint_cap(ptr: u64, badge: u64) -> cap_t {
    cap { words: [(4u64 << 59) | ptr, badge] }
}

const NULL: cap_t = cap { words: [0, 0] };

fn done(a: FinaliseSlotAction) -> finaliseSlot_ret {
    match a {
        FinaliseSlotAction::Done(r) => r,
        _ => panic!("finalisation is not over"),
    }
}

#[test]
fn finalising_an_empty_slot_succeeds_at_once() {
    let mut ks = state();
    let r = done(ks.finaliseSlot(S, 1, FinaliseSlotEvent::Start));
    assert_eq!((r.status, r.success, r.cleanupInfo.words), (0, 1, [0, 0]));
    put(&mut ks, S, endpoint_cap(0x7000, 0), mdb_node_new(0, 0, 0, 0));
    assert!(matches!(ks.finaliseSlot(S, 1, FinaliseSlotEvent::Start), FinaliseSlotAction::Finalise));
    assert!(matches!(
        ks.finaliseSlot(S, 1, FinaliseSlotEvent::Preempted(0)),
        FinaliseSlotAction::Finalise
    ));
}

#[test]
fn a_removable_remainder_ends_finalisation() {
    let mut ks = state();
    let cleanup = cap { words: [16u64 << 59, 3] };
    put(&mut ks, S, endpoint_cap(0x7000, 0), mdb_node_new(0, 0, 0, 0));
    let ev = FinaliseSlotEvent::Finalised(finaliseCap_ret { remainder: NULL, cleanupInfo: cleanup });
    let r = done(ks.finaliseSlot(S, 0, ev));
    assert_eq!((r.status, r.success, r.cleanupInfo.words), (0, 1, cleanup.words));
    // The slot is left as it was for the caller to empty.
    assert_eq!(ks.ctes[&S].cap.words, endpoint_cap(0x7000, 0).words);
}

#[test]
fn a_zombie_remainder_is_stored_and_reduced() {
    let mut ks = state();
    put(&mut ks, S, cap { words: [10u64 << 59, 0] }, mdb_node_new(0, 0, 0, 0));
    // A zombie for the slot itself with two slots left.
    let z = zombie(4, S | 2);
    let ev = FinaliseSlotEvent::Finalised(finaliseCap_ret { remainder: z, cleanupInfo: NULL });
    let r = done(ks.finaliseSlot(S, 0, ev));
    assert_eq!((r.status, r.success), (0, 0));
    assert_eq!(ks.ctes[&S].cap.words, z.words);
    // Deleting immediately reduces it instead.
    assert!(matches!(ks.finaliseSlot(S, 1, ev), FinaliseSlotAction::ReduceZombie));
    // A zombie for other slots is reduced.
    let other = FinaliseSlotEvent::Finalised(finaliseCap_ret { remainder: zombie(4, Z | 2), cleanupInfo: NULL });
    assert!(matches!(ks.finaliseSlot(S, 0, other), FinaliseSlotAction::ReduceZombie));
    assert_eq!(ks.ctes[&S].cap.words, zombie(4, Z | 2).words);
}

#[test]
fn reduction_and_preemption_outcomes() {
    let mut ks = state();
    assert!(matches!(
        ks.finaliseSlot(S, 0, FinaliseSlotEvent::Reduced(0)),
        FinaliseSlotAction::PreemptionPoint
    ));
    let r = done(ks.finaliseSlot(S, 0, FinaliseSlotEvent::Reduced(5)));
    assert_eq!((r.status, r.success, r.cleanupInfo.words), (5, 0, [0, 0]));
    let r = done(ks.finaliseSlot(S, 0, FinaliseSlotEvent::Preempted(6)));
    assert_eq!((r.status, r.success), (6, 0));
}

#[test]
fn zombie_number_can_be_set() {
    let z = zombie(4, Z | 2);
    assert_eq!(cap_zombie_cap_get_capZombieNumber(cap_zombie_cap_set_capZombieNumber(z, 1)), 1);
    assert_eq!(cap_zombie_cap_set_capZombieNumber(z, 1).words, [z.words[0], Z | 1]);
}

#[test]
fn reducing_a_zombie_immediately_deletes_its_last_slot() {
    let mut ks = state();
    let z = zombie(4, Z | 2);
    put(&mut ks, S, z, mdb_node_new(0, 0, 0, 0));
    match ks.reduceZombie(S, 1, ReduceZombieEvent::Start) {
        ReduceZombieAction::DeleteEnd { endSlot, zombie } => {
            assert_eq!(endSlot, Z + 32);
            assert_eq!(zombie.words, z.words);
        },
        _ => panic!("expected a deletion"),
    }
    // Once the last slot is gone, the count drops.
    let ev = ReduceZombieEvent::EndDeleted { status: 0, zombie: z };
    assert!(matches!(ks.reduceZombie(S, 1, ev), ReduceZombieAction::Done(0)));
    assert_eq!(ks.ctes[&S].cap.words, zombie(4, Z | 1).words);
    // A slot that changed meanwhile is left alone.
    assert!(matches!(ks.reduceZombie(S, 1, ev), ReduceZombieAction::Done(0)));
    assert_eq!(ks.ctes[&S].cap.words, zombie(4, Z | 1).words);
    // A failed deletion ends the reduction.
    let failed = ReduceZombieEvent::EndDeleted { status: 3, zombie: z };
    assert!(matches!(ks.reduceZombie(S, 1, failed), ReduceZombieAction::Done(3)));
}

#[test]
fn reducing_a_zombie_later_swaps_it_into_its_slots() {
    let mut ks = state();
    let z = zombie(4, Z | 2);
    let first = cap { words: [10u64 << 59, 7] };
    put(&mut ks, S, z, mdb_node_new(0, 0, 0, 0));
    put(&mut ks, Z, first, mdb_node_new(0, 0, 0, 0));
    assert!(matches!(ks.reduceZombie(S, 0, ReduceZombieEvent::Start), ReduceZombieAction::Done(0)));
    assert_eq!(ks.ctes[&Z].cap.words, z.words);
    assert_eq!(ks.ctes[&S].cap.words, first.words);
}

#[test]
fn deleting_after_finalisation() {
    let ok = finaliseSlot_ret { status: 0, success: 1, cleanupInfo: NULL };
    let not_yet = finaliseSlot_ret { status: 0, success: 0, cleanupInfo: NULL };
    let failed = finaliseSlot_ret { status: 4, success: 0, cleanupInfo: NULL };
    let mut ks = state();
    put(&mut ks, S, endpoint_cap(0x7000, 0), mdb_node_new(0, 0, 0, 0));
    assert_eq!(ks.cteDelete(S, 0, failed).0, 4);
    assert_eq!(ks.cteDelete(S, 0, not_yet).0, 0);
    assert_eq!(ks.ctes[&S].cap.words, endpoint_cap(0x7000, 0).words);
    let cleanup = cap { words: [16u64 << 59, 3] };
    let ok_irq = finaliseSlot_ret { status: 0, success: 1, cleanupInfo: cleanup };
    let (status, owed) = ks.cteDelete(S, 0, ok_irq);
    assert_eq!(status, 0);
    assert_eq!(owed.map(|c| c.words), Some(cleanup.words));
    assert_eq!(ks.ctes[&S].cap.words, [0, 0]);
    put(&mut ks, S, endpoint_cap(0x7000, 0), mdb_node_new(0, 0, 0, 0));
    assert_eq!(ks.cteDelete(S, 1, not_yet).0, 0);
    // An empty slot owes no clean-up.
    assert!(ks.cteDelete(S, 1, ok).1.is_none());
    assert_eq!(ks.ctes[&S].cap.words, [0, 0]);
}

#[test]
fn revoking_deletes_children_one_by_one() {
    let mut ks = state();
    put(&mut ks, P, endpoint_cap(0x7000, 0), mdb_node_new(S, 1, 1, 0));
    put(&mut ks, S, endpoint_cap(0x7000, 1), mdb_node_new(0, 0, 0, P));
    assert_eq!(mdb_node_get_mdbNext(ks.ctes[&P].cteMDBNode), S);
    assert_eq!(mdb_node_get_mdbPrev(ks.ctes[&S].cteMDBNode), P);
    assert!(matches!(ks.cteRevoke(P, RevokeEvent::Start, 1), RevokeAction::Delete(S)));
    assert!(matches!(ks.cteRevoke(P, RevokeEvent::Start, 0), RevokeAction::Done(0)));
    assert!(matches!(ks.cteRevoke(P, RevokeEvent::Deleted(0), 1), RevokeAction::PreemptionPoint));
    assert!(matches!(ks.cteRevoke(P, RevokeEvent::Deleted(2), 1), RevokeAction::Done(2)));
    assert!(matches!(ks.cteRevoke(P, RevokeEvent::Preempted(0), 1), RevokeAction::Delete(S)));
    assert!(matches!(ks.cteRevoke(P, RevokeEvent::Preempted(5), 1), RevokeAction::Done(5)));
    // With the child gone there is nothing left to revoke.
    ks.emptySlot(S, NULL);
    assert!(matches!(ks.cteRevoke(P, RevokeEvent::Preempted(0), 1), RevokeAction::Done(0)));
}

#[test]
fn cancelling_badged_sends_names_the_endpoint() {
    assert_eq!(invokeCNodeCancelBadgedSends(endpoint_cap(0x7000, 9)), Some((0x7000, 9)));
    assert_eq!(invokeCNodeCancelBadgedSends(endpoint_cap(0x7000, 0)), None);
}
