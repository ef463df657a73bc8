use sel4_rust::cnode::{
    capCyclicZombie, capRemovable, isCapRevocable, DeleteOneAction, DeleteOneEvent,
};
use sel4_rust::object::{
    cap, cap_t, cap_reply_cap_new, cte, mdb_node_get_mdbFirstBadged, mdb_node_get_mdbNext,
    mdb_node_get_mdbPrev, mdb_node_get_mdbRevocable, mdb_node_new, mdb_node_t,
    cap_zombie_cap_get_capZombieBits, cap_zombie_cap_get_capZombieNumber,
    cap_zombie_cap_get_capZombiePtr, cap_zombie_cap_get_capZombieType,
};
use sel4_rust::state::{dschedule, KernelState, SchedState};

const S1: u64 = 0x2_0000;
const S2: u64 = 0x2_0020;
const S3: u64 = 0x2_0040;
const P: u64 = 0x2_0080;
const NX: u64 = 0x2_00a0;
const T: u64 = 0x1_0000;

fn state() -> KernelState {
    KernelState::new(SchedState::new(0x9_0000, vec![dschedule { domain: 0, length: 10 }]))
}

fn endpoint_cap(ptr: u64, badge: u64) -> cap_t {
    cap { words: [(4u64 << 59) | ptr, badge] }
}

fn put(ks: &mut KernelState, at: u64, c: cap_t, m: mdb_node_t) {
    ks.ctes.insert(at, cte { cap: c, cteMDBNode: m });
}

fn next_of(ks: &KernelState, at: u64) -> u64 {
    mdb_node_get_mdbNext(ks.ctes[&at].cteMDBNode)
}

fn prev_of(ks: &KernelState, at: u64) -> u64 {
    mdb_node_get_mdbPrev(ks.ctes[&at].cteMDBNode)
}

/// P <-> S1 <-> NX in the mapping database, S1 holding an endpoint capability.
fn chain() -> KernelState {
    let mut ks = state();
    put(&mut ks, P, endpoint_cap(0x7000, 0), mdb_node_new(S1, 1, 1, 0));
    put(&mut ks, S1, endpoint_cap(0x7000, 1), mdb_node_new(NX, 0, 0, P));
    put(&mut ks, NX, endpoint_cap(0x7000, 2), mdb_node_new(0, 0, 0, S1));
    ks
}

#[test]
fn move_relinks_the_neighbours() {
    let mut ks = chain();
    let moved = endpoint_cap(0x7000, 9);
    ks.cteMove(moved, S1, S2);
    assert_eq!(ks.ctes[&S2].cap.words, moved.words);
    assert_eq!(ks.ctes[&S1].cap.words, [0, 0]);
    assert_eq!(ks.ctes[&S1].cteMDBNode.words, [0, 0]);
    assert_eq!((prev_of(&ks, S2), next_of(&ks, S2)), (P, NX));
    assert_eq!(next_of(&ks, P), S2);
    assert_eq!(prev_of(&ks, NX), S2);
    assert_eq!(mdb_node_get_mdbRevocable(ks.ctes[&P].cteMDBNode), 1);
}

#[test]
fn invoke_move_always_succeeds() {
    let mut ks = chain();
    assert_eq!(ks.invokeCNodeMove(endpoint_cap(0x7000, 1), S1, S3), 0);
    assert_eq!(next_of(&ks, P), S3);
}

#[test]
fn swap_exchanges_capabilities_and_links() {
    let mut ks = chain();
    put(&mut ks, S2, endpoint_cap(0x8000, 0), mdb_node_new(0, 0, 0, 0));
    let c1 = ks.ctes[&S1].cap;
    let c2 = ks.ctes[&S2].cap;
    ks.cteSwap(c1, S1, c2, S2);
    assert_eq!(ks.ctes[&S1].cap.words, c2.words);
    assert_eq!(ks.ctes[&S2].cap.words, c1.words);
    assert_eq!((prev_of(&ks, S2), next_of(&ks, S2)), (P, NX));
    assert_eq!((prev_of(&ks, S1), next_of(&ks, S1)), (0, 0));
    assert_eq!(next_of(&ks, P), S2);
    assert_eq!(prev_of(&ks, NX), S2);
    // Swapping for deletion with the same slot twice changes nothing.
    ks.capSwapForDelete(S2, S2);
    assert_eq!(ks.ctes[&S2].cap.words, c1.words);
    ks.capSwapForDelete(S1, S2);
    assert_eq!(ks.ctes[&S1].cap.words, c1.words);
    assert_eq!(next_of(&ks, P), S1);
}

#[test]
fn rotate_moves_two_capabilities() {
    let mut ks = chain();
    put(&mut ks, S2, endpoint_cap(0x8000, 0), mdb_node_new(0, 0, 0, 0));
    let c1 = ks.ctes[&S1].cap;
    let c2 = ks.ctes[&S2].cap;
    assert_eq!(ks.invokeCNodeRotate(c1, c2, S1, S2, S3), 0);
    assert_eq!(ks.ctes[&S3].cap.words, c2.words);
    assert_eq!(ks.ctes[&S2].cap.words, c1.words);
    assert_eq!(ks.ctes[&S1].cap.words, [0, 0]);
    assert_eq!(next_of(&ks, P), S2);
    // Rotating back onto the first slot swaps.
    let c2b = ks.ctes[&S2].cap;
    let c3 = ks.ctes[&S3].cap;
    assert_eq!(ks.invokeCNodeRotate(c2b, c3, S2, S3, S2), 0);
    assert_eq!(ks.ctes[&S2].cap.words, c3.words);
    assert_eq!(ks.ctes[&S3].cap.words, c2b.words);
}

#[test]
fn insert_new_cap_as_first_child() {
    let mut ks = chain();
    let c = endpoint_cap(0x7000, 5);
    ks.insertNewCap(P, S2, c);
    assert_eq!(ks.ctes[&S2].cap.words, c.words);
    assert_eq!((prev_of(&ks, S2), next_of(&ks, S2)), (P, S1));
    assert_eq!(mdb_node_get_mdbRevocable(ks.ctes[&S2].cteMDBNode), 1);
    assert_eq!(mdb_node_get_mdbFirstBadged(ks.ctes[&S2].cteMDBNode), 1);
    assert_eq!(next_of(&ks, P), S2);
    assert_eq!(prev_of(&ks, S1), S2);
}

#[test]
fn ensure_empty_slot() {
    let mut ks = chain();
    assert_eq!(ks.ensureEmptySlot(S2), 0);
    assert_eq!(ks.ensureEmptySlot(S1), 3);
    assert_eq!(ks.current_syscall_error.error_type, 8);
}

#[test]
fn revocable_capabilities() {
    let untyped = cap { words: [2u64 << 59, 12] };
    let irq_control = cap { words: [14u64 << 59, 0] };
    let irq_handler = cap { words: [16u64 << 59, 0] };
    assert_eq!(isCapRevocable(endpoint_cap(1, 5), endpoint_cap(1, 0)), 1);
    assert_eq!(isCapRevocable(endpoint_cap(1, 5), endpoint_cap(1, 5)), 0);
    let nt = |b: u64| cap { words: [6u64 << 59, b] };
    assert_eq!(isCapRevocable(nt(3), nt(4)), 1);
    assert_eq!(isCapRevocable(nt(3), nt(3)), 0);
    assert_eq!(isCapRevocable(irq_handler, irq_control), 1);
    assert_eq!(isCapRevocable(irq_handler, untyped), 0);
    assert_eq!(isCapRevocable(untyped, untyped), 1);
    // Architecture capabilities (odd tags) never are.
    assert_eq!(isCapRevocable(cap { words: [9u64 << 59, 0] }, untyped), 0);
    assert_eq!(isCapRevocable(cap_reply_cap_new(1, 1, T), untyped), 0);
}

#[test]
fn insert_a_badged_endpoint() {
    let mut ks = chain();
    let badged = endpoint_cap(0x7000, 5);
    ks.cteInsert(badged, S1, S2);
    assert_eq!(ks.ctes[&S2].cap.words, badged.words);
    assert_eq!((prev_of(&ks, S2), next_of(&ks, S2)), (S1, NX));
    assert_eq!(mdb_node_get_mdbRevocable(ks.ctes[&S2].cteMDBNode), 1);
    assert_eq!(mdb_node_get_mdbFirstBadged(ks.ctes[&S2].cteMDBNode), 1);
    assert_eq!(next_of(&ks, S1), S2);
    assert_eq!(prev_of(&ks, NX), S2);
    assert_eq!(ks.invokeCNodeInsert(endpoint_cap(0x7000, 1), S2, S3), 0);
    assert_eq!(mdb_node_get_mdbRevocable(ks.ctes[&S3].cteMDBNode), 1);
    assert_eq!((prev_of(&ks, S3), next_of(&ks, S3)), (S2, NX));
}

#[test]
fn insert_from_an_untyped_marks_it_full() {
    let mut ks = state();
    let untyped = cap { words: [(2u64 << 59) | 0x8_0000, 12] };
    put(&mut ks, S1, untyped, mdb_node_new(0, 1, 0, 0));
    ks.cteInsert(untyped, S1, S2);
    assert_eq!(ks.ctes[&S1].cap.words, [(2u64 << 59) | 0x8_0000, (256 << 16) | 12]);
    assert_eq!(ks.ctes[&S2].cap.words, untyped.words);
    assert_eq!(mdb_node_get_mdbRevocable(ks.ctes[&S2].cteMDBNode), 1);
    ks.setUntypedCapAsFull(untyped, cap { words: [(2u64 << 59) | 0x9_0000, 12] }, S2);
    assert_eq!(ks.ctes[&S2].cap.words, untyped.words);
}

#[test]
fn reply_master_is_set_up_once() {
    let mut ks = state();
    ks.setupReplyMaster(T);
    let slot = T + 2 * 32;
    assert_eq!(ks.ctes[&slot].cap.words, cap_reply_cap_new(1, 1, T).words);
    assert_eq!(ks.ctes[&slot].cteMDBNode.words, [0, 3]);
    put(&mut ks, slot, endpoint_cap(1, 1), mdb_node_new(0, 0, 0, 0));
    ks.setupReplyMaster(T);
    assert_eq!(ks.ctes[&slot].cap.words, endpoint_cap(1, 1).words);
}

#[test]
fn save_caller_moves_a_reply_capability() {
    let mut ks = state();
    ks.sched.ksCurThread = T;
    let caller_slot = T + 3 * 32;
    assert_eq!(ks.invokeCNodeSaveCaller(S1), 0);
    assert!(!ks.ctes.contains_key(&S1));
    let reply = cap_reply_cap_new(0, 0, 0x1_0400);
    put(&mut ks, caller_slot, reply, mdb_node_new(0, 0, 0, 0x1_0440));
    assert_eq!(ks.invokeCNodeSaveCaller(S1), 0);
    assert_eq!(ks.ctes[&S1].cap.words, reply.words);
    assert_eq!(ks.ctes[&caller_slot].cap.words, [0, 0]);
    let master = cap_reply_cap_new(1, 1, 0x1_0400);
    put(&mut ks, caller_slot, master, mdb_node_new(0, 0, 0, 0));
    assert_eq!(ks.invokeCNodeSaveCaller(S2), 0);
    assert_eq!(ks.ctes[&caller_slot].cap.words, master.words);
}

#[test]
fn empty_slot_links_the_neighbours() {
    let mut ks = chain();
    ks.emptySlot(S1, cap { words: [0, 0] });
    assert_eq!(ks.ctes[&S1].cap.words, [0, 0]);
    assert_eq!(ks.ctes[&S1].cteMDBNode.words, [0, 0]);
    assert_eq!(next_of(&ks, P), NX);
    assert_eq!(prev_of(&ks, NX), P);
    assert_eq!(mdb_node_get_mdbFirstBadged(ks.ctes[&NX].cteMDBNode), 0);
    // The successor inherits the first-badged flag.
    let mut ks = chain();
    put(&mut ks, S1, endpoint_cap(0x7000, 1), mdb_node_new(NX, 0, 1, P));
    ks.emptySlot(S1, cap { words: [0, 0] });
    assert_eq!(mdb_node_get_mdbFirstBadged(ks.ctes[&NX].cteMDBNode), 1);
    // An empty slot is left alone.
    ks.emptySlot(S3, cap { words: [0, 0] });
    assert!(!ks.ctes.contains_key(&S3));
}

#[test]
fn delete_reply_capabilities() {
    let mut ks = state();
    let reply_slot = T + 2 * 32;
    let caller_slot = 0x1_0400 + 3 * 32;
    put(&mut ks, reply_slot, cap_reply_cap_new(1, 1, T), mdb_node_new(caller_slot, 1, 1, 0));
    put(&mut ks, caller_slot, cap_reply_cap_new(1, 0, T), mdb_node_new(0, 0, 0, reply_slot));
    assert!(matches!(ks.cteDeleteOne(S3, DeleteOneEvent::Start), DeleteOneAction::Done));
    assert!(!ks.ctes.contains_key(&S3));
    ks.deleteCallerCap(0x1_0400);
    assert_eq!(ks.ctes[&caller_slot].cap.words, [0, 0]);
    assert_eq!(next_of(&ks, reply_slot), 0);
    assert!(matches!(ks.cteDeleteOne(reply_slot, DeleteOneEvent::Start), DeleteOneAction::Done));
    assert_eq!(ks.ctes[&reply_slot].cap.words, [0, 0]);
}

#[test]
fn delete_one_finalises_other_capabilities_first() {
    let mut ks = chain();
    let c = ks.ctes[&S1].cap;
    match ks.cteDeleteOne(S1, DeleteOneEvent::Start) {
        DeleteOneAction::Finalise(f) => assert_eq!(f.words, c.words),
        DeleteOneAction::Done => panic!("an endpoint capability is finalised first"),
    }
    assert_eq!(ks.ctes[&S1].cap.words, c.words);
    assert!(matches!(ks.cteDeleteOne(S1, DeleteOneEvent::Finalised), DeleteOneAction::Done));
    assert_eq!(ks.ctes[&S1].cap.words, [0, 0]);
    assert_eq!(next_of(&ks, P), NX);
    assert_eq!(prev_of(&ks, NX), P);
}

#[test]
fn emptying_a_slot_hands_back_its_clean_up() {
    let mut ks = chain();
    let cleanup = cap { words: [16u64 << 59, 5] };
    assert_eq!(ks.emptySlot(S1, cleanup).map(|c| c.words), Some(cleanup.words));
    assert!(ks.emptySlot(S1, cleanup).is_none());
}

fn zombie(kind: u64, id: u64) -> cap_t {
    cap { words: [(18u64 << 59) | kind, id] }
}

#[test]
fn zombie_fields() {
    // A CNode of radix 4: the count is in the low five bits of the identifier.
    let z = zombie(4, 0x5000 | 3);
    assert_eq!(cap_zombie_cap_get_capZombieType(z), 4);
    assert_eq!(cap_zombie_cap_get_capZombieBits(z), 4);
    assert_eq!(cap_zombie_cap_get_capZombieNumber(z), 3);
    assert_eq!(cap_zombie_cap_get_capZombiePtr(z), 0x5000);
    // The slots of a thread have radix 4 too.
    let t = zombie(64, 0x8000 | 0x21);
    assert_eq!(cap_zombie_cap_get_capZombieBits(t), 4);
    assert_eq!(cap_zombie_cap_get_capZombieNumber(t), 1);
    assert_eq!(cap_zombie_cap_get_capZombiePtr(t), 0x8020);
    // A CNode of radix 10.
    let big = zombie(10, 0x10_0000 | 0x7ff);
    assert_eq!(cap_zombie_cap_get_capZombieNumber(big), 0x7ff);
    assert_eq!(cap_zombie_cap_get_capZombiePtr(big), 0x10_0000);
}

#[test]
fn removable_and_cyclic_zombies() {
    let null = cap { words: [0, 0] };
    assert_eq!(capRemovable(null, S1), 1);
    assert_eq!(capRemovable(zombie(4, 0x5000), S1), 1);
    assert_eq!(capRemovable(zombie(4, 0x5001), 0x5000), 1);
    assert_eq!(capRemovable(zombie(4, 0x5001), S1), 0);
    assert_eq!(capRemovable(zombie(4, 0x5002), 0x5000), 0);
    assert_eq!(capCyclicZombie(zombie(4, 0x5002), 0x5000), 1);
    assert_eq!(capCyclicZombie(zombie(4, 0x5002), S1), 0);
    assert_eq!(capCyclicZombie(null, 0), 0);
}

#[test]
fn parents_in_the_mapping_database() {
    let ks = chain();
    assert_eq!(ks.isMDBParentOf(P, S1, 1), 1);
    assert_eq!(ks.isMDBParentOf(P, S1, 0), 0);
    // S1 is not revocable.
    assert_eq!(ks.isMDBParentOf(S1, NX, 1), 0);
    // A badged endpoint capability is the parent only of the same badge,
    // unless the child starts a new badge.
    let mut ks = state();
    put(&mut ks, S1, endpoint_cap(0x7000, 5), mdb_node_new(S2, 1, 1, 0));
    put(&mut ks, S2, endpoint_cap(0x7000, 5), mdb_node_new(0, 0, 0, S1));
    put(&mut ks, S3, endpoint_cap(0x7000, 6), mdb_node_new(0, 0, 0, 0));
    put(&mut ks, NX, endpoint_cap(0x7000, 5), mdb_node_new(0, 1, 1, 0));
    assert_eq!(ks.isMDBParentOf(S1, S2, 1), 1);
    assert_eq!(ks.isMDBParentOf(S1, S3, 1), 0);
    assert_eq!(ks.isMDBParentOf(S1, NX, 1), 0);
    // Any other revocable capability is the parent of what it covers.
    put(&mut ks, P, cap { words: [10u64 << 59, 0] }, mdb_node_new(0, 1, 0, 0));
    assert_eq!(ks.isMDBParentOf(P, S3, 1), 1);
}

#[test]
fn no_children_before_retyping() {
    let mut ks = chain();
    assert_eq!(ks.ensureNoChildren(NX, 1), 0);
    assert_eq!(ks.ensureNoChildren(P, 0), 0);
    assert_eq!(ks.current_syscall_error.error_type, 0);
    assert_eq!(ks.ensureNoChildren(P, 1), 3);
    assert_eq!(ks.current_syscall_error.error_type, 9);
}

#[test]
fn final_capabilities() {
    let ks = chain();
    assert_eq!(ks.isFinalCapability(S1, 1, 1), 0);
    assert_eq!(ks.isFinalCapability(S1, 0, 1), 0);
    assert_eq!(ks.isFinalCapability(S1, 0, 0), 1);
    assert_eq!(ks.isFinalCapability(NX, 0, 1), 1);
    assert_eq!(ks.isFinalCapability(P, 1, 0), 1);
    assert_eq!(ks.isFinalCapability(P, 1, 1), 0);
}

#[test]
fn long_running_deletes() {
    let mut ks = state();
    put(&mut ks, S1, cap { words: [(12u64 << 59) | T, 0] }, mdb_node_new(0, 0, 0, 0));
    put(&mut ks, S2, endpoint_cap(0x7000, 0), mdb_node_new(0, 0, 0, 0));
    put(&mut ks, S3, cap { words: [(10u64 << 59), 0] }, mdb_node_new(0, 0, 0, P));
    assert_eq!(ks.slotCapLongRunningDelete(S1, 0, 0), 1);
    assert_eq!(ks.slotCapLongRunningDelete(S2, 0, 0), 0);
    assert_eq!(ks.slotCapLongRunningDelete(S3, 0, 0), 1);
    assert_eq!(ks.slotCapLongRunningDelete(S3, 1, 0), 0);
    assert_eq!(ks.slotCapLongRunningDelete(NX, 0, 0), 0);
}

#[test]
fn swapping_neighbours_keeps_the_chain_linked() {
    // P <-> S1 <-> NX: swap S1 with its successor NX, then back.
    let mut ks = chain();
    let c1 = ks.ctes[&S1].cap;
    let cn = ks.ctes[&NX].cap;
    ks.cteSwap(c1, S1, cn, NX);
    assert_eq!(ks.ctes[&S1].cap.words, cn.words);
    assert_eq!(ks.ctes[&NX].cap.words, c1.words);
    // The chain now reads P <-> NX <-> S1.
    assert_eq!(next_of(&ks, P), NX);
    assert_eq!((prev_of(&ks, NX), next_of(&ks, NX)), (P, S1));
    assert_eq!((prev_of(&ks, S1), next_of(&ks, S1)), (NX, 0));
    // Swapping with the predecessor.
    let a = ks.ctes[&NX].cap;
    let b = ks.ctes[&P].cap;
    ks.cteSwap(a, NX, b, P);
    assert_eq!((prev_of(&ks, NX), next_of(&ks, NX)), (0, P));
    assert_eq!((prev_of(&ks, P), next_of(&ks, P)), (NX, S1));
    assert_eq!(prev_of(&ks, S1), P);
}
