use sel4_rust::object::{cap, cap_t, cte, mdb_node, cap_null_cap_new};
use sel4_rust::state::{dschedule, KernelState, SchedState};

const T: u64 = 0x1_0000;
const ROOT_NODE: u64 = 0x2_0000;
const LEAF_NODE: u64 = 0x3_0000;

fn cnode_cap(ptr: u64, guard_size: u64, guard: u64, radix: u64) -> cap_t {
    cap { words: [(10u64 << 59) | (guard_size << 53) | (radix << 47) | (ptr >> 1), guard] }
}

fn endpoint_cap(ptr: u64, badge: u64) -> cap_t {
    cap { words: [(4u64 << 59) | (1 << 55) | ptr, badge] }
}

fn put(ks: &mut KernelState, at: u64, c: cap_t) {
    ks.ctes.insert(at, cte { cap: c, cteMDBNode: mdb_node { words: [0, 0] } });
}

fn state() -> KernelState {
    KernelState::new(SchedState::new(0x9_0000, vec![dschedule { domain: 0, length: 10 }]))
}

/// One level that resolves the whole word: 56 guard bits (all zero) and an
/// 8-bit index.
fn one_level() -> (KernelState, cap_t) {
    let mut ks = state();
    let root = cnode_cap(ROOT_NODE, 56, 0, 8);
    put(&mut ks, T, root);
    put(&mut ks, ROOT_NODE + 5 * 32, endpoint_cap(0x7000, 3));
    (ks, root)
}

/// Two levels: 48 guard bits and an 8-bit index, then an 8-bit index.
fn two_levels() -> (KernelState, cap_t) {
    let mut ks = state();
    let root = cnode_cap(ROOT_NODE, 48, 0, 8);
    put(&mut ks, T, root);
    put(&mut ks, ROOT_NODE + 3 * 32, cnode_cap(LEAF_NODE, 0, 0, 8));
    (ks, root)
}

#[test]
fn resolve_one_level() {
    let (mut ks, root) = one_level();
    let r = ks.resolveAddressBits(root, 5, 64);
    assert_eq!(r.status, 0);
    assert_eq!(r.slot, ROOT_NODE + 0xa0);
    assert_eq!(r.bitsRemaining, 0);
}

#[test]
fn resolve_two_levels() {
    let (mut ks, root) = two_levels();
    let r = ks.resolveAddressBits(root, (3 << 8) | 7, 64);
    assert_eq!(r.status, 0);
    assert_eq!(r.slot, LEAF_NODE + 7 * 32);
    assert_eq!(r.bitsRemaining, 0);
}

#[test]
fn resolve_stops_at_a_non_cnode() {
    let (mut ks, root) = two_levels();
    // Index 4 of the root holds nothing: 8 bits are left over.
    let r = ks.resolveAddressBits(root, (4 << 8) | 7, 64);
    assert_eq!(r.status, 0);
    assert_eq!(r.slot, ROOT_NODE + 4 * 32);
    assert_eq!(r.bitsRemaining, 8);
}

#[test]
fn resolve_guard_mismatch() {
    let (mut ks, root) = one_level();
    let r = ks.resolveAddressBits(root, 0x105, 64);
    assert_eq!(r.status, 2);
    assert_eq!(r.slot, 0);
    assert_eq!(r.bitsRemaining, 64);
    assert_eq!(ks.current_lookup_fault.words, [(64 << 9) | (56 << 2) | 3, 0]);
}

#[test]
fn resolve_depth_mismatch() {
    let (mut ks, root) = two_levels();
    // 60 bits: the first level takes 56 and the second needs 8 of the 4 left.
    let r = ks.resolveAddressBits(root, 0x37, 60);
    assert_eq!(r.status, 2);
    assert_eq!(r.bitsRemaining, 60);
    assert_eq!(ks.current_lookup_fault.words, [(8 << 9) | (4 << 2) | 2, 0]);
}

#[test]
fn resolve_invalid_root() {
    let mut ks = state();
    let r = ks.resolveAddressBits(cap_null_cap_new(), 5, 64);
    assert_eq!(r.status, 2);
    assert_eq!(r.bitsRemaining, 64);
    assert_eq!(ks.current_lookup_fault.words, [0, 0]);
}

#[test]
fn lookup_slot_and_cap() {
    let (mut ks, _) = one_level();
    let s = ks.lookupSlot(T, 5);
    assert_eq!((s.status, s.slot), (0, ROOT_NODE + 0xa0));
    let c = ks.lookupCap(T, 5);
    assert_eq!(c.status, 0);
    assert_eq!(c.cap.words, endpoint_cap(0x7000, 3).words);
    let cs = ks.lookupCapAndSlot(T, 5);
    assert_eq!(cs.status, 0);
    assert_eq!(cs.slot, ROOT_NODE + 0xa0);
    assert_eq!(cs.cap.words, endpoint_cap(0x7000, 3).words);
}

#[test]
fn lookup_failures_give_nothing() {
    let (mut ks, _) = one_level();
    let s = ks.lookupSlot(T, 0x105);
    assert_eq!((s.status, s.slot), (2, 0));
    let c = ks.lookupCap(T, 0x105);
    assert_eq!(c.status, 2);
    assert_eq!(c.cap.words, [0, 0]);
    let cs = ks.lookupCapAndSlot(T, 0x105);
    assert_eq!((cs.status, cs.slot), (2, 0));
    assert_eq!(ks.current_lookup_fault.words, [(64 << 9) | (56 << 2) | 3, 0]);
}

#[test]
fn cnode_op_lookup_succeeds() {
    let (mut ks, root) = two_levels();
    let r = ks.lookupSlotForCNodeOp(1, root, 3, 56);
    assert_eq!((r.status, r.slot), (0, ROOT_NODE + 3 * 32));
    let r = ks.lookupSourceSlot(root, (3 << 8) | 7, 64);
    assert_eq!((r.status, r.slot), (0, LEAF_NODE + 7 * 32));
    let r = ks.lookupTargetSlot(root, 3, 56);
    assert_eq!((r.status, r.slot), (0, ROOT_NODE + 3 * 32));
    let r = ks.lookupPivotSlot(root, 3, 56);
    assert_eq!((r.status, r.slot), (0, ROOT_NODE + 3 * 32));
    assert_eq!(ks.current_syscall_error.error_type, 0);
}

#[test]
fn cnode_op_lookup_invalid_root() {
    let mut ks = state();
    let r = ks.lookupSlotForCNodeOp(1, cap_null_cap_new(), 5, 64);
    assert_eq!((r.status, r.slot), (3, 0));
    assert_eq!(ks.current_syscall_error.error_type, 6);
    assert_eq!(ks.current_syscall_error.failedLookupWasSource, 1);
    assert_eq!(ks.current_lookup_fault.words, [0, 0]);
}

#[test]
fn cnode_op_lookup_depth_out_of_range() {
    let (mut ks, root) = one_level();
    let r = ks.lookupSlotForCNodeOp(0, root, 5, 0);
    assert_eq!((r.status, r.slot), (3, 0));
    assert_eq!(ks.current_syscall_error.error_type, 4);
    assert_eq!(ks.current_syscall_error.rangeErrorMin, 1);
    assert_eq!(ks.current_syscall_error.rangeErrorMax, 64);
    let r = ks.lookupSlotForCNodeOp(0, root, 5, 65);
    assert_eq!(r.status, 3);
}

#[test]
fn cnode_op_lookup_failed_resolution() {
    let (mut ks, root) = two_levels();
    let r = ks.lookupTargetSlot(root, 0x37, 60);
    assert_eq!((r.status, r.slot), (3, 0));
    assert_eq!(ks.current_syscall_error.error_type, 6);
    assert_eq!(ks.current_syscall_error.failedLookupWasSource, 0);
    assert_eq!(ks.current_lookup_fault.words, [(8 << 9) | (4 << 2) | 2, 0]);
}

#[test]
fn cnode_op_lookup_bits_left_over() {
    let (mut ks, root) = two_levels();
    // Index 4 holds no CNode: 4 of the 60 bits are left, a depth mismatch.
    let r = ks.lookupSourceSlot(root, 0x47, 60);
    assert_eq!((r.status, r.slot), (3, 0));
    assert_eq!(ks.current_syscall_error.error_type, 6);
    assert_eq!(ks.current_syscall_error.failedLookupWasSource, 1);
    assert_eq!(ks.current_lookup_fault.words, [(4 << 2) | 2, 0]);
}
