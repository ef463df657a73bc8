use sel4_rust::object::{
    cap, cap_cnode_cap_get_capCNodeGuard, cap_cnode_cap_get_capCNodeGuardSize,
    cap_cnode_cap_get_capCNodePtr, cap_cnode_cap_get_capCNodeRadix, cap_get_capType,
    cap_null_cap_new, lookup_fault_depth_mismatch_new, lookup_fault_guard_mismatch_new,
    lookup_fault_invalid_root_new,
};

#[test]
fn null_cap_has_null_type() {
    let c = cap_null_cap_new();
    assert_eq!(c.words, [0, 0]);
    assert_eq!(cap_get_capType(c), 0);
}

#[test]
fn cnode_cap_fields_decode() {
    // type 10, guard size 3, radix 5, pointer 0x1000 (stored shifted right by one)
    let w0: u64 = (10u64 << 59) | (3u64 << 53) | (5u64 << 47) | (0x1000u64 >> 1);
    let c = cap { words: [w0, 0b101] };
    assert_eq!(cap_get_capType(c), 10);
    assert_eq!(cap_cnode_cap_get_capCNodeGuardSize(c), 3);
    assert_eq!(cap_cnode_cap_get_capCNodeRadix(c), 5);
    assert_eq!(cap_cnode_cap_get_capCNodeGuard(c), 0b101);
    assert_eq!(cap_cnode_cap_get_capCNodePtr(c), 0x1000);
}

#[test]
fn lookup_faults_encode() {
    assert_eq!(lookup_fault_invalid_root_new().words, [0, 0]);
    let f = lookup_fault_depth_mismatch_new(12, 7);
    assert_eq!(f.words, [(12 << 9) | (7 << 2) | 2, 0]);
    let g = lookup_fault_guard_mismatch_new(0xabc, 64, 3);
    assert_eq!(g.words, [(64 << 9) | (3 << 2) | 3, 0xabc]);
}

use sel4_rust::object::{
    cap_endpoint_cap_get_capCanGrant, cap_endpoint_cap_get_capCanReceive,
    cap_endpoint_cap_get_capCanSend, cap_endpoint_cap_get_capEPBadge,
    cap_endpoint_cap_get_capEPPtr, cap_notification_cap_get_capNtfnPtr, cap_reply_cap_get_capReplyMaster,
    cap_reply_cap_get_capTCBPtr, cap_reply_cap_new, cap_thread_cap_get_capTCBPtr,
    cap_untyped_cap_get_capBlockSize, cap_untyped_cap_get_capPtr,
    cap_untyped_cap_ptr_set_capFreeIndex, endpoint, endpoint_ptr_get_epQueue_head,
    endpoint_ptr_get_epQueue_tail, endpoint_ptr_get_state, endpoint_ptr_set_epQueue_head,
    endpoint_ptr_set_epQueue_tail, endpoint_ptr_set_state, mdb_node_get_mdbFirstBadged,
    mdb_node_get_mdbNext, mdb_node_get_mdbPrev, mdb_node_get_mdbRevocable, mdb_node_new,
    mdb_node_ptr_set_mdbNext, mdb_node_ptr_set_mdbPrev, messageInfoFromWord,
    messageInfoFromWord_raw, notification, notification_ptr_get_ntfnBoundTCB,
    notification_ptr_get_ntfnMsgIdentifier, notification_ptr_get_ntfnQueue_head,
    notification_ptr_get_ntfnQueue_tail, notification_ptr_get_state,
    notification_ptr_set_ntfnBoundTCB, notification_ptr_set_ntfnMsgIdentifier,
    notification_ptr_set_ntfnQueue_head, notification_ptr_set_ntfnQueue_tail,
    notification_ptr_set_state, nullMDBNode, seL4_Fault_CapFault_new,
    seL4_Fault_NullFault_new, seL4_Fault_get_seL4_FaultType, seL4_MessageInfo_get_capsUnwrapped,
    seL4_MessageInfo_get_extraCaps, seL4_MessageInfo_get_label, seL4_MessageInfo_get_length,
    seL4_MessageInfo_new, seL4_MessageInfo_set_capsUnwrapped, seL4_MessageInfo_set_extraCaps,
    seL4_MessageInfo_set_length, thread_state, thread_state_get_tcbQueued,
    thread_state_ptr_get_blockingIPCCanGrant, thread_state_ptr_get_blockingObject,
    thread_state_ptr_get_tsType, thread_state_ptr_set_blockingIPCCanGrant,
    thread_state_ptr_set_blockingObject, thread_state_ptr_set_tcbQueued,
    thread_state_ptr_set_tsType, wordFromMessageInfo, TCB_PTR_CTE_PTR, cap_tag,
    cap_pml4_cap_get_capPML4BasePtr, cap_pml4_cap_get_capPML4IsMapped,
    cap_pml4_cap_get_capPML4MappedASID, syscall, priorityConstants, domainConstants,
    seL4_Fault_tag,
};
use sel4_rust::failures::exception;

#[test]
fn notification_fields_round_trip() {
    let mut n = notification { words: [0, 0, 0, 0] };
    notification_ptr_set_state(&mut n, 2);
    notification_ptr_set_ntfnQueue_tail(&mut n, 0x2000);
    notification_ptr_set_ntfnMsgIdentifier(&mut n, 0xdead);
    notification_ptr_set_ntfnBoundTCB(&mut n, 0x4400);
    assert_eq!(notification_ptr_get_state(&n), 2);
    assert_eq!(notification_ptr_get_ntfnQueue_tail(&n), 0x2000);
    assert_eq!(notification_ptr_get_ntfnMsgIdentifier(&n), 0xdead);
    assert_eq!(notification_ptr_get_ntfnBoundTCB(&n), 0x4400);
    // The head reads back from the second word.
    notification_ptr_set_ntfnQueue_head(&mut n, 0x3000);
    assert_eq!(notification_ptr_get_ntfnQueue_head(&n), 0x3000);
    assert_eq!(notification_ptr_get_ntfnQueue_tail(&n), 0x2000);
    assert_eq!(n.words[1] & 0x7f_ffff_ffff, 0x3000);
}

#[test]
fn notification_addresses_sign_extend() {
    let mut n = notification { words: [0, 0, 0, 0] };
    notification_ptr_set_ntfnBoundTCB(&mut n, 0xffff_ffc0_0000_1000);
    assert_eq!(notification_ptr_get_ntfnBoundTCB(&n), 0xffff_ffc0_0000_1000);
}

#[test]
fn thread_state_fields_round_trip() {
    let mut ts = thread_state { words: [0, 0, 0] };
    thread_state_ptr_set_tsType(&mut ts, 6);
    thread_state_ptr_set_blockingObject(&mut ts, 0x5550);
    thread_state_ptr_set_tcbQueued(&mut ts, 1);
    thread_state_ptr_set_blockingIPCCanGrant(&mut ts, 1);
    assert_eq!(thread_state_ptr_get_tsType(&ts), 6);
    assert_eq!(thread_state_ptr_get_blockingObject(&ts), 0x5550);
    assert_eq!(thread_state_get_tcbQueued(&ts), 1);
    assert_eq!(thread_state_ptr_get_blockingIPCCanGrant(&ts), 1);
    thread_state_ptr_set_tsType(&mut ts, 1);
    assert_eq!(thread_state_ptr_get_tsType(&ts), 1);
    assert_eq!(thread_state_ptr_get_blockingObject(&ts), 0x5550);
    assert_eq!(ts.words[1], 0b1001);
}

#[test]
fn endpoint_fields_round_trip() {
    let mut e = endpoint { words: [0, 0] };
    endpoint_ptr_set_epQueue_head(&mut e, 0x7000);
    endpoint_ptr_set_epQueue_tail(&mut e, 0x8000);
    endpoint_ptr_set_state(&mut e, 2);
    assert_eq!(endpoint_ptr_get_epQueue_head(&e), 0x7000);
    assert_eq!(endpoint_ptr_get_epQueue_tail(&e), 0x8000);
    assert_eq!(endpoint_ptr_get_state(&e), 2);
    assert_eq!(e.words, [0x8002, 0x7000]);
}

#[test]
fn mdb_node_fields_round_trip() {
    let m = mdb_node_new(0x1040, 1, 0, 0x2080);
    assert_eq!(mdb_node_get_mdbNext(m), 0x1040);
    assert_eq!(mdb_node_get_mdbRevocable(m), 1);
    assert_eq!(mdb_node_get_mdbFirstBadged(m), 0);
    assert_eq!(mdb_node_get_mdbPrev(m), 0x2080);
    let mut m2 = m;
    mdb_node_ptr_set_mdbNext(&mut m2, 0x3000);
    mdb_node_ptr_set_mdbPrev(&mut m2, 0x4000);
    assert_eq!(mdb_node_get_mdbNext(m2), 0x3000);
    assert_eq!(mdb_node_get_mdbPrev(m2), 0x4000);
    assert_eq!(mdb_node_get_mdbRevocable(m2), 1);
    assert_eq!(nullMDBNode().words, [0, 0]);
}

#[test]
fn message_info_fields() {
    let mi = seL4_MessageInfo_new(0x123, 5, 2, 17);
    assert_eq!(seL4_MessageInfo_get_label(mi), 0x123);
    assert_eq!(seL4_MessageInfo_get_capsUnwrapped(mi), 5);
    assert_eq!(seL4_MessageInfo_get_extraCaps(mi), 2);
    assert_eq!(seL4_MessageInfo_get_length(mi), 17);
    assert_eq!(wordFromMessageInfo(mi), (0x123 << 12) | (5 << 9) | (2 << 7) | 17);
    let mi2 = seL4_MessageInfo_set_length(seL4_MessageInfo_set_extraCaps(mi, 1), 3);
    assert_eq!(seL4_MessageInfo_get_extraCaps(mi2), 1);
    assert_eq!(seL4_MessageInfo_get_length(mi2), 3);
    let mi3 = seL4_MessageInfo_set_capsUnwrapped(mi2, 0);
    assert_eq!(seL4_MessageInfo_get_capsUnwrapped(mi3), 0);
    assert_eq!(seL4_MessageInfo_get_label(mi3), 0x123);
}

#[test]
fn message_info_length_is_capped() {
    assert_eq!(seL4_MessageInfo_get_length(messageInfoFromWord(127)), 120);
    assert_eq!(seL4_MessageInfo_get_length(messageInfoFromWord(90)), 90);
    assert_eq!(messageInfoFromWord_raw(127).words, [127]);
    assert_eq!(messageInfoFromWord((7 << 12) | 125).words, [(7 << 12) | 120]);
}

#[test]
fn faults_encode() {
    let f = seL4_Fault_CapFault_new(0x1234, 1);
    assert_eq!(f.words, [(1u64 << 63) | 1, 0x1234]);
    assert_eq!(seL4_Fault_get_seL4_FaultType(&f), 1);
    let n = seL4_Fault_NullFault_new();
    assert_eq!(seL4_Fault_get_seL4_FaultType(&n), 0);
}

#[test]
fn tcb_slots_follow_the_tcb_block() {
    assert_eq!(TCB_PTR_CTE_PTR(0x10_0000, 0), 0x10_0000);
    assert_eq!(TCB_PTR_CTE_PTR(0x10_0123, 2), 0x10_0040);
    assert_eq!(TCB_PTR_CTE_PTR(0x10_07ff, 3), 0x10_0460);
}

#[test]
fn capability_fields_decode() {
    // endpoint: type 4, can grant (bit 57), can receive (bit 56), badge 9
    let ep = cap { words: [(4u64 << 59) | (1 << 57) | (1 << 56) | 0x9000, 9] };
    assert_eq!(cap_get_capType(ep), 4);
    assert_eq!(cap_endpoint_cap_get_capEPPtr(ep), 0x9000);
    assert_eq!(cap_endpoint_cap_get_capEPBadge(ep), 9);
    assert_eq!(cap_endpoint_cap_get_capCanGrant(ep), 1);
    assert_eq!(cap_endpoint_cap_get_capCanReceive(ep), 1);
    assert_eq!(cap_endpoint_cap_get_capCanSend(ep), 0);
    let nt = cap { words: [(6u64 << 59) | 0x40_0000_0000, 0] };
    assert_eq!(cap_notification_cap_get_capNtfnPtr(nt), 0xffff_ffc0_0000_0000);
    let th = cap { words: [(12u64 << 59) | 0x5400, 0] };
    assert_eq!(cap_thread_cap_get_capTCBPtr(th), 0x5400);
    let r = cap_reply_cap_new(1, 0, 0x6400);
    assert_eq!(cap_get_capType(r), 8);
    assert_eq!(cap_reply_cap_get_capReplyMaster(r), 0);
    assert_eq!(cap_reply_cap_get_capTCBPtr(r), 0x6400);
    assert_eq!(r.words, [(8u64 << 59) | 2, 0x6400]);
    let mut u = cap { words: [(2u64 << 59) | 0x8_0000, 12] };
    assert_eq!(cap_untyped_cap_get_capPtr(u), 0x8_0000);
    assert_eq!(cap_untyped_cap_get_capBlockSize(u), 12);
    cap_untyped_cap_ptr_set_capFreeIndex(&mut u, 0x10);
    assert_eq!(u.words[1], (0x10 << 16) | 12);
    let pml4 = cap { words: [(9u64 << 59) | (1 << 58) | 0x2a, 0xa000] };
    assert_eq!(cap_pml4_cap_get_capPML4BasePtr(pml4), 0xa000);
    assert_eq!(cap_pml4_cap_get_capPML4IsMapped(pml4), 1);
    assert_eq!(cap_pml4_cap_get_capPML4MappedASID(pml4), 0x2a);
}

#[test]
fn enumeration_values() {
    assert_eq!(cap_tag::cap_cnode_cap.word(), 10);
    assert_eq!(cap_tag::cap_io_port_control_cap.word(), 31);
    assert_eq!(syscall::SysReplyRecv.value(), -2);
    assert_eq!(priorityConstants::seL4_MaxPrio.value(), 255);
    assert_eq!(domainConstants::numDomains.value(), 1);
    assert_eq!(seL4_Fault_tag::seL4_Fault_VMFault.word(), 5);
    assert_eq!(exception::EXCEPTION_SYSCALL_ERROR.word(), 3);
}
