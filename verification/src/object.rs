//! Kernel objects and the bitfield encodings of capabilities, lookup faults,
//! notifications, thread states, endpoints and mapping-database nodes.
use vstd::prelude::*;

use crate::types::{cptr_t, dom_t, prio_t, user_context_t, word_t};

verus! {

// ---------------------------------------------------------------------------
// Word-level helpers
// ---------------------------------------------------------------------------

/// Sign-extends a 39-bit virtual address held in the low bits of `x`.
pub open spec fn sign_extend_39(x: u64) -> u64 {
    if x & 0x4000000000u64 != 0 {
        x | 0xffffff8000000000u64
    } else {
        x
    }
}

/// Sign-extends a 48-bit virtual address held in the low bits of `x`.
pub open spec fn sign_extend_48(x: u64) -> u64 {
    if x & 0x800000000000u64 != 0 {
        x | 0xffff000000000000u64
    } else {
        x
    }
}

/// Every bitfield read from a word fits its width.
pub proof fn lemma_field_ranges(w: u64)
    by (bit_vector)
    ensures
        (w >> 59u64) & 0x1fu64 < 32,
        (w & 0x1f800000000000u64) >> 47u64 < 64,
        (w & 0x7e0000000000000u64) >> 53u64 < 64,
        w & 0x1u64 < 2,
        w & 0x3u64 < 4,
        w & 0xfu64 < 16,
        w & 0x7fu64 < 128,
        w & 0x3fu64 < 64,
        (w >> 7u64) & 0x3u64 < 4,
        (w >> 9u64) & 0x7u64 < 8,
{
}

/// Bitfield reads of a few constant words.
pub proof fn lemma_constant_fields()
    by (bit_vector)
    ensures
        (0u64 >> 59u64) & 0x1fu64 == 0,
        0u64 & 0x3u64 == 0,
        2u64 & 0x3u64 == 2,
        0u64 & 0x7fffffffffu64 == 0,
        0u64 & 0x4000000000u64 == 0,
        0u64 & 0x7ffffffffcu64 == 0,
        1u64 & 0xfu64 == 1,
        0x7ffffffffcu64 & 0x2u64 == 0,
        0x7ffffffffcu64 & 0x1u64 == 0,
        (((((0u64 & 0x7ffffffffcu64) | ((0u64 & 0x1u64) << 1u64) | (0u64 & 0x1u64)) & !0x2u64)
            | ((1u64 << 1u64) & 0x2u64)) & !0x1u64) | (1u64 & 0x1u64) == (0u64 & 0x7ffffffffcu64)
            | ((1u64 & 0x1u64) << 1u64) | (1u64 & 0x1u64),
{
}

// ---------------------------------------------------------------------------
// Bitfield structures
// ---------------------------------------------------------------------------

/// A capability: two words of tagged bitfield.
#[derive(Clone, Copy)]
pub struct cap {
    pub words: [u64; 2],
}

pub type cap_t = cap;

/// A mapping-database node: the links of a capability derivation list.
#[derive(Clone, Copy)]
pub struct mdb_node {
    pub words: [u64; 2],
}

pub type mdb_node_t = mdb_node;

/// A notification object.
#[derive(Clone, Copy)]
pub struct notification {
    pub words: [u64; 4],
}

pub type notification_t = notification;

/// The scheduling and blocking state of a thread.
#[derive(Clone, Copy)]
pub struct thread_state {
    pub words: [u64; 3],
}

pub type thread_state_t = thread_state;

/// The reason a capability lookup failed.
#[derive(Clone, Copy)]
pub struct lookup_fault {
    pub words: [u64; 2],
}

pub type lookup_fault_t = lookup_fault;

/// A fault raised by a thread.
#[derive(Clone, Copy)]
pub struct seL4_Fault {
    pub words: [u64; 2],
}

pub type seL4_Fault_t = seL4_Fault;

/// An IPC endpoint.
#[derive(Clone, Copy)]
pub struct endpoint {
    pub words: [u64; 2],
}

pub type endpoint_t = endpoint;

/// An IPC message descriptor.
#[derive(Clone, Copy)]
pub struct seL4_MessageInfo {
    pub words: [u64; 1],
}

pub type seL4_MessageInfo_t = seL4_MessageInfo;

/// A top-level page-table entry.
#[derive(Clone, Copy)]
pub struct pml4e {
    pub words: [u64; 1],
}

pub type pml4e_t = pml4e;

pub type vspace_root_t = pml4e_t;

/// A page-directory entry.
#[derive(Clone, Copy)]
pub struct pde {
    pub words: [u64; 1],
}

pub type pde_t = pde;

/// A capability table entry: a capability and its mapping-database node.
#[derive(Clone, Copy)]
pub struct cte {
    pub cap: cap_t,
    pub cteMDBNode: mdb_node_t,
}

pub type cte_t = cte;

/// Architecture-specific thread state.
#[derive(Clone, Copy)]
pub struct arch_tcb {
    pub tcbContext: user_context_t,
}

pub type arch_tcb_t = arch_tcb;

/// A thread control block. Links to other objects are kernel addresses; zero
/// stands for no object.
#[derive(Clone, Copy)]
pub struct tcb {
    pub tcbArch: arch_tcb_t,
    pub tcbState: thread_state_t,
    pub tcbBoundNotification: word_t,
    pub tcbFault: seL4_Fault_t,
    pub tcbLookupFailure: lookup_fault_t,
    pub tcbDomain: dom_t,
    pub tcbMCP: prio_t,
    pub tcbPriority: prio_t,
    pub tcbTimeSlice: word_t,
    pub tcbFaultHandler: cptr_t,
    pub tcbIPCBuffer: word_t,
    pub tcbSchedNext: word_t,
    pub tcbSchedPrev: word_t,
    pub tcbEPNext: word_t,
    pub tcbEPPrev: word_t,
}

pub type tcb_t = tcb;

/// Size in bytes of a capability table entry.
pub const CTE_SIZE: u64 = 32;

/// log2 of the size of the block that holds a TCB and its capability slots.
pub const seL4_TCBBits: u64 = 10;

/// The address of slot `i` of the capability table that sits at the start
/// of the block holding the TCB at `p`.
pub open spec fn spec_tcb_cte_ptr(p: u64, i: u64) -> int {
    (p & !0x3ffu64) + i * CTE_SIZE
}

pub fn TCB_PTR_CTE_PTR(p: word_t, i: u64) -> (ret: word_t)
    requires
        i < 32,
    ensures
        ret == spec_tcb_cte_ptr(p, i),
{
    assert(p & !0x3ffu64 <= 0xfffffffffffffc00u64) by (bit_vector);
    (p & !0x3ffu64) + i * CTE_SIZE
}

// ---------------------------------------------------------------------------
// Enumerations
// ---------------------------------------------------------------------------

/// The state of a notification object.
#[derive(Clone, Copy, PartialEq, Eq, Structural)]
pub enum notification_state {
    NtfnState_Idle,
    NtfnState_Waiting,
    NtfnState_Active,
}

pub type notification_state_t = word_t;

pub const NtfnState_Idle: u64 = 0;
pub const NtfnState_Waiting: u64 = 1;
pub const NtfnState_Active: u64 = 2;

/// The state a thread is in.
#[derive(Clone, Copy, PartialEq, Eq, Structural)]
pub enum _thread_state {
    ThreadState_Inactive,
    ThreadState_Running,
    ThreadState_Restart,
    ThreadState_BlockedOnReceive,
    ThreadState_BlockedOnSend,
    ThreadState_BlockedOnReply,
    ThreadState_BlockedOnNotification,
    ThreadState_IdleThreadState,
}

pub type _thread_state_t = word_t;

pub const ThreadState_Inactive: u64 = 0;
pub const ThreadState_Running: u64 = 1;
pub const ThreadState_Restart: u64 = 2;
pub const ThreadState_BlockedOnReceive: u64 = 3;
pub const ThreadState_BlockedOnSend: u64 = 4;
pub const ThreadState_BlockedOnReply: u64 = 5;
pub const ThreadState_BlockedOnNotification: u64 = 6;
pub const ThreadState_IdleThreadState: u64 = 7;

/// The slots of the capability table that belongs to each thread.
#[derive(Clone, Copy, PartialEq, Eq, Structural)]
pub enum tcb_cnode_index {
    tcbCTable,
    tcbVTable,
    tcbReply,
    tcbCaller,
    tcbBuffer,
    tcbCNodeEntries,
}

pub const tcbCTable: u64 = 0;
pub const tcbVTable: u64 = 1;
pub const tcbReply: u64 = 2;
pub const tcbCaller: u64 = 3;
pub const tcbBuffer: u64 = 4;
pub const tcbCNodeEntries: u64 = 5;

/// Kinds of lookup failure.
#[derive(Clone, Copy, PartialEq, Eq, Structural)]
pub enum lookup_fault_tag {
    lookup_fault_invalid_root,
    lookup_fault_missing_capability,
    lookup_fault_depth_mismatch,
    lookup_fault_guard_mismatch,
}

pub type lookup_fault_tag_t = lookup_fault_tag;

pub const lookup_fault_invalid_root: u64 = 0;
pub const lookup_fault_missing_capability: u64 = 1;
pub const lookup_fault_depth_mismatch: u64 = 2;
pub const lookup_fault_guard_mismatch: u64 = 3;

/// Kinds of capability.
#[derive(Clone, Copy, PartialEq, Eq, Structural)]
pub enum cap_tag {
    cap_null_cap,
    cap_untyped_cap,
    cap_endpoint_cap,
    cap_notification_cap,
    cap_reply_cap,
    cap_cnode_cap,
    cap_thread_cap,
    cap_irq_control_cap,
    cap_irq_handler_cap,
    cap_zombie_cap,
    cap_domain_cap,
    cap_frame_cap,
    cap_page_table_cap,
    cap_page_directory_cap,
    cap_pdpt_cap,
    cap_pml4_cap,
    cap_asid_control_cap,
    cap_asid_pool_cap,
    cap_io_port_cap,
    cap_io_port_control_cap,
}

pub type cap_tag_t = cap_tag;

pub const cap_null_cap: u64 = 0;
pub const cap_untyped_cap: u64 = 2;
pub const cap_endpoint_cap: u64 = 4;
pub const cap_notification_cap: u64 = 6;
pub const cap_reply_cap: u64 = 8;
pub const cap_cnode_cap: u64 = 10;
pub const cap_thread_cap: u64 = 12;
pub const cap_irq_control_cap: u64 = 14;
pub const cap_irq_handler_cap: u64 = 16;
pub const cap_zombie_cap: u64 = 18;
pub const cap_domain_cap: u64 = 20;
pub const cap_frame_cap: u64 = 1;
pub const cap_page_table_cap: u64 = 3;
pub const cap_page_directory_cap: u64 = 5;
pub const cap_pdpt_cap: u64 = 7;
pub const cap_pml4_cap: u64 = 9;
pub const cap_asid_control_cap: u64 = 11;
pub const cap_asid_pool_cap: u64 = 13;
pub const cap_io_port_cap: u64 = 19;
pub const cap_io_port_control_cap: u64 = 31;

impl cap_tag {
    pub open spec fn spec_word(self) -> u64 {
        match self {
            cap_tag::cap_null_cap => cap_null_cap,
            cap_tag::cap_untyped_cap => cap_untyped_cap,
            cap_tag::cap_endpoint_cap => cap_endpoint_cap,
            cap_tag::cap_notification_cap => cap_notification_cap,
            cap_tag::cap_reply_cap => cap_reply_cap,
            cap_tag::cap_cnode_cap => cap_cnode_cap,
            cap_tag::cap_thread_cap => cap_thread_cap,
            cap_tag::cap_irq_control_cap => cap_irq_control_cap,
            cap_tag::cap_irq_handler_cap => cap_irq_handler_cap,
            cap_tag::cap_zombie_cap => cap_zombie_cap,
            cap_tag::cap_domain_cap => cap_domain_cap,
            cap_tag::cap_frame_cap => cap_frame_cap,
            cap_tag::cap_page_table_cap => cap_page_table_cap,
            cap_tag::cap_page_directory_cap => cap_page_directory_cap,
            cap_tag::cap_pdpt_cap => cap_pdpt_cap,
            cap_tag::cap_pml4_cap => cap_pml4_cap,
            cap_tag::cap_asid_control_cap => cap_asid_control_cap,
            cap_tag::cap_asid_pool_cap => cap_asid_pool_cap,
            cap_tag::cap_io_port_cap => cap_io_port_cap,
            cap_tag::cap_io_port_control_cap => cap_io_port_control_cap,
        }
    }

    /// The type tag that a capability of this kind carries.
    pub fn word(self) -> (r: u64)
        ensures
            r == self.spec_word(),
    {
        match self {
            cap_tag::cap_null_cap => cap_null_cap,
            cap_tag::cap_untyped_cap => cap_untyped_cap,
            cap_tag::cap_endpoint_cap => cap_endpoint_cap,
            cap_tag::cap_notification_cap => cap_notification_cap,
            cap_tag::cap_reply_cap => cap_reply_cap,
            cap_tag::cap_cnode_cap => cap_cnode_cap,
            cap_tag::cap_thread_cap => cap_thread_cap,
            cap_tag::cap_irq_control_cap => cap_irq_control_cap,
            cap_tag::cap_irq_handler_cap => cap_irq_handler_cap,
            cap_tag::cap_zombie_cap => cap_zombie_cap,
            cap_tag::cap_domain_cap => cap_domain_cap,
            cap_tag::cap_frame_cap => cap_frame_cap,
            cap_tag::cap_page_table_cap => cap_page_table_cap,
            cap_tag::cap_page_directory_cap => cap_page_directory_cap,
            cap_tag::cap_pdpt_cap => cap_pdpt_cap,
            cap_tag::cap_pml4_cap => cap_pml4_cap,
            cap_tag::cap_asid_control_cap => cap_asid_control_cap,
            cap_tag::cap_asid_pool_cap => cap_asid_pool_cap,
            cap_tag::cap_io_port_cap => cap_io_port_cap,
            cap_tag::cap_io_port_control_cap => cap_io_port_control_cap,
        }
    }
}

/// Bounds on thread priorities.
#[derive(Clone, Copy, PartialEq, Eq, Structural)]
pub enum priorityConstants {
    seL4_InvalidPrio,
    seL4_MinPrio,
    seL4_MaxPrio,
}

pub const seL4_MinPrio: u64 = 0;
pub const seL4_MaxPrio: u64 = 255;

impl priorityConstants {
    pub open spec fn spec_value(self) -> i64 {
        match self {
            priorityConstants::seL4_InvalidPrio => -1i64,
            priorityConstants::seL4_MinPrio => 0,
            priorityConstants::seL4_MaxPrio => 255,
        }
    }

    /// The priority that the constant stands for.
    pub fn value(self) -> (r: i64)
        ensures
            r == self.spec_value(),
    {
        match self {
            priorityConstants::seL4_InvalidPrio => -1i64,
            priorityConstants::seL4_MinPrio => 0,
            priorityConstants::seL4_MaxPrio => 255,
        }
    }
}

// ---------------------------------------------------------------------------
// Capabilities
// ---------------------------------------------------------------------------

/// The type tag of a capability.
pub open spec fn spec_cap_type(c: cap_t) -> u64 {
    (c.words[0] >> 59u64) & 0x1fu64
}

/// The number of index bits that a CNode capability resolves.
pub open spec fn spec_cnode_radix(c: cap_t) -> u64 {
    (c.words[0] & 0x1f800000000000u64) >> 47u64
}

/// The number of guard bits of a CNode capability.
pub open spec fn spec_cnode_guard_size(c: cap_t) -> u64 {
    (c.words[0] & 0x7e0000000000000u64) >> 53u64
}

/// The guard of a CNode capability.
pub open spec fn spec_cnode_guard(c: cap_t) -> u64 {
    c.words[1]
}

/// The address of the slot array that a CNode capability names.
pub open spec fn spec_cnode_ptr(c: cap_t) -> u64 {
    sign_extend_48(((c.words[0] & 0x7fffffffffffu64) << 1u64) as u64)
}

/// The address of the notification object that a notification capability names.
pub open spec fn spec_cap_ntfn_ptr(c: cap_t) -> u64 {
    sign_extend_39(c.words[0] & 0x7fffffffffu64)
}

/// The null capability.
pub open spec fn spec_cap_null_cap() -> cap_t {
    cap { words: [0u64, 0u64] }
}

pub fn cap_null_cap_new() -> (ret: cap_t)
    ensures
        ret == spec_cap_null_cap(),
        spec_cap_type(ret) == cap_null_cap,
{
    let ret = cap { words: [0u64, 0u64] };
    proof {
        lemma_constant_fields();
    }
    ret
}

pub fn cap_get_capType(c: cap_t) -> (ret: u64)
    ensures
        ret == spec_cap_type(c),
        ret < 32,
{
    let w = c.words[0];
    proof {
        lemma_field_ranges(w);
    }
    (w >> 59u64) & 0x1fu64
}

pub fn cap_cnode_cap_get_capCNodeRadix(c: cap_t) -> (ret: u64)
    ensures
        ret == spec_cnode_radix(c),
        ret < 64,
{
    let w = c.words[0];
    proof {
        lemma_field_ranges(w);
    }
    (w & 0x1f800000000000u64) >> 47u64
}

pub fn cap_cnode_cap_get_capCNodeGuardSize(c: cap_t) -> (ret: u64)
    ensures
        ret == spec_cnode_guard_size(c),
        ret < 64,
{
    let w = c.words[0];
    proof {
        lemma_field_ranges(w);
    }
    (w & 0x7e0000000000000u64) >> 53u64
}

pub fn cap_cnode_cap_get_capCNodeGuard(c: cap_t) -> (ret: u64)
    ensures
        ret == spec_cnode_guard(c),
{
    c.words[1]
}

pub fn cap_cnode_cap_get_capCNodePtr(c: cap_t) -> (ret: u64)
    ensures
        ret == spec_cnode_ptr(c),
{
    let mut ret: u64 = (c.words[0] & 0x7fffffffffffu64) << 1u64;
    if ret & 0x800000000000u64 != 0 {
        ret = ret | 0xffff000000000000u64;
    }
    ret
}

pub fn cap_notification_cap_get_capNtfnPtr(c: cap_t) -> (ret: u64)
    ensures
        ret == spec_cap_ntfn_ptr(c),
{
    let mut ret: u64 = c.words[0] & 0x7fffffffffu64;
    if ret & 0x4000000000u64 != 0 {
        ret = ret | 0xffffff8000000000u64;
    }
    ret
}

/// The address of the TCB that a thread capability names.
pub open spec fn spec_cap_tcb_ptr(c: cap_t) -> u64 {
    sign_extend_39(c.words[0] & 0x7fffffffffu64)
}

pub fn cap_thread_cap_get_capTCBPtr(c: cap_t) -> (ret: u64)
    ensures
        ret == spec_cap_tcb_ptr(c),
{
    let mut ret: u64 = c.words[0] & 0x7fffffffffu64;
    if ret & 0x4000000000u64 != 0 {
        ret = ret | 0xffffff8000000000u64;
    }
    ret
}

// Zombie capabilities: the second word holds the zombie's identifier (the
// address of its slots with, in the low bits, how many remain), the low
// seven bits of the first word its kind: `ZombieType_ZombieTCB` for the
// slots of a thread, otherwise the radix of a CNode.

/// The kind of zombie that stands for the slots of a thread.
pub const ZombieType_ZombieTCB: u64 = 64;

/// The radix of the slots of a thread.
pub const TCB_CNODE_RADIX: u64 = 4;

/// The kind of a zombie capability.
pub open spec fn spec_zombie_type(c: cap_t) -> u64 {
    c.words[0] & 0x7fu64
}

/// The radix of the slots that a zombie capability stands for.
pub open spec fn spec_zombie_bits(c: cap_t) -> u64 {
    if spec_zombie_type(c) == ZombieType_ZombieTCB {
        TCB_CNODE_RADIX
    } else {
        spec_zombie_type(c) & 0x3fu64
    }
}

/// The mask of the low bits of a zombie's identifier that hold its count.
pub open spec fn spec_zombie_mask(c: cap_t) -> u64 {
    ((1u64 << ((spec_zombie_bits(c) + 1) as u64)) - 1) as u64
}

/// The number of slots that a zombie capability still holds.
pub open spec fn spec_zombie_number(c: cap_t) -> u64 {
    c.words[1] & spec_zombie_mask(c)
}

/// The address of the first slot that a zombie capability stands for.
pub open spec fn spec_zombie_ptr(c: cap_t) -> u64 {
    c.words[1] & !spec_zombie_mask(c)
}

pub fn cap_zombie_cap_get_capZombieType(c: cap_t) -> (ret: u64)
    ensures
        ret == spec_zombie_type(c),
{
    c.words[0] & 0x7fu64
}

pub fn cap_zombie_cap_get_capZombieBits(c: cap_t) -> (ret: u64)
    ensures
        ret == spec_zombie_bits(c),
{
    let t = cap_zombie_cap_get_capZombieType(c);
    if t == ZombieType_ZombieTCB {
        TCB_CNODE_RADIX
    } else {
        t & 0x3fu64
    }
}

/// A mask of the low `r + 1` bits.
fn zombie_mask(r: u64) -> (ret: u64)
    requires
        r < 63,
    ensures
        ret == ((1u64 << ((r + 1) as u64)) - 1) as u64,
{
    let r1: u64 = r + 1;
    assert(1u64 << r1 >= 1u64) by (bit_vector)
        requires
            r1 < 64,
    ;
    (1u64 << r1) - 1
}

pub fn cap_zombie_cap_get_capZombieNumber(c: cap_t) -> (ret: u64)
    requires
        spec_zombie_bits(c) < 63,
    ensures
        ret == spec_zombie_number(c),
{
    let radix = cap_zombie_cap_get_capZombieBits(c);
    c.words[1] & zombie_mask(radix)
}

pub fn cap_zombie_cap_get_capZombiePtr(c: cap_t) -> (ret: u64)
    requires
        spec_zombie_bits(c) < 63,
    ensures
        ret == spec_zombie_ptr(c),
{
    let radix = cap_zombie_cap_get_capZombieBits(c);
    c.words[1] & !zombie_mask(radix)
}

/// The zombie capability `c` holding `n` slots.
pub open spec fn spec_zombie_set_number(c: cap_t, n: u64) -> cap_t {
    cap { words: [c.words[0], spec_zombie_ptr(c) | (n & spec_zombie_mask(c))] }
}

pub fn cap_zombie_cap_set_capZombieNumber(c: cap_t, n: u64) -> (ret: cap_t)
    requires
        spec_zombie_bits(c) < 63,
    ensures
        ret == spec_zombie_set_number(c, n),
{
    let radix = cap_zombie_cap_get_capZombieBits(c);
    let ptr = c.words[1] & !zombie_mask(radix);
    cap { words: [c.words[0], ptr | (n & zombie_mask(radix))] }
}

// Endpoint capabilities: the second word holds the badge; the first word
// holds the type, the rights to grant replies (bit 58), to grant (bit 57),
// to receive (bit 56) and to send (bit 55), and the endpoint's address.

/// The badge of an endpoint capability.
pub open spec fn spec_cap_ep_badge(c: cap_t) -> u64 {
    c.words[1]
}

/// The address of the endpoint that an endpoint capability names.
pub open spec fn spec_cap_ep_ptr(c: cap_t) -> u64 {
    sign_extend_39(c.words[0] & 0x7fffffffffu64)
}

/// Bit `b` of the first word of a capability.
pub open spec fn spec_cap_bit(c: cap_t, b: u64) -> u64 {
    (c.words[0] >> b) & 1u64
}

pub fn cap_endpoint_cap_get_capEPBadge(c: cap_t) -> (ret: u64)
    ensures
        ret == spec_cap_ep_badge(c),
{
    c.words[1]
}

pub fn cap_endpoint_cap_get_capEPPtr(c: cap_t) -> (ret: u64)
    ensures
        ret == spec_cap_ep_ptr(c),
{
    let mut ret: u64 = c.words[0] & 0x7fffffffffu64;
    if ret & 0x4000000000u64 != 0 {
        ret = ret | 0xffffff8000000000u64;
    }
    ret
}

pub fn cap_endpoint_cap_get_capCanGrantReply(c: cap_t) -> (ret: u64)
    ensures
        ret == spec_cap_bit(c, 58),
{
    (c.words[0] >> 58u64) & 1u64
}

pub fn cap_endpoint_cap_get_capCanGrant(c: cap_t) -> (ret: u64)
    ensures
        ret == spec_cap_bit(c, 57),
{
    (c.words[0] >> 57u64) & 1u64
}

pub fn cap_endpoint_cap_get_capCanReceive(c: cap_t) -> (ret: u64)
    ensures
        ret == spec_cap_bit(c, 56),
{
    (c.words[0] >> 56u64) & 1u64
}

pub fn cap_endpoint_cap_get_capCanSend(c: cap_t) -> (ret: u64)
    ensures
        ret == spec_cap_bit(c, 55),
{
    (c.words[0] >> 55u64) & 1u64
}

/// The badge of a notification capability: its second word.
pub open spec fn spec_cap_ntfn_badge(c: cap_t) -> u64 {
    c.words[1]
}

pub fn cap_notification_cap_get_capNtfnBadge(c: cap_t) -> (ret: u64)
    ensures
        ret == spec_cap_ntfn_badge(c),
{
    c.words[1]
}

// Untyped capabilities: the first word holds the type and the address of the
// memory block; the second word holds the free index (bits 16 and up),
// whether the block is device memory (bit 6) and the log2 size of the block
// (bits 0 to 5).

/// The address of the memory block that an untyped capability names.
pub open spec fn spec_cap_untyped_ptr(c: cap_t) -> u64 {
    sign_extend_39(c.words[0] & 0x7fffffffffu64)
}

/// The log2 size of the memory block that an untyped capability names.
pub open spec fn spec_cap_untyped_block_size(c: cap_t) -> u64 {
    c.words[1] & 0x3fu64
}

/// The untyped capability `c` with its free index set to `v`.
pub open spec fn spec_cap_untyped_set_free_index(c: cap_t, v: u64) -> cap_t {
    cap {
        words: [c.words[0], (c.words[1] & !0xffffffffffff0000u64) | ((v << 16u64) & 0xffffffffffff0000u64)],
    }
}

pub fn cap_untyped_cap_get_capPtr(c: cap_t) -> (ret: u64)
    ensures
        ret == spec_cap_untyped_ptr(c),
{
    let mut ret: u64 = c.words[0] & 0x7fffffffffu64;
    if ret & 0x4000000000u64 != 0 {
        ret = ret | 0xffffff8000000000u64;
    }
    ret
}

pub fn cap_untyped_cap_get_capBlockSize(c: cap_t) -> (ret: u64)
    ensures
        ret == spec_cap_untyped_block_size(c),
        ret < 64,
{
    proof {
        lemma_field_ranges(c.words[1]);
    }
    c.words[1] & 0x3fu64
}

pub fn cap_untyped_cap_ptr_set_capFreeIndex(c: &mut cap_t, v64: u64)
    ensures
        *final(c) == spec_cap_untyped_set_free_index(*old(c), v64),
{
    let w = c.words;
    c.words = [w[0], (w[1] & !0xffffffffffff0000u64) | ((v64 << 16u64) & 0xffffffffffff0000u64)];
}

// Top-level page-table capabilities: the second word holds the table's
// address; the first word holds the type, whether the table is mapped
// (bit 58) and the address-space identifier it is mapped under (bits 0 to
// 11).

/// The address of the page table that a top-level page-table capability names.
pub open spec fn spec_cap_pml4_base_ptr(c: cap_t) -> u64 {
    c.words[1]
}

/// The address-space identifier of a top-level page-table capability.
pub open spec fn spec_cap_pml4_mapped_asid(c: cap_t) -> u64 {
    c.words[0] & 0xfffu64
}

pub fn cap_pml4_cap_get_capPML4BasePtr(c: cap_t) -> (ret: u64)
    ensures
        ret == spec_cap_pml4_base_ptr(c),
{
    c.words[1]
}

pub fn cap_pml4_cap_get_capPML4IsMapped(c: cap_t) -> (ret: u64)
    ensures
        ret == spec_cap_bit(c, 58),
{
    (c.words[0] >> 58u64) & 1u64
}

pub fn cap_pml4_cap_get_capPML4MappedASID(c: cap_t) -> (ret: u64)
    ensures
        ret == spec_cap_pml4_mapped_asid(c),
{
    c.words[0] & 0xfffu64
}

/// The reply capability to the thread at `capTCBPtr`: the second word holds
/// the address; the first word holds the type, whether the reply may grant
/// (bit 1) and whether this is the thread's master reply capability (bit 0).
pub open spec fn spec_cap_reply_cap(capReplyCanGrant: u64, capReplyMaster: u64, capTCBPtr: u64) -> cap_t {
    cap {
        words: [
            (cap_reply_cap << 59u64) | ((capReplyCanGrant & 1u64) << 1u64) | (capReplyMaster & 1u64),
            capTCBPtr,
        ],
    }
}

pub fn cap_reply_cap_new(capReplyCanGrant: u64, capReplyMaster: u64, capTCBPtr: u64) -> (ret: cap_t)
    ensures
        ret == spec_cap_reply_cap(capReplyCanGrant, capReplyMaster, capTCBPtr),
        spec_cap_type(ret) == cap_reply_cap,
{
    assert((((8u64 << 59u64) | ((capReplyCanGrant & 1u64) << 1u64) | (capReplyMaster & 1u64))
        >> 59u64) & 0x1fu64 == 8u64) by (bit_vector);
    cap {
        words: [
            (cap_reply_cap << 59u64) | ((capReplyCanGrant & 1u64) << 1u64) | (capReplyMaster & 1u64),
            capTCBPtr,
        ],
    }
}

/// Whether a reply capability is its thread's master reply capability.
pub open spec fn spec_cap_reply_master(c: cap_t) -> u64 {
    c.words[0] & 1u64
}

/// The thread that a reply capability replies to.
pub open spec fn spec_cap_reply_tcb_ptr(c: cap_t) -> u64 {
    c.words[1]
}

pub fn cap_reply_cap_get_capReplyMaster(c: cap_t) -> (ret: u64)
    ensures
        ret == spec_cap_reply_master(c),
{
    c.words[0] & 1u64
}

pub fn cap_reply_cap_get_capTCBPtr(c: cap_t) -> (ret: u64)
    ensures
        ret == spec_cap_reply_tcb_ptr(c),
{
    c.words[1]
}

// ---------------------------------------------------------------------------
// Lookup faults
// ---------------------------------------------------------------------------

/// The kind of a lookup fault.
pub open spec fn spec_lookup_fault_type(f: lookup_fault_t) -> u64 {
    f.words[0] & 0x3u64
}

/// Field `bitsFound` of a depth-mismatch fault.
pub open spec fn spec_depth_mismatch_bits_found(f: lookup_fault_t) -> u64 {
    (f.words[0] >> 9u64) & 0x7fu64
}

/// Field `bitsLeft` of a depth-mismatch fault.
pub open spec fn spec_depth_mismatch_bits_left(f: lookup_fault_t) -> u64 {
    (f.words[0] >> 2u64) & 0x7fu64
}

/// Field `bitsLeft` of a guard-mismatch fault.
pub open spec fn spec_guard_mismatch_bits_left(f: lookup_fault_t) -> u64 {
    (f.words[0] >> 9u64) & 0x7fu64
}

/// Field `bitsFound` of a guard-mismatch fault.
pub open spec fn spec_guard_mismatch_bits_found(f: lookup_fault_t) -> u64 {
    (f.words[0] >> 2u64) & 0x7fu64
}

/// Field `guardFound` of a guard-mismatch fault.
pub open spec fn spec_guard_mismatch_guard_found(f: lookup_fault_t) -> u64 {
    f.words[1]
}

/// The invalid-root lookup fault.
pub open spec fn spec_lookup_fault_invalid_root() -> lookup_fault_t {
    lookup_fault { words: [0u64, 0u64] }
}

/// The depth-mismatch lookup fault with the given fields.
pub open spec fn spec_lookup_fault_depth_mismatch(bitsFound: u64, bitsLeft: u64) -> lookup_fault_t {
    lookup_fault {
        words: [
            ((bitsFound & 0x7fu64) << 9u64) | ((bitsLeft & 0x7fu64) << 2u64) | 2u64,
            0u64,
        ],
    }
}

/// The guard-mismatch lookup fault with the given fields.
pub open spec fn spec_lookup_fault_guard_mismatch(
    guardFound: u64,
    bitsLeft: u64,
    bitsFound: u64,
) -> lookup_fault_t {
    lookup_fault {
        words: [
            ((bitsLeft & 0x7fu64) << 9u64) | ((bitsFound & 0x7fu64) << 2u64) | 3u64,
            guardFound,
        ],
    }
}

pub fn lookup_fault_invalid_root_new() -> (ret: lookup_fault_t)
    ensures
        ret == spec_lookup_fault_invalid_root(),
        spec_lookup_fault_type(ret) == lookup_fault_invalid_root,
{
    proof {
        lemma_constant_fields();
    }
    lookup_fault { words: [0u64, 0u64] }
}

pub fn lookup_fault_depth_mismatch_new(bitsFound: u64, bitsLeft: u64) -> (ret: lookup_fault_t)
    ensures
        ret == spec_lookup_fault_depth_mismatch(bitsFound, bitsLeft),
        spec_lookup_fault_type(ret) == lookup_fault_depth_mismatch,
        spec_depth_mismatch_bits_found(ret) == bitsFound & 0x7f,
        spec_depth_mismatch_bits_left(ret) == bitsLeft & 0x7f,
{
    let w0: u64 = ((bitsFound & 0x7fu64) << 9u64) | ((bitsLeft & 0x7fu64) << 2u64) | 2u64;
    assert(w0 & 0x3u64 == 2 && (w0 >> 9u64) & 0x7fu64 == bitsFound & 0x7f && (w0 >> 2u64)
        & 0x7fu64 == bitsLeft & 0x7f) by (bit_vector)
        requires
            w0 == ((bitsFound & 0x7fu64) << 9u64) | ((bitsLeft & 0x7fu64) << 2u64) | 2u64,
    ;
    lookup_fault { words: [w0, 0u64] }
}

pub fn lookup_fault_guard_mismatch_new(guardFound: u64, bitsLeft: u64, bitsFound: u64) -> (ret:
    lookup_fault_t)
    ensures
        ret == spec_lookup_fault_guard_mismatch(guardFound, bitsLeft, bitsFound),
        spec_lookup_fault_type(ret) == lookup_fault_guard_mismatch,
        spec_guard_mismatch_bits_left(ret) == bitsLeft & 0x7f,
        spec_guard_mismatch_bits_found(ret) == bitsFound & 0x7f,
        spec_guard_mismatch_guard_found(ret) == guardFound,
{
    let w0: u64 = ((bitsLeft & 0x7fu64) << 9u64) | ((bitsFound & 0x7fu64) << 2u64) | 3u64;
    assert(w0 & 0x3u64 == 3 && (w0 >> 9u64) & 0x7fu64 == bitsLeft & 0x7f && (w0 >> 2u64)
        & 0x7fu64 == bitsFound & 0x7f) by (bit_vector)
        requires
            w0 == ((bitsLeft & 0x7fu64) << 9u64) | ((bitsFound & 0x7fu64) << 2u64) | 3u64,
    ;
    lookup_fault { words: [w0, guardFound] }
}

// ---------------------------------------------------------------------------
// Notifications
// ---------------------------------------------------------------------------

/// The state field of a notification.
pub open spec fn spec_ntfn_state(n: notification_t) -> u64 {
    n.words[0] & 0x3u64
}

/// The queue tail field of a notification, sign-extended.
pub open spec fn spec_ntfn_queue_tail(n: notification_t) -> u64 {
    sign_extend_39((n.words[0] & 0xfffffffffe000000u64) >> 25u64)
}

/// The queue head of a notification, sign-extended from the second word.
pub open spec fn spec_ntfn_queue_head(n: notification_t) -> u64 {
    sign_extend_39(n.words[1] & 0x7fffffffffu64)
}

/// The badge that an active notification has accumulated.
pub open spec fn spec_ntfn_msg_identifier(n: notification_t) -> u64 {
    n.words[2]
}

/// The TCB bound to a notification, sign-extended.
pub open spec fn spec_ntfn_bound_tcb(n: notification_t) -> u64 {
    sign_extend_39(n.words[3] & 0x7fffffffffu64)
}

pub open spec fn spec_ntfn_set_state(n: notification_t, v: u64) -> notification_t {
    notification {
        words: [(n.words[0] & !0x3u64) | (v & 0x3u64), n.words[1], n.words[2], n.words[3]],
    }
}

pub open spec fn spec_ntfn_set_queue_head(n: notification_t, v: u64) -> notification_t {
    notification {
        words: [
            n.words[0],
            (n.words[1] & !0x7fffffffffu64) | (v & 0x7fffffffffu64),
            n.words[2],
            n.words[3],
        ],
    }
}

pub open spec fn spec_ntfn_set_queue_tail(n: notification_t, v: u64) -> notification_t {
    notification {
        words: [
            (n.words[0] & !0xfffffffffe000000u64) | ((v << 25u64) & 0xfffffffffe000000u64),
            n.words[1],
            n.words[2],
            n.words[3],
        ],
    }
}

pub open spec fn spec_ntfn_set_msg_identifier(n: notification_t, v: u64) -> notification_t {
    notification { words: [n.words[0], n.words[1], v, n.words[3]] }
}

pub open spec fn spec_ntfn_set_bound_tcb(n: notification_t, v: u64) -> notification_t {
    notification {
        words: [
            n.words[0],
            n.words[1],
            n.words[2],
            (n.words[3] & !0x7fffffffffu64) | (v & 0x7fffffffffu64),
        ],
    }
}

pub fn notification_ptr_set_state(notification_ptr: &mut notification_t, v64: u64)
    ensures
        *final(notification_ptr) == spec_ntfn_set_state(*old(notification_ptr), v64),
{
    let w = notification_ptr.words;
    notification_ptr.words = [(w[0] & !0x3u64) | (v64 & 0x3u64), w[1], w[2], w[3]];
}

pub fn notification_ptr_get_state(notification_ptr: &notification_t) -> (ret: u64)
    ensures
        ret == spec_ntfn_state(*notification_ptr),
        ret < 4,
{
    let w = notification_ptr.words[0];
    proof {
        lemma_field_ranges(w);
    }
    w & 0x3u64
}

pub fn notification_ptr_get_ntfnQueue_head(notification_ptr: &notification_t) -> (ret: u64)
    ensures
        ret == spec_ntfn_queue_head(*notification_ptr),
{
    let mut ret: u64 = notification_ptr.words[1] & 0x7fffffffffu64;
    if ret & 0x4000000000u64 != 0 {
        ret = ret | 0xffffff8000000000u64;
    }
    ret
}

pub fn notification_ptr_set_ntfnQueue_head(notification_ptr: &mut notification_t, v64: u64)
    ensures
        *final(notification_ptr) == spec_ntfn_set_queue_head(*old(notification_ptr), v64),
{
    let w = notification_ptr.words;
    notification_ptr.words = [w[0], (w[1] & !0x7fffffffffu64) | (v64 & 0x7fffffffffu64), w[2], w[3]];
}

pub fn notification_ptr_get_ntfnQueue_tail(notification_ptr: &notification_t) -> (ret: u64)
    ensures
        ret == spec_ntfn_queue_tail(*notification_ptr),
{
    let mut ret: u64 = (notification_ptr.words[0] & 0xfffffffffe000000u64) >> 25u64;
    if ret & 0x4000000000u64 != 0 {
        ret = ret | 0xffffff8000000000u64;
    }
    ret
}

pub fn notification_ptr_set_ntfnQueue_tail(notification_ptr: &mut notification_t, v64: u64)
    ensures
        *final(notification_ptr) == spec_ntfn_set_queue_tail(*old(notification_ptr), v64),
{
    let w = notification_ptr.words;
    notification_ptr.words = [
        (w[0] & !0xfffffffffe000000u64) | ((v64 << 25u64) & 0xfffffffffe000000u64),
        w[1],
        w[2],
        w[3],
    ];
}

pub fn notification_ptr_get_ntfnBoundTCB(notification_ptr: &notification_t) -> (ret: u64)
    ensures
        ret == spec_ntfn_bound_tcb(*notification_ptr),
{
    let mut ret: u64 = notification_ptr.words[3] & 0x7fffffffffu64;
    if ret & 0x4000000000u64 != 0 {
        ret = ret | 0xffffff8000000000u64;
    }
    ret
}

pub fn notification_ptr_set_ntfnBoundTCB(notification_ptr: &mut notification_t, v64: u64)
    ensures
        *final(notification_ptr) == spec_ntfn_set_bound_tcb(*old(notification_ptr), v64),
{
    let w = notification_ptr.words;
    notification_ptr.words = [w[0], w[1], w[2], (w[3] & !0x7fffffffffu64) | (v64 & 0x7fffffffffu64)];
}

pub fn notification_ptr_get_ntfnMsgIdentifier(notification_ptr: &notification_t) -> (ret: u64)
    ensures
        ret == spec_ntfn_msg_identifier(*notification_ptr),
{
    notification_ptr.words[2]
}

pub fn notification_ptr_set_ntfnMsgIdentifier(notification_ptr: &mut notification_t, v64: u64)
    ensures
        *final(notification_ptr) == spec_ntfn_set_msg_identifier(*old(notification_ptr), v64),
{
    let w = notification_ptr.words;
    notification_ptr.words = [w[0], w[1], v64, w[3]];
}

// ---------------------------------------------------------------------------
// Thread states
// ---------------------------------------------------------------------------

/// The kind of state a thread is in.
pub open spec fn spec_ts_type(ts: thread_state_t) -> u64 {
    ts.words[0] & 0xfu64
}

/// The object a blocked thread waits on, sign-extended.
pub open spec fn spec_ts_blocking_object(ts: thread_state_t) -> u64 {
    sign_extend_39(ts.words[0] & 0x7ffffffff0u64)
}

/// Whether the thread is in a ready queue.
pub open spec fn spec_ts_tcb_queued(ts: thread_state_t) -> u64 {
    ts.words[1] & 0x1u64
}

pub open spec fn spec_ts_set_ts_type(ts: thread_state_t, v: u64) -> thread_state_t {
    thread_state { words: [(ts.words[0] & !0xfu64) | (v & 0xfu64), ts.words[1], ts.words[2]] }
}

pub open spec fn spec_ts_set_blocking_object(ts: thread_state_t, v: u64) -> thread_state_t {
    thread_state {
        words: [
            (ts.words[0] & !0x7ffffffff0u64) | (v & 0x7ffffffff0u64),
            ts.words[1],
            ts.words[2],
        ],
    }
}

pub open spec fn spec_ts_set_tcb_queued(ts: thread_state_t, v: u64) -> thread_state_t {
    thread_state { words: [ts.words[0], (ts.words[1] & !0x1u64) | (v & 0x1u64), ts.words[2]] }
}

pub fn thread_state_ptr_get_tsType(thread_state_ptr: &thread_state_t) -> (ret: u64)
    ensures
        ret == spec_ts_type(*thread_state_ptr),
        ret < 16,
{
    let w = thread_state_ptr.words[0];
    proof {
        lemma_field_ranges(w);
    }
    w & 0xfu64
}

/// Writes the state kind into the low four bits of the first word, the bits
/// that `thread_state_ptr_get_tsType` reads.
pub fn thread_state_ptr_set_tsType(thread_state_ptr: &mut thread_state_t, v64: u64)
    ensures
        *final(thread_state_ptr) == spec_ts_set_ts_type(*old(thread_state_ptr), v64),
{
    let w = thread_state_ptr.words;
    thread_state_ptr.words = [(w[0] & !0xfu64) | (v64 & 0xfu64), w[1], w[2]];
}

/// Reads the blocking object: the bits that
/// `thread_state_ptr_set_blockingObject` writes, sign-extended.
pub fn thread_state_ptr_get_blockingObject(thread_state_ptr: &thread_state_t) -> (ret: u64)
    ensures
        ret == spec_ts_blocking_object(*thread_state_ptr),
{
    let mut ret: u64 = thread_state_ptr.words[0] & 0x7ffffffff0u64;
    if ret & 0x4000000000u64 != 0 {
        ret = ret | 0xffffff8000000000u64;
    }
    ret
}

pub fn thread_state_ptr_set_blockingObject(thread_state_ptr: &mut thread_state_t, v64: u64)
    ensures
        *final(thread_state_ptr) == spec_ts_set_blocking_object(*old(thread_state_ptr), v64),
{
    let w = thread_state_ptr.words;
    thread_state_ptr.words = [(w[0] & !0x7ffffffff0u64) | (v64 & 0x7ffffffff0u64), w[1], w[2]];
}

/// Reads the ready-queue flag: the lowest bit of the second word.
pub fn thread_state_get_tcbQueued(ts: &thread_state_t) -> (ret: u64)
    ensures
        ret == spec_ts_tcb_queued(*ts),
        ret < 2,
{
    let w = ts.words[1];
    proof {
        lemma_field_ranges(w);
    }
    w & 0x1u64
}

/// Whether the thread, blocked on an endpoint, may be granted capabilities:
/// bit 3 of the second word.
pub open spec fn spec_ts_ipc_can_grant(ts: thread_state_t) -> u64 {
    (ts.words[1] >> 3u64) & 1u64
}

pub open spec fn spec_ts_set_ipc_can_grant(ts: thread_state_t, v: u64) -> thread_state_t {
    thread_state { words: [ts.words[0], (ts.words[1] & !0x8u64) | ((v << 3u64) & 0x8u64), ts.words[2]] }
}

pub fn thread_state_ptr_get_blockingIPCCanGrant(thread_state_ptr: &thread_state_t) -> (ret: u64)
    ensures
        ret == spec_ts_ipc_can_grant(*thread_state_ptr),
{
    (thread_state_ptr.words[1] >> 3u64) & 1u64
}

pub fn thread_state_ptr_set_blockingIPCCanGrant(thread_state_ptr: &mut thread_state_t, v64: u64)
    ensures
        *final(thread_state_ptr) == spec_ts_set_ipc_can_grant(*old(thread_state_ptr), v64),
{
    let w = thread_state_ptr.words;
    thread_state_ptr.words = [w[0], (w[1] & !0x8u64) | ((v64 << 3u64) & 0x8u64), w[2]];
}

/// Writes the ready-queue flag: the lowest bit of the second word.
pub fn thread_state_ptr_set_tcbQueued(thread_state_ptr: &mut thread_state_t, v64: u64)
    ensures
        *final(thread_state_ptr) == spec_ts_set_tcb_queued(*old(thread_state_ptr), v64),
{
    let w = thread_state_ptr.words;
    thread_state_ptr.words = [w[0], (w[1] & !0x1u64) | (v64 & 0x1u64), w[2]];
}

// ---------------------------------------------------------------------------
// Endpoints and mapping-database nodes
// ---------------------------------------------------------------------------

/// The head of an endpoint's queue.
pub open spec fn spec_ep_queue_head(e: endpoint_t) -> u64 {
    e.words[1]
}

/// The tail of an endpoint's queue, sign-extended.
pub open spec fn spec_ep_queue_tail(e: endpoint_t) -> u64 {
    sign_extend_39(e.words[0] & 0x7ffffffffcu64)
}

/// The state of an endpoint.
pub open spec fn spec_ep_state(e: endpoint_t) -> u64 {
    e.words[0] & 0x3u64
}

pub open spec fn spec_ep_set_queue_head(e: endpoint_t, v: u64) -> endpoint_t {
    endpoint { words: [e.words[0], v] }
}

pub open spec fn spec_ep_set_queue_tail(e: endpoint_t, v: u64) -> endpoint_t {
    endpoint { words: [(e.words[0] & !0x7ffffffffcu64) | (v & 0x7ffffffffcu64), e.words[1]] }
}

pub open spec fn spec_ep_set_state(e: endpoint_t, v: u64) -> endpoint_t {
    endpoint { words: [(e.words[0] & !0x3u64) | (v & 0x3u64), e.words[1]] }
}

pub fn endpoint_ptr_get_epQueue_head(endpoint_ptr: &endpoint_t) -> (ret: u64)
    ensures
        ret == spec_ep_queue_head(*endpoint_ptr),
{
    endpoint_ptr.words[1]
}

pub fn endpoint_ptr_get_state(endpoint_ptr: &endpoint_t) -> (ret: u64)
    ensures
        ret == spec_ep_state(*endpoint_ptr),
{
    endpoint_ptr.words[0] & 0x3u64
}

pub fn endpoint_ptr_get_epQueue_tail(endpoint_ptr: &endpoint_t) -> (ret: u64)
    ensures
        ret == spec_ep_queue_tail(*endpoint_ptr),
{
    let mut ret: u64 = endpoint_ptr.words[0] & 0x7ffffffffcu64;
    if ret & 0x4000000000u64 != 0 {
        ret = ret | 0xffffff8000000000u64;
    }
    ret
}

pub fn endpoint_ptr_set_epQueue_head(endpoint_ptr: &mut endpoint_t, v64: u64)
    ensures
        *final(endpoint_ptr) == spec_ep_set_queue_head(*old(endpoint_ptr), v64),
{
    let w = endpoint_ptr.words;
    endpoint_ptr.words = [w[0], v64];
}

pub fn endpoint_ptr_set_epQueue_tail(endpoint_ptr: &mut endpoint_t, v64: u64)
    ensures
        *final(endpoint_ptr) == spec_ep_set_queue_tail(*old(endpoint_ptr), v64),
{
    let w = endpoint_ptr.words;
    endpoint_ptr.words = [(w[0] & !0x7ffffffffcu64) | (v64 & 0x7ffffffffcu64), w[1]];
}

pub fn endpoint_ptr_set_state(endpoint_ptr: &mut endpoint_t, v64: u64)
    ensures
        *final(endpoint_ptr) == spec_ep_set_state(*old(endpoint_ptr), v64),
{
    let w = endpoint_ptr.words;
    endpoint_ptr.words = [(w[0] & !0x3u64) | (v64 & 0x3u64), w[1]];
}

/// The next entry in the mapping database, sign-extended.
pub open spec fn spec_mdb_next(m: mdb_node_t) -> u64 {
    sign_extend_39(m.words[1] & 0x7ffffffffcu64)
}

pub fn mdb_node_get_mdbNext(mdb_nod: mdb_node_t) -> (ret: u64)
    ensures
        ret == spec_mdb_next(mdb_nod),
{
    let mut ret: u64 = mdb_nod.words[1] & 0x7ffffffffcu64;
    if ret & 0x4000000000u64 != 0 {
        ret = ret | 0xffffff8000000000u64;
    }
    ret
}

// ---------------------------------------------------------------------------
// Further enumerations and constructors
// ---------------------------------------------------------------------------

/// The state of an endpoint.
#[derive(Clone, Copy, PartialEq, Eq, Structural)]
pub enum endpoint_state {
    EPState_Idle,
    EPState_Send,
    EPState_Recv,
}

pub type endpoint_state_t = word_t;

pub const EPState_Idle: u64 = 0;
pub const EPState_Send: u64 = 1;
pub const EPState_Recv: u64 = 2;

/// The system calls.
#[derive(Clone, Copy, PartialEq, Eq, Structural)]
pub enum syscall {
    SysCall,
    SysReplyRecv,
    SysSend,
    SysNBSend,
    SysRecv,
    SysReply,
    SysYield,
    SysNBRecv,
}

impl syscall {
    pub open spec fn spec_value(self) -> i64 {
        match self {
            syscall::SysCall => -1i64,
            syscall::SysReplyRecv => -2i64,
            syscall::SysSend => -3i64,
            syscall::SysNBSend => -4i64,
            syscall::SysRecv => -5i64,
            syscall::SysReply => -6i64,
            syscall::SysYield => -7i64,
            syscall::SysNBRecv => -8i64,
        }
    }

    /// The number by which user level names the system call.
    pub fn value(self) -> (r: i64)
        ensures
            r == self.spec_value(),
    {
        match self {
            syscall::SysCall => -1i64,
            syscall::SysReplyRecv => -2i64,
            syscall::SysSend => -3i64,
            syscall::SysNBSend => -4i64,
            syscall::SysRecv => -5i64,
            syscall::SysReply => -6i64,
            syscall::SysYield => -7i64,
            syscall::SysNBRecv => -8i64,
        }
    }
}

/// Kinds of fault a thread can raise.
#[derive(Clone, Copy, PartialEq, Eq, Structural)]
pub enum seL4_Fault_tag {
    seL4_Fault_NullFault,
    seL4_Fault_CapFault,
    seL4_Fault_UnknownSyscall,
    seL4_Fault_UserException,
    seL4_Fault_VMFault,
}

pub const seL4_Fault_NullFault: u64 = 0;
pub const seL4_Fault_CapFault: u64 = 1;
pub const seL4_Fault_UnknownSyscall: u64 = 2;
pub const seL4_Fault_UserException: u64 = 3;
pub const seL4_Fault_VMFault: u64 = 5;

impl seL4_Fault_tag {
    pub open spec fn spec_word(self) -> u64 {
        match self {
            seL4_Fault_tag::seL4_Fault_NullFault => seL4_Fault_NullFault,
            seL4_Fault_tag::seL4_Fault_CapFault => seL4_Fault_CapFault,
            seL4_Fault_tag::seL4_Fault_UnknownSyscall => seL4_Fault_UnknownSyscall,
            seL4_Fault_tag::seL4_Fault_UserException => seL4_Fault_UserException,
            seL4_Fault_tag::seL4_Fault_VMFault => seL4_Fault_VMFault,
        }
    }

    /// The tag that a fault of this kind carries.
    pub fn word(self) -> (r: u64)
        ensures
            r == self.spec_word(),
    {
        match self {
            seL4_Fault_tag::seL4_Fault_NullFault => seL4_Fault_NullFault,
            seL4_Fault_tag::seL4_Fault_CapFault => seL4_Fault_CapFault,
            seL4_Fault_tag::seL4_Fault_UnknownSyscall => seL4_Fault_UnknownSyscall,
            seL4_Fault_tag::seL4_Fault_UserException => seL4_Fault_UserException,
            seL4_Fault_tag::seL4_Fault_VMFault => seL4_Fault_VMFault,
        }
    }
}

/// The scheduling domains.
#[derive(Clone, Copy, PartialEq, Eq, Structural)]
pub enum domainConstants {
    minDom,
    maxDom,
    numDomains,
}

impl domainConstants {
    pub open spec fn spec_value(self) -> u64 {
        match self {
            domainConstants::minDom => 0,
            domainConstants::maxDom => 0,
            domainConstants::numDomains => 1,
        }
    }

    /// The number that the constant stands for.
    pub fn value(self) -> (r: u64)
        ensures
            r == self.spec_value(),
    {
        match self {
            domainConstants::minDom => 0,
            domainConstants::maxDom => 0,
            domainConstants::numDomains => 1,
        }
    }
}

/// The null fault: no fault at all.
pub open spec fn spec_null_fault() -> seL4_Fault_t {
    seL4_Fault { words: [0u64, 0u64] }
}

/// Builds the null fault: both words zero, so its kind (the low bits of the
/// first word) is `seL4_Fault_NullFault`.
pub fn seL4_Fault_NullFault_new() -> (ret: seL4_Fault_t)
    ensures
        ret == spec_null_fault(),
{
    seL4_Fault { words: [0u64, 0u64] }
}

/// The kind of a fault: the low four bits of its first word.
pub open spec fn spec_fault_type(f: seL4_Fault_t) -> u64 {
    f.words[0] & 0xfu64
}

/// The capability fault at `address`: the second word holds the address, the
/// top bit of the first word whether it arose in the receive phase.
pub open spec fn spec_cap_fault(address: u64, inReceivePhase: u64) -> seL4_Fault_t {
    seL4_Fault { words: [((inReceivePhase & 1u64) << 63u64) | seL4_Fault_CapFault, address] }
}

/// Builds a capability fault.
pub fn seL4_Fault_CapFault_new(address: u64, inReceivePhase: u64) -> (ret: seL4_Fault_t)
    ensures
        ret == spec_cap_fault(address, inReceivePhase),
{
    seL4_Fault { words: [((inReceivePhase & 1u64) << 63u64) | seL4_Fault_CapFault, address] }
}

/// The kind of a fault.
pub fn seL4_Fault_get_seL4_FaultType(f: &seL4_Fault_t) -> (ret: u64)
    ensures
        ret == spec_fault_type(*f),
{
    f.words[0] & 0xfu64
}

// ---------------------------------------------------------------------------
// Message descriptors
// ---------------------------------------------------------------------------
//
// A message descriptor is one word: the label (bits 12 and up), the mask of
// extra capabilities that were unwrapped into badges (bits 9 to 11), the
// number of extra capabilities (bits 7 and 8) and the length of the message
// in message registers (bits 0 to 6).

/// The most message registers a message holds.
pub const seL4_MsgMaxLength: u64 = 120;

/// The most extra capabilities a message carries.
pub const seL4_MsgMaxExtraCaps: u64 = 3;

/// The length of a message, in message registers.
pub open spec fn spec_mi_length(mi: seL4_MessageInfo_t) -> u64 {
    mi.words[0] & 0x7fu64
}

/// The number of extra capabilities of a message.
pub open spec fn spec_mi_extra_caps(mi: seL4_MessageInfo_t) -> u64 {
    (mi.words[0] >> 7u64) & 0x3u64
}

/// The mask of extra capabilities that were unwrapped into badges.
pub open spec fn spec_mi_caps_unwrapped(mi: seL4_MessageInfo_t) -> u64 {
    (mi.words[0] >> 9u64) & 0x7u64
}

/// The label of a message.
pub open spec fn spec_mi_label(mi: seL4_MessageInfo_t) -> u64 {
    mi.words[0] >> 12u64
}

pub open spec fn spec_mi_set_length(mi: seL4_MessageInfo_t, v: u64) -> seL4_MessageInfo_t {
    seL4_MessageInfo { words: [(mi.words[0] & !0x7fu64) | (v & 0x7fu64)] }
}

pub open spec fn spec_mi_set_extra_caps(mi: seL4_MessageInfo_t, v: u64) -> seL4_MessageInfo_t {
    seL4_MessageInfo { words: [(mi.words[0] & !0x180u64) | ((v << 7u64) & 0x180u64)] }
}

pub open spec fn spec_mi_set_caps_unwrapped(mi: seL4_MessageInfo_t, v: u64) -> seL4_MessageInfo_t {
    seL4_MessageInfo { words: [(mi.words[0] & !0xe00u64) | ((v << 9u64) & 0xe00u64)] }
}


pub fn seL4_MessageInfo_get_length(mi: seL4_MessageInfo_t) -> (ret: u64)
    ensures
        ret == spec_mi_length(mi),
        ret < 128,
{
    proof {
        lemma_field_ranges(mi.words[0]);
    }
    mi.words[0] & 0x7fu64
}

pub fn seL4_MessageInfo_get_extraCaps(mi: seL4_MessageInfo_t) -> (ret: u64)
    ensures
        ret == spec_mi_extra_caps(mi),
        ret < 4,
{
    proof {
        lemma_field_ranges(mi.words[0]);
    }
    (mi.words[0] >> 7u64) & 0x3u64
}

pub fn seL4_MessageInfo_get_capsUnwrapped(mi: seL4_MessageInfo_t) -> (ret: u64)
    ensures
        ret == spec_mi_caps_unwrapped(mi),
        ret < 8,
{
    proof {
        lemma_field_ranges(mi.words[0]);
    }
    (mi.words[0] >> 9u64) & 0x7u64
}

pub fn seL4_MessageInfo_get_label(mi: seL4_MessageInfo_t) -> (ret: u64)
    ensures
        ret == spec_mi_label(mi),
{
    mi.words[0] >> 12u64
}

pub fn seL4_MessageInfo_set_length(mi: seL4_MessageInfo_t, v: u64) -> (ret: seL4_MessageInfo_t)
    ensures
        ret == spec_mi_set_length(mi, v),
{
    seL4_MessageInfo { words: [(mi.words[0] & !0x7fu64) | (v & 0x7fu64)] }
}

pub fn seL4_MessageInfo_set_extraCaps(mi: seL4_MessageInfo_t, v: u64) -> (ret: seL4_MessageInfo_t)
    ensures
        ret == spec_mi_set_extra_caps(mi, v),
{
    seL4_MessageInfo { words: [(mi.words[0] & !0x180u64) | ((v << 7u64) & 0x180u64)] }
}

pub fn seL4_MessageInfo_set_capsUnwrapped(mi: seL4_MessageInfo_t, v: u64) -> (ret:
    seL4_MessageInfo_t)
    ensures
        ret == spec_mi_set_caps_unwrapped(mi, v),
{
    seL4_MessageInfo { words: [(mi.words[0] & !0xe00u64) | ((v << 9u64) & 0xe00u64)] }
}

/// The descriptor with the given fields, each cut to its width.
pub open spec fn spec_mi_new(label: u64, capsUnwrapped: u64, extraCaps: u64, length: u64) -> seL4_MessageInfo_t {
    seL4_MessageInfo {
        words: [((label & 0xfffffffffffffu64) << 12u64) | ((capsUnwrapped & 0x7u64) << 9u64) | ((
        extraCaps & 0x3u64) << 7u64) | (length & 0x7fu64)],
    }
}

pub fn seL4_MessageInfo_new(label: u64, capsUnwrapped: u64, extraCaps: u64, length: u64) -> (ret:
    seL4_MessageInfo_t)
    ensures
        ret == spec_mi_new(label, capsUnwrapped, extraCaps, length),
{
    seL4_MessageInfo {
        words: [((label & 0xfffffffffffffu64) << 12u64) | ((capsUnwrapped & 0x7u64) << 9u64) | ((
        extraCaps & 0x3u64) << 7u64) | (length & 0x7fu64)],
    }
}

/// The descriptor held in a word, taken as it is.
pub fn messageInfoFromWord_raw(w: word_t) -> (ret: seL4_MessageInfo_t)
    ensures
        ret.words[0] == w,
{
    seL4_MessageInfo { words: [w] }
}

/// The descriptor held in a word, with a length beyond `seL4_MsgMaxLength`
/// cut down to it.
pub open spec fn spec_mi_from_word(w: word_t) -> seL4_MessageInfo_t {
    if spec_mi_length(seL4_MessageInfo { words: [w] }) > seL4_MsgMaxLength {
        spec_mi_set_length(seL4_MessageInfo { words: [w] }, seL4_MsgMaxLength)
    } else {
        seL4_MessageInfo { words: [w] }
    }
}

/// The length of a descriptor read from a word is at most
/// `seL4_MsgMaxLength`.
pub proof fn lemma_mi_from_word_length(w: word_t)
    ensures
        spec_mi_length(spec_mi_from_word(w)) <= seL4_MsgMaxLength,
{
    let x = w;
    assert((x & 0x7fu64) <= 0x7fu64) by (bit_vector);
    assert(((x & !0x7fu64) | (120u64 & 0x7fu64)) & 0x7fu64 == 120u64) by (bit_vector);
}

/// The descriptor held in a word, with a length beyond `seL4_MsgMaxLength`
/// cut down to it.
pub fn messageInfoFromWord(w: word_t) -> (ret: seL4_MessageInfo_t)
    ensures
        ret == spec_mi_from_word(w),
        spec_mi_length(ret) <= seL4_MsgMaxLength,
{
    proof {
        lemma_mi_from_word_length(w);
    }
    let mi = seL4_MessageInfo { words: [w] };
    let len = seL4_MessageInfo_get_length(mi);
    if len > seL4_MsgMaxLength {
        seL4_MessageInfo_set_length(mi, seL4_MsgMaxLength)
    } else {
        mi
    }
}

/// The word that holds a descriptor.
pub fn wordFromMessageInfo(mi: seL4_MessageInfo_t) -> (ret: word_t)
    ensures
        ret == mi.words[0],
{
    mi.words[0]
}

// ---------------------------------------------------------------------------
// Mapping-database nodes
// ---------------------------------------------------------------------------
//
// The first word holds the previous link; the second word holds the next
// link (bits 2 to 38, the bits that `mdb_node_get_mdbNext` reads), the
// revocable flag (bit 1) and the first-badged flag (bit 0).

/// The previous entry in the mapping database.
pub open spec fn spec_mdb_prev(m: mdb_node_t) -> u64 {
    m.words[0]
}

/// Whether the capability may be revoked.
pub open spec fn spec_mdb_revocable(m: mdb_node_t) -> u64 {
    (m.words[1] >> 1u64) & 0x1u64
}

/// Whether the capability is the first badged one of its object.
pub open spec fn spec_mdb_first_badged(m: mdb_node_t) -> u64 {
    m.words[1] & 0x1u64
}

pub open spec fn spec_mdb_set_next(m: mdb_node_t, v: u64) -> mdb_node_t {
    mdb_node { words: [m.words[0], (m.words[1] & !0x7ffffffffcu64) | (v & 0x7ffffffffcu64)] }
}

pub open spec fn spec_mdb_set_prev(m: mdb_node_t, v: u64) -> mdb_node_t {
    mdb_node { words: [v, m.words[1]] }
}

/// The node with the given links and flags.
pub open spec fn spec_mdb_node_new(mdbNext: u64, mdbRevocable: u64, mdbFirstBadged: u64, mdbPrev: u64) -> mdb_node_t {
    mdb_node {
        words: [
            mdbPrev,
            (mdbNext & 0x7ffffffffcu64) | ((mdbRevocable & 0x1u64) << 1u64) | (mdbFirstBadged
                & 0x1u64),
        ],
    }
}

/// The node of an empty slot.
pub open spec fn spec_null_mdb_node() -> mdb_node_t {
    mdb_node { words: [0u64, 0u64] }
}

pub fn mdb_node_get_mdbPrev(mdb_nod: mdb_node_t) -> (ret: u64)
    ensures
        ret == spec_mdb_prev(mdb_nod),
{
    mdb_nod.words[0]
}

pub fn mdb_node_get_mdbRevocable(mdb_nod: mdb_node_t) -> (ret: u64)
    ensures
        ret == spec_mdb_revocable(mdb_nod),
{
    (mdb_nod.words[1] >> 1u64) & 0x1u64
}

pub fn mdb_node_get_mdbFirstBadged(mdb_nod: mdb_node_t) -> (ret: u64)
    ensures
        ret == spec_mdb_first_badged(mdb_nod),
{
    mdb_nod.words[1] & 0x1u64
}

pub fn mdb_node_ptr_set_mdbNext(node_ptr: &mut mdb_node_t, v64: u64)
    ensures
        *final(node_ptr) == spec_mdb_set_next(*old(node_ptr), v64),
{
    let w = node_ptr.words;
    node_ptr.words = [w[0], (w[1] & !0x7ffffffffcu64) | (v64 & 0x7ffffffffcu64)];
}

pub fn mdb_node_ptr_set_mdbPrev(node_ptr: &mut mdb_node_t, v64: u64)
    ensures
        *final(node_ptr) == spec_mdb_set_prev(*old(node_ptr), v64),
{
    let w = node_ptr.words;
    node_ptr.words = [v64, w[1]];
}

pub open spec fn spec_mdb_set_revocable(m: mdb_node_t, v: u64) -> mdb_node_t {
    mdb_node { words: [m.words[0], (m.words[1] & !0x2u64) | ((v << 1u64) & 0x2u64)] }
}

pub open spec fn spec_mdb_set_first_badged(m: mdb_node_t, v: u64) -> mdb_node_t {
    mdb_node { words: [m.words[0], (m.words[1] & !0x1u64) | (v & 0x1u64)] }
}

pub fn mdb_node_ptr_set_mdbRevocable(node_ptr: &mut mdb_node_t, v64: u64)
    ensures
        *final(node_ptr) == spec_mdb_set_revocable(*old(node_ptr), v64),
{
    let w = node_ptr.words;
    node_ptr.words = [w[0], (w[1] & !0x2u64) | ((v64 << 1u64) & 0x2u64)];
}

pub fn mdb_node_ptr_set_mdbFirstBadged(node_ptr: &mut mdb_node_t, v64: u64)
    ensures
        *final(node_ptr) == spec_mdb_set_first_badged(*old(node_ptr), v64),
{
    let w = node_ptr.words;
    node_ptr.words = [w[0], (w[1] & !0x1u64) | (v64 & 0x1u64)];
}

pub fn mdb_node_new(mdbNext: u64, mdbRevocable: u64, mdbFirstBadged: u64, mdbPrev: u64) -> (ret:
    mdb_node_t)
    ensures
        ret == spec_mdb_node_new(mdbNext, mdbRevocable, mdbFirstBadged, mdbPrev),
{
    mdb_node {
        words: [
            mdbPrev,
            (mdbNext & 0x7ffffffffcu64) | ((mdbRevocable & 0x1u64) << 1u64) | (mdbFirstBadged
                & 0x1u64),
        ],
    }
}

/// The node of an empty slot: no links, no flags.
pub fn nullMDBNode() -> (ret: mdb_node_t)
    ensures
        ret == spec_null_mdb_node(),
{
    mdb_node { words: [0u64, 0u64] }
}

} // verus!
