//! Capability slots and the mapping database: moving, swapping, inserting
//! and deleting capabilities while keeping the derivation links consistent,
//! and the questions asked of the database (parents, final capabilities,
//! zombies).
use vstd::prelude::*;

use std::collections::HashMap;

use crate::bitfield_laws::lemma_masked_write;
use crate::failures::{
    EXCEPTION_NONE, EXCEPTION_SYSCALL_ERROR, exception_t, seL4_DeleteFirst, seL4_RevokeFirst,
    syscall_error,
};
use crate::object::{
    cap_cnode_cap, cap_domain_cap, cap_endpoint_cap, cap_endpoint_cap_get_capEPBadge,
    cap_endpoint_cap_get_capEPPtr, cap_get_capType, cap_irq_control_cap, cap_irq_handler_cap,
    cap_notification_cap, cap_notification_cap_get_capNtfnBadge, cap_null_cap, cap_null_cap_new,
    cap_reply_cap, cap_reply_cap_get_capReplyMaster, cap_reply_cap_new, cap_t, cap_thread_cap,
    cap_untyped_cap, cap_untyped_cap_get_capBlockSize, cap_untyped_cap_get_capPtr,
    cap_untyped_cap_ptr_set_capFreeIndex, cap_zombie_cap, cap_zombie_cap_get_capZombieNumber,
    cap_zombie_cap_get_capZombiePtr, cte, cte_t, lemma_constant_fields, mdb_node_get_mdbFirstBadged,
    mdb_node_get_mdbNext, mdb_node_get_mdbPrev, mdb_node_get_mdbRevocable, mdb_node_new,
    mdb_node_ptr_set_mdbFirstBadged, mdb_node_ptr_set_mdbNext, mdb_node_ptr_set_mdbPrev,
    mdb_node_ptr_set_mdbRevocable, mdb_node_t, nullMDBNode, sign_extend_39, spec_cap_ep_badge,
    spec_cap_ep_ptr, spec_cap_ntfn_badge, spec_cap_null_cap, spec_cap_reply_cap,
    spec_cap_reply_master, spec_cap_type, spec_cap_untyped_block_size, spec_cap_untyped_ptr,
    spec_cap_untyped_set_free_index, spec_mdb_first_badged, spec_mdb_next, spec_mdb_node_new,
    spec_mdb_prev, spec_mdb_revocable, spec_mdb_set_first_badged, spec_mdb_set_next,
    spec_mdb_set_prev, spec_mdb_set_revocable, spec_null_mdb_node, spec_tcb_cte_ptr,
    spec_zombie_bits, spec_zombie_number, spec_zombie_ptr, TCB_PTR_CTE_PTR, tcbCaller, tcbReply,
};
use crate::state::{cte_at, KernelState, KState, read_cte};
use crate::types::{bool_t, word_t};

verus! {

/// Result of finalising the capability in a slot: the status, whether the
/// slot may now be emptied, and the capability that names what is left to
/// clean up after it is.
#[derive(Clone, Copy)]
pub struct finaliseSlot_ret {
    pub status: u64,
    pub success: bool_t,
    pub cleanupInfo: cap_t,
}

pub type finaliseSlot_ret_t = finaliseSlot_ret;

/// A range of `length` slots of the CNode at `cnode`, from index `offset`.
#[derive(Clone, Copy)]
pub struct slot_range_t {
    pub cnode: word_t,
    pub offset: u64,
    pub length: u64,
}

/// The slots after storing capability `c` in the slot at `a`.
pub open spec fn set_cte_cap(m: Map<u64, cte_t>, a: u64, c: cap_t) -> Map<u64, cte_t> {
    m.insert(a, cte { cap: c, ..cte_at(m, a) })
}

/// The slots after storing mapping-database node `n` in the slot at `a`.
pub open spec fn set_cte_mdb(m: Map<u64, cte_t>, a: u64, n: mdb_node_t) -> Map<u64, cte_t> {
    m.insert(a, cte { cteMDBNode: n, ..cte_at(m, a) })
}

/// The slots after setting the next link of the slot at `a` to `v`.
pub open spec fn set_mdb_next_at(m: Map<u64, cte_t>, a: u64, v: u64) -> Map<u64, cte_t> {
    set_cte_mdb(m, a, spec_mdb_set_next(cte_at(m, a).cteMDBNode, v))
}

/// The slots after setting the previous link of the slot at `a` to `v`.
pub open spec fn set_mdb_prev_at(m: Map<u64, cte_t>, a: u64, v: u64) -> Map<u64, cte_t> {
    set_cte_mdb(m, a, spec_mdb_set_prev(cte_at(m, a).cteMDBNode, v))
}

pub(crate) fn write_cte_cap(ctes: &mut HashMap<u64, cte_t>, a: u64, c: cap_t)
    ensures
        final(ctes)@ == set_cte_cap(old(ctes)@, a, c),
{
    let mut e = read_cte(ctes, a);
    e.cap = c;
    ctes.insert(a, e);
}

pub(crate) fn write_cte_mdb(ctes: &mut HashMap<u64, cte_t>, a: u64, n: mdb_node_t)
    ensures
        final(ctes)@ == set_cte_mdb(old(ctes)@, a, n),
{
    let mut e = read_cte(ctes, a);
    e.cteMDBNode = n;
    ctes.insert(a, e);
}

pub(crate) fn write_mdb_next(ctes: &mut HashMap<u64, cte_t>, a: u64, v: u64)
    ensures
        final(ctes)@ == set_mdb_next_at(old(ctes)@, a, v),
{
    let mut e = read_cte(ctes, a);
    mdb_node_ptr_set_mdbNext(&mut e.cteMDBNode, v);
    ctes.insert(a, e);
}

pub(crate) fn write_mdb_prev(ctes: &mut HashMap<u64, cte_t>, a: u64, v: u64)
    ensures
        final(ctes)@ == set_mdb_prev_at(old(ctes)@, a, v),
{
    let mut e = read_cte(ctes, a);
    mdb_node_ptr_set_mdbPrev(&mut e.cteMDBNode, v);
    ctes.insert(a, e);
}

/// The slots after `setupReplyMaster(t)`: an empty reply slot of the thread
/// at `t` receives the master reply capability to the thread, which may
/// grant, with a node that has no links and is revocable and first badged.
pub open spec fn spec_setup_reply_master(m: Map<u64, cte_t>, t: u64) -> Map<u64, cte_t> {
    let slot = spec_tcb_cte_ptr(t, tcbReply) as u64;
    if spec_cap_type(cte_at(m, slot).cap) == cap_null_cap {
        m.insert(
            slot,
            cte { cap: spec_cap_reply_cap(1, 1, t), cteMDBNode: spec_mdb_node_new(0, 1, 1, 0) },
        )
    } else {
        m
    }
}

/// Whether a capability derived from `src` as `derived` can be revoked on
/// its own: an endpoint or notification capability with a badge other than
/// its source's, an interrupt-handler capability derived from the
/// interrupt-control capability, and any untyped capability. Architecture
/// capabilities (those with an odd type tag) cannot.
pub open spec fn spec_is_cap_revocable(derived: cap_t, src: cap_t) -> bool {
    let t = spec_cap_type(derived);
    if t % 2 == 1 {
        false
    } else if t == cap_endpoint_cap {
        spec_cap_ep_badge(derived) != spec_cap_ep_badge(src)
    } else if t == cap_notification_cap {
        spec_cap_ntfn_badge(derived) != spec_cap_ntfn_badge(src)
    } else if t == cap_irq_handler_cap {
        spec_cap_type(src) == cap_irq_control_cap
    } else {
        t == cap_untyped_cap
    }
}

/// The source and the new capability are untyped capabilities of the same
/// memory block.
pub open spec fn same_untyped_block(srcCap: cap_t, newCap: cap_t) -> bool {
    &&& spec_cap_type(srcCap) == cap_untyped_cap
    &&& spec_cap_type(newCap) == cap_untyped_cap
    &&& spec_cap_untyped_ptr(srcCap) == spec_cap_untyped_ptr(newCap)
    &&& spec_cap_untyped_block_size(newCap) == spec_cap_untyped_block_size(srcCap)
}

/// The slots after `setUntypedCapAsFull`: when a capability to the same
/// untyped block is derived, the source capability in the slot at `src` is
/// marked as having no free space left: its free index (counted in units of
/// the smallest untyped block, 16 bytes) is set to the whole block,
/// `2^(blockSize - 4)`.
pub open spec fn spec_set_untyped_cap_as_full(m: Map<u64, cte_t>, srcCap: cap_t, newCap: cap_t, src: u64) -> Map<u64, cte_t> {
    if same_untyped_block(srcCap, newCap) {
        set_cte_cap(
            m,
            src,
            spec_cap_untyped_set_free_index(
                cte_at(m, src).cap,
                1u64 << ((spec_cap_untyped_block_size(srcCap) - 4) as u64),
            ),
        )
    } else {
        m
    }
}

/// The slots after inserting `newCap` into the slot at `dest` as a child of
/// the slot at `src`: the destination follows the source in the mapping
/// database, revocable and first badged when the new capability can be
/// revoked on its own, and an untyped source is marked full.
pub open spec fn spec_cte_insert(m: Map<u64, cte_t>, newCap: cap_t, src: u64, dest: u64) -> Map<u64, cte_t> {
    let srcMDB = cte_at(m, src).cteMDBNode;
    let srcCap = cte_at(m, src).cap;
    let rev: u64 = if spec_is_cap_revocable(newCap, srcCap) {
        1
    } else {
        0
    };
    let newMDB = spec_mdb_set_first_badged(
        spec_mdb_set_revocable(spec_mdb_set_prev(srcMDB, src), rev),
        rev,
    );
    let m1 = spec_set_untyped_cap_as_full(m, srcCap, newCap, src);
    let m2 = set_cte_mdb(set_cte_cap(m1, dest, newCap), dest, newMDB);
    let m3 = set_mdb_next_at(m2, src, dest);
    let next = spec_mdb_next(newMDB);
    if next != 0 {
        set_mdb_prev_at(m3, next, dest)
    } else {
        m3
    }
}

/// `cteInsert(newCap, src, _)` can run: an untyped source that is marked
/// full is at least as large as the smallest untyped block (2^4 bytes).
pub open spec fn can_cte_insert(m: Map<u64, cte_t>, newCap: cap_t, src: u64) -> bool {
    same_untyped_block(cte_at(m, src).cap, newCap) ==> spec_cap_untyped_block_size(
        cte_at(m, src).cap,
    ) >= seL4_MinUntypedBits
}

/// The size, in bits, of the smallest untyped block.
pub const seL4_MinUntypedBits: u64 = 4;

/// Whether the slot `b` is a child of the slot `a` in the mapping database,
/// given `same_region`, whether the capability in `a` covers the region of
/// the one in `b`: `a` must be revocable and cover `b`; a badged endpoint or
/// notification capability is the parent only of capabilities with the same
/// badge that do not start a new badge.
pub open spec fn spec_is_mdb_parent_of(m: Map<u64, cte_t>, a: u64, b: u64, same_region: u64) -> bool {
    let ca = cte_at(m, a);
    let cb = cte_at(m, b);
    if spec_mdb_revocable(ca.cteMDBNode) == 0 || same_region == 0 {
        false
    } else if spec_cap_type(ca.cap) == cap_endpoint_cap {
        spec_cap_ep_badge(ca.cap) == 0 || (spec_cap_ep_badge(ca.cap) == spec_cap_ep_badge(cb.cap)
            && spec_mdb_first_badged(cb.cteMDBNode) == 0)
    } else if spec_cap_type(ca.cap) == cap_notification_cap {
        spec_cap_ntfn_badge(ca.cap) == 0 || (spec_cap_ntfn_badge(ca.cap) == spec_cap_ntfn_badge(
            cb.cap,
        ) && spec_mdb_first_badged(cb.cteMDBNode) == 0)
    } else {
        true
    }
}

/// Whether the capability in `slot` is the last one to its object, given
/// whether the capabilities in the previous and next slots of the mapping
/// database name the same object (`prev_same`, `next_same`, each 1 when
/// they do): not when the previous one does; otherwise when there is no next
/// slot, or when the next one names another object.
pub open spec fn spec_is_final_capability(m: Map<u64, cte_t>, slot: u64, prev_same: u64, next_same: u64) -> u64 {
    let mdb = cte_at(m, slot).cteMDBNode;
    if spec_mdb_prev(mdb) != 0 && prev_same == 1 {
        0
    } else if spec_mdb_next(mdb) == 0 || next_same != 1 {
        1
    } else {
        0
    }
}

/// Whether what finalising left in `slot`, the capability `c`, lets the slot
/// be emptied: a null capability does, and so does a zombie with no slots
/// left, or with one left that is `slot` itself.
pub open spec fn spec_cap_removable(c: cap_t, slot: u64) -> bool {
    spec_cap_type(c) == cap_null_cap || {
        let n = spec_zombie_number(c);
        n == 0 || (n == 1 && slot == spec_zombie_ptr(c))
    }
}

/// Whether `c` is a zombie that stands for `slot` itself.
pub open spec fn spec_cap_cyclic_zombie(c: cap_t, slot: u64) -> bool {
    spec_cap_type(c) == cap_zombie_cap && spec_zombie_ptr(c) == slot
}

/// Whether what finalising left in `slot`, the capability `cap` (a null
/// capability or a zombie), lets the slot be emptied.
pub fn capRemovable(cap: cap_t, slot: word_t) -> (ret: bool_t)
    requires
        spec_cap_type(cap) == cap_null_cap || spec_cap_type(cap) == cap_zombie_cap,
        spec_cap_type(cap) == cap_zombie_cap ==> spec_zombie_bits(cap) < 63,
    ensures
        ret == if spec_cap_removable(cap, slot) {
            1u64
        } else {
            0u64
        },
{
    if cap_get_capType(cap) == cap_null_cap {
        return 1;
    }
    let n = cap_zombie_cap_get_capZombieNumber(cap);
    let z_slot = cap_zombie_cap_get_capZombiePtr(cap);
    if n == 0 || (n == 1 && slot == z_slot) {
        1
    } else {
        0
    }
}

/// Whether `cap` is a zombie that stands for `slot` itself.
pub fn capCyclicZombie(cap: cap_t, slot: word_t) -> (ret: bool_t)
    requires
        spec_cap_type(cap) == cap_zombie_cap ==> spec_zombie_bits(cap) < 63,
    ensures
        ret == if spec_cap_cyclic_zombie(cap, slot) {
            1u64
        } else {
            0u64
        },
{
    if cap_get_capType(cap) == cap_zombie_cap && cap_zombie_cap_get_capZombiePtr(cap) == slot {
        1
    } else {
        0
    }
}

/// The endpoint and badge whose pending sends are to be cancelled when the
/// badged sends of the endpoint capability `cap` are cancelled; none for an
/// unbadged capability. The kernel's endpoint routine does the cancelling.
pub fn invokeCNodeCancelBadgedSends(cap: cap_t) -> (ret: Option<(word_t, word_t)>)
    ensures
        ret == if spec_cap_ep_badge(cap) != 0 {
            Some((spec_cap_ep_ptr(cap), spec_cap_ep_badge(cap)))
        } else {
            None
        },
{
    let badge = cap_endpoint_cap_get_capEPBadge(cap);
    if badge != 0 {
        let ep = cap_endpoint_cap_get_capEPPtr(cap);
        return Some((ep, badge));
    }
    None
}

/// Whether a capability derived from `srcCap` as `derivedCap` can be revoked
/// on its own.
pub fn isCapRevocable(derivedCap: cap_t, srcCap: cap_t) -> (ret: bool_t)
    ensures
        ret == if spec_is_cap_revocable(derivedCap, srcCap) {
            1u64
        } else {
            0u64
        },
{
    let t = cap_get_capType(derivedCap);
    if t % 2 == 1 {
        return 0;
    }
    if t == cap_endpoint_cap {
        (cap_endpoint_cap_get_capEPBadge(derivedCap) != cap_endpoint_cap_get_capEPBadge(srcCap)) as u64
    } else if t == cap_notification_cap {
        (cap_notification_cap_get_capNtfnBadge(derivedCap) != cap_notification_cap_get_capNtfnBadge(
            srcCap,
        )) as u64
    } else if t == cap_irq_handler_cap {
        (cap_get_capType(srcCap) == cap_irq_control_cap) as u64
    } else if t == cap_untyped_cap {
        1
    } else {
        0
    }
}

/// The state after `invokeCNodeSaveCaller(dest)`: a reply capability that
/// is not a master one moves from the current thread's caller slot to the
/// slot at `dest`.
pub open spec fn spec_save_caller(s: KState, dest: u64) -> KState {
    let src = spec_tcb_cte_ptr(s.cur_thread, tcbCaller) as u64;
    let c = cte_at(s.ctes, src).cap;
    if spec_cap_type(c) == cap_reply_cap && spec_cap_reply_master(c) == 0 {
        with_ctes(s, spec_cte_move(s.ctes, c, src, dest))
    } else {
        s
    }
}

/// `invokeCNodeSaveCaller(dest)` can run: the caller slot holds nothing or a
/// reply capability (the kernel stops on anything else), and the slot at
/// `dest` is empty when a capability is to move there.
pub open spec fn can_save_caller(s: KState, dest: u64) -> bool {
    let src = spec_tcb_cte_ptr(s.cur_thread, tcbCaller) as u64;
    let c = cte_at(s.ctes, src).cap;
    &&& spec_cap_type(c) == cap_null_cap || spec_cap_type(c) == cap_reply_cap
    &&& spec_cap_type(c) == cap_reply_cap && spec_cap_reply_master(c) == 0 ==> cte_move_pre(
        s.ctes,
        dest,
    )
}

/// The slots after `emptySlot(slot)`: a slot holding a capability is taken
/// out of the mapping database (its neighbours are linked to each other, and
/// its successor becomes first badged when either was) and left empty.
pub open spec fn spec_empty_slot(m: Map<u64, cte_t>, slot: u64) -> Map<u64, cte_t> {
    let e = cte_at(m, slot);
    if spec_cap_type(e.cap) != cap_null_cap {
        let n = e.cteMDBNode;
        let prev = spec_mdb_prev(n);
        let next = spec_mdb_next(n);
        let m1 = if prev != 0 {
            set_mdb_next_at(m, prev, next)
        } else {
            m
        };
        let m2 = if next != 0 {
            set_mdb_prev_at(m1, next, prev)
        } else {
            m1
        };
        let m3 = if next != 0 {
            let nn = cte_at(m2, next).cteMDBNode;
            let fb: u64 = if spec_mdb_first_badged(nn) != 0 || spec_mdb_first_badged(n) != 0 {
                1
            } else {
                0
            };
            set_cte_mdb(m2, next, spec_mdb_set_first_badged(nn, fb))
        } else {
            m2
        };
        set_cte_mdb(set_cte_cap(m3, slot, spec_cap_null_cap()), slot, spec_null_mdb_node())
    } else {
        m
    }
}

/// Deleting the capability in the slot at `slot` needs no finalisation: the
/// slot is empty or holds a reply or domain capability.
pub open spec fn delete_one_needs_no_finalise(m: Map<u64, cte_t>, slot: u64) -> bool {
    let t = spec_cap_type(cte_at(m, slot).cap);
    t == cap_null_cap || t == cap_reply_cap || t == cap_domain_cap
}

/// The outcome of the last piece of work in deleting one capability.
#[derive(Clone, Copy)]
pub enum DeleteOneEvent {
    /// Deletion begins.
    Start,
    /// The capability was finalised.
    Finalised,
}

/// The next piece of work in deleting one capability.
#[derive(Clone, Copy)]
pub enum DeleteOneAction {
    /// Finalise this capability, the one in the slot (telling the kernel
    /// whether it is the last one to its object), then go on.
    Finalise(cap_t),
    /// The slot is empty.
    Done,
}

/// The state and the next action of `cteDeleteOne(slot, event)`. At the
/// start, a capability other than a null, reply or domain one (which need
/// no finalising) is to be finalised first; otherwise, and once it is
/// finalised, the slot is emptied (`spec_empty_slot`).
pub open spec fn spec_cte_delete_one(s: KState, slot: u64, event: DeleteOneEvent) -> (
    KState,
    DeleteOneAction,
) {
    let c = cte_at(s.ctes, slot).cap;
    if event is Start && !delete_one_needs_no_finalise(s.ctes, slot) {
        (s, DeleteOneAction::Finalise(c))
    } else {
        (with_ctes(s, spec_empty_slot(s.ctes, slot)), DeleteOneAction::Done)
    }
}

/// The state with its slots replaced by `m`.
pub open spec fn with_ctes(s: KState, m: Map<u64, cte_t>) -> KState {
    KState { ctes: m, ..s }
}

/// The destination of a move is empty: a null capability and no links.
pub open spec fn cte_move_pre(m: Map<u64, cte_t>, dest: u64) -> bool {
    &&& spec_cap_type(cte_at(m, dest).cap) == cap_null_cap
    &&& spec_mdb_next(cte_at(m, dest).cteMDBNode) == 0
    &&& spec_mdb_prev(cte_at(m, dest).cteMDBNode) == 0
}

/// The slots after moving the capability of the slot at `src` to the empty
/// slot at `dest` as `newCap`: the destination takes over the source's
/// mapping-database node, the source becomes empty, and the neighbours'
/// links are redirected to the destination.
pub open spec fn spec_cte_move(m: Map<u64, cte_t>, newCap: cap_t, src: u64, dest: u64) -> Map<u64, cte_t> {
    let mdb = cte_at(m, src).cteMDBNode;
    let m1 = set_cte_cap(m, dest, newCap);
    let m2 = set_cte_cap(m1, src, spec_cap_null_cap());
    let m3 = set_cte_mdb(m2, dest, mdb);
    let m4 = set_cte_mdb(m3, src, spec_null_mdb_node());
    let prev = spec_mdb_prev(mdb);
    let m5 = if prev != 0 {
        set_mdb_next_at(m4, prev, dest)
    } else {
        m4
    };
    let next = spec_mdb_next(mdb);
    if next != 0 {
        set_mdb_prev_at(m5, next, dest)
    } else {
        m5
    }
}

/// The slots after exchanging the capabilities of the slots at `slot1` and
/// `slot2` (storing `cap2` in the first and `cap1` in the second) together
/// with their mapping-database nodes, redirecting the neighbours' links.
pub open spec fn spec_cte_swap(m: Map<u64, cte_t>, cap1: cap_t, slot1: u64, cap2: cap_t, slot2: u64) -> Map<u64, cte_t> {
    let m1 = set_cte_cap(m, slot1, cap2);
    let m2 = set_cte_cap(m1, slot2, cap1);
    let mdb1 = cte_at(m2, slot1).cteMDBNode;
    let p1 = spec_mdb_prev(mdb1);
    let m3 = if p1 != 0 {
        set_mdb_next_at(m2, p1, slot2)
    } else {
        m2
    };
    let n1 = spec_mdb_next(mdb1);
    let m4 = if n1 != 0 {
        set_mdb_prev_at(m3, n1, slot2)
    } else {
        m3
    };
    let mdb2 = cte_at(m4, slot2).cteMDBNode;
    let m5 = set_cte_mdb(m4, slot1, mdb2);
    let m6 = set_cte_mdb(m5, slot2, mdb1);
    let p2 = spec_mdb_prev(mdb2);
    let m7 = if p2 != 0 {
        set_mdb_next_at(m6, p2, slot1)
    } else {
        m6
    };
    let n2 = spec_mdb_next(mdb2);
    if n2 != 0 {
        set_mdb_prev_at(m7, n2, slot1)
    } else {
        m7
    }
}

/// The slots after inserting capability `c` into the slot at `slot` as the
/// first child of the slot at `parent`, revocable and first badged.
pub open spec fn spec_insert_new_cap(m: Map<u64, cte_t>, parent: u64, slot: u64, c: cap_t) -> Map<u64, cte_t> {
    let next = spec_mdb_next(cte_at(m, parent).cteMDBNode);
    let m1 = set_cte_cap(m, slot, c);
    let m2 = set_cte_mdb(m1, slot, spec_mdb_node_new(next, 1, 1, parent));
    let m3 = if next != 0 {
        set_mdb_prev_at(m2, next, slot)
    } else {
        m2
    };
    set_mdb_next_at(m3, parent, slot)
}

impl KernelState {
    /// Moves the capability in the slot at `srcSlot` into the empty slot at
    /// `destSlot`, storing it there as `newCap`.
    pub fn cteMove(&mut self, newCap: cap_t, srcSlot: word_t, destSlot: word_t)
        requires
            cte_move_pre(old(self).ctes@, destSlot),
        ensures
            final(self)@ == with_ctes(
                old(self)@,
                spec_cte_move(old(self)@.ctes, newCap, srcSlot, destSlot),
            ),
            final(self).sched == old(self).sched,
            mdb_links_ok(old(self).ctes@) && slot_addr_ok(srcSlot) && slot_addr_ok(destSlot)
                && srcSlot != destSlot ==> mdb_links_ok(final(self).ctes@),
    {
        proof {
            if mdb_links_ok(self.ctes@) && slot_addr_ok(srcSlot) && slot_addr_ok(destSlot) && srcSlot
                != destSlot {
                law_cte_move_keeps_links(self.ctes@, newCap, srcSlot, destSlot);
            }
        }
        let mdb = read_cte(&self.ctes, srcSlot).cteMDBNode;
        write_cte_cap(&mut self.ctes, destSlot, newCap);
        write_cte_cap(&mut self.ctes, srcSlot, cap_null_cap_new());
        write_cte_mdb(&mut self.ctes, destSlot, mdb);
        write_cte_mdb(&mut self.ctes, srcSlot, nullMDBNode());
        let prev_ptr = mdb_node_get_mdbPrev(mdb);
        if prev_ptr != 0 {
            write_mdb_next(&mut self.ctes, prev_ptr, destSlot);
        }
        let next_ptr = mdb_node_get_mdbNext(mdb);
        if next_ptr != 0 {
            write_mdb_prev(&mut self.ctes, next_ptr, destSlot);
        }
    }

    /// Exchanges the capabilities of two slots, storing `cap2` in the slot
    /// at `slot1` and `cap1` in the slot at `slot2`.
    pub fn cteSwap(&mut self, cap1: cap_t, slot1: word_t, cap2: cap_t, slot2: word_t)
        ensures
            final(self)@ == with_ctes(
                old(self)@,
                spec_cte_swap(old(self)@.ctes, cap1, slot1, cap2, slot2),
            ),
            final(self).sched == old(self).sched,
            mdb_links_ok(old(self).ctes@) && (old(self).ctes@.contains_key(slot1) || slot_addr_ok(
                slot1,
            )) && (old(self).ctes@.contains_key(slot2) || slot_addr_ok(slot2)) && slot1 != slot2
                ==> mdb_links_ok(final(self).ctes@),
    {
        proof {
            if mdb_links_ok(self.ctes@) && (self.ctes@.contains_key(slot1) || slot_addr_ok(slot1))
                && (self.ctes@.contains_key(slot2) || slot_addr_ok(slot2)) && slot1 != slot2 {
                law_cte_swap_keeps_links(self.ctes@, cap1, slot1, cap2, slot2);
            }
        }
        write_cte_cap(&mut self.ctes, slot1, cap2);
        write_cte_cap(&mut self.ctes, slot2, cap1);
        let mdb1 = read_cte(&self.ctes, slot1).cteMDBNode;
        let prev_ptr = mdb_node_get_mdbPrev(mdb1);
        if prev_ptr != 0 {
            write_mdb_next(&mut self.ctes, prev_ptr, slot2);
        }
        let next_ptr = mdb_node_get_mdbNext(mdb1);
        if next_ptr != 0 {
            write_mdb_prev(&mut self.ctes, next_ptr, slot2);
        }
        let mdb2 = read_cte(&self.ctes, slot2).cteMDBNode;
        write_cte_mdb(&mut self.ctes, slot1, mdb2);
        write_cte_mdb(&mut self.ctes, slot2, mdb1);
        let prev_ptr = mdb_node_get_mdbPrev(mdb2);
        if prev_ptr != 0 {
            write_mdb_next(&mut self.ctes, prev_ptr, slot1);
        }
        let next_ptr = mdb_node_get_mdbNext(mdb2);
        if next_ptr != 0 {
            write_mdb_prev(&mut self.ctes, next_ptr, slot1);
        }
    }

    /// Exchanges the contents of two slots before a deletion; nothing happens
    /// when both are the same slot.
    pub fn capSwapForDelete(&mut self, slot1: word_t, slot2: word_t)
        ensures
            final(self)@ == if slot1 == slot2 {
                old(self)@
            } else {
                with_ctes(
                    old(self)@,
                    spec_cte_swap(
                        old(self)@.ctes,
                        cte_at(old(self)@.ctes, slot1).cap,
                        slot1,
                        cte_at(old(self)@.ctes, slot2).cap,
                        slot2,
                    ),
                )
            },
            final(self).sched == old(self).sched,
    {
        if slot1 == slot2 {
            return ;
        }
        let cap1 = read_cte(&self.ctes, slot1).cap;
        let cap2 = read_cte(&self.ctes, slot2).cap;
        self.cteSwap(cap1, slot1, cap2, slot2);
    }

    /// Moves a capability from one slot to an empty one; always succeeds.
    pub fn invokeCNodeMove(&mut self, cap: cap_t, srcSlot: word_t, destSlot: word_t) -> (ret:
        exception_t)
        requires
            cte_move_pre(old(self).ctes@, destSlot),
        ensures
            ret == EXCEPTION_NONE,
            final(self)@ == with_ctes(
                old(self)@,
                spec_cte_move(old(self)@.ctes, cap, srcSlot, destSlot),
            ),
            final(self).sched == old(self).sched,
    {
        self.cteMove(cap, srcSlot, destSlot);
        EXCEPTION_NONE
    }

    /// Rotates capabilities: the one at `slot2` moves to `slot3` and the one
    /// at `slot1` moves to `slot2`; when `slot1` and `slot3` are the same
    /// slot the two capabilities are swapped. Always succeeds.
    pub fn invokeCNodeRotate(
        &mut self,
        cap1: cap_t,
        cap2: cap_t,
        slot1: word_t,
        slot2: word_t,
        slot3: word_t,
    ) -> (ret: exception_t)
        requires
            slot1 != slot3 ==> {
                &&& cte_move_pre(old(self).ctes@, slot3)
                &&& cte_move_pre(spec_cte_move(old(self).ctes@, cap2, slot2, slot3), slot2)
            },
        ensures
            ret == EXCEPTION_NONE,
            final(self)@ == with_ctes(
                old(self)@,
                spec_cnode_rotate(old(self)@.ctes, cap1, cap2, slot1, slot2, slot3),
            ),
            final(self).sched == old(self).sched,
    {
        if slot1 == slot3 {
            self.cteSwap(cap1, slot1, cap2, slot2);
        } else {
            self.cteMove(cap2, slot2, slot3);
            self.cteMove(cap1, slot1, slot2);
        }
        EXCEPTION_NONE
    }

    /// Inserts `cap` into the slot at `slot` as the first child of the slot
    /// at `parent` in the mapping database.
    pub fn insertNewCap(&mut self, parent: word_t, slot: word_t, cap: cap_t)
        ensures
            final(self)@ == with_ctes(
                old(self)@,
                spec_insert_new_cap(old(self)@.ctes, parent, slot, cap),
            ),
            final(self).sched == old(self).sched,
            mdb_links_ok(old(self).ctes@) && cte_move_pre(old(self).ctes@, slot) && slot_addr_ok(
                parent,
            ) && slot_addr_ok(slot) && parent != slot ==> mdb_links_ok(final(self).ctes@),
    {
        proof {
            if mdb_links_ok(self.ctes@) && cte_move_pre(self.ctes@, slot) && slot_addr_ok(parent)
                && slot_addr_ok(slot) && parent != slot {
                law_insert_new_cap_keeps_links(self.ctes@, parent, slot, cap);
            }
        }
        let next = mdb_node_get_mdbNext(read_cte(&self.ctes, parent).cteMDBNode);
        write_cte_cap(&mut self.ctes, slot, cap);
        write_cte_mdb(&mut self.ctes, slot, mdb_node_new(next, 1, 1, parent));
        if next != 0 {
            write_mdb_prev(&mut self.ctes, next, slot);
        }
        write_mdb_next(&mut self.ctes, parent, slot);
    }

    /// Marks the untyped capability in the slot at `srcSlot` as full when
    /// `newCap` is derived from it for the same block.
    pub fn setUntypedCapAsFull(&mut self, srcCap: cap_t, newCap: cap_t, srcSlot: word_t)
        requires
            same_untyped_block(srcCap, newCap) ==> spec_cap_untyped_block_size(srcCap)
                >= seL4_MinUntypedBits,
        ensures
            final(self)@ == with_ctes(
                old(self)@,
                spec_set_untyped_cap_as_full(old(self)@.ctes, srcCap, newCap, srcSlot),
            ),
            final(self).sched == old(self).sched,
    {
        if cap_get_capType(srcCap) == cap_untyped_cap && cap_get_capType(newCap) == cap_untyped_cap {
            if cap_untyped_cap_get_capPtr(srcCap) == cap_untyped_cap_get_capPtr(newCap)
                && cap_untyped_cap_get_capBlockSize(newCap) == cap_untyped_cap_get_capBlockSize(
                srcCap,
            ) {
                let bs = cap_untyped_cap_get_capBlockSize(srcCap);
                let mut c = read_cte(&self.ctes, srcSlot).cap;
                cap_untyped_cap_ptr_set_capFreeIndex(&mut c, 1u64 << (bs - seL4_MinUntypedBits));
                write_cte_cap(&mut self.ctes, srcSlot, c);
            }
        }
    }

    /// Inserts `newCap` into the slot at `destSlot` as a child of the slot at
    /// `srcSlot` in the mapping database.
    pub fn cteInsert(&mut self, newCap: cap_t, srcSlot: word_t, destSlot: word_t)
        requires
            can_cte_insert(old(self).ctes@, newCap, srcSlot),
        ensures
            final(self)@ == with_ctes(
                old(self)@,
                spec_cte_insert(old(self)@.ctes, newCap, srcSlot, destSlot),
            ),
            final(self).sched == old(self).sched,
            mdb_links_ok(old(self).ctes@) && cte_move_pre(old(self).ctes@, destSlot)
                && slot_addr_ok(srcSlot) && slot_addr_ok(destSlot) && srcSlot != destSlot
                ==> mdb_links_ok(final(self).ctes@),
    {
        proof {
            if mdb_links_ok(self.ctes@) && cte_move_pre(self.ctes@, destSlot) && slot_addr_ok(srcSlot)
                && slot_addr_ok(destSlot) && srcSlot != destSlot {
                law_cte_insert_keeps_links(self.ctes@, newCap, srcSlot, destSlot);
            }
        }
        let src = read_cte(&self.ctes, srcSlot);
        let srcMDB = src.cteMDBNode;
        let srcCap = src.cap;
        let newCapIsRevocable = isCapRevocable(newCap, srcCap);
        let mut newMDB = srcMDB;
        mdb_node_ptr_set_mdbPrev(&mut newMDB, srcSlot);
        mdb_node_ptr_set_mdbRevocable(&mut newMDB, newCapIsRevocable);
        mdb_node_ptr_set_mdbFirstBadged(&mut newMDB, newCapIsRevocable);
        self.setUntypedCapAsFull(srcCap, newCap, srcSlot);
        write_cte_cap(&mut self.ctes, destSlot, newCap);
        write_cte_mdb(&mut self.ctes, destSlot, newMDB);
        write_mdb_next(&mut self.ctes, srcSlot, destSlot);
        let next = mdb_node_get_mdbNext(newMDB);
        if next != 0 {
            write_mdb_prev(&mut self.ctes, next, destSlot);
        }
    }

    /// Inserts a derived capability; always succeeds.
    pub fn invokeCNodeInsert(&mut self, cap: cap_t, srcSlot: word_t, destSlot: word_t) -> (ret:
        exception_t)
        requires
            can_cte_insert(old(self).ctes@, cap, srcSlot),
        ensures
            ret == EXCEPTION_NONE,
            final(self)@ == with_ctes(
                old(self)@,
                spec_cte_insert(old(self)@.ctes, cap, srcSlot, destSlot),
            ),
            final(self).sched == old(self).sched,
    {
        self.cteInsert(cap, srcSlot, destSlot);
        EXCEPTION_NONE
    }

    /// Moves the reply capability in the current thread's caller slot to the
    /// slot at `destSlot`, unless the caller slot is empty or holds a master
    /// reply capability. Always succeeds.
    pub fn invokeCNodeSaveCaller(&mut self, destSlot: word_t) -> (ret: exception_t)
        requires
            can_save_caller(old(self)@, destSlot),
        ensures
            ret == EXCEPTION_NONE,
            final(self)@ == spec_save_caller(old(self)@, destSlot),
            final(self).sched == old(self).sched,
    {
        let srcSlot = TCB_PTR_CTE_PTR(self.sched.ksCurThread, tcbCaller);
        let cap = read_cte(&self.ctes, srcSlot).cap;
        let cap_type = cap_get_capType(cap);
        if cap_type == cap_null_cap {
        } else if cap_type == cap_reply_cap {
            if cap_reply_cap_get_capReplyMaster(cap) == 0 {
                self.cteMove(cap, srcSlot, destSlot);
            }
        }
        EXCEPTION_NONE
    }

    /// Takes the capability in the slot at `slot` out of the mapping database
    /// and empties the slot. When the slot held a capability, the clean-up
    /// that its deletion owes (`cleanupInfo`, which names an interrupt whose
    /// handler is gone, if any) is handed back for the kernel's interrupt
    /// routine to carry out.
    pub fn emptySlot(&mut self, slot: word_t, cleanupInfo: cap_t) -> (ret: Option<cap_t>)
        ensures
            final(self)@ == with_ctes(old(self)@, spec_empty_slot(old(self)@.ctes, slot)),
            final(self).sched == old(self).sched,
            ret == if spec_cap_type(cte_at(old(self)@.ctes, slot).cap) != cap_null_cap {
                Some(cleanupInfo)
            } else {
                None
            },
            mdb_links_ok(old(self).ctes@) ==> mdb_links_ok(final(self).ctes@),
    {
        proof {
            if mdb_links_ok(self.ctes@) {
                law_empty_slot_keeps_links(self.ctes@, slot);
            }
        }
        if cap_get_capType(read_cte(&self.ctes, slot).cap) != cap_null_cap {
            let mdbNode = read_cte(&self.ctes, slot).cteMDBNode;
            let prev = mdb_node_get_mdbPrev(mdbNode);
            let next = mdb_node_get_mdbNext(mdbNode);
            if prev != 0 {
                write_mdb_next(&mut self.ctes, prev, next);
            }
            if next != 0 {
                write_mdb_prev(&mut self.ctes, next, prev);
            }
            if next != 0 {
                let mut nn = read_cte(&self.ctes, next).cteMDBNode;
                let fb: u64 = if mdb_node_get_mdbFirstBadged(nn) != 0
                    || mdb_node_get_mdbFirstBadged(mdbNode) != 0 {
                    1
                } else {
                    0
                };
                mdb_node_ptr_set_mdbFirstBadged(&mut nn, fb);
                write_cte_mdb(&mut self.ctes, next, nn);
            }
            write_cte_cap(&mut self.ctes, slot, cap_null_cap_new());
            write_cte_mdb(&mut self.ctes, slot, nullMDBNode());
            return Some(cleanupInfo);
        }
        None
    }

    /// Takes deleting the capability in the slot at `slot` one step on; see
    /// `spec_cte_delete_one`.
    pub fn cteDeleteOne(&mut self, slot: word_t, event: DeleteOneEvent) -> (ret: DeleteOneAction)
        ensures
            (final(self)@, ret) == spec_cte_delete_one(old(self)@, slot, event),
            final(self).sched == old(self).sched,
    {
        let c = read_cte(&self.ctes, slot).cap;
        let t = cap_get_capType(c);
        match event {
            DeleteOneEvent::Start => {
                if t != cap_null_cap && t != cap_reply_cap && t != cap_domain_cap {
                    return DeleteOneAction::Finalise(c);
                }
            },
            DeleteOneEvent::Finalised => {},
        }
        if t != cap_null_cap {
            self.emptySlot(slot, cap_null_cap_new());
        }
        DeleteOneAction::Done
    }

    /// Deletes the reply capability in the caller slot of the thread at
    /// `receiver`.
    pub fn deleteCallerCap(&mut self, receiver: word_t)
        requires
            delete_one_needs_no_finalise(
                old(self).ctes@,
                spec_tcb_cte_ptr(receiver, tcbCaller) as u64,
            ),
        ensures
            final(self)@ == with_ctes(
                old(self)@,
                spec_empty_slot(old(self)@.ctes, spec_tcb_cte_ptr(receiver, tcbCaller) as u64),
            ),
            final(self).sched == old(self).sched,
    {
        let callerSlot = TCB_PTR_CTE_PTR(receiver, tcbCaller);
        self.cteDeleteOne(callerSlot, DeleteOneEvent::Start);
    }

    /// Gives the thread at `thread` its master reply capability, unless its
    /// reply slot already holds a capability.
    pub fn setupReplyMaster(&mut self, thread: word_t)
        ensures
            final(self)@ == with_ctes(old(self)@, spec_setup_reply_master(old(self)@.ctes, thread)),
            final(self).sched == old(self).sched,
    {
        let slot = TCB_PTR_CTE_PTR(thread, tcbReply);
        if cap_get_capType(read_cte(&self.ctes, slot).cap) == cap_null_cap {
            let mut node = mdb_node_new(0, 0, 0, 0);
            mdb_node_ptr_set_mdbRevocable(&mut node, 1);
            mdb_node_ptr_set_mdbFirstBadged(&mut node, 1);
            proof {
                lemma_constant_fields();
            }
            self.ctes.insert(
                slot,
                cte { cap: cap_reply_cap_new(1, 1, thread), cteMDBNode: node },
            );
        }
    }

    /// Whether the slot at `cte_b` is a child of the slot at `cte_a`;
    /// `sameRegion` is whether the capability in `cte_a` covers the region of
    /// the one in `cte_b` (as the kernel's region comparison says).
    pub fn isMDBParentOf(&self, cte_a: word_t, cte_b: word_t, sameRegion: bool_t) -> (ret: bool_t)
        ensures
            ret == if spec_is_mdb_parent_of(self.ctes@, cte_a, cte_b, sameRegion) {
                1u64
            } else {
                0u64
            },
    {
        let a = read_cte(&self.ctes, cte_a);
        let b = read_cte(&self.ctes, cte_b);
        if mdb_node_get_mdbRevocable(a.cteMDBNode) == 0 {
            return 0;
        }
        if sameRegion == 0 {
            return 0;
        }
        let cap_type = cap_get_capType(a.cap);
        if cap_type == cap_endpoint_cap {
            let badge = cap_endpoint_cap_get_capEPBadge(a.cap);
            if badge == 0 {
                return 1;
            }
            if badge == cap_endpoint_cap_get_capEPBadge(b.cap) && mdb_node_get_mdbFirstBadged(
                b.cteMDBNode,
            ) == 0 {
                1
            } else {
                0
            }
        } else if cap_type == cap_notification_cap {
            let badge = cap_notification_cap_get_capNtfnBadge(a.cap);
            if badge == 0 {
                return 1;
            }
            if badge == cap_notification_cap_get_capNtfnBadge(b.cap)
                && mdb_node_get_mdbFirstBadged(b.cteMDBNode) == 0 {
                1
            } else {
                0
            }
        } else {
            1
        }
    }

    /// Checks that the capability in the slot at `slot` has no children in
    /// the mapping database; otherwise records that it must be revoked
    /// first. `sameRegion` is whether it covers the region of the capability
    /// in the next slot.
    pub fn ensureNoChildren(&mut self, slot: word_t, sameRegion: bool_t) -> (ret: exception_t)
        ensures
            ({
                let next = spec_mdb_next(cte_at(old(self)@.ctes, slot).cteMDBNode);
                if next != 0 && spec_is_mdb_parent_of(old(self)@.ctes, slot, next, sameRegion) {
                    &&& ret == EXCEPTION_SYSCALL_ERROR
                    &&& final(self)@ == (KState {
                        current_syscall_error: syscall_error {
                            error_type: seL4_RevokeFirst,
                            ..old(self)@.current_syscall_error
                        },
                        ..old(self)@
                    })
                } else {
                    &&& ret == EXCEPTION_NONE
                    &&& final(self)@ == old(self)@
                }
            }),
            final(self).sched == old(self).sched,
    {
        let next = mdb_node_get_mdbNext(read_cte(&self.ctes, slot).cteMDBNode);
        if next != 0 {
            if self.isMDBParentOf(slot, next, sameRegion) != 0 {
                self.current_syscall_error.error_type = seL4_RevokeFirst;
                return EXCEPTION_SYSCALL_ERROR;
            }
        }
        EXCEPTION_NONE
    }

    /// Whether the capability in the slot at `cte` is the last one to its
    /// object; `prevSameObject` and `nextSameObject` are whether the
    /// capabilities in the previous and next slots of the mapping database
    /// name the same object (as the kernel's object comparison says).
    pub fn isFinalCapability(&self, cte: word_t, prevSameObject: bool_t, nextSameObject: bool_t) -> (ret:
        bool_t)
        ensures
            ret == spec_is_final_capability(self.ctes@, cte, prevSameObject, nextSameObject),
    {
        let mdb = read_cte(&self.ctes, cte).cteMDBNode;
        let prevIsSameObject = mdb_node_get_mdbPrev(mdb) != 0 && prevSameObject == 1;
        if prevIsSameObject {
            0
        } else if mdb_node_get_mdbNext(mdb) == 0 || nextSameObject != 1 {
            1
        } else {
            0
        }
    }

    /// Whether deleting the capability in the slot at `slot` may take long:
    /// it is the last capability to a thread, a CNode or a zombie. The last
    /// two arguments are as for `isFinalCapability`.
    pub fn slotCapLongRunningDelete(&self, slot: word_t, prevSameObject: bool_t, nextSameObject: bool_t) -> (ret:
        bool_t)
        ensures
            ret == ({
                let t = spec_cap_type(cte_at(self.ctes@, slot).cap);
                if t == cap_null_cap || spec_is_final_capability(
                    self.ctes@,
                    slot,
                    prevSameObject,
                    nextSameObject,
                ) == 0 {
                    0u64
                } else if t == cap_thread_cap || t == cap_zombie_cap || t == cap_cnode_cap {
                    1u64
                } else {
                    0u64
                }
            }),
    {
        let cap_type = cap_get_capType(read_cte(&self.ctes, slot).cap);
        if cap_type == cap_null_cap || self.isFinalCapability(slot, prevSameObject, nextSameObject)
            == 0 {
            return 0;
        }
        if cap_type == cap_thread_cap || cap_type == cap_zombie_cap || cap_type == cap_cnode_cap {
            return 1;
        }
        0
    }

    /// Checks that the slot at `slot` is empty; otherwise records that it
    /// must be deleted first.
    pub fn ensureEmptySlot(&mut self, slot: word_t) -> (ret: exception_t)
        ensures
            spec_cap_type(cte_at(old(self)@.ctes, slot).cap) != cap_null_cap ==> {
                &&& ret == EXCEPTION_SYSCALL_ERROR
                &&& final(self)@ == (KState {
                    current_syscall_error: syscall_error {
                        error_type: seL4_DeleteFirst,
                        ..old(self)@.current_syscall_error
                    },
                    ..old(self)@
                })
            },
            spec_cap_type(cte_at(old(self)@.ctes, slot).cap) == cap_null_cap ==> {
                &&& ret == EXCEPTION_NONE
                &&& final(self)@ == old(self)@
            },
            final(self).sched == old(self).sched,
    {
        if cap_get_capType(read_cte(&self.ctes, slot).cap) != cap_null_cap {
            self.current_syscall_error.error_type = seL4_DeleteFirst;
            return EXCEPTION_SYSCALL_ERROR;
        }
        EXCEPTION_NONE
    }
}

// ---------------------------------------------------------------------------
// Consistency of the mapping-database links
// ---------------------------------------------------------------------------

/// A slot address that the links can hold: nonzero, 4-byte aligned, and a
/// canonical 39-bit address.
pub open spec fn slot_addr_ok(a: u64) -> bool {
    &&& a != 0
    &&& a & 0x3u64 == 0
    &&& sign_extend_39(a & 0x7ffffffffcu64) == a
}

/// The next link of the slot at `a`.
pub open spec fn link_next(m: Map<u64, cte_t>, a: u64) -> u64 {
    spec_mdb_next(cte_at(m, a).cteMDBNode)
}

/// The previous link of the slot at `a`.
pub open spec fn link_prev(m: Map<u64, cte_t>, a: u64) -> u64 {
    spec_mdb_prev(cte_at(m, a).cteMDBNode)
}

/// Following next links from any slot strictly lowers the rank `r`: the
/// links form no cycle.
pub open spec fn mdb_ranked(m: Map<u64, cte_t>, r: spec_fn(u64) -> nat) -> bool {
    forall|a: u64| m.contains_key(a) && #[trigger] link_next(m, a) != 0 ==> r(link_next(m, a)) < r(a)
}

/// A consistent mapping database has no slot that links to itself.
pub proof fn lemma_no_self_link(m: Map<u64, cte_t>, a: u64)
    requires
        mdb_links_ok(m),
        a != 0,
    ensures
        link_next(m, a) != a,
        link_prev(m, a) != a,
{
    let r = choose|r: spec_fn(u64) -> nat| mdb_ranked(m, r);
    lemma_null_mdb_node_links();
    if !m.contains_key(a) {
        assert(cte_at(m, a) == crate::state::spec_empty_cte());
    } else {
        if link_prev(m, a) == a {
            assert(link_next(m, link_prev(m, a)) == a);
        }
    }
}

/// The mapping-database links are consistent: every slot has an address the
/// links can hold, each link is answered by the opposite link of the slot it
/// names, and the links form no cycle (some rank drops along every next
/// link).
pub open spec fn mdb_links_ok(m: Map<u64, cte_t>) -> bool {
    &&& forall|a: u64| #[trigger] m.contains_key(a) ==> slot_addr_ok(a)
    &&& exists|r: spec_fn(u64) -> nat| #[trigger] mdb_ranked(m, r)
    &&& forall|a: u64|
        m.contains_key(a) && #[trigger] link_next(m, a) != 0 ==> m.contains_key(link_next(m, a))
            && link_prev(m, link_next(m, a)) == a
    &&& forall|a: u64|
        m.contains_key(a) && #[trigger] link_prev(m, a) != 0 ==> m.contains_key(link_prev(m, a))
            && link_next(m, link_prev(m, a)) == a
}

/// The node of an empty slot has no links.
proof fn lemma_null_mdb_node_links()
    ensures
        spec_mdb_next(spec_null_mdb_node()) == 0,
        spec_mdb_prev(spec_null_mdb_node()) == 0,
{
    lemma_constant_fields();
}

/// Setting the flags of a node leaves its links alone.
proof fn lemma_mdb_flags_keep_links(n: mdb_node_t, v: u64)
    ensures
        spec_mdb_next(spec_mdb_set_revocable(n, v)) == spec_mdb_next(n),
        spec_mdb_next(spec_mdb_set_first_badged(n, v)) == spec_mdb_next(n),
        spec_mdb_prev(spec_mdb_set_revocable(n, v)) == spec_mdb_prev(n),
        spec_mdb_prev(spec_mdb_set_first_badged(n, v)) == spec_mdb_prev(n),
{
    lemma_constant_fields();
    lemma_masked_write(n.words[1], v << 1u64, 0x2u64, 0x7ffffffffcu64);
    lemma_masked_write(n.words[1], v, 0x1u64, 0x7ffffffffcu64);
}

/// Writing one link of a node leaves the other link alone, and a slot
/// address that the links can hold reads back unchanged.
pub proof fn lemma_mdb_link_writes(n: mdb_node_t, v: u64)
    ensures
        spec_mdb_prev(spec_mdb_set_next(n, v)) == spec_mdb_prev(n),
        spec_mdb_next(spec_mdb_set_prev(n, v)) == spec_mdb_next(n),
        slot_addr_ok(v) ==> spec_mdb_next(spec_mdb_set_next(n, v)) == v,
{
    lemma_masked_write(n.words[1], v, 0x7ffffffffcu64, 0);
}

/// The links of every slot after a move: the destination takes the source's
/// links, the source's neighbours point at the destination, the source is
/// unlinked, and every other slot keeps its links.
proof fn lemma_cte_move_links(m: Map<u64, cte_t>, c: cap_t, src: u64, dest: u64, x: u64)
    requires
        cte_move_pre(m, dest),
        slot_addr_ok(dest),
        src != dest,
        link_prev(m, src) != dest,
        link_next(m, src) != dest,
        link_prev(m, src) == src <==> link_next(m, src) == src,
    ensures
        ({
            let p = link_prev(m, src);
            let nx = link_next(m, src);
            let m2 = spec_cte_move(m, c, src, dest);
            &&& link_next(m2, x) == if x == dest {
                nx
            } else if x == p && p != 0 {
                dest
            } else if x == src {
                0
            } else {
                link_next(m, x)
            }
            &&& link_prev(m2, x) == if x == dest {
                p
            } else if x == nx && nx != 0 {
                dest
            } else if x == src {
                0
            } else {
                link_prev(m, x)
            }
            &&& m2.contains_key(x) <==> (m.contains_key(x) || x == src || x == dest || (x == p && p
                != 0) || (x == nx && nx != 0))
        }),
{
    let mdb = cte_at(m, src).cteMDBNode;
    let p = spec_mdb_prev(mdb);
    let nx = spec_mdb_next(mdb);
    let m1 = set_cte_cap(m, dest, c);
    let m2 = set_cte_cap(m1, src, spec_cap_null_cap());
    let m3 = set_cte_mdb(m2, dest, mdb);
    let m4 = set_cte_mdb(m3, src, spec_null_mdb_node());
    let m5 = if p != 0 {
        set_mdb_next_at(m4, p, dest)
    } else {
        m4
    };
    let m6 = spec_cte_move(m, c, src, dest);
    lemma_null_mdb_node_links();
    lemma_mdb_link_writes(cte_at(m4, p).cteMDBNode, dest);
    lemma_mdb_link_writes(cte_at(m5, nx).cteMDBNode, dest);
}

/// Moving a capability keeps the mapping-database links consistent.
pub proof fn law_cte_move_keeps_links(m: Map<u64, cte_t>, c: cap_t, src: u64, dest: u64)
    requires
        mdb_links_ok(m),
        cte_move_pre(m, dest),
        slot_addr_ok(src),
        slot_addr_ok(dest),
        src != dest,
    ensures
        mdb_links_ok(spec_cte_move(m, c, src, dest)),
{
    let p = link_prev(m, src);
    let nx = link_next(m, src);
    let m2 = spec_cte_move(m, c, src, dest);
    lemma_null_mdb_node_links();
    // Nobody links to the empty destination.
    assert forall|a: u64| m.contains_key(a) implies link_next(m, a) != dest && link_prev(m, a)
        != dest by {
        if link_next(m, a) == dest {
            assert(m.contains_key(link_next(m, a)));
        }
        if link_prev(m, a) == dest {
            assert(m.contains_key(link_prev(m, a)));
        }
    }
    if !m.contains_key(src) {
        assert(cte_at(m, src) == crate::state::spec_empty_cte());
    } else {
        if p == src {
            assert(link_next(m, link_prev(m, src)) == src);
        }
        if nx == src {
            assert(link_prev(m, link_next(m, src)) == src);
        }
    }
    assert(p != dest && nx != dest);
    assert forall|x: u64| #[trigger] m2.contains_key(x) implies slot_addr_ok(x) by {
        lemma_cte_move_links(m, c, src, dest, x);
        if x == p && p != 0 {
            assert(m.contains_key(src));
        }
        if x == nx && nx != 0 {
            assert(m.contains_key(src));
        }
    }
    assert forall|x: u64|
        m2.contains_key(x) && #[trigger] link_next(m2, x) != 0 implies m2.contains_key(
        link_next(m2, x)) && link_prev(m2, link_next(m2, x)) == x by {
        lemma_cte_move_links(m, c, src, dest, x);
        let y = link_next(m2, x);
        lemma_cte_move_links(m, c, src, dest, y);
        if x == dest {
            assert(m.contains_key(src));
            assert(m.contains_key(nx) && link_prev(m, nx) == src);
        } else if x == p && p != 0 {
        } else if x == src {
        } else {
            assert(m.contains_key(x));
            assert(m.contains_key(y) && link_prev(m, y) == x);
            if y == nx && nx != 0 {
                assert(m.contains_key(src));
                assert(link_prev(m, nx) == src);
            }
            if y == src {
                assert(link_prev(m, src) == x);
            }
        }
    }
    assert forall|x: u64|
        m2.contains_key(x) && #[trigger] link_prev(m2, x) != 0 implies m2.contains_key(
        link_prev(m2, x)) && link_next(m2, link_prev(m2, x)) == x by {
        lemma_cte_move_links(m, c, src, dest, x);
        let y = link_prev(m2, x);
        lemma_cte_move_links(m, c, src, dest, y);
        if x == dest {
            assert(m.contains_key(src));
            assert(m.contains_key(p) && link_next(m, p) == src);
        } else if x == nx && nx != 0 {
        } else if x == src {
        } else {
            assert(m.contains_key(x));
            assert(m.contains_key(y) && link_next(m, y) == x);
            if y == p && p != 0 {
                assert(m.contains_key(src));
                assert(link_next(m, p) == src);
            }
            if y == src {
                assert(link_next(m, src) == x);
            }
        }
    }
    // The destination takes the source's rank.
    let r = choose|r: spec_fn(u64) -> nat| mdb_ranked(m, r);
    let r2 = |y: u64| if y == dest { r(src) } else { r(y) };
    assert forall|x: u64| m2.contains_key(x) && #[trigger] link_next(m2, x) != 0 implies r2(
        link_next(m2, x),
    ) < r2(x) by {
        lemma_cte_move_links(m, c, src, dest, x);
        if x == dest {
            assert(m.contains_key(src));
        } else if x == p && p != 0 {
            assert(m.contains_key(src));
            assert(link_next(m, p) == src);
        } else if x != src {
            assert(m.contains_key(x));
        }
    }
    assert(mdb_ranked(m2, r2));
}

/// The links of every slot after an insertion: the destination follows the
/// source and precedes the source's old successor, which points back at it;
/// every other slot keeps its links.
proof fn lemma_cte_insert_links(m: Map<u64, cte_t>, c: cap_t, src: u64, dest: u64, x: u64)
    requires
        cte_move_pre(m, dest),
        slot_addr_ok(dest),
        src != dest,
        link_next(m, src) != dest,
    ensures
        ({
            let nx = link_next(m, src);
            let m2 = spec_cte_insert(m, c, src, dest);
            &&& link_next(m2, x) == if x == dest {
                nx
            } else if x == src {
                dest
            } else {
                link_next(m, x)
            }
            &&& link_prev(m2, x) == if x == dest {
                src
            } else if x == nx && nx != 0 {
                dest
            } else {
                link_prev(m, x)
            }
            &&& m2.contains_key(x) <==> (m.contains_key(x) || x == src || x == dest || (x == nx
                && nx != 0))
        }),
{
    let srcMDB = cte_at(m, src).cteMDBNode;
    let srcCap = cte_at(m, src).cap;
    let rev: u64 = if spec_is_cap_revocable(c, srcCap) {
        1
    } else {
        0
    };
    let n1 = spec_mdb_set_prev(srcMDB, src);
    let n2 = spec_mdb_set_revocable(n1, rev);
    let newMDB = spec_mdb_set_first_badged(n2, rev);
    lemma_mdb_flags_keep_links(n1, rev);
    lemma_mdb_flags_keep_links(n2, rev);
    lemma_mdb_link_writes(srcMDB, src);
    let m1 = spec_set_untyped_cap_as_full(m, srcCap, c, src);
    let m2 = set_cte_mdb(set_cte_cap(m1, dest, c), dest, newMDB);
    let m3 = set_mdb_next_at(m2, src, dest);
    lemma_mdb_link_writes(cte_at(m2, src).cteMDBNode, dest);
    let nx = spec_mdb_next(newMDB);
    lemma_mdb_link_writes(cte_at(m3, nx).cteMDBNode, dest);
}

/// Inserting a capability into an empty slot keeps the mapping-database
/// links consistent.
pub proof fn law_cte_insert_keeps_links(m: Map<u64, cte_t>, c: cap_t, src: u64, dest: u64)
    requires
        mdb_links_ok(m),
        cte_move_pre(m, dest),
        slot_addr_ok(src),
        slot_addr_ok(dest),
        src != dest,
    ensures
        mdb_links_ok(spec_cte_insert(m, c, src, dest)),
{
    let nx = link_next(m, src);
    let m2 = spec_cte_insert(m, c, src, dest);
    lemma_null_mdb_node_links();
    // Nobody links to the empty destination.
    assert forall|a: u64| m.contains_key(a) implies link_next(m, a) != dest && link_prev(m, a)
        != dest by {
        if link_next(m, a) == dest {
            assert(m.contains_key(link_next(m, a)));
        }
        if link_prev(m, a) == dest {
            assert(m.contains_key(link_prev(m, a)));
        }
    }
    if !m.contains_key(src) {
        assert(cte_at(m, src) == crate::state::spec_empty_cte());
    }
    assert(nx != dest);
    assert forall|x: u64| #[trigger] m2.contains_key(x) implies slot_addr_ok(x) by {
        lemma_cte_insert_links(m, c, src, dest, x);
        if x == nx && nx != 0 {
            assert(m.contains_key(src));
        }
    }
    assert forall|x: u64|
        m2.contains_key(x) && #[trigger] link_next(m2, x) != 0 implies m2.contains_key(
        link_next(m2, x)) && link_prev(m2, link_next(m2, x)) == x by {
        lemma_cte_insert_links(m, c, src, dest, x);
        let y = link_next(m2, x);
        lemma_cte_insert_links(m, c, src, dest, y);
        if x == dest {
            assert(m.contains_key(src));
            assert(m.contains_key(nx) && link_prev(m, nx) == src);
        } else if x == src {
        } else {
            assert(m.contains_key(x));
            assert(m.contains_key(y) && link_prev(m, y) == x);
            if y == nx && nx != 0 {
                assert(m.contains_key(src));
                assert(link_prev(m, nx) == src);
            }
        }
    }
    assert forall|x: u64|
        m2.contains_key(x) && #[trigger] link_prev(m2, x) != 0 implies m2.contains_key(
        link_prev(m2, x)) && link_next(m2, link_prev(m2, x)) == x by {
        lemma_cte_insert_links(m, c, src, dest, x);
        let y = link_prev(m2, x);
        lemma_cte_insert_links(m, c, src, dest, y);
        if x == dest {
        } else if x == nx && nx != 0 {
        } else {
            assert(m.contains_key(x));
            assert(m.contains_key(y) && link_next(m, y) == x);
            if y == src {
                assert(link_next(m, src) == x);
            }
        }
    }
    // The destination ranks between the source and its old successor.
    let r = choose|r: spec_fn(u64) -> nat| mdb_ranked(m, r);
    let r2 = |y: u64| if y == dest { 2 * r(src) + 1 } else { 2 * r(y) + 2 };
    assert forall|x: u64| m2.contains_key(x) && #[trigger] link_next(m2, x) != 0 implies r2(
        link_next(m2, x),
    ) < r2(x) by {
        lemma_cte_insert_links(m, c, src, dest, x);
        if x == dest {
            assert(m.contains_key(src));
        } else if x != src {
            assert(m.contains_key(x));
        }
    }
    assert(mdb_ranked(m2, r2));
}

/// The links of every slot after emptying the slot at `slot`, which holds a
/// capability: its predecessor and successor are linked to each other, the
/// slot is unlinked, and every other slot keeps its links.
proof fn lemma_empty_slot_links(m: Map<u64, cte_t>, slot: u64, x: u64)
    requires
        spec_cap_type(cte_at(m, slot).cap) != cap_null_cap,
        link_next(m, slot) == 0 || slot_addr_ok(link_next(m, slot)),
    ensures
        ({
            let p = link_prev(m, slot);
            let nx = link_next(m, slot);
            let m2 = spec_empty_slot(m, slot);
            &&& link_next(m2, x) == if x == slot {
                0
            } else if x == p && p != 0 {
                nx
            } else {
                link_next(m, x)
            }
            &&& link_prev(m2, x) == if x == slot {
                0
            } else if x == nx && nx != 0 {
                p
            } else {
                link_prev(m, x)
            }
            &&& m2.contains_key(x) <==> (m.contains_key(x) || x == slot || (x == p && p != 0) || (x
                == nx && nx != 0))
        }),
{
    let n = cte_at(m, slot).cteMDBNode;
    let p = spec_mdb_prev(n);
    let nx = spec_mdb_next(n);
    lemma_null_mdb_node_links();
    lemma_constant_fields();
    lemma_masked_write(cte_at(m, p).cteMDBNode.words[1], nx, 0x7ffffffffcu64, 0);
    lemma_mdb_link_writes(cte_at(m, p).cteMDBNode, nx);
    let m1 = if p != 0 {
        set_mdb_next_at(m, p, nx)
    } else {
        m
    };
    lemma_mdb_link_writes(cte_at(m1, nx).cteMDBNode, p);
    let m2 = if nx != 0 {
        set_mdb_prev_at(m1, nx, p)
    } else {
        m1
    };
    let nn = cte_at(m2, nx).cteMDBNode;
    lemma_mdb_flags_keep_links(nn, 0);
    lemma_mdb_flags_keep_links(nn, 1);
}

/// Emptying a slot keeps the mapping-database links consistent.
pub proof fn law_empty_slot_keeps_links(m: Map<u64, cte_t>, slot: u64)
    requires
        mdb_links_ok(m),
    ensures
        mdb_links_ok(spec_empty_slot(m, slot)),
{
    if spec_cap_type(cte_at(m, slot).cap) != cap_null_cap {
        let p = link_prev(m, slot);
        let nx = link_next(m, slot);
        let m2 = spec_empty_slot(m, slot);
        lemma_constant_fields();
        assert(m.contains_key(slot));
        assert(nx != 0 ==> m.contains_key(nx) && link_prev(m, nx) == slot);
        assert(p != 0 ==> m.contains_key(p) && link_next(m, p) == slot);
        assert(p == slot <==> nx == slot);
        assert forall|x: u64| #[trigger] m2.contains_key(x) implies slot_addr_ok(x) by {
            lemma_empty_slot_links(m, slot, x);
        }
        assert forall|x: u64|
            m2.contains_key(x) && #[trigger] link_next(m2, x) != 0 implies m2.contains_key(
            link_next(m2, x)) && link_prev(m2, link_next(m2, x)) == x by {
            lemma_empty_slot_links(m, slot, x);
            let y = link_next(m2, x);
            lemma_empty_slot_links(m, slot, y);
            if x == p && p != 0 {
            } else {
                assert(m.contains_key(x));
                assert(m.contains_key(y) && link_prev(m, y) == x);
            }
        }
        assert forall|x: u64|
            m2.contains_key(x) && #[trigger] link_prev(m2, x) != 0 implies m2.contains_key(
            link_prev(m2, x)) && link_next(m2, link_prev(m2, x)) == x by {
            lemma_empty_slot_links(m, slot, x);
            let y = link_prev(m2, x);
            lemma_empty_slot_links(m, slot, y);
            if x == nx && nx != 0 {
            } else {
                assert(m.contains_key(x));
                assert(m.contains_key(y) && link_next(m, y) == x);
            }
        }
        let r = choose|r: spec_fn(u64) -> nat| mdb_ranked(m, r);
        assert forall|x: u64| m2.contains_key(x) && #[trigger] link_next(m2, x) != 0 implies r(
            link_next(m2, x),
        ) < r(x) by {
            lemma_empty_slot_links(m, slot, x);
            if x != slot && !(x == p && p != 0) {
                assert(m.contains_key(x));
            }
        }
        assert(mdb_ranked(m2, r));
    }
}

/// Writing a next link, a previous link, a whole node or a capability into
/// one slot: how the links and the slots present change.
proof fn lemma_slot_writes(m: Map<u64, cte_t>, a: u64, v: u64, n: mdb_node_t, c: cap_t)
    requires
        slot_addr_ok(v),
    ensures
        forall|x: u64| #[trigger]
            link_next(set_mdb_next_at(m, a, v), x) == if x == a {
                v
            } else {
                link_next(m, x)
            },
        forall|x: u64| #[trigger] link_prev(set_mdb_next_at(m, a, v), x) == link_prev(m, x),
        forall|x: u64| #[trigger] link_next(set_mdb_prev_at(m, a, v), x) == link_next(m, x),
        forall|x: u64| #[trigger]
            link_prev(set_mdb_prev_at(m, a, v), x) == if x == a {
                v
            } else {
                link_prev(m, x)
            },
        forall|x: u64| #[trigger]
            link_next(set_cte_mdb(m, a, n), x) == if x == a {
                spec_mdb_next(n)
            } else {
                link_next(m, x)
            },
        forall|x: u64| #[trigger]
            link_prev(set_cte_mdb(m, a, n), x) == if x == a {
                spec_mdb_prev(n)
            } else {
                link_prev(m, x)
            },
        forall|x: u64| #[trigger] link_next(set_cte_cap(m, a, c), x) == link_next(m, x),
        forall|x: u64| #[trigger] link_prev(set_cte_cap(m, a, c), x) == link_prev(m, x),
        forall|x: u64| #[trigger]
            set_mdb_next_at(m, a, v).contains_key(x) <==> m.contains_key(x) || x == a,
        forall|x: u64| #[trigger]
            set_mdb_prev_at(m, a, v).contains_key(x) <==> m.contains_key(x) || x == a,
        forall|x: u64| #[trigger]
            set_cte_mdb(m, a, n).contains_key(x) <==> m.contains_key(x) || x == a,
        forall|x: u64| #[trigger]
            set_cte_cap(m, a, c).contains_key(x) <==> m.contains_key(x) || x == a,
{
    lemma_mdb_link_writes(cte_at(m, a).cteMDBNode, v);
}

/// The address `x` with `s1` and `s2` exchanged.
pub open spec fn swap_addr(x: u64, s1: u64, s2: u64) -> u64 {
    if x == s1 {
        s2
    } else if x == s2 {
        s1
    } else {
        x
    }
}

/// After a swap the links are those of before with the two slots'
/// addresses exchanged, and the slots present are those of before and the
/// two slots.
proof fn lemma_cte_swap_links(m: Map<u64, cte_t>, c1: cap_t, s1: u64, c2: cap_t, s2: u64)
    requires
        mdb_links_ok(m),
        slot_addr_ok(s1),
        slot_addr_ok(s2),
        s1 != s2,
        link_next(m, s1) != s1,
        link_next(m, s2) != s2,
    ensures
        forall|x: u64| #[trigger]
            link_next(spec_cte_swap(m, c1, s1, c2, s2), x) == swap_addr(
                link_next(m, swap_addr(x, s1, s2)),
                s1,
                s2,
            ),
        forall|x: u64| #[trigger]
            link_prev(spec_cte_swap(m, c1, s1, c2, s2), x) == swap_addr(
                link_prev(m, swap_addr(x, s1, s2)),
                s1,
                s2,
            ),
        forall|x: u64| #[trigger]
            spec_cte_swap(m, c1, s1, c2, s2).contains_key(x) <==> m.contains_key(x) || x == s1 || x
                == s2,
{
    lemma_null_mdb_node_links();
    let p1 = link_prev(m, s1);
    let n1 = link_next(m, s1);
    let p2 = link_prev(m, s2);
    let n2 = link_next(m, s2);
    if !m.contains_key(s1) {
        assert(cte_at(m, s1) == crate::state::spec_empty_cte());
    }
    if !m.contains_key(s2) {
        assert(cte_at(m, s2) == crate::state::spec_empty_cte());
    }
    assert(p1 != 0 ==> m.contains_key(p1) && link_next(m, p1) == s1);
    assert(n1 != 0 ==> m.contains_key(n1) && link_prev(m, n1) == s1);
    assert(p2 != 0 ==> m.contains_key(p2) && link_next(m, p2) == s2);
    assert(n2 != 0 ==> m.contains_key(n2) && link_prev(m, n2) == s2);
    assert(p1 != s1) by {
        if p1 == s1 {
            assert(link_next(m, p1) == s1);
        }
    }
    assert(p2 != s2) by {
        if p2 == s2 {
            assert(link_next(m, p2) == s2);
        }
    }
    let z = spec_null_mdb_node();
    let m1 = set_cte_cap(m, s1, c2);
    let m2 = set_cte_cap(m1, s2, c1);
    lemma_slot_writes(m, s1, s2, z, c2);
    lemma_slot_writes(m1, s2, s2, z, c1);
    let mdb1 = cte_at(m2, s1).cteMDBNode;
    let m3 = if p1 != 0 {
        set_mdb_next_at(m2, p1, s2)
    } else {
        m2
    };
    lemma_slot_writes(m2, p1, s2, z, c1);
    let m4 = if n1 != 0 {
        set_mdb_prev_at(m3, n1, s2)
    } else {
        m3
    };
    lemma_slot_writes(m3, n1, s2, z, c1);
    let mdb2 = cte_at(m4, s2).cteMDBNode;
    let m5 = set_cte_mdb(m4, s1, mdb2);
    lemma_slot_writes(m4, s1, s2, mdb2, c1);
    let m6 = set_cte_mdb(m5, s2, mdb1);
    lemma_slot_writes(m5, s2, s2, mdb1, c1);
    let q2 = spec_mdb_prev(mdb2);
    let m7 = if q2 != 0 {
        set_mdb_next_at(m6, q2, s1)
    } else {
        m6
    };
    lemma_slot_writes(m6, q2, s1, z, c1);
    let r2 = spec_mdb_next(mdb2);
    let m8 = if r2 != 0 {
        set_mdb_prev_at(m7, r2, s1)
    } else {
        m7
    };
    lemma_slot_writes(m7, r2, s1, z, c1);
    assert(m8 == spec_cte_swap(m, c1, s1, c2, s2));
    assert(spec_mdb_prev(mdb1) == p1 && spec_mdb_next(mdb1) == n1);
    assert(r2 == link_next(m4, s2) && q2 == link_prev(m4, s2));
    assert(link_next(m4, s2) == link_next(m3, s2) && link_prev(m3, s2) == link_prev(m2, s2));
    assert(link_next(m2, s2) == n2 && link_prev(m2, s2) == p2);
    assert(r2 == if p1 == s2 {
        s2
    } else {
        n2
    });
    assert(q2 == if n1 == s2 {
        s2
    } else {
        p2
    });
    assert forall|x: u64| #[trigger]
        link_next(m8, x) == swap_addr(link_next(m, swap_addr(x, s1, s2)), s1, s2) by {
        if x == s1 || x == s2 || x == p1 || x == n1 || x == p2 || x == n2 {
            if p1 == s2 {
                assert(n2 == s1);
            }
            if n1 == s2 {
                assert(p2 == s1);
            }
            if x != s1 && x != s2 && x == p1 && p1 != 0 && x == p2 {
                assert(link_next(m, p1) == s1 && link_next(m, p2) == s2);
            }
        }
    }
    assert forall|x: u64| #[trigger]
        link_prev(m8, x) == swap_addr(link_prev(m, swap_addr(x, s1, s2)), s1, s2) by {
        if x == s1 || x == s2 || x == p1 || x == n1 || x == p2 || x == n2 {
            if p1 == s2 {
                assert(n2 == s1);
            }
            if n1 == s2 {
                assert(p2 == s1);
            }
            if x != s1 && x != s2 && x == n1 && n1 != 0 && x == n2 {
                assert(link_prev(m, n1) == s1 && link_prev(m, n2) == s2);
            }
        }
    }
}

/// Exchanging the capabilities of two distinct slots keeps the
/// mapping-database links consistent. A slot that holds nothing yet must
/// have an address that a link can hold.
pub proof fn law_cte_swap_keeps_links(m: Map<u64, cte_t>, c1: cap_t, s1: u64, c2: cap_t, s2: u64)
    requires
        mdb_links_ok(m),
        m.contains_key(s1) || slot_addr_ok(s1),
        m.contains_key(s2) || slot_addr_ok(s2),
        s1 != s2,
    ensures
        mdb_links_ok(spec_cte_swap(m, c1, s1, c2, s2)),
{
    assert(slot_addr_ok(s1) && slot_addr_ok(s2));
    let m2 = spec_cte_swap(m, c1, s1, c2, s2);
    lemma_no_self_link(m, s1);
    lemma_no_self_link(m, s2);
    lemma_cte_swap_links(m, c1, s1, c2, s2);
    lemma_null_mdb_node_links();
    if !m.contains_key(s1) {
        assert(cte_at(m, s1) == crate::state::spec_empty_cte());
    }
    if !m.contains_key(s2) {
        assert(cte_at(m, s2) == crate::state::spec_empty_cte());
    }
    assert forall|x: u64| #[trigger] m2.contains_key(x) implies slot_addr_ok(x) by {}
    assert forall|x: u64|
        m2.contains_key(x) && #[trigger] link_next(m2, x) != 0 implies m2.contains_key(
        link_next(m2, x)) && link_prev(m2, link_next(m2, x)) == x by {
        let sx = swap_addr(x, s1, s2);
        let y0 = link_next(m, sx);
        assert(y0 != 0);
        assert(m.contains_key(sx));
        assert(m.contains_key(y0) && link_prev(m, y0) == sx);
        let y = swap_addr(y0, s1, s2);
        assert(link_next(m2, x) == y);
        assert(swap_addr(y, s1, s2) == y0);
        assert(link_prev(m2, y) == swap_addr(link_prev(m, y0), s1, s2));
    }
    assert forall|x: u64|
        m2.contains_key(x) && #[trigger] link_prev(m2, x) != 0 implies m2.contains_key(
        link_prev(m2, x)) && link_next(m2, link_prev(m2, x)) == x by {
        let sx = swap_addr(x, s1, s2);
        let y0 = link_prev(m, sx);
        assert(y0 != 0);
        assert(m.contains_key(sx));
        assert(m.contains_key(y0) && link_next(m, y0) == sx);
        let y = swap_addr(y0, s1, s2);
        assert(link_prev(m2, x) == y);
        assert(swap_addr(y, s1, s2) == y0);
        assert(link_next(m2, y) == swap_addr(link_next(m, y0), s1, s2));
    }
    // Each slot takes the rank of the one it exchanged places with.
    let r = choose|r: spec_fn(u64) -> nat| mdb_ranked(m, r);
    let r2 = |y: u64| r(swap_addr(y, s1, s2));
    assert forall|x: u64| m2.contains_key(x) && #[trigger] link_next(m2, x) != 0 implies r2(
        link_next(m2, x),
    ) < r2(x) by {
        let sx = swap_addr(x, s1, s2);
        let y0 = link_next(m, sx);
        assert(y0 != 0);
        assert(m.contains_key(sx));
        assert(swap_addr(swap_addr(y0, s1, s2), s1, s2) == y0);
    }
    assert(mdb_ranked(m2, r2));
}

/// A fresh node keeps the next link it is made with, when that link is
/// empty or a slot address.
proof fn lemma_mdb_node_new_next(v: u64, r: u64, f: u64, p: u64)
    requires
        v == 0 || slot_addr_ok(v),
    ensures
        spec_mdb_next(spec_mdb_node_new(v, r, f, p)) == v,
        spec_mdb_prev(spec_mdb_node_new(v, r, f, p)) == p,
{
    let w = (v & 0x7ffffffffcu64) | ((r & 0x1u64) << 1u64) | (f & 0x1u64);
    assert(w & 0x7ffffffffcu64 == v & 0x7ffffffffcu64) by (bit_vector)
        requires
            w == (v & 0x7ffffffffcu64) | ((r & 0x1u64) << 1u64) | (f & 0x1u64),
    ;
    lemma_constant_fields();
}

/// Inserting a capability into an empty slot as the first child of another
/// slot keeps the mapping-database links consistent.
pub proof fn law_insert_new_cap_keeps_links(m: Map<u64, cte_t>, parent: u64, slot: u64, c: cap_t)
    requires
        mdb_links_ok(m),
        cte_move_pre(m, slot),
        slot_addr_ok(parent),
        slot_addr_ok(slot),
        parent != slot,
    ensures
        mdb_links_ok(spec_insert_new_cap(m, parent, slot, c)),
{
    lemma_null_mdb_node_links();
    if !m.contains_key(parent) {
        assert(cte_at(m, parent) == crate::state::spec_empty_cte());
    }
    // Nobody links to the empty slot.
    assert forall|a: u64| m.contains_key(a) implies link_next(m, a) != slot && link_prev(m, a)
        != slot by {
        if link_next(m, a) == slot {
            assert(m.contains_key(link_next(m, a)));
        }
        if link_prev(m, a) == slot {
            assert(m.contains_key(link_prev(m, a)));
        }
    }
    let nx = link_next(m, parent);
    assert(nx != 0 ==> m.contains_key(nx) && link_prev(m, nx) == parent);
    assert(nx != slot);
    let node = spec_mdb_node_new(nx, 1, 1, parent);
    lemma_mdb_node_new_next(nx, 1, 1, parent);
    let z = spec_null_mdb_node();
    let m1 = set_cte_cap(m, slot, c);
    lemma_slot_writes(m, slot, slot, z, c);
    let m2 = set_cte_mdb(m1, slot, node);
    lemma_slot_writes(m1, slot, slot, node, c);
    let m3 = if nx != 0 {
        set_mdb_prev_at(m2, nx, slot)
    } else {
        m2
    };
    lemma_slot_writes(m2, nx, slot, z, c);
    let m4 = set_mdb_next_at(m3, parent, slot);
    lemma_slot_writes(m3, parent, slot, z, c);
    assert(m4 == spec_insert_new_cap(m, parent, slot, c));
    assert forall|x: u64| #[trigger] m4.contains_key(x) implies slot_addr_ok(x) by {}
    assert forall|x: u64|
        m4.contains_key(x) && #[trigger] link_next(m4, x) != 0 implies m4.contains_key(
        link_next(m4, x)) && link_prev(m4, link_next(m4, x)) == x by {
        if x != parent && x != slot {
            let y = link_next(m, x);
            assert(m.contains_key(y) && link_prev(m, y) == x);
            if y == nx && nx != 0 {
                assert(link_prev(m, nx) == parent);
            }
        }
    }
    assert forall|x: u64|
        m4.contains_key(x) && #[trigger] link_prev(m4, x) != 0 implies m4.contains_key(
        link_prev(m4, x)) && link_next(m4, link_prev(m4, x)) == x by {
        if x != slot && !(x == nx && nx != 0) {
            let y = link_prev(m, x);
            assert(m.contains_key(y) && link_next(m, y) == x);
            if y == parent {
                assert(link_next(m, parent) == x);
            }
        }
    }
    // The new slot ranks between its parent and the parent's old successor.
    let r = choose|r: spec_fn(u64) -> nat| mdb_ranked(m, r);
    let r2 = |y: u64| if y == slot { 2 * r(parent) + 1 } else { 2 * r(y) + 2 };
    assert forall|x: u64| m4.contains_key(x) && #[trigger] link_next(m4, x) != 0 implies r2(
        link_next(m4, x),
    ) < r2(x) by {
        if x != parent && x != slot {
            assert(m.contains_key(x));
        }
    }
    assert(mdb_ranked(m4, r2));
}

/// The slots after rotating capabilities as `invokeCNodeRotate` does.
pub open spec fn spec_cnode_rotate(
    m: Map<u64, cte_t>,
    cap1: cap_t,
    cap2: cap_t,
    slot1: u64,
    slot2: u64,
    slot3: u64,
) -> Map<u64, cte_t> {
    if slot1 == slot3 {
        spec_cte_swap(m, cap1, slot1, cap2, slot2)
    } else {
        spec_cte_move(spec_cte_move(m, cap2, slot2, slot3), cap1, slot1, slot2)
    }
}

/// Rotating capabilities through three slots into an empty one, or swapping
/// two slots, keeps the mapping-database links consistent.
pub proof fn law_cnode_rotate_keeps_links(
    m: Map<u64, cte_t>,
    cap1: cap_t,
    cap2: cap_t,
    slot1: u64,
    slot2: u64,
    slot3: u64,
)
    requires
        mdb_links_ok(m),
        slot_addr_ok(slot1),
        slot_addr_ok(slot2),
        slot_addr_ok(slot3),
        slot1 != slot2,
        slot2 != slot3,
        slot1 != slot3 ==> cte_move_pre(m, slot3),
    ensures
        mdb_links_ok(spec_cnode_rotate(m, cap1, cap2, slot1, slot2, slot3)),
{
    if slot1 == slot3 {
        law_cte_swap_keeps_links(m, cap1, slot1, cap2, slot2);
    } else {
        law_cte_move_keeps_links(m, cap2, slot2, slot3);
        lemma_no_self_link(m, slot2);
        let m1 = spec_cte_move(m, cap2, slot2, slot3);
        lemma_null_mdb_node_links();
        lemma_constant_fields();
        let mdb = cte_at(m, slot2).cteMDBNode;
        let p = spec_mdb_prev(mdb);
        let nx = spec_mdb_next(mdb);
        let ma = set_cte_cap(set_cte_cap(m, slot3, cap2), slot2, spec_cap_null_cap());
        let mb = set_cte_mdb(set_cte_mdb(ma, slot3, mdb), slot2, spec_null_mdb_node());
        // The source of the first move is left empty and unlinked.
        assert(p != slot2 && nx != slot2) by {
            if m.contains_key(slot2) {
                if p == slot2 {
                    assert(link_next(m, link_prev(m, slot2)) == slot2);
                }
            } else {
                assert(cte_at(m, slot2) == crate::state::spec_empty_cte());
            }
        }
        assert(cte_at(m1, slot2) == cte_at(mb, slot2));
        assert(cte_move_pre(m1, slot2));
        law_cte_move_keeps_links(m1, cap1, slot1, slot2);
    }
}

/// Which capabilities a capability is a parent of in the mapping database.
/// Only a revocable capability, compared within the same region, is a parent
/// at all. A badged endpoint or notification capability is a parent exactly
/// of the capabilities with the same badge that are not the first with it;
/// an unbadged one, or a revocable capability of another kind, is a parent
/// of whatever follows it.
pub proof fn law_mdb_parent_of(m: Map<u64, cte_t>, a: u64, b: u64, same_region: u64)
    ensures
        ({
            let ca = cte_at(m, a);
            let cb = cte_at(m, b);
            let parent = spec_is_mdb_parent_of(m, a, b, same_region);
            let live = spec_mdb_revocable(ca.cteMDBNode) != 0 && same_region != 0;
            let ep_badged = spec_cap_type(ca.cap) == cap_endpoint_cap && spec_cap_ep_badge(ca.cap)
                != 0;
            let ntfn_badged = spec_cap_type(ca.cap) == cap_notification_cap && spec_cap_ntfn_badge(
                ca.cap,
            ) != 0;
            &&& parent ==> live
            &&& ep_badged ==> (parent <==> live && spec_cap_ep_badge(cb.cap) == spec_cap_ep_badge(
                ca.cap,
            ) && spec_mdb_first_badged(cb.cteMDBNode) == 0)
            &&& ntfn_badged ==> (parent <==> live && spec_cap_ntfn_badge(cb.cap)
                == spec_cap_ntfn_badge(ca.cap) && spec_mdb_first_badged(cb.cteMDBNode) == 0)
            &&& !ep_badged && !ntfn_badged ==> (parent <==> live)
        }),
{
}

} // verus!
