//! Deleting capabilities: the decisions of finalising a slot, reducing a
//! zombie, deleting a slot and revoking a capability's children.
//!
//! Each of these walks interleaves the kernel's own work on objects (tearing
//! down the object of a last capability, polling for pending interrupts,
//! comparing the objects that two capabilities name) with decisions on the
//! slots. The decisions stand here as functions from the state and the
//! outcome of the last piece of work (an event) to the next state and the
//! next piece of work to do (an action); the caller does that work and hands
//! back its outcome.
use vstd::prelude::*;

use crate::cnode::{
    capCyclicZombie, capRemovable, finaliseSlot_ret, set_cte_cap, spec_cap_cyclic_zombie,
    spec_cap_removable, spec_cte_swap, spec_empty_slot, spec_is_mdb_parent_of, with_ctes,
    write_cte_cap,
};
use crate::failures::{exception_t, EXCEPTION_NONE};
use crate::object::{
    cap_get_capType, cap_null_cap, cap_null_cap_new, cap_t, cap_zombie_cap,
    cap_zombie_cap_get_capZombieNumber, cap_zombie_cap_get_capZombiePtr,
    cap_zombie_cap_get_capZombieType, cap_zombie_cap_set_capZombieNumber, mdb_node_get_mdbNext,
    spec_cap_null_cap, spec_cap_type, spec_mdb_next, spec_zombie_bits, spec_zombie_number,
    spec_zombie_ptr, spec_zombie_set_number, spec_zombie_type, CTE_SIZE,
};
use crate::state::{cte_at, KernelState, KState, read_cte};
use crate::types::{bool_t, word_t};

verus! {

// ---------------------------------------------------------------------------
// Finalising a slot
// ---------------------------------------------------------------------------

/// What finalising a capability gave: what is left of it (a null
/// capability or a zombie), and the capability that names what is to be
/// cleaned up once its slot is emptied.
#[derive(Clone, Copy)]
pub struct finaliseCap_ret {
    pub remainder: cap_t,
    pub cleanupInfo: cap_t,
}

/// The outcome of the last piece of work in finalising a slot.
#[derive(Clone, Copy)]
pub enum FinaliseSlotEvent {
    /// Finalisation begins.
    Start,
    /// The capability in the slot was finalised.
    Finalised(finaliseCap_ret),
    /// The zombie in the slot was reduced, with this status.
    Reduced(exception_t),
    /// Pending interrupts were polled, with this status.
    Preempted(exception_t),
}

/// The next piece of work in finalising a slot.
#[derive(Clone, Copy)]
pub enum FinaliseSlotAction {
    /// Finalise the capability in the slot (telling the kernel whether it
    /// is the last one to its object).
    Finalise,
    /// Reduce the zombie now in the slot (`reduceZombie`).
    ReduceZombie,
    /// Poll for pending interrupts.
    PreemptionPoint,
    /// Finalisation is over, with this result.
    Done(finaliseSlot_ret),
}

/// A finalisation that ended with a failure status.
pub open spec fn finalise_failed(status: u64) -> FinaliseSlotAction {
    FinaliseSlotAction::Done(
        finaliseSlot_ret { status, success: 0, cleanupInfo: spec_cap_null_cap() },
    )
}

/// At the start of a round: a slot that is empty is finalised; otherwise
/// its capability is to be finalised.
pub open spec fn finalise_round(s: KState, slot: u64) -> (KState, FinaliseSlotAction) {
    if spec_cap_type(cte_at(s.ctes, slot).cap) != cap_null_cap {
        (s, FinaliseSlotAction::Finalise)
    } else {
        (
            s,
            FinaliseSlotAction::Done(
                finaliseSlot_ret { status: EXCEPTION_NONE, success: 1, cleanupInfo: spec_cap_null_cap() },
            ),
        )
    }
}

/// The state and the next action of `finaliseSlot(slot, immediate, event)`.
/// A round starts at the start and after a poll that found nothing pending;
/// a failed reduction or poll ends finalisation with its status. After the
/// capability is finalised, a remainder that lets the slot be emptied ends
/// finalisation with success and the clean-up capability; otherwise the
/// remainder is stored in the slot, and, unless `immediate`, a zombie that
/// stands for the slot itself ends finalisation without success; otherwise
/// the zombie is to be reduced.
pub open spec fn spec_finalise_slot(s: KState, slot: u64, immediate: u64, event: FinaliseSlotEvent) -> (
    KState,
    FinaliseSlotAction,
) {
    match event {
        FinaliseSlotEvent::Start => finalise_round(s, slot),
        FinaliseSlotEvent::Preempted(status) => if status != EXCEPTION_NONE {
            (s, finalise_failed(status))
        } else {
            finalise_round(s, slot)
        },
        FinaliseSlotEvent::Reduced(status) => if status != EXCEPTION_NONE {
            (s, finalise_failed(status))
        } else {
            (s, FinaliseSlotAction::PreemptionPoint)
        },
        FinaliseSlotEvent::Finalised(fc) => if spec_cap_removable(fc.remainder, slot) {
            (
                s,
                FinaliseSlotAction::Done(
                    finaliseSlot_ret { status: EXCEPTION_NONE, success: 1, cleanupInfo: fc.cleanupInfo },
                ),
            )
        } else {
            let s1 = with_ctes(s, set_cte_cap(s.ctes, slot, fc.remainder));
            if immediate == 0 && spec_cap_cyclic_zombie(fc.remainder, slot) {
                (
                    s1,
                    FinaliseSlotAction::Done(
                        finaliseSlot_ret {
                            status: EXCEPTION_NONE,
                            success: 0,
                            cleanupInfo: fc.cleanupInfo,
                        },
                    ),
                )
            } else {
                (s1, FinaliseSlotAction::ReduceZombie)
            }
        },
    }
}

/// `finaliseSlot` can take `event`: what finalising left is a null
/// capability or a zombie whose identifier can be read.
pub open spec fn can_finalise_slot(event: FinaliseSlotEvent) -> bool {
    match event {
        FinaliseSlotEvent::Finalised(fc) => {
            &&& spec_cap_type(fc.remainder) == cap_null_cap || spec_cap_type(fc.remainder)
                == cap_zombie_cap
            &&& spec_cap_type(fc.remainder) == cap_zombie_cap ==> spec_zombie_bits(fc.remainder)
                < 63
        },
        _ => true,
    }
}

// ---------------------------------------------------------------------------
// Reducing a zombie
// ---------------------------------------------------------------------------

/// The outcome of the last piece of work in reducing a zombie.
#[derive(Clone, Copy)]
pub enum ReduceZombieEvent {
    /// Reduction begins.
    Start,
    /// The last slot of the zombie `zombie` was deleted, with this status.
    EndDeleted { status: exception_t, zombie: cap_t },
}

/// The next piece of work in reducing a zombie.
#[derive(Clone, Copy)]
pub enum ReduceZombieAction {
    /// Delete the slot at `endSlot` (not exposed), the last slot of the
    /// zombie `zombie`.
    DeleteEnd { endSlot: word_t, zombie: cap_t },
    /// Reduction is over, with this status.
    Done(exception_t),
}

/// The address of the last slot that the zombie `z` holds.
pub open spec fn spec_zombie_end_slot(z: cap_t) -> u64 {
    (spec_zombie_ptr(z) + (spec_zombie_number(z) - 1) * CTE_SIZE) as u64
}

/// The state and the next action of `reduceZombie(slot, immediate, event)`.
/// At the start, with `immediate` the zombie's last slot is to be deleted;
/// otherwise the zombie is swapped into the first slot it stands for. Once
/// the last slot is deleted, a failure ends the reduction with its status;
/// otherwise, if the slot still holds the same zombie, its count drops by
/// one.
pub open spec fn spec_reduce_zombie(s: KState, slot: u64, immediate: u64, event: ReduceZombieEvent) -> (
    KState,
    ReduceZombieAction,
) {
    let c = cte_at(s.ctes, slot).cap;
    match event {
        ReduceZombieEvent::Start => if immediate == 1 {
            (s, ReduceZombieAction::DeleteEnd { endSlot: spec_zombie_end_slot(c), zombie: c })
        } else {
            let p = spec_zombie_ptr(c);
            if p == slot {
                (s, ReduceZombieAction::Done(EXCEPTION_NONE))
            } else {
                (
                    with_ctes(s, spec_cte_swap(s.ctes, cte_at(s.ctes, p).cap, p, c, slot)),
                    ReduceZombieAction::Done(EXCEPTION_NONE),
                )
            }
        },
        ReduceZombieEvent::EndDeleted { status, zombie } => if status != EXCEPTION_NONE {
            (s, ReduceZombieAction::Done(status))
        } else if spec_cap_type(c) == cap_zombie_cap && spec_zombie_ptr(c) == spec_zombie_ptr(zombie)
            && spec_zombie_number(c) == spec_zombie_number(zombie) && spec_zombie_type(c)
            == spec_zombie_type(zombie) {
            (
                with_ctes(
                    s,
                    set_cte_cap(
                        s.ctes,
                        slot,
                        spec_zombie_set_number(c, (spec_zombie_number(zombie) - 1) as u64),
                    ),
                ),
                ReduceZombieAction::Done(EXCEPTION_NONE),
            )
        } else {
            (s, ReduceZombieAction::Done(EXCEPTION_NONE))
        },
    }
}

/// `reduceZombie` can take `event`: the slot holds a zombie that still
/// holds a slot whose address fits in a word; once the last slot is
/// deleted, the slot holds a null capability or a zombie.
pub open spec fn can_reduce_zombie(s: KState, slot: u64, immediate: u64, event: ReduceZombieEvent) -> bool {
    let c = cte_at(s.ctes, slot).cap;
    match event {
        ReduceZombieEvent::Start => {
            &&& spec_cap_type(c) == cap_zombie_cap
            &&& spec_zombie_bits(c) < 63
            &&& immediate == 1 ==> spec_zombie_number(c) >= 1 && spec_zombie_ptr(c) + (
            spec_zombie_number(c) - 1) * CTE_SIZE <= u64::MAX
        },
        ReduceZombieEvent::EndDeleted { status, zombie } => status == EXCEPTION_NONE ==> {
            &&& spec_cap_type(c) == cap_null_cap || spec_cap_type(c) == cap_zombie_cap
            &&& spec_cap_type(c) == cap_zombie_cap ==> spec_zombie_bits(c) < 63
            &&& spec_zombie_bits(zombie) < 63
            &&& spec_zombie_number(zombie) >= 1
        },
    }
}

// ---------------------------------------------------------------------------
// Revoking
// ---------------------------------------------------------------------------

/// The outcome of the last piece of work in revoking a capability.
#[derive(Clone, Copy)]
pub enum RevokeEvent {
    /// Revocation begins, or goes on.
    Start,
    /// A child was deleted, with this status.
    Deleted(exception_t),
    /// Pending interrupts were polled, with this status.
    Preempted(exception_t),
}

/// The next piece of work in revoking a capability.
#[derive(Clone, Copy)]
pub enum RevokeAction {
    /// Delete the slot at this address (exposed), a child of the revoked
    /// capability.
    Delete(word_t),
    /// Poll for pending interrupts.
    PreemptionPoint,
    /// Revocation is over, with this status.
    Done(exception_t),
}

/// The next action of `cteRevoke(slot, event, sameRegion)`: at the start,
/// and after a poll that found nothing pending, the next slot in the
/// mapping database is to be deleted when it is a child of `slot`
/// (`sameRegion` says whether the capability in `slot` covers the region of
/// the one in its next slot); otherwise revocation is over. A failed
/// deletion or poll ends it with its status; a deletion is followed by a
/// poll.
pub open spec fn spec_cte_revoke(s: KState, slot: u64, event: RevokeEvent, sameRegion: u64) -> RevokeAction {
    let next = spec_mdb_next(cte_at(s.ctes, slot).cteMDBNode);
    let round = if next != 0 && spec_is_mdb_parent_of(s.ctes, slot, next, sameRegion) {
        RevokeAction::Delete(next)
    } else {
        RevokeAction::Done(EXCEPTION_NONE)
    };
    match event {
        RevokeEvent::Start => round,
        RevokeEvent::Deleted(status) => if status != EXCEPTION_NONE {
            RevokeAction::Done(status)
        } else {
            RevokeAction::PreemptionPoint
        },
        RevokeEvent::Preempted(status) => if status != EXCEPTION_NONE {
            RevokeAction::Done(status)
        } else {
            round
        },
    }
}

impl KernelState {
    /// Takes finalising the slot at `slot` one step on: given the outcome
    /// of the last piece of work, makes the decision and returns the next
    /// piece of work; see `spec_finalise_slot`.
    pub fn finaliseSlot(&mut self, slot: word_t, immediate: bool_t, event: FinaliseSlotEvent) -> (ret:
        FinaliseSlotAction)
        requires
            can_finalise_slot(event),
        ensures
            (final(self)@, ret) == spec_finalise_slot(old(self)@, slot, immediate, event),
            final(self).sched == old(self).sched,
    {
        match event {
            FinaliseSlotEvent::Reduced(status) => {
                if status != EXCEPTION_NONE {
                    return FinaliseSlotAction::Done(
                        finaliseSlot_ret { status, success: 0, cleanupInfo: cap_null_cap_new() },
                    );
                }
                return FinaliseSlotAction::PreemptionPoint;
            },
            FinaliseSlotEvent::Finalised(fc_ret) => {
                if capRemovable(fc_ret.remainder, slot) != 0 {
                    return FinaliseSlotAction::Done(
                        finaliseSlot_ret {
                            status: EXCEPTION_NONE,
                            success: 1,
                            cleanupInfo: fc_ret.cleanupInfo,
                        },
                    );
                }
                write_cte_cap(&mut self.ctes, slot, fc_ret.remainder);
                if immediate == 0 && capCyclicZombie(fc_ret.remainder, slot) != 0 {
                    return FinaliseSlotAction::Done(
                        finaliseSlot_ret {
                            status: EXCEPTION_NONE,
                            success: 0,
                            cleanupInfo: fc_ret.cleanupInfo,
                        },
                    );
                }
                return FinaliseSlotAction::ReduceZombie;
            },
            FinaliseSlotEvent::Preempted(status) => {
                if status != EXCEPTION_NONE {
                    return FinaliseSlotAction::Done(
                        finaliseSlot_ret { status, success: 0, cleanupInfo: cap_null_cap_new() },
                    );
                }
            },
            FinaliseSlotEvent::Start => {},
        }
        if cap_get_capType(read_cte(&self.ctes, slot).cap) != cap_null_cap {
            FinaliseSlotAction::Finalise
        } else {
            FinaliseSlotAction::Done(
                finaliseSlot_ret { status: EXCEPTION_NONE, success: 1, cleanupInfo: cap_null_cap_new() },
            )
        }
    }

    /// Takes reducing the zombie in the slot at `slot` one step on; see
    /// `spec_reduce_zombie`.
    pub fn reduceZombie(&mut self, slot: word_t, immediate: bool_t, event: ReduceZombieEvent) -> (ret:
        ReduceZombieAction)
        requires
            can_reduce_zombie(old(self)@, slot, immediate, event),
        ensures
            (final(self)@, ret) == spec_reduce_zombie(old(self)@, slot, immediate, event),
            final(self).sched == old(self).sched,
    {
        let c = read_cte(&self.ctes, slot).cap;
        match event {
            ReduceZombieEvent::Start => {
                let ptr = cap_zombie_cap_get_capZombiePtr(c);
                if immediate == 1 {
                    let n = cap_zombie_cap_get_capZombieNumber(c);
                    return ReduceZombieAction::DeleteEnd {
                        endSlot: ptr + (n - 1) * CTE_SIZE,
                        zombie: c,
                    };
                }
                self.capSwapForDelete(ptr, slot);
                ReduceZombieAction::Done(EXCEPTION_NONE)
            },
            ReduceZombieEvent::EndDeleted { status, zombie } => {
                if status != EXCEPTION_NONE {
                    return ReduceZombieAction::Done(status);
                }
                if cap_get_capType(c) == cap_zombie_cap {
                    let ptr = cap_zombie_cap_get_capZombiePtr(zombie);
                    let n = cap_zombie_cap_get_capZombieNumber(zombie);
                    if ptr == cap_zombie_cap_get_capZombiePtr(c) && cap_zombie_cap_get_capZombieNumber(
                        c,
                    ) == n && cap_zombie_cap_get_capZombieType(c) == cap_zombie_cap_get_capZombieType(
                        zombie,
                    ) {
                        write_cte_cap(
                            &mut self.ctes,
                            slot,
                            cap_zombie_cap_set_capZombieNumber(c, n - 1),
                        );
                    }
                }
                ReduceZombieAction::Done(EXCEPTION_NONE)
            },
        }
    }

    /// Finishes deleting the slot at `slot`, given how finalising it ended
    /// (`fs_ret`): a failure is returned; otherwise the slot is emptied when
    /// it is exposed or finalisation succeeded. Besides the status, the
    /// clean-up that emptying a slot that held a capability owes (the
    /// clean-up capability of the finalisation) is handed back.
    pub fn cteDelete(&mut self, slot: word_t, exposed: bool_t, fs_ret: finaliseSlot_ret) -> (ret: (
        exception_t,
        Option<cap_t>,
    ))
        ensures
            fs_ret.status != EXCEPTION_NONE ==> {
                &&& ret.0 == fs_ret.status
                &&& ret.1 is None
                &&& final(self)@ == old(self)@
            },
            fs_ret.status == EXCEPTION_NONE ==> (if exposed != 0 || fs_ret.success != 0 {
                &&& final(self)@ == with_ctes(old(self)@, spec_empty_slot(old(self)@.ctes, slot))
                &&& ret.0 == EXCEPTION_NONE
                &&& ret.1 == if spec_cap_type(cte_at(old(self)@.ctes, slot).cap) != cap_null_cap {
                    Some(fs_ret.cleanupInfo)
                } else {
                    None
                }
            } else {
                final(self)@ == old(self)@ && ret.0 == EXCEPTION_NONE && ret.1 is None
            }),
            final(self).sched == old(self).sched,
    {
        if fs_ret.status != EXCEPTION_NONE {
            return (fs_ret.status, None);
        }
        if exposed != 0 || fs_ret.success != 0 {
            let cleanup = self.emptySlot(slot, fs_ret.cleanupInfo);
            return (EXCEPTION_NONE, cleanup);
        }
        (EXCEPTION_NONE, None)
    }

    /// Takes revoking the children of the capability in the slot at `slot`
    /// one step on; see `spec_cte_revoke`.
    pub fn cteRevoke(&self, slot: word_t, event: RevokeEvent, sameRegion: bool_t) -> (ret: RevokeAction)
        ensures
            ret == spec_cte_revoke(self@, slot, event, sameRegion),
    {
        match event {
            RevokeEvent::Deleted(status) => {
                if status != EXCEPTION_NONE {
                    return RevokeAction::Done(status);
                }
                return RevokeAction::PreemptionPoint;
            },
            RevokeEvent::Preempted(status) => {
                if status != EXCEPTION_NONE {
                    return RevokeAction::Done(status);
                }
            },
            RevokeEvent::Start => {},
        }
        let next = mdb_node_get_mdbNext(read_cte(&self.ctes, slot).cteMDBNode);
        if next != 0 && self.isMDBParentOf(slot, next, sameRegion) != 0 {
            RevokeAction::Delete(next)
        } else {
            RevokeAction::Done(EXCEPTION_NONE)
        }
    }
}

} // verus!
