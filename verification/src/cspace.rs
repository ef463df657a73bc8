//! Capability-space addressing: resolving a capability address through a
//! tree of CNodes to a slot, and the lookups built on it.
use vstd::prelude::*;

use crate::failures::{
    EXCEPTION_LOOKUP_FAULT, EXCEPTION_NONE, EXCEPTION_SYSCALL_ERROR, exception_t, seL4_FailedLookup,
    seL4_RangeError, syscall_error,
};
use crate::object::{
    cap_cnode_cap, cap_cnode_cap_get_capCNodeGuard, cap_cnode_cap_get_capCNodeGuardSize,
    cap_cnode_cap_get_capCNodePtr, cap_cnode_cap_get_capCNodeRadix, cap_get_capType,
    cap_null_cap_new, cap_t, CTE_SIZE, cte_t, lookup_fault_depth_mismatch_new,
    lookup_fault_guard_mismatch_new, lookup_fault_invalid_root_new, lookup_fault_t,
    spec_cap_null_cap, spec_cap_type, spec_cnode_guard, spec_cnode_guard_size, spec_cnode_ptr,
    spec_cnode_radix, spec_lookup_fault_depth_mismatch, spec_lookup_fault_guard_mismatch,
    spec_lookup_fault_invalid_root, spec_tcb_cte_ptr, TCB_PTR_CTE_PTR, tcbCTable,
};
use crate::state::{cte_at, KernelState, KState, read_cte};
use crate::types::{bool_t, cptr_t, word_t, wordBits};

verus! {

/// Result of `lookupCap`.
#[derive(Clone, Copy)]
pub struct lookupCap_ret {
    pub status: exception_t,
    pub cap: cap_t,
}

pub type lookupCap_ret_t = lookupCap_ret;

/// Result of `lookupCapAndSlot`.
#[derive(Clone, Copy)]
pub struct lookupCapAndSlot_ret {
    pub status: exception_t,
    pub cap: cap_t,
    pub slot: word_t,
}

pub type lookupCapAndSlot_ret_t = lookupCapAndSlot_ret;

/// Result of `lookupSlot`.
#[derive(Clone, Copy)]
pub struct lookupSlot_raw_ret {
    pub status: exception_t,
    pub slot: word_t,
}

pub type lookupSlot_raw_ret_t = lookupSlot_raw_ret;

/// Result of `lookupSlotForCNodeOp`.
#[derive(Clone, Copy)]
pub struct lookupSlot_ret {
    pub status: exception_t,
    pub slot: word_t,
}

pub type lookupSlot_ret_t = lookupSlot_ret;

/// Result of `resolveAddressBits`.
#[derive(Clone, Copy)]
pub struct resolveAddressBits_ret {
    pub status: exception_t,
    pub slot: word_t,
    pub bitsRemaining: word_t,
}

pub type resolveAddressBits_ret_t = resolveAddressBits_ret;

/// What resolving an address yields: the status, slot and remaining bits
/// returned, and the lookup fault recorded, if any.
pub struct Resolution {
    pub status: exception_t,
    pub slot: word_t,
    pub bitsRemaining: word_t,
    pub fault: Option<lookup_fault_t>,
}

/// The guard bits that a CNode with `guardBits` guard bits reads from
/// `capptr` when `n_bits` bits of it are left to resolve. The shift amount is
/// taken modulo the word size, as the kernel does to keep it in range.
pub open spec fn spec_guard_of(capptr: u64, n_bits: u64, guardBits: u64) -> u64 {
    (capptr >> (n_bits.wrapping_sub(guardBits) & 63u64)) & (((1u64 << guardBits) - 1) as u64)
}

/// The index into a CNode's slot array that `capptr` selects.
pub open spec fn spec_offset_of(capptr: u64, n_bits: u64, levelBits: u64, radixBits: u64) -> u64 {
    (capptr >> ((n_bits - levelBits) as u64)) & (((1u64 << radixBits) - 1) as u64)
}

/// The address of entry `offset` of the slot array at `base`, modulo the
/// address space.
pub open spec fn spec_slot_of(base: u64, offset: u64) -> u64 {
    base.wrapping_add(offset.wrapping_mul(CTE_SIZE))
}

/// Resolution stops with the kernel's assertion failing, or with a shift
/// that is out of range: a CNode that resolves no bits is met, or a level
/// leaves 64 bits or more of the address to the right.
pub open spec fn resolve_fails_assertion(
    ctes: Map<u64, cte_t>,
    nodeCap: cap_t,
    capptr: u64,
    n_bits: u64,
) -> bool
    decreases n_bits,
{
    let radixBits = spec_cnode_radix(nodeCap);
    let guardBits = spec_cnode_guard_size(nodeCap);
    let levelBits = radixBits + guardBits;
    if levelBits == 0 {
        true
    } else if guardBits > n_bits || spec_guard_of(capptr, n_bits, guardBits) != spec_cnode_guard(
        nodeCap,
    ) {
        false
    } else if levelBits > n_bits {
        false
    } else if n_bits - levelBits >= 64 {
        true
    } else if n_bits == levelBits {
        false
    } else {
        let offset = spec_offset_of(capptr, n_bits, levelBits as u64, radixBits);
        let slot = spec_slot_of(spec_cnode_ptr(nodeCap), offset);
        let next = cte_at(ctes, slot).cap;
        if spec_cap_type(next) != cap_cnode_cap {
            false
        } else {
            resolve_fails_assertion(ctes, next, capptr, (n_bits - levelBits) as u64)
        }
    }
}

/// What the resolution loop yields from a CNode capability with `n_bits`
/// bits left, where the whole resolution began with `n_bits0` bits.
pub open spec fn spec_resolve_cnode(
    ctes: Map<u64, cte_t>,
    nodeCap: cap_t,
    capptr: u64,
    n_bits: u64,
    n_bits0: u64,
) -> Resolution
    decreases n_bits,
{
    let radixBits = spec_cnode_radix(nodeCap);
    let guardBits = spec_cnode_guard_size(nodeCap);
    let levelBits = (radixBits + guardBits) as u64;
    let capGuard = spec_cnode_guard(nodeCap);
    if guardBits > n_bits || spec_guard_of(capptr, n_bits, guardBits) != capGuard {
        Resolution {
            status: EXCEPTION_LOOKUP_FAULT,
            slot: 0,
            bitsRemaining: n_bits0,
            fault: Some(spec_lookup_fault_guard_mismatch(capGuard, n_bits, guardBits)),
        }
    } else if levelBits > n_bits {
        Resolution {
            status: EXCEPTION_LOOKUP_FAULT,
            slot: 0,
            bitsRemaining: n_bits0,
            fault: Some(spec_lookup_fault_depth_mismatch(levelBits, n_bits)),
        }
    } else {
        let offset = spec_offset_of(capptr, n_bits, levelBits, radixBits);
        let slot = spec_slot_of(spec_cnode_ptr(nodeCap), offset);
        if n_bits == levelBits {
            Resolution { status: EXCEPTION_NONE, slot: slot, bitsRemaining: 0, fault: None }
        } else {
            let rest = (n_bits - levelBits) as u64;
            let next = cte_at(ctes, slot).cap;
            if spec_cap_type(next) != cap_cnode_cap || levelBits == 0 {
                Resolution { status: EXCEPTION_NONE, slot: slot, bitsRemaining: rest, fault: None }
            } else {
                spec_resolve_cnode(ctes, next, capptr, rest, n_bits0)
            }
        }
    }
}

/// What `resolveAddressBits` yields: resolving the `n_bits` low bits of
/// `capptr`, most significant first, starting from `nodeCap`.
pub open spec fn spec_resolve(ctes: Map<u64, cte_t>, nodeCap: cap_t, capptr: u64, n_bits: u64) -> Resolution {
    if spec_cap_type(nodeCap) != cap_cnode_cap {
        Resolution {
            status: EXCEPTION_LOOKUP_FAULT,
            slot: 0,
            bitsRemaining: n_bits,
            fault: Some(spec_lookup_fault_invalid_root()),
        }
    } else {
        spec_resolve_cnode(ctes, nodeCap, capptr, n_bits, n_bits)
    }
}

/// A resolution either succeeds and records no fault, or fails with a lookup
/// fault, no slot and the bits it was asked to resolve.
pub proof fn lemma_resolve_cnode_outcome(
    ctes: Map<u64, cte_t>,
    nodeCap: cap_t,
    capptr: u64,
    n_bits: u64,
    n_bits0: u64,
)
    ensures
        ({
            let r = spec_resolve_cnode(ctes, nodeCap, capptr, n_bits, n_bits0);
            ||| r.status == EXCEPTION_NONE && r.fault is None
            ||| r.status == EXCEPTION_LOOKUP_FAULT && r.fault is Some && r.slot == 0
                && r.bitsRemaining == n_bits0
        }),
    decreases n_bits,
{
    let radixBits = spec_cnode_radix(nodeCap);
    let guardBits = spec_cnode_guard_size(nodeCap);
    let levelBits = (radixBits + guardBits) as u64;
    if guardBits > n_bits || spec_guard_of(capptr, n_bits, guardBits) != spec_cnode_guard(nodeCap) {
    } else if levelBits > n_bits {
    } else if n_bits == levelBits {
    } else {
        let offset = spec_offset_of(capptr, n_bits, levelBits, radixBits);
        let slot = spec_slot_of(spec_cnode_ptr(nodeCap), offset);
        let next = cte_at(ctes, slot).cap;
        if spec_cap_type(next) != cap_cnode_cap || levelBits == 0 {
        } else {
            lemma_resolve_cnode_outcome(ctes, next, capptr, (n_bits - levelBits) as u64, n_bits0);
        }
    }
}

/// What looking up `capptr` in the capability space of `thread` yields, over
/// the capability table `ctes`: its whole word is resolved from the root
/// capability in the thread's first TCB slot.
pub open spec fn spec_lookup_in(ctes: Map<u64, cte_t>, thread: u64, capptr: u64) -> Resolution {
    spec_resolve(ctes, cte_at(ctes, spec_tcb_cte_ptr(thread, tcbCTable) as u64).cap, capptr, wordBits)
}

/// Whether that lookup fails the kernel's assertion.
pub open spec fn spec_lookup_fails_in(ctes: Map<u64, cte_t>, thread: u64, capptr: u64) -> bool {
    spec_resolve_fails(
        ctes,
        cte_at(ctes, spec_tcb_cte_ptr(thread, tcbCTable) as u64).cap,
        capptr,
        wordBits,
    )
}

/// A lookup either succeeds and records no fault, or fails with a lookup
/// fault and no slot.
pub proof fn lemma_lookup_outcome(ctes: Map<u64, cte_t>, thread: u64, capptr: u64)
    ensures
        ({
            let r = spec_lookup_in(ctes, thread, capptr);
            ||| r.status == EXCEPTION_NONE && r.fault is None
            ||| r.status == EXCEPTION_LOOKUP_FAULT && r.fault is Some && r.slot == 0
        }),
{
    let root = cte_at(ctes, spec_tcb_cte_ptr(thread, tcbCTable) as u64).cap;
    lemma_resolve_cnode_outcome(ctes, root, capptr, wordBits, wordBits);
}

/// Whether `resolveAddressBits` fails its assertion on these arguments.
pub open spec fn spec_resolve_fails(ctes: Map<u64, cte_t>, nodeCap: cap_t, capptr: u64, n_bits: u64) -> bool {
    spec_cap_type(nodeCap) == cap_cnode_cap && resolve_fails_assertion(ctes, nodeCap, capptr, n_bits)
}

/// The lookup fault recorded after a resolution: the new one if it failed,
/// else the one recorded before.
pub open spec fn fault_after(r: Resolution, before: lookup_fault_t) -> lookup_fault_t {
    match r.fault {
        Some(f) => f,
        None => before,
    }
}

impl KernelState {
    pub fn resolveAddressBits(&mut self, nodeCap: cap_t, capptr: cptr_t, n_bits: word_t) -> (ret:
        resolveAddressBits_ret_t)
        requires
            !spec_resolve_fails(old(self).ctes@, nodeCap, capptr, n_bits),
        ensures
            ({
                let r = spec_resolve(old(self).ctes@, nodeCap, capptr, n_bits);
                &&& ret.status == r.status
                &&& ret.slot == r.slot
                &&& ret.bitsRemaining == r.bitsRemaining
                &&& final(self).current_lookup_fault == fault_after(r, old(self).current_lookup_fault)
            }),
            final(self).ctes@ == old(self).ctes@,
            final(self).tcbs@ == old(self).tcbs@,
            final(self).ntfns@ == old(self).ntfns@,
            final(self).eps@ == old(self).eps@,
            final(self).current_fault == old(self).current_fault,
            final(self).current_syscall_error == old(self).current_syscall_error,
            final(self).current_extra_caps == old(self).current_extra_caps,
            final(self).sched == old(self).sched,
    {
        let n_bits0 = n_bits;
        let ghost target = spec_resolve(self.ctes@, nodeCap, capptr, n_bits);
        if cap_get_capType(nodeCap) != cap_cnode_cap {
            self.current_lookup_fault = lookup_fault_invalid_root_new();
            return resolveAddressBits_ret {
                status: EXCEPTION_LOOKUP_FAULT,
                slot: 0,
                bitsRemaining: n_bits,
            };
        }
        let mut node: cap_t = nodeCap;
        let mut bits: u64 = n_bits;
        loop
            invariant
                spec_cap_type(node) == cap_cnode_cap,
                !resolve_fails_assertion(self.ctes@, node, capptr, bits),
                spec_resolve_cnode(self.ctes@, node, capptr, bits, n_bits0) == target,
                target == spec_resolve(old(self).ctes@, nodeCap, capptr, n_bits),
                n_bits0 == n_bits,
                self.ctes@ == old(self).ctes@,
                self.tcbs@ == old(self).tcbs@,
                self.ntfns@ == old(self).ntfns@,
                self.eps@ == old(self).eps@,
                self.current_lookup_fault == old(self).current_lookup_fault,
                self.current_fault == old(self).current_fault,
                self.current_syscall_error == old(self).current_syscall_error,
                self.current_extra_caps == old(self).current_extra_caps,
                self.sched == old(self).sched,
            decreases bits,
        {
            let radixBits = cap_cnode_cap_get_capCNodeRadix(node);
            let guardBits = cap_cnode_cap_get_capCNodeGuardSize(node);
            let levelBits = radixBits + guardBits;
            let capGuard = cap_cnode_cap_get_capCNodeGuard(node);
            let d = bits.wrapping_sub(guardBits);
            assert(d & 63u64 < 64) by (bit_vector);
            assert(1u64 << guardBits >= 1) by (bit_vector)
                requires
                    guardBits < 64,
            ;
            let guard: u64 = (capptr >> (d & 63u64)) & ((1u64 << guardBits) - 1);
            if guardBits > bits || guard != capGuard {
                self.current_lookup_fault = lookup_fault_guard_mismatch_new(capGuard, bits, guardBits);
                return resolveAddressBits_ret {
                    status: EXCEPTION_LOOKUP_FAULT,
                    slot: 0,
                    bitsRemaining: n_bits0,
                };
            }
            if levelBits > bits {
                self.current_lookup_fault = lookup_fault_depth_mismatch_new(levelBits, bits);
                return resolveAddressBits_ret {
                    status: EXCEPTION_LOOKUP_FAULT,
                    slot: 0,
                    bitsRemaining: n_bits0,
                };
            }
            assert(1u64 << radixBits >= 1) by (bit_vector)
                requires
                    radixBits < 64,
            ;
            let offset: u64 = (capptr >> (bits - levelBits)) & ((1u64 << radixBits) - 1);
            let slot: u64 = cap_cnode_cap_get_capCNodePtr(node).wrapping_add(
                offset.wrapping_mul(CTE_SIZE),
            );
            if bits == levelBits {
                return resolveAddressBits_ret { status: EXCEPTION_NONE, slot: slot, bitsRemaining: 0 };
            }
            bits = bits - levelBits;
            node = read_cte(&self.ctes, slot).cap;
            if cap_get_capType(node) != cap_cnode_cap {
                return resolveAddressBits_ret {
                    status: EXCEPTION_NONE,
                    slot: slot,
                    bitsRemaining: bits,
                };
            }
        }
    }

    /// What looking up `capptr` in the capability space of `thread` yields.
    pub open spec fn spec_lookup_slot(&self, thread: u64, capptr: u64) -> Resolution {
        spec_lookup_in(self.ctes@, thread, capptr)
    }

    /// Whether looking up `capptr` in the capability space of `thread` fails
    /// the kernel's assertion.
    pub open spec fn spec_lookup_slot_fails(&self, thread: u64, capptr: u64) -> bool {
        spec_lookup_fails_in(self.ctes@, thread, capptr)
    }

    pub fn lookupSlot(&mut self, thread: word_t, capptr: cptr_t) -> (ret: lookupSlot_raw_ret_t)
        requires
            !old(self).spec_lookup_slot_fails(thread, capptr),
        ensures
            ({
                let r = old(self).spec_lookup_slot(thread, capptr);
                &&& ret.status == r.status
                &&& ret.slot == r.slot
                &&& final(self).current_lookup_fault == fault_after(r, old(self).current_lookup_fault)
            }),
            final(self)@ == (KState {
                current_lookup_fault: fault_after(
                    old(self).spec_lookup_slot(thread, capptr),
                    old(self).current_lookup_fault,
                ),
                ..old(self)@
            }),
            final(self).sched == old(self).sched,
    {
        let rootSlot = TCB_PTR_CTE_PTR(thread, tcbCTable);
        let threadRoot = read_cte(&self.ctes, rootSlot).cap;
        let res_ret = self.resolveAddressBits(threadRoot, capptr, wordBits);
        lookupSlot_raw_ret { status: res_ret.status, slot: res_ret.slot }
    }

    pub fn lookupCap(&mut self, thread: word_t, cPtr: cptr_t) -> (ret: lookupCap_ret_t)
        requires
            !old(self).spec_lookup_slot_fails(thread, cPtr),
        ensures
            ({
                let r = old(self).spec_lookup_slot(thread, cPtr);
                &&& ret.status == r.status
                &&& ret.cap == if r.status == EXCEPTION_NONE {
                    cte_at(old(self).ctes@, r.slot).cap
                } else {
                    spec_cap_null_cap()
                }
                &&& final(self).current_lookup_fault == fault_after(r, old(self).current_lookup_fault)
            }),
            final(self)@ == (KState {
                current_lookup_fault: fault_after(
                    old(self).spec_lookup_slot(thread, cPtr),
                    old(self).current_lookup_fault,
                ),
                ..old(self)@
            }),
            final(self).sched == old(self).sched,
    {
        let lu_ret = self.lookupSlot(thread, cPtr);
        if lu_ret.status != EXCEPTION_NONE {
            return lookupCap_ret { status: lu_ret.status, cap: cap_null_cap_new() };
        }
        lookupCap_ret { status: EXCEPTION_NONE, cap: read_cte(&self.ctes, lu_ret.slot).cap }
    }

    pub fn lookupCapAndSlot(&mut self, thread: word_t, cPtr: cptr_t) -> (ret:
        lookupCapAndSlot_ret_t)
        requires
            !old(self).spec_lookup_slot_fails(thread, cPtr),
        ensures
            ({
                let r = old(self).spec_lookup_slot(thread, cPtr);
                &&& ret.status == r.status
                &&& ret.slot == if r.status == EXCEPTION_NONE {
                    r.slot
                } else {
                    0
                }
                &&& ret.cap == if r.status == EXCEPTION_NONE {
                    cte_at(old(self).ctes@, r.slot).cap
                } else {
                    spec_cap_null_cap()
                }
                &&& final(self).current_lookup_fault == fault_after(r, old(self).current_lookup_fault)
            }),
            final(self)@ == (KState {
                current_lookup_fault: fault_after(
                    old(self).spec_lookup_slot(thread, cPtr),
                    old(self).current_lookup_fault,
                ),
                ..old(self)@
            }),
            final(self).sched == old(self).sched,
    {
        let lu_ret = self.lookupSlot(thread, cPtr);
        if lu_ret.status != EXCEPTION_NONE {
            return lookupCapAndSlot_ret { status: lu_ret.status, slot: 0, cap: cap_null_cap_new() };
        }
        lookupCapAndSlot_ret {
            status: EXCEPTION_NONE,
            slot: lu_ret.slot,
            cap: read_cte(&self.ctes, lu_ret.slot).cap,
        }
    }

    /// The state after a CNode-operation lookup, and its result: `capptr`
    /// must resolve to exactly `depth` bits from the CNode capability `root`.
    /// On failure the system-call error records why (and whether the slot
    /// was the source of the operation), and the lookup fault is recorded.
    pub open spec fn spec_lookup_slot_for_cnode_op(
        s: KState,
        isSource: bool_t,
        root: cap_t,
        capptr: u64,
        depth: u64,
    ) -> (KState, lookupSlot_ret_t) {
        let err = lookupSlot_ret { status: EXCEPTION_SYSCALL_ERROR, slot: 0 };
        let failed_lookup = syscall_error {
            error_type: seL4_FailedLookup,
            failedLookupWasSource: isSource,
            ..s.current_syscall_error
        };
        if spec_cap_type(root) != cap_cnode_cap {
            (
                KState {
                    current_syscall_error: failed_lookup,
                    current_lookup_fault: spec_lookup_fault_invalid_root(),
                    ..s
                },
                err,
            )
        } else if depth < 1 || depth > wordBits {
            (
                KState {
                    current_syscall_error: syscall_error {
                        error_type: seL4_RangeError,
                        rangeErrorMin: 1,
                        rangeErrorMax: wordBits,
                        ..s.current_syscall_error
                    },
                    ..s
                },
                err,
            )
        } else {
            let r = spec_resolve(s.ctes, root, capptr, depth);
            if r.status != EXCEPTION_NONE {
                (
                    KState {
                        current_syscall_error: failed_lookup,
                        current_lookup_fault: fault_after(r, s.current_lookup_fault),
                        ..s
                    },
                    err,
                )
            } else if r.bitsRemaining != 0 {
                (
                    KState {
                        current_syscall_error: failed_lookup,
                        current_lookup_fault: spec_lookup_fault_depth_mismatch(0, r.bitsRemaining),
                        ..s
                    },
                    err,
                )
            } else {
                (s, lookupSlot_ret { status: EXCEPTION_NONE, slot: r.slot })
            }
        }
    }

    /// Whether a CNode-operation lookup fails the kernel's assertion.
    pub open spec fn spec_cnode_op_lookup_fails(ctes: Map<u64, cte_t>, root: cap_t, capptr: u64, depth: u64) -> bool {
        spec_cap_type(root) == cap_cnode_cap && 1 <= depth <= wordBits && spec_resolve_fails(
            ctes,
            root,
            capptr,
            depth,
        )
    }

    /// Looks up the slot that a CNode operation names: `capptr` resolved to
    /// exactly `depth` bits from the CNode capability `root`. On failure the
    /// system-call error records why, and whether the slot was the source.
    pub fn lookupSlotForCNodeOp(&mut self, isSource: bool_t, root: cap_t, capptr: cptr_t, depth: word_t) -> (ret: lookupSlot_ret_t)
        requires
            !Self::spec_cnode_op_lookup_fails(old(self).ctes@, root, capptr, depth),
        ensures
            (final(self)@, ret) == Self::spec_lookup_slot_for_cnode_op(
                old(self)@,
                isSource,
                root,
                capptr,
                depth,
            ),
            final(self).sched == old(self).sched,
    {
        if cap_get_capType(root) != cap_cnode_cap {
            self.current_syscall_error.error_type = seL4_FailedLookup;
            self.current_syscall_error.failedLookupWasSource = isSource;
            self.current_lookup_fault = lookup_fault_invalid_root_new();
            return lookupSlot_ret { status: EXCEPTION_SYSCALL_ERROR, slot: 0 };
        }
        if depth < 1 || depth > wordBits {
            self.current_syscall_error.error_type = seL4_RangeError;
            self.current_syscall_error.rangeErrorMin = 1;
            self.current_syscall_error.rangeErrorMax = wordBits;
            return lookupSlot_ret { status: EXCEPTION_SYSCALL_ERROR, slot: 0 };
        }
        proof {
            lemma_resolve_cnode_outcome(self.ctes@, root, capptr, depth, depth);
        }
        let res_ret = self.resolveAddressBits(root, capptr, depth);
        if res_ret.status != EXCEPTION_NONE {
            self.current_syscall_error.error_type = seL4_FailedLookup;
            self.current_syscall_error.failedLookupWasSource = isSource;
            return lookupSlot_ret { status: EXCEPTION_SYSCALL_ERROR, slot: 0 };
        }
        if res_ret.bitsRemaining != 0 {
            self.current_syscall_error.error_type = seL4_FailedLookup;
            self.current_syscall_error.failedLookupWasSource = isSource;
            self.current_lookup_fault = lookup_fault_depth_mismatch_new(0, res_ret.bitsRemaining);
            return lookupSlot_ret { status: EXCEPTION_SYSCALL_ERROR, slot: 0 };
        }
        lookupSlot_ret { status: EXCEPTION_NONE, slot: res_ret.slot }
    }

    /// Looks up the source slot of a CNode operation.
    pub fn lookupSourceSlot(&mut self, root: cap_t, capptr: cptr_t, depth: word_t) -> (ret: lookupSlot_ret_t)
        requires
            !Self::spec_cnode_op_lookup_fails(old(self).ctes@, root, capptr, depth),
        ensures
            (final(self)@, ret) == Self::spec_lookup_slot_for_cnode_op(
                old(self)@,
                1,
                root,
                capptr,
                depth,
            ),
            final(self).sched == old(self).sched,
    {
        self.lookupSlotForCNodeOp(1, root, capptr, depth)
    }

    /// Looks up the destination slot of a CNode operation.
    pub fn lookupTargetSlot(&mut self, root: cap_t, capptr: cptr_t, depth: word_t) -> (ret: lookupSlot_ret_t)
        requires
            !Self::spec_cnode_op_lookup_fails(old(self).ctes@, root, capptr, depth),
        ensures
            (final(self)@, ret) == Self::spec_lookup_slot_for_cnode_op(
                old(self)@,
                0,
                root,
                capptr,
                depth,
            ),
            final(self).sched == old(self).sched,
    {
        self.lookupSlotForCNodeOp(0, root, capptr, depth)
    }

    /// Looks up the pivot slot of a CNode rotation.
    pub fn lookupPivotSlot(&mut self, root: cap_t, capptr: cptr_t, depth: word_t) -> (ret: lookupSlot_ret_t)
        requires
            !Self::spec_cnode_op_lookup_fails(old(self).ctes@, root, capptr, depth),
        ensures
            (final(self)@, ret) == Self::spec_lookup_slot_for_cnode_op(
                old(self)@,
                1,
                root,
                capptr,
                depth,
            ),
            final(self).sched == old(self).sched,
    {
        self.lookupSlotForCNodeOp(1, root, capptr, depth)
    }
}

} // verus!
