//! Machine word types, memory regions and the capability-transfer record.
use vstd::prelude::*;

verus! {

pub type word_t = u64;
pub type sword_t = i64;
pub type vptr_t = u64;
pub type paddr_t = u64;
pub type pptr_t = u64;
pub type cptr_t = u64;
pub type dev_id_t = u64;
pub type cpu_id_t = u64;
pub type node_id_t = u64;
pub type dom_t = u64;
pub type timestamp_t = u64;
pub type prio_t = u64;
pub type ticks_t = u64;
pub type time_t = u64;
pub type bool_t = u64;

/// log2 of the number of bits in a machine word.
pub const wordRadix: u64 = 6;

/// Number of bits in a machine word.
pub const wordBits: u64 = 64;

/// A frame mapped by the kernel.
#[derive(Clone, Copy)]
pub struct kernel_frame {
    pub paddr: paddr_t,
    pub pptr: pptr_t,
    pub userAvailable: i32,
}

pub type kernel_frame_t = kernel_frame;

/// A region `[start..end)` of kernel-virtual memory. It is empty when
/// `start == end`; when `end < start` it wraps around the top of the address space.
#[derive(Clone, Copy)]
pub struct region {
    pub start: pptr_t,
    pub end: pptr_t,
}

pub type region_t = region;

/// A region `[start..end)` of physical memory addresses.
#[derive(Clone, Copy)]
pub struct p_region {
    pub start: paddr_t,
    pub end: paddr_t,
}

pub type p_region_t = p_region;

/// A region `[start..end)` of user-virtual addresses.
#[derive(Clone, Copy)]
pub struct v_region {
    pub start: vptr_t,
    pub end: vptr_t,
}

pub type v_region_t = v_region;

/// Where a receiver wants transferred capabilities to be placed.
#[derive(Clone, Copy)]
pub struct cap_transfer {
    pub ctReceiveRoot: cptr_t,
    pub ctReceiveIndex: cptr_t,
    pub ctReceiveDepth: word_t,
}

pub type cap_transfer_t = cap_transfer;

/// Limits on capability transfer.
#[derive(Clone, Copy)]
pub enum ctLimits {
    capTransferDataSize,
}

impl ctLimits {
    pub open spec fn spec_value(self) -> u64 {
        match self {
            ctLimits::capTransferDataSize => 3,
        }
    }

    /// The number that the limit stands for.
    pub fn value(self) -> (r: u64)
        ensures
            r == self.spec_value(),
    {
        match self {
            ctLimits::capTransferDataSize => 3,
        }
    }
}

/// The saved floating-point state of a thread.
#[derive(Clone, Copy)]
pub struct user_fpu_state {
    pub state: [u8; 512],
}

/// The saved user-level register file of a thread.
#[derive(Clone, Copy)]
pub struct user_context {
    pub registers: [word_t; 35],
}

pub type user_context_t = user_context;

} // verus!
