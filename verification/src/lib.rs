//! A verified model of part of the seL4 microkernel: capability bitfields,
//! capability-space address resolution, capability slots and their
//! deletion, thread queues, notifications, scheduling, message transfer and
//! the IPC fast path.
#![allow(non_camel_case_types)]
#![allow(non_upper_case_globals)]
#![allow(non_snake_case)]

pub mod object;
pub mod types;
pub mod failures;
pub mod bitfield_laws;
pub mod state;
pub mod cspace;
pub mod tcb;
pub mod thread;
pub mod notification;
pub mod kernel_laws;
pub mod ready_queues;
pub mod cnode;
pub mod transfer;
pub mod fastpath;
pub mod invocation;
pub mod delete;
