# sel4_rust

A verified model of part of the seL4 microkernel for 64-bit machines,
written in Verus. Addresses are held as 39-bit canonical values and thread
registers are numbered as in the RISC-V port, while the fast path checks
x86-64 top-level page-table (PML4) capabilities for the address space it
switches to. The kernel's memory is held as maps from addresses to objects
(capability slots, thread control blocks, notifications, endpoints) inside
`KernelState`, and each kernel operation is an executable function whose
contract states the new state and result over a mathematical view of it.

Layout:

- `src/object.rs`, `src/types.rs`, `src/failures.rs`: bitfield encodings of
  capabilities and other kernel objects; `src/bitfield_laws.rs` proves that
  their accessors read back what was written.
- `src/state.rs`: the kernel state and its view.
- `src/cspace.rs`: capability-space address resolution and lookups.
- `src/cnode.rs`, `src/delete.rs`: capability slots, the mapping database
  and the decisions of deletion and revocation.
- `src/tcb.rs`, `src/thread.rs`: thread queues and scheduling;
  `src/ready_queues.rs` describes each ready queue as the list of the
  threads marked as queued at its priority and proves that the queue
  operations keep that description.
- `src/notification.rs`, `src/transfer.rs`, `src/fastpath.rs`: signals,
  message transfer and the IPC fast path.
- `src/invocation.rs`: decoding of thread requests.
- `src/kernel_laws.rs`: laws relating several operations.
- `app/`: the entry point, and the loops that drive the deletion decisions
  and thread requests with the kernel routines that the model does not hold
  (tearing down objects, comparing capabilities, polling for interrupts).
