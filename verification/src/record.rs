//! The structured fault description handed to the entry point by the
//! runtime: the cause, the faulting location, and an optional snapshot of
//! the process table.  Read-only to this subsystem.

use vstd::prelude::*;

verus! {

/// Cause of the unrecoverable error.
#[derive(Clone, Copy, PartialEq, Eq, Structural, Debug)]
pub enum FaultCause {
    /// The kernel itself panicked.
    KernelPanic,
    /// The processor took a hard fault.
    HardFault,
    /// A memory access violated protection.
    MemoryFault,
}

/// Scheduling state a process was last seen in.
#[derive(Clone, Copy, PartialEq, Eq, Structural, Debug)]
pub enum ProcessState {
    /// Scheduled and running.
    Running,
    /// Waiting for an event.
    Yielded,
    /// Stopped after its own fault.
    Faulted,
    /// Explicitly stopped.
    Stopped,
}

/// One row of the process-table snapshot.
#[derive(Clone, Copy, PartialEq, Eq, Structural, Debug)]
pub struct ProcessEntry {
    /// Process identifier.
    pub id: u32,
    /// Last observed state.
    pub state: ProcessState,
}

/// Structured description of the failure, supplied at fault entry.
pub struct FaultRecord {
    /// What went wrong.
    pub cause: FaultCause,
    /// Address or offset context for the fault.
    pub address: u32,
    /// Snapshot of the process table, if one could be taken.
    pub processes: Option<Vec<ProcessEntry>>,
}

} // verus!
