//! The failures a session can report.

use vstd::prelude::*;

verus! {

/// Every fatal condition of a session. Host-level failures carry the errno
/// that the hypervisor interface returned.
#[derive(Debug)]
pub enum VmmError {
    /// The host has no virtualization support, or access to it is denied.
    CapabilityUnavailable(i32),
    VmCreationFailed(i32),
    MemoryAllocationFailed(i32),
    MemoryRegistrationFailed(i32),
    VcpuCreationFailed(i32),
    RegisterAccessFailed(i32),
    VcpuRunFailed(i32),
    /// The guest program does not fit in guest memory at the entry offset.
    CodeTooLarge,
    /// An exit the dispatcher has no policy for, by its description.
    Unhandled(String),
}

} // verus!
