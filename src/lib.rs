//! A minimal single-vCPU virtual-machine monitor over KVM: session set-up,
//! register configuration, bounds-checked guest-code loading and the
//! classification and dispatch of vCPU exits.

pub mod error;
pub mod exit;
mod hv;
pub mod memory;
pub mod registers;
pub mod session;

pub use error::VmmError;
pub use exit::{classify, dispatch, is_terminal, next_state, ExitEvent, RawExit, RunState};
pub use hv::{KvmMemoryRegion, KvmRegs, KvmSregs};
pub use memory::{copy_code, GuestMapping};
pub use registers::{set_entry_regs, set_flat_code_segment, RFLAGS_RESERVED, SCRATCH_RAX, SCRATCH_RBX};
pub use session::VMM;
