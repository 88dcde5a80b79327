//! The initial vCPU state of a session: a flat code segment and an
//! instruction pointer at the guest entry address.

use vstd::prelude::*;
use kvm_bindings::{kvm_regs, kvm_segment, kvm_sregs};

verus! {

/// Scratch value preset in `rax`.
pub const SCRATCH_RAX: u64 = 2;

/// Scratch value preset in `rbx`.
pub const SCRATCH_RBX: u64 = 3;

/// `rflags` with only its always-set reserved bit.
pub const RFLAGS_RESERVED: u64 = 2;

/// The general-purpose registers after configuration: entry point, scratch
/// presets and flags set, every other register kept.
pub open spec fn entry_regs(r: kvm_regs, entry: u64) -> kvm_regs {
    kvm_regs { rip: entry, rax: SCRATCH_RAX, rbx: SCRATCH_RBX, rflags: RFLAGS_RESERVED, ..r }
}

/// The special registers after configuration: code-segment base and
/// selector zeroed, everything else kept.
pub open spec fn flat_sregs(s: kvm_sregs) -> kvm_sregs {
    kvm_sregs { cs: kvm_segment { base: 0, selector: 0, ..s.cs }, ..s }
}

/// Sets the entry point, scratch registers and flags in `regs`.
pub fn set_entry_regs(regs: &mut kvm_regs, entry: u64)
    ensures
        *final(regs) == entry_regs(*old(regs), entry),
{
    regs.rip = entry;
    regs.rax = SCRATCH_RAX;
    regs.rbx = SCRATCH_RBX;
    regs.rflags = RFLAGS_RESERVED;
}

/// Zeroes the code-segment base and selector in `sregs`.
pub fn set_flat_code_segment(sregs: &mut kvm_sregs)
    ensures
        *final(sregs) == flat_sregs(*old(sregs)),
{
    sregs.cs.base = 0;
    sregs.cs.selector = 0;
}

/// Configuring twice leaves the registers as configuring once does.
pub proof fn lemma_configure_idempotent(r: kvm_regs, s: kvm_sregs, entry: u64)
    ensures
        entry_regs(entry_regs(r, entry), entry) == entry_regs(r, entry),
        flat_sregs(flat_sregs(s)) == flat_sregs(s),
{
}

} // verus!
