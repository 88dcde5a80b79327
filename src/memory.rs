//! Guest memory: the slot that exposes a host region to the guest, its
//! guest-physical to host translation, and the bounds-checked copy of guest
//! code into the region.

use vstd::prelude::*;
use crate::error::VmmError;
use crate::hv::dirty_log_flag;
use kvm_bindings::kvm_userspace_memory_region;

verus! {

/// The single memory slot of a session: `size` bytes of host memory starting
/// at `host_base`, seen by the guest at `guest_phys_addr`.
#[derive(PartialEq, Eq, Structural, Clone, Copy, Debug)]
pub struct GuestMapping {
    pub slot: u32,
    pub guest_phys_addr: u64,
    pub size: u64,
    pub host_base: u64,
}

impl GuestMapping {
    /// The host address backing guest-physical `gpa`, if `gpa` lies in the
    /// slot and that address is representable.
    pub open spec fn spec_translate(self, gpa: u64) -> Option<u64> {
        if self.guest_phys_addr <= gpa && gpa - self.guest_phys_addr < self.size && self.host_base
            + (gpa - self.guest_phys_addr) <= u64::MAX {
            Some((self.host_base + (gpa - self.guest_phys_addr)) as u64)
        } else {
            None
        }
    }

    /// Slot 0, of `mem_size` bytes at `host_base`, exposed at `guest_addr`.
    pub open spec fn new_spec(mem_size: usize, guest_addr: u64, host_base: u64) -> GuestMapping {
        GuestMapping { slot: 0, guest_phys_addr: guest_addr, size: mem_size as u64, host_base }
    }

    /// Slot 0, of `mem_size` bytes at `host_base`, exposed at `guest_addr`.
    pub fn new(mem_size: usize, guest_addr: u64, host_base: u64) -> (r: GuestMapping)
        requires
            mem_size > 0,
        ensures
            r == GuestMapping::new_spec(mem_size, guest_addr, host_base),
            r.spec_translate(guest_addr) == Some(host_base),
    {
        GuestMapping { slot: 0, guest_phys_addr: guest_addr, size: mem_size as u64, host_base }
    }

    /// The KVM descriptor of this slot, with dirty-page logging (flag 1).
    pub open spec fn spec_region(self) -> kvm_userspace_memory_region {
        kvm_userspace_memory_region {
            slot: self.slot,
            flags: 1,
            guest_phys_addr: self.guest_phys_addr,
            memory_size: self.size,
            userspace_addr: self.host_base,
        }
    }

    /// The descriptor that registers this slot with KVM, with dirty-page
    /// logging turned on.
    pub fn user_memory_region(&self) -> (r: kvm_userspace_memory_region)
        ensures
            r == self.spec_region(),
    {
        kvm_userspace_memory_region {
            slot: self.slot,
            flags: dirty_log_flag(),
            guest_phys_addr: self.guest_phys_addr,
            memory_size: self.size,
            userspace_addr: self.host_base,
        }
    }

    /// Bounds-checked translation; fails closed outside the slot.
    pub fn translate(&self, gpa: u64) -> (r: Option<u64>)
        ensures
            r == self.spec_translate(gpa),
    {
        if gpa < self.guest_phys_addr {
            return None;
        }
        let off = gpa - self.guest_phys_addr;
        if off >= self.size {
            return None;
        }
        match self.host_base.checked_add(off) {
            Some(h) => Some(h),
            None => None,
        }
    }
}

/// A session's mapping translates its entry address to the region's base.
pub proof fn lemma_entry_translates_to_base(mem_size: usize, guest_addr: u64, host_base: u64)
    requires
        mem_size > 0,
        guest_addr < mem_size,
    ensures
        GuestMapping::new_spec(mem_size, guest_addr, host_base).spec_translate(guest_addr) == Some(
            host_base,
        ),
{
}

/// Whether `len` bytes fit in a region of `mem_size` bytes from `offset` on.
pub open spec fn code_fits(mem_size: int, offset: int, len: int) -> bool {
    offset + len <= mem_size
}

/// The region after writing `code` at `offset`.
pub open spec fn loaded(mem: Seq<u8>, offset: int, code: Seq<u8>) -> Seq<u8> {
    Seq::new(
        mem.len(),
        |i: int|
            if offset <= i < offset + code.len() {
                code[i - offset]
            } else {
                mem[i]
            },
    )
}

/// Copies `code` verbatim into `memory` at `offset`, or fails with
/// `CodeTooLarge`, before touching memory, when it does not fit.
pub fn copy_code(memory: &mut [u8], offset: u64, code: &[u8]) -> (r: Result<(), VmmError>)
    ensures
        r is Ok <==> code_fits(old(memory)@.len() as int, offset as int, code@.len() as int),
        r is Err ==> r->Err_0 is CodeTooLarge && final(memory)@ == old(memory)@,
        r is Ok ==> final(memory)@ == loaded(old(memory)@, offset as int, code@),
{
    let n = memory.len();
    if offset as u128 + code.len() as u128 > n as u128 {
        return Err(VmmError::CodeTooLarge);
    }
    let start = offset as usize;
    let mut i: usize = 0;
    while i < code.len()
        invariant
            start + code@.len() <= n,
            memory@.len() == n,
            n == old(memory)@.len(),
            i <= code@.len(),
            forall|j: int|
                0 <= j < n ==> memory@[j] == (if start <= j < start + i {
                    code@[j - start]
                } else {
                    old(memory)@[j]
                }),
        decreases code@.len() - i,
    {
        memory[start + i] = code[i];
        i = i + 1;
    }
    assert(memory@ =~= loaded(old(memory)@, offset as int, code@));
    Ok(())
}

/// Reading back the loaded range yields exactly the code.
pub proof fn lemma_load_reads_back(mem: Seq<u8>, offset: int, code: Seq<u8>)
    requires
        0 <= offset,
        code_fits(mem.len() as int, offset, code.len() as int),
    ensures
        loaded(mem, offset, code).subrange(offset, offset + code.len()) == code,
        loaded(mem, offset, code).len() == mem.len(),
{
    assert(loaded(mem, offset, code).subrange(offset, offset + code.len()) =~= code);
}

} // verus!
