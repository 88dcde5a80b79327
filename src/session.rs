//! A hypervisor session: the KVM handle, the VM, its single vCPU, and the
//! layout of guest memory.

use vstd::prelude::*;
use kvm_bindings::kvm_userspace_memory_region;
use kvm_ioctls::{Kvm, VcpuFd, VmFd};
use crate::error::VmmError;
use crate::exit::{classify, ExitEvent};
use crate::hv;
use crate::memory::{code_fits, copy_code, loaded, GuestMapping};
use crate::registers::{set_entry_regs, set_flat_code_segment};

verus! {

/// A single-vCPU virtual machine whose guest memory is `mem_size` bytes,
/// exposed to the guest at `guest_addr`, where execution also starts.
/// The handles are declared in reverse order of acquisition, so that they
/// are released vCPU first and KVM last.
pub struct VMM {
    vcpu_fd: VcpuFd,
    vm_fd: VmFd,
    kvm: Kvm,
    guest_addr: u64,
    mem_size: usize,
    memory: GuestMapping,
}

impl VMM {
    /// The guest entry address.
    pub closed spec fn entry(&self) -> u64 {
        self.guest_addr
    }

    /// The size of guest memory in bytes.
    pub closed spec fn size(&self) -> usize {
        self.mem_size
    }

    /// Opens KVM, creates the VM, registers the host region of `mem_size`
    /// bytes at `host_base` as slot 0 at guest-physical `guest_addr` through
    /// `register`, and creates vCPU 0, in that order. Each failure is
    /// reported as the step that failed; the region handed to `register` is
    /// the one of `mapping()`.
    pub fn new<F: FnOnce(&VmFd, kvm_userspace_memory_region) -> Result<(), i32>>(
        mem_size: usize,
        guest_addr: u64,
        host_base: u64,
        register: F,
    ) -> (r: Result<VMM, VmmError>)
        requires
            mem_size > 0,
            forall|vm: &VmFd, region: kvm_userspace_memory_region|
                call_requires(register, (vm, region)),
        ensures
            r is Ok ==> r->Ok_0.entry() == guest_addr && r->Ok_0.size() == mem_size
                && r->Ok_0.mapping() == GuestMapping::new_spec(mem_size, guest_addr, host_base)
                && r->Ok_0.mapping().spec_translate(guest_addr) == Some(host_base),
            r is Err ==> r->Err_0 is CapabilityUnavailable || r->Err_0 is VmCreationFailed
                || r->Err_0 is MemoryRegistrationFailed || r->Err_0 is VcpuCreationFailed,
    {
        let kvm = match hv::open_kvm() {
            Ok(kvm) => kvm,
            Err(e) => return Err(VmmError::CapabilityUnavailable(e)),
        };
        let vm_fd = match hv::create_vm(&kvm) {
            Ok(vm) => vm,
            Err(e) => return Err(VmmError::VmCreationFailed(e)),
        };
        let mapping = GuestMapping::new(mem_size, guest_addr, host_base);
        if let Err(e) = register(&vm_fd, mapping.user_memory_region()) {
            return Err(VmmError::MemoryRegistrationFailed(e));
        }
        let vcpu_fd = match hv::create_vcpu(&vm_fd, 0) {
            Ok(vcpu) => vcpu,
            Err(e) => return Err(VmmError::VcpuCreationFailed(e)),
        };
        Ok(VMM { vcpu_fd, vm_fd, kvm, guest_addr, mem_size, memory: mapping })
    }

    /// The guest entry address.
    pub fn guest_addr(&self) -> (r: u64)
        ensures
            r == self.entry(),
    {
        self.guest_addr
    }

    /// The size of guest memory in bytes.
    pub fn mem_size(&self) -> (r: usize)
        ensures
            r == self.size(),
    {
        self.mem_size
    }

    /// The registered memory slot.
    pub closed spec fn mapping(&self) -> GuestMapping {
        self.memory
    }

    /// The registered memory slot.
    pub fn memory_mapping(&self) -> (r: GuestMapping)
        ensures
            r == self.mapping(),
    {
        self.memory
    }

    /// Sets the initial vCPU state: flat code segment, instruction pointer at
    /// the entry address, scratch registers and flags preset. Only the
    /// fields named change; a rejected register access is reported.
    pub fn configure(&self) -> (r: Result<(), VmmError>)
        ensures
            r is Err ==> r->Err_0 is RegisterAccessFailed,
    {
        let mut sregs = match hv::get_sregs(&self.vcpu_fd) {
            Ok(s) => s,
            Err(e) => return Err(VmmError::RegisterAccessFailed(e)),
        };
        set_flat_code_segment(&mut sregs);
        if let Err(e) = hv::set_sregs(&self.vcpu_fd, &sregs) {
            return Err(VmmError::RegisterAccessFailed(e));
        }
        let mut regs = match hv::get_regs(&self.vcpu_fd) {
            Ok(r) => r,
            Err(e) => return Err(VmmError::RegisterAccessFailed(e)),
        };
        set_entry_regs(&mut regs, self.guest_addr);
        match hv::set_regs(&self.vcpu_fd, &regs) {
            Ok(()) => Ok(()),
            Err(e) => Err(VmmError::RegisterAccessFailed(e)),
        }
    }

    /// Copies the guest program into guest memory at the entry offset, or
    /// rejects it with `CodeTooLarge`, leaving memory untouched, when it
    /// runs past the end of guest memory.
    pub fn load_code(&self, memory: &mut [u8], asm_code: &[u8]) -> (r: Result<(), VmmError>)
        requires
            old(memory)@.len() == self.size(),
        ensures
            r is Ok <==> code_fits(self.size() as int, self.entry() as int, asm_code@.len() as int),
            r is Err ==> r->Err_0 is CodeTooLarge && final(memory)@ == old(memory)@,
            r is Ok ==> final(memory)@ == loaded(old(memory)@, self.entry() as int, asm_code@),
    {
        copy_code(memory, self.guest_addr, asm_code)
    }

    /// Resumes the vCPU until its next exit and classifies it. A host-level
    /// failure of the resume is `VcpuRunFailed`.
    pub fn resume(&mut self) -> (r: Result<ExitEvent, VmmError>)
        ensures
            final(self).entry() == old(self).entry(),
            final(self).size() == old(self).size(),
            final(self).mapping() == old(self).mapping(),
            r is Err ==> r->Err_0 is VcpuRunFailed,
    {
        match hv::run_vcpu(&mut self.vcpu_fd) {
            Ok(raw) => Ok(classify(raw)),
            Err(e) => Err(VmmError::VcpuRunFailed(e)),
        }
    }
}

} // verus!
