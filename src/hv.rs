//! Declarations of the KVM types this library handles, and the calls into
//! `kvm-ioctls` behind small trusted wrappers. Host-level failures come back
//! as the errno that the ioctl reported.

use vstd::prelude::*;
use kvm_bindings::{kvm_regs, kvm_sregs, kvm_userspace_memory_region};
use kvm_ioctls::{Kvm, VcpuExit, VcpuFd, VmFd};
use crate::exit::RawExit;

verus! {

/// The general-purpose register file of an x86-64 vCPU, as KVM exchanges it.
pub type KvmRegs = kvm_bindings::kvm_regs;

/// The special (segment and control) registers of an x86-64 vCPU.
pub type KvmSregs = kvm_bindings::kvm_sregs;

/// A memory-slot descriptor as KVM takes it.
pub type KvmMemoryRegion = kvm_bindings::kvm_userspace_memory_region;

#[verifier::external_type_specification]
pub struct ExKvmRegs(kvm_bindings::kvm_regs);

#[verifier::external_type_specification]
pub struct ExKvmSegment(kvm_bindings::kvm_segment);

#[verifier::external_type_specification]
pub struct ExKvmDtable(kvm_bindings::kvm_dtable);

#[verifier::external_type_specification]
pub struct ExKvmSregs(kvm_bindings::kvm_sregs);

#[verifier::external_type_specification]
pub struct ExKvmMemoryRegion(kvm_bindings::kvm_userspace_memory_region);

#[verifier::external_type_specification]
#[verifier::external_body]
pub struct ExKvm(kvm_ioctls::Kvm);

#[verifier::external_type_specification]
#[verifier::external_body]
pub struct ExVmFd(kvm_ioctls::VmFd);

#[verifier::external_type_specification]
#[verifier::external_body]
pub struct ExVcpuFd(kvm_ioctls::VcpuFd);

/// Relies on kvm_bindings::KVM_MEM_LOG_DIRTY_PAGES, the slot flag that turns
/// on dirty-page logging; the crate defines it as 1.
#[verifier::external_body]
pub(crate) fn dirty_log_flag() -> (r: u32)
    ensures
        r == 1,
{
    kvm_bindings::KVM_MEM_LOG_DIRTY_PAGES
}

/// Relies on kvm_ioctls::Kvm::new, which opens the KVM device.
#[verifier::external_body]
pub(crate) fn open_kvm() -> (r: Result<Kvm, i32>) {
    match Kvm::new() {
        Ok(kvm) => Ok(kvm),
        Err(e) => Err(e.errno()),
    }
}

/// Relies on kvm_ioctls::Kvm::create_vm, which creates a VM of the default type.
#[verifier::external_body]
pub(crate) fn create_vm(kvm: &Kvm) -> (r: Result<VmFd, i32>) {
    match kvm.create_vm() {
        Ok(vm) => Ok(vm),
        Err(e) => Err(e.errno()),
    }
}

/// Relies on kvm_ioctls::VmFd::create_vcpu, which creates the vCPU with id `id`.
#[verifier::external_body]
pub(crate) fn create_vcpu(vm: &VmFd, id: u64) -> (r: Result<VcpuFd, i32>) {
    match vm.create_vcpu(id) {
        Ok(vcpu) => Ok(vcpu),
        Err(e) => Err(e.errno()),
    }
}

/// Relies on kvm_ioctls::VcpuFd::get_regs, which reads the vCPU's registers.
#[verifier::external_body]
pub(crate) fn get_regs(vcpu: &VcpuFd) -> (r: Result<kvm_regs, i32>) {
    match vcpu.get_regs() {
        Ok(regs) => Ok(regs),
        Err(e) => Err(e.errno()),
    }
}

/// Relies on kvm_ioctls::VcpuFd::set_regs, which writes the vCPU's registers.
#[verifier::external_body]
pub(crate) fn set_regs(vcpu: &VcpuFd, regs: &kvm_regs) -> (r: Result<(), i32>) {
    match vcpu.set_regs(regs) {
        Ok(()) => Ok(()),
        Err(e) => Err(e.errno()),
    }
}

/// Relies on kvm_ioctls::VcpuFd::get_sregs, which reads the special registers.
#[verifier::external_body]
pub(crate) fn get_sregs(vcpu: &VcpuFd) -> (r: Result<kvm_sregs, i32>) {
    match vcpu.get_sregs() {
        Ok(sregs) => Ok(sregs),
        Err(e) => Err(e.errno()),
    }
}

/// Relies on kvm_ioctls::VcpuFd::set_sregs, which writes the special registers.
#[verifier::external_body]
pub(crate) fn set_sregs(vcpu: &VcpuFd, sregs: &kvm_sregs) -> (r: Result<(), i32>) {
    match vcpu.set_sregs(sregs) {
        Ok(()) => Ok(()),
        Err(e) => Err(e.errno()),
    }
}

/// Relies on kvm_ioctls::VcpuFd::run, which resumes the guest until it exits;
/// the exit's kind and data are copied out, any other kind by its `Debug` text.
#[verifier::external_body]
pub(crate) fn run_vcpu(vcpu: &mut VcpuFd) -> (r: Result<RawExit, i32>) {
    match vcpu.run() {
        Ok(VcpuExit::IoIn(port, data)) => Ok(RawExit::IoIn(port, data.to_vec())),
        Ok(VcpuExit::IoOut(port, data)) => Ok(RawExit::IoOut(port, data.to_vec())),
        Ok(VcpuExit::MmioRead(addr, data)) => Ok(RawExit::MmioRead(addr, data.to_vec())),
        Ok(VcpuExit::MmioWrite(addr, data)) => Ok(RawExit::MmioWrite(addr, data.to_vec())),
        Ok(VcpuExit::Hlt) => Ok(RawExit::Hlt),
        Ok(other) => Ok(RawExit::Other(format!("{:?}", other))),
        Err(e) => Err(e.errno()),
    }
}

} // verus!
