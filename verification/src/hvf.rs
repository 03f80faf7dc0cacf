//! Definitions mirroring the surface of Apple's Hypervisor Framework that
//! the virtual-CPU model speaks: status codes, memory-protection flags, the
//! register identifiers and the exit description, and the mapping from the
//! portable register names onto them.

use vstd::prelude::*;

use crate::arch::x86_64::Register;
use crate::error::Error;

verus! {

/// The call succeeded.
pub const HV_SUCCESS: u32 = 0;
/// The call failed for an unspecified reason.
pub const HV_ERROR: u32 = 0xfae9_4001;
/// The owning resource is busy.
pub const HV_BUSY: u32 = 0xfae9_4002;
/// An argument is invalid.
pub const HV_BAD_ARGUMENT: u32 = 0xfae9_4003;
/// The host ran out of resources.
pub const HV_NO_RESOURCES: u32 = 0xfae9_4005;
/// No supported hypervisor device is present.
pub const HV_NO_DEVICE: u32 = 0xfae9_4006;
/// The caller may not use the hypervisor.
pub const HV_DENIED: u32 = 0xfae9_4007;
/// The operation is unsupported.
pub const HV_UNSUPPORTED: u32 = 0xfae9_400f;

/// The default options for creating a virtual machine.
pub const HV_VM_DEFAULT: u64 = 0;

/// The guest may read the mapped memory.
pub const HV_MEMORY_READ: u64 = 1;
/// The guest may write the mapped memory.
pub const HV_MEMORY_WRITE: u64 = 2;
/// The guest may execute from the mapped memory.
pub const HV_MEMORY_EXEC: u64 = 4;

/// Turns a host status code into the crate's result type: exactly the
/// successful status maps to `Ok`, every other code is preserved in the
/// error.
pub fn into_result(code: u32) -> (r: Result<(), Error>)
    ensures
        r is Ok <==> code == HV_SUCCESS,
        r matches Err(e) ==> e == Error::HypervisorError(code),
{
    if code == HV_SUCCESS {
        Ok(())
    } else {
        Err(Error::HypervisorError(code))
    }
}

/// The description of an exception that made a virtual CPU exit.
#[allow(non_camel_case_types)]
#[derive(Clone, Copy, Debug, Eq, PartialEq, Structural)]
pub struct hv_vcpu_exit_exception_t {
    /// The exception syndrome.
    pub syndrome: u64,
    /// The virtual address of the faulting access.
    pub virtual_address: u64,
    /// The intermediate physical address of the faulting access.
    pub physical_address: u64,
}

/// The description of why a virtual CPU exited.
#[allow(non_camel_case_types)]
#[derive(Clone, Copy, Debug, Eq, PartialEq, Structural)]
pub struct hv_vcpu_exit_t {
    /// The reason for the exit.
    pub reason: u32,
    /// The exception description, where the reason is an exception.
    pub exception: hv_vcpu_exit_exception_t,
}

/// The type that defines x86 architectural registers.
#[allow(non_camel_case_types)]
#[allow(missing_docs)]
#[derive(Clone, Copy, Debug, Eq, PartialEq, Structural)]
pub enum hv_x86_reg_t {
    HV_X86_RIP,
    HV_X86_RFLAGS,
    HV_X86_RAX,
    HV_X86_RCX,
    HV_X86_RDX,
    HV_X86_RBX,
    HV_X86_RSI,
    HV_X86_RDI,
    HV_X86_RSP,
    HV_X86_RBP,
    HV_X86_R8,
    HV_X86_R9,
    HV_X86_R10,
    HV_X86_R11,
    HV_X86_R12,
    HV_X86_R13,
    HV_X86_R14,
    HV_X86_R15,
    HV_X86_CS,
    HV_X86_SS,
    HV_X86_DS,
    HV_X86_ES,
    HV_X86_FS,
    HV_X86_GS,
    HV_X86_IDT_BASE,
    HV_X86_IDT_LIMIT,
    HV_X86_GDT_BASE,
    HV_X86_GDT_LIMIT,
    HV_X86_LDTR,
    HV_X86_LDT_BASE,
    HV_X86_LDT_LIMIT,
    HV_X86_LDT_AR,
    HV_X86_TR,
    HV_X86_TSS_BASE,
    HV_X86_TSS_LIMIT,
    HV_X86_TSS_AR,
    HV_X86_CR0,
    HV_X86_CR1,
    HV_X86_CR2,
    HV_X86_CR3,
    HV_X86_CR4,
}

/// The host register identifier that a portable general-purpose register
/// name stands for.
pub open spec fn hv_register_for(register: Register) -> hv_x86_reg_t {
    match register {
        Register::Rax => hv_x86_reg_t::HV_X86_RAX,
        Register::Rcx => hv_x86_reg_t::HV_X86_RCX,
        Register::Rdx => hv_x86_reg_t::HV_X86_RDX,
        Register::Rbx => hv_x86_reg_t::HV_X86_RBX,
        Register::Rsp => hv_x86_reg_t::HV_X86_RSP,
        Register::Rbp => hv_x86_reg_t::HV_X86_RBP,
        Register::Rsi => hv_x86_reg_t::HV_X86_RSI,
        Register::Rdi => hv_x86_reg_t::HV_X86_RDI,
        Register::R8 => hv_x86_reg_t::HV_X86_R8,
        Register::R9 => hv_x86_reg_t::HV_X86_R9,
        Register::R10 => hv_x86_reg_t::HV_X86_R10,
        Register::R11 => hv_x86_reg_t::HV_X86_R11,
        Register::R12 => hv_x86_reg_t::HV_X86_R12,
        Register::R13 => hv_x86_reg_t::HV_X86_R13,
        Register::R14 => hv_x86_reg_t::HV_X86_R14,
        Register::R15 => hv_x86_reg_t::HV_X86_R15,
        Register::Rip => hv_x86_reg_t::HV_X86_RIP,
        Register::Rflags => hv_x86_reg_t::HV_X86_RFLAGS,
    }
}

/// Maps a portable general-purpose register name onto the host register
/// identifier.
pub fn register_id(register: &Register) -> (r: hv_x86_reg_t)
    ensures
        r == hv_register_for(*register),
{
    match register {
        Register::Rax => hv_x86_reg_t::HV_X86_RAX,
        Register::Rcx => hv_x86_reg_t::HV_X86_RCX,
        Register::Rdx => hv_x86_reg_t::HV_X86_RDX,
        Register::Rbx => hv_x86_reg_t::HV_X86_RBX,
        Register::Rsp => hv_x86_reg_t::HV_X86_RSP,
        Register::Rbp => hv_x86_reg_t::HV_X86_RBP,
        Register::Rsi => hv_x86_reg_t::HV_X86_RSI,
        Register::Rdi => hv_x86_reg_t::HV_X86_RDI,
        Register::R8 => hv_x86_reg_t::HV_X86_R8,
        Register::R9 => hv_x86_reg_t::HV_X86_R9,
        Register::R10 => hv_x86_reg_t::HV_X86_R10,
        Register::R11 => hv_x86_reg_t::HV_X86_R11,
        Register::R12 => hv_x86_reg_t::HV_X86_R12,
        Register::R13 => hv_x86_reg_t::HV_X86_R13,
        Register::R14 => hv_x86_reg_t::HV_X86_R14,
        Register::R15 => hv_x86_reg_t::HV_X86_R15,
        Register::Rip => hv_x86_reg_t::HV_X86_RIP,
        Register::Rflags => hv_x86_reg_t::HV_X86_RFLAGS,
    }
}

} // verus!
