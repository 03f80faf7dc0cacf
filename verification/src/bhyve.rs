//! The wire surface of the bhyve interface: its register names, exit codes
//! and call structures, the mapping from the portable register names onto
//! them, the segment-descriptor encoding, and the translation of its exits
//! into portable exit reasons.

use vstd::prelude::*;

use crate::arch::x86_64::{
    spec_access_rights, spec_segment_from_parts, ControlRegister, Register, SegmentRegister,
    MSR_IA32_EFER,
};
use crate::arch::x86_64::{access_rights, segment_from_parts, Segment};
use crate::vcpu::ExitReason;

verus! {

/// The registers that the bhyve interface addresses by number.
#[allow(non_camel_case_types)]
#[allow(missing_docs)]
#[derive(Clone, Copy, Debug, Eq, PartialEq, Structural)]
pub enum vm_reg_name {
    VM_REG_GUEST_RAX,
    VM_REG_GUEST_RBX,
    VM_REG_GUEST_RCX,
    VM_REG_GUEST_RDX,
    VM_REG_GUEST_RSI,
    VM_REG_GUEST_RDI,
    VM_REG_GUEST_RBP,
    VM_REG_GUEST_R8,
    VM_REG_GUEST_R9,
    VM_REG_GUEST_R10,
    VM_REG_GUEST_R11,
    VM_REG_GUEST_R12,
    VM_REG_GUEST_R13,
    VM_REG_GUEST_R14,
    VM_REG_GUEST_R15,
    VM_REG_GUEST_CR0,
    VM_REG_GUEST_CR3,
    VM_REG_GUEST_CR4,
    VM_REG_GUEST_DR7,
    VM_REG_GUEST_RSP,
    VM_REG_GUEST_RIP,
    VM_REG_GUEST_RFLAGS,
    VM_REG_GUEST_ES,
    VM_REG_GUEST_CS,
    VM_REG_GUEST_SS,
    VM_REG_GUEST_DS,
    VM_REG_GUEST_FS,
    VM_REG_GUEST_GS,
    VM_REG_GUEST_LDTR,
    VM_REG_GUEST_TR,
    VM_REG_GUEST_IDTR,
    VM_REG_GUEST_GDTR,
    VM_REG_GUEST_EFER,
    VM_REG_LAST,
}

/// The exit codes of the bhyve interface.
#[allow(non_camel_case_types)]
#[allow(missing_docs)]
#[derive(Clone, Copy, Debug, Eq, PartialEq, Structural)]
pub enum vm_exitcode {
    VM_EXITCODE_INOUT,
    VM_EXITCODE_VMX,
    VM_EXITCODE_BOGUS,
    VM_EXITCODE_RDMSR,
    VM_EXITCODE_WRMSR,
    VM_EXITCODE_HLT,
    VM_EXITCODE_MTRAP,
    VM_EXITCODE_PAUSE,
    VM_EXITCODE_PAGING,
    VM_EXITCODE_INST_EMUL,
    VM_EXITCODE_SPINUP_AP,
    VM_EXITCODE_MAX,
}

/// The exit description of the bhyve run call.
#[allow(non_camel_case_types)]
#[derive(Clone, Copy, Debug, Eq, PartialEq, Structural)]
pub struct vm_exit {
    /// Why the virtual CPU exited.
    pub exitcode: vm_exitcode,
    /// The length of the exiting instruction.
    pub inst_length: i32,
    /// The instruction pointer at the exit.
    pub rip: u64,
}

/// The argument block of the bhyve run call.
#[allow(non_camel_case_types)]
#[derive(Clone, Copy, Debug, Eq, PartialEq, Structural)]
pub struct vm_run {
    /// The virtual CPU to run.
    pub cpuid: i32,
    /// The instruction pointer to resume at.
    pub rip: u64,
    /// Filled with the exit description.
    pub vm_exit: vm_exit,
}

/// The argument block of the bhyve register calls.
#[allow(non_camel_case_types)]
#[derive(Clone, Copy, Debug, Eq, PartialEq, Structural)]
pub struct vm_register {
    /// The virtual CPU addressed.
    pub cpuid: i32,
    /// The register addressed.
    pub regnum: vm_reg_name,
    /// The value read or written.
    pub value: u64,
}

/// A segment descriptor in the bhyve encoding: the flags are packed into
/// the access word.
#[allow(non_camel_case_types)]
#[derive(Clone, Copy, Debug, Eq, PartialEq, Structural)]
pub struct seg_desc {
    /// The base address of the segment.
    pub base: u64,
    /// The limit of the segment.
    pub limit: u32,
    /// The packed access rights.
    pub access: u32,
}

/// The argument block of the bhyve segment-descriptor calls.
#[allow(non_camel_case_types)]
#[derive(Clone, Copy, Debug, Eq, PartialEq, Structural)]
pub struct vm_seg_desc {
    /// The virtual CPU addressed.
    pub cpuid: i32,
    /// The segment register addressed.
    pub regnum: vm_reg_name,
    /// The descriptor read or written.
    pub desc: seg_desc,
}

/// The bhyve register number of a portable general-purpose register.
pub open spec fn spec_bhyve_register(register: Register) -> vm_reg_name {
    match register {
        Register::Rax => vm_reg_name::VM_REG_GUEST_RAX,
        Register::Rcx => vm_reg_name::VM_REG_GUEST_RCX,
        Register::Rdx => vm_reg_name::VM_REG_GUEST_RDX,
        Register::Rbx => vm_reg_name::VM_REG_GUEST_RBX,
        Register::Rsp => vm_reg_name::VM_REG_GUEST_RSP,
        Register::Rbp => vm_reg_name::VM_REG_GUEST_RBP,
        Register::Rsi => vm_reg_name::VM_REG_GUEST_RSI,
        Register::Rdi => vm_reg_name::VM_REG_GUEST_RDI,
        Register::R8 => vm_reg_name::VM_REG_GUEST_R8,
        Register::R9 => vm_reg_name::VM_REG_GUEST_R9,
        Register::R10 => vm_reg_name::VM_REG_GUEST_R10,
        Register::R11 => vm_reg_name::VM_REG_GUEST_R11,
        Register::R12 => vm_reg_name::VM_REG_GUEST_R12,
        Register::R13 => vm_reg_name::VM_REG_GUEST_R13,
        Register::R14 => vm_reg_name::VM_REG_GUEST_R14,
        Register::R15 => vm_reg_name::VM_REG_GUEST_R15,
        Register::Rip => vm_reg_name::VM_REG_GUEST_RIP,
        Register::Rflags => vm_reg_name::VM_REG_GUEST_RFLAGS,
    }
}

/// Maps a portable general-purpose register onto its bhyve number.
pub fn bhyve_register(register: &Register) -> (r: vm_reg_name)
    ensures
        r == spec_bhyve_register(*register),
{
    match register {
        Register::Rax => vm_reg_name::VM_REG_GUEST_RAX,
        Register::Rcx => vm_reg_name::VM_REG_GUEST_RCX,
        Register::Rdx => vm_reg_name::VM_REG_GUEST_RDX,
        Register::Rbx => vm_reg_name::VM_REG_GUEST_RBX,
        Register::Rsp => vm_reg_name::VM_REG_GUEST_RSP,
        Register::Rbp => vm_reg_name::VM_REG_GUEST_RBP,
        Register::Rsi => vm_reg_name::VM_REG_GUEST_RSI,
        Register::Rdi => vm_reg_name::VM_REG_GUEST_RDI,
        Register::R8 => vm_reg_name::VM_REG_GUEST_R8,
        Register::R9 => vm_reg_name::VM_REG_GUEST_R9,
        Register::R10 => vm_reg_name::VM_REG_GUEST_R10,
        Register::R11 => vm_reg_name::VM_REG_GUEST_R11,
        Register::R12 => vm_reg_name::VM_REG_GUEST_R12,
        Register::R13 => vm_reg_name::VM_REG_GUEST_R13,
        Register::R14 => vm_reg_name::VM_REG_GUEST_R14,
        Register::R15 => vm_reg_name::VM_REG_GUEST_R15,
        Register::Rip => vm_reg_name::VM_REG_GUEST_RIP,
        Register::Rflags => vm_reg_name::VM_REG_GUEST_RFLAGS,
    }
}

/// The bhyve register number of a portable control register, where the
/// interface has one: CR1, CR2 and CR8 are not representable, read as 0 and
/// swallow writes.
pub open spec fn spec_bhyve_control_register(register: ControlRegister) -> Option<vm_reg_name> {
    match register {
        ControlRegister::Cr0 => Some(vm_reg_name::VM_REG_GUEST_CR0),
        ControlRegister::Cr1 => None,
        ControlRegister::Cr2 => None,
        ControlRegister::Cr3 => Some(vm_reg_name::VM_REG_GUEST_CR3),
        ControlRegister::Cr4 => Some(vm_reg_name::VM_REG_GUEST_CR4),
        ControlRegister::Cr8 => None,
    }
}

/// Maps a portable control register onto its bhyve number, where one
/// exists.
pub fn bhyve_control_register(register: &ControlRegister) -> (r: Option<vm_reg_name>)
    ensures
        r == spec_bhyve_control_register(*register),
{
    match register {
        ControlRegister::Cr0 => Some(vm_reg_name::VM_REG_GUEST_CR0),
        ControlRegister::Cr1 => None,
        ControlRegister::Cr2 => None,
        ControlRegister::Cr3 => Some(vm_reg_name::VM_REG_GUEST_CR3),
        ControlRegister::Cr4 => Some(vm_reg_name::VM_REG_GUEST_CR4),
        ControlRegister::Cr8 => None,
    }
}

/// The bhyve register number of a portable segment register.
pub open spec fn spec_bhyve_segment_register(register: SegmentRegister) -> vm_reg_name {
    match register {
        SegmentRegister::Cs => vm_reg_name::VM_REG_GUEST_CS,
        SegmentRegister::Ds => vm_reg_name::VM_REG_GUEST_DS,
        SegmentRegister::Es => vm_reg_name::VM_REG_GUEST_ES,
        SegmentRegister::Fs => vm_reg_name::VM_REG_GUEST_FS,
        SegmentRegister::Gs => vm_reg_name::VM_REG_GUEST_GS,
        SegmentRegister::Ss => vm_reg_name::VM_REG_GUEST_SS,
        SegmentRegister::Tr => vm_reg_name::VM_REG_GUEST_TR,
        SegmentRegister::Ldt => vm_reg_name::VM_REG_GUEST_LDTR,
    }
}

/// Maps a portable segment register onto its bhyve number.
pub fn bhyve_segment_register(register: &SegmentRegister) -> (r: vm_reg_name)
    ensures
        r == spec_bhyve_segment_register(*register),
{
    match register {
        SegmentRegister::Cs => vm_reg_name::VM_REG_GUEST_CS,
        SegmentRegister::Ds => vm_reg_name::VM_REG_GUEST_DS,
        SegmentRegister::Es => vm_reg_name::VM_REG_GUEST_ES,
        SegmentRegister::Fs => vm_reg_name::VM_REG_GUEST_FS,
        SegmentRegister::Gs => vm_reg_name::VM_REG_GUEST_GS,
        SegmentRegister::Ss => vm_reg_name::VM_REG_GUEST_SS,
        SegmentRegister::Tr => vm_reg_name::VM_REG_GUEST_TR,
        SegmentRegister::Ldt => vm_reg_name::VM_REG_GUEST_LDTR,
    }
}

/// The bhyve register number of a model-specific register, where the
/// interface has one: only EFER is addressable as a register; every other
/// MSR reads as 0 and swallows writes.
pub open spec fn spec_bhyve_msr_register(register: u32) -> Option<vm_reg_name> {
    if register == MSR_IA32_EFER {
        Some(vm_reg_name::VM_REG_GUEST_EFER)
    } else {
        None
    }
}

/// Maps an MSR number onto its bhyve register number, where one exists.
pub fn bhyve_msr_register(register: u32) -> (r: Option<vm_reg_name>)
    ensures
        r == spec_bhyve_msr_register(register),
{
    if register == MSR_IA32_EFER {
        Some(vm_reg_name::VM_REG_GUEST_EFER)
    } else {
        None
    }
}

/// The wire descriptor that a portable segment descriptor encodes to.
pub open spec fn spec_seg_desc_of(segment: Segment) -> seg_desc {
    seg_desc { base: segment.base, limit: segment.limit, access: spec_access_rights(segment) }
}

/// Encodes a portable segment descriptor for the wire.
pub fn seg_desc_of(segment: &Segment) -> (r: seg_desc)
    ensures
        r == spec_seg_desc_of(*segment),
{
    seg_desc { base: segment.base, limit: segment.limit, access: access_rights(segment) }
}

/// The portable segment descriptor that a wire descriptor, together with the
/// separately read selector, decodes to.
pub open spec fn spec_segment_of_desc(selector: u64, desc: seg_desc) -> Segment {
    spec_segment_from_parts(desc.base, desc.limit, selector as u16, desc.access)
}

/// Decodes a wire descriptor and a selector into a portable segment
/// descriptor.
pub fn segment_of_desc(selector: u64, desc: &seg_desc) -> (r: Segment)
    ensures
        r == spec_segment_of_desc(selector, *desc),
{
    segment_from_parts(desc.base, desc.limit, selector as u16, desc.access)
}

/// The portable exit reason that a bhyve exit code translates to: only the
/// halt is meaningful; anything else is unknown.
pub open spec fn spec_translate_bhyve_exit(code: vm_exitcode) -> ExitReason {
    match code {
        vm_exitcode::VM_EXITCODE_HLT => ExitReason::Halted,
        _ => ExitReason::Unknown,
    }
}

/// Translates a bhyve exit code into the portable exit reason.
pub fn translate_bhyve_exit(code: vm_exitcode) -> (r: ExitReason)
    ensures
        r == spec_translate_bhyve_exit(code),
{
    match code {
        vm_exitcode::VM_EXITCODE_HLT => ExitReason::Halted,
        _ => ExitReason::Unknown,
    }
}

} // verus!
