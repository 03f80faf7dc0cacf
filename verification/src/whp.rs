//! Marshalling for the Windows Hypervisor Platform port: its register-name
//! space, the partition handle, the mapping of portable names onto it with
//! the identifiers the platform cannot represent skipped on write and
//! synthesized as 0 on read, its memory-protection flags, and the
//! translation of its exits into portable exit reasons.

use vstd::prelude::*;

use crate::arch::x86_64::{
    ControlRegister, Register, SegmentRegister, MSR_IA32_CSTAR, MSR_IA32_EFER,
    MSR_IA32_KERNEL_GS_BASE, MSR_IA32_LSTAR, MSR_IA32_STAR, MSR_IA32_SYSCALL_MASK,
    MSR_IA32_SYSENTER_CS, MSR_IA32_SYSENTER_EIP, MSR_IA32_SYSENTER_ESP,
};
use crate::vcpu::ExitReason;

verus! {

/// A raw handle to a partition, the platform's term for a VM container. The
/// handle is shared by the VM and all of its virtual CPUs and dropped last.
#[derive(Clone, Copy, Debug, Eq, PartialEq, Structural)]
pub struct PartitionHandle(pub isize);

/// The guest may read the mapped range.
pub const WHP_MAP_GPA_READ: u32 = 1;
/// The guest may write the mapped range.
pub const WHP_MAP_GPA_WRITE: u32 = 2;
/// The guest may execute from the mapped range.
pub const WHP_MAP_GPA_EXECUTE: u32 = 4;

/// The register names of the platform that the port speaks.
#[allow(missing_docs)]
#[derive(Clone, Copy, Debug, Eq, PartialEq, Structural)]
pub enum WhpRegisterName {
    Rax,
    Rcx,
    Rdx,
    Rbx,
    Rsp,
    Rbp,
    Rsi,
    Rdi,
    R8,
    R9,
    R10,
    R11,
    R12,
    R13,
    R14,
    R15,
    Rip,
    Rflags,
    Es,
    Cs,
    Ss,
    Ds,
    Fs,
    Gs,
    Ldtr,
    Tr,
    Idtr,
    Gdtr,
    Cr0,
    Cr2,
    Cr3,
    Cr4,
    Cr8,
    Efer,
    KernelGsBase,
    SysenterCs,
    SysenterEip,
    SysenterEsp,
    Star,
    Lstar,
    Cstar,
    Sfmask,
}

/// The platform register name of a portable general-purpose register.
pub open spec fn spec_whp_register(register: Register) -> WhpRegisterName {
    match register {
        Register::Rax => WhpRegisterName::Rax,
        Register::Rcx => WhpRegisterName::Rcx,
        Register::Rdx => WhpRegisterName::Rdx,
        Register::Rbx => WhpRegisterName::Rbx,
        Register::Rsp => WhpRegisterName::Rsp,
        Register::Rbp => WhpRegisterName::Rbp,
        Register::Rsi => WhpRegisterName::Rsi,
        Register::Rdi => WhpRegisterName::Rdi,
        Register::R8 => WhpRegisterName::R8,
        Register::R9 => WhpRegisterName::R9,
        Register::R10 => WhpRegisterName::R10,
        Register::R11 => WhpRegisterName::R11,
        Register::R12 => WhpRegisterName::R12,
        Register::R13 => WhpRegisterName::R13,
        Register::R14 => WhpRegisterName::R14,
        Register::R15 => WhpRegisterName::R15,
        Register::Rip => WhpRegisterName::Rip,
        Register::Rflags => WhpRegisterName::Rflags,
    }
}

/// Maps a portable general-purpose register onto the platform name.
pub fn whp_register(register: &Register) -> (r: WhpRegisterName)
    ensures
        r == spec_whp_register(*register),
{
    match register {
        Register::Rax => WhpRegisterName::Rax,
        Register::Rcx => WhpRegisterName::Rcx,
        Register::Rdx => WhpRegisterName::Rdx,
        Register::Rbx => WhpRegisterName::Rbx,
        Register::Rsp => WhpRegisterName::Rsp,
        Register::Rbp => WhpRegisterName::Rbp,
        Register::Rsi => WhpRegisterName::Rsi,
        Register::Rdi => WhpRegisterName::Rdi,
        Register::R8 => WhpRegisterName::R8,
        Register::R9 => WhpRegisterName::R9,
        Register::R10 => WhpRegisterName::R10,
        Register::R11 => WhpRegisterName::R11,
        Register::R12 => WhpRegisterName::R12,
        Register::R13 => WhpRegisterName::R13,
        Register::R14 => WhpRegisterName::R14,
        Register::R15 => WhpRegisterName::R15,
        Register::Rip => WhpRegisterName::Rip,
        Register::Rflags => WhpRegisterName::Rflags,
    }
}

/// The platform register name of a portable control register, where the
/// platform has one: CR1 is not representable; it is skipped on write and
/// synthesized as 0 on read at the corresponding output index.
pub open spec fn spec_whp_control_register(register: ControlRegister) -> Option<WhpRegisterName> {
    match register {
        ControlRegister::Cr0 => Some(WhpRegisterName::Cr0),
        ControlRegister::Cr1 => None,
        ControlRegister::Cr2 => Some(WhpRegisterName::Cr2),
        ControlRegister::Cr3 => Some(WhpRegisterName::Cr3),
        ControlRegister::Cr4 => Some(WhpRegisterName::Cr4),
        ControlRegister::Cr8 => Some(WhpRegisterName::Cr8),
    }
}

/// Maps a portable control register onto the platform name, where one
/// exists.
pub fn whp_control_register(register: &ControlRegister) -> (r: Option<WhpRegisterName>)
    ensures
        r == spec_whp_control_register(*register),
{
    match register {
        ControlRegister::Cr0 => Some(WhpRegisterName::Cr0),
        ControlRegister::Cr1 => None,
        ControlRegister::Cr2 => Some(WhpRegisterName::Cr2),
        ControlRegister::Cr3 => Some(WhpRegisterName::Cr3),
        ControlRegister::Cr4 => Some(WhpRegisterName::Cr4),
        ControlRegister::Cr8 => Some(WhpRegisterName::Cr8),
    }
}

/// The platform register name of a portable segment register.
pub open spec fn spec_whp_segment_register(register: SegmentRegister) -> WhpRegisterName {
    match register {
        SegmentRegister::Cs => WhpRegisterName::Cs,
        SegmentRegister::Ds => WhpRegisterName::Ds,
        SegmentRegister::Es => WhpRegisterName::Es,
        SegmentRegister::Fs => WhpRegisterName::Fs,
        SegmentRegister::Gs => WhpRegisterName::Gs,
        SegmentRegister::Ss => WhpRegisterName::Ss,
        SegmentRegister::Tr => WhpRegisterName::Tr,
        SegmentRegister::Ldt => WhpRegisterName::Ldtr,
    }
}

/// Maps a portable segment register onto the platform name.
pub fn whp_segment_register(register: &SegmentRegister) -> (r: WhpRegisterName)
    ensures
        r == spec_whp_segment_register(*register),
{
    match register {
        SegmentRegister::Cs => WhpRegisterName::Cs,
        SegmentRegister::Ds => WhpRegisterName::Ds,
        SegmentRegister::Es => WhpRegisterName::Es,
        SegmentRegister::Fs => WhpRegisterName::Fs,
        SegmentRegister::Gs => WhpRegisterName::Gs,
        SegmentRegister::Ss => WhpRegisterName::Ss,
        SegmentRegister::Tr => WhpRegisterName::Tr,
        SegmentRegister::Ldt => WhpRegisterName::Ldtr,
    }
}

/// The platform register name of a model-specific register, where the
/// platform has one: the rest are skipped on write and synthesized as 0 on
/// read at the corresponding output index.
pub open spec fn spec_whp_msr_register(register: u32) -> Option<WhpRegisterName> {
    if register == MSR_IA32_EFER {
        Some(WhpRegisterName::Efer)
    } else if register == MSR_IA32_KERNEL_GS_BASE {
        Some(WhpRegisterName::KernelGsBase)
    } else if register == MSR_IA32_SYSENTER_CS {
        Some(WhpRegisterName::SysenterCs)
    } else if register == MSR_IA32_SYSENTER_EIP {
        Some(WhpRegisterName::SysenterEip)
    } else if register == MSR_IA32_SYSENTER_ESP {
        Some(WhpRegisterName::SysenterEsp)
    } else if register == MSR_IA32_STAR {
        Some(WhpRegisterName::Star)
    } else if register == MSR_IA32_LSTAR {
        Some(WhpRegisterName::Lstar)
    } else if register == MSR_IA32_CSTAR {
        Some(WhpRegisterName::Cstar)
    } else if register == MSR_IA32_SYSCALL_MASK {
        Some(WhpRegisterName::Sfmask)
    } else {
        None
    }
}

/// Maps an MSR number onto the platform name, where one exists.
pub fn whp_msr_register(register: u32) -> (r: Option<WhpRegisterName>)
    ensures
        r == spec_whp_msr_register(register),
{
    if register == MSR_IA32_EFER {
        Some(WhpRegisterName::Efer)
    } else if register == MSR_IA32_KERNEL_GS_BASE {
        Some(WhpRegisterName::KernelGsBase)
    } else if register == MSR_IA32_SYSENTER_CS {
        Some(WhpRegisterName::SysenterCs)
    } else if register == MSR_IA32_SYSENTER_EIP {
        Some(WhpRegisterName::SysenterEip)
    } else if register == MSR_IA32_SYSENTER_ESP {
        Some(WhpRegisterName::SysenterEsp)
    } else if register == MSR_IA32_STAR {
        Some(WhpRegisterName::Star)
    } else if register == MSR_IA32_LSTAR {
        Some(WhpRegisterName::Lstar)
    } else if register == MSR_IA32_CSTAR {
        Some(WhpRegisterName::Cstar)
    } else if register == MSR_IA32_SYSCALL_MASK {
        Some(WhpRegisterName::Sfmask)
    } else {
        None
    }
}

/// The answers after synthesizing a 0 at each position the platform could
/// not serve, applied in ascending position order.
pub open spec fn spec_insert_zeros(values: Seq<u64>, indices: Seq<int>) -> Seq<u64>
    decreases indices.len(),
{
    if indices.len() == 0 {
        values
    } else {
        spec_insert_zeros(values.insert(indices[0], 0), indices.skip(1))
    }
}

/// Re-inserts a 0 answer at each saved position, in ascending order, so
/// that identifiers the platform cannot represent read as 0 at the
/// corresponding output index.
pub fn insert_zeros(values: Vec<u64>, indices: &[usize]) -> (r: Vec<u64>)
    requires
        forall|j: int|
            0 <= j < indices@.len() ==> (#[trigger] indices@[j]) as int <= values@.len() + j,
    ensures
        r@ == spec_insert_zeros(values@, indices@.map_values(|p: usize| p as int)),
{
    let mut result = values;
    let n = indices.len();
    let mut i: usize = 0;
    proof {
        assert(indices@.map_values(|p: usize| p as int).skip(0) =~= indices@.map_values(
            |p: usize| p as int,
        ));
    }
    while i < n
        invariant
            n == indices@.len(),
            i <= n,
            forall|j: int|
                0 <= j < indices@.len() ==> (#[trigger] indices@[j]) as int <= values@.len() + j,
            result@.len() == values@.len() + i,
            spec_insert_zeros(result@, indices@.map_values(|p: usize| p as int).skip(i as int))
                == spec_insert_zeros(values@, indices@.map_values(|p: usize| p as int)),
        decreases n - i,
    {
        let ghost mapped = indices@.map_values(|p: usize| p as int);
        proof {
            assert(mapped.skip(i as int)[0] == mapped[i as int]);
            assert(mapped.skip(i as int).skip(1) =~= mapped.skip(i as int + 1));
        }
        result.insert(indices[i], 0);
        i = i + 1;
    }
    proof {
        assert(indices@.map_values(|p: usize| p as int).skip(n as int) =~= Seq::<int>::empty());
    }
    result
}

/// The exits of the platform that the port distinguishes, carried as plain
/// values.
#[derive(Clone, Copy, Debug, Eq, PartialEq, Structural)]
pub enum WhpExit {
    /// The guest touched an unmapped or protected guest physical address.
    MemoryAccess {
        /// The guest physical address of the faulting access.
        gpa: u64,
        /// The guest virtual address of the faulting access.
        gva: u64,
    },
    /// The guest raised an exception it could not handle.
    UnrecoverableException,
    /// The guest executed `hlt`.
    X64Halt,
    /// Any other exit.
    Other,
}

/// The portable exit reason that a platform exit translates to: a memory
/// access carries its faulting addresses, an unrecoverable exception
/// surfaces as an unhandled exception, a halt as `Halted`, and everything
/// else is unknown.
pub open spec fn spec_translate_whp_exit(exit: WhpExit) -> ExitReason {
    match exit {
        WhpExit::MemoryAccess { gpa, gva } => ExitReason::InvalidMemoryAccess {
            gpa,
            gva: gva as usize,
        },
        WhpExit::UnrecoverableException => ExitReason::UnhandledException,
        WhpExit::X64Halt => ExitReason::Halted,
        WhpExit::Other => ExitReason::Unknown,
    }
}

/// Translates a platform exit into the portable exit reason.
pub fn translate_whp_exit(exit: WhpExit) -> (r: ExitReason)
    ensures
        r == spec_translate_whp_exit(exit),
{
    match exit {
        WhpExit::MemoryAccess { gpa, gva } => ExitReason::InvalidMemoryAccess {
            gpa,
            gva: gva as usize,
        },
        WhpExit::UnrecoverableException => ExitReason::UnhandledException,
        WhpExit::X64Halt => ExitReason::Halted,
        WhpExit::Other => ExitReason::Unknown,
    }
}

} // verus!
