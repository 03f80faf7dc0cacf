//! Definitions specific to the x86-64 architecture: register identifiers,
//! segment and descriptor-table descriptions, control-register and EFER bit
//! meanings, MSR numbers, VMX control bits, VMCS field encodings and VMX
//! exit-reason codes. These are pure values; the behavior lives in the
//! virtual-CPU and virtual-machine modules.

use vstd::prelude::*;

verus! {

/// Represents the general-purpose registers of the x86-64 architecture.
#[derive(Clone, Copy, Debug, Eq, PartialEq, Structural)]
pub enum Register {
    /// The accumulator register.
    Rax,
    /// The counter register.
    Rcx,
    /// The data register.
    Rdx,
    /// The base register.
    Rbx,
    /// The stack pointer register.
    Rsp,
    /// The base pointer register.
    Rbp,
    /// The source index register.
    Rsi,
    /// The destination index register.
    Rdi,
    /// The R8 register.
    R8,
    /// The R9 register.
    R9,
    /// The R10 register.
    R10,
    /// The R11 register.
    R11,
    /// The R12 register.
    R12,
    /// The R13 register.
    R13,
    /// The R14 register.
    R14,
    /// The R15 register.
    R15,
    /// The instruction pointer register.
    Rip,
    /// The status register.
    Rflags,
}

/// Protected Mode Enable.
pub const CR0_PE: u64 = 1u64 << 0;
/// Monitor Co-Processor.
pub const CR0_MP: u64 = 1u64 << 1;
/// Emulation.
pub const CR0_EM: u64 = 1u64 << 2;
/// Task Switched.
pub const CR0_TS: u64 = 1u64 << 3;
/// Extension Type.
pub const CR0_ET: u64 = 1u64 << 4;
/// Numeric Error.
pub const CR0_NE: u64 = 1u64 << 5;
/// Write Protect.
pub const CR0_WP: u64 = 1u64 << 16;
/// Alignment Mask.
pub const CR0_AM: u64 = 1u64 << 18;
/// Not write-through.
pub const CR0_NW: u64 = 1u64 << 29;
/// Cache Disable.
pub const CR0_CD: u64 = 1u64 << 30;
/// Paging.
pub const CR0_PG: u64 = 1u64 << 31;

/// Virtual 8086 Mode Extension.
pub const CR4_VME: u64 = 1u64 << 0;
/// Protected Mode Virtual Interrupts.
pub const CR4_PVI: u64 = 1u64 << 1;
/// Time Stamp Disable (only enabled in ring 0).
pub const CR4_TSD: u64 = 1u64 << 2;
/// Debugging Extension.
pub const CR4_DE: u64 = 1u64 << 3;
/// Page Size Extension.
pub const CR4_PSE: u64 = 1u64 << 4;
/// Physical Address Extension.
pub const CR4_PAE: u64 = 1u64 << 5;
/// Machine Check Exception.
pub const CR4_MCE: u64 = 1u64 << 6;
/// Page Global Enable.
pub const CR4_PGE: u64 = 1u64 << 7;
/// Performance Monitoring Counter Enable.
pub const CR4_PCE: u64 = 1u64 << 8;
/// OS support for `fxsave` and `fxrstor`.
pub const CR4_OSFXSR: u64 = 1u64 << 9;
/// OS support for unmasked SIMD floating-point exceptions.
pub const CR4_OSXMMEXCPT: u64 = 1u64 << 10;
/// User Mode Instruction Prevention.
pub const CR4_UMIP: u64 = 1u64 << 11;
/// Virtual Machine eXtension Enable.
pub const CR4_VMXE: u64 = 1u64 << 13;
/// Safer Mode eXtension Enable.
pub const CR4_SMXE: u64 = 1u64 << 14;
/// Enable FSGSBASE instructions.
pub const CR4_FSGSBASE: u64 = 1u64 << 16;
/// PCID enable.
pub const CR4_PCIDE: u64 = 1u64 << 17;
/// XSAVE and Processor Extended States enable.
pub const CR4_OSXSAVE: u64 = 1u64 << 18;
/// Supervisor Mode Execution Protection enable.
pub const CR4_SMEP: u64 = 1u64 << 20;
/// Supervisor Mode Access Protection enable.
pub const CR4_SMAP: u64 = 1u64 << 21;
/// Enable protection keys for user mode pages.
pub const CR4_PKE: u64 = 1u64 << 22;
/// Enable control-flow enforcement technology.
pub const CR4_CET: u64 = 1u64 << 23;
/// Enable protection keys for supervisor-mode pages.
pub const CR4_PKS: u64 = 1u64 << 24;

/// Represents the control registers of the x86-64 architecture.
#[derive(Clone, Copy, Debug, Eq, PartialEq, Structural)]
pub enum ControlRegister {
    /// Control register CR0.
    Cr0,
    /// Control register CR1. Accepted by the API, but it always reads as 0
    /// and writes to it are discarded.
    Cr1,
    /// Control register CR2. This contains the linear address that caused a
    /// page fault in the event of a page fault.
    Cr2,
    /// Control register CR3. This contains the physical address of the page
    /// table at the root of the page table hierarchy.
    Cr3,
    /// Control register CR4.
    Cr4,
    /// Control register CR8.
    Cr8,
}

/// Represents a segment descriptor on the x86-64 architecture.
#[derive(Clone, Copy, Debug, Eq, PartialEq, Structural)]
pub struct Segment {
    /// The base address of the segment.
    pub base: u64,
    /// The limit of the segment.
    pub limit: u32,
    /// The segment selector, i.e. the value stored in the actual segment
    /// registers described by [`SegmentRegister`]. For 16-bit real mode, this
    /// describes a 16-bit value that is multiplied by 16 to get the base of
    /// the segment. For 32-bit protected mode and 64-bit long mode, this
    /// describes an index into the global descriptor table.
    pub selector: u16,
    /// The type of the segment.
    pub segment_type: u8,
    /// Whether the segment descriptor describes a system segment or not.
    pub non_system_segment: bool,
    /// The privilege level of the segment, where 0 is supervisor mode and 3
    /// is user mode.
    pub dpl: u8,
    /// Whether the segment descriptor is valid/present.
    pub present: bool,
    /// The bit freely available to the operating system.
    pub available: bool,
    /// Whether this segment uses long mode. This is only checked for 64-bit
    /// code segments.
    pub long: bool,
    /// The default operation size (0 = 16-bit segment, 1 = 32-bit segment).
    pub default_size: bool,
    /// Whether the limit is described in bytes or in units of 4 kiB.
    pub granularity: bool,
}

impl Segment {
    /// A segment is well formed when its four-bit type and its two-bit
    /// privilege level fit their architectural widths.
    pub open spec fn wf(self) -> bool {
        self.segment_type <= 0xf && self.dpl <= 3
    }
}

impl Default for Segment {
    /// The all-zero segment descriptor.
    fn default() -> (r: Self)
        ensures
            r == Segment::spec_default(),
    {
        Segment {
            base: 0,
            limit: 0,
            selector: 0,
            segment_type: 0,
            non_system_segment: false,
            dpl: 0,
            present: false,
            available: false,
            long: false,
            default_size: false,
            granularity: false,
        }
    }
}

impl Segment {
    /// The all-zero segment descriptor.
    pub open spec fn spec_default() -> Segment {
        Segment {
            base: 0,
            limit: 0,
            selector: 0,
            segment_type: 0,
            non_system_segment: false,
            dpl: 0,
            present: false,
            available: false,
            long: false,
            default_size: false,
            granularity: false,
        }
    }
}

/// The access-rights word that backends store for a segment descriptor:
/// `type[3:0] | S << 4 | DPL << 5 | P << 7 | AVL << 12 | L << 13 | DB << 14
/// | G << 15`.
pub open spec fn spec_access_rights(s: Segment) -> u32 {
    ((s.segment_type as u32) & 0xf) | ((if s.non_system_segment {
        1u32
    } else {
        0u32
    }) << 4) | (((s.dpl as u32) & 0x3) << 5) | ((if s.present {
        1u32
    } else {
        0u32
    }) << 7) | ((if s.available {
        1u32
    } else {
        0u32
    }) << 12) | ((if s.long {
        1u32
    } else {
        0u32
    }) << 13) | ((if s.default_size {
        1u32
    } else {
        0u32
    }) << 14) | ((if s.granularity {
        1u32
    } else {
        0u32
    }) << 15)
}

/// Packs the flag fields of a segment descriptor into the access-rights word
/// shared by the VMCS, WHP and bhyve encodings.
pub fn access_rights(s: &Segment) -> (r: u32)
    ensures
        r == spec_access_rights(*s),
{
    ((s.segment_type as u32) & 0xf) | ((if s.non_system_segment {
        1u32
    } else {
        0u32
    }) << 4) | (((s.dpl as u32) & 0x3) << 5) | ((if s.present {
        1u32
    } else {
        0u32
    }) << 7) | ((if s.available {
        1u32
    } else {
        0u32
    }) << 12) | ((if s.long {
        1u32
    } else {
        0u32
    }) << 13) | ((if s.default_size {
        1u32
    } else {
        0u32
    }) << 14) | ((if s.granularity {
        1u32
    } else {
        0u32
    }) << 15)
}

/// The segment descriptor that an access-rights word, together with the
/// separately stored base, limit and selector, decodes to.
pub open spec fn spec_segment_from_parts(base: u64, limit: u32, selector: u16, ar: u32) -> Segment {
    Segment {
        base,
        limit,
        selector,
        segment_type: (ar & 0xf) as u8,
        non_system_segment: (ar >> 4) & 1 == 1,
        dpl: ((ar >> 5) & 0x3) as u8,
        present: (ar >> 7) & 1 == 1,
        available: (ar >> 12) & 1 == 1,
        long: (ar >> 13) & 1 == 1,
        default_size: (ar >> 14) & 1 == 1,
        granularity: (ar >> 15) & 1 == 1,
    }
}

/// Decodes an access-rights word back into a segment descriptor.
pub fn segment_from_parts(base: u64, limit: u32, selector: u16, ar: u32) -> (r: Segment)
    ensures
        r == spec_segment_from_parts(base, limit, selector, ar),
{
    Segment {
        base,
        limit,
        selector,
        segment_type: (ar & 0xf) as u8,
        non_system_segment: (ar >> 4) & 1 == 1,
        dpl: ((ar >> 5) & 0x3) as u8,
        present: (ar >> 7) & 1 == 1,
        available: (ar >> 12) & 1 == 1,
        long: (ar >> 13) & 1 == 1,
        default_size: (ar >> 14) & 1 == 1,
        granularity: (ar >> 15) & 1 == 1,
    }
}

/// Encoding a well-formed segment descriptor into its access-rights word and
/// decoding it again yields the descriptor unchanged: no information is lost
/// in the backend representation.
pub proof fn lemma_access_rights_roundtrip(s: Segment)
    requires
        s.wf(),
    ensures
        spec_segment_from_parts(s.base, s.limit, s.selector, spec_access_rights(s)) == s,
{
    let t: u32 = s.segment_type as u32;
    let d: u32 = s.dpl as u32;
    let n: u32 = if s.non_system_segment {
        1
    } else {
        0
    };
    let p: u32 = if s.present {
        1
    } else {
        0
    };
    let av: u32 = if s.available {
        1
    } else {
        0
    };
    let l: u32 = if s.long {
        1
    } else {
        0
    };
    let db: u32 = if s.default_size {
        1
    } else {
        0
    };
    let g: u32 = if s.granularity {
        1
    } else {
        0
    };
    let ar: u32 = (t & 0xf) | (n << 4) | ((d & 3) << 5) | (p << 7) | (av << 12) | (l << 13) | (db
        << 14) | (g << 15);
    assert(spec_access_rights(s) == ar);
    assert((ar & 0xf) == t && ((ar >> 4) & 1) == n && ((ar >> 5) & 0x3) == d && ((ar >> 7) & 1)
        == p && ((ar >> 12) & 1) == av && ((ar >> 13) & 1) == l && ((ar >> 14) & 1) == db && ((ar
        >> 15) & 1) == g) by (bit_vector)
        requires
            t <= 0xf,
            d <= 3,
            n <= 1,
            p <= 1,
            av <= 1,
            l <= 1,
            db <= 1,
            g <= 1,
            ar == (t & 0xf) | (n << 4) | ((d & 3) << 5) | (p << 7) | (av << 12) | (l << 13) | (db
                << 14) | (g << 15),
    ;
}

/// Represents the segment registers of the x86-64 architecture.
#[derive(Clone, Copy, Debug, Eq, PartialEq, Structural)]
pub enum SegmentRegister {
    /// The code segment register.
    Cs,
    /// The data segment register.
    Ds,
    /// The ES segment register.
    Es,
    /// The FS segment register.
    Fs,
    /// The GS segment register.
    Gs,
    /// The stack segment register.
    Ss,
    /// The task register.
    Tr,
    /// The local descriptor table.
    Ldt,
}

/// Represents the descriptor table registers of the x86-64 architecture.
#[derive(Clone, Copy, Debug, Eq, PartialEq, Structural)]
pub enum DescriptorTableRegister {
    /// The global descriptor table.
    Gdt,
    /// The interrupt descriptor table.
    Idt,
}

/// Represents a descriptor table on the x86-64 architecture.
#[derive(Clone, Copy, Debug, Eq, PartialEq, Structural)]
pub struct DescriptorTable {
    /// The base address of the descriptor table.
    pub base: u64,
    /// The limit of the descriptor table.
    pub limit: u16,
}

/// The code segment to load when issuing the `sysenter` instruction.
pub const MSR_IA32_SYSENTER_CS: u32 = 0x0000_0174;
/// The stack pointer to load when issuing the `sysenter` instruction.
pub const MSR_IA32_SYSENTER_ESP: u32 = 0x0000_0175;
/// The instruction pointer to load when issuing the `sysenter` instruction.
pub const MSR_IA32_SYSENTER_EIP: u32 = 0x0000_0176;

/// The Extended Feature Enable Register (EFER).
pub const MSR_IA32_EFER: u32 = 0xc000_0080;

/// Enables the `syscall` extension.
pub const EFER_SCE: u64 = 1u64 << 0;
/// Enables long mode.
pub const EFER_LME: u64 = 1u64 << 8;
/// Indicates long mode is active.
pub const EFER_LMA: u64 = 1u64 << 10;
/// Enables the non-executable bit.
pub const EFER_NXE: u64 = 1u64 << 11;

/// The user segment base \[48:63\], the kernel segment base \[32:47\] and
/// the syscall EIP \[0:31\].
pub const MSR_IA32_STAR: u32 = 0xc000_0081;
/// The instruction pointer to load when issuing a `syscall` in 64-bit mode.
pub const MSR_IA32_LSTAR: u32 = 0xc000_0082;
/// The instruction pointer to load when issuing a `syscall` in 32-bit
/// compatibility mode.
pub const MSR_IA32_CSTAR: u32 = 0xc000_0083;
/// Bits set in the syscall mask clear the corresponding bits in the `rflags`
/// register when issuing a `syscall` instruction.
pub const MSR_IA32_SYSCALL_MASK: u32 = 0xc000_0084;
/// The GS segment to swap when issuing the `swapgs` instruction.
pub const MSR_IA32_KERNEL_GS_BASE: u32 = 0xc000_0102;

/// CPU-based VMX execution control: exit on interrupt windows.
pub const CPU_BASED_IRQ_WND: u32 = 1u32 << 2;
/// CPU-based VMX execution control: use the TSC offset.
pub const CPU_BASED_TSC_OFFSET: u32 = 1u32 << 3;
/// CPU-based VMX execution control: exit on the `hlt` instruction.
pub const CPU_BASED_HLT: u32 = 1u32 << 7;
/// CPU-based VMX execution control: exit on the `invlpg` instruction.
pub const CPU_BASED_INVLPG: u32 = 1u32 << 9;
/// CPU-based VMX execution control: exit on the `mwait` instruction.
pub const CPU_BASED_MWAIT: u32 = 1u32 << 10;
/// CPU-based VMX execution control: exit on the `rdpmc` instruction.
pub const CPU_BASED_RDPMC: u32 = 1u32 << 11;
/// CPU-based VMX execution control: exit on the `rdtsc` instruction.
pub const CPU_BASED_RDTSC: u32 = 1u32 << 12;
/// CPU-based VMX execution control: exit on loads of CR3.
pub const CPU_BASED_CR3_LOAD: u32 = 1u32 << 15;
/// CPU-based VMX execution control: exit on stores of CR3.
pub const CPU_BASED_CR3_STORE: u32 = 1u32 << 16;
/// CPU-based VMX execution control: exit on loads of CR8.
pub const CPU_BASED_CR8_LOAD: u32 = 1u32 << 19;
/// CPU-based VMX execution control: exit on stores of CR8.
pub const CPU_BASED_CR8_STORE: u32 = 1u32 << 20;
/// CPU-based VMX execution control: use the TPR shadow.
pub const CPU_BASED_TPR_SHADOW: u32 = 1u32 << 21;
/// CPU-based VMX execution control: exit on virtual NMI windows.
pub const CPU_BASED_VIRTUAL_NMI_WND: u32 = 1u32 << 22;
/// CPU-based VMX execution control: exit on moves of debug registers.
pub const CPU_BASED_MOV_DR: u32 = 1u32 << 23;
/// CPU-based VMX execution control: exit on any I/O instruction.
pub const CPU_BASED_UNCONDITIONAL_IO: u32 = 1u32 << 24;
/// CPU-based VMX execution control: use the I/O bitmaps.
pub const CPU_BASED_IO_BITMAPS: u32 = 1u32 << 25;
/// CPU-based VMX execution control: monitor trap flag.
pub const CPU_BASED_MTF: u32 = 1u32 << 27;
/// CPU-based VMX execution control: use the MSR bitmaps.
pub const CPU_BASED_MSR_BITMAPS: u32 = 1u32 << 28;
/// CPU-based VMX execution control: exit on the `monitor` instruction.
pub const CPU_BASED_MONITOR: u32 = 1u32 << 29;
/// CPU-based VMX execution control: exit on the `pause` instruction.
pub const CPU_BASED_PAUSE: u32 = 1u32 << 30;
/// CPU-based VMX execution control: enable the secondary controls.
pub const CPU_BASED_SECONDARY_CONTROLS: u32 = 1u32 << 31;

/// Secondary CPU-based VMX execution control: allow an unrestricted
/// (real-mode) guest.
pub const CPU_BASED2_UNRESTRICTED_GUEST: u32 = 1u32 << 7;

/// VM-entry control: the guest runs in IA-32e (long) mode after entry.
pub const VM_ENTRY_GUEST_IA32E: u32 = 1u32 << 9;
/// VM-entry control: the guest runs in system-management mode after entry.
pub const VM_ENTRY_SMM: u32 = 1u32 << 10;
/// VM-entry control: deactivate dual-monitor treatment.
pub const VM_ENTRY_DEACTIVATE_DUAL_MONITOR: u32 = 1u32 << 11;
/// VM-entry control: load IA32_PERF_GLOBAL_CTRL on entry.
pub const VM_ENTRY_LOAD_PERF_GLOBAL_CONTROLS: u32 = 1u32 << 13;
/// VM-entry control: load IA32_PAT on entry.
pub const VM_ENTRY_LOAD_PAT: u32 = 1u32 << 14;
/// VM-entry control: load IA32_EFER on entry.
pub const VM_ENTRY_LOAD_EFER: u32 = 1u32 << 15;


/// The fields of the VMCS, with their architectural encodings preserved
/// bit-for-bit (see [`Vmcs::encoding`]).
#[derive(Clone, Copy, Debug, Eq, PartialEq, Structural)]
pub enum Vmcs {
    /// The ES register of the guest.
    GuestEs,
    /// The code segment register of the guest.
    GuestCs,
    /// The stack segment register of the guest.
    GuestSs,
    /// The data segment register of the guest.
    GuestDs,
    /// The FS register of the guest.
    GuestFs,
    /// The GS register of the guest.
    GuestGs,
    /// The local descriptor table register of the guest.
    GuestLdtr,
    /// The task register of the guest.
    GuestTr,
    /// The guest physical address that caused an EPT violation.
    GuestPhysicalAddress,
    /// The EFER MSR of the guest.
    GuestEfer,
    /// Pin-based controls.
    PinBased,
    /// CPU-based controls.
    CpuBased,
    /// VM exit controls.
    VmExitControls,
    /// VM entry controls.
    VmEntryControls,
    /// Secondary CPU-based controls.
    CpuBased2,
    /// The reason for the VM exit.
    ExitReason,
    /// The ES limit of the guest.
    GuestEsLimit,
    /// The code segment limit of the guest.
    GuestCsLimit,
    /// The stack segment limit of the guest.
    GuestSsLimit,
    /// The data segment limit of the guest.
    GuestDsLimit,
    /// The FS limit of the guest.
    GuestFsLimit,
    /// The GS limit of the guest.
    GuestGsLimit,
    /// The LDT limit of the guest.
    GuestLdtrLimit,
    /// The task register limit of the guest.
    GuestTrLimit,
    /// The GDT limit of the guest.
    GuestGdtrLimit,
    /// The IDT limit of the guest.
    GuestIdtrLimit,
    /// The ES access rights of the guest.
    GuestEsAccessRights,
    /// The code segment access rights of the guest.
    GuestCsAccessRights,
    /// The stack segment access rights of the guest.
    GuestSsAccessRights,
    /// The data segment access rights of the guest.
    GuestDsAccessRights,
    /// The FS access rights of the guest.
    GuestFsAccessRights,
    /// The GS access rights of the guest.
    GuestGsAccessRights,
    /// The LDT access rights of the guest.
    GuestLdtrAccessRights,
    /// The task register access rights of the guest.
    GuestTrAccessRights,
    /// The CR0 guest/host mask.
    Cr0Mask,
    /// The CR4 guest/host mask.
    Cr4Mask,
    /// The CR0 read shadow.
    Cr0Shadow,
    /// The CR4 read shadow.
    Cr4Shadow,
    /// The guest linear address that caused an EPT violation.
    GuestLinearAddress,
    /// The CR0 register of the guest.
    GuestCr0,
    /// The CR3 register of the guest.
    GuestCr3,
    /// The CR4 register of the guest.
    GuestCr4,
    /// The ES base of the guest.
    GuestEsBase,
    /// The code segment base of the guest.
    GuestCsBase,
    /// The stack segment base of the guest.
    GuestSsBase,
    /// The data segment base of the guest.
    GuestDsBase,
    /// The FS base of the guest.
    GuestFsBase,
    /// The GS base of the guest.
    GuestGsBase,
    /// The LDT base of the guest.
    GuestLdtrBase,
    /// The task register base of the guest.
    GuestTrBase,
    /// The GDT base of the guest.
    GuestGdtrBase,
    /// The IDT base of the guest.
    GuestIdtrBase,
}

impl Vmcs {
    /// The architectural encoding of the field.
    pub open spec fn encoding(self) -> u32 {
        match self {
            Vmcs::GuestEs => 0x0000_0800,
            Vmcs::GuestCs => 0x0000_0802,
            Vmcs::GuestSs => 0x0000_0804,
            Vmcs::GuestDs => 0x0000_0806,
            Vmcs::GuestFs => 0x0000_0808,
            Vmcs::GuestGs => 0x0000_080a,
            Vmcs::GuestLdtr => 0x0000_080c,
            Vmcs::GuestTr => 0x0000_080e,
            Vmcs::GuestPhysicalAddress => 0x0000_2400,
            Vmcs::GuestEfer => 0x0000_2806,
            Vmcs::PinBased => 0x0000_4000,
            Vmcs::CpuBased => 0x0000_4002,
            Vmcs::VmExitControls => 0x0000_400c,
            Vmcs::VmEntryControls => 0x0000_4012,
            Vmcs::CpuBased2 => 0x0000_401e,
            Vmcs::ExitReason => 0x0000_4402,
            Vmcs::GuestEsLimit => 0x0000_4800,
            Vmcs::GuestCsLimit => 0x0000_4802,
            Vmcs::GuestSsLimit => 0x0000_4804,
            Vmcs::GuestDsLimit => 0x0000_4806,
            Vmcs::GuestFsLimit => 0x0000_4808,
            Vmcs::GuestGsLimit => 0x0000_480a,
            Vmcs::GuestLdtrLimit => 0x0000_480c,
            Vmcs::GuestTrLimit => 0x0000_480e,
            Vmcs::GuestGdtrLimit => 0x0000_4810,
            Vmcs::GuestIdtrLimit => 0x0000_4812,
            Vmcs::GuestEsAccessRights => 0x0000_4814,
            Vmcs::GuestCsAccessRights => 0x0000_4816,
            Vmcs::GuestSsAccessRights => 0x0000_4818,
            Vmcs::GuestDsAccessRights => 0x0000_481a,
            Vmcs::GuestFsAccessRights => 0x0000_481c,
            Vmcs::GuestGsAccessRights => 0x0000_481e,
            Vmcs::GuestLdtrAccessRights => 0x0000_4820,
            Vmcs::GuestTrAccessRights => 0x0000_4822,
            Vmcs::Cr0Mask => 0x0000_6000,
            Vmcs::Cr4Mask => 0x0000_6002,
            Vmcs::Cr0Shadow => 0x0000_6004,
            Vmcs::Cr4Shadow => 0x0000_6006,
            Vmcs::GuestLinearAddress => 0x0000_640a,
            Vmcs::GuestCr0 => 0x0000_6800,
            Vmcs::GuestCr3 => 0x0000_6802,
            Vmcs::GuestCr4 => 0x0000_6804,
            Vmcs::GuestEsBase => 0x0000_6806,
            Vmcs::GuestCsBase => 0x0000_6808,
            Vmcs::GuestSsBase => 0x0000_680a,
            Vmcs::GuestDsBase => 0x0000_680c,
            Vmcs::GuestFsBase => 0x0000_680e,
            Vmcs::GuestGsBase => 0x0000_6810,
            Vmcs::GuestLdtrBase => 0x0000_6812,
            Vmcs::GuestTrBase => 0x0000_6814,
            Vmcs::GuestGdtrBase => 0x0000_6816,
            Vmcs::GuestIdtrBase => 0x0000_6818,
        }
    }

    /// Returns the architectural encoding of the field.
    pub fn code(&self) -> (r: u32)
        ensures
            r == self.encoding(),
    {
        match self {
            Vmcs::GuestEs => 0x0000_0800,
            Vmcs::GuestCs => 0x0000_0802,
            Vmcs::GuestSs => 0x0000_0804,
            Vmcs::GuestDs => 0x0000_0806,
            Vmcs::GuestFs => 0x0000_0808,
            Vmcs::GuestGs => 0x0000_080a,
            Vmcs::GuestLdtr => 0x0000_080c,
            Vmcs::GuestTr => 0x0000_080e,
            Vmcs::GuestPhysicalAddress => 0x0000_2400,
            Vmcs::GuestEfer => 0x0000_2806,
            Vmcs::PinBased => 0x0000_4000,
            Vmcs::CpuBased => 0x0000_4002,
            Vmcs::VmExitControls => 0x0000_400c,
            Vmcs::VmEntryControls => 0x0000_4012,
            Vmcs::CpuBased2 => 0x0000_401e,
            Vmcs::ExitReason => 0x0000_4402,
            Vmcs::GuestEsLimit => 0x0000_4800,
            Vmcs::GuestCsLimit => 0x0000_4802,
            Vmcs::GuestSsLimit => 0x0000_4804,
            Vmcs::GuestDsLimit => 0x0000_4806,
            Vmcs::GuestFsLimit => 0x0000_4808,
            Vmcs::GuestGsLimit => 0x0000_480a,
            Vmcs::GuestLdtrLimit => 0x0000_480c,
            Vmcs::GuestTrLimit => 0x0000_480e,
            Vmcs::GuestGdtrLimit => 0x0000_4810,
            Vmcs::GuestIdtrLimit => 0x0000_4812,
            Vmcs::GuestEsAccessRights => 0x0000_4814,
            Vmcs::GuestCsAccessRights => 0x0000_4816,
            Vmcs::GuestSsAccessRights => 0x0000_4818,
            Vmcs::GuestDsAccessRights => 0x0000_481a,
            Vmcs::GuestFsAccessRights => 0x0000_481c,
            Vmcs::GuestGsAccessRights => 0x0000_481e,
            Vmcs::GuestLdtrAccessRights => 0x0000_4820,
            Vmcs::GuestTrAccessRights => 0x0000_4822,
            Vmcs::Cr0Mask => 0x0000_6000,
            Vmcs::Cr4Mask => 0x0000_6002,
            Vmcs::Cr0Shadow => 0x0000_6004,
            Vmcs::Cr4Shadow => 0x0000_6006,
            Vmcs::GuestLinearAddress => 0x0000_640a,
            Vmcs::GuestCr0 => 0x0000_6800,
            Vmcs::GuestCr3 => 0x0000_6802,
            Vmcs::GuestCr4 => 0x0000_6804,
            Vmcs::GuestEsBase => 0x0000_6806,
            Vmcs::GuestCsBase => 0x0000_6808,
            Vmcs::GuestSsBase => 0x0000_680a,
            Vmcs::GuestDsBase => 0x0000_680c,
            Vmcs::GuestFsBase => 0x0000_680e,
            Vmcs::GuestGsBase => 0x0000_6810,
            Vmcs::GuestLdtrBase => 0x0000_6812,
            Vmcs::GuestTrBase => 0x0000_6814,
            Vmcs::GuestGdtrBase => 0x0000_6816,
            Vmcs::GuestIdtrBase => 0x0000_6818,
        }
    }
}

/// The architectural VMX basic exit reasons, with their numeric codes
/// preserved bit-for-bit (see [`VmxReason::reason_code`]).
#[allow(missing_docs)]
#[derive(Clone, Copy, Debug, Eq, PartialEq, Structural)]
pub enum VmxReason {
    ExcNmi,
    Irq,
    TripleFault,
    Init,
    Sipi,
    IoSmi,
    OtherSmi,
    IrqWnd,
    VirtualNmiWnd,
    Task,
    Cpuid,
    Getsec,
    Hlt,
    Invd,
    Invlpg,
    Rdpmc,
    Rdtsc,
    Rsm,
    VmCall,
    VmClear,
    VmLaunch,
    VmPtrLd,
    VmPtrSt,
    VmRead,
    VmResume,
    VmWrite,
    VmOff,
    VmOn,
    MovCr,
    MovDr,
    Io,
    Rdmsr,
    Wrmsr,
    VmEntryGuest,
    VmEntryMsr,
    Mwait,
    Mtf,
    Monitor,
    Pause,
    VmEntryMc,
    TprThreshold,
    ApicAccess,
    VirtualizedEoi,
    GdtrIdtr,
    LdtrTr,
    EptViolation,
    EptMisconfig,
    EptInvept,
    Rdtscp,
    VmxTimerExpired,
    Invpid,
    Wbinvd,
    Xsetbv,
    ApicWrite,
    Rdrand,
    Invpcid,
    VmFunc,
    Rdseed,
    Xsaves,
    Xrstors,
}

impl VmxReason {
    /// The numeric code of the exit reason.
    pub open spec fn spec_code(self) -> u32 {
        match self {
            VmxReason::ExcNmi => 0,
            VmxReason::Irq => 1,
            VmxReason::TripleFault => 2,
            VmxReason::Init => 3,
            VmxReason::Sipi => 4,
            VmxReason::IoSmi => 5,
            VmxReason::OtherSmi => 6,
            VmxReason::IrqWnd => 7,
            VmxReason::VirtualNmiWnd => 8,
            VmxReason::Task => 9,
            VmxReason::Cpuid => 10,
            VmxReason::Getsec => 11,
            VmxReason::Hlt => 12,
            VmxReason::Invd => 13,
            VmxReason::Invlpg => 14,
            VmxReason::Rdpmc => 15,
            VmxReason::Rdtsc => 16,
            VmxReason::Rsm => 17,
            VmxReason::VmCall => 18,
            VmxReason::VmClear => 19,
            VmxReason::VmLaunch => 20,
            VmxReason::VmPtrLd => 21,
            VmxReason::VmPtrSt => 22,
            VmxReason::VmRead => 23,
            VmxReason::VmResume => 24,
            VmxReason::VmWrite => 25,
            VmxReason::VmOff => 26,
            VmxReason::VmOn => 27,
            VmxReason::MovCr => 28,
            VmxReason::MovDr => 29,
            VmxReason::Io => 30,
            VmxReason::Rdmsr => 31,
            VmxReason::Wrmsr => 32,
            VmxReason::VmEntryGuest => 33,
            VmxReason::VmEntryMsr => 34,
            VmxReason::Mwait => 36,
            VmxReason::Mtf => 37,
            VmxReason::Monitor => 39,
            VmxReason::Pause => 40,
            VmxReason::VmEntryMc => 41,
            VmxReason::TprThreshold => 43,
            VmxReason::ApicAccess => 44,
            VmxReason::VirtualizedEoi => 45,
            VmxReason::GdtrIdtr => 46,
            VmxReason::LdtrTr => 47,
            VmxReason::EptViolation => 48,
            VmxReason::EptMisconfig => 49,
            VmxReason::EptInvept => 50,
            VmxReason::Rdtscp => 51,
            VmxReason::VmxTimerExpired => 52,
            VmxReason::Invpid => 53,
            VmxReason::Wbinvd => 54,
            VmxReason::Xsetbv => 55,
            VmxReason::ApicWrite => 56,
            VmxReason::Rdrand => 57,
            VmxReason::Invpcid => 58,
            VmxReason::VmFunc => 59,
            VmxReason::Rdseed => 61,
            VmxReason::Xsaves => 63,
            VmxReason::Xrstors => 64,
        }
    }

    /// Returns the numeric code of the exit reason.
    pub fn reason_code(&self) -> (r: u32)
        ensures
            r == self.spec_code(),
    {
        match self {
            VmxReason::ExcNmi => 0,
            VmxReason::Irq => 1,
            VmxReason::TripleFault => 2,
            VmxReason::Init => 3,
            VmxReason::Sipi => 4,
            VmxReason::IoSmi => 5,
            VmxReason::OtherSmi => 6,
            VmxReason::IrqWnd => 7,
            VmxReason::VirtualNmiWnd => 8,
            VmxReason::Task => 9,
            VmxReason::Cpuid => 10,
            VmxReason::Getsec => 11,
            VmxReason::Hlt => 12,
            VmxReason::Invd => 13,
            VmxReason::Invlpg => 14,
            VmxReason::Rdpmc => 15,
            VmxReason::Rdtsc => 16,
            VmxReason::Rsm => 17,
            VmxReason::VmCall => 18,
            VmxReason::VmClear => 19,
            VmxReason::VmLaunch => 20,
            VmxReason::VmPtrLd => 21,
            VmxReason::VmPtrSt => 22,
            VmxReason::VmRead => 23,
            VmxReason::VmResume => 24,
            VmxReason::VmWrite => 25,
            VmxReason::VmOff => 26,
            VmxReason::VmOn => 27,
            VmxReason::MovCr => 28,
            VmxReason::MovDr => 29,
            VmxReason::Io => 30,
            VmxReason::Rdmsr => 31,
            VmxReason::Wrmsr => 32,
            VmxReason::VmEntryGuest => 33,
            VmxReason::VmEntryMsr => 34,
            VmxReason::Mwait => 36,
            VmxReason::Mtf => 37,
            VmxReason::Monitor => 39,
            VmxReason::Pause => 40,
            VmxReason::VmEntryMc => 41,
            VmxReason::TprThreshold => 43,
            VmxReason::ApicAccess => 44,
            VmxReason::VirtualizedEoi => 45,
            VmxReason::GdtrIdtr => 46,
            VmxReason::LdtrTr => 47,
            VmxReason::EptViolation => 48,
            VmxReason::EptMisconfig => 49,
            VmxReason::EptInvept => 50,
            VmxReason::Rdtscp => 51,
            VmxReason::VmxTimerExpired => 52,
            VmxReason::Invpid => 53,
            VmxReason::Wbinvd => 54,
            VmxReason::Xsetbv => 55,
            VmxReason::ApicWrite => 56,
            VmxReason::Rdrand => 57,
            VmxReason::Invpcid => 58,
            VmxReason::VmFunc => 59,
            VmxReason::Rdseed => 61,
            VmxReason::Xsaves => 63,
            VmxReason::Xrstors => 64,
        }
    }

    /// The exit reason that a numeric code decodes to, if any.
    pub open spec fn spec_from_code(code: u32) -> Option<VmxReason> {
        if code == 0 {
            Some(VmxReason::ExcNmi)
        } else if code == 1 {
            Some(VmxReason::Irq)
        } else if code == 2 {
            Some(VmxReason::TripleFault)
        } else if code == 3 {
            Some(VmxReason::Init)
        } else if code == 4 {
            Some(VmxReason::Sipi)
        } else if code == 5 {
            Some(VmxReason::IoSmi)
        } else if code == 6 {
            Some(VmxReason::OtherSmi)
        } else if code == 7 {
            Some(VmxReason::IrqWnd)
        } else if code == 8 {
            Some(VmxReason::VirtualNmiWnd)
        } else if code == 9 {
            Some(VmxReason::Task)
        } else if code == 10 {
            Some(VmxReason::Cpuid)
        } else if code == 11 {
            Some(VmxReason::Getsec)
        } else if code == 12 {
            Some(VmxReason::Hlt)
        } else if code == 13 {
            Some(VmxReason::Invd)
        } else if code == 14 {
            Some(VmxReason::Invlpg)
        } else if code == 15 {
            Some(VmxReason::Rdpmc)
        } else if code == 16 {
            Some(VmxReason::Rdtsc)
        } else if code == 17 {
            Some(VmxReason::Rsm)
        } else if code == 18 {
            Some(VmxReason::VmCall)
        } else if code == 19 {
            Some(VmxReason::VmClear)
        } else if code == 20 {
            Some(VmxReason::VmLaunch)
        } else if code == 21 {
            Some(VmxReason::VmPtrLd)
        } else if code == 22 {
            Some(VmxReason::VmPtrSt)
        } else if code == 23 {
            Some(VmxReason::VmRead)
        } else if code == 24 {
            Some(VmxReason::VmResume)
        } else if code == 25 {
            Some(VmxReason::VmWrite)
        } else if code == 26 {
            Some(VmxReason::VmOff)
        } else if code == 27 {
            Some(VmxReason::VmOn)
        } else if code == 28 {
            Some(VmxReason::MovCr)
        } else if code == 29 {
            Some(VmxReason::MovDr)
        } else if code == 30 {
            Some(VmxReason::Io)
        } else if code == 31 {
            Some(VmxReason::Rdmsr)
        } else if code == 32 {
            Some(VmxReason::Wrmsr)
        } else if code == 33 {
            Some(VmxReason::VmEntryGuest)
        } else if code == 34 {
            Some(VmxReason::VmEntryMsr)
        } else if code == 36 {
            Some(VmxReason::Mwait)
        } else if code == 37 {
            Some(VmxReason::Mtf)
        } else if code == 39 {
            Some(VmxReason::Monitor)
        } else if code == 40 {
            Some(VmxReason::Pause)
        } else if code == 41 {
            Some(VmxReason::VmEntryMc)
        } else if code == 43 {
            Some(VmxReason::TprThreshold)
        } else if code == 44 {
            Some(VmxReason::ApicAccess)
        } else if code == 45 {
            Some(VmxReason::VirtualizedEoi)
        } else if code == 46 {
            Some(VmxReason::GdtrIdtr)
        } else if code == 47 {
            Some(VmxReason::LdtrTr)
        } else if code == 48 {
            Some(VmxReason::EptViolation)
        } else if code == 49 {
            Some(VmxReason::EptMisconfig)
        } else if code == 50 {
            Some(VmxReason::EptInvept)
        } else if code == 51 {
            Some(VmxReason::Rdtscp)
        } else if code == 52 {
            Some(VmxReason::VmxTimerExpired)
        } else if code == 53 {
            Some(VmxReason::Invpid)
        } else if code == 54 {
            Some(VmxReason::Wbinvd)
        } else if code == 55 {
            Some(VmxReason::Xsetbv)
        } else if code == 56 {
            Some(VmxReason::ApicWrite)
        } else if code == 57 {
            Some(VmxReason::Rdrand)
        } else if code == 58 {
            Some(VmxReason::Invpcid)
        } else if code == 59 {
            Some(VmxReason::VmFunc)
        } else if code == 61 {
            Some(VmxReason::Rdseed)
        } else if code == 63 {
            Some(VmxReason::Xsaves)
        } else if code == 64 {
            Some(VmxReason::Xrstors)
        } else {
            None
        }
    }

    /// Decodes a numeric code into the exit reason it stands for, if any.
    pub fn from_code(code: u32) -> (r: Option<VmxReason>)
        ensures
            r == VmxReason::spec_from_code(code),
    {
        if code == 0 {
            Some(VmxReason::ExcNmi)
        } else if code == 1 {
            Some(VmxReason::Irq)
        } else if code == 2 {
            Some(VmxReason::TripleFault)
        } else if code == 3 {
            Some(VmxReason::Init)
        } else if code == 4 {
            Some(VmxReason::Sipi)
        } else if code == 5 {
            Some(VmxReason::IoSmi)
        } else if code == 6 {
            Some(VmxReason::OtherSmi)
        } else if code == 7 {
            Some(VmxReason::IrqWnd)
        } else if code == 8 {
            Some(VmxReason::VirtualNmiWnd)
        } else if code == 9 {
            Some(VmxReason::Task)
        } else if code == 10 {
            Some(VmxReason::Cpuid)
        } else if code == 11 {
            Some(VmxReason::Getsec)
        } else if code == 12 {
            Some(VmxReason::Hlt)
        } else if code == 13 {
            Some(VmxReason::Invd)
        } else if code == 14 {
            Some(VmxReason::Invlpg)
        } else if code == 15 {
            Some(VmxReason::Rdpmc)
        } else if code == 16 {
            Some(VmxReason::Rdtsc)
        } else if code == 17 {
            Some(VmxReason::Rsm)
        } else if code == 18 {
            Some(VmxReason::VmCall)
        } else if code == 19 {
            Some(VmxReason::VmClear)
        } else if code == 20 {
            Some(VmxReason::VmLaunch)
        } else if code == 21 {
            Some(VmxReason::VmPtrLd)
        } else if code == 22 {
            Some(VmxReason::VmPtrSt)
        } else if code == 23 {
            Some(VmxReason::VmRead)
        } else if code == 24 {
            Some(VmxReason::VmResume)
        } else if code == 25 {
            Some(VmxReason::VmWrite)
        } else if code == 26 {
            Some(VmxReason::VmOff)
        } else if code == 27 {
            Some(VmxReason::VmOn)
        } else if code == 28 {
            Some(VmxReason::MovCr)
        } else if code == 29 {
            Some(VmxReason::MovDr)
        } else if code == 30 {
            Some(VmxReason::Io)
        } else if code == 31 {
            Some(VmxReason::Rdmsr)
        } else if code == 32 {
            Some(VmxReason::Wrmsr)
        } else if code == 33 {
            Some(VmxReason::VmEntryGuest)
        } else if code == 34 {
            Some(VmxReason::VmEntryMsr)
        } else if code == 36 {
            Some(VmxReason::Mwait)
        } else if code == 37 {
            Some(VmxReason::Mtf)
        } else if code == 39 {
            Some(VmxReason::Monitor)
        } else if code == 40 {
            Some(VmxReason::Pause)
        } else if code == 41 {
            Some(VmxReason::VmEntryMc)
        } else if code == 43 {
            Some(VmxReason::TprThreshold)
        } else if code == 44 {
            Some(VmxReason::ApicAccess)
        } else if code == 45 {
            Some(VmxReason::VirtualizedEoi)
        } else if code == 46 {
            Some(VmxReason::GdtrIdtr)
        } else if code == 47 {
            Some(VmxReason::LdtrTr)
        } else if code == 48 {
            Some(VmxReason::EptViolation)
        } else if code == 49 {
            Some(VmxReason::EptMisconfig)
        } else if code == 50 {
            Some(VmxReason::EptInvept)
        } else if code == 51 {
            Some(VmxReason::Rdtscp)
        } else if code == 52 {
            Some(VmxReason::VmxTimerExpired)
        } else if code == 53 {
            Some(VmxReason::Invpid)
        } else if code == 54 {
            Some(VmxReason::Wbinvd)
        } else if code == 55 {
            Some(VmxReason::Xsetbv)
        } else if code == 56 {
            Some(VmxReason::ApicWrite)
        } else if code == 57 {
            Some(VmxReason::Rdrand)
        } else if code == 58 {
            Some(VmxReason::Invpcid)
        } else if code == 59 {
            Some(VmxReason::VmFunc)
        } else if code == 61 {
            Some(VmxReason::Rdseed)
        } else if code == 63 {
            Some(VmxReason::Xsaves)
        } else if code == 64 {
            Some(VmxReason::Xrstors)
        } else {
            None
        }
    }
}

/// Exit-reason codes survive the round trip through their numeric form:
/// decoding the code of any reason yields that reason again.
pub proof fn lemma_vmx_reason_code_roundtrip(r: VmxReason)
    ensures
        VmxReason::spec_from_code(r.spec_code()) == Some(r),
{
}

} // verus!
