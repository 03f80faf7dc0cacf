//! Marshalling between the portable register surface and the wire shapes of
//! the KVM interface: the general-purpose register block, the special
//! register block holding control registers, segments, descriptor tables and
//! EFER, the splitting of MSR batches around EFER, and the translation of
//! KVM exits into portable exit reasons.

use vstd::prelude::*;

use crate::arch::x86_64::{
    spec_access_rights, ControlRegister, DescriptorTable, DescriptorTableRegister, Register,
    Segment, SegmentRegister, MSR_IA32_EFER,
};
use crate::vcpu::ExitReason;

verus! {

/// The general-purpose register block of the KVM interface.
#[allow(missing_docs)]
#[verifier::ext_equal]
#[derive(Clone, Copy, Debug, Eq, PartialEq, Structural)]
pub struct KvmRegs {
    pub rax: u64,
    pub rcx: u64,
    pub rdx: u64,
    pub rbx: u64,
    pub rsp: u64,
    pub rbp: u64,
    pub rsi: u64,
    pub rdi: u64,
    pub r8: u64,
    pub r9: u64,
    pub r10: u64,
    pub r11: u64,
    pub r12: u64,
    pub r13: u64,
    pub r14: u64,
    pub r15: u64,
    pub rip: u64,
    pub rflags: u64,
}

/// One segment of the special register block of the KVM interface. The flag
/// fields hold 0 or 1.
#[allow(missing_docs)]
#[verifier::ext_equal]
#[derive(Clone, Copy, Debug, Eq, PartialEq, Structural)]
pub struct KvmSegment {
    pub base: u64,
    pub limit: u32,
    pub selector: u16,
    pub type_: u8,
    pub present: u8,
    pub dpl: u8,
    pub db: u8,
    pub s: u8,
    pub l: u8,
    pub g: u8,
    pub avl: u8,
}

/// One descriptor table of the special register block of the KVM interface.
#[allow(missing_docs)]
#[verifier::ext_equal]
#[derive(Clone, Copy, Debug, Eq, PartialEq, Structural)]
pub struct KvmDtable {
    pub base: u64,
    pub limit: u16,
}

/// The special register block of the KVM interface: segments, descriptor
/// tables, control registers and EFER come and go in one piece.
#[allow(missing_docs)]
#[verifier::ext_equal]
#[derive(Clone, Copy, Debug, Eq, PartialEq, Structural)]
pub struct KvmSregs {
    pub cs: KvmSegment,
    pub ds: KvmSegment,
    pub es: KvmSegment,
    pub fs: KvmSegment,
    pub gs: KvmSegment,
    pub ss: KvmSegment,
    pub tr: KvmSegment,
    pub ldt: KvmSegment,
    pub gdt: KvmDtable,
    pub idt: KvmDtable,
    pub cr0: u64,
    pub cr2: u64,
    pub cr3: u64,
    pub cr4: u64,
    pub cr8: u64,
    pub efer: u64,
}

/// The value of a general-purpose register in the block.
pub open spec fn kvm_reg_value(regs: KvmRegs, register: Register) -> u64 {
    match register {
        Register::Rax => regs.rax,
        Register::Rcx => regs.rcx,
        Register::Rdx => regs.rdx,
        Register::Rbx => regs.rbx,
        Register::Rsp => regs.rsp,
        Register::Rbp => regs.rbp,
        Register::Rsi => regs.rsi,
        Register::Rdi => regs.rdi,
        Register::R8 => regs.r8,
        Register::R9 => regs.r9,
        Register::R10 => regs.r10,
        Register::R11 => regs.r11,
        Register::R12 => regs.r12,
        Register::R13 => regs.r13,
        Register::R14 => regs.r14,
        Register::R15 => regs.r15,
        Register::Rip => regs.rip,
        Register::Rflags => regs.rflags,
    }
}

/// The block with one general-purpose register replaced.
pub open spec fn kvm_reg_update(regs: KvmRegs, register: Register, value: u64) -> KvmRegs {
    match register {
        Register::Rax => KvmRegs { rax: value, ..regs },
        Register::Rcx => KvmRegs { rcx: value, ..regs },
        Register::Rdx => KvmRegs { rdx: value, ..regs },
        Register::Rbx => KvmRegs { rbx: value, ..regs },
        Register::Rsp => KvmRegs { rsp: value, ..regs },
        Register::Rbp => KvmRegs { rbp: value, ..regs },
        Register::Rsi => KvmRegs { rsi: value, ..regs },
        Register::Rdi => KvmRegs { rdi: value, ..regs },
        Register::R8 => KvmRegs { r8: value, ..regs },
        Register::R9 => KvmRegs { r9: value, ..regs },
        Register::R10 => KvmRegs { r10: value, ..regs },
        Register::R11 => KvmRegs { r11: value, ..regs },
        Register::R12 => KvmRegs { r12: value, ..regs },
        Register::R13 => KvmRegs { r13: value, ..regs },
        Register::R14 => KvmRegs { r14: value, ..regs },
        Register::R15 => KvmRegs { r15: value, ..regs },
        Register::Rip => KvmRegs { rip: value, ..regs },
        Register::Rflags => KvmRegs { rflags: value, ..regs },
    }
}

/// The block after a sequence of general-purpose register writes, in order.
pub open spec fn kvm_regs_after_writes(regs: KvmRegs, registers: Seq<Register>, values: Seq<u64>) -> KvmRegs
    decreases registers.len(),
{
    if registers.len() == 0 || values.len() == 0 {
        regs
    } else {
        kvm_regs_after_writes(
            kvm_reg_update(regs, registers[0], values[0]),
            registers.skip(1),
            values.skip(1),
        )
    }
}

/// Picks the general-purpose registers named by `registers` out of one
/// fetched register block, in order.
pub fn kvm_get_registers(regs: &KvmRegs, registers: &[Register]) -> (r: Vec<u64>)
    ensures
        r@.len() == registers@.len(),
        forall|j: int| 0 <= j < registers@.len() ==> r@[j] == kvm_reg_value(*regs, registers@[j]),
{
    let mut values: Vec<u64> = Vec::new();
    let n = registers.len();
    let mut i: usize = 0;
    while i < n
        invariant
            n == registers@.len(),
            i <= n,
            values@.len() == i,
            forall|j: int| 0 <= j < i ==> values@[j] == kvm_reg_value(*regs, registers@[j]),
        decreases n - i,
    {
        let value = match registers[i] {
            Register::Rax => regs.rax,
            Register::Rcx => regs.rcx,
            Register::Rdx => regs.rdx,
            Register::Rbx => regs.rbx,
            Register::Rsp => regs.rsp,
            Register::Rbp => regs.rbp,
            Register::Rsi => regs.rsi,
            Register::Rdi => regs.rdi,
            Register::R8 => regs.r8,
            Register::R9 => regs.r9,
            Register::R10 => regs.r10,
            Register::R11 => regs.r11,
            Register::R12 => regs.r12,
            Register::R13 => regs.r13,
            Register::R14 => regs.r14,
            Register::R15 => regs.r15,
            Register::Rip => regs.rip,
            Register::Rflags => regs.rflags,
        };
        values.push(value);
        i = i + 1;
    }
    values
}

/// Applies the general-purpose register writes named by `registers` to a
/// register block about to be handed back; the lengths must match.
pub fn kvm_set_registers(regs: &mut KvmRegs, registers: &[Register], values: &[u64])
    requires
        registers@.len() == values@.len(),
    ensures
        *final(regs) == kvm_regs_after_writes(*old(regs), registers@, values@),
{
    let n = registers.len();
    let mut i: usize = 0;
    proof {
        assert(registers@.skip(0) =~= registers@);
        assert(values@.skip(0) =~= values@);
    }
    while i < n
        invariant
            n == registers@.len(),
            registers@.len() == values@.len(),
            i <= n,
            kvm_regs_after_writes(*regs, registers@.skip(i as int), values@.skip(i as int))
                == kvm_regs_after_writes(*old(regs), registers@, values@),
        decreases n - i,
    {
        proof {
            assert(registers@.skip(i as int).skip(1) =~= registers@.skip(i as int + 1));
            assert(values@.skip(i as int).skip(1) =~= values@.skip(i as int + 1));
            assert(registers@.skip(i as int)[0] == registers@[i as int]);
            assert(values@.skip(i as int)[0] == values@[i as int]);
        }
        let value = values[i];
        match registers[i] {
            Register::Rax => {
                regs.rax = value;
            },
            Register::Rcx => {
                regs.rcx = value;
            },
            Register::Rdx => {
                regs.rdx = value;
            },
            Register::Rbx => {
                regs.rbx = value;
            },
            Register::Rsp => {
                regs.rsp = value;
            },
            Register::Rbp => {
                regs.rbp = value;
            },
            Register::Rsi => {
                regs.rsi = value;
            },
            Register::Rdi => {
                regs.rdi = value;
            },
            Register::R8 => {
                regs.r8 = value;
            },
            Register::R9 => {
                regs.r9 = value;
            },
            Register::R10 => {
                regs.r10 = value;
            },
            Register::R11 => {
                regs.r11 = value;
            },
            Register::R12 => {
                regs.r12 = value;
            },
            Register::R13 => {
                regs.r13 = value;
            },
            Register::R14 => {
                regs.r14 = value;
            },
            Register::R15 => {
                regs.r15 = value;
            },
            Register::Rip => {
                regs.rip = value;
            },
            Register::Rflags => {
                regs.rflags = value;
            },
        }
        i = i + 1;
    }
    proof {
        assert(registers@.skip(n as int) =~= Seq::<Register>::empty());
    }
}

/// The value of a control register in the special block; CR1 is not part of
/// the block and reads as 0.
pub open spec fn kvm_control_value(sregs: KvmSregs, register: ControlRegister) -> u64 {
    match register {
        ControlRegister::Cr0 => sregs.cr0,
        ControlRegister::Cr1 => 0,
        ControlRegister::Cr2 => sregs.cr2,
        ControlRegister::Cr3 => sregs.cr3,
        ControlRegister::Cr4 => sregs.cr4,
        ControlRegister::Cr8 => sregs.cr8,
    }
}

/// The special block with one control register replaced; a CR1 write is
/// discarded.
pub open spec fn kvm_control_update(sregs: KvmSregs, register: ControlRegister, value: u64) -> KvmSregs {
    match register {
        ControlRegister::Cr0 => KvmSregs { cr0: value, ..sregs },
        ControlRegister::Cr1 => sregs,
        ControlRegister::Cr2 => KvmSregs { cr2: value, ..sregs },
        ControlRegister::Cr3 => KvmSregs { cr3: value, ..sregs },
        ControlRegister::Cr4 => KvmSregs { cr4: value, ..sregs },
        ControlRegister::Cr8 => KvmSregs { cr8: value, ..sregs },
    }
}

/// The special block after a sequence of control-register writes, in order.
pub open spec fn kvm_sregs_after_control_writes(sregs: KvmSregs, registers: Seq<ControlRegister>, values: Seq<u64>) -> KvmSregs
    decreases registers.len(),
{
    if registers.len() == 0 || values.len() == 0 {
        sregs
    } else {
        kvm_sregs_after_control_writes(
            kvm_control_update(sregs, registers[0], values[0]),
            registers.skip(1),
            values.skip(1),
        )
    }
}

/// Picks the control registers named by `registers` out of one fetched
/// special block, in order; CR1 reads as 0.
pub fn kvm_get_control_registers(sregs: &KvmSregs, registers: &[ControlRegister]) -> (r: Vec<u64>)
    ensures
        r@.len() == registers@.len(),
        forall|j: int|
            0 <= j < registers@.len() ==> r@[j] == kvm_control_value(*sregs, registers@[j]),
{
    let mut values: Vec<u64> = Vec::new();
    let n = registers.len();
    let mut i: usize = 0;
    while i < n
        invariant
            n == registers@.len(),
            i <= n,
            values@.len() == i,
            forall|j: int| 0 <= j < i ==> values@[j] == kvm_control_value(*sregs, registers@[j]),
        decreases n - i,
    {
        let value = match registers[i] {
            ControlRegister::Cr0 => sregs.cr0,
            ControlRegister::Cr1 => 0,
            ControlRegister::Cr2 => sregs.cr2,
            ControlRegister::Cr3 => sregs.cr3,
            ControlRegister::Cr4 => sregs.cr4,
            ControlRegister::Cr8 => sregs.cr8,
        };
        values.push(value);
        i = i + 1;
    }
    values
}

/// Applies the control-register writes named by `registers` to a special
/// block about to be handed back; CR1 writes are discarded, and the lengths
/// must match.
pub fn kvm_set_control_registers(sregs: &mut KvmSregs, registers: &[ControlRegister], values: &[u64])
    requires
        registers@.len() == values@.len(),
    ensures
        *final(sregs) == kvm_sregs_after_control_writes(*old(sregs), registers@, values@),
{
    let n = registers.len();
    let mut i: usize = 0;
    proof {
        assert(registers@.skip(0) =~= registers@);
        assert(values@.skip(0) =~= values@);
    }
    while i < n
        invariant
            n == registers@.len(),
            registers@.len() == values@.len(),
            i <= n,
            kvm_sregs_after_control_writes(
                *sregs,
                registers@.skip(i as int),
                values@.skip(i as int),
            ) == kvm_sregs_after_control_writes(*old(sregs), registers@, values@),
        decreases n - i,
    {
        proof {
            assert(registers@.skip(i as int).skip(1) =~= registers@.skip(i as int + 1));
            assert(values@.skip(i as int).skip(1) =~= values@.skip(i as int + 1));
            assert(registers@.skip(i as int)[0] == registers@[i as int]);
            assert(values@.skip(i as int)[0] == values@[i as int]);
        }
        let value = values[i];
        match registers[i] {
            ControlRegister::Cr0 => {
                sregs.cr0 = value;
            },
            ControlRegister::Cr1 => {},
            ControlRegister::Cr2 => {
                sregs.cr2 = value;
            },
            ControlRegister::Cr3 => {
                sregs.cr3 = value;
            },
            ControlRegister::Cr4 => {
                sregs.cr4 = value;
            },
            ControlRegister::Cr8 => {
                sregs.cr8 = value;
            },
        }
        i = i + 1;
    }
    proof {
        assert(registers@.skip(n as int) =~= Seq::<ControlRegister>::empty());
    }
}

/// The portable segment descriptor that a wire segment decodes to.
pub open spec fn spec_segment_from_kvm(k: KvmSegment) -> Segment {
    Segment {
        base: k.base,
        limit: k.limit,
        selector: k.selector,
        segment_type: k.type_,
        non_system_segment: k.s != 0,
        dpl: k.dpl,
        present: k.present != 0,
        available: k.avl != 0,
        long: k.l != 0,
        default_size: k.db != 0,
        granularity: k.g != 0,
    }
}

/// The wire segment that a portable segment descriptor encodes to: each flag
/// becomes 0 or 1.
pub open spec fn spec_segment_to_kvm(s: Segment) -> KvmSegment {
    KvmSegment {
        base: s.base,
        limit: s.limit,
        selector: s.selector,
        type_: s.segment_type,
        s: if s.non_system_segment {
            1
        } else {
            0
        },
        dpl: s.dpl,
        present: if s.present {
            1
        } else {
            0
        },
        avl: if s.available {
            1
        } else {
            0
        },
        l: if s.long {
            1
        } else {
            0
        },
        db: if s.default_size {
            1
        } else {
            0
        },
        g: if s.granularity {
            1
        } else {
            0
        },
    }
}

/// Decodes a wire segment.
pub fn segment_from_kvm(k: &KvmSegment) -> (r: Segment)
    ensures
        r == spec_segment_from_kvm(*k),
{
    Segment {
        base: k.base,
        limit: k.limit,
        selector: k.selector,
        segment_type: k.type_,
        non_system_segment: k.s != 0,
        dpl: k.dpl,
        present: k.present != 0,
        available: k.avl != 0,
        long: k.l != 0,
        default_size: k.db != 0,
        granularity: k.g != 0,
    }
}

/// Encodes a portable segment descriptor for the wire.
pub fn segment_to_kvm(s: &Segment) -> (r: KvmSegment)
    ensures
        r == spec_segment_to_kvm(*s),
{
    KvmSegment {
        base: s.base,
        limit: s.limit,
        selector: s.selector,
        type_: s.segment_type,
        s: if s.non_system_segment {
            1
        } else {
            0
        },
        dpl: s.dpl,
        present: if s.present {
            1
        } else {
            0
        },
        avl: if s.available {
            1
        } else {
            0
        },
        l: if s.long {
            1
        } else {
            0
        },
        db: if s.default_size {
            1
        } else {
            0
        },
        g: if s.granularity {
            1
        } else {
            0
        },
    }
}

/// Law: encoding a portable segment descriptor for the KVM wire and
/// decoding it again yields the descriptor unchanged.
pub proof fn lemma_kvm_segment_roundtrip(s: Segment)
    ensures
        spec_segment_from_kvm(spec_segment_to_kvm(s)) == s,
{
}

/// The segment that the special block holds for a segment register.
pub open spec fn kvm_segment_of(sregs: KvmSregs, register: SegmentRegister) -> KvmSegment {
    match register {
        SegmentRegister::Cs => sregs.cs,
        SegmentRegister::Ds => sregs.ds,
        SegmentRegister::Es => sregs.es,
        SegmentRegister::Fs => sregs.fs,
        SegmentRegister::Gs => sregs.gs,
        SegmentRegister::Ss => sregs.ss,
        SegmentRegister::Tr => sregs.tr,
        SegmentRegister::Ldt => sregs.ldt,
    }
}

/// The special block with one segment replaced.
pub open spec fn kvm_segment_update(sregs: KvmSregs, register: SegmentRegister, k: KvmSegment) -> KvmSregs {
    match register {
        SegmentRegister::Cs => KvmSregs { cs: k, ..sregs },
        SegmentRegister::Ds => KvmSregs { ds: k, ..sregs },
        SegmentRegister::Es => KvmSregs { es: k, ..sregs },
        SegmentRegister::Fs => KvmSregs { fs: k, ..sregs },
        SegmentRegister::Gs => KvmSregs { gs: k, ..sregs },
        SegmentRegister::Ss => KvmSregs { ss: k, ..sregs },
        SegmentRegister::Tr => KvmSregs { tr: k, ..sregs },
        SegmentRegister::Ldt => KvmSregs { ldt: k, ..sregs },
    }
}

/// The special block after a sequence of segment writes, in order.
pub open spec fn kvm_sregs_after_segment_writes(sregs: KvmSregs, registers: Seq<SegmentRegister>, values: Seq<Segment>) -> KvmSregs
    decreases registers.len(),
{
    if registers.len() == 0 || values.len() == 0 {
        sregs
    } else {
        kvm_sregs_after_segment_writes(
            kvm_segment_update(sregs, registers[0], spec_segment_to_kvm(values[0])),
            registers.skip(1),
            values.skip(1),
        )
    }
}

/// Picks the segment registers named by `registers` out of one fetched
/// special block, in order, decoding each wire segment.
pub fn kvm_get_segment_registers(sregs: &KvmSregs, registers: &[SegmentRegister]) -> (r: Vec<
    Segment,
>)
    ensures
        r@.len() == registers@.len(),
        forall|j: int|
            0 <= j < registers@.len() ==> r@[j] == spec_segment_from_kvm(
                kvm_segment_of(*sregs, registers@[j]),
            ),
{
    let mut values: Vec<Segment> = Vec::new();
    let n = registers.len();
    let mut i: usize = 0;
    while i < n
        invariant
            n == registers@.len(),
            i <= n,
            values@.len() == i,
            forall|j: int|
                0 <= j < i ==> values@[j] == spec_segment_from_kvm(
                    kvm_segment_of(*sregs, registers@[j]),
                ),
        decreases n - i,
    {
        let segment = match registers[i] {
            SegmentRegister::Cs => sregs.cs,
            SegmentRegister::Ds => sregs.ds,
            SegmentRegister::Es => sregs.es,
            SegmentRegister::Fs => sregs.fs,
            SegmentRegister::Gs => sregs.gs,
            SegmentRegister::Ss => sregs.ss,
            SegmentRegister::Tr => sregs.tr,
            SegmentRegister::Ldt => sregs.ldt,
        };
        values.push(segment_from_kvm(&segment));
        i = i + 1;
    }
    values
}

/// Applies the segment writes named by `registers` to a special block about
/// to be handed back; the lengths must match.
pub fn kvm_set_segment_registers(sregs: &mut KvmSregs, registers: &[SegmentRegister], values: &[Segment])
    requires
        registers@.len() == values@.len(),
    ensures
        *final(sregs) == kvm_sregs_after_segment_writes(*old(sregs), registers@, values@),
{
    let n = registers.len();
    let mut i: usize = 0;
    proof {
        assert(registers@.skip(0) =~= registers@);
        assert(values@.skip(0) =~= values@);
    }
    while i < n
        invariant
            n == registers@.len(),
            registers@.len() == values@.len(),
            i <= n,
            kvm_sregs_after_segment_writes(
                *sregs,
                registers@.skip(i as int),
                values@.skip(i as int),
            ) == kvm_sregs_after_segment_writes(*old(sregs), registers@, values@),
        decreases n - i,
    {
        proof {
            assert(registers@.skip(i as int).skip(1) =~= registers@.skip(i as int + 1));
            assert(values@.skip(i as int).skip(1) =~= values@.skip(i as int + 1));
            assert(registers@.skip(i as int)[0] == registers@[i as int]);
            assert(values@.skip(i as int)[0] == values@[i as int]);
        }
        let k = segment_to_kvm(&values[i]);
        match registers[i] {
            SegmentRegister::Cs => {
                sregs.cs = k;
            },
            SegmentRegister::Ds => {
                sregs.ds = k;
            },
            SegmentRegister::Es => {
                sregs.es = k;
            },
            SegmentRegister::Fs => {
                sregs.fs = k;
            },
            SegmentRegister::Gs => {
                sregs.gs = k;
            },
            SegmentRegister::Ss => {
                sregs.ss = k;
            },
            SegmentRegister::Tr => {
                sregs.tr = k;
            },
            SegmentRegister::Ldt => {
                sregs.ldt = k;
            },
        }
        i = i + 1;
    }
    proof {
        assert(registers@.skip(n as int) =~= Seq::<SegmentRegister>::empty());
    }
}

/// The descriptor table that the special block holds for a register.
pub open spec fn kvm_dtable_of(sregs: KvmSregs, register: DescriptorTableRegister) -> KvmDtable {
    match register {
        DescriptorTableRegister::Gdt => sregs.gdt,
        DescriptorTableRegister::Idt => sregs.idt,
    }
}

/// The special block with one descriptor table replaced.
pub open spec fn kvm_dtable_update(sregs: KvmSregs, register: DescriptorTableRegister, value: DescriptorTable) -> KvmSregs {
    match register {
        DescriptorTableRegister::Gdt => KvmSregs {
            gdt: KvmDtable { base: value.base, limit: value.limit },
            ..sregs
        },
        DescriptorTableRegister::Idt => KvmSregs {
            idt: KvmDtable { base: value.base, limit: value.limit },
            ..sregs
        },
    }
}

/// The special block after a sequence of descriptor-table writes, in order.
pub open spec fn kvm_sregs_after_dtable_writes(sregs: KvmSregs, registers: Seq<DescriptorTableRegister>, values: Seq<DescriptorTable>) -> KvmSregs
    decreases registers.len(),
{
    if registers.len() == 0 || values.len() == 0 {
        sregs
    } else {
        kvm_sregs_after_dtable_writes(
            kvm_dtable_update(sregs, registers[0], values[0]),
            registers.skip(1),
            values.skip(1),
        )
    }
}

/// Picks the descriptor tables named by `registers` out of one fetched
/// special block, in order.
pub fn kvm_get_descriptor_tables(sregs: &KvmSregs, registers: &[DescriptorTableRegister]) -> (r:
    Vec<DescriptorTable>)
    ensures
        r@.len() == registers@.len(),
        forall|j: int|
            0 <= j < registers@.len() ==> r@[j] == (DescriptorTable {
                base: kvm_dtable_of(*sregs, registers@[j]).base,
                limit: kvm_dtable_of(*sregs, registers@[j]).limit,
            }),
{
    let mut values: Vec<DescriptorTable> = Vec::new();
    let n = registers.len();
    let mut i: usize = 0;
    while i < n
        invariant
            n == registers@.len(),
            i <= n,
            values@.len() == i,
            forall|j: int|
                0 <= j < i ==> values@[j] == (DescriptorTable {
                    base: kvm_dtable_of(*sregs, registers@[j]).base,
                    limit: kvm_dtable_of(*sregs, registers@[j]).limit,
                }),
        decreases n - i,
    {
        let table = match registers[i] {
            DescriptorTableRegister::Gdt => sregs.gdt,
            DescriptorTableRegister::Idt => sregs.idt,
        };
        values.push(DescriptorTable { base: table.base, limit: table.limit });
        i = i + 1;
    }
    values
}

/// Applies the descriptor-table writes named by `registers` to a special
/// block about to be handed back; the lengths must match.
pub fn kvm_set_descriptor_tables(sregs: &mut KvmSregs, registers: &[DescriptorTableRegister], values: &[DescriptorTable])
    requires
        registers@.len() == values@.len(),
    ensures
        *final(sregs) == kvm_sregs_after_dtable_writes(*old(sregs), registers@, values@),
{
    let n = registers.len();
    let mut i: usize = 0;
    proof {
        assert(registers@.skip(0) =~= registers@);
        assert(values@.skip(0) =~= values@);
    }
    while i < n
        invariant
            n == registers@.len(),
            registers@.len() == values@.len(),
            i <= n,
            kvm_sregs_after_dtable_writes(
                *sregs,
                registers@.skip(i as int),
                values@.skip(i as int),
            ) == kvm_sregs_after_dtable_writes(*old(sregs), registers@, values@),
        decreases n - i,
    {
        proof {
            assert(registers@.skip(i as int).skip(1) =~= registers@.skip(i as int + 1));
            assert(values@.skip(i as int).skip(1) =~= values@.skip(i as int + 1));
            assert(registers@.skip(i as int)[0] == registers@[i as int]);
            assert(values@.skip(i as int)[0] == values@[i as int]);
        }
        let value = values[i];
        match registers[i] {
            DescriptorTableRegister::Gdt => {
                sregs.gdt = KvmDtable { base: value.base, limit: value.limit };
            },
            DescriptorTableRegister::Idt => {
                sregs.idt = KvmDtable { base: value.base, limit: value.limit };
            },
        }
        i = i + 1;
    }
    proof {
        assert(registers@.skip(n as int) =~= Seq::<DescriptorTableRegister>::empty());
    }
}

/// The non-EFER registers of an MSR request, in their request order: the
/// ones that go through the batched MSR call.
pub open spec fn non_efer_msrs(registers: Seq<u32>) -> Seq<u32>
    decreases registers.len(),
{
    if registers.len() == 0 {
        Seq::empty()
    } else {
        let rest = non_efer_msrs(registers.drop_last());
        if registers.last() == MSR_IA32_EFER {
            rest
        } else {
            rest.push(registers.last())
        }
    }
}

/// The positions at which an MSR request names EFER: the slots that are
/// served from the special register block instead.
pub open spec fn efer_positions(registers: Seq<u32>) -> Seq<int>
    decreases registers.len(),
{
    if registers.len() == 0 {
        Seq::empty()
    } else {
        let rest = efer_positions(registers.drop_last());
        if registers.last() == MSR_IA32_EFER {
            rest.push(registers.len() - 1)
        } else {
            rest
        }
    }
}

/// Law: batching preserves the request order. The `i`-th request, where it
/// is not EFER, is answered by the batched call's answer at the index that
/// counts the non-EFER requests before `i`; re-inserting the EFER answers at
/// their saved positions therefore restores exactly the caller's order.
pub proof fn lemma_non_efer_index(registers: Seq<u32>, i: int)
    requires
        0 <= i < registers.len(),
        registers[i] != MSR_IA32_EFER,
    ensures
        non_efer_msrs(registers.take(i)).len() < non_efer_msrs(registers).len(),
        non_efer_msrs(registers)[non_efer_msrs(registers.take(i)).len() as int] == registers[i],
    decreases registers.len(),
{
    if i == registers.len() - 1 {
        assert(registers.take(i) =~= registers.drop_last());
    } else {
        assert(registers.drop_last()[i] == registers[i]);
        lemma_non_efer_index(registers.drop_last(), i);
        assert(registers.drop_last().take(i) =~= registers.take(i));
    }
}

/// Splits an MSR request around EFER: the non-EFER registers, in order, and
/// the positions at which EFER was requested.
pub fn split_msrs(registers: &[u32]) -> (r: (Vec<u32>, Vec<usize>))
    ensures
        r.0@ == non_efer_msrs(registers@),
        r.1@.map_values(|p: usize| p as int) == efer_positions(registers@),
{
    let mut entries: Vec<u32> = Vec::new();
    let mut indices: Vec<usize> = Vec::new();
    let n = registers.len();
    let mut i: usize = 0;
    proof {
        assert(registers@.take(0) =~= Seq::<u32>::empty());
        assert(entries@ =~= non_efer_msrs(registers@.take(0)));
        assert(indices@.map_values(|p: usize| p as int) =~= efer_positions(registers@.take(0)));
    }
    while i < n
        invariant
            n == registers@.len(),
            i <= n,
            entries@ == non_efer_msrs(registers@.take(i as int)),
            indices@.map_values(|p: usize| p as int) == efer_positions(registers@.take(i as int)),
        decreases n - i,
    {
        proof {
            assert(registers@.take(i as int + 1).drop_last() =~= registers@.take(i as int));
            assert(registers@.take(i as int + 1).last() == registers@[i as int]);
        }
        let register = registers[i];
        if register == MSR_IA32_EFER {
            indices.push(i);
            proof {
                assert(indices@.map_values(|p: usize| p as int) =~= efer_positions(
                    registers@.take(i as int),
                ).push(i as int));
            }
        } else {
            entries.push(register);
        }
        i = i + 1;
    }
    proof {
        assert(registers@.take(n as int) =~= registers@);
    }
    (entries, indices)
}

/// The last EFER value of an MSR write request, if EFER is named at all:
/// the value that flows through the special register block.
pub open spec fn last_efer_value(registers: Seq<u32>, values: Seq<u64>) -> Option<u64>
    decreases registers.len(),
{
    if registers.len() == 0 || values.len() == 0 {
        None
    } else if registers.last() == MSR_IA32_EFER {
        Some(values.last())
    } else {
        last_efer_value(registers.drop_last(), values.drop_last())
    }
}

/// Finds the last EFER value of an MSR write request, if any; the lengths
/// must match.
pub fn find_last_efer(registers: &[u32], values: &[u64]) -> (r: Option<u64>)
    requires
        registers@.len() == values@.len(),
    ensures
        r == last_efer_value(registers@, values@),
{
    let mut i: usize = registers.len();
    proof {
        assert(registers@.take(i as int) =~= registers@);
        assert(values@.take(i as int) =~= values@);
    }
    while i > 0
        invariant
            registers@.len() == values@.len(),
            i <= registers@.len(),
            last_efer_value(registers@.take(i as int), values@.take(i as int)) == last_efer_value(
                registers@,
                values@,
            ),
        decreases i,
    {
        proof {
            assert(registers@.take(i as int).drop_last() =~= registers@.take(i as int - 1));
            assert(values@.take(i as int).drop_last() =~= values@.take(i as int - 1));
            assert(registers@.take(i as int).last() == registers@[i as int - 1]);
            assert(values@.take(i as int).last() == values@[i as int - 1]);
        }
        i = i - 1;
        if registers[i] == MSR_IA32_EFER {
            return Some(values[i]);
        }
    }
    proof {
        assert(registers@.take(0) =~= Seq::<u32>::empty());
    }
    None
}

/// Merges the answers of the batched MSR call back into the caller's
/// request order, filling every EFER slot with the value read from the
/// special register block. The answers must be exactly one per non-EFER
/// request.
pub fn merge_msr_values(registers: &[u32], values: &[u64], efer: u64) -> (r: Vec<u64>)
    requires
        values@.len() == non_efer_msrs(registers@).len(),
    ensures
        r@.len() == registers@.len(),
        forall|i: int|
            0 <= i < registers@.len() ==> r@[i] == (if registers@[i] == MSR_IA32_EFER {
                efer
            } else {
                values@[non_efer_msrs(registers@.take(i)).len() as int]
            }),
{
    let mut result: Vec<u64> = Vec::new();
    let n = registers.len();
    let mut i: usize = 0;
    let mut j: usize = 0;
    proof {
        assert(registers@.take(0) =~= Seq::<u32>::empty());
    }
    while i < n
        invariant
            n == registers@.len(),
            values@.len() == non_efer_msrs(registers@).len(),
            i <= n,
            result@.len() == i,
            j == non_efer_msrs(registers@.take(i as int)).len(),
            forall|k: int|
                0 <= k < i ==> result@[k] == (if registers@[k] == MSR_IA32_EFER {
                    efer
                } else {
                    values@[non_efer_msrs(registers@.take(k)).len() as int]
                }),
        decreases n - i,
    {
        proof {
            assert(registers@.take(i as int + 1).drop_last() =~= registers@.take(i as int));
            assert(registers@.take(i as int + 1).last() == registers@[i as int]);
        }
        let register = registers[i];
        if register == MSR_IA32_EFER {
            result.push(efer);
        } else {
            proof {
                lemma_non_efer_index(registers@, i as int);
            }
            result.push(values[j]);
            j = j + 1;
        }
        i = i + 1;
    }
    result
}

/// The exits of the KVM interface that the port distinguishes, carried as
/// plain values.
#[derive(Debug)]
pub enum KvmExit {
    /// An `out` instruction ran on the given port with the given data.
    IoOut {
        /// The port written to.
        port: u16,
        /// The bytes written.
        data: Vec<u8>,
    },
    /// An `in` instruction ran on the given port.
    IoIn {
        /// The port read from.
        port: u16,
        /// The bytes to fill in.
        data: Vec<u8>,
    },
    /// A read ran against the given MMIO address.
    MmioRead {
        /// The address read from.
        address: u64,
        /// The bytes to fill in.
        data: Vec<u8>,
    },
    /// A write ran against the given MMIO address.
    MmioWrite {
        /// The address written to.
        address: u64,
        /// The bytes written.
        data: Vec<u8>,
    },
    /// The guest executed `hlt`.
    Hlt,
    /// The guest shut down: an unrecoverable fault.
    Shutdown,
    /// Any other exit.
    Other,
}

/// The portable exit reason that a KVM exit translates to: I/O and MMIO
/// exits carry their payloads through, a halt surfaces as `Halted`, a
/// shutdown as an unhandled exception, and everything else is unknown.
pub open spec fn spec_translate_kvm_exit(exit: KvmExit) -> ExitReason {
    match exit {
        KvmExit::IoOut { port, data } => ExitReason::IoOut { port, data },
        KvmExit::IoIn { port, data } => ExitReason::IoIn { port, data },
        KvmExit::MmioRead { address, data } => ExitReason::MmioRead { address, data },
        KvmExit::MmioWrite { address, data } => ExitReason::MmioWrite { address, data },
        KvmExit::Hlt => ExitReason::Halted,
        KvmExit::Shutdown => ExitReason::UnhandledException,
        KvmExit::Other => ExitReason::Unknown,
    }
}

/// Translates a KVM exit into the portable exit reason.
pub fn translate_kvm_exit(exit: KvmExit) -> (r: ExitReason)
    ensures
        r == spec_translate_kvm_exit(exit),
{
    match exit {
        KvmExit::IoOut { port, data } => ExitReason::IoOut { port, data },
        KvmExit::IoIn { port, data } => ExitReason::IoIn { port, data },
        KvmExit::MmioRead { address, data } => ExitReason::MmioRead { address, data },
        KvmExit::MmioWrite { address, data } => ExitReason::MmioWrite { address, data },
        KvmExit::Hlt => ExitReason::Halted,
        KvmExit::Shutdown => ExitReason::UnhandledException,
        KvmExit::Other => ExitReason::Unknown,
    }
}

} // verus!
