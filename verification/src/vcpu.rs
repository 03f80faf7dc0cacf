//! The virtual-CPU model: the canonical cross-backend architectural state of
//! one guest processor — a VMCS image, a register file and the
//! model-specific-register tables — together with the uniform register-access
//! API, the power-on reset that assembles a valid real-mode guest, and the
//! translation of raw VMX exits into portable exit reasons.

use vstd::prelude::*;

use crate::arch::x86_64::{
    access_rights, lemma_access_rights_roundtrip, segment_from_parts, spec_access_rights,
    spec_segment_from_parts, ControlRegister, DescriptorTable, DescriptorTableRegister, Register,
    Segment, SegmentRegister, Vmcs, VmxReason, CPU_BASED2_UNRESTRICTED_GUEST, CPU_BASED_HLT,
    CPU_BASED_SECONDARY_CONTROLS, CR4_VMXE, EFER_LMA, EFER_LME, MSR_IA32_CSTAR, MSR_IA32_EFER,
    MSR_IA32_KERNEL_GS_BASE, MSR_IA32_LSTAR, MSR_IA32_STAR, MSR_IA32_SYSCALL_MASK,
    VM_ENTRY_GUEST_IA32E,
};
use crate::error::Error;
use crate::hvf::{hv_register_for, hv_x86_reg_t, register_id};

verus! {

/// The exit reason that describes why a virtual CPU stopped running.
#[derive(Debug)]
pub enum ExitReason {
    /// The virtual CPU executed an `out` instruction on the given port with
    /// the given data.
    IoOut {
        /// The port written to.
        port: u16,
        /// The bytes written.
        data: Vec<u8>,
    },
    /// The virtual CPU executed an `in` instruction on the given port. The
    /// data should be provided before resuming the virtual CPU.
    IoIn {
        /// The port read from.
        port: u16,
        /// The bytes to fill in.
        data: Vec<u8>,
    },
    /// The virtual CPU tried to read from the given MMIO address. The data
    /// should be provided before resuming the virtual CPU.
    MmioRead {
        /// The address read from.
        address: u64,
        /// The bytes to fill in.
        data: Vec<u8>,
    },
    /// The virtual CPU tried to write the given data to the given MMIO
    /// address.
    MmioWrite {
        /// The address written to.
        address: u64,
        /// The bytes written.
        data: Vec<u8>,
    },
    /// The virtual CPU tried accessing an invalid guest physical address.
    InvalidMemoryAccess {
        /// The guest physical address of the faulting access.
        gpa: u64,
        /// The guest linear address of the faulting access.
        gva: usize,
    },
    /// The virtual CPU executed the `hlt` instruction.
    Halted,
    /// The virtual CPU raised an exception that the guest did not handle:
    /// a triple fault on the x86-64 architecture. The virtual CPU state may
    /// be undefined afterwards; it must not be run again without a reset.
    UnhandledException,
    /// The virtual CPU exited for some unknown reason.
    Unknown,
}

/// The VMCS image of one virtual CPU: one value per field.
#[allow(missing_docs)]
#[verifier::ext_equal]
#[derive(Clone, Copy, Debug, Eq, PartialEq, Structural)]
pub struct VmcsStore {
    pub guest_es: u64,
    pub guest_cs: u64,
    pub guest_ss: u64,
    pub guest_ds: u64,
    pub guest_fs: u64,
    pub guest_gs: u64,
    pub guest_ldtr: u64,
    pub guest_tr: u64,
    pub guest_physical_address: u64,
    pub guest_efer: u64,
    pub pin_based: u64,
    pub cpu_based: u64,
    pub vm_exit_controls: u64,
    pub vm_entry_controls: u64,
    pub cpu_based2: u64,
    pub exit_reason: u64,
    pub guest_es_limit: u64,
    pub guest_cs_limit: u64,
    pub guest_ss_limit: u64,
    pub guest_ds_limit: u64,
    pub guest_fs_limit: u64,
    pub guest_gs_limit: u64,
    pub guest_ldtr_limit: u64,
    pub guest_tr_limit: u64,
    pub guest_gdtr_limit: u64,
    pub guest_idtr_limit: u64,
    pub guest_es_access_rights: u64,
    pub guest_cs_access_rights: u64,
    pub guest_ss_access_rights: u64,
    pub guest_ds_access_rights: u64,
    pub guest_fs_access_rights: u64,
    pub guest_gs_access_rights: u64,
    pub guest_ldtr_access_rights: u64,
    pub guest_tr_access_rights: u64,
    pub cr0_mask: u64,
    pub cr4_mask: u64,
    pub cr0_shadow: u64,
    pub cr4_shadow: u64,
    pub guest_linear_address: u64,
    pub guest_cr0: u64,
    pub guest_cr3: u64,
    pub guest_cr4: u64,
    pub guest_es_base: u64,
    pub guest_cs_base: u64,
    pub guest_ss_base: u64,
    pub guest_ds_base: u64,
    pub guest_fs_base: u64,
    pub guest_gs_base: u64,
    pub guest_ldtr_base: u64,
    pub guest_tr_base: u64,
    pub guest_gdtr_base: u64,
    pub guest_idtr_base: u64,
}

/// The all-zero VMCS image.
pub open spec fn vmcs_zero() -> VmcsStore {
    VmcsStore {
        guest_es: 0,
        guest_cs: 0,
        guest_ss: 0,
        guest_ds: 0,
        guest_fs: 0,
        guest_gs: 0,
        guest_ldtr: 0,
        guest_tr: 0,
        guest_physical_address: 0,
        guest_efer: 0,
        pin_based: 0,
        cpu_based: 0,
        vm_exit_controls: 0,
        vm_entry_controls: 0,
        cpu_based2: 0,
        exit_reason: 0,
        guest_es_limit: 0,
        guest_cs_limit: 0,
        guest_ss_limit: 0,
        guest_ds_limit: 0,
        guest_fs_limit: 0,
        guest_gs_limit: 0,
        guest_ldtr_limit: 0,
        guest_tr_limit: 0,
        guest_gdtr_limit: 0,
        guest_idtr_limit: 0,
        guest_es_access_rights: 0,
        guest_cs_access_rights: 0,
        guest_ss_access_rights: 0,
        guest_ds_access_rights: 0,
        guest_fs_access_rights: 0,
        guest_gs_access_rights: 0,
        guest_ldtr_access_rights: 0,
        guest_tr_access_rights: 0,
        cr0_mask: 0,
        cr4_mask: 0,
        cr0_shadow: 0,
        cr4_shadow: 0,
        guest_linear_address: 0,
        guest_cr0: 0,
        guest_cr3: 0,
        guest_cr4: 0,
        guest_es_base: 0,
        guest_cs_base: 0,
        guest_ss_base: 0,
        guest_ds_base: 0,
        guest_fs_base: 0,
        guest_gs_base: 0,
        guest_ldtr_base: 0,
        guest_tr_base: 0,
        guest_gdtr_base: 0,
        guest_idtr_base: 0,
    }
}

/// The value that the VMCS image holds for a field.
pub open spec fn spec_vmcs_read(store: VmcsStore, field: Vmcs) -> u64 {
    match field {
        Vmcs::GuestEs => store.guest_es,
        Vmcs::GuestCs => store.guest_cs,
        Vmcs::GuestSs => store.guest_ss,
        Vmcs::GuestDs => store.guest_ds,
        Vmcs::GuestFs => store.guest_fs,
        Vmcs::GuestGs => store.guest_gs,
        Vmcs::GuestLdtr => store.guest_ldtr,
        Vmcs::GuestTr => store.guest_tr,
        Vmcs::GuestPhysicalAddress => store.guest_physical_address,
        Vmcs::GuestEfer => store.guest_efer,
        Vmcs::PinBased => store.pin_based,
        Vmcs::CpuBased => store.cpu_based,
        Vmcs::VmExitControls => store.vm_exit_controls,
        Vmcs::VmEntryControls => store.vm_entry_controls,
        Vmcs::CpuBased2 => store.cpu_based2,
        Vmcs::ExitReason => store.exit_reason,
        Vmcs::GuestEsLimit => store.guest_es_limit,
        Vmcs::GuestCsLimit => store.guest_cs_limit,
        Vmcs::GuestSsLimit => store.guest_ss_limit,
        Vmcs::GuestDsLimit => store.guest_ds_limit,
        Vmcs::GuestFsLimit => store.guest_fs_limit,
        Vmcs::GuestGsLimit => store.guest_gs_limit,
        Vmcs::GuestLdtrLimit => store.guest_ldtr_limit,
        Vmcs::GuestTrLimit => store.guest_tr_limit,
        Vmcs::GuestGdtrLimit => store.guest_gdtr_limit,
        Vmcs::GuestIdtrLimit => store.guest_idtr_limit,
        Vmcs::GuestEsAccessRights => store.guest_es_access_rights,
        Vmcs::GuestCsAccessRights => store.guest_cs_access_rights,
        Vmcs::GuestSsAccessRights => store.guest_ss_access_rights,
        Vmcs::GuestDsAccessRights => store.guest_ds_access_rights,
        Vmcs::GuestFsAccessRights => store.guest_fs_access_rights,
        Vmcs::GuestGsAccessRights => store.guest_gs_access_rights,
        Vmcs::GuestLdtrAccessRights => store.guest_ldtr_access_rights,
        Vmcs::GuestTrAccessRights => store.guest_tr_access_rights,
        Vmcs::Cr0Mask => store.cr0_mask,
        Vmcs::Cr4Mask => store.cr4_mask,
        Vmcs::Cr0Shadow => store.cr0_shadow,
        Vmcs::Cr4Shadow => store.cr4_shadow,
        Vmcs::GuestLinearAddress => store.guest_linear_address,
        Vmcs::GuestCr0 => store.guest_cr0,
        Vmcs::GuestCr3 => store.guest_cr3,
        Vmcs::GuestCr4 => store.guest_cr4,
        Vmcs::GuestEsBase => store.guest_es_base,
        Vmcs::GuestCsBase => store.guest_cs_base,
        Vmcs::GuestSsBase => store.guest_ss_base,
        Vmcs::GuestDsBase => store.guest_ds_base,
        Vmcs::GuestFsBase => store.guest_fs_base,
        Vmcs::GuestGsBase => store.guest_gs_base,
        Vmcs::GuestLdtrBase => store.guest_ldtr_base,
        Vmcs::GuestTrBase => store.guest_tr_base,
        Vmcs::GuestGdtrBase => store.guest_gdtr_base,
        Vmcs::GuestIdtrBase => store.guest_idtr_base,
    }
}

/// The VMCS image with one field replaced.
pub open spec fn spec_vmcs_write(store: VmcsStore, field: Vmcs, value: u64) -> VmcsStore {
    match field {
        Vmcs::GuestEs => VmcsStore { guest_es: value, ..store },
        Vmcs::GuestCs => VmcsStore { guest_cs: value, ..store },
        Vmcs::GuestSs => VmcsStore { guest_ss: value, ..store },
        Vmcs::GuestDs => VmcsStore { guest_ds: value, ..store },
        Vmcs::GuestFs => VmcsStore { guest_fs: value, ..store },
        Vmcs::GuestGs => VmcsStore { guest_gs: value, ..store },
        Vmcs::GuestLdtr => VmcsStore { guest_ldtr: value, ..store },
        Vmcs::GuestTr => VmcsStore { guest_tr: value, ..store },
        Vmcs::GuestPhysicalAddress => VmcsStore { guest_physical_address: value, ..store },
        Vmcs::GuestEfer => VmcsStore { guest_efer: value, ..store },
        Vmcs::PinBased => VmcsStore { pin_based: value, ..store },
        Vmcs::CpuBased => VmcsStore { cpu_based: value, ..store },
        Vmcs::VmExitControls => VmcsStore { vm_exit_controls: value, ..store },
        Vmcs::VmEntryControls => VmcsStore { vm_entry_controls: value, ..store },
        Vmcs::CpuBased2 => VmcsStore { cpu_based2: value, ..store },
        Vmcs::ExitReason => VmcsStore { exit_reason: value, ..store },
        Vmcs::GuestEsLimit => VmcsStore { guest_es_limit: value, ..store },
        Vmcs::GuestCsLimit => VmcsStore { guest_cs_limit: value, ..store },
        Vmcs::GuestSsLimit => VmcsStore { guest_ss_limit: value, ..store },
        Vmcs::GuestDsLimit => VmcsStore { guest_ds_limit: value, ..store },
        Vmcs::GuestFsLimit => VmcsStore { guest_fs_limit: value, ..store },
        Vmcs::GuestGsLimit => VmcsStore { guest_gs_limit: value, ..store },
        Vmcs::GuestLdtrLimit => VmcsStore { guest_ldtr_limit: value, ..store },
        Vmcs::GuestTrLimit => VmcsStore { guest_tr_limit: value, ..store },
        Vmcs::GuestGdtrLimit => VmcsStore { guest_gdtr_limit: value, ..store },
        Vmcs::GuestIdtrLimit => VmcsStore { guest_idtr_limit: value, ..store },
        Vmcs::GuestEsAccessRights => VmcsStore { guest_es_access_rights: value, ..store },
        Vmcs::GuestCsAccessRights => VmcsStore { guest_cs_access_rights: value, ..store },
        Vmcs::GuestSsAccessRights => VmcsStore { guest_ss_access_rights: value, ..store },
        Vmcs::GuestDsAccessRights => VmcsStore { guest_ds_access_rights: value, ..store },
        Vmcs::GuestFsAccessRights => VmcsStore { guest_fs_access_rights: value, ..store },
        Vmcs::GuestGsAccessRights => VmcsStore { guest_gs_access_rights: value, ..store },
        Vmcs::GuestLdtrAccessRights => VmcsStore { guest_ldtr_access_rights: value, ..store },
        Vmcs::GuestTrAccessRights => VmcsStore { guest_tr_access_rights: value, ..store },
        Vmcs::Cr0Mask => VmcsStore { cr0_mask: value, ..store },
        Vmcs::Cr4Mask => VmcsStore { cr4_mask: value, ..store },
        Vmcs::Cr0Shadow => VmcsStore { cr0_shadow: value, ..store },
        Vmcs::Cr4Shadow => VmcsStore { cr4_shadow: value, ..store },
        Vmcs::GuestLinearAddress => VmcsStore { guest_linear_address: value, ..store },
        Vmcs::GuestCr0 => VmcsStore { guest_cr0: value, ..store },
        Vmcs::GuestCr3 => VmcsStore { guest_cr3: value, ..store },
        Vmcs::GuestCr4 => VmcsStore { guest_cr4: value, ..store },
        Vmcs::GuestEsBase => VmcsStore { guest_es_base: value, ..store },
        Vmcs::GuestCsBase => VmcsStore { guest_cs_base: value, ..store },
        Vmcs::GuestSsBase => VmcsStore { guest_ss_base: value, ..store },
        Vmcs::GuestDsBase => VmcsStore { guest_ds_base: value, ..store },
        Vmcs::GuestFsBase => VmcsStore { guest_fs_base: value, ..store },
        Vmcs::GuestGsBase => VmcsStore { guest_gs_base: value, ..store },
        Vmcs::GuestLdtrBase => VmcsStore { guest_ldtr_base: value, ..store },
        Vmcs::GuestTrBase => VmcsStore { guest_tr_base: value, ..store },
        Vmcs::GuestGdtrBase => VmcsStore { guest_gdtr_base: value, ..store },
        Vmcs::GuestIdtrBase => VmcsStore { guest_idtr_base: value, ..store },
    }
}

/// The register file of one virtual CPU: the host-addressable registers
/// that the ports read and write directly (general-purpose and control
/// registers; segments live in the VMCS image).
#[allow(missing_docs)]
#[verifier::ext_equal]
#[derive(Clone, Copy, Debug, Eq, PartialEq, Structural)]
pub struct RegFile {
    pub rip: u64,
    pub rflags: u64,
    pub rax: u64,
    pub rcx: u64,
    pub rdx: u64,
    pub rbx: u64,
    pub rsi: u64,
    pub rdi: u64,
    pub rsp: u64,
    pub rbp: u64,
    pub r8: u64,
    pub r9: u64,
    pub r10: u64,
    pub r11: u64,
    pub r12: u64,
    pub r13: u64,
    pub r14: u64,
    pub r15: u64,
    pub cr0: u64,
    pub cr1: u64,
    pub cr2: u64,
    pub cr3: u64,
    pub cr4: u64,
}

/// The all-zero register file.
pub open spec fn reg_file_zero() -> RegFile {
    RegFile {
        rip: 0,
        rflags: 0,
        rax: 0,
        rcx: 0,
        rdx: 0,
        rbx: 0,
        rsi: 0,
        rdi: 0,
        rsp: 0,
        rbp: 0,
        r8: 0,
        r9: 0,
        r10: 0,
        r11: 0,
        r12: 0,
        r13: 0,
        r14: 0,
        r15: 0,
        cr0: 0,
        cr1: 0,
        cr2: 0,
        cr3: 0,
        cr4: 0,
    }
}

/// The value that the register file holds for a host register identifier;
/// an identifier that the model does not store reads as 0.
pub open spec fn spec_reg_read(regs: RegFile, register: hv_x86_reg_t) -> u64 {
    match register {
        hv_x86_reg_t::HV_X86_RIP => regs.rip,
        hv_x86_reg_t::HV_X86_RFLAGS => regs.rflags,
        hv_x86_reg_t::HV_X86_RAX => regs.rax,
        hv_x86_reg_t::HV_X86_RCX => regs.rcx,
        hv_x86_reg_t::HV_X86_RDX => regs.rdx,
        hv_x86_reg_t::HV_X86_RBX => regs.rbx,
        hv_x86_reg_t::HV_X86_RSI => regs.rsi,
        hv_x86_reg_t::HV_X86_RDI => regs.rdi,
        hv_x86_reg_t::HV_X86_RSP => regs.rsp,
        hv_x86_reg_t::HV_X86_RBP => regs.rbp,
        hv_x86_reg_t::HV_X86_R8 => regs.r8,
        hv_x86_reg_t::HV_X86_R9 => regs.r9,
        hv_x86_reg_t::HV_X86_R10 => regs.r10,
        hv_x86_reg_t::HV_X86_R11 => regs.r11,
        hv_x86_reg_t::HV_X86_R12 => regs.r12,
        hv_x86_reg_t::HV_X86_R13 => regs.r13,
        hv_x86_reg_t::HV_X86_R14 => regs.r14,
        hv_x86_reg_t::HV_X86_R15 => regs.r15,
        hv_x86_reg_t::HV_X86_CR0 => regs.cr0,
        hv_x86_reg_t::HV_X86_CR1 => regs.cr1,
        hv_x86_reg_t::HV_X86_CR2 => regs.cr2,
        hv_x86_reg_t::HV_X86_CR3 => regs.cr3,
        hv_x86_reg_t::HV_X86_CR4 => regs.cr4,
        _ => 0,
    }
}

/// The register file with one register replaced; a write to an identifier
/// that the model does not store is discarded.
pub open spec fn spec_reg_write(regs: RegFile, register: hv_x86_reg_t, value: u64) -> RegFile {
    match register {
        hv_x86_reg_t::HV_X86_RIP => RegFile { rip: value, ..regs },
        hv_x86_reg_t::HV_X86_RFLAGS => RegFile { rflags: value, ..regs },
        hv_x86_reg_t::HV_X86_RAX => RegFile { rax: value, ..regs },
        hv_x86_reg_t::HV_X86_RCX => RegFile { rcx: value, ..regs },
        hv_x86_reg_t::HV_X86_RDX => RegFile { rdx: value, ..regs },
        hv_x86_reg_t::HV_X86_RBX => RegFile { rbx: value, ..regs },
        hv_x86_reg_t::HV_X86_RSI => RegFile { rsi: value, ..regs },
        hv_x86_reg_t::HV_X86_RDI => RegFile { rdi: value, ..regs },
        hv_x86_reg_t::HV_X86_RSP => RegFile { rsp: value, ..regs },
        hv_x86_reg_t::HV_X86_RBP => RegFile { rbp: value, ..regs },
        hv_x86_reg_t::HV_X86_R8 => RegFile { r8: value, ..regs },
        hv_x86_reg_t::HV_X86_R9 => RegFile { r9: value, ..regs },
        hv_x86_reg_t::HV_X86_R10 => RegFile { r10: value, ..regs },
        hv_x86_reg_t::HV_X86_R11 => RegFile { r11: value, ..regs },
        hv_x86_reg_t::HV_X86_R12 => RegFile { r12: value, ..regs },
        hv_x86_reg_t::HV_X86_R13 => RegFile { r13: value, ..regs },
        hv_x86_reg_t::HV_X86_R14 => RegFile { r14: value, ..regs },
        hv_x86_reg_t::HV_X86_R15 => RegFile { r15: value, ..regs },
        hv_x86_reg_t::HV_X86_CR0 => RegFile { cr0: value, ..regs },
        hv_x86_reg_t::HV_X86_CR1 => RegFile { cr1: value, ..regs },
        hv_x86_reg_t::HV_X86_CR2 => RegFile { cr2: value, ..regs },
        hv_x86_reg_t::HV_X86_CR3 => RegFile { cr3: value, ..regs },
        hv_x86_reg_t::HV_X86_CR4 => RegFile { cr4: value, ..regs },
        _ => regs,
    }
}


/// The contents of a model-specific-register table: later entries of the
/// journal shadow earlier ones.
pub open spec fn msr_table_map<V>(entries: Seq<(u32, V)>) -> Map<u32, V>
    decreases entries.len(),
{
    if entries.len() == 0 {
        Map::empty()
    } else {
        msr_table_map(entries.drop_last()).insert(entries.last().0, entries.last().1)
    }
}

/// A key found in the journal, with nothing equal after it, is what the
/// table holds for that register.
proof fn lemma_msr_table_found<V>(entries: Seq<(u32, V)>, msr: u32, i: int)
    requires
        0 <= i < entries.len(),
        entries[i].0 == msr,
        forall|j: int| i < j < entries.len() ==> (#[trigger] entries[j]).0 != msr,
    ensures
        msr_table_map(entries).contains_key(msr),
        msr_table_map(entries)[msr] == entries[i].1,
    decreases entries.len(),
{
    if i == entries.len() - 1 {
    } else {
        assert(entries.drop_last()[i] == entries[i]);
        lemma_msr_table_found(entries.drop_last(), msr, i);
        assert(entries.last() == entries[entries.len() - 1]);
    }
}

/// A key that appears nowhere in the journal is absent from the table.
proof fn lemma_msr_table_absent<V>(entries: Seq<(u32, V)>, msr: u32)
    requires
        forall|j: int| 0 <= j < entries.len() ==> (#[trigger] entries[j]).0 != msr,
    ensures
        !msr_table_map(entries).contains_key(msr),
    decreases entries.len(),
{
    if entries.len() > 0 {
        lemma_msr_table_absent(entries.drop_last(), msr);
        assert(entries.last() == entries[entries.len() - 1]);
    }
}

/// A table of model-specific registers, keyed by their 32-bit numbers. It is
/// kept as a journal of writes; the view is the map where the latest write
/// to each register wins.
#[verifier::ext_equal]
#[derive(Debug)]
pub struct MsrTable<V> {
    /// The journal of writes, in order.
    pub entries: Vec<(u32, V)>,
}

impl<V: Copy> MsrTable<V> {
    /// The contents of the table.
    pub open spec fn table(self) -> Map<u32, V> {
        msr_table_map(self.entries@)
    }

    /// The empty table.
    pub fn new() -> (r: Self)
        ensures
            r.table() == Map::<u32, V>::empty(),
    {
        MsrTable { entries: Vec::new() }
    }

    /// Records a value for a register, shadowing any earlier one.
    pub fn set(&mut self, msr: u32, value: V)
        ensures
            final(self).table() == old(self).table().insert(msr, value),
    {
        self.entries.push((msr, value));
        proof {
            assert(self.entries@.drop_last() =~= old(self).entries@);
            assert(self.entries@.last() == (msr, value));
        }
    }

    /// Looks a register up: the latest value written for it, if any.
    pub fn get(&self, msr: u32) -> (r: Option<V>)
        ensures
            r matches Some(v) ==> self.table().contains_key(msr) && self.table()[msr] == v,
            r is None ==> !self.table().contains_key(msr),
    {
        let mut i: usize = self.entries.len();
        while i > 0
            invariant
                i <= self.entries@.len(),
                forall|j: int| i <= j < self.entries@.len() ==> (#[trigger] self.entries@[j]).0 != msr,
            decreases i,
        {
            i = i - 1;
            let entry = self.entries[i];
            if entry.0 == msr {
                proof {
                    lemma_msr_table_found(self.entries@, msr, i as int);
                }
                return Some(entry.1);
            }
        }
        proof {
            lemma_msr_table_absent(self.entries@, msr);
        }
        None
    }
}

/// The value that a model-specific-register table answers for a register: 0
/// where nothing was ever written.
pub open spec fn spec_msr_lookup(table: Map<u32, u64>, msr: u32) -> u64 {
    if table.contains_key(msr) {
        table[msr]
    } else {
        0
    }
}

/// The `Vcpu` struct represents a virtual CPU that is part of a VM: its
/// architectural state, held in the canonical cross-backend shape that the
/// VMCS-assembling port brings up and every port marshals into.
pub struct Vcpu {
    /// The VMCS image.
    pub vmcs: VmcsStore,
    /// The register file.
    pub regs: RegFile,
    /// The model-specific registers.
    pub msrs: MsrTable<u64>,
    /// Which model-specific registers pass through natively.
    pub native_msrs: MsrTable<bool>,
}

impl Vcpu {
    /// A virtual CPU with an all-zero state, before its power-on reset.
    pub fn new() -> (r: Vcpu)
        ensures
            r.vmcs == vmcs_zero(),
            r.regs == reg_file_zero(),
            r.msrs.table() == Map::<u32, u64>::empty(),
            r.native_msrs.table() == Map::<u32, bool>::empty(),
    {
        Vcpu {
            vmcs: VmcsStore {
                guest_es: 0,
                guest_cs: 0,
                guest_ss: 0,
                guest_ds: 0,
                guest_fs: 0,
                guest_gs: 0,
                guest_ldtr: 0,
                guest_tr: 0,
                guest_physical_address: 0,
                guest_efer: 0,
                pin_based: 0,
                cpu_based: 0,
                vm_exit_controls: 0,
                vm_entry_controls: 0,
                cpu_based2: 0,
                exit_reason: 0,
                guest_es_limit: 0,
                guest_cs_limit: 0,
                guest_ss_limit: 0,
                guest_ds_limit: 0,
                guest_fs_limit: 0,
                guest_gs_limit: 0,
                guest_ldtr_limit: 0,
                guest_tr_limit: 0,
                guest_gdtr_limit: 0,
                guest_idtr_limit: 0,
                guest_es_access_rights: 0,
                guest_cs_access_rights: 0,
                guest_ss_access_rights: 0,
                guest_ds_access_rights: 0,
                guest_fs_access_rights: 0,
                guest_gs_access_rights: 0,
                guest_ldtr_access_rights: 0,
                guest_tr_access_rights: 0,
                cr0_mask: 0,
                cr4_mask: 0,
                cr0_shadow: 0,
                cr4_shadow: 0,
                guest_linear_address: 0,
                guest_cr0: 0,
                guest_cr3: 0,
                guest_cr4: 0,
                guest_es_base: 0,
                guest_cs_base: 0,
                guest_ss_base: 0,
                guest_ds_base: 0,
                guest_fs_base: 0,
                guest_gs_base: 0,
                guest_ldtr_base: 0,
                guest_tr_base: 0,
                guest_gdtr_base: 0,
                guest_idtr_base: 0,
            },
            regs: RegFile {
                rip: 0,
                rflags: 0,
                rax: 0,
                rcx: 0,
                rdx: 0,
                rbx: 0,
                rsi: 0,
                rdi: 0,
                rsp: 0,
                rbp: 0,
                r8: 0,
                r9: 0,
                r10: 0,
                r11: 0,
                r12: 0,
                r13: 0,
                r14: 0,
                r15: 0,
                cr0: 0,
                cr1: 0,
                cr2: 0,
                cr3: 0,
                cr4: 0,
            },
            msrs: MsrTable::new(),
            native_msrs: MsrTable::new(),
        }
    }

    /// Reads a host-addressable register.
    pub fn read_register(&self, register: hv_x86_reg_t) -> (r: u64)
        ensures
            r == spec_reg_read(self.regs, register),
    {
        match register {
            hv_x86_reg_t::HV_X86_RIP => self.regs.rip,
            hv_x86_reg_t::HV_X86_RFLAGS => self.regs.rflags,
            hv_x86_reg_t::HV_X86_RAX => self.regs.rax,
            hv_x86_reg_t::HV_X86_RCX => self.regs.rcx,
            hv_x86_reg_t::HV_X86_RDX => self.regs.rdx,
            hv_x86_reg_t::HV_X86_RBX => self.regs.rbx,
            hv_x86_reg_t::HV_X86_RSI => self.regs.rsi,
            hv_x86_reg_t::HV_X86_RDI => self.regs.rdi,
            hv_x86_reg_t::HV_X86_RSP => self.regs.rsp,
            hv_x86_reg_t::HV_X86_RBP => self.regs.rbp,
            hv_x86_reg_t::HV_X86_R8 => self.regs.r8,
            hv_x86_reg_t::HV_X86_R9 => self.regs.r9,
            hv_x86_reg_t::HV_X86_R10 => self.regs.r10,
            hv_x86_reg_t::HV_X86_R11 => self.regs.r11,
            hv_x86_reg_t::HV_X86_R12 => self.regs.r12,
            hv_x86_reg_t::HV_X86_R13 => self.regs.r13,
            hv_x86_reg_t::HV_X86_R14 => self.regs.r14,
            hv_x86_reg_t::HV_X86_R15 => self.regs.r15,
            hv_x86_reg_t::HV_X86_CR0 => self.regs.cr0,
            hv_x86_reg_t::HV_X86_CR1 => self.regs.cr1,
            hv_x86_reg_t::HV_X86_CR2 => self.regs.cr2,
            hv_x86_reg_t::HV_X86_CR3 => self.regs.cr3,
            hv_x86_reg_t::HV_X86_CR4 => self.regs.cr4,
            _ => 0,
        }
    }

    /// Writes a host-addressable register; a write to an identifier that the
    /// model does not store is discarded.
    pub fn write_register(&mut self, register: hv_x86_reg_t, value: u64)
        ensures
            final(self).regs == spec_reg_write(old(self).regs, register, value),
            final(self).vmcs == old(self).vmcs,
            final(self).msrs == old(self).msrs,
            final(self).native_msrs == old(self).native_msrs,
    {
        match register {
            hv_x86_reg_t::HV_X86_RIP => {
                self.regs.rip = value;
            },
            hv_x86_reg_t::HV_X86_RFLAGS => {
                self.regs.rflags = value;
            },
            hv_x86_reg_t::HV_X86_RAX => {
                self.regs.rax = value;
            },
            hv_x86_reg_t::HV_X86_RCX => {
                self.regs.rcx = value;
            },
            hv_x86_reg_t::HV_X86_RDX => {
                self.regs.rdx = value;
            },
            hv_x86_reg_t::HV_X86_RBX => {
                self.regs.rbx = value;
            },
            hv_x86_reg_t::HV_X86_RSI => {
                self.regs.rsi = value;
            },
            hv_x86_reg_t::HV_X86_RDI => {
                self.regs.rdi = value;
            },
            hv_x86_reg_t::HV_X86_RSP => {
                self.regs.rsp = value;
            },
            hv_x86_reg_t::HV_X86_RBP => {
                self.regs.rbp = value;
            },
            hv_x86_reg_t::HV_X86_R8 => {
                self.regs.r8 = value;
            },
            hv_x86_reg_t::HV_X86_R9 => {
                self.regs.r9 = value;
            },
            hv_x86_reg_t::HV_X86_R10 => {
                self.regs.r10 = value;
            },
            hv_x86_reg_t::HV_X86_R11 => {
                self.regs.r11 = value;
            },
            hv_x86_reg_t::HV_X86_R12 => {
                self.regs.r12 = value;
            },
            hv_x86_reg_t::HV_X86_R13 => {
                self.regs.r13 = value;
            },
            hv_x86_reg_t::HV_X86_R14 => {
                self.regs.r14 = value;
            },
            hv_x86_reg_t::HV_X86_R15 => {
                self.regs.r15 = value;
            },
            hv_x86_reg_t::HV_X86_CR0 => {
                self.regs.cr0 = value;
            },
            hv_x86_reg_t::HV_X86_CR1 => {
                self.regs.cr1 = value;
            },
            hv_x86_reg_t::HV_X86_CR2 => {
                self.regs.cr2 = value;
            },
            hv_x86_reg_t::HV_X86_CR3 => {
                self.regs.cr3 = value;
            },
            hv_x86_reg_t::HV_X86_CR4 => {
                self.regs.cr4 = value;
            },
            _ => {},
        }
    }

    /// Reads a field of the VMCS image.
    pub fn read_vmcs(&self, field: Vmcs) -> (r: u64)
        ensures
            r == spec_vmcs_read(self.vmcs, field),
    {
        match field {
            Vmcs::GuestEs => self.vmcs.guest_es,
            Vmcs::GuestCs => self.vmcs.guest_cs,
            Vmcs::GuestSs => self.vmcs.guest_ss,
            Vmcs::GuestDs => self.vmcs.guest_ds,
            Vmcs::GuestFs => self.vmcs.guest_fs,
            Vmcs::GuestGs => self.vmcs.guest_gs,
            Vmcs::GuestLdtr => self.vmcs.guest_ldtr,
            Vmcs::GuestTr => self.vmcs.guest_tr,
            Vmcs::GuestPhysicalAddress => self.vmcs.guest_physical_address,
            Vmcs::GuestEfer => self.vmcs.guest_efer,
            Vmcs::PinBased => self.vmcs.pin_based,
            Vmcs::CpuBased => self.vmcs.cpu_based,
            Vmcs::VmExitControls => self.vmcs.vm_exit_controls,
            Vmcs::VmEntryControls => self.vmcs.vm_entry_controls,
            Vmcs::CpuBased2 => self.vmcs.cpu_based2,
            Vmcs::ExitReason => self.vmcs.exit_reason,
            Vmcs::GuestEsLimit => self.vmcs.guest_es_limit,
            Vmcs::GuestCsLimit => self.vmcs.guest_cs_limit,
            Vmcs::GuestSsLimit => self.vmcs.guest_ss_limit,
            Vmcs::GuestDsLimit => self.vmcs.guest_ds_limit,
            Vmcs::GuestFsLimit => self.vmcs.guest_fs_limit,
            Vmcs::GuestGsLimit => self.vmcs.guest_gs_limit,
            Vmcs::GuestLdtrLimit => self.vmcs.guest_ldtr_limit,
            Vmcs::GuestTrLimit => self.vmcs.guest_tr_limit,
            Vmcs::GuestGdtrLimit => self.vmcs.guest_gdtr_limit,
            Vmcs::GuestIdtrLimit => self.vmcs.guest_idtr_limit,
            Vmcs::GuestEsAccessRights => self.vmcs.guest_es_access_rights,
            Vmcs::GuestCsAccessRights => self.vmcs.guest_cs_access_rights,
            Vmcs::GuestSsAccessRights => self.vmcs.guest_ss_access_rights,
            Vmcs::GuestDsAccessRights => self.vmcs.guest_ds_access_rights,
            Vmcs::GuestFsAccessRights => self.vmcs.guest_fs_access_rights,
            Vmcs::GuestGsAccessRights => self.vmcs.guest_gs_access_rights,
            Vmcs::GuestLdtrAccessRights => self.vmcs.guest_ldtr_access_rights,
            Vmcs::GuestTrAccessRights => self.vmcs.guest_tr_access_rights,
            Vmcs::Cr0Mask => self.vmcs.cr0_mask,
            Vmcs::Cr4Mask => self.vmcs.cr4_mask,
            Vmcs::Cr0Shadow => self.vmcs.cr0_shadow,
            Vmcs::Cr4Shadow => self.vmcs.cr4_shadow,
            Vmcs::GuestLinearAddress => self.vmcs.guest_linear_address,
            Vmcs::GuestCr0 => self.vmcs.guest_cr0,
            Vmcs::GuestCr3 => self.vmcs.guest_cr3,
            Vmcs::GuestCr4 => self.vmcs.guest_cr4,
            Vmcs::GuestEsBase => self.vmcs.guest_es_base,
            Vmcs::GuestCsBase => self.vmcs.guest_cs_base,
            Vmcs::GuestSsBase => self.vmcs.guest_ss_base,
            Vmcs::GuestDsBase => self.vmcs.guest_ds_base,
            Vmcs::GuestFsBase => self.vmcs.guest_fs_base,
            Vmcs::GuestGsBase => self.vmcs.guest_gs_base,
            Vmcs::GuestLdtrBase => self.vmcs.guest_ldtr_base,
            Vmcs::GuestTrBase => self.vmcs.guest_tr_base,
            Vmcs::GuestGdtrBase => self.vmcs.guest_gdtr_base,
            Vmcs::GuestIdtrBase => self.vmcs.guest_idtr_base,
        }
    }

    /// Writes a field of the VMCS image.
    pub fn write_vmcs(&mut self, field: Vmcs, value: u64)
        ensures
            final(self).vmcs == spec_vmcs_write(old(self).vmcs, field, value),
            final(self).regs == old(self).regs,
            final(self).msrs == old(self).msrs,
            final(self).native_msrs == old(self).native_msrs,
    {
        match field {
            Vmcs::GuestEs => {
                self.vmcs.guest_es = value;
            },
            Vmcs::GuestCs => {
                self.vmcs.guest_cs = value;
            },
            Vmcs::GuestSs => {
                self.vmcs.guest_ss = value;
            },
            Vmcs::GuestDs => {
                self.vmcs.guest_ds = value;
            },
            Vmcs::GuestFs => {
                self.vmcs.guest_fs = value;
            },
            Vmcs::GuestGs => {
                self.vmcs.guest_gs = value;
            },
            Vmcs::GuestLdtr => {
                self.vmcs.guest_ldtr = value;
            },
            Vmcs::GuestTr => {
                self.vmcs.guest_tr = value;
            },
            Vmcs::GuestPhysicalAddress => {
                self.vmcs.guest_physical_address = value;
            },
            Vmcs::GuestEfer => {
                self.vmcs.guest_efer = value;
            },
            Vmcs::PinBased => {
                self.vmcs.pin_based = value;
            },
            Vmcs::CpuBased => {
                self.vmcs.cpu_based = value;
            },
            Vmcs::VmExitControls => {
                self.vmcs.vm_exit_controls = value;
            },
            Vmcs::VmEntryControls => {
                self.vmcs.vm_entry_controls = value;
            },
            Vmcs::CpuBased2 => {
                self.vmcs.cpu_based2 = value;
            },
            Vmcs::ExitReason => {
                self.vmcs.exit_reason = value;
            },
            Vmcs::GuestEsLimit => {
                self.vmcs.guest_es_limit = value;
            },
            Vmcs::GuestCsLimit => {
                self.vmcs.guest_cs_limit = value;
            },
            Vmcs::GuestSsLimit => {
                self.vmcs.guest_ss_limit = value;
            },
            Vmcs::GuestDsLimit => {
                self.vmcs.guest_ds_limit = value;
            },
            Vmcs::GuestFsLimit => {
                self.vmcs.guest_fs_limit = value;
            },
            Vmcs::GuestGsLimit => {
                self.vmcs.guest_gs_limit = value;
            },
            Vmcs::GuestLdtrLimit => {
                self.vmcs.guest_ldtr_limit = value;
            },
            Vmcs::GuestTrLimit => {
                self.vmcs.guest_tr_limit = value;
            },
            Vmcs::GuestGdtrLimit => {
                self.vmcs.guest_gdtr_limit = value;
            },
            Vmcs::GuestIdtrLimit => {
                self.vmcs.guest_idtr_limit = value;
            },
            Vmcs::GuestEsAccessRights => {
                self.vmcs.guest_es_access_rights = value;
            },
            Vmcs::GuestCsAccessRights => {
                self.vmcs.guest_cs_access_rights = value;
            },
            Vmcs::GuestSsAccessRights => {
                self.vmcs.guest_ss_access_rights = value;
            },
            Vmcs::GuestDsAccessRights => {
                self.vmcs.guest_ds_access_rights = value;
            },
            Vmcs::GuestFsAccessRights => {
                self.vmcs.guest_fs_access_rights = value;
            },
            Vmcs::GuestGsAccessRights => {
                self.vmcs.guest_gs_access_rights = value;
            },
            Vmcs::GuestLdtrAccessRights => {
                self.vmcs.guest_ldtr_access_rights = value;
            },
            Vmcs::GuestTrAccessRights => {
                self.vmcs.guest_tr_access_rights = value;
            },
            Vmcs::Cr0Mask => {
                self.vmcs.cr0_mask = value;
            },
            Vmcs::Cr4Mask => {
                self.vmcs.cr4_mask = value;
            },
            Vmcs::Cr0Shadow => {
                self.vmcs.cr0_shadow = value;
            },
            Vmcs::Cr4Shadow => {
                self.vmcs.cr4_shadow = value;
            },
            Vmcs::GuestLinearAddress => {
                self.vmcs.guest_linear_address = value;
            },
            Vmcs::GuestCr0 => {
                self.vmcs.guest_cr0 = value;
            },
            Vmcs::GuestCr3 => {
                self.vmcs.guest_cr3 = value;
            },
            Vmcs::GuestCr4 => {
                self.vmcs.guest_cr4 = value;
            },
            Vmcs::GuestEsBase => {
                self.vmcs.guest_es_base = value;
            },
            Vmcs::GuestCsBase => {
                self.vmcs.guest_cs_base = value;
            },
            Vmcs::GuestSsBase => {
                self.vmcs.guest_ss_base = value;
            },
            Vmcs::GuestDsBase => {
                self.vmcs.guest_ds_base = value;
            },
            Vmcs::GuestFsBase => {
                self.vmcs.guest_fs_base = value;
            },
            Vmcs::GuestGsBase => {
                self.vmcs.guest_gs_base = value;
            },
            Vmcs::GuestLdtrBase => {
                self.vmcs.guest_ldtr_base = value;
            },
            Vmcs::GuestTrBase => {
                self.vmcs.guest_tr_base = value;
            },
            Vmcs::GuestGdtrBase => {
                self.vmcs.guest_gdtr_base = value;
            },
            Vmcs::GuestIdtrBase => {
                self.vmcs.guest_idtr_base = value;
            },
        }
    }

    /// Reads a model-specific register; one never written reads as 0.
    pub fn read_msr(&self, register: u32) -> (r: u64)
        ensures
            r == spec_msr_lookup(self.msrs.table(), register),
    {
        match self.msrs.get(register) {
            Some(value) => value,
            _ => 0,
        }
    }

    /// Writes a model-specific register.
    pub fn write_msr(&mut self, register: u32, value: u64)
        ensures
            final(self).msrs.table() == old(self).msrs.table().insert(register, value),
            final(self).vmcs == old(self).vmcs,
            final(self).regs == old(self).regs,
            final(self).native_msrs == old(self).native_msrs,
    {
        self.msrs.set(register, value);
    }

    /// Records whether a model-specific register passes through natively.
    pub fn enable_native_msr(&mut self, msr: u32, enabled: bool)
        ensures
            final(self).native_msrs.table() == old(self).native_msrs.table().insert(msr, enabled),
            final(self).vmcs == old(self).vmcs,
            final(self).regs == old(self).regs,
            final(self).msrs == old(self).msrs,
    {
        self.native_msrs.set(msr, enabled);
    }

    /// Whether a model-specific register passes through natively.
    pub fn native_msr_enabled(&self, msr: u32) -> (r: bool)
        ensures
            r == (self.native_msrs.table().contains_key(msr)
                && self.native_msrs.table()[msr]),
    {
        match self.native_msrs.get(msr) {
            Some(enabled) => enabled,
            _ => false,
        }
    }
}

/// The VMCS image after the power-on reset: the `hlt` and
/// secondary-controls bits joined into the CPU-based controls, the
/// unrestricted-guest bit joined into the secondary controls, the code
/// segment at the reset vector, the data and stack segments flat with limit
/// `0xf_ffff`, the LDT unusable, the task register a busy 32-bit TSS, and
/// long mode off.
pub open spec fn spec_reset_vmcs(v: VmcsStore) -> VmcsStore {
    VmcsStore {
        cpu_based: v.cpu_based | ((CPU_BASED_HLT | CPU_BASED_SECONDARY_CONTROLS) as u64),
        cpu_based2: v.cpu_based2 | (CPU_BASED2_UNRESTRICTED_GUEST as u64),
        guest_cs: 0xf000,
        guest_cs_base: 0xffff_0000,
        guest_cs_limit: 0xf_ffff,
        guest_cs_access_rights: 0x9b,
        guest_ds: 0,
        guest_ds_base: 0,
        guest_ds_limit: 0xf_ffff,
        guest_ds_access_rights: 0x93,
        guest_es: 0,
        guest_es_base: 0,
        guest_es_limit: 0xf_ffff,
        guest_es_access_rights: 0x93,
        guest_fs: 0,
        guest_fs_base: 0,
        guest_fs_limit: 0xf_ffff,
        guest_fs_access_rights: 0x93,
        guest_gs: 0,
        guest_gs_base: 0,
        guest_gs_limit: 0xf_ffff,
        guest_gs_access_rights: 0x93,
        guest_ss: 0,
        guest_ss_base: 0,
        guest_ss_limit: 0xf_ffff,
        guest_ss_access_rights: 0x93,
        guest_ldtr_access_rights: 0x1_0000,
        guest_tr_access_rights: 0x8b,
        guest_efer: 0,
        ..v
    }
}

/// The register file after the power-on reset: execution starts at the
/// reset vector in real mode, with only the reserved flag bit set and the
/// host-required VMX-enable bit in CR4.
pub open spec fn spec_reset_regs(r: RegFile) -> RegFile {
    RegFile { rip: 0xfff0, rflags: 0x0002, cr0: 0, cr4: CR4_VMXE, ..r }
}

impl Vcpu {
    /// Resets the virtual CPU to the architectural power-on state: the
    /// VMCS image and the register file take the canonical reset values,
    /// and the model-specific registers that long mode needs are passed
    /// through natively.
    pub fn reset(&mut self) -> (r: Result<(), Error>)
        ensures
            r is Ok,
            final(self).vmcs == spec_reset_vmcs(old(self).vmcs),
            final(self).regs == spec_reset_regs(old(self).regs),
            final(self).msrs == old(self).msrs,
            final(self).native_msrs.table() == old(self).native_msrs.table().insert(
                MSR_IA32_LSTAR,
                true,
            ).insert(MSR_IA32_CSTAR, true).insert(MSR_IA32_STAR, true).insert(
                MSR_IA32_SYSCALL_MASK,
                true,
            ).insert(MSR_IA32_KERNEL_GS_BASE, true),
    {
        let mut value = self.read_vmcs(Vmcs::CpuBased);
        let cpu_based: u32 = CPU_BASED_HLT | CPU_BASED_SECONDARY_CONTROLS;
        value = value | (cpu_based as u64);
        self.write_vmcs(Vmcs::CpuBased, value);

        let mut value = self.read_vmcs(Vmcs::CpuBased2);
        let cpu_based2: u32 = CPU_BASED2_UNRESTRICTED_GUEST;
        value = value | (cpu_based2 as u64);
        self.write_vmcs(Vmcs::CpuBased2, value);

        // Reset the segments.
        self.write_vmcs(Vmcs::GuestCs, 0xf000);
        self.write_vmcs(Vmcs::GuestCsBase, 0xffff_0000);
        self.write_vmcs(Vmcs::GuestCsLimit, 0xf_ffff);
        self.write_vmcs(Vmcs::GuestCsAccessRights, 0x9b);

        self.write_vmcs(Vmcs::GuestDs, 0);
        self.write_vmcs(Vmcs::GuestDsBase, 0);
        self.write_vmcs(Vmcs::GuestDsLimit, 0xf_ffff);
        self.write_vmcs(Vmcs::GuestDsAccessRights, 0x93);

        self.write_vmcs(Vmcs::GuestEs, 0);
        self.write_vmcs(Vmcs::GuestEsBase, 0);
        self.write_vmcs(Vmcs::GuestEsLimit, 0xf_ffff);
        self.write_vmcs(Vmcs::GuestEsAccessRights, 0x93);

        self.write_vmcs(Vmcs::GuestFs, 0);
        self.write_vmcs(Vmcs::GuestFsBase, 0);
        self.write_vmcs(Vmcs::GuestFsLimit, 0xf_ffff);
        self.write_vmcs(Vmcs::GuestFsAccessRights, 0x93);

        self.write_vmcs(Vmcs::GuestGs, 0);
        self.write_vmcs(Vmcs::GuestGsBase, 0);
        self.write_vmcs(Vmcs::GuestGsLimit, 0xf_ffff);
        self.write_vmcs(Vmcs::GuestGsAccessRights, 0x93);

        self.write_vmcs(Vmcs::GuestSs, 0);
        self.write_vmcs(Vmcs::GuestSsBase, 0);
        self.write_vmcs(Vmcs::GuestSsLimit, 0xf_ffff);
        self.write_vmcs(Vmcs::GuestSsAccessRights, 0x93);

        self.write_vmcs(Vmcs::GuestLdtrAccessRights, 0x1_0000);
        self.write_vmcs(Vmcs::GuestTrAccessRights, 0x8b);

        // These MSRs must be enabled. Otherwise enabling the long mode bits
        // in EFER would cause the VM entry to fail without any indicative
        // exit reason.
        self.enable_native_msr(MSR_IA32_LSTAR, true);
        self.enable_native_msr(MSR_IA32_CSTAR, true);
        self.enable_native_msr(MSR_IA32_STAR, true);
        self.enable_native_msr(MSR_IA32_SYSCALL_MASK, true);
        self.enable_native_msr(MSR_IA32_KERNEL_GS_BASE, true);

        self.write_register(hv_x86_reg_t::HV_X86_RIP, 0xfff0);
        self.write_register(hv_x86_reg_t::HV_X86_RFLAGS, 2);

        self.write_register(hv_x86_reg_t::HV_X86_CR0, 0);
        self.write_register(hv_x86_reg_t::HV_X86_CR4, CR4_VMXE);
        self.write_vmcs(Vmcs::GuestEfer, 0);

        proof {
            assert(self.vmcs =~= spec_reset_vmcs(old(self).vmcs));
            assert(self.regs =~= spec_reset_regs(old(self).regs));
        }
        Ok(())
    }

    /// The exit-reason code that the VMCS image currently reports, masked
    /// down to the basic reason.
    pub open spec fn spec_exit_code(self) -> u32 {
        (spec_vmcs_read(self.vmcs, Vmcs::ExitReason) as u32) & 0x7fff_ffff
    }

    /// Translates the VMX exit that the VMCS image currently reports into a
    /// portable exit reason. `None` means the exit is benign (a bare
    /// interrupt) and the virtual CPU should simply resume. A halt skips the
    /// one-byte `hlt` instruction; an EPT violation carries the faulting
    /// guest physical and linear addresses; a triple fault surfaces as an
    /// unhandled exception; anything else is unknown.
    pub fn handle_vmx_exit(&mut self) -> (r: Option<ExitReason>)
        requires
            VmxReason::spec_from_code(old(self).spec_exit_code()) == Some(VmxReason::Hlt)
                ==> spec_reg_read(old(self).regs, hv_x86_reg_t::HV_X86_RIP) < u64::MAX,
        ensures
            final(self).vmcs == old(self).vmcs,
            final(self).msrs == old(self).msrs,
            final(self).native_msrs == old(self).native_msrs,
            match VmxReason::spec_from_code(old(self).spec_exit_code()) {
                Some(VmxReason::Irq) => r is None && final(self).regs == old(self).regs,
                Some(VmxReason::TripleFault) => r == Some(ExitReason::UnhandledException)
                    && final(self).regs == old(self).regs,
                Some(VmxReason::Hlt) => r == Some(ExitReason::Halted) && final(self).regs
                    == spec_reg_write(
                    old(self).regs,
                    hv_x86_reg_t::HV_X86_RIP,
                    (spec_reg_read(old(self).regs, hv_x86_reg_t::HV_X86_RIP) + 1) as u64,
                ),
                Some(VmxReason::EptViolation) => r == Some(
                    ExitReason::InvalidMemoryAccess {
                        gpa: spec_vmcs_read(old(self).vmcs, Vmcs::GuestPhysicalAddress),
                        gva: spec_vmcs_read(old(self).vmcs, Vmcs::GuestLinearAddress) as usize,
                    },
                ) && final(self).regs == old(self).regs,
                Some(_) => r == Some(ExitReason::Unknown) && final(self).regs == old(self).regs,
                None => r == Some(ExitReason::Unknown) && final(self).regs == old(self).regs,
            },
    {
        let value = self.read_vmcs(Vmcs::ExitReason);
        let code = (value as u32) & 0x7fff_ffff;

        let reason = match VmxReason::from_code(code) {
            Some(reason) => reason,
            _ => {
                return Some(ExitReason::Unknown);
            },
        };

        match reason {
            VmxReason::Irq => None,
            VmxReason::TripleFault => Some(ExitReason::UnhandledException),
            VmxReason::Hlt => {
                // Skip the `hlt` instruction.
                let rip = self.read_register(hv_x86_reg_t::HV_X86_RIP);
                self.write_register(hv_x86_reg_t::HV_X86_RIP, rip + 1);
                Some(ExitReason::Halted)
            },
            VmxReason::EptViolation => {
                let phys_addr = self.read_vmcs(Vmcs::GuestPhysicalAddress);
                let virt_addr = self.read_vmcs(Vmcs::GuestLinearAddress);
                // The virtual CPU tried accessing some area that is not
                // mapped in for the VM.
                Some(ExitReason::InvalidMemoryAccess { gpa: phys_addr, gva: virt_addr as usize })
            },
            _ => Some(ExitReason::Unknown),
        }
    }
}

/// The VMCS field holding a segment register's selector.
pub open spec fn selector_field(register: SegmentRegister) -> Vmcs {
    match register {
        SegmentRegister::Cs => Vmcs::GuestCs,
        SegmentRegister::Ds => Vmcs::GuestDs,
        SegmentRegister::Es => Vmcs::GuestEs,
        SegmentRegister::Fs => Vmcs::GuestFs,
        SegmentRegister::Gs => Vmcs::GuestGs,
        SegmentRegister::Ss => Vmcs::GuestSs,
        SegmentRegister::Tr => Vmcs::GuestTr,
        SegmentRegister::Ldt => Vmcs::GuestLdtr,
    }
}

/// The VMCS field holding a segment register's base.
pub open spec fn base_field(register: SegmentRegister) -> Vmcs {
    match register {
        SegmentRegister::Cs => Vmcs::GuestCsBase,
        SegmentRegister::Ds => Vmcs::GuestDsBase,
        SegmentRegister::Es => Vmcs::GuestEsBase,
        SegmentRegister::Fs => Vmcs::GuestFsBase,
        SegmentRegister::Gs => Vmcs::GuestGsBase,
        SegmentRegister::Ss => Vmcs::GuestSsBase,
        SegmentRegister::Tr => Vmcs::GuestTrBase,
        SegmentRegister::Ldt => Vmcs::GuestLdtrBase,
    }
}

/// The VMCS field holding a segment register's limit.
pub open spec fn limit_field(register: SegmentRegister) -> Vmcs {
    match register {
        SegmentRegister::Cs => Vmcs::GuestCsLimit,
        SegmentRegister::Ds => Vmcs::GuestDsLimit,
        SegmentRegister::Es => Vmcs::GuestEsLimit,
        SegmentRegister::Fs => Vmcs::GuestFsLimit,
        SegmentRegister::Gs => Vmcs::GuestGsLimit,
        SegmentRegister::Ss => Vmcs::GuestSsLimit,
        SegmentRegister::Tr => Vmcs::GuestTrLimit,
        SegmentRegister::Ldt => Vmcs::GuestLdtrLimit,
    }
}

/// The VMCS field holding a segment register's access rights.
pub open spec fn access_rights_field(register: SegmentRegister) -> Vmcs {
    match register {
        SegmentRegister::Cs => Vmcs::GuestCsAccessRights,
        SegmentRegister::Ds => Vmcs::GuestDsAccessRights,
        SegmentRegister::Es => Vmcs::GuestEsAccessRights,
        SegmentRegister::Fs => Vmcs::GuestFsAccessRights,
        SegmentRegister::Gs => Vmcs::GuestGsAccessRights,
        SegmentRegister::Ss => Vmcs::GuestSsAccessRights,
        SegmentRegister::Tr => Vmcs::GuestTrAccessRights,
        SegmentRegister::Ldt => Vmcs::GuestLdtrAccessRights,
    }
}

/// The four VMCS fields (selector, base, limit, access rights) of a segment
/// register.
pub fn segment_fields(register: &SegmentRegister) -> (r: (Vmcs, Vmcs, Vmcs, Vmcs))
    ensures
        r.0 == selector_field(*register),
        r.1 == base_field(*register),
        r.2 == limit_field(*register),
        r.3 == access_rights_field(*register),
{
    match register {
        SegmentRegister::Cs => (
            Vmcs::GuestCs,
            Vmcs::GuestCsBase,
            Vmcs::GuestCsLimit,
            Vmcs::GuestCsAccessRights,
        ),
        SegmentRegister::Ds => (
            Vmcs::GuestDs,
            Vmcs::GuestDsBase,
            Vmcs::GuestDsLimit,
            Vmcs::GuestDsAccessRights,
        ),
        SegmentRegister::Es => (
            Vmcs::GuestEs,
            Vmcs::GuestEsBase,
            Vmcs::GuestEsLimit,
            Vmcs::GuestEsAccessRights,
        ),
        SegmentRegister::Fs => (
            Vmcs::GuestFs,
            Vmcs::GuestFsBase,
            Vmcs::GuestFsLimit,
            Vmcs::GuestFsAccessRights,
        ),
        SegmentRegister::Gs => (
            Vmcs::GuestGs,
            Vmcs::GuestGsBase,
            Vmcs::GuestGsLimit,
            Vmcs::GuestGsAccessRights,
        ),
        SegmentRegister::Ss => (
            Vmcs::GuestSs,
            Vmcs::GuestSsBase,
            Vmcs::GuestSsLimit,
            Vmcs::GuestSsAccessRights,
        ),
        SegmentRegister::Tr => (
            Vmcs::GuestTr,
            Vmcs::GuestTrBase,
            Vmcs::GuestTrLimit,
            Vmcs::GuestTrAccessRights,
        ),
        SegmentRegister::Ldt => (
            Vmcs::GuestLdtr,
            Vmcs::GuestLdtrBase,
            Vmcs::GuestLdtrLimit,
            Vmcs::GuestLdtrAccessRights,
        ),
    }
}

/// The VMCS field holding a descriptor table's base.
pub open spec fn dt_base_field(register: DescriptorTableRegister) -> Vmcs {
    match register {
        DescriptorTableRegister::Gdt => Vmcs::GuestGdtrBase,
        DescriptorTableRegister::Idt => Vmcs::GuestIdtrBase,
    }
}

/// The VMCS field holding a descriptor table's limit.
pub open spec fn dt_limit_field(register: DescriptorTableRegister) -> Vmcs {
    match register {
        DescriptorTableRegister::Gdt => Vmcs::GuestGdtrLimit,
        DescriptorTableRegister::Idt => Vmcs::GuestIdtrLimit,
    }
}

/// The two VMCS fields (base, limit) of a descriptor table register.
pub fn descriptor_table_fields(register: &DescriptorTableRegister) -> (r: (Vmcs, Vmcs))
    ensures
        r.0 == dt_base_field(*register),
        r.1 == dt_limit_field(*register),
{
    match register {
        DescriptorTableRegister::Gdt => (Vmcs::GuestGdtrBase, Vmcs::GuestGdtrLimit),
        DescriptorTableRegister::Idt => (Vmcs::GuestIdtrBase, Vmcs::GuestIdtrLimit),
    }
}

/// The segment descriptor that the VMCS image holds for a segment register.
pub open spec fn spec_read_segment(v: VmcsStore, register: SegmentRegister) -> Segment {
    spec_segment_from_parts(
        spec_vmcs_read(v, base_field(register)),
        spec_vmcs_read(v, limit_field(register)) as u32,
        spec_vmcs_read(v, selector_field(register)) as u16,
        spec_vmcs_read(v, access_rights_field(register)) as u32,
    )
}

/// The VMCS image after storing a segment descriptor for a segment
/// register.
pub open spec fn spec_write_segment(v: VmcsStore, register: SegmentRegister, segment: Segment) -> VmcsStore {
    spec_vmcs_write(
        spec_vmcs_write(
            spec_vmcs_write(
                spec_vmcs_write(v, selector_field(register), segment.selector as u64),
                base_field(register),
                segment.base,
            ),
            limit_field(register),
            segment.limit as u64,
        ),
        access_rights_field(register),
        spec_access_rights(segment) as u64,
    )
}

/// The descriptor table that the VMCS image holds for a descriptor table
/// register.
pub open spec fn spec_read_dtable(v: VmcsStore, register: DescriptorTableRegister) -> DescriptorTable {
    DescriptorTable {
        base: spec_vmcs_read(v, dt_base_field(register)),
        limit: spec_vmcs_read(v, dt_limit_field(register)) as u16,
    }
}

/// The VMCS image after storing a descriptor table.
pub open spec fn spec_write_dtable(v: VmcsStore, register: DescriptorTableRegister, value: DescriptorTable) -> VmcsStore {
    spec_vmcs_write(
        spec_vmcs_write(v, dt_base_field(register), value.base),
        dt_limit_field(register),
        value.limit as u64,
    )
}

/// The register file after a sequence of general-purpose register writes,
/// in order.
pub open spec fn regs_after_gp_writes(regs: RegFile, registers: Seq<Register>, values: Seq<u64>) -> RegFile
    decreases registers.len(),
{
    if registers.len() == 0 || values.len() == 0 {
        regs
    } else {
        regs_after_gp_writes(
            spec_reg_write(regs, hv_register_for(registers[0]), values[0]),
            registers.skip(1),
            values.skip(1),
        )
    }
}

/// The value that the uniform API reads for a control register: CR1 and CR8
/// are not stored and read as 0, and the VMX-enable bit of CR4 is masked
/// off, invisible to the caller.
pub open spec fn spec_control_read(regs: RegFile, register: ControlRegister) -> u64 {
    match register {
        ControlRegister::Cr0 => spec_reg_read(regs, hv_x86_reg_t::HV_X86_CR0),
        ControlRegister::Cr1 => 0,
        ControlRegister::Cr2 => spec_reg_read(regs, hv_x86_reg_t::HV_X86_CR2),
        ControlRegister::Cr3 => spec_reg_read(regs, hv_x86_reg_t::HV_X86_CR3),
        ControlRegister::Cr4 => spec_reg_read(regs, hv_x86_reg_t::HV_X86_CR4) & !CR4_VMXE,
        ControlRegister::Cr8 => 0,
    }
}

/// The register file after one control-register write: CR1 and CR8 writes
/// are discarded, and the VMX-enable bit is forced into every CR4 value
/// written.
pub open spec fn spec_control_write(regs: RegFile, register: ControlRegister, value: u64) -> RegFile {
    match register {
        ControlRegister::Cr0 => spec_reg_write(regs, hv_x86_reg_t::HV_X86_CR0, value),
        ControlRegister::Cr1 => regs,
        ControlRegister::Cr2 => spec_reg_write(regs, hv_x86_reg_t::HV_X86_CR2, value),
        ControlRegister::Cr3 => spec_reg_write(regs, hv_x86_reg_t::HV_X86_CR3, value),
        ControlRegister::Cr4 => spec_reg_write(regs, hv_x86_reg_t::HV_X86_CR4, value | CR4_VMXE),
        ControlRegister::Cr8 => regs,
    }
}

/// The register file after a sequence of control-register writes, in order.
pub open spec fn regs_after_control_writes(regs: RegFile, registers: Seq<ControlRegister>, values: Seq<u64>) -> RegFile
    decreases registers.len(),
{
    if registers.len() == 0 || values.len() == 0 {
        regs
    } else {
        regs_after_control_writes(
            spec_control_write(regs, registers[0], values[0]),
            registers.skip(1),
            values.skip(1),
        )
    }
}

/// The value that the uniform API reads for a model-specific register: EFER
/// lives in the VMCS image, every other register in the table.
pub open spec fn spec_msr_read(cpu: Vcpu, register: u32) -> u64 {
    if register == MSR_IA32_EFER {
        spec_vmcs_read(cpu.vmcs, Vmcs::GuestEfer)
    } else {
        spec_msr_lookup(cpu.msrs.table(), register)
    }
}

/// The VMCS image and register table after one model-specific-register
/// write. A write of EFER with the long-mode-enable bit also sets the
/// long-mode-active bit and joins the IA-32e bit into the VM-entry
/// controls, so that the guest enters as a 64-bit guest.
pub open spec fn msr_write_one(vmcs: VmcsStore, msrs: Map<u32, u64>, register: u32, value: u64) -> (VmcsStore, Map<u32, u64>) {
    if register == MSR_IA32_EFER {
        let flags = spec_vmcs_read(vmcs, Vmcs::VmEntryControls);
        let lme = value & EFER_LME == EFER_LME;
        let value2 = if lme {
            value | EFER_LMA
        } else {
            value
        };
        let flags2 = if lme {
            flags | (VM_ENTRY_GUEST_IA32E as u64)
        } else {
            flags
        };
        (spec_vmcs_write(spec_vmcs_write(vmcs, Vmcs::VmEntryControls, flags2), Vmcs::GuestEfer, value2), msrs)
    } else {
        (vmcs, msrs.insert(register, value))
    }
}

/// The VMCS image and register table after a sequence of
/// model-specific-register writes, in order.
pub open spec fn state_after_msr_writes(vmcs: VmcsStore, msrs: Map<u32, u64>, registers: Seq<u32>, values: Seq<u64>) -> (VmcsStore, Map<u32, u64>)
    decreases registers.len(),
{
    if registers.len() == 0 || values.len() == 0 {
        (vmcs, msrs)
    } else {
        let step = msr_write_one(vmcs, msrs, registers[0], values[0]);
        state_after_msr_writes(step.0, step.1, registers.skip(1), values.skip(1))
    }
}

/// The VMCS image after a sequence of segment-register writes, in order.
pub open spec fn vmcs_after_segment_writes(v: VmcsStore, registers: Seq<SegmentRegister>, values: Seq<Segment>) -> VmcsStore
    decreases registers.len(),
{
    if registers.len() == 0 || values.len() == 0 {
        v
    } else {
        vmcs_after_segment_writes(
            spec_write_segment(v, registers[0], values[0]),
            registers.skip(1),
            values.skip(1),
        )
    }
}

/// The VMCS image after a sequence of descriptor-table writes, in order.
pub open spec fn vmcs_after_dtable_writes(v: VmcsStore, registers: Seq<DescriptorTableRegister>, values: Seq<DescriptorTable>) -> VmcsStore
    decreases registers.len(),
{
    if registers.len() == 0 || values.len() == 0 {
        v
    } else {
        vmcs_after_dtable_writes(
            spec_write_dtable(v, registers[0], values[0]),
            registers.skip(1),
            values.skip(1),
        )
    }
}

impl Vcpu {
    /// Gets the general-purpose registers named by `registers`, in order.
    pub fn get_registers(&self, registers: &[Register]) -> (r: Result<Vec<u64>, Error>)
        ensures
            (r matches Ok(values) && values@.len() == registers@.len() && forall|j: int|
                0 <= j < registers@.len() ==> values@[j] == spec_reg_read(
                    self.regs,
                    hv_register_for(registers@[j]),
                )),
    {
        let mut values: Vec<u64> = Vec::new();
        let n = registers.len();
        let mut i: usize = 0;
        while i < n
            invariant
                n == registers@.len(),
                i <= n,
                values@.len() == i,
                forall|j: int|
                    0 <= j < i ==> values@[j] == spec_reg_read(
                        self.regs,
                        hv_register_for(registers@[j]),
                    ),
            decreases n - i,
        {
            values.push(self.read_register(register_id(&registers[i])));
            i = i + 1;
        }
        Ok(values)
    }

    /// Sets the general-purpose registers named by `registers` to the
    /// corresponding values; the two slices are zipped positionally, so
    /// their lengths must match.
    pub fn set_registers(&mut self, registers: &[Register], values: &[u64]) -> (r: Result<
        (),
        Error,
    >)
        requires
            registers@.len() == values@.len(),
        ensures
            r is Ok,
            final(self).regs == regs_after_gp_writes(old(self).regs, registers@, values@),
            final(self).vmcs == old(self).vmcs,
            final(self).msrs == old(self).msrs,
            final(self).native_msrs == old(self).native_msrs,
    {
        let n = registers.len();
        let mut i: usize = 0;
        proof {
            assert(registers@.skip(0) =~= registers@);
            assert(values@.skip(0) =~= values@);
        }
        while i < n
            invariant
                n == registers@.len(),
                registers@.len() == values@.len(),
                i <= n,
                regs_after_gp_writes(self.regs, registers@.skip(i as int), values@.skip(i as int))
                    == regs_after_gp_writes(old(self).regs, registers@, values@),
                self.vmcs == old(self).vmcs,
                self.msrs == old(self).msrs,
                self.native_msrs == old(self).native_msrs,
            decreases n - i,
        {
            proof {
                assert(registers@.skip(i as int).skip(1) =~= registers@.skip(i as int + 1));
                assert(values@.skip(i as int).skip(1) =~= values@.skip(i as int + 1));
                assert(registers@.skip(i as int)[0] == registers@[i as int]);
                assert(values@.skip(i as int)[0] == values@[i as int]);
            }
            self.write_register(register_id(&registers[i]), values[i]);
            i = i + 1;
        }
        proof {
            assert(registers@.skip(n as int) =~= Seq::<Register>::empty());
        }
        Ok(())
    }

    /// Gets the control registers named by `registers`, in order. CR1 and
    /// CR8 read as 0; the VMX-enable bit of CR4 is masked off.
    pub fn get_control_registers(&self, registers: &[ControlRegister]) -> (r: Result<
        Vec<u64>,
        Error,
    >)
        ensures
            (r matches Ok(values) && values@.len() == registers@.len() && forall|j: int|
                0 <= j < registers@.len() ==> values@[j] == spec_control_read(
                    self.regs,
                    registers@[j],
                )),
    {
        let mut values: Vec<u64> = Vec::new();
        let n = registers.len();
        let mut i: usize = 0;
        while i < n
            invariant
                n == registers@.len(),
                i <= n,
                values@.len() == i,
                forall|j: int|
                    0 <= j < i ==> values@[j] == spec_control_read(self.regs, registers@[j]),
            decreases n - i,
        {
            let value = match registers[i] {
                ControlRegister::Cr0 => self.read_register(hv_x86_reg_t::HV_X86_CR0),
                ControlRegister::Cr1 => 0,
                ControlRegister::Cr2 => self.read_register(hv_x86_reg_t::HV_X86_CR2),
                ControlRegister::Cr3 => self.read_register(hv_x86_reg_t::HV_X86_CR3),
                ControlRegister::Cr4 => self.read_register(hv_x86_reg_t::HV_X86_CR4) & !CR4_VMXE,
                ControlRegister::Cr8 => 0,
            };
            values.push(value);
            i = i + 1;
        }
        Ok(values)
    }

    /// Sets the control registers named by `registers` to the corresponding
    /// values; the lengths must match. Writes to CR1 and CR8 are discarded;
    /// the VMX-enable bit is forced into every CR4 value written.
    pub fn set_control_registers(&mut self, registers: &[ControlRegister], values: &[u64]) -> (r:
        Result<(), Error>)
        requires
            registers@.len() == values@.len(),
        ensures
            r is Ok,
            final(self).regs == regs_after_control_writes(old(self).regs, registers@, values@),
            final(self).vmcs == old(self).vmcs,
            final(self).msrs == old(self).msrs,
            final(self).native_msrs == old(self).native_msrs,
    {
        let n = registers.len();
        let mut i: usize = 0;
        proof {
            assert(registers@.skip(0) =~= registers@);
            assert(values@.skip(0) =~= values@);
        }
        while i < n
            invariant
                n == registers@.len(),
                registers@.len() == values@.len(),
                i <= n,
                regs_after_control_writes(
                    self.regs,
                    registers@.skip(i as int),
                    values@.skip(i as int),
                ) == regs_after_control_writes(old(self).regs, registers@, values@),
                self.vmcs == old(self).vmcs,
                self.msrs == old(self).msrs,
                self.native_msrs == old(self).native_msrs,
            decreases n - i,
        {
            proof {
                assert(registers@.skip(i as int).skip(1) =~= registers@.skip(i as int + 1));
                assert(values@.skip(i as int).skip(1) =~= values@.skip(i as int + 1));
                assert(registers@.skip(i as int)[0] == registers@[i as int]);
                assert(values@.skip(i as int)[0] == values@[i as int]);
            }
            let value = values[i];
            match registers[i] {
                ControlRegister::Cr0 => {
                    self.write_register(hv_x86_reg_t::HV_X86_CR0, value);
                },
                ControlRegister::Cr1 => {},
                ControlRegister::Cr2 => {
                    self.write_register(hv_x86_reg_t::HV_X86_CR2, value);
                },
                ControlRegister::Cr3 => {
                    self.write_register(hv_x86_reg_t::HV_X86_CR3, value);
                },
                ControlRegister::Cr4 => {
                    self.write_register(hv_x86_reg_t::HV_X86_CR4, value | CR4_VMXE);
                },
                ControlRegister::Cr8 => {},
            }
            i = i + 1;
        }
        proof {
            assert(registers@.skip(n as int) =~= Seq::<ControlRegister>::empty());
        }
        Ok(())
    }

    /// Gets the model-specific registers named by `registers`, in order.
    /// EFER comes from the VMCS image; a register never written reads as 0.
    pub fn get_msrs(&self, registers: &[u32]) -> (r: Result<Vec<u64>, Error>)
        ensures
            (r matches Ok(values) && values@.len() == registers@.len() && forall|j: int|
                0 <= j < registers@.len() ==> values@[j] == spec_msr_read(*self, registers@[j])),
    {
        let mut values: Vec<u64> = Vec::new();
        let n = registers.len();
        let mut i: usize = 0;
        while i < n
            invariant
                n == registers@.len(),
                i <= n,
                values@.len() == i,
                forall|j: int| 0 <= j < i ==> values@[j] == spec_msr_read(*self, registers@[j]),
            decreases n - i,
        {
            let register = registers[i];
            let value = if register == MSR_IA32_EFER {
                self.read_vmcs(Vmcs::GuestEfer)
            } else {
                self.read_msr(register)
            };
            values.push(value);
            i = i + 1;
        }
        Ok(values)
    }

    /// Sets the model-specific registers named by `registers` to the
    /// corresponding values; the lengths must match. A write of EFER with
    /// the long-mode-enable bit also sets the long-mode-active bit and joins
    /// the IA-32e bit into the VM-entry controls.
    pub fn set_msrs(&mut self, registers: &[u32], values: &[u64]) -> (r: Result<(), Error>)
        requires
            registers@.len() == values@.len(),
        ensures
            r is Ok,
            final(self).vmcs == state_after_msr_writes(
                old(self).vmcs,
                old(self).msrs.table(),
                registers@,
                values@,
            ).0,
            final(self).msrs.table() == state_after_msr_writes(
                old(self).vmcs,
                old(self).msrs.table(),
                registers@,
                values@,
            ).1,
            final(self).regs == old(self).regs,
            final(self).native_msrs == old(self).native_msrs,
    {
        let n = registers.len();
        let mut i: usize = 0;
        proof {
            assert(registers@.skip(0) =~= registers@);
            assert(values@.skip(0) =~= values@);
        }
        while i < n
            invariant
                n == registers@.len(),
                registers@.len() == values@.len(),
                i <= n,
                state_after_msr_writes(
                    self.vmcs,
                    self.msrs.table(),
                    registers@.skip(i as int),
                    values@.skip(i as int),
                ) == state_after_msr_writes(
                    old(self).vmcs,
                    old(self).msrs.table(),
                    registers@,
                    values@,
                ),
                self.regs == old(self).regs,
                self.native_msrs == old(self).native_msrs,
            decreases n - i,
        {
            proof {
                assert(registers@.skip(i as int).skip(1) =~= registers@.skip(i as int + 1));
                assert(values@.skip(i as int).skip(1) =~= values@.skip(i as int + 1));
                assert(registers@.skip(i as int)[0] == registers@[i as int]);
                assert(values@.skip(i as int)[0] == values@[i as int]);
            }
            let register = registers[i];
            let value = values[i];
            if register == MSR_IA32_EFER {
                let mut flags = self.read_vmcs(Vmcs::VmEntryControls);
                let mut value2 = value;

                // If the long mode enable bit is set, we should make sure to
                // set the active bit and to load the guest as a 64-bit
                // guest.
                if value & EFER_LME == EFER_LME {
                    value2 = value | EFER_LMA;
                    flags = flags | (VM_ENTRY_GUEST_IA32E as u64);
                }

                self.write_vmcs(Vmcs::VmEntryControls, flags);
                self.write_vmcs(Vmcs::GuestEfer, value2);
            } else {
                self.write_msr(register, value);
            }
            i = i + 1;
        }
        proof {
            assert(registers@.skip(n as int) =~= Seq::<u32>::empty());
        }
        Ok(())
    }

    /// Gets the segment registers named by `registers`, in order, decoding
    /// each from its selector, base, limit and access-rights fields.
    pub fn get_segment_registers(&self, registers: &[SegmentRegister]) -> (r: Result<
        Vec<Segment>,
        Error,
    >)
        ensures
            (r matches Ok(values) && values@.len() == registers@.len() && forall|j: int|
                0 <= j < registers@.len() ==> values@[j] == spec_read_segment(
                    self.vmcs,
                    registers@[j],
                )),
    {
        let mut segments: Vec<Segment> = Vec::new();
        let n = registers.len();
        let mut i: usize = 0;
        while i < n
            invariant
                n == registers@.len(),
                i <= n,
                segments@.len() == i,
                forall|j: int|
                    0 <= j < i ==> segments@[j] == spec_read_segment(self.vmcs, registers@[j]),
            decreases n - i,
        {
            let fields = segment_fields(&registers[i]);

            let selector = self.read_vmcs(fields.0);
            let base = self.read_vmcs(fields.1);
            let limit = self.read_vmcs(fields.2);
            let ar = self.read_vmcs(fields.3);

            segments.push(segment_from_parts(base, limit as u32, selector as u16, ar as u32));
            i = i + 1;
        }
        Ok(segments)
    }

    /// Sets the segment registers named by `registers` to the corresponding
    /// descriptors; the lengths must match. Each descriptor's flag fields
    /// are packed into the access-rights word.
    pub fn set_segment_registers(&mut self, registers: &[SegmentRegister], values: &[Segment]) -> (r: Result<(), Error>)
        requires
            registers@.len() == values@.len(),
        ensures
            r is Ok,
            final(self).vmcs == vmcs_after_segment_writes(old(self).vmcs, registers@, values@),
            final(self).regs == old(self).regs,
            final(self).msrs == old(self).msrs,
            final(self).native_msrs == old(self).native_msrs,
    {
        let n = registers.len();
        let mut i: usize = 0;
        proof {
            assert(registers@.skip(0) =~= registers@);
            assert(values@.skip(0) =~= values@);
        }
        while i < n
            invariant
                n == registers@.len(),
                registers@.len() == values@.len(),
                i <= n,
                vmcs_after_segment_writes(
                    self.vmcs,
                    registers@.skip(i as int),
                    values@.skip(i as int),
                ) == vmcs_after_segment_writes(old(self).vmcs, registers@, values@),
                self.regs == old(self).regs,
                self.msrs == old(self).msrs,
                self.native_msrs == old(self).native_msrs,
            decreases n - i,
        {
            proof {
                assert(registers@.skip(i as int).skip(1) =~= registers@.skip(i as int + 1));
                assert(values@.skip(i as int).skip(1) =~= values@.skip(i as int + 1));
                assert(registers@.skip(i as int)[0] == registers@[i as int]);
                assert(values@.skip(i as int)[0] == values@[i as int]);
            }
            let segment = values[i];
            let fields = segment_fields(&registers[i]);

            self.write_vmcs(fields.0, segment.selector as u64);
            self.write_vmcs(fields.1, segment.base);
            self.write_vmcs(fields.2, segment.limit as u64);

            let ar = access_rights(&segment);
            self.write_vmcs(fields.3, ar as u64);
            i = i + 1;
        }
        proof {
            assert(registers@.skip(n as int) =~= Seq::<SegmentRegister>::empty());
        }
        Ok(())
    }

    /// Gets the descriptor tables named by `registers`, in order.
    pub fn get_descriptor_tables(&self, registers: &[DescriptorTableRegister]) -> (r: Result<
        Vec<DescriptorTable>,
        Error,
    >)
        ensures
            (r matches Ok(values) && values@.len() == registers@.len() && forall|j: int|
                0 <= j < registers@.len() ==> values@[j] == spec_read_dtable(
                    self.vmcs,
                    registers@[j],
                )),
    {
        let mut values: Vec<DescriptorTable> = Vec::new();
        let n = registers.len();
        let mut i: usize = 0;
        while i < n
            invariant
                n == registers@.len(),
                i <= n,
                values@.len() == i,
                forall|j: int|
                    0 <= j < i ==> values@[j] == spec_read_dtable(self.vmcs, registers@[j]),
            decreases n - i,
        {
            let fields = descriptor_table_fields(&registers[i]);

            let base = self.read_vmcs(fields.0);
            let limit = self.read_vmcs(fields.1);

            values.push(DescriptorTable { base, limit: limit as u16 });
            i = i + 1;
        }
        Ok(values)
    }

    /// Sets the descriptor tables named by `registers` to the corresponding
    /// values; the lengths must match.
    pub fn set_descriptor_tables(&mut self, registers: &[DescriptorTableRegister], values: &[DescriptorTable]) -> (r: Result<(), Error>)
        requires
            registers@.len() == values@.len(),
        ensures
            r is Ok,
            final(self).vmcs == vmcs_after_dtable_writes(old(self).vmcs, registers@, values@),
            final(self).regs == old(self).regs,
            final(self).msrs == old(self).msrs,
            final(self).native_msrs == old(self).native_msrs,
    {
        let n = registers.len();
        let mut i: usize = 0;
        proof {
            assert(registers@.skip(0) =~= registers@);
            assert(values@.skip(0) =~= values@);
        }
        while i < n
            invariant
                n == registers@.len(),
                registers@.len() == values@.len(),
                i <= n,
                vmcs_after_dtable_writes(
                    self.vmcs,
                    registers@.skip(i as int),
                    values@.skip(i as int),
                ) == vmcs_after_dtable_writes(old(self).vmcs, registers@, values@),
                self.regs == old(self).regs,
                self.msrs == old(self).msrs,
                self.native_msrs == old(self).native_msrs,
            decreases n - i,
        {
            proof {
                assert(registers@.skip(i as int).skip(1) =~= registers@.skip(i as int + 1));
                assert(values@.skip(i as int).skip(1) =~= values@.skip(i as int + 1));
                assert(registers@.skip(i as int)[0] == registers@[i as int]);
                assert(values@.skip(i as int)[0] == values@[i as int]);
            }
            let value = values[i];
            let fields = descriptor_table_fields(&registers[i]);

            self.write_vmcs(fields.0, value.base);
            self.write_vmcs(fields.1, value.limit as u64);
            i = i + 1;
        }
        proof {
            assert(registers@.skip(n as int) =~= Seq::<DescriptorTableRegister>::empty());
        }
        Ok(())
    }
}

/// Storing a well-formed segment descriptor and reading it back through the
/// same segment register yields the descriptor unchanged.
pub proof fn lemma_segment_roundtrip(v: VmcsStore, register: SegmentRegister, segment: Segment)
    requires
        segment.wf(),
    ensures
        spec_read_segment(spec_write_segment(v, register, segment), register) == segment,
{
    lemma_access_rights_roundtrip(segment);
}

/// Law: for every general-purpose register, setting a value and then
/// getting that register yields the value written.
pub proof fn lemma_register_set_get(regs: RegFile, register: Register, value: u64)
    ensures
        spec_reg_read(
            regs_after_gp_writes(regs, seq![register], seq![value]),
            hv_register_for(register),
        ) == value,
{
    let rs = seq![register];
    let vs = seq![value];
    assert(rs[0] == register && vs[0] == value);
    let step = spec_reg_write(regs, hv_register_for(register), value);
    assert(regs_after_gp_writes(step, rs.skip(1), vs.skip(1)) == step);
    assert(regs_after_gp_writes(regs, rs, vs) == step);
}

/// Law: for every segment register, setting a well-formed descriptor and
/// then getting that register yields the descriptor written.
pub proof fn lemma_segment_set_get(v: VmcsStore, register: SegmentRegister, segment: Segment)
    requires
        segment.wf(),
    ensures
        spec_read_segment(
            vmcs_after_segment_writes(v, seq![register], seq![segment]),
            register,
        ) == segment,
{
    let rs = seq![register];
    let vs = seq![segment];
    assert(rs[0] == register && vs[0] == segment);
    let step = spec_write_segment(v, register, segment);
    assert(vmcs_after_segment_writes(step, rs.skip(1), vs.skip(1)) == step);
    assert(vmcs_after_segment_writes(v, rs, vs) == step);
    lemma_segment_roundtrip(v, register, segment);
}

/// Law: CR1 and CR8 are not stored by any backend this model stands for:
/// they read as 0 after any sequence of writes.
pub proof fn lemma_cr1_cr8_read_zero(regs: RegFile)
    ensures
        spec_control_read(regs, ControlRegister::Cr1) == 0,
        spec_control_read(regs, ControlRegister::Cr8) == 0,
{
}

/// Law: after a power-on reset the read-back state satisfies the
/// reset-vector contract: CS is selector F000 at base FFFF_0000 with limit
/// F_FFFF, RIP is FFF0 — so execution starts at linear FFFF_FFF0 — RFLAGS
/// holds only the reserved bit, the data and stack segments are flat with
/// limit F_FFFF, long mode is off, and the VMX-enable bit that the host
/// requires in CR4 stays invisible to the caller.
pub proof fn lemma_reset_vector_contract(cpu: Vcpu, post: Vcpu)
    requires
        post.vmcs == spec_reset_vmcs(cpu.vmcs),
        post.regs == spec_reset_regs(cpu.regs),
    ensures
        spec_read_segment(post.vmcs, SegmentRegister::Cs) == (Segment {
            base: 0xffff_0000,
            limit: 0xf_ffff,
            selector: 0xf000,
            segment_type: 0xb,
            non_system_segment: true,
            dpl: 0,
            present: true,
            available: false,
            long: false,
            default_size: false,
            granularity: false,
        }),
        spec_reg_read(post.regs, hv_x86_reg_t::HV_X86_RIP) == 0xfff0,
        spec_read_segment(post.vmcs, SegmentRegister::Cs).base + spec_reg_read(
            post.regs,
            hv_x86_reg_t::HV_X86_RIP,
        ) == 0xffff_fff0,
        spec_reg_read(post.regs, hv_x86_reg_t::HV_X86_RFLAGS) == 0x0002,
        spec_read_segment(post.vmcs, SegmentRegister::Ds) == flat_data_segment(),
        spec_read_segment(post.vmcs, SegmentRegister::Es) == flat_data_segment(),
        spec_read_segment(post.vmcs, SegmentRegister::Fs) == flat_data_segment(),
        spec_read_segment(post.vmcs, SegmentRegister::Gs) == flat_data_segment(),
        spec_read_segment(post.vmcs, SegmentRegister::Ss) == flat_data_segment(),
        spec_vmcs_read(post.vmcs, Vmcs::GuestEfer) == 0,
        spec_control_read(post.regs, ControlRegister::Cr0) == 0,
        spec_control_read(post.regs, ControlRegister::Cr4) == 0,
{
    assert((0x9bu32 & 0xf) == 0xb && ((0x9bu32 >> 4) & 1) == 1 && ((0x9bu32 >> 5) & 0x3) == 0 && (
    (0x9bu32 >> 7) & 1) == 1 && ((0x9bu32 >> 12) & 1) == 0 && ((0x9bu32 >> 13) & 1) == 0 && ((
    0x9bu32 >> 14) & 1) == 0 && ((0x9bu32 >> 15) & 1) == 0) by (bit_vector);
    assert((0x93u32 & 0xf) == 0x3 && ((0x93u32 >> 4) & 1) == 1 && ((0x93u32 >> 5) & 0x3) == 0 && (
    (0x93u32 >> 7) & 1) == 1 && ((0x93u32 >> 12) & 1) == 0 && ((0x93u32 >> 13) & 1) == 0 && ((
    0x93u32 >> 14) & 1) == 0 && ((0x93u32 >> 15) & 1) == 0) by (bit_vector);
    assert((0x2000u64 & !0x2000u64) == 0) by (bit_vector);
    assert(CR4_VMXE == 0x2000u64) by (bit_vector);
}

/// The flat data segment that every data and stack segment holds after a
/// power-on reset.
pub open spec fn flat_data_segment() -> Segment {
    Segment {
        base: 0,
        limit: 0xf_ffff,
        selector: 0,
        segment_type: 0x3,
        non_system_segment: true,
        dpl: 0,
        present: true,
        available: false,
        long: false,
        default_size: false,
        granularity: false,
    }
}

} // verus!
