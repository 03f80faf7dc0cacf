//! Tests of the virtual-CPU model: the power-on reset state, register and
//! segment round-trips, the EFER long-mode special case, and the
//! translation of VMX exits.

use hy_rs::arch::x86_64::{
    ControlRegister, DescriptorTable, DescriptorTableRegister, Register, Segment, SegmentRegister,
    Vmcs, VmxReason, CR4_VMXE, EFER_LMA, EFER_LME, EFER_SCE, MSR_IA32_EFER, MSR_IA32_LSTAR,
    MSR_IA32_STAR, VM_ENTRY_GUEST_IA32E,
};
use hy_rs::vcpu::ExitReason;
use hy_rs::Hypervisor;

fn fresh_vcpu() -> hy_rs::Vcpu {
    let hypervisor = Hypervisor::new().unwrap();
    let mut vm = hypervisor.build_vm().unwrap().build("test").unwrap();
    vm.create_vcpu(0).unwrap()
}

#[test]
fn reset_satisfies_the_reset_vector_contract() {
    let vcpu = fresh_vcpu();

    let values = vcpu.get_registers(&[Register::Rip, Register::Rflags]).unwrap();
    assert_eq!(values, vec![0xfff0, 0x0002]);

    let segments = vcpu
        .get_segment_registers(&[SegmentRegister::Cs, SegmentRegister::Ds, SegmentRegister::Ss])
        .unwrap();
    let cs = segments[0];
    assert_eq!(cs.selector, 0xf000);
    assert_eq!(cs.base, 0xffff_0000);
    assert_eq!(cs.limit, 0xf_ffff);
    assert_eq!(cs.segment_type, 0xb);
    assert!(cs.non_system_segment);
    assert!(cs.present);
    assert_eq!(cs.dpl, 0);
    // Execution starts at the reset vector: CS base plus IP.
    assert_eq!(cs.base + values[0], 0xffff_fff0);

    for data_segment in &segments[1..] {
        assert_eq!(data_segment.selector, 0);
        assert_eq!(data_segment.base, 0);
        assert_eq!(data_segment.limit, 0xf_ffff);
        assert_eq!(data_segment.segment_type, 0x3);
        assert!(data_segment.present);
    }

    // Long mode is off, and the host-required CR4 bit is invisible.
    assert_eq!(vcpu.get_msrs(&[MSR_IA32_EFER]).unwrap(), vec![0]);
    assert_eq!(
        vcpu.get_control_registers(&[ControlRegister::Cr0, ControlRegister::Cr4]).unwrap(),
        vec![0, 0]
    );
    assert!(vcpu.native_msr_enabled(MSR_IA32_LSTAR));
    assert_eq!(vcpu.read_register(hy_rs::hvf::hv_x86_reg_t::HV_X86_CR4), CR4_VMXE);
}

#[test]
fn general_registers_roundtrip() {
    let mut vcpu = fresh_vcpu();
    let registers = [
        Register::Rax,
        Register::Rcx,
        Register::Rdx,
        Register::Rbx,
        Register::Rsp,
        Register::Rbp,
        Register::Rsi,
        Register::Rdi,
        Register::R8,
        Register::R9,
        Register::R10,
        Register::R11,
        Register::R12,
        Register::R13,
        Register::R14,
        Register::R15,
        Register::Rip,
        Register::Rflags,
    ];
    let values: Vec<u64> = (0..registers.len() as u64).map(|i| 0x1000 + i).collect();
    vcpu.set_registers(&registers, &values).unwrap();
    assert_eq!(vcpu.get_registers(&registers).unwrap(), values);
}

#[test]
fn cr1_and_cr8_read_zero_after_any_write() {
    let mut vcpu = fresh_vcpu();
    vcpu.set_control_registers(&[ControlRegister::Cr1, ControlRegister::Cr8], &[5, 7]).unwrap();
    assert_eq!(
        vcpu.get_control_registers(&[ControlRegister::Cr1, ControlRegister::Cr8]).unwrap(),
        vec![0, 0]
    );
}

#[test]
fn cr4_hides_the_vmx_enable_bit() {
    let mut vcpu = fresh_vcpu();
    vcpu.set_control_registers(&[ControlRegister::Cr4], &[0x20]).unwrap();
    // The caller sees the value it wrote; the forced bit stays internal.
    assert_eq!(vcpu.get_control_registers(&[ControlRegister::Cr4]).unwrap(), vec![0x20]);
    assert_eq!(
        vcpu.read_register(hy_rs::hvf::hv_x86_reg_t::HV_X86_CR4),
        0x20 | CR4_VMXE
    );
}

#[test]
fn segment_roundtrip_with_literal_fields() {
    let mut vcpu = fresh_vcpu();
    let written = Segment {
        base: 0xdead_0000,
        limit: 0xbeef,
        selector: 0x1337,
        segment_type: 0xb,
        non_system_segment: true,
        dpl: 3,
        present: true,
        available: false,
        long: true,
        default_size: false,
        granularity: true,
    };
    vcpu.set_segment_registers(&[SegmentRegister::Cs], &[written]).unwrap();
    let read = vcpu.get_segment_registers(&[SegmentRegister::Cs]).unwrap();
    assert_eq!(read, vec![written]);
}

#[test]
fn descriptor_tables_roundtrip() {
    let mut vcpu = fresh_vcpu();
    let gdt = DescriptorTable { base: 0x7000, limit: 0xff };
    let idt = DescriptorTable { base: 0x8000, limit: 0x7f };
    vcpu.set_descriptor_tables(
        &[DescriptorTableRegister::Gdt, DescriptorTableRegister::Idt],
        &[gdt, idt],
    )
    .unwrap();
    let read = vcpu
        .get_descriptor_tables(&[DescriptorTableRegister::Idt, DescriptorTableRegister::Gdt])
        .unwrap();
    assert_eq!(read, vec![idt, gdt]);
}

#[test]
fn efer_long_mode_enable_sets_the_active_bit_and_entry_control() {
    let mut vcpu = fresh_vcpu();
    vcpu.set_msrs(&[MSR_IA32_EFER], &[EFER_LME | EFER_SCE]).unwrap();
    assert_eq!(
        vcpu.get_msrs(&[MSR_IA32_EFER]).unwrap(),
        vec![EFER_LME | EFER_SCE | EFER_LMA]
    );
    assert_eq!(
        vcpu.read_vmcs(Vmcs::VmEntryControls) & (VM_ENTRY_GUEST_IA32E as u64),
        VM_ENTRY_GUEST_IA32E as u64
    );
}

#[test]
fn ordinary_msrs_roundtrip_and_unknown_ones_read_zero() {
    let mut vcpu = fresh_vcpu();
    vcpu.set_msrs(&[MSR_IA32_STAR], &[0x23_0010_0000]).unwrap();
    assert_eq!(
        vcpu.get_msrs(&[MSR_IA32_STAR, 0x9999]).unwrap(),
        vec![0x23_0010_0000, 0]
    );
}

#[test]
fn halt_exit_returns_halted_and_skips_the_instruction() {
    let mut vcpu = fresh_vcpu();
    vcpu.write_vmcs(Vmcs::ExitReason, VmxReason::Hlt.reason_code() as u64);
    let before = vcpu.get_registers(&[Register::Rip]).unwrap()[0];
    let exit = vcpu.handle_vmx_exit();
    assert!(matches!(exit, Some(ExitReason::Halted)));
    let after = vcpu.get_registers(&[Register::Rip]).unwrap()[0];
    assert_eq!(after, before + 1);
}

#[test]
fn triple_fault_exit_returns_unhandled_exception() {
    let mut vcpu = fresh_vcpu();
    vcpu.write_vmcs(Vmcs::ExitReason, VmxReason::TripleFault.reason_code() as u64);
    assert!(matches!(vcpu.handle_vmx_exit(), Some(ExitReason::UnhandledException)));
}

#[test]
fn bare_interrupt_exits_are_absorbed() {
    let mut vcpu = fresh_vcpu();
    vcpu.write_vmcs(Vmcs::ExitReason, VmxReason::Irq.reason_code() as u64);
    assert!(vcpu.handle_vmx_exit().is_none());
}

#[test]
fn ept_violation_carries_the_faulting_addresses() {
    let mut vcpu = fresh_vcpu();
    vcpu.write_vmcs(Vmcs::GuestPhysicalAddress, 0x1000);
    vcpu.write_vmcs(Vmcs::GuestLinearAddress, 0x1000);
    vcpu.write_vmcs(Vmcs::ExitReason, VmxReason::EptViolation.reason_code() as u64);
    assert!(matches!(
        vcpu.handle_vmx_exit(),
        Some(ExitReason::InvalidMemoryAccess { gpa: 0x1000, gva: 0x1000 })
    ));
}

#[test]
fn unlisted_exit_codes_are_unknown() {
    let mut vcpu = fresh_vcpu();
    // 35 is a gap in the architectural numbering.
    vcpu.write_vmcs(Vmcs::ExitReason, 35);
    assert!(matches!(vcpu.handle_vmx_exit(), Some(ExitReason::Unknown)));
    vcpu.write_vmcs(Vmcs::ExitReason, VmxReason::Cpuid.reason_code() as u64);
    assert!(matches!(vcpu.handle_vmx_exit(), Some(ExitReason::Unknown)));
}

#[test]
fn exit_reason_codes_are_masked_to_the_basic_reason() {
    let mut vcpu = fresh_vcpu();
    vcpu.write_vmcs(
        Vmcs::ExitReason,
        (VmxReason::Hlt.reason_code() as u64) | 0x8000_0000,
    );
    assert!(matches!(vcpu.handle_vmx_exit(), Some(ExitReason::Halted)));
}

#[test]
fn halt_at_the_reset_vector_end_to_end() {
    // A guest image with a single halt instruction at the reset vector:
    // 4 KiB at the top of the 32-bit address space, 0xf4 at offset 0xff0.
    let hypervisor = Hypervisor::new().unwrap();
    let mut vm = hypervisor.build_vm().unwrap().build("test").unwrap();
    let rwx = hy_rs::vm::ProtectionFlags::read()
        .union(hy_rs::vm::ProtectionFlags::write())
        .union(hy_rs::vm::ProtectionFlags::execute());
    vm.allocate_physical_memory(0xffff_f000, 4096, rwx).unwrap();
    vm.write_physical_memory(0xffff_f000 + 0xff0, &[0xf4]).unwrap();

    let mut vcpu = vm.create_vcpu(0).unwrap();

    // The freshly reset virtual CPU fetches from CS base plus RIP, which is
    // exactly where the halt instruction sits.
    let cs = vcpu.get_segment_registers(&[SegmentRegister::Cs]).unwrap()[0];
    let rip = vcpu.get_registers(&[Register::Rip]).unwrap()[0];
    let mut first_instruction = vec![0u8; 1];
    vm.read_physical_memory(&mut first_instruction, cs.base + rip).unwrap();
    assert_eq!(first_instruction, vec![0xf4]);

    // The halt exit surfaces as `Halted`, with the instruction skipped.
    vcpu.write_vmcs(Vmcs::ExitReason, VmxReason::Hlt.reason_code() as u64);
    assert!(matches!(vcpu.handle_vmx_exit(), Some(ExitReason::Halted)));
    assert_eq!(vcpu.get_registers(&[Register::Rip]).unwrap(), vec![rip + 1]);
}

#[test]
fn vmx_codes_and_vmcs_encodings_are_preserved() {
    assert_eq!(VmxReason::from_code(48), Some(VmxReason::EptViolation));
    assert_eq!(VmxReason::from_code(2), Some(VmxReason::TripleFault));
    assert_eq!(VmxReason::from_code(35), None);
    assert_eq!(VmxReason::Xrstors.reason_code(), 64);
    assert_eq!(Vmcs::GuestCs.code(), 0x0000_0802);
    assert_eq!(Vmcs::GuestCsBase.code(), 0x0000_6808);
    assert_eq!(Vmcs::ExitReason.code(), 0x0000_4402);
    assert_eq!(Vmcs::GuestPhysicalAddress.code(), 0x0000_2400);
}
