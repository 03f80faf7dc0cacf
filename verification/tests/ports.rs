//! Tests of the per-host marshalling layers: the KVM register blocks and
//! MSR batching, the bhyve wire encoding, the Windows Hypervisor Platform
//! name mapping, and the Hypervisor Framework status codes.

use hy_rs::arch::x86_64::{
    access_rights, segment_from_parts, ControlRegister, Register, Segment, SegmentRegister,
    MSR_IA32_EFER, MSR_IA32_STAR, MSR_IA32_SYSENTER_CS,
};
use hy_rs::bhyve;
use hy_rs::error::Error;
use hy_rs::hvf;
use hy_rs::kvm;
use hy_rs::vcpu::ExitReason;
use hy_rs::whp;

fn sample_segment() -> Segment {
    Segment {
        base: 0xdead_0000,
        limit: 0xbeef,
        selector: 0x1337,
        segment_type: 0xb,
        non_system_segment: true,
        dpl: 3,
        present: true,
        available: false,
        long: true,
        default_size: false,
        granularity: true,
    }
}

fn zero_kvm_regs() -> kvm::KvmRegs {
    kvm::KvmRegs {
        rax: 0,
        rcx: 0,
        rdx: 0,
        rbx: 0,
        rsp: 0,
        rbp: 0,
        rsi: 0,
        rdi: 0,
        r8: 0,
        r9: 0,
        r10: 0,
        r11: 0,
        r12: 0,
        r13: 0,
        r14: 0,
        r15: 0,
        rip: 0,
        rflags: 0,
    }
}

fn zero_kvm_sregs() -> kvm::KvmSregs {
    let segment = kvm::segment_to_kvm(&Segment::default());
    kvm::KvmSregs {
        cs: segment,
        ds: segment,
        es: segment,
        fs: segment,
        gs: segment,
        ss: segment,
        tr: segment,
        ldt: segment,
        gdt: kvm::KvmDtable { base: 0, limit: 0 },
        idt: kvm::KvmDtable { base: 0, limit: 0 },
        cr0: 0,
        cr2: 0,
        cr3: 0,
        cr4: 0,
        cr8: 0,
        efer: 0,
    }
}

#[test]
fn kvm_register_block_pick_and_apply() {
    let mut regs = zero_kvm_regs();
    kvm::kvm_set_registers(&mut regs, &[Register::Rax, Register::Rip], &[7, 8]);
    assert_eq!(regs.rax, 7);
    assert_eq!(regs.rip, 8);
    assert_eq!(
        kvm::kvm_get_registers(&regs, &[Register::Rip, Register::Rax, Register::R15]),
        vec![8, 7, 0]
    );
}

#[test]
fn kvm_cr1_reads_zero_and_swallows_writes() {
    let mut sregs = zero_kvm_sregs();
    kvm::kvm_set_control_registers(
        &mut sregs,
        &[ControlRegister::Cr1, ControlRegister::Cr8],
        &[5, 9],
    );
    assert_eq!(
        kvm::kvm_get_control_registers(
            &sregs,
            &[ControlRegister::Cr1, ControlRegister::Cr8, ControlRegister::Cr0]
        ),
        vec![0, 9, 0]
    );
}

#[test]
fn kvm_segment_encoding_roundtrips() {
    let segment = sample_segment();
    assert_eq!(kvm::segment_to_kvm(&segment).type_, 0xb);
    assert_eq!(kvm::segment_from_kvm(&kvm::segment_to_kvm(&segment)), segment);

    let mut sregs = zero_kvm_sregs();
    kvm::kvm_set_segment_registers(&mut sregs, &[SegmentRegister::Cs], &[segment]);
    assert_eq!(
        kvm::kvm_get_segment_registers(&sregs, &[SegmentRegister::Cs]),
        vec![segment]
    );
}

#[test]
fn kvm_msr_split_and_merge_preserve_request_order() {
    let registers = [MSR_IA32_SYSENTER_CS, MSR_IA32_EFER, MSR_IA32_STAR, MSR_IA32_EFER];
    let (entries, indices) = kvm::split_msrs(&registers);
    assert_eq!(entries, vec![MSR_IA32_SYSENTER_CS, MSR_IA32_STAR]);
    assert_eq!(indices, vec![1, 3]);

    let merged = kvm::merge_msr_values(&registers, &[11, 22], 99);
    assert_eq!(merged, vec![11, 99, 22, 99]);
}

#[test]
fn kvm_last_efer_value_wins() {
    let registers = [MSR_IA32_EFER, MSR_IA32_STAR, MSR_IA32_EFER];
    assert_eq!(kvm::find_last_efer(&registers, &[1, 2, 3]), Some(3));
    assert_eq!(kvm::find_last_efer(&[MSR_IA32_STAR], &[2]), None);
}

#[test]
fn kvm_exits_translate_to_portable_reasons() {
    let exit = kvm::translate_kvm_exit(kvm::KvmExit::IoOut { port: 0x42, data: vec![0xbe] });
    match exit {
        ExitReason::IoOut { port, data } => {
            assert_eq!(port, 0x42);
            assert_eq!(data, vec![0xbe]);
        },
        _ => panic!("an out instruction must surface as an IO out exit"),
    }
    assert!(matches!(
        kvm::translate_kvm_exit(kvm::KvmExit::Hlt),
        ExitReason::Halted
    ));
    assert!(matches!(
        kvm::translate_kvm_exit(kvm::KvmExit::Shutdown),
        ExitReason::UnhandledException
    ));
    assert!(matches!(
        kvm::translate_kvm_exit(kvm::KvmExit::Other),
        ExitReason::Unknown
    ));
}

#[test]
fn bhyve_exits_translate_to_portable_reasons() {
    assert!(matches!(
        bhyve::translate_bhyve_exit(bhyve::vm_exitcode::VM_EXITCODE_HLT),
        ExitReason::Halted
    ));
    assert!(matches!(
        bhyve::translate_bhyve_exit(bhyve::vm_exitcode::VM_EXITCODE_PAUSE),
        ExitReason::Unknown
    ));
}

#[test]
fn bhyve_segment_descriptor_roundtrips() {
    let segment = sample_segment();
    let desc = bhyve::seg_desc_of(&segment);
    assert_eq!(desc.base, segment.base);
    assert_eq!(desc.limit, segment.limit);
    assert_eq!(
        bhyve::segment_of_desc(segment.selector as u64, &desc),
        segment
    );
}

#[test]
fn bhyve_register_numbering() {
    assert_eq!(
        bhyve::bhyve_register(&Register::Rip),
        bhyve::vm_reg_name::VM_REG_GUEST_RIP
    );
    assert_eq!(
        bhyve::bhyve_control_register(&ControlRegister::Cr2),
        None
    );
    assert_eq!(
        bhyve::bhyve_msr_register(MSR_IA32_EFER),
        Some(bhyve::vm_reg_name::VM_REG_GUEST_EFER)
    );
    assert_eq!(bhyve::bhyve_msr_register(MSR_IA32_STAR), None);
}

#[test]
fn whp_exits_translate_to_portable_reasons() {
    assert!(matches!(
        whp::translate_whp_exit(whp::WhpExit::MemoryAccess { gpa: 0x1000, gva: 0x2000 }),
        ExitReason::InvalidMemoryAccess { gpa: 0x1000, gva: 0x2000 }
    ));
    assert!(matches!(
        whp::translate_whp_exit(whp::WhpExit::X64Halt),
        ExitReason::Halted
    ));
    assert!(matches!(
        whp::translate_whp_exit(whp::WhpExit::UnrecoverableException),
        ExitReason::UnhandledException
    ));
}

#[test]
fn whp_skipped_identifiers_read_zero_at_their_index() {
    assert!(whp::whp_control_register(&ControlRegister::Cr1).is_none());
    assert!(whp::whp_msr_register(0x9999).is_none());
    assert_eq!(
        whp::insert_zeros(vec![11, 22], &[1, 3]),
        vec![11, 0, 22, 0]
    );
    assert_eq!(whp::insert_zeros(vec![], &[0]), vec![0]);
}

#[test]
fn hvf_status_codes_map_onto_the_error_type() {
    assert!(hvf::into_result(hvf::HV_SUCCESS).is_ok());
    let error = hvf::into_result(hvf::HV_BUSY).unwrap_err();
    assert!(matches!(error, Error::HypervisorError(code) if code == hvf::HV_BUSY));
    assert_eq!(error.describe(), "hypervisor framework error");
}

#[test]
fn access_rights_pack_the_documented_layout() {
    let segment = sample_segment();
    // type 0xb | S << 4 | DPL 3 << 5 | P << 7 | L << 13 | G << 15.
    assert_eq!(access_rights(&segment), 0xb | 0x10 | 0x60 | 0x80 | 0x2000 | 0x8000);
    assert_eq!(
        segment_from_parts(segment.base, segment.limit, segment.selector, access_rights(&segment)),
        segment
    );
}
