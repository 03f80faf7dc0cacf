//! Tests of the guest-physical-memory lifecycle: allocation, overlap
//! rejection, slot reuse, saturating reads and writes, and protection
//! changes.

use hy_rs::error::Error;
use hy_rs::vm::{PageAllocator, ProtectionFlags, KVM_MEM_READONLY};
use hy_rs::Hypervisor;

fn fresh_vm() -> hy_rs::Vm {
    let hypervisor = Hypervisor::new().unwrap();
    let builder = hypervisor.build_vm().unwrap();
    let builder = builder.with_vcpu_count(2).unwrap();
    builder.build("test").unwrap()
}

fn rw() -> ProtectionFlags {
    ProtectionFlags::read().union(ProtectionFlags::write())
}

#[test]
fn build_vm_starts_empty() {
    let vm = fresh_vm();
    assert_eq!(vm.segments.len(), 0);
    assert_eq!(vm.available_slots.len(), 0);
}

#[test]
fn unmapped_addresses_fail_with_invalid_guest_address() {
    let mut vm = fresh_vm();
    assert!(matches!(
        vm.unmap_physical_memory(0x9000),
        Err(Error::InvalidGuestAddress)
    ));
    assert!(matches!(
        vm.protect_physical_memory(0x9000, rw()),
        Err(Error::InvalidGuestAddress)
    ));
    let mut buffer = vec![0u8; 16];
    assert!(matches!(
        vm.read_physical_memory(&mut buffer, 0x9000),
        Err(Error::InvalidGuestAddress)
    ));
    assert!(matches!(
        vm.write_physical_memory(0x9000, &[1, 2, 3]),
        Err(Error::InvalidGuestAddress)
    ));
}

#[test]
fn write_then_read_roundtrips() {
    let mut vm = fresh_vm();
    vm.allocate_physical_memory(0x1000, 4096, rw()).unwrap();

    let written = vm.write_physical_memory(0x1500, &[0xaa, 0xbb, 0xcc]).unwrap();
    assert_eq!(written, 3);

    let mut buffer = vec![0u8; 3];
    let read = vm.read_physical_memory(&mut buffer, 0x1500).unwrap();
    assert_eq!(read, 3);
    assert_eq!(buffer, vec![0xaa, 0xbb, 0xcc]);
}

#[test]
fn reads_and_writes_saturate_at_the_region_end() {
    let mut vm = fresh_vm();
    vm.allocate_physical_memory(0x1000, 4096, rw()).unwrap();

    // A read through the region end copies only the bytes that exist.
    let mut buffer = vec![0u8; 1000];
    let read = vm.read_physical_memory(&mut buffer, 0x1000 + 4000).unwrap();
    assert_eq!(read, 96);

    // A whole-region read from the base copies the full region.
    let mut buffer = vec![0u8; 8192];
    let read = vm.read_physical_memory(&mut buffer, 0x1000).unwrap();
    assert_eq!(read, 4096);

    // A write through the region end stores only the bytes that fit.
    let written = vm.write_physical_memory(0x1000 + 4094, &[1, 2, 3, 4]).unwrap();
    assert_eq!(written, 2);
    let mut tail = vec![0u8; 2];
    assert_eq!(vm.read_physical_memory(&mut tail, 0x1000 + 4094).unwrap(), 2);
    assert_eq!(tail, vec![1, 2]);
}

#[test]
fn middle_addresses_resolve_for_reads_but_not_for_unmap() {
    let mut vm = fresh_vm();
    vm.allocate_physical_memory(0x1000, 8192, rw()).unwrap();

    assert!(matches!(
        vm.unmap_physical_memory(0x1500),
        Err(Error::InvalidGuestAddress)
    ));

    vm.write_physical_memory(0x2abc, &[7]).unwrap();
    let mut buffer = vec![0u8; 1];
    vm.read_physical_memory(&mut buffer, 0x2abc).unwrap();
    assert_eq!(buffer, vec![7]);
}

#[test]
fn overlapping_allocations_are_rejected() {
    let mut vm = fresh_vm();
    vm.allocate_physical_memory(0x1000, 8192, rw()).unwrap();

    // Inside the mapped range, at a page boundary.
    assert!(matches!(
        vm.allocate_physical_memory(0x2000, 4096, rw()),
        Err(Error::InvalidGuestAddress)
    ));
    // A fresh range that runs into the mapped one.
    assert!(matches!(
        vm.allocate_physical_memory(0x0000, 8192, rw()),
        Err(Error::InvalidGuestAddress)
    ));
    // The state is unchanged: the same base cannot be mapped twice either.
    assert!(matches!(
        vm.allocate_physical_memory(0x1000, 4096, rw()),
        Err(Error::InvalidGuestAddress)
    ));
    assert_eq!(vm.segments.len(), 1);
}

#[test]
fn unmap_then_allocate_reuses_the_address_and_the_slot() {
    let mut vm = fresh_vm();
    vm.allocate_physical_memory(0x1000, 4096, rw()).unwrap();
    vm.allocate_physical_memory(0x4000, 4096, rw()).unwrap();
    assert_eq!(vm.segments.get(&0x1000).unwrap().region.slot, 0);
    assert_eq!(vm.segments.get(&0x4000).unwrap().region.slot, 1);

    vm.unmap_physical_memory(0x1000).unwrap();
    assert_eq!(vm.available_slots, vec![0]);

    // The same address can be mapped again, and the released slot is the
    // one the new mapping takes: slot numbers do not grow without bound.
    vm.allocate_physical_memory(0x1000, 4096, rw()).unwrap();
    assert_eq!(vm.segments.get(&0x1000).unwrap().region.slot, 0);
    assert!(vm.available_slots.is_empty());
}

#[test]
fn unmapped_range_stays_invalid_until_remapped() {
    let mut vm = fresh_vm();
    vm.allocate_physical_memory(0x1000, 4096, rw()).unwrap();
    vm.unmap_physical_memory(0x1000).unwrap();

    let mut buffer = vec![0u8; 1];
    assert!(matches!(
        vm.read_physical_memory(&mut buffer, 0x1000),
        Err(Error::InvalidGuestAddress)
    ));
    assert!(matches!(
        vm.unmap_physical_memory(0x1000),
        Err(Error::InvalidGuestAddress)
    ));

    vm.allocate_physical_memory(0x1000, 4096, rw()).unwrap();
    assert_eq!(vm.write_physical_memory(0x1000, &[1]).unwrap(), 1);
}

#[test]
fn protect_flips_the_read_only_flag() {
    let mut vm = fresh_vm();
    vm.allocate_physical_memory(0x1000, 4096, rw()).unwrap();
    assert_eq!(vm.segments.get(&0x1000).unwrap().region.flags, 0);

    // Down-grade to read-only; the region descriptor follows, and a middle
    // address resolves to the owning segment.
    vm.protect_physical_memory(0x1800, ProtectionFlags::read()).unwrap();
    let segment = vm.segments.get(&0x1000).unwrap();
    assert_eq!(segment.region.flags, KVM_MEM_READONLY);
    assert_eq!(segment.protection, ProtectionFlags::read());

    // And back.
    vm.protect_physical_memory(0x1000, rw()).unwrap();
    assert_eq!(vm.segments.get(&0x1000).unwrap().region.flags, 0);
}

#[test]
fn map_external_region_at_high_address() {
    let mut vm = fresh_vm();
    let mapping = mmap_rs::MmapOptions::new(4096).unwrap().map_mut().unwrap();
    let rwx = rw().union(ProtectionFlags::execute());
    vm.map_physical_memory(0xffff_f000, mapping, rwx).unwrap();

    // Place a halt instruction at the reset vector, as a guest image would.
    assert_eq!(vm.write_physical_memory(0xffff_fff0, &[0xf4]).unwrap(), 1);
    let mut buffer = vec![0u8; 1];
    assert_eq!(vm.read_physical_memory(&mut buffer, 0xffff_fff0).unwrap(), 1);
    assert_eq!(buffer, vec![0xf4]);
}

#[test]
fn impossible_host_allocation_fails_cleanly() {
    let mut vm = fresh_vm();
    // No host can map nearly the whole address space; the provider error
    // surfaces and the VM is unchanged.
    let huge = (usize::MAX / 4096) * 4096;
    assert!(matches!(
        vm.allocate_physical_memory(0, huge, rw()),
        Err(Error::Mmap(_))
    ));
    assert_eq!(vm.segments.len(), 0);
}

#[test]
fn page_allocator_hands_pages_back_in_lifo_order() {
    let mut allocator = PageAllocator::new();
    allocator.add_range(0x1000, 0x3000).unwrap();

    assert_eq!(allocator.alloc_page(), Some(0x2000));
    assert_eq!(allocator.alloc_page(), Some(0x1000));
    assert_eq!(allocator.alloc_page(), None);

    // Freeing any address inside a page returns that page to the pool.
    allocator.free_page(0x2777);
    assert_eq!(allocator.alloc_page(), Some(0x2000));
    assert_eq!(allocator.alloc_page(), None);
}
