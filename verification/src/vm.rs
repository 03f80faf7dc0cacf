//! The [`Vm`] struct: a virtual machine, i.e. a guest physical memory space
//! shared by a number of virtual CPUs. The module owns the
//! guest-physical-memory lifecycle: ranges never overlap, released slot
//! numbers are reused before a fresh one is taken, and reads and writes
//! resolve any address inside a mapped range to its owning segment,
//! saturating at the segment end.

use vstd::prelude::*;

use std::collections::HashMap;

use crate::error::Error;
use crate::host_mem::{
    host_addr, host_alloc, host_len, host_read, host_write, region_addr, region_bytes,
};
use crate::range_index::{
    covers_within, range_cover, range_map_get, range_map_insert, range_map_new,
    range_map_overlaps, range_map_remove,
};
use crate::vcpu::{reg_file_zero, spec_reset_regs, spec_reset_vmcs, vmcs_zero, Vcpu};

verus! {

broadcast use vstd::std_specs::hash::group_hash_axioms;

/// The smallest page size of the supported hosts; sizes of guest memory
/// regions must be multiples of it.
pub const PAGE_SIZE: usize = 4096;

/// The flag recorded in a region descriptor when the guest may not write to
/// the region; numerically identical to the flag of the KVM memory-region
/// interface.
pub const KVM_MEM_READONLY: u32 = 2;

/// The protection flags used when mapping guest physical memory.
///
/// Not all platforms support the full set of protection flags:
///  * Linux does not support the executable bit, which means that guest
///    physical memory is always executable.
///  * FreeBSD does not support any of the protection flags, which means that
///    guest physical memory is always readable, writable and executable.
#[derive(Clone, Copy, Debug, Eq, PartialEq, Structural)]
pub struct ProtectionFlags {
    /// The raw flag bits.
    pub bits: u32,
}

/// The guest VM is allowed to read from the physical memory.
pub const PROTECTION_READ: u32 = 1;
/// The guest VM is allowed to write to the physical memory.
pub const PROTECTION_WRITE: u32 = 2;
/// The guest VM is allowed to execute from the physical memory.
pub const PROTECTION_EXECUTE: u32 = 4;

impl ProtectionFlags {
    /// Whether the flags allow the guest to read.
    pub open spec fn readable(self) -> bool {
        self.bits & PROTECTION_READ == PROTECTION_READ
    }

    /// Whether the flags allow the guest to write.
    pub open spec fn writable(self) -> bool {
        self.bits & PROTECTION_WRITE == PROTECTION_WRITE
    }

    /// Whether the flags allow the guest to execute.
    pub open spec fn executable(self) -> bool {
        self.bits & PROTECTION_EXECUTE == PROTECTION_EXECUTE
    }

    /// The empty flag set.
    pub fn empty() -> (r: Self)
        ensures
            r.bits == 0,
    {
        ProtectionFlags { bits: 0 }
    }

    /// The flag set with exactly the given raw bits.
    pub fn from_bits(bits: u32) -> (r: Self)
        ensures
            r.bits == bits,
    {
        ProtectionFlags { bits }
    }

    /// The read permission by itself.
    pub fn read() -> (r: Self)
        ensures
            r.bits == PROTECTION_READ,
    {
        ProtectionFlags { bits: PROTECTION_READ }
    }

    /// The write permission by itself.
    pub fn write() -> (r: Self)
        ensures
            r.bits == PROTECTION_WRITE,
    {
        ProtectionFlags { bits: PROTECTION_WRITE }
    }

    /// The execute permission by itself.
    pub fn execute() -> (r: Self)
        ensures
            r.bits == PROTECTION_EXECUTE,
    {
        ProtectionFlags { bits: PROTECTION_EXECUTE }
    }

    /// The union of two flag sets.
    pub fn union(self, other: Self) -> (r: Self)
        ensures
            r.bits == self.bits | other.bits,
    {
        ProtectionFlags { bits: self.bits | other.bits }
    }

    /// Whether every permission of `other` is present in `self`.
    pub fn contains(&self, other: Self) -> (r: bool)
        ensures
            r == (self.bits & other.bits == other.bits),
    {
        self.bits & other.bits == other.bits
    }
}

/// The flags of a region descriptor for a given protection: the read-only
/// flag is set exactly when the write permission is absent.
pub open spec fn spec_region_flags(protection: ProtectionFlags) -> u32 {
    if protection.writable() {
        0
    } else {
        KVM_MEM_READONLY
    }
}

/// Computes the region-descriptor flags for a protection.
pub fn region_flags(protection: &ProtectionFlags) -> (r: u32)
    ensures
        r == spec_region_flags(*protection),
{
    if protection.contains(ProtectionFlags::write()) {
        0
    } else {
        KVM_MEM_READONLY
    }
}

/// The descriptor of one guest physical memory region, in the shape that
/// slot-based hypervisor interfaces (KVM, WHP) consume: a slot number, the
/// guest physical base, the size, the backing host virtual address and the
/// flag bits.
#[derive(Clone, Copy, Debug, Eq, PartialEq, Structural)]
pub struct MemoryRegion {
    /// The memory slot that the region occupies.
    pub slot: u32,
    /// The guest physical address of the start of the region.
    pub guest_phys_addr: u64,
    /// The size of the region in bytes.
    pub memory_size: u64,
    /// The host virtual address backing the region.
    pub userspace_addr: u64,
    /// The flag bits; see [`KVM_MEM_READONLY`].
    pub flags: u32,
}

/// One mapped segment of guest physical memory: the owned host mapping and
/// the region descriptor under which it was handed to the hypervisor.
pub struct Segment {
    /// The host mapping backing the segment.
    pub mapping: mmap_rs::MmapMut,
    /// The region descriptor.
    pub region: MemoryRegion,
    /// The protection that the guest was granted on the segment.
    pub protection: ProtectionFlags,
}

/// The `VmBuilder` allows for the configuration of certain properties for
/// the new VM before constructing it, as these properties may be immutable
/// once the VM has been built.
pub struct VmBuilder {
    /// The maximum number of virtual CPUs to use for this VM.
    pub vcpu_count: usize,
}

impl VmBuilder {
    /// This is used to specify the maximum number of virtual CPUs to use for
    /// this VM.
    pub fn with_vcpu_count(self, count: usize) -> (r: Result<Self, Error>)
        ensures
            r matches Ok(b) && b.vcpu_count == count,
    {
        Ok(VmBuilder { vcpu_count: count })
    }

    /// Builds the VM, assigns the given name and returns a [`Vm`] with no
    /// memory mapped and no slot in use. The name is used by backends that
    /// identify their VMs textually.
    pub fn build(self, _name: &str) -> (r: Result<Vm, Error>)
        ensures
            r matches Ok(vm) && vm.wf() && vm.segs() == Map::<u64, Segment>::empty()
                && vm.available_slots@ == Seq::<u32>::empty() && vm.cover() == Map::<
                u64,
                u64,
            >::empty(),
    {
        let vm = Vm {
            segments: HashMap::new(),
            physical_ranges: range_map_new(),
            available_slots: Vec::new(),
        };
        proof {
            assert(vm.segs() == Map::<u64, Segment>::empty());
            assert(vm.segs().dom() =~= Set::<u64>::empty());
            assert(vm.total_slots() == 0);
        }
        Ok(vm)
    }
}

/// The `Vm` struct represents a virtual machine: an abstraction over a
/// number of virtual CPUs and a guest physical memory space.
pub struct Vm {
    /// The mapped segments, keyed by their guest physical base address.
    pub segments: HashMap<u64, Segment>,
    /// The interval index from guest physical ranges to their base address.
    pub physical_ranges: rangemap::RangeMap<u64, u64>,
    /// The slot numbers that were released and wait to be reused.
    pub available_slots: Vec<u32>,
}

impl Vm {
    /// The mapped segments, as a map from base address to segment.
    pub open spec fn segs(self) -> Map<u64, Segment> {
        self.segments@
    }

    /// The pointwise coverage: each mapped guest physical address maps to
    /// the base address of the segment that covers it.
    pub open spec fn cover(self) -> Map<u64, u64> {
        range_cover(self.physical_ranges)
    }

    /// The number of slots the VM has ever taken: the live ones plus the
    /// released ones.
    pub open spec fn total_slots(self) -> int {
        self.segs().len() as int + self.available_slots@.len() as int
    }

    /// The slot that the next mapping will occupy: the most recently
    /// released one, or a fresh number if none was released.
    pub open spec fn next_slot(self) -> u32 {
        if self.available_slots@.len() > 0 {
            self.available_slots@.last()
        } else {
            self.segs().len() as u32
        }
    }

    /// What must hold of the segment based at `b`: the descriptor matches
    /// the base, the backing mapping matches the descriptor, the flags
    /// follow the protection, and the coverage points every address of the
    /// segment at `b`.
    pub open spec fn seg_ok(self, b: u64) -> bool {
        let s = self.segs()[b];
        &&& s.region.guest_phys_addr == b
        &&& s.region.memory_size > 0
        &&& s.region.memory_size <= usize::MAX
        &&& b + s.region.memory_size <= u64::MAX
        &&& region_bytes(s.mapping).len() == s.region.memory_size
        &&& s.region.userspace_addr == region_addr(s.mapping) as u64
        &&& s.region.flags == spec_region_flags(s.protection)
        &&& forall|k: u64|
            b <= k < b + s.region.memory_size ==> #[trigger] self.cover().contains_key(k)
                && self.cover()[k] == b
    }

    /// The slot bookkeeping invariant: every slot number, live or released,
    /// is below the total count, and no slot number appears twice.
    pub open spec fn slots_ok(self) -> bool {
        &&& self.total_slots() < 0x1_0000_0000
        &&& forall|b: u64|
            #[trigger] self.segs().contains_key(b) ==> (self.segs()[b].region.slot as int)
                < self.total_slots()
        &&& forall|i: int|
            0 <= i < self.available_slots@.len() ==> (#[trigger] self.available_slots@[i] as int)
                < self.total_slots()
        &&& forall|b1: u64, b2: u64|
            #[trigger] self.segs().contains_key(b1) && #[trigger] self.segs().contains_key(b2)
                && b1 != b2 ==> self.segs()[b1].region.slot != self.segs()[b2].region.slot
        &&& forall|i: int, j: int|
            0 <= i < j < self.available_slots@.len() ==> #[trigger] self.available_slots@[i]
                != #[trigger] self.available_slots@[j]
        &&& forall|b: u64, i: int|
            #[trigger] self.segs().contains_key(b) && 0 <= i < self.available_slots@.len()
                ==> self.segs()[b].region.slot != #[trigger] self.available_slots@[i]
    }

    /// The well-formedness of the bookkeeping: the segments and the
    /// coverage describe the same set of mapped addresses, no two segments
    /// overlap (each covered address has exactly one owning base), and the
    /// slots are consistent.
    pub open spec fn wf(self) -> bool {
        &&& forall|b: u64| #[trigger] self.segs().contains_key(b) ==> self.seg_ok(b)
        &&& forall|k: u64|
            #[trigger] self.cover().contains_key(k) ==> self.segs().contains_key(self.cover()[k])
                && self.cover()[k] <= k < self.cover()[k] + self.segs()[self.cover()[k]].region.memory_size
        &&& self.slots_ok()
    }

    /// Whether `gpa` lies within some mapped segment.
    pub open spec fn is_mapped(self, gpa: u64) -> bool {
        self.cover().contains_key(gpa)
    }

    /// Creates a virtual CPU with the given vCPU ID, reset to the
    /// architectural power-on state.
    pub fn create_vcpu(&mut self, _id: usize) -> (r: Result<Vcpu, Error>)
        ensures
            *final(self) == *old(self),
            (r matches Ok(cpu) && cpu.vmcs == spec_reset_vmcs(vmcs_zero()) && cpu.regs
                == spec_reset_regs(reg_file_zero()) && cpu.msrs.table() == Map::<
                u32,
                u64,
            >::empty()),
    {
        let mut vcpu = Vcpu::new();
        match vcpu.reset() {
            Ok(()) => Ok(vcpu),
            Err(e) => Err(e),
        }
    }

    /// Maps guest physical memory into the VM's address space. More
    /// specifically, this function takes ownership of a host mapping,
    /// records it at the guest physical address `guest_address` with the
    /// given protection, and assigns it the next memory slot. The new range
    /// must not overlap any mapped range; on overlap nothing changes and
    /// `InvalidGuestAddress` comes back.
    pub fn map_physical_memory(
        &mut self,
        guest_address: u64,
        mapping: mmap_rs::MmapMut,
        protection: ProtectionFlags,
    ) -> (r: Result<(), Error>)
        requires
            old(self).wf(),
            old(self).total_slots() < u32::MAX,
            region_bytes(mapping).len() > 0,
            guest_address + region_bytes(mapping).len() <= u64::MAX,
        ensures
            final(self).wf(),
            r matches Err(e) ==> {
                &&& e is InvalidGuestAddress
                &&& *final(self) == *old(self)
                &&& covers_within(
                    old(self).physical_ranges,
                    guest_address,
                    (guest_address + region_bytes(mapping).len()) as u64,
                )
            },
            !covers_within(
                old(self).physical_ranges,
                guest_address,
                (guest_address + region_bytes(mapping).len()) as u64,
            ) ==> r is Ok,
            r is Ok ==> {
                let size = region_bytes(mapping).len() as u64;
                let s = final(self).segs()[guest_address];
                &&& !covers_within(
                    old(self).physical_ranges,
                    guest_address,
                    (guest_address + size) as u64,
                )
                &&& final(self).segs().dom() == old(self).segs().dom().insert(guest_address)
                &&& forall|b: u64|
                    #[trigger] old(self).segs().contains_key(b) && b != guest_address ==> final(self).segs()[b] == old(self).segs()[b]
                &&& s.mapping == mapping
                &&& s.region.slot == old(self).next_slot()
                &&& s.region.guest_phys_addr == guest_address
                &&& s.region.memory_size == size
                &&& s.region.userspace_addr == region_addr(mapping) as u64
                &&& s.region.flags == spec_region_flags(protection)
                &&& s.protection == protection
                &&& final(self).cover() == old(self).cover().union_prefer_right(
                    Map::new(
                        |k: u64| guest_address <= k < (guest_address + size) as u64,
                        |k: u64| guest_address,
                    ),
                )
                &&& final(self).available_slots@ == if old(self).available_slots@.len() > 0 {
                    old(self).available_slots@.drop_last()
                } else {
                    old(self).available_slots@
                }
            },
    {
        let size_bytes: usize = host_len(&mapping);
        let size: u64 = size_bytes as u64;
        let end: u64 = guest_address + size;

        if range_map_overlaps(&self.physical_ranges, guest_address, end) {
            return Err(Error::InvalidGuestAddress);
        }
        let ghost pre = *self;

        let slot: u32 = match self.available_slots.pop() {
            Some(slot) => slot,
            _ => self.segments.len() as u32,
        };

        let userspace_addr: u64 = host_addr(&mapping) as u64;
        let flags: u32 = region_flags(&protection);
        let region = MemoryRegion {
            slot,
            guest_phys_addr: guest_address,
            memory_size: size,
            userspace_addr,
            flags,
        };
        let segment = Segment { mapping, region, protection };

        self.segments.insert(guest_address, segment);
        range_map_insert(&mut self.physical_ranges, guest_address, end, guest_address);

        proof {
            lemma_map_preserves_wf(pre, *self, guest_address, size, slot);
        }
        Ok(())
    }

    /// Allocates guest physical memory into the VM's address space at the
    /// given guest address with the given size, which must be a multiple of
    /// the page size. The protection affects how the guest VM can or cannot
    /// access the guest physical memory. A fresh host region backs the
    /// memory; on any failure the VM is unchanged.
    pub fn allocate_physical_memory(
        &mut self,
        guest_address: u64,
        size: usize,
        protection: ProtectionFlags,
    ) -> (r: Result<(), Error>)
        requires
            old(self).wf(),
            old(self).total_slots() < u32::MAX,
            size > 0,
            size % PAGE_SIZE == 0,
            guest_address + size <= u64::MAX,
        ensures
            final(self).wf(),
            r matches Err(e) ==> {
                &&& *final(self) == *old(self)
                &&& (e is InvalidGuestAddress || e is Mmap)
                &&& e is InvalidGuestAddress ==> covers_within(
                    old(self).physical_ranges,
                    guest_address,
                    (guest_address + size) as u64,
                )
            },
            covers_within(old(self).physical_ranges, guest_address, (guest_address + size) as u64)
                ==> r is Err,
            r is Ok ==> {
                let s = final(self).segs()[guest_address];
                &&& final(self).segs().dom() == old(self).segs().dom().insert(guest_address)
                &&& forall|b: u64|
                    #[trigger] old(self).segs().contains_key(b) && b != guest_address ==> final(self).segs()[b] == old(self).segs()[b]
                &&& s.region.slot == old(self).next_slot()
                &&& s.region.guest_phys_addr == guest_address
                &&& s.region.memory_size == size
                &&& s.region.flags == spec_region_flags(protection)
                &&& s.protection == protection
                &&& final(self).cover() == old(self).cover().union_prefer_right(
                    Map::new(
                        |k: u64| guest_address <= k < (guest_address + size) as u64,
                        |k: u64| guest_address,
                    ),
                )
                &&& final(self).available_slots@ == if old(self).available_slots@.len() > 0 {
                    old(self).available_slots@.drop_last()
                } else {
                    old(self).available_slots@
                }
            },
    {
        let mapping = match host_alloc(size) {
            Ok(mapping) => mapping,
            Err(message) => {
                return Err(Error::Mmap(message));
            },
        };
        match self.map_physical_memory(guest_address, mapping, protection) {
            Ok(()) => Ok(()),
            Err(e) => Err(e),
        }
    }

    /// Unmaps the guest physical memory whose base address equals
    /// `guest_address`, releasing its slot for reuse. An address that is not
    /// the base of a mapping — unmapped, or in the middle of a region —
    /// fails with `InvalidGuestAddress` and changes nothing.
    pub fn unmap_physical_memory(&mut self, guest_address: u64) -> (r: Result<(), Error>)
        requires
            old(self).wf(),
        ensures
            final(self).wf(),
            !(old(self).is_mapped(guest_address) && old(self).cover()[guest_address]
                == guest_address) ==> (r matches Err(e) && e is InvalidGuestAddress && *final(self)
                == *old(self)),
            old(self).is_mapped(guest_address) && old(self).cover()[guest_address] == guest_address
                ==> r is Ok,
            old(self).is_mapped(guest_address) && old(self).cover()[guest_address] == guest_address
                ==> final(self).segs() == old(self).segs().remove(guest_address),
            old(self).is_mapped(guest_address) && old(self).cover()[guest_address] == guest_address
                ==> final(self).cover() == old(self).cover().remove_keys(
                Set::new(
                    |k: u64|
                        guest_address <= k < (guest_address + old(self).segs()[guest_address].region.memory_size) as u64,
                ),
            ),
            old(self).is_mapped(guest_address) && old(self).cover()[guest_address] == guest_address
                ==> final(self).available_slots@ == old(self).available_slots@.push(
                old(self).segs()[guest_address].region.slot,
            ),
    {
        let base = match range_map_get(&self.physical_ranges, guest_address) {
            Some(base) => base,
            _ => {
                return Err(Error::InvalidGuestAddress);
            },
        };
        if base != guest_address {
            return Err(Error::InvalidGuestAddress);
        }
        let ghost pre = *self;
        proof {
            lemma_cover_gives_seg(pre, guest_address);
            assert(pre.seg_ok(guest_address));
        }

        let segment = match self.segments.remove(&guest_address) {
            Some(segment) => segment,
            _ => {
                proof {
                    assert(false);
                }
                return Err(Error::InvalidGuestAddress);
            },
        };
        let size = segment.region.memory_size;
        let end = guest_address + size;
        range_map_remove(&mut self.physical_ranges, guest_address, end);
        self.available_slots.push(segment.region.slot);

        proof {
            lemma_unmap_preserves_wf(pre, *self, guest_address, size);
        }
        Ok(())
    }

    /// Changes the protection of the mapped region covering
    /// `guest_address`; the region descriptor's read-only flag follows. An
    /// unmapped address fails with `InvalidGuestAddress` and changes
    /// nothing.
    pub fn protect_physical_memory(
        &mut self,
        guest_address: u64,
        protection: ProtectionFlags,
    ) -> (r: Result<(), Error>)
        requires
            old(self).wf(),
        ensures
            final(self).wf(),
            !old(self).is_mapped(guest_address) ==> (r matches Err(e) && e is InvalidGuestAddress
                && *final(self) == *old(self)),
            old(self).is_mapped(guest_address) ==> {
                let b = old(self).cover()[guest_address];
                let s = old(self).segs()[b];
                &&& r is Ok
                &&& final(self).segs().dom() == old(self).segs().dom()
                &&& final(self).segs()[b].protection == protection
                &&& final(self).segs()[b].region.flags == spec_region_flags(protection)
                &&& final(self).segs()[b].region.slot == s.region.slot
                &&& final(self).segs()[b].region.guest_phys_addr == s.region.guest_phys_addr
                &&& final(self).segs()[b].region.memory_size == s.region.memory_size
                &&& final(self).segs()[b].mapping == s.mapping
                &&& forall|b2: u64|
                    #[trigger] old(self).segs().contains_key(b2) && b2 != b ==> final(self).segs()[b2] == old(self).segs()[b2]
                &&& final(self).cover() == old(self).cover()
                &&& final(self).available_slots@ == old(self).available_slots@
            },
    {
        let base = match range_map_get(&self.physical_ranges, guest_address) {
            Some(base) => base,
            _ => {
                return Err(Error::InvalidGuestAddress);
            },
        };
        let ghost pre = *self;
        proof {
            lemma_cover_gives_seg(pre, guest_address);
            assert(pre.seg_ok(base));
        }

        let mut segment = match self.segments.remove(&base) {
            Some(segment) => segment,
            _ => {
                proof {
                    assert(false);
                }
                return Err(Error::InvalidGuestAddress);
            },
        };
        segment.region.flags = region_flags(&protection);
        segment.protection = protection;
        self.segments.insert(base, segment);

        proof {
            assert(self.segs() =~= pre.segs().insert(base, self.segs()[base]));
            lemma_replace_preserves_wf(pre, *self, base);
        }
        Ok(())
    }

    /// Reads bytes starting at `guest_address` into the front of `bytes`,
    /// saturating at the end of the region covering the address, and
    /// returns how many bytes were read. The rest of `bytes` is untouched.
    /// An unmapped address fails with `InvalidGuestAddress`.
    pub fn read_physical_memory(&self, bytes: &mut Vec<u8>, guest_address: u64) -> (r: Result<
        usize,
        Error,
    >)
        requires
            self.wf(),
        ensures
            !self.is_mapped(guest_address) ==> (r matches Err(e) && e is InvalidGuestAddress
                && *final(bytes) == *old(bytes)),
            self.is_mapped(guest_address) ==> {
                let b = self.cover()[guest_address];
                let s = self.segs()[b];
                let off = guest_address - b;
                let n = vstd::math::min(
                    old(bytes)@.len() as int,
                    s.region.memory_size - off,
                );
                &&& r == Ok::<usize, Error>(n as usize)
                &&& final(bytes)@ == region_bytes(s.mapping).subrange(off, off + n) + old(
                    bytes,
                )@.skip(n)
            },
    {
        let base = match range_map_get(&self.physical_ranges, guest_address) {
            Some(base) => base,
            _ => {
                return Err(Error::InvalidGuestAddress);
            },
        };
        proof {
            lemma_cover_gives_seg(*self, guest_address);
            assert(self.seg_ok(base));
        }
        let segment = match self.segments.get(&base) {
            Some(segment) => segment,
            _ => {
                proof {
                    assert(false);
                }
                return Err(Error::InvalidGuestAddress);
            },
        };
        let offset = guest_address - base;
        let remaining = segment.region.memory_size - offset;
        let n: usize = if (bytes.len() as u64) <= remaining {
            bytes.len()
        } else {
            remaining as usize
        };
        let chunk = host_read(&segment.mapping, offset as usize, n);
        let ghost orig = bytes@;
        let mut i: usize = 0;
        while i < n
            invariant
                n <= orig.len(),
                i <= n,
                chunk@.len() == n,
                bytes@.len() == orig.len(),
                forall|j: int| 0 <= j < i ==> bytes@[j] == chunk@[j],
                forall|j: int| i <= j < orig.len() ==> bytes@[j] == orig[j],
            decreases n - i,
        {
            bytes[i] = chunk[i];
            i = i + 1;
        }
        proof {
            assert(bytes@ =~= chunk@ + orig.skip(n as int));
        }
        Ok(n)
    }

    /// Writes the front of `bytes` to guest memory starting at
    /// `guest_address`, saturating at the end of the region covering the
    /// address, and returns how many bytes were written. An unmapped
    /// address fails with `InvalidGuestAddress` and changes nothing.
    pub fn write_physical_memory(&mut self, guest_address: u64, bytes: &[u8]) -> (r: Result<
        usize,
        Error,
    >)
        requires
            old(self).wf(),
        ensures
            final(self).wf(),
            !old(self).is_mapped(guest_address) ==> (r matches Err(e) && e is InvalidGuestAddress
                && *final(self) == *old(self)),
            old(self).is_mapped(guest_address) ==> {
                let b = old(self).cover()[guest_address];
                let s = old(self).segs()[b];
                let off = guest_address - b;
                let n = vstd::math::min(bytes@.len() as int, s.region.memory_size - off);
                &&& r == Ok::<usize, Error>(n as usize)
                &&& final(self).segs().dom() == old(self).segs().dom()
                &&& forall|b2: u64|
                    #[trigger] old(self).segs().contains_key(b2) && b2 != b ==> final(self).segs()[b2] == old(self).segs()[b2]
                &&& final(self).segs()[b].region == s.region
                &&& final(self).segs()[b].protection == s.protection
                &&& region_bytes(final(self).segs()[b].mapping) == region_bytes(
                    s.mapping,
                ).subrange(0, off) + bytes@.subrange(0, n) + region_bytes(s.mapping).skip(off + n)
                &&& final(self).cover() == old(self).cover()
                &&& final(self).available_slots@ == old(self).available_slots@
            },
    {
        let base = match range_map_get(&self.physical_ranges, guest_address) {
            Some(base) => base,
            _ => {
                return Err(Error::InvalidGuestAddress);
            },
        };
        let ghost pre = *self;
        proof {
            lemma_cover_gives_seg(pre, guest_address);
            assert(pre.seg_ok(base));
        }

        let mut segment = match self.segments.remove(&base) {
            Some(segment) => segment,
            _ => {
                proof {
                    assert(false);
                }
                return Err(Error::InvalidGuestAddress);
            },
        };
        let offset = guest_address - base;
        let remaining = segment.region.memory_size - offset;
        let n: usize = if (bytes.len() as u64) <= remaining {
            bytes.len()
        } else {
            remaining as usize
        };
        let data = vstd::slice::slice_subrange(bytes, 0, n);
        host_write(&mut segment.mapping, offset as usize, data);
        self.segments.insert(base, segment);

        proof {
            assert(self.segs() =~= pre.segs().insert(base, self.segs()[base]));
            assert(region_bytes(self.segs()[base].mapping).len() == region_bytes(
                pre.segs()[base].mapping,
            ).len());
            lemma_replace_preserves_wf(pre, *self, base);
        }
        Ok(n)
    }
}

/// In a well-formed VM, every address of a mapped segment is covered and
/// points back at the segment's base.
pub proof fn lemma_seg_covers(vm: Vm, b: u64, k: u64)
    requires
        vm.wf(),
        vm.segs().contains_key(b),
        b <= k < b + vm.segs()[b].region.memory_size,
    ensures
        vm.cover().contains_key(k),
        vm.cover()[k] == b,
{
    assert(vm.seg_ok(b));
    assert(vm.cover().contains_key(k));
    assert(vm.cover()[k] == b);
}

/// In a well-formed VM, every covered address belongs to the segment that
/// the coverage names.
pub proof fn lemma_cover_gives_seg(vm: Vm, k: u64)
    requires
        vm.wf(),
        vm.cover().contains_key(k),
    ensures
        vm.segs().contains_key(vm.cover()[k]),
        vm.cover()[k] <= k < vm.cover()[k] + vm.segs()[vm.cover()[k]].region.memory_size,
{
}

/// After a successful mapping of `[g, g + size)` with slot `slot`, the
/// bookkeeping is well formed again.
proof fn lemma_map_preserves_wf(pre: Vm, post: Vm, g: u64, size: u64, slot: u32)
    requires
        pre.wf(),
        pre.total_slots() < u32::MAX,
        size > 0,
        size <= usize::MAX,
        g + size <= u64::MAX,
        !covers_within(pre.physical_ranges, g, (g + size) as u64),
        post.segs() == pre.segs().insert(g, post.segs()[g]),
        post.segs().contains_key(g),
        post.segs()[g].region.guest_phys_addr == g,
        post.segs()[g].region.memory_size == size,
        post.segs()[g].region.slot == slot,
        post.segs()[g].region.flags == spec_region_flags(post.segs()[g].protection),
        post.segs()[g].region.userspace_addr == region_addr(post.segs()[g].mapping) as u64,
        region_bytes(post.segs()[g].mapping).len() == size,
        slot == pre.next_slot(),
        post.available_slots@ == if pre.available_slots@.len() > 0 {
            pre.available_slots@.drop_last()
        } else {
            pre.available_slots@
        },
        post.cover() == pre.cover().union_prefer_right(
            Map::new(|k: u64| g <= k < (g + size) as u64, |k: u64| g),
        ),
    ensures
        post.wf(),
{
    let patch = Map::new(|k: u64| g <= k < (g + size) as u64, |k: u64| g);
    // The new base cannot already be mapped: its own first address would be
    // covered.
    assert(!pre.segs().contains_key(g)) by {
        if pre.segs().contains_key(g) {
            assert(pre.seg_ok(g));
            lemma_seg_covers(pre, g, g);
            assert(range_cover(pre.physical_ranges).contains_key(g));
            assert(covers_within(pre.physical_ranges, g, (g + size) as u64));
            assert(false);
        }
    }
    assert(post.segs().dom() =~= pre.segs().dom().insert(g));
    assert(post.segs().len() == pre.segs().len() + 1);

    assert forall|b: u64| #[trigger] post.segs().contains_key(b) implies post.seg_ok(b) by {
        if b == g {
            assert forall|k: u64| g <= k < g + size implies #[trigger] post.cover().contains_key(k)
                && post.cover()[k] == g by {
                assert(patch.dom().contains(k));
                assert(post.cover().contains_key(k));
                assert(post.cover()[k] == g);
            }
        } else {
            assert(pre.segs().contains_key(b));
            assert(pre.seg_ok(b));
            let sz = pre.segs()[b].region.memory_size;
            assert forall|k: u64| b <= k < b + sz implies #[trigger] post.cover().contains_key(k)
                && post.cover()[k] == b by {
                lemma_seg_covers(pre, b, k);
                if g <= k < g + size {
                    assert(range_cover(pre.physical_ranges).contains_key(k));
                    assert(covers_within(pre.physical_ranges, g, (g + size) as u64));
                    assert(false);
                }
                assert(!patch.dom().contains(k));
                assert(post.cover().contains_key(k));
                assert(post.cover()[k] == b);
            }
        }
    }

    assert forall|k: u64| #[trigger] post.cover().contains_key(k) implies post.segs().contains_key(
        post.cover()[k],
    ) && post.cover()[k] <= k < post.cover()[k]
        + post.segs()[post.cover()[k]].region.memory_size by {
        if patch.dom().contains(k) {
            assert(post.cover()[k] == g);
        } else {
            assert(pre.cover().contains_key(k));
            let b = pre.cover()[k];
            lemma_cover_gives_seg(pre, k);
            assert(b != g);
            assert(post.segs()[b] == pre.segs()[b]);
        }
    }

    // Slots.
    assert(post.total_slots() == pre.total_slots() || post.total_slots() == pre.total_slots() + 1);
    if pre.available_slots@.len() > 0 {
        assert(post.total_slots() == pre.total_slots());
        let last = pre.available_slots@.len() - 1;
        assert(pre.available_slots@[last] == slot);
        assert forall|b: u64| #[trigger] post.segs().contains_key(b) && b != g implies
            post.segs()[b].region.slot != slot by {
            assert(pre.segs()[b].region.slot != pre.available_slots@[last]);
        }
    } else {
        assert(post.total_slots() == pre.total_slots() + 1);
        assert(slot as int == pre.segs().len());
        assert forall|b: u64| #[trigger] post.segs().contains_key(b) && b != g implies
            post.segs()[b].region.slot != slot by {
            assert((pre.segs()[b].region.slot as int) < pre.total_slots());
        }
    }
}

/// After removing the segment based at `g` and releasing its slot, the
/// bookkeeping is well formed again.
proof fn lemma_unmap_preserves_wf(pre: Vm, post: Vm, g: u64, size: u64)
    requires
        pre.wf(),
        pre.segs().contains_key(g),
        pre.segs()[g].region.memory_size == size,
        post.segs() == pre.segs().remove(g),
        post.cover() == pre.cover().remove_keys(Set::new(|k: u64| g <= k < (g + size) as u64)),
        post.available_slots@ == pre.available_slots@.push(pre.segs()[g].region.slot),
    ensures
        post.wf(),
{
    let removed = Set::new(|k: u64| g <= k < (g + size) as u64);
    let slot = pre.segs()[g].region.slot;
    assert(pre.seg_ok(g));
    assert(post.segs().dom() =~= pre.segs().dom().remove(g));
    assert(post.segs().len() == pre.segs().len() - 1);
    assert(post.total_slots() == pre.total_slots());

    assert forall|b: u64| #[trigger] post.segs().contains_key(b) implies post.seg_ok(b) by {
        assert(pre.segs().contains_key(b) && b != g);
        assert(pre.seg_ok(b));
        let sz = pre.segs()[b].region.memory_size;
        assert forall|k: u64| b <= k < b + sz implies #[trigger] post.cover().contains_key(k)
            && post.cover()[k] == b by {
            lemma_seg_covers(pre, b, k);
            if g <= k < g + size {
                lemma_seg_covers(pre, g, k);
                assert(false);
            }
            assert(!removed.contains(k));
            assert(post.cover().contains_key(k));
            assert(post.cover()[k] == b);
        }
    }

    assert forall|k: u64| #[trigger] post.cover().contains_key(k) implies post.segs().contains_key(
        post.cover()[k],
    ) && post.cover()[k] <= k < post.cover()[k]
        + post.segs()[post.cover()[k]].region.memory_size by {
        assert(pre.cover().contains_key(k));
        let b = pre.cover()[k];
        lemma_cover_gives_seg(pre, k);
        if b == g {
            assert(g <= k < g + size);
            assert(removed.contains(k));
            assert(false);
        }
        assert(post.segs()[b] == pre.segs()[b]);
    }

    // Slots: the released one was live, so it is distinct from the other
    // live ones and from everything already in the pool.
    let n = pre.available_slots@.len();
    assert forall|i: int, j: int| 0 <= i < j < post.available_slots@.len() implies
        #[trigger] post.available_slots@[i] != #[trigger] post.available_slots@[j] by {
        if j == n {
            assert(post.available_slots@[j] == slot);
            assert(pre.segs()[g].region.slot != pre.available_slots@[i]);
        }
    }
}

/// After replacing the segment based at `b` by one with the same base,
/// size, slot and mapping length, and flags that follow its protection, the
/// bookkeeping is well formed again.
proof fn lemma_replace_preserves_wf(pre: Vm, post: Vm, b: u64)
    requires
        pre.wf(),
        pre.segs().contains_key(b),
        post.segs() == pre.segs().insert(b, post.segs()[b]),
        post.segs()[b].region.guest_phys_addr == pre.segs()[b].region.guest_phys_addr,
        post.segs()[b].region.memory_size == pre.segs()[b].region.memory_size,
        post.segs()[b].region.slot == pre.segs()[b].region.slot,
        post.segs()[b].region.flags == spec_region_flags(post.segs()[b].protection),
        post.segs()[b].region.userspace_addr == region_addr(post.segs()[b].mapping) as u64,
        region_bytes(post.segs()[b].mapping).len() == region_bytes(pre.segs()[b].mapping).len(),
        post.cover() == pre.cover(),
        post.available_slots@ == pre.available_slots@,
    ensures
        post.wf(),
        post.segs().dom() == pre.segs().dom(),
{
    assert(post.segs().dom() =~= pre.segs().dom());
    assert(post.segs().len() == pre.segs().len());
    assert(post.total_slots() == pre.total_slots());
    assert(pre.seg_ok(b));

    assert forall|b2: u64| #[trigger] post.segs().contains_key(b2) implies post.seg_ok(b2) by {
        assert(pre.segs().contains_key(b2));
        assert(pre.seg_ok(b2));
        let sz = pre.segs()[b2].region.memory_size;
        assert forall|k: u64| b2 <= k < b2 + sz implies #[trigger] post.cover().contains_key(k)
            && post.cover()[k] == b2 by {
            lemma_seg_covers(pre, b2, k);
            assert(post.cover().contains_key(k));
            assert(post.cover()[k] == b2);
        }
    }
}

/// Reading back a span that was just written returns exactly the bytes
/// written: splicing `data` into `orig` at `off` and taking the same span
/// out again yields `data`.
pub proof fn lemma_write_read_roundtrip(orig: Seq<u8>, off: int, data: Seq<u8>)
    requires
        0 <= off,
        off + data.len() <= orig.len(),
    ensures
        (orig.subrange(0, off) + data + orig.skip(off + data.len())).subrange(
            off,
            off + data.len(),
        ) == data,
{
    assert((orig.subrange(0, off) + data + orig.skip(off + data.len())).subrange(
        off,
        off + data.len(),
    ) =~= data);
}

/// Every address inside a mapped segment is covered, so a later mapping
/// whose range contains such an address is rejected as overlapping.
pub proof fn lemma_overlap_is_detected(vm: Vm, base: u64, gpa: u64, end: u64)
    requires
        vm.wf(),
        vm.segs().contains_key(base),
        base <= gpa < base + vm.segs()[base].region.memory_size,
        gpa < end,
    ensures
        covers_within(vm.physical_ranges, gpa, end),
{
    assert(vm.seg_ok(base));
    lemma_seg_covers(vm, base, gpa);
    assert(range_cover(vm.physical_ranges).contains_key(gpa));
}

/// Unmapping a segment leaves its whole range unmapped, and puts its slot
/// at the top of the release pool, so the very next mapping reuses that
/// slot: slot numbers do not grow without bound.
pub proof fn lemma_unmap_frees_slot_for_reuse(pre: Vm, post: Vm, gpa: u64)
    requires
        pre.wf(),
        post.wf(),
        pre.segs().contains_key(gpa),
        post.segs() == pre.segs().remove(gpa),
        post.cover() == pre.cover().remove_keys(
            Set::new(
                |k: u64| gpa <= k < (gpa + pre.segs()[gpa].region.memory_size) as u64,
            ),
        ),
        post.available_slots@ == pre.available_slots@.push(pre.segs()[gpa].region.slot),
    ensures
        post.next_slot() == pre.segs()[gpa].region.slot,
        forall|k: u64|
            gpa <= k < gpa + pre.segs()[gpa].region.memory_size ==> !#[trigger] post.cover().contains_key(k),
{
    assert(pre.seg_ok(gpa));
    assert(post.available_slots@.last() == pre.segs()[gpa].region.slot);
    let removed = Set::new(
        |k: u64| gpa <= k < (gpa + pre.segs()[gpa].region.memory_size) as u64,
    );
    assert forall|k: u64|
        gpa <= k < gpa + pre.segs()[gpa].region.memory_size implies !#[trigger] post.cover().contains_key(k) by {
        assert(removed.contains(k));
    }
}

/// The number of pages that back the range `[start, end)`: one per started
/// page.
pub open spec fn page_count(start: u64, end: u64) -> int {
    ((end - start) + 4095) / 4096
}

/// The page allocator used to manage the physical pages of the guest VM: a
/// last-in-first-out pool of free guest-physical pages over the ranges that
/// were handed to it.
pub struct PageAllocator {
    /// The free pages, most recently released last.
    pub free_list: Vec<u64>,
    /// The interval index from guest physical ranges to their base address.
    pub physical_ranges: rangemap::RangeMap<u64, u64>,
}

/// Every covered address belongs to one recorded range: its stored value
/// is the range's start, no greater than the address, and every address
/// from that start up to it is covered with the same start.
pub open spec fn cover_is_ranges(cover: Map<u64, u64>) -> bool {
    forall|k: u64|
        #[trigger] cover.contains_key(k) ==> {
            &&& cover[k] <= k
            &&& forall|k2: u64|
                cover[k] <= k2 <= k ==> #[trigger] cover.contains_key(k2) && cover[k2]
                    == cover[k]
        }
}

/// A page of a recorded range: a covered address that is a whole multiple
/// of the page size above its range's start.
pub open spec fn page_of_cover(cover: Map<u64, u64>, a: u64) -> bool {
    &&& cover.contains_key(a)
    &&& (a - cover[a]) % 4096 == 0
}

impl PageAllocator {
    /// The recorded coverage: each address of a range handed to
    /// [`PageAllocator::add_range`] maps to that range's start.
    pub open spec fn cover(self) -> Map<u64, u64> {
        range_cover(self.physical_ranges)
    }

    /// A page of one of the pool's recorded ranges.
    pub open spec fn page_ok(self, a: u64) -> bool {
        page_of_cover(self.cover(), a)
    }

    /// The well-formedness of the pool: the coverage is made of ranges, and
    /// every free-list entry is a page of a recorded range.
    pub open spec fn wf(self) -> bool {
        &&& cover_is_ranges(self.cover())
        &&& forall|i: int|
            0 <= i < self.free_list@.len() ==> page_of_cover(
                self.cover(),
                #[trigger] self.free_list@[i],
            )
    }

    /// Sets up the page allocator.
    pub fn new() -> (r: Self)
        ensures
            r.wf(),
            r.free_list@ == Seq::<u64>::empty(),
            range_cover(r.physical_ranges) == Map::<u64, u64>::empty(),
    {
        PageAllocator { free_list: Vec::new(), physical_ranges: range_map_new() }
    }

    /// Allocates a physical page: the most recently freed or added one, if
    /// any page is free. What comes back is a page of a recorded range.
    pub fn alloc_page(&mut self) -> (r: Option<u64>)
        requires
            old(self).wf(),
        ensures
            final(self).wf(),
            final(self).physical_ranges == old(self).physical_ranges,
            old(self).free_list@.len() == 0 ==> r is None && final(self).free_list@ == old(self).free_list@,
            old(self).free_list@.len() > 0 ==> r == Some(old(self).free_list@.last()) && final(self).free_list@ == old(self).free_list@.drop_last(),
            r matches Some(a) ==> old(self).page_ok(a),
    {
        let r = self.free_list.pop();
        proof {
            if old(self).free_list@.len() > 0 {
                assert(self.free_list@ =~= old(self).free_list@.drop_last());
                assert(page_of_cover(
                    old(self).cover(),
                    old(self).free_list@[old(self).free_list@.len() - 1],
                ));
            }
            assert forall|i: int| 0 <= i < self.free_list@.len() implies page_of_cover(
                self.cover(),
                #[trigger] self.free_list@[i],
            ) by {
                assert(self.free_list@[i] == old(self).free_list@[i]);
                assert(page_of_cover(old(self).cover(), old(self).free_list@[i]));
            }
        }
        r
    }

    /// Frees the physical page containing the given physical address: the
    /// address is aligned down onto the page grid of its range, and the page
    /// goes to the top of the pool.
    pub fn free_page(&mut self, phys_addr: u64)
        requires
            old(self).wf(),
            range_cover(old(self).physical_ranges).contains_key(phys_addr),
        ensures
            final(self).wf(),
            final(self).physical_ranges == old(self).physical_ranges,
            ({
                let start = range_cover(old(self).physical_ranges)[phys_addr];
                let page = (start + ((phys_addr - start) / 4096) * 4096) as u64;
                final(self).free_list@ == old(self).free_list@.push(page)
            }),
    {
        let start = match range_map_get(&self.physical_ranges, phys_addr) {
            Some(start) => start,
            _ => {
                proof {
                    assert(false);
                }
                return ;
            },
        };
        proof {
            assert(self.cover().contains_key(phys_addr));
            assert(self.cover()[phys_addr] <= phys_addr);
        }
        let index = (phys_addr - start) / 4096;
        let page = start + index * 4096;
        proof {
            assert(index * 4096 <= phys_addr - start && (index * 4096) % 4096 == 0)
                by (nonlinear_arith)
                requires
                    index == (phys_addr - start) as u64 / 4096,
                    start <= phys_addr,
            ;
            // The aligned-down page lies between the range start and the
            // freed address, so the range covers it at the same start.
            assert(self.cover().contains_key(page));
            assert(self.cover()[page] == start);
            assert(page_of_cover(self.cover(), page));
        }
        let ghost pre = *self;
        self.free_list.push(page);
        proof {
            assert forall|i: int| 0 <= i < self.free_list@.len() implies page_of_cover(
                self.cover(),
                #[trigger] self.free_list@[i],
            ) by {
                if i < pre.free_list@.len() {
                    assert(self.free_list@[i] == pre.free_list@[i]);
                }
            }
        }
    }

    /// Hands the pages of `[start, end)` to the allocator: the fresh range
    /// must not overlap a recorded one; it is recorded, and its pages join
    /// the free pool from low to high.
    pub fn add_range(&mut self, start: u64, end: u64) -> (r: Result<(), Error>)
        requires
            old(self).wf(),
            start < end,
            !covers_within(old(self).physical_ranges, start, end),
        ensures
            final(self).wf(),
            r is Ok,
            range_cover(final(self).physical_ranges) == range_cover(
                old(self).physical_ranges,
            ).union_prefer_right(Map::new(|k: u64| start <= k < end, |k: u64| start)),
            final(self).free_list@.len() == old(self).free_list@.len() + page_count(start, end),
            forall|j: int|
                0 <= j < page_count(start, end) ==> #[trigger] final(self).free_list@[old(self).free_list@.len() + j] == start + j * 4096,
            forall|j: int|
                0 <= j < old(self).free_list@.len() ==> final(self).free_list@[j] == old(self).free_list@[j],
    {
        let total: u64 = end - start;
        let n: u64 = total / 4096 + (if total % 4096 == 0 {
            0
        } else {
            1
        });
        proof {
            assert(n == page_count(start, end));
            assert((n - 1) * 4096 < total) by (nonlinear_arith)
                requires
                    n == ((total + 4095) / 4096),
                    total > 0,
            ;
        }
        let ghost base_len = self.free_list@.len();
        let mut k: u64 = 0;
        while k < n
            invariant
                n == page_count(start, end),
                start < end,
                end - start == total,
                (n - 1) * 4096 < total,
                k <= n,
                self.physical_ranges == old(self).physical_ranges,
                self.free_list@.len() == base_len + k,
                base_len == old(self).free_list@.len(),
                forall|j: int|
                    0 <= j < base_len ==> self.free_list@[j] == old(self).free_list@[j],
                forall|j: int|
                    0 <= j < k ==> #[trigger] self.free_list@[base_len + j] == start + j * 4096,
            decreases n - k,
        {
            proof {
                assert(k * 4096 <= (n - 1) * 4096) by (nonlinear_arith)
                    requires
                        k < n,
                ;
            }
            self.free_list.push(start + k * 4096);
            k = k + 1;
        }
        range_map_insert(&mut self.physical_ranges, start, end, start);
        proof {
            lemma_add_range_preserves_wf(*old(self), *self, start, end, base_len as int);
        }
        Ok(())
    }
}

/// After recording a fresh, non-overlapping range and pushing its pages,
/// the pool is well formed again.
proof fn lemma_add_range_preserves_wf(pre: PageAllocator, post: PageAllocator, start: u64, end: u64, base_len: int)
    requires
        pre.wf(),
        start < end,
        !covers_within(pre.physical_ranges, start, end),
        post.cover() == pre.cover().union_prefer_right(
            Map::new(|k: u64| start <= k < end, |k: u64| start),
        ),
        base_len == pre.free_list@.len(),
        post.free_list@.len() == base_len + page_count(start, end),
        forall|j: int| 0 <= j < base_len ==> post.free_list@[j] == pre.free_list@[j],
        forall|j: int|
            0 <= j < page_count(start, end) ==> #[trigger] post.free_list@[base_len + j] == start
                + j * 4096,
    ensures
        post.wf(),
{
    let patch = Map::new(|k: u64| start <= k < end, |k: u64| start);
    // Nothing of the fresh range was covered before.
    assert forall|k: u64| start <= k < end implies !pre.cover().contains_key(k) by {
        if pre.cover().contains_key(k) {
            assert(covers_within(pre.physical_ranges, start, end));
            assert(false);
        }
    }

    assert forall|k: u64| #[trigger] post.cover().contains_key(k) implies {
        &&& post.cover()[k] <= k
        &&& forall|k2: u64|
            post.cover()[k] <= k2 <= k ==> #[trigger] post.cover().contains_key(k2)
                && post.cover()[k2] == post.cover()[k]
    } by {
        if patch.dom().contains(k) {
            assert(post.cover()[k] == start);
            assert forall|k2: u64| start <= k2 <= k implies #[trigger] post.cover().contains_key(
                k2,
            ) && post.cover()[k2] == start by {
                assert(patch.dom().contains(k2));
            }
        } else {
            assert(pre.cover().contains_key(k));
            let b = pre.cover()[k];
            assert(b <= k);
            assert forall|k2: u64| b <= k2 <= k implies #[trigger] post.cover().contains_key(k2)
                && post.cover()[k2] == b by {
                assert(pre.cover().contains_key(k2));
                assert(pre.cover()[k2] == b);
                assert(!patch.dom().contains(k2));
                assert(post.cover().contains_key(k2));
                assert(post.cover()[k2] == b);
            }
        }
    }

    assert forall|i: int| 0 <= i < post.free_list@.len() implies page_of_cover(
        post.cover(),
        #[trigger] post.free_list@[i],
    ) by {
        if i < base_len {
            let a = post.free_list@[i];
            assert(a == pre.free_list@[i]);
            assert(page_of_cover(pre.cover(), a));
            assert(!patch.dom().contains(a));
            assert(post.cover()[a] == pre.cover()[a]);
        } else {
            let j = i - base_len;
            let a = post.free_list@[i];
            assert(post.free_list@[base_len + j] == start + j * 4096);
            assert(a == start + j * 4096);
            assert(0 <= j * 4096 && j * 4096 <= (page_count(start, end) - 1) * 4096)
                by (nonlinear_arith)
                requires
                    0 <= j < page_count(start, end),
            ;
            assert((page_count(start, end) - 1) * 4096 < end - start) by (nonlinear_arith)
                requires
                    page_count(start, end) == ((end - start) + 4095) / 4096,
                    end - start > 0,
            ;
            assert(patch.dom().contains(a));
            assert(post.cover()[a] == start);
            assert((a - start) % 4096 == 0) by (nonlinear_arith)
                requires
                    a - start == j * 4096,
            ;
        }
    }
}

} // verus!
