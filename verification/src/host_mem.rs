//! Trusted boundary to the host-mapping provider (the `mmap_rs` crate). The
//! provider hands out writable regions of host virtual memory; the rest of
//! the crate only sees a region's host address, length and bytes through the
//! contracts stated here.
//!
//! The contracts describe a region as seen between runs of a virtual CPU:
//! once a region has been installed into a live hypervisor and a guest runs,
//! guest stores change the bytes outside of these contracts.

use vstd::prelude::*;

verus! {

#[verifier::external_type_specification]
#[verifier::external_body]
pub struct ExMmapMut(mmap_rs::MmapMut);

/// The bytes that a host mapping currently holds, in order.
pub uninterp spec fn region_bytes(m: mmap_rs::MmapMut) -> Seq<u8>;

/// The host virtual address at which a mapping sits. Where a mapping lands
/// is the host's choice, made once: the address is fixed for the life of the
/// mapping, and writing its bytes does not move it.
pub uninterp spec fn region_addr(m: mmap_rs::MmapMut) -> usize;

/// Relies on mmap_rs::MmapOptions::new and mmap_rs::MmapOptions::map_mut:
/// on success, the fresh private anonymous mapping is exactly `size` bytes
/// long. A provider failure is handed back as its rendered message.
#[verifier::external_body]
pub fn host_alloc(size: usize) -> (r: Result<mmap_rs::MmapMut, String>)
    ensures
        r matches Ok(m) ==> region_bytes(m).len() == size,
{
    let options = match mmap_rs::MmapOptions::new(size) {
        Ok(options) => options,
        Err(e) => {
            return Err(format!("{}", e));
        },
    };
    match options.map_mut() {
        Ok(mapping) => Ok(mapping),
        Err(e) => Err(format!("{}", e)),
    }
}

/// Relies on mmap_rs::MmapMut::as_ptr: the host virtual address of the
/// mapping, as handed to a hypervisor's memory-region call.
#[verifier::external_body]
pub fn host_addr(m: &mmap_rs::MmapMut) -> (r: usize)
    ensures
        r == region_addr(*m),
{
    m.as_ptr() as usize
}

/// Relies on mmap_rs::MmapMut::size: the length of the mapping in bytes.
#[verifier::external_body]
pub fn host_len(m: &mmap_rs::MmapMut) -> (r: usize)
    ensures
        r == region_bytes(*m).len(),
{
    m.size()
}

/// Relies on mmap_rs::MmapMut::as_slice: copies the `len` bytes starting at
/// `offset` out of the mapping.
#[verifier::external_body]
pub fn host_read(m: &mmap_rs::MmapMut, offset: usize, len: usize) -> (r: Vec<u8>)
    requires
        offset + len <= region_bytes(*m).len(),
    ensures
        r@ == region_bytes(*m).subrange(offset as int, offset + len),
{
    m.as_slice()[offset..offset + len].to_vec()
}

/// Relies on mmap_rs::MmapMut::as_mut_slice: copies `data` into the mapping
/// at `offset`, leaving every other byte unchanged and the mapping where it
/// was.
#[verifier::external_body]
pub fn host_write(m: &mut mmap_rs::MmapMut, offset: usize, data: &[u8])
    requires
        offset + data@.len() <= region_bytes(*old(m)).len(),
    ensures
        region_bytes(*final(m)) == region_bytes(*old(m)).subrange(0, offset as int) + data@
            + region_bytes(*old(m)).skip(offset + data@.len()),
        region_addr(*final(m)) == region_addr(*old(m)),
{
    m.as_mut_slice()[offset..offset + data.len()].copy_from_slice(data);
}

} // verus!
