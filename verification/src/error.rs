//! The single tagged error type through which every failure of the crate is
//! reported.

use vstd::prelude::*;

verus! {

/// The `Error` type.
#[derive(Debug)]
pub enum Error {
    /// The PTE was not found.
    PteNotFound,
    /// The page is not present.
    PageNotPresent,
    /// Not implemented.
    NotImplemented,
    /// Out of memory.
    OutOfMemory,
    /// The guest address is invalid: it is not covered by any mapped region,
    /// or a fresh mapping would overlap one that is already present.
    InvalidGuestAddress,
    /// Wraps an error of the host-mapping provider, as its rendered message.
    Mmap(String),
    /// Wraps an error that originates from a KVM system call, preserving the
    /// raw `errno` value.
    KvmError(i32),
    /// Wraps a status code returned by Apple's Hypervisor Framework.
    HypervisorError(u32),
}

impl Error {
    /// A short description of the error, for diagnostics.
    pub fn describe(&self) -> (r: &'static str)
        ensures
            r@.len() > 0,
    {
        let r = match self {
            Error::PteNotFound => "PTE not found",
            Error::PageNotPresent => "page not present",
            Error::NotImplemented => "not implemented",
            Error::OutOfMemory => "out of memory",
            Error::InvalidGuestAddress => "invalid guest address",
            Error::Mmap(_) => "host mapping error",
            Error::KvmError(_) => "KVM error",
            Error::HypervisorError(_) => "hypervisor framework error",
        };
        proof {
            reveal_strlit("PTE not found");
            reveal_strlit("page not present");
            reveal_strlit("not implemented");
            reveal_strlit("out of memory");
            reveal_strlit("invalid guest address");
            reveal_strlit("host mapping error");
            reveal_strlit("KVM error");
            reveal_strlit("hypervisor framework error");
        }
        r
    }
}

} // verus!
