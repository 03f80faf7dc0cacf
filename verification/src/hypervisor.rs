//! The [`Hypervisor`] struct, the entry point of the API. Some hosts need
//! process-wide state to use the underlying interface (a device descriptor,
//! a partition); opening that state is the embedding program's step, and the
//! core keeps the entry point itself trivial.

use vstd::prelude::*;

use crate::error::Error;
use crate::vm::VmBuilder;

verus! {

/// The `Hypervisor` struct serving as an entry point to the API.
pub struct Hypervisor {
    /// Nothing is needed beyond the host state that the embedding program
    /// holds.
    _private: (),
}

impl Hypervisor {
    /// Creates a new `Hypervisor` struct to access the underlying
    /// hypervisor API for the current platform.
    pub fn new() -> (r: Result<Self, Error>)
        ensures
            r is Ok,
    {
        Ok(Hypervisor { _private: () })
    }

    /// Returns a [`VmBuilder`] that uses the builder pattern to create a new
    /// VM. This allows the configuration of certain properties for the VM on
    /// platforms where these become immutable the moment the VM is built.
    pub fn build_vm(&self) -> (r: Result<VmBuilder, Error>)
        ensures
            (r matches Ok(b) && b.vcpu_count == 1),
    {
        Ok(VmBuilder { vcpu_count: 1 })
    }
}

} // verus!
