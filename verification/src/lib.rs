//! A portable, thin abstraction over host hypervisor interfaces (KVM, the
//! Windows Hypervisor Platform, Apple's Hypervisor Framework and bhyve): one
//! programming surface to create virtual machines, map guest physical memory,
//! and control the architectural state of virtual CPUs.
//!
//! The architecture-neutral core lives here: register and VMCS definitions,
//! the guest-physical-memory bookkeeping with its overlap and slot-reuse
//! rules, the cross-backend register-state marshalling, and the exit-reason
//! translation. The host-specific system calls that drive a real hypervisor
//! are left to the embedding program.

pub mod arch;
pub mod bhyve;
pub mod error;
pub mod host_mem;
pub mod hypervisor;
pub mod hvf;
pub mod kvm;
pub mod range_index;
pub mod vcpu;
pub mod vm;
pub mod whp;

pub use error::Error;
pub use hypervisor::Hypervisor;
pub use vcpu::{ExitReason, Vcpu};
pub use vm::{ProtectionFlags, Vm, VmBuilder};
