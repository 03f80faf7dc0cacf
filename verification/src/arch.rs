//! Architecture-specific definitions.

pub mod x86_64;
