//! Architecture-specific instruction handling.

pub mod aarch64;
