//! An inline function-hooking engine: instruction relocation, trampoline and
//! detour assembly, and the registry of installed hooks.
//!
//! The engine decides; it does not touch the process. Each operation returns
//! what the platform is to do next as a [`platform::Request`] and takes what
//! came of it as a [`platform::Reply`], until the operation has ended.

pub mod arch;
pub mod bytes;
pub mod engine;
pub mod error;
pub mod hook_utils;
pub mod hooks;
pub mod logging;
pub mod options;
pub mod platform;
pub mod symbols;

pub use crate::engine::{code_patch, destroy, hook, import_table_replace, instrument};
pub use crate::error::Error;
pub use crate::options::{register_alloc_near_code_callback, set_near_trampoline, set_options};
