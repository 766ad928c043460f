//! User-memory access checks of the kernel's memory manager.

pub mod access;
