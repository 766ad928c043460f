//! Platform descriptors and the early console abstraction.
//!
//! Centralizes board-specific facts (memory layout, console UART config,
//! interrupt routing, boot strategy) behind a build-time descriptor,
//! decoupling driver code from platform constants.

use vstd::prelude::*;

pub mod boards;
pub mod console;
pub mod descriptor;
pub mod early_console;
pub mod polling;
pub mod smoke;

use self::descriptor::PlatformDescriptor;

verus! {

/// Returns the platform descriptor of the default (QEMU virt) build; the
/// Lichee D1 build selects [`boards::lichee_d1`] instead.
pub fn descriptor() -> (d: PlatformDescriptor)
    ensures
        d == boards::qemu_virt_spec(),
{
    boards::qemu_virt()
}

} // verus!
