//! VirtIO transport, DMA and raw network-device control logic.

use vstd::prelude::*;

pub mod hal;
pub mod net;
pub mod queue;
pub mod transport;

verus! {

/// Size of a DMA page.
pub const PAGE_SIZE: usize = 4096;

/// Errors of the VirtIO layer.
#[derive(Debug, Clone, Copy, PartialEq, Eq, Structural)]
pub enum Error {
    /// The buffer is too small or a parameter is out of range.
    InvalidParam,
    /// The queue is already in use by the device.
    AlreadyUsed,
    /// The device is not ready (e.g. a reset has not been confirmed).
    NotReady,
    /// A device configuration update raced the read; retry.
    Retry,
    /// The device reported an inconsistent completion.
    IoError,
    /// No free descriptors.
    QueueFull,
}

} // verus!
