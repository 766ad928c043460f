//! Verified core logic of a RISC-V kernel's serial and VirtIO-net driver
//! stack: timer scaling, critical-section restore policy, IRQ status
//! classification and telemetry, UART register decoding, ring-buffer
//! occupancy arithmetic, the TX copier, the resident network stack runner's
//! scheduling decisions, socket readiness, epochs and registry, the VirtIO-net raw
//! device's reset/reinit protocol, user-memory access checks, the C
//! library's record sort, and boot-time console output.

use vstd::prelude::*;

pub mod benchmark;
pub mod critical_section_policy;
pub mod libc_abi;
pub mod mm;
pub mod net;
pub mod platform;
pub mod time_math;
pub mod uart;
pub mod virtio;
pub mod virtio_net_irq;
pub mod virtio_net_irq_logic;

