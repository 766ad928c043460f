//! Platform descriptor: centralized board facts.
//!
//! Each supported platform provides one [`PlatformDescriptor`] chosen at
//! build time. Fields express hardware layout, not driver capabilities or
//! boot strategy.

use vstd::prelude::*;

use super::console::ConsoleConfig;

verus! {

/// Optional VirtIO-MMIO network device fact.
///
/// A platform-level hardware fact, not a driver constant: the driver still
/// validates magic, version and device id at runtime.
#[derive(Debug, Clone, Copy, PartialEq, Eq, Structural)]
pub struct VirtioMmioNetConfig {
    /// MMIO base physical address.
    pub base_paddr: usize,
    /// MMIO region size in bytes.
    pub size: usize,
    /// Device ID reported by the VirtIO header (1 for a network card).
    pub device_id: u32,
    /// PLIC interrupt number.
    pub irq: usize,
}

/// Physical memory layout.
#[derive(Debug, Clone, Copy, PartialEq, Eq, Structural)]
pub struct MemoryLayout {
    /// RAM base physical address.
    pub base_paddr: usize,
    /// Total RAM size in bytes.
    pub size: usize,
}

/// Kernel image load and link addresses.
#[derive(Debug, Clone, Copy, PartialEq, Eq, Structural)]
pub struct KernelImageLayout {
    /// Physical address where the kernel image is loaded.
    pub load_paddr: usize,
    /// Virtual address where the kernel expects to run (link address); a
    /// 64-bit kernel address on every supported board.
    pub link_vaddr: u64,
}

/// Interrupt controller layout.
#[derive(Debug, Clone, Copy, PartialEq, Eq, Structural)]
pub struct InterruptConfig {
    /// PLIC base physical address.
    pub plic_base_paddr: usize,
}

/// Timer hardware strategy.
#[derive(Debug, Clone, Copy)]
pub struct TimerConfig {
    /// Timer strategy hint: `"sbi"`, `"platform"`, etc.
    pub kind: &'static str,
}

/// Boot image strategy.
#[derive(Debug, Clone, Copy, PartialEq, Eq, Structural)]
pub enum BootKind {
    /// Kernel loaded directly by QEMU (ELF or flat binary at the load address).
    DirectQemu,
    /// Android boot image format (kernel + ramdisk + cmdline in one image).
    AndroidImage,
    /// U-Boot FIT or legacy image format.
    UBootImage,
}

/// How the kernel image is loaded onto the target.
#[derive(Debug, Clone, Copy, PartialEq, Eq, Structural)]
pub struct BootImageConfig {
    /// Boot strategy kind.
    pub kind: BootKind,
}

/// Build-time platform descriptor chosen per target board.
#[derive(Debug, Clone, Copy)]
pub struct PlatformDescriptor {
    /// Human-readable platform name (e.g. "qemu-virt", "lichee-rv-dock").
    pub name: &'static str,
    /// Physical memory layout (base address, size).
    pub memory: MemoryLayout,
    /// Kernel image load/link addresses.
    pub kernel: KernelImageLayout,
    /// Console UART configuration (kind, base, IRQ, stride, width).
    pub console: ConsoleConfig,
    /// Interrupt controller layout (PLIC base).
    pub interrupt: InterruptConfig,
    /// Timer hardware strategy.
    pub timer: TimerConfig,
    /// How the kernel image is loaded.
    pub boot: BootImageConfig,
    /// Optional VirtIO-MMIO network device fact; `None` means no known MMIO
    /// net device on this platform.
    pub virtio_net: Option<VirtioMmioNetConfig>,
}

} // verus!
