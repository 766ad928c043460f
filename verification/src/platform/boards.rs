//! Board descriptors: QEMU virt, Lichee RV Dock (Allwinner D1) and
//! VisionFive2 (StarFive JH7110).

use vstd::prelude::*;

use super::console::{ConsoleConfig, ConsoleKind, MmioAccessWidth};
use super::descriptor::{
    BootImageConfig, BootKind, InterruptConfig, KernelImageLayout, MemoryLayout,
    PlatformDescriptor, TimerConfig,
};

verus! {

/// QEMU virt (riscv64): 256 MiB RAM at 0x8000_0000, kernel loaded at
/// 0x8020_0000, NS16550 console at 0x1000_0000 (IRQ 10, stride 1, byte
/// access, 115200 baud), PLIC at 0x0c00_0000, SBI timer, direct QEMU boot.
pub open spec fn qemu_virt_spec() -> PlatformDescriptor {
    PlatformDescriptor {
        name: "qemu-virt",
        memory: MemoryLayout { base_paddr: 0x80000000, size: 0x10000000 },
        kernel: KernelImageLayout { load_paddr: 0x80200000, link_vaddr: 0xffffffff80200000 },
        console: ConsoleConfig {
            kind: ConsoleKind::Ns16550,
            base_paddr: 0x10000000,
            irq: Some(10),
            reg_stride: 1,
            reg_width: MmioAccessWidth::U8,
            baud: 115200,
        },
        interrupt: InterruptConfig { plic_base_paddr: 0x0c000000 },
        timer: TimerConfig { kind: "sbi" },
        boot: BootImageConfig { kind: BootKind::DirectQemu },
        virtio_net: None,
    }
}

/// Lichee RV Dock / Allwinner D1: 512 MiB RAM at 0x4000_0000, kernel loaded
/// at 0x4020_0000, DW APB UART 0 at 0x0250_0000 (polling only, stride 4,
/// 32-bit access, 115200 baud), PLIC at 0x1000_0000, SBI timer, Android boot
/// image, no MMIO net device.
pub open spec fn lichee_d1_spec() -> PlatformDescriptor {
    PlatformDescriptor {
        name: "lichee-rv-dock",
        memory: MemoryLayout { base_paddr: 0x40000000, size: 0x20000000 },
        kernel: KernelImageLayout { load_paddr: 0x40200000, link_vaddr: 0xffffffc040200000 },
        console: ConsoleConfig {
            kind: ConsoleKind::DwApbUart,
            base_paddr: 0x02500000,
            irq: None,
            reg_stride: 4,
            reg_width: MmioAccessWidth::U32,
            baud: 115200,
        },
        interrupt: InterruptConfig { plic_base_paddr: 0x10000000 },
        timer: TimerConfig { kind: "sbi" },
        boot: BootImageConfig { kind: BootKind::AndroidImage },
        virtio_net: None,
    }
}

/// VisionFive2 / StarFive JH7110: 2 GiB RAM at 0x4000_0000, kernel loaded at
/// 0x4020_0000, DW APB UART 0 at 0x1000_0000 (IRQ 32, stride 4, 32-bit
/// access, 115200 baud), PLIC at 0x0c00_0000, platform timer, U-Boot image.
pub open spec fn visionfive2_spec() -> PlatformDescriptor {
    PlatformDescriptor {
        name: "visionfive2",
        memory: MemoryLayout { base_paddr: 0x40000000, size: 0x80000000 },
        kernel: KernelImageLayout { load_paddr: 0x40200000, link_vaddr: 0xffffffff40200000 },
        console: ConsoleConfig {
            kind: ConsoleKind::DwApbUart,
            base_paddr: 0x10000000,
            irq: Some(32),
            reg_stride: 4,
            reg_width: MmioAccessWidth::U32,
            baud: 115200,
        },
        interrupt: InterruptConfig { plic_base_paddr: 0x0c000000 },
        timer: TimerConfig { kind: "platform" },
        boot: BootImageConfig { kind: BootKind::UBootImage },
        virtio_net: None,
    }
}

/// QEMU virt (riscv64) platform descriptor.
pub fn qemu_virt() -> (d: PlatformDescriptor)
    ensures
        d == qemu_virt_spec(),
{
    PlatformDescriptor {
        name: "qemu-virt",
        memory: MemoryLayout { base_paddr: 0x80000000, size: 0x10000000 },
        kernel: KernelImageLayout { load_paddr: 0x80200000, link_vaddr: 0xffffffff80200000 },
        console: ConsoleConfig {
            kind: ConsoleKind::Ns16550,
            base_paddr: 0x10000000,
            irq: Some(10),
            reg_stride: 1,
            reg_width: MmioAccessWidth::U8,
            baud: 115200,
        },
        interrupt: InterruptConfig { plic_base_paddr: 0x0c000000 },
        timer: TimerConfig { kind: "sbi" },
        boot: BootImageConfig { kind: BootKind::DirectQemu },
        virtio_net: None,
    }
}

/// Lichee RV Dock / Allwinner D1 platform descriptor.
pub fn lichee_d1() -> (d: PlatformDescriptor)
    ensures
        d == lichee_d1_spec(),
{
    PlatformDescriptor {
        name: "lichee-rv-dock",
        memory: MemoryLayout { base_paddr: 0x40000000, size: 0x20000000 },
        kernel: KernelImageLayout { load_paddr: 0x40200000, link_vaddr: 0xffffffc040200000 },
        console: ConsoleConfig {
            kind: ConsoleKind::DwApbUart,
            base_paddr: 0x02500000,
            irq: None,
            reg_stride: 4,
            reg_width: MmioAccessWidth::U32,
            baud: 115200,
        },
        interrupt: InterruptConfig { plic_base_paddr: 0x10000000 },
        timer: TimerConfig { kind: "sbi" },
        boot: BootImageConfig { kind: BootKind::AndroidImage },
        virtio_net: None,
    }
}

/// VisionFive2 / StarFive JH7110 platform descriptor.
pub fn visionfive2() -> (d: PlatformDescriptor)
    ensures
        d == visionfive2_spec(),
{
    PlatformDescriptor {
        name: "visionfive2",
        memory: MemoryLayout { base_paddr: 0x40000000, size: 0x80000000 },
        kernel: KernelImageLayout { load_paddr: 0x40200000, link_vaddr: 0xffffffff40200000 },
        console: ConsoleConfig {
            kind: ConsoleKind::DwApbUart,
            base_paddr: 0x10000000,
            irq: Some(32),
            reg_stride: 4,
            reg_width: MmioAccessWidth::U32,
            baud: 115200,
        },
        interrupt: InterruptConfig { plic_base_paddr: 0x0c000000 },
        timer: TimerConfig { kind: "platform" },
        boot: BootImageConfig { kind: BootKind::UBootImage },
        virtio_net: None,
    }
}

} // verus!
