//! Console UART configuration: kind, base address, IRQ, MMIO parameters.
//!
//! Register stride is kept separate from MMIO access width because some
//! platforms need stride 4 together with 32-bit volatile access, while the
//! QEMU NS16550 uses stride 1 with byte access.

use vstd::prelude::*;

verus! {

/// UART device kind.
#[derive(Debug, Clone, Copy, PartialEq, Eq, Structural)]
pub enum ConsoleKind {
    /// NS16550-compatible UART (QEMU virt, standard PC).
    Ns16550,
    /// DesignWare APB UART (Allwinner D1, StarFive JH7110).
    DwApbUart,
    /// SBI console (no hardware UART access needed).
    SbiConsole,
}

/// MMIO register access width, distinct from the register stride.
#[derive(Debug, Clone, Copy, PartialEq, Eq, Structural)]
pub enum MmioAccessWidth {
    /// 8-bit access (byte-addressed MMIO).
    U8,
    /// 32-bit access (word-addressed MMIO, upper bytes ignored by hardware).
    U32,
}

/// Console UART hardware configuration.
#[derive(Debug, Clone, Copy, PartialEq, Eq, Structural)]
pub struct ConsoleConfig {
    /// UART device kind.
    pub kind: ConsoleKind,
    /// UART MMIO base physical address.
    pub base_paddr: usize,
    /// UART interrupt line number (`None` for a polling-only early console).
    pub irq: Option<usize>,
    /// Register stride in bytes (1 for NS16550, 4 for DW APB UART on a
    /// 32-bit bus).
    pub reg_stride: u8,
    /// MMIO access width.
    pub reg_width: MmioAccessWidth,
    /// Baud rate.
    pub baud: u32,
}

} // verus!
