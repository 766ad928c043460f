//! Low-level polled UART access: the raw port interface and the decoding of
//! the NS16550-compatible register file it reads.
//!
//! A polling port does not convert `\n` to `\r\n` (that is the TTY's job),
//! does not buffer bytes in software rings, and does not handle interrupts.

use vstd::prelude::*;

verus! {

/// Register index of THR (write) / RBR (read).
pub const UART_RBR_THR: usize = 0;
/// Register index of IER.
pub const UART_IER: usize = 1;
/// Register index of IIR (read) / FCR (write).
pub const UART_IIR_FCR: usize = 2;
/// Register index of MCR.
pub const UART_MCR: usize = 4;
/// Register index of LSR.
pub const UART_LSR: usize = 5;

/// LSR bit 0: data ready.
pub const LSR_DR: u32 = 0x01;
/// LSR bit 5: transmitter holding register empty.
pub const LSR_THRE: u32 = 0x20;
/// LSR bit 6: transmitter empty (shift register drained).
pub const LSR_TEMT: u32 = 0x40;

/// Direct MMIO access to a UART: blocking writes, non-blocking reads.
///
/// Implementors must not perform LF->CRLF conversion or any buffering.
pub trait PollingPort {
    /// Blocking write of a single byte: polls LSR until THRE, then writes THR.
    fn putchar(&self, ch: u8);

    /// Non-blocking read of a single byte: `Some(byte)` when LSR reports data
    /// ready, `None` otherwise.
    fn try_getchar(&self) -> Option<u8>;

    /// LSR bit 5: the UART can accept another byte immediately.
    fn thre(&self) -> bool;

    /// LSR bit 6: all data, including the shift register, has been sent.
    fn temt(&self) -> bool;
}

/// Byte offset of register `reg` for a given register stride.
pub fn reg_offset(reg: usize, stride: u8) -> (off: usize)
    requires
        reg <= UART_LSR,
    ensures
        off == reg * stride,
{
    assert(reg * stride <= 5 * 255) by (nonlinear_arith)
        requires
            reg <= 5,
            stride <= 255,
    ;
    reg * (stride as usize)
}

/// LSR data-ready bit.
pub fn lsr_data_ready(lsr: u32) -> (r: bool)
    ensures
        r == (lsr & LSR_DR != 0),
{
    lsr & LSR_DR != 0
}

/// LSR transmitter-holding-register-empty bit.
pub fn lsr_thr_empty(lsr: u32) -> (r: bool)
    ensures
        r == (lsr & LSR_THRE != 0),
{
    lsr & LSR_THRE != 0
}

/// LSR transmitter-empty bit.
pub fn lsr_transmitter_empty(lsr: u32) -> (r: bool)
    ensures
        r == (lsr & LSR_TEMT != 0),
{
    lsr & LSR_TEMT != 0
}

} // verus!
