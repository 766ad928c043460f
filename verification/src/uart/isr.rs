//! Interrupt dispatch decisions for the UART ISRs.
//!
//! The ISRs read the interrupt identification and line status registers and
//! then wake the RX copier, the TX copier, or drain waiters, masking the
//! corresponding interrupt source first so the copier re-enables it when it
//! has work. These functions decide what to do from the register values;
//! the platform glue performs the register reads, masks and wakes.

use vstd::prelude::*;

use super::regs::{InterruptType, interrupt_type, interrupt_type_spec};
use crate::platform::polling::{LSR_TEMT, LSR_THRE};

verus! {

/// IIR interrupt id (bits 3:1) for received data available.
pub const IIR_RX_DATA: u32 = 0x04;
/// IIR interrupt id (bits 3:1) for transmitter holding register empty.
pub const IIR_TX_EMPTY: u32 = 0x02;

/// What the NS16550 ISR does for one interrupt.
#[derive(Debug, Clone, Copy, PartialEq, Eq, Structural)]
pub enum UartIsrAction {
    /// Mask the RX interrupt and wake the RX copier.
    RxWake,
    /// Mask the TX interrupt, wake the TX copier, and wake drain waiters if
    /// the line status then reports the transmitter empty.
    TxWake,
    /// Nothing to do.
    Ignore,
}

/// The action the NS16550 ISR takes for an interrupt cause.
pub open spec fn uart_isr_action_spec(cause: Option<InterruptType>) -> UartIsrAction {
    match cause {
        Some(InterruptType::ReceivedDataReady) => UartIsrAction::RxWake,
        Some(InterruptType::ReceptionTimeout) => UartIsrAction::RxWake,
        Some(InterruptType::TransmitterHoldingRegisterEmpty) => UartIsrAction::TxWake,
        _ => UartIsrAction::Ignore,
    }
}

/// NS16550 ISR dispatch: received data and reception timeout wake the RX
/// copier, THR-empty wakes the TX copier, anything else is ignored.
pub fn uart_isr_handler(iir: u8) -> (a: UartIsrAction)
    ensures
        a == uart_isr_action_spec(interrupt_type_spec(iir)),
{
    match interrupt_type(iir) {
        Some(InterruptType::ReceivedDataReady) | Some(InterruptType::ReceptionTimeout) => {
            UartIsrAction::RxWake
        },
        Some(InterruptType::TransmitterHoldingRegisterEmpty) => UartIsrAction::TxWake,
        _ => UartIsrAction::Ignore,
    }
}

/// What the D1 DW APB UART ISR does for one interrupt.
#[derive(Debug, Clone, Copy, PartialEq, Eq, Structural)]
pub enum D1IsrAction {
    /// No interrupt pending: wake the TX copier and/or drain waiters from the
    /// line status alone, without masking anything.
    NoPending { wake_tx: bool, wake_drain: bool },
    /// Mask RX and wake the RX copier.
    RxData,
    /// Mask TX, wake the TX copier, and wake drain waiters if the
    /// transmitter then reports empty.
    TxEmpty,
    /// Line or modem status interrupt: read LSR again to clear it.
    ClearLineStatus,
}

/// The D1 ISR's decision for one IIR/LSR pair.
pub open spec fn d1_isr_action_spec(iir_raw: u32, lsr: u32) -> D1IsrAction {
    if iir_raw & 0x01u32 != 0 {
        D1IsrAction::NoPending { wake_tx: lsr & LSR_THRE != 0, wake_drain: lsr & LSR_TEMT != 0 }
    } else if iir_raw & 0x0eu32 == IIR_RX_DATA {
        D1IsrAction::RxData
    } else if iir_raw & 0x0eu32 == IIR_TX_EMPTY {
        D1IsrAction::TxEmpty
    } else {
        D1IsrAction::ClearLineStatus
    }
}

/// D1 ISR dispatch from the IIR value and the line status read after it.
pub fn d1_uart_isr_handler(iir_raw: u32, lsr: u32) -> (a: D1IsrAction)
    ensures
        a == d1_isr_action_spec(iir_raw, lsr),
{
    let iir = iir_raw & 0x0e;
    let no_pending = iir_raw & 0x01 != 0;
    if no_pending {
        return D1IsrAction::NoPending {
            wake_tx: lsr & LSR_THRE != 0,
            wake_drain: lsr & LSR_TEMT != 0,
        };
    }
    if iir == IIR_RX_DATA {
        D1IsrAction::RxData
    } else if iir == IIR_TX_EMPTY {
        D1IsrAction::TxEmpty
    } else {
        D1IsrAction::ClearLineStatus
    }
}

/// FCR value written by the D1 interrupt-mode setup: FIFO enable, RX and TX
/// FIFO reset, RX trigger at 14 bytes.
pub const D1_FCR_INIT: u32 = 0xc7;
/// MCR value written by the D1 interrupt-mode setup: DTR, RTS and OUT2
/// (interrupt output enable).
pub const D1_MCR_INIT: u32 = 0x0b;

} // verus!
