//! NS16550-compatible interrupt-enable and interrupt-identification register
//! encodings.

use vstd::prelude::*;

verus! {

/// Interrupt Enable Register value.
#[derive(Debug, Clone, Copy, PartialEq, Eq, Structural)]
pub struct Ier {
    pub bits: u8,
}

impl Ier {
    /// No interrupt source.
    pub fn empty() -> (r: Ier)
        ensures
            r.bits == 0,
    {
        Ier { bits: 0 }
    }

    /// Received-data-available interrupt (bit 0).
    pub fn data_ready() -> (r: Ier)
        ensures
            r.bits == 0x01,
    {
        Ier { bits: 0x01 }
    }

    /// Transmitter-holding-register-empty interrupt (bit 1).
    pub fn thr_empty() -> (r: Ier)
        ensures
            r.bits == 0x02,
    {
        Ier { bits: 0x02 }
    }

    /// Whether every bit of `other` is set in `self`.
    pub fn contains(&self, other: Ier) -> (r: bool)
        ensures
            r == (self.bits & other.bits == other.bits),
    {
        self.bits & other.bits == other.bits
    }
}

/// The cached IER value after setting the bits of `set` and then clearing
/// the bits of `clear` (a bit in both ends up clear).
pub open spec fn ier_update_spec(cache: u8, set: u8, clear: u8) -> u8 {
    (cache | set) & !clear
}

/// Read-modify-write of a cached IER value.
pub fn ier_update(cache: u8, set: Ier, clear: Ier) -> (r: u8)
    ensures
        r == ier_update_spec(cache, set.bits, clear.bits),
        r & set.bits & !clear.bits == set.bits & !clear.bits,
        r & clear.bits == 0,
{
    let mut val = cache;
    val = val | set.bits;
    val = val & !clear.bits;
    let s = set.bits;
    let c = clear.bits;
    assert(((cache | s) & !c) & s & !c == s & !c) by (bit_vector);
    assert(((cache | s) & !c) & c == 0) by (bit_vector);
    val
}

/// Set interrupt-enable bits of a cached IER value.
pub fn ier_enable(cache: u8, bits: Ier) -> (r: u8)
    ensures
        r == cache | bits.bits,
{
    cache | bits.bits
}

/// Clear interrupt-enable bits of a cached IER value.
pub fn ier_disable(cache: u8, bits: Ier) -> (r: u8)
    ensures
        r == cache & !bits.bits,
{
    cache & !bits.bits
}

/// Interrupt cause reported in IIR bits 3:1.
#[derive(Debug, Clone, Copy, PartialEq, Eq, Structural)]
pub enum InterruptType {
    /// Modem status change (id 0b000).
    ModemStatus,
    /// Transmitter holding register empty (id 0b001).
    TransmitterHoldingRegisterEmpty,
    /// Received data available (id 0b010).
    ReceivedDataReady,
    /// Receiver line status (id 0b011).
    ReceiverLineStatus,
    /// Character timeout (id 0b110).
    ReceptionTimeout,
}

/// The interrupt cause an IIR value reports, if any: bit 0 set means no
/// interrupt is pending.
pub open spec fn interrupt_type_spec(iir: u8) -> Option<InterruptType> {
    if iir & 0x01u8 != 0 {
        None
    } else if iir & 0x0eu8 == 0x00u8 {
        Some(InterruptType::ModemStatus)
    } else if iir & 0x0eu8 == 0x02u8 {
        Some(InterruptType::TransmitterHoldingRegisterEmpty)
    } else if iir & 0x0eu8 == 0x04u8 {
        Some(InterruptType::ReceivedDataReady)
    } else if iir & 0x0eu8 == 0x06u8 {
        Some(InterruptType::ReceiverLineStatus)
    } else if iir & 0x0eu8 == 0x0cu8 {
        Some(InterruptType::ReceptionTimeout)
    } else {
        None
    }
}

/// Decode the interrupt identification register.
pub fn interrupt_type(iir: u8) -> (r: Option<InterruptType>)
    ensures
        r == interrupt_type_spec(iir),
{
    if iir & 0x01 != 0 {
        return None;
    }
    let id = iir & 0x0e;
    if id == 0x00 {
        Some(InterruptType::ModemStatus)
    } else if id == 0x02 {
        Some(InterruptType::TransmitterHoldingRegisterEmpty)
    } else if id == 0x04 {
        Some(InterruptType::ReceivedDataReady)
    } else if id == 0x06 {
        Some(InterruptType::ReceiverLineStatus)
    } else if id == 0x0c {
        Some(InterruptType::ReceptionTimeout)
    } else {
        None
    }
}

} // verus!
