//! Interrupt-driven UART support: register encodings, the async driver's
//! copier decisions, ring-buffer occupancy arithmetic and the ISR dispatch
//! decisions.

pub mod driver;
pub mod isr;
pub mod regs;
pub mod ring;
