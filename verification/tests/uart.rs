use std::cell::{Cell, RefCell};

use starry_drivers::uart::driver::{
    COPIER_BUF_SIZE, NAPI_BATCH_SIZE, NAPI_THRESHOLD, TracedPort, TxCompletion, TxCopier,
    TxSendOutcome,
    UartPort, napi_batch, napi_step,
};
use starry_drivers::uart::isr::{D1IsrAction, UartIsrAction, d1_uart_isr_handler, uart_isr_handler};
use starry_drivers::uart::regs::{
    Ier, InterruptType, ier_disable, ier_enable, ier_update, interrupt_type,
};
use starry_drivers::uart::ring::{occupied_len, ring_distance, vacant_len};

// ── Register encodings ────────────────────────────────────────────────

#[test]
fn iir_decoding() {
    assert_eq!(interrupt_type(0x01), None);
    assert_eq!(interrupt_type(0xc1), None);
    assert_eq!(interrupt_type(0x00), Some(InterruptType::ModemStatus));
    assert_eq!(
        interrupt_type(0xc2),
        Some(InterruptType::TransmitterHoldingRegisterEmpty)
    );
    assert_eq!(interrupt_type(0x04), Some(InterruptType::ReceivedDataReady));
    assert_eq!(interrupt_type(0x06), Some(InterruptType::ReceiverLineStatus));
    assert_eq!(interrupt_type(0xcc), Some(InterruptType::ReceptionTimeout));
    assert_eq!(interrupt_type(0x08), None);
}

#[test]
fn ier_read_modify_write() {
    assert_eq!(ier_update(0x00, Ier::data_ready(), Ier::empty()), 0x01);
    assert_eq!(ier_update(0x03, Ier::empty(), Ier::thr_empty()), 0x01);
    assert_eq!(ier_update(0x01, Ier::thr_empty(), Ier::thr_empty()), 0x01);
    assert_eq!(ier_enable(0x01, Ier::thr_empty()), 0x03);
    assert_eq!(ier_disable(0x03, Ier::data_ready()), 0x02);
    assert!(Ier { bits: 0x03 }.contains(Ier::thr_empty()));
    assert!(!Ier { bits: 0x01 }.contains(Ier::thr_empty()));
}

// ── ISR dispatch ──────────────────────────────────────────────────────

#[test]
fn ns16550_isr_dispatch() {
    assert_eq!(uart_isr_handler(0x04), UartIsrAction::RxWake);
    assert_eq!(uart_isr_handler(0x0c), UartIsrAction::RxWake);
    assert_eq!(uart_isr_handler(0x02), UartIsrAction::TxWake);
    assert_eq!(uart_isr_handler(0x06), UartIsrAction::Ignore);
    assert_eq!(uart_isr_handler(0x00), UartIsrAction::Ignore);
    assert_eq!(uart_isr_handler(0x01), UartIsrAction::Ignore);
}

#[test]
fn d1_isr_dispatch() {
    assert_eq!(
        d1_uart_isr_handler(0xc1, 0x60),
        D1IsrAction::NoPending {
            wake_tx: true,
            wake_drain: true
        }
    );
    assert_eq!(
        d1_uart_isr_handler(0x01, 0x20),
        D1IsrAction::NoPending {
            wake_tx: true,
            wake_drain: false
        }
    );
    assert_eq!(
        d1_uart_isr_handler(0x01, 0x00),
        D1IsrAction::NoPending {
            wake_tx: false,
            wake_drain: false
        }
    );
    assert_eq!(d1_uart_isr_handler(0xc4, 0), D1IsrAction::RxData);
    assert_eq!(d1_uart_isr_handler(0xc2, 0), D1IsrAction::TxEmpty);
    assert_eq!(d1_uart_isr_handler(0x06, 0), D1IsrAction::ClearLineStatus);
    assert_eq!(d1_uart_isr_handler(0x0c, 0), D1IsrAction::ClearLineStatus);
}

// ── Ring occupancy ────────────────────────────────────────────────────

#[test]
fn ring_occupancy_snapshots() {
    // Empty ring of 64.
    assert_eq!(occupied_len(0, 0, 64), 0);
    assert_eq!(vacant_len(0, 0, 64), 64);
    // After pushing 5 bytes.
    assert_eq!(occupied_len(0, 5, 64), 5);
    assert_eq!(vacant_len(0, 20, 64), 44);
    // Capacity 8: push 5, pop 3, push 5 more (wraps into the doubled range).
    assert_eq!(occupied_len(3, 5, 8), 2);
    assert_eq!(occupied_len(3, 10, 8), 7);
    assert_eq!(vacant_len(3, 5, 8), 6);
    assert_eq!(vacant_len(3, 7, 8), 4);
    // Full ring: the indices are one capacity apart.
    assert_eq!(occupied_len(0, 8, 8), 8);
    assert_eq!(vacant_len(0, 8, 8), 0);
    // Write index wrapped past the doubled range.
    assert_eq!(ring_distance(14, 2, 8), 4);
    assert_eq!(occupied_len(12, 4, 8), 8);
}

// ── RX copier NAPI bookkeeping ────────────────────────────────────────

#[test]
fn napi_batch_switches_at_threshold() {
    assert_eq!(napi_batch(0), COPIER_BUF_SIZE);
    assert_eq!(napi_batch(NAPI_THRESHOLD - 1), COPIER_BUF_SIZE);
    assert_eq!(napi_batch(NAPI_THRESHOLD), NAPI_BATCH_SIZE);
}

#[test]
fn napi_step_enables_rx_irq_below_threshold_and_on_exit() {
    let s = napi_step(0, 10);
    assert_eq!((s.consecutive, s.rx_irq_enables), (1, 1));
    let s = napi_step(NAPI_THRESHOLD - 1, 10);
    assert_eq!((s.consecutive, s.rx_irq_enables), (NAPI_THRESHOLD, 0));
    let s = napi_step(NAPI_THRESHOLD, 10);
    assert_eq!((s.consecutive, s.rx_irq_enables), (NAPI_THRESHOLD + 1, 0));
    let s = napi_step(NAPI_THRESHOLD + 3, 0);
    assert_eq!((s.consecutive, s.rx_irq_enables), (0, 2));
    let s = napi_step(5, 0);
    assert_eq!((s.consecutive, s.rx_irq_enables), (0, 1));
}

// ── TX copier ─────────────────────────────────────────────────────────

/// A UART whose FIFO accepts a scripted number of bytes per call.
struct ScriptedUart {
    accept: RefCell<Vec<usize>>,
    sent: RefCell<Vec<u8>>,
    ier: Cell<u8>,
    temt: Cell<bool>,
}

impl ScriptedUart {
    fn new(accept: Vec<usize>) -> Self {
        ScriptedUart {
            accept: RefCell::new(accept),
            sent: RefCell::new(Vec::new()),
            ier: Cell::new(0),
            temt: Cell::new(true),
        }
    }
}

impl UartPort for ScriptedUart {
    fn receive_bytes(&self, _buf: &mut [u8]) -> usize {
        0
    }
    fn send_bytes(&self, buf: &[u8]) -> usize {
        let mut accept = self.accept.borrow_mut();
        let n = if accept.is_empty() { 0 } else { accept.remove(0) };
        let n = n.min(buf.len());
        self.sent.borrow_mut().extend_from_slice(&buf[..n]);
        n
    }
    fn transmitter_empty(&self) -> bool {
        self.temt.get()
    }
    fn update_ier(&self, set: Ier, clear: Ier) {
        self.ier.set(ier_update(self.ier.get(), set, clear));
    }
}

#[test]
fn copier_sends_a_batch_and_drains() {
    let uart = ScriptedUart::new(vec![3, 0, 2]);
    let mut c = TxCopier::new();
    let buf = [1u8, 2, 3, 4, 5];
    assert!(c.begin_poll());
    c.refill(5);
    assert_eq!(c.staged_bytes(), 5);
    assert!(!c.tx_completion(true, true).is_drained());
    assert_eq!(c.send_fast(&mut TracedPort::new(&uart), &buf), TxSendOutcome::AllSent);
    assert_eq!(*uart.sent.borrow(), vec![1, 2, 3, 4, 5]);
    assert_eq!(c.staged_bytes(), 0);
    c.end_poll();
    assert!(!c.copier_active());
    assert!(c.tx_completion(true, true).is_drained());
    assert!(TxCopier::wait_transmitter_empty(&mut TracedPort::new(&uart)));
    let snap = c.tx_debug_snapshot(true, true);
    assert_eq!(snap.ring_pop_bytes, 5);
    assert_eq!(snap.hw_send_bytes, 5);
    assert_eq!(snap.staged_bytes, 0);
}

#[test]
fn copier_arms_thre_when_fifo_stays_full() {
    let uart = ScriptedUart::new(vec![1]);
    let mut c = TxCopier::new();
    let buf = [9u8; 4];
    c.begin_poll();
    c.refill(4);
    assert_eq!(c.send_fast(&mut TracedPort::new(&uart), &buf), TxSendOutcome::ArmThre);
    assert_eq!(c.staged_bytes(), 3);
    // The FIFO stays full through the slow poll: self-wake, copier inactive.
    assert_eq!(c.send_after_arm(&mut TracedPort::new(&uart), &buf), TxSendOutcome::YieldRetry);
    assert_eq!(uart.ier.get() & 0x02, 0x02, "THRE interrupt armed");
    assert!(!c.copier_active());
    assert_eq!(c.staged_bytes(), 3);
    assert!(!c.begin_poll(), "staged bytes are resumed, not refilled");
}

#[test]
fn copier_waits_for_isr_after_yield_retries() {
    let uart = ScriptedUart::new(vec![]);
    let mut c = TxCopier::new();
    let buf = [7u8; 2];
    c.begin_poll();
    c.refill(2);
    assert_eq!(c.send_fast(&mut TracedPort::new(&uart), &buf), TxSendOutcome::ArmThre);
    let mut outcomes = Vec::new();
    for _ in 0..5 {
        c.begin_poll();
        outcomes.push(c.send_after_arm(&mut TracedPort::new(&uart), &buf));
    }
    assert_eq!(outcomes[..4], [TxSendOutcome::YieldRetry; 4]);
    assert_eq!(outcomes[4], TxSendOutcome::IsrWait);
}

#[test]
fn copier_resumes_after_slow_poll_progress() {
    // Fast phase: 33 calls with no progress; recheck after arm: none; first
    // slow poll: progress.
    let mut script = vec![0; 34];
    script.push(1);
    let uart = ScriptedUart::new(script);
    let mut c = TxCopier::new();
    let buf = [5u8; 3];
    c.begin_poll();
    c.refill(3);
    assert_eq!(c.send_fast(&mut TracedPort::new(&uart), &buf), TxSendOutcome::ArmThre);
    assert_eq!(c.send_after_arm(&mut TracedPort::new(&uart), &buf), TxSendOutcome::Resume);
    assert!(c.copier_active());
    assert_eq!(c.staged_bytes(), 2);
}

#[test]
fn tx_debug_counters_record_pushes_and_reset() {
    let mut c = TxCopier::new();
    c.record_tx_push(10, 7);
    c.record_tx_push(5, 5);
    let s = c.tx_debug_snapshot(false, true);
    assert_eq!(s.user_push_calls, 2);
    assert_eq!(s.ring_empty, 0);
    assert_eq!(s.transmitter_empty, 1);
    c.reset_tx_debug();
    assert_eq!(c.tx_debug_snapshot(true, true).user_push_calls, 0);
}

#[test]
fn drained_needs_all_four_conditions() {
    let all = TxCompletion {
        ring_empty: true,
        copier_active: false,
        staged_bytes: 0,
        transmitter_empty: true,
    };
    assert!(all.is_drained());
    assert!(!TxCompletion { ring_empty: false, ..all }.is_drained());
    assert!(!TxCompletion { copier_active: true, ..all }.is_drained());
    assert!(!TxCompletion { staged_bytes: 1, ..all }.is_drained());
    assert!(!TxCompletion { transmitter_empty: false, ..all }.is_drained());
}

#[test]
fn drain_or_arm_arms_thre_only_while_transmitting() {
    let uart = ScriptedUart::new(vec![]);
    assert!(TxCopier::drain_or_arm(&mut TracedPort::new(&uart)));
    assert_eq!(uart.ier.get() & 0x02, 0, "an empty transmitter needs no THRE arm");
    uart.temt.set(false);
    assert!(!TxCopier::drain_or_arm(&mut TracedPort::new(&uart)));
    assert_eq!(uart.ier.get() & 0x02, 0x02, "THRE armed while transmitting");
    assert!(!TxCopier::idle_drain_check(&mut TracedPort::new(&uart)));
}
