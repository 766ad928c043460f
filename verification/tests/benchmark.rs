use std::cell::RefCell;

use starry_drivers::benchmark::{
    BenchState, get_stats, is_active, memory_usage, record_tx, run_rx_latency_test,
    run_rx_throughput_test, run_shell_test, start, start_cpu_measurement, stop,
    stop_cpu_measurement,
};
use starry_drivers::platform::early_console::EarlyConsole;
use starry_drivers::platform::smoke::{decimal_digits, print_decimal, sbi_version_parts};

#[test]
fn benchmark_counts_only_while_active() {
    let mut s = BenchState::new();
    assert!(!is_active(&s));
    record_tx(&mut s, 100);
    assert_eq!(s.tx_bytes, 0);
    start(&mut s, 1_000);
    assert!(is_active(&s));
    record_tx(&mut s, 64);
    record_tx(&mut s, 36);
    stop(&mut s);
    record_tx(&mut s, 7);
    assert!(!is_active(&s));
    assert_eq!(get_stats(&s, 5_000), (4_000, 100));
    start(&mut s, 6_000);
    assert_eq!(get_stats(&s, 6_000), (0, 0));
}

#[test]
fn benchmark_byte_count_wraps() {
    let mut s = BenchState::new();
    start(&mut s, 0);
    record_tx(&mut s, u64::MAX);
    record_tx(&mut s, 2);
    assert_eq!(s.tx_bytes, 1);
}

#[test]
fn cpu_measurement_saturates_at_zero() {
    let mut s = BenchState::new();
    start_cpu_measurement(&mut s, 1_000);
    assert_eq!(stop_cpu_measurement(&mut s, 1_750), 750);
    assert_eq!(s.cpu_cycles_end, 1_750);
    start_cpu_measurement(&mut s, 2_000);
    assert_eq!(stop_cpu_measurement(&mut s, 1_999), 0);
    assert_eq!(stop_cpu_measurement(&mut s, 2_000), 0);
}

#[test]
fn fixed_report_texts() {
    let m = memory_usage();
    assert_eq!(m.len(), 7);
    assert_eq!(m[0], "=== Console Memory Usage ===");
    assert_eq!(m[5], "Total: 0 KB");
    assert_eq!(
        run_rx_throughput_test()[3],
        "[BENCH] RX throughput test skipped (no buffer to measure)"
    );
    assert_eq!(
        run_rx_latency_test()[3],
        "[BENCH] RX latency test skipped (no buffer to measure)"
    );
    assert_eq!(run_shell_test(), vec![
        "[BENCH] Running Shell I/O test...",
        "[BENCH] Test: echo command",
        "[BENCH] Expected: echo output should appear",
        "[BENCH] Shell I/O test complete",
    ]);
}

#[test]
fn decimal_formatting() {
    assert_eq!(decimal_digits(0), b"0".to_vec());
    assert_eq!(decimal_digits(7), b"7".to_vec());
    assert_eq!(decimal_digits(10), b"10".to_vec());
    assert_eq!(decimal_digits(12345), b"12345".to_vec());
    assert_eq!(decimal_digits(u32::MAX), b"4294967295".to_vec());
}

struct Capture(RefCell<Vec<u8>>);

impl EarlyConsole for Capture {
    fn putchar(&self, ch: u8) {
        self.0.borrow_mut().push(ch);
    }
}

#[test]
fn print_decimal_emits_digits() {
    let c = Capture(RefCell::new(Vec::new()));
    print_decimal(&c, 2);
    c.write_str(".");
    print_decimal(&c, 0);
    print_decimal(&c, 907);
    assert_eq!(c.0.into_inner(), b"2.0907".to_vec());
}

#[test]
fn sbi_version_decoding() {
    assert_eq!(sbi_version_parts(0x0100_0000), (1, 0));
    assert_eq!(sbi_version_parts(0x0200_0003), (2, 3));
    assert_eq!(sbi_version_parts(0xff12_3456), (0x7f, 0x12_3456));
}
