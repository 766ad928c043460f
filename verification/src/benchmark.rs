//! Blocking-console benchmark bookkeeping: the active flag, transmitted
//! byte count, start timestamp and cycle-counter window, and the fixed
//! report texts of the console benchmark commands.
//!
//! The platform glue reads the clock and the cycle counter, keeps one
//! [`BenchState`] behind a lock, and prints what these functions return.

use vstd::prelude::*;

verus! {

/// State of the console benchmark.
#[derive(Debug, Clone, Copy, PartialEq, Eq, Structural)]
pub struct BenchState {
    /// Bytes transmitted while the benchmark was active.
    pub tx_bytes: u64,
    /// Monotonic start time, in nanoseconds.
    pub start_time: u64,
    /// Whether the benchmark is running.
    pub active: bool,
    /// Cycle counter at the start of a CPU measurement.
    pub cpu_cycles_start: u64,
    /// Cycle counter at the end of a CPU measurement.
    pub cpu_cycles_end: u64,
}

impl BenchState {
    /// An idle benchmark with zero counters.
    pub fn new() -> (s: Self)
        ensures
            s == (BenchState {
                tx_bytes: 0,
                start_time: 0,
                active: false,
                cpu_cycles_start: 0,
                cpu_cycles_end: 0,
            }),
    {
        BenchState { tx_bytes: 0, start_time: 0, active: false, cpu_cycles_start: 0, cpu_cycles_end: 0 }
    }
}

/// The state after starting at `now`.
pub open spec fn started(s: BenchState, now: u64) -> BenchState {
    BenchState { start_time: now, tx_bytes: 0, active: true, ..s }
}

/// The state after stopping.
pub open spec fn stopped(s: BenchState) -> BenchState {
    BenchState { active: false, ..s }
}

/// The state after recording `bytes` transmitted bytes.
pub open spec fn recorded(s: BenchState, bytes: u64) -> BenchState {
    if s.active {
        BenchState { tx_bytes: vstd::wrapping::u64_specs::wrapping_add(s.tx_bytes, bytes), ..s }
    } else {
        s
    }
}

/// Start the benchmark at time `now`: reset the byte count and activate.
pub fn start(state: &mut BenchState, now: u64)
    ensures
        *final(state) == started(*old(state), now),
{
    state.start_time = now;
    state.tx_bytes = 0;
    state.active = true;
}

/// Stop the benchmark (the glue then prints the report).
pub fn stop(state: &mut BenchState)
    ensures
        *final(state) == stopped(*old(state)),
{
    state.active = false;
}

/// Count `bytes` transmitted bytes, only while the benchmark is active
/// (wrapping).
pub fn record_tx(state: &mut BenchState, bytes: u64)
    ensures
        *final(state) == recorded(*old(state), bytes),
{
    if state.active {
        state.tx_bytes = state.tx_bytes.wrapping_add(bytes);
    }
}

/// Whether the benchmark is running.
pub fn is_active(state: &BenchState) -> (r: bool)
    ensures
        r == state.active,
{
    state.active
}

/// `(elapsed nanoseconds, transmitted bytes)` at time `now`.
pub fn get_stats(state: &BenchState, now: u64) -> (r: (u64, u64))
    requires
        now >= state.start_time,
    ensures
        r.0 == now - state.start_time,
        r.1 == state.tx_bytes,
{
    (now - state.start_time, state.tx_bytes)
}

/// Record the cycle counter at the start of a CPU measurement.
pub fn start_cpu_measurement(state: &mut BenchState, cycle: u64)
    ensures
        *final(state) == (BenchState { cpu_cycles_start: cycle, ..*old(state) }),
{
    state.cpu_cycles_start = cycle;
}

/// Record the cycle counter at the end of a CPU measurement and return the
/// cycles elapsed since its start (zero if the counter did not advance).
pub fn stop_cpu_measurement(state: &mut BenchState, cycle: u64) -> (cycles: u64)
    ensures
        *final(state) == (BenchState { cpu_cycles_end: cycle, ..*old(state) }),
        cycles == if cycle > old(state).cpu_cycles_start {
            cycle - old(state).cpu_cycles_start
        } else {
            0
        },
{
    state.cpu_cycles_end = cycle;
    let start = state.cpu_cycles_start;
    let end = state.cpu_cycles_end;
    if end > start {
        end - start
    } else {
        0
    }
}

/// Report lines of the console memory-usage command.
pub fn memory_usage() -> (lines: Vec<&'static str>)
    ensures
        lines@ == seq![
            "=== Console Memory Usage ===",
            "Console Type: Blocking (axhal::console)",
            "Buffer: None (direct hardware access)",
            "RX Buffer: 0 KB",
            "TX Buffer: 0 KB",
            "Total: 0 KB",
            "============================",
        ],
{
    let mut v: Vec<&'static str> = Vec::new();
    v.push("=== Console Memory Usage ===");
    v.push("Console Type: Blocking (axhal::console)");
    v.push("Buffer: None (direct hardware access)");
    v.push("RX Buffer: 0 KB");
    v.push("TX Buffer: 0 KB");
    v.push("Total: 0 KB");
    v.push("============================");
    v
}

/// Report lines of the console RX throughput test: the console has no ring
/// buffer, so the test is skipped.
pub fn run_rx_throughput_test() -> (lines: Vec<&'static str>)
    ensures
        lines@ == seq![
            "[BENCH] Running Console RX throughput test...",
            "[BENCH] Console has no Ring Buffer",
            "[BENCH] read_bytes() is non-blocking (try_receive)",
            "[BENCH] RX throughput test skipped (no buffer to measure)",
        ],
{
    let mut v: Vec<&'static str> = Vec::new();
    v.push("[BENCH] Running Console RX throughput test...");
    v.push("[BENCH] Console has no Ring Buffer");
    v.push("[BENCH] read_bytes() is non-blocking (try_receive)");
    v.push("[BENCH] RX throughput test skipped (no buffer to measure)");
    v
}

/// Report lines of the console RX latency test: the console has no ring
/// buffer, so the test is skipped.
pub fn run_rx_latency_test() -> (lines: Vec<&'static str>)
    ensures
        lines@ == seq![
            "[BENCH] Running Console RX latency test...",
            "[BENCH] Console has no Ring Buffer",
            "[BENCH] read_bytes() is non-blocking (try_receive)",
            "[BENCH] RX latency test skipped (no buffer to measure)",
        ],
{
    let mut v: Vec<&'static str> = Vec::new();
    v.push("[BENCH] Running Console RX latency test...");
    v.push("[BENCH] Console has no Ring Buffer");
    v.push("[BENCH] read_bytes() is non-blocking (try_receive)");
    v.push("[BENCH] RX latency test skipped (no buffer to measure)");
    v
}

/// Report lines of the shell I/O test.
pub fn run_shell_test() -> (lines: Vec<&'static str>)
    ensures
        lines@ == seq![
            "[BENCH] Running Shell I/O test...",
            "[BENCH] Test: echo command",
            "[BENCH] Expected: echo output should appear",
            "[BENCH] Shell I/O test complete",
        ],
{
    let mut v: Vec<&'static str> = Vec::new();
    v.push("[BENCH] Running Shell I/O test...");
    v.push("[BENCH] Test: echo command");
    v.push("[BENCH] Expected: echo output should appear");
    v.push("[BENCH] Shell I/O test complete");
    v
}

/// A benchmark run counts exactly the bytes recorded while it is active:
/// after `start`, `record_tx(a)`, `stop` and `record_tx(b)` the count is `a`
/// and the benchmark is inactive, whatever came before the start.
pub proof fn lemma_only_active_bytes_count(s0: BenchState, now: u64, a: u64, b: u64)
    ensures
        recorded(stopped(recorded(started(s0, now), a)), b).tx_bytes == a,
        !recorded(stopped(recorded(started(s0, now), a)), b).active,
        recorded(stopped(recorded(started(s0, now), a)), b).start_time == now,
{
}

} // verus!
