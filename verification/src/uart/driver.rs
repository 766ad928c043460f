//! Decisions of the async UART driver's RX and TX copier tasks.
//!
//! The RX copier reads from the UART and pushes into the RX ring, using
//! NAPI-style interrupt coalescing: after [`NAPI_THRESHOLD`] consecutive
//! successful reads it switches to polling with [`NAPI_BATCH_SIZE`] batches.
//! The TX copier pops batches from the TX ring and writes them to the UART
//! with a bounded fast-retry budget, a THRE-interrupt arm with a final
//! recheck, a bounded slow-poll fallback, and a bounded number of self-wake
//! yield retries before falling back to a pure interrupt wait.
//!
//! The task plumbing (futures, wakers, ring storage) stays with the OS glue;
//! this module owns the copier state and every decision it makes.

use vstd::prelude::*;

use super::regs::Ier;

verus! {

/// NAPI: consecutive successful reads before entering polling mode.
pub const NAPI_THRESHOLD: u32 = 16;
/// NAPI: batch size in polling mode.
pub const NAPI_BATCH_SIZE: usize = 64;
/// Copier buffer size for bulk operations.
pub const COPIER_BUF_SIZE: usize = 1024;
/// Maximum number of fast retries within a single poll when the UART FIFO is
/// full.
pub const TX_FAST_RETRY_LIMIT: usize = 32;
/// Maximum spin iterations waiting for UART TEMT after the last byte sent.
pub const TX_TEMT_POLL_LIMIT: u32 = 256;
/// Spin interval between `send_bytes` calls during the slow-poll fallback.
pub const TX_SLOW_POLL_SPINS: u32 = 256;
/// Maximum slow-poll iterations before falling back to the ISR wait.
pub const TX_SLOW_POLL_LIMIT: u32 = 4096;
/// Maximum self-wake yield retries before falling back to a pure ISR wait.
pub const TX_YIELD_RETRIES: u32 = 4;

/// UART hardware access used by the copier tasks.
///
/// Implementations provide interior-mutability-safe access to the UART so
/// that the RX and TX copiers never race.
pub trait UartPort {
    /// Read available bytes from the UART receive buffer; returns how many
    /// were read (possibly zero).
    fn receive_bytes(&self, buf: &mut [u8]) -> (n: usize)
        ensures
            n <= old(buf)@.len(),
            final(buf)@.len() == old(buf)@.len(),
    ;

    /// Write bytes to the UART transmit buffer; returns how many were
    /// accepted (possibly zero when the FIFO is full).
    fn send_bytes(&self, buf: &[u8]) -> (n: usize)
        ensures
            n <= buf@.len(),
    ;

    /// Whether both the FIFO and the shift register are drained.
    fn transmitter_empty(&self) -> bool;

    /// Atomically set the bits of `set` and clear the bits of `clear` in the
    /// interrupt enable register.
    fn update_ier(&self, set: Ier, clear: Ier);
}

// ── Traced port ────────────────────────────────────────────────────────

/// One `send_bytes` call: the bytes handed to the UART and how many of them
/// it accepted.
pub struct SendCall {
    pub bytes: Seq<u8>,
    pub accepted: nat,
}

/// A UART port handle that keeps a record of the transmit calls and
/// interrupt-enable updates made through it, so the copier's contracts can
/// say exactly what it handed to the UART.
pub struct TracedPort<'a, U: UartPort> {
    port: &'a U,
    calls: Ghost<Seq<SendCall>>,
    ier_updates: Ghost<Seq<(Ier, Ier)>>,
    temt_answers: Ghost<Seq<bool>>,
}

impl<'a, U: UartPort> TracedPort<'a, U> {
    /// Every `send_bytes` call made through this handle, in order.
    pub closed spec fn calls(&self) -> Seq<SendCall> {
        self.calls@
    }

    /// Every `(set, clear)` interrupt-enable update made through this
    /// handle, in order.
    pub closed spec fn ier_updates(&self) -> Seq<(Ier, Ier)> {
        self.ier_updates@
    }

    /// Every transmitter-empty answer read through this handle, in order.
    pub closed spec fn temt_answers(&self) -> Seq<bool> {
        self.temt_answers@
    }

    /// A handle on `port` with nothing recorded yet.
    pub fn new(port: &'a U) -> (t: Self)
        ensures
            t.calls() == Seq::<SendCall>::empty(),
            t.ier_updates() == Seq::<(Ier, Ier)>::empty(),
            t.temt_answers() == Seq::<bool>::empty(),
    {
        TracedPort {
            port,
            calls: Ghost(Seq::empty()),
            ier_updates: Ghost(Seq::empty()),
            temt_answers: Ghost(Seq::empty()),
        }
    }

    /// Hand `buf` to the UART; returns how many bytes it accepted.
    pub fn send_bytes(&mut self, buf: &[u8]) -> (n: usize)
        ensures
            n <= buf@.len(),
            final(self).calls() == old(self).calls().push(
                SendCall { bytes: buf@, accepted: n as nat },
            ),
            final(self).ier_updates() == old(self).ier_updates(),
            final(self).temt_answers() == old(self).temt_answers(),
    {
        let n = self.port.send_bytes(buf);
        proof {
            self.calls@ = self.calls@.push(SendCall { bytes: buf@, accepted: n as nat });
        }
        n
    }

    /// Set the bits of `set` and clear those of `clear` in the UART's
    /// interrupt enable register.
    pub fn update_ier(&mut self, set: Ier, clear: Ier)
        ensures
            final(self).ier_updates() == old(self).ier_updates().push((set, clear)),
            final(self).calls() == old(self).calls(),
            final(self).temt_answers() == old(self).temt_answers(),
    {
        self.port.update_ier(set, clear);
        proof {
            self.ier_updates@ = self.ier_updates@.push((set, clear));
        }
    }

    /// Whether the UART's transmitter is empty; the answer is recorded.
    pub fn transmitter_empty(&mut self) -> (r: bool)
        ensures
            final(self).temt_answers() == old(self).temt_answers().push(r),
            final(self).calls() == old(self).calls(),
            final(self).ier_updates() == old(self).ier_updates(),
    {
        let r = self.port.transmitter_empty();
        proof {
            self.temt_answers@ = self.temt_answers@.push(r);
        }
        r
    }
}

/// Bytes accepted over a sequence of calls.
pub open spec fn accepted_total(calls: Seq<SendCall>) -> nat
    decreases calls.len(),
{
    if calls.len() == 0 {
        0
    } else {
        accepted_total(calls.drop_last()) + calls.last().accepted
    }
}

/// The calls handed, in order, the staged bytes of `buf` from `cursor` up to
/// `pending`, each call starting where the previous answers left off.
pub open spec fn handed_in_order(calls: Seq<SendCall>, buf: Seq<u8>, cursor: int, pending: int) -> bool
    decreases calls.len(),
{
    if calls.len() == 0 {
        true
    } else {
        &&& handed_in_order(calls.drop_last(), buf, cursor, pending)
        &&& calls.last().bytes == buf.subrange(
            cursor + accepted_total(calls.drop_last()),
            pending,
        )
    }
}

/// The calls made after the first `before` ones of `all`.
pub open spec fn calls_after(all: Seq<SendCall>, before: Seq<SendCall>) -> Seq<SendCall> {
    all.skip(before.len() as int)
}

/// `all` starts with `before`.
pub open spec fn extends(all: Seq<SendCall>, before: Seq<SendCall>) -> bool {
    before.len() <= all.len() && all.take(before.len() as int) == before
}

proof fn lemma_calls_push(
    all: Seq<SendCall>,
    before: Seq<SendCall>,
    c: SendCall,
    buf: Seq<u8>,
    cursor: int,
    pending: int,
)
    requires
        extends(all, before),
    ensures
        extends(all.push(c), before),
        calls_after(all.push(c), before) == calls_after(all, before).push(c),
        accepted_total(calls_after(all.push(c), before)) == accepted_total(calls_after(all, before))
            + c.accepted,
        handed_in_order(calls_after(all.push(c), before), buf, cursor, pending) == (
        handed_in_order(calls_after(all, before), buf, cursor, pending) && c.bytes
            == buf.subrange(cursor + accepted_total(calls_after(all, before)), pending)),
{
    assert(all.push(c).take(before.len() as int) =~= all.take(before.len() as int));
    assert(calls_after(all.push(c), before) =~= calls_after(all, before).push(c));
    assert(calls_after(all, before).push(c).drop_last() =~= calls_after(all, before));
}

proof fn lemma_calls_none(all: Seq<SendCall>)
    ensures
        extends(all, all),
        calls_after(all, all) == Seq::<SendCall>::empty(),
{
    assert(all.take(all.len() as int) =~= all);
    assert(calls_after(all, all) =~= Seq::<SendCall>::empty());
}

// ── RX copier ──────────────────────────────────────────────────────────

/// Read size for the next RX poll: small NAPI batches in polling mode,
/// the full copier buffer otherwise.
pub fn napi_batch(consecutive: u32) -> (n: usize)
    ensures
        n == if consecutive >= NAPI_THRESHOLD { NAPI_BATCH_SIZE } else { COPIER_BUF_SIZE },
{
    if consecutive >= NAPI_THRESHOLD {
        NAPI_BATCH_SIZE
    } else {
        COPIER_BUF_SIZE
    }
}

/// Outcome of one RX poll's NAPI bookkeeping.
#[derive(Debug, Clone, Copy, PartialEq, Eq, Structural)]
pub struct NapiStep {
    /// Consecutive successful reads after this poll.
    pub consecutive: u32,
    /// How many times the poll re-enables the data-ready interrupt (0, 1 or
    /// 2: leaving polling mode on an empty read re-enables it, and so does
    /// every poll that ends below the threshold).
    pub rx_irq_enables: u8,
}

/// The NAPI counter after a read of `total` bytes (counting wraps).
pub open spec fn napi_next_spec(consecutive: u32, total: usize) -> u32 {
    if total > 0 {
        vstd::wrapping::u32_specs::wrapping_add(consecutive, 1)
    } else {
        0
    }
}

/// NAPI bookkeeping after one read of `total` bytes.
pub fn napi_step(consecutive: u32, total: usize) -> (s: NapiStep)
    ensures
        s.consecutive == napi_next_spec(consecutive, total),
        s.rx_irq_enables == (if consecutive >= NAPI_THRESHOLD && total == 0 { 1u8 } else { 0u8 }) + (
        if s.consecutive < NAPI_THRESHOLD { 1u8 } else { 0u8 }),
{
    let mut enables: u8 = 0;
    let next: u32;
    if consecutive >= NAPI_THRESHOLD {
        if total > 0 {
            next = consecutive.wrapping_add(1);
        } else {
            next = 0;
            enables = enables + 1;
        }
    } else {
        next = if total > 0 {
            consecutive.wrapping_add(1)
        } else {
            0
        };
    }
    if next < NAPI_THRESHOLD {
        enables = enables + 1;
    }
    NapiStep { consecutive: next, rx_irq_enables: enables }
}

/// An empty read always leaves polling mode and re-enables the data-ready
/// interrupt, so a quiet line never keeps the copier spinning.
pub proof fn lemma_empty_read_rearms_irq(consecutive: u32)
    ensures
        napi_next_spec(consecutive, 0) == 0,
        0 < NAPI_THRESHOLD,
{
}

// ── TX drain state ─────────────────────────────────────────────────────

/// Snapshot of TX drain progress for flush/tcdrain polling.
#[derive(Debug, Clone, Copy, PartialEq, Eq, Structural)]
pub struct TxCompletion {
    /// Whether the TX ring buffer is empty.
    pub ring_empty: bool,
    /// Whether the TX copier is currently inside a poll cycle.
    pub copier_active: bool,
    /// Bytes popped from the TX ring but not yet confirmed sent to the FIFO.
    pub staged_bytes: usize,
    /// Whether the UART shift register is empty.
    pub transmitter_empty: bool,
}

impl TxCompletion {
    /// Whether all four drain conditions hold.
    pub open spec fn drained(&self) -> bool {
        self.ring_empty && !self.copier_active && self.staged_bytes == 0 && self.transmitter_empty
    }

    /// Returns `true` when all four drain conditions are satisfied.
    pub fn is_drained(&self) -> (r: bool)
        ensures
            r == self.drained(),
    {
        self.ring_empty && !self.copier_active && self.staged_bytes == 0 && self.transmitter_empty
    }
}

/// Snapshot of TX path counters for board-side diagnostics.
#[derive(Debug, Clone, Copy, PartialEq, Eq, Structural)]
pub struct TxDebugSnapshot {
    /// Calls to the user-facing TX push path.
    pub user_push_calls: u64,
    /// Bytes requested by user-facing TX push calls.
    pub user_push_requested_bytes: u64,
    /// Bytes accepted into the TX ring by user-facing push calls.
    pub user_push_accepted_bytes: u64,
    /// Non-empty TX ring pop batches performed by the TX copier.
    pub ring_pop_calls: u64,
    /// Bytes popped from the TX ring by the TX copier.
    pub ring_pop_bytes: u64,
    /// Calls from the TX copier into `UartPort::send_bytes`.
    pub hw_send_calls: u64,
    /// Bytes reported as accepted by `UartPort::send_bytes`.
    pub hw_send_bytes: u64,
    /// `send_bytes` calls that returned zero.
    pub hw_send_zero: u64,
    /// Largest single positive `send_bytes` return value.
    pub hw_send_max_chunk: u64,
    /// Times the TX copier exhausted its no-progress retry budget.
    pub no_progress_budget_exhausted: u64,
    /// Times slow-poll ran the full limit without progress.
    pub slow_poll_exhausted: u64,
    /// Times yield retries ran out and the copier fell back to the ISR wait.
    pub yield_retries_exhausted: u64,
    /// Whether the TX ring was empty in the snapshot.
    pub ring_empty: u64,
    /// Whether the TX copier was active in the snapshot.
    pub copier_active: u64,
    /// Bytes staged by the TX copier but not yet reported sent.
    pub staged_bytes: u64,
    /// Whether the UART transmitter was empty in the snapshot.
    pub transmitter_empty: u64,
}

/// One wrapping addition to a diagnostic counter.
pub open spec fn add_wrap(x: u64, n: u64) -> u64 {
    vstd::wrapping::u64_specs::wrapping_add(x, n)
}

/// TX path diagnostic counters.
#[derive(Debug, Clone, Copy, PartialEq, Eq, Structural)]
pub struct TxDebugCounters {
    pub user_push_calls: u64,
    pub user_push_requested_bytes: u64,
    pub user_push_accepted_bytes: u64,
    pub ring_pop_calls: u64,
    pub ring_pop_bytes: u64,
    pub hw_send_calls: u64,
    pub hw_send_bytes: u64,
    pub hw_send_zero: u64,
    pub hw_send_max_chunk: u64,
    pub no_progress_budget_exhausted: u64,
    pub slow_poll_exhausted: u64,
    pub yield_retries_exhausted: u64,
}

/// The counters after one `send_bytes` call that accepted `sent` bytes.
pub open spec fn count_send_spec(c: TxDebugCounters, sent: u64) -> TxDebugCounters {
    TxDebugCounters {
        hw_send_calls: add_wrap(c.hw_send_calls, 1),
        hw_send_bytes: if sent > 0 { add_wrap(c.hw_send_bytes, sent) } else { c.hw_send_bytes },
        hw_send_max_chunk: if sent > 0 && sent > c.hw_send_max_chunk {
            sent
        } else {
            c.hw_send_max_chunk
        },
        hw_send_zero: if sent > 0 { c.hw_send_zero } else { add_wrap(c.hw_send_zero, 1) },
        ..c
    }
}

impl TxDebugCounters {
    /// All counters zero.
    pub open spec fn is_zero(&self) -> bool {
        &&& self.user_push_calls == 0
        &&& self.user_push_requested_bytes == 0
        &&& self.user_push_accepted_bytes == 0
        &&& self.ring_pop_calls == 0
        &&& self.ring_pop_bytes == 0
        &&& self.hw_send_calls == 0
        &&& self.hw_send_bytes == 0
        &&& self.hw_send_zero == 0
        &&& self.hw_send_max_chunk == 0
        &&& self.no_progress_budget_exhausted == 0
        &&& self.slow_poll_exhausted == 0
        &&& self.yield_retries_exhausted == 0
    }

    /// Zeroed counters.
    pub fn new() -> (c: Self)
        ensures
            c.is_zero(),
    {
        TxDebugCounters {
            user_push_calls: 0,
            user_push_requested_bytes: 0,
            user_push_accepted_bytes: 0,
            ring_pop_calls: 0,
            ring_pop_bytes: 0,
            hw_send_calls: 0,
            hw_send_bytes: 0,
            hw_send_zero: 0,
            hw_send_max_chunk: 0,
            no_progress_budget_exhausted: 0,
            slow_poll_exhausted: 0,
            yield_retries_exhausted: 0,
        }
    }

    /// Reset every counter without touching TX data-path state.
    pub fn reset(&mut self)
        ensures
            final(self).is_zero(),
    {
        *self = Self::new();
    }

    /// Record a user-facing TX push of `requested` bytes, `accepted` of which
    /// entered the ring.
    pub fn record_tx_push(&mut self, requested: usize, accepted: usize)
        ensures
            *final(self) == (TxDebugCounters {
                user_push_calls: add_wrap(old(self).user_push_calls, 1),
                user_push_requested_bytes: add_wrap(
                    old(self).user_push_requested_bytes,
                    requested as u64,
                ),
                user_push_accepted_bytes: add_wrap(
                    old(self).user_push_accepted_bytes,
                    accepted as u64,
                ),
                ..*old(self)
            }),
    {
        self.user_push_calls = self.user_push_calls.wrapping_add(1);
        self.user_push_requested_bytes = self.user_push_requested_bytes.wrapping_add(
            requested as u64,
        );
        self.user_push_accepted_bytes = self.user_push_accepted_bytes.wrapping_add(
            accepted as u64,
        );
    }

    /// Record one `send_bytes` call that accepted `sent` bytes.
    fn count_send(&mut self, sent: usize)
        ensures
            *final(self) == count_send_spec(*old(self), sent as u64),
    {
        self.hw_send_calls = self.hw_send_calls.wrapping_add(1);
        if sent > 0 {
            self.hw_send_bytes = self.hw_send_bytes.wrapping_add(sent as u64);
            if sent as u64 > self.hw_send_max_chunk {
                self.hw_send_max_chunk = sent as u64;
            }
        } else {
            self.hw_send_zero = self.hw_send_zero.wrapping_add(1);
        }
    }

    /// Snapshot of the counters together with a drain-state snapshot.
    pub fn tx_debug_snapshot(&self, c: TxCompletion) -> (s: TxDebugSnapshot)
        ensures
            s.user_push_calls == self.user_push_calls,
            s.user_push_requested_bytes == self.user_push_requested_bytes,
            s.user_push_accepted_bytes == self.user_push_accepted_bytes,
            s.ring_pop_calls == self.ring_pop_calls,
            s.ring_pop_bytes == self.ring_pop_bytes,
            s.hw_send_calls == self.hw_send_calls,
            s.hw_send_bytes == self.hw_send_bytes,
            s.hw_send_zero == self.hw_send_zero,
            s.hw_send_max_chunk == self.hw_send_max_chunk,
            s.no_progress_budget_exhausted == self.no_progress_budget_exhausted,
            s.slow_poll_exhausted == self.slow_poll_exhausted,
            s.yield_retries_exhausted == self.yield_retries_exhausted,
            s.ring_empty == (if c.ring_empty { 1u64 } else { 0u64 }),
            s.copier_active == (if c.copier_active { 1u64 } else { 0u64 }),
            s.staged_bytes == c.staged_bytes as u64,
            s.transmitter_empty == (if c.transmitter_empty { 1u64 } else { 0u64 }),
    {
        TxDebugSnapshot {
            user_push_calls: self.user_push_calls,
            user_push_requested_bytes: self.user_push_requested_bytes,
            user_push_accepted_bytes: self.user_push_accepted_bytes,
            ring_pop_calls: self.ring_pop_calls,
            ring_pop_bytes: self.ring_pop_bytes,
            hw_send_calls: self.hw_send_calls,
            hw_send_bytes: self.hw_send_bytes,
            hw_send_zero: self.hw_send_zero,
            hw_send_max_chunk: self.hw_send_max_chunk,
            no_progress_budget_exhausted: self.no_progress_budget_exhausted,
            slow_poll_exhausted: self.slow_poll_exhausted,
            yield_retries_exhausted: self.yield_retries_exhausted,
            ring_empty: if c.ring_empty { 1 } else { 0 },
            copier_active: if c.copier_active { 1 } else { 0 },
            staged_bytes: c.staged_bytes as u64,
            transmitter_empty: if c.transmitter_empty { 1 } else { 0 },
        }
    }
}

// ── TX copier ──────────────────────────────────────────────────────────

/// Busy-wait hint between slow-poll retries.
#[verifier::external_body]
fn spin_hint() {
    core::hint::spin_loop();
}

/// Where a TX copier send phase stopped.
#[derive(Debug, Clone, Copy, PartialEq, Eq, Structural)]
pub enum TxSendOutcome {
    /// Every staged byte reached the UART FIFO.
    AllSent,
    /// The fast retry budget ran out: register the TX waker, then call
    /// [`TxCopier::send_after_arm`].
    ArmThre,
    /// The slow poll made progress: resume with [`TxCopier::send_fast`].
    Resume,
    /// Slow poll exhausted; self-wake and return pending (copier inactive).
    YieldRetry,
    /// Yield retries exhausted; wait for the THRE interrupt (copier inactive).
    IsrWait,
}

/// State of the TX copier task and the drain-state it publishes.
///
/// `pending` bytes of the copier buffer were popped from the ring and the
/// first `cursor` of them were already accepted by the UART; the rest are
/// staged. `staged_bytes` always equals `pending - cursor`.
pub struct TxCopier {
    pending: usize,
    cursor: usize,
    yield_retries: u32,
    staged_bytes: usize,
    copier_active: bool,
    debug: TxDebugCounters,
}

impl TxCopier {
    /// The copier's bookkeeping invariant.
    pub closed spec fn wf(&self) -> bool {
        &&& self.cursor <= self.pending <= COPIER_BUF_SIZE
        &&& self.staged_bytes == self.pending - self.cursor
    }

    /// Bytes popped from the ring in the current batch.
    pub closed spec fn pending_spec(&self) -> nat {
        self.pending as nat
    }

    /// Bytes of the current batch already accepted by the UART.
    pub closed spec fn cursor_spec(&self) -> nat {
        self.cursor as nat
    }

    /// Self-wake retries used since the last slow-poll progress.
    pub closed spec fn yield_retries_spec(&self) -> u32 {
        self.yield_retries
    }

    /// Whether the copier is inside a poll cycle.
    pub closed spec fn active_spec(&self) -> bool {
        self.copier_active
    }

    /// Diagnostic counters of the TX path.
    pub closed spec fn counters(&self) -> TxDebugCounters {
        self.debug
    }

    /// A fresh copier: nothing staged, not active, zero counters.
    pub fn new() -> (c: Self)
        ensures
            c.wf(),
            c.pending_spec() == 0,
            c.cursor_spec() == 0,
            c.yield_retries_spec() == 0,
            !c.active_spec(),
            c.counters().is_zero(),
    {
        TxCopier {
            pending: 0,
            cursor: 0,
            yield_retries: 0,
            staged_bytes: 0,
            copier_active: false,
            debug: TxDebugCounters::new(),
        }
    }

    /// Bytes popped from the TX ring but not yet accepted by the UART.
    pub fn staged_bytes(&self) -> (n: usize)
        requires
            self.wf(),
        ensures
            n == self.pending_spec() - self.cursor_spec(),
    {
        self.staged_bytes
    }

    /// Whether the copier is inside a poll cycle.
    pub fn copier_active(&self) -> (r: bool)
        ensures
            r == self.active_spec(),
    {
        self.copier_active
    }

    /// Drain-state snapshot from this copier and the observed ring and
    /// transmitter state.
    pub fn tx_completion(&self, ring_empty: bool, transmitter_empty: bool) -> (c: TxCompletion)
        requires
            self.wf(),
        ensures
            c.ring_empty == ring_empty,
            c.copier_active == self.active_spec(),
            c.staged_bytes == self.pending_spec() - self.cursor_spec(),
            c.transmitter_empty == transmitter_empty,
    {
        TxCompletion {
            ring_empty,
            copier_active: self.copier_active,
            staged_bytes: self.staged_bytes,
            transmitter_empty,
        }
    }

    /// Record a user-facing TX push of `requested` bytes, `accepted` of which
    /// entered the ring.
    pub fn record_tx_push(&mut self, requested: usize, accepted: usize)
        requires
            old(self).wf(),
        ensures
            final(self).wf(),
            final(self).pending_spec() == old(self).pending_spec(),
            final(self).cursor_spec() == old(self).cursor_spec(),
            final(self).active_spec() == old(self).active_spec(),
            final(self).yield_retries_spec() == old(self).yield_retries_spec(),
            final(self).counters() == (TxDebugCounters {
                user_push_calls: add_wrap(old(self).counters().user_push_calls, 1),
                user_push_requested_bytes: add_wrap(
                    old(self).counters().user_push_requested_bytes,
                    requested as u64,
                ),
                user_push_accepted_bytes: add_wrap(
                    old(self).counters().user_push_accepted_bytes,
                    accepted as u64,
                ),
                ..old(self).counters()
            }),
    {
        self.debug.record_tx_push(requested, accepted);
    }

    /// Reset the diagnostic counters without changing TX data-path state.
    pub fn reset_tx_debug(&mut self)
        requires
            old(self).wf(),
        ensures
            final(self).wf(),
            final(self).pending_spec() == old(self).pending_spec(),
            final(self).cursor_spec() == old(self).cursor_spec(),
            final(self).active_spec() == old(self).active_spec(),
            final(self).yield_retries_spec() == old(self).yield_retries_spec(),
            final(self).counters().is_zero(),
    {
        self.debug.reset();
    }

    /// Snapshot of the diagnostic counters and of the drain state.
    pub fn tx_debug_snapshot(&self, ring_empty: bool, transmitter_empty: bool) -> (s:
        TxDebugSnapshot)
        requires
            self.wf(),
        ensures
            s.user_push_calls == self.counters().user_push_calls,
            s.ring_pop_bytes == self.counters().ring_pop_bytes,
            s.hw_send_bytes == self.counters().hw_send_bytes,
            s.ring_empty == (if ring_empty { 1u64 } else { 0u64 }),
            s.copier_active == (if self.active_spec() { 1u64 } else { 0u64 }),
            s.staged_bytes == (self.pending_spec() - self.cursor_spec()) as u64,
            s.transmitter_empty == (if transmitter_empty { 1u64 } else { 0u64 }),
    {
        let c = self.tx_completion(ring_empty, transmitter_empty);
        self.debug.tx_debug_snapshot(c)
    }

    /// Enter a poll cycle. Returns `true` when every staged byte was sent,
    /// so the next batch must be popped from the ring (then call
    /// [`Self::refill`]).
    pub fn begin_poll(&mut self) -> (needs_refill: bool)
        requires
            old(self).wf(),
        ensures
            final(self).wf(),
            final(self).active_spec(),
            needs_refill == (old(self).cursor_spec() == old(self).pending_spec()),
            final(self).pending_spec() == old(self).pending_spec(),
            final(self).cursor_spec() == old(self).cursor_spec(),
            final(self).yield_retries_spec() == old(self).yield_retries_spec(),
            final(self).counters() == old(self).counters(),
    {
        self.copier_active = true;
        self.cursor >= self.pending
    }

    /// Install a new batch of `popped` bytes (popped into the copier buffer
    /// from the ring). An empty batch leaves nothing staged.
    pub fn refill(&mut self, popped: usize)
        requires
            old(self).wf(),
            old(self).cursor_spec() == old(self).pending_spec(),
            popped <= COPIER_BUF_SIZE,
        ensures
            final(self).wf(),
            final(self).pending_spec() == popped,
            final(self).cursor_spec() == 0,
            final(self).active_spec() == old(self).active_spec(),
            final(self).yield_retries_spec() == old(self).yield_retries_spec(),
            final(self).counters() == (if popped > 0 {
                TxDebugCounters {
                    ring_pop_calls: add_wrap(old(self).counters().ring_pop_calls, 1),
                    ring_pop_bytes: add_wrap(old(self).counters().ring_pop_bytes, popped as u64),
                    ..old(self).counters()
                }
            } else {
                old(self).counters()
            }),
    {
        self.pending = popped;
        self.cursor = 0;
        if popped > 0 {
            self.debug.ring_pop_calls = self.debug.ring_pop_calls.wrapping_add(1);
            self.debug.ring_pop_bytes = self.debug.ring_pop_bytes.wrapping_add(popped as u64);
            self.staged_bytes = self.staged_bytes + popped;
        }
    }

    /// Leave the poll cycle (the task returns pending).
    pub fn end_poll(&mut self)
        requires
            old(self).wf(),
        ensures
            final(self).wf(),
            !final(self).active_spec(),
            final(self).pending_spec() == old(self).pending_spec(),
            final(self).cursor_spec() == old(self).cursor_spec(),
            final(self).yield_retries_spec() == old(self).yield_retries_spec(),
            final(self).counters() == old(self).counters(),
    {
        self.copier_active = false;
    }

    /// One `send_bytes` call for the staged part of `buf`; returns the
    /// number of bytes the UART accepted.
    fn send_once<U: UartPort>(&mut self, uart: &mut TracedPort<U>, buf: &[u8]) -> (sent: usize)
        requires
            old(self).wf(),
            old(self).pending_spec() <= buf@.len(),
        ensures
            final(self).wf(),
            final(self).pending_spec() == old(self).pending_spec(),
            final(self).cursor_spec() == old(self).cursor_spec() + sent,
            final(self).active_spec() == old(self).active_spec(),
            final(self).yield_retries_spec() == old(self).yield_retries_spec(),
            final(self).counters() == count_send_spec(old(self).counters(), sent as u64),
            final(uart).calls() == old(uart).calls().push(
                SendCall {
                    bytes: buf@.subrange(
                        old(self).cursor_spec() as int,
                        old(self).pending_spec() as int,
                    ),
                    accepted: sent as nat,
                },
            ),
            final(uart).ier_updates() == old(uart).ier_updates(),
    {
        let staged = &buf[self.cursor..self.pending];
        assert(staged@ == buf@.subrange(self.cursor as int, self.pending as int));
        let sent = uart.send_bytes(staged);
        self.debug.count_send(sent);
        self.cursor = self.cursor + sent;
        if sent > 0 {
            self.staged_bytes = self.staged_bytes - sent;
        }
        sent
    }

    /// Fast send phase: write the staged bytes, retrying immediately while the
    /// UART makes progress and at most [`TX_FAST_RETRY_LIMIT`] times in a row
    /// without progress. Returns [`TxSendOutcome::AllSent`] when the batch is
    /// fully accepted, otherwise [`TxSendOutcome::ArmThre`].
    ///
    /// Every call hands the UART exactly the bytes still staged, and the
    /// cursor advances by each answer.
    pub fn send_fast<U: UartPort>(&mut self, uart: &mut TracedPort<U>, buf: &[u8]) -> (out:
        TxSendOutcome)
        requires
            old(self).wf(),
            old(self).pending_spec() <= buf@.len(),
        ensures
            final(self).wf(),
            final(self).pending_spec() == old(self).pending_spec(),
            old(self).cursor_spec() <= final(self).cursor_spec(),
            final(self).active_spec() == old(self).active_spec(),
            final(self).yield_retries_spec() == old(self).yield_retries_spec(),
            out == TxSendOutcome::AllSent || out == TxSendOutcome::ArmThre,
            (out == TxSendOutcome::AllSent) == (final(self).cursor_spec()
                == final(self).pending_spec()),
            out == TxSendOutcome::ArmThre ==> final(self).counters().no_progress_budget_exhausted
                == add_wrap(old(self).counters().no_progress_budget_exhausted, 1),
            extends(final(uart).calls(), old(uart).calls()),
            ({
                let made = calls_after(final(uart).calls(), old(uart).calls());
                &&& made.len() >= 1
                &&& handed_in_order(
                    made,
                    buf@,
                    old(self).cursor_spec() as int,
                    old(self).pending_spec() as int,
                )
                &&& final(self).cursor_spec() == old(self).cursor_spec() + accepted_total(made)
                &&& out == TxSendOutcome::ArmThre ==> made.len() > TX_FAST_RETRY_LIMIT && forall|
                    j: int,
                |
                    made.len() - (TX_FAST_RETRY_LIMIT + 1) <= j < made.len() ==> #[trigger] made[j].accepted
                        == 0
            }),
            final(uart).ier_updates() == old(uart).ier_updates(),
    {
        let mut retries: usize = 0;
        proof {
            lemma_calls_none(uart.calls());
        }
        loop
            invariant
                self.wf(),
                self.pending_spec() == old(self).pending_spec(),
                old(self).cursor_spec() <= self.cursor_spec(),
                self.active_spec() == old(self).active_spec(),
                self.yield_retries_spec() == old(self).yield_retries_spec(),
                self.pending_spec() <= buf@.len(),
                retries <= TX_FAST_RETRY_LIMIT,
                self.counters().no_progress_budget_exhausted
                    == old(self).counters().no_progress_budget_exhausted,
                extends(uart.calls(), old(uart).calls()),
                handed_in_order(
                    calls_after(uart.calls(), old(uart).calls()),
                    buf@,
                    old(self).cursor_spec() as int,
                    old(self).pending_spec() as int,
                ),
                self.cursor_spec() == old(self).cursor_spec() + accepted_total(
                    calls_after(uart.calls(), old(uart).calls()),
                ),
                retries <= calls_after(uart.calls(), old(uart).calls()).len(),
                forall|j: int|
                    calls_after(uart.calls(), old(uart).calls()).len() - retries <= j < calls_after(
                        uart.calls(),
                        old(uart).calls(),
                    ).len() ==> #[trigger] calls_after(uart.calls(), old(uart).calls())[j].accepted
                        == 0,
                uart.ier_updates() == old(uart).ier_updates(),
            decreases self.pending_spec() - self.cursor_spec(), TX_FAST_RETRY_LIMIT - retries,
        {
            let ghost before = uart.calls();
            let ghost cur = self.cursor_spec();
            let sent = self.send_once(uart, buf);
            proof {
                lemma_calls_push(
                    before,
                    old(uart).calls(),
                    SendCall {
                        bytes: buf@.subrange(cur as int, self.pending_spec() as int),
                        accepted: sent as nat,
                    },
                    buf@,
                    old(self).cursor_spec() as int,
                    old(self).pending_spec() as int,
                );
            }
            if self.cursor >= self.pending {
                return TxSendOutcome::AllSent;
            }
            if sent > 0 {
                retries = 0;
                continue;
            }
            retries = retries + 1;
            if retries <= TX_FAST_RETRY_LIMIT {
                continue;
            }
            self.debug.no_progress_budget_exhausted =
                self.debug.no_progress_budget_exhausted.wrapping_add(1);
            return TxSendOutcome::ArmThre;
        }
    }

    /// Phase after the TX waker was registered: enable the THRE interrupt,
    /// recheck once, then slow-poll (spin, retry) up to
    /// [`TX_SLOW_POLL_LIMIT`] times. Progress resets the retry budgets
    /// ([`TxSendOutcome::Resume`]); without progress the copier self-wakes up
    /// to [`TX_YIELD_RETRIES`] times, then waits for the interrupt. Either
    /// way the copier leaves the poll cycle inactive.
    ///
    /// Every call hands the UART exactly the bytes still staged, and the
    /// cursor advances by each answer.
    pub fn send_after_arm<U: UartPort>(&mut self, uart: &mut TracedPort<U>, buf: &[u8]) -> (out:
        TxSendOutcome)
        requires
            old(self).wf(),
            old(self).pending_spec() <= buf@.len(),
            old(self).cursor_spec() < old(self).pending_spec(),
        ensures
            final(self).wf(),
            final(self).pending_spec() == old(self).pending_spec(),
            old(self).cursor_spec() <= final(self).cursor_spec(),
            out != TxSendOutcome::ArmThre,
            out == TxSendOutcome::AllSent ==> final(self).cursor_spec() == final(self).pending_spec(),
            out == TxSendOutcome::AllSent ==> final(self).active_spec() == old(self).active_spec()
                && final(self).yield_retries_spec() == old(self).yield_retries_spec(),
            out == TxSendOutcome::Resume ==> final(self).yield_retries_spec() == 0
                && final(self).active_spec() == old(self).active_spec()
                && old(self).cursor_spec() < final(self).cursor_spec(),
            (out == TxSendOutcome::YieldRetry || out == TxSendOutcome::IsrWait) ==> final(self).counters().slow_poll_exhausted
                == add_wrap(old(self).counters().slow_poll_exhausted, 1),
            out == TxSendOutcome::YieldRetry ==> !final(self).active_spec()
                && final(self).cursor_spec() < final(self).pending_spec()
                && final(self).yield_retries_spec() == vstd::wrapping::u32_specs::wrapping_add(
                old(self).yield_retries_spec(),
                1,
            ) && final(self).yield_retries_spec() <= TX_YIELD_RETRIES,
            out == TxSendOutcome::IsrWait ==> !final(self).active_spec()
                && final(self).cursor_spec() < final(self).pending_spec()
                && final(self).yield_retries_spec() == vstd::wrapping::u32_specs::wrapping_add(
                old(self).yield_retries_spec(),
                1,
            ) && (old(self).yield_retries_spec() >= TX_YIELD_RETRIES
                || old(self).yield_retries_spec() == u32::MAX),
            final(uart).ier_updates() == old(uart).ier_updates().push(
                (Ier { bits: 0x02 }, Ier { bits: 0 }),
            ),
            extends(final(uart).calls(), old(uart).calls()),
            ({
                let made = calls_after(final(uart).calls(), old(uart).calls());
                &&& 1 <= made.len() <= 1 + TX_SLOW_POLL_LIMIT
                &&& handed_in_order(
                    made,
                    buf@,
                    old(self).cursor_spec() as int,
                    old(self).pending_spec() as int,
                )
                &&& final(self).cursor_spec() == old(self).cursor_spec() + accepted_total(made)
                &&& forall|j: int| 1 <= j < made.len() - 1 ==> #[trigger] made[j].accepted == 0
                &&& out == TxSendOutcome::AllSent ==> made.len() == 1
                &&& out == TxSendOutcome::Resume ==> made.len() >= 2 && made.last().accepted > 0
                &&& (out == TxSendOutcome::YieldRetry || out == TxSendOutcome::IsrWait) ==> made.len()
                    == 1 + TX_SLOW_POLL_LIMIT && made.last().accepted == 0
            }),
    {
        uart.update_ier(Ier::thr_empty(), Ier::empty());
        proof {
            lemma_calls_none(uart.calls());
        }
        let ghost before = uart.calls();
        let ghost cur0 = self.cursor_spec();
        let sent = self.send_once(uart, buf);
        proof {
            lemma_calls_push(
                before,
                old(uart).calls(),
                SendCall {
                    bytes: buf@.subrange(cur0 as int, self.pending_spec() as int),
                    accepted: sent as nat,
                },
                buf@,
                old(self).cursor_spec() as int,
                old(self).pending_spec() as int,
            );
        }
        if self.cursor >= self.pending {
            return TxSendOutcome::AllSent;
        }
        let mut slow_polls: u32 = 0;
        let mut made_progress = false;
        while slow_polls < TX_SLOW_POLL_LIMIT
            invariant_except_break
                !made_progress,
            invariant
                self.wf(),
                self.pending_spec() == old(self).pending_spec(),
                self.pending_spec() <= buf@.len(),
                self.cursor_spec() < self.pending_spec() || made_progress,
                made_progress ==> old(self).cursor_spec() < self.cursor_spec(),
                !made_progress ==> self.cursor_spec() == old(self).cursor_spec() + sent,
                self.active_spec() == old(self).active_spec(),
                self.yield_retries_spec() == old(self).yield_retries_spec(),
                self.counters().slow_poll_exhausted == old(self).counters().slow_poll_exhausted,
                slow_polls <= TX_SLOW_POLL_LIMIT,
                uart.ier_updates() == old(uart).ier_updates().push(
                    (Ier { bits: 0x02 }, Ier { bits: 0 }),
                ),
                extends(uart.calls(), old(uart).calls()),
                handed_in_order(
                    calls_after(uart.calls(), old(uart).calls()),
                    buf@,
                    old(self).cursor_spec() as int,
                    old(self).pending_spec() as int,
                ),
                self.cursor_spec() == old(self).cursor_spec() + accepted_total(
                    calls_after(uart.calls(), old(uart).calls()),
                ),
                calls_after(uart.calls(), old(uart).calls()).len() == 1 + slow_polls,
                forall|j: int|
                    1 <= j < calls_after(uart.calls(), old(uart).calls()).len() - 1
                        ==> #[trigger] calls_after(uart.calls(), old(uart).calls())[j].accepted
                        == 0,
                !made_progress ==> forall|j: int|
                    1 <= j < calls_after(uart.calls(), old(uart).calls()).len()
                        ==> #[trigger] calls_after(uart.calls(), old(uart).calls())[j].accepted
                        == 0,
                made_progress ==> calls_after(uart.calls(), old(uart).calls()).len() >= 2
                    && calls_after(uart.calls(), old(uart).calls()).last().accepted > 0,
            ensures
                !made_progress ==> slow_polls == TX_SLOW_POLL_LIMIT,
            decreases TX_SLOW_POLL_LIMIT - slow_polls,
        {
            slow_polls = slow_polls + 1;
            let mut spins: u32 = 0;
            while spins < TX_SLOW_POLL_SPINS
                invariant
                    spins <= TX_SLOW_POLL_SPINS,
                decreases TX_SLOW_POLL_SPINS - spins,
            {
                spin_hint();
                spins = spins + 1;
            }
            let ghost before = uart.calls();
            let ghost cur = self.cursor_spec();
            let progress = self.send_once(uart, buf);
            proof {
                lemma_calls_push(
                    before,
                    old(uart).calls(),
                    SendCall {
                        bytes: buf@.subrange(cur as int, self.pending_spec() as int),
                        accepted: progress as nat,
                    },
                    buf@,
                    old(self).cursor_spec() as int,
                    old(self).pending_spec() as int,
                );
                let prev = calls_after(before, old(uart).calls());
                let made = calls_after(uart.calls(), old(uart).calls());
                assert(made.len() == prev.len() + 1);
                assert forall|j: int| 1 <= j < prev.len() implies #[trigger] made[j].accepted
                    == 0 by {
                    assert(made[j] == prev[j]);
                }
            }
            if progress > 0 {
                made_progress = true;
                break;
            }
        }
        if made_progress {
            // Progress (even if it completed the batch) restarts the fast
            // phase with fresh retry budgets.
            self.yield_retries = 0;
            return TxSendOutcome::Resume;
        }
        self.debug.slow_poll_exhausted = self.debug.slow_poll_exhausted.wrapping_add(1);
        self.yield_retries = self.yield_retries.wrapping_add(1);
        if self.yield_retries <= TX_YIELD_RETRIES {
            self.copier_active = false;
            return TxSendOutcome::YieldRetry;
        }
        self.debug.yield_retries_exhausted = self.debug.yield_retries_exhausted.wrapping_add(1);
        self.copier_active = false;
        TxSendOutcome::IsrWait
    }

    /// With nothing left to send: when the transmitter reads empty the drain
    /// waiters can be woken now (`true`, no register change); otherwise the
    /// THRE interrupt is armed so its handler wakes them (`false`).
    pub fn drain_or_arm<U: UartPort>(uart: &mut TracedPort<U>) -> (drained: bool)
        ensures
            final(uart).calls() == old(uart).calls(),
            final(uart).temt_answers() == old(uart).temt_answers().push(drained),
            drained ==> final(uart).ier_updates() == old(uart).ier_updates(),
            !drained ==> final(uart).ier_updates() == old(uart).ier_updates().push(
                (Ier { bits: 0x02 }, Ier { bits: 0 }),
            ),
    {
        if uart.transmitter_empty() {
            return true;
        }
        uart.update_ier(Ier::thr_empty(), Ier::empty());
        false
    }

    /// An empty batch: when the transmitter reads empty the drain waiters
    /// can be woken (`true`, no register change); otherwise the THRE
    /// interrupt is armed and the transmitter read once more, so a drain
    /// completing during the arm is not missed (the result is that second
    /// answer).
    pub fn idle_drain_check<U: UartPort>(uart: &mut TracedPort<U>) -> (drained: bool)
        ensures
            final(uart).calls() == old(uart).calls(),
            final(uart).temt_answers().len() > old(uart).temt_answers().len(),
            final(uart).temt_answers().take(old(uart).temt_answers().len() as int) == old(
                uart,
            ).temt_answers(),
            drained == final(uart).temt_answers().last(),
            ({
                let first = final(uart).temt_answers()[old(uart).temt_answers().len() as int];
                &&& first ==> final(uart).temt_answers().len() == old(uart).temt_answers().len() + 1
                    && final(uart).ier_updates() == old(uart).ier_updates()
                &&& !first ==> final(uart).temt_answers().len() == old(uart).temt_answers().len()
                    + 2 && final(uart).ier_updates() == old(uart).ier_updates().push(
                    (Ier { bits: 0x02 }, Ier { bits: 0 }),
                )
            }),
    {
        if Self::drain_or_arm(uart) {
            assert(uart.temt_answers().take(old(uart).temt_answers().len() as int) =~= old(
                uart,
            ).temt_answers());
            return true;
        }
        let r = uart.transmitter_empty();
        assert(uart.temt_answers().take(old(uart).temt_answers().len() as int) =~= old(
            uart,
        ).temt_answers());
        r
    }

    /// After a batch is fully sent, give the shift register a bounded number
    /// of checks to drain: it reads the transmitter up to
    /// `1 + TX_TEMT_POLL_LIMIT` times, stopping at the first empty answer.
    /// Returns whether the transmitter reported empty.
    pub fn wait_transmitter_empty<U: UartPort>(uart: &mut TracedPort<U>) -> (empty: bool)
        ensures
            final(uart).calls() == old(uart).calls(),
            final(uart).ier_updates() == old(uart).ier_updates(),
            ({
                let read = final(uart).temt_answers().skip(old(uart).temt_answers().len() as int);
                &&& final(uart).temt_answers().take(old(uart).temt_answers().len() as int) == old(
                    uart,
                ).temt_answers()
                &&& 1 <= read.len() <= 1 + TX_TEMT_POLL_LIMIT
                &&& empty == read.last()
                &&& forall|i: int| 0 <= i < read.len() - 1 ==> !#[trigger] read[i]
                &&& !empty ==> read.len() == 1 + TX_TEMT_POLL_LIMIT
            }),
    {
        let ghost k = old(uart).temt_answers().len() as int;
        let first = uart.transmitter_empty();
        proof {
            assert(uart.temt_answers().take(k) =~= old(uart).temt_answers());
            assert(uart.temt_answers().skip(k) =~= seq![first]);
        }
        if first {
            return true;
        }
        let mut i: u32 = 0;
        while i < TX_TEMT_POLL_LIMIT
            invariant
                i <= TX_TEMT_POLL_LIMIT,
                k == old(uart).temt_answers().len(),
                uart.calls() == old(uart).calls(),
                uart.ier_updates() == old(uart).ier_updates(),
                uart.temt_answers().take(k) == old(uart).temt_answers(),
                uart.temt_answers().len() == k + 1 + i,
                uart.temt_answers().skip(k).len() == 1 + i,
                forall|j: int| 0 <= j < uart.temt_answers().skip(k).len() ==> !#[trigger] uart.temt_answers().skip(k)[j],
            decreases TX_TEMT_POLL_LIMIT - i,
        {
            let ghost before = uart.temt_answers();
            let e = uart.transmitter_empty();
            proof {
                assert(uart.temt_answers().take(k) =~= before.take(k));
                assert(uart.temt_answers().skip(k) =~= before.skip(k).push(e));
            }
            if e {
                return true;
            }
            spin_hint();
            i = i + 1;
        }
        false
    }
}

/// The copier's published drain state is consistent: the TX path only ever
/// reports "nothing staged" when every popped byte reached the UART, so a
/// drained snapshot never hides bytes that are still in the copier buffer.
pub proof fn lemma_staged_bytes_match_copier(c: TxCopier, ring_empty: bool, temt: bool)
    requires
        c.wf(),
    ensures
        (TxCompletion {
            ring_empty,
            copier_active: c.active_spec(),
            staged_bytes: (c.pending_spec() - c.cursor_spec()) as usize,
            transmitter_empty: temt,
        }).drained() ==> c.cursor_spec() == c.pending_spec() && !c.active_spec(),
{
}

} // verus!
