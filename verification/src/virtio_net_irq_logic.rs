//! Pure logic for the VirtIO-MMIO net IRQ diagnostic control plane.
//!
//! - `classify_mmio_status`: decode the VirtIO MMIO interrupt status byte
//!   (offset 0x60): bit 0 = used-ring, bit 1 = config-change.
//! - `IrqTelemetry`: monotonic counters for total invocations, used-ring,
//!   config-change, combined, unknown-bits, spurious and ACK count.
//! - `IrqSnapshotV1`..`IrqSnapshotV4`: read-only diagnostic snapshots, each
//!   version extending the previous one field for field.

use vstd::prelude::*;

verus! {

// ── Status classification ─────────────────────────────────────────────

/// Classified VirtIO MMIO interrupt cause.
///
/// Derived from the interrupt status byte at MMIO offset `0x60`:
/// - Bit 0 → used ring update
/// - Bit 1 → config change
#[derive(Debug, Clone, Copy, PartialEq, Eq, Structural)]
pub enum IrqCause {
    /// No status bits set (spurious).
    Spurious,
    /// Used ring update only (bit 0).
    UsedRing,
    /// Config change only (bit 1).
    ConfigChange,
    /// Both used ring and config change (bits 0 + 1).
    Combined,
    /// Status byte is non-zero but neither bit 0 nor bit 1 is set.
    Unknown,
}

/// Bit 0 of the status byte: used-ring update.
pub open spec fn used_ring_bit(status: u8) -> bool {
    status & 0x01u8 != 0
}

/// Bit 1 of the status byte: config change.
pub open spec fn config_bit(status: u8) -> bool {
    status & 0x02u8 != 0
}

/// The cause that a status byte denotes.
pub open spec fn cause_of(status: u8) -> IrqCause {
    if used_ring_bit(status) && config_bit(status) {
        IrqCause::Combined
    } else if used_ring_bit(status) {
        IrqCause::UsedRing
    } else if config_bit(status) {
        IrqCause::ConfigChange
    } else if status == 0 {
        IrqCause::Spurious
    } else {
        IrqCause::Unknown
    }
}

/// Classify a VirtIO MMIO interrupt status byte.
///
/// Bits 2-7 are reserved; they do not change the primary classification but
/// are recorded separately via [`has_unknown_bits`].
pub fn classify_mmio_status(status: u8) -> (cause: IrqCause)
    ensures
        cause == cause_of(status),
{
    let ring = (status & 0x01) != 0;
    let cfg = (status & 0x02) != 0;
    match (ring, cfg) {
        (false, false) => {
            if status == 0 {
                IrqCause::Spurious
            } else {
                IrqCause::Unknown
            }
        },
        (true, false) => IrqCause::UsedRing,
        (false, true) => IrqCause::ConfigChange,
        (true, true) => IrqCause::Combined,
    }
}

/// Whether any reserved status bit (bit 2 or above) is set.
pub open spec fn unknown_bits(status: u8) -> bool {
    status & !0x03u8 != 0
}

/// Returns `true` when any unsupported/reserved status bit (bit >= 2) is set.
pub fn has_unknown_bits(status: u8) -> (r: bool)
    ensures
        r == unknown_bits(status),
{
    (status & !0x03u8) != 0
}

/// Known status bits (0x03) that must be acknowledged at the device.
///
/// Unknown/reserved bits are never ACKed; they are only observed through
/// [`has_unknown_bits`].
pub fn ack_mask(status: u8) -> (mask: u8)
    ensures
        mask == status & 0x03u8,
        mask & !0x03u8 == 0,
        (mask & 0x01u8 != 0) == used_ring_bit(status),
        (mask & 0x02u8 != 0) == config_bit(status),
        (mask == 0) == (!used_ring_bit(status) && !config_bit(status)),
{
    let mask = status & 0x03;
    assert(mask & !0x03u8 == 0) by (bit_vector)
        requires
            mask == status & 0x03u8,
    ;
    assert((mask & 0x01u8 != 0) == (status & 0x01u8 != 0)) by (bit_vector)
        requires
            mask == status & 0x03u8,
    ;
    assert((mask & 0x02u8 != 0) == (status & 0x02u8 != 0)) by (bit_vector)
        requires
            mask == status & 0x03u8,
    ;
    assert((mask == 0) == (status & 0x01u8 == 0 && status & 0x02u8 == 0)) by (bit_vector)
        requires
            mask == status & 0x03u8,
    ;
    mask
}

/// Whether a raw status byte must publish an RX queue event: exactly the
/// causes carrying the used-ring bit.
pub fn should_publish_rx(status: u8) -> (r: bool)
    ensures
        r == used_ring_bit(status),
        r == (cause_of(status) == IrqCause::UsedRing || cause_of(status) == IrqCause::Combined),
{
    (status & 0x01) != 0
}

/// Whether a raw status byte must publish a config-change queue event:
/// exactly the causes carrying the config-change bit.
pub fn should_publish_config(status: u8) -> (r: bool)
    ensures
        r == config_bit(status),
        r == (cause_of(status) == IrqCause::ConfigChange || cause_of(status)
            == IrqCause::Combined),
{
    (status & 0x02) != 0
}

/// Diagnostic classification of the IRQ enable state around the RX wake.
#[derive(Debug, Clone, Copy, PartialEq, Eq, Structural)]
pub struct IrqStateObservation {
    /// The handler unexpectedly entered the wake section with IRQs enabled.
    pub enabled_on_entry: bool,
    /// The wake changed an IRQ-disabled entry state to enabled.
    pub restore_violation: bool,
}

/// Classify the IRQ state before and after the fixed RX wake.
pub fn observe_irq_state(before: bool, after: bool) -> (o: IrqStateObservation)
    ensures
        o.enabled_on_entry == before,
        o.restore_violation == (!before && after),
{
    IrqStateObservation { enabled_on_entry: before, restore_violation: !before && after }
}

/// A status byte whose reserved bits are all clear is exactly one of the
/// four known causes, and a non-zero status with no known bit always carries
/// a reserved bit: an unknown-only interrupt is never recorded as spurious.
pub proof fn lemma_unknown_cause_has_reserved_bits(status: u8)
    ensures
        cause_of(status) == IrqCause::Unknown ==> unknown_bits(status),
        cause_of(status) == IrqCause::Spurious <==> status == 0,
{
    assert((status & 0x01u8 == 0 && status & 0x02u8 == 0 && status != 0) ==> status & !0x03u8
        != 0) by (bit_vector);
    assert(status == 0 ==> (status & 0x01u8 == 0 && status & 0x02u8 == 0)) by (bit_vector);
}

// ── Monotonic telemetry ────────────────────────────────────────────────

/// One wrapping increment of a telemetry counter.
pub open spec fn bump(x: u64) -> u64 {
    vstd::wrapping::u64_specs::wrapping_add(x, 1)
}

/// Telemetry counters for VirtIO-net IRQ diagnostics.
///
/// Counters wrap on overflow; they are telemetry only and never participate
/// in control-flow decisions.
#[derive(Debug, Clone, Copy, PartialEq, Eq, Structural)]
pub struct IrqTelemetry {
    /// Total handler invocations (every entry, including spurious).
    pub total: u64,
    /// Used-ring events.
    pub used_ring: u64,
    /// Config-change events.
    pub config_change: u64,
    /// Combined events (both bits set simultaneously).
    pub combined: u64,
    /// Events where any unknown/reserved bit was set.
    pub unknown: u64,
    /// Spurious events (status byte zero).
    pub spurious: u64,
    /// ACK write count (MMIO write to offset 0x64).
    pub ack_count: u64,
    /// IRQ restore violations: an ISR wake re-enabled IRQs before the
    /// platform completed the interrupt.
    pub restore_violation: u64,
    /// Handler wake sections entered with IRQs unexpectedly enabled.
    pub irq_enabled_entry: u64,
}

/// The counters after recording one interrupt with the given status byte.
pub open spec fn record_spec(t: IrqTelemetry, status: u8) -> IrqTelemetry {
    let cause = cause_of(status);
    IrqTelemetry {
        total: bump(t.total),
        spurious: if cause == IrqCause::Spurious { bump(t.spurious) } else { t.spurious },
        used_ring: if cause == IrqCause::UsedRing { bump(t.used_ring) } else { t.used_ring },
        config_change: if cause == IrqCause::ConfigChange {
            bump(t.config_change)
        } else {
            t.config_change
        },
        combined: if cause == IrqCause::Combined { bump(t.combined) } else { t.combined },
        unknown: if unknown_bits(status) { bump(t.unknown) } else { t.unknown },
        ..t
    }
}

/// Fixed V1 IRQ diagnostic snapshot.
///
/// Exactly eight `u64` fields (64 bytes); it must never grow.
#[derive(Debug, Clone, Copy, PartialEq, Eq, Structural)]
pub struct IrqSnapshotV1 {
    pub total: u64,
    pub used_ring: u64,
    pub config_change: u64,
    pub combined: u64,
    pub unknown: u64,
    pub spurious: u64,
    pub ack_count: u64,
    pub uart_irq_count: u64,
}

/// Extended V2 snapshot. The first eight fields match [`IrqSnapshotV1`]
/// field for field; this is an independent wire type.
#[derive(Debug, Clone, Copy, PartialEq, Eq, Structural)]
pub struct IrqSnapshotV2 {
    pub total: u64,
    pub used_ring: u64,
    pub config_change: u64,
    pub combined: u64,
    pub unknown: u64,
    pub spurious: u64,
    pub ack_count: u64,
    pub uart_irq_count: u64,
    /// IRQ restore violations (wake re-enabled IRQs before EOI).
    pub restore_violation: u64,
    /// Handler wake sections entered with IRQs enabled.
    pub irq_enabled_entry: u64,
    /// Async RX lifecycle code (0 Polling .. 4 Unavailable).
    pub rx_lifecycle: u64,
    /// Async RX owner view (0 polling-owned, 1 async-owned).
    pub rx_owner: u64,
    /// ISR event publishes.
    pub isr_publish: u64,
    /// ISR wake calls.
    pub isr_wake: u64,
    /// Explicit software-only wake requests.
    pub software_nudge: u64,
    /// Queue-task polls.
    pub task_poll: u64,
    /// Completions reaped.
    pub reaped: u64,
    /// Descriptors refilled.
    pub refilled: u64,
    /// IP packets delivered.
    pub delivered: u64,
    /// Non-IP completions consumed.
    pub non_ip_consumed: u64,
    /// Budget-exhausted rounds with backlog.
    pub budget_exhausted: u64,
    /// Self-yield wakes.
    pub self_yield: u64,
    /// Router-full waits.
    pub router_full_wait: u64,
    /// Space wakes.
    pub space_wake: u64,
    /// Empty-queue rechecks.
    pub empty_check: u64,
    /// Terminal faults.
    pub fault: u64,
    /// Last error stage code.
    pub last_error_stage: u64,
    /// Last error code.
    pub last_error_code: u64,
}

/// V3 diagnostic snapshot. The first 28 fields are exactly
/// [`IrqSnapshotV2`]; the remaining fields append the slot, ticket, flush,
/// drop and diagnostic ledger.
#[derive(Debug, Clone, Copy, PartialEq, Eq, Structural)]
pub struct IrqSnapshotV3 {
    pub total: u64,
    pub used_ring: u64,
    pub config_change: u64,
    pub combined: u64,
    pub unknown: u64,
    pub spurious: u64,
    pub ack_count: u64,
    pub uart_irq_count: u64,
    pub restore_violation: u64,
    pub irq_enabled_entry: u64,
    pub rx_lifecycle: u64,
    pub rx_owner: u64,
    pub isr_publish: u64,
    pub isr_wake: u64,
    pub software_nudge: u64,
    pub task_poll: u64,
    pub reaped: u64,
    pub refilled: u64,
    pub delivered: u64,
    pub non_ip_consumed: u64,
    pub budget_exhausted: u64,
    pub self_yield: u64,
    pub router_full_wait: u64,
    pub space_wake: u64,
    pub empty_check: u64,
    pub fault: u64,
    pub last_error_stage: u64,
    pub last_error_code: u64,
    /// RX slot occupancy (live frames in the fixed RX slots).
    pub rx_slot_occupancy: u64,
    /// RX slot high-water mark.
    pub rx_slot_high_water: u64,
    /// RX slot full transitions.
    pub rx_slot_full: u64,
    /// RX slot enqueue counter.
    pub rx_slot_enqueue: u64,
    /// RX slot dequeue counter.
    pub rx_slot_dequeue: u64,
    /// RX slot full→space events.
    pub rx_slot_space_event: u64,
    /// TX slot occupancy (live frames in the fixed TX slots).
    pub tx_slot_occupancy: u64,
    /// TX slot high-water mark.
    pub tx_slot_high_water: u64,
    /// TX slot full transitions.
    pub tx_slot_full: u64,
    /// TX slot enqueue counter.
    pub tx_slot_enqueue: u64,
    /// TX slot dequeue counter.
    pub tx_slot_dequeue: u64,
    /// TX slot full→space events.
    pub tx_slot_space_event: u64,
    /// TX submits accepted by the driver.
    pub tx_submit: u64,
    /// TX submit `Again` backpressures.
    pub tx_again: u64,
    /// TX completions observed from the driver.
    pub tx_completion: u64,
    /// TX completions reclaimed (matching DeviceOwned ticket).
    pub tx_reclaim: u64,
    /// TX buffer slots still available to the queue owner.
    pub tx_buffer_available: u64,
    /// TX buffer slots currently inflight (submitted, not reclaimed).
    pub tx_buffer_inflight: u64,
    /// TX descriptors still available.
    pub tx_descriptor_available: u64,
    /// TX descriptors currently inflight.
    pub tx_descriptor_inflight: u64,
    /// Queue rounds that exhausted the reclaim budget.
    pub reclaim_exhausted: u64,
    /// Queue rounds that exhausted the RX copy budget.
    pub rx_exhausted: u64,
    /// Queue rounds that exhausted the submit budget.
    pub submit_exhausted: u64,
    /// Shared queue event generation.
    pub queue_generation: u64,
    /// Queue-owner wake count.
    pub queue_wake: u64,
    /// Last accepted TX ticket (`u64::MAX` when none).
    pub last_accepted: u64,
    /// Live ticket count.
    pub live: u64,
    /// Queued ticket count.
    pub queued: u64,
    /// DeviceOwned ticket count.
    pub device_owned: u64,
    /// Flush target (`u64::MAX` when none).
    pub flush_target: u64,
    /// Flush successes.
    pub flush_success: u64,
    /// Flush faults.
    pub flush_error: u64,
    /// Flush `ResourceBusy` rejections.
    pub flush_busy: u64,
    /// Flush cancellations (future dropped before completion).
    pub flush_cancel: u64,
    /// Diagnostic hold mode (0 none, 1 submit, 2 reclaim).
    pub hold_mode: u64,
    /// Diagnostic lease expiry deadline (nanos; 0 when no hold).
    pub lease_expiry: u64,
    /// Auto-release failures after lease expiry.
    pub auto_release_failure: u64,
    /// Lifecycle transition faults.
    pub lifecycle_fault: u64,
    /// TX ownership invariant violations.
    pub ownership_invariant: u64,
    /// `TxDropReason::MalformedIp` counter.
    pub drop_malformed_ip: u64,
    /// `TxDropReason::NoRoute` counter.
    pub drop_no_route: u64,
    /// `TxDropReason::RouteSourceMismatch` counter.
    pub drop_route_source_mismatch: u64,
    /// `TxDropReason::UnsupportedAddress` counter.
    pub drop_unsupported_address: u64,
    /// `TxDropReason::FrameTooLarge` counter.
    pub drop_frame_too_large: u64,
}

/// Append-only recovery snapshot: `v3` is an unchanged prefix; the current
/// and historical-fault tuples are each coherent on their own.
#[derive(Debug, Clone, Copy, PartialEq, Eq, Structural)]
pub struct IrqSnapshotV4 {
    pub v3: IrqSnapshotV3,
    pub current_valid: u64,
    pub current_queue_epoch: u64,
    pub current_socket_epoch: u64,
    pub current_link_generation: u64,
    pub current_link_state: u64,
    pub current_owner_available: u64,
    pub current_owner_device_owned: u64,
    pub current_owner_quarantined: u64,
    pub fault_valid: u64,
    pub fault_stage: u64,
    pub fault_cause: u64,
    pub fault_queue_epoch: u64,
    pub fault_owner_available: u64,
    pub fault_owner_device_owned: u64,
    pub fault_owner_quarantined: u64,
}

/// The V1 snapshot of a telemetry set (no UART IRQ count attached).
pub open spec fn snapshot_spec(t: IrqTelemetry) -> IrqSnapshotV1 {
    IrqSnapshotV1 {
        total: t.total,
        used_ring: t.used_ring,
        config_change: t.config_change,
        combined: t.combined,
        unknown: t.unknown,
        spurious: t.spurious,
        ack_count: t.ack_count,
        uart_irq_count: 0,
    }
}

/// The first eight fields of a V2 snapshot, as a V1 snapshot.
pub open spec fn v2_prefix(s: IrqSnapshotV2) -> IrqSnapshotV1 {
    IrqSnapshotV1 {
        total: s.total,
        used_ring: s.used_ring,
        config_change: s.config_change,
        combined: s.combined,
        unknown: s.unknown,
        spurious: s.spurious,
        ack_count: s.ack_count,
        uart_irq_count: s.uart_irq_count,
    }
}

/// The first 28 fields of a V3 snapshot, as a V2 snapshot.
pub open spec fn v3_prefix(s: IrqSnapshotV3) -> IrqSnapshotV2 {
    IrqSnapshotV2 {
        total: s.total,
        used_ring: s.used_ring,
        config_change: s.config_change,
        combined: s.combined,
        unknown: s.unknown,
        spurious: s.spurious,
        ack_count: s.ack_count,
        uart_irq_count: s.uart_irq_count,
        restore_violation: s.restore_violation,
        irq_enabled_entry: s.irq_enabled_entry,
        rx_lifecycle: s.rx_lifecycle,
        rx_owner: s.rx_owner,
        isr_publish: s.isr_publish,
        isr_wake: s.isr_wake,
        software_nudge: s.software_nudge,
        task_poll: s.task_poll,
        reaped: s.reaped,
        refilled: s.refilled,
        delivered: s.delivered,
        non_ip_consumed: s.non_ip_consumed,
        budget_exhausted: s.budget_exhausted,
        self_yield: s.self_yield,
        router_full_wait: s.router_full_wait,
        space_wake: s.space_wake,
        empty_check: s.empty_check,
        fault: s.fault,
        last_error_stage: s.last_error_stage,
        last_error_code: s.last_error_code,
    }
}

impl IrqTelemetry {
    /// Create a new zeroed telemetry set.
    pub fn new() -> (t: Self)
        ensures
            t.total == 0,
            t.used_ring == 0,
            t.config_change == 0,
            t.combined == 0,
            t.unknown == 0,
            t.spurious == 0,
            t.ack_count == 0,
            t.restore_violation == 0,
            t.irq_enabled_entry == 0,
    {
        Self {
            total: 0,
            used_ring: 0,
            config_change: 0,
            combined: 0,
            unknown: 0,
            spurious: 0,
            ack_count: 0,
            restore_violation: 0,
            irq_enabled_entry: 0,
        }
    }

    /// Record one interrupt event from a raw status byte.
    ///
    /// Increments `total`, the matching cause counter, and `unknown` when a
    /// reserved bit is set (a single interrupt can carry several diagnostic
    /// signals). Returns the classified cause.
    pub fn record(&mut self, status: u8) -> (cause: IrqCause)
        ensures
            cause == cause_of(status),
            *final(self) == record_spec(*old(self), status),
    {
        self.total = self.total.wrapping_add(1);
        let has_unknown = has_unknown_bits(status);
        let cause = classify_mmio_status(status);
        match cause {
            IrqCause::Spurious => {
                self.spurious = self.spurious.wrapping_add(1);
            },
            IrqCause::UsedRing => {
                self.used_ring = self.used_ring.wrapping_add(1);
            },
            IrqCause::ConfigChange => {
                self.config_change = self.config_change.wrapping_add(1);
            },
            IrqCause::Combined => {
                self.combined = self.combined.wrapping_add(1);
            },
            IrqCause::Unknown => {},
        }
        if has_unknown {
            self.unknown = self.unknown.wrapping_add(1);
        }
        cause
    }

    /// Count one ACK write.
    pub fn record_ack(&mut self)
        ensures
            *final(self) == (IrqTelemetry { ack_count: bump(old(self).ack_count), ..*old(self) }),
    {
        self.ack_count = self.ack_count.wrapping_add(1);
    }

    /// Count the diagnostic observations made around the RX wake.
    pub fn record_irq_state(&mut self, obs: IrqStateObservation)
        ensures
            *final(self) == (IrqTelemetry {
                irq_enabled_entry: if obs.enabled_on_entry {
                    bump(old(self).irq_enabled_entry)
                } else {
                    old(self).irq_enabled_entry
                },
                restore_violation: if obs.restore_violation {
                    bump(old(self).restore_violation)
                } else {
                    old(self).restore_violation
                },
                ..*old(self)
            }),
    {
        if obs.enabled_on_entry {
            self.irq_enabled_entry = self.irq_enabled_entry.wrapping_add(1);
        }
        if obs.restore_violation {
            self.restore_violation = self.restore_violation.wrapping_add(1);
        }
    }

    /// Take the fixed V1 snapshot.
    pub fn snapshot(&self) -> (s: IrqSnapshotV1)
        ensures
            s == snapshot_spec(*self),
    {
        IrqSnapshotV1 {
            total: self.total,
            used_ring: self.used_ring,
            config_change: self.config_change,
            combined: self.combined,
            unknown: self.unknown,
            spurious: self.spurious,
            ack_count: self.ack_count,
            uart_irq_count: 0,
        }
    }

    /// Take the fixed V2 snapshot before the network-stack fields are mapped:
    /// its V1 prefix is the V1 snapshot, the two restore counters come from
    /// this set, and every other field is zero.
    pub fn snapshot_v2(&self) -> (s: IrqSnapshotV2)
        ensures
            v2_prefix(s) == snapshot_spec(*self),
            s.restore_violation == self.restore_violation,
            s.irq_enabled_entry == self.irq_enabled_entry,
            s.rx_lifecycle == 0,
            s.rx_owner == 0,
            s.isr_publish == 0,
            s.isr_wake == 0,
            s.software_nudge == 0,
            s.task_poll == 0,
            s.reaped == 0,
            s.refilled == 0,
            s.delivered == 0,
            s.non_ip_consumed == 0,
            s.budget_exhausted == 0,
            s.self_yield == 0,
            s.router_full_wait == 0,
            s.space_wake == 0,
            s.empty_check == 0,
            s.fault == 0,
            s.last_error_stage == 0,
            s.last_error_code == 0,
    {
        let v1 = self.snapshot();
        IrqSnapshotV2 {
            total: v1.total,
            used_ring: v1.used_ring,
            config_change: v1.config_change,
            combined: v1.combined,
            unknown: v1.unknown,
            spurious: v1.spurious,
            ack_count: v1.ack_count,
            uart_irq_count: v1.uart_irq_count,
            restore_violation: self.restore_violation,
            irq_enabled_entry: self.irq_enabled_entry,
            rx_lifecycle: 0,
            rx_owner: 0,
            isr_publish: 0,
            isr_wake: 0,
            software_nudge: 0,
            task_poll: 0,
            reaped: 0,
            refilled: 0,
            delivered: 0,
            non_ip_consumed: 0,
            budget_exhausted: 0,
            self_yield: 0,
            router_full_wait: 0,
            space_wake: 0,
            empty_check: 0,
            fault: 0,
            last_error_stage: 0,
            last_error_code: 0,
        }
    }
}

/// Recording an interrupt always counts one invocation, and counts it under
/// exactly one primary cause unless the status carries only reserved bits.
pub proof fn lemma_record_counts_once(t: IrqTelemetry, status: u8)
    ensures
        record_spec(t, status).total == bump(t.total),
        record_spec(t, status).ack_count == t.ack_count,
        cause_of(status) != IrqCause::Unknown ==> (
        (record_spec(t, status).spurious != t.spurious) as int + (record_spec(t, status).used_ring
            != t.used_ring) as int + (record_spec(t, status).config_change != t.config_change) as int
            + (record_spec(t, status).combined != t.combined) as int == 1),
        cause_of(status) == IrqCause::Unknown ==> (record_spec(t, status).spurious == t.spurious
            && record_spec(t, status).used_ring == t.used_ring && record_spec(t, status).config_change
            == t.config_change && record_spec(t, status).combined == t.combined),
{
}

} // verus!
