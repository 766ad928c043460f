//! Diagnostic snapshots and interrupt handling plan for the single
//! VirtIO-MMIO net device.
//!
//! The handler only reads the raw interrupt status, classifies the cause,
//! acknowledges the known bits, updates telemetry, and publishes queue events
//! for used-ring and config-change causes. The order is strict: record raw
//! status, ACK known bits, ACK telemetry, then publish. The snapshot
//! functions assemble the guest-visible wire structures from the telemetry
//! and the network stack's own observation snapshots.

use vstd::prelude::*;

use crate::virtio_net_irq_logic::{
    IrqSnapshotV1, IrqSnapshotV2, IrqSnapshotV3, IrqSnapshotV4, IrqTelemetry, config_bit,
    snapshot_spec, used_ring_bit,
};

verus! {

/// What the net IRQ handler does for one raw interrupt status word.
#[derive(Debug, Clone, Copy, PartialEq, Eq, Structural)]
pub struct NetIrqPlan {
    /// Low byte of the status register, the value that is classified.
    pub status: u8,
    /// Known bits to write to the ACK register; zero means no ACK write.
    pub ack_mask: u8,
    /// Publish a generic queue event (used-ring cause).
    pub publish_used: bool,
    /// Publish a config-change event.
    pub publish_config: bool,
}

/// Decide how to handle one raw 32-bit interrupt status word.
pub fn net_irq_plan(status_raw: u32) -> (p: NetIrqPlan)
    ensures
        p.status == status_raw % 256,
        p.ack_mask == p.status & 0x03u8,
        p.publish_used == used_ring_bit(p.status),
        p.publish_config == config_bit(p.status),
{
    let low = status_raw & 0xff;
    assert(low == status_raw % 256) by (bit_vector)
        requires
            low == status_raw & 0xff,
    ;
    let status = low as u8;
    let mask = crate::virtio_net_irq_logic::ack_mask(status);
    NetIrqPlan {
        status,
        ack_mask: mask,
        publish_used: crate::virtio_net_irq_logic::should_publish_rx(status),
        publish_config: crate::virtio_net_irq_logic::should_publish_config(status),
    }
}

/// VirtIO MMIO register offsets (32-bit registers).
pub const MMIO_MAGIC_VALUE: usize = 0x00;
/// Device version register.
pub const MMIO_VERSION: usize = 0x04;
/// Device ID register.
pub const MMIO_DEVICE_ID: usize = 0x08;
/// Interrupt status register.
pub const MMIO_INTERRUPT_STATUS: usize = 0x60;
/// Interrupt acknowledge register.
pub const MMIO_INTERRUPT_ACK: usize = 0x64;

/// The VirtIO MMIO magic value ("virt").
pub const VIRTIO_MMIO_MAGIC: u32 = 0x74726976;
/// Device ID of a network device.
pub const VIRTIO_DEVICE_ID_NET: u32 = 1;

/// Outcome of validating the VirtIO MMIO header before trusting the IRQ.
#[derive(Debug, Clone, Copy, PartialEq, Eq, Structural)]
pub enum MmioHeaderCheck {
    /// A VirtIO network device.
    Valid,
    /// The magic value is wrong (the value read).
    BadMagic(u32),
    /// The version is below 1 (the value read).
    VersionTooOld(u32),
    /// Not a network device (the device ID read).
    NotNetwork(u32),
}

/// The header check's outcome, checked in order: magic, version, device ID.
pub open spec fn mmio_header_spec(magic: u32, version: u32, device_id: u32) -> MmioHeaderCheck {
    if magic != VIRTIO_MMIO_MAGIC {
        MmioHeaderCheck::BadMagic(magic)
    } else if version < 1 {
        MmioHeaderCheck::VersionTooOld(version)
    } else if device_id != VIRTIO_DEVICE_ID_NET {
        MmioHeaderCheck::NotNetwork(device_id)
    } else {
        MmioHeaderCheck::Valid
    }
}

/// Validate the magic, version and device ID read from the MMIO header.
pub fn validate_mmio_header(magic: u32, version: u32, device_id: u32) -> (r: MmioHeaderCheck)
    ensures
        r == mmio_header_spec(magic, version, device_id),
        r == MmioHeaderCheck::Valid <==> (magic == VIRTIO_MMIO_MAGIC && version >= 1 && device_id
            == VIRTIO_DEVICE_ID_NET),
{
    if magic != VIRTIO_MMIO_MAGIC {
        return MmioHeaderCheck::BadMagic(magic);
    }
    if version < 1 {
        return MmioHeaderCheck::VersionTooOld(version);
    }
    if device_id != VIRTIO_DEVICE_ID_NET {
        return MmioHeaderCheck::NotNetwork(device_id);
    }
    MmioHeaderCheck::Valid
}

/// The network stack's bounded RX-task observation (read without the
/// service lock), mapped into the V2 snapshot.
#[derive(Debug, Clone, Copy, PartialEq, Eq, Structural)]
pub struct RxSnapshot {
    pub rx_lifecycle: u64,
    pub rx_owner: u64,
    pub isr_publish: u64,
    pub isr_wake: u64,
    pub software_nudge: u64,
    pub task_poll: u64,
    pub reaped: u64,
    pub refilled: u64,
    pub delivered: u64,
    pub non_ip_consumed: u64,
    pub budget_exhausted: u64,
    pub self_yield: u64,
    pub router_full_wait: u64,
    pub space_wake: u64,
    pub empty_check: u64,
    pub fault: u64,
    pub last_error_stage: u64,
    pub last_error_code: u64,
}

/// The network stack's appended V3 observation (slots, tickets, flush,
/// drops), mapped into the V3 snapshot.
#[derive(Debug, Clone, Copy, PartialEq, Eq, Structural)]
pub struct RxSnapshotV3 {
    pub rx_slot_occupancy: u64,
    pub rx_slot_high_water: u64,
    pub rx_slot_full: u64,
    pub rx_slot_enqueue: u64,
    pub rx_slot_dequeue: u64,
    pub rx_slot_space_event: u64,
    pub tx_slot_occupancy: u64,
    pub tx_slot_high_water: u64,
    pub tx_slot_full: u64,
    pub tx_slot_enqueue: u64,
    pub tx_slot_dequeue: u64,
    pub tx_slot_space_event: u64,
    pub tx_submit: u64,
    pub tx_again: u64,
    pub tx_completion: u64,
    pub tx_reclaim: u64,
    pub tx_buffer_available: u64,
    pub tx_buffer_inflight: u64,
    pub tx_descriptor_available: u64,
    pub tx_descriptor_inflight: u64,
    pub reclaim_exhausted: u64,
    pub rx_exhausted: u64,
    pub submit_exhausted: u64,
    pub queue_generation: u64,
    pub queue_wake: u64,
    pub last_accepted: u64,
    pub live: u64,
    pub queued: u64,
    pub device_owned: u64,
    pub flush_target: u64,
    pub flush_success: u64,
    pub flush_error: u64,
    pub flush_busy: u64,
    pub flush_cancel: u64,
    pub hold_mode: u64,
    pub lease_expiry: u64,
    pub auto_release_failure: u64,
    pub lifecycle_fault: u64,
    pub ownership_invariant: u64,
    pub drop_malformed_ip: u64,
    pub drop_no_route: u64,
    pub drop_route_source_mismatch: u64,
    pub drop_unsupported_address: u64,
    pub drop_frame_too_large: u64,
}

/// The network stack's recovery observation appended by the V4 snapshot.
#[derive(Debug, Clone, Copy, PartialEq, Eq, Structural)]
pub struct RecoverySnapshotV4 {
    pub current_valid: u64,
    pub current_queue_epoch: u64,
    pub current_socket_epoch: u64,
    pub current_link_generation: u64,
    pub current_link_state: u64,
    pub current_owner_available: u64,
    pub current_owner_device_owned: u64,
    pub current_owner_quarantined: u64,
    pub fault_valid: u64,
    pub fault_stage: u64,
    pub fault_cause: u64,
    pub fault_queue_epoch: u64,
    pub fault_owner_available: u64,
    pub fault_owner_device_owned: u64,
    pub fault_owner_quarantined: u64,
}

/// The V1 snapshot with the UART interrupt count attached.
pub open spec fn irq_snapshot_v1_spec(t: IrqTelemetry, uart_irq_count: u64) -> IrqSnapshotV1 {
    IrqSnapshotV1 { uart_irq_count, ..snapshot_spec(t) }
}

/// The V2 snapshot: the V1 prefix, the restore counters, then the RX-task
/// observation.
pub open spec fn irq_snapshot_v2_spec(
    t: IrqTelemetry,
    uart_irq_count: u64,
    rx: RxSnapshot,
) -> IrqSnapshotV2 {
    let v1 = irq_snapshot_v1_spec(t, uart_irq_count);
    IrqSnapshotV2 {
        total: v1.total,
        used_ring: v1.used_ring,
        config_change: v1.config_change,
        combined: v1.combined,
        unknown: v1.unknown,
        spurious: v1.spurious,
        ack_count: v1.ack_count,
        uart_irq_count: v1.uart_irq_count,
        restore_violation: t.restore_violation,
        irq_enabled_entry: t.irq_enabled_entry,
        rx_lifecycle: rx.rx_lifecycle,
        rx_owner: rx.rx_owner,
        isr_publish: rx.isr_publish,
        isr_wake: rx.isr_wake,
        software_nudge: rx.software_nudge,
        task_poll: rx.task_poll,
        reaped: rx.reaped,
        refilled: rx.refilled,
        delivered: rx.delivered,
        non_ip_consumed: rx.non_ip_consumed,
        budget_exhausted: rx.budget_exhausted,
        self_yield: rx.self_yield,
        router_full_wait: rx.router_full_wait,
        space_wake: rx.space_wake,
        empty_check: rx.empty_check,
        fault: rx.fault,
        last_error_stage: rx.last_error_stage,
        last_error_code: rx.last_error_code,
    }
}

/// The V3 snapshot: the full V2 prefix, then the appended observation.
pub open spec fn irq_snapshot_v3_spec(
    t: IrqTelemetry,
    uart_irq_count: u64,
    rx: RxSnapshot,
    ext: RxSnapshotV3,
) -> IrqSnapshotV3 {
    let v2 = irq_snapshot_v2_spec(t, uart_irq_count, rx);
    IrqSnapshotV3 {
        total: v2.total,
        used_ring: v2.used_ring,
        config_change: v2.config_change,
        combined: v2.combined,
        unknown: v2.unknown,
        spurious: v2.spurious,
        ack_count: v2.ack_count,
        uart_irq_count: v2.uart_irq_count,
        restore_violation: v2.restore_violation,
        irq_enabled_entry: v2.irq_enabled_entry,
        rx_lifecycle: v2.rx_lifecycle,
        rx_owner: v2.rx_owner,
        isr_publish: v2.isr_publish,
        isr_wake: v2.isr_wake,
        software_nudge: v2.software_nudge,
        task_poll: v2.task_poll,
        reaped: v2.reaped,
        refilled: v2.refilled,
        delivered: v2.delivered,
        non_ip_consumed: v2.non_ip_consumed,
        budget_exhausted: v2.budget_exhausted,
        self_yield: v2.self_yield,
        router_full_wait: v2.router_full_wait,
        space_wake: v2.space_wake,
        empty_check: v2.empty_check,
        fault: v2.fault,
        last_error_stage: v2.last_error_stage,
        last_error_code: v2.last_error_code,
        rx_slot_occupancy: ext.rx_slot_occupancy,
        rx_slot_high_water: ext.rx_slot_high_water,
        rx_slot_full: ext.rx_slot_full,
        rx_slot_enqueue: ext.rx_slot_enqueue,
        rx_slot_dequeue: ext.rx_slot_dequeue,
        rx_slot_space_event: ext.rx_slot_space_event,
        tx_slot_occupancy: ext.tx_slot_occupancy,
        tx_slot_high_water: ext.tx_slot_high_water,
        tx_slot_full: ext.tx_slot_full,
        tx_slot_enqueue: ext.tx_slot_enqueue,
        tx_slot_dequeue: ext.tx_slot_dequeue,
        tx_slot_space_event: ext.tx_slot_space_event,
        tx_submit: ext.tx_submit,
        tx_again: ext.tx_again,
        tx_completion: ext.tx_completion,
        tx_reclaim: ext.tx_reclaim,
        tx_buffer_available: ext.tx_buffer_available,
        tx_buffer_inflight: ext.tx_buffer_inflight,
        tx_descriptor_available: ext.tx_descriptor_available,
        tx_descriptor_inflight: ext.tx_descriptor_inflight,
        reclaim_exhausted: ext.reclaim_exhausted,
        rx_exhausted: ext.rx_exhausted,
        submit_exhausted: ext.submit_exhausted,
        queue_generation: ext.queue_generation,
        queue_wake: ext.queue_wake,
        last_accepted: ext.last_accepted,
        live: ext.live,
        queued: ext.queued,
        device_owned: ext.device_owned,
        flush_target: ext.flush_target,
        flush_success: ext.flush_success,
        flush_error: ext.flush_error,
        flush_busy: ext.flush_busy,
        flush_cancel: ext.flush_cancel,
        hold_mode: ext.hold_mode,
        lease_expiry: ext.lease_expiry,
        auto_release_failure: ext.auto_release_failure,
        lifecycle_fault: ext.lifecycle_fault,
        ownership_invariant: ext.ownership_invariant,
        drop_malformed_ip: ext.drop_malformed_ip,
        drop_no_route: ext.drop_no_route,
        drop_route_source_mismatch: ext.drop_route_source_mismatch,
        drop_unsupported_address: ext.drop_unsupported_address,
        drop_frame_too_large: ext.drop_frame_too_large,
    }
}

/// The V4 snapshot: the V3 snapshot unchanged, then the recovery tuples.
pub open spec fn irq_snapshot_v4_spec(
    t: IrqTelemetry,
    uart_irq_count: u64,
    rx: RxSnapshot,
    ext: RxSnapshotV3,
    recovery: RecoverySnapshotV4,
) -> IrqSnapshotV4 {
    IrqSnapshotV4 {
        v3: irq_snapshot_v3_spec(t, uart_irq_count, rx, ext),
        current_valid: recovery.current_valid,
        current_queue_epoch: recovery.current_queue_epoch,
        current_socket_epoch: recovery.current_socket_epoch,
        current_link_generation: recovery.current_link_generation,
        current_link_state: recovery.current_link_state,
        current_owner_available: recovery.current_owner_available,
        current_owner_device_owned: recovery.current_owner_device_owned,
        current_owner_quarantined: recovery.current_owner_quarantined,
        fault_valid: recovery.fault_valid,
        fault_stage: recovery.fault_stage,
        fault_cause: recovery.fault_cause,
        fault_queue_epoch: recovery.fault_queue_epoch,
        fault_owner_available: recovery.fault_owner_available,
        fault_owner_device_owned: recovery.fault_owner_device_owned,
        fault_owner_quarantined: recovery.fault_owner_quarantined,
    }
}

/// The V1 snapshot of the telemetry with the UART interrupt count attached.
pub fn irq_snapshot_v1(telemetry: &IrqTelemetry, uart_irq_count: u64) -> (s: IrqSnapshotV1)
    ensures
        s == irq_snapshot_v1_spec(*telemetry, uart_irq_count),
{
    let mut s = telemetry.snapshot();
    s.uart_irq_count = uart_irq_count;
    s
}

/// The V2 snapshot: telemetry prefix plus the RX-task observation.
pub fn irq_snapshot_v2(telemetry: &IrqTelemetry, uart_irq_count: u64, rx: &RxSnapshot) -> (s:
    IrqSnapshotV2)
    ensures
        s == irq_snapshot_v2_spec(*telemetry, uart_irq_count, *rx),
{
    let mut s = telemetry.snapshot_v2();
    s.uart_irq_count = uart_irq_count;
    s.rx_lifecycle = rx.rx_lifecycle;
    s.rx_owner = rx.rx_owner;
    s.isr_publish = rx.isr_publish;
    s.isr_wake = rx.isr_wake;
    s.software_nudge = rx.software_nudge;
    s.task_poll = rx.task_poll;
    s.reaped = rx.reaped;
    s.refilled = rx.refilled;
    s.delivered = rx.delivered;
    s.non_ip_consumed = rx.non_ip_consumed;
    s.budget_exhausted = rx.budget_exhausted;
    s.self_yield = rx.self_yield;
    s.router_full_wait = rx.router_full_wait;
    s.space_wake = rx.space_wake;
    s.empty_check = rx.empty_check;
    s.fault = rx.fault;
    s.last_error_stage = rx.last_error_stage;
    s.last_error_code = rx.last_error_code;
    s
}

/// The V3 snapshot: the V2 snapshot as its prefix (one authority for the
/// IRQ/telemetry half), then only the appended fields are copied, so no V2
/// field is reordered or overwritten.
pub fn irq_snapshot_v3(
    telemetry: &IrqTelemetry,
    uart_irq_count: u64,
    rx: &RxSnapshot,
    ext: &RxSnapshotV3,
) -> (s: IrqSnapshotV3)
    ensures
        s == irq_snapshot_v3_spec(*telemetry, uart_irq_count, *rx, *ext),
{
    let v2 = irq_snapshot_v2(telemetry, uart_irq_count, rx);
    let mut s = IrqSnapshotV3 {
        total: v2.total,
        used_ring: v2.used_ring,
        config_change: v2.config_change,
        combined: v2.combined,
        unknown: v2.unknown,
        spurious: v2.spurious,
        ack_count: v2.ack_count,
        uart_irq_count: v2.uart_irq_count,
        restore_violation: v2.restore_violation,
        irq_enabled_entry: v2.irq_enabled_entry,
        rx_lifecycle: v2.rx_lifecycle,
        rx_owner: v2.rx_owner,
        isr_publish: v2.isr_publish,
        isr_wake: v2.isr_wake,
        software_nudge: v2.software_nudge,
        task_poll: v2.task_poll,
        reaped: v2.reaped,
        refilled: v2.refilled,
        delivered: v2.delivered,
        non_ip_consumed: v2.non_ip_consumed,
        budget_exhausted: v2.budget_exhausted,
        self_yield: v2.self_yield,
        router_full_wait: v2.router_full_wait,
        space_wake: v2.space_wake,
        empty_check: v2.empty_check,
        fault: v2.fault,
        last_error_stage: v2.last_error_stage,
        last_error_code: v2.last_error_code,
        rx_slot_occupancy: 0,
        rx_slot_high_water: 0,
        rx_slot_full: 0,
        rx_slot_enqueue: 0,
        rx_slot_dequeue: 0,
        rx_slot_space_event: 0,
        tx_slot_occupancy: 0,
        tx_slot_high_water: 0,
        tx_slot_full: 0,
        tx_slot_enqueue: 0,
        tx_slot_dequeue: 0,
        tx_slot_space_event: 0,
        tx_submit: 0,
        tx_again: 0,
        tx_completion: 0,
        tx_reclaim: 0,
        tx_buffer_available: 0,
        tx_buffer_inflight: 0,
        tx_descriptor_available: 0,
        tx_descriptor_inflight: 0,
        reclaim_exhausted: 0,
        rx_exhausted: 0,
        submit_exhausted: 0,
        queue_generation: 0,
        queue_wake: 0,
        last_accepted: u64::MAX,
        live: 0,
        queued: 0,
        device_owned: 0,
        flush_target: u64::MAX,
        flush_success: 0,
        flush_error: 0,
        flush_busy: 0,
        flush_cancel: 0,
        hold_mode: 0,
        lease_expiry: 0,
        auto_release_failure: 0,
        lifecycle_fault: 0,
        ownership_invariant: 0,
        drop_malformed_ip: 0,
        drop_no_route: 0,
        drop_route_source_mismatch: 0,
        drop_unsupported_address: 0,
        drop_frame_too_large: 0,
    };
    s.rx_slot_occupancy = ext.rx_slot_occupancy;
    s.rx_slot_high_water = ext.rx_slot_high_water;
    s.rx_slot_full = ext.rx_slot_full;
    s.rx_slot_enqueue = ext.rx_slot_enqueue;
    s.rx_slot_dequeue = ext.rx_slot_dequeue;
    s.rx_slot_space_event = ext.rx_slot_space_event;
    s.tx_slot_occupancy = ext.tx_slot_occupancy;
    s.tx_slot_high_water = ext.tx_slot_high_water;
    s.tx_slot_full = ext.tx_slot_full;
    s.tx_slot_enqueue = ext.tx_slot_enqueue;
    s.tx_slot_dequeue = ext.tx_slot_dequeue;
    s.tx_slot_space_event = ext.tx_slot_space_event;
    s.tx_submit = ext.tx_submit;
    s.tx_again = ext.tx_again;
    s.tx_completion = ext.tx_completion;
    s.tx_reclaim = ext.tx_reclaim;
    s.tx_buffer_available = ext.tx_buffer_available;
    s.tx_buffer_inflight = ext.tx_buffer_inflight;
    s.tx_descriptor_available = ext.tx_descriptor_available;
    s.tx_descriptor_inflight = ext.tx_descriptor_inflight;
    s.reclaim_exhausted = ext.reclaim_exhausted;
    s.rx_exhausted = ext.rx_exhausted;
    s.submit_exhausted = ext.submit_exhausted;
    s.queue_generation = ext.queue_generation;
    s.queue_wake = ext.queue_wake;
    s.last_accepted = ext.last_accepted;
    s.live = ext.live;
    s.queued = ext.queued;
    s.device_owned = ext.device_owned;
    s.flush_target = ext.flush_target;
    s.flush_success = ext.flush_success;
    s.flush_error = ext.flush_error;
    s.flush_busy = ext.flush_busy;
    s.flush_cancel = ext.flush_cancel;
    s.hold_mode = ext.hold_mode;
    s.lease_expiry = ext.lease_expiry;
    s.auto_release_failure = ext.auto_release_failure;
    s.lifecycle_fault = ext.lifecycle_fault;
    s.ownership_invariant = ext.ownership_invariant;
    s.drop_malformed_ip = ext.drop_malformed_ip;
    s.drop_no_route = ext.drop_no_route;
    s.drop_route_source_mismatch = ext.drop_route_source_mismatch;
    s.drop_unsupported_address = ext.drop_unsupported_address;
    s.drop_frame_too_large = ext.drop_frame_too_large;
    s
}

/// The V4 recovery snapshot: the V3 snapshot as an unchanged prefix, then the
/// current and historical-fault tuples.
pub fn irq_snapshot_v4(
    telemetry: &IrqTelemetry,
    uart_irq_count: u64,
    rx: &RxSnapshot,
    ext: &RxSnapshotV3,
    recovery: &RecoverySnapshotV4,
) -> (s: IrqSnapshotV4)
    ensures
        s == irq_snapshot_v4_spec(*telemetry, uart_irq_count, *rx, *ext, *recovery),
{
    IrqSnapshotV4 {
        v3: irq_snapshot_v3(telemetry, uart_irq_count, rx, ext),
        current_valid: recovery.current_valid,
        current_queue_epoch: recovery.current_queue_epoch,
        current_socket_epoch: recovery.current_socket_epoch,
        current_link_generation: recovery.current_link_generation,
        current_link_state: recovery.current_link_state,
        current_owner_available: recovery.current_owner_available,
        current_owner_device_owned: recovery.current_owner_device_owned,
        current_owner_quarantined: recovery.current_owner_quarantined,
        fault_valid: recovery.fault_valid,
        fault_stage: recovery.fault_stage,
        fault_cause: recovery.fault_cause,
        fault_queue_epoch: recovery.fault_queue_epoch,
        fault_owner_available: recovery.fault_owner_available,
        fault_owner_device_owned: recovery.fault_owner_device_owned,
        fault_owner_quarantined: recovery.fault_owner_quarantined,
    }
}

/// Each snapshot version extends the previous one without changing it: the
/// V2 prefix of the V3 snapshot is the V2 snapshot, whose V1 prefix is the
/// V1 snapshot, and V4 carries V3 unchanged.
pub proof fn lemma_snapshot_versions_are_prefixes(
    t: IrqTelemetry,
    uart_irq_count: u64,
    rx: RxSnapshot,
    ext: RxSnapshotV3,
    recovery: RecoverySnapshotV4,
)
    ensures
        crate::virtio_net_irq_logic::v3_prefix(irq_snapshot_v3_spec(t, uart_irq_count, rx, ext))
            == irq_snapshot_v2_spec(t, uart_irq_count, rx),
        crate::virtio_net_irq_logic::v2_prefix(irq_snapshot_v2_spec(t, uart_irq_count, rx))
            == irq_snapshot_v1_spec(t, uart_irq_count),
        irq_snapshot_v4_spec(t, uart_irq_count, rx, ext, recovery).v3 == irq_snapshot_v3_spec(
            t,
            uart_irq_count,
            rx,
            ext,
        ),
{
}

} // verus!
