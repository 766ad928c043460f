use starry_drivers::virtio_net_irq::{
    MmioHeaderCheck, validate_mmio_header, RecoverySnapshotV4, RxSnapshot, RxSnapshotV3, irq_snapshot_v1, irq_snapshot_v2,
    irq_snapshot_v3, irq_snapshot_v4, net_irq_plan,
};
use starry_drivers::virtio_net_irq_logic::{
    IrqCause, IrqTelemetry, ack_mask, classify_mmio_status, has_unknown_bits, observe_irq_state,
    should_publish_config, should_publish_rx,
};

#[test]
fn classify_each_status_pattern() {
    assert_eq!(classify_mmio_status(0x00), IrqCause::Spurious);
    assert_eq!(classify_mmio_status(0x01), IrqCause::UsedRing);
    assert_eq!(classify_mmio_status(0x02), IrqCause::ConfigChange);
    assert_eq!(classify_mmio_status(0x03), IrqCause::Combined);
    assert_eq!(classify_mmio_status(0x04), IrqCause::Unknown);
    assert_eq!(classify_mmio_status(0x85), IrqCause::UsedRing);
    assert_eq!(classify_mmio_status(0xfe), IrqCause::ConfigChange);
}

#[test]
fn reserved_bits_are_detected_but_never_acked() {
    assert!(!has_unknown_bits(0x03));
    assert!(has_unknown_bits(0x04));
    assert!(has_unknown_bits(0x81));
    assert_eq!(ack_mask(0xff), 0x03);
    assert_eq!(ack_mask(0x85), 0x01);
    assert_eq!(ack_mask(0x04), 0x00);
}

#[test]
fn publish_decisions_follow_the_known_bits() {
    assert!(should_publish_rx(0x01));
    assert!(should_publish_rx(0x03));
    assert!(!should_publish_rx(0x02));
    assert!(should_publish_config(0x02));
    assert!(should_publish_config(0x03));
    assert!(!should_publish_config(0x01));
    assert!(!should_publish_rx(0x00) && !should_publish_config(0x00));
}

#[test]
fn irq_plan_uses_the_low_status_byte() {
    let p = net_irq_plan(0x0000_0103);
    assert_eq!(p.status, 0x03);
    assert_eq!(p.ack_mask, 0x03);
    assert!(p.publish_used && p.publish_config);

    let p = net_irq_plan(0x0000_0100);
    assert_eq!(p.status, 0);
    assert_eq!(p.ack_mask, 0);
    assert!(!p.publish_used && !p.publish_config);

    let p = net_irq_plan(0x8000_0005);
    assert_eq!(p.status, 0x05);
    assert_eq!(p.ack_mask, 0x01);
    assert!(p.publish_used && !p.publish_config);
}

#[test]
fn telemetry_counts_each_event_once() {
    let mut t = IrqTelemetry::new();
    assert_eq!(t.record(0x00), IrqCause::Spurious);
    assert_eq!(t.record(0x01), IrqCause::UsedRing);
    assert_eq!(t.record(0x02), IrqCause::ConfigChange);
    assert_eq!(t.record(0x03), IrqCause::Combined);
    assert_eq!(t.record(0x04), IrqCause::Unknown);
    assert_eq!(t.record(0x05), IrqCause::UsedRing);
    t.record_ack();
    assert_eq!(t.total, 6);
    assert_eq!(t.spurious, 1);
    assert_eq!(t.used_ring, 2);
    assert_eq!(t.config_change, 1);
    assert_eq!(t.combined, 1);
    assert_eq!(t.unknown, 2);
    assert_eq!(t.ack_count, 1);
}

#[test]
fn telemetry_counters_wrap() {
    let mut t = IrqTelemetry::new();
    t.total = u64::MAX;
    t.record(0x01);
    assert_eq!(t.total, 0);
    assert_eq!(t.used_ring, 1);
}

#[test]
fn irq_state_observations_are_counted() {
    let mut t = IrqTelemetry::new();
    let o = observe_irq_state(false, true);
    assert!(!o.enabled_on_entry && o.restore_violation);
    t.record_irq_state(o);
    let o = observe_irq_state(true, true);
    assert!(o.enabled_on_entry && !o.restore_violation);
    t.record_irq_state(o);
    t.record_irq_state(observe_irq_state(false, false));
    assert_eq!(t.restore_violation, 1);
    assert_eq!(t.irq_enabled_entry, 1);
}

fn rx_snapshot() -> RxSnapshot {
    RxSnapshot {
        rx_lifecycle: 2,
        rx_owner: 1,
        isr_publish: 3,
        isr_wake: 4,
        software_nudge: 5,
        task_poll: 6,
        reaped: 7,
        refilled: 8,
        delivered: 9,
        non_ip_consumed: 10,
        budget_exhausted: 11,
        self_yield: 12,
        router_full_wait: 13,
        space_wake: 14,
        empty_check: 15,
        fault: 16,
        last_error_stage: 17,
        last_error_code: 18,
    }
}

fn rx_snapshot_v3() -> RxSnapshotV3 {
    RxSnapshotV3 {
        rx_slot_occupancy: 101,
        rx_slot_high_water: 102,
        rx_slot_full: 103,
        rx_slot_enqueue: 104,
        rx_slot_dequeue: 105,
        rx_slot_space_event: 106,
        tx_slot_occupancy: 107,
        tx_slot_high_water: 108,
        tx_slot_full: 109,
        tx_slot_enqueue: 110,
        tx_slot_dequeue: 111,
        tx_slot_space_event: 112,
        tx_submit: 113,
        tx_again: 114,
        tx_completion: 115,
        tx_reclaim: 116,
        tx_buffer_available: 117,
        tx_buffer_inflight: 118,
        tx_descriptor_available: 119,
        tx_descriptor_inflight: 120,
        reclaim_exhausted: 121,
        rx_exhausted: 122,
        submit_exhausted: 123,
        queue_generation: 124,
        queue_wake: 125,
        last_accepted: u64::MAX,
        live: 127,
        queued: 128,
        device_owned: 129,
        flush_target: u64::MAX,
        flush_success: 131,
        flush_error: 132,
        flush_busy: 133,
        flush_cancel: 134,
        hold_mode: 1,
        lease_expiry: 136,
        auto_release_failure: 137,
        lifecycle_fault: 138,
        ownership_invariant: 139,
        drop_malformed_ip: 140,
        drop_no_route: 141,
        drop_route_source_mismatch: 142,
        drop_unsupported_address: 143,
        drop_frame_too_large: 144,
    }
}

#[test]
fn snapshots_extend_each_other() {
    let mut t = IrqTelemetry::new();
    t.record(0x01);
    t.record(0x03);
    t.record_ack();
    t.record_irq_state(observe_irq_state(true, false));

    let v1 = irq_snapshot_v1(&t, 42);
    assert_eq!((v1.total, v1.used_ring, v1.combined), (2, 1, 1));
    assert_eq!((v1.ack_count, v1.uart_irq_count), (1, 42));
    assert_eq!(t.snapshot().uart_irq_count, 0);

    let rx = rx_snapshot();
    let v2 = irq_snapshot_v2(&t, 42, &rx);
    assert_eq!((v2.total, v2.used_ring, v2.uart_irq_count), (2, 1, 42));
    assert_eq!((v2.irq_enabled_entry, v2.restore_violation), (1, 0));
    assert_eq!((v2.rx_lifecycle, v2.rx_owner, v2.last_error_code), (2, 1, 18));

    let ext = rx_snapshot_v3();
    let v3 = irq_snapshot_v3(&t, 42, &rx, &ext);
    assert_eq!((v3.total, v3.uart_irq_count, v3.fault), (2, 42, 16));
    assert_eq!(v3.rx_slot_occupancy, 101);
    assert_eq!(v3.last_accepted, u64::MAX);
    assert_eq!(v3.drop_frame_too_large, 144);

    let recovery = RecoverySnapshotV4 {
        current_valid: 1,
        current_queue_epoch: 2,
        current_socket_epoch: 3,
        current_link_generation: 4,
        current_link_state: 1,
        current_owner_available: 6,
        current_owner_device_owned: 7,
        current_owner_quarantined: 0,
        fault_valid: 1,
        fault_stage: 9,
        fault_cause: 10,
        fault_queue_epoch: 1,
        fault_owner_available: 12,
        fault_owner_device_owned: 13,
        fault_owner_quarantined: 14,
    };
    let v4 = irq_snapshot_v4(&t, 42, &rx, &ext, &recovery);
    assert_eq!(v4.v3, v3);
    assert_eq!((v4.current_queue_epoch, v4.fault_cause), (2, 10));
    assert_eq!(v4.fault_owner_quarantined, 14);
}

#[test]
fn mmio_header_validation_order() {
    assert_eq!(validate_mmio_header(0x7472_6976, 2, 1), MmioHeaderCheck::Valid);
    assert_eq!(validate_mmio_header(0x7472_6976, 1, 1), MmioHeaderCheck::Valid);
    assert_eq!(
        validate_mmio_header(0xdead_beef, 0, 0),
        MmioHeaderCheck::BadMagic(0xdead_beef)
    );
    assert_eq!(
        validate_mmio_header(0x7472_6976, 0, 7),
        MmioHeaderCheck::VersionTooOld(0)
    );
    assert_eq!(
        validate_mmio_header(0x7472_6976, 2, 2),
        MmioHeaderCheck::NotNetwork(2)
    );
}
