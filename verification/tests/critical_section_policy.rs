use starry_drivers::critical_section_policy::IrqRestorePolicy;

#[test]
fn acquire_from_enabled_disables() {
    let mut p = IrqRestorePolicy::new();
    assert!(p.acquire());
    assert!(!p.irqs_enabled());
}

#[test]
fn nested_acquire_from_disabled_stays_disabled() {
    let mut p = IrqRestorePolicy::new();
    assert!(p.acquire());
    assert!(!p.acquire());
    assert!(!p.irqs_enabled());
}

#[test]
fn inner_release_keeps_disabled_outer_reenables() {
    let mut p = IrqRestorePolicy::new();
    p.acquire();
    p.acquire();
    assert!(!p.release());
    assert!(!p.irqs_enabled());
    assert!(p.release());
    assert!(p.irqs_enabled());
}

#[test]
fn isr_wake_context_never_reenables() {
    let mut p = IrqRestorePolicy::new_with_irqs_disabled();
    assert!(!p.acquire());
    assert!(!p.release());
    assert!(!p.irqs_enabled());
}

#[test]
fn single_release_restores_enabled() {
    let mut p = IrqRestorePolicy::new();
    p.acquire();
    assert!(p.release());
    assert!(p.irqs_enabled());
}

#[test]
fn many_nested_levels_track_depth() {
    let mut p = IrqRestorePolicy::new();
    assert!(p.acquire());
    assert!(!p.acquire());
    assert!(!p.acquire());
    assert!(!p.irqs_enabled());
    assert!(!p.release());
    assert!(!p.release());
    assert!(p.release());
    assert!(p.irqs_enabled());
}

#[test]
fn acquire_release_round_trip_restores_depth_and_state() {
    let mut p = IrqRestorePolicy::default();
    assert_eq!(p.depth(), 0);
    for _ in 0..4 {
        p.acquire();
    }
    assert_eq!(p.depth(), 4);
    for _ in 0..4 {
        p.release();
    }
    assert_eq!(p.depth(), 0);
    assert!(p.irqs_enabled());
}
