use starry_drivers::net::stack_runner::{
    POLLING_FALLBACK_MICROS, RunnerAction, RxTaskLifecycle, StackEvent, StackRoundOutcome,
    StackRunner, StackRunnerLifecycle, StackTelemetry, StartError, select_runner_deadline,
    stack_snapshot, start_with,
};

fn millis(ms: i64) -> i64 {
    ms * 1000
}

fn quiet_outcome(requires_polling: bool) -> StackRoundOutcome {
    StackRoundOutcome {
        work: 0,
        deferred_checked: 0,
        deferred_reclaimed: 0,
        listener_checked: 0,
        listener_head_repairs: 0,
        backlog: false,
        faulted: false,
        rx_space_woken: false,
        tx_enqueued: false,
        self_yield: false,
        rx_ready: false,
        socket_changed: false,
        deferred_sweep_incomplete: false,
        listener_sweep_incomplete: false,
        requires_polling,
        protocol_deadline: None,
    }
}

/// One runner poll with a quiet round: observe the timer at `now`, then
/// decide how the poll ends.
fn poll_once(
    runner: &mut StackRunner,
    lifecycle: RxTaskLifecycle,
    requires_polling: bool,
    now: i64,
) -> RunnerAction {
    let elapsed = runner.deadline_reached(now);
    runner.begin_poll(elapsed);
    runner.after_round(&quiet_outcome(requires_polling), lifecycle, false, now)
}

fn is_pending(a: RunnerAction) -> bool {
    matches!(a, RunnerAction::Park { .. })
}

#[test]
fn event_before_register_is_seen_by_generation_recheck() {
    let mut event = StackEvent::new();
    let observed = event.generation();
    event.publish_software();
    assert!(event.changed_since(observed));
}

#[test]
fn event_during_register_window_wakes_and_changes_generation() {
    let mut event = StackEvent::new();
    let observed = event.generation();
    event.publish_device();
    assert!(event.changed_since(observed));
}

#[test]
fn device_and_software_publication_do_not_touch_queue_generation() {
    let mut stack = StackEvent::new();
    stack.publish_device();
    stack.publish_software();
    assert_eq!(stack.generation(), 2);
}

#[test]
fn generation_wraps() {
    let mut event = StackEvent::with_generation(u64::MAX);
    event.publish_device();
    assert_eq!(event.generation(), 0);
}

#[test]
fn start_seam_spawns_once_without_touching_production_global() {
    let mut lifecycle = StackRunnerLifecycle::new();
    let mut spawns = 0usize;
    assert_eq!(start_with(&mut lifecycle, || spawns += 1), Ok(()));
    assert_eq!(
        start_with(&mut lifecycle, || spawns += 1),
        Err(StartError::AlreadyStarted)
    );
    assert_eq!(spawns, 1);
    assert!(lifecycle.is_started());
    assert_eq!(StackEvent::new().generation(), 0);
}

#[test]
fn active_quiet_has_no_periodic_fallback_or_self_wake() {
    let mut runner = StackRunner::new();
    let action = poll_once(&mut runner, RxTaskLifecycle::Active, false, 0);
    assert_eq!(
        action,
        RunnerAction::Park {
            wake_now: false,
            start_timer: false
        }
    );
    assert_eq!(runner.timer_deadline(), None);
    assert_eq!(runner.telemetry.rounds, 1);
    assert_eq!(runner.telemetry.fallback_poll, 0);
}

#[test]
fn lifecycle_matrix_arms_only_allowed_fallbacks() {
    for state in [
        RxTaskLifecycle::Polling,
        RxTaskLifecycle::Spawned,
        RxTaskLifecycle::Unavailable,
    ] {
        let mut runner = StackRunner::new();
        assert!(is_pending(poll_once(&mut runner, state, false, 0)));
        assert_eq!(runner.timer_deadline(), Some(millis(10)));
    }

    let mut active_polling = StackRunner::new();
    assert!(is_pending(poll_once(
        &mut active_polling,
        RxTaskLifecycle::Active,
        true,
        0
    )));
    assert_eq!(active_polling.timer_deadline(), Some(millis(10)));

    let mut faulted = StackRunner::new();
    assert!(is_pending(poll_once(
        &mut faulted,
        RxTaskLifecycle::Faulted,
        false,
        0
    )));
    assert_eq!(faulted.timer_deadline(), None);
}

#[test]
fn elapsed_fallback_runs_one_more_bounded_round_and_rearms() {
    let mut runner = StackRunner::new();
    assert!(is_pending(poll_once(
        &mut runner,
        RxTaskLifecycle::Polling,
        false,
        0
    )));
    assert!(is_pending(poll_once(
        &mut runner,
        RxTaskLifecycle::Polling,
        false,
        10_000
    )));
    assert_eq!(runner.telemetry.timer_wake, 1);
    assert_eq!(runner.telemetry.rounds, 2);
    assert_eq!(runner.timer_deadline(), Some(millis(20)));
}

#[test]
fn deadline_selection_replaces_earlier_and_later_deadlines() {
    let early = millis(5);
    let late = millis(10);
    assert_eq!(select_runner_deadline(Some(late), Some(early)), Some(early));
    assert_eq!(select_runner_deadline(Some(early), Some(late)), Some(early));
    assert_eq!(select_runner_deadline(None, Some(late)), Some(late));
    assert_eq!(select_runner_deadline(Some(early), None), Some(early));
}

#[test]
fn timer_replacement_ignores_stale_and_expires_exactly_once() {
    let mut runner = StackRunner::new();
    let t0 = millis(0);
    let t5 = millis(5);
    let t10 = millis(10);
    let t20 = millis(20);

    // Earlier deadline then a later replacement: the later one wins.
    runner.arm_timer(t0, Some(t5));
    assert_eq!(runner.timer_deadline(), Some(t5));
    runner.arm_timer(t0, Some(t10));
    assert_eq!(runner.timer_deadline(), Some(t10));

    // Stale deadline arrival (old t5) must not fire anymore.
    let elapsed = runner.deadline_reached(5_000);
    runner.poll_timer(elapsed);
    assert_eq!(runner.timer_deadline(), Some(t10));
    assert_eq!(runner.telemetry.timer_wake, 0);

    // Current deadline arrival fires exactly once and cancels.
    let elapsed = runner.deadline_reached(10_000);
    runner.poll_timer(elapsed);
    assert_eq!(runner.timer_deadline(), None);
    assert_eq!(runner.telemetry.timer_wake, 1);

    // A second poll at the same instant does not double-fire.
    let elapsed = runner.deadline_reached(10_000);
    runner.poll_timer(elapsed);
    assert_eq!(runner.telemetry.timer_wake, 1);

    // Re-arming with a fresh future deadline works after expiry and does
    // not double-count the previous expiry.
    runner.arm_timer(t10, Some(t20));
    assert_eq!(runner.timer_deadline(), Some(t20));
    assert_eq!(runner.telemetry.timer_wake, 1);
}

#[test]
fn snapshot_is_observation_only_and_mirrors_local_state() {
    let mut lifecycle = StackRunnerLifecycle::new();
    lifecycle.start().unwrap();
    let event = StackEvent::with_generation(7);
    let mut telemetry = StackTelemetry::new();
    telemetry.task_poll = 11;
    telemetry.rounds = 9;
    telemetry.work = 33;
    telemetry.self_yield = 2;
    telemetry.progress_wake = 3;
    telemetry.fallback_poll = 4;

    let snapshot = stack_snapshot(&lifecycle, &event, &telemetry);
    assert_eq!(snapshot.started, 1);
    assert_eq!(snapshot.generation, 7);
    assert_eq!(snapshot.task_poll, 11);
    assert_eq!(snapshot.rounds, 9);
    assert_eq!(snapshot.work, 33);
    assert_eq!(snapshot.self_yield, 2);
    assert_eq!(snapshot.progress_wake, 3);
    assert_eq!(snapshot.fallback_poll, 4);
}

// ── Further scenarios of the runner's decisions ──────────────────────

#[test]
fn budget_exhausted_round_self_wakes_and_cancels_timer() {
    let mut runner = StackRunner::new();
    runner.arm_timer(0, Some(millis(10)));
    let mut outcome = quiet_outcome(false);
    outcome.work = 32;
    outcome.self_yield = true;
    let action = runner.after_round(&outcome, RxTaskLifecycle::Active, false, 0);
    assert_eq!(action, RunnerAction::SelfWake);
    assert_eq!(runner.timer_deadline(), None);
    assert_eq!(runner.telemetry.self_yield, 1);
    assert_eq!(runner.telemetry.progress_wake, 0);
    assert_eq!(runner.telemetry.work, 32);
}

#[test]
fn loopback_progress_self_wakes_as_progress() {
    let mut runner = StackRunner::new();
    let mut outcome = quiet_outcome(false);
    outcome.rx_ready = true;
    let action = runner.after_round(&outcome, RxTaskLifecycle::Active, false, 0);
    assert_eq!(action, RunnerAction::SelfWake);
    assert_eq!(runner.telemetry.progress_wake, 1);
    assert_eq!(runner.telemetry.self_yield, 0);
}

#[test]
fn event_published_during_round_retries() {
    let mut event = StackEvent::new();
    let observed = event.generation();
    event.publish_device();
    let mut runner = StackRunner::new();
    let action = runner.after_round(
        &quiet_outcome(false),
        RxTaskLifecycle::Active,
        event.changed_since(observed),
        0,
    );
    assert_eq!(action, RunnerAction::SelfWake);
    assert_eq!(runner.telemetry.event_retry, 1);
    assert_eq!(runner.telemetry.rounds, 1);
}

#[test]
fn protocol_deadline_earlier_than_fallback_wins() {
    let mut runner = StackRunner::new();
    let mut outcome = quiet_outcome(false);
    outcome.protocol_deadline = Some(millis(3));
    let action = runner.after_round(&outcome, RxTaskLifecycle::Polling, false, 0);
    assert_eq!(
        action,
        RunnerAction::Park {
            wake_now: false,
            start_timer: true
        }
    );
    assert_eq!(runner.timer_deadline(), Some(millis(3)));
    assert_eq!(runner.telemetry.fallback_poll, 1);
}

#[test]
fn past_protocol_deadline_wakes_immediately_without_timer() {
    let mut runner = StackRunner::new();
    let mut outcome = quiet_outcome(false);
    outcome.protocol_deadline = Some(millis(1));
    let action = runner.after_round(&outcome, RxTaskLifecycle::Active, false, millis(2));
    assert_eq!(
        action,
        RunnerAction::Park {
            wake_now: true,
            start_timer: false
        }
    );
    assert_eq!(runner.timer_deadline(), None);
    assert_eq!(runner.telemetry.timer_wake, 1);
}

#[test]
fn rearming_the_same_deadline_keeps_the_timer() {
    let mut runner = StackRunner::new();
    assert_eq!(
        runner.arm_timer(0, Some(POLLING_FALLBACK_MICROS)),
        RunnerAction::Park {
            wake_now: false,
            start_timer: true
        }
    );
    assert_eq!(
        runner.arm_timer(0, Some(POLLING_FALLBACK_MICROS)),
        RunnerAction::Park {
            wake_now: false,
            start_timer: false
        }
    );
    assert_eq!(runner.timer_deadline(), Some(POLLING_FALLBACK_MICROS));
    runner.timer_ready_on_arm();
    assert_eq!(runner.timer_deadline(), None);
    assert_eq!(runner.telemetry.timer_wake, 1);
}

#[test]
fn round_outcome_counters_accumulate() {
    let mut runner = StackRunner::new();
    let mut outcome = quiet_outcome(false);
    outcome.work = 5;
    outcome.deferred_checked = 2;
    outcome.deferred_reclaimed = 1;
    outcome.listener_checked = 3;
    outcome.listener_head_repairs = 1;
    outcome.backlog = true;
    outcome.faulted = true;
    outcome.rx_space_woken = true;
    outcome.tx_enqueued = true;
    runner.after_round(&outcome, RxTaskLifecycle::Faulted, false, 0);
    let t = runner.telemetry;
    assert_eq!(
        (t.rounds, t.work, t.deferred_checked, t.deferred_reclaimed),
        (1, 5, 2, 1)
    );
    assert_eq!((t.listener_checked, t.listener_head_repairs), (3, 1));
    assert_eq!(
        (t.backlog_round, t.fault, t.rx_space_wake, t.tx_enqueue),
        (1, 1, 1, 1)
    );
    assert_eq!(runner.timer_deadline(), None);
}

#[test]
fn begin_poll_counts_task_polls() {
    let mut runner = StackRunner::new();
    runner.begin_poll(false);
    runner.begin_poll(true);
    assert_eq!(runner.telemetry.task_poll, 2);
    assert_eq!(runner.telemetry.timer_wake, 0);
    runner.cancel_timer();
    assert_eq!(runner.timer_deadline(), None);
}
