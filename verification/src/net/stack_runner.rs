//! Resident smoltcp stack-runner notification, lifecycle and scheduling.
//!
//! One runner task drives every stack round. Device progress and software
//! mutations publish a shared generation; the runner samples it before a
//! round and rechecks it afterwards, so an event published while the round
//! ran is never lost. After a round the runner either continues immediately
//! (more work reachable without a new event), retries because the generation
//! moved, or parks on a timer: the protocol deadline, or a 10 ms polling
//! fallback unless the RX task is active (and does not require polling) or
//! faulted.
//!
//! Time is carried as an instant in microseconds.

use vstd::prelude::*;

verus! {

/// Polling fallback interval, in microseconds (10 ms).
pub const POLLING_FALLBACK_MICROS: i64 = 10_000;

/// One wrapping increment of a generation or counter.
pub open spec fn inc(x: u64) -> u64 {
    vstd::wrapping::u64_specs::wrapping_add(x, 1)
}

/// Adds `n` to a telemetry counter, wrapping.
pub open spec fn add_to(x: u64, n: u64) -> u64 {
    vstd::wrapping::u64_specs::wrapping_add(x, n)
}

// ── Event generation ─────────────────────────────────────────────────

/// Notification generation owned by the resident stack runner.
///
/// Device progress and software mutations share this generation; each
/// publication advances it by one (wrapping) and then wakes the runner.
#[derive(Debug, Clone, Copy, PartialEq, Eq, Structural)]
pub struct StackEvent {
    generation: u64,
}

impl StackEvent {
    /// The current generation.
    pub closed spec fn generation_spec(&self) -> u64 {
        self.generation
    }

    /// A fresh event at generation zero.
    pub fn new() -> (e: Self)
        ensures
            e.generation_spec() == 0,
    {
        StackEvent { generation: 0 }
    }

    /// An event starting at the given generation.
    pub fn with_generation(generation: u64) -> (e: Self)
        ensures
            e.generation_spec() == generation,
    {
        StackEvent { generation }
    }

    /// The current generation.
    pub fn generation(&self) -> (g: u64)
        ensures
            g == self.generation_spec(),
    {
        self.generation
    }

    /// Whether any publication happened since `observed` was sampled.
    pub fn changed_since(&self, observed: u64) -> (r: bool)
        ensures
            r == (self.generation_spec() != observed),
    {
        self.generation != observed
    }

    fn publish(&mut self)
        ensures
            final(self).generation_spec() == inc(old(self).generation_spec()),
    {
        self.generation = self.generation.wrapping_add(1);
    }

    /// Publish device progress (the caller then wakes the runner).
    pub fn publish_device(&mut self)
        ensures
            final(self).generation_spec() == inc(old(self).generation_spec()),
    {
        self.publish();
    }

    /// Publish work committed by a software socket operation (the caller
    /// then wakes the runner).
    pub fn publish_software(&mut self)
        ensures
            final(self).generation_spec() == inc(old(self).generation_spec()),
    {
        self.publish();
    }
}

/// Any single publication is observed by a generation recheck against a
/// sample taken before it, wrap-around included.
pub proof fn lemma_publication_is_observed(g: u64)
    ensures
        inc(g) != g,
        g == u64::MAX ==> inc(g) == 0,
{
}

// ── One-way lifecycle ────────────────────────────────────────────────

/// Error returned when the unique runner was already started.
#[derive(Debug, Clone, Copy, PartialEq, Eq, Structural)]
pub enum StartError {
    AlreadyStarted,
}

/// One-way lifecycle for the unique stack runner.
#[derive(Debug, Clone, Copy, PartialEq, Eq, Structural)]
pub struct StackRunnerLifecycle {
    started: bool,
}

impl StackRunnerLifecycle {
    /// Whether the runner has been started.
    pub closed spec fn started_spec(&self) -> bool {
        self.started
    }

    /// A lifecycle that has not started.
    pub fn new() -> (l: Self)
        ensures
            !l.started_spec(),
    {
        StackRunnerLifecycle { started: false }
    }

    /// Whether the runner has been started.
    pub fn is_started(&self) -> (r: bool)
        ensures
            r == self.started_spec(),
    {
        self.started
    }

    /// Mark the runner started; fails if it already was.
    pub fn start(&mut self) -> (r: Result<(), StartError>)
        ensures
            final(self).started_spec(),
            r is Ok <==> !old(self).started_spec(),
            r is Err ==> r == Err::<(), StartError>(StartError::AlreadyStarted),
    {
        if self.started {
            Err(StartError::AlreadyStarted)
        } else {
            self.started = true;
            Ok(())
        }
    }
}

/// Start the runner through `lifecycle` and, only if this call won, spawn it.
pub fn start_with<F: FnOnce()>(lifecycle: &mut StackRunnerLifecycle, spawn: F) -> (r: Result<
    (),
    StartError,
>)
    requires
        spawn.requires(()),
    ensures
        final(lifecycle).started_spec(),
        r is Ok <==> !old(lifecycle).started_spec(),
        r is Err ==> r == Err::<(), StartError>(StartError::AlreadyStarted),
        r is Ok ==> spawn.ensures((), ()),
{
    match lifecycle.start() {
        Ok(()) => {
            spawn();
            Ok(())
        },
        Err(e) => Err(e),
    }
}

// ── Telemetry and snapshot ───────────────────────────────────────────

/// Observation-only runner counters.
#[derive(Debug, Clone, Copy, PartialEq, Eq, Structural)]
pub struct StackTelemetry {
    pub task_poll: u64,
    pub rounds: u64,
    pub work: u64,
    pub self_yield: u64,
    pub progress_wake: u64,
    pub timer_wake: u64,
    pub fallback_poll: u64,
    pub event_retry: u64,
    pub backlog_round: u64,
    pub fault: u64,
    pub rx_space_wake: u64,
    pub tx_enqueue: u64,
    /// Deferred-close entries examined / reclaimed by the bounded
    /// retirement stage (cumulative).
    pub deferred_checked: u64,
    pub deferred_reclaimed: u64,
    /// Listener hidden-slot positions examined (cumulative).
    pub listener_checked: u64,
    /// Exact head micro-repairs after processed ingress packets (cumulative).
    pub listener_head_repairs: u64,
}

/// All counters zero.
pub open spec fn telemetry_zero() -> StackTelemetry {
    (StackTelemetry {
        task_poll: 0,
        rounds: 0,
        work: 0,
        self_yield: 0,
        progress_wake: 0,
        timer_wake: 0,
        fallback_poll: 0,
        event_retry: 0,
        backlog_round: 0,
        fault: 0,
        rx_space_wake: 0,
        tx_enqueue: 0,
        deferred_checked: 0,
        deferred_reclaimed: 0,
        listener_checked: 0,
        listener_head_repairs: 0,
    })
}

impl StackTelemetry {
    /// Zeroed counters.
    pub fn new() -> (t: Self)
        ensures
            t == telemetry_zero(),
    {
        StackTelemetry {
            task_poll: 0,
            rounds: 0,
            work: 0,
            self_yield: 0,
            progress_wake: 0,
            timer_wake: 0,
            fallback_poll: 0,
            event_retry: 0,
            backlog_round: 0,
            fault: 0,
            rx_space_wake: 0,
            tx_enqueue: 0,
            deferred_checked: 0,
            deferred_reclaimed: 0,
            listener_checked: 0,
            listener_head_repairs: 0,
        }
    }
}

/// Observation-only runner snapshot.
#[derive(Debug, Clone, Copy, PartialEq, Eq, Structural)]
pub struct StackSnapshot {
    pub started: u64,
    pub generation: u64,
    pub task_poll: u64,
    pub rounds: u64,
    pub work: u64,
    pub self_yield: u64,
    pub progress_wake: u64,
    pub timer_wake: u64,
    pub fallback_poll: u64,
    pub event_retry: u64,
    pub backlog_round: u64,
    pub fault: u64,
    pub rx_space_wake: u64,
    pub tx_enqueue: u64,
    /// Deferred-close entries examined / reclaimed so far.
    pub deferred_checked: u64,
    pub deferred_reclaimed: u64,
    /// Listener hidden-slot positions examined so far.
    pub listener_checked: u64,
    /// Exact head micro-repairs so far.
    pub listener_head_repairs: u64,
}

/// Returns a snapshot of the runner's lifecycle, generation and counters.
pub fn stack_snapshot(
    lifecycle: &StackRunnerLifecycle,
    event: &StackEvent,
    telemetry: &StackTelemetry,
) -> (s: StackSnapshot)
    ensures
        s == (StackSnapshot {
            started: if lifecycle.started_spec() { 1 } else { 0 },
            generation: event.generation_spec(),
            task_poll: telemetry.task_poll,
            rounds: telemetry.rounds,
            work: telemetry.work,
            self_yield: telemetry.self_yield,
            progress_wake: telemetry.progress_wake,
            timer_wake: telemetry.timer_wake,
            fallback_poll: telemetry.fallback_poll,
            event_retry: telemetry.event_retry,
            backlog_round: telemetry.backlog_round,
            fault: telemetry.fault,
            rx_space_wake: telemetry.rx_space_wake,
            tx_enqueue: telemetry.tx_enqueue,
            deferred_checked: telemetry.deferred_checked,
            deferred_reclaimed: telemetry.deferred_reclaimed,
            listener_checked: telemetry.listener_checked,
            listener_head_repairs: telemetry.listener_head_repairs,
        }),
{
    StackSnapshot {
        started: if lifecycle.is_started() { 1 } else { 0 },
        generation: event.generation(),
        task_poll: telemetry.task_poll,
        rounds: telemetry.rounds,
        work: telemetry.work,
        self_yield: telemetry.self_yield,
        progress_wake: telemetry.progress_wake,
        timer_wake: telemetry.timer_wake,
        fallback_poll: telemetry.fallback_poll,
        event_retry: telemetry.event_retry,
        backlog_round: telemetry.backlog_round,
        fault: telemetry.fault,
        rx_space_wake: telemetry.rx_space_wake,
        tx_enqueue: telemetry.tx_enqueue,
        deferred_checked: telemetry.deferred_checked,
        deferred_reclaimed: telemetry.deferred_reclaimed,
        listener_checked: telemetry.listener_checked,
        listener_head_repairs: telemetry.listener_head_repairs,
    }
}

// ── Per-poll decisions ───────────────────────────────────────────────

/// The earlier of the protocol deadline and the fallback deadline, when
/// either exists.
pub open spec fn select_deadline_spec(protocol: Option<i64>, fallback: Option<i64>) -> Option<
    i64,
> {
    match (protocol, fallback) {
        (Some(p), Some(f)) => Some(if p <= f { p } else { f }),
        (Some(p), None) => Some(p),
        (None, Some(f)) => Some(f),
        (None, None) => None,
    }
}

/// Choose the runner deadline: the minimum of the present deadlines.
pub fn select_runner_deadline(protocol_deadline: Option<i64>, fallback_deadline: Option<i64>) -> (r:
    Option<i64>)
    ensures
        r == select_deadline_spec(protocol_deadline, fallback_deadline),
{
    match (protocol_deadline, fallback_deadline) {
        (Some(protocol), Some(fallback)) => Some(
            if protocol <= fallback {
                protocol
            } else {
                fallback
            },
        ),
        (Some(protocol), None) => Some(protocol),
        (None, Some(fallback)) => Some(fallback),
        (None, None) => None,
    }
}

/// Lifecycle of the asynchronous RX queue task.
#[derive(Debug, Clone, Copy, PartialEq, Eq, Structural)]
pub enum RxTaskLifecycle {
    Polling,
    Spawned,
    Active,
    Unavailable,
    Faulted,
}

/// What one bounded stack round reported.
#[derive(Debug, Clone, Copy, PartialEq, Eq, Structural)]
pub struct StackRoundOutcome {
    pub work: usize,
    pub deferred_checked: usize,
    pub deferred_reclaimed: usize,
    pub listener_checked: usize,
    pub listener_head_repairs: usize,
    pub backlog: bool,
    pub faulted: bool,
    pub rx_space_woken: bool,
    pub tx_enqueued: bool,
    /// The round hit its budget with work left.
    pub self_yield: bool,
    /// A loopback/non-IRQ transmit made RX ready.
    pub rx_ready: bool,
    /// A protocol state transition happened.
    pub socket_changed: bool,
    pub deferred_sweep_incomplete: bool,
    pub listener_sweep_incomplete: bool,
    /// The device still needs polling even with an active RX task.
    pub requires_polling: bool,
    /// The protocol's next poll deadline, if any.
    pub protocol_deadline: Option<i64>,
}

/// Whether more work is reachable without a new event.
pub open spec fn continues_immediately(o: StackRoundOutcome) -> bool {
    o.self_yield || o.rx_ready || o.socket_changed || o.deferred_sweep_incomplete
        || o.listener_sweep_incomplete
}

/// The polling-fallback deadline for a lifecycle after a quiet round.
pub open spec fn fallback_deadline_spec(
    lifecycle: RxTaskLifecycle,
    requires_polling: bool,
    now: i64,
) -> Option<i64> {
    match lifecycle {
        RxTaskLifecycle::Faulted => None,
        RxTaskLifecycle::Active => if requires_polling {
            Some((now + POLLING_FALLBACK_MICROS) as i64)
        } else {
            None
        },
        _ => Some((now + POLLING_FALLBACK_MICROS) as i64),
    }
}

/// How the runner ends a poll.
#[derive(Debug, Clone, Copy, PartialEq, Eq, Structural)]
pub enum RunnerAction {
    /// Wake itself now and return pending (timer cancelled).
    SelfWake,
    /// Return pending with the timer left as decided: `wake_now` asks for an
    /// immediate wake because the chosen deadline has already passed;
    /// `start_timer` asks the glue to start a sleep until the stored
    /// deadline.
    Park { wake_now: bool, start_timer: bool },
}

/// One observation of the armed timer: whether it fires, and the deadline
/// left armed afterwards.
pub open spec fn timer_step(deadline: Option<i64>, elapsed: bool) -> (bool, Option<i64>) {
    if deadline is Some && elapsed {
        (true, None)
    } else {
        (false, deadline)
    }
}

/// How arming `deadline` at `now` ends a poll, given the deadline armed
/// before: no change and no deadline park quietly; a passed deadline asks
/// for an immediate wake; a future one asks for a timer start.
pub open spec fn arm_action(armed: Option<i64>, now: i64, deadline: Option<i64>) -> RunnerAction {
    if armed == deadline {
        RunnerAction::Park { wake_now: false, start_timer: false }
    } else {
        match deadline {
            None => RunnerAction::Park { wake_now: false, start_timer: false },
            Some(d) => if d <= now {
                RunnerAction::Park { wake_now: true, start_timer: false }
            } else {
                RunnerAction::Park { wake_now: false, start_timer: true }
            },
        }
    }
}

/// The deadline left armed after arming `deadline` at `now`.
pub open spec fn arm_deadline(armed: Option<i64>, now: i64, deadline: Option<i64>) -> Option<i64> {
    if armed == deadline {
        deadline
    } else {
        match deadline {
            None => None,
            Some(d) => if d <= now {
                None
            } else {
                Some(d)
            },
        }
    }
}

/// The resident runner's own state: its timer deadline and counters.
pub struct StackRunner {
    /// The armed timer deadline, if any.
    pub timer_deadline: Option<i64>,
    /// Runner counters.
    pub telemetry: StackTelemetry,
}

impl StackRunner {
    /// The armed timer deadline, if any.
    pub closed spec fn deadline_spec(&self) -> Option<i64> {
        self.timer_deadline
    }

    /// A runner with no timer and zero counters.
    pub fn new() -> (r: Self)
        ensures
            r.deadline_spec() is None,
            r.telemetry == telemetry_zero(),
    {
        StackRunner { timer_deadline: None, telemetry: StackTelemetry::new() }
    }

    /// The armed timer deadline, if any.
    pub fn timer_deadline(&self) -> (d: Option<i64>)
        ensures
            d == self.deadline_spec(),
    {
        self.timer_deadline
    }

    /// Drop any armed timer.
    pub fn cancel_timer(&mut self)
        ensures
            final(self).deadline_spec() is None,
            final(self).telemetry == old(self).telemetry,
    {
        self.timer_deadline = None;
    }

    /// Observe the armed timer: when it has elapsed it fires exactly once
    /// (cancelled and counted); a stale or absent timer never fires.
    pub fn poll_timer(&mut self, elapsed: bool) -> (fired: bool)
        ensures
            (fired, final(self).deadline_spec()) == timer_step(old(self).deadline_spec(), elapsed),
            fired ==> final(self).telemetry == (StackTelemetry {
                timer_wake: inc(old(self).telemetry.timer_wake),
                ..old(self).telemetry
            }),
            !fired ==> final(self).telemetry == old(self).telemetry,
    {
        if self.timer_deadline.is_none() {
            return false;
        }
        if elapsed {
            self.timer_deadline = None;
            self.telemetry.timer_wake = self.telemetry.timer_wake.wrapping_add(1);
            true
        } else {
            false
        }
    }

    /// Whether the armed timer's deadline has been reached at `now`.
    pub fn deadline_reached(&self, now: i64) -> (r: bool)
        ensures
            r == match self.deadline_spec() {
                Some(d) => now >= d,
                None => false,
            },
    {
        match self.timer_deadline {
            Some(d) => now >= d,
            None => false,
        }
    }

    /// Arm the timer for `deadline`. Re-arming the same deadline is a no-op;
    /// a different one replaces the old timer (which can no longer fire); a
    /// deadline already reached is counted and answered with an immediate
    /// wake instead of a timer.
    pub fn arm_timer(&mut self, now: i64, deadline: Option<i64>) -> (a: RunnerAction)
        ensures
            a == arm_action(old(self).deadline_spec(), now, deadline),
            final(self).deadline_spec() == arm_deadline(old(self).deadline_spec(), now, deadline),
            old(self).deadline_spec() == deadline ==> final(self).deadline_spec() == deadline
                && final(self).telemetry == old(self).telemetry && a == (RunnerAction::Park {
                wake_now: false,
                start_timer: false,
            }),
            old(self).deadline_spec() != deadline ==> match deadline {
                None => final(self).deadline_spec() is None && final(self).telemetry == old(
                    self,
                ).telemetry && a == (RunnerAction::Park { wake_now: false, start_timer: false }),
                Some(d) => if d <= now {
                    final(self).deadline_spec() is None && final(self).telemetry == (
                    StackTelemetry {
                        timer_wake: inc(old(self).telemetry.timer_wake),
                        ..old(self).telemetry
                    }) && a == (RunnerAction::Park { wake_now: true, start_timer: false })
                } else {
                    final(self).deadline_spec() == Some(d) && final(self).telemetry == old(
                        self,
                    ).telemetry && a == (RunnerAction::Park { wake_now: false, start_timer: true })
                },
            },
    {
        if self.timer_deadline == deadline {
            return RunnerAction::Park { wake_now: false, start_timer: false };
        }
        self.timer_deadline = None;
        match deadline {
            None => RunnerAction::Park { wake_now: false, start_timer: false },
            Some(d) => {
                if d <= now {
                    self.telemetry.timer_wake = self.telemetry.timer_wake.wrapping_add(1);
                    RunnerAction::Park { wake_now: true, start_timer: false }
                } else {
                    self.timer_deadline = Some(d);
                    RunnerAction::Park { wake_now: false, start_timer: true }
                }
            },
        }
    }

    /// The sleep started for the stored deadline completed immediately:
    /// drop the deadline and count a timer wake (the glue wakes the task).
    pub fn timer_ready_on_arm(&mut self)
        ensures
            final(self).deadline_spec() is None,
            final(self).telemetry == (StackTelemetry {
                timer_wake: inc(old(self).telemetry.timer_wake),
                ..old(self).telemetry
            }),
    {
        self.timer_deadline = None;
        self.telemetry.timer_wake = self.telemetry.timer_wake.wrapping_add(1);
    }

    /// Start of a poll: count it and observe the timer.
    pub fn begin_poll(&mut self, timer_elapsed: bool)
        ensures
            final(self).deadline_spec() == timer_step(old(self).deadline_spec(), timer_elapsed).1,
            final(self).telemetry == (StackTelemetry {
                task_poll: inc(old(self).telemetry.task_poll),
                timer_wake: if timer_step(old(self).deadline_spec(), timer_elapsed).0 {
                    inc(old(self).telemetry.timer_wake)
                } else {
                    old(self).telemetry.timer_wake
                },
                ..old(self).telemetry
            }),
    {
        self.telemetry.task_poll = self.telemetry.task_poll.wrapping_add(1);
        self.poll_timer(timer_elapsed);
    }

    /// Record a finished round's outcome in the counters.
    fn record_round(&mut self, o: &StackRoundOutcome)
        ensures
            final(self).deadline_spec() == old(self).deadline_spec(),
            final(self).telemetry == (StackTelemetry {
                rounds: inc(old(self).telemetry.rounds),
                work: add_to(old(self).telemetry.work, o.work as u64),
                deferred_checked: add_to(
                    old(self).telemetry.deferred_checked,
                    o.deferred_checked as u64,
                ),
                deferred_reclaimed: add_to(
                    old(self).telemetry.deferred_reclaimed,
                    o.deferred_reclaimed as u64,
                ),
                listener_checked: add_to(
                    old(self).telemetry.listener_checked,
                    o.listener_checked as u64,
                ),
                listener_head_repairs: add_to(
                    old(self).telemetry.listener_head_repairs,
                    o.listener_head_repairs as u64,
                ),
                backlog_round: if o.backlog {
                    inc(old(self).telemetry.backlog_round)
                } else {
                    old(self).telemetry.backlog_round
                },
                fault: if o.faulted {
                    inc(old(self).telemetry.fault)
                } else {
                    old(self).telemetry.fault
                },
                rx_space_wake: if o.rx_space_woken {
                    inc(old(self).telemetry.rx_space_wake)
                } else {
                    old(self).telemetry.rx_space_wake
                },
                tx_enqueue: if o.tx_enqueued {
                    inc(old(self).telemetry.tx_enqueue)
                } else {
                    old(self).telemetry.tx_enqueue
                },
                ..old(self).telemetry
            }),
    {
        let t = &mut self.telemetry;
        t.rounds = t.rounds.wrapping_add(1);
        t.work = t.work.wrapping_add(o.work as u64);
        t.deferred_checked = t.deferred_checked.wrapping_add(o.deferred_checked as u64);
        t.deferred_reclaimed = t.deferred_reclaimed.wrapping_add(o.deferred_reclaimed as u64);
        t.listener_checked = t.listener_checked.wrapping_add(o.listener_checked as u64);
        t.listener_head_repairs = t.listener_head_repairs.wrapping_add(
            o.listener_head_repairs as u64,
        );
        if o.backlog {
            t.backlog_round = t.backlog_round.wrapping_add(1);
        }
        if o.faulted {
            t.fault = t.fault.wrapping_add(1);
        }
        if o.rx_space_woken {
            t.rx_space_wake = t.rx_space_wake.wrapping_add(1);
        }
        if o.tx_enqueued {
            t.tx_enqueue = t.tx_enqueue.wrapping_add(1);
        }
    }

    /// Decide how a poll ends after a round: continue immediately when more
    /// work is reachable, retry when the generation moved during the round,
    /// otherwise park on the earlier of the protocol deadline and the
    /// polling fallback.
    pub fn after_round(
        &mut self,
        outcome: &StackRoundOutcome,
        lifecycle: RxTaskLifecycle,
        event_changed: bool,
        now: i64,
    ) -> (a: RunnerAction)
        requires
            now <= i64::MAX - POLLING_FALLBACK_MICROS,
        ensures
            final(self).telemetry.rounds == inc(old(self).telemetry.rounds),
            continues_immediately(*outcome) ==> a == RunnerAction::SelfWake
                && final(self).deadline_spec() is None && (if outcome.self_yield {
                final(self).telemetry.self_yield == inc(old(self).telemetry.self_yield)
            } else {
                final(self).telemetry.progress_wake == inc(old(self).telemetry.progress_wake)
            }),
            !continues_immediately(*outcome) && event_changed ==> a == RunnerAction::SelfWake
                && final(self).deadline_spec() is None && final(self).telemetry.event_retry == inc(
                old(self).telemetry.event_retry,
            ),
            !continues_immediately(*outcome) && !event_changed ==> ({
                let fallback = fallback_deadline_spec(lifecycle, outcome.requires_polling, now);
                let deadline = select_deadline_spec(outcome.protocol_deadline, fallback);
                &&& a == arm_action(old(self).deadline_spec(), now, deadline)
                &&& final(self).deadline_spec() == arm_deadline(
                    old(self).deadline_spec(),
                    now,
                    deadline,
                )
                &&& final(self).telemetry.fallback_poll == if fallback is Some {
                    inc(old(self).telemetry.fallback_poll)
                } else {
                    old(self).telemetry.fallback_poll
                }
                &&& final(self).telemetry.timer_wake == if arm_action(
                    old(self).deadline_spec(),
                    now,
                    deadline,
                ) == (RunnerAction::Park { wake_now: true, start_timer: false }) {
                    inc(old(self).telemetry.timer_wake)
                } else {
                    old(self).telemetry.timer_wake
                }
            }),
    {
        self.record_round(outcome);
        if outcome.self_yield || outcome.rx_ready || outcome.socket_changed
            || outcome.deferred_sweep_incomplete || outcome.listener_sweep_incomplete {
            self.cancel_timer();
            if outcome.self_yield {
                self.telemetry.self_yield = self.telemetry.self_yield.wrapping_add(1);
            } else {
                self.telemetry.progress_wake = self.telemetry.progress_wake.wrapping_add(1);
            }
            return RunnerAction::SelfWake;
        }
        if event_changed {
            self.cancel_timer();
            self.telemetry.event_retry = self.telemetry.event_retry.wrapping_add(1);
            return RunnerAction::SelfWake;
        }
        let fallback_deadline = match lifecycle {
            RxTaskLifecycle::Faulted => None,
            RxTaskLifecycle::Active if !outcome.requires_polling => None,
            _ => {
                self.telemetry.fallback_poll = self.telemetry.fallback_poll.wrapping_add(1);
                Some(now + POLLING_FALLBACK_MICROS)
            },
        };
        let deadline = select_runner_deadline(outcome.protocol_deadline, fallback_deadline);
        self.arm_timer(now, deadline)
    }
}

/// An armed timer fires at most once: after it fired, no later observation
/// fires it again until it is re-armed.
pub proof fn lemma_timer_fires_once(deadline: Option<i64>, first: bool, second: bool)
    ensures
        timer_step(deadline, first).0 ==> !timer_step(timer_step(deadline, first).1, second).0,
{
}

/// A quiet round under an active, interrupt-driven RX task arms no periodic
/// fallback: without a protocol deadline the runner parks with no timer and
/// no self-wake, relying only on a new event: whatever timer was armed
/// before, it neither asks for a wake nor starts a timer, and none is left
/// armed.
pub proof fn lemma_active_quiet_parks_without_timer(armed: Option<i64>, now: i64)
    ensures
        arm_action(
            armed,
            now,
            select_deadline_spec(None, fallback_deadline_spec(RxTaskLifecycle::Active, false, now)),
        ) == (RunnerAction::Park { wake_now: false, start_timer: false }),
        arm_deadline(
            armed,
            now,
            select_deadline_spec(None, fallback_deadline_spec(RxTaskLifecycle::Active, false, now)),
        ) is None,
        fallback_deadline_spec(RxTaskLifecycle::Active, false, now) is None,
        select_deadline_spec(None, fallback_deadline_spec(RxTaskLifecycle::Active, false, now))
            is None,
        fallback_deadline_spec(RxTaskLifecycle::Faulted, true, now) is None,
{
}

/// Every lifecycle other than faulted or interrupt-driven active arms the
/// fallback exactly one interval after `now`.
pub proof fn lemma_fallback_lifecycles(now: i64)
    requires
        now <= i64::MAX - POLLING_FALLBACK_MICROS,
    ensures
        fallback_deadline_spec(RxTaskLifecycle::Polling, false, now) == Some(
            (now + POLLING_FALLBACK_MICROS) as i64,
        ),
        fallback_deadline_spec(RxTaskLifecycle::Spawned, false, now) == Some(
            (now + POLLING_FALLBACK_MICROS) as i64,
        ),
        fallback_deadline_spec(RxTaskLifecycle::Unavailable, false, now) == Some(
            (now + POLLING_FALLBACK_MICROS) as i64,
        ),
        fallback_deadline_spec(RxTaskLifecycle::Active, true, now) == Some(
            (now + POLLING_FALLBACK_MICROS) as i64,
        ),
{
}

/// The chosen deadline is never later than either present deadline and is
/// one of them.
pub proof fn lemma_select_deadline_is_minimum(p: Option<i64>, f: Option<i64>)
    ensures
        select_deadline_spec(p, f) is None <==> (p is None && f is None),
        p is Some ==> select_deadline_spec(p, f)->0 <= p->0,
        f is Some ==> select_deadline_spec(p, f)->0 <= f->0,
        select_deadline_spec(p, f) is Some ==> (select_deadline_spec(p, f) == p
            || select_deadline_spec(p, f) == f),
{
}

} // verus!
