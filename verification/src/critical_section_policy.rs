//! Restore policy for the shared kernel critical section.
//!
//! The kernel critical section disables IRQs on acquire and must restore the
//! *prior* IRQ enable state on release, so that a wake inside an ISR (already
//! inside a critical section, IRQs disabled) never re-enables IRQs before the
//! platform completes the interrupt.
//!
//! `IrqRestorePolicy` simulates the global IRQ enable state together with a
//! per-context stack of restore states: `acquire` pushes the observed state
//! and disables IRQs; `release` pops the matching state and re-enables IRQs
//! only when the popped state was enabled.

use vstd::prelude::*;

verus! {

/// Maximum nesting depth of one context's restore stack.
pub const POLICY_STACK_DEPTH: u8 = 4;

/// Abstract state of a restore policy: the simulated IRQ enable flag and the
/// stack of `was_enabled` flags pushed by unmatched acquires (bottom first).
pub struct PolicyState {
    pub irqs_enabled: bool,
    pub stack: Seq<bool>,
}

/// The state after one acquire, and the value the acquire returns.
pub open spec fn acquire_spec(s: PolicyState) -> (PolicyState, bool) {
    (PolicyState { irqs_enabled: false, stack: s.stack.push(s.irqs_enabled) }, s.irqs_enabled)
}

/// The state after one release, and the value the release returns.
pub open spec fn release_spec(s: PolicyState) -> (PolicyState, bool) {
    let was_enabled = s.stack.last();
    (
        PolicyState { irqs_enabled: s.irqs_enabled || was_enabled, stack: s.stack.drop_last() },
        was_enabled,
    )
}

/// Per-context (per-CPU) restore policy for the shared critical section.
#[derive(Debug, Clone, Copy, PartialEq, Eq)]
pub struct IrqRestorePolicy {
    /// Simulated global IRQ enable state.
    irqs_enabled: bool,
    /// Stack of `was_enabled` flags pushed by matching acquires.
    stack: [bool; 4],
    depth: u8,
}

impl IrqRestorePolicy {
    /// Bounds that every policy value keeps.
    pub closed spec fn wf(&self) -> bool {
        self.depth <= POLICY_STACK_DEPTH
    }

    /// The abstract state of this policy.
    pub closed spec fn state(&self) -> PolicyState {
        PolicyState {
            irqs_enabled: self.irqs_enabled,
            stack: self.stack@.subrange(0, self.depth as int),
        }
    }

    /// Creates an empty policy with IRQs enabled.
    pub fn new() -> (p: Self)
        ensures
            p.wf(),
            p.state().irqs_enabled,
            p.state().stack == Seq::<bool>::empty(),
    {
        Self { irqs_enabled: true, stack: [false, false, false, false], depth: 0 }
    }

    /// Creates an empty policy with IRQs disabled (ISR context).
    pub fn new_with_irqs_disabled() -> (p: Self)
        ensures
            p.wf(),
            !p.state().irqs_enabled,
            p.state().stack == Seq::<bool>::empty(),
    {
        Self { irqs_enabled: false, stack: [false, false, false, false], depth: 0 }
    }

    /// Returns the simulated IRQ enable state.
    pub fn irqs_enabled(&self) -> (r: bool)
        ensures
            r == self.state().irqs_enabled,
    {
        self.irqs_enabled
    }

    /// Current nesting depth (number of unmatched acquires).
    pub fn depth(&self) -> (r: u8)
        requires
            self.wf(),
        ensures
            r as int == self.state().stack.len(),
    {
        self.depth
    }

    /// Acquires the critical section.
    ///
    /// Returns `true` when IRQs were enabled and must be disabled by the
    /// caller. The nesting depth is bounded by the restore stack.
    pub fn acquire(&mut self) -> (was_enabled: bool)
        requires
            old(self).wf(),
            old(self).state().stack.len() < POLICY_STACK_DEPTH,
        ensures
            final(self).wf(),
            (final(self).state(), was_enabled) == acquire_spec(old(self).state()),
    {
        let was_enabled = self.irqs_enabled;
        let d = self.depth;
        self.stack[d as usize] = was_enabled;
        self.depth = d + 1;
        if was_enabled {
            self.irqs_enabled = false;
        }
        assert(self.stack@.subrange(0, self.depth as int) =~= old(self).stack@.subrange(
            0,
            old(self).depth as int,
        ).push(was_enabled));
        was_enabled
    }

    /// Releases the critical section.
    ///
    /// Returns `true` when IRQs must be re-enabled by the caller.
    pub fn release(&mut self) -> (was_enabled: bool)
        requires
            old(self).wf(),
            old(self).state().stack.len() > 0,
        ensures
            final(self).wf(),
            (final(self).state(), was_enabled) == release_spec(old(self).state()),
    {
        self.depth = self.depth - 1;
        let was_enabled = self.stack[self.depth as usize];
        if was_enabled {
            self.irqs_enabled = true;
        }
        assert(self.stack@.subrange(0, self.depth as int) =~= old(self).stack@.subrange(
            0,
            old(self).depth as int,
        ).drop_last());
        was_enabled
    }
}

impl Default for IrqRestorePolicy {
    fn default() -> (p: Self)
        ensures
            p.wf(),
            p.state().irqs_enabled,
            p.state().stack == Seq::<bool>::empty(),
    {
        Self::new()
    }
}

/// A release undoes the matching acquire: the IRQ state and the restore
/// stack return to what they were, and the release reports exactly what the
/// acquire observed.
pub proof fn lemma_release_undoes_acquire(s: PolicyState)
    ensures
        ({
            let (mid, acquired) = acquire_spec(s);
            let (after, released) = release_spec(mid);
            &&& after == s
            &&& released == acquired
        }),
{
    let (mid, acquired) = acquire_spec(s);
    assert(mid.stack.drop_last() =~= s.stack);
}

/// Inside a critical section IRQs are always disabled, and a nested
/// (inner) acquire/release pair never re-enables them.
pub proof fn lemma_nested_release_keeps_disabled(s: PolicyState)
    ensures
        ({
            let (outer, _) = acquire_spec(s);
            let (inner, inner_acquired) = acquire_spec(outer);
            let (after_inner, inner_released) = release_spec(inner);
            &&& !outer.irqs_enabled
            &&& !inner_acquired
            &&& !inner_released
            &&& !after_inner.irqs_enabled
        }),
{
}

/// An ISR context: IRQs are disabled and every saved state on the restore
/// stack is `false`.
pub open spec fn isr_context(s: PolicyState) -> bool {
    &&& !s.irqs_enabled
    &&& forall|i: int| 0 <= i < s.stack.len() ==> !s.stack[i]
}

/// An ISR context stays one through any acquire or release, and neither
/// reports IRQs as previously enabled: inside an ISR, critical sections
/// never re-enable IRQs.
pub proof fn lemma_isr_context_never_reenables(s: PolicyState)
    requires
        isr_context(s),
    ensures
        isr_context(acquire_spec(s).0),
        !acquire_spec(s).1,
        s.stack.len() > 0 ==> isr_context(release_spec(s).0),
        s.stack.len() > 0 ==> !release_spec(s).1,
{
    let a = acquire_spec(s).0;
    assert forall|i: int| 0 <= i < a.stack.len() implies !a.stack[i] by {
        if i < s.stack.len() {
            assert(a.stack[i] == s.stack[i]);
        }
    }
    if s.stack.len() > 0 {
        assert(!s.stack[s.stack.len() - 1]);
    }
}

} // verus!
