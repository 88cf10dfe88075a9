//! One-shot, multi-waiter cancellation signal, modeled as explicit state.
//!
//! The signal is created armed, flipped to triggered at most once
//! meaningfully (further triggers are no-ops), and never returns to the
//! armed state. Every polling loop consults the same signal at its wait
//! points and exits as soon as it observes the trigger.

use vstd::prelude::*;

verus! {

/// Process-wide cooperative shutdown signal.
///
/// Once triggered it stays triggered: no method resets it.
pub struct ShutdownSignal {
    pub triggered: bool,
}

/// The state a signal is in after a trigger, whatever it held before.
pub open spec fn spec_trigger(s: ShutdownSignal) -> ShutdownSignal {
    ShutdownSignal { triggered: true }
}

impl ShutdownSignal {
    /// Spec view: whether the signal has been triggered.
    pub open spec fn is_triggered_spec(&self) -> bool {
        self.triggered
    }

    /// A fresh signal is armed, not yet triggered.
    pub fn new() -> (s: Self)
        ensures
            !s.is_triggered_spec(),
    {
        ShutdownSignal { triggered: false }
    }

    /// Flip the signal to triggered.
    pub fn trigger(&mut self)
        ensures
            *final(self) == spec_trigger(*old(self)),
            final(self).is_triggered_spec(),
    {
        self.triggered = true;
    }

    /// Observe the signal.
    pub fn is_triggered(&self) -> (r: bool)
        ensures
            r == self.is_triggered_spec(),
    {
        self.triggered
    }
}

/// Triggering is idempotent: a second trigger leaves the signal exactly as
/// the first left it, and a triggered signal never returns to armed.
pub proof fn lemma_trigger_idempotent(s: ShutdownSignal)
    ensures
        spec_trigger(spec_trigger(s)) == spec_trigger(s),
        spec_trigger(s).is_triggered_spec(),
{
}

/// What a polling loop does at a wait point: exit, or proceed with one
/// more tick.
#[derive(Clone, Copy, PartialEq, Eq, Structural, Debug)]
pub enum LoopDecision {
    Exit,
    Proceed,
}

/// The decision every loop takes at a wait point: exit exactly when the
/// signal has been triggered.
pub open spec fn spec_decision(s: ShutdownSignal) -> LoopDecision {
    if s.triggered {
        LoopDecision::Exit
    } else {
        LoopDecision::Proceed
    }
}

impl ShutdownSignal {
    /// Consult the signal at a wait point. A loop that receives `Exit`
    /// schedules no further iteration; one that receives `Proceed` runs
    /// exactly one more tick before consulting the signal again.
    pub fn next_iteration(&self) -> (d: LoopDecision)
        ensures
            d == spec_decision(*self),
            d is Exit <==> self.is_triggered_spec(),
    {
        if self.triggered {
            LoopDecision::Exit
        } else {
            LoopDecision::Proceed
        }
    }
}

/// Once the signal is triggered, every loop's next wait point decides
/// `Exit`: no loop begins another tick after observing the trigger, so
/// each loop ends within the one iteration that may still be in flight.
pub proof fn lemma_triggered_loops_exit(s: ShutdownSignal)
    requires
        s.is_triggered_spec(),
    ensures
        spec_decision(s) is Exit,
        spec_decision(spec_trigger(s)) is Exit,
{
}

} // verus!
