//! A counter of consecutive failures that triggers an injected reset action
//! once the count reaches a threshold.

use vstd::prelude::*;

verus! {

/// A capability that restarts the device.
///
/// On hardware the action performs an unconditional software reset and never
/// returns; a test double merely records that it was asked to fire. The
/// watchdog places no requirement that the action diverges: if it returns,
/// the counter stays at or above the threshold and the action fires again on
/// every further failure.
pub trait ResetAction {
    /// How many times this action has fired so far.
    spec fn fires(&self) -> nat;

    /// Perform the reset.
    fn invoke(&mut self)
        ensures
            final(self).fires() == old(self).fires() + 1,
    ;
}

/// A reset action that counts its invocations instead of restarting anything,
/// for tests and host-side simulation.
///
/// The stored counter saturates at `u64::MAX`; the exact invocation count is
/// tracked alongside it in ghost state so that the action meets the
/// `ResetAction` contract for every history.
pub struct CountingReset {
    fired: u64,
    total: Ghost<nat>,
}

impl CountingReset {
    #[verifier::type_invariant]
    spec fn wf(&self) -> bool {
        self.fired as nat == if self.total@ <= u64::MAX as nat {
            self.total@
        } else {
            u64::MAX as nat
        }
    }

    pub fn new() -> (r: CountingReset)
        ensures
            r.fires() == 0,
    {
        CountingReset { fired: 0, total: Ghost(0nat) }
    }

    /// The number of recorded invocations, as far as it fits in a `u64`.
    pub fn fire_count(&self) -> (n: u64)
        ensures
            self.fires() <= u64::MAX as nat ==> n as nat == self.fires(),
    {
        proof {
            use_type_invariant(self);
        }
        self.fired
    }
}

impl ResetAction for CountingReset {
    closed spec fn fires(&self) -> nat {
        self.total@
    }

    fn invoke(&mut self) {
        proof {
            use_type_invariant(&*self);
        }
        let new_fired: u64 = if self.fired < u64::MAX {
            self.fired + 1
        } else {
            self.fired
        };
        let ghost new_total: nat = self.total@ + 1;
        *self = CountingReset { fired: new_fired, total: Ghost(new_total) };
    }
}

/// Whether a single failure observation fires the reset action, given the
/// consecutive-failure count before the observation and the threshold:
/// the action fires exactly when the new count reaches or passes the
/// threshold. The result is the number of firings (0 or 1).
pub open spec fn fire_delta(count_before: nat, threshold: nat) -> nat {
    if count_before + 1 >= threshold {
        1
    } else {
        0
    }
}

/// The number of times the reset action fires over `n` consecutive failure
/// observations that start from a count of `start`.
pub open spec fn fires_over(start: nat, threshold: nat, n: nat) -> nat
    decreases n,
{
    if n == 0 {
        0
    } else {
        fires_over(start, threshold, (n - 1) as nat) + fire_delta(
            (start + n - 1) as nat,
            threshold,
        )
    }
}

/// Law: starting from a freshly reset counter, a run of `n` failure
/// observations fires the reset action for the first time on the observation
/// that makes the count reach the threshold, and once more on every
/// observation after that — `n - threshold + 1` firings in all.
pub proof fn lemma_fires_once_at_threshold_then_every_call(threshold: nat, n: nat)
    requires
        1 <= threshold,
    ensures
        fires_over(0, threshold, n) == if n >= threshold {
            n - threshold + 1
        } else {
            0int
        },
    decreases n,
{
    if n > 0 {
        lemma_fires_once_at_threshold_then_every_call(threshold, (n - 1) as nat);
    }
}

/// Law: once the count stands at or above the threshold and `reset` has not
/// been called, every further failure observation fires the reset action
/// exactly once more — the counter is never clamped, so the re-trigger is
/// monotonic.
pub proof fn lemma_retrigger_past_threshold(count_before: nat, threshold: nat)
    requires
        threshold <= count_before,
    ensures
        fire_delta(count_before, threshold) == 1,
{
}

/// Law: after a `reset`, `threshold - 1` failure observations never fire the
/// reset action; one more observation does, exactly once.
pub proof fn lemma_threshold_minus_one_never_fires(threshold: nat)
    requires
        1 <= threshold,
    ensures
        fires_over(0, threshold, (threshold - 1) as nat) == 0,
        fires_over(0, threshold, threshold) == 1,
{
    lemma_fires_once_at_threshold_then_every_call(threshold, (threshold - 1) as nat);
    lemma_fires_once_at_threshold_then_every_call(threshold, threshold);
}

/// Tracks consecutive failures across arbitrary operations and fires an
/// injected reset action once their number reaches a fixed threshold.
///
/// Reaching the threshold is expected to restart the device, so the counter
/// is deliberately not clamped afterward: if the action returns instead of
/// halting, every further failure observation fires it again until `reset`
/// clears the count.
pub struct ResettingCounter<F: ResetAction> {
    reset_function: F,
    count: u32,
    max_failures: u32,
}

impl<F: ResetAction> ResettingCounter<F> {
    /// The consecutive failures counted since the last `reset`.
    pub closed spec fn count(&self) -> nat {
        self.count as nat
    }

    /// The failure count at which the reset action fires.
    pub closed spec fn threshold(&self) -> nat {
        self.max_failures as nat
    }

    /// How many times the reset action has fired.
    pub closed spec fn fires(&self) -> nat {
        self.reset_function.fires()
    }

    pub fn new(callback: F, max_failures: u32) -> (r: Self)
        ensures
            r.count() == 0,
            r.threshold() == max_failures as nat,
            r.fires() == callback.fires(),
    {
        ResettingCounter { reset_function: callback, count: 0, max_failures }
    }

    /// Record one failure; fire the reset action when the new count reaches
    /// or stands above the threshold.
    pub fn increment_failure(&mut self)
        requires
            old(self).count() < u32::MAX as nat,
        ensures
            final(self).count() == old(self).count() + 1,
            final(self).threshold() == old(self).threshold(),
            final(self).fires() == old(self).fires() + fire_delta(
                old(self).count(),
                old(self).threshold(),
            ),
    {
        self.count = self.count + 1;
        if self.count >= self.max_failures {
            self.reset_function.invoke();
        }
    }

    /// Clear the failure count after a phase fully succeeds. When the count
    /// is already 0 this changes nothing and fires nothing.
    pub fn reset(&mut self)
        ensures
            final(self).count() == 0,
            final(self).threshold() == old(self).threshold(),
            final(self).fires() == old(self).fires(),
            old(self).count() == 0 ==> *final(self) == *old(self),
    {
        self.count = 0;
    }

    /// The consecutive failures counted since the last `reset`.
    pub fn failures(&self) -> (n: u32)
        ensures
            n as nat == self.count(),
    {
        self.count
    }

    /// The reset action, for observing what it recorded.
    pub fn reset_action(&self) -> (a: &F)
        ensures
            a.fires() == self.fires(),
    {
        &self.reset_function
    }

    /// The count and the threshold live in one machine word each: the
    /// data-model bound a caller may rely on without reading the fields.
    pub proof fn lemma_in_range(&self)
        ensures
            self.count() <= u32::MAX as nat,
            self.threshold() <= u32::MAX as nat,
    {
    }

    /// Fire the reset action immediately, bypassing the failure count: the
    /// escalation path for conditions that are unrecoverable within one boot.
    pub fn force_reset(&mut self)
        ensures
            final(self).count() == old(self).count(),
            final(self).threshold() == old(self).threshold(),
            final(self).fires() == old(self).fires() + 1,
    {
        self.reset_function.invoke();
    }
}

} // verus!
