//! The kick schedule of the leapfrog integrator.
//!
//! Leapfrog opens with a half kick of the momentum, then alternates a drift
//! of the position with a kick: a full kick after every drift but the last,
//! and a closing half kick after the last one.

use vstd::prelude::*;

verus! {

/// The size of a momentum kick, as a fraction of the step size.
#[derive(Debug, Clone, Copy, PartialEq, Eq, Structural)]
pub enum Kick {
    /// A kick over half a step.
    Half,
    /// A kick over a whole step.
    Full,
}

/// The kick that follows drift number `n_step` (zero-based) of `n_steps`.
pub open spec fn spec_kick_after_drift(n_step: nat, n_steps: nat) -> Kick {
    if n_step + 1 == n_steps {
        Kick::Half
    } else {
        Kick::Full
    }
}

/// A kick's length in half steps.
pub open spec fn half_steps(kick: Kick) -> nat {
    match kick {
        Kick::Half => 1,
        Kick::Full => 2,
    }
}

/// The length, in half steps, of the opening half kick and the kicks after
/// the first `drifts` drifts of an integration of `n_steps` steps.
pub open spec fn kicked_half_steps(drifts: nat, n_steps: nat) -> nat
    decreases drifts,
{
    if drifts == 0 {
        1
    } else {
        kicked_half_steps((drifts - 1) as nat, n_steps) + half_steps(
            spec_kick_after_drift((drifts - 1) as nat, n_steps),
        )
    }
}

/// The kick that follows drift number `n_step` (zero-based) of an
/// integration of `n_steps` steps: half after the last drift, full otherwise.
pub fn kick_after_drift(n_step: usize, n_steps: usize) -> (kick: Kick)
    requires
        n_step < n_steps,
    ensures
        kick == spec_kick_after_drift(n_step as nat, n_steps as nat),
        (kick == Kick::Half) <==> (n_step + 1 == n_steps),
        (kick == Kick::Full) <==> (n_step + 1 < n_steps),
{
    if n_step == n_steps - 1 {
        Kick::Half
    } else {
        Kick::Full
    }
}

/// Only the last drift is followed by a half kick; every other drift is
/// followed by a full one.
pub proof fn lemma_only_last_kick_is_half(n_step: nat, n_steps: nat)
    requires
        n_step < n_steps,
    ensures
        half_steps(spec_kick_after_drift(n_step, n_steps)) == 1 <==> n_step + 1 == n_steps,
        half_steps(spec_kick_after_drift(n_step, n_steps)) == 2 <==> n_step + 1 < n_steps,
{
}

/// Kicks and drifts stay in step: over an integration of `n_steps` steps the
/// momentum is kicked for exactly `n_steps` whole steps, as the position
/// drifts for `n_steps` steps.
pub proof fn lemma_kicks_span_all_steps(n_steps: nat)
    requires
        n_steps > 0,
    ensures
        kicked_half_steps(n_steps, n_steps) == 2 * n_steps,
{
    lemma_kicks_before_last(n_steps, (n_steps - 1) as nat);
}

proof fn lemma_kicks_before_last(n_steps: nat, drifts: nat)
    requires
        drifts < n_steps,
    ensures
        kicked_half_steps(drifts, n_steps) == 2 * drifts + 1,
    decreases drifts,
{
    if drifts > 0 {
        lemma_kicks_before_last(n_steps, (drifts - 1) as nat);
    }
}

} // verus!
