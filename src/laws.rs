use vstd::prelude::*;

use crate::driver::{driver_decision, driver_reset_model, fixed_decision, DriverModel};
use crate::evolve::{
    adjust_action, adjust_outcome, fixed_outcome, fixed_step_status, trial_action, trial_outcome,
    EvolveAction, EvolveModel,
};
use crate::status::{ODEiv, Value};
use crate::step::step_reset_model;

verus! {

/// The step that reaches the end of the interval puts the time at the target
/// itself, not at a sum that may miss it; and a driver call ends in success
/// only once the target is reached.
pub proof fn lemma_target_reached_exactly<T>(
    m: EvolveModel<T>,
    verdict: ODEiv,
    smaller_moves: bool,
    t1: T,
    t_advanced: T,
    y: Seq<T>,
    d: DriverModel<T>,
    status: Value,
    at_target: bool,
    above_hmax: bool,
    below_hmin: bool,
)
    requires
        m.saved is Some,
    ensures
        adjust_action(verdict, smaller_moves) != EvolveAction::RetryAdjusted ==> adjust_outcome(
            m,
            verdict,
            smaller_moves,
            t1,
            t_advanced,
            true,
            y,
        ).t == t1,
        driver_decision(d, status, at_target, above_hmax, below_hmin).finish == Some(Value::Success)
            ==> at_target,
{
}

/// The driver goes on only with a step size inside its bounds: one above the
/// maximum is clamped to it, and one below the minimum ends the call with
/// `NoProgress` instead of being tried.
pub proof fn lemma_step_bounds<T>(
    d: DriverModel<T>,
    status: Value,
    at_target: bool,
    above_hmax: bool,
    below_hmin: bool,
)
    ensures
        ({
            let r = driver_decision(d, status, at_target, above_hmax, below_hmin);
            &&& r.finish != Some(Value::Success) && r.finish is Some ==> !r.clamp_to_hmax
            &&& r.finish is None ==> (above_hmax ==> r.clamp_to_hmax) && (!above_hmax ==> !below_hmin)
            &&& (status == Value::Success && !(d.nmax > 0 && d.n == d.nmax) && !above_hmax
                && below_hmin) ==> r.finish == Some(Value::NoProgress)
        }),
{
}

/// Whenever a trial is discarded or a call fails, the caller's time and state
/// are those saved when the call began, never a partly advanced one.
pub proof fn lemma_rollback<T>(
    m: EvolveModel<T>,
    status: Value,
    verdict: ODEiv,
    smaller_moves: bool,
    t: T,
    t1: T,
    t_advanced: T,
    final_step: bool,
    y: Seq<T>,
)
    requires
        m.saved is Some,
    ensures
        trial_action(status, smaller_moves) != EvolveAction::Adjust ==> trial_outcome(
            m,
            status,
            smaller_moves,
            t,
            y,
        ).t == m.saved->0.t && trial_outcome(m, status, smaller_moves, t, y).y == m.saved->0.y,
        adjust_action(verdict, smaller_moves) == EvolveAction::RetryAdjusted ==> adjust_outcome(
            m,
            verdict,
            smaller_moves,
            t1,
            t_advanced,
            final_step,
            y,
        ).t == m.saved->0.t && adjust_outcome(
            m,
            verdict,
            smaller_moves,
            t1,
            t_advanced,
            final_step,
            y,
        ).y == m.saved->0.y,
        fixed_step_status(status, verdict) != Value::Success ==> fixed_outcome(
            m,
            status,
            verdict,
            t_advanced,
            y,
        ).t == m.saved->0.t && fixed_outcome(m, status, verdict, t_advanced, y).y == m.saved->0.y,
{
}

/// Steps of fixed size depend on their inputs alone: two evolvers that begin
/// from the same time and state, whatever their past, give the same status,
/// time and state for the same step; and two drivers at the same point of a
/// run decide alike.
pub proof fn lemma_fixed_step_deterministic<T>(
    m1: EvolveModel<T>,
    m2: EvolveModel<T>,
    status: Value,
    verdict: ODEiv,
    t_advanced: T,
    y: Seq<T>,
    d1: DriverModel<T>,
    d2: DriverModel<T>,
    steps: nat,
)
    requires
        m1.saved is Some,
        m1.saved == m2.saved,
        d1.n == d2.n,
    ensures
        fixed_outcome(m1, status, verdict, t_advanced, y).t == fixed_outcome(
            m2,
            status,
            verdict,
            t_advanced,
            y,
        ).t,
        fixed_outcome(m1, status, verdict, t_advanced, y).y == fixed_outcome(
            m2,
            status,
            verdict,
            t_advanced,
            y,
        ).y,
        fixed_decision(d1, status, steps) == fixed_decision(d2, status, steps),
{
}

/// A second reset changes nothing, and after a reset nothing of the past
/// steps remains: two drivers of the same configuration are then alike.
pub proof fn lemma_reset_idempotent<T>(d: DriverModel<T>, other: DriverModel<T>)
    ensures
        driver_reset_model(driver_reset_model(d)) == driver_reset_model(d),
        step_reset_model(step_reset_model(d.step)) == step_reset_model(d.step),
        (other.step.step_type == d.step.step_type && other.step.dimension == d.step.dimension
            && other.step.driver_attached == d.step.driver_attached && other.evolve.dimension
            == d.evolve.dimension && other.evolve.driver_attached == d.evolve.driver_attached
            && other.nmax == d.nmax && other.n == d.n) ==> driver_reset_model(other)
            == driver_reset_model(d),
{
}

} // verus!
