use vstd::prelude::*;

use crate::evolve::{bump, evolve_reset_model, EvolveModel, ODEiv2Evolve};
use crate::status::Value;
use crate::step::{step_reset_model, ODEiv2Step, StepModel};
use crate::step_type::ODEiv2StepType;

verus! {

/// What a driver is, as contracts see it.
pub struct DriverModel<T> {
    pub step: StepModel,
    pub evolve: EvolveModel<T>,
    /// The limit on steps per call; zero for none.
    pub nmax: nat,
    /// Steps taken in the current call.
    pub n: nat,
}

/// The driver's decision once an evolution call has returned.
#[derive(Clone, Copy, Debug, PartialEq, Eq, Structural)]
pub struct DriverDecision {
    /// The proposed step size exceeds the maximum: bring it down to the
    /// maximum, keeping its sign.
    pub clamp_to_hmax: bool,
    /// The status with which the call ends, or `None` to go on stepping.
    pub finish: Option<Value>,
}

/// The decision after an evolution call that returned `status`. `at_target`
/// says whether the time has reached the end of the interval; `above_hmax` and
/// `below_hmin` compare the proposed next step size with the driver's bounds.
/// A failure ends the call with its status; then the step limit is checked;
/// a step size above the maximum is clamped (the minimum never exceeds the
/// maximum), and one below the minimum ends the call with `NoProgress`.
pub open spec fn driver_decision<T>(
    d: DriverModel<T>,
    status: Value,
    at_target: bool,
    above_hmax: bool,
    below_hmin: bool,
) -> DriverDecision {
    if status != Value::Success {
        DriverDecision { clamp_to_hmax: false, finish: Some(status) }
    } else if d.nmax > 0 && d.n == d.nmax {
        DriverDecision { clamp_to_hmax: false, finish: Some(Value::MaxIteration) }
    } else if !above_hmax && below_hmin {
        DriverDecision { clamp_to_hmax: false, finish: Some(Value::NoProgress) }
    } else {
        DriverDecision {
            clamp_to_hmax: above_hmax,
            finish: if at_target {
                Some(Value::Success)
            } else {
                None
            },
        }
    }
}

/// The step count after that decision: raised when the step was counted.
pub open spec fn driver_count_after<T>(
    d: DriverModel<T>,
    status: Value,
    above_hmax: bool,
    below_hmin: bool,
) -> nat {
    if status == Value::Success && !(d.nmax > 0 && d.n == d.nmax) && (above_hmax || !below_hmin) {
        bump(d.n)
    } else {
        d.n
    }
}

/// A driver as its reset leaves it: stepper and evolver histories cleared,
/// configuration kept.
pub open spec fn driver_reset_model<T>(d: DriverModel<T>) -> DriverModel<T> {
    DriverModel { step: step_reset_model(d.step), evolve: evolve_reset_model(d.evolve), ..d }
}

/// The driver's answer after a step of fixed size that returned `status`,
/// in a run of `steps` steps of which `d.n` were taken before it.
pub open spec fn fixed_decision<T>(d: DriverModel<T>, status: Value, steps: nat) -> Option<Value> {
    if status != Value::Success {
        Some(status)
    } else if bump(d.n) >= steps {
        Some(Value::Success)
    } else {
        None
    }
}

/// The owner of a stepper and an evolver of one dimension, with the limit on
/// steps per call. It attaches itself to both when it is built.
pub struct ODEiv2Driver<T> {
    step: ODEiv2Step,
    evolve: ODEiv2Evolve<T>,
    nmax: u64,
    n: u64,
}

impl<T: Copy> View for ODEiv2Driver<T> {
    type V = DriverModel<T>;

    closed spec fn view(&self) -> DriverModel<T> {
        DriverModel {
            step: self.step@,
            evolve: self.evolve@,
            nmax: self.nmax as nat,
            n: self.n as nat,
        }
    }
}

impl<T: Copy> ODEiv2Driver<T> {
    /// A driver with a stepper of algorithm `t` and an evolver, both for
    /// systems of dimension `dim` and both attached to it, with no step
    /// limit; `None` where `dim` is zero.
    pub fn new(t: ODEiv2StepType, dim: usize) -> (r: Option<ODEiv2Driver<T>>)
        ensures
            r is None <==> dim == 0,
            r matches Some(d) ==> d@ == (DriverModel::<T> {
                step: StepModel {
                    step_type: t,
                    dimension: dim as nat,
                    driver_attached: true,
                    history: 0,
                },
                evolve: EvolveModel {
                    dimension: dim as nat,
                    saved: None,
                    count: 0,
                    failed_steps: 0,
                    driver_attached: true,
                },
                nmax: 0,
                n: 0,
            }),
    {
        let step = ODEiv2Step::new(t, dim);
        let evolve = ODEiv2Evolve::<T>::new(dim);
        match (step, evolve) {
            (Some(mut s), Some(mut e)) => {
                s.attach_driver();
                e.attach_driver();
                Some(ODEiv2Driver { step: s, evolve: e, nmax: 0, n: 0 })
            },
            _ => None,
        }
    }

    pub fn step(&self) -> (r: &ODEiv2Step)
        ensures
            r@ == self@.step,
    {
        &self.step
    }

    pub fn evolve(&self) -> (r: &ODEiv2Evolve<T>)
        ensures
            r@ == self@.evolve,
    {
        &self.evolve
    }

    pub fn step_mut(&mut self) -> (r: &mut ODEiv2Step)
        ensures
            r@ == old(self)@.step,
            final(self)@ == (DriverModel { step: final(r)@, ..old(self)@ }),
    {
        &mut self.step
    }

    pub fn evolve_mut(&mut self) -> (r: &mut ODEiv2Evolve<T>)
        ensures
            r@ == old(self)@.evolve,
            final(self)@ == (DriverModel { evolve: final(r)@, ..old(self)@ }),
    {
        &mut self.evolve
    }

    /// Sets the limit on steps per call; zero sets none.
    pub fn set_nmax(&mut self, nmax: u64) -> (r: Value)
        ensures
            r == Value::Success,
            final(self)@ == (DriverModel { nmax: nmax as nat, ..old(self)@ }),
    {
        self.nmax = nmax;
        Value::Success
    }

    pub fn nmax(&self) -> (r: u64)
        ensures
            r as nat == self@.nmax,
    {
        self.nmax
    }

    /// Steps taken in the current call.
    pub fn steps_taken(&self) -> (r: u64)
        ensures
            r as nat == self@.n,
    {
        self.n
    }

    /// Clears the histories of the stepper and the evolver; the configuration
    /// stays.
    pub fn reset(&mut self) -> (r: Value)
        ensures
            r == Value::Success,
            final(self)@ == driver_reset_model(old(self)@),
    {
        self.evolve.reset();
        self.step.reset();
        Value::Success
    }

    /// Begins a call that integrates up to a target time: the step count
    /// starts from zero. A step that points away from the target
    /// (`toward_target` false) is refused with `Invalid`; a call that starts
    /// at its target ends at once with `Success`; `None` means: step.
    pub fn begin_apply(&mut self, toward_target: bool, at_target: bool) -> (r: Option<Value>)
        ensures
            r == (if !toward_target {
                Some(Value::Invalid)
            } else if at_target {
                Some(Value::Success)
            } else {
                None
            }),
            final(self)@ == (DriverModel { n: 0, ..old(self)@ }),
    {
        self.n = 0;
        if !toward_target {
            Some(Value::Invalid)
        } else if at_target {
            Some(Value::Success)
        } else {
            None
        }
    }

    /// Decides what follows an evolution call that returned `status` (see
    /// `driver_decision`), and counts the step where the call goes on or ends
    /// at its target.
    pub fn after_evolve(&mut self, status: Value, at_target: bool, above_hmax: bool, below_hmin: bool) -> (r:
        DriverDecision)
        ensures
            r == driver_decision(old(self)@, status, at_target, above_hmax, below_hmin),
            final(self)@ == (DriverModel {
                n: driver_count_after(old(self)@, status, above_hmax, below_hmin),
                ..old(self)@
            }),
    {
        if !status.is_success() {
            return DriverDecision { clamp_to_hmax: false, finish: Some(status) };
        }
        if self.nmax > 0 && self.n == self.nmax {
            return DriverDecision { clamp_to_hmax: false, finish: Some(Value::MaxIteration) };
        }
        if !above_hmax && below_hmin {
            return DriverDecision { clamp_to_hmax: false, finish: Some(Value::NoProgress) };
        }
        if self.n < u64::MAX {
            self.n = self.n + 1;
        }
        DriverDecision {
            clamp_to_hmax: above_hmax,
            finish: if at_target {
                Some(Value::Success)
            } else {
                None
            },
        }
    }

    /// Begins a run of `steps` steps of fixed size: the step count starts
    /// from zero, and a run of no steps ends at once with `Success`.
    pub fn begin_fixed(&mut self, steps: u64) -> (r: Option<Value>)
        ensures
            r == (if steps == 0 {
                Some(Value::Success)
            } else {
                None
            }),
            final(self)@ == (DriverModel { n: 0, ..old(self)@ }),
    {
        self.n = 0;
        if steps == 0 {
            Some(Value::Success)
        } else {
            None
        }
    }

    /// Decides what follows a step of fixed size that returned `status`: a
    /// failure ends the run with its status, the last of `steps` steps ends
    /// it with `Success`, and `None` means: take the next step.
    pub fn after_fixed(&mut self, status: Value, steps: u64) -> (r: Option<Value>)
        ensures
            r == fixed_decision(old(self)@, status, steps as nat),
            final(self)@ == (DriverModel {
                n: if status == Value::Success {
                    bump(old(self)@.n)
                } else {
                    old(self)@.n
                },
                ..old(self)@
            }),
    {
        if !status.is_success() {
            return Some(status);
        }
        if self.n < u64::MAX {
            self.n = self.n + 1;
        }
        if self.n >= steps {
            Some(Value::Success)
        } else {
            None
        }
    }
}

impl ODEiv2Step {
    /// Attaches a driver to the stepper, which may then ask it for the
    /// desired error level.
    pub fn set_driver<T: Copy>(&mut self, _driver: &ODEiv2Driver<T>) -> (r: Value)
        ensures
            r == Value::Success,
            final(self)@ == (StepModel { driver_attached: true, ..old(self)@ }),
    {
        self.attach_driver();
        Value::Success
    }
}

impl<T: Copy> ODEiv2Evolve<T> {
    /// Attaches a driver to the evolver.
    pub fn set_driver<U: Copy>(&mut self, _driver: &ODEiv2Driver<U>) -> (r: Value)
        ensures
            r == Value::Success,
            final(self)@ == (EvolveModel { driver_attached: true, ..old(self)@ }),
    {
        self.attach_driver();
        Value::Success
    }
}

} // verus!
