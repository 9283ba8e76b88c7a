use vstd::prelude::*;

use crate::status::Value;
use crate::step_type::{step_type_name, ODEiv2StepType};

verus! {

/// What a stepper is, as contracts see it.
pub struct StepModel {
    pub step_type: ODEiv2StepType,
    pub dimension: nat,
    /// A driver has been attached as the stepper's back-reference.
    pub driver_attached: bool,
    /// The number of completed steps carried in the algorithm's history.
    pub history: nat,
}

/// A stepper's history once the outcome of a step is known: a multistep
/// algorithm carries one more completed step; any other keeps none.
pub open spec fn history_after(m: StepModel, status: Value) -> nat {
    if status == Value::Success && m.step_type.spec_is_multistep() {
        if m.history < u64::MAX {
            m.history + 1
        } else {
            m.history
        }
    } else {
        m.history
    }
}

/// A stepper as its reset leaves it: no history, all configuration kept.
pub open spec fn step_reset_model(m: StepModel) -> StepModel {
    StepModel { history: 0, ..m }
}

/// The status of an attempt to step with the given arguments, before any
/// arithmetic: a length that differs from the stepper's dimension is refused,
/// then a missing driver, then a missing Jacobian.
pub open spec fn apply_gate(
    m: StepModel,
    system_dimension: nat,
    has_jacobian: bool,
    y_len: nat,
    yerr_len: nat,
    dydt_in_len: Option<nat>,
    dydt_out_len: Option<nat>,
) -> Value {
    if system_dimension != m.dimension || y_len != m.dimension || yerr_len != m.dimension
        || (dydt_in_len is Some && dydt_in_len->0 != m.dimension)
        || (dydt_out_len is Some && dydt_out_len->0 != m.dimension) {
        Value::Invalid
    } else if m.step_type.spec_requires_driver() && !m.driver_attached {
        Value::Fault
    } else if m.step_type.spec_requires_jacobian() && !has_jacobian {
        Value::BadFunction
    } else {
        Value::Success
    }
}

pub open spec fn opt_len<T>(s: Option<&[T]>) -> Option<nat> {
    match s {
        Some(v) => Some(v@.len()),
        None => None,
    }
}

/// A stepper bound to one algorithm and one dimension.
pub struct ODEiv2Step {
    step_type: ODEiv2StepType,
    dimension: usize,
    driver_attached: bool,
    history: u64,
}

impl View for ODEiv2Step {
    type V = StepModel;

    closed spec fn view(&self) -> StepModel {
        StepModel {
            step_type: self.step_type,
            dimension: self.dimension as nat,
            driver_attached: self.driver_attached,
            history: self.history as nat,
        }
    }
}

impl ODEiv2Step {
    #[verifier::type_invariant]
    closed spec fn inv(self) -> bool {
        &&& self.dimension > 0
        &&& !self.step_type.spec_is_multistep() ==> self.history == 0
    }

    /// A stepper of algorithm `t` for systems of dimension `dim`; `None`
    /// where `dim` is zero.
    pub fn new(t: ODEiv2StepType, dim: usize) -> (r: Option<ODEiv2Step>)
        ensures
            r is None <==> dim == 0,
            r matches Some(s) ==> s@ == (StepModel {
                step_type: t,
                dimension: dim as nat,
                driver_attached: false,
                history: 0,
            }),
    {
        if dim == 0 {
            None
        } else {
            Some(ODEiv2Step { step_type: t, dimension: dim, driver_attached: false, history: 0 })
        }
    }

    /// Forgets the history of past steps; a no-op for a single-step algorithm.
    pub fn reset(&mut self) -> (r: Value)
        ensures
            r == Value::Success,
            final(self)@ == step_reset_model(old(self)@),
    {
        proof {
            use_type_invariant(&*self);
        }
        self.history = 0;
        Value::Success
    }

    /// The name of the stepper's algorithm.
    pub fn name(&self) -> (r: &'static str)
        ensures
            r@ == step_type_name(self@.step_type),
    {
        self.step_type.name()
    }

    pub fn step_type(&self) -> (r: ODEiv2StepType)
        ensures
            r == self@.step_type,
    {
        self.step_type
    }

    pub fn dimension(&self) -> (r: usize)
        ensures
            r as nat == self@.dimension,
    {
        self.dimension
    }

    pub fn history(&self) -> (r: u64)
        ensures
            r as nat == self@.history,
    {
        self.history
    }

    pub fn has_driver(&self) -> (r: bool)
        ensures
            r == self@.driver_attached,
    {
        self.driver_attached
    }

    /// Records that a driver is attached to the stepper.
    pub(crate) fn attach_driver(&mut self)
        ensures
            final(self)@ == (StepModel { driver_attached: true, ..old(self)@ }),
    {
        proof {
            use_type_invariant(&*self);
        }
        self.driver_attached = true;
    }

    /// Checks the arguments of a step before any arithmetic is done: the
    /// system and every buffer must have the stepper's dimension, a stepper
    /// that needs a driver must have one, and one that needs the Jacobian must
    /// be given a system that has one.
    pub fn check_apply<T>(
        &self,
        system_dimension: usize,
        has_jacobian: bool,
        y: &[T],
        yerr: &[T],
        dydt_in: Option<&[T]>,
        dydt_out: Option<&[T]>,
    ) -> (r: Value)
        ensures
            r == apply_gate(
                self@,
                system_dimension as nat,
                has_jacobian,
                y@.len(),
                yerr@.len(),
                opt_len(dydt_in),
                opt_len(dydt_out),
            ),
    {
        let d = self.dimension;
        let in_ok = match dydt_in {
            Some(v) => v.len() == d,
            None => true,
        };
        let out_ok = match dydt_out {
            Some(v) => v.len() == d,
            None => true,
        };
        if system_dimension != d || y.len() != d || yerr.len() != d || !in_ok || !out_ok {
            Value::Invalid
        } else if self.step_type.requires_driver() && !self.driver_attached {
            Value::Fault
        } else if self.step_type.requires_jacobian() && !has_jacobian {
            Value::BadFunction
        } else {
            Value::Success
        }
    }

    /// Records the outcome of a step: a multistep algorithm that completed one
    /// carries it in its history.
    pub fn finish_apply(&mut self, status: Value)
        ensures
            final(self)@ == (StepModel { history: history_after(old(self)@, status), ..old(self)@ }),
    {
        proof {
            use_type_invariant(&*self);
        }
        if status.is_success() && self.step_type.is_multistep() && self.history < u64::MAX {
            self.history = self.history + 1;
        }
    }
}

} // verus!
