use vstd::prelude::*;

use crate::status::{ODEiv, Value};

verus! {

/// What an evolver is, as contracts see it.
pub struct EvolveModel<T> {
    pub dimension: nat,
    /// The time and state saved when the call in progress began; `None`
    /// between calls.
    pub saved: Option<Checkpoint<T>>,
    /// Steps accepted since the last reset.
    pub count: nat,
    /// Trial steps discarded since the last reset.
    pub failed_steps: nat,
    /// A driver has been attached as the evolver's back-reference.
    pub driver_attached: bool,
}

/// A time and a state, as saved when a call begins.
pub struct Checkpoint<T> {
    pub t: T,
    pub y: Seq<T>,
}

/// What the caller does after the evolver has seen the outcome of a trial.
#[derive(Clone, Copy, Debug, PartialEq, Eq, Structural)]
pub enum EvolveAction {
    /// The trial step was computed: ask the controller to judge its error.
    Adjust,
    /// The trial step failed and the state was restored: try again with
    /// half the step size.
    RetryHalved,
    /// The controller decreased the step size and the state was restored:
    /// try again with the decreased step size.
    RetryAdjusted,
    /// The step was taken: propose the controller's step size for the next one.
    Accepted,
    /// The step was taken, although the controller asked for a decrease that
    /// would no longer move the time: propose the step size just used.
    AcceptedKeepStep,
    /// The call ends with this status; time and state are those of its start.
    Stop(Value),
}

/// A counter raised by one, held at the largest `u64`.
pub open spec fn bump(n: nat) -> nat {
    if n < u64::MAX {
        n + 1
    } else {
        n
    }
}

/// The evolver's answer to the status of a trial step. `smaller_moves` says
/// whether half the step size would still change the time.
pub open spec fn trial_action(status: Value, smaller_moves: bool) -> EvolveAction {
    if status == Value::Success {
        EvolveAction::Adjust
    } else if status.spec_is_fatal() {
        EvolveAction::Stop(status)
    } else if smaller_moves {
        EvolveAction::RetryHalved
    } else {
        EvolveAction::Stop(status)
    }
}

/// The evolver's answer to the controller's verdict on a computed trial step.
/// `smaller_moves` says whether the decreased step size is smaller than the
/// one tried and would still change the time.
pub open spec fn adjust_action(verdict: ODEiv, smaller_moves: bool) -> EvolveAction {
    if verdict == ODEiv::Dec {
        if smaller_moves {
            EvolveAction::RetryAdjusted
        } else {
            EvolveAction::AcceptedKeepStep
        }
    } else {
        EvolveAction::Accepted
    }
}

/// The status of a fixed-size step from the stepper's status and the
/// controller's verdict. A failed step keeps the stepper's status, and a step
/// whose error is too large gives `Failure`.
pub open spec fn fixed_step_status(status: Value, verdict: ODEiv) -> Value {
    if status != Value::Success {
        status
    } else if verdict == ODEiv::Dec {
        Value::Failure
    } else {
        Value::Success
    }
}

/// Where a transition of the evolver leaves it and the caller's time and state.
pub struct Outcome<T> {
    pub model: EvolveModel<T>,
    pub t: T,
    pub y: Seq<T>,
}

/// The saved time and state handed back, with the evolver left as `model`.
pub open spec fn restored<T>(m: EvolveModel<T>, model: EvolveModel<T>) -> Outcome<T> {
    Outcome { model, t: m.saved->0.t, y: m.saved->0.y }
}

/// The outcome of a trial step's status, from evolver `m`, time `t` and the
/// state `y` that the stepper computed.
pub open spec fn trial_outcome<T>(
    m: EvolveModel<T>,
    status: Value,
    smaller_moves: bool,
    t: T,
    y: Seq<T>,
) -> Outcome<T> {
    match trial_action(status, smaller_moves) {
        EvolveAction::Adjust => Outcome { model: m, t, y },
        EvolveAction::RetryHalved => restored(
            m,
            EvolveModel { failed_steps: bump(m.failed_steps), ..m },
        ),
        _ => restored(m, EvolveModel { saved: None, ..m }),
    }
}

/// The outcome of the controller's verdict on a computed trial step.
pub open spec fn adjust_outcome<T>(
    m: EvolveModel<T>,
    verdict: ODEiv,
    smaller_moves: bool,
    t1: T,
    t_advanced: T,
    final_step: bool,
    y: Seq<T>,
) -> Outcome<T> {
    if adjust_action(verdict, smaller_moves) == EvolveAction::RetryAdjusted {
        restored(m, EvolveModel { failed_steps: bump(m.failed_steps), ..m })
    } else {
        Outcome {
            model: EvolveModel { saved: None, count: bump(m.count), ..m },
            t: if final_step {
                t1
            } else {
                t_advanced
            },
            y,
        }
    }
}

/// The outcome of a step of fixed size.
pub open spec fn fixed_outcome<T>(
    m: EvolveModel<T>,
    status: Value,
    verdict: ODEiv,
    t_advanced: T,
    y: Seq<T>,
) -> Outcome<T> {
    if status != Value::Success {
        restored(m, EvolveModel { saved: None, ..m })
    } else if verdict == ODEiv::Dec {
        restored(m, EvolveModel { saved: None, failed_steps: bump(m.failed_steps), ..m })
    } else {
        Outcome { model: EvolveModel { saved: None, count: bump(m.count), ..m }, t: t_advanced, y }
    }
}

/// An evolver as its reset leaves it: no call in progress, counters cleared.
pub open spec fn evolve_reset_model<T>(m: EvolveModel<T>) -> EvolveModel<T> {
    EvolveModel { saved: None, count: 0, failed_steps: 0, ..m }
}

/// The evolution state of one system: it saves the time and state when a
/// call begins, hands them back whenever a trial is discarded or the call
/// fails, and counts accepted and discarded steps.
pub struct ODEiv2Evolve<T> {
    dimension: usize,
    t0: Option<T>,
    y0: Vec<T>,
    count: u64,
    failed_steps: u64,
    driver_attached: bool,
}

impl<T: Copy> View for ODEiv2Evolve<T> {
    type V = EvolveModel<T>;

    closed spec fn view(&self) -> EvolveModel<T> {
        EvolveModel {
            dimension: self.dimension as nat,
            saved: match self.t0 {
                Some(t) => Some(Checkpoint { t, y: self.y0@ }),
                None => None,
            },
            count: self.count as nat,
            failed_steps: self.failed_steps as nat,
            driver_attached: self.driver_attached,
        }
    }
}

impl<T> ODEiv2Evolve<T> {
    #[verifier::type_invariant]
    closed spec fn inv(self) -> bool {
        &&& self.dimension > 0
        &&& self.t0 is Some ==> self.y0.len() == self.dimension
    }
}

impl<T: Copy> ODEiv2Evolve<T> {
    /// An evolver for systems of dimension `dim`; `None` where `dim` is zero.
    pub fn new(dim: usize) -> (r: Option<ODEiv2Evolve<T>>)
        ensures
            r is None <==> dim == 0,
            r matches Some(e) ==> e@ == (EvolveModel::<T> {
                dimension: dim as nat,
                saved: None,
                count: 0,
                failed_steps: 0,
                driver_attached: false,
            }),
    {
        if dim == 0 {
            None
        } else {
            Some(
                ODEiv2Evolve {
                    dimension: dim,
                    t0: None,
                    y0: Vec::new(),
                    count: 0,
                    failed_steps: 0,
                    driver_attached: false,
                },
            )
        }
    }

    pub fn dimension(&self) -> (r: usize)
        ensures
            r as nat == self@.dimension,
    {
        self.dimension
    }

    pub fn count(&self) -> (r: u64)
        ensures
            r as nat == self@.count,
    {
        self.count
    }

    pub fn failed_steps(&self) -> (r: u64)
        ensures
            r as nat == self@.failed_steps,
    {
        self.failed_steps
    }

    pub fn has_driver(&self) -> (r: bool)
        ensures
            r == self@.driver_attached,
    {
        self.driver_attached
    }

    pub(crate) fn attach_driver(&mut self)
        ensures
            final(self)@ == (EvolveModel { driver_attached: true, ..old(self)@ }),
    {
        proof {
            use_type_invariant(&*self);
        }
        self.driver_attached = true;
    }

    /// Forgets the call in progress and clears the counters. Needed whenever
    /// the next call does not continue the previous step.
    pub fn reset(&mut self) -> (r: Value)
        ensures
            r == Value::Success,
            final(self)@ == evolve_reset_model(old(self)@),
    {
        proof {
            use_type_invariant(&*self);
        }
        self.t0 = None;
        self.count = 0;
        self.failed_steps = 0;
        Value::Success
    }

    /// Begins a call from time `t` and state `y`, which are saved. The call is
    /// refused with `Invalid` where the system's or the state's dimension is
    /// not the evolver's, or where the step does not point towards the target
    /// (`toward_target` false).
    pub fn begin(&mut self, t: T, y: &[T], system_dimension: usize, toward_target: bool) -> (r:
        Value)
        ensures
            r == (if system_dimension as nat != old(self)@.dimension || y@.len()
                != old(self)@.dimension || !toward_target {
                Value::Invalid
            } else {
                Value::Success
            }),
            r == Value::Success ==> final(self)@ == (EvolveModel {
                saved: Some(Checkpoint { t, y: y@ }),
                ..old(self)@
            }),
            r != Value::Success ==> final(self)@ == (EvolveModel { saved: None, ..old(self)@ }),
    {
        proof {
            use_type_invariant(&*self);
        }
        if system_dimension != self.dimension || y.len() != self.dimension || !toward_target {
            self.t0 = None;
            return Value::Invalid;
        }
        let mut copy: Vec<T> = Vec::new();
        let mut i: usize = 0;
        while i < y.len()
            invariant
                i <= y@.len(),
                copy@ == y@.subrange(0, i as int),
            decreases y@.len() - i,
        {
            copy.push(y[i]);
            i = i + 1;
            assert(copy@ == y@.subrange(0, i as int));
        }
        assert(copy@ == y@);
        self.y0 = copy;
        self.t0 = Some(t);
        Value::Success
    }

    /// Puts the saved time and state back into `t` and `y`.
    fn restore(&self, t: &mut T, y: &mut Vec<T>)
        requires
            self@.saved is Some,
        ensures
            *final(t) == self@.saved->0.t,
            final(y)@ == self@.saved->0.y,
    {
        proof {
            use_type_invariant(self);
        }
        let mut copy: Vec<T> = Vec::new();
        let mut i: usize = 0;
        while i < self.y0.len()
            invariant
                i <= self.y0@.len(),
                copy@ == self.y0@.subrange(0, i as int),
            decreases self.y0@.len() - i,
        {
            copy.push(self.y0[i]);
            i = i + 1;
            assert(copy@ == self.y0@.subrange(0, i as int));
        }
        assert(copy@ == self.y0@);
        *y = copy;
        match self.t0 {
            Some(t_start) => {
                *t = t_start;
            },
            None => {},
        }
    }

    fn bump_failed(&mut self)
        ensures
            final(self)@ == (EvolveModel { failed_steps: bump(old(self)@.failed_steps), ..old(self)@ }),
    {
        proof {
            use_type_invariant(&*self);
        }
        if self.failed_steps < u64::MAX {
            self.failed_steps = self.failed_steps + 1;
        }
    }

    fn bump_count(&mut self)
        ensures
            final(self)@ == (EvolveModel { count: bump(old(self)@.count), ..old(self)@ }),
    {
        proof {
            use_type_invariant(&*self);
        }
        if self.count < u64::MAX {
            self.count = self.count + 1;
        }
    }

    /// Takes the status of a trial step, whose new state the stepper left in
    /// `y`. A computed step goes on to the controller with `y` as it is. A
    /// fatal status (`BadFunction`, `Fault`) ends the call at once. Any other
    /// failure restores `t` and `y` and is retried with half the step size,
    /// while that still changes the time (`smaller_moves`); else it ends the
    /// call. Whenever the call ends, `t` and `y` are those of its start.
    pub fn after_trial(&mut self, status: Value, smaller_moves: bool, t: &mut T, y: &mut Vec<T>) -> (a:
        EvolveAction)
        requires
            old(self)@.saved is Some,
        ensures
            a == trial_action(status, smaller_moves),
            (Outcome { model: final(self)@, t: *final(t), y: final(y)@ }) == trial_outcome(
                old(self)@,
                status,
                smaller_moves,
                *old(t),
                old(y)@,
            ),
    {
        proof {
            use_type_invariant(&*self);
        }
        if status.is_success() {
            EvolveAction::Adjust
        } else if status.is_fatal() || !smaller_moves {
            self.restore(t, y);
            self.t0 = None;
            EvolveAction::Stop(status)
        } else {
            self.restore(t, y);
            self.bump_failed();
            EvolveAction::RetryHalved
        }
    }

    /// Takes the controller's verdict on a computed trial step. A decrease
    /// that still changes the time (`smaller_moves`) discards the trial:
    /// `t` and `y` are restored and the step is retried. Otherwise the step is
    /// taken: `y` keeps the new state, and `t` becomes exactly `t1` on the
    /// final step of the interval (`final_step`), else `t_advanced`.
    pub fn after_adjust(
        &mut self,
        verdict: ODEiv,
        smaller_moves: bool,
        t: &mut T,
        t1: T,
        t_advanced: T,
        final_step: bool,
        y: &mut Vec<T>,
    ) -> (a: EvolveAction)
        requires
            old(self)@.saved is Some,
        ensures
            a == adjust_action(verdict, smaller_moves),
            (Outcome { model: final(self)@, t: *final(t), y: final(y)@ }) == adjust_outcome(
                old(self)@,
                verdict,
                smaller_moves,
                t1,
                t_advanced,
                final_step,
                old(y)@,
            ),
    {
        proof {
            use_type_invariant(&*self);
        }
        let decreased = match verdict {
            ODEiv::Dec => true,
            _ => false,
        };
        if decreased && smaller_moves {
            self.restore(t, y);
            self.bump_failed();
            return EvolveAction::RetryAdjusted;
        }
        *t = if final_step {
            t1
        } else {
            t_advanced
        };
        self.t0 = None;
        self.bump_count();
        if decreased {
            EvolveAction::AcceptedKeepStep
        } else {
            EvolveAction::Accepted
        }
    }

    /// Settles a step of a size that the caller fixed: a failed step, or one
    /// whose error the controller judged too large (`Failure`), restores `t`
    /// and `y`; a good one keeps `y` and moves `t` to `t_advanced`. The
    /// verdict is not read where the step failed.
    pub fn settle_fixed(
        &mut self,
        status: Value,
        verdict: ODEiv,
        t: &mut T,
        t_advanced: T,
        y: &mut Vec<T>,
    ) -> (r: Value)
        requires
            old(self)@.saved is Some,
        ensures
            r == fixed_step_status(status, verdict),
            (Outcome { model: final(self)@, t: *final(t), y: final(y)@ }) == fixed_outcome(
                old(self)@,
                status,
                verdict,
                t_advanced,
                old(y)@,
            ),
    {
        proof {
            use_type_invariant(&*self);
        }
        if !status.is_success() {
            self.restore(t, y);
            self.t0 = None;
            return status;
        }
        match verdict {
            ODEiv::Dec => {
                self.restore(t, y);
                self.bump_failed();
                self.t0 = None;
                Value::Failure
            },
            _ => {
                *t = t_advanced;
                self.t0 = None;
                self.bump_count();
                Value::Success
            },
        }
    }
}

} // verus!
