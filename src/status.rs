use vstd::prelude::*;

verus! {

/// Status of an integration call.
#[derive(Clone, Copy, Debug, PartialEq, Eq, Structural)]
pub enum Value {
    /// The call did what it was asked.
    Success,
    /// The step could not be computed (too large a step, a singularity):
    /// it is retried with a smaller step where the caller retries.
    Failure,
    /// A stepper that needs a driver was used without one.
    Fault,
    /// An argument broke the call's contract (a dimension, a direction).
    Invalid,
    /// The system's function reported an unrecoverable condition.
    BadFunction,
    /// The driver reached its limit on the number of steps.
    MaxIteration,
    /// The step size fell below the driver's minimum.
    NoProgress,
}

impl Value {
    /// Statuses that end an evolution call at once, without any retry.
    pub open spec fn spec_is_fatal(self) -> bool {
        self == Value::BadFunction || self == Value::Fault
    }

    pub fn is_success(&self) -> (r: bool)
        ensures
            r == (*self == Value::Success),
    {
        match self {
            Value::Success => true,
            _ => false,
        }
    }

    /// Whether this status ends an evolution call at once.
    pub fn is_fatal(&self) -> (r: bool)
        ensures
            r == self.spec_is_fatal(),
    {
        match self {
            Value::BadFunction | Value::Fault => true,
            _ => false,
        }
    }
}

/// What a step-size controller did with the step size.
#[derive(Clone, Copy, Debug, PartialEq, Eq, Structural)]
pub enum ODEiv {
    /// The error was too large: the step size was decreased.
    Dec,
    /// The error was small: the step size was increased.
    Inc,
    /// The step size was left unchanged.
    Nil,
}

} // verus!
