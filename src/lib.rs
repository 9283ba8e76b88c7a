//! Adaptive step-size integration of ordinary differential equation systems:
//! the stepping-algorithm catalogue, the argument gates of a stepper, and the
//! retry and limit decisions of the evolution and driver loops.
//!
//! The arithmetic on times, step sizes and states is done by the caller; the
//! types here decide what happens next from its outcomes, and keep (and give
//! back) the last known-good time and state, whatever the scalar type is.

pub mod control;
pub mod driver;
pub mod evolve;
pub mod laws;
pub mod status;
pub mod step;
pub mod step_type;

pub use control::{hadjust_verdict, ODEiv2ControlType};
pub use driver::{DriverDecision, DriverModel, ODEiv2Driver};
pub use evolve::{Checkpoint, EvolveAction, EvolveModel, ODEiv2Evolve, Outcome};
pub use laws::{
    lemma_fixed_step_deterministic, lemma_reset_idempotent, lemma_rollback, lemma_step_bounds,
    lemma_target_reached_exactly,
};
pub use status::{ODEiv, Value};
pub use step::{ODEiv2Step, StepModel};
pub use step_type::ODEiv2StepType;
