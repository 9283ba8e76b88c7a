use odeiv2::{DriverDecision, ODEiv2Driver, ODEiv2StepType, Value};

fn driver(nmax: u64) -> ODEiv2Driver<f64> {
    let mut d = ODEiv2Driver::<f64>::new(ODEiv2StepType::rkf45(), 1).unwrap();
    assert_eq!(d.set_nmax(nmax), Value::Success);
    d
}

#[test]
fn driver_of_dimension_zero_is_refused() {
    assert!(ODEiv2Driver::<f64>::new(ODEiv2StepType::rk4(), 0).is_none());
}

#[test]
fn driver_attaches_itself() {
    let d = ODEiv2Driver::<f64>::new(ODEiv2StepType::msbdf(), 4).unwrap();
    assert!(d.step().has_driver());
    assert!(d.evolve().has_driver());
    assert_eq!(d.step().dimension(), 4);
    assert_eq!(d.evolve().dimension(), 4);
    assert_eq!(d.nmax(), 0);
}

#[test]
fn begin_apply_refuses_wrong_direction() {
    let mut d = driver(0);
    assert_eq!(d.begin_apply(false, false), Some(Value::Invalid));
    assert_eq!(d.begin_apply(true, true), Some(Value::Success));
    assert_eq!(d.begin_apply(true, false), None);
    assert_eq!(d.steps_taken(), 0);
}

#[test]
fn steps_until_target() {
    let mut d = driver(0);
    assert_eq!(d.begin_apply(true, false), None);
    let go = DriverDecision { clamp_to_hmax: false, finish: None };
    assert_eq!(d.after_evolve(Value::Success, false, false, false), go);
    assert_eq!(d.after_evolve(Value::Success, false, false, false), go);
    let done = d.after_evolve(Value::Success, true, false, false);
    assert_eq!(done, DriverDecision { clamp_to_hmax: false, finish: Some(Value::Success) });
    assert_eq!(d.steps_taken(), 3);
}

#[test]
fn evolve_failure_is_passed_on() {
    let mut d = driver(0);
    d.begin_apply(true, false);
    let r = d.after_evolve(Value::BadFunction, false, false, false);
    assert_eq!(r.finish, Some(Value::BadFunction));
    let r = d.after_evolve(Value::Failure, false, true, false);
    assert_eq!(r, DriverDecision { clamp_to_hmax: false, finish: Some(Value::Failure) });
    assert_eq!(d.steps_taken(), 0);
}

#[test]
fn step_limit_gives_max_iteration() {
    let mut d = driver(2);
    d.begin_apply(true, false);
    assert_eq!(d.after_evolve(Value::Success, false, false, false).finish, None);
    assert_eq!(d.after_evolve(Value::Success, false, false, false).finish, None);
    assert_eq!(d.after_evolve(Value::Success, false, false, false).finish, Some(Value::MaxIteration));
    assert_eq!(d.steps_taken(), 2);
}

#[test]
fn step_below_minimum_gives_no_progress() {
    let mut d = driver(0);
    d.begin_apply(true, false);
    let r = d.after_evolve(Value::Success, false, false, true);
    assert_eq!(r, DriverDecision { clamp_to_hmax: false, finish: Some(Value::NoProgress) });
    assert_eq!(d.steps_taken(), 0);
}

#[test]
fn step_above_maximum_is_clamped() {
    let mut d = driver(0);
    d.begin_apply(true, false);
    let r = d.after_evolve(Value::Success, false, true, false);
    assert_eq!(r, DriverDecision { clamp_to_hmax: true, finish: None });
    let r = d.after_evolve(Value::Success, true, true, false);
    assert_eq!(r, DriverDecision { clamp_to_hmax: true, finish: Some(Value::Success) });
}

#[test]
fn fixed_run_takes_exactly_n_steps() {
    let mut d = driver(0);
    assert_eq!(d.begin_fixed(3), None);
    assert_eq!(d.after_fixed(Value::Success, 3), None);
    assert_eq!(d.after_fixed(Value::Success, 3), None);
    assert_eq!(d.after_fixed(Value::Success, 3), Some(Value::Success));
    assert_eq!(d.steps_taken(), 3);
}

#[test]
fn fixed_run_of_no_steps_succeeds_at_once() {
    let mut d = driver(0);
    assert_eq!(d.begin_fixed(0), Some(Value::Success));
}

#[test]
fn fixed_run_stops_at_first_failure() {
    let mut d = driver(0);
    d.begin_fixed(5);
    assert_eq!(d.after_fixed(Value::Success, 5), None);
    assert_eq!(d.after_fixed(Value::Failure, 5), Some(Value::Failure));
    assert_eq!(d.steps_taken(), 1);
}

#[test]
fn driver_reset_twice_equals_once() {
    let mut d = ODEiv2Driver::<f64>::new(ODEiv2StepType::msadams(), 1).unwrap();
    d.step_mut().finish_apply(Value::Success);
    let y = vec![2.0];
    assert_eq!(d.evolve_mut().begin(0.0, &y, 1, true), Value::Success);
    let mut t = 0.0;
    let mut yy = vec![1.9];
    d.evolve_mut().after_adjust(odeiv2::ODEiv::Nil, true, &mut t, 1.0, 0.1, false, &mut yy);
    assert_eq!(d.step().history(), 1);
    assert_eq!(d.evolve().count(), 1);
    assert_eq!(d.reset(), Value::Success);
    let once = (d.step().history(), d.evolve().count(), d.evolve().failed_steps());
    assert_eq!(d.reset(), Value::Success);
    let twice = (d.step().history(), d.evolve().count(), d.evolve().failed_steps());
    assert_eq!(once, twice);
    assert_eq!(once, (0, 0, 0));
    assert!(d.step().has_driver());
}
