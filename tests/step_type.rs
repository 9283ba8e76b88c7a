use odeiv2::ODEiv2StepType;

#[test]
fn constructors_give_their_algorithm() {
    assert_eq!(ODEiv2StepType::rk2(), ODEiv2StepType::Rk2);
    assert_eq!(ODEiv2StepType::rk4(), ODEiv2StepType::Rk4);
    assert_eq!(ODEiv2StepType::rkf45(), ODEiv2StepType::Rkf45);
    assert_eq!(ODEiv2StepType::rkck(), ODEiv2StepType::Rkck);
    assert_eq!(ODEiv2StepType::rk8pd(), ODEiv2StepType::Rk8pd);
    assert_eq!(ODEiv2StepType::rk1imp(), ODEiv2StepType::Rk1imp);
    assert_eq!(ODEiv2StepType::rk2imp(), ODEiv2StepType::Rk2imp);
    assert_eq!(ODEiv2StepType::rk4imp(), ODEiv2StepType::Rk4imp);
    assert_eq!(ODEiv2StepType::bsimp(), ODEiv2StepType::Bsimp);
    assert_eq!(ODEiv2StepType::msadams(), ODEiv2StepType::Msadams);
    assert_eq!(ODEiv2StepType::msbdf(), ODEiv2StepType::Msbdf);
}

#[test]
fn names_of_all_algorithms() {
    let all = [
        (ODEiv2StepType::rk2(), "rk2"),
        (ODEiv2StepType::rk4(), "rk4"),
        (ODEiv2StepType::rkf45(), "rkf45"),
        (ODEiv2StepType::rkck(), "rkck"),
        (ODEiv2StepType::rk8pd(), "rk8pd"),
        (ODEiv2StepType::rk1imp(), "rk1imp"),
        (ODEiv2StepType::rk2imp(), "rk2imp"),
        (ODEiv2StepType::rk4imp(), "rk4imp"),
        (ODEiv2StepType::bsimp(), "bsimp"),
        (ODEiv2StepType::msadams(), "msadams"),
        (ODEiv2StepType::msbdf(), "msbdf"),
    ];
    for (t, name) in all.iter() {
        assert_eq!(t.name(), *name);
    }
}

#[test]
fn explicit_methods_need_neither_jacobian_nor_driver() {
    for t in [
        ODEiv2StepType::rk2(),
        ODEiv2StepType::rk4(),
        ODEiv2StepType::rkf45(),
        ODEiv2StepType::rkck(),
        ODEiv2StepType::rk8pd(),
    ] {
        assert!(!t.requires_jacobian());
        assert!(!t.requires_driver());
        assert!(!t.is_multistep());
        assert_eq!(t.max_order(), None);
    }
}

#[test]
fn implicit_methods_needs() {
    for t in [ODEiv2StepType::rk1imp(), ODEiv2StepType::rk2imp(), ODEiv2StepType::rk4imp()] {
        assert!(t.requires_jacobian());
        assert!(t.requires_driver());
        assert!(!t.is_multistep());
    }
    let bs = ODEiv2StepType::bsimp();
    assert!(bs.requires_jacobian());
    assert!(!bs.requires_driver());
    assert!(!bs.is_multistep());
}

#[test]
fn multistep_methods_orders_and_needs() {
    let adams = ODEiv2StepType::msadams();
    assert!(adams.is_multistep());
    assert!(adams.requires_driver());
    assert!(!adams.requires_jacobian());
    assert_eq!(adams.max_order(), Some(12));
    let bdf = ODEiv2StepType::msbdf();
    assert!(bdf.is_multistep());
    assert!(bdf.requires_driver());
    assert!(bdf.requires_jacobian());
    assert_eq!(bdf.max_order(), Some(5));
}
