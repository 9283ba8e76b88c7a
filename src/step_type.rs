use vstd::prelude::*;

verus! {

/// The stepping algorithms, a closed set.
#[derive(Clone, Copy, Debug, PartialEq, Eq, Structural)]
pub enum ODEiv2StepType {
    /// Explicit embedded Runge-Kutta (2, 3).
    Rk2,
    /// Explicit classical 4th order Runge-Kutta, error by step doubling.
    Rk4,
    /// Explicit embedded Runge-Kutta-Fehlberg (4, 5).
    Rkf45,
    /// Explicit embedded Runge-Kutta Cash-Karp (4, 5).
    Rkck,
    /// Explicit embedded Runge-Kutta Prince-Dormand (8, 9).
    Rk8pd,
    /// Implicit Gaussian first order Runge-Kutta (backward Euler).
    Rk1imp,
    /// Implicit Gaussian second order Runge-Kutta (implicit mid-point).
    Rk2imp,
    /// Implicit Gaussian 4th order Runge-Kutta.
    Rk4imp,
    /// Implicit Bulirsch-Stoer of Bader and Deuflhard.
    Bsimp,
    /// Variable-order Adams multistep method in Nordsieck form.
    Msadams,
    /// Variable-order backward differentiation multistep method in Nordsieck form.
    Msbdf,
}

/// The name by which an algorithm is known.
pub open spec fn step_type_name(t: ODEiv2StepType) -> Seq<char> {
    match t {
        ODEiv2StepType::Rk2 => "rk2"@,
        ODEiv2StepType::Rk4 => "rk4"@,
        ODEiv2StepType::Rkf45 => "rkf45"@,
        ODEiv2StepType::Rkck => "rkck"@,
        ODEiv2StepType::Rk8pd => "rk8pd"@,
        ODEiv2StepType::Rk1imp => "rk1imp"@,
        ODEiv2StepType::Rk2imp => "rk2imp"@,
        ODEiv2StepType::Rk4imp => "rk4imp"@,
        ODEiv2StepType::Bsimp => "bsimp"@,
        ODEiv2StepType::Msadams => "msadams"@,
        ODEiv2StepType::Msbdf => "msbdf"@,
    }
}

impl ODEiv2StepType {
    /// The algorithm evaluates the Jacobian of the system.
    pub open spec fn spec_requires_jacobian(self) -> bool {
        self is Rk1imp || self is Rk2imp || self is Rk4imp || self is Bsimp || self is Msbdf
    }

    /// The algorithm asks a driver for the desired error level of its
    /// internal iteration.
    pub open spec fn spec_requires_driver(self) -> bool {
        self is Rk1imp || self is Rk2imp || self is Rk4imp || self is Msadams || self is Msbdf
    }

    /// The algorithm carries a history of past steps from call to call.
    pub open spec fn spec_is_multistep(self) -> bool {
        self is Msadams || self is Msbdf
    }

    /// The highest order of a variable-order algorithm.
    pub open spec fn spec_max_order(self) -> Option<u32> {
        match self {
            ODEiv2StepType::Msadams => Some(12u32),
            ODEiv2StepType::Msbdf => Some(5u32),
            _ => None,
        }
    }

    pub fn rk2() -> (r: ODEiv2StepType)
        ensures
            r == ODEiv2StepType::Rk2,
    {
        ODEiv2StepType::Rk2
    }

    pub fn rk4() -> (r: ODEiv2StepType)
        ensures
            r == ODEiv2StepType::Rk4,
    {
        ODEiv2StepType::Rk4
    }

    pub fn rkf45() -> (r: ODEiv2StepType)
        ensures
            r == ODEiv2StepType::Rkf45,
    {
        ODEiv2StepType::Rkf45
    }

    pub fn rkck() -> (r: ODEiv2StepType)
        ensures
            r == ODEiv2StepType::Rkck,
    {
        ODEiv2StepType::Rkck
    }

    pub fn rk8pd() -> (r: ODEiv2StepType)
        ensures
            r == ODEiv2StepType::Rk8pd,
    {
        ODEiv2StepType::Rk8pd
    }

    pub fn rk1imp() -> (r: ODEiv2StepType)
        ensures
            r == ODEiv2StepType::Rk1imp,
    {
        ODEiv2StepType::Rk1imp
    }

    pub fn rk2imp() -> (r: ODEiv2StepType)
        ensures
            r == ODEiv2StepType::Rk2imp,
    {
        ODEiv2StepType::Rk2imp
    }

    pub fn rk4imp() -> (r: ODEiv2StepType)
        ensures
            r == ODEiv2StepType::Rk4imp,
    {
        ODEiv2StepType::Rk4imp
    }

    pub fn bsimp() -> (r: ODEiv2StepType)
        ensures
            r == ODEiv2StepType::Bsimp,
    {
        ODEiv2StepType::Bsimp
    }

    pub fn msadams() -> (r: ODEiv2StepType)
        ensures
            r == ODEiv2StepType::Msadams,
    {
        ODEiv2StepType::Msadams
    }

    pub fn msbdf() -> (r: ODEiv2StepType)
        ensures
            r == ODEiv2StepType::Msbdf,
    {
        ODEiv2StepType::Msbdf
    }

    /// The algorithm's name, such as "rkf45".
    pub fn name(&self) -> (r: &'static str)
        ensures
            r@ == step_type_name(*self),
    {
        match self {
            ODEiv2StepType::Rk2 => "rk2",
            ODEiv2StepType::Rk4 => "rk4",
            ODEiv2StepType::Rkf45 => "rkf45",
            ODEiv2StepType::Rkck => "rkck",
            ODEiv2StepType::Rk8pd => "rk8pd",
            ODEiv2StepType::Rk1imp => "rk1imp",
            ODEiv2StepType::Rk2imp => "rk2imp",
            ODEiv2StepType::Rk4imp => "rk4imp",
            ODEiv2StepType::Bsimp => "bsimp",
            ODEiv2StepType::Msadams => "msadams",
            ODEiv2StepType::Msbdf => "msbdf",
        }
    }

    pub fn requires_jacobian(&self) -> (r: bool)
        ensures
            r == self.spec_requires_jacobian(),
    {
        match self {
            ODEiv2StepType::Rk1imp | ODEiv2StepType::Rk2imp | ODEiv2StepType::Rk4imp
            | ODEiv2StepType::Bsimp | ODEiv2StepType::Msbdf => true,
            _ => false,
        }
    }

    pub fn requires_driver(&self) -> (r: bool)
        ensures
            r == self.spec_requires_driver(),
    {
        match self {
            ODEiv2StepType::Rk1imp | ODEiv2StepType::Rk2imp | ODEiv2StepType::Rk4imp
            | ODEiv2StepType::Msadams | ODEiv2StepType::Msbdf => true,
            _ => false,
        }
    }

    pub fn is_multistep(&self) -> (r: bool)
        ensures
            r == self.spec_is_multistep(),
    {
        match self {
            ODEiv2StepType::Msadams | ODEiv2StepType::Msbdf => true,
            _ => false,
        }
    }

    /// The highest order of a variable-order algorithm; `None` for an
    /// algorithm of fixed order.
    pub fn max_order(&self) -> (r: Option<u32>)
        ensures
            r == self.spec_max_order(),
    {
        match self {
            ODEiv2StepType::Msadams => Some(12),
            ODEiv2StepType::Msbdf => Some(5),
            _ => None,
        }
    }
}

} // verus!
