use vstd::prelude::*;

use crate::status::ODEiv;

verus! {

/// The kinds of step-size control: the standard one, whose absolute error is
/// the same for every component, and the scaled one, which weighs it by a
/// scale per component.
#[derive(Clone, Copy, Debug, PartialEq, Eq, Structural)]
pub enum ODEiv2ControlType {
    Standard,
    Scaled,
}

pub open spec fn control_type_name(c: ODEiv2ControlType) -> Seq<char> {
    match c {
        ODEiv2ControlType::Standard => "standard"@,
        ODEiv2ControlType::Scaled => "scaled"@,
    }
}

impl ODEiv2ControlType {
    pub fn standard() -> (r: ODEiv2ControlType)
        ensures
            r == ODEiv2ControlType::Standard,
    {
        ODEiv2ControlType::Standard
    }

    pub fn scaled() -> (r: ODEiv2ControlType)
        ensures
            r == ODEiv2ControlType::Scaled,
    {
        ODEiv2ControlType::Scaled
    }

    pub fn name(&self) -> (r: &'static str)
        ensures
            r@ == control_type_name(*self),
    {
        match self {
            ODEiv2ControlType::Standard => "standard",
            ODEiv2ControlType::Scaled => "scaled",
        }
    }

    /// Whether a control of this kind, holding `scale_len` scales, can judge
    /// the errors of a system of dimension `dim`: a scaled control needs one
    /// scale per component; a standard one holds none and fits any.
    pub fn fits(&self, scale_len: usize, dim: usize) -> (r: bool)
        ensures
            r == (*self == ODEiv2ControlType::Standard || scale_len == dim),
    {
        match self {
            ODEiv2ControlType::Standard => true,
            ODEiv2ControlType::Scaled => scale_len == dim,
        }
    }
}

/// The controller's verdict from the largest ratio of observed to desired
/// error: above the upper threshold the step is decreased, below the lower
/// one it is increased, and between them it is left alone. `above_upper` and
/// `below_lower` are the two comparisons of that ratio; as the lower
/// threshold is under the upper one, they never both hold, and where they
/// did the decrease would win.
pub fn hadjust_verdict(above_upper: bool, below_lower: bool) -> (r: ODEiv)
    ensures
        r == (if above_upper {
            ODEiv::Dec
        } else if below_lower {
            ODEiv::Inc
        } else {
            ODEiv::Nil
        }),
{
    if above_upper {
        ODEiv::Dec
    } else if below_lower {
        ODEiv::Inc
    } else {
        ODEiv::Nil
    }
}

} // verus!
