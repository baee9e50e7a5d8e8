//! The automatable parameters and their indices.
use vstd::prelude::*;

verus! {

/// One of the automatable parameters, in declared order.
#[derive(Clone, Copy, Debug, PartialEq, Eq, Structural)]
pub enum Control {
    Pitch,
    PitchFine,
    Mix,
}

/// The parameter at `i` in declared order; meaningful for `0 <= i < 3`.
pub open spec fn control_at(i: int) -> Control {
    if i == 0 {
        Control::Pitch
    } else if i == 1 {
        Control::PitchFine
    } else {
        Control::Mix
    }
}

/// Whether `i` names one of the parameters.
pub open spec fn is_parameter_index(i: int) -> bool {
    0 <= i < Control::VARIANT_COUNT
}

impl Control {
    /// Number of parameters.
    pub const VARIANT_COUNT: usize = 3;

    /// Position of the parameter in declared order.
    pub open spec fn spec_index(self) -> int {
        match self {
            Control::Pitch => 0,
            Control::PitchFine => 1,
            Control::Mix => 2,
        }
    }

    /// The parameter at index `i`, which the host guarantees to be in range.
    pub fn from(i: i32) -> (r: Self)
        requires
            is_parameter_index(i as int),
        ensures
            r == control_at(i as int),
            r.spec_index() == i,
    {
        if i == 0 {
            Control::Pitch
        } else if i == 1 {
            Control::PitchFine
        } else {
            Control::Mix
        }
    }

    /// The parameter at index `i`, or `None` where `i` names no parameter.
    pub fn checked_from(i: i32) -> (r: Option<Self>)
        ensures
            r is Some <==> is_parameter_index(i as int),
            r is Some ==> r == Some(control_at(i as int)),
    {
        if 0 <= i && i < Self::VARIANT_COUNT as i32 {
            Some(Self::from(i))
        } else {
            None
        }
    }

    /// Position of the parameter in declared order.
    pub fn index(self) -> (r: i32)
        ensures
            r == self.spec_index(),
            control_at(r as int) == self,
    {
        match self {
            Control::Pitch => 0,
            Control::PitchFine => 1,
            Control::Mix => 2,
        }
    }

    /// Display name of the parameter.
    pub fn name(self) -> (r: &'static str)
        ensures
            self == Control::Pitch ==> r@ == "Pitch"@,
            self == Control::PitchFine ==> r@ == "Pitch (Fine)"@,
            self == Control::Mix ==> r@ == "Mix"@,
    {
        match self {
            Control::Pitch => "Pitch",
            Control::PitchFine => "Pitch (Fine)",
            Control::Mix => "Mix",
        }
    }

    /// Unit label shown beside the parameter's value.
    pub fn label(self) -> (r: &'static str)
        ensures
            self == Control::Mix ==> r@ == "%"@,
            self != Control::Mix ==> r@ == "cents"@,
    {
        match self {
            Control::Pitch => "cents",
            Control::PitchFine => "cents",
            Control::Mix => "%",
        }
    }
}

/// Whether the host may automate the parameter at `index`.
pub fn can_be_automated(index: i32) -> (r: bool)
    ensures
        r == is_parameter_index(index as int),
{
    0 <= index && index < Control::VARIANT_COUNT as i32
}

} // verus!
