use vstd::prelude::*;

verus! {

/// The named global gravity settings of the control panel.
#[derive(Clone, Copy, Debug, PartialEq, Eq, Structural)]
pub enum GravityPreset {
    Earth,
    Moon,
    ZeroG,
    Reverse,
}

impl GravityPreset {
    pub open spec fn label_spec(self) -> Seq<char> {
        match self {
            GravityPreset::Earth => "Earth"@,
            GravityPreset::Moon => "Moon"@,
            GravityPreset::ZeroG => "Zero G"@,
            GravityPreset::Reverse => "Reverse"@,
        }
    }

    /// The presets in panel order.
    pub fn all() -> (presets: Vec<GravityPreset>)
        ensures
            presets@ == seq![
                GravityPreset::Earth,
                GravityPreset::Moon,
                GravityPreset::ZeroG,
                GravityPreset::Reverse,
            ],
    {
        vec![GravityPreset::Earth, GravityPreset::Moon, GravityPreset::ZeroG, GravityPreset::Reverse]
    }

    /// The preset's button label.
    pub fn label(self) -> (s: &'static str)
        ensures
            s@ == self.label_spec(),
    {
        match self {
            GravityPreset::Earth => "Earth",
            GravityPreset::Moon => "Moon",
            GravityPreset::ZeroG => "Zero G",
            GravityPreset::Reverse => "Reverse",
        }
    }
}

/// The component of the gravity vector being edited.
#[derive(Clone, Copy, Debug, PartialEq, Eq, Structural)]
pub enum GravityAxis {
    X,
    Y,
    Z,
}

impl GravityAxis {
    pub open spec fn label_spec(self) -> Seq<char> {
        match self {
            GravityAxis::X => "X"@,
            GravityAxis::Y => "Y"@,
            GravityAxis::Z => "Z"@,
        }
    }

    /// The axes in panel order.
    pub fn all() -> (axes: Vec<GravityAxis>)
        ensures
            axes@ == seq![GravityAxis::X, GravityAxis::Y, GravityAxis::Z],
    {
        vec![GravityAxis::X, GravityAxis::Y, GravityAxis::Z]
    }

    /// The axis's label.
    pub fn label(self) -> (s: &'static str)
        ensures
            s@ == self.label_spec(),
    {
        match self {
            GravityAxis::X => "X",
            GravityAxis::Y => "Y",
            GravityAxis::Z => "Z",
        }
    }
}

/// The direction of one gravity-axis step.
#[derive(Clone, Copy, Debug, PartialEq, Eq, Structural)]
pub enum GravityAdjustment {
    Decrease,
    Increase,
}

impl GravityAdjustment {
    /// The step's sign: one half unit down or up per press.
    pub fn sign(self) -> (sign: i8)
        ensures
            sign == (if self == GravityAdjustment::Increase {
                1i8
            } else {
                -1i8
            }),
    {
        match self {
            GravityAdjustment::Decrease => -1,
            GravityAdjustment::Increase => 1,
        }
    }
}

} // verus!
