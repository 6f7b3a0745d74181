use vstd::prelude::*;

verus! {

/// One of the two bodies welded by the fixed joint.
#[derive(Clone, Copy, Debug, PartialEq, Eq, Structural)]
pub enum FixedJointBody {
    Left,
    Right,
}

impl FixedJointBody {
    /// The body's label.
    pub fn label(self) -> (s: &'static str)
        ensures
            s@ == (if self == FixedJointBody::Left {
                "LEFT"@
            } else {
                "RIGHT"@
            }),
    {
        match self {
            FixedJointBody::Left => "LEFT",
            FixedJointBody::Right => "RIGHT",
        }
    }

    /// The sign of the x direction pointing away from the other body.
    pub fn outward_sign(self) -> (sign: i8)
        ensures
            sign == (if self == FixedJointBody::Left {
                -1i8
            } else {
                1i8
            }),
    {
        match self {
            FixedJointBody::Left => -1,
            FixedJointBody::Right => 1,
        }
    }
}

/// Marks one of the bodies of the fixed-joint demonstration.
#[derive(Clone, Copy, Debug, PartialEq, Eq, Structural)]
pub struct FixedJointDemoBody {
    pub side: FixedJointBody,
}

/// How one side of the welded pair is stressed.
#[derive(Clone, Copy, Debug, PartialEq, Eq, Structural)]
pub enum FixedJointAction {
    Force,
    Impulse,
}

/// A request to stress one side of the welded pair.
#[derive(Clone, Copy, Debug, PartialEq, Eq, Structural)]
pub struct FixedJointStationAction {
    pub body: FixedJointBody,
    pub action: FixedJointAction,
}

} // verus!
