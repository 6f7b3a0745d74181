use vstd::prelude::*;

verus! {

/// The three lanes of station B.
#[derive(Clone, Copy, Debug, PartialEq, Eq, Structural)]
pub enum FrictionLaneKind {
    Ice,
    Wood,
    Rubber,
}

/// The friction coefficient of a lane, in hundredths.
pub open spec fn coefficient_spec(kind: FrictionLaneKind) -> u32 {
    match kind {
        FrictionLaneKind::Ice => 5,
        FrictionLaneKind::Wood => 35,
        FrictionLaneKind::Rubber => 80,
    }
}

impl FrictionLaneKind {
    pub open spec fn label_spec(self) -> Seq<char> {
        match self {
            FrictionLaneKind::Ice => "ICE"@,
            FrictionLaneKind::Wood => "WOOD"@,
            FrictionLaneKind::Rubber => "RUBBER"@,
        }
    }

    /// The lanes from left to right.
    pub fn all() -> (kinds: Vec<FrictionLaneKind>)
        ensures
            kinds@ == seq![FrictionLaneKind::Ice, FrictionLaneKind::Wood, FrictionLaneKind::Rubber],
    {
        vec![FrictionLaneKind::Ice, FrictionLaneKind::Wood, FrictionLaneKind::Rubber]
    }

    /// The lane's label.
    pub fn label(self) -> (s: &'static str)
        ensures
            s@ == self.label_spec(),
    {
        match self {
            FrictionLaneKind::Ice => "ICE",
            FrictionLaneKind::Wood => "WOOD",
            FrictionLaneKind::Rubber => "RUBBER",
        }
    }

    /// The lane's friction coefficient, in hundredths (ice 0.05, wood 0.35, rubber 0.80).
    pub fn coefficient(self) -> (c: u32)
        ensures
            c == coefficient_spec(self),
    {
        match self {
            FrictionLaneKind::Ice => 5,
            FrictionLaneKind::Wood => 35,
            FrictionLaneKind::Rubber => 80,
        }
    }
}

/// The lanes are ordered by friction from left to right: ice, then wood, then rubber,
/// with distinct values.
pub proof fn lemma_lanes_in_friction_order(a: FrictionLaneKind, b: FrictionLaneKind)
    ensures
        a != b ==> coefficient_spec(a) != coefficient_spec(b),
        coefficient_spec(FrictionLaneKind::Ice) < coefficient_spec(FrictionLaneKind::Wood),
        coefficient_spec(FrictionLaneKind::Wood) < coefficient_spec(FrictionLaneKind::Rubber),
        coefficient_spec(a) <= 100,
{
}

/// Marks one static surface section of a lane.
#[derive(Clone, Copy, Debug, PartialEq, Eq, Structural)]
pub struct FrictionLaneSurface {
    pub kind: FrictionLaneKind,
    pub ramp: bool,
}

/// Marks the body released onto a lane.
#[derive(Clone, Copy, Debug, PartialEq, Eq, Structural)]
pub struct FrictionLabObject {
    pub lane: FrictionLaneKind,
}

/// A station-wide friction demonstration request.
#[derive(Clone, Copy, Debug, PartialEq, Eq, Structural)]
pub enum FrictionLabAction {
    Release,
    Reset,
}

} // verus!
