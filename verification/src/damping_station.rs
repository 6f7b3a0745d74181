use vstd::prelude::*;

verus! {

/// The six damping comparison bodies: three slide and three spin.
#[derive(Clone, Copy, Debug, PartialEq, Eq, Structural)]
pub enum DampingDemoKind {
    LinearLow,
    LinearMedium,
    LinearHigh,
    AngularLow,
    AngularMedium,
    AngularHigh,
}

/// The motion a damping body starts with.
#[derive(Clone, Copy, Debug, PartialEq, Eq, Structural)]
pub enum DampingMotion {
    Sliding,
    Spinning,
}

/// The bodies from left to right.
pub open spec fn damping_demo_kinds() -> Seq<DampingDemoKind> {
    seq![
        DampingDemoKind::LinearLow,
        DampingDemoKind::LinearMedium,
        DampingDemoKind::LinearHigh,
        DampingDemoKind::AngularLow,
        DampingDemoKind::AngularMedium,
        DampingDemoKind::AngularHigh,
    ]
}

/// The (linear, angular) damping coefficients of each body.
pub open spec fn damping_values_spec(kind: DampingDemoKind) -> (u32, u32) {
    match kind {
        DampingDemoKind::LinearLow => (0, 0),
        DampingDemoKind::LinearMedium => (1, 0),
        DampingDemoKind::LinearHigh => (5, 0),
        DampingDemoKind::AngularLow => (0, 0),
        DampingDemoKind::AngularMedium => (0, 1),
        DampingDemoKind::AngularHigh => (0, 5),
    }
}

impl DampingDemoKind {
    pub open spec fn motion_spec(self) -> DampingMotion {
        match self {
            DampingDemoKind::LinearLow | DampingDemoKind::LinearMedium
            | DampingDemoKind::LinearHigh => DampingMotion::Sliding,
            _ => DampingMotion::Spinning,
        }
    }

    pub open spec fn label_spec(self) -> Seq<char> {
        match self {
            DampingDemoKind::LinearLow => "Linear low"@,
            DampingDemoKind::LinearMedium => "Linear medium"@,
            DampingDemoKind::LinearHigh => "Linear high"@,
            DampingDemoKind::AngularLow => "Angular low"@,
            DampingDemoKind::AngularMedium => "Angular medium"@,
            DampingDemoKind::AngularHigh => "Angular high"@,
        }
    }

    /// The bodies, from left to right.
    pub fn all() -> (kinds: Vec<DampingDemoKind>)
        ensures
            kinds@ == damping_demo_kinds(),
    {
        let kinds = vec![
            DampingDemoKind::LinearLow,
            DampingDemoKind::LinearMedium,
            DampingDemoKind::LinearHigh,
            DampingDemoKind::AngularLow,
            DampingDemoKind::AngularMedium,
            DampingDemoKind::AngularHigh,
        ];
        proof {
            assert(kinds@ =~= damping_demo_kinds());
        }
        kinds
    }

    /// The body's label.
    pub fn label(self) -> (s: &'static str)
        ensures
            s@ == self.label_spec(),
    {
        match self {
            DampingDemoKind::LinearLow => "Linear low",
            DampingDemoKind::LinearMedium => "Linear medium",
            DampingDemoKind::LinearHigh => "Linear high",
            DampingDemoKind::AngularLow => "Angular low",
            DampingDemoKind::AngularMedium => "Angular medium",
            DampingDemoKind::AngularHigh => "Angular high",
        }
    }

    /// The body's (linear, angular) damping coefficients.
    pub fn damping_values(self) -> (values: (u32, u32))
        ensures
            values == damping_values_spec(self),
    {
        match self {
            DampingDemoKind::LinearLow => (0, 0),
            DampingDemoKind::LinearMedium => (1, 0),
            DampingDemoKind::LinearHigh => (5, 0),
            DampingDemoKind::AngularLow => (0, 0),
            DampingDemoKind::AngularMedium => (0, 1),
            DampingDemoKind::AngularHigh => (0, 5),
        }
    }

    /// Whether the body starts sliding or spinning.
    pub fn initial_motion(self) -> (motion: DampingMotion)
        ensures
            motion == self.motion_spec(),
    {
        match self {
            DampingDemoKind::LinearLow | DampingDemoKind::LinearMedium
            | DampingDemoKind::LinearHigh => DampingMotion::Sliding,
            _ => DampingMotion::Spinning,
        }
    }
}

/// The damping of the motion a body starts with.
pub open spec fn damping_of_own_motion(kind: DampingDemoKind) -> u32 {
    if kind.motion_spec() == DampingMotion::Sliding {
        damping_values_spec(kind).0
    } else {
        damping_values_spec(kind).1
    }
}

/// Each body damps only the motion it starts with, and within a motion the low,
/// medium and high bodies are damped strictly more in that order.
pub proof fn lemma_damping_isolates_one_motion(kind: DampingDemoKind)
    ensures
        kind.motion_spec() == DampingMotion::Sliding ==> damping_values_spec(kind).1 == 0,
        kind.motion_spec() == DampingMotion::Spinning ==> damping_values_spec(kind).0 == 0,
        damping_of_own_motion(DampingDemoKind::LinearLow) < damping_of_own_motion(DampingDemoKind::LinearMedium)
            < damping_of_own_motion(DampingDemoKind::LinearHigh),
        damping_of_own_motion(DampingDemoKind::AngularLow) < damping_of_own_motion(DampingDemoKind::AngularMedium)
            < damping_of_own_motion(DampingDemoKind::AngularHigh),
{
}

/// Marks a damping comparison body.
#[derive(Clone, Copy, Debug, PartialEq, Eq, Structural)]
pub struct DampingDemoObject {
    pub kind: DampingDemoKind,
}

} // verus!
