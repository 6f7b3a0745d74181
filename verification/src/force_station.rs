use vstd::prelude::*;

verus! {

/// The five demonstrations of station D.
#[derive(Clone, Copy, Debug, PartialEq, Eq, Structural)]
pub enum ForceDemoKind {
    Force,
    Impulse,
    Torque,
    AngularImpulse,
    Acceleration,
}

/// The demonstrations from left to right.
pub open spec fn force_demo_kinds() -> Seq<ForceDemoKind> {
    seq![
        ForceDemoKind::Force,
        ForceDemoKind::Impulse,
        ForceDemoKind::Torque,
        ForceDemoKind::AngularImpulse,
        ForceDemoKind::Acceleration,
    ]
}

/// How a demonstration acts on its body.
#[derive(Clone, Copy, Debug, PartialEq, Eq, Structural)]
pub struct ForceEffect {
    /// Keeps acting every step until the station is reset (a one-shot effect acts once).
    pub persistent: bool,
    /// Changes rotation rather than translation.
    pub rotational: bool,
}

pub open spec fn effect_spec(kind: ForceDemoKind) -> ForceEffect {
    match kind {
        ForceDemoKind::Force => ForceEffect { persistent: true, rotational: false },
        ForceDemoKind::Impulse => ForceEffect { persistent: false, rotational: false },
        ForceDemoKind::Torque => ForceEffect { persistent: true, rotational: true },
        ForceDemoKind::AngularImpulse => ForceEffect { persistent: false, rotational: true },
        ForceDemoKind::Acceleration => ForceEffect { persistent: true, rotational: false },
    }
}

impl ForceDemoKind {
    pub open spec fn label_spec(self) -> Seq<char> {
        match self {
            ForceDemoKind::Force => "Force"@,
            ForceDemoKind::Impulse => "Impulse"@,
            ForceDemoKind::Torque => "Torque"@,
            ForceDemoKind::AngularImpulse => "Angular impulse"@,
            ForceDemoKind::Acceleration => "Acceleration"@,
        }
    }

    pub open spec fn description_spec(self) -> Seq<char> {
        match self {
            ForceDemoKind::Force => "persistent \u{b7} N"@,
            ForceDemoKind::Impulse => "one shot \u{b7} N\u{b7}s"@,
            ForceDemoKind::Torque => "persistent \u{b7} N\u{b7}m"@,
            ForceDemoKind::AngularImpulse => "one shot \u{b7} N\u{b7}m\u{b7}s"@,
            ForceDemoKind::Acceleration => "persistent \u{b7} m/s\u{b2}"@,
        }
    }

    /// The demonstrations, from left to right.
    pub fn all() -> (kinds: Vec<ForceDemoKind>)
        ensures
            kinds@ == force_demo_kinds(),
    {
        let kinds = vec![
            ForceDemoKind::Force,
            ForceDemoKind::Impulse,
            ForceDemoKind::Torque,
            ForceDemoKind::AngularImpulse,
            ForceDemoKind::Acceleration,
        ];
        proof {
            assert(kinds@ =~= force_demo_kinds());
        }
        kinds
    }

    /// The demonstration's label.
    pub fn label(self) -> (s: &'static str)
        ensures
            s@ == self.label_spec(),
    {
        match self {
            ForceDemoKind::Force => "Force",
            ForceDemoKind::Impulse => "Impulse",
            ForceDemoKind::Torque => "Torque",
            ForceDemoKind::AngularImpulse => "Angular impulse",
            ForceDemoKind::Acceleration => "Acceleration",
        }
    }

    /// What the demonstration does and in which unit.
    pub fn description(self) -> (s: &'static str)
        ensures
            s@ == self.description_spec(),
    {
        match self {
            ForceDemoKind::Force => "persistent \u{b7} N",
            ForceDemoKind::Impulse => "one shot \u{b7} N\u{b7}s",
            ForceDemoKind::Torque => "persistent \u{b7} N\u{b7}m",
            ForceDemoKind::AngularImpulse => "one shot \u{b7} N\u{b7}m\u{b7}s",
            ForceDemoKind::Acceleration => "persistent \u{b7} m/s\u{b2}",
        }
    }

    /// How the demonstration acts on its body.
    pub fn effect(self) -> (effect: ForceEffect)
        ensures
            effect == effect_spec(self),
    {
        match self {
            ForceDemoKind::Force => ForceEffect { persistent: true, rotational: false },
            ForceDemoKind::Impulse => ForceEffect { persistent: false, rotational: false },
            ForceDemoKind::Torque => ForceEffect { persistent: true, rotational: true },
            ForceDemoKind::AngularImpulse => ForceEffect { persistent: false, rotational: true },
            ForceDemoKind::Acceleration => ForceEffect { persistent: true, rotational: false },
        }
    }
}

/// The description names the effect: a demonstration is described as persistent
/// exactly when its effect keeps acting, and as one shot otherwise.
pub proof fn lemma_description_matches_effect(kind: ForceDemoKind)
    ensures
        effect_spec(kind).persistent <==> kind.description_spec().take(10) == "persistent"@,
{
    reveal_strlit("persistent");
    reveal_strlit("persistent \u{b7} N");
    reveal_strlit("one shot \u{b7} N\u{b7}s");
    reveal_strlit("persistent \u{b7} N\u{b7}m");
    reveal_strlit("one shot \u{b7} N\u{b7}m\u{b7}s");
    reveal_strlit("persistent \u{b7} m/s\u{b2}");
    if effect_spec(kind).persistent {
        assert(kind.description_spec().take(10) =~= "persistent"@);
    } else {
        assert(kind.description_spec().take(10)[0] != "persistent"@[0]);
    }
}

/// Marks one of the identical bodies of station D.
#[derive(Clone, Copy, Debug, PartialEq, Eq, Structural)]
pub struct ForceDemoObject {
    pub kind: ForceDemoKind,
}

/// A request to run one demonstration on the next physics step.
#[derive(Clone, Copy, Debug, PartialEq, Eq, Structural)]
pub struct ForceStationAction {
    pub kind: ForceDemoKind,
}

} // verus!
