use vstd::prelude::*;

use crate::object_inspector::lock_bit;
use crate::object_inspector::Axis;
use crate::object_inspector::AxisLockKind;

verus! {

/// The six comparison bodies of the J station, each with one locked axis.
#[derive(Clone, Copy, Debug, PartialEq, Eq, Structural)]
pub enum AxisLockDemoKind {
    TranslationX,
    TranslationY,
    TranslationZ,
    RotationX,
    RotationY,
    RotationZ,
}

/// The comparison bodies from left to right.
pub open spec fn axis_lock_demo_kinds() -> Seq<AxisLockDemoKind> {
    seq![
        AxisLockDemoKind::TranslationX,
        AxisLockDemoKind::TranslationY,
        AxisLockDemoKind::TranslationZ,
        AxisLockDemoKind::RotationX,
        AxisLockDemoKind::RotationY,
        AxisLockDemoKind::RotationZ,
    ]
}

impl AxisLockDemoKind {
    /// The axis the body locks.
    pub open spec fn locked_axis(self) -> (AxisLockKind, Axis) {
        match self {
            AxisLockDemoKind::TranslationX => (AxisLockKind::Translation, Axis::X),
            AxisLockDemoKind::TranslationY => (AxisLockKind::Translation, Axis::Y),
            AxisLockDemoKind::TranslationZ => (AxisLockKind::Translation, Axis::Z),
            AxisLockDemoKind::RotationX => (AxisLockKind::Rotation, Axis::X),
            AxisLockDemoKind::RotationY => (AxisLockKind::Rotation, Axis::Y),
            AxisLockDemoKind::RotationZ => (AxisLockKind::Rotation, Axis::Z),
        }
    }

    pub open spec fn label_spec(self) -> Seq<char> {
        match self {
            AxisLockDemoKind::TranslationX => "Translation X"@,
            AxisLockDemoKind::TranslationY => "Translation Y"@,
            AxisLockDemoKind::TranslationZ => "Translation Z"@,
            AxisLockDemoKind::RotationX => "Rotation X"@,
            AxisLockDemoKind::RotationY => "Rotation Y"@,
            AxisLockDemoKind::RotationZ => "Rotation Z"@,
        }
    }

    /// The comparison bodies, from left to right.
    pub fn all() -> (kinds: Vec<AxisLockDemoKind>)
        ensures
            kinds@ == axis_lock_demo_kinds(),
    {
        let kinds = vec![
            AxisLockDemoKind::TranslationX,
            AxisLockDemoKind::TranslationY,
            AxisLockDemoKind::TranslationZ,
            AxisLockDemoKind::RotationX,
            AxisLockDemoKind::RotationY,
            AxisLockDemoKind::RotationZ,
        ];
        proof {
            assert(kinds@ =~= axis_lock_demo_kinds());
        }
        kinds
    }

    /// The body's label.
    pub fn label(self) -> (s: &'static str)
        ensures
            s@ == self.label_spec(),
    {
        match self {
            AxisLockDemoKind::TranslationX => "Translation X",
            AxisLockDemoKind::TranslationY => "Translation Y",
            AxisLockDemoKind::TranslationZ => "Translation Z",
            AxisLockDemoKind::RotationX => "Rotation X",
            AxisLockDemoKind::RotationY => "Rotation Y",
            AxisLockDemoKind::RotationZ => "Rotation Z",
        }
    }

    /// The body's locked-axes mask: exactly the bit of its one locked axis.
    pub fn locked_axes(self) -> (bits: u8)
        ensures
            bits == lock_bit(self.locked_axis().0, self.locked_axis().1),
    {
        match self {
            AxisLockDemoKind::TranslationX => 32,
            AxisLockDemoKind::TranslationY => 16,
            AxisLockDemoKind::TranslationZ => 8,
            AxisLockDemoKind::RotationX => 4,
            AxisLockDemoKind::RotationY => 2,
            AxisLockDemoKind::RotationZ => 1,
        }
    }
}

/// The six comparison bodies lock six different axes.
pub proof fn lemma_demo_bodies_lock_distinct_axes(a: AxisLockDemoKind, b: AxisLockDemoKind)
    requires
        a != b,
    ensures
        a.locked_axis() != b.locked_axis(),
        lock_bit(a.locked_axis().0, a.locked_axis().1) != lock_bit(b.locked_axis().0, b.locked_axis().1),
{
}

/// Marks an axis-lock comparison body in the J station.
#[derive(Clone, Copy, Debug, PartialEq, Eq, Structural)]
pub struct AxisLockDemoObject {
    pub kind: AxisLockDemoKind,
}

/// One side of the dominance collision comparison.
#[derive(Clone, Copy, Debug, PartialEq, Eq, Structural)]
pub enum DominanceDemoKind {
    Normal,
    Dominant,
}

impl DominanceDemoKind {
    pub open spec fn value_spec(self) -> i8 {
        match self {
            DominanceDemoKind::Normal => 0,
            DominanceDemoKind::Dominant => 5,
        }
    }

    pub open spec fn label_spec(self) -> Seq<char> {
        match self {
            DominanceDemoKind::Normal => "Dominance 0"@,
            DominanceDemoKind::Dominant => "Dominance 5"@,
        }
    }

    /// Both sides, the ordinary one first.
    pub fn all() -> (kinds: Vec<DominanceDemoKind>)
        ensures
            kinds@ == seq![DominanceDemoKind::Normal, DominanceDemoKind::Dominant],
    {
        vec![DominanceDemoKind::Normal, DominanceDemoKind::Dominant]
    }

    /// The side's label, naming its dominance.
    pub fn label(self) -> (s: &'static str)
        ensures
            s@ == self.label_spec(),
    {
        match self {
            DominanceDemoKind::Normal => "Dominance 0",
            DominanceDemoKind::Dominant => "Dominance 5",
        }
    }

    /// The side's dominance.
    pub fn value(self) -> (value: i8)
        ensures
            value == self.value_spec(),
    {
        match self {
            DominanceDemoKind::Normal => 0,
            DominanceDemoKind::Dominant => 5,
        }
    }
}

} // verus!
