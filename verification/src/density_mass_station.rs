use vstd::prelude::*;

verus! {

/// Station C's identical-looking light, medium and heavy bodies.
#[derive(Clone, Copy, Debug, PartialEq, Eq, Structural)]
pub enum DensityMassLabKind {
    Light,
    Medium,
    Heavy,
}

impl DensityMassLabKind {
    pub open spec fn label_spec(self) -> Seq<char> {
        match self {
            DensityMassLabKind::Light => "LIGHT"@,
            DensityMassLabKind::Medium => "MEDIUM"@,
            DensityMassLabKind::Heavy => "HEAVY"@,
        }
    }

    /// The bodies from left to right.
    pub fn all() -> (kinds: Vec<DensityMassLabKind>)
        ensures
            kinds@ == seq![DensityMassLabKind::Light, DensityMassLabKind::Medium, DensityMassLabKind::Heavy],
    {
        vec![DensityMassLabKind::Light, DensityMassLabKind::Medium, DensityMassLabKind::Heavy]
    }

    /// The body's label.
    pub fn label(self) -> (s: &'static str)
        ensures
            s@ == self.label_spec(),
    {
        match self {
            DensityMassLabKind::Light => "LIGHT",
            DensityMassLabKind::Medium => "MEDIUM",
            DensityMassLabKind::Heavy => "HEAVY",
        }
    }

    /// Whether the body's weight is set through its collider density; the heavy body is
    /// given an explicit mass instead.
    pub fn uses_density(self) -> (density: bool)
        ensures
            density == (self != DensityMassLabKind::Heavy),
    {
        match self {
            DensityMassLabKind::Heavy => false,
            _ => true,
        }
    }
}

/// Marks one of station C's bodies.
#[derive(Clone, Copy, Debug, PartialEq, Eq, Structural)]
pub struct DensityMassLabObject {
    pub kind: DensityMassLabKind,
}

} // verus!
