use vstd::prelude::*;

verus! {

/// The four lightweight bodies of the basic interaction test.
#[derive(Clone, Copy, Debug, PartialEq, Eq, Structural)]
pub enum DynamicObjectKind {
    Cube,
    Sphere,
    Crate,
    Barrel,
}

impl DynamicObjectKind {
    pub open spec fn label_spec(self) -> Seq<char> {
        match self {
            DynamicObjectKind::Cube => "Cube"@,
            DynamicObjectKind::Sphere => "Sphere"@,
            DynamicObjectKind::Crate => "Crate"@,
            DynamicObjectKind::Barrel => "Barrel"@,
        }
    }

    /// The body's name.
    pub fn label(self) -> (s: &'static str)
        ensures
            s@ == self.label_spec(),
    {
        match self {
            DynamicObjectKind::Cube => "Cube",
            DynamicObjectKind::Sphere => "Sphere",
            DynamicObjectKind::Crate => "Crate",
            DynamicObjectKind::Barrel => "Barrel",
        }
    }
}

/// Marks one of the basic dynamic bodies.
#[derive(Clone, Copy, Debug, PartialEq, Eq, Structural)]
pub struct DynamicTestObject {
    pub kind: DynamicObjectKind,
}

} // verus!
