use vstd::prelude::*;

verus! {

/// The primitive collider shapes compared by the shape station.
#[derive(Clone, Copy, Debug, PartialEq, Eq, Structural)]
pub enum ColliderShapeKind {
    Sphere,
    Cuboid,
    Capsule,
    Cylinder,
    Cone,
}

/// Every primitive of the shape station, from left to right.
pub open spec fn collider_shape_kinds() -> Seq<ColliderShapeKind> {
    seq![
        ColliderShapeKind::Sphere,
        ColliderShapeKind::Cuboid,
        ColliderShapeKind::Capsule,
        ColliderShapeKind::Cylinder,
        ColliderShapeKind::Cone,
    ]
}

impl ColliderShapeKind {
    pub open spec fn label_spec(self) -> Seq<char> {
        match self {
            ColliderShapeKind::Sphere => "SPHERE"@,
            ColliderShapeKind::Cuboid => "CUBOID"@,
            ColliderShapeKind::Capsule => "CAPSULE"@,
            ColliderShapeKind::Cylinder => "CYLINDER"@,
            ColliderShapeKind::Cone => "CONE"@,
        }
    }

    /// Every primitive, from left to right.
    pub fn all() -> (kinds: Vec<ColliderShapeKind>)
        ensures
            kinds@ == collider_shape_kinds(),
    {
        let kinds = vec![
            ColliderShapeKind::Sphere,
            ColliderShapeKind::Cuboid,
            ColliderShapeKind::Capsule,
            ColliderShapeKind::Cylinder,
            ColliderShapeKind::Cone,
        ];
        proof {
            assert(kinds@ =~= collider_shape_kinds());
        }
        kinds
    }

    /// The primitive's label.
    pub fn label(self) -> (s: &'static str)
        ensures
            s@ == self.label_spec(),
    {
        match self {
            ColliderShapeKind::Sphere => "SPHERE",
            ColliderShapeKind::Cuboid => "CUBOID",
            ColliderShapeKind::Capsule => "CAPSULE",
            ColliderShapeKind::Cylinder => "CYLINDER",
            ColliderShapeKind::Cone => "CONE",
        }
    }
}

/// Marks a static primitive of the shape station.
#[derive(Clone, Copy, Debug, PartialEq, Eq, Structural)]
pub struct ColliderShapeLabObject {
    pub kind: ColliderShapeKind,
}

/// Marks the body dropped onto a primitive of the matching kind.
#[derive(Clone, Copy, Debug, PartialEq, Eq, Structural)]
pub struct ColliderShapeLabDrop {
    pub kind: ColliderShapeKind,
}

} // verus!
