use vstd::prelude::*;

verus! {

/// The colliders overlapping the debug volume in the latest test.
#[derive(Clone, Debug)]
pub struct IntersectionTestResult {
    pub intersections: Vec<u64>,
}

impl IntersectionTestResult {
    /// No overlaps at first.
    pub fn new() -> (result: IntersectionTestResult)
        ensures
            result.intersections@.len() == 0,
    {
        IntersectionTestResult { intersections: Vec::new() }
    }

    /// Whether the debug volume overlaps any collider.
    pub fn is_intersecting(&self) -> (intersecting: bool)
        ensures
            intersecting == (self.intersections@.len() > 0),
    {
        self.intersections.len() > 0
    }
}

/// The arrow and page keys held this frame.
#[derive(Clone, Copy, Debug, PartialEq, Eq, Structural)]
pub struct VolumeMoveKeys {
    pub left: bool,
    pub right: bool,
    pub down: bool,
    pub up: bool,
    pub page_down: bool,
    pub page_up: bool,
}

/// The sign of one axis given its negative and positive key.
pub open spec fn key_axis(negative: bool, positive: bool) -> int {
    (if positive { 1int } else { 0int }) - (if negative { 1int } else { 0int })
}

/// The unnormalised direction the keys move the volume in: left and right along x,
/// up (away) and down (towards the camera) along z, page keys along y.
pub fn keyboard_direction(keys: VolumeMoveKeys) -> (direction: (i8, i8, i8))
    ensures
        direction.0 == key_axis(keys.left, keys.right),
        direction.1 == key_axis(keys.page_down, keys.page_up),
        direction.2 == key_axis(keys.up, keys.down),
{
    let mut x: i8 = 0;
    let mut y: i8 = 0;
    let mut z: i8 = 0;
    if keys.left {
        x = x - 1;
    }
    if keys.right {
        x = x + 1;
    }
    if keys.down {
        z = z + 1;
    }
    if keys.up {
        z = z - 1;
    }
    if keys.page_down {
        y = y - 1;
    }
    if keys.page_up {
        y = y + 1;
    }
    (x, y, z)
}

/// Opposite keys cancel: holding both keys of an axis leaves that axis still.
pub proof fn lemma_opposite_keys_cancel(held: bool)
    ensures
        key_axis(held, held) == 0,
{
}

} // verus!
