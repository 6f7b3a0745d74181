use vstd::prelude::*;

use crate::intersection_testing::key_axis;

verus! {

/// The WASD keys held this frame.
#[derive(Clone, Copy, Debug, PartialEq, Eq, Structural)]
pub struct MovementKeys {
    pub w: bool,
    pub a: bool,
    pub s: bool,
    pub d: bool,
}

/// The player's movement axes before they are limited to unit length: D minus A across,
/// W minus S forward.
pub fn movement_axes(keys: MovementKeys) -> (axes: (i8, i8))
    ensures
        axes.0 == key_axis(keys.a, keys.d),
        axes.1 == key_axis(keys.s, keys.w),
        -1 <= axes.0 <= 1,
        -1 <= axes.1 <= 1,
{
    let horizontal: i8 = (if keys.d { 1i8 } else { 0i8 }) - (if keys.a { 1i8 } else { 0i8 });
    let vertical: i8 = (if keys.w { 1i8 } else { 0i8 }) - (if keys.s { 1i8 } else { 0i8 });
    (horizontal, vertical)
}

/// Marks the player body.
#[derive(Clone, Copy, Debug, Default, PartialEq, Eq, Structural)]
pub struct Player;

/// Marks the player while it stands on something.
#[derive(Clone, Copy, Debug, Default, PartialEq, Eq, Structural)]
pub struct PlayerGrounded;

} // verus!
