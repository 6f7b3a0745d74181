use vstd::prelude::*;

use crate::cursor_hover::HoverReachability;

verus! {

/// The body under the cursor, as the grab logic sees it.
#[derive(Clone, Copy, Debug, PartialEq, Eq, Structural)]
pub struct GrabCandidate {
    pub entity: u64,
    pub reachability: HoverReachability,
    /// Whether the body is a dynamic rigid body; `None` when it has no position or body.
    pub dynamic: Option<bool>,
}

/// A grab may start on a hovered, dynamic, reachable body while the cursor casts a ray.
pub open spec fn grab_target_spec(hover: Option<GrabCandidate>, cursor_ray: bool) -> Option<u64> {
    match hover {
        Some(c) => if cursor_ray && c.dynamic == Some(true) && c.reachability
            == HoverReachability::Reachable {
            Some(c.entity)
        } else {
            None
        },
        None => None,
    }
}

/// The body a left click grabs, if any (see [`grab_target_spec`]).
pub fn grab_target(hover: Option<GrabCandidate>, cursor_ray: bool) -> (target: Option<u64>)
    ensures
        target == grab_target_spec(hover, cursor_ray),
{
    match hover {
        Some(c) => {
            if cursor_ray && c.dynamic == Some(true) && c.reachability.is_reachable() {
                Some(c.entity)
            } else {
                None
            }
        },
        None => None,
    }
}

/// A throw is asked for by the right button or the space bar.
pub fn throw_requested(right_just_pressed: bool, space_just_pressed: bool, space_pressed: bool) -> (requested: bool)
    ensures
        requested == (right_just_pressed || space_just_pressed || space_pressed),
{
    right_just_pressed || space_just_pressed || space_pressed
}

/// What happens to a held body this frame.
#[derive(Clone, Copy, Debug, PartialEq, Eq, Structural)]
pub enum HoldDecision {
    /// Nothing is held.
    Idle,
    /// Keep holding and move the spring target with the cursor.
    Hold,
    /// Let go of the body.
    Release,
    /// Move the target, then let go and add the throw velocity.
    Throw,
}

/// The hold rule: a held body is let go when the player is too far from it (or it is
/// gone) or the left button is up; otherwise it is thrown when a throw is asked for, and
/// held on otherwise.
pub open spec fn hold_decision_spec(
    holding: bool,
    in_reach: bool,
    left_pressed: bool,
    throw: bool,
) -> HoldDecision {
    if !holding {
        HoldDecision::Idle
    } else if !in_reach || !left_pressed {
        HoldDecision::Release
    } else if throw {
        HoldDecision::Throw
    } else {
        HoldDecision::Hold
    }
}

/// The grabbed body, by entity; the spring target itself lives with the renderer.
#[derive(Clone, Copy, Debug, PartialEq, Eq, Structural)]
pub struct GrabState {
    pub grab: Option<u64>,
}

impl GrabState {
    /// Nothing is grabbed at first.
    pub fn new() -> (state: GrabState)
        ensures
            state.grab.is_none(),
    {
        GrabState { grab: None }
    }

    /// Lets go of the held body, returning it.
    pub fn release(&mut self) -> (released: Option<u64>)
        ensures
            released == old(self).grab,
            final(self).grab.is_none(),
    {
        let released = self.grab;
        self.grab = None;
        released
    }

    /// The left-button press: any held body is let go, and the press grabs `target`
    /// (see [`grab_target`]) when there is one. Returns the body let go.
    pub fn press(&mut self, left_just_pressed: bool, target: Option<u64>) -> (released: Option<u64>)
        ensures
            left_just_pressed ==> released == old(self).grab && final(self).grab == target,
            !left_just_pressed ==> released.is_none() && final(self).grab == old(self).grab,
    {
        if !left_just_pressed {
            return None;
        }
        let released = self.release();
        self.grab = target;
        released
    }

    /// The rest of the frame, once the press is handled: decides what happens to the held
    /// body and lets go of it on a release or a throw. `in_reach` is false when the
    /// player is farther than the grab distance from the body or the body is gone, and
    /// true when there is no player.
    pub fn hold(&mut self, in_reach: bool, left_pressed: bool, throw: bool) -> (decision: HoldDecision)
        ensures
            decision == hold_decision_spec(old(self).grab.is_some(), in_reach, left_pressed, throw),
            final(self).grab == (if decision == HoldDecision::Hold {
                old(self).grab
            } else {
                None
            }),
    {
        if self.grab.is_none() {
            return HoldDecision::Idle;
        }
        if !in_reach || !left_pressed {
            self.grab = None;
            return HoldDecision::Release;
        }
        if throw {
            self.grab = None;
            HoldDecision::Throw
        } else {
            HoldDecision::Hold
        }
    }
}

/// Only a hovered, dynamic, reachable body can be grabbed, and a grab survives a frame
/// only while the left button stays down, the body stays in reach and no throw is asked
/// for; a throw always lets go.
pub proof fn lemma_grab_rules(
    hover: Option<GrabCandidate>,
    cursor_ray: bool,
    holding: bool,
    in_reach: bool,
    left_pressed: bool,
    throw: bool,
)
    ensures
        grab_target_spec(hover, cursor_ray).is_some() ==> {
            &&& cursor_ray
            &&& hover.is_some()
            &&& hover.unwrap().entity == grab_target_spec(hover, cursor_ray).unwrap()
            &&& hover.unwrap().dynamic == Some(true)
            &&& hover.unwrap().reachability == HoverReachability::Reachable
        },
        hold_decision_spec(holding, in_reach, left_pressed, throw) == HoldDecision::Hold
            <==> holding && in_reach && left_pressed && !throw,
{
}

} // verus!
