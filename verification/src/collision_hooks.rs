use vstd::prelude::*;

use crate::collision_layers::{demo_layers, LayerMasks, SandboxLayer, GHOST_BIT, OBJECTS_BIT};

verus! {

/// State of the collision-hook demonstration.
#[derive(Clone, Copy, Debug, PartialEq, Eq, Structural)]
pub struct CollisionHookDemoState {
    /// When active, the ghost is allowed to collide with the ordinary body.
    pub activated: bool,
}

/// Controls exposed by the collision-hook station.
#[derive(Clone, Copy, Debug, PartialEq, Eq, Structural)]
pub enum CollisionHookDemoAction {
    ToggleActivation,
    ResetGhost,
}

/// The demonstration markers carried by one collider of a candidate pair.
#[derive(Clone, Copy, Debug, PartialEq, Eq, Structural)]
pub struct HookMarkers {
    pub is_ghost: bool,
    pub is_ordinary: bool,
}

/// Whether a pair is the marked ghost/ordinary pair, in either order.
pub open spec fn is_demo_pair(first: HookMarkers, second: HookMarkers) -> bool {
    (first.is_ghost && second.is_ordinary) || (second.is_ghost && first.is_ordinary)
}

/// The sandbox's pair filter: all pairs are accepted except the marked
/// ghost/ordinary pair while the demonstration is inactive.
pub fn filter_pairs(state: CollisionHookDemoState, first: HookMarkers, second: HookMarkers) -> (accept: bool)
    ensures
        accept == (!is_demo_pair(first, second) || state.activated),
{
    let is_demo_pair = (first.is_ghost && second.is_ordinary) || (second.is_ghost && first.is_ordinary);
    !is_demo_pair || state.activated
}

impl CollisionHookDemoState {
    /// The inactive demonstration.
    pub fn new() -> (state: CollisionHookDemoState)
        ensures
            !state.activated,
    {
        CollisionHookDemoState { activated: false }
    }

    /// Applies one control; returns whether the ghost must be put back at its start.
    pub fn apply(&mut self, action: CollisionHookDemoAction) -> (reset_ghost: bool)
        ensures
            final(self).activated == (if action == CollisionHookDemoAction::ToggleActivation {
                !old(self).activated
            } else {
                old(self).activated
            }),
            reset_ghost,
    {
        match action {
            CollisionHookDemoAction::ToggleActivation => {
                self.activated = !self.activated;
                true
            },
            CollisionHookDemoAction::ResetGhost => true,
        }
    }

    /// The status line of the station panel.
    pub fn status_text(&self) -> (s: &'static str)
        ensures
            s@ == (if self.activated {
                "Hook: ACTIVE \u{2014} GHOST collides"@
            } else {
                "Hook: INACTIVE \u{2014} GHOST passes through"@
            }),
    {
        if self.activated {
            "Hook: ACTIVE \u{2014} GHOST collides"
        } else {
            "Hook: INACTIVE \u{2014} GHOST passes through"
        }
    }
}

/// The ordinary body of the demonstration: an object that only accepts ghosts.
pub fn hook_ordinary_layers() -> (layers: LayerMasks)
    ensures
        layers.memberships == OBJECTS_BIT,
        layers.filters == GHOST_BIT,
{
    demo_layers(SandboxLayer::Objects, SandboxLayer::GhostLayer)
}

/// The ghost of the demonstration: a ghost that only accepts objects.
pub fn hook_ghost_layers() -> (layers: LayerMasks)
    ensures
        layers.memberships == GHOST_BIT,
        layers.filters == OBJECTS_BIT,
{
    demo_layers(SandboxLayer::GhostLayer, SandboxLayer::Objects)
}

/// The hook only ever rejects the marked pair, in either order, and only while
/// inactive; every other pair is accepted.
pub proof fn lemma_hook_is_local_and_symmetric(state: CollisionHookDemoState, first: HookMarkers, second: HookMarkers)
    ensures
        is_demo_pair(first, second) == is_demo_pair(second, first),
        !is_demo_pair(first, second) ==> (!is_demo_pair(first, second) || state.activated),
        is_demo_pair(first, second) ==> ((!is_demo_pair(first, second) || state.activated) == state.activated),
{
}

} // verus!
