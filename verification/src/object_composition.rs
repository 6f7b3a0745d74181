use vstd::prelude::*;

verus! {

/// The phase of the C-key object composition workflow; entities are id bits.
#[derive(Clone, Copy, Debug, PartialEq, Eq, Structural)]
pub enum CompositionPhase {
    Inactive,
    AwaitingFirst,
    AwaitingSecond { first: u64 },
}

/// Runtime state for selecting two physical objects to compose.
#[derive(Clone, Copy, Debug, PartialEq, Eq, Structural)]
pub struct CompositionState {
    pub phase: CompositionPhase,
}

/// Commands for the composition workflow.
#[derive(Clone, Copy, Debug, PartialEq, Eq, Structural)]
pub enum CompositionAction {
    Cancel,
}

/// The phase after the keyboard: Escape cancels; C starts a selection when idle and
/// abandons any selection in progress.
pub open spec fn composition_keyboard_spec(phase: CompositionPhase, escape: bool, c_key: bool) -> CompositionPhase {
    if escape {
        CompositionPhase::Inactive
    } else if c_key {
        match phase {
            CompositionPhase::Inactive => CompositionPhase::AwaitingFirst,
            _ => CompositionPhase::Inactive,
        }
    } else {
        phase
    }
}

/// A click on body `body` (`None`: no physics body under the cursor). The first
/// click picks the first body; a click on a different second body completes the
/// composition when both bodies are still found, and the workflow returns to idle.
pub open spec fn composition_select_spec(
    phase: CompositionPhase,
    body: Option<u64>,
    bodies_found: bool,
) -> (CompositionPhase, Option<(u64, u64)>) {
    match body {
        None => (phase, None),
        Some(entity) => match phase {
            CompositionPhase::AwaitingFirst => (CompositionPhase::AwaitingSecond { first: entity }, None),
            CompositionPhase::AwaitingSecond { first } => if first == entity {
                (phase, None)
            } else if bodies_found {
                (CompositionPhase::Inactive, Some((first, entity)))
            } else {
                (CompositionPhase::Inactive, None)
            },
            CompositionPhase::Inactive => (phase, None),
        },
    }
}

impl CompositionState {
    /// The idle state.
    pub fn new() -> (state: CompositionState)
        ensures
            state.phase == CompositionPhase::Inactive,
    {
        CompositionState { phase: CompositionPhase::Inactive }
    }

    /// Applies this frame's Escape and C presses.
    pub fn handle_keyboard(&mut self, escape: bool, c_key: bool)
        ensures
            final(self).phase == composition_keyboard_spec(old(self).phase, escape, c_key),
            escape ==> final(self).phase == CompositionPhase::Inactive,
            !escape && c_key && old(self).phase == CompositionPhase::Inactive ==> final(self).phase
                == CompositionPhase::AwaitingFirst,
            !escape && c_key && old(self).phase != CompositionPhase::Inactive ==> final(self).phase
                == CompositionPhase::Inactive,
            !escape && !c_key ==> final(self).phase == old(self).phase,
    {
        if escape {
            self.phase = CompositionPhase::Inactive;
        } else if c_key {
            self.phase = match self.phase {
                CompositionPhase::Inactive => CompositionPhase::AwaitingFirst,
                _ => CompositionPhase::Inactive,
            };
        }
    }

    /// Applies a left click on a physics body (see [`composition_select_spec`]).
    /// Returns the pair to fix together, first selection first, when the click
    /// completes a composition.
    pub fn select_body(
        &mut self,
        clicked: bool,
        control_pressed: bool,
        hovered_body: Option<u64>,
        bodies_found: bool,
    ) -> (joined: Option<(u64, u64)>)
        ensures
            (final(self).phase, joined) == (if !clicked || control_pressed {
                (old(self).phase, None)
            } else {
                composition_select_spec(old(self).phase, hovered_body, bodies_found)
            }),
    {
        if !clicked || control_pressed {
            return None;
        }
        let entity = match hovered_body {
            None => {
                return None;
            },
            Some(entity) => entity,
        };
        match self.phase {
            CompositionPhase::AwaitingFirst => {
                self.phase = CompositionPhase::AwaitingSecond { first: entity };
                None
            },
            CompositionPhase::AwaitingSecond { first } => {
                if first == entity {
                    None
                } else if !bodies_found {
                    self.phase = CompositionPhase::Inactive;
                    None
                } else {
                    self.phase = CompositionPhase::Inactive;
                    Some((first, entity))
                }
            },
            CompositionPhase::Inactive => None,
        }
    }

    /// Applies the panel's commands: any cancel ends the workflow.
    pub fn apply_actions(&mut self, actions: &Vec<CompositionAction>)
        ensures
            final(self).phase == (if actions@.len() > 0 {
                CompositionPhase::Inactive
            } else {
                old(self).phase
            }),
    {
        if actions.len() > 0 {
            self.phase = CompositionPhase::Inactive;
        }
    }

    /// The instruction shown for the current phase.
    pub fn status_text(&self) -> (s: &'static str)
        ensures
            s@ == match self.phase {
                CompositionPhase::Inactive => "Press C to begin."@,
                CompositionPhase::AwaitingFirst => "Select the plank or first support."@,
                CompositionPhase::AwaitingSecond { .. } => "Select the second object."@,
            },
    {
        match self.phase {
            CompositionPhase::Inactive => "Press C to begin.",
            CompositionPhase::AwaitingFirst => "Select the plank or first support.",
            CompositionPhase::AwaitingSecond { .. } => "Select the second object.",
        }
    }
}

/// A composition always joins two different bodies, the first one clicked first,
/// and completing it always returns the workflow to idle.
/// Escape ends the composition workflow from every phase, whether or not C is pressed;
/// C starts a selection from idle and abandons one in progress; no key changes nothing.
pub proof fn lemma_escape_ends_composition(phase: CompositionPhase, c_key: bool)
    ensures
        composition_keyboard_spec(phase, true, c_key) == CompositionPhase::Inactive,
        composition_keyboard_spec(CompositionPhase::Inactive, false, true) == CompositionPhase::AwaitingFirst,
        phase != CompositionPhase::Inactive ==> composition_keyboard_spec(phase, false, true)
            == CompositionPhase::Inactive,
        composition_keyboard_spec(phase, false, false) == phase,
{
}

pub proof fn lemma_composition_joins_distinct_bodies(
    phase: CompositionPhase,
    body: Option<u64>,
    bodies_found: bool,
)
    ensures
        composition_select_spec(phase, body, bodies_found).1 matches Some(pair) ==> (pair.0 != pair.1
            && composition_select_spec(phase, body, bodies_found).0 == CompositionPhase::Inactive
            && phase == (CompositionPhase::AwaitingSecond { first: pair.0 })
            && body == Some(pair.1)),
{
}

} // verus!
