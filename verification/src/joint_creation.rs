use vstd::prelude::*;

verus! {

/// The phase of the J-key runtime joint creation workflow; entities are id bits.
#[derive(Clone, Copy, Debug, PartialEq, Eq, Structural)]
pub enum JointCreationPhase {
    Inactive,
    AwaitingFirst,
    AwaitingSecond { first: u64 },
    ChoosingType { first: u64, second: u64 },
}

/// Runtime state for selecting two bodies and creating a joint between them.
#[derive(Clone, Copy, Debug, PartialEq, Eq, Structural)]
pub struct JointCreationState {
    pub phase: JointCreationPhase,
}

/// The five joint types supported by the runtime creation tool.
#[derive(Clone, Copy, Debug, PartialEq, Eq, Structural)]
pub enum RuntimeJointType {
    Fixed,
    Distance,
    Revolute,
    Prismatic,
    Spherical,
}

/// Commands for the runtime joint creation workflow.
#[derive(Clone, Copy, Debug, PartialEq, Eq, Structural)]
pub enum JointCreationAction {
    Choose(RuntimeJointType),
    Cancel,
}

/// A joint the workflow asks to create between two distinct bodies.
#[derive(Clone, Copy, Debug, PartialEq, Eq, Structural)]
pub struct JointRequest {
    pub joint_type: RuntimeJointType,
    pub first: u64,
    pub second: u64,
}

impl RuntimeJointType {
    pub open spec fn label_spec(self) -> Seq<char> {
        match self {
            RuntimeJointType::Fixed => "Fixed"@,
            RuntimeJointType::Distance => "Distance"@,
            RuntimeJointType::Revolute => "Revolute"@,
            RuntimeJointType::Prismatic => "Prismatic"@,
            RuntimeJointType::Spherical => "Spherical"@,
        }
    }

    /// The name shown on the type's button.
    pub fn label(self) -> (s: &'static str)
        ensures
            s@ == self.label_spec(),
    {
        match self {
            RuntimeJointType::Fixed => "Fixed",
            RuntimeJointType::Distance => "Distance",
            RuntimeJointType::Revolute => "Revolute",
            RuntimeJointType::Prismatic => "Prismatic",
            RuntimeJointType::Spherical => "Spherical",
        }
    }

    /// Every supported type, in button order.
    pub fn all() -> (types: Vec<RuntimeJointType>)
        ensures
            types@ == seq![
                RuntimeJointType::Fixed,
                RuntimeJointType::Distance,
                RuntimeJointType::Revolute,
                RuntimeJointType::Prismatic,
                RuntimeJointType::Spherical,
            ],
    {
        let types = vec![
            RuntimeJointType::Fixed,
            RuntimeJointType::Distance,
            RuntimeJointType::Revolute,
            RuntimeJointType::Prismatic,
            RuntimeJointType::Spherical,
        ];
        proof {
            assert(types@ =~= seq![
                RuntimeJointType::Fixed,
                RuntimeJointType::Distance,
                RuntimeJointType::Revolute,
                RuntimeJointType::Prismatic,
                RuntimeJointType::Spherical,
            ]);
        }
        types
    }

    /// The name given to a joint of this type created at runtime: `Runtime <label> Joint`.
    pub fn joint_name(self) -> (name: String)
        ensures
            name@ == "Runtime "@ + self.label_spec() + " Joint"@,
    {
        let mut name = String::from_str("Runtime ");
        name.append(self.label());
        name.append(" Joint");
        name
    }
}

/// The phase after the keyboard: Escape cancels; J starts a selection when idle and
/// abandons any selection in progress.
pub open spec fn keyboard_spec(phase: JointCreationPhase, escape: bool, j_key: bool) -> JointCreationPhase {
    if escape {
        JointCreationPhase::Inactive
    } else if j_key {
        match phase {
            JointCreationPhase::Inactive => JointCreationPhase::AwaitingFirst,
            _ => JointCreationPhase::Inactive,
        }
    } else {
        phase
    }
}

/// The phase after a left click on a physics body (`None` when the click selects
/// no body, or when it landed on one of the panel's buttons).
pub open spec fn select_spec(phase: JointCreationPhase, body: Option<u64>) -> JointCreationPhase {
    match body {
        None => phase,
        Some(entity) => match phase {
            JointCreationPhase::AwaitingFirst => JointCreationPhase::AwaitingSecond { first: entity },
            JointCreationPhase::AwaitingSecond { first } => if first != entity {
                JointCreationPhase::ChoosingType { first, second: entity }
            } else {
                phase
            },
            _ => phase,
        },
    }
}

impl JointCreationState {
    /// The idle state.
    pub fn new() -> (state: JointCreationState)
        ensures
            state.phase == JointCreationPhase::Inactive,
    {
        JointCreationState { phase: JointCreationPhase::Inactive }
    }

    /// Applies this frame's Escape and J presses.
    pub fn handle_keyboard(&mut self, escape: bool, j_key: bool)
        ensures
            final(self).phase == keyboard_spec(old(self).phase, escape, j_key),
            escape ==> final(self).phase == JointCreationPhase::Inactive,
            !escape && j_key && old(self).phase == JointCreationPhase::Inactive ==> final(self).phase
                == JointCreationPhase::AwaitingFirst,
            !escape && j_key && old(self).phase != JointCreationPhase::Inactive ==> final(self).phase
                == JointCreationPhase::Inactive,
            !escape && !j_key ==> final(self).phase == old(self).phase,
    {
        if escape {
            self.phase = JointCreationPhase::Inactive;
        } else if j_key {
            self.phase = match self.phase {
                JointCreationPhase::Inactive => JointCreationPhase::AwaitingFirst,
                _ => JointCreationPhase::Inactive,
            };
        }
    }

    /// Applies a left click: `clicked` is whether the left button was just pressed,
    /// `control_pressed` whether one of the panel's buttons took the click, and
    /// `hovered_body` the physics body under the cursor, if any.
    pub fn select_body(&mut self, clicked: bool, control_pressed: bool, hovered_body: Option<u64>)
        ensures
            final(self).phase == (if !clicked || control_pressed {
                old(self).phase
            } else {
                select_spec(old(self).phase, hovered_body)
            }),
    {
        if !clicked || control_pressed {
            return;
        }
        let entity = match hovered_body {
            None => {
                return;
            },
            Some(entity) => entity,
        };
        self.phase = match self.phase {
            JointCreationPhase::AwaitingFirst => JointCreationPhase::AwaitingSecond { first: entity },
            JointCreationPhase::AwaitingSecond { first } => {
                if first != entity {
                    JointCreationPhase::ChoosingType { first, second: entity }
                } else {
                    self.phase
                }
            },
            phase => phase,
        };
    }

    /// Applies one panel command. `bodies_found` tells whether both selected bodies
    /// still exist with a transform. Returns the joint to create, if any.
    pub fn apply_action(&mut self, action: JointCreationAction, bodies_found: bool) -> (request: Option<JointRequest>)
        ensures
            match action {
                JointCreationAction::Cancel => request.is_none() && final(self).phase == JointCreationPhase::Inactive,
                JointCreationAction::Choose(joint_type) => match old(self).phase {
                    JointCreationPhase::ChoosingType { first, second } => if first == second {
                        request.is_none() && final(self).phase == JointCreationPhase::AwaitingFirst
                    } else if !bodies_found {
                        request.is_none() && final(self).phase == JointCreationPhase::Inactive
                    } else {
                        request == Some(JointRequest { joint_type, first, second })
                            && final(self).phase == JointCreationPhase::Inactive
                    },
                    _ => request.is_none() && final(self).phase == old(self).phase,
                },
            },
    {
        match action {
            JointCreationAction::Cancel => {
                self.phase = JointCreationPhase::Inactive;
                None
            },
            JointCreationAction::Choose(joint_type) => {
                match self.phase {
                    JointCreationPhase::ChoosingType { first, second } => {
                        if first == second {
                            self.phase = JointCreationPhase::AwaitingFirst;
                            None
                        } else if !bodies_found {
                            self.phase = JointCreationPhase::Inactive;
                            None
                        } else {
                            self.phase = JointCreationPhase::Inactive;
                            Some(JointRequest { joint_type, first, second })
                        }
                    },
                    _ => None,
                }
            },
        }
    }

    /// The instruction shown for the current phase.
    pub fn status_text(&self) -> (s: &'static str)
        ensures
            s@ == match self.phase {
                JointCreationPhase::Inactive => "Press J to begin."@,
                JointCreationPhase::AwaitingFirst => "Select object A."@,
                JointCreationPhase::AwaitingSecond { .. } => "Select object B."@,
                JointCreationPhase::ChoosingType { .. } => "Choose a joint type."@,
            },
    {
        match self.phase {
            JointCreationPhase::Inactive => "Press J to begin.",
            JointCreationPhase::AwaitingFirst => "Select object A.",
            JointCreationPhase::AwaitingSecond { .. } => "Select object B.",
            JointCreationPhase::ChoosingType { .. } => "Choose a joint type.",
        }
    }

    /// Whether the joint-type buttons are shown: only while a type is being chosen.
    pub fn type_buttons_visible(&self) -> (visible: bool)
        ensures
            visible == (self.phase is ChoosingType),
    {
        match self.phase {
            JointCreationPhase::ChoosingType { .. } => true,
            _ => false,
        }
    }
}

/// Whether a phase that awaits the joint type names two different bodies.
pub open spec fn choice_is_distinct(phase: JointCreationPhase) -> bool {
    match phase {
        JointCreationPhase::ChoosingType { first, second } => first != second,
        _ => true,
    }
}

/// The workflow never asks to join a body to itself: every phase reachable by the
/// keyboard and by clicks keeps its two selected bodies distinct.
pub proof fn lemma_selected_bodies_are_distinct(phase: JointCreationPhase, body: Option<u64>, escape: bool, j_key: bool)
    requires
        choice_is_distinct(phase),
    ensures
        choice_is_distinct(select_spec(phase, body)),
        choice_is_distinct(keyboard_spec(phase, escape, j_key)),
{
}

/// Escape always ends the workflow; J starts a selection from idle and abandons any
/// selection in progress, whatever its phase; pressing J twice from idle returns to idle.
pub proof fn lemma_escape_and_j_toggle(phase: JointCreationPhase, j_key: bool)
    ensures
        keyboard_spec(phase, true, j_key) == JointCreationPhase::Inactive,
        phase != JointCreationPhase::Inactive ==> keyboard_spec(phase, false, true)
            == JointCreationPhase::Inactive,
        keyboard_spec(phase, false, false) == phase,
        keyboard_spec(keyboard_spec(JointCreationPhase::Inactive, false, true), false, true)
            == JointCreationPhase::Inactive,
        keyboard_spec(JointCreationPhase::Inactive, false, true) == JointCreationPhase::AwaitingFirst,
{
}

/// Clicking the same body twice does not advance to the type choice.
pub proof fn lemma_same_body_twice_waits(first: u64)
    ensures
        select_spec((JointCreationPhase::AwaitingSecond { first }), Some(first))
            == (JointCreationPhase::AwaitingSecond { first }),
{
}

} // verus!
