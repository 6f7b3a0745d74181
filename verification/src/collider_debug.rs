use vstd::prelude::*;

verus! {

/// Whether Avian's collider wireframes are drawn.
#[derive(Clone, Copy, Debug, Default, PartialEq, Eq, Structural)]
pub struct ColliderDebugSettings {
    pub enabled: bool,
}

/// The debug colours in use: the collider, joint anchor and joint separation colours are
/// all shown exactly while debug drawing is enabled.
#[derive(Clone, Copy, Debug, PartialEq, Eq, Structural)]
pub struct DebugColors {
    pub collider: bool,
    pub joint_anchor: bool,
    pub joint_separation: bool,
}

impl ColliderDebugSettings {
    /// Debug drawing starts off, leaving only the ordinary meshes.
    pub fn new() -> (settings: ColliderDebugSettings)
        ensures
            !settings.enabled,
    {
        ColliderDebugSettings { enabled: false }
    }

    /// F1 flips debug drawing; returns which debug colours are now shown.
    pub fn handle_f1(&mut self, f1_just_pressed: bool) -> (colors: Option<DebugColors>)
        ensures
            final(self).enabled == (old(self).enabled != f1_just_pressed),
            f1_just_pressed ==> colors == Some(
                DebugColors {
                    collider: final(self).enabled,
                    joint_anchor: final(self).enabled,
                    joint_separation: final(self).enabled,
                },
            ),
            !f1_just_pressed ==> colors.is_none(),
    {
        if !f1_just_pressed {
            return None;
        }
        self.enabled = !self.enabled;
        Some(
            DebugColors {
                collider: self.enabled,
                joint_anchor: self.enabled,
                joint_separation: self.enabled,
            },
        )
    }
}

} // verus!
