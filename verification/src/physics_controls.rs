use vstd::prelude::*;

use crate::text::decimal;
use crate::text::push_decimal;

verus! {

/// The physics control keys pressed this frame: P, N, the digits 1 to 4 (speed) and the
/// digits 5 to 8 (substeps).
#[derive(Clone, Copy, Debug)]
pub struct PhysicsControlKeys {
    pub pause: bool,
    pub step: bool,
    pub speed_digits: [bool; 4],
    pub substep_digits: [bool; 4],
}

/// What the keys ask of the physics clock this frame. Speeds are in quarters of real
/// time: the keys 1 to 4 give 1, 2, 4 and 8 quarters (0.25x, 0.5x, 1x, 2x).
#[derive(Clone, Copy, Debug, PartialEq, Eq, Structural)]
pub struct PhysicsControlCommand {
    pub speed_quarters: Option<u32>,
    pub substeps: Option<u32>,
    pub toggle_pause: bool,
    pub step: bool,
}

/// The setting of the first pressed key of four that select 1, 2, 4 and 8.
pub open spec fn first_setting_spec(keys: Seq<bool>) -> Option<u32> {
    if keys[0] {
        Some(1u32)
    } else if keys[1] {
        Some(2u32)
    } else if keys[2] {
        Some(4u32)
    } else if keys[3] {
        Some(8u32)
    } else {
        None
    }
}

fn first_setting(keys: [bool; 4]) -> (setting: Option<u32>)
    ensures
        setting == first_setting_spec(keys@),
{
    if keys[0] {
        Some(1)
    } else if keys[1] {
        Some(2)
    } else if keys[2] {
        Some(4)
    } else if keys[3] {
        Some(8)
    } else {
        None
    }
}

/// The command the pressed keys give: the first pressed speed key and the first pressed
/// substep key win.
pub fn physics_control_command(keys: PhysicsControlKeys) -> (command: PhysicsControlCommand)
    ensures
        command.speed_quarters == first_setting_spec(keys.speed_digits@),
        command.substeps == first_setting_spec(keys.substep_digits@),
        command.toggle_pause == keys.pause,
        command.step == keys.step,
{
    PhysicsControlCommand {
        speed_quarters: first_setting(keys.speed_digits),
        substeps: first_setting(keys.substep_digits),
        toggle_pause: keys.pause,
        step: keys.step,
    }
}

/// The physics clock as the controls see it.
#[derive(Clone, Copy, Debug, PartialEq, Eq, Structural)]
pub struct PhysicsClock {
    pub paused: bool,
    /// The relative speed, in quarters of real time.
    pub speed_quarters: u32,
    pub substeps: u32,
}

/// The clock after a command: speed and substeps are set first, then the pause is
/// toggled, and a single step leaves the clock paused.
pub open spec fn apply_command_spec(clock: PhysicsClock, command: PhysicsControlCommand) -> PhysicsClock {
    let toggled = if command.toggle_pause {
        !clock.paused
    } else {
        clock.paused
    };
    PhysicsClock {
        paused: toggled || command.step,
        speed_quarters: match command.speed_quarters {
            Some(q) => q,
            None => clock.speed_quarters,
        },
        substeps: match command.substeps {
            Some(n) => n,
            None => clock.substeps,
        },
    }
}

impl PhysicsClock {
    /// A running clock at real time with Avian's six substeps.
    pub fn new() -> (clock: PhysicsClock)
        ensures
            !clock.paused,
            clock.speed_quarters == 4,
            clock.substeps == 6,
    {
        PhysicsClock { paused: false, speed_quarters: 4, substeps: 6 }
    }

    /// Applies the command; returns whether one fixed step must be run now.
    pub fn apply(&mut self, command: PhysicsControlCommand) -> (run_step: bool)
        ensures
            *final(self) == apply_command_spec(*old(self), command),
            run_step == command.step,
    {
        if let Some(q) = command.speed_quarters {
            self.speed_quarters = q;
        }
        if let Some(n) = command.substeps {
            self.substeps = n;
        }
        if command.toggle_pause {
            self.paused = !self.paused;
        }
        if command.step {
            self.paused = true;
        }
        command.step
    }
}

/// Pausing twice resumes a clock that ran, a single step always leaves the clock paused,
/// and a command with no speed or substep key keeps both.
pub proof fn lemma_pause_toggle_and_step(clock: PhysicsClock, command: PhysicsControlCommand)
    ensures
        ({
            let toggle = PhysicsControlCommand {
                speed_quarters: None,
                substeps: None,
                toggle_pause: true,
                step: false,
            };
            apply_command_spec(apply_command_spec(clock, toggle), toggle) == clock
        }),
        command.step ==> apply_command_spec(clock, command).paused,
        command.speed_quarters.is_none() ==> apply_command_spec(clock, command).speed_quarters
            == clock.speed_quarters,
        command.substeps.is_none() ==> apply_command_spec(clock, command).substeps
            == clock.substeps,
{
}

/// A speed given in quarters, as a decimal number: `0.25`, `0.5`, `1`, `2`, `1.75`.
pub open spec fn speed_text_spec(quarters: nat) -> Seq<char> {
    decimal(quarters / 4) + (if quarters % 4 == 1 {
        ".25"@
    } else if quarters % 4 == 2 {
        ".5"@
    } else if quarters % 4 == 3 {
        ".75"@
    } else {
        ""@
    })
}

/// The key help that ends the status line.
pub open spec fn controls_help_spec() -> Seq<char> {
    "1-4: SPEED  5:1 6:2 7:4 8:8 SUBSTEPS  P: PAUSE/RESUME  N: STEP"@
}

/// The status line of the physics controls.
pub open spec fn status_text_spec(clock: PhysicsClock) -> Seq<char> {
    "PHYSICS: "@ + (if clock.paused {
        "PAUSED"@
    } else {
        "RUNNING"@
    }) + "  |  SPEED: "@ + speed_text_spec(clock.speed_quarters as nat) + "x  |  SUBSTEPS: "@
        + decimal(clock.substeps as nat) + "  |  "@ + controls_help_spec()
}

impl PhysicsClock {
    /// The status line, such as
    /// `PHYSICS: RUNNING  |  SPEED: 1x  |  SUBSTEPS: 6  |  1-4: SPEED ...`.
    pub fn status_text(&self) -> (text: String)
        ensures
            text@ == status_text_spec(*self),
    {
        let mut text = String::from_str("PHYSICS: ");
        if self.paused {
            text.append("PAUSED");
        } else {
            text.append("RUNNING");
        }
        text.append("  |  SPEED: ");
        push_decimal(&mut text, (self.speed_quarters / 4) as u64);
        let rest = self.speed_quarters % 4;
        if rest == 1 {
            text.append(".25");
        } else if rest == 2 {
            text.append(".5");
        } else if rest == 3 {
            text.append(".75");
        } else {
            text.append("");
        }
        text.append("x  |  SUBSTEPS: ");
        push_decimal(&mut text, self.substeps as u64);
        text.append("  |  ");
        text.append("1-4: SPEED  5:1 6:2 7:4 8:8 SUBSTEPS  P: PAUSE/RESUME  N: STEP");
        text
    }
}

} // verus!
