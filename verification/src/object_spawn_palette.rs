use vstd::prelude::*;

use crate::text::decimal;
use crate::text::push_decimal;

verus! {

/// The six reusable objects available from the free-sandbox developer palette.
#[derive(Clone, Copy, Debug, PartialEq, Eq, Structural)]
pub enum SpawnPreset {
    Cube,
    Ball,
    Plank,
    Barrel,
    HeavyBlock,
    BouncyBall,
}

/// The presets in palette order; the digit keys 1 to 6 pick them in this order.
pub open spec fn presets_spec() -> Seq<SpawnPreset> {
    seq![
        SpawnPreset::Cube,
        SpawnPreset::Ball,
        SpawnPreset::Plank,
        SpawnPreset::Barrel,
        SpawnPreset::HeavyBlock,
        SpawnPreset::BouncyBall,
    ]
}

impl SpawnPreset {
    pub open spec fn label_spec(self) -> Seq<char> {
        match self {
            SpawnPreset::Cube => "Cube"@,
            SpawnPreset::Ball => "Ball"@,
            SpawnPreset::Plank => "Plank"@,
            SpawnPreset::Barrel => "Barrel"@,
            SpawnPreset::HeavyBlock => "Heavy Block"@,
            SpawnPreset::BouncyBall => "Bouncy Ball"@,
        }
    }

    /// Every preset, in palette order.
    pub fn all() -> (presets: Vec<SpawnPreset>)
        ensures
            presets@ == presets_spec(),
    {
        let presets = vec![
            SpawnPreset::Cube,
            SpawnPreset::Ball,
            SpawnPreset::Plank,
            SpawnPreset::Barrel,
            SpawnPreset::HeavyBlock,
            SpawnPreset::BouncyBall,
        ];
        proof {
            assert(presets@ =~= presets_spec());
        }
        presets
    }

    /// The preset's display name.
    pub fn label(self) -> (s: &'static str)
        ensures
            s@ == self.label_spec(),
    {
        match self {
            SpawnPreset::Cube => "Cube",
            SpawnPreset::Ball => "Ball",
            SpawnPreset::Plank => "Plank",
            SpawnPreset::Barrel => "Barrel",
            SpawnPreset::HeavyBlock => "Heavy Block",
            SpawnPreset::BouncyBall => "Bouncy Ball",
        }
    }

    /// The name of a spawned object: `Spawned <label>`.
    pub fn spawned_name(self) -> (name: String)
        ensures
            name@ == "Spawned "@ + self.label_spec(),
    {
        let mut name = String::from_str("Spawned ");
        name.append(self.label());
        name
    }
}

/// Marks an object created by the free-sandbox spawn palette.
#[derive(Clone, Copy, Debug, PartialEq, Eq, Structural)]
pub struct SpawnedSandboxObject {
    pub preset: SpawnPreset,
}

/// Whether the Tab developer palette is currently open.
#[derive(Clone, Copy, Debug, PartialEq, Eq, Structural)]
pub struct SpawnPaletteState {
    pub open: bool,
}

/// The first digit key pressed among 1 to 6, as the preset it picks.
pub open spec fn first_digit_preset(digits: Seq<bool>) -> Option<SpawnPreset> {
    if digits[0] {
        Some(SpawnPreset::Cube)
    } else if digits[1] {
        Some(SpawnPreset::Ball)
    } else if digits[2] {
        Some(SpawnPreset::Plank)
    } else if digits[3] {
        Some(SpawnPreset::Barrel)
    } else if digits[4] {
        Some(SpawnPreset::HeavyBlock)
    } else if digits[5] {
        Some(SpawnPreset::BouncyBall)
    } else {
        None
    }
}

/// The preset chosen this frame: a pressed palette button wins; otherwise, while the
/// palette is open, the first digit key pressed among 1 to 6.
pub open spec fn chosen_preset_spec(button: Option<SpawnPreset>, open: bool, digits: Seq<bool>) -> Option<SpawnPreset> {
    if button.is_some() {
        button
    } else if open {
        first_digit_preset(digits)
    } else {
        None
    }
}

impl SpawnPaletteState {
    /// The palette starts closed.
    pub fn new() -> (state: SpawnPaletteState)
        ensures
            !state.open,
    {
        SpawnPaletteState { open: false }
    }

    /// Tab opens a closed palette and closes an open one.
    pub fn handle_tab(&mut self, tab_pressed: bool)
        ensures
            final(self).open == (if tab_pressed { !old(self).open } else { old(self).open }),
    {
        if tab_pressed {
            self.open = !self.open;
        }
    }

    /// The preset to spawn this frame, if any (see [`chosen_preset_spec`]).
    pub fn chosen_preset(&self, button: Option<SpawnPreset>, digits: [bool; 6]) -> (preset: Option<SpawnPreset>)
        ensures
            preset == chosen_preset_spec(button, self.open, digits@),
    {
        if button.is_some() {
            return button;
        }
        if !self.open {
            return None;
        }
        if digits[0] {
            Some(SpawnPreset::Cube)
        } else if digits[1] {
            Some(SpawnPreset::Ball)
        } else if digits[2] {
            Some(SpawnPreset::Plank)
        } else if digits[3] {
            Some(SpawnPreset::Barrel)
        } else if digits[4] {
            Some(SpawnPreset::HeavyBlock)
        } else if digits[5] {
            Some(SpawnPreset::BouncyBall)
        } else {
            None
        }
    }
}

/// The text of the n-th palette button (from zero): `<n + 1> — <label>`.
pub fn palette_button_text(index: usize, preset: SpawnPreset) -> (text: String)
    requires
        index < 6,
    ensures
        text@ == decimal((index + 1) as nat) + " \u{2014} "@ + preset.label_spec(),
{
    let mut text = String::new();
    push_decimal(&mut text, (index + 1) as u64);
    text.append(" \u{2014} ");
    text.append(preset.label());
    text
}

} // verus!
