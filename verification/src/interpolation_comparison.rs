use vstd::prelude::*;

verus! {

/// How the fast comparison body is eased between physics steps when drawn.
#[derive(Clone, Copy, Debug, PartialEq, Eq, Structural)]
pub enum TransformDisplayMode {
    /// Drawn at the raw physics pose.
    Off,
    Interpolation,
    Extrapolation,
}

impl Default for TransformDisplayMode {
    fn default() -> (mode: TransformDisplayMode)
        ensures
            mode == TransformDisplayMode::Off,
    {
        TransformDisplayMode::Off
    }
}

impl TransformDisplayMode {
    pub open spec fn next_spec(self) -> TransformDisplayMode {
        match self {
            TransformDisplayMode::Off => TransformDisplayMode::Interpolation,
            TransformDisplayMode::Interpolation => TransformDisplayMode::Extrapolation,
            TransformDisplayMode::Extrapolation => TransformDisplayMode::Off,
        }
    }

    pub open spec fn label_spec(self) -> Seq<char> {
        match self {
            TransformDisplayMode::Off => "NONE"@,
            TransformDisplayMode::Interpolation => "INTERPOLATION"@,
            TransformDisplayMode::Extrapolation => "EXTRAPOLATION"@,
        }
    }

    /// The mode the V key switches to: none, interpolation, extrapolation, and around.
    pub fn next(self) -> (next: TransformDisplayMode)
        ensures
            next == self.next_spec(),
    {
        match self {
            TransformDisplayMode::Off => TransformDisplayMode::Interpolation,
            TransformDisplayMode::Interpolation => TransformDisplayMode::Extrapolation,
            TransformDisplayMode::Extrapolation => TransformDisplayMode::Off,
        }
    }

    /// The mode's name in the status line.
    pub fn label(self) -> (s: &'static str)
        ensures
            s@ == self.label_spec(),
    {
        match self {
            TransformDisplayMode::Off => "NONE",
            TransformDisplayMode::Interpolation => "INTERPOLATION",
            TransformDisplayMode::Extrapolation => "EXTRAPOLATION",
        }
    }
}

/// Three presses of V bring the display mode back to where it was, and no fewer do.
pub proof fn lemma_mode_cycle_has_period_three(mode: TransformDisplayMode)
    ensures
        mode.next_spec().next_spec().next_spec() == mode,
        mode.next_spec() != mode,
        mode.next_spec().next_spec() != mode,
{
}

/// The easing components the comparison body carries in a mode.
#[derive(Clone, Copy, Debug, PartialEq, Eq, Structural)]
pub struct EasingComponents {
    pub interpolation: bool,
    pub extrapolation: bool,
}

/// The easing components of the comparison body after the mode is applied: the old ones
/// are removed and at most the one the mode names is added.
pub fn easing_components(mode: TransformDisplayMode) -> (components: EasingComponents)
    ensures
        components.interpolation == (mode == TransformDisplayMode::Interpolation),
        components.extrapolation == (mode == TransformDisplayMode::Extrapolation),
        !(components.interpolation && components.extrapolation),
{
    match mode {
        TransformDisplayMode::Off => EasingComponents { interpolation: false, extrapolation: false },
        TransformDisplayMode::Interpolation => EasingComponents {
            interpolation: true,
            extrapolation: false,
        },
        TransformDisplayMode::Extrapolation => EasingComponents {
            interpolation: false,
            extrapolation: true,
        },
    }
}

/// The comparison status text for a mode.
pub open spec fn comparison_status_spec(mode: TransformDisplayMode) -> Seq<char> {
    "FAST MOTION: BLUE = RAW REFERENCE  |  ORANGE = "@ + mode.label_spec()
        + "\nV: CYCLE NONE / INTERPOLATION / EXTRAPOLATION"@
}

/// The two-line status of the comparison.
pub fn comparison_status(mode: TransformDisplayMode) -> (text: String)
    ensures
        text@ == comparison_status_spec(mode),
{
    let mut text = String::from_str("FAST MOTION: BLUE = RAW REFERENCE  |  ORANGE = ");
    text.append(mode.label());
    text.append("\nV: CYCLE NONE / INTERPOLATION / EXTRAPOLATION");
    text
}

} // verus!
