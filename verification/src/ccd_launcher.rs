use vstd::prelude::*;

use crate::text::decimal;
use crate::text::push_decimal;

verus! {

/// The velocity presets used by the linear CCD experiment.
#[derive(Clone, Copy, Debug, PartialEq, Eq, Structural)]
pub enum LauncherSpeed {
    Low,
    Medium,
    High,
    Extreme,
}

impl LauncherSpeed {
    pub open spec fn speed_spec(self) -> u32 {
        match self {
            LauncherSpeed::Low => 10,
            LauncherSpeed::Medium => 50,
            LauncherSpeed::High => 100,
            LauncherSpeed::Extreme => 500,
        }
    }

    /// Every speed shown by the launcher, from low to extreme.
    pub fn all() -> (speeds: Vec<LauncherSpeed>)
        ensures
            speeds@ == seq![LauncherSpeed::Low, LauncherSpeed::Medium, LauncherSpeed::High, LauncherSpeed::Extreme],
    {
        let speeds = vec![LauncherSpeed::Low, LauncherSpeed::Medium, LauncherSpeed::High, LauncherSpeed::Extreme];
        proof {
            assert(speeds@ =~= seq![LauncherSpeed::Low, LauncherSpeed::Medium, LauncherSpeed::High, LauncherSpeed::Extreme]);
        }
        speeds
    }

    /// The launch speed in metres per second; every preset is a whole number.
    pub fn meters_per_second(self) -> (speed: u32)
        ensures
            speed == self.speed_spec(),
    {
        match self {
            LauncherSpeed::Low => 10,
            LauncherSpeed::Medium => 50,
            LauncherSpeed::High => 100,
            LauncherSpeed::Extreme => 500,
        }
    }

    /// The button text: the speed in metres per second.
    pub fn label(self) -> (s: &'static str)
        ensures
            s@ == decimal(self.speed_spec() as nat),
    {
        proof {
            reveal_with_fuel(decimal, 4);
            reveal_strlit("10");
            reveal_strlit("50");
            reveal_strlit("100");
            reveal_strlit("500");
            assert("10"@ =~= decimal(10));
            assert("50"@ =~= decimal(50));
            assert("100"@ =~= decimal(100));
            assert("500"@ =~= decimal(500));
        }
        match self {
            LauncherSpeed::Low => "10",
            LauncherSpeed::Medium => "50",
            LauncherSpeed::High => "100",
            LauncherSpeed::Extreme => "500",
        }
    }
}

/// The collision-detection mode applied to the next launched body.
#[derive(Clone, Copy, Debug, PartialEq, Eq, Structural)]
pub enum LauncherCcdMode {
    NoCcd,
    Speculative,
    SweptLinear,
    SweptNonLinear,
}

impl LauncherCcdMode {
    pub open spec fn label_spec(self) -> Seq<char> {
        match self {
            LauncherCcdMode::NoCcd => "NONE"@,
            LauncherCcdMode::Speculative => "SPECULATIVE"@,
            LauncherCcdMode::SweptLinear => "SWEPT LINEAR"@,
            LauncherCcdMode::SweptNonLinear => "SWEPT NONLINEAR"@,
        }
    }

    /// Every mode, in button order.
    pub fn all() -> (modes: Vec<LauncherCcdMode>)
        ensures
            modes@ == seq![
                LauncherCcdMode::NoCcd,
                LauncherCcdMode::Speculative,
                LauncherCcdMode::SweptLinear,
                LauncherCcdMode::SweptNonLinear,
            ],
    {
        let modes = vec![
            LauncherCcdMode::NoCcd,
            LauncherCcdMode::Speculative,
            LauncherCcdMode::SweptLinear,
            LauncherCcdMode::SweptNonLinear,
        ];
        proof {
            assert(modes@ =~= seq![
                LauncherCcdMode::NoCcd,
                LauncherCcdMode::Speculative,
                LauncherCcdMode::SweptLinear,
                LauncherCcdMode::SweptNonLinear,
            ]);
        }
        modes
    }

    /// The mode's button text.
    pub fn label(self) -> (s: &'static str)
        ensures
            s@ == self.label_spec(),
    {
        match self {
            LauncherCcdMode::NoCcd => "NONE",
            LauncherCcdMode::Speculative => "SPECULATIVE",
            LauncherCcdMode::SweptLinear => "SWEPT LINEAR",
            LauncherCcdMode::SweptNonLinear => "SWEPT NONLINEAR",
        }
    }
}

/// The observed result of a fired projectile.
#[derive(Clone, Copy, Debug, PartialEq, Eq, Structural)]
pub enum LauncherOutcome {
    Idle,
    InFlight,
    Collided,
    Tunneled,
}

impl LauncherOutcome {
    pub open spec fn label_spec(self) -> Seq<char> {
        match self {
            LauncherOutcome::Idle => "READY"@,
            LauncherOutcome::InFlight => "IN FLIGHT"@,
            LauncherOutcome::Collided => "COLLIDED"@,
            LauncherOutcome::Tunneled => "TUNNELED"@,
        }
    }

    /// The outcome's status word.
    pub fn label(self) -> (s: &'static str)
        ensures
            s@ == self.label_spec(),
    {
        match self {
            LauncherOutcome::Idle => "READY",
            LauncherOutcome::InFlight => "IN FLIGHT",
            LauncherOutcome::Collided => "COLLIDED",
            LauncherOutcome::Tunneled => "TUNNELED",
        }
    }
}

/// Current launcher selection and the last recorded launch result.
#[derive(Clone, Copy, Debug, PartialEq, Eq, Structural)]
pub struct CcdLauncherStatus {
    pub speed: LauncherSpeed,
    pub mode: LauncherCcdMode,
    pub outcome: LauncherOutcome,
    pub frames: u32,
}

/// Commands exposed by the launcher controls.
#[derive(Clone, Copy, Debug, PartialEq, Eq, Structural)]
pub enum CcdLauncherAction {
    SetSpeed(LauncherSpeed),
    SetMode(LauncherCcdMode),
    Launch,
    Reset,
}

/// What the world must do after a launcher command.
#[derive(Clone, Copy, Debug, PartialEq, Eq, Structural)]
pub enum LauncherEffect {
    /// Nothing beyond the status change.
    Nothing,
    /// Remove any projectile, then fire a new one at this speed with this mode.
    Fire { speed: LauncherSpeed, mode: LauncherCcdMode },
    /// Remove any projectile.
    Clear,
}

/// What one frame of observation reports about the projectile in flight.
#[derive(Clone, Copy, Debug, PartialEq, Eq, Structural)]
pub struct LaunchObservation {
    /// Whether exactly one wall and exactly one projectile exist.
    pub present: bool,
    /// Whether the contact graph holds the wall/projectile pair.
    pub touching_wall: bool,
    /// Whether the projectile's centre has passed the far face of the wall.
    pub past_wall: bool,
}

/// The status after one command.
pub open spec fn apply_spec(status: CcdLauncherStatus, action: CcdLauncherAction) -> CcdLauncherStatus {
    match action {
        CcdLauncherAction::SetSpeed(speed) => CcdLauncherStatus { speed, ..status },
        CcdLauncherAction::SetMode(mode) => CcdLauncherStatus { mode, ..status },
        CcdLauncherAction::Launch => CcdLauncherStatus { outcome: LauncherOutcome::InFlight, frames: 0, ..status },
        CcdLauncherAction::Reset => CcdLauncherStatus { outcome: LauncherOutcome::Idle, frames: 0, ..status },
    }
}

/// The status after one frame: a flight counts frames (saturating) and ends in a
/// collision when the projectile touches the wall, or as tunnelled once it is past it.
pub open spec fn observe_spec(status: CcdLauncherStatus, seen: LaunchObservation) -> CcdLauncherStatus {
    if status.outcome != LauncherOutcome::InFlight {
        status
    } else {
        let frames = if status.frames == u32::MAX { u32::MAX } else { (status.frames + 1) as u32 };
        let outcome = if !seen.present {
            LauncherOutcome::InFlight
        } else if seen.touching_wall {
            LauncherOutcome::Collided
        } else if seen.past_wall {
            LauncherOutcome::Tunneled
        } else {
            LauncherOutcome::InFlight
        };
        CcdLauncherStatus { outcome, frames, ..status }
    }
}

impl CcdLauncherStatus {
    /// The starting selection: low speed, discrete detection, nothing fired.
    pub fn new() -> (status: CcdLauncherStatus)
        ensures
            status == (CcdLauncherStatus {
                speed: LauncherSpeed::Low,
                mode: LauncherCcdMode::NoCcd,
                outcome: LauncherOutcome::Idle,
                frames: 0,
            }),
    {
        CcdLauncherStatus {
            speed: LauncherSpeed::Low,
            mode: LauncherCcdMode::NoCcd,
            outcome: LauncherOutcome::Idle,
            frames: 0,
        }
    }

    /// Applies one command and returns what the world must do.
    pub fn apply(&mut self, action: CcdLauncherAction) -> (effect: LauncherEffect)
        ensures
            *final(self) == apply_spec(*old(self), action),
            effect == match action {
                CcdLauncherAction::Launch => LauncherEffect::Fire { speed: old(self).speed, mode: old(self).mode },
                CcdLauncherAction::Reset => LauncherEffect::Clear,
                _ => LauncherEffect::Nothing,
            },
    {
        match action {
            CcdLauncherAction::SetSpeed(speed) => {
                self.speed = speed;
                LauncherEffect::Nothing
            },
            CcdLauncherAction::SetMode(mode) => {
                self.mode = mode;
                LauncherEffect::Nothing
            },
            CcdLauncherAction::Launch => {
                self.outcome = LauncherOutcome::InFlight;
                self.frames = 0;
                LauncherEffect::Fire { speed: self.speed, mode: self.mode }
            },
            CcdLauncherAction::Reset => {
                self.outcome = LauncherOutcome::Idle;
                self.frames = 0;
                LauncherEffect::Clear
            },
        }
    }

    /// Records one frame of the projectile's flight.
    pub fn observe(&mut self, seen: LaunchObservation)
        ensures
            *final(self) == observe_spec(*old(self), seen),
    {
        if self.outcome != LauncherOutcome::InFlight {
            return;
        }
        self.frames = self.frames.saturating_add(1);
        if !seen.present {
            return;
        }
        if seen.touching_wall {
            self.outcome = LauncherOutcome::Collided;
        } else if seen.past_wall {
            self.outcome = LauncherOutcome::Tunneled;
        }
    }

    /// The status line: `<outcome> · <speed> m/s · <mode> · frame <frames>`.
    pub fn status_text(&self) -> (s: String)
        ensures
            s@ == self.outcome.label_spec() + " \u{b7} "@ + decimal(self.speed.speed_spec() as nat)
                + " m/s \u{b7} "@ + self.mode.label_spec() + " \u{b7} frame "@ + decimal(self.frames as nat),
    {
        let mut s = String::from_str(self.outcome.label());
        s.append(" \u{b7} ");
        push_decimal(&mut s, self.speed.meters_per_second() as u64);
        s.append(" m/s \u{b7} ");
        s.append(self.mode.label());
        s.append(" \u{b7} frame ");
        push_decimal(&mut s, self.frames as u64);
        s
    }
}

/// A finished flight stays finished: once collided or tunnelled, further frames do
/// not change the status, and only a new launch or a reset starts over.
pub proof fn lemma_finished_flight_is_stable(status: CcdLauncherStatus, seen: LaunchObservation)
    requires
        status.outcome == LauncherOutcome::Collided || status.outcome == LauncherOutcome::Tunneled,
    ensures
        observe_spec(status, seen) == status,
{
}

/// A launch always starts a fresh flight with the selected speed and mode, and a
/// contact with the wall while in flight always records a collision.
pub proof fn lemma_launch_then_contact_collides(status: CcdLauncherStatus, past_wall: bool)
    ensures
        apply_spec(status, CcdLauncherAction::Launch).outcome == LauncherOutcome::InFlight,
        apply_spec(status, CcdLauncherAction::Launch).frames == 0,
        apply_spec(status, CcdLauncherAction::Launch).speed == status.speed,
        apply_spec(status, CcdLauncherAction::Launch).mode == status.mode,
        observe_spec(
            apply_spec(status, CcdLauncherAction::Launch),
            LaunchObservation { present: true, touching_wall: true, past_wall },
        ).outcome == LauncherOutcome::Collided,
{
}

} // verus!
