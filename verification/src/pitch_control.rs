//! The control-law mode: ground, flight or flare.

use vstd::prelude::*;

use crate::fixed::Fixed;

verus! {

/// The law that governs the pitch and roll axes.
#[derive(Clone, Copy, PartialEq, Eq, Structural, Debug)]
pub enum PitchControlMode {
    /// Direct law on the ground.
    Ground,
    /// Normal law in flight.
    Flight,
    /// Flare law close to the ground.
    Flare,
}

/// The active mode and the intensity of the flare effect, which is never negative.
#[derive(Clone, Copy, PartialEq, Eq, Structural, Debug)]
pub struct PitchControl {
    pub mode: PitchControlMode,
    pub flare_effect: Fixed,
}

impl Default for PitchControl {
    fn default() -> (r: PitchControl)
        ensures
            r.mode == PitchControlMode::Ground,
            r.flare_effect@ == 0,
            r.wf(),
    {
        PitchControl { mode: PitchControlMode::Ground, flare_effect: Fixed::zero() }
    }
}

impl PitchControl {
    /// Whether the flare effect is a valid intensity: zero or more.
    pub open spec fn wf(self) -> bool {
        self.flare_effect@ >= 0
    }

    /// Runs the transition of the active mode. No transition is defined yet,
    /// so the mode and the flare effect stay as they are.
    pub fn update(&mut self)
        ensures
            *final(self) == *old(self),
            old(self).wf() ==> final(self).wf(),
    {
        match self.mode {
            PitchControlMode::Ground => self.handle_ground_transitions(),
            PitchControlMode::Flight => self.handle_flight_transitions(),
            PitchControlMode::Flare => self.handle_flare_transitions(),
        }
    }

    /// Forces the mode, leaving the flare effect as it is.
    pub fn set_mode(&mut self, mode: PitchControlMode)
        ensures
            final(self).mode == mode,
            final(self).flare_effect == old(self).flare_effect,
            old(self).wf() ==> final(self).wf(),
    {
        self.mode = mode;
    }

    /// Transition out of ground mode: not defined yet, no change.
    fn handle_ground_transitions(&mut self)
        ensures
            *final(self) == *old(self),
    {
    }

    /// Transition out of flight mode: not defined yet, no change.
    fn handle_flight_transitions(&mut self)
        ensures
            *final(self) == *old(self),
    {
    }

    /// Transition out of flare mode: not defined yet, no change.
    fn handle_flare_transitions(&mut self)
        ensures
            *final(self) == *old(self),
    {
    }
}

} // verus!
