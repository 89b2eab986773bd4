//! The flight-envelope protections of normal law: the angle-of-attack demand
//! mode with its hysteresis, the high-speed protection, and the bank-angle,
//! load-factor and pitch-attitude limits that follow from them.

use vstd::prelude::*;

use crate::data::{spec_alpha_max, spec_alpha_prot, Data, DataFrame, FLAPS_FULL};
use crate::fixed::{saturate, Fixed};
use crate::input::Input;

verus! {

/// Maximum bank angle in degrees without an active protection.
pub const MAX_BANK_ANGLE_NORMAL: i64 = 67_000_000;

/// Maximum bank angle in degrees under angle-of-attack or high-speed protection.
pub const MAX_BANK_ANGLE_PROTECTED: i64 = 45_000_000;

/// Bank angle in degrees that is held with the stick neutral, without an active protection.
pub const NOMINAL_BANK_ANGLE_NORMAL: i64 = 33_000_000;

/// Bank angle in degrees that is held with the stick neutral under a protection.
pub const NOMINAL_BANK_ANGLE_PROTECTED: i64 = 0;

/// Lowest load factor in g in clean configuration.
pub const MIN_LOAD_FACTOR_NORMAL: i64 = -1_000_000;

/// Lowest load factor in g with flaps extended.
pub const MIN_LOAD_FACTOR_PROTECTED: i64 = 0;

/// Highest load factor in g in clean configuration.
pub const MAX_LOAD_FACTOR_NORMAL: i64 = 2_500_000;

/// Highest load factor in g with flaps extended.
pub const MAX_LOAD_FACTOR_PROTECTED: i64 = 2_000_000;

/// Highest pitch attitude in degrees in configurations 0 to 3.
pub const MAX_PITCH_ANGLE_NORMAL: i64 = 30_000_000;

/// Highest pitch attitude in degrees in configuration FULL.
pub const MAX_PITCH_ANGLE_PROTECTED: i64 = 25_000_000;

/// Lowest pitch attitude in degrees.
pub const MIN_PITCH_ANGLE_NORMAL: i64 = -15_000_000;

/// Stick position below which the angle-of-attack demand mode is left at once.
pub const AOA_EXIT_STICK: i64 = -500_000;

/// Seconds for which the stick must be held forward to leave the mode.
pub const AOA_EXIT_HOLD: i64 = 500_000;

/// The state of the protections and the limits in force.
#[derive(Clone, Copy, PartialEq, Eq, Structural, Debug)]
pub struct NormalLawProtections {
    /// Whether the stick demands angle of attack.
    pub aoa_demand_active: bool,
    /// Seconds for which the stick has been held forward below alpha max.
    pub aoa_demand_deactivation_timer: Fixed,
    /// Whether the aircraft is beyond its maximum operating speed.
    pub high_speed_protection_active: bool,
    pub max_bank_angle: Fixed,
    pub nominal_bank_angle: Fixed,
    pub min_load_factor: Fixed,
    pub max_load_factor: Fixed,
    pub min_pitch_angle: Fixed,
    pub max_pitch_angle: Fixed,
}

/// Whether the angle-of-attack demand mode is entered: the stick is not
/// pushed and alpha exceeds alpha prot, or alpha has reached alpha max.
pub open spec fn aoa_demand_entered(yoke_y: int, alpha: int, alpha_prot: int, alpha_max: int)
    -> bool {
    (yoke_y >= 0 && alpha > alpha_prot) || alpha >= alpha_max
}

/// Whether the angle-of-attack demand mode is left: the stick is pushed
/// more than half way forward, or it has been held forward long enough.
pub open spec fn aoa_demand_left(timer: int, yoke_y: int) -> bool {
    yoke_y < AOA_EXIT_STICK || timer >= AOA_EXIT_HOLD
}

/// Whether the time toward leaving the mode keeps counting: the stick is
/// forward of neutral and alpha is below alpha max.
pub open spec fn aoa_exit_timer_builds(yoke_y: int, alpha: int, alpha_max: int) -> bool {
    yoke_y < 0 && alpha < alpha_max
}

impl NormalLawProtections {
    /// Whether the timer is valid: never negative, and zero while the
    /// angle-of-attack demand mode is off.
    pub open spec fn wf(self) -> bool {
        &&& self.aoa_demand_deactivation_timer@ >= 0
        &&& !self.aoa_demand_active ==> self.aoa_demand_deactivation_timer@ == 0
    }

    /// The protections with the angle-of-attack flag `active`, the timer
    /// `timer`, the high-speed flag `high_speed`, and the limits that these
    /// flags and the flap position select.
    pub open spec fn with_limits(active: bool, timer: int, high_speed: bool, flaps: u8)
        -> NormalLawProtections {
        let protected = active || high_speed;
        NormalLawProtections {
            aoa_demand_active: active,
            aoa_demand_deactivation_timer: Fixed { raw: timer as i64 },
            high_speed_protection_active: high_speed,
            max_bank_angle: Fixed {
                raw: if protected {
                    MAX_BANK_ANGLE_PROTECTED
                } else {
                    MAX_BANK_ANGLE_NORMAL
                },
            },
            nominal_bank_angle: Fixed {
                raw: if protected {
                    NOMINAL_BANK_ANGLE_PROTECTED
                } else {
                    NOMINAL_BANK_ANGLE_NORMAL
                },
            },
            min_load_factor: Fixed {
                raw: if flaps == 0 {
                    MIN_LOAD_FACTOR_NORMAL
                } else {
                    MIN_LOAD_FACTOR_PROTECTED
                },
            },
            max_load_factor: Fixed {
                raw: if flaps == 0 {
                    MAX_LOAD_FACTOR_NORMAL
                } else {
                    MAX_LOAD_FACTOR_PROTECTED
                },
            },
            min_pitch_angle: Fixed { raw: MIN_PITCH_ANGLE_NORMAL },
            max_pitch_angle: Fixed {
                raw: if flaps == FLAPS_FULL {
                    MAX_PITCH_ANGLE_PROTECTED
                } else {
                    MAX_PITCH_ANGLE_NORMAL
                },
            },
        }
    }

    /// The angle-of-attack flag after one tick.
    pub open spec fn next_active(self, frame: DataFrame, input: Input) -> bool {
        if self.aoa_demand_active {
            !aoa_demand_left(self.aoa_demand_deactivation_timer@, input.yoke_y@)
        } else {
            aoa_demand_entered(
                input.yoke_y@,
                frame.aoa@,
                spec_alpha_prot(frame.flaps),
                spec_alpha_max(frame.flaps),
            )
        }
    }

    /// The deactivation timer after one tick of `dt` seconds.
    pub open spec fn next_timer(self, dt: int, frame: DataFrame, input: Input) -> int {
        if self.aoa_demand_active {
            if aoa_demand_left(self.aoa_demand_deactivation_timer@, input.yoke_y@) {
                0
            } else if aoa_exit_timer_builds(
                input.yoke_y@,
                frame.aoa@,
                spec_alpha_max(frame.flaps),
            ) {
                saturate(self.aoa_demand_deactivation_timer@ + dt)
            } else {
                0
            }
        } else {
            if self.next_active(frame, input) {
                0
            } else {
                self.aoa_demand_deactivation_timer@
            }
        }
    }

    /// Whether the aircraft is beyond its maximum operating speed or Mach number.
    pub open spec fn overspeed(frame: DataFrame) -> bool {
        frame.ias@ > frame.vmo@ || frame.mach@ > frame.mmo@
    }

    /// The protections after one tick of `dt` seconds in the state `frame`
    /// with the pilot's demands `input`.
    pub open spec fn updated(self, dt: int, frame: DataFrame, input: Input)
        -> NormalLawProtections {
        Self::with_limits(
            self.next_active(frame, input),
            self.next_timer(dt, frame, input),
            Self::overspeed(frame),
            frame.flaps,
        )
    }

    /// Advances the protections by one tick: the angle-of-attack demand mode
    /// with its hysteresis, the high-speed flag, and every limit anew.
    pub fn update(&mut self, dt: Fixed, data: &Data, input: &Input)
        requires
            data.current().flaps <= FLAPS_FULL,
        ensures
            *final(self) == old(self).updated(dt@, data.current(), *input),
            old(self).wf() && dt@ >= 0 ==> final(self).wf(),
    {
        if self.aoa_demand_active {
            let condition1 = input.yoke_y.raw < AOA_EXIT_STICK;
            let condition2 = self.aoa_demand_deactivation_timer.raw >= AOA_EXIT_HOLD;
            if condition1 || condition2 {
                self.aoa_demand_active = false;
                self.aoa_demand_deactivation_timer = Fixed::zero();
            } else if input.yoke_y.raw < 0 && data.alpha().raw < data.alpha_max().raw {
                self.aoa_demand_deactivation_timer = self.aoa_demand_deactivation_timer.plus(dt);
            } else {
                self.aoa_demand_deactivation_timer = Fixed::zero();
            }
        } else {
            let condition1 = input.yoke_y.raw >= 0 && data.alpha().raw > data.alpha_prot().raw;
            let condition2 = data.alpha().raw >= data.alpha_max().raw;
            if condition1 || condition2 {
                self.aoa_demand_active = true;
                self.aoa_demand_deactivation_timer = Fixed::zero();
            }
        }

        self.high_speed_protection_active = data.ias().raw > data.vmo().raw || data.mach().raw
            > data.mmo().raw;

        if self.aoa_demand_active || self.high_speed_protection_active {
            self.max_bank_angle = Fixed::from_micros(MAX_BANK_ANGLE_PROTECTED);
            self.nominal_bank_angle = Fixed::from_micros(NOMINAL_BANK_ANGLE_PROTECTED);
        } else {
            self.max_bank_angle = Fixed::from_micros(MAX_BANK_ANGLE_NORMAL);
            self.nominal_bank_angle = Fixed::from_micros(NOMINAL_BANK_ANGLE_NORMAL);
        }

        self.min_pitch_angle = Fixed::from_micros(MIN_PITCH_ANGLE_NORMAL);
        let flaps = data.flaps();
        if flaps == 0 {
            self.min_load_factor = Fixed::from_micros(MIN_LOAD_FACTOR_NORMAL);
            self.max_load_factor = Fixed::from_micros(MAX_LOAD_FACTOR_NORMAL);
            self.max_pitch_angle = Fixed::from_micros(MAX_PITCH_ANGLE_NORMAL);
        } else if flaps < FLAPS_FULL {
            self.min_load_factor = Fixed::from_micros(MIN_LOAD_FACTOR_PROTECTED);
            self.max_load_factor = Fixed::from_micros(MAX_LOAD_FACTOR_PROTECTED);
            self.max_pitch_angle = Fixed::from_micros(MAX_PITCH_ANGLE_NORMAL);
        } else {
            self.min_load_factor = Fixed::from_micros(MIN_LOAD_FACTOR_PROTECTED);
            self.max_load_factor = Fixed::from_micros(MAX_LOAD_FACTOR_PROTECTED);
            self.max_pitch_angle = Fixed::from_micros(MAX_PITCH_ANGLE_PROTECTED);
        }
    }
}

impl Default for NormalLawProtections {
    /// No protection active, and the limits of the clean configuration.
    fn default() -> (r: NormalLawProtections)
        ensures
            r == NormalLawProtections::with_limits(false, 0, false, 0),
            r.wf(),
    {
        NormalLawProtections {
            aoa_demand_active: false,
            aoa_demand_deactivation_timer: Fixed::zero(),
            high_speed_protection_active: false,
            max_bank_angle: Fixed::from_micros(MAX_BANK_ANGLE_NORMAL),
            nominal_bank_angle: Fixed::from_micros(NOMINAL_BANK_ANGLE_NORMAL),
            min_load_factor: Fixed::from_micros(MIN_LOAD_FACTOR_NORMAL),
            max_load_factor: Fixed::from_micros(MAX_LOAD_FACTOR_NORMAL),
            min_pitch_angle: Fixed::from_micros(MIN_PITCH_ANGLE_NORMAL),
            max_pitch_angle: Fixed::from_micros(MAX_PITCH_ANGLE_NORMAL),
        }
    }
}

/// A tick of zero or more seconds keeps the timer valid.
pub proof fn lemma_update_keeps_timer_valid(
    before: NormalLawProtections,
    dt: int,
    frame: DataFrame,
    input: Input,
)
    requires
        before.wf(),
        dt >= 0,
    ensures
        before.updated(dt, frame, input).wf(),
{
}

/// Once the mode has been entered with alpha at or above alpha max, it is
/// still active after the following tick, whatever that tick's state and
/// time step are, unless the stick is then more than half way forward.
pub proof fn lemma_aoa_demand_holds_for_a_tick(
    before: NormalLawProtections,
    dt_entry: int,
    frame_entry: DataFrame,
    input_entry: Input,
    dt_next: int,
    frame_next: DataFrame,
    input_next: Input,
)
    requires
        !before.aoa_demand_active,
        frame_entry.aoa@ >= spec_alpha_max(frame_entry.flaps),
        input_next.yoke_y@ >= AOA_EXIT_STICK,
    ensures
        before.updated(dt_entry, frame_entry, input_entry).aoa_demand_active,
        before.updated(dt_entry, frame_entry, input_entry).aoa_demand_deactivation_timer@ == 0,
        before.updated(dt_entry, frame_entry, input_entry).updated(
            dt_next,
            frame_next,
            input_next,
        ).aoa_demand_active,
{
}

/// A tick on which the stick is not forward of neutral, or alpha is not
/// below alpha max, leaves the timer at zero, however far it had counted.
pub proof fn lemma_exit_timer_restarts(
    before: NormalLawProtections,
    dt: int,
    frame: DataFrame,
    input: Input,
)
    requires
        before.wf(),
        !aoa_exit_timer_builds(input.yoke_y@, frame.aoa@, spec_alpha_max(frame.flaps)),
    ensures
        before.updated(dt, frame, input).aoa_demand_deactivation_timer@ == 0,
{
}

} // verus!
