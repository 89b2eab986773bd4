//! The pitch and roll axis control laws and the surface commands they produce.

use vstd::prelude::*;

use crate::data::{spec_alpha_max, spec_alpha_prot, Data, DataFrame};
use crate::fixed::{clamp_int, product, saturate, Fixed, SCALE};
use crate::input::Input;
use crate::pid::{PIDController, PidModel};
use crate::pitch_control::{PitchControl, PitchControlMode};
use crate::protections::NormalLawProtections;
use crate::{
    clamp, linear_decay_coefficient, linear_range, spec_linear_decay_coefficient,
    spec_linear_range,
};

verus! {

/// Pitch rate in degrees per second with which an exceeded pitch limit is corrected.
pub const CORRECTIVE_PITCH_RATE: i64 = 5_000_000;

/// Pitch rate in degrees per second that is allowed at level attitude.
pub const PITCH_RATE_LIMIT: i64 = 30_000_000;

/// Pitch margin in degrees over which the corrective rate builds up.
pub const PITCH_CORRECTION_MARGIN: i64 = 1_000_000;

/// The mathematical state of the pitch axis: its three controllers.
pub struct PitchModel {
    pub aoa: PidModel,
    pub gforce: PidModel,
    pub pitch_rate: PidModel,
}

/// The angle of attack that the stick position `yoke_y` demands: from alpha
/// prot toward alpha max when pulled, along the line from alpha prot to zero
/// when pushed.
pub open spec fn spec_commanded_aoa(yoke_y: int, flaps: u8) -> int {
    if yoke_y >= 0 {
        spec_linear_range(yoke_y, spec_alpha_prot(flaps), spec_alpha_max(flaps))
    } else {
        spec_linear_range(yoke_y, spec_alpha_prot(flaps), 0)
    }
}

impl PitchModel {
    /// The state with the pitch-rate controller fed the gap between the
    /// rate `target` and the measured pitch rate, and that controller's output.
    pub open spec fn pitch_rate_corrected(self, target: int, dt: int, frame: DataFrame) -> (
        PitchModel,
        int,
    ) {
        let next = self.pitch_rate.updated_anti_windup(saturate(target - frame.pitch_rate@), dt);
        (PitchModel { pitch_rate: next, ..self }, next.last_output)
    }

    /// The state with the load-factor controller fed the gap between the
    /// load factor `limit` and the measured one, and that controller's output.
    pub open spec fn load_factor_corrected(self, limit: int, dt: int, frame: DataFrame) -> (
        PitchModel,
        int,
    ) {
        let next = self.gforce.updated_anti_windup(saturate(limit - frame.gforce@), dt);
        (PitchModel { gforce: next, ..self }, next.last_output)
    }

    /// Load-factor limitation of a proposed elevator movement `delta`.
    pub open spec fn load_factor_limitation(
        self,
        delta: int,
        dt: int,
        frame: DataFrame,
        limits: NormalLawProtections,
    ) -> (PitchModel, int) {
        if frame.gforce@ > limits.max_load_factor@ {
            self.load_factor_corrected(limits.max_load_factor@, dt, frame)
        } else if frame.gforce@ < limits.min_load_factor@ {
            self.load_factor_corrected(limits.min_load_factor@, dt, frame)
        } else {
            (self, delta)
        }
    }

    /// Pitch-attitude protection of a proposed elevator movement `delta`.
    pub open spec fn pitch_attitude_protection(
        self,
        delta: int,
        dt: int,
        frame: DataFrame,
        limits: NormalLawProtections,
    ) -> (PitchModel, int) {
        let pitch = frame.pitch@;
        let max_pitch = limits.max_pitch_angle@;
        let min_pitch = limits.min_pitch_angle@;
        let max_pitch_rate = product(
            PITCH_RATE_LIMIT as int,
            spec_linear_decay_coefficient(pitch, 0, max_pitch),
        );
        let min_pitch_rate = product(
            -PITCH_RATE_LIMIT,
            spec_linear_decay_coefficient(pitch, 0, min_pitch),
        );
        if pitch > max_pitch {
            self.pitch_rate_corrected(
                product(
                    -CORRECTIVE_PITCH_RATE,
                    spec_linear_decay_coefficient(
                        pitch,
                        saturate(max_pitch + PITCH_CORRECTION_MARGIN),
                        max_pitch,
                    ),
                ),
                dt,
                frame,
            )
        } else if pitch < min_pitch {
            self.pitch_rate_corrected(
                product(
                    CORRECTIVE_PITCH_RATE as int,
                    spec_linear_decay_coefficient(
                        pitch,
                        saturate(min_pitch - PITCH_CORRECTION_MARGIN),
                        min_pitch,
                    ),
                ),
                dt,
                frame,
            )
        } else if frame.pitch_rate@ > max_pitch_rate && delta >= 0 {
            self.pitch_rate_corrected(max_pitch_rate, dt, frame)
        } else if frame.pitch_rate@ < min_pitch_rate && delta <= 0 {
            self.pitch_rate_corrected(min_pitch_rate, dt, frame)
        } else {
            (self, delta)
        }
    }

    /// The elevator movement under angle-of-attack demand: the angle-of-attack
    /// controller's answer to the demanded angle, then the load-factor
    /// limitation, then the pitch-attitude protection.
    pub open spec fn angle_of_attack_demand(
        self,
        dt: int,
        frame: DataFrame,
        limits: NormalLawProtections,
        input: Input,
    ) -> (PitchModel, int) {
        let aoa = self.aoa.updated_anti_windup(
            saturate(spec_commanded_aoa(input.yoke_y@, frame.flaps) - frame.aoa@),
            dt,
        );
        let demanded = PitchModel { aoa, ..self };
        let limited = demanded.load_factor_limitation(aoa.last_output, dt, frame, limits);
        limited.0.pitch_attitude_protection(limited.1, dt, frame, limits)
    }

    /// The state of the pitch axis and the elevator command after one tick.
    /// On the ground the stick is passed through. In the air under
    /// angle-of-attack demand the elevator moves by the demanded amount.
    /// Otherwise the elevator holds its position. The command is limited to
    /// one unit either way.
    pub open spec fn calculate(
        self,
        elevator: int,
        dt: int,
        frame: DataFrame,
        limits: NormalLawProtections,
        mode: PitchControl,
        input: Input,
    ) -> (PitchModel, int) {
        if mode.mode == PitchControlMode::Ground {
            (self, clamp_int(input.yoke_y@, -SCALE, SCALE as int))
        } else if limits.aoa_demand_active {
            let moved = self.angle_of_attack_demand(dt, frame, limits, input);
            (moved.0, clamp_int(saturate(elevator + moved.1), -SCALE, SCALE as int))
        } else {
            (self, clamp_int(elevator, -SCALE, SCALE as int))
        }
    }
}

/// The pitch axis: turns the stick's pitch demand into an elevator command.
#[derive(Clone, Copy, Debug)]
pub struct PitchController {
    aoa_controller: PIDController,
    gforce_controller: PIDController,
    pitch_rate_controller: PIDController,
}

impl View for PitchController {
    type V = PitchModel;

    closed spec fn view(&self) -> PitchModel {
        PitchModel {
            aoa: self.aoa_controller@,
            gforce: self.gforce_controller@,
            pitch_rate: self.pitch_rate_controller@,
        }
    }
}

/// A controller at rest with output limits of `limit` either way.
pub open spec fn pid_at_rest(limit: int, kp: int, ki: int, kd: int) -> PidModel {
    PidModel {
        output_min: -limit,
        output_max: limit,
        kp,
        ki,
        kd,
        integral: 0,
        last_error: 0,
        last_output: 0,
    }
}

impl Default for PitchController {
    /// The three controllers at rest, each limited to two units either way:
    /// angle of attack with gains 0.002, 0 and 0.0002, load factor with
    /// 0.008, 0.008 and 0.001, pitch rate with 0.01, 0.015 and 0.0025.
    fn default() -> (r: PitchController)
        ensures
            r@ == (PitchModel {
                aoa: pid_at_rest(2_000_000, 2_000, 0, 200),
                gforce: pid_at_rest(2_000_000, 8_000, 8_000, 1_000),
                pitch_rate: pid_at_rest(2_000_000, 10_000, 15_000, 2_500),
            }),
    {
        PitchController {
            aoa_controller: PIDController::new(
                Fixed::from_int(-2),
                Fixed::from_int(2),
                Fixed::from_micros(2_000),
                Fixed::from_micros(0),
                Fixed::from_micros(200),
            ),
            gforce_controller: PIDController::new(
                Fixed::from_int(-2),
                Fixed::from_int(2),
                Fixed::from_micros(8_000),
                Fixed::from_micros(8_000),
                Fixed::from_micros(1_000),
            ),
            pitch_rate_controller: PIDController::new(
                Fixed::from_int(-2),
                Fixed::from_int(2),
                Fixed::from_micros(10_000),
                Fixed::from_micros(15_000),
                Fixed::from_micros(2_500),
            ),
        }
    }
}

impl PitchController {
    /// Applies the load-factor limitation to a proposed elevator movement:
    /// beyond either load-factor limit the load-factor controller's answer
    /// replaces the proposal.
    pub fn load_factor_limitation(
        &mut self,
        delta_elevator: Fixed,
        dt: Fixed,
        data: &Data,
        limits: &NormalLawProtections,
    ) -> (r: Fixed)
        requires
            dt@ > 0,
        ensures
            (final(self)@, r@) == old(self)@.load_factor_limitation(
                delta_elevator@,
                dt@,
                data.current(),
                *limits,
            ),
    {
        if data.gforce().raw > limits.max_load_factor.raw {
            self.gforce_controller.update_anti_windup(limits.max_load_factor.minus(data.gforce()), dt)
        } else if data.gforce().raw < limits.min_load_factor.raw {
            self.gforce_controller.update_anti_windup(limits.min_load_factor.minus(data.gforce()), dt)
        } else {
            delta_elevator
        }
    }

    /// The elevator movement that the stick demands while it commands angle
    /// of attack, after both protections have been applied.
    pub fn angle_of_attack_demand(
        &mut self,
        dt: Fixed,
        data: &Data,
        limits: &NormalLawProtections,
        input: &Input,
    ) -> (r: Fixed)
        requires
            dt@ > 0,
        ensures
            (final(self)@, r@) == old(self)@.angle_of_attack_demand(
                dt@,
                data.current(),
                *limits,
                *input,
            ),
    {
        let commanded_aoa = if input.yoke_y.raw >= 0 {
            linear_range(input.yoke_y, data.alpha_prot(), data.alpha_max())
        } else {
            linear_range(input.yoke_y, data.alpha_prot(), Fixed::zero())
        };
        let mut delta_elevator = self.aoa_controller.update_anti_windup(
            commanded_aoa.minus(data.alpha()),
            dt,
        );
        delta_elevator = self.load_factor_limitation(delta_elevator, dt, data, limits);
        delta_elevator = self.pitch_attitude_protection(delta_elevator, dt, data, limits);
        delta_elevator
    }

    /// Applies the pitch-attitude protection to a proposed elevator movement.
    /// Beyond a pitch limit the pitch-rate controller steers back at up to
    /// five degrees per second, the rate building up over the first degree.
    /// Within the limits it is called on only when the pitch rate exceeds
    /// what the remaining margin allows and the proposal would add to it.
    pub fn pitch_attitude_protection(
        &mut self,
        delta_elevator: Fixed,
        dt: Fixed,
        data: &Data,
        limits: &NormalLawProtections,
    ) -> (r: Fixed)
        requires
            dt@ > 0,
        ensures
            (final(self)@, r@) == old(self)@.pitch_attitude_protection(
                delta_elevator@,
                dt@,
                data.current(),
                *limits,
            ),
    {
        let pitch = data.pitch();
        let pitch_rate = data.pitch_rate();
        let max_pitch = limits.max_pitch_angle;
        let min_pitch = limits.min_pitch_angle;
        if pitch.raw > max_pitch.raw {
            let corrective_pitch_rate = Fixed::from_micros(-CORRECTIVE_PITCH_RATE).times(
                linear_decay_coefficient(
                    pitch,
                    max_pitch.plus(Fixed::from_micros(PITCH_CORRECTION_MARGIN)),
                    max_pitch,
                ),
            );
            return self.pitch_rate_controller.update_anti_windup(
                corrective_pitch_rate.minus(pitch_rate),
                dt,
            );
        }
        if pitch.raw < min_pitch.raw {
            let corrective_pitch_rate = Fixed::from_micros(CORRECTIVE_PITCH_RATE).times(
                linear_decay_coefficient(
                    pitch,
                    min_pitch.minus(Fixed::from_micros(PITCH_CORRECTION_MARGIN)),
                    min_pitch,
                ),
            );
            return self.pitch_rate_controller.update_anti_windup(
                corrective_pitch_rate.minus(pitch_rate),
                dt,
            );
        }
        let max_pitch_rate = Fixed::from_micros(PITCH_RATE_LIMIT).times(
            linear_decay_coefficient(pitch, Fixed::zero(), max_pitch),
        );
        if pitch_rate.raw > max_pitch_rate.raw && delta_elevator.raw >= 0 {
            return self.pitch_rate_controller.update_anti_windup(
                max_pitch_rate.minus(pitch_rate),
                dt,
            );
        }
        let min_pitch_rate = Fixed::from_micros(-PITCH_RATE_LIMIT).times(
            linear_decay_coefficient(pitch, Fixed::zero(), min_pitch),
        );
        if pitch_rate.raw < min_pitch_rate.raw && delta_elevator.raw <= 0 {
            return self.pitch_rate_controller.update_anti_windup(
                min_pitch_rate.minus(pitch_rate),
                dt,
            );
        }
        delta_elevator
    }

    /// The elevator command for this tick, between minus one and one.
    pub fn calculate(
        &mut self,
        elevator: Fixed,
        dt: Fixed,
        data: &Data,
        limits: &NormalLawProtections,
        pitch_control: &PitchControl,
        input: &Input,
    ) -> (r: Fixed)
        requires
            dt@ > 0,
        ensures
            (final(self)@, r@) == old(self)@.calculate(
                elevator@,
                dt@,
                data.current(),
                *limits,
                *pitch_control,
                *input,
            ),
            -SCALE <= r@ <= SCALE,
            pitch_control.mode == PitchControlMode::Ground && -SCALE <= input.yoke_y@ <= SCALE
                ==> r == input.yoke_y,
    {
        let new_elevator = match pitch_control.mode {
            PitchControlMode::Ground => input.yoke_y,
            _ => {
                if limits.aoa_demand_active {
                    elevator.plus(self.angle_of_attack_demand(dt, data, limits, input))
                } else {
                    elevator
                }
            },
        };
        clamp(new_elevator, Fixed::from_int(-1), Fixed::from_int(1))
    }
}

/// Rate in degrees per second at which a bank beyond the nominal angle is reduced.
pub const ROLL_RETURN_RATE: i64 = 5_000_000;

/// Rate in degrees per second at which full stick deflection builds up bank.
pub const ROLL_DEMAND_RATE: i64 = 15_000_000;

/// The interval to which the desired bank angle is limited while the stick
/// demands roll.
#[derive(Clone, Copy, PartialEq, Eq, Structural, Debug)]
pub enum RollTargetBound {
    /// From zero to one degree.
    UnitInterval,
    /// The maximum bank angle in force, to either side.
    MaxBankAngle,
}

/// The mathematical state of the roll axis.
pub struct RollModel {
    /// Desired bank angle, raw degrees.
    pub roll: int,
    pub bound: RollTargetBound,
    pub controller: PidModel,
}

/// The desired bank angle after `dt` seconds with the stick neutral: a bank
/// beyond the nominal angle returns toward it at the return rate and stops
/// at it; a bank within it is held.
pub open spec fn spec_roll_returned(roll: int, nominal: int, dt: int) -> int {
    let step = product(ROLL_RETURN_RATE as int, dt);
    if vstd::math::abs(roll) > nominal {
        if roll >= 0 {
            vstd::math::max(saturate(roll - step), nominal)
        } else {
            vstd::math::min(saturate(roll + step), -nominal)
        }
    } else {
        roll
    }
}

/// The desired bank angle after `dt` seconds with the stick at `yoke_x`:
/// it moves at the demand rate times the deflection and stays within `bound`.
pub open spec fn spec_roll_demanded(
    roll: int,
    yoke_x: int,
    dt: int,
    bound: RollTargetBound,
    max_bank: int,
) -> int {
    let moved = saturate(roll + product(product(ROLL_DEMAND_RATE as int, yoke_x), dt));
    match bound {
        RollTargetBound::UnitInterval => clamp_int(moved, 0, SCALE as int),
        RollTargetBound::MaxBankAngle => clamp_int(moved, saturate(-max_bank), max_bank),
    }
}

/// With the stick neutral the desired bank never moves away from wings
/// level and never crosses the nominal angle: a bank beyond it ends between
/// the nominal angle and where it was.
pub proof fn lemma_roll_return_stops_at_nominal(roll: int, nominal: int, dt: int)
    requires
        nominal >= 0,
        dt >= 0,
        i64::MIN <= roll <= i64::MAX,
    ensures
        roll > nominal ==> nominal <= spec_roll_returned(roll, nominal, dt) <= roll,
        roll < -nominal ==> roll <= spec_roll_returned(roll, nominal, dt) <= -nominal,
        -nominal <= roll <= nominal ==> spec_roll_returned(roll, nominal, dt) == roll,
{
}

/// While the stick demands roll, the desired bank stays within the maximum
/// bank angle to either side.
pub proof fn lemma_roll_demand_within_max_bank(roll: int, yoke_x: int, dt: int, max_bank: int)
    requires
        0 <= max_bank <= i64::MAX,
    ensures
        -max_bank <= spec_roll_demanded(roll, yoke_x, dt, RollTargetBound::MaxBankAngle, max_bank)
            <= max_bank,
{
}

impl RollModel {
    /// The desired bank angle after one tick in the air.
    pub open spec fn next_roll(self, dt: int, limits: NormalLawProtections, input: Input) -> int {
        if input.yoke_x@ == 0 {
            spec_roll_returned(self.roll, limits.nominal_bank_angle@, dt)
        } else {
            spec_roll_demanded(self.roll, input.yoke_x@, dt, self.bound, limits.max_bank_angle@)
        }
    }

    /// The state of the roll axis and the aileron command after one tick.
    /// On the ground nothing changes and the command is the previous one.
    /// In the air the controller answers the gap between the desired and
    /// the measured bank angle.
    pub open spec fn calculate(
        self,
        ailerons: int,
        dt: int,
        frame: DataFrame,
        limits: NormalLawProtections,
        mode: PitchControl,
        input: Input,
    ) -> (RollModel, int) {
        if mode.mode == PitchControlMode::Ground {
            (self, ailerons)
        } else {
            let roll = self.next_roll(dt, limits, input);
            let controller = self.controller.updated_anti_windup(saturate(roll - frame.roll@), dt);
            (RollModel { roll, controller, ..self }, controller.last_output)
        }
    }
}

/// The roll axis: turns the stick's roll demand into an aileron command.
#[derive(Clone, Copy, Debug)]
pub struct RollController {
    roll: Fixed,
    bound: RollTargetBound,
    controller: PIDController,
}

impl View for RollController {
    type V = RollModel;

    closed spec fn view(&self) -> RollModel {
        RollModel { roll: self.roll@, bound: self.bound, controller: self.controller@ }
    }
}

impl Default for RollController {
    /// Wings level, the desired bank limited by the maximum bank angle, and
    /// the controller at rest with gains 0.10, 0 and 0.02.
    fn default() -> (r: RollController)
        ensures
            r@ == (RollModel {
                roll: 0,
                bound: RollTargetBound::MaxBankAngle,
                controller: pid_at_rest(SCALE as int, 100_000, 0, 20_000),
            }),
    {
        RollController::new(Fixed::zero(), RollTargetBound::MaxBankAngle)
    }
}

impl RollController {
    #[verifier::type_invariant]
    spec fn unit_output(self) -> bool {
        self.controller@.output_min == -SCALE && self.controller@.output_max == SCALE
    }

    /// A roll axis with the desired bank angle `roll` and the given bound on
    /// it, the controller at rest.
    pub fn new(roll: Fixed, bound: RollTargetBound) -> (r: RollController)
        ensures
            r@ == (RollModel {
                roll: roll@,
                bound,
                controller: pid_at_rest(SCALE as int, 100_000, 0, 20_000),
            }),
    {
        RollController {
            roll,
            bound,
            controller: PIDController::new(
                Fixed::from_int(-1),
                Fixed::from_int(1),
                Fixed::from_micros(100_000),
                Fixed::from_micros(0),
                Fixed::from_micros(20_000),
            ),
        }
    }

    /// The desired bank angle in degrees.
    pub fn roll(&self) -> (r: Fixed)
        ensures
            r@ == self@.roll,
    {
        self.roll
    }

    /// The aileron command for this tick.
    pub fn calculate(
        &mut self,
        ailerons: Fixed,
        dt: Fixed,
        data: &Data,
        limits: &NormalLawProtections,
        pitch_control: &PitchControl,
        input: &Input,
    ) -> (r: Fixed)
        requires
            dt@ > 0,
        ensures
            (final(self)@, r@) == old(self)@.calculate(
                ailerons@,
                dt@,
                data.current(),
                *limits,
                *pitch_control,
                *input,
            ),
            pitch_control.mode != PitchControlMode::Ground ==> -SCALE <= r@ <= SCALE,
    {
        proof {
            use_type_invariant(&*self);
        }
        match pitch_control.mode {
            PitchControlMode::Flight | PitchControlMode::Flare => {
                if input.yoke_x.raw == 0 {
                    self.roll = roll_returned(self.roll, limits.nominal_bank_angle, dt);
                } else {
                    let moved = self.roll.plus(
                        Fixed::from_micros(ROLL_DEMAND_RATE).times(input.yoke_x).times(dt),
                    );
                    self.roll = match self.bound {
                        RollTargetBound::UnitInterval => clamp(
                            moved,
                            Fixed::zero(),
                            Fixed::from_int(1),
                        ),
                        RollTargetBound::MaxBankAngle => clamp(
                            moved,
                            limits.max_bank_angle.negated(),
                            limits.max_bank_angle,
                        ),
                    };
                }
                let mut controller = self.controller;
                let output = controller.update_anti_windup(self.roll.minus(data.roll()), dt);
                self.controller = controller;
                output
            },
            _ => ailerons,
        }
    }
}

/// Returns a bank beyond the nominal angle toward it, stopping at it.
fn roll_returned(roll: Fixed, nominal: Fixed, dt: Fixed) -> (r: Fixed)
    ensures
        r@ == spec_roll_returned(roll@, nominal@, dt@),
{
    let step = Fixed::from_micros(ROLL_RETURN_RATE).times(dt);
    let beyond = if roll.raw >= 0 {
        roll.raw > nominal.raw
    } else {
        -(roll.raw as i128) > nominal.raw as i128
    };
    if !beyond {
        roll
    } else if roll.raw >= 0 {
        let moved = roll.minus(step);
        if moved.raw < nominal.raw {
            nominal
        } else {
            moved
        }
    } else {
        let moved = roll.plus(step);
        if moved.raw as i128 > -(nominal.raw as i128) {
            Fixed::from_micros((-(nominal.raw as i128)) as i64)
        } else {
            moved
        }
    }
}

/// The commanded positions of the control surfaces, each between minus one
/// and one.
#[derive(Clone, Copy, PartialEq, Eq, Structural, Debug)]
pub struct ControlSurfaces {
    pub elevator: Fixed,
    pub ailerons: Fixed,
    pub rudder: Fixed,
}

impl ControlSurfaces {
    /// Whether every command lies between minus one and one.
    pub open spec fn within_limits(self) -> bool {
        &&& -SCALE <= self.elevator@ <= SCALE
        &&& -SCALE <= self.ailerons@ <= SCALE
        &&& -SCALE <= self.rudder@ <= SCALE
    }
}

impl Default for ControlSurfaces {
    fn default() -> (r: ControlSurfaces)
        ensures
            r.elevator@ == 0,
            r.ailerons@ == 0,
            r.rudder@ == 0,
    {
        ControlSurfaces { elevator: Fixed::zero(), ailerons: Fixed::zero(), rudder: Fixed::zero() }
    }
}

/// The mathematical state of the surface control: the last commands and the
/// two axes.
pub struct ControlsModel {
    pub surfaces: ControlSurfaces,
    pub pitch: PitchModel,
    pub roll: RollModel,
}

impl ControlsModel {
    /// The state after one tick. With the autopilot engaged the pilot's
    /// demands pass through and the axes rest. Otherwise the pitch axis gives
    /// the elevator, the roll axis the ailerons, and the rudder follows the
    /// pedals.
    pub open spec fn updated(
        self,
        dt: int,
        frame: DataFrame,
        limits: NormalLawProtections,
        mode: PitchControl,
        input: Input,
    ) -> ControlsModel {
        if frame.autopilot {
            ControlsModel {
                surfaces: ControlSurfaces {
                    elevator: input.yoke_y,
                    ailerons: input.yoke_x,
                    rudder: input.rudder,
                },
                ..self
            }
        } else {
            let pitch = self.pitch.calculate(
                self.surfaces.elevator@,
                dt,
                frame,
                limits,
                mode,
                input,
            );
            let roll = self.roll.calculate(self.surfaces.ailerons@, dt, frame, limits, mode, input);
            ControlsModel {
                surfaces: ControlSurfaces {
                    elevator: Fixed { raw: pitch.1 as i64 },
                    ailerons: Fixed { raw: roll.1 as i64 },
                    rudder: input.rudder,
                },
                pitch: pitch.0,
                roll: roll.0,
            }
        }
    }
}

/// The surface control: the last commands and the two axis controllers.
#[derive(Clone, Copy, Debug)]
pub struct Controls {
    surfaces: ControlSurfaces,
    pitch_controller: PitchController,
    roll_controller: RollController,
}

impl View for Controls {
    type V = ControlsModel;

    closed spec fn view(&self) -> ControlsModel {
        ControlsModel {
            surfaces: self.surfaces,
            pitch: self.pitch_controller@,
            roll: self.roll_controller@,
        }
    }
}

impl Controls {
    /// Surfaces neutral and both axes at rest, the desired bank limited by
    /// the maximum bank angle.
    pub open spec fn spec_default() -> ControlsModel {
        Self::at_rest(
            RollModel {
                roll: 0,
                bound: RollTargetBound::MaxBankAngle,
                controller: pid_at_rest(SCALE as int, 100_000, 0, 20_000),
            },
        )
    }

    /// Surfaces neutral, the pitch axis at rest, and the roll axis in the
    /// state `roll`.
    pub open spec fn at_rest(roll: RollModel) -> ControlsModel {
        ControlsModel {
            surfaces: ControlSurfaces {
                elevator: Fixed { raw: 0 },
                ailerons: Fixed { raw: 0 },
                rudder: Fixed { raw: 0 },
            },
            pitch: PitchModel {
                aoa: pid_at_rest(2_000_000, 2_000, 0, 200),
                gforce: pid_at_rest(2_000_000, 8_000, 8_000, 1_000),
                pitch_rate: pid_at_rest(2_000_000, 10_000, 15_000, 2_500),
            },
            roll,
        }
    }
}

impl Default for Controls {
    fn default() -> (r: Controls)
        ensures
            r@ == Controls::spec_default(),
    {
        Controls::with_roll_controller(RollController::default())
    }
}

impl Controls {
    #[verifier::type_invariant]
    spec fn commands_within_limits(self) -> bool {
        self.surfaces.within_limits()
    }

    /// A surface control with the given roll axis, surfaces neutral and the
    /// pitch axis at rest.
    pub fn with_roll_controller(roll_controller: RollController) -> (r: Controls)
        ensures
            r@ == Controls::at_rest(roll_controller@),
    {
        Controls {
            surfaces: ControlSurfaces {
                elevator: Fixed { raw: 0 },
                ailerons: Fixed { raw: 0 },
                rudder: Fixed { raw: 0 },
            },
            pitch_controller: PitchController::default(),
            roll_controller,
        }
    }

    /// The last surface commands.
    pub fn surfaces(&self) -> (r: ControlSurfaces)
        ensures
            r == self@.surfaces,
            r.within_limits(),
    {
        proof {
            use_type_invariant(self);
        }
        self.surfaces
    }

    /// The desired bank angle of the roll axis, in degrees.
    pub fn target_roll(&self) -> (r: Fixed)
        ensures
            r@ == self@.roll.roll,
    {
        self.roll_controller.roll()
    }

    /// Computes the surface commands of this tick and returns them.
    pub fn update(
        &mut self,
        dt: Fixed,
        data: &Data,
        limits: &NormalLawProtections,
        pitch_control: &PitchControl,
        input: &Input,
    ) -> (r: ControlSurfaces)
        requires
            dt@ > 0,
            input.normalized(),
        ensures
            final(self)@ == old(self)@.updated(
                dt@,
                data.current(),
                *limits,
                *pitch_control,
                *input,
            ),
            r == final(self)@.surfaces,
            r.within_limits(),
    {
        proof {
            use_type_invariant(&*self);
        }
        if data.autopilot() {
            self.surfaces = ControlSurfaces {
                elevator: input.yoke_y,
                ailerons: input.yoke_x,
                rudder: input.rudder,
            };
        } else {
            let mut pitch_controller = self.pitch_controller;
            let mut roll_controller = self.roll_controller;
            let elevator = pitch_controller.calculate(
                self.surfaces.elevator,
                dt,
                data,
                limits,
                pitch_control,
                input,
            );
            let ailerons = roll_controller.calculate(
                self.surfaces.ailerons,
                dt,
                data,
                limits,
                pitch_control,
                input,
            );
            self.pitch_controller = pitch_controller;
            self.roll_controller = roll_controller;
            self.surfaces = ControlSurfaces { elevator, ailerons, rudder: input.rudder };
        }
        self.surfaces
    }
}

} // verus!
