//! A bounded proportional-integral-derivative feedback controller.

use vstd::prelude::*;

use crate::fixed::{clamp_int, product, ratio, saturate, Fixed};

verus! {

/// The mathematical state of a controller: limits, gains and memory, each as
/// a raw fixed-point value.
pub struct PidModel {
    pub output_min: int,
    pub output_max: int,
    pub kp: int,
    pub ki: int,
    pub kd: int,
    pub integral: int,
    pub last_error: int,
    pub last_output: int,
}

impl PidModel {
    /// The integral accumulator after `error` has acted for `dt` seconds.
    pub open spec fn accumulated(self, error: int, dt: int) -> int {
        saturate(self.integral + product(error, dt))
    }

    /// The limited sum of the proportional, integral and derivative terms,
    /// with the integral term taken from the accumulator value `integral`.
    pub open spec fn response(self, integral: int, error: int, dt: int) -> int {
        clamp_int(
            product(self.kp, error) + product(self.ki, integral) + product(
                self.kd,
                ratio(saturate(error - self.last_error), dt),
            ),
            self.output_min,
            self.output_max,
        )
    }

    /// The state after one evaluation that leaves `integral` in the accumulator.
    pub open spec fn step(self, integral: int, error: int, dt: int) -> PidModel {
        PidModel {
            integral,
            last_error: error,
            last_output: self.response(integral, error, dt),
            ..self
        }
    }

    /// The state after a plain update.
    pub open spec fn updated(self, error: int, dt: int) -> PidModel {
        self.step(self.accumulated(error, dt), error, dt)
    }

    /// Whether the anti-windup update holds the accumulator still: the last
    /// output lies within the limits, or the error and the last output
    /// differ in sign (zero counting as positive).
    pub open spec fn holds_integral(self, error: int) -> bool {
        let within = self.output_min <= self.last_output <= self.output_max;
        let opposed = (error < 0) != (self.last_output < 0);
        within || opposed
    }

    /// The state after an anti-windup update.
    pub open spec fn updated_anti_windup(self, error: int, dt: int) -> PidModel {
        if self.holds_integral(error) {
            self.step(self.integral, error, dt)
        } else {
            self.updated(error, dt)
        }
    }
}

/// Whatever the gains, the memory, the error and the time step are, the
/// output of an update lies within the output limits, with or without
/// anti-windup.
pub proof fn lemma_output_within_limits(model: PidModel, error: int, dt: int)
    requires
        model.output_min < model.output_max,
    ensures
        model.output_min <= model.updated(error, dt).last_output <= model.output_max,
        model.output_min <= model.updated_anti_windup(error, dt).last_output <= model.output_max,
{
}

/// While the last output lies within the output limits, an anti-windup
/// update leaves the integral accumulator exactly as it was, whatever the
/// error and the time step are.
pub proof fn lemma_anti_windup_keeps_integral(model: PidModel, error: int, dt: int)
    requires
        model.output_min <= model.last_output <= model.output_max,
    ensures
        model.updated_anti_windup(error, dt).integral == model.integral,
{
}

/// Once a controller has been updated, its last output lies within the
/// limits, so every later anti-windup update keeps the accumulator.
pub proof fn lemma_anti_windup_keeps_integral_after_update(
    model: PidModel,
    error: int,
    dt: int,
    next_error: int,
    next_dt: int,
)
    requires
        model.output_min < model.output_max,
    ensures
        model.updated(error, dt).updated_anti_windup(next_error, next_dt).integral
            == model.updated(error, dt).integral,
        model.updated_anti_windup(error, dt).updated_anti_windup(next_error, next_dt).integral
            == model.updated_anti_windup(error, dt).integral,
{
}

/// A feedback controller whose output is limited to a fixed interval.
#[derive(Clone, Copy, Debug)]
pub struct PIDController {
    output_min: Fixed,
    output_max: Fixed,
    kp: Fixed,
    kd: Fixed,
    ki: Fixed,
    integral: Fixed,
    last_error: Fixed,
    last_output: Fixed,
}

impl View for PIDController {
    type V = PidModel;

    closed spec fn view(&self) -> PidModel {
        PidModel {
            output_min: self.output_min@,
            output_max: self.output_max@,
            kp: self.kp@,
            ki: self.ki@,
            kd: self.kd@,
            integral: self.integral@,
            last_error: self.last_error@,
            last_output: self.last_output@,
        }
    }
}

impl PIDController {
    #[verifier::type_invariant]
    spec fn limits_ordered(self) -> bool {
        self.output_min@ < self.output_max@
    }

    /// A controller at rest with the given output limits and gains.
    pub fn new(
        output_min: Fixed,
        output_max: Fixed,
        kp: Fixed,
        ki: Fixed,
        kd: Fixed,
    ) -> (r: PIDController)
        requires
            output_min@ < output_max@,
        ensures
            r@ == (PidModel {
                output_min: output_min@,
                output_max: output_max@,
                kp: kp@,
                ki: ki@,
                kd: kd@,
                integral: 0,
                last_error: 0,
                last_output: 0,
            }),
    {
        PIDController {
            output_min,
            output_max,
            kp,
            kd,
            ki,
            integral: Fixed::zero(),
            last_error: Fixed::zero(),
            last_output: Fixed::zero(),
        }
    }

    /// Evaluates the controller with `integral` as the accumulator's new value.
    fn evaluate(&mut self, integral: Fixed, error: Fixed, dt: Fixed) -> (output: Fixed)
        requires
            dt@ > 0,
        ensures
            final(self)@ == old(self)@.step(integral@, error@, dt@),
            output@ == final(self)@.last_output,
            old(self)@.output_min <= output@ <= old(self)@.output_max,
            old(self)@.output_min < old(self)@.output_max,
    {
        proof {
            use_type_invariant(&*self);
        }
        let p = self.kp.times(error);
        let i = self.ki.times(integral);
        let d = self.kd.times(error.minus(self.last_error).over(dt));
        let mut sum: i128 = p.raw as i128 + i.raw as i128 + d.raw as i128;
        if sum < self.output_min.raw as i128 {
            sum = self.output_min.raw as i128;
        }
        if sum > self.output_max.raw as i128 {
            sum = self.output_max.raw as i128;
        }
        let output = Fixed::from_micros(sum as i64);
        self.integral = integral;
        self.last_output = output;
        self.last_error = error;
        output
    }

    /// Feeds `error`, observed over `dt` seconds, into the controller and
    /// returns the new output, which always lies within the limits.
    pub fn update(&mut self, error: Fixed, dt: Fixed) -> (output: Fixed)
        requires
            dt@ > 0,
        ensures
            final(self)@ == old(self)@.updated(error@, dt@),
            output@ == final(self)@.last_output,
            old(self)@.output_min <= output@ <= old(self)@.output_max,
    {
        let integral = self.integral.plus(error.times(dt));
        self.evaluate(integral, error, dt)
    }

    /// Like `update`, but the accumulator keeps its value whenever the last
    /// output lies within the limits or opposes the error in sign.
    pub fn update_anti_windup(&mut self, error: Fixed, dt: Fixed) -> (output: Fixed)
        requires
            dt@ > 0,
        ensures
            final(self)@ == old(self)@.updated_anti_windup(error@, dt@),
            output@ == final(self)@.last_output,
            old(self)@.output_min <= output@ <= old(self)@.output_max,
            old(self)@.output_min <= old(self)@.last_output <= old(self)@.output_max
                ==> final(self)@.integral == old(self)@.integral,
    {
        let within = self.last_output.raw >= self.output_min.raw && self.last_output.raw
            <= self.output_max.raw;
        let opposed = error.is_negative() != self.last_output.is_negative();
        if within || opposed {
            let integral = self.integral;
            self.evaluate(integral, error, dt)
        } else {
            self.update(error, dt)
        }
    }

    /// The output that `update` would return, with the controller left as it was.
    pub fn query(&mut self, error: Fixed, dt: Fixed) -> (output: Fixed)
        requires
            dt@ > 0,
        ensures
            final(self)@ == old(self)@,
            output@ == old(self)@.updated(error@, dt@).last_output,
            old(self)@.output_min <= output@ <= old(self)@.output_max,
    {
        proof {
            use_type_invariant(&*self);
        }
        let last_error = self.last_error;
        let last_output = self.last_output;
        let integral = self.integral;
        let update = self.update(error, dt);
        self.last_error = last_error;
        self.last_output = last_output;
        self.integral = integral;
        update
    }

    /// The lower output limit, which lies below the upper one.
    pub fn output_min(&self) -> (r: Fixed)
        ensures
            r@ == self@.output_min,
            r@ < self@.output_max,
    {
        proof {
            use_type_invariant(self);
        }
        self.output_min
    }

    /// The upper output limit.
    pub fn output_max(&self) -> (r: Fixed)
        ensures
            r@ == self@.output_max,
    {
        self.output_max
    }

    /// The integral accumulator.
    pub fn integral(&self) -> (r: Fixed)
        ensures
            r@ == self@.integral,
    {
        self.integral
    }

    /// The error given to the last evaluation.
    pub fn last_error(&self) -> (r: Fixed)
        ensures
            r@ == self@.last_error,
    {
        self.last_error
    }

    /// The output of the last evaluation.
    pub fn last_output(&self) -> (r: Fixed)
        ensures
            r@ == self@.last_output,
    {
        self.last_output
    }
}

} // verus!
