//! Normal-law flight-control computation in fixed-point arithmetic.
//!
//! Each tick the engine turns the pilot's stick and pedal deflections and the
//! aircraft's state into limited elevator, aileron and rudder commands, and
//! enforces the angle-of-attack, load-factor, pitch-attitude and bank-angle
//! protections on the way.

use vstd::prelude::*;

pub mod controls;
pub mod data;
pub mod fbw;
pub mod fixed;
pub mod input;
pub mod pid;
pub mod pitch_control;
pub mod protections;
pub mod sim_time;

use crate::fixed::{clamp_int, product, ratio, saturate, Fixed, SCALE};

verus! {

/// Limits `x` to the interval from `min` to `max`: a value below `min`
/// becomes `min`, and a value that is then above `max` becomes `max`.
pub fn clamp(x: Fixed, min: Fixed, max: Fixed) -> (r: Fixed)
    ensures
        r@ == clamp_int(x@, min@, max@),
        min@ <= max@ ==> min@ <= r@ <= max@,
{
    let mut x = x;
    if x.raw < min.raw {
        x = min;
    }
    if x.raw > max.raw {
        x = max;
    }
    x
}

/// The point that lies the fraction `coefficient` of the way from `min` to `max`.
pub open spec fn spec_linear_range(coefficient: int, min: int, max: int) -> int {
    saturate(product(saturate(max - min), coefficient) + min)
}

/// Maps a normalised coefficient onto the span from `min` to `max`:
/// `(max - min) * coefficient + min`.
pub fn linear_range(coefficient: Fixed, min: Fixed, max: Fixed) -> (r: Fixed)
    ensures
        r@ == spec_linear_range(coefficient@, min@, max@),
{
    max.minus(min).times(coefficient).plus(min)
}

/// The share of a correction that is still applied at `position` while it
/// travels from `start`, where the share is one, to `end`, where it is zero.
/// The direction of travel is upward when `start < end` and downward otherwise.
pub open spec fn spec_linear_decay_coefficient(position: int, start: int, end: int) -> int {
    if start < end {
        if position <= start {
            SCALE as int
        } else if position >= end {
            0
        } else {
            ratio(end - position, end - start)
        }
    } else {
        if position >= start {
            SCALE as int
        } else if position <= end {
            0
        } else {
            ratio(position - end, start - end)
        }
    }
}

proof fn lemma_share_in_unit_interval(part: int, whole: int)
    by (nonlinear_arith)
    requires
        0 <= part <= whole,
        0 < whole,
    ensures
        0 <= (part * SCALE) / whole <= SCALE,
{
    assert(part * SCALE <= whole * SCALE);
    assert((whole * SCALE) / whole == SCALE);
}

/// The decay coefficient is a fraction between zero and one.
pub proof fn lemma_linear_decay_coefficient_bounds(position: int, start: int, end: int)
    ensures
        0 <= spec_linear_decay_coefficient(position, start, end) <= SCALE,
{
    if start < end {
        if start < position < end {
            lemma_share_in_unit_interval(end - position, end - start);
        }
    } else {
        if end < position < start {
            lemma_share_in_unit_interval(position - end, start - end);
        }
    }
}

/// At `start` the full correction applies and at `end` none of it, whichever
/// way the interval runs.
pub proof fn lemma_linear_decay_coefficient_boundary(start: int, end: int)
    requires
        start != end,
    ensures
        spec_linear_decay_coefficient(start, start, end) == SCALE,
        spec_linear_decay_coefficient(end, start, end) == 0,
{
}

/// Tapers a correction linearly: one until `position` has passed `start`,
/// zero once it has passed `end`, and the remaining share of the way between.
pub fn linear_decay_coefficient(position: Fixed, start: Fixed, end: Fixed) -> (r: Fixed)
    ensures
        r@ == spec_linear_decay_coefficient(position@, start@, end@),
        0 <= r@ <= SCALE,
{
    proof {
        lemma_linear_decay_coefficient_bounds(position@, start@, end@);
    }
    if start.raw < end.raw {
        if position.raw <= start.raw {
            Fixed::from_micros(SCALE)
        } else if position.raw >= end.raw {
            Fixed::zero()
        } else {
            share(end.raw as i128 - position.raw as i128, end.raw as i128 - start.raw as i128)
        }
    } else {
        if position.raw >= start.raw {
            Fixed::from_micros(SCALE)
        } else if position.raw <= end.raw {
            Fixed::zero()
        } else {
            share(position.raw as i128 - end.raw as i128, start.raw as i128 - end.raw as i128)
        }
    }
}

fn share(part: i128, whole: i128) -> (r: Fixed)
    requires
        0 <= part <= whole,
        0 < whole <= 0x1_0000_0000_0000_0000,
    ensures
        r@ == ratio(part as int, whole as int),
{
    proof {
        lemma_share_in_unit_interval(part as int, whole as int);
    }
    let q: i128 = (part * (SCALE as i128)) / whole;
    Fixed::from_micros(q as i64)
}

} // verus!
