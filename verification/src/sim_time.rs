//! The engine's clock: the time of the current tick and of the one before.

use std::time::{Duration, SystemTime, SystemTimeError, UNIX_EPOCH};
use vstd::prelude::*;

use crate::fixed::{saturate, Fixed};

verus! {

#[verifier::external_type_specification]
#[verifier::external_body]
pub struct ExSystemTime(SystemTime);

/// `SystemTime::now`: reads the system's wall clock. Nothing is claimed of
/// the time it returns.
#[verifier::external_body]
fn wall_clock() -> (now: SystemTime) {
    SystemTime::now()
}

#[verifier::external_type_specification]
#[verifier::external_body]
pub struct ExSystemTimeError(SystemTimeError);

/// `SystemTime::duration_since`, against the Unix epoch: the time that has
/// passed since the epoch, or an error where `time` lies before it. Nothing
/// is claimed of which of the two comes back.
#[verifier::external_body]
fn since_epoch(time: &SystemTime) -> (elapsed: Result<Duration, SystemTimeError>) {
    time.duration_since(UNIX_EPOCH)
}

/// `Duration::as_micros`: the whole microseconds in a duration. Nothing is
/// claimed of the number.
#[verifier::external_body]
fn whole_micros(duration: &Duration) -> (micros: u128) {
    duration.as_micros()
}

/// The timestamp for a count of microseconds since the epoch: the count
/// itself, or the largest timestamp where it does not fit.
pub fn timestamp_from_micros(micros: u128) -> (r: u64)
    ensures
        r == if micros > u64::MAX {
            u64::MAX as int
        } else {
            micros as int
        },
{
    if micros > u64::MAX as u128 {
        u64::MAX
    } else {
        micros as u64
    }
}

/// Reads the wall clock as microseconds since the epoch; a clock set before
/// the epoch reads as zero.
fn read_clock() -> u64 {
    let now = wall_clock();
    match since_epoch(&now) {
        Ok(elapsed) => timestamp_from_micros(whole_micros(&elapsed)),
        Err(_) => 0,
    }
}

/// The times of the current and the previous tick, in microseconds since
/// the epoch. The clock never runs backwards.
#[derive(Clone, Copy, Debug)]
pub struct SimTime {
    previous: u64,
    current: u64,
}

impl Default for SimTime {
    /// A clock whose two ticks both lie at the present wall-clock time.
    fn default() -> (r: SimTime)
        ensures
            r.previous_micros() == r.current_micros(),
    {
        let t = read_clock();
        SimTime { previous: t, current: t }
    }
}

impl SimTime {
    #[verifier::type_invariant]
    spec fn monotonic(self) -> bool {
        self.previous <= self.current
    }

    /// Time of the previous tick.
    pub closed spec fn previous_micros(self) -> u64 {
        self.previous
    }

    /// Time of the current tick.
    pub closed spec fn current_micros(self) -> u64 {
        self.current
    }

    /// A clock whose two ticks both lie at `now`.
    pub fn starting_at(now: u64) -> (r: SimTime)
        ensures
            r.previous_micros() == now,
            r.current_micros() == now,
    {
        SimTime { previous: now, current: now }
    }

    /// Starts a new tick at the time `now`. The tick that was current becomes
    /// the previous one; a reading earlier than it counts as no time passed.
    pub fn advance(&mut self, now: u64)
        ensures
            final(self).previous_micros() == old(self).current_micros(),
            final(self).current_micros() == if now >= old(self).current_micros() {
                now
            } else {
                old(self).current_micros()
            },
    {
        let latest = self.current;
        self.previous = latest;
        if now >= latest {
            self.current = now;
        }
    }

    /// Starts the first tick at the present wall-clock time.
    pub fn init(&mut self)
        ensures
            final(self).previous_micros() == old(self).current_micros(),
            final(self).current_micros() >= old(self).current_micros(),
    {
        self.advance(read_clock());
    }

    /// Starts a new tick at the present wall-clock time.
    pub fn update(&mut self)
        ensures
            final(self).previous_micros() == old(self).current_micros(),
            final(self).current_micros() >= old(self).current_micros(),
    {
        self.advance(read_clock());
    }

    /// Seconds between the previous tick and the current one; never negative.
    pub fn delta(&self) -> (r: Fixed)
        ensures
            r@ == saturate(self.current_micros() - self.previous_micros()),
            r@ >= 0,
    {
        proof {
            use_type_invariant(self);
        }
        let elapsed = self.current - self.previous;
        if elapsed > i64::MAX as u64 {
            Fixed::from_micros(i64::MAX)
        } else {
            Fixed::from_micros(elapsed as i64)
        }
    }

    /// Seconds between the epoch and the current tick.
    pub fn current(&self) -> (r: Fixed)
        ensures
            r@ == saturate(self.current_micros() as int),
    {
        if self.current > i64::MAX as u64 {
            Fixed::from_micros(i64::MAX)
        } else {
            Fixed::from_micros(self.current as i64)
        }
    }
}

} // verus!
