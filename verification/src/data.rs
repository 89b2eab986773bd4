//! The aircraft state that the control laws read, and the angle-of-attack
//! thresholds that follow from the flap configuration.

use vstd::prelude::*;

use crate::fixed::Fixed;

verus! {

/// Number of state frames that are kept.
pub const FRAME_HISTORY: usize = 50;

/// Highest flap handle position (configuration FULL).
pub const FLAPS_FULL: u8 = 4;

/// One sample of the aircraft's state.
#[derive(Clone, Copy, PartialEq, Eq, Structural, Debug)]
pub struct DataFrame {
    /// Angle of attack in degrees.
    pub aoa: Fixed,
    /// Whether the autopilot is engaged.
    pub autopilot: bool,
    /// Position of the flap handle, from 0 (clean) to 4 (full).
    pub flaps: u8,
    /// Load factor in g.
    pub gforce: Fixed,
    /// Indicated airspeed in knots.
    pub ias: Fixed,
    /// Mach number.
    pub mach: Fixed,
    /// Maximum operating Mach number.
    pub mmo: Fixed,
    /// Whether the aircraft is on the ground.
    pub on_ground: bool,
    /// Pitch attitude in degrees, nose up positive.
    pub pitch: Fixed,
    /// Pitch rate in degrees per second, nose up positive.
    pub pitch_rate: Fixed,
    /// Roll attitude in degrees, right wing down positive.
    pub roll: Fixed,
    /// Maximum operating speed in knots.
    pub vmo: Fixed,
}

impl DataFrame {
    /// The frame in which every quantity is zero and every flag is off.
    pub open spec fn zeroed() -> DataFrame {
        DataFrame {
            aoa: Fixed { raw: 0 },
            autopilot: false,
            flaps: 0,
            gforce: Fixed { raw: 0 },
            ias: Fixed { raw: 0 },
            mach: Fixed { raw: 0 },
            mmo: Fixed { raw: 0 },
            on_ground: false,
            pitch: Fixed { raw: 0 },
            pitch_rate: Fixed { raw: 0 },
            roll: Fixed { raw: 0 },
            vmo: Fixed { raw: 0 },
        }
    }
}

impl Default for DataFrame {
    fn default() -> (r: DataFrame)
        ensures
            r == DataFrame::zeroed(),
    {
        DataFrame {
            aoa: Fixed { raw: 0 },
            autopilot: false,
            flaps: 0,
            gforce: Fixed { raw: 0 },
            ias: Fixed { raw: 0 },
            mach: Fixed { raw: 0 },
            mmo: Fixed { raw: 0 },
            on_ground: false,
            pitch: Fixed { raw: 0 },
            pitch_rate: Fixed { raw: 0 },
            roll: Fixed { raw: 0 },
            vmo: Fixed { raw: 0 },
        }
    }
}

/// Raw alpha-floor angle of a flap handle position; positions beyond the
/// known ones count as clean.
pub open spec fn spec_alpha_floor(flaps: u8) -> int {
    if flaps == 1 || flaps == 2 {
        15_000_000
    } else if flaps == 3 {
        14_000_000
    } else if flaps == 4 {
        13_000_000
    } else {
        9_500_000
    }
}

/// Raw angle of attack at which the protection starts to intervene:
/// nineteen twenty-firsts of alpha floor.
pub open spec fn spec_alpha_prot(flaps: u8) -> int {
    (19 * spec_alpha_floor(flaps)) / 21
}

/// Raw angle of attack at which the protection has full authority:
/// seven sixths of alpha floor.
pub open spec fn spec_alpha_max(flaps: u8) -> int {
    (7 * spec_alpha_floor(flaps)) / 6
}

/// In every flap configuration the thresholds are ordered:
/// alpha max lies above alpha prot, which lies above zero.
pub proof fn lemma_alpha_thresholds_ordered(flaps: u8)
    ensures
        spec_alpha_max(flaps) > spec_alpha_prot(flaps) > 0,
{
}

/// The recent history of the aircraft's state; the last frame is the current one.
pub struct Data {
    frames: Vec<DataFrame>,
}

impl View for Data {
    type V = Seq<DataFrame>;

    closed spec fn view(&self) -> Seq<DataFrame> {
        self.frames@
    }
}

impl Default for Data {
    fn default() -> (r: Data)
        ensures
            r@ == Seq::new(FRAME_HISTORY as nat, |i: int| DataFrame::zeroed()),
    {
        let mut frames: Vec<DataFrame> = Vec::new();
        while frames.len() < FRAME_HISTORY
            invariant
                frames.len() <= FRAME_HISTORY,
                forall|i: int| 0 <= i < frames.len() ==> frames@[i] == DataFrame::zeroed(),
            decreases FRAME_HISTORY - frames.len(),
        {
            frames.push(DataFrame::default());
        }
        assert(frames@ =~= Seq::new(FRAME_HISTORY as nat, |i: int| DataFrame::zeroed()));
        Data { frames }
    }
}

impl Data {
    #[verifier::type_invariant]
    spec fn full(self) -> bool {
        self.frames.len() == FRAME_HISTORY
    }

    /// The current frame.
    pub open spec fn current(&self) -> DataFrame {
        self@.last()
    }

    /// The history after `frame` has become current: the previous current
    /// frame moves to the front, the frame before it is dropped.
    pub open spec fn advanced(frames: Seq<DataFrame>, frame: DataFrame) -> Seq<DataFrame> {
        seq![frames.last()] + frames.subrange(0, frames.len() - 2) + seq![frame]
    }

    /// The current frame.
    pub fn current_frame(&self) -> (r: &DataFrame)
        ensures
            *r == self.current(),
            self@.len() == FRAME_HISTORY,
    {
        proof {
            use_type_invariant(self);
        }
        &self.frames[FRAME_HISTORY - 1]
    }

    /// Makes `frame` the current frame.
    pub fn update(&mut self, frame: DataFrame)
        ensures
            final(self)@ == Self::advanced(old(self)@, frame),
            final(self).current() == frame,
            final(self)@.len() == FRAME_HISTORY,
    {
        proof {
            use_type_invariant(&*self);
        }
        let mut frames: Vec<DataFrame> = Vec::new();
        frames.push(self.frames[FRAME_HISTORY - 1]);
        let mut i: usize = 0;
        while i < FRAME_HISTORY - 2
            invariant
                i <= FRAME_HISTORY - 2,
                self.frames.len() == FRAME_HISTORY,
                frames.len() == i + 1,
                frames@ =~= seq![self.frames@.last()] + self.frames@.subrange(0, i as int),
            decreases FRAME_HISTORY - i,
        {
            frames.push(self.frames[i]);
            i = i + 1;
        }
        frames.push(frame);
        assert(frames@ =~= Self::advanced(self.frames@, frame));
        self.frames = frames;
    }

    /// Angle of attack in degrees.
    pub fn alpha(&self) -> (r: Fixed)
        ensures
            r == self.current().aoa,
    {
        self.current_frame().aoa
    }

    /// Alpha floor of the current flap configuration, in degrees.
    pub fn alpha_floor(&self) -> (r: Fixed)
        ensures
            r@ == spec_alpha_floor(self.current().flaps),
    {
        let flaps = self.current_frame().flaps;
        if flaps == 1 || flaps == 2 {
            Fixed::from_micros(15_000_000)
        } else if flaps == 3 {
            Fixed::from_micros(14_000_000)
        } else if flaps == 4 {
            Fixed::from_micros(13_000_000)
        } else {
            Fixed::from_micros(9_500_000)
        }
    }

    /// Angle of attack at which the protection starts to intervene, in degrees.
    pub fn alpha_prot(&self) -> (r: Fixed)
        ensures
            r@ == spec_alpha_prot(self.current().flaps),
    {
        Fixed::from_micros(19 * self.alpha_floor().micros() / 21)
    }

    /// Angle of attack at which the protection has full authority, in degrees.
    pub fn alpha_max(&self) -> (r: Fixed)
        ensures
            r@ == spec_alpha_max(self.current().flaps),
    {
        Fixed::from_micros(7 * self.alpha_floor().micros() / 6)
    }

    /// Whether the autopilot is engaged.
    pub fn autopilot(&self) -> (r: bool)
        ensures
            r == self.current().autopilot,
    {
        self.current_frame().autopilot
    }

    /// Position of the flap handle.
    pub fn flaps(&self) -> (r: u8)
        ensures
            r == self.current().flaps,
    {
        self.current_frame().flaps
    }

    /// Load factor in g.
    pub fn gforce(&self) -> (r: Fixed)
        ensures
            r == self.current().gforce,
    {
        self.current_frame().gforce
    }

    /// Indicated airspeed in knots.
    pub fn ias(&self) -> (r: Fixed)
        ensures
            r == self.current().ias,
    {
        self.current_frame().ias
    }

    /// Mach number.
    pub fn mach(&self) -> (r: Fixed)
        ensures
            r == self.current().mach,
    {
        self.current_frame().mach
    }

    /// Maximum operating Mach number.
    pub fn mmo(&self) -> (r: Fixed)
        ensures
            r == self.current().mmo,
    {
        self.current_frame().mmo
    }

    /// Pitch attitude in degrees.
    pub fn pitch(&self) -> (r: Fixed)
        ensures
            r == self.current().pitch,
    {
        self.current_frame().pitch
    }

    /// Pitch rate in degrees per second.
    pub fn pitch_rate(&self) -> (r: Fixed)
        ensures
            r == self.current().pitch_rate,
    {
        self.current_frame().pitch_rate
    }

    /// Roll attitude in degrees.
    pub fn roll(&self) -> (r: Fixed)
        ensures
            r == self.current().roll,
    {
        self.current_frame().roll
    }

    /// Maximum operating speed in knots.
    pub fn vmo(&self) -> (r: Fixed)
        ensures
            r == self.current().vmo,
    {
        self.current_frame().vmo
    }
}

} // verus!
