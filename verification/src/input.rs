//! The pilot's stick and pedal deflections, decoded from control-axis events.

use vstd::prelude::*;

use crate::fixed::{clamp_int, quotient, Fixed, SCALE};

verus! {

/// Axis position that an event reports at full deflection.
pub const AXIS_FULL_SCALE: i32 = 16384;

/// The control-axis events that the engine listens to, in the order of their
/// numeric identifiers.
#[derive(Clone, Copy, PartialEq, Eq, Structural, Debug)]
pub enum EventID {
    /// The elevator axis was set.
    ElevatorSet,
    /// The aileron axis was set.
    AileronsSet,
    /// Ailerons and rudder were centred.
    CenterAileronsRudder,
    /// The rudder axis was set.
    RudderSet,
    /// The rudder was centred.
    RudderCenter,
}

impl EventID {
    /// The event with the numeric identifier `v`, if there is one.
    pub open spec fn spec_from(v: u32) -> Option<EventID> {
        if v == 0 {
            Some(EventID::ElevatorSet)
        } else if v == 1 {
            Some(EventID::AileronsSet)
        } else if v == 2 {
            Some(EventID::CenterAileronsRudder)
        } else if v == 3 {
            Some(EventID::RudderSet)
        } else if v == 4 {
            Some(EventID::RudderCenter)
        } else {
            None
        }
    }

    /// The numeric identifier of the event.
    pub open spec fn spec_id(self) -> u32 {
        match self {
            EventID::ElevatorSet => 0,
            EventID::AileronsSet => 1,
            EventID::CenterAileronsRudder => 2,
            EventID::RudderSet => 3,
            EventID::RudderCenter => 4,
        }
    }

    /// The simulator's name for the event.
    pub open spec fn spec_sim_event_name(self) -> Seq<char> {
        match self {
            EventID::ElevatorSet => "AXIS_ELEVATOR_SET"@,
            EventID::AileronsSet => "AXIS_AILERONS_SET"@,
            EventID::CenterAileronsRudder => "CENTER_AILER_RUDDER"@,
            EventID::RudderSet => "AXIS_RUDDER_SET"@,
            EventID::RudderCenter => "RUDDER_CENTER"@,
        }
    }

    /// The name under which the simulator knows the event.
    pub fn sim_event_name(self) -> (r: &'static str)
        ensures
            r@ == self.spec_sim_event_name(),
    {
        match self {
            EventID::ElevatorSet => "AXIS_ELEVATOR_SET",
            EventID::AileronsSet => "AXIS_AILERONS_SET",
            EventID::CenterAileronsRudder => "CENTER_AILER_RUDDER",
            EventID::RudderSet => "AXIS_RUDDER_SET",
            EventID::RudderCenter => "RUDDER_CENTER",
        }
    }

    /// Decodes a numeric event identifier.
    pub fn from(v: u32) -> (r: Option<EventID>)
        ensures
            r == Self::spec_from(v),
            r matches Some(e) ==> e.spec_id() == v,
            r is None <==> v > 4,
    {
        match v {
            0 => Some(EventID::ElevatorSet),
            1 => Some(EventID::AileronsSet),
            2 => Some(EventID::CenterAileronsRudder),
            3 => Some(EventID::RudderSet),
            4 => Some(EventID::RudderCenter),
            _ => None,
        }
    }

    /// The numeric identifier under which the event is registered.
    pub fn id(self) -> (r: u32)
        ensures
            r == self.spec_id(),
            Self::spec_from(r) == Some(self),
    {
        match self {
            EventID::ElevatorSet => 0,
            EventID::AileronsSet => 1,
            EventID::CenterAileronsRudder => 2,
            EventID::RudderSet => 3,
            EventID::RudderCenter => 4,
        }
    }
}

/// The deflection that an axis position stands for: the position divided by
/// the full-scale position, with the sign reversed, and limited to one unit
/// either way.
pub open spec fn spec_axis_deflection(position: i32) -> int {
    clamp_int(-quotient(position as int * SCALE, AXIS_FULL_SCALE as int), -SCALE, SCALE as int)
}

/// Converts an axis position into a deflection between minus one and one.
pub fn axis_deflection(position: i32) -> (r: Fixed)
    ensures
        r@ == spec_axis_deflection(position),
        -SCALE <= r@ <= SCALE,
{
    let scaled: i64 = -((position as i64 * SCALE) / (AXIS_FULL_SCALE as i64));
    if scaled < -SCALE {
        Fixed::from_micros(-SCALE)
    } else if scaled > SCALE {
        Fixed::from_micros(SCALE)
    } else {
        Fixed::from_micros(scaled)
    }
}

/// The pilot's demands, each between minus one and one.
#[derive(Clone, Copy, PartialEq, Eq, Structural, Debug)]
pub struct Input {
    /// Pitch demand: minus one is full down, one is full up.
    pub yoke_y: Fixed,
    /// Roll demand: minus one is full left, one is full right.
    pub yoke_x: Fixed,
    /// Yaw demand: minus one is full left, one is full right.
    pub rudder: Fixed,
}

impl Default for Input {
    fn default() -> (r: Input)
        ensures
            r.yoke_y@ == 0,
            r.yoke_x@ == 0,
            r.rudder@ == 0,
    {
        Input { yoke_y: Fixed::zero(), yoke_x: Fixed::zero(), rudder: Fixed::zero() }
    }
}

impl Input {
    /// Whether every demand lies between minus one and one.
    pub open spec fn normalized(self) -> bool {
        &&& -SCALE <= self.yoke_y@ <= SCALE
        &&& -SCALE <= self.yoke_x@ <= SCALE
        &&& -SCALE <= self.rudder@ <= SCALE
    }

    /// Tests whether every demand lies between minus one and one.
    pub fn is_normalized(&self) -> (r: bool)
        ensures
            r == self.normalized(),
    {
        -SCALE <= self.yoke_y.raw && self.yoke_y.raw <= SCALE && -SCALE <= self.yoke_x.raw
            && self.yoke_x.raw <= SCALE && -SCALE <= self.rudder.raw && self.rudder.raw <= SCALE
    }

    /// The demands after the event `event` has reported the axis position `position`.
    pub open spec fn after(self, event: EventID, position: i32) -> Input {
        let deflection = Fixed { raw: spec_axis_deflection(position) as i64 };
        match event {
            EventID::ElevatorSet => Input { yoke_y: deflection, ..self },
            EventID::AileronsSet => Input { yoke_x: deflection, ..self },
            EventID::CenterAileronsRudder => Input {
                yoke_x: Fixed { raw: 0 },
                rudder: Fixed { raw: 0 },
                ..self
            },
            EventID::RudderSet => Input { rudder: deflection, ..self },
            EventID::RudderCenter => Input { rudder: Fixed { raw: 0 }, ..self },
        }
    }

    /// Applies a control-axis event. An unknown event identifier changes
    /// nothing; the result tells whether the identifier was known.
    pub fn update(&mut self, event_id: u32, position: i32) -> (known: bool)
        ensures
            known == (event_id <= 4),
            match EventID::spec_from(event_id) {
                Some(event) => *final(self) == old(self).after(event, position),
                None => *final(self) == *old(self),
            },
            old(self).normalized() ==> final(self).normalized(),
    {
        match EventID::from(event_id) {
            Some(EventID::ElevatorSet) => {
                self.yoke_y = axis_deflection(position);
                true
            },
            Some(EventID::AileronsSet) => {
                self.yoke_x = axis_deflection(position);
                true
            },
            Some(EventID::CenterAileronsRudder) => {
                self.yoke_x = Fixed::zero();
                self.rudder = Fixed::zero();
                true
            },
            Some(EventID::RudderSet) => {
                self.rudder = axis_deflection(position);
                true
            },
            Some(EventID::RudderCenter) => {
                self.rudder = Fixed::zero();
                true
            },
            None => false,
        }
    }
}

} // verus!
