//! The engine: one tick advances the protections, then the mode, then the
//! two axes, and yields the surface commands.

use vstd::prelude::*;

use crate::controls::{ControlSurfaces, Controls, ControlsModel};
use crate::data::{Data, DataFrame, FLAPS_FULL, FRAME_HISTORY};
use crate::fixed::{saturate, Fixed};
use crate::input::{EventID, Input};
use crate::pitch_control::{PitchControl, PitchControlMode};
use crate::protections::NormalLawProtections;
use crate::sim_time::SimTime;

verus! {

/// The mathematical state of the engine, the clock aside.
pub struct EngineModel {
    pub input: Input,
    pub protections: NormalLawProtections,
    pub pitch_control: PitchControl,
    pub controls: ControlsModel,
    pub frames: Seq<DataFrame>,
}

impl EngineModel {
    /// The state after one tick of `dt` seconds in which the aircraft is in
    /// the state `frame` and the pilot demands `input`: the frame becomes
    /// current, the protections advance on it, the mode stays, and the
    /// surface control answers under the new protections.
    pub open spec fn ticked(self, frame: DataFrame, input: Input, dt: int) -> EngineModel {
        let protections = self.protections.updated(dt, frame, input);
        EngineModel {
            input,
            protections,
            pitch_control: self.pitch_control,
            controls: self.controls.updated(dt, frame, protections, self.pitch_control, input),
            frames: Data::advanced(self.frames, frame),
        }
    }

    /// The state after the control-axis event `event_id` at `position`.
    pub open spec fn after_event(self, event_id: u32, position: i32) -> EngineModel {
        match EventID::spec_from(event_id) {
            Some(event) => EngineModel { input: self.input.after(event, position), ..self },
            None => self,
        }
    }
}

/// The fly-by-wire engine and everything it owns.
pub struct FBW {
    pub sim_time: SimTime,
    pub input: Input,
    pub normal_law_protections: NormalLawProtections,
    pub pitch_control: PitchControl,
    pub controls: Controls,
    pub data: Data,
}

impl View for FBW {
    type V = EngineModel;

    open spec fn view(&self) -> EngineModel {
        EngineModel {
            input: self.input,
            protections: self.normal_law_protections,
            pitch_control: self.pitch_control,
            controls: self.controls@,
            frames: self.data@,
        }
    }
}

impl FBW {
    /// An engine on the ground with the stick neutral, no protection active,
    /// the surfaces neutral and every controller at rest.
    pub fn new() -> (r: FBW)
        ensures
            r@.input.normalized(),
            r@.input == (Input {
                yoke_y: Fixed { raw: 0 },
                yoke_x: Fixed { raw: 0 },
                rudder: Fixed { raw: 0 },
            }),
            r@.protections == NormalLawProtections::with_limits(false, 0, false, 0),
            r@.pitch_control == (PitchControl {
                mode: PitchControlMode::Ground,
                flare_effect: Fixed { raw: 0 },
            }),
            r@.controls == Controls::spec_default(),
            r@.frames == Seq::new(FRAME_HISTORY as nat, |i: int| DataFrame::zeroed()),
            r.sim_time.previous_micros() == r.sim_time.current_micros(),
    {
        FBW {
            sim_time: SimTime::default(),
            input: Input::default(),
            normal_law_protections: NormalLawProtections::default(),
            pitch_control: PitchControl::default(),
            controls: Controls::default(),
            data: Data::default(),
        }
    }

    /// Starts the clock. The rest of the engine stays as it is.
    pub fn init(&mut self)
        ensures
            final(self)@ == old(self)@,
            final(self).sim_time.previous_micros() == old(self).sim_time.current_micros(),
            final(self).sim_time.current_micros() >= old(self).sim_time.current_micros(),
    {
        self.sim_time.init();
    }

    /// Applies a control-axis event to the pilot's demands. An unknown event
    /// identifier changes nothing; the result tells whether it was known.
    pub fn handle_event(&mut self, event_id: u32, position: i32) -> (known: bool)
        ensures
            known == (event_id <= 4),
            final(self)@ == old(self)@.after_event(event_id, position),
            final(self).sim_time == old(self).sim_time,
            old(self)@.input.normalized() ==> final(self)@.input.normalized(),
    {
        self.input.update(event_id, position)
    }

    /// Runs one tick of `dt` seconds and returns the surface commands.
    pub fn tick(&mut self, frame: DataFrame, input: Input, dt: Fixed) -> (r: ControlSurfaces)
        requires
            dt@ > 0,
            frame.flaps <= FLAPS_FULL,
            input.normalized(),
        ensures
            final(self)@ == old(self)@.ticked(frame, input, dt@),
            final(self).sim_time == old(self).sim_time,
            r == final(self)@.controls.surfaces,
            r.within_limits(),
    {
        self.data.update(frame);
        self.input = input;
        self.normal_law_protections.update(dt, &self.data, &self.input);
        self.pitch_control.update();
        self.controls.update(
            dt,
            &self.data,
            &self.normal_law_protections,
            &self.pitch_control,
            &self.input,
        )
    }

    /// Whether a tick can run on `frame` after `dt` seconds with the
    /// demands `input`: time has passed, the flap position is a known one,
    /// and the demands are normalised.
    pub open spec fn can_tick(frame: DataFrame, input: Input, dt: int) -> bool {
        dt > 0 && frame.flaps <= FLAPS_FULL && input.normalized()
    }

    /// Starts a new tick at the present wall-clock time and, where a tick can
    /// run on `frame` with the demands held, runs it and returns the surface
    /// commands. Otherwise only the clock moves, and nothing is returned.
    pub fn update(&mut self, frame: DataFrame) -> (r: Option<ControlSurfaces>)
        ensures
            final(self).sim_time.previous_micros() == old(self).sim_time.current_micros(),
            final(self).sim_time.current_micros() >= old(self).sim_time.current_micros(),
            ({
                let dt = saturate(
                    final(self).sim_time.current_micros() - final(self).sim_time.previous_micros(),
                );
                if Self::can_tick(frame, old(self)@.input, dt) {
                    &&& final(self)@ == old(self)@.ticked(frame, old(self)@.input, dt)
                    &&& r == Some(final(self)@.controls.surfaces)
                    &&& final(self)@.controls.surfaces.within_limits()
                } else {
                    &&& final(self)@ == old(self)@
                    &&& r is None
                }
            }),
    {
        self.sim_time.update();
        let dt = self.sim_time.delta();
        if dt.raw > 0 && frame.flaps <= FLAPS_FULL && self.input.is_normalized() {
            let input = self.input;
            Some(self.tick(frame, input, dt))
        } else {
            None
        }
    }
}

} // verus!
