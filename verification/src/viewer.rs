//! What the viewer does with its switches and buttons: which commands it sends in a
//! frame, and when it builds a new simulation.
use vstd::prelude::*;
use crate::engine::Command;
use crate::faults::{FwFaults, QuadFaults, SurfaceFault};
use crate::fw_guidance::FixedWingSetpoint;
use crate::fwengine::FwCommand;
use crate::guidance::{GuidanceConfig, Waypoint};
use crate::input::PilotInput;
use crate::messages::{Setpoint, Vec3};
use crate::number::Real;
use crate::replay::AircraftKind;

verus! {

/// How many points the trail behind the aircraft keeps.
pub const TRAIL_CAP: usize = 1500;

/// How many points the trail on the map keeps.
pub const MAP_TRAIL_CAP: usize = 2000;

/// The number of the estimator that can fly missions.
pub const EST_INS: u8 = 2;

/// The configurations of the quadrotor.
#[derive(Clone, Copy, Debug, PartialEq, Eq, Structural)]
pub enum Preset {
    /// Light noise, complementary filter.
    Mvp,
    /// Realistic sensors, attitude filter.
    M2,
    /// Realistic sensors, inertial navigation, motor lag.
    M3,
}

/// What is flown, and how it is configured.
#[derive(Clone, Copy, Debug, PartialEq, Eq, Structural)]
pub enum SourcePlan {
    /// The fighter under manual control.
    Fighter,
    /// The fixed-wing aircraft under its autopilot.
    FixedWing,
    /// The quadrotor, with the demonstration mission or without.
    Quad { preset: Preset, lqr: bool, mission: bool },
}

/// What follows from the buttons of a frame.
#[derive(Clone, Copy, Debug, PartialEq, Eq, Structural)]
pub struct FrameActions {
    /// Tell the simulation to record, or not to.
    pub record: Option<bool>,
    /// Have the recording saved.
    pub save: bool,
    /// Build a new simulation and forget the trails.
    pub rebuild: bool,
    /// Centre the stick, throttle at trim.
    pub recenter: bool,
    /// Level the setpoint sliders.
    pub level: bool,
    /// Tell the new simulation to record.
    pub record_again: bool,
    /// Load the recording and play it.
    pub replay: bool,
}

/// What a click on "fly" leads to.
#[derive(Clone, Copy, Debug, PartialEq, Eq, Structural)]
pub enum FlyPlan {
    /// Hand the route to the fixed-wing aircraft.
    Route,
    /// Hand the route to the quadrotor, after building a new one if need be.
    Mission { rebuild: bool },
}

/// A surface of the fixed-wing aircraft.
#[derive(Clone, Copy, Debug, PartialEq, Eq, Structural)]
pub enum Surface {
    Aileron,
    Elevator,
    Rudder,
}

/// The buttons of the controls window.
#[derive(Clone, Copy, Debug, PartialEq, Eq, Structural)]
pub enum Button {
    Save,
    /// Play on, or stop playing.
    TogglePlay,
    /// Go back to a running simulation.
    Live,
    /// Move the playhead.
    Seek(Real),
    Reset,
    /// Load the recording and play it.
    PlayFile,
    DropStorm,
    ClearStorm,
}

/// What can be flown.
#[derive(Clone, Copy, Debug, PartialEq, Eq, Structural)]
pub enum Airframe {
    Quad,
    FixedWing,
    Fighter,
}

/// The pages of the controls window.
#[derive(Clone, Copy, Debug, PartialEq, Eq, Structural)]
pub enum ControlsPage {
    /// Playing back; with a slider if the recording lasts.
    Replay { slider: bool },
    /// The quadrotor: with the choice of the mission, or the hint that the estimator cannot
    /// fly it, and with sliders for the setpoint unless the mission is flown.
    Quad { mission_choice: bool, mission_hint: bool, sliders: bool },
    Fighter,
    /// The fixed-wing aircraft under its autopilot.
    Cruise,
}

/// The switches and buttons of the viewer.
#[derive(Clone, Copy, Debug, PartialEq, Eq, Structural)]
pub struct Ui {
    pub fixed_wing: bool,
    /// The fixed-wing aircraft is the fighter, flown by hand.
    pub fighter: bool,
    pub fbw_on: bool,
    /// 0 complementary filter, 1 attitude filter, 2 inertial navigation.
    pub est_kind: u8,
    pub controller_lqr: bool,
    pub mission_on: bool,
    /// A route is flown, so the cruise setpoint is not sent.
    pub fw_route_on: bool,
    pub fw_faults: FwFaults,
    pub quad_dead_rotor: Option<usize>,
    pub paused: bool,
    pub recording: bool,
    // Buttons, pressed for one frame.
    pub do_airframe_switch: bool,
    pub do_reset: bool,
    pub do_save: bool,
    pub do_replay: bool,
    pub do_live: bool,
    pub drop_storm: bool,
    pub clear_storm: bool,
    pub replay_toggle_play: bool,
    pub replay_seek: Option<Real>,
}

impl Ui {
    pub open spec fn first_frame() -> Ui {
        Ui {
            fixed_wing: false,
            fighter: false,
            fbw_on: true,
            est_kind: EST_INS,
            controller_lqr: false,
            mission_on: true,
            fw_route_on: false,
            fw_faults: FwFaults::healthy(),
            quad_dead_rotor: None,
            paused: false,
            recording: false,
            do_airframe_switch: false,
            do_reset: false,
            do_save: false,
            do_replay: false,
            do_live: false,
            drop_storm: false,
            clear_storm: false,
            replay_toggle_play: false,
            replay_seek: None,
        }
    }

    /// The fighter is a fixed-wing aircraft.
    pub open spec fn wf(self) -> bool {
        self.fighter ==> self.fixed_wing
    }

    /// The switches and buttons with a button pressed. A button that the window does not offer
    /// does nothing.
    pub open spec fn pressed(self, b: Button, is_replay: bool) -> Ui {
        Ui {
            do_save: self.do_save || b is Save,
            replay_toggle_play: self.replay_toggle_play || (b is TogglePlay && is_replay),
            do_live: self.do_live || (b is Live && is_replay),
            replay_seek: match b {
                Button::Seek(t) => if is_replay {
                    Some(t)
                } else {
                    self.replay_seek
                },
                _ => self.replay_seek,
            },
            do_reset: self.do_reset || (b is Reset && !is_replay),
            do_replay: self.do_replay || (b is PlayFile && !is_replay),
            drop_storm: self.drop_storm || (b is DropStorm && !is_replay),
            clear_storm: self.clear_storm || (b is ClearStorm && !is_replay),
            ..self
        }
    }

    /// Whether two settings fly the same aircraft in the same way: the airframe, its
    /// fly-by-wire law, estimator, controller, mission, route, faults and pause.
    pub open spec fn same_flight(self, other: Ui) -> bool {
        &&& self.fixed_wing == other.fixed_wing
        &&& self.fighter == other.fighter
        &&& self.fbw_on == other.fbw_on
        &&& self.est_kind == other.est_kind
        &&& self.controller_lqr == other.controller_lqr
        &&& self.mission_on == other.mission_on
        &&& self.fw_route_on == other.fw_route_on
        &&& self.fw_faults == other.fw_faults
        &&& self.quad_dead_rotor == other.quad_dead_rotor
        &&& self.paused == other.paused
    }

    /// What is flown.
    pub open spec fn airframe(self) -> Airframe {
        if !self.fixed_wing {
            Airframe::Quad
        } else if self.fighter {
            Airframe::Fighter
        } else {
            Airframe::FixedWing
        }
    }

    /// The switches with an aircraft selected. Another one means a switch; the fighter starts
    /// with the fly-by-wire law on.
    pub open spec fn with_airframe(self, a: Airframe) -> Ui {
        if self.airframe() == a {
            self
        } else {
            Ui {
                fixed_wing: a != Airframe::Quad,
                fighter: a == Airframe::Fighter,
                fbw_on: self.fbw_on || a == Airframe::Fighter,
                do_airframe_switch: true,
                ..self
            }
        }
    }

    /// The quadrotor flies its mission with inertial navigation.
    pub fn new() -> (r: Ui)
        ensures
            r == Ui::first_frame(),
            r.wf(),
    {
        Ui {
            fixed_wing: false,
            fighter: false,
            fbw_on: true,
            est_kind: EST_INS,
            controller_lqr: false,
            mission_on: true,
            fw_route_on: false,
            fw_faults: FwFaults::none(),
            quad_dead_rotor: None,
            paused: false,
            recording: false,
            do_airframe_switch: false,
            do_reset: false,
            do_save: false,
            do_replay: false,
            do_live: false,
            drop_storm: false,
            clear_storm: false,
            replay_toggle_play: false,
            replay_seek: None,
        }
    }

    /// Whether the quadrotor flies a mission.
    pub open spec fn flies_mission(self) -> bool {
        self.mission_on && self.est_kind == EST_INS
    }

    pub fn in_mission(&self) -> (r: bool)
        ensures
            r == self.flies_mission(),
    {
        self.mission_on && self.est_kind == EST_INS
    }

    /// Selects the quadrotor.
    pub fn select_quad(&mut self, is_replay: bool)
        ensures
            is_replay ==> *final(self) == *old(self),
            !is_replay ==> *final(self) == old(self).with_airframe(Airframe::Quad),
            old(self).wf() ==> final(self).wf(),
    {
        if is_replay {
            return;
        }
        if self.fixed_wing {
            self.fixed_wing = false;
            self.fighter = false;
            self.do_airframe_switch = true;
        }
    }

    /// Selects the fixed-wing aircraft under its autopilot.
    pub fn select_fixed_wing(&mut self, is_replay: bool)
        ensures
            is_replay ==> *final(self) == *old(self),
            !is_replay ==> *final(self) == old(self).with_airframe(Airframe::FixedWing),
            old(self).wf() ==> final(self).wf(),
    {
        if is_replay {
            return;
        }
        if !(self.fixed_wing && !self.fighter) {
            self.fixed_wing = true;
            self.fighter = false;
            self.do_airframe_switch = true;
        }
    }

    /// Selects the fighter; it starts with the fly-by-wire law on.
    pub fn select_fighter(&mut self, is_replay: bool)
        ensures
            is_replay ==> *final(self) == *old(self),
            !is_replay ==> *final(self) == old(self).with_airframe(Airframe::Fighter),
            old(self).wf() ==> final(self).wf(),
    {
        if is_replay {
            return;
        }
        if !(self.fixed_wing && self.fighter) {
            self.fixed_wing = true;
            self.fighter = true;
            self.fbw_on = true;
            self.do_airframe_switch = true;
        }
    }

    /// Selects an estimator; another one means a reset.
    pub fn select_estimator(&mut self, kind: u8, is_replay: bool)
        ensures
            is_replay ==> *final(self) == *old(self),
            !is_replay ==> *final(self) == (if old(self).est_kind == kind {
                *old(self)
            } else {
                Ui { est_kind: kind, do_reset: true, ..*old(self) }
            }),
            old(self).wf() ==> final(self).wf(),
    {
        if is_replay {
            return;
        }
        if self.est_kind != kind {
            self.est_kind = kind;
            self.do_reset = true;
        }
    }

    /// Selects the inner controller; another one means a reset.
    pub fn select_controller(&mut self, lqr: bool, is_replay: bool)
        ensures
            is_replay ==> *final(self) == *old(self),
            !is_replay ==> *final(self) == (if old(self).controller_lqr == lqr {
                *old(self)
            } else {
                Ui { controller_lqr: lqr, do_reset: true, ..*old(self) }
            }),
            old(self).wf() ==> final(self).wf(),
    {
        if is_replay {
            return;
        }
        if self.controller_lqr != lqr {
            self.controller_lqr = lqr;
            self.do_reset = true;
        }
    }

    /// Chooses whether to fly the mission; another choice means a reset.
    pub fn choose_mission(&mut self, on: bool, is_replay: bool)
        ensures
            is_replay ==> *final(self) == *old(self),
            !is_replay ==> *final(self) == (if old(self).mission_on == on {
                *old(self)
            } else {
                Ui { mission_on: on, do_reset: true, ..*old(self) }
            }),
            old(self).wf() ==> final(self).wf(),
    {
        if is_replay {
            return;
        }
        if self.mission_on != on {
            self.mission_on = on;
            self.do_reset = true;
        }
    }

    /// Stops a rotor of the quadrotor.
    pub fn kill_rotor(&mut self, i: usize, is_replay: bool)
        ensures
            is_replay ==> *final(self) == *old(self),
            !is_replay ==> *final(self) == (Ui { quad_dead_rotor: Some(i), ..*old(self) }),
            old(self).wf() ==> final(self).wf(),
    {
        if is_replay {
            return;
        }
        self.quad_dead_rotor = Some(i);
    }

    /// Jams a surface of the fixed-wing aircraft at neutral, or frees it.
    pub fn jam_surface(&mut self, surface: Surface, on: bool, is_replay: bool)
        ensures
            is_replay ==> *final(self) == *old(self),
            !is_replay ==> *final(self) == (Ui {
                fw_faults: with_surface(old(self).fw_faults, surface, jammed(on)),
                ..*old(self)
            }),
            old(self).wf() ==> final(self).wf(),
    {
        if is_replay {
            return;
        }
        self.fw_faults = set_surface(self.fw_faults, surface, jam(on));
    }

    /// Lets the engine of the fixed-wing aircraft quit, or run.
    pub fn stop_engine(&mut self, on: bool, is_replay: bool)
        ensures
            is_replay ==> *final(self) == *old(self),
            !is_replay ==> *final(self) == (Ui {
                fw_faults: FwFaults { engine_out: on, ..old(self).fw_faults },
                ..*old(self)
            }),
            old(self).wf() ==> final(self).wf(),
    {
        if is_replay {
            return;
        }
        self.fw_faults.engine_out = on;
    }

    /// Takes the tail off the fixed-wing aircraft, or puts it on.
    pub fn lose_tail(&mut self, on: bool, is_replay: bool)
        ensures
            is_replay ==> *final(self) == *old(self),
            !is_replay ==> *final(self) == (Ui {
                fw_faults: FwFaults { tail_loss: on, ..old(self).fw_faults },
                ..*old(self)
            }),
            old(self).wf() ==> final(self).wf(),
    {
        if is_replay {
            return;
        }
        self.fw_faults.tail_loss = on;
    }

    /// Turns the fly-by-wire law on or off.
    pub fn toggle_fbw(&mut self, is_replay: bool)
        ensures
            is_replay ==> *final(self) == *old(self),
            !is_replay ==> *final(self) == (Ui { fbw_on: !old(self).fbw_on, ..*old(self) }),
            old(self).wf() ==> final(self).wf(),
    {
        if is_replay {
            return;
        }
        self.fbw_on = !self.fbw_on;
    }

    /// Pauses, or goes on.
    pub fn set_paused(&mut self, on: bool, is_replay: bool)
        ensures
            is_replay ==> *final(self) == *old(self),
            !is_replay ==> *final(self) == (Ui { paused: on, ..*old(self) }),
            old(self).wf() ==> final(self).wf(),
    {
        if is_replay {
            return;
        }
        self.paused = on;
    }

    /// Presses a button, if the window offers it: while a recording is played back the
    /// buttons of the playhead, else those of the simulation; saving always.
    pub fn press(&mut self, b: Button, is_replay: bool)
        ensures
            *final(self) == old(self).pressed(b, is_replay),
            old(self).wf() ==> final(self).wf(),
    {
        let seek = match b {
            Button::Seek(t) => if is_replay {
                Some(t)
            } else {
                self.replay_seek
            },
            _ => self.replay_seek,
        };
        *self = Ui {
            do_save: held(self.do_save, b == Button::Save, true),
            replay_toggle_play: held(self.replay_toggle_play, b == Button::TogglePlay, is_replay),
            do_live: held(self.do_live, b == Button::Live, is_replay),
            replay_seek: seek,
            do_reset: held(self.do_reset, b == Button::Reset, !is_replay),
            do_replay: held(self.do_replay, b == Button::PlayFile, !is_replay),
            drop_storm: held(self.drop_storm, b == Button::DropStorm, !is_replay),
            clear_storm: held(self.clear_storm, b == Button::ClearStorm, !is_replay),
            ..*self
        };
    }

    /// Repairs what is flown.
    pub fn repair(&mut self, is_replay: bool)
        ensures
            is_replay ==> *final(self) == *old(self),
            !is_replay ==> *final(self) == (if old(self).fixed_wing {
                Ui { fw_faults: FwFaults::healthy(), ..*old(self) }
            } else {
                Ui { quad_dead_rotor: None, ..*old(self) }
            }),
            old(self).wf() ==> final(self).wf(),
    {
        if is_replay {
            return;
        }
        if self.fixed_wing {
            self.fw_faults = FwFaults::none();
        } else {
            self.quad_dead_rotor = None;
        }
    }

    /// Which page the controls window shows. `span` are the ends of the recording that is
    /// played back.
    pub open spec fn controls_page(self, span: Option<(Real, Real)>) -> ControlsPage {
        match span {
            Some((first, last)) => ControlsPage::Replay { slider: first.less(last) },
            None => if !self.fixed_wing {
                ControlsPage::Quad {
                    mission_choice: self.est_kind == EST_INS,
                    mission_hint: self.est_kind != EST_INS && self.mission_on,
                    sliders: !self.flies_mission(),
                }
            } else if self.fighter {
                ControlsPage::Fighter
            } else {
                ControlsPage::Cruise
            },
        }
    }

    /// Which page the controls window shows.
    pub fn page(&self, span: Option<(Real, Real)>) -> (r: ControlsPage)
        ensures
            r == self.controls_page(span),
    {
        match span {
            Some((first, last)) => ControlsPage::Replay { slider: first.lt(last) },
            None => if !self.fixed_wing {
                ControlsPage::Quad {
                    mission_choice: self.est_kind == EST_INS,
                    mission_hint: self.est_kind != EST_INS && self.mission_on,
                    sliders: !self.in_mission(),
                }
            } else if self.fighter {
                ControlsPage::Fighter
            } else {
                ControlsPage::Cruise
            },
        }
    }

    /// What is flown with the present switches.
    pub open spec fn source(self) -> SourcePlan {
        if self.fixed_wing {
            if self.fighter {
                SourcePlan::Fighter
            } else {
                SourcePlan::FixedWing
            }
        } else {
            SourcePlan::Quad {
                preset: preset_value(self.est_kind),
                lqr: self.controller_lqr,
                mission: self.flies_mission(),
            }
        }
    }

    /// What is flown with the present switches.
    pub fn make_source(&self) -> (r: SourcePlan)
        ensures
            r == self.source(),
    {
        if self.fixed_wing {
            if self.fighter {
                SourcePlan::Fighter
            } else {
                SourcePlan::FixedWing
            }
        } else {
            SourcePlan::Quad {
                preset: make_cfg(self.est_kind),
                lqr: self.controller_lqr,
                mission: self.in_mission(),
            }
        }
    }

    /// The commands that the quadrotor gets in every frame. The wind blows east. While a
    /// mission is flown the setpoint is not sent: it would end the mission.
    pub fn quad_commands(&self, speed: Real, wind: Real, turbulence: Real, sp: Setpoint) -> (r: Vec<
        Command,
    >)
        ensures
            r@ == quad_frame(*self, speed, wind, turbulence, sp),
    {
        let mut r: Vec<Command> = Vec::new();
        r.push(Command::Pause(self.paused));
        r.push(Command::SetSpeed(speed));
        r.push(Command::SetWind(Vec3::new(Real::zero(), wind, Real::zero())));
        r.push(Command::SetTurbulence(turbulence));
        r.push(Command::SetFaults(QuadFaults { dead_rotor: self.quad_dead_rotor }));
        if !self.in_mission() {
            r.push(Command::SetSetpoint(sp));
        }
        assert(r@ =~= quad_frame(*self, speed, wind, turbulence, sp));
        r
    }

    /// The commands that the fixed-wing aircraft gets in every frame. The pilot's switch
    /// turns the fly-by-wire law on or off. While a route is flown the cruise setpoint is
    /// not sent: it would end the route.
    pub fn fw_commands(
        &mut self,
        speed: Real,
        wind: Real,
        turbulence: Real,
        pilot: &PilotInput,
        cruise: FixedWingSetpoint,
    ) -> (r: Vec<FwCommand>)
        ensures
            *final(self) == (Ui {
                fbw_on: old(self).fbw_on != (old(self).fighter && pilot.toggle_fbw),
                ..*old(self)
            }),
            old(self).wf() ==> final(self).wf(),
            r@ == fw_frame(*final(self), speed, wind, turbulence, *pilot, cruise),
    {
        let mut r: Vec<FwCommand> = Vec::new();
        r.push(FwCommand::Pause(self.paused));
        r.push(FwCommand::SetSpeed(speed));
        r.push(FwCommand::SetWind(Vec3::new(Real::zero(), wind, Real::zero())));
        r.push(FwCommand::SetTurbulence(turbulence));
        r.push(FwCommand::SetFaults(self.fw_faults));
        if self.fighter {
            if pilot.toggle_fbw {
                self.fbw_on = !self.fbw_on;
            }
            r.push(FwCommand::SetFbw(self.fbw_on));
            r.push(FwCommand::SetStick(pilot.stick));
        } else if !self.fw_route_on {
            r.push(FwCommand::SetCruise(cruise));
        }
        assert(r@ =~= fw_frame(*self, speed, wind, turbulence, *pilot, cruise));
        r
    }

    /// Lets go of all buttons. A pilot's reset counts as the reset button of the fighter.
    pub fn release_buttons(&mut self, pilot_reset: bool)
        ensures
            *final(self) == (Ui {
                do_airframe_switch: false,
                do_reset: old(self).fighter && pilot_reset,
                do_save: false,
                do_replay: false,
                do_live: false,
                drop_storm: false,
                clear_storm: false,
                replay_toggle_play: false,
                replay_seek: None,
                ..*old(self)
            }),
            old(self).wf() ==> final(self).wf(),
    {
        self.do_airframe_switch = false;
        self.do_reset = self.fighter && pilot_reset;
        self.do_save = false;
        self.do_replay = false;
        self.do_live = false;
        self.drop_storm = false;
        self.clear_storm = false;
        self.replay_toggle_play = false;
        self.replay_seek = None;
    }

    /// Whether the buttons ask for a new simulation.
    pub open spec fn wants_rebuild(self) -> bool {
        self.do_reset || self.do_live || self.do_airframe_switch
    }

    /// Obeys the buttons. A new simulation has no route; a new fighter starts with the
    /// fly-by-wire law on; a reset ends the recording, any other rebuild carries it over.
    pub fn apply_buttons(&mut self, was_recording: bool) -> (r: FrameActions)
        ensures
            *final(self) == (Ui {
                fw_route_on: old(self).fw_route_on && !old(self).wants_rebuild(),
                fbw_on: old(self).fbw_on || (old(self).wants_rebuild() && old(self).fighter),
                recording: old(self).recording && !old(self).do_reset,
                ..*old(self)
            }),
            old(self).wf() ==> final(self).wf(),
            r == (FrameActions {
                record: if old(self).recording != was_recording {
                    Some(old(self).recording)
                } else {
                    None
                },
                save: old(self).do_save,
                rebuild: old(self).wants_rebuild(),
                recenter: old(self).wants_rebuild() && old(self).fighter,
                level: old(self).do_reset,
                record_again: old(self).wants_rebuild() && final(self).recording,
                replay: old(self).do_replay,
            }),
    {
        let record: Option<bool> = if self.recording != was_recording {
            Some(self.recording)
        } else {
            None
        };
        let rebuild: bool = self.do_reset || self.do_live || self.do_airframe_switch;
        if rebuild {
            self.fw_route_on = false;
            if self.fighter {
                self.fbw_on = true;
            }
            if self.do_reset {
                self.recording = false;
            }
        }
        FrameActions {
            record,
            save: self.do_save,
            rebuild,
            recenter: rebuild && self.fighter,
            level: self.do_reset,
            record_again: rebuild && self.recording,
            replay: self.do_replay,
        }
    }

    /// Flies a drawn route. The quadrotor needs inertial navigation for it.
    pub fn fly_route(&mut self, kind: AircraftKind) -> (r: FlyPlan)
        ensures
            match kind {
                AircraftKind::FixedWing => r == FlyPlan::Route && *final(self) == (Ui {
                    fw_route_on: true,
                    ..*old(self)
                }),
                AircraftKind::Quad => r == (FlyPlan::Mission {
                    rebuild: old(self).est_kind != EST_INS,
                }) && *final(self) == (Ui {
                    est_kind: EST_INS,
                    mission_on: true,
                    ..*old(self)
                }),
            },
            old(self).wf() ==> final(self).wf(),
    {
        match kind {
            AircraftKind::FixedWing => {
                self.fw_route_on = true;
                FlyPlan::Route
            },
            AircraftKind::Quad => {
                let rebuild: bool = self.est_kind != EST_INS;
                self.est_kind = EST_INS;
                self.mission_on = true;
                FlyPlan::Mission { rebuild }
            },
        }
    }

    /// Gives up a route: the quadrotor holds its attitude, the fixed-wing aircraft its
    /// cruise setpoint.
    pub fn clear_route(&mut self, kind: AircraftKind)
        ensures
            *final(self) == (match kind {
                AircraftKind::Quad => Ui { mission_on: false, ..*old(self) },
                AircraftKind::FixedWing => Ui { fw_route_on: false, ..*old(self) },
            }),
            old(self).wf() ==> final(self).wf(),
    {
        match kind {
            AircraftKind::Quad => {
                self.mission_on = false;
            },
            AircraftKind::FixedWing => {
                self.fw_route_on = false;
            },
        }
    }
}

/// Whether a button is down: it was, or it is pressed and offered.
fn held(was: bool, pressed: bool, offered: bool) -> (r: bool)
    ensures
        r == (was || (pressed && offered)),
{
    was || (pressed && offered)
}

/// The configuration that belongs to an estimator's number.
pub open spec fn preset_value(est_kind: u8) -> Preset {
    if est_kind == 0 {
        Preset::Mvp
    } else if est_kind == 1 {
        Preset::M2
    } else {
        Preset::M3
    }
}

/// The configuration that belongs to an estimator's number.
pub fn make_cfg(est_kind: u8) -> (r: Preset)
    ensures
        r == preset_value(est_kind),
{
    match est_kind {
        0 => Preset::Mvp,
        1 => Preset::M2,
        _ => Preset::M3,
    }
}

/// The quadrotor's commands in a frame.
pub open spec fn quad_frame(
    ui: Ui,
    speed: Real,
    wind: Real,
    turbulence: Real,
    sp: Setpoint,
) -> Seq<Command> {
    seq![
        Command::Pause(ui.paused),
        Command::SetSpeed(speed),
        Command::SetWind(Vec3 { x: Real::zero_value(), y: wind, z: Real::zero_value() }),
        Command::SetTurbulence(turbulence),
        Command::SetFaults(QuadFaults { dead_rotor: ui.quad_dead_rotor }),
    ] + if ui.flies_mission() {
        seq![]
    } else {
        seq![Command::SetSetpoint(sp)]
    }
}

/// The fixed-wing aircraft's commands in a frame.
pub open spec fn fw_frame(
    ui: Ui,
    speed: Real,
    wind: Real,
    turbulence: Real,
    pilot: PilotInput,
    cruise: FixedWingSetpoint,
) -> Seq<FwCommand> {
    seq![
        FwCommand::Pause(ui.paused),
        FwCommand::SetSpeed(speed),
        FwCommand::SetWind(Vec3 { x: Real::zero_value(), y: wind, z: Real::zero_value() }),
        FwCommand::SetTurbulence(turbulence),
        FwCommand::SetFaults(ui.fw_faults),
    ] + if ui.fighter {
        seq![FwCommand::SetFbw(ui.fbw_on), FwCommand::SetStick(pilot.stick)]
    } else if ui.fw_route_on {
        seq![]
    } else {
        seq![FwCommand::SetCruise(cruise)]
    }
}

/// A surface jammed at neutral, or a sound one.
pub open spec fn jammed(on: bool) -> SurfaceFault {
    if on {
        SurfaceFault::Jammed(Real::zero_value())
    } else {
        SurfaceFault::Normal
    }
}

/// The faults with another state of one surface.
pub open spec fn with_surface(f: FwFaults, surface: Surface, s: SurfaceFault) -> FwFaults {
    match surface {
        Surface::Aileron => FwFaults { aileron: s, ..f },
        Surface::Elevator => FwFaults { elevator: s, ..f },
        Surface::Rudder => FwFaults { rudder: s, ..f },
    }
}

/// The faults with another state of one surface.
fn set_surface(f: FwFaults, surface: Surface, s: SurfaceFault) -> (r: FwFaults)
    ensures
        r == with_surface(f, surface, s),
{
    match surface {
        Surface::Aileron => FwFaults { aileron: s, ..f },
        Surface::Elevator => FwFaults { elevator: s, ..f },
        Surface::Rudder => FwFaults { rudder: s, ..f },
    }
}

/// A surface jammed at neutral, or a sound one.
pub fn jam(on: bool) -> (r: SurfaceFault)
    ensures
        r == jammed(on),
{
    if on {
        SurfaceFault::Jammed(Real::zero())
    } else {
        SurfaceFault::Normal
    }
}

/// A corner of the demonstration mission, at altitude 60.
pub open spec fn corner(north: u64, east: u64) -> Waypoint {
    Waypoint {
        position: Vec3 {
            x: Real { bits: north },
            y: Real { bits: east },
            z: Real { bits: 0xc04e_0000_0000_0000 },
        },
        yaw: Real::zero_value(),
    }
}

fn mission_corner(north: u64, east: u64) -> (r: Waypoint)
    ensures
        r == corner(north, east),
{
    Waypoint::ne_alt(
        Real::from_bits(north),
        Real::from_bits(east),
        Real::from_bits(0x404e_0000_0000_0000),
    )
}

/// The demonstration mission: a square of 100 by 100 at altitude 60, back to the start.
pub fn square_mission() -> (r: Vec<Waypoint>)
    ensures
        r@ == seq![
            corner(0, 0),
            corner(0x4059_0000_0000_0000, 0),
            corner(0x4059_0000_0000_0000, 0x4059_0000_0000_0000),
            corner(0, 0x4059_0000_0000_0000),
            corner(0, 0),
        ],
{
    let side: u64 = 0x4059_0000_0000_0000;
    let mut r: Vec<Waypoint> = Vec::new();
    r.push(mission_corner(0, 0));
    r.push(mission_corner(side, 0));
    r.push(mission_corner(side, side));
    r.push(mission_corner(0, side));
    r.push(mission_corner(0, 0));
    assert(r@ =~= seq![corner(0, 0), corner(side, 0), corner(side, side), corner(0, side), corner(0, 0)]);
    r
}

/// How the quadrotor flies on the map: radius 5, speed 6.
pub fn quad_guidance() -> (r: GuidanceConfig)
    ensures
        r.accept_radius.bits == 0x4014_0000_0000_0000,
        r.cruise_speed.bits == 0x4018_0000_0000_0000,
{
    GuidanceConfig {
        accept_radius: Real::from_bits(0x4014_0000_0000_0000),
        cruise_speed: Real::from_bits(0x4018_0000_0000_0000),
    }
}

/// A frame never sends a setpoint that would end the mission or the route being flown.
pub proof fn frames_do_not_end_missions(
    ui: Ui,
    speed: Real,
    wind: Real,
    turbulence: Real,
    sp: Setpoint,
    pilot: PilotInput,
    cruise: FixedWingSetpoint,
)
    ensures
        ui.flies_mission() ==> forall|i: int|
            0 <= i < quad_frame(ui, speed, wind, turbulence, sp).len() ==> !(
            #[trigger] quad_frame(ui, speed, wind, turbulence, sp)[i] is SetSetpoint),
        ui.fw_route_on ==> forall|i: int|
            0 <= i < fw_frame(ui, speed, wind, turbulence, pilot, cruise).len() ==> !(
            #[trigger] fw_frame(ui, speed, wind, turbulence, pilot, cruise)[i] is SetCruise),
{
}

/// A mission is only ever planned with the configuration that can fly it.
pub proof fn planned_mission_can_be_flown(ui: Ui)
    ensures
        ui.source() matches SourcePlan::Quad { preset, mission, .. } ==> mission ==> preset
            == Preset::M3,
{
}

/// The switch of aircraft is reported exactly when another aircraft is selected, and the one
/// that was selected is flown from then on.
pub proof fn switch_tells_of_another_aircraft(ui: Ui, a: Airframe)
    requires
        ui.wf(),
        !ui.do_airframe_switch,
    ensures
        ui.with_airframe(a).wf(),
        ui.with_airframe(a).airframe() == a,
        ui.with_airframe(a).do_airframe_switch <==> ui.airframe() != a,
        ui.with_airframe(a).do_airframe_switch <==> ui.with_airframe(a).fixed_wing != ui.fixed_wing
            || ui.with_airframe(a).fighter != ui.fighter,
{
}

/// No button of the controls window changes what is flown or how: it only asks for
/// something. While a recording is played back none asks for a reset, a file or a storm; in
/// a running simulation none moves a playhead.
pub proof fn buttons_leave_the_aircraft_alone(ui: Ui, b: Button, is_replay: bool)
    ensures
        ui.pressed(b, is_replay).same_flight(ui),
        ui.pressed(b, is_replay).do_airframe_switch == ui.do_airframe_switch,
        is_replay ==> ui.pressed(b, is_replay).do_reset == ui.do_reset && ui.pressed(
            b,
            is_replay,
        ).do_replay == ui.do_replay && ui.pressed(b, is_replay).drop_storm == ui.drop_storm
            && ui.pressed(b, is_replay).clear_storm == ui.clear_storm,
        !is_replay ==> ui.pressed(b, is_replay).replay_seek == ui.replay_seek && ui.pressed(
            b,
            is_replay,
        ).replay_toggle_play == ui.replay_toggle_play && ui.pressed(b, is_replay).do_live
            == ui.do_live,
{
}

/// Whether the aircraft has hit the ground: it flies, has not crashed before, and its altitude
/// is no higher than that of the ground plus a margin of 3, `ground_plus_3`.
pub fn crashes(is_replay: bool, crashed: bool, altitude: Real, ground_plus_3: Real) -> (r: bool)
    ensures
        r == (!is_replay && !crashed && altitude.at_most(ground_plus_3)),
{
    !is_replay && !crashed && altitude.le(ground_plus_3)
}

/// The warnings and readings that the pilot sees.
#[derive(Clone, Copy, Debug, PartialEq, Eq, Structural)]
pub struct Hud {
    /// The aircraft has hit the ground. Nothing else is warned of.
    pub crashed: bool,
    /// The fly-by-wire law is on.
    pub fcs_on: bool,
    /// The raw airframe diverges.
    pub diverging: bool,
    /// The aircraft is in the storm.
    pub storm: bool,
    /// Something is broken.
    pub fault: bool,
    /// There is wind or a gust to read off.
    pub wind: bool,
}

/// The warnings that the pilot sees. The storm counts beyond 0.15 of its core, wind and
/// gusts beyond 0.1. After a crash only that is warned of; wind and gusts are still read off.
pub fn hud(
    crashed: bool,
    fbw_on: bool,
    storm: Real,
    faulted: bool,
    wind_speed: Real,
    gust: Real,
) -> (r: Hud)
    ensures
        r == (Hud {
            crashed,
            fcs_on: fbw_on,
            diverging: !crashed && !fbw_on,
            storm: !crashed && (Real { bits: 0x3fc3_3333_3333_3333 }).less(storm),
            fault: !crashed && faulted,
            wind: (Real { bits: 0x3fb9_9999_9999_999a }).less(wind_speed) || (Real {
                bits: 0x3fb9_9999_9999_999a,
            }).less(gust),
        }),
{
    let breeze = Real::from_bits(0x3fb9_9999_9999_999a);
    Hud {
        crashed,
        fcs_on: fbw_on,
        diverging: !crashed && !fbw_on,
        storm: !crashed && Real::from_bits(0x3fc3_3333_3333_3333).lt(storm),
        fault: !crashed && faulted,
        wind: breeze.lt(wind_speed) || breeze.lt(gust),
    }
}

/// Whether any of some numbers is larger than `limit`.
pub open spec fn some_beyond(values: Seq<Real>, limit: Real) -> bool {
    exists|i: int| 0 <= i < values.len() && limit.less(#[trigger] values[i])
}

/// Whether any of some numbers is larger than `limit`.
pub fn any_beyond(values: &Vec<Real>, limit: Real) -> (r: bool)
    ensures
        r == some_beyond(values@, limit),
{
    let mut i: usize = 0;
    while i < values.len()
        invariant
            i <= values.len(),
            forall|k: int| 0 <= k < i ==> !limit.less(#[trigger] values@[k]),
        decreases values.len() - i,
    {
        if limit.lt(values[i]) {
            return true;
        }
        i = i + 1;
    }
    false
}

/// Whether the positions are plotted: an estimator without one leaves it at the origin.
/// `distances` are the distances of the estimates from there.
pub fn plots_positions(distances: &Vec<Real>) -> (r: bool)
    ensures
        r == some_beyond(distances@, (Real { bits: 0x3eb0_c6f7_a0b5_ed8d })),
{
    any_beyond(distances, Real::from_bits(0x3eb0_c6f7_a0b5_ed8d))
}

/// Whether the gyro biases are plotted: an estimator without an idea leaves them at zero.
pub fn plots_biases(sizes: &Vec<Real>) -> (r: bool)
    ensures
        r == some_beyond(sizes@, (Real { bits: 0x3d71_9799_812d_ea11 })),
{
    any_beyond(sizes, Real::from_bits(0x3d71_9799_812d_ea11))
}

/// Whether the trail gets a new point, so far from the last one: the first always, any
/// other once the aircraft has moved by more than 1.
pub fn trail_grows(moved: Option<Real>) -> (r: bool)
    ensures
        r == (match moved {
            Some(d) => Real::one_value().less(d),
            None => true,
        }),
{
    match moved {
        Some(d) => Real::one().lt(d),
        None => true,
    }
}

/// Where the camera stands around the aircraft.
#[derive(Clone, Copy, Debug, PartialEq, Eq, Structural)]
pub struct OrbitCam {
    pub az: Real,
    /// Elevation, from -1.3 to 1.45 as single-precision numbers have them.
    pub el: Real,
    /// Distance, from 40 to 14000.
    pub dist: Real,
}

impl OrbitCam {
    /// Turns to an azimuth and an elevation.
    pub fn turn(&mut self, az: Real, el: Real)
        ensures
            *final(self) == (OrbitCam {
                az,
                el: el.clamped_to(
                    Real { bits: 0xbff4_cccc_c000_0000 },
                    Real { bits: 0x3ff7_3333_4000_0000 },
                ),
                ..*old(self)
            }),
    {
        self.az = az;
        self.el = el.clamp(
            Real::from_bits(0xbff4_cccc_c000_0000),
            Real::from_bits(0x3ff7_3333_4000_0000),
        );
    }

    /// Goes to a distance.
    pub fn zoom(&mut self, dist: Real)
        ensures
            *final(self) == (OrbitCam {
                dist: dist.clamped_to(
                    Real { bits: 0x4044_0000_0000_0000 },
                    Real { bits: 0x40cb_5800_0000_0000 },
                ),
                ..*old(self)
            }),
    {
        self.dist = dist.clamp(
            Real::from_bits(0x4044_0000_0000_0000),
            Real::from_bits(0x40cb_5800_0000_0000),
        );
    }
}

/// Each button asks for its own thing and for nothing else, where the window offers it.
pub proof fn buttons_ask_for_their_own_thing(ui: Ui, b: Button, is_replay: bool)
    ensures
        ({
            let a = ui.pressed(b, is_replay);
            &&& a.do_save <==> ui.do_save || b is Save
            &&& a.do_reset <==> ui.do_reset || (b is Reset && !is_replay)
            &&& a.do_replay <==> ui.do_replay || (b is PlayFile && !is_replay)
            &&& a.do_live <==> ui.do_live || (b is Live && is_replay)
            &&& a.drop_storm <==> ui.drop_storm || (b is DropStorm && !is_replay)
            &&& a.clear_storm <==> ui.clear_storm || (b is ClearStorm && !is_replay)
            &&& a.replay_toggle_play <==> ui.replay_toggle_play || (b is TogglePlay && is_replay)
            &&& b matches Button::Seek(t) ==> (is_replay ==> a.replay_seek == Some(t))
            &&& !(b is Seek) || !is_replay ==> a.replay_seek == ui.replay_seek
            &&& a.recording == ui.recording
        }),
{
}

/// Settings that fly the same aircraft in the same way agree in all that is flown, and only
/// then.
pub proof fn same_flight_is_all_that_is_flown(a: Ui, b: Ui)
    ensures
        a.same_flight(a),
        a.same_flight(b) <==> b.same_flight(a),
        a.same_flight(b) <==> a.fixed_wing == b.fixed_wing && a.fighter == b.fighter && a.fbw_on
            == b.fbw_on && a.est_kind == b.est_kind && a.controller_lqr == b.controller_lqr
            && a.mission_on == b.mission_on && a.fw_route_on == b.fw_route_on && a.fw_faults
            == b.fw_faults && a.quad_dead_rotor == b.quad_dead_rotor && a.paused == b.paused,
        a.same_flight(b) ==> a.source() == b.source(),
{
}

/// The switches tell which aircraft is flown. Selecting another one changes these switches,
/// asks for a switch, and turns the fly-by-wire law on for the fighter; nothing else changes,
/// and selecting the one that is flown changes nothing at all.
pub proof fn selecting_changes_the_aircraft_alone(ui: Ui, a: Airframe)
    requires
        ui.wf(),
    ensures
        ui.airframe() is Quad <==> !ui.fixed_wing,
        ui.airframe() is Fighter <==> ui.fixed_wing && ui.fighter,
        ui.airframe() is FixedWing <==> ui.fixed_wing && !ui.fighter,
        ui.airframe() == a ==> ui.with_airframe(a) == ui,
        ui.airframe() != a ==> ({
            let r = ui.with_airframe(a);
            &&& r.fixed_wing <==> !(a is Quad)
            &&& r.fighter <==> a is Fighter
            &&& a is Fighter ==> r.fbw_on
            &&& !(a is Fighter) ==> r.fbw_on == ui.fbw_on
            &&& r.do_airframe_switch
            &&& r.est_kind == ui.est_kind && r.controller_lqr == ui.controller_lqr
            &&& r.mission_on == ui.mission_on && r.fw_route_on == ui.fw_route_on
            &&& r.fw_faults == ui.fw_faults && r.quad_dead_rotor == ui.quad_dead_rotor
            &&& r.paused == ui.paused && r.recording == ui.recording
            &&& r.do_reset == ui.do_reset && r.do_save == ui.do_save
            &&& r.do_replay == ui.do_replay && r.do_live == ui.do_live
            &&& r.drop_storm == ui.drop_storm && r.clear_storm == ui.clear_storm
            &&& r.replay_toggle_play == ui.replay_toggle_play && r.replay_seek == ui.replay_seek
        }),
{
}

/// A mission is flown exactly if it is wanted and the estimator is inertial navigation, number
/// 2. What is flown follows from the switches, and the configuration of the quadrotor from its
/// estimator.
pub proof fn switches_decide_what_is_flown(ui: Ui)
    ensures
        ui.flies_mission() <==> ui.mission_on && ui.est_kind == 2,
        ui.fixed_wing && ui.fighter ==> ui.source() is Fighter,
        ui.fixed_wing && !ui.fighter ==> ui.source() is FixedWing,
        !ui.fixed_wing ==> (ui.source() matches SourcePlan::Quad { preset, lqr, mission } && lqr
            == ui.controller_lqr && (mission <==> ui.mission_on && ui.est_kind == 2) && (
        ui.est_kind == 0 ==> preset is Mvp) && (ui.est_kind == 1 ==> preset is M2) && (ui.est_kind
            >= 2 ==> preset is M3)),
        ui.wants_rebuild() <==> ui.do_reset || ui.do_live || ui.do_airframe_switch,
        preset_value(ui.est_kind) is Mvp <==> ui.est_kind == 0,
        preset_value(ui.est_kind) is M2 <==> ui.est_kind == 1,
{
}

/// The controls window shows the page of what is played back or flown: a slider for a recording
/// that lasts; for the quadrotor the choice of a mission where it can be flown, a hint where it
/// is wanted and cannot, and sliders unless it is flown.
pub proof fn page_shows_what_is_flown(ui: Ui, first: Real, last: Real)
    ensures
        ui.controls_page(Some((first, last))) matches ControlsPage::Replay { slider } && (slider
            <==> first.less(last)),
        ui.fixed_wing && ui.fighter ==> ui.controls_page(None) is Fighter,
        ui.fixed_wing && !ui.fighter ==> ui.controls_page(None) is Cruise,
        !ui.fixed_wing ==> (ui.controls_page(None) matches ControlsPage::Quad {
            mission_choice,
            mission_hint,
            sliders,
        } && (mission_choice <==> ui.est_kind == 2) && (mission_hint <==> ui.est_kind != 2
            && ui.mission_on) && (sliders <==> ui.est_kind != 2 || !ui.mission_on)),
{
}

/// In every frame the quadrotor is told the pause, the speed, a wind that blows east, the
/// turbulence and its dead rotor, and its setpoint exactly if it flies no mission.
pub proof fn quad_is_told_in_every_frame(
    ui: Ui,
    speed: Real,
    wind: Real,
    turbulence: Real,
    sp: Setpoint,
)
    ensures
        ({
            let f = quad_frame(ui, speed, wind, turbulence, sp);
            let flies = ui.mission_on && ui.est_kind == 2;
            &&& f.len() == (if flies {
                5int
            } else {
                6
            })
            &&& f[0] == Command::Pause(ui.paused)
            &&& f[1] == Command::SetSpeed(speed)
            &&& f[2] matches Command::SetWind(w) && w.y == wind && w.x == Real::zero_value() && w.z
                == Real::zero_value()
            &&& f[3] == Command::SetTurbulence(turbulence)
            &&& f[4] matches Command::SetFaults(q) && q.dead_rotor == ui.quad_dead_rotor
            &&& !flies ==> f[5] == Command::SetSetpoint(sp)
        }),
{
}

/// In every frame the fixed-wing aircraft is told the pause, the speed, a wind that blows east,
/// the turbulence and its faults; the fighter also its fly-by-wire law and the pilot's stick;
/// the other its cruise setpoint exactly if it flies no route.
pub proof fn fixed_wing_is_told_in_every_frame(
    ui: Ui,
    speed: Real,
    wind: Real,
    turbulence: Real,
    pilot: PilotInput,
    cruise: FixedWingSetpoint,
)
    ensures
        ({
            let f = fw_frame(ui, speed, wind, turbulence, pilot, cruise);
            &&& f[0] == FwCommand::Pause(ui.paused)
            &&& f[1] == FwCommand::SetSpeed(speed)
            &&& f[2] matches FwCommand::SetWind(w) && w.y == wind && w.x == Real::zero_value()
                && w.z == Real::zero_value()
            &&& f[3] == FwCommand::SetTurbulence(turbulence)
            &&& f[4] == FwCommand::SetFaults(ui.fw_faults)
            &&& ui.fighter ==> f.len() == 7 && f[5] == FwCommand::SetFbw(ui.fbw_on) && f[6]
                == FwCommand::SetStick(pilot.stick)
            &&& !ui.fighter && ui.fw_route_on ==> f.len() == 5
            &&& !ui.fighter && !ui.fw_route_on ==> f.len() == 6 && f[5] == FwCommand::SetCruise(
                cruise,
            )
        }),
{
}

/// Jamming a surface holds it at neutral and freeing it lets it work; each surface is jammed
/// alone.
pub proof fn surfaces_are_jammed_alone(f: FwFaults, s: SurfaceFault)
    ensures
        jammed(true) == SurfaceFault::Jammed(Real::zero_value()),
        jammed(false) is Normal,
        with_surface(f, Surface::Aileron, s).aileron == s,
        with_surface(f, Surface::Elevator, s).elevator == s,
        with_surface(f, Surface::Rudder, s).rudder == s,
        (FwFaults { aileron: f.aileron, ..with_surface(f, Surface::Aileron, s) }) == f,
        (FwFaults { elevator: f.elevator, ..with_surface(f, Surface::Elevator, s) }) == f,
        (FwFaults { rudder: f.rudder, ..with_surface(f, Surface::Rudder, s) }) == f,
{
}

/// The viewer opens with the quadrotor on its mission, by inertial navigation, healthy, running
/// and not recording, with no button pressed.
pub proof fn viewer_opens_with_the_mission(north: u64, east: u64)
    ensures
        ({
            let u = Ui::first_frame();
            &&& !u.fixed_wing && !u.fighter && u.fbw_on && u.est_kind == 2 && !u.controller_lqr
            &&& u.mission_on && !u.fw_route_on && !u.paused && !u.recording
            &&& u.quad_dead_rotor is None && !u.fw_faults.engine_out && !u.fw_faults.tail_loss
            &&& !u.wants_rebuild() && !u.do_save && !u.do_replay && u.replay_seek is None
            &&& !u.drop_storm && !u.clear_storm && !u.replay_toggle_play
        }),
        corner(north, east).position.x.bits == north,
        corner(north, east).position.y.bits == east,
        corner(north, east).position.z == (Real { bits: 0x404e_0000_0000_0000 }).negated(),
        corner(north, east).yaw == Real::zero_value(),
{
}

/// Something is beyond a limit exactly if one of the numbers is, wherever it stands.
pub proof fn one_number_beyond_is_enough(values: Seq<Real>, x: Real, limit: Real)
    ensures
        !some_beyond(Seq::empty(), limit),
        some_beyond(values.push(x), limit) <==> some_beyond(values, limit) || limit.less(x),
{
    let all = values.push(x);
    assert(all[values.len() as int] == x);
    if some_beyond(values, limit) {
        let i = choose|i: int| 0 <= i < values.len() && limit.less(#[trigger] values[i]);
        assert(all[i] == values[i]);
    }
    if some_beyond(all, limit) {
        let i = choose|i: int| 0 <= i < all.len() && limit.less(#[trigger] all[i]);
        if i < values.len() {
            assert(values[i] == all[i]);
        }
    }
}

} // verus!
