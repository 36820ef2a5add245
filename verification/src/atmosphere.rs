//! The air the aircraft flies through: steady wind, turbulence, a storm cell.
//!
//! The caller computes the gust process and the fields of the storm; what is set,
//! and whether the gust process moves at all, is decided here.
use vstd::prelude::*;
use crate::messages::Vec3;
use crate::number::Real;

verus! {

/// A microburst centred on a point `(north, east)` of the map.
#[derive(Clone, Copy, Debug)]
pub struct StormCell {
    /// Centre at the start.
    pub center: (Real, Real),
    /// Drift of the centre.
    pub velocity: (Real, Real),
    /// Horizontal scale.
    pub radius: Real,
    /// Speed of the sinking air at the core.
    pub downdraft: Real,
    /// Speed of the air that flows out.
    pub outflow: Real,
    /// Turbulence that the core adds.
    pub turbulence_boost: Real,
}

impl StormCell {
    pub open spec fn microburst_value(center: (Real, Real)) -> StormCell {
        StormCell {
            center,
            velocity: (Real::zero_value(), Real::zero_value()),
            radius: Real { bits: 0x4079_0000_0000_0000 },
            downdraft: Real { bits: 0x4024_0000_0000_0000 },
            outflow: Real { bits: 0x4020_0000_0000_0000 },
            turbulence_boost: Real { bits: 0x4010_0000_0000_0000 },
        }
    }

    /// A cell that stands still: radius 400, downdraft 10, outflow 8, boost 4.
    pub fn microburst(center: (Real, Real)) -> (r: StormCell)
        ensures
            r == StormCell::microburst_value(center),
    {
        StormCell {
            center,
            velocity: (Real::zero(), Real::zero()),
            radius: Real::from_bits(0x4079_0000_0000_0000),
            downdraft: Real::from_bits(0x4024_0000_0000_0000),
            outflow: Real::from_bits(0x4020_0000_0000_0000),
            turbulence_boost: Real::from_bits(0x4010_0000_0000_0000),
        }
    }
}

#[derive(Clone, Copy, Debug)]
pub struct AtmosphereConfig {
    /// Steady wind: the velocity that the air moves at.
    pub wind_ned: Vec3,
    /// Turbulence intensity; 0 is calm.
    pub turbulence: Real,
    /// Length scales of the gusts along the three axes.
    pub scale_lengths: Vec3,
    /// Smallest airspeed that the gust process reckons with.
    pub va_min: Real,
    pub storm: Option<StormCell>,
    /// Seed of the gust stream.
    pub seed: u64,
}

impl AtmosphereConfig {
    pub open spec fn calm_value() -> AtmosphereConfig {
        AtmosphereConfig {
            wind_ned: Vec3::zero_value(),
            turbulence: Real::zero_value(),
            scale_lengths: Vec3 {
                x: Real { bits: 0x4069_0000_0000_0000 },
                y: Real { bits: 0x4069_0000_0000_0000 },
                z: Real { bits: 0x4049_0000_0000_0000 },
            },
            va_min: Real::one_value(),
            storm: None,
            seed: 0xa1_4036_0000_0001,
        }
    }

    /// No wind, no turbulence, no storm; length scales 200, 200 and 50.
    pub fn calm() -> (r: AtmosphereConfig)
        ensures
            r == AtmosphereConfig::calm_value(),
    {
        AtmosphereConfig {
            wind_ned: Vec3::zeros(),
            turbulence: Real::zero(),
            scale_lengths: Vec3::new(
                Real::from_bits(0x4069_0000_0000_0000),
                Real::from_bits(0x4069_0000_0000_0000),
                Real::from_bits(0x4049_0000_0000_0000),
            ),
            va_min: Real::one(),
            storm: None,
            seed: 0xa1_4036_0000_0001,
        }
    }

    /// A steady wind and a turbulence intensity, all else as in calm air.
    pub fn wind(wind_ned: Vec3, turbulence: Real) -> (r: AtmosphereConfig)
        ensures
            r == (AtmosphereConfig { wind_ned, turbulence, ..AtmosphereConfig::calm_value() }),
    {
        let calm = AtmosphereConfig::calm();
        AtmosphereConfig {
            wind_ned,
            turbulence,
            scale_lengths: calm.scale_lengths,
            va_min: calm.va_min,
            storm: calm.storm,
            seed: calm.seed,
        }
    }
}

/// What the storm does where the aircraft is.
#[derive(Clone, Copy, Debug, PartialEq, Eq, Structural)]
pub struct StormEffect {
    /// How deep in the storm: 0 in clear air, 1 at the core.
    pub intensity: Real,
    /// Turbulence intensity with the storm's share.
    pub turbulence: Real,
}

/// What a step does to the air.
#[derive(Clone, Copy, Debug, PartialEq, Eq, Structural)]
pub struct AirMove {
    /// Time since the start.
    pub time: Real,
    /// What the storm does here, where there is one.
    pub storm: StormEffect,
    /// The gust that comes of the one in force, where gusts are driven.
    pub gust: Vec3,
}

/// The settings of the air and the state of its gusts.
#[derive(Clone, Copy, Debug)]
pub struct Atmosphere {
    pub cfg: AtmosphereConfig,
    /// The gust in force.
    pub gust: Vec3,
    /// Time since the start.
    pub time: Real,
    /// How deep in the storm the aircraft was at the last step.
    pub last_g: Real,
}

impl Atmosphere {
    /// Still air at the start, whatever the settings.
    pub open spec fn start(cfg: AtmosphereConfig) -> Atmosphere {
        Atmosphere {
            cfg,
            gust: Vec3::zero_value(),
            time: Real::zero_value(),
            last_g: Real::zero_value(),
        }
    }

    pub open spec fn with_wind(self, wind_ned: Vec3) -> Atmosphere {
        Atmosphere { cfg: AtmosphereConfig { wind_ned, ..self.cfg }, ..self }
    }

    /// The intensity is at least 0; at 0 the air is still.
    pub open spec fn with_turbulence(self, rms: Real) -> Atmosphere {
        Atmosphere {
            cfg: AtmosphereConfig { turbulence: rms.larger(Real::zero_value()), ..self.cfg },
            gust: if Real::zero_value().less(rms) {
                self.gust
            } else {
                Vec3::zero_value()
            },
            ..self
        }
    }

    pub open spec fn with_storm(self, storm: Option<StormCell>) -> Atmosphere {
        Atmosphere { cfg: AtmosphereConfig { storm, ..self.cfg }, ..self }
    }

    /// The turbulence intensity in force: the storm's where there is one.
    pub open spec fn turbulence_now(self, storm: Option<StormEffect>) -> Real {
        match storm {
            Some(e) => e.turbulence,
            None => self.cfg.turbulence,
        }
    }

    /// How strong the gusts are driven; `None` if they are not.
    pub open spec fn drive(self, storm: Option<StormEffect>) -> Option<Real> {
        if Real::zero_value().less(self.turbulence_now(storm)) {
            Some(self.turbulence_now(storm))
        } else {
            None
        }
    }

    /// What the storm does, if there is one.
    pub open spec fn effect(self, storm: StormEffect) -> Option<StormEffect> {
        if self.cfg.storm is Some {
            Some(storm)
        } else {
            None
        }
    }

    /// The air after a step. The settings stay; the gust changes only where it is driven.
    pub open spec fn moved(self, m: AirMove) -> Atmosphere {
        Atmosphere {
            cfg: self.cfg,
            gust: if self.drive(self.effect(m.storm)) is Some {
                m.gust
            } else {
                self.gust
            },
            time: m.time,
            last_g: match self.effect(m.storm) {
                Some(e) => e.intensity,
                None => Real::zero_value(),
            },
        }
    }

    pub fn new(cfg: AtmosphereConfig) -> (r: Atmosphere)
        ensures
            r == Atmosphere::start(cfg),
    {
        Atmosphere { cfg, gust: Vec3::zeros(), time: Real::zero(), last_g: Real::zero() }
    }

    pub fn config(&self) -> (r: &AtmosphereConfig)
        ensures
            *r == self.cfg,
    {
        &self.cfg
    }

    /// Sets the steady wind.
    pub fn set_wind(&mut self, wind_ned: Vec3)
        ensures
            *final(self) == old(self).with_wind(wind_ned),
    {
        self.cfg.wind_ned = wind_ned;
    }

    /// Sets the turbulence intensity, at least 0. At 0 the air goes still at once.
    pub fn set_turbulence(&mut self, rms: Real)
        ensures
            *final(self) == old(self).with_turbulence(rms),
    {
        self.cfg.turbulence = rms.max(Real::zero());
        if !Real::zero().lt(self.cfg.turbulence) {
            self.gust = Vec3::zeros();
        }
    }

    /// Places the storm cell, or takes it away.
    pub fn set_storm(&mut self, storm: Option<StormCell>)
        ensures
            *final(self) == old(self).with_storm(storm),
    {
        self.cfg.storm = storm;
    }

    /// Starts a step at time `time` and says how strong the gusts are driven; `None`
    /// if they are not, and no noise is to be drawn. `storm` is what the cell does
    /// here, if there is a cell.
    pub fn begin_step(&mut self, time: Real, storm: Option<StormEffect>) -> (r: Option<Real>)
        requires
            storm is Some <==> old(self).cfg.storm is Some,
        ensures
            *final(self) == (Atmosphere {
                time,
                last_g: match storm {
                    Some(e) => e.intensity,
                    None => Real::zero_value(),
                },
                ..*old(self)
            }),
            r == old(self).drive(storm),
    {
        self.time = time;
        let mut turb = self.cfg.turbulence;
        self.last_g = Real::zero();
        if let Some(e) = storm {
            self.last_g = e.intensity;
            turb = e.turbulence;
        }
        if Real::zero().lt(turb) {
            Some(turb)
        } else {
            None
        }
    }

    /// Takes over the gust after a driven step.
    pub fn set_gust(&mut self, gust: Vec3)
        ensures
            *final(self) == (Atmosphere { gust, ..*old(self) }),
    {
        self.gust = gust;
    }

    /// Moves the air on by a step.
    pub fn move_on(&mut self, m: AirMove)
        ensures
            *final(self) == old(self).moved(m),
    {
        let effect = match self.cfg.storm {
            Some(_) => Some(m.storm),
            None => None,
        };
        if self.begin_step(m.time, effect).is_some() {
            self.set_gust(m.gust);
        }
    }

    /// How deep in the storm the aircraft was at the last step.
    pub fn storm_intensity(&self) -> (r: Real)
        ensures
            r == self.last_g,
    {
        self.last_g
    }
}

/// Calm air draws no noise, ever: without turbulence and without a storm no step
/// drives the gusts.
pub proof fn calm_air_draws_nothing(a: Atmosphere)
    requires
        a.cfg.turbulence == Real::zero_value(),
    ensures
        a.drive(None) is None,
{
}

/// No step changes the settings of the air: wind, turbulence and storm last until they are
/// set anew.
pub proof fn settings_of_the_air_last(a: Atmosphere, m: AirMove)
    ensures
        a.moved(m).cfg == a.cfg,
        a.cfg.storm is None ==> a.moved(m).last_g == Real::zero_value(),
        a.cfg.storm is None && !Real::zero_value().less(a.cfg.turbulence) ==> a.moved(m).gust
            == a.gust,
{
}

/// Turning the turbulence off stills the air for good: the gust is zero, and no
/// later step without a storm drives it.
pub proof fn turbulence_off_stills_the_air(a: Atmosphere)
    ensures
        a.with_turbulence(Real::zero_value()).gust == Vec3::zero_value(),
        a.with_turbulence(Real::zero_value()).drive(None) is None,
{
}

/// Each setting is changed alone: another wind changes the wind, another storm the storm, and
/// neither touches the gusts; the turbulence is never below 0, and without it the air is still.
pub proof fn settings_are_changed_alone(
    a: Atmosphere,
    wind: Vec3,
    rms: Real,
    storm: Option<StormCell>,
)
    requires
        rms.is_number(),
    ensures
        ({
            let w = a.with_wind(wind);
            &&& w.cfg.wind_ned == wind
            &&& w.cfg.turbulence == a.cfg.turbulence && w.cfg.storm == a.cfg.storm
            &&& w.gust == a.gust && w.time == a.time && w.last_g == a.last_g
        }),
        ({
            let s = a.with_storm(storm);
            &&& s.cfg.storm == storm
            &&& s.cfg.turbulence == a.cfg.turbulence && s.cfg.wind_ned == a.cfg.wind_ned
            &&& s.gust == a.gust && s.time == a.time && s.last_g == a.last_g
        }),
        ({
            let t = a.with_turbulence(rms);
            &&& Real::zero_value().less(rms) ==> t.cfg.turbulence == rms && t.gust == a.gust
            &&& !Real::zero_value().less(rms) ==> t.cfg.turbulence.same(Real::zero_value())
                && t.gust == Vec3::zero_value()
            &&& t.cfg.storm == a.cfg.storm && t.cfg.wind_ned == a.cfg.wind_ned
            &&& t.time == a.time && t.last_g == a.last_g
        }),
        a.with_wind(wind).cfg.seed == a.cfg.seed && a.with_storm(storm).cfg.seed == a.cfg.seed,
        a.with_wind(wind).cfg.scale_lengths == a.cfg.scale_lengths,
        a.with_storm(storm).cfg.scale_lengths == a.cfg.scale_lengths,
        a.with_turbulence(rms).cfg.scale_lengths == a.cfg.scale_lengths,
        a.with_turbulence(rms).cfg.seed == a.cfg.seed,
{
}

/// Gusts are driven exactly if there is turbulence: as strongly as it is set, or, in a storm,
/// as the storm makes it.
pub proof fn gusts_are_driven_by_turbulence(a: Atmosphere, e: StormEffect)
    ensures
        Real::zero_value().less(a.cfg.turbulence) ==> a.drive(None) == Some(a.cfg.turbulence),
        !Real::zero_value().less(a.cfg.turbulence) ==> a.drive(None) is None,
        Real::zero_value().less(e.turbulence) ==> a.drive(Some(e)) == Some(e.turbulence),
        !Real::zero_value().less(e.turbulence) ==> a.drive(Some(e)) is None,
{
}

/// A step moves the time on, takes over how deep in the storm the aircraft is, if there is a
/// storm, and takes over a new gust exactly if gusts are driven.
pub proof fn step_moves_the_air(a: Atmosphere, m: AirMove)
    ensures
        a.moved(m).time == m.time,
        a.cfg.storm is Some ==> a.moved(m).last_g == m.storm.intensity,
        a.cfg.storm is None ==> a.moved(m).last_g == Real::zero_value(),
        a.cfg.storm is Some && Real::zero_value().less(m.storm.turbulence) ==> a.moved(m).gust
            == m.gust,
        a.cfg.storm is Some && !Real::zero_value().less(m.storm.turbulence) ==> a.moved(m).gust
            == a.gust,
        a.cfg.storm is None && Real::zero_value().less(a.cfg.turbulence) ==> a.moved(m).gust
            == m.gust,
        a.moved(m).cfg == a.cfg,
{
}

/// The air starts still, at time 0 and outside of any storm, whatever its settings; calm air
/// has neither wind nor turbulence nor a storm.
pub proof fn air_starts_still(cfg: AtmosphereConfig)
    ensures
        Atmosphere::start(cfg).cfg == cfg,
        Atmosphere::start(cfg).gust == Vec3::zero_value(),
        Atmosphere::start(cfg).time == Real::zero_value(),
        Atmosphere::start(cfg).last_g == Real::zero_value(),
        AtmosphereConfig::calm_value().wind_ned == Vec3::zero_value(),
        AtmosphereConfig::calm_value().turbulence == Real::zero_value(),
        AtmosphereConfig::calm_value().storm is None,
{
}

/// A microburst stands still at its centre, with sinking air, outflow and turbulence.
pub proof fn microburst_stands_still(center: (Real, Real))
    ensures
        ({
            let s = StormCell::microburst_value(center);
            &&& s.center == center
            &&& s.velocity == (Real::zero_value(), Real::zero_value())
            &&& Real::zero_value().less(s.radius) && Real::zero_value().less(s.downdraft)
            &&& Real::zero_value().less(s.outflow) && Real::zero_value().less(s.turbulence_boost)
        }),
{
}

/// A microburst is the same wherever it stands: radius 400, downdraft 10, outflow 8, boost 4.
pub proof fn microbursts_are_alike(a: (Real, Real), b: (Real, Real))
    ensures
        (StormCell { center: b, ..StormCell::microburst_value(a) }) == StormCell::microburst_value(b),
        StormCell::microburst_value(a).radius.bits == 0x4079_0000_0000_0000,
        StormCell::microburst_value(a).downdraft.bits == 0x4024_0000_0000_0000,
        StormCell::microburst_value(a).outflow.bits == 0x4020_0000_0000_0000,
        StormCell::microburst_value(a).turbulence_boost.bits == 0x4010_0000_0000_0000,
{
}

/// Setting the wind or the storm cell back undoes the change.
pub proof fn settings_can_be_set_back(a: Atmosphere, w: Vec3, storm: Option<StormCell>)
    ensures
        a.with_wind(w).with_wind(a.cfg.wind_ned) == a,
        a.with_storm(storm).with_storm(a.cfg.storm) == a,
{
}

} // verus!
