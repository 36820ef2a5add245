use nalgebra::Vector3;
use pilotrs::atmosphere::{Atmosphere, AtmosphereConfig, StormCell, StormEffect};
use pilotrs::config::SensorSeeds;
use pilotrs::messages::Vec3;
use pilotrs::number::Real;
use rand::SeedableRng;
use rand_chacha::ChaCha8Rng;
use rand_distr::{Distribution, StandardNormal};

fn r(x: f64) -> Real {
    Real::from_bits(x.to_bits())
}

fn f(x: Real) -> f64 {
    f64::from_bits(x.to_bits())
}

fn v3(x: f64, y: f64, z: f64) -> Vec3 {
    Vec3::new(r(x), r(y), r(z))
}

fn na(v: Vec3) -> Vector3<f64> {
    Vector3::new(f(v.x), f(v.y), f(v.z))
}

/// The air and the noise that drives its gusts.
struct Air {
    state: Atmosphere,
    rng: ChaCha8Rng,
}

impl Air {
    fn new(cfg: AtmosphereConfig) -> Air {
        Air { state: Atmosphere::new(cfg), rng: ChaCha8Rng::seed_from_u64(cfg.seed) }
    }

    fn gust_magnitude(&self) -> f64 {
        na(self.state.gust).norm()
    }

    /// The wind where the aircraft is, one step on.
    fn wind_ned(&mut self, north: f64, east: f64, va: f64, dt: f64) -> Vector3<f64> {
        let cfg = *self.state.config();
        let mut wind = na(cfg.wind_ned);
        let time = f(self.state.time) + dt;
        let effect = cfg.storm.map(|s| {
            let dn = north - (f(s.center.0) + f(s.velocity.0) * time);
            let de = east - (f(s.center.1) + f(s.velocity.1) * time);
            let r2 = dn * dn + de * de;
            let rad = f(s.radius).max(1.0);
            let g = (-r2 / (rad * rad)).exp();
            wind.z += f(s.downdraft) * g;
            let d = r2.sqrt();
            if d > 1e-3 {
                let out = f(s.outflow) * (d / rad) * g;
                wind.x += out * dn / d;
                wind.y += out * de / d;
            }
            StormEffect {
                intensity: r(g),
                turbulence: r(f(cfg.turbulence) + f(s.turbulence_boost) * g),
            }
        });
        if let Some(strength) = self.state.begin_step(r(time), effect) {
            let speed = va.max(f(cfg.va_min));
            let scales = na(cfg.scale_lengths);
            let mut gust = na(self.state.gust);
            for i in 0..3 {
                let a = (-dt * speed / scales[i].max(1.0)).exp();
                let n: f64 = StandardNormal.sample(&mut self.rng);
                gust[i] = a * gust[i] + f(strength) * (1.0 - a * a).sqrt() * n;
            }
            self.state.set_gust(v3(gust.x, gust.y, gust.z));
        }
        wind + na(self.state.gust)
    }
}

#[test]
fn calm_is_still() {
    let mut atm = Air::new(AtmosphereConfig::calm());
    let untouched = atm.rng.clone();
    for _ in 0..1000 {
        assert_eq!(atm.wind_ned(0.0, 0.0, 25.0, 1e-3), Vector3::zeros());
    }
    assert_eq!(atm.gust_magnitude(), 0.0);
    assert_eq!(atm.rng, untouched);
}

#[test]
fn turbulence_rms_matches_intensity() {
    let sigma = 3.0;
    let mut atm = Air::new(AtmosphereConfig::wind(Vec3::zeros(), r(sigma)));
    let (va, dt) = (25.0, 1e-2);
    for _ in 0..2000 {
        atm.wind_ned(0.0, 0.0, va, dt);
    }
    let mut sum_sq = [0.0_f64; 3];
    let n = 200_000;
    for _ in 0..n {
        let g = atm.wind_ned(0.0, 0.0, va, dt);
        for i in 0..3 {
            sum_sq[i] += g[i] * g[i];
        }
    }
    for (i, s) in sum_sq.iter().enumerate() {
        let rms = (s / n as f64).sqrt();
        assert!((rms - sigma).abs() < 0.3, "axis {i} RMS {rms} should be ≈ σ {sigma}");
    }
}

#[test]
fn gusts_are_time_correlated() {
    let mut atm = Air::new(AtmosphereConfig::wind(Vec3::zeros(), r(3.0)));
    let (va, dt) = (25.0, 1e-2);
    for _ in 0..2000 {
        atm.wind_ned(0.0, 0.0, va, dt);
    }
    let mut prev = atm.wind_ned(0.0, 0.0, va, dt).x;
    let (mut num, mut den) = (0.0_f64, 0.0_f64);
    for _ in 0..50_000 {
        let cur = atm.wind_ned(0.0, 0.0, va, dt).x;
        num += prev * cur;
        den += prev * prev;
        prev = cur;
    }
    let autocorr = num / den;
    assert!(autocorr > 0.9, "successive gusts should be correlated, got {autocorr}");
}

#[test]
fn turbulence_is_deterministic() {
    let run = || {
        let mut atm = Air::new(AtmosphereConfig::wind(v3(-5.0, 2.0, 0.0), r(4.0)));
        let mut last = Vector3::zeros();
        for _ in 0..5000 {
            last = atm.wind_ned(0.0, 0.0, 30.0, 1e-3);
        }
        last
    };
    assert_eq!(run(), run());
}

#[test]
fn set_turbulence_zero_clears_gust() {
    let mut atm = Air::new(AtmosphereConfig::wind(Vec3::zeros(), r(5.0)));
    for _ in 0..500 {
        atm.wind_ned(0.0, 0.0, 25.0, 1e-2);
    }
    assert!(atm.gust_magnitude() > 0.0);
    atm.state.set_turbulence(r(0.0));
    assert_eq!(atm.gust_magnitude(), 0.0);
    assert_eq!(atm.wind_ned(0.0, 0.0, 25.0, 1e-2), Vector3::zeros());
}

fn storm_atm(center: (f64, f64)) -> Air {
    Air::new(AtmosphereConfig {
        storm: Some(StormCell::microburst((r(center.0), r(center.1)))),
        ..AtmosphereConfig::calm()
    })
}

#[test]
fn storm_sinks_air_at_the_core() {
    let mut atm = storm_atm((0.0, 0.0));
    let w = atm.wind_ned(0.0, 0.0, 25.0, 1e-2);
    assert!(w.z > 5.0, "downdraft at the core: {}", w.z);
    let g = f(atm.state.storm_intensity());
    assert!(g > 0.9, "core intensity: {g}");

    let mut far = storm_atm((0.0, 0.0));
    let wf = far.wind_ned(3000.0, 0.0, 25.0, 1e-2);
    assert!(wf.norm() < 0.1, "far from the storm is calm: {wf:?}");
    assert!(f(far.state.storm_intensity()) < 0.01);
}

#[test]
fn storm_outflow_is_radial() {
    let mut atm = storm_atm((0.0, 0.0));
    let w = atm.wind_ned(200.0, 0.0, 25.0, 1e-2); // 200 m north, inside r=400
    assert!(w.x > 1.0, "outflow should blow radially out (north): {}", w.x);
    assert!(w.z > 0.0, "still sinking off-centre: {}", w.z);
}

#[test]
fn storm_roughens_the_air() {
    let mut atm = storm_atm((0.0, 0.0));
    for _ in 0..500 {
        atm.wind_ned(0.0, 0.0, 25.0, 1e-2);
    }
    assert!(
        atm.gust_magnitude() > 0.5,
        "storm should add turbulence: {}",
        atm.gust_magnitude()
    );
}

#[test]
fn storm_is_deterministic() {
    let cfg = AtmosphereConfig {
        storm: Some(StormCell::microburst((r(100.0), r(50.0)))),
        turbulence: r(1.0),
        ..AtmosphereConfig::calm()
    };
    let run = || {
        let mut atm = Air::new(cfg);
        let mut w = Vector3::zeros();
        for k in 0..3000 {
            w = atm.wind_ned(k as f64 * 0.01, 0.0, 30.0, 1e-2);
        }
        w
    };
    assert_eq!(run(), run());
}

#[test]
fn negative_turbulence_counts_as_none() {
    let mut a = Atmosphere::new(AtmosphereConfig::wind(v3(0.0, 0.0, 0.0), r(1.0)));
    a.set_gust(v3(1.0, 2.0, 3.0));
    a.set_turbulence(r(-2.0));
    assert_eq!(f(a.config().turbulence), 0.0);
    assert_eq!(a.gust, v3(0.0, 0.0, 0.0));
    a.set_gust(v3(1.0, 2.0, 3.0));
    a.set_turbulence(r(0.5));
    assert_eq!(a.gust, v3(1.0, 2.0, 3.0));
    assert_eq!(a.begin_step(r(0.1), None), Some(r(0.5)));
    a.set_wind(v3(4.0, 5.0, 6.0));
    assert_eq!(a.config().wind_ned, v3(4.0, 5.0, 6.0));
}

#[test]
fn clearing_the_storm_clears_the_warning() {
    let mut atm = storm_atm((0.0, 0.0));
    atm.wind_ned(10.0, 0.0, 25.0, 1e-2);
    assert!(f(atm.state.storm_intensity()) > 0.9);
    atm.state.set_storm(None);
    atm.wind_ned(10.0, 0.0, 25.0, 1e-2);
    assert_eq!(f(atm.state.storm_intensity()), 0.0);
    assert!((f(atm.state.time) - 0.02).abs() < 1e-12);
}

#[test]
fn default_settings_of_the_air() {
    let c = AtmosphereConfig::calm();
    assert_eq!(c.wind_ned, v3(0.0, 0.0, 0.0));
    assert_eq!((f(c.turbulence), f(c.va_min)), (0.0, 1.0));
    assert_eq!(c.scale_lengths, v3(200.0, 200.0, 50.0));
    assert!(c.storm.is_none());
    let s = StormCell::microburst((r(5.0), r(-6.0)));
    assert_eq!((f(s.center.0), f(s.center.1)), (5.0, -6.0));
    assert_eq!((f(s.velocity.0), f(s.velocity.1)), (0.0, 0.0));
    assert_eq!(
        (f(s.radius), f(s.downdraft), f(s.outflow), f(s.turbulence_boost)),
        (400.0, 10.0, 8.0, 4.0)
    );
}

#[test]
fn streams_have_their_own_seeds() {
    let s = SensorSeeds::new(42);
    assert_eq!(s.imu, 42);
    assert_eq!(s.gps, 42 ^ 0x1111_1111);
    assert_eq!(s.baro, 42 ^ 0x2222_2222);
    assert_eq!(s.mag, 42 ^ 0x3333_3333);
    let t = SensorSeeds::new(43);
    assert!(s.imu != t.imu && s.gps != t.gps && s.baro != t.baro && s.mag != t.mag);
}
