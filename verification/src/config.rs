//! What kinds of parts a simulator is built from.
use vstd::prelude::*;

verus! {

/// The estimator in the loop.
#[derive(Clone, Copy, Debug, PartialEq, Eq, Structural)]
pub enum EstimatorKind {
    /// Complementary filter.
    Complementary,
    /// Attitude filter that also estimates the gyro bias.
    Mekf,
    /// Inertial navigation: the only one that knows position and velocity.
    Ins,
}

/// The inner attitude controller.
#[derive(Clone, Copy, Debug, PartialEq, Eq, Structural)]
pub enum ControllerKind {
    /// Cascaded attitude and rate loops.
    Pid,
    /// Optimal state feedback.
    Lqr,
}

/// The seeds of the noise streams, one per sensor.
#[derive(Clone, Copy, Debug, PartialEq, Eq, Structural)]
pub struct SensorSeeds {
    pub imu: u64,
    pub gps: u64,
    pub baro: u64,
    pub mag: u64,
}

impl SensorSeeds {
    /// Derives the seeds of the streams from the master seed.
    pub open spec fn of(seed: u64) -> SensorSeeds {
        SensorSeeds {
            imu: seed,
            gps: seed ^ 0x1111_1111,
            baro: seed ^ 0x2222_2222,
            mag: seed ^ 0x3333_3333,
        }
    }

    /// Derives the seeds of the streams from the master seed.
    pub fn new(seed: u64) -> (r: SensorSeeds)
        ensures
            r == SensorSeeds::of(seed),
    {
        SensorSeeds {
            imu: seed,
            gps: seed ^ 0x1111_1111,
            baro: seed ^ 0x2222_2222,
            mag: seed ^ 0x3333_3333,
        }
    }
}

/// No two sensors share a stream, whatever the master seed.
pub proof fn sensor_streams_are_distinct(seed: u64)
    ensures
        ({
            let s = SensorSeeds::of(seed);
            &&& s.imu != s.gps
            &&& s.imu != s.baro
            &&& s.imu != s.mag
            &&& s.gps != s.baro
            &&& s.gps != s.mag
            &&& s.baro != s.mag
        }),
{
    let g = seed ^ 0x1111_1111;
    let b = seed ^ 0x2222_2222;
    let m = seed ^ 0x3333_3333;
    assert(seed != g && seed != b && seed != m && g != b && g != m && b != m) by (bit_vector)
        requires
            g == seed ^ 0x1111_1111,
            b == seed ^ 0x2222_2222,
            m == seed ^ 0x3333_3333,
    ;
}

/// Two runs with different master seeds differ in every sensor's stream.
pub proof fn sensor_seeds_keep_runs_apart(a: u64, b: u64)
    requires
        a != b,
    ensures
        SensorSeeds::of(a).imu != SensorSeeds::of(b).imu,
        SensorSeeds::of(a).gps != SensorSeeds::of(b).gps,
        SensorSeeds::of(a).baro != SensorSeeds::of(b).baro,
        SensorSeeds::of(a).mag != SensorSeeds::of(b).mag,
{
    assert(a ^ 0x1111_1111 != b ^ 0x1111_1111 && a ^ 0x2222_2222 != b ^ 0x2222_2222 && a
        ^ 0x3333_3333 != b ^ 0x3333_3333) by (bit_vector)
        requires
            a != b,
    ;
}

/// The stream of a sensor differs from the master seed by the same pattern in every run: none
/// for the IMU, and another one for each of the others.
pub proof fn sensor_patterns_do_not_depend_on_the_seed(seed: u64)
    ensures
        SensorSeeds::of(seed).imu == seed,
        SensorSeeds::of(seed).gps ^ seed == 0x1111_1111,
        SensorSeeds::of(seed).baro ^ seed == 0x2222_2222,
        SensorSeeds::of(seed).mag ^ seed == 0x3333_3333,
{
    assert((seed ^ 0x1111_1111) ^ seed == 0x1111_1111 && (seed ^ 0x2222_2222) ^ seed
        == 0x2222_2222 && (seed ^ 0x3333_3333) ^ seed == 0x3333_3333) by (bit_vector);
}

} // verus!
