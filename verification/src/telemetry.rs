//! What a run logs: one sample per logged instant.
use vstd::prelude::*;
use crate::messages::{EstState, Setpoint, State13, Vec3};
use crate::number::Real;

verus! {

/// One logged instant.
#[derive(Clone, Copy, Debug, PartialEq, Eq)]
pub struct TelemetrySample {
    /// Simulated time.
    pub t: Real,
    /// The true state.
    pub truth: State13,
    /// What the autopilot took the state to be.
    pub estimate: EstState,
    /// The setpoint in force.
    pub setpoint: Setpoint,
    /// Thrust of each motor.
    pub motors: [Real; 4],
    /// The gyro bias hidden inside the sensor.
    pub true_gyro_bias: Vec3,
    /// The estimator's idea of that bias; zero if it has none.
    pub est_gyro_bias: Vec3,
}

/// A growing log of samples.
#[derive(Clone, Debug)]
pub struct Telemetry {
    pub samples: Vec<TelemetrySample>,
}

impl View for Telemetry {
    type V = Seq<TelemetrySample>;

    open spec fn view(&self) -> Seq<TelemetrySample> {
        self.samples@
    }
}

impl Default for Telemetry {
    fn default() -> (r: Telemetry)
        ensures
            r@ == Seq::<TelemetrySample>::empty(),
    {
        Telemetry { samples: Vec::new() }
    }
}

impl Telemetry {
    pub fn new() -> (r: Telemetry)
        ensures
            r@ == Seq::<TelemetrySample>::empty(),
    {
        Telemetry { samples: Vec::new() }
    }

    /// Adds a sample at the end.
    pub fn push(&mut self, s: TelemetrySample)
        ensures
            final(self)@ == old(self)@.push(s),
    {
        self.samples.push(s);
    }

    pub fn len(&self) -> (r: usize)
        ensures
            r == self@.len(),
    {
        self.samples.len()
    }

    pub fn is_empty(&self) -> (r: bool)
        ensures
            r == (self@.len() == 0),
    {
        self.samples.len() == 0
    }

    /// The newest sample.
    pub fn last(&self) -> (r: Option<&TelemetrySample>)
        ensures
            r is Some <==> self@.len() > 0,
            r matches Some(s) ==> *s == self@.last(),
    {
        if self.samples.len() == 0 {
            None
        } else {
            Some(&self.samples[self.samples.len() - 1])
        }
    }
}

} // verus!
