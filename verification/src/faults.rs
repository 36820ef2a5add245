//! Making the aircraft break, on purpose: jammed, floating or mushy surfaces, an
//! engine that quits, a tail torn off, a dead rotor.
use vstd::prelude::*;
use crate::messages::FixedWingControls;
use crate::number::Real;

verus! {

/// What is wrong with one control surface.
#[derive(Clone, Copy, Debug, PartialEq, Eq, Structural)]
pub enum SurfaceFault {
    /// Working normally.
    Normal,
    /// Stuck at an angle, whatever is commanded.
    Jammed(Real),
    /// Loose: the angle is 0.
    Floating,
    /// Mushy: the commanded angle is scaled by a factor, limited to `[0, 1]`.
    Degraded(Real),
}

/// Where a surface goes: to an angle, or to a commanded angle times a factor.
#[derive(Clone, Copy, Debug, PartialEq, Eq, Structural)]
pub enum Deflection {
    Angle(Real),
    Scaled { command: Real, factor: Real },
}

impl SurfaceFault {
    pub open spec fn applied(self, cmd: Real) -> Deflection {
        match self {
            SurfaceFault::Normal => Deflection::Angle(cmd),
            SurfaceFault::Jammed(angle) => Deflection::Angle(angle),
            SurfaceFault::Floating => Deflection::Angle(Real::zero_value()),
            SurfaceFault::Degraded(k) => Deflection::Scaled {
                command: cmd,
                factor: k.clamped_to(Real::zero_value(), Real::one_value()),
            },
        }
    }

    /// Where the surface goes when `cmd` is commanded.
    pub fn apply(self, cmd: Real) -> (r: Deflection)
        ensures
            r == self.applied(cmd),
    {
        match self {
            SurfaceFault::Normal => Deflection::Angle(cmd),
            SurfaceFault::Jammed(angle) => Deflection::Angle(angle),
            SurfaceFault::Floating => Deflection::Angle(Real::zero()),
            SurfaceFault::Degraded(k) => Deflection::Scaled {
                command: cmd,
                factor: k.clamp(Real::zero(), Real::one()),
            },
        }
    }

    pub fn is_faulted(self) -> (r: bool)
        ensures
            r == (self != SurfaceFault::Normal),
    {
        !matches!(self, SurfaceFault::Normal)
    }
}

/// Where the surfaces and the throttle go under faults.
#[derive(Clone, Copy, Debug, PartialEq, Eq, Structural)]
pub struct FaultedControls {
    pub aileron: Deflection,
    pub elevator: Deflection,
    pub rudder: Deflection,
    pub throttle: Real,
}

/// What damage does to an aerodynamic coefficient.
#[derive(Clone, Copy, Debug, PartialEq, Eq, Structural)]
pub enum CoefficientFault {
    /// Unchanged.
    Keep,
    /// Most of it is gone: a fifth remains.
    Fifth,
    /// All of it is gone.
    Lost,
}

/// What damage does to the coefficients that the tail carries.
#[derive(Clone, Copy, Debug, PartialEq, Eq, Structural)]
pub struct TailFaults {
    /// Pitch damping.
    pub cm_q: CoefficientFault,
    /// Yaw damping.
    pub cnr: CoefficientFault,
    /// Elevator authority.
    pub cm_de: CoefficientFault,
    /// Rudder authority.
    pub cn_dr: CoefficientFault,
}

/// Faults of a fixed-wing aircraft.
#[derive(Clone, Copy, Debug, PartialEq, Eq, Structural)]
pub struct FwFaults {
    /// The engine has quit: the throttle is 0.
    pub engine_out: bool,
    pub aileron: SurfaceFault,
    pub elevator: SurfaceFault,
    pub rudder: SurfaceFault,
    /// The tail is gone, and with it elevator, rudder and most of the damping.
    pub tail_loss: bool,
}

impl FwFaults {
    pub open spec fn healthy() -> FwFaults {
        FwFaults {
            engine_out: false,
            aileron: SurfaceFault::Normal,
            elevator: SurfaceFault::Normal,
            rudder: SurfaceFault::Normal,
            tail_loss: false,
        }
    }

    /// The faults mapped over commanded controls.
    pub open spec fn applied(self, c: FixedWingControls) -> FaultedControls {
        FaultedControls {
            aileron: self.aileron.applied(c.aileron),
            elevator: if self.tail_loss {
                Deflection::Angle(Real::zero_value())
            } else {
                self.elevator.applied(c.elevator)
            },
            rudder: if self.tail_loss {
                Deflection::Angle(Real::zero_value())
            } else {
                self.rudder.applied(c.rudder)
            },
            throttle: if self.engine_out {
                Real::zero_value()
            } else {
                c.throttle
            },
        }
    }

    pub open spec fn tail(self) -> TailFaults {
        if self.tail_loss {
            TailFaults {
                cm_q: CoefficientFault::Fifth,
                cnr: CoefficientFault::Fifth,
                cm_de: CoefficientFault::Lost,
                cn_dr: CoefficientFault::Lost,
            }
        } else {
            TailFaults {
                cm_q: CoefficientFault::Keep,
                cnr: CoefficientFault::Keep,
                cm_de: CoefficientFault::Keep,
                cn_dr: CoefficientFault::Keep,
            }
        }
    }

    /// A healthy aircraft.
    pub fn none() -> (r: FwFaults)
        ensures
            r == FwFaults::healthy(),
    {
        FwFaults {
            engine_out: false,
            aileron: SurfaceFault::Normal,
            elevator: SurfaceFault::Normal,
            rudder: SurfaceFault::Normal,
            tail_loss: false,
        }
    }

    /// Whether anything is broken.
    pub fn any(&self) -> (r: bool)
        ensures
            r == (*self != FwFaults::healthy()),
    {
        self.engine_out || self.tail_loss || self.aileron.is_faulted() || self.elevator.is_faulted()
            || self.rudder.is_faulted()
    }

    /// Where the surfaces and the throttle go when `c` is commanded.
    pub fn apply_controls(&self, c: FixedWingControls) -> (r: FaultedControls)
        ensures
            r == self.applied(c),
    {
        let mut r = FaultedControls {
            aileron: self.aileron.apply(c.aileron),
            elevator: self.elevator.apply(c.elevator),
            rudder: self.rudder.apply(c.rudder),
            throttle: c.throttle,
        };
        if self.engine_out {
            r.throttle = Real::zero();
        }
        if self.tail_loss {
            r.elevator = Deflection::Angle(Real::zero());
            r.rudder = Deflection::Angle(Real::zero());
        }
        r
    }

    /// What the damage does to the coefficients of the airframe.
    pub fn apply_params(&self) -> (r: TailFaults)
        ensures
            r == self.tail(),
    {
        if self.tail_loss {
            TailFaults {
                cm_q: CoefficientFault::Fifth,
                cnr: CoefficientFault::Fifth,
                cm_de: CoefficientFault::Lost,
                cn_dr: CoefficientFault::Lost,
            }
        } else {
            TailFaults {
                cm_q: CoefficientFault::Keep,
                cnr: CoefficientFault::Keep,
                cm_de: CoefficientFault::Keep,
                cn_dr: CoefficientFault::Keep,
            }
        }
    }
}

/// A healthy aircraft does what is commanded.
pub proof fn healthy_controls_pass_through(c: FixedWingControls)
    ensures
        FwFaults::healthy().applied(c) == (FaultedControls {
            aileron: Deflection::Angle(c.aileron),
            elevator: Deflection::Angle(c.elevator),
            rudder: Deflection::Angle(c.rudder),
            throttle: c.throttle,
        }),
{
}

/// Without an engine there is no throttle, and without a tail neither elevator nor
/// rudder, whatever is commanded and whatever else is broken.
pub proof fn lost_parts_do_nothing(f: FwFaults, c: FixedWingControls)
    ensures
        f.engine_out ==> f.applied(c).throttle == Real::zero_value(),
        f.tail_loss ==> f.applied(c).elevator == Deflection::Angle(Real::zero_value()),
        f.tail_loss ==> f.applied(c).rudder == Deflection::Angle(Real::zero_value()),
        f.applied(c).aileron == f.aileron.applied(c.aileron),
{
}

/// Faults of a quadrotor.
#[derive(Clone, Copy, Debug, PartialEq, Eq, Structural)]
pub struct QuadFaults {
    /// The motor that gives no thrust.
    pub dead_rotor: Option<usize>,
}

impl QuadFaults {
    pub open spec fn healthy() -> QuadFaults {
        QuadFaults { dead_rotor: None }
    }

    /// The thrusts that come out of commanded ones.
    pub open spec fn applied(self, thrust: Seq<Real>) -> Seq<Real> {
        match self.dead_rotor {
            Some(i) => if i < thrust.len() {
                thrust.update(i as int, Real::zero_value())
            } else {
                thrust
            },
            None => thrust,
        }
    }

    /// The four thrusts that come out of commanded ones.
    pub open spec fn applied_to_four(self, thrust: [Real; 4]) -> [Real; 4] {
        let t = self.applied(thrust@);
        [t[0], t[1], t[2], t[3]]
    }

    /// A healthy aircraft.
    pub fn none() -> (r: QuadFaults)
        ensures
            r == QuadFaults::healthy(),
    {
        QuadFaults { dead_rotor: None }
    }

    /// Whether anything is broken.
    pub fn any(&self) -> (r: bool)
        ensures
            r == (*self != QuadFaults::healthy()),
    {
        self.dead_rotor.is_some()
    }

    /// The thrusts with the dead rotor's taken out.
    pub fn apply_motors(&self, thrust: [Real; 4]) -> (r: [Real; 4])
        ensures
            r@ == self.applied(thrust@),
            r == self.applied_to_four(thrust),
    {
        let mut r = thrust;
        if let Some(i) = self.dead_rotor {
            if i < 4 {
                r[i] = Real::zero();
            }
        }
        assert(r@ =~= self.applied(thrust@));
        assert(self.applied_to_four(thrust)@ =~= r@);
        assert(r =~= self.applied_to_four(thrust));
        r
    }
}

/// A dead rotor loses its own thrust and no other.
pub proof fn dead_rotor_is_the_only_one(f: QuadFaults, thrust: Seq<Real>, k: int)
    requires
        0 <= k < thrust.len(),
    ensures
        f.applied(thrust).len() == thrust.len(),
        f.applied(thrust)[k] == (if f.dead_rotor == Some(k as usize) && k <= usize::MAX {
            Real::zero_value()
        } else {
            thrust[k]
        }),
{
}

/// Where a surface goes under a fault. A working one goes where it is commanded; a jammed one
/// stays at its angle and a loose one at 0, whatever is commanded; a mushy one follows its
/// command by a factor between 0 and 1, which is the fault's own wherever that lies between.
pub proof fn fault_decides_where_a_surface_goes(angle: Real, k: Real, a: Real, b: Real)
    ensures
        SurfaceFault::Normal.applied(a) == Deflection::Angle(a),
        SurfaceFault::Jammed(angle).applied(a) == Deflection::Angle(angle),
        SurfaceFault::Jammed(angle).applied(a) == SurfaceFault::Jammed(angle).applied(b),
        SurfaceFault::Floating.applied(a) == Deflection::Angle(Real { bits: 0 }),
        SurfaceFault::Degraded(k).applied(a) matches Deflection::Scaled { command, factor }
            && command == a && (k.is_number() ==> Real::zero_value().at_most(factor)
            && factor.at_most(Real::one_value())) && (Real::zero_value().at_most(k) && k.at_most(
            Real::one_value(),
        ) ==> factor == k) && (k.less(Real::zero_value()) ==> factor == Real::zero_value()) && (
        Real::one_value().less(k) ==> factor == Real::one_value()),
{
}

/// With the tail on, each surface goes where its own fault sends its own command, and with the
/// engine running the throttle is what is commanded.
pub proof fn each_surface_has_its_own_fault(f: FwFaults, c: FixedWingControls)
    ensures
        f.applied(c).aileron == f.aileron.applied(c.aileron),
        !f.tail_loss ==> f.applied(c).elevator == f.elevator.applied(c.elevator),
        !f.tail_loss ==> f.applied(c).rudder == f.rudder.applied(c.rudder),
        !f.engine_out ==> f.applied(c).throttle == c.throttle,
{
}

/// A command moves its own surface and no other: two commands that differ in one surface come
/// to the same for the rest.
pub proof fn commands_do_not_cross_over(f: FwFaults, c: FixedWingControls, x: Real)
    ensures
        ({
            let (a, r) = (f.applied(FixedWingControls { aileron: x, ..c }), f.applied(c));
            a.elevator == r.elevator && a.rudder == r.rudder && a.throttle == r.throttle
        }),
        ({
            let (a, r) = (f.applied(FixedWingControls { elevator: x, ..c }), f.applied(c));
            a.aileron == r.aileron && a.rudder == r.rudder && a.throttle == r.throttle
        }),
        ({
            let (a, r) = (f.applied(FixedWingControls { rudder: x, ..c }), f.applied(c));
            a.aileron == r.aileron && a.elevator == r.elevator && a.throttle == r.throttle
        }),
        ({
            let (a, r) = (f.applied(FixedWingControls { throttle: x, ..c }), f.applied(c));
            a.aileron == r.aileron && a.elevator == r.elevator && a.rudder == r.rudder
        }),
{
}

/// Losing the tail costs elevator and rudder all their authority and leaves a fifth of the
/// damping in pitch and yaw; no other fault changes the airframe.
pub proof fn only_a_lost_tail_changes_the_airframe(f: FwFaults)
    ensures
        f.tail_loss ==> f.tail().cm_de is Lost && f.tail().cn_dr is Lost && f.tail().cm_q is Fifth
            && f.tail().cnr is Fifth,
        !f.tail_loss ==> f.tail().cm_de is Keep && f.tail().cn_dr is Keep && f.tail().cm_q is Keep
            && f.tail().cnr is Keep,
{
}

/// A healthy aircraft has no fault: engine and tail are there, and every surface and every
/// rotor works.
pub proof fn healthy_has_no_fault(thrust: Seq<Real>)
    ensures
        !FwFaults::healthy().engine_out && !FwFaults::healthy().tail_loss,
        FwFaults::healthy().aileron is Normal,
        FwFaults::healthy().elevator is Normal,
        FwFaults::healthy().rudder is Normal,
        QuadFaults::healthy().dead_rotor is None,
        QuadFaults::healthy().applied(thrust) == thrust,
{
}

/// What four motors give under a fault is what any number of them gives: the dead one nothing,
/// the others what they are asked for.
pub proof fn four_motors_are_no_exception(f: QuadFaults, thrust: [Real; 4], k: int)
    requires
        0 <= k < 4,
    ensures
        f.applied_to_four(thrust)@[k] == (if f.dead_rotor == Some(k as usize) {
            Real::zero_value()
        } else {
            thrust@[k]
        }),
{
    assert(f.applied_to_four(thrust)@[k] == f.applied(thrust@)[k]);
}

} // verus!
