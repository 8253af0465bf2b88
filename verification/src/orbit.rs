//! Shared orbital data: the orbit descriptor snapshot the planners read, the
//! node request they produce, and the fixed-point unit constants.
//!
//! Planner units: metres for lengths and radii, seconds for times,
//! micro-radians for angles, and the gravitational parameter in cubic metres
//! per second squared. Angles of a well-formed descriptor are reduced into
//! `[0, TURN_URAD)`.

use vstd::prelude::*;

verus! {

/// One full turn in micro-radians.
pub const TURN_URAD: u64 = 6_283_185;

/// Half a turn in micro-radians.
pub const HALF_TURN_URAD: u64 = 3_141_592;

/// Largest radius or semi-major-axis magnitude the planners accept, metres.
pub const RADIUS_BOUND: i64 = 1_000_000_000_000;

/// Largest gravitational parameter the planners accept.
pub const MU_BOUND: u64 = 1_000_000_000_000_000_000;

/// Largest orbital or rotational period the planners accept, seconds.
pub const PERIOD_BOUND: u64 = 100_000_000;

/// Largest epoch or time-to-apsis the planners accept, seconds.
pub const EPOCH_BOUND: u64 = 1_000_000_000_000_000;

/// An immutable snapshot of one orbit, read from the vehicle interface on
/// demand and never cached across ticks. Apsides are radii from the body's
/// centre; a negative apoapsis marks an escape trajectory.
#[derive(Debug, Clone, Copy)]
pub struct OrbitDescriptor {
    /// Apoapsis radius, metres; negative on a hyperbolic orbit.
    pub apoapsis: i64,
    /// Periapsis radius, metres.
    pub periapsis: i64,
    /// Semi-major axis, metres; negative on a hyperbolic orbit.
    pub semi_major_axis: i64,
    /// Inclination, micro-radians; negative marks a retrograde orbit.
    pub inclination: i64,
    /// Longitude of the ascending node, micro-radians.
    pub lan: u64,
    /// Argument of periapsis, micro-radians.
    pub aop: u64,
    /// Orbital period, seconds.
    pub period: u64,
    /// Gravitational parameter of the primary body.
    pub mu: u64,
    /// Time from the snapshot to the next apoapsis passage, seconds.
    pub time_to_apoapsis: u64,
    /// Time from the snapshot to the next periapsis passage, seconds.
    pub time_to_periapsis: u64,
}

impl OrbitDescriptor {
    pub open spec fn wf(self) -> bool {
        &&& 1 <= self.periapsis <= RADIUS_BOUND
        &&& -RADIUS_BOUND <= self.apoapsis <= RADIUS_BOUND
        &&& self.semi_major_axis != 0
        &&& -RADIUS_BOUND <= self.semi_major_axis <= RADIUS_BOUND
        &&& -(TURN_URAD as i64) <= self.inclination <= TURN_URAD as i64
        &&& self.lan < TURN_URAD
        &&& self.aop < TURN_URAD
        &&& 1 <= self.period <= PERIOD_BOUND
        &&& 1 <= self.mu <= MU_BOUND
        &&& self.time_to_apoapsis <= EPOCH_BOUND
        &&& self.time_to_periapsis <= EPOCH_BOUND
        &&& (self.apoapsis >= 0 ==> 1 <= self.apoapsis < 2 * self.semi_major_axis)
        &&& (self.apoapsis < 0 ==> self.semi_major_axis < 0)
    }
}

/// A planned impulsive burn: an epoch in absolute simulation time and a
/// prograde delta-v, metres per second (negative for a retrograde burn).
/// Created once by a planner and consumed exactly once by the burn executor.
#[derive(Debug, Clone, Copy, PartialEq, Eq, Structural)]
pub struct NodeRequest {
    pub ut: u64,
    pub prograde: i64,
}

} // verus!
