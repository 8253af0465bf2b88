//! Flight-guidance library for a simulated spacecraft.
//!
//! The crate plans and supervises an ascent from the launch pad into a target
//! orbit: a gravity-turn ascent state machine, an orbital maneuver planner
//! (circularization, rendezvous phasing and ground-track intersection), and a
//! burn executor built on the rocket equation.
//!
//! All physical quantities are carried as fixed-point integers (the caller
//! picks the unit: metres, milli-degrees, micro-radians, seconds), so every
//! formula in the crate is exact integer arithmetic with a proved contract.
//! Talking to the vehicle itself (the RPC connection, telemetry streams) is
//! left to the embedding program; the library only decides.

pub mod circ;
pub mod docking_camera;
pub mod intercept;
pub mod interpolate;
pub mod intersect;
pub mod krpc;
pub mod launch;
pub mod li_dar;
pub mod maneuver;
pub mod math;
pub mod orbit;
pub mod rpc;
pub mod telemetry;
pub mod vector;
