//! The ascent guidance state machine: drives the vehicle from the pad
//! through the gravity turn and coast into the circularization burn.
//!
//! Each control tick the embedding loop feeds the latest telemetry record to
//! [`step`], which returns the next phase and the commands to issue. The
//! transition logic is a pure function of the current phase and the record;
//! issuing the commands (and every RPC) is the caller's business. Units
//! follow the telemetry record: milli-metres, milli-degrees, milli-seconds.

use vstd::prelude::*;

use crate::interpolate::{Interpolate, COORD_BOUND};
use crate::telemetry::Attitude;

verus! {

/// The guidance phases, in flight order. `Orbit` is the only terminal phase.
#[derive(Debug, Clone, Copy, PartialEq, Eq, Structural)]
pub enum State {
    Launch,
    Ascent,
    Turn,
    Coast,
    Circularize,
    Orbit,
}

/// Thresholds and gain programs for one ascent. Lengths are milli-metres,
/// angles milli-degrees, times milli-seconds.
pub struct AscentConfig {
    /// Compass heading commanded at liftoff.
    pub heading: i64,
    /// Altitude at which the gravity turn begins.
    pub turn_alt: i64,
    /// Below this altitude the commanded pitch is held close to the velocity
    /// vector to bound aerodynamic loads.
    pub track_alt: i64,
    /// Apoapsis at which the turn ends and the vehicle coasts.
    pub target_apoapsis: i64,
    /// Altitude of the atmosphere boundary.
    pub atmosphere_alt: i64,
    /// Periapsis above which the orbit counts as inserted.
    pub target_periapsis: i64,
    /// Time to apoapsis below which the circularization burn runs.
    pub eta_burn: i64,
    /// Pitch deviation tolerated during circularization before the level
    /// hold is re-commanded.
    pub pitch_tolerance: i64,
    /// Altitude to target pitch.
    pub pitch_program: Interpolate,
    /// Altitude to angle-of-attack margin.
    pub aoa_program: Interpolate,
}

impl AscentConfig {
    pub open spec fn wf(self) -> bool {
        &&& self.pitch_program.wf()
        &&& self.aoa_program.wf()
        &&& 0 <= self.pitch_tolerance
        &&& 0 <= self.track_alt <= COORD_BOUND
    }
}

/// The commands one tick asks the vehicle interface to perform. Throttle is
/// in milli-units of full thrust; `attitude` is a pitch-and-heading target.
#[derive(Debug, Clone, Copy)]
pub struct Commands {
    pub attitude: Option<(i64, i64)>,
    pub pitch: Option<i64>,
    pub throttle: Option<i64>,
    pub engage: bool,
    pub disengage: bool,
    pub next_stage: bool,
}

impl Commands {
    /// A tick that asks for nothing.
    pub open spec fn quiet() -> Commands {
        Commands {
            attitude: None,
            pitch: None,
            throttle: None,
            engage: false,
            disengage: false,
            next_stage: false,
        }
    }
}

/// The pitch commanded during the gravity turn: the altitude-scheduled
/// program value, and below the tracking altitude no more than the measured
/// pitch less the angle of attack and the scheduled margin.
pub open spec fn turn_pitch(t: Attitude, cfg: AscentConfig) -> int {
    let scheduled = cfg.pitch_program.lerp(t.alt as int);
    if t.alt < cfg.track_alt {
        vstd::math::min(scheduled, t.pitch - t.aoa - cfg.aoa_program.lerp(t.alt as int))
    } else {
        scheduled
    }
}

/// The phase after one tick in phase `s` with telemetry `t`.
pub open spec fn next_state(s: State, t: Attitude, cfg: AscentConfig) -> State {
    match s {
        State::Launch => State::Ascent,
        State::Ascent => if t.alt >= cfg.turn_alt {
            State::Turn
        } else {
            State::Ascent
        },
        State::Turn => if t.apop > cfg.target_apoapsis {
            State::Coast
        } else {
            State::Turn
        },
        State::Coast => if t.alt > cfg.atmosphere_alt {
            State::Circularize
        } else {
            State::Coast
        },
        State::Circularize => if t.perip > cfg.target_periapsis {
            State::Orbit
        } else {
            State::Circularize
        },
        State::Orbit => State::Orbit,
    }
}

/// The commands issued by one tick in phase `s` with telemetry `t`.
pub open spec fn step_commands(s: State, t: Attitude, cfg: AscentConfig) -> Commands {
    match s {
        State::Launch => Commands {
            attitude: Some((90_000i64, cfg.heading)),
            pitch: None,
            throttle: None,
            engage: true,
            disengage: false,
            next_stage: true,
        },
        State::Ascent => Commands::quiet(),
        State::Turn => Commands {
            pitch: Some(turn_pitch(t, cfg) as i64),
            ..Commands::quiet()
        },
        State::Coast => Commands { throttle: Some(0i64), ..Commands::quiet() },
        State::Circularize => Commands {
            pitch: if t.pitch > cfg.pitch_tolerance || t.pitch < -cfg.pitch_tolerance {
                Some(0i64)
            } else {
                None
            },
            throttle: if t.perip > cfg.target_periapsis {
                None
            } else if t.eta_apop < cfg.eta_burn {
                Some(1000i64)
            } else {
                Some(0i64)
            },
            ..Commands::quiet()
        },
        State::Orbit => Commands { throttle: Some(0i64), disengage: true, ..Commands::quiet() },
    }
}

/// Whether the guidance loop is done: `Orbit` is the only terminal phase,
/// and its zero-throttle and disengage commands are issued on the single
/// tick that observes it.
pub fn is_terminal(s: State) -> (r: bool)
    ensures
        r == (s == State::Orbit),
{
    s == State::Orbit
}

/// One control tick: evaluate the current phase against the latest
/// telemetry, returning the next phase and the commands to issue.
pub fn step(s: State, t: &Attitude, cfg: &AscentConfig) -> (r: (State, Commands))
    requires
        cfg.wf(),
        t.wf(),
    ensures
        r.0 == next_state(s, *t, *cfg),
        r.1 == step_commands(s, *t, *cfg),
{
    match s {
        State::Launch => (
            State::Ascent,
            Commands {
                attitude: Some((90_000, cfg.heading)),
                pitch: None,
                throttle: None,
                engage: true,
                disengage: false,
                next_stage: true,
            },
        ),
        State::Ascent => {
            let next = if t.alt >= cfg.turn_alt {
                State::Turn
            } else {
                State::Ascent
            };
            (
                next,
                Commands {
                    attitude: None,
                    pitch: None,
                    throttle: None,
                    engage: false,
                    disengage: false,
                    next_stage: false,
                },
            )
        },
        State::Turn => {
            let scheduled = cfg.pitch_program.inter(t.alt);
            let pitch = if t.alt < cfg.track_alt {
                let margin = cfg.aoa_program.inter(t.alt);
                let bound = t.pitch - t.aoa - margin;
                if scheduled <= bound {
                    scheduled
                } else {
                    bound
                }
            } else {
                scheduled
            };
            let next = if t.apop > cfg.target_apoapsis {
                State::Coast
            } else {
                State::Turn
            };
            (
                next,
                Commands {
                    attitude: None,
                    pitch: Some(pitch),
                    throttle: None,
                    engage: false,
                    disengage: false,
                    next_stage: false,
                },
            )
        },
        State::Coast => {
            let next = if t.alt > cfg.atmosphere_alt {
                State::Circularize
            } else {
                State::Coast
            };
            (
                next,
                Commands {
                    attitude: None,
                    pitch: None,
                    throttle: Some(0),
                    engage: false,
                    disengage: false,
                    next_stage: false,
                },
            )
        },
        State::Circularize => {
            let pitch = if t.pitch > cfg.pitch_tolerance || t.pitch < -cfg.pitch_tolerance {
                Some(0i64)
            } else {
                None
            };
            if t.perip > cfg.target_periapsis {
                (
                    State::Orbit,
                    Commands {
                        attitude: None,
                        pitch,
                        throttle: None,
                        engage: false,
                        disengage: false,
                        next_stage: false,
                    },
                )
            } else {
                let throttle = if t.eta_apop < cfg.eta_burn {
                    1000
                } else {
                    0
                };
                (
                    State::Circularize,
                    Commands {
                        attitude: None,
                        pitch,
                        throttle: Some(throttle),
                        engage: false,
                        disengage: false,
                        next_stage: false,
                    },
                )
            }
        },
        State::Orbit => (
            State::Orbit,
            Commands {
                attitude: None,
                pitch: None,
                throttle: Some(0),
                engage: false,
                disengage: true,
                next_stage: false,
            },
        ),
    }
}

/// Watches the available-thrust channel and triggers the next staging event
/// when thrust drops, at most once per stage index. A drop in reported
/// thrust while still on an already-staged index is taken as fluctuation and
/// ignored.
pub struct StagingMonitor {
    pub prev_thrust: i64,
    pub last_staged: i64,
}

impl StagingMonitor {
    /// Whether a tick with this thrust and stage index triggers staging.
    pub open spec fn fires(self, thrust: i64, stage: i64) -> bool {
        thrust < self.prev_thrust && self.last_staged != stage
    }

    /// The monitor after one tick.
    pub open spec fn stepped(self, thrust: i64, stage: i64) -> StagingMonitor {
        if self.fires(thrust, stage) {
            StagingMonitor { prev_thrust: -1i64, last_staged: stage }
        } else if thrust > self.prev_thrust {
            StagingMonitor { prev_thrust: thrust, ..self }
        } else {
            self
        }
    }

    pub fn new() -> (r: Self)
        ensures
            r.prev_thrust == -1,
            r.last_staged == -1,
    {
        StagingMonitor { prev_thrust: -1, last_staged: -1 }
    }

    /// Feed one tick of thrust and stage telemetry; returns whether to
    /// trigger the next staging event.
    pub fn observe(&mut self, thrust: i64, stage: i64) -> (cmd: bool)
        ensures
            cmd == old(self).fires(thrust, stage),
            *final(self) == old(self).stepped(thrust, stage),
    {
        if thrust < self.prev_thrust && self.last_staged != stage {
            self.last_staged = stage;
            self.prev_thrust = -1;
            true
        } else {
            if thrust > self.prev_thrust {
                self.prev_thrust = thrust;
            }
            false
        }
    }
}

/// Staging fires at most once per stage index: after a tick triggers on a
/// stage, no later tick can trigger again until the reported stage changes.
pub proof fn lemma_staging_fires_once(m: StagingMonitor, t1: i64, s: i64, t2: i64)
    requires
        m.fires(t1, s),
    ensures
        !m.stepped(t1, s).fires(t2, s),
{
}

} // verus!
