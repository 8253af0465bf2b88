//! The ground-track intersection solver: when an equatorial vessel's ground
//! track next crosses a target orbit's line of nodes.
//!
//! Both orbits must share the primary body. The vessel's orbital longitude
//! (ascending node plus argument of periapsis, opposite side of the orbit)
//! is compared with the target's ascending-node longitude — swung by half a
//! turn when the target orbit is retrograde — and the angular separation,
//! normalized into `(0, TURN_URAD]` by adding a full turn when it is not
//! positive, is converted to a time delay through the body's rotational
//! period.

use vstd::prelude::*;

use crate::orbit::{EPOCH_BOUND, HALF_TURN_URAD, PERIOD_BOUND, TURN_URAD};

verus! {

/// The vessel's orbital longitude, reduced to one turn.
pub open spec fn vessel_longitude(lan: int, aop: int) -> int {
    (lan + aop + HALF_TURN_URAD) % (TURN_URAD as int)
}

/// The target's node-line longitude: its ascending node, or the descending
/// node when the orbit is retrograde (negative inclination).
pub open spec fn node_longitude(asc_lng: int, inclination: int) -> int {
    if inclination < 0 {
        (asc_lng + HALF_TURN_URAD) % (TURN_URAD as int)
    } else {
        asc_lng
    }
}

/// Angular separation from vessel to node line, in `(0, TURN_URAD]`.
pub open spec fn intersect_delta(lan: int, aop: int, asc_lng: int, inclination: int) -> int {
    let d = node_longitude(asc_lng, inclination) - vessel_longitude(lan, aop);
    if d <= 0 {
        d + TURN_URAD
    } else {
        d
    }
}

/// The delay until the crossing: the separation as a fraction of a turn,
/// scaled by the body's rotational period.
pub open spec fn intersect_delay_spec(
    lan: int,
    aop: int,
    asc_lng: int,
    inclination: int,
    rot_period: int,
) -> int {
    rot_period * intersect_delta(lan, aop, asc_lng, inclination) / (TURN_URAD as int)
}

/// Seconds until the vessel's ground track crosses the target orbit's line
/// of nodes. The delay never exceeds one rotational period, and is strictly
/// below it unless the two longitudes coincide exactly: the normalization
/// turns a zero separation into a full turn, so that boundary input waits
/// one whole rotation rather than zero.
pub fn intersect_delay(
    vessel_lan: u64,
    vessel_aop: u64,
    asc_lng: u64,
    inclination: i64,
    rot_period: u64,
) -> (delay: u64)
    requires
        vessel_lan < TURN_URAD,
        vessel_aop < TURN_URAD,
        asc_lng < TURN_URAD,
        1 <= rot_period <= PERIOD_BOUND,
    ensures
        delay == intersect_delay_spec(
            vessel_lan as int,
            vessel_aop as int,
            asc_lng as int,
            inclination as int,
            rot_period as int,
        ),
        delay <= rot_period,
        intersect_delta(vessel_lan as int, vessel_aop as int, asc_lng as int, inclination as int)
            < TURN_URAD ==> delay < rot_period,
{
    let vlng = (vessel_lan + vessel_aop + HALF_TURN_URAD) % TURN_URAD;
    let nlng = if inclination < 0 {
        (asc_lng + HALF_TURN_URAD) % TURN_URAD
    } else {
        asc_lng
    };
    let mut d = (nlng as i64) - (vlng as i64);
    if d <= 0 {
        d = d + (TURN_URAD as i64);
    }
    proof {
        assert(1 <= d <= TURN_URAD);
        assert((rot_period as int) * (d as int) <= (rot_period as int) * (TURN_URAD as int)
            && 0 <= (rot_period as int) * (d as int)) by (nonlinear_arith)
            requires
                1 <= (d as int) <= (TURN_URAD as int),
                1 <= (rot_period as int),
        ;
        assert((rot_period as int) * (TURN_URAD as int)
            <= 700_000_000_000_000_000_000_000int) by (nonlinear_arith)
            requires
                1 <= (rot_period as int) <= 100_000_000int,
                TURN_URAD == 6_283_185u64,
        ;
        vstd::arithmetic::div_mod::lemma_multiply_divide_le(
            (rot_period as int) * (d as int),
            TURN_URAD as int,
            rot_period as int,
        );
        assert((TURN_URAD as int) * (rot_period as int)
            == (rot_period as int) * (TURN_URAD as int)) by (nonlinear_arith);
        if (d as int) < TURN_URAD {
            assert((rot_period as int) * (d as int)
                < (TURN_URAD as int) * (rot_period as int)) by (nonlinear_arith)
                requires
                    (d as int) < (TURN_URAD as int),
                    1 <= (rot_period as int),
            ;
            vstd::arithmetic::div_mod::lemma_multiply_divide_lt(
                (rot_period as int) * (d as int),
                TURN_URAD as int,
                rot_period as int,
            );
        }
    }
    (((rot_period as u128) * (d as u128)) / (TURN_URAD as u128)) as u64
}

/// Timestamp of the crossing: the current simulation time plus the delay.
pub fn intersect_time(
    vessel_lan: u64,
    vessel_aop: u64,
    asc_lng: u64,
    inclination: i64,
    rot_period: u64,
    ut: u64,
) -> (timestamp: u64)
    requires
        vessel_lan < TURN_URAD,
        vessel_aop < TURN_URAD,
        asc_lng < TURN_URAD,
        1 <= rot_period <= PERIOD_BOUND,
        ut <= EPOCH_BOUND,
    ensures
        timestamp == ut + intersect_delay_spec(
            vessel_lan as int,
            vessel_aop as int,
            asc_lng as int,
            inclination as int,
            rot_period as int,
        ),
{
    let delay = intersect_delay(vessel_lan, vessel_aop, asc_lng, inclination, rot_period);
    ut + delay
}

} // verus!
