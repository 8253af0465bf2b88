//! The circularization solver: picks the apsis to circularize at and
//! computes the burn's delta-v from the vis-viva equation.
//!
//! At radius `r` on an orbit of semi-major axis `a` around a body with
//! gravitational parameter `mu`, the orbital speed is
//! `sqrt(mu * (2/r - 1/a))`; the circular speed at `r` is `sqrt(mu / r)`.
//! The burn is their difference. On an escape trajectory (negative apoapsis)
//! the only apsis that exists is the periapsis, so the burn is planned there;
//! that case is handled, not an error.

use vstd::prelude::*;

use crate::math::{isqrt, lemma_sqrt_floor_lt, sqrt_floor};
use crate::orbit::{NodeRequest, OrbitDescriptor, EPOCH_BOUND, MU_BOUND, RADIUS_BOUND};

verus! {

/// `mu * (2/r - 1/a)` as a single integer division, the square of the
/// vis-viva speed. Written over positive numerator and denominator in both
/// the elliptic (`a > 0`) and hyperbolic (`a < 0`) cases.
pub open spec fn vis_viva_sq(mu: int, r: int, a: int) -> int {
    if a >= 0 {
        (mu * (2 * a - r)) / (r * a)
    } else {
        (mu * (2 * (-a) + r)) / (r * (-a))
    }
}

/// The inputs on which the vis-viva speed is defined and free of overflow:
/// a physical radius on a physical orbit, below escape when the orbit is
/// closed.
pub open spec fn vis_viva_ok(mu: int, r: int, a: int) -> bool {
    &&& 1 <= r <= RADIUS_BOUND
    &&& 1 <= mu <= MU_BOUND
    &&& a != 0
    &&& -RADIUS_BOUND <= a <= RADIUS_BOUND
    &&& (a > 0 ==> r < 2 * a)
}

/// Orbital speed at radius `r` from the vis-viva equation, floor metres per
/// second.
pub fn vis_viva_speed(mu: u64, r: u64, a: i64) -> (v: u64)
    requires
        vis_viva_ok(mu as int, r as int, a as int),
    ensures
        v == sqrt_floor(vis_viva_sq(mu as int, r as int, a as int) as nat),
        v < 2_000_000_000_000_000,
{
    let mu128 = mu as u128;
    let r128 = r as u128;
    let q: u128 = if a >= 0 {
        let a128 = a as u128;
        proof {
            assert(mu128 * (2 * a128 - r128) <= 3_000_000_000_000_000_000_000_000_000_000u128)
                by (nonlinear_arith)
                requires
                    mu128 <= 1_000_000_000_000_000_000u128,
                    2 * a128 - r128 <= 2_000_000_000_000u128,
            ;
            assert(1 <= r128 * a128 <= 1_000_000_000_000_000_000_000_000u128)
                by (nonlinear_arith)
                requires
                    1 <= r128 <= 1_000_000_000_000u128,
                    1 <= a128 <= 1_000_000_000_000u128,
            ;
            vstd::arithmetic::div_mod::lemma_div_is_ordered_by_denominator(
                mu128 * (2 * a128 - r128) as int,
                1,
                r128 * a128 as int,
            );
        }
        (mu128 * (2 * a128 - r128)) / (r128 * a128)
    } else {
        let am = (-a) as u128;
        proof {
            assert(mu128 * (2 * am + r128) <= 3_000_000_000_000_000_000_000_000_000_000u128)
                by (nonlinear_arith)
                requires
                    mu128 <= 1_000_000_000_000_000_000u128,
                    2 * am + r128 <= 3_000_000_000_000u128,
            ;
            assert(1 <= r128 * am <= 1_000_000_000_000_000_000_000_000u128)
                by (nonlinear_arith)
                requires
                    1 <= r128 <= 1_000_000_000_000u128,
                    1 <= am <= 1_000_000_000_000u128,
            ;
            vstd::arithmetic::div_mod::lemma_div_is_ordered_by_denominator(
                mu128 * (2 * am + r128) as int,
                1,
                r128 * am as int,
            );
        }
        (mu128 * (2 * am + r128)) / (r128 * am)
    };
    proof {
        assert(3_000_000_000_000_000_000_000_000_000_000nat
            < 2_000_000_000_000_000nat * 2_000_000_000_000_000nat) by (nonlinear_arith);
        lemma_sqrt_floor_lt(q as nat, 2_000_000_000_000_000nat);
    }
    isqrt(q)
}

/// The circularization delta-v at radius `r`: circular speed there less the
/// vis-viva speed of the current orbit. Negative means a retrograde burn.
pub open spec fn circ_delta_v_spec(mu: int, r: int, a: int) -> int {
    sqrt_floor((mu / r) as nat) - sqrt_floor(vis_viva_sq(mu, r, a) as nat)
}

pub fn circ_delta_v(mu: u64, r: u64, a: i64) -> (dv: i64)
    requires
        vis_viva_ok(mu as int, r as int, a as int),
    ensures
        dv == circ_delta_v_spec(mu as int, r as int, a as int),
{
    let v1 = vis_viva_speed(mu, r, a);
    let circular = (mu as u128) / (r as u128);
    proof {
        assert((circular as nat) < 2_000_000_000_000nat * 2_000_000_000_000nat)
            by (nonlinear_arith)
            requires
                circular <= 1_000_000_000_000_000_000u128,
        ;
        lemma_sqrt_floor_lt(circular as nat, 2_000_000_000_000nat);
    }
    let v2 = isqrt(circular);
    v2 as i64 - v1 as i64
}

/// Circularizing a circular orbit asks for no burn: at `r == a` the vis-viva
/// speed is already the circular speed, so the planned delta-v is zero.
pub proof fn lemma_circular_orbit_needs_no_burn(mu: int, r: int)
    requires
        1 <= r,
        0 <= mu,
    ensures
        circ_delta_v_spec(mu, r, r) == 0,
{
    assert(mu * (2 * r - r) == mu * r) by (nonlinear_arith);
    vstd::arithmetic::div_mod::lemma_div_denominator(mu * r, r, r);
    vstd::arithmetic::div_mod::lemma_div_by_multiple(mu, r);
    assert(mu * r == r * mu) by (nonlinear_arith);
    assert((mu * r) / (r * r) == mu / r);
}

/// The radius the circularization burn happens at: the apoapsis, or the
/// periapsis when the trajectory escapes (negative apoapsis).
pub open spec fn circ_apsis(o: OrbitDescriptor) -> int {
    if o.apoapsis < 0 {
        o.periapsis as int
    } else {
        o.apoapsis as int
    }
}

/// Time from the snapshot to the chosen apsis passage.
pub open spec fn circ_eta(o: OrbitDescriptor) -> int {
    if o.apoapsis < 0 {
        o.time_to_periapsis as int
    } else {
        o.time_to_apoapsis as int
    }
}

/// Plan the circularization burn: a node at the next passage of the chosen
/// apsis, with the vis-viva delta-v along prograde. `ut` is the current
/// simulation time.
pub fn circ_plan(orbit: &OrbitDescriptor, ut: u64) -> (node: NodeRequest)
    requires
        orbit.wf(),
        ut <= EPOCH_BOUND,
    ensures
        node.ut == ut + circ_eta(*orbit),
        node.prograde == circ_delta_v_spec(
            orbit.mu as int,
            circ_apsis(*orbit),
            orbit.semi_major_axis as int,
        ),
{
    let (r, eta): (u64, u64) = if orbit.apoapsis < 0 {
        (orbit.periapsis as u64, orbit.time_to_periapsis)
    } else {
        (orbit.apoapsis as u64, orbit.time_to_apoapsis)
    };
    let dv = circ_delta_v(orbit.mu, r, orbit.semi_major_axis);
    NodeRequest { ut: ut + eta, prograde: dv }
}

} // verus!
