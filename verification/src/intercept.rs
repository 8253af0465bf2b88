//! The rendezvous phasing solver: when to leave a co-planar parking orbit so
//! that a Hohmann transfer arrives where the target will be.
//!
//! Run after circularization and plane correction, with vessel and target
//! sharing a primary body. The transfer takes half the transfer orbit's
//! period; the burn must happen when the target leads the vessel by the
//! angle it will sweep in that time, and because phase angles wrap every
//! synodic period the sought epoch is the smallest non-negative solution of
//! the phase-matching equation, searched over whole vessel orbits.

use vstd::prelude::*;

use crate::circ::{vis_viva_speed, vis_viva_sq};
use crate::math::{div_trunc, div_trunc_i128, isqrt, lemma_sqrt_floor_lt, sqrt_floor};
use crate::orbit::{
    NodeRequest, OrbitDescriptor, EPOCH_BOUND, HALF_TURN_URAD, MU_BOUND, PERIOD_BOUND,
    RADIUS_BOUND, TURN_URAD,
};

verus! {

/// Pi as a fixed-point ratio, used for the half-period transfer time.
pub const PI_NUM: u64 = 3_141_592_653;

/// Denominator of [`PI_NUM`].
pub const PI_DEN: u64 = 1_000_000_000;

/// Half the period of the transfer ellipse of semi-major axis `semi`:
/// `pi * sqrt(semi^3 / mu)`, floor seconds.
pub open spec fn transfer_time_spec(semi: int, mu: int) -> int {
    (PI_NUM as int) * (sqrt_floor(((semi * semi * semi) / mu) as nat) as int) / (PI_DEN as int)
}

/// Inputs on which the transfer time is defined and fits the fixed-point
/// range.
pub open spec fn transfer_time_ok(semi: int, mu: int) -> bool {
    &&& 1 <= semi <= RADIUS_BOUND
    &&& 1 <= mu <= MU_BOUND
    &&& (semi * semi * semi) / mu <= 1_000_000_000_000_000_000_000_000
}

pub fn transfer_time(semi: u64, mu: u64) -> (t: u64)
    requires
        transfer_time_ok(semi as int, mu as int),
    ensures
        t == transfer_time_spec(semi as int, mu as int),
        t <= 4_000_000_000_000,
{
    let s128 = semi as u128;
    proof {
        assert(s128 * s128 <= 1_000_000_000_000_000_000_000_000u128
            && s128 * s128 * s128 <= 1_000_000_000_000_000_000_000_000_000_000_000_000u128)
            by (nonlinear_arith)
            requires
                s128 <= 1_000_000_000_000u128,
        ;
    }
    let cubed = s128 * s128 * s128;
    let q = cubed / (mu as u128);
    let s = isqrt(q);
    proof {
        assert(1_000_000_000_000_000_000_000_000nat
            < 1_000_000_000_001nat * 1_000_000_000_001nat) by (nonlinear_arith);
        lemma_sqrt_floor_lt(q as nat, 1_000_000_000_001nat);
        assert((PI_NUM as int) * (s as int) <= 3_141_592_653_000_000_000_000_000int)
            by (nonlinear_arith)
            requires
                (s as int) <= 1_000_000_000_000int,
                PI_NUM == 3_141_592_653u64,
        ;
        vstd::arithmetic::div_mod::lemma_multiply_divide_le(
            (PI_NUM as int) * (s as int),
            PI_DEN as int,
            4_000_000_000_000int,
        );
    }
    ((PI_NUM as u128) * (s as u128) / (PI_DEN as u128)) as u64
}

/// The phase-matching offset: time from now to the first (possibly past,
/// hence possibly negative) epoch at which the target's phase lead equals
/// the angle it sweeps during the transfer. `a1`, `a2` are the orbital
/// longitudes (ascending node plus argument of periapsis) of vessel and
/// target, `p1`, `p2` their periods, `t` the transfer time.
pub open spec fn phase_offset_spec(a1: int, a2: int, p1: int, p2: int, t: int) -> int {
    let c = HALF_TURN_URAD - (TURN_URAD * t) / p2;
    div_trunc(
        (c + a1 - a2) * p1 * p2 - (TURN_URAD * p1) * p1,
        TURN_URAD * (p1 - p2),
    )
}

/// Inputs on which the phase offset is defined and fits the fixed-point
/// range: two distinct periods and reduced orbital longitudes.
pub open spec fn phase_offset_ok(a1: int, a2: int, p1: int, p2: int, t: int) -> bool {
    &&& 0 <= a1 < 2 * TURN_URAD
    &&& 0 <= a2 < 2 * TURN_URAD
    &&& 1 <= p1 <= PERIOD_BOUND
    &&& 1 <= p2 <= PERIOD_BOUND
    &&& p1 != p2
    &&& 0 <= t <= 4_000_000_000_000
}

pub fn phase_offset(a1: u64, a2: u64, p1: u64, p2: u64, t: u64) -> (k: i128)
    requires
        phase_offset_ok(a1 as int, a2 as int, p1 as int, p2 as int, t as int),
    ensures
        k == phase_offset_spec(a1 as int, a2 as int, p1 as int, p2 as int, t as int),
        -400_000_000_000_000_000_000_000_000_000_000_000i128 <= k
            <= 400_000_000_000_000_000_000_000_000_000_000_000i128,
{
    proof {
        assert((TURN_URAD as u128) * (t as u128) <= 26_000_000_000_000_000_000u128)
            by (nonlinear_arith)
            requires
                (t as u128) <= 4_000_000_000_000u128,
                TURN_URAD == 6_283_185u64,
        ;
        vstd::arithmetic::div_mod::lemma_div_nonincreasing(
            ((TURN_URAD as u128) * (t as u128)) as int,
            p2 as int,
        );
    }
    let swept = (TURN_URAD as u128) * (t as u128) / (p2 as u128);
    let c = (HALF_TURN_URAD as i128) - (swept as i128);
    let lead = c + (a1 as i128) - (a2 as i128);
    proof {
        assert(lead * (p1 as i128) <= 3_000_000_000_000_000_000_000_000_000i128
            && lead * (p1 as i128) >= -3_000_000_000_000_000_000_000_000_000i128)
            by (nonlinear_arith)
            requires
                -30_000_000_000_000_000_000i128 <= lead <= 30_000_000_000_000_000_000i128,
                1 <= (p1 as i128) <= 100_000_000i128,
        ;
        assert(lead * (p1 as i128) * (p2 as i128)
            <= 300_000_000_000_000_000_000_000_000_000_000_000i128
            && lead * (p1 as i128) * (p2 as i128)
                >= -300_000_000_000_000_000_000_000_000_000_000_000i128) by (nonlinear_arith)
            requires
                -3_000_000_000_000_000_000_000_000_000i128 <= lead * (p1 as i128)
                    <= 3_000_000_000_000_000_000_000_000_000i128,
                1 <= (p2 as i128) <= 100_000_000i128,
        ;
        assert(0 <= (TURN_URAD as i128) * (p1 as i128) <= 1_000_000_000_000_000i128
            && (TURN_URAD as i128) * (p1 as i128) * (p1 as i128)
                <= 100_000_000_000_000_000_000_000_000i128
            && (TURN_URAD as i128) * (p1 as i128) * (p1 as i128) >= 0) by (nonlinear_arith)
            requires
                1 <= (p1 as i128) <= 100_000_000i128,
                TURN_URAD == 6_283_185u64,
        ;
        assert((TURN_URAD as i128) * ((p1 as i128) - (p2 as i128)) != 0
            && (TURN_URAD as i128) * ((p1 as i128) - (p2 as i128))
                > -1_000_000_000_000_000_000i128
            && (TURN_URAD as i128) * ((p1 as i128) - (p2 as i128)) < 1_000_000_000_000_000_000i128)
            by (nonlinear_arith)
            requires
                (p1 as i128) != (p2 as i128),
                1 <= (p1 as i128) <= 100_000_000i128,
                1 <= (p2 as i128) <= 100_000_000i128,
                TURN_URAD == 6_283_185u64,
        ;
    }
    let num = lead * (p1 as i128) * (p2 as i128)
        - ((TURN_URAD as i128) * (p1 as i128)) * (p1 as i128);
    let den = (TURN_URAD as i128) * ((p1 as i128) - (p2 as i128));
    div_trunc_i128(num, den)
}

/// The smallest non-negative member of the progression `k, k + p, k + 2p,
/// ...`: `k` itself when it is not negative, else `k`'s least non-negative
/// residue modulo `p`.
pub open spec fn next_window_spec(k: int, p: int) -> int {
    if k >= 0 {
        k
    } else {
        k % p
    }
}

/// Advance the phase offset by whole vessel orbits until it is not
/// negative: the epoch of the next transfer window.
pub fn next_window(k: i128, p: u64) -> (eta: u128)
    requires
        1 <= p,
        k > i128::MIN,
    ensures
        eta == next_window_spec(k as int, p as int),
        k >= 0 ==> eta == k,
        k < 0 ==> eta < p,
{
    if k >= 0 {
        k as u128
    } else {
        let m = ((-k) as u128) % (p as u128);
        proof {
            let ki: int = k as int;
            let pi: int = p as int;
            let q0: int = (-ki) / pi;
            vstd::arithmetic::div_mod::lemma_fundamental_div_mod(-ki, pi);
            assert(-ki == pi * q0 + (m as int));
            if m == 0 {
                assert(ki == (-q0) * pi) by (nonlinear_arith)
                    requires
                        -ki == pi * q0 + (m as int),
                        m == 0u128,
                ;
                vstd::arithmetic::div_mod::lemma_mod_multiples_basic(-q0, pi);
            } else {
                assert(ki == (-q0 - 1) * pi + (pi - (m as int))) by (nonlinear_arith)
                    requires
                        -ki == pi * q0 + (m as int),
                ;
                vstd::arithmetic::div_mod::lemma_fundamental_div_mod_converse_mod(
                    ki,
                    pi,
                    -q0 - 1,
                    pi - (m as int),
                );
            }
        }
        if m == 0 {
            0
        } else {
            (p as u128) - m
        }
    }
}

/// The solver returns the smallest workable window: every non-negative
/// candidate `k + j * p` of the search is at or after the returned epoch,
/// and the returned epoch is itself such a candidate.
pub proof fn lemma_next_window_smallest(k: int, p: int, j: int)
    requires
        1 <= p,
        0 <= j,
        0 <= k + j * p,
    ensures
        0 <= next_window_spec(k, p),
        next_window_spec(k, p) <= k + j * p,
        (next_window_spec(k, p) - k) % p == 0,
        k <= next_window_spec(k, p),
{
    let w = next_window_spec(k, p);
    if k >= 0 {
        vstd::arithmetic::mul::lemma_mul_nonnegative(j, p);
        assert((w - k) % p == 0) by {
            assert(w - k == 0);
            vstd::arithmetic::div_mod::lemma_mod_multiples_basic(0, p);
        }
    } else {
        let x = k + j * p;
        vstd::arithmetic::div_mod::lemma_fundamental_div_mod(k, p);
        vstd::arithmetic::div_mod::lemma_mod_bound(k, p);
        // w == k % p, so w - k is the multiple -(k / p) * p of p.
        assert(w - k == -(k / p) * p) by (nonlinear_arith)
            requires
                k == (k / p) * p + (k % p),
                w == k % p,
        ;
        vstd::arithmetic::div_mod::lemma_mod_multiples_basic(-(k / p), p);
        // Any non-negative candidate shares k's residue and so sits at or
        // above it.
        assert(x % p == k % p) by {
            vstd::arithmetic::div_mod::lemma_mod_multiples_vanish(j, k, p);
            assert(p * j + k == k + j * p) by (nonlinear_arith);
        }
        vstd::arithmetic::div_mod::lemma_fundamental_div_mod(x, p);
        vstd::arithmetic::div_mod::lemma_div_pos_is_pos(x, p);
        vstd::arithmetic::mul::lemma_mul_nonnegative(x / p, p);
        assert(x >= x % p) by (nonlinear_arith)
            requires
                x == (x / p) * p + (x % p),
                (x / p) * p >= 0,
        ;
    }
}

/// The full phase solve for a vessel and a co-planar target around the same
/// primary: seconds from the snapshot to the next transfer window.
pub open spec fn intercept_eta_spec(vessel: OrbitDescriptor, target: OrbitDescriptor) -> int {
    let semi = (vessel.semi_major_axis + target.semi_major_axis) / 2;
    let t = transfer_time_spec(semi, vessel.mu as int);
    next_window_spec(
        phase_offset_spec(
            vessel.lan + vessel.aop,
            target.lan + target.aop,
            vessel.period as int,
            target.period as int,
            t,
        ),
        vessel.period as int,
    )
}

/// Inputs on which the phase solve is defined: well-formed co-planar orbits
/// of distinct periods around one primary, with a transfer ellipse in the
/// fixed-point range.
pub open spec fn intercept_ok(vessel: OrbitDescriptor, target: OrbitDescriptor) -> bool {
    &&& vessel.wf()
    &&& target.wf()
    &&& vessel.mu == target.mu
    &&& vessel.period != target.period
    &&& 1 <= vessel.semi_major_axis
    &&& 1 <= target.semi_major_axis
    &&& transfer_time_ok(
        (vessel.semi_major_axis + target.semi_major_axis) / 2,
        vessel.mu as int,
    )
}

/// Timestamp offset of the next transfer window: the smallest non-negative
/// solution of the phase-matching equation, searched over whole vessel
/// orbits.
pub fn intercept_eta(vessel: &OrbitDescriptor, target: &OrbitDescriptor) -> (eta: u128)
    requires
        intercept_ok(*vessel, *target),
    ensures
        eta == intercept_eta_spec(*vessel, *target),
{
    let semi = ((vessel.semi_major_axis as u64) + (target.semi_major_axis as u64)) / 2;
    let t = transfer_time(semi, vessel.mu);
    let k = phase_offset(
        vessel.lan + vessel.aop,
        target.lan + target.aop,
        vessel.period,
        target.period,
        t,
    );
    next_window(k, vessel.period)
}

/// Delta-v of the transfer injection burn, from a circular orbit at radius
/// `peri` onto the transfer ellipse toward radius `apsis`: the vis-viva
/// speed on the transfer ellipse at `peri` less the circular speed there.
/// A target below the current orbit gives a negative (retrograde) value; a
/// target at the same radius gives zero, the transfer ellipse being the
/// current circle.
pub open spec fn transfer_delta_v_spec(mu: int, peri: int, apsis: int) -> int {
    sqrt_floor(vis_viva_sq(mu, peri, (apsis + peri) / 2) as nat)
        - sqrt_floor(vis_viva_sq(mu, peri, peri) as nat)
}

pub fn transfer_delta_v(mu: u64, peri: u64, apsis: u64) -> (dv: i64)
    requires
        1 <= mu <= MU_BOUND,
        1 <= peri <= RADIUS_BOUND as u64,
        2 <= apsis <= RADIUS_BOUND as u64,
    ensures
        dv == transfer_delta_v_spec(mu as int, peri as int, apsis as int),
{
    let semi = (apsis + peri) / 2;
    proof {
        vstd::arithmetic::div_mod::lemma_fundamental_div_mod((apsis + peri) as int, 2);
        assert(2 * (semi as int) >= apsis + peri - 1);
    }
    let v2 = vis_viva_speed(mu, peri, semi as i64);
    let v1 = vis_viva_speed(mu, peri, peri as i64);
    (v2 as i64) - (v1 as i64)
}

/// Injecting toward a target at the current radius asks for no burn: the
/// semi-major axis of the transfer ellipse between equal radii is that
/// radius, so both vis-viva speeds coincide.
pub proof fn lemma_equal_radii_no_injection(mu: int, r: int)
    requires
        1 <= r,
    ensures
        transfer_delta_v_spec(mu, r, r) == 0,
{
    assert((r + r) / 2 == r) by {
        vstd::arithmetic::div_mod::lemma_div_multiples_vanish(r, 2);
        assert(r + r == 2 * r);
    }
}

/// Plan the injection burn for the next transfer window. `ut` is the
/// current simulation time; the node sits at the window with the transfer
/// delta-v along prograde.
pub fn intercept_plan(vessel: &OrbitDescriptor, target: &OrbitDescriptor, ut: u64) -> (node:
    NodeRequest)
    requires
        intercept_ok(*vessel, *target),
        2 <= target.semi_major_axis,
        ut <= EPOCH_BOUND,
        intercept_eta_spec(*vessel, *target) <= EPOCH_BOUND,
    ensures
        node.ut == ut + intercept_eta_spec(*vessel, *target),
        node.prograde == transfer_delta_v_spec(
            vessel.mu as int,
            vessel.semi_major_axis as int,
            target.semi_major_axis as int,
        ),
{
    let eta = intercept_eta(vessel, target);
    let dv = transfer_delta_v(
        vessel.mu,
        vessel.semi_major_axis as u64,
        target.semi_major_axis as u64,
    );
    NodeRequest { ut: ut + (eta as u64), prograde: dv }
}

} // verus!
