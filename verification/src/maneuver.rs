//! The burn executor model: burn duration from the rocket equation, the
//! burn window centred on the node epoch, and the throttle policy that runs
//! the burn off telemetry samples.
//!
//! The rocket equation needs an exponential; it is computed as a fixed-point
//! truncated power series over the scale [`SCALE`], and every burn quantity
//! is pinned to that series, so monotonicity in delta-v is a theorem rather
//! than a hope. Masses are kilograms, thrust newtons, speeds metres per
//! second, times seconds.

use vstd::prelude::*;

use vstd::arithmetic::div_mod::{
    lemma_div_by_multiple, lemma_div_is_ordered, lemma_div_is_ordered_by_denominator,
    lemma_div_of0,
};
use vstd::arithmetic::mul::{lemma_mul_inequality, lemma_mul_upper_bound};

use crate::orbit::EPOCH_BOUND;

verus! {

/// Fixed-point scale of the exponential's argument and value.
pub const SCALE: u64 = 1_000_000;

/// Terms of the truncated exponential series.
pub const EXP_TERMS: u64 = 24;

/// Largest value any series term can take when the argument is at most
/// `8 * SCALE`: the terms grow by at most a factor eight up to the eighth
/// and shrink from there.
pub const TERM_CAP: u64 = 17_000_000_000_000;

/// Standard gravity as used by the vehicle's engines, centi-metres per
/// second squared.
pub const GRAVITY_CENTI: u64 = 982;

/// Term `k` of the series for `exp(x / SCALE) * SCALE`: term zero is
/// `SCALE`, and each next term multiplies by the argument and divides by
/// `SCALE * k`.
pub open spec fn exp_term(x: nat, k: nat) -> nat
    decreases k,
{
    if k == 0 {
        SCALE as nat
    } else {
        exp_term(x, (k - 1) as nat) * x / ((SCALE as nat) * k)
    }
}

/// The series summed through term `k`.
pub open spec fn exp_partial(x: nat, k: nat) -> nat
    decreases k,
{
    if k == 0 {
        exp_term(x, 0)
    } else {
        exp_partial(x, (k - 1) as nat) + exp_term(x, k)
    }
}

/// `exp(x / SCALE) * SCALE`, truncated to [`EXP_TERMS`] terms.
pub open spec fn exp_fixed_spec(x: nat) -> nat {
    exp_partial(x, EXP_TERMS as nat)
}

/// Powers of eight, for the term growth bound.
pub open spec fn pow8(k: nat) -> nat
    decreases k,
{
    if k == 0 {
        1
    } else {
        8 * pow8((k - 1) as nat)
    }
}

/// Shrinking the dividend and growing the divisor can only shrink a
/// quotient.
proof fn lemma_div_le(a: int, b: int, d1: int, d2: int)
    requires
        0 <= a <= b,
        1 <= d2 <= d1,
    ensures
        a / d1 <= b / d2,
{
    lemma_div_is_ordered_by_denominator(a, d2, d1);
    lemma_div_is_ordered(a, b, d2);
}

/// The terms grow by at most a factor eight while `k <= 8` and shrink from
/// there on, when the argument is at most `8 * SCALE`.
proof fn lemma_exp_term_growth(x: nat, k: nat)
    requires
        x <= 8 * SCALE,
    ensures
        exp_term(x, k) <= (SCALE as nat) * pow8(if k < 8 { k } else { 8 }),
    decreases k,
{
    let s = SCALE as nat;
    if k == 0 {
        assert(pow8(0) == 1);
        assert(s * pow8(0) == s) by (nonlinear_arith)
            requires
                pow8(0) == 1,
        ;
    } else {
        lemma_exp_term_growth(x, (k - 1) as nat);
        let prev = exp_term(x, (k - 1) as nat);
        let cur = exp_term(x, k);
        assert(cur == prev * x / (s * k));
        lemma_mul_upper_bound(prev as int, prev as int, x as int, 8 * s as int);
        if k < 8 {
            // cur <= prev * 8s / s == 8 * prev
            assert(prev * (8 * s) == (prev * 8) * s) by (nonlinear_arith);
            assert(s <= s * k) by (nonlinear_arith)
                requires
                    1 <= k,
                    s >= 1,
            ;
            lemma_div_le(prev * x as int, (prev * 8) * s as int, s * k as int, s as int);
            lemma_div_by_multiple(prev * 8 as int, s as int);
            assert(cur <= prev * 8);
            // 8 * (s * pow8(k - 1)) == s * pow8(k)
            assert(prev * 8 <= (s * pow8((k - 1) as nat)) * 8) by (nonlinear_arith)
                requires
                    prev <= s * pow8((k - 1) as nat),
            ;
            assert((s * pow8((k - 1) as nat)) * 8 == s * (8 * pow8((k - 1) as nat)))
                by (nonlinear_arith);
            assert(pow8(k) == 8 * pow8((k - 1) as nat));
        } else {
            // divisor s * k >= 8s >= x, so cur <= prev
            assert(prev * (8 * s) == prev * 8 * s) by (nonlinear_arith);
            assert(8 * s <= s * k) by (nonlinear_arith)
                requires
                    8 <= k,
                    s >= 1,
            ;
            lemma_div_le(prev * x as int, prev * (8 * s) as int, s * k as int, 8 * s as int);
            lemma_div_by_multiple(prev as int, 8 * s as int);
            assert(prev * (8 * s) / (8 * s) == prev);
            assert(cur <= prev);
            if k == 8 {
                // prev is bounded through pow8(7); one more factor of eight
                // covers pow8(8).
                assert(pow8(8) == 8 * pow8(7));
                assert(s * pow8(7) <= s * (8 * pow8(7))) by (nonlinear_arith)
                    requires
                        s >= 1,
                ;
            }
        }
    }
}

/// Numeric cap on every term of the series.
proof fn lemma_exp_term_cap(x: nat, k: nat)
    requires
        x <= 8 * SCALE,
    ensures
        exp_term(x, k) <= TERM_CAP as nat,
{
    lemma_exp_term_growth(x, k);
    assert(pow8(0) == 1);
    assert(pow8(1) == 8);
    assert(pow8(2) == 64);
    assert(pow8(3) == 512);
    assert(pow8(4) == 4096);
    assert(pow8(5) == 32768);
    assert(pow8(6) == 262144);
    assert(pow8(7) == 2097152);
    assert(pow8(8) == 16777216);
    let cap: nat = if k < 8 {
        k
    } else {
        8
    };
    if cap < 8 {
        lemma_pow8_le(cap);
    }
    assert(pow8(cap) <= 16777216);
    assert((SCALE as nat) * pow8(cap) <= 17_000_000_000_000nat) by (nonlinear_arith)
        requires
            pow8(cap) <= 16777216nat,
            SCALE == 1_000_000u64,
    ;
}

proof fn lemma_pow8_le(k: nat)
    requires
        k <= 7,
    ensures
        pow8(k) <= pow8(7),
    decreases 7 - k,
{
    if k < 7 {
        lemma_pow8_le(k + 1);
        assert(pow8(k + 1) == 8 * pow8(k));
        assert(pow8(k) <= 8 * pow8(k)) by (nonlinear_arith);
    }
}

/// Numeric cap on the partial sums.
proof fn lemma_exp_partial_cap(x: nat, k: nat)
    requires
        x <= 8 * SCALE,
    ensures
        exp_partial(x, k) <= (k + 1) * (TERM_CAP as nat),
    decreases k,
{
    lemma_exp_term_cap(x, k);
    if k > 0 {
        lemma_exp_partial_cap(x, (k - 1) as nat);
    }
}

/// The series never falls below its constant term.
pub proof fn lemma_exp_partial_lower(x: nat, k: nat)
    ensures
        exp_partial(x, k) >= SCALE,
    decreases k,
{
    if k > 0 {
        lemma_exp_partial_lower(x, (k - 1) as nat);
    }
}

/// Each term is monotone in the argument.
proof fn lemma_exp_term_mono(x: nat, y: nat, k: nat)
    requires
        x <= y,
    ensures
        exp_term(x, k) <= exp_term(y, k),
    decreases k,
{
    if k > 0 {
        lemma_exp_term_mono(x, y, (k - 1) as nat);
        let s = SCALE as nat;
        lemma_mul_upper_bound(
            exp_term(x, (k - 1) as nat) as int,
            exp_term(y, (k - 1) as nat) as int,
            x as int,
            y as int,
        );
        lemma_div_is_ordered(
            exp_term(x, (k - 1) as nat) * x as int,
            exp_term(y, (k - 1) as nat) * y as int,
            s * k as int,
        );
        assert(s * k >= 1) by (nonlinear_arith)
            requires
                s >= 1,
                k >= 1,
        ;
    }
}

/// The truncated exponential is monotone in the argument.
pub proof fn lemma_exp_partial_mono(x: nat, y: nat, k: nat)
    requires
        x <= y,
    ensures
        exp_partial(x, k) <= exp_partial(y, k),
    decreases k,
{
    lemma_exp_term_mono(x, y, k);
    if k > 0 {
        lemma_exp_partial_mono(x, y, (k - 1) as nat);
    }
}

/// At argument zero the series is exactly `SCALE`: every later term is
/// zero.
pub proof fn lemma_exp_zero(k: nat)
    ensures
        k >= 1 ==> exp_term(0, k) == 0,
        exp_partial(0, k) == SCALE,
    decreases k,
{
    if k >= 1 {
        lemma_exp_zero((k - 1) as nat);
        let s = SCALE as nat;
        assert(exp_term(0, (k - 1) as nat) * 0 == 0);
        lemma_div_of0(s * k as int);
        assert(s * k != 0) by (nonlinear_arith)
            requires
                s >= 1,
                k >= 1,
        ;
    }
}

/// The truncated exponential, fixed point over [`SCALE`].
pub fn exp_fixed(x: u64) -> (r: u64)
    requires
        x <= 8 * SCALE,
    ensures
        r == exp_fixed_spec(x as nat),
        SCALE <= r <= 425_000_000_000_000,
{
    let mut term: u64 = SCALE;
    let mut acc: u64 = SCALE;
    let mut k: u64 = 0;
    while k < EXP_TERMS
        invariant
            k <= EXP_TERMS,
            x <= 8 * SCALE,
            term == exp_term(x as nat, k as nat),
            acc == exp_partial(x as nat, k as nat),
        decreases EXP_TERMS - k,
    {
        proof {
            lemma_exp_term_cap(x as nat, k as nat);
            lemma_exp_term_cap(x as nat, (k + 1) as nat);
            lemma_exp_partial_cap(x as nat, (k + 1) as nat);
            assert((term as int) * (x as int) <= 136_000_000_000_000_000_000int)
                by (nonlinear_arith)
                requires
                    (term as int) <= 17_000_000_000_000int,
                    (x as int) <= 8_000_000int,
            ;
            assert((SCALE as int) * ((k + 1) as int) >= 1) by (nonlinear_arith)
                requires
                    SCALE == 1_000_000u64,
                    (k as int) >= 0,
            ;
        }
        let num = (term as u128) * (x as u128);
        let den = (SCALE as u128) * ((k + 1) as u128);
        term = (num / den) as u64;
        acc = acc + term;
        k = k + 1;
    }
    proof {
        lemma_exp_partial_lower(x as nat, EXP_TERMS as nat);
        lemma_exp_partial_cap(x as nat, EXP_TERMS as nat);
    }
    acc
}

/// Effective exhaust velocity: specific impulse times standard gravity,
/// floor metres per second.
pub open spec fn exhaust_velocity(isp: int) -> int {
    isp * (GRAVITY_CENTI as int) / 100
}

/// The argument handed to the exponential: delta-v over exhaust velocity,
/// at fixed point.
pub open spec fn dv_ratio(dv: int, ve: int) -> int {
    dv * SCALE / ve
}

/// Mass left after spending `dv` of delta-v from mass `m0` at exhaust
/// velocity `ve`, by the rocket equation.
pub open spec fn mass_after(m0: int, dv: int, ve: int) -> int {
    m0 * SCALE / (exp_fixed_spec(dv_ratio(dv, ve) as nat) as int)
}

/// Burn duration of a single impulse of `dv`: propellant spent over the
/// mass flow rate `thrust / ve`, folded into one division.
pub open spec fn burn_duration_spec(dv: int, m0: int, thrust: int, isp: int) -> int {
    let ve = exhaust_velocity(isp);
    (m0 - mass_after(m0, dv, ve)) * ve / thrust
}

/// Duration of the second half of a node-centred burn: the same impulse
/// again, starting from the mass the first half leaves.
pub open spec fn burn_after_spec(dv: int, m0: int, thrust: int, isp: int) -> int {
    let ve = exhaust_velocity(isp);
    let m1 = mass_after(m0, dv, ve);
    (m1 - mass_after(m1, dv, ve)) * ve / thrust
}

/// Inputs on which the burn model is defined: a real vehicle, and a delta-v
/// the truncated series covers.
pub open spec fn burn_ok(dv: int, m0: int, thrust: int, isp: int) -> bool {
    &&& 1 <= isp <= 100_000
    &&& 1 <= thrust
    &&& 1 <= m0 <= 1_000_000_000_000
    &&& 0 <= dv <= 8 * exhaust_velocity(isp)
}

/// The fixed-point ratio of a covered delta-v stays within the series'
/// domain, and the after-burn mass never exceeds the mass before.
proof fn lemma_burn_ranges(dv: int, m0: int, ve: int)
    requires
        9 <= ve,
        0 <= dv <= 8 * ve,
        0 <= m0,
    ensures
        0 <= dv_ratio(dv, ve) <= 8 * SCALE,
        0 <= mass_after(m0, dv, ve) <= m0,
{
    lemma_mul_inequality(dv, 8 * ve, SCALE as int);
    assert((8 * ve) * (SCALE as int) == (8 * (SCALE as int)) * ve) by (nonlinear_arith);
    lemma_div_is_ordered(dv * (SCALE as int), (8 * (SCALE as int)) * ve, ve);
    lemma_div_by_multiple(8 * (SCALE as int), ve);
    vstd::arithmetic::div_mod::lemma_div_pos_is_pos(dv * (SCALE as int), ve);
    vstd::arithmetic::mul::lemma_mul_nonnegative(dv, SCALE as int);
    let e = exp_fixed_spec(dv_ratio(dv, ve) as nat) as int;
    lemma_exp_partial_lower(dv_ratio(dv, ve) as nat, EXP_TERMS as nat);
    vstd::arithmetic::mul::lemma_mul_nonnegative(m0, SCALE as int);
    lemma_div_le(m0 * SCALE, m0 * SCALE, e, SCALE as int);
    lemma_div_by_multiple(m0, SCALE as int);
    vstd::arithmetic::div_mod::lemma_div_pos_is_pos(m0 * SCALE, e);
}

/// Burn duration is zero at zero delta-v and never decreases as delta-v
/// grows, for fixed mass, thrust and specific impulse.
pub proof fn lemma_burn_duration_monotonic(
    dv1: int,
    dv2: int,
    m0: int,
    thrust: int,
    isp: int,
)
    requires
        burn_ok(dv2, m0, thrust, isp),
        0 <= dv1 <= dv2,
    ensures
        burn_duration_spec(dv1, m0, thrust, isp) <= burn_duration_spec(dv2, m0, thrust, isp),
        burn_duration_spec(0, m0, thrust, isp) == 0,
{
    let ve = exhaust_velocity(isp);
    assert(ve >= 9) by (nonlinear_arith)
        requires
            isp >= 1,
            ve == isp * 982 / 100,
    ;
    lemma_burn_ranges(dv1, m0, ve);
    lemma_burn_ranges(dv2, m0, ve);
    // ratios are ordered, so the exponentials are, so the masses are,
    // in reverse.
    lemma_mul_inequality(dv1, dv2, SCALE as int);
    lemma_div_is_ordered(dv1 * SCALE, dv2 * SCALE, ve);
    let x1 = dv_ratio(dv1, ve) as nat;
    let x2 = dv_ratio(dv2, ve) as nat;
    lemma_exp_partial_mono(x1, x2, EXP_TERMS as nat);
    let e1 = exp_fixed_spec(x1) as int;
    let e2 = exp_fixed_spec(x2) as int;
    lemma_exp_partial_lower(x1, EXP_TERMS as nat);
    vstd::arithmetic::mul::lemma_mul_nonnegative(m0, SCALE as int);
    lemma_div_le(m0 * SCALE, m0 * SCALE, e2, e1);
    // spent propellant is ordered, and the durations with it
    lemma_mul_inequality(
        m0 - mass_after(m0, dv1, ve),
        m0 - mass_after(m0, dv2, ve),
        ve,
    );
    lemma_div_is_ordered(
        (m0 - mass_after(m0, dv1, ve)) * ve,
        (m0 - mass_after(m0, dv2, ve)) * ve,
        thrust,
    );
    // at zero delta-v nothing is spent
    lemma_div_of0(ve);
    assert(0 * (SCALE as int) == 0);
    assert(dv_ratio(0, ve) == 0);
    lemma_exp_zero(EXP_TERMS as nat);
    lemma_div_by_multiple(m0, SCALE as int);
    assert(mass_after(m0, 0, ve) == m0);
    assert((m0 - mass_after(m0, 0, ve)) * ve == 0);
    lemma_div_of0(thrust);
}

/// Burn duration of a single impulse, floor seconds.
pub fn burn_duration(deltav: u64, m0: u64, thrust: u64, isp: u64) -> (t: u64)
    requires
        burn_ok(deltav as int, m0 as int, thrust as int, isp as int),
    ensures
        t == burn_duration_spec(deltav as int, m0 as int, thrust as int, isp as int),
{
    let ve = isp * GRAVITY_CENTI / 100;
    proof {
        assert(ve >= 9) by (nonlinear_arith)
            requires
                isp >= 1,
                (ve as int) == (isp as int) * 982 / 100,
        ;
        lemma_burn_ranges(deltav as int, m0 as int, ve as int);
        assert((deltav as int) * (SCALE as int) <= 79_000_000_000_000int) by (nonlinear_arith)
            requires
                (deltav as int) <= 8 * (ve as int),
                (ve as int) <= 982_000int,
                SCALE == 1_000_000u64,
        ;
        assert((m0 as int) * (SCALE as int) <= 1_000_000_000_000_000_000int)
            by (nonlinear_arith)
            requires
                (m0 as int) <= 1_000_000_000_000int,
                SCALE == 1_000_000u64,
        ;
    }
    let x = deltav * SCALE / ve;
    let e = exp_fixed(x);
    let m1 = m0 * SCALE / e;
    proof {
        assert((m0 - m1) as int * (ve as int) <= 982_000_000_000_000_000int)
            by (nonlinear_arith)
            requires
                0 <= ((m0 - m1) as int) <= 1_000_000_000_000int,
                (ve as int) <= 982_000int,
        ;
    }
    (m0 - m1) * ve / thrust
}

/// Both halves of a node-centred burn: the duration to spend half the
/// node's delta-v from the current mass, and the duration of the second
/// half from the mass the first leaves. The burn starts `r.0` before the
/// node epoch and ends `r.1` after it.
pub fn burn_time(deltav: u64, m0: u64, thrust: u64, isp: u64) -> (r: (u64, u64))
    requires
        burn_ok((deltav / 2) as int, m0 as int, thrust as int, isp as int),
    ensures
        r.0 == burn_duration_spec((deltav / 2) as int, m0 as int, thrust as int, isp as int),
        r.1 == burn_after_spec((deltav / 2) as int, m0 as int, thrust as int, isp as int),
{
    let half_dv = deltav / 2;
    let ve = isp * GRAVITY_CENTI / 100;
    proof {
        assert(ve >= 9) by (nonlinear_arith)
            requires
                isp >= 1,
                (ve as int) == (isp as int) * 982 / 100,
        ;
        lemma_burn_ranges(half_dv as int, m0 as int, ve as int);
        assert((half_dv as int) * (SCALE as int) <= 79_000_000_000_000int) by (nonlinear_arith)
            requires
                (half_dv as int) <= 8 * (ve as int),
                (ve as int) <= 982_000int,
                SCALE == 1_000_000u64,
        ;
        assert((m0 as int) * (SCALE as int) <= 1_000_000_000_000_000_000int)
            by (nonlinear_arith)
            requires
                (m0 as int) <= 1_000_000_000_000int,
                SCALE == 1_000_000u64,
        ;
    }
    let x = half_dv * SCALE / ve;
    let e = exp_fixed(x);
    let m1 = m0 * SCALE / e;
    proof {
        lemma_burn_ranges(half_dv as int, m1 as int, ve as int);
        assert((m1 as int) * (SCALE as int) <= 1_000_000_000_000_000_000int)
            by (nonlinear_arith)
            requires
                0 <= (m1 as int) <= 1_000_000_000_000int,
                SCALE == 1_000_000u64,
        ;
        assert(((m0 - m1) as int) * (ve as int) <= 982_000_000_000_000_000int)
            by (nonlinear_arith)
            requires
                0 <= ((m0 - m1) as int) <= 1_000_000_000_000int,
                (ve as int) <= 982_000int,
        ;
    }
    let m2 = m1 * SCALE / e;
    proof {
        assert(((m1 - m2) as int) * (ve as int) <= 982_000_000_000_000_000int)
            by (nonlinear_arith)
            requires
                0 <= ((m1 - m2) as int) <= 1_000_000_000_000int,
                (ve as int) <= 982_000int,
        ;
    }
    let before = (m0 - m1) * ve / thrust;
    let after = (m1 - m2) * ve / thrust;
    (before, after)
}

/// Where a node-centred burn starts and stops, around the node epoch.
pub fn burn_window(node_ut: u64, before: u64, after: u64) -> (r: (u64, u64))
    requires
        before <= node_ut,
        node_ut <= EPOCH_BOUND,
        after <= EPOCH_BOUND,
    ensures
        r.0 == node_ut - before,
        r.1 == node_ut + after,
{
    (node_ut - before, node_ut + after)
}

/// Where the burn's execution stands.
#[derive(Debug, Clone, Copy, PartialEq, Eq, Structural)]
pub enum BurnPhase {
    /// Oriented and waiting for the burn window to open.
    Waiting,
    /// Full throttle, watching the remaining-delta-v signal.
    Burning,
    /// Cut off; the node is spent.
    Done,
}

/// Runs one planned burn off the telemetry streams: ignition when the time
/// signal reaches the window, cutoff on the first remaining-delta-v sample
/// that fails to decrease. Remaining delta-v reaching exactly zero is not
/// waited for: numerical residue may keep it above zero forever.
pub struct BurnExecutor {
    pub burn_start: u64,
    pub phase: BurnPhase,
    pub prev_remaining: Option<u64>,
}

impl BurnExecutor {
    /// Whether a time sample opens the throttle.
    pub open spec fn ignites(self, ut: u64) -> bool {
        self.phase == BurnPhase::Waiting && ut >= self.burn_start
    }

    /// Whether a remaining-delta-v sample ends the burn: the first sample
    /// at or above the previous one.
    pub open spec fn cuts(self, remaining: u64) -> bool {
        &&& self.phase == BurnPhase::Burning
        &&& match self.prev_remaining {
            Some(p) => remaining >= p,
            None => false,
        }
    }

    pub fn new(burn_start: u64) -> (r: Self)
        ensures
            r.burn_start == burn_start,
            r.phase == BurnPhase::Waiting,
            r.prev_remaining.is_none(),
    {
        BurnExecutor { burn_start, phase: BurnPhase::Waiting, prev_remaining: None }
    }

    /// Feed one sample of the time stream; true asks for full throttle.
    pub fn time_tick(&mut self, ut: u64) -> (ignite: bool)
        ensures
            ignite == old(self).ignites(ut),
            final(self).phase == (if ignite {
                BurnPhase::Burning
            } else {
                old(self).phase
            }),
            final(self).burn_start == old(self).burn_start,
            final(self).prev_remaining == old(self).prev_remaining,
    {
        if self.phase == BurnPhase::Waiting && ut >= self.burn_start {
            self.phase = BurnPhase::Burning;
            true
        } else {
            false
        }
    }

    /// Feed one sample of the remaining-delta-v stream; true asks for zero
    /// throttle and ends the burn.
    pub fn dv_tick(&mut self, remaining: u64) -> (cutoff: bool)
        ensures
            cutoff == old(self).cuts(remaining),
            final(self).phase == (if cutoff {
                BurnPhase::Done
            } else {
                old(self).phase
            }),
            final(self).burn_start == old(self).burn_start,
            final(self).prev_remaining == (if old(self).phase == BurnPhase::Burning && !cutoff {
                Some(remaining)
            } else {
                old(self).prev_remaining
            }),
    {
        if self.phase == BurnPhase::Burning {
            let cut = match self.prev_remaining {
                Some(p) => remaining >= p,
                None => false,
            };
            if cut {
                self.phase = BurnPhase::Done;
                true
            } else {
                self.prev_remaining = Some(remaining);
                false
            }
        } else {
            false
        }
    }
}

} // verus!
