//! Integer arithmetic primitives shared by the planner modules: a floor
//! square root and truncating signed division, each pinned to a spec-level
//! definition.

use vstd::prelude::*;

verus! {

/// Floor of the square root of `n`, defined by counting up: the unique `r`
/// with `r * r <= n < (r + 1) * (r + 1)`.
pub open spec fn sqrt_floor(n: nat) -> nat
    decreases n,
{
    if n == 0 {
        0
    } else {
        let r = sqrt_floor((n - 1) as nat);
        if (r + 1) * (r + 1) <= n {
            r + 1
        } else {
            r
        }
    }
}

pub proof fn lemma_sqrt_floor_bounds(n: nat)
    ensures
        sqrt_floor(n) * sqrt_floor(n) <= n,
        n < (sqrt_floor(n) + 1) * (sqrt_floor(n) + 1),
    decreases n,
{
    if n == 0 {
        assert(sqrt_floor(0) == 0);
        assert(n < (sqrt_floor(n) + 1) * (sqrt_floor(n) + 1)) by (nonlinear_arith)
            requires
                n == 0,
                sqrt_floor(n) == 0,
        ;
    } else {
        lemma_sqrt_floor_bounds((n - 1) as nat);
        let r = sqrt_floor((n - 1) as nat);
        if (r + 1) * (r + 1) <= n {
            assert(sqrt_floor(n) == r + 1);
            assert((r + 1 + 1) * (r + 1 + 1) > (r + 1) * (r + 1)) by (nonlinear_arith);
        } else {
            assert(sqrt_floor(n) == r);
        }
    }
}

/// The two bounds pin `sqrt_floor` down: any `r` that satisfies them is it.
pub proof fn lemma_sqrt_floor_unique(n: nat, r: nat)
    requires
        r * r <= n,
        n < (r + 1) * (r + 1),
    ensures
        r == sqrt_floor(n),
{
    let s = sqrt_floor(n);
    lemma_sqrt_floor_bounds(n);
    if r < s {
        assert((r + 1) * (r + 1) <= s * s) by (nonlinear_arith)
            requires
                r + 1 <= s,
        ;
    }
    if s < r {
        assert((s + 1) * (s + 1) <= r * r) by (nonlinear_arith)
            requires
                s + 1 <= r,
        ;
    }
}

/// A square-root argument below `b * b` has its root below `b`.
pub proof fn lemma_sqrt_floor_lt(n: nat, b: nat)
    requires
        n < b * b,
    ensures
        sqrt_floor(n) < b,
{
    lemma_sqrt_floor_bounds(n);
    if sqrt_floor(n) >= b {
        assert(b * b <= sqrt_floor(n) * sqrt_floor(n)) by (nonlinear_arith)
            requires
                b <= sqrt_floor(n),
        ;
    }
}

/// Floor square root, by binary search on the answer; the root of any
/// `u128` fits in a `u64`.
pub fn isqrt(n: u128) -> (r: u64)
    ensures
        r == sqrt_floor(n as nat),
{
    let mut lo: u128 = 0;
    let mut hi: u128 = 0x1_0000_0000_0000_0000;
    while lo + 1 < hi
        invariant
            lo < hi <= 0x1_0000_0000_0000_0000,
            (lo as nat) * (lo as nat) <= n as nat,
            (n as nat) < (hi as nat) * (hi as nat),
        decreases hi - lo,
    {
        let mid = lo + (hi - lo) / 2;
        proof {
            let b: nat = 0x1_0000_0000_0000_0000;
            assert((mid as nat) * (mid as nat) < b * b) by (nonlinear_arith)
                requires
                    (mid as nat) < b,
            ;
        }
        let sq = mid * mid;
        if sq <= n {
            lo = mid;
        } else {
            hi = mid;
        }
    }
    proof {
        lemma_sqrt_floor_unique(n as nat, lo as nat);
    }
    lo as u64
}

/// Division rounding toward zero, the way hardware integer division does.
pub open spec fn div_trunc(n: int, d: int) -> int {
    if (n >= 0) == (d >= 0) {
        vstd::math::abs(n) as int / vstd::math::abs(d) as int
    } else {
        -(vstd::math::abs(n) as int / vstd::math::abs(d) as int)
    }
}

/// Truncating division on `i128`, computed on magnitudes so the contract
/// does not depend on how the machine rounds a negative quotient.
pub fn div_trunc_i128(n: i128, d: i128) -> (q: i128)
    requires
        d != 0,
        n > i128::MIN,
        d > i128::MIN,
    ensures
        q == div_trunc(n as int, d as int),
        vstd::math::abs(q as int) <= vstd::math::abs(n as int),
{
    let nn: u128 = if n >= 0 {
        n as u128
    } else {
        (-n) as u128
    };
    let dd: u128 = if d >= 0 {
        d as u128
    } else {
        (-d) as u128
    };
    let qq = nn / dd;
    assert(qq <= nn);
    if (n >= 0) == (d >= 0) {
        qq as i128
    } else {
        -(qq as i128)
    }
}

} // verus!
