//! Fixed-point quantities.
//!
//! Every length, angle and zoom factor of this crate is a whole number of thousandths:
//! `1_000` is one metre, one pixel, one degree or a zoom factor of one. Values are `i64`;
//! intermediate products are formed in 128 bits so that scaling never overflows.

use vstd::prelude::*;
use vstd::arithmetic::div_mod::lemma_fundamental_div_mod_converse;

verus! {

/// Thousandths in one whole unit.
pub const SCALE: i64 = 1_000;

/// Largest magnitude of a coordinate that the geometry accepts.
pub const COORD_MAX: i64 = 1_000_000_000_000_000;

/// Largest numerator or denominator of a scaling ratio.
pub const RATIO_MAX: i64 = 4_000_000_000_000_000_000;

/// A coordinate is in the domain when its magnitude is at most [`COORD_MAX`].
pub open spec fn in_domain(v: int) -> bool {
    -COORD_MAX <= v <= COORD_MAX
}

/// `v` limited to the closed interval from `lo` to `hi`.
pub open spec fn clamped(v: int, lo: int, hi: int) -> int {
    if v < lo {
        lo
    } else if v > hi {
        hi
    } else {
        v
    }
}

/// `a * n / d`, rounded to the nearest whole number, halves upward.
pub open spec fn scaled(a: int, n: int, d: int) -> int {
    (2 * a * n + d) / (2 * d)
}

/// `r` is the whole part of the square root of `n`.
pub open spec fn is_floor_sqrt(n: int, r: int) -> bool {
    0 <= r && r * r <= n < (r + 1) * (r + 1)
}

/// The whole part of the square root of `n`, for `n >= 0`.
pub open spec fn floor_sqrt(n: int) -> int {
    choose|r: int| is_floor_sqrt(n, r)
}

/// At most one number is the whole square root of `n`.
pub proof fn lemma_floor_sqrt_unique(n: int, r: int, s: int)
    requires
        is_floor_sqrt(n, r),
        is_floor_sqrt(n, s),
    ensures
        r == s,
{
    if r < s {
        assert((r + 1) * (r + 1) <= s * s) by (nonlinear_arith)
            requires
                0 <= r,
                r + 1 <= s,
        ;
    } else if s < r {
        assert((s + 1) * (s + 1) <= r * r) by (nonlinear_arith)
            requires
                0 <= s,
                s + 1 <= r,
        ;
    }
}

/// A number that satisfies [`is_floor_sqrt`] is the value of [`floor_sqrt`].
pub proof fn lemma_floor_sqrt_is(n: int, r: int)
    requires
        is_floor_sqrt(n, r),
    ensures
        floor_sqrt(n) == r,
{
    lemma_floor_sqrt_unique(n, r, floor_sqrt(n));
}

/// Scaling by a non-negative ratio keeps the order of its arguments.
pub proof fn lemma_scaled_monotonic(a: int, b: int, n: int, d: int)
    requires
        a <= b,
        0 <= n,
        0 < d,
    ensures
        scaled(a, n, d) <= scaled(b, n, d),
{
    assert(2 * a * n + d <= 2 * b * n + d) by (nonlinear_arith)
        requires
            a <= b,
            0 <= n,
    ;
    vstd::arithmetic::div_mod::lemma_div_is_ordered(2 * a * n + d, 2 * b * n + d, 2 * d);
}

/// Whether `v` lies in the coordinate domain.
pub fn is_in_domain(v: i64) -> (ok: bool)
    ensures
        ok == in_domain(v as int),
{
    -COORD_MAX <= v && v <= COORD_MAX
}

/// `v` limited to the closed interval from `lo` to `hi`.
pub fn clamp(v: i64, lo: i64, hi: i64) -> (r: i64)
    ensures
        r == clamped(v as int, lo as int, hi as int),
{
    if v < lo {
        lo
    } else if v > hi {
        hi
    } else {
        v
    }
}

/// Division that rounds toward negative infinity.
pub fn div_floor(a: i128, d: i128) -> (q: i128)
    requires
        d > 0,
        a > i128::MIN,
    ensures
        q == a as int / d as int,
{
    if a >= 0 {
        a / d
    } else {
        let m: i128 = -(a + 1);
        let k: i128 = m / d;
        let q: i128 = -k - 1;
        proof {
            let r: int = a - q * d;
            assert(m == k * d + m % d) by {
                vstd::arithmetic::div_mod::lemma_fundamental_div_mod(m as int, d as int);
                assert(k * d == d * k) by (nonlinear_arith);
            }
            assert(q * d == -(k * d) - d) by (nonlinear_arith)
                requires
                    q == -k - 1,
            ;
            assert(0 <= m % d < d) by {
                vstd::arithmetic::div_mod::lemma_mod_bound(m as int, d as int);
            }
            assert(r == d - 1 - m % d);
            lemma_fundamental_div_mod_converse(a as int, d as int, q as int, r);
        }
        q
    }
}

/// `a * n / d`, rounded to the nearest whole number, halves upward, for wide operands.
pub fn scale_wide(a: i128, n: i128, d: i128) -> (r: i128)
    requires
        -40_000_000_000_000_000_000_000_000_000_000_000_000 <= a * n
            <= 40_000_000_000_000_000_000_000_000_000_000_000_000,
        0 < d < 0x2000_0000_0000_0000_0000_0000_0000_0000,
    ensures
        r == scaled(a as int, n as int, d as int),
{
    let p: i128 = a * n;
    assert(2 * a * n == 2 * (a * n)) by (nonlinear_arith);
    div_floor(2 * p + d, 2 * d)
}

/// `a * n / d`, rounded to the nearest whole number, halves upward.
pub fn scale(a: i64, n: i64, d: i64) -> (r: i128)
    requires
        -RATIO_MAX <= n <= RATIO_MAX,
        0 < d,
    ensures
        r == scaled(a as int, n as int, d as int),
{
    assert(-40_000_000_000_000_000_000_000_000_000_000_000_000 <= a * n
        <= 40_000_000_000_000_000_000_000_000_000_000_000_000) by (nonlinear_arith)
        requires
            -0x8000_0000_0000_0000 <= a <= 0x8000_0000_0000_0000,
            -4_000_000_000_000_000_000 <= n <= 4_000_000_000_000_000_000,
    ;
    scale_wide(a as i128, n as i128, d as i128)
}

/// The whole part of the square root of `n`.
pub fn isqrt(n: u128) -> (r: u64)
    requires
        n < 0x1000_0000_0000_0000_0000_0000_0000_0000,
    ensures
        is_floor_sqrt(n as int, r as int),
        r == floor_sqrt(n as int),
{
    let mut lo: u128 = 0;
    let mut hi: u128 = 0x4000_0000_0000_0000;
    assert(hi * hi == 0x1000_0000_0000_0000_0000_0000_0000_0000) by (nonlinear_arith)
        requires
            hi == 0x4000_0000_0000_0000,
    ;
    while hi - lo > 1
        invariant
            lo < hi <= 0x4000_0000_0000_0000,
            lo * lo <= n < hi * hi,
        decreases hi - lo,
    {
        let mid: u128 = lo + (hi - lo) / 2;
        assert(mid * mid <= 0x4000_0000_0000_0000 * 0x4000_0000_0000_0000) by (nonlinear_arith)
            requires
                0 <= mid <= 0x4000_0000_0000_0000,
        ;
        if mid * mid <= n {
            lo = mid;
        } else {
            hi = mid;
        }
    }
    proof {
        lemma_floor_sqrt_is(n as int, lo as int);
    }
    lo as u64
}

} // verus!
