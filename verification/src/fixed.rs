//! Fixed-point scalars and the integer arithmetic shared by the crate.

use vstd::prelude::*;

verus! {

/// A fixed-point scalar: a signed count of millionths of a unit.
///
/// The value `1.5` is written `1_500_000`. Data values, coordinates, font
/// sizes and dimensionless ratios all use this representation.
pub type Fixed = i64;

/// The raw value of `1.0`.
pub const UNIT: i64 = 1_000_000;

/// Largest magnitude the layout functions accept for a single input.
///
/// It leaves room for the sums and products the crate forms without leaving
/// the machine integers it computes in.
pub const LIMIT: i64 = 10_000_000_000_000_000;

/// Whether `v` lies within `[-LIMIT, LIMIT]`.
pub open spec fn in_range(v: int) -> bool {
    -LIMIT <= v <= LIMIT
}

/// The larger of two integers.
pub open spec fn max_int(a: int, b: int) -> int {
    if a >= b {
        a
    } else {
        b
    }
}

/// The smaller of two integers.
pub open spec fn min_int(a: int, b: int) -> int {
    if a <= b {
        a
    } else {
        b
    }
}

/// The magnitude of an integer.
pub open spec fn abs_int(v: int) -> int {
    if v >= 0 {
        v
    } else {
        -v
    }
}

/// `v` pinned into `[lo, hi]`.
pub open spec fn clamp_int(v: int, lo: int, hi: int) -> int {
    if v < lo {
        lo
    } else if v > hi {
        hi
    } else {
        v
    }
}

/// `v` pinned into the range of a [`Fixed`].
pub open spec fn saturate(v: int) -> int {
    clamp_int(v, i64::MIN as int, i64::MAX as int)
}

/// The quotient `a / b` rounded toward negative infinity, for any nonzero `b`.
pub open spec fn div_floor(a: int, b: int) -> int {
    if b > 0 {
        a / b
    } else {
        (-a) / (-b)
    }
}

/// The quotient `a / b` rounded toward positive infinity, for positive `b`.
pub open spec fn div_ceil(a: int, b: int) -> int {
    -((-a) / b)
}

/// Floor division of machine integers by a positive divisor.
pub fn floor_div(a: i128, b: i128) -> (q: i128)
    requires
        b > 0,
    ensures
        q == a as int / b as int,
{
    proof {
        lemma_floor_div_bounds(a as int, b as int);
    }
    match a.checked_div_euclid(b) {
        Some(q) => q,
        None => 0,
    }
}

/// Ceiling division of machine integers by a positive divisor.
pub fn ceil_div(a: i128, b: i128) -> (q: i128)
    requires
        b > 0,
        a > i128::MIN,
    ensures
        q == div_ceil(a as int, b as int),
{
    let neg: i128 = -a;
    proof {
        lemma_floor_div_bounds(neg as int, b as int);
    }
    let q: i128 = floor_div(neg, b);
    -q
}

/// A floor quotient by a positive divisor is no larger in magnitude than the
/// dividend.
pub proof fn lemma_floor_div_bounds(a: int, b: int)
    requires
        b > 0,
    ensures
        a >= 0 ==> 0 <= a / b <= a,
        a < 0 ==> a <= a / b < 0,
{
    vstd::arithmetic::div_mod::lemma_fundamental_div_mod(a, b);
    vstd::arithmetic::div_mod::lemma_mod_bound(a, b);
    let q = a / b;
    let r = a % b;
    assert(a == b * q + r);
    if a >= 0 {
        if q < 0 {
            assert(b * q <= b * -1) by (nonlinear_arith)
                requires
                    q <= -1,
                    b > 0,
            ;
        }
        if q > a {
            assert(b * q >= q) by (nonlinear_arith)
                requires
                    q >= 0,
                    b >= 1,
            ;
        }
    } else {
        if q >= 0 {
            assert(b * q >= 0) by (nonlinear_arith)
                requires
                    q >= 0,
                    b > 0,
            ;
        }
        if q < a {
            assert(b * (q + 1) <= q + 1) by (nonlinear_arith)
                requires
                    q + 1 <= 0,
                    b >= 1,
            ;
            assert(b * (q + 1) == b * q + b) by (nonlinear_arith);
        }
    }
}

/// Pins a wide intermediate result into the range of a [`Fixed`].
pub fn saturate_to_fixed(v: i128) -> (r: Fixed)
    ensures
        r == saturate(v as int),
{
    if v < i64::MIN as i128 {
        i64::MIN
    } else if v > i64::MAX as i128 {
        i64::MAX
    } else {
        v as i64
    }
}

/// The position at which `x` falls when the interval from `d0` to `d1` is laid
/// linearly onto the interval from `r0` to `r1`, rounded toward negative
/// infinity. A degenerate interval `d0 == d1` sends every `x` to `r0`.
pub open spec fn interpolate(d0: int, d1: int, r0: int, r1: int, x: int) -> int {
    if d1 == d0 {
        r0
    } else {
        r0 + div_floor((x - d0) * (r1 - r0), d1 - d0)
    }
}

/// Both ends of an interpolation are hit exactly.
pub proof fn lemma_interpolate_ends(d0: int, d1: int, r0: int, r1: int)
    requires
        d0 != d1,
    ensures
        interpolate(d0, d1, r0, r1, d0) == r0,
        interpolate(d0, d1, r0, r1, d1) == r1,
{
    let dd = d1 - d0;
    let dr = r1 - r0;
    assert((d0 - d0) * dr == 0) by (nonlinear_arith);
    if dd > 0 {
        assert(0int / dd == 0) by {
            vstd::arithmetic::div_mod::lemma_div_basics(dd);
        }
        assert((dd * dr) / dd == dr) by {
            vstd::arithmetic::div_mod::lemma_div_multiples_vanish(dr, dd);
        }
    } else {
        let nd = -dd;
        assert(0int / nd == 0) by {
            vstd::arithmetic::div_mod::lemma_div_basics(nd);
        }
        assert(-(dd * dr) == nd * dr) by (nonlinear_arith)
            requires
                nd == -dd,
        ;
        assert((nd * dr) / nd == dr) by {
            vstd::arithmetic::div_mod::lemma_div_multiples_vanish(dr, nd);
        }
    }
}

/// Computes [`interpolate`] for any `d0`, `d1` and `x` and for `r0`, `r1`
/// within the accepted coordinate range, pinning the result into the range
/// of a [`Fixed`].
pub fn interpolate_fixed(d0: Fixed, d1: Fixed, r0: Fixed, r1: Fixed, x: Fixed) -> (r: Fixed)
    requires
        in_range(r0 as int),
        in_range(r1 as int),
    ensures
        r == saturate(interpolate(d0 as int, d1 as int, r0 as int, r1 as int, x as int)),
{
    if d1 == d0 {
        return r0;
    }
    let dx: i128 = x as i128 - d0 as i128;
    let dr: i128 = r1 as i128 - r0 as i128;
    let dd: i128 = d1 as i128 - d0 as i128;
    assert(-0x1_0000_0000_0000_0000 * (2 * LIMIT) <= dx * dr <= 0x1_0000_0000_0000_0000 * (2
        * LIMIT)) by (nonlinear_arith)
        requires
            -0x1_0000_0000_0000_0000 <= dx <= 0x1_0000_0000_0000_0000,
            -2 * LIMIT <= dr <= 2 * LIMIT,
    ;
    let product: i128 = dx * dr;
    let q: i128 = if dd > 0 {
        proof {
            lemma_floor_div_bounds(product as int, dd as int);
        }
        floor_div(product, dd)
    } else {
        proof {
            lemma_floor_div_bounds(-(product as int), -(dd as int));
        }
        floor_div(-product, -dd)
    };
    saturate_to_fixed(r0 as i128 + q)
}

/// `v` pinned into the accepted coordinate range `[-LIMIT, LIMIT]`.
pub open spec fn pinned(v: int) -> int {
    clamp_int(v, -(LIMIT as int), LIMIT as int)
}

/// Pins a scalar into the accepted coordinate range.
pub fn pin(v: Fixed) -> (r: Fixed)
    ensures
        r == pinned(v as int),
        in_range(r as int),
{
    if v < -LIMIT {
        -LIMIT
    } else if v > LIMIT {
        LIMIT
    } else {
        v
    }
}

/// Returns whether a scalar lies within the accepted coordinate range.
pub fn is_in_range(v: Fixed) -> (r: bool)
    ensures
        r == in_range(v as int),
{
    -LIMIT <= v && v <= LIMIT
}

/// Returns the scalar for a whole number.
pub fn from_whole(n: i32) -> (r: Fixed)
    ensures
        r == n * UNIT,
        in_range(r as int),
{
    assert(n * UNIT == 1_000_000 * n) by (nonlinear_arith)
        requires
            UNIT == 1_000_000,
    ;
    1_000_000 * (n as i64)
}

} // verus!
