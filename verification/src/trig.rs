//! Fixed-point angle arithmetic.
//!
//! Angles are `i64` counts of millidegrees (one thousandth of a degree);
//! `FULL_TURN` millidegrees make a full circle. Sine and cosine are computed
//! by Bhaskara's rational approximation, scaled so that a result of `1000`
//! stands for one. The approximation is exact at every quarter turn, which is
//! all the paddle motion needs, and stays within `[-1000, 1000]` everywhere,
//! which is all the ball motion needs.

use vstd::arithmetic::div_mod::{
    lemma_div_is_ordered, lemma_div_multiples_vanish, lemma_div_pos_is_pos,
};
use vstd::prelude::*;

verus! {

/// Millidegrees in a full circle.
pub const FULL_TURN: i64 = 360_000;

/// Millidegrees in half a circle.
pub const HALF_TURN: i64 = 180_000;

/// Millidegrees in a quarter circle.
pub const QUARTER_TURN: i64 = 90_000;

/// The largest value `spec_arch` takes on `[0, HALF_TURN]`, reached at a
/// quarter turn.
pub const ARCH_PEAK: i64 = 8_100_000_000;

/// Denominator offset of Bhaskara's approximation, scaled to millidegrees:
/// five times `ARCH_PEAK`.
pub const BHASKARA: i64 = 40_500_000_000;

/// The parabolic arch `m * (HALF_TURN - m)` underlying the sine
/// approximation.
pub open spec fn spec_arch(m: int) -> int {
    m * (HALF_TURN - m)
}

/// Sine on the first half turn, scaled by 1000: Bhaskara's approximation
/// `4 * arch / (5 * peak - arch)` with every quantity in milli-units.
pub open spec fn spec_sin_half(m: int) -> int {
    (4000 * spec_arch(m)) / (BHASKARA - spec_arch(m))
}

/// An angle reduced to `[0, FULL_TURN)`.
pub open spec fn spec_norm(a: int) -> int {
    a % (FULL_TURN as int)
}

/// Sine of an angle in millidegrees, scaled by 1000.
pub open spec fn spec_sin(a: int) -> int {
    if spec_norm(a) <= HALF_TURN {
        spec_sin_half(spec_norm(a))
    } else {
        -spec_sin_half(spec_norm(a) - HALF_TURN)
    }
}

/// Cosine of an angle in millidegrees, scaled by 1000.
pub open spec fn spec_cos(a: int) -> int {
    spec_sin(a + QUARTER_TURN)
}

/// `s` scaled by the milli-unit factor `c`, rounded toward zero
/// (for `s >= 0`).
pub open spec fn spec_scale_mul(s: int, c: int) -> int {
    if c >= 0 {
        (s * c) / 1000
    } else {
        -((s * (-c)) / 1000)
    }
}

/// The arch is a downward parabola: nonnegative on the half turn and peaking
/// at the quarter turn.
pub proof fn lemma_arch_bounds(m: int)
    requires
        0 <= m <= 180_000,
    ensures
        0 <= spec_arch(m) <= ARCH_PEAK,
        m == 90_000 ==> spec_arch(m) == ARCH_PEAK,
{
    assert(0 <= m * (180_000 - m) <= 8_100_000_000) by (nonlinear_arith)
        requires
            0 <= m <= 180_000,
    ;
}

/// The half-turn sine stays within `[0, 1000]`.
pub proof fn lemma_sin_half_bounds(m: int)
    requires
        0 <= m <= 180_000,
    ensures
        0 <= spec_sin_half(m) <= 1000,
{
    lemma_arch_bounds(m);
    let p = spec_arch(m);
    let num = 4000 * p;
    let den = 40_500_000_000 - p;
    lemma_div_pos_is_pos(num, den);
    assert(num <= 1000 * den);
    lemma_div_is_ordered(num, 1000 * den, den);
    lemma_div_multiples_vanish(1000, den);
    assert((den * 1000) / den == 1000);
    assert(1000 * den == den * 1000) by (nonlinear_arith);
}

/// The approximation is exact at the quarter turns: straight up is a full
/// positive sine, straight down a full negative one, and the horizontal
/// directions have no vertical part at all.
pub proof fn lemma_quarter_turn_values()
    ensures
        spec_sin(0) == 0,
        spec_sin(90_000) == 1000,
        spec_sin(180_000) == 0,
        spec_sin(270_000) == -1000,
        spec_cos(0) == 1000,
        spec_cos(90_000) == 0,
        spec_cos(180_000) == -1000,
        spec_cos(270_000) == 0,
{
    assert(spec_norm(0) == 0);
    assert(spec_norm(90_000) == 90_000);
    assert(spec_norm(180_000) == 180_000);
    assert(spec_norm(270_000) == 270_000);
    assert(spec_norm(360_000) == 0);
    assert(spec_arch(0) == 0) by (nonlinear_arith);
    assert(spec_arch(90_000) == 8_100_000_000) by (nonlinear_arith);
    assert(spec_arch(180_000) == 0) by (nonlinear_arith);
    assert(spec_sin_half(0) == 0);
    assert(spec_sin_half(90_000) == 1000);
    assert(spec_sin_half(180_000) == 0);
}

/// Scaling by a milli-unit factor of at most one in magnitude never grows the
/// magnitude of a nonnegative quantity.
pub proof fn lemma_scale_mul_bounds(s: int, c: int)
    requires
        0 <= s,
        -1000 <= c <= 1000,
    ensures
        -s <= spec_scale_mul(s, c) <= s,
{
    if c >= 0 {
        assert(0 <= s * c <= s * 1000) by (nonlinear_arith)
            requires
                0 <= s,
                0 <= c <= 1000,
        ;
        lemma_div_pos_is_pos(s * c, 1000);
        lemma_div_is_ordered(s * c, s * 1000, 1000);
        lemma_div_multiples_vanish(s, 1000);
        assert(s * 1000 == 1000 * s) by (nonlinear_arith);
    } else {
        assert(0 <= s * (-c) <= s * 1000) by (nonlinear_arith)
            requires
                0 <= s,
                0 < -c <= 1000,
        ;
        lemma_div_pos_is_pos(s * (-c), 1000);
        lemma_div_is_ordered(s * (-c), s * 1000, 1000);
        lemma_div_multiples_vanish(s, 1000);
        assert(s * 1000 == 1000 * s) by (nonlinear_arith);
    }
}

/// Scaling by a full, zero or fully negative factor is exact.
pub proof fn lemma_scale_mul_exact(s: int)
    requires
        0 <= s,
    ensures
        spec_scale_mul(s, 1000) == s,
        spec_scale_mul(s, 0) == 0,
        spec_scale_mul(s, -1000) == -s,
{
    lemma_div_multiples_vanish(s, 1000);
    assert(s * 1000 == 1000 * s) by (nonlinear_arith);
    assert(s * 0 == 0) by (nonlinear_arith);
    assert((0int) / 1000 == 0);
}

/// An angle reduced to `[0, FULL_TURN)`.
pub fn norm_angle(a: i64) -> (m: i64)
    ensures
        m == spec_norm(a as int),
        0 <= m < 360_000,
{
    a.checked_rem_euclid(FULL_TURN).unwrap()
}

/// Sine on the first half turn, scaled by 1000.
fn sin_half(m: i64) -> (r: i64)
    requires
        0 <= m <= 180_000,
    ensures
        r == spec_sin_half(m as int),
        0 <= r <= 1000,
{
    proof {
        lemma_arch_bounds(m as int);
        lemma_sin_half_bounds(m as int);
    }
    let p = m * (HALF_TURN - m);
    let num = 4000 * p;
    let den = BHASKARA - p;
    num.checked_div_euclid(den).unwrap()
}

/// Sine of an angle in millidegrees, scaled by 1000.
pub fn sin_milli(a: i64) -> (r: i64)
    ensures
        r == spec_sin(a as int),
        -1000 <= r <= 1000,
{
    let m = norm_angle(a);
    if m <= HALF_TURN {
        sin_half(m)
    } else {
        let v = sin_half(m - HALF_TURN);
        -v
    }
}

/// Cosine of an angle in millidegrees, scaled by 1000.
pub fn cos_milli(a: i64) -> (r: i64)
    requires
        a + QUARTER_TURN <= i64::MAX,
    ensures
        r == spec_cos(a as int),
        -1000 <= r <= 1000,
{
    sin_milli(a + QUARTER_TURN)
}

/// `s` scaled by the milli-unit factor `c`, rounded toward zero.
pub fn scale_mul(s: i64, c: i64) -> (r: i64)
    requires
        0 <= s,
        s <= 9_000_000_000_000_000,
        -1000 <= c <= 1000,
    ensures
        r == spec_scale_mul(s as int, c as int),
        -s <= r <= s,
{
    proof {
        lemma_scale_mul_bounds(s as int, c as int);
        assert(s * 1000 <= 9_000_000_000_000_000_000) by (nonlinear_arith)
            requires
                0 <= s <= 9_000_000_000_000_000,
        ;
        assert(c >= 0 ==> s * c <= s * 1000) by (nonlinear_arith)
            requires
                0 <= s,
                c <= 1000,
        ;
        assert(c < 0 ==> s * (-c) <= s * 1000) by (nonlinear_arith)
            requires
                0 <= s,
                -c <= 1000,
        ;
        assert(c >= 0 ==> 0 <= s * c) by (nonlinear_arith)
            requires
                0 <= s,
        ;
        assert(c < 0 ==> 0 <= s * (-c)) by (nonlinear_arith)
            requires
                0 <= s,
        ;
    }
    if c >= 0 {
        let prod = s * c;
        prod.checked_div_euclid(1000).unwrap()
    } else {
        let prod = s * (-c);
        let q = prod.checked_div_euclid(1000).unwrap();
        -q
    }
}

} // verus!
