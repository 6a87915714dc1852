//! Bounded integer arithmetic used throughout the pipeline.
//!
//! Every telemetry quantity and configuration threshold is kept within
//! `VALUE_BOUND`, which is far beyond anything an aircraft can report and
//! keeps all intermediate products comfortably inside `i64`.

use vstd::prelude::*;

verus! {

/// Magnitude limit on telemetry values and thresholds (one billion).
pub const VALUE_BOUND: i64 = 1_000_000_000;

/// A value is in range when its magnitude is at most `VALUE_BOUND`.
pub open spec fn in_range(x: int) -> bool {
    -(VALUE_BOUND as int) <= x <= VALUE_BOUND as int
}

/// Mathematical absolute value.
pub open spec fn abs_int(x: int) -> int {
    if x >= 0 { x } else { -x }
}

/// Quotient rounded toward zero, as hardware integer division computes it.
/// (In specifications `/` is Euclidean division, which differs on negative
/// dividends.)
pub open spec fn div_trunc(a: int, b: int) -> int
    recommends
        b > 0,
{
    if a >= 0 {
        a / b
    } else {
        -((-a) / b)
    }
}

/// The multiple of 500 nearest to `a`, ties rounded away from zero.
pub open spec fn nearest_500(a: int) -> int {
    if a >= 0 {
        ((a + 250) / 500) * 500
    } else {
        -(((-a + 250) / 500) * 500)
    }
}

/// Which thousand-foot band an altitude lies in: the floor of `a / 1000`.
pub open spec fn thousands(a: int) -> int {
    a / 1000
}

/// Truncating division stays between zero and the dividend.
pub proof fn lemma_div_trunc_bounds(a: int, b: int)
    requires
        b >= 1,
    ensures
        a >= 0 ==> 0 <= div_trunc(a, b) <= a,
        a < 0 ==> a <= div_trunc(a, b) <= 0,
{
    if a >= 0 {
        assert(0 <= a / b <= a) by (nonlinear_arith)
            requires
                a >= 0,
                b >= 1,
        ;
    } else {
        assert(0 <= (-a) / b <= -a) by (nonlinear_arith)
            requires
                -a >= 0,
                b >= 1,
        ;
    }
}

/// Runtime check that a value is within `VALUE_BOUND`.
pub fn check_range(x: i64) -> (r: bool)
    ensures
        r == in_range(x as int),
{
    -VALUE_BOUND <= x && x <= VALUE_BOUND
}

/// Absolute value of a bounded `i64`.
pub fn abs64(x: i64) -> (r: i64)
    requires
        x != i64::MIN,
    ensures
        r == abs_int(x as int),
{
    if x < 0 {
        -x
    } else {
        x
    }
}

/// Truncating division of a bounded `i64` by a positive divisor.
pub fn div_trunc64(a: i64, b: i64) -> (r: i64)
    requires
        b > 0,
        a != i64::MIN,
    ensures
        r == div_trunc(a as int, b as int),
        a >= 0 ==> 0 <= r <= a,
        a < 0 ==> a <= r <= 0,
{
    proof {
        lemma_div_trunc_bounds(a as int, b as int);
    }
    if a >= 0 {
        ((a as u64) / (b as u64)) as i64
    } else {
        let m: u64 = (-a) as u64;
        -((m / (b as u64)) as i64)
    }
}

/// The multiple of 500 nearest to a bounded altitude.
pub fn round_to_500(a: i64) -> (r: i64)
    requires
        in_range(a as int),
    ensures
        r == nearest_500(a as int),
        -(VALUE_BOUND + 250) <= r <= VALUE_BOUND + 250,
{
    if a >= 0 {
        let m: u64 = a as u64;
        let q: u64 = (m + 250) / 500;
        assert(q * 500 <= m + 250) by (nonlinear_arith)
            requires
                q == (m + 250) as int / 500,
        ;
        (q * 500) as i64
    } else {
        let m: u64 = (-a) as u64;
        let q: u64 = (m + 250) / 500;
        assert(q * 500 <= m + 250) by (nonlinear_arith)
            requires
                q == (m + 250) as int / 500,
        ;
        -((q * 500) as i64)
    }
}

/// Which thousand-foot band a bounded altitude lies in.
pub fn thousands_band(a: i64) -> (r: i64)
    requires
        in_range(a as int),
    ensures
        r == thousands(a as int),
{
    if a >= 0 {
        ((a as u64) / 1000) as i64
    } else {
        let m: u64 = (-a) as u64;
        let q: u64 = (m + 999) / 1000;
        proof {
            lemma_neg_div_floor(m as int, q as int);
        }
        -(q as i64)
    }
}

/// For a positive magnitude `m`, the floor of `-m / 1000` is the negated
/// rounded-up quotient `(m + 999) / 1000`.
proof fn lemma_neg_div_floor(m: int, q: int)
    requires
        m >= 1,
        q == (m + 999) / 1000,
    ensures
        -q == (-m) / 1000,
{
    let r: int = m % 1000;
    vstd::arithmetic::div_mod::lemma_fundamental_div_mod(m, 1000);
    assert(m == 1000 * (m / 1000) + r);
    assert(0 <= r < 1000) by (nonlinear_arith)
        requires
            r == m % 1000,
    ;
    if r == 0 {
        assert(q == m / 1000) by (nonlinear_arith)
            requires
                m == 1000 * (m / 1000),
                q == (m + 999) / 1000,
        ;
        assert((-m) / 1000 == -(m / 1000)) by (nonlinear_arith)
            requires
                m == 1000 * (m / 1000),
        ;
    } else {
        assert(q == m / 1000 + 1) by (nonlinear_arith)
            requires
                m == 1000 * (m / 1000) + r,
                1 <= r < 1000,
                q == (m + 999) / 1000,
        ;
        assert((-m) / 1000 == -(m / 1000) - 1) by (nonlinear_arith)
            requires
                m == 1000 * (m / 1000) + r,
                1 <= r < 1000,
        ;
    }
}

} // verus!
