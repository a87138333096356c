//! Fixed-point numbers for the simulation.
//!
//! A [`Scalar`] counts millionths of a unit in an `i64`. Sums and products
//! saturate at the ends of the `i64` range, and products are rounded to the
//! nearest millionth, halves away from zero, so that a rule never depends on
//! which side of zero a quantity lies.

use vstd::prelude::*;

verus! {

/// Raw steps in one whole unit.
pub const SCALE: i64 = 1_000_000;

/// Nanoseconds in one second.
pub const NANOS_PER_SECOND: u64 = 1_000_000_000;

/// The quotient `n / d` rounded to the nearest integer, halves away from zero.
pub open spec fn div_round(n: int, d: int) -> int
    recommends
        d > 0,
{
    if n >= 0 {
        (2 * n + d) / (2 * d)
    } else {
        -((2 * (-n) + d) / (2 * d))
    }
}

/// `x` brought into the range of an `i64`.
pub open spec fn clamp(x: int) -> int {
    if x < i64::MIN {
        i64::MIN as int
    } else if x > i64::MAX {
        i64::MAX as int
    } else {
        x
    }
}

/// Raw value of the saturating sum of two raw values.
pub open spec fn add_raw(a: int, b: int) -> int {
    clamp(a + b)
}

/// Raw value of the rounded, saturating product of two raw values.
pub open spec fn mul_raw(a: int, b: int) -> int {
    clamp(div_round(a * b, SCALE as int))
}

/// Raw value of a rate (per second) taken over `nanos` nanoseconds.
pub open spec fn over_nanos_raw(rate: int, nanos: int) -> int {
    clamp(div_round(rate * nanos, NANOS_PER_SECOND as int))
}

/// A fixed-point number: `raw` millionths of a unit.
#[derive(Clone, Copy, Debug, PartialEq, Eq, Structural)]
pub struct Scalar {
    pub raw: i64,
}

impl View for Scalar {
    type V = int;

    open spec fn view(&self) -> int {
        self.raw as int
    }
}

/// `magnitude / divisor` rounded to nearest, halves upward.
fn div_round_magnitude(magnitude: u128, divisor: u64) -> (q: u128)
    requires
        divisor > 0,
    ensures
        q == div_round(magnitude as int, divisor as int),
{
    let d: u128 = divisor as u128;
    let whole: u128 = magnitude / d;
    let rest: u128 = magnitude % d;
    proof {
        let m = magnitude as int;
        let di = d as int;
        let w = whole as int;
        let r = rest as int;
        vstd::arithmetic::div_mod::lemma_fundamental_div_mod(m, di);
        assert(m == di * w + r);
        assert(w <= m) by (nonlinear_arith)
            requires
                m == di * w + r,
                di > 0,
                w >= 0,
                r >= 0,
        {}
        if r >= di - r {
            assert(2 * m + di == (2 * di) * (w + 1) + (2 * r - di)) by (nonlinear_arith)
                requires
                    m == di * w + r,
            {}
            lemma_quotient(2 * m + di, 2 * di, w + 1, 2 * r - di);
            assert(w + 1 <= m) by (nonlinear_arith)
                requires
                    m == di * w + r,
                    2 * r >= di,
                    r < di,
                    di > 0,
                    w >= 0,
            {}
        } else {
            assert(2 * m + di == (2 * di) * w + (2 * r + di)) by (nonlinear_arith)
                requires
                    m == di * w + r,
            {}
            lemma_quotient(2 * m + di, 2 * di, w, 2 * r + di);
        }
    }
    if rest >= d - rest {
        whole + 1
    } else {
        whole
    }
}

/// A quotient is fixed by any decomposition with a remainder in range.
proof fn lemma_quotient(n: int, d: int, q: int, r: int)
    requires
        d > 0,
        n == d * q + r,
        0 <= r < d,
    ensures
        n / d == q,
{
    assert(d * q == q * d) by (nonlinear_arith);
    vstd::arithmetic::div_mod::lemma_fundamental_div_mod_converse(n, d, q, r);
}

/// Rounding changes nothing where the division is exact.
pub proof fn lemma_div_round_exact(q: int, d: int)
    requires
        d > 0,
    ensures
        div_round(q * d, d) == q,
{
    if q >= 0 {
        assert(q * d >= 0) by (nonlinear_arith)
            requires
                q >= 0,
                d > 0,
        {}
        assert(2 * (q * d) + d == (2 * d) * q + d) by (nonlinear_arith);
        lemma_quotient(2 * (q * d) + d, 2 * d, q, d);
    } else {
        assert(q * d < 0) by (nonlinear_arith)
            requires
                q < 0,
                d > 0,
        {}
        assert(2 * (-(q * d)) + d == (2 * d) * (-q) + d) by (nonlinear_arith);
        lemma_quotient(2 * (-(q * d)) + d, 2 * d, -q, d);
    }
}

/// Rounding never moves a quotient away from zero past the dividend: for a
/// divisor of at least one, the rounded quotient is no larger in magnitude
/// than the dividend.
pub proof fn lemma_div_round_bounded(n: int, d: int)
    requires
        d >= 1,
    ensures
        n >= 0 ==> 0 <= div_round(n, d) <= n,
        n <= 0 ==> n <= div_round(n, d) <= 0,
{
    let m = if n >= 0 { n } else { -n };
    let q = (2 * m + d) / (2 * d);
    vstd::arithmetic::div_mod::lemma_fundamental_div_mod(2 * m + d, 2 * d);
    let r = (2 * m + d) % (2 * d);
    vstd::arithmetic::div_mod::lemma_mod_pos_bound(2 * m + d, 2 * d);
    assert(2 * m + d == (2 * d) * q + r);
    assert(0 <= q <= m) by (nonlinear_arith)
        requires
            2 * m + d == (2 * d) * q + r,
            0 <= r < 2 * d,
            d >= 1,
            m >= 0,
    {}
}

/// Rounded division keeps the order of the dividends.
pub proof fn lemma_div_round_monotonic(a: int, b: int, d: int)
    requires
        d > 0,
        a <= b,
    ensures
        div_round(a, d) <= div_round(b, d),
{
    lemma_div_round_bounded(a, d);
    lemma_div_round_bounded(b, d);
    if a >= 0 {
        vstd::arithmetic::div_mod::lemma_div_is_ordered(2 * a + d, 2 * b + d, 2 * d);
    } else if b <= 0 {
        vstd::arithmetic::div_mod::lemma_div_is_ordered(2 * (-b) + d, 2 * (-a) + d, 2 * d);
    }
}

/// Multiplying by one changes nothing.
pub proof fn lemma_product_by_one(a: Scalar)
    ensures
        a.product(Scalar { raw: SCALE }) == a,
{
    lemma_div_round_exact(a@, SCALE as int);
}

/// A product with zero is zero, and so is zero taken over any time.
pub proof fn lemma_product_with_zero(a: Scalar, nanos: u64)
    ensures
        a.product(Scalar { raw: 0 })@ == 0,
        (Scalar { raw: 0 }).product(a)@ == 0,
        (Scalar { raw: 0 }).during(nanos)@ == 0,
{
    assert(a@ * 0 == 0);
    assert(0 * a@ == 0);
    assert(0 * (nanos as int) == 0);
    lemma_div_round_exact(0, SCALE as int);
    lemma_div_round_exact(0, NANOS_PER_SECOND as int);
}

/// A product with a factor between zero and one is no larger in magnitude
/// than the other factor, has its sign, and does not saturate.
pub proof fn lemma_product_shrinks(a: Scalar, factor: Scalar)
    requires
        0 <= factor@ <= SCALE,
    ensures
        a.product(factor)@ == div_round(a@ * factor@, SCALE as int),
        a@ >= 0 ==> 0 <= a.product(factor)@ <= a@,
        a@ <= 0 ==> a@ <= a.product(factor)@ <= 0,
{
    let s = SCALE as int;
    let n = a@ * factor@;
    lemma_div_round_exact(a@, s);
    if a@ >= 0 {
        assert(0 <= n <= a@ * s) by (nonlinear_arith)
            requires
                n == a@ * factor@,
                a@ >= 0,
                0 <= factor@ <= s,
        {}
        lemma_div_round_monotonic(n, a@ * s, s);
        lemma_div_round_bounded(n, s);
    } else {
        assert(a@ * s <= n <= 0) by (nonlinear_arith)
            requires
                n == a@ * factor@,
                a@ <= 0,
                0 <= factor@ <= s,
        {}
        lemma_div_round_monotonic(a@ * s, n, s);
        lemma_div_round_bounded(n, s);
    }
}

/// Where the exact product of a number and a factor between zero and one
/// is a whole number of raw steps, the product is exact.
pub proof fn lemma_product_exact(a: Scalar, factor: Scalar)
    requires
        0 <= factor@ <= SCALE,
        (a@ * factor@) % (SCALE as int) == 0,
    ensures
        a.product(factor)@ * SCALE == a@ * factor@,
{
    let s = SCALE as int;
    let n = a@ * factor@;
    vstd::arithmetic::div_mod::lemma_fundamental_div_mod(n, s);
    let q = n / s;
    assert(n == q * s) by (nonlinear_arith)
        requires
            n == s * q + 0,
    {}
    lemma_div_round_exact(q, s);
    lemma_product_shrinks(a, factor);
}

/// Where the exact product of two numbers is a whole number of raw steps
/// within the range, the product is exact.
pub proof fn lemma_product_exact_in_range(a: Scalar, b: Scalar)
    requires
        (a@ * b@) % (SCALE as int) == 0,
        i64::MIN <= (a@ * b@) / (SCALE as int) <= i64::MAX,
    ensures
        a.product(b)@ * SCALE == a@ * b@,
{
    let s = SCALE as int;
    let n = a@ * b@;
    vstd::arithmetic::div_mod::lemma_fundamental_div_mod(n, s);
    let q = n / s;
    assert(n == q * s) by (nonlinear_arith)
        requires
            n == s * q + 0,
    {}
    lemma_div_round_exact(q, s);
}

/// Where a rate taken over a time is exactly a whole number of raw steps
/// within the range, no rounding takes place.
pub proof fn lemma_during_exact_in_range(rate: Scalar, nanos: u64)
    requires
        (rate@ * nanos) % (NANOS_PER_SECOND as int) == 0,
        i64::MIN <= (rate@ * nanos) / (NANOS_PER_SECOND as int) <= i64::MAX,
    ensures
        rate.during(nanos)@ * NANOS_PER_SECOND == rate@ * nanos,
{
    let s = NANOS_PER_SECOND as int;
    let n = rate@ * nanos;
    vstd::arithmetic::div_mod::lemma_fundamental_div_mod(n, s);
    let q = n / s;
    assert(n == q * s) by (nonlinear_arith)
        requires
            n == s * q + 0,
    {}
    lemma_div_round_exact(q, s);
}

/// The magnitude of an `i128` that is not its least value.
fn magnitude_of(n: i128) -> (m: u128)
    requires
        n > i128::MIN,
    ensures
        m == if n >= 0 { n as int } else { -(n as int) },
{
    if n >= 0 {
        n as u128
    } else {
        (-n) as u128
    }
}

/// `n / divisor`, rounded to nearest with halves away from zero, brought
/// into the range of an `i64`.
fn div_round_clamped(n: i128, divisor: u64) -> (r: i64)
    requires
        divisor > 0,
        n > i128::MIN,
    ensures
        r == clamp(div_round(n as int, divisor as int)),
{
    let q: u128 = div_round_magnitude(magnitude_of(n), divisor);
    if n >= 0 {
        if q > i64::MAX as u128 {
            i64::MAX
        } else {
            q as i64
        }
    } else {
        if q > i64::MAX as u128 {
            i64::MIN
        } else {
            -(q as i64)
        }
    }
}

impl Scalar {
    /// The saturating sum.
    pub open spec fn sum(self, rhs: Scalar) -> Scalar {
        Scalar { raw: add_raw(self@, rhs@) as i64 }
    }

    /// The rounded, saturating product.
    pub open spec fn product(self, rhs: Scalar) -> Scalar {
        Scalar { raw: mul_raw(self@, rhs@) as i64 }
    }

    /// This rate per second taken over `nanos` nanoseconds, rounded and
    /// saturating.
    pub open spec fn during(self, nanos: u64) -> Scalar {
        Scalar { raw: over_nanos_raw(self@, nanos as int) as i64 }
    }

    /// The number with the given raw value.
    pub fn from_raw(raw: i64) -> (s: Scalar)
        ensures
            s@ == raw,
    {
        Scalar { raw }
    }

    /// The number of whole `units`.
    pub fn from_int(units: i32) -> (s: Scalar)
        ensures
            s@ == units * SCALE,
    {
        Scalar { raw: (units as i64) * SCALE }
    }

    /// Zero.
    pub fn zero() -> (s: Scalar)
        ensures
            s@ == 0,
    {
        Scalar { raw: 0 }
    }

    /// One whole unit.
    pub fn one() -> (s: Scalar)
        ensures
            s@ == SCALE,
    {
        Scalar { raw: SCALE }
    }

    /// The raw value: millionths of a unit.
    pub fn raw(self) -> (raw: i64)
        ensures
            raw == self@,
    {
        self.raw
    }

    /// The sum, saturating at the ends of the range.
    pub fn saturating_add(self, rhs: Scalar) -> (s: Scalar)
        ensures
            s == self.sum(rhs),
            s@ == add_raw(self@, rhs@),
    {
        let sum: i128 = self.raw as i128 + rhs.raw as i128;
        if sum > i64::MAX as i128 {
            Scalar { raw: i64::MAX }
        } else if sum < i64::MIN as i128 {
            Scalar { raw: i64::MIN }
        } else {
            Scalar { raw: sum as i64 }
        }
    }

    /// The product, rounded to the nearest millionth and saturating.
    pub fn saturating_mul(self, rhs: Scalar) -> (s: Scalar)
        ensures
            s == self.product(rhs),
            s@ == mul_raw(self@, rhs@),
    {
        let a: i128 = self.raw as i128;
        let b: i128 = rhs.raw as i128;
        assert(-0x4000_0000_0000_0000_0000_0000_0000_0000 <= a * b
            <= 0x4000_0000_0000_0000_0000_0000_0000_0000) by (nonlinear_arith)
            requires
                -0x8000_0000_0000_0000 <= a <= 0x8000_0000_0000_0000,
                -0x8000_0000_0000_0000 <= b <= 0x8000_0000_0000_0000,
        {}
        Scalar { raw: div_round_clamped(a * b, SCALE as u64) }
    }

    /// This rate per second, taken over `nanos` nanoseconds: rounded to the
    /// nearest millionth and saturating.
    pub fn over_nanos(self, nanos: u64) -> (s: Scalar)
        ensures
            s == self.during(nanos),
            s@ == over_nanos_raw(self@, nanos as int),
    {
        let a: i128 = self.raw as i128;
        let b: i128 = nanos as i128;
        assert(-0x8000_0000_0000_0000_0000_0000_0000_0000 < a * b
            < 0x8000_0000_0000_0000_0000_0000_0000_0000) by (nonlinear_arith)
            requires
                -0x8000_0000_0000_0000 <= a < 0x8000_0000_0000_0000,
                0 <= b < 0x1_0000_0000_0000_0000,
        {}
        Scalar { raw: div_round_clamped(a * b, NANOS_PER_SECOND) }
    }
}

} // verus!
