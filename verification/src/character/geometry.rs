//! Directions and rotations in the plane, and the slope test on them.
//!
//! Every component here is a fixed-point number between minus one and one,
//! so that the products the slope test needs are exact in 128 bits.

use vstd::prelude::*;
use crate::scalar::{Scalar, SCALE};

verus! {

/// Whether a raw value lies between minus one and one whole unit.
pub open spec fn is_unit_fraction(raw: int) -> bool {
    -(SCALE as int) <= raw <= SCALE as int
}

/// Decides [`is_unit_fraction`].
pub fn unit_fraction(value: Scalar) -> (b: bool)
    ensures
        b == is_unit_fraction(value@),
{
    -SCALE <= value.raw && value.raw <= SCALE
}

/// A point or an offset in the plane.
#[derive(Clone, Copy, Debug, PartialEq, Eq, Structural)]
pub struct Vector {
    pub x: Scalar,
    pub y: Scalar,
}

impl Vector {
    /// The origin.
    pub fn zero() -> (v: Vector)
        ensures
            v.x@ == 0,
            v.y@ == 0,
    {
        Vector { x: Scalar::zero(), y: Scalar::zero() }
    }
}

/// A contact normal: a direction whose components lie in `[-1, 1]`.
#[derive(Clone, Copy, Debug, PartialEq, Eq, Structural)]
pub struct Normal {
    pub(crate) x: Scalar,
    pub(crate) y: Scalar,
}

impl Normal {
    #[verifier::type_invariant]
    spec fn components_bounded(self) -> bool {
        is_unit_fraction(self.x@) && is_unit_fraction(self.y@)
    }

    /// Raw horizontal component.
    pub closed spec fn x(self) -> int {
        self.x@
    }

    /// Raw vertical component.
    pub closed spec fn y(self) -> int {
        self.y@
    }

    /// The normal with the given components, if both lie in `[-1, 1]`.
    pub fn new(x: Scalar, y: Scalar) -> (n: Option<Normal>)
        ensures
            n is Some <==> is_unit_fraction(x@) && is_unit_fraction(y@),
            n matches Some(v) ==> v.x() == x@ && v.y() == y@,
    {
        if unit_fraction(x) && unit_fraction(y) {
            Some(Normal { x, y })
        } else {
            None
        }
    }

    /// The direction straight down.
    pub fn down() -> (n: Normal)
        ensures
            n.x() == 0,
            n.y() == -SCALE,
    {
        Normal { x: Scalar { raw: 0 }, y: Scalar { raw: -SCALE } }
    }

    /// The horizontal component.
    pub fn get_x(&self) -> (x: Scalar)
        ensures
            x@ == self.x(),
            is_unit_fraction(x@),
    {
        proof {
            use_type_invariant(self);
        }
        self.x
    }

    /// The vertical component.
    pub fn get_y(&self) -> (y: Scalar)
        ensures
            y@ == self.y(),
            is_unit_fraction(y@),
    {
        proof {
            use_type_invariant(self);
        }
        self.y
    }
}

/// A rotation, held as the cosine and sine of its angle.
#[derive(Clone, Copy, Debug, PartialEq, Eq, Structural)]
pub struct Rotation {
    pub(crate) cos: Scalar,
    pub(crate) sin: Scalar,
}

impl Rotation {
    #[verifier::type_invariant]
    spec fn components_bounded(self) -> bool {
        is_unit_fraction(self.cos@) && is_unit_fraction(self.sin@)
    }

    /// Raw cosine of the angle.
    pub closed spec fn cos(self) -> int {
        self.cos@
    }

    /// Raw sine of the angle.
    pub closed spec fn sin(self) -> int {
        self.sin@
    }

    /// The rotation with the given cosine and sine, if both lie in `[-1, 1]`.
    pub fn new(cos: Scalar, sin: Scalar) -> (r: Option<Rotation>)
        ensures
            r is Some <==> is_unit_fraction(cos@) && is_unit_fraction(sin@),
            r matches Some(v) ==> v.cos() == cos@ && v.sin() == sin@,
    {
        if unit_fraction(cos) && unit_fraction(sin) {
            Some(Rotation { cos, sin })
        } else {
            None
        }
    }

    /// The cosine of the angle.
    pub fn get_cos(&self) -> (c: Scalar)
        ensures
            c@ == self.cos(),
            is_unit_fraction(c@),
    {
        proof {
            use_type_invariant(self);
        }
        self.cos
    }

    /// The sine of the angle.
    pub fn get_sin(&self) -> (s: Scalar)
        ensures
            s@ == self.sin(),
            is_unit_fraction(s@),
    {
        proof {
            use_type_invariant(self);
        }
        self.sin
    }

    /// The rotation by no angle.
    pub fn identity() -> (r: Rotation)
        ensures
            r.cos() == SCALE,
            r.sin() == 0,
    {
        Rotation { cos: Scalar { raw: SCALE }, sin: Scalar { raw: 0 } }
    }
}

/// Raw cosine of the default slope limit, an angle of 81 degrees.
pub const DEFAULT_SLOPE_COSINE: i64 = 156_434;

/// The steepest slope a character can stand on, held as the cosine of the
/// angle between "up" and the normal of that slope.
#[derive(Clone, Copy, Debug, PartialEq, Eq, Structural)]
pub struct MaxSlopeAngle {
    pub(crate) cosine: Scalar,
}

impl MaxSlopeAngle {
    #[verifier::type_invariant]
    spec fn cosine_bounded(self) -> bool {
        is_unit_fraction(self.cosine@)
    }

    /// Raw cosine of the limit angle.
    pub closed spec fn cosine(self) -> int {
        self.cosine@
    }

    /// The limit whose angle has the given cosine, if that lies in `[-1, 1]`.
    pub fn from_cosine(cosine: Scalar) -> (m: Option<MaxSlopeAngle>)
        ensures
            m is Some <==> is_unit_fraction(cosine@),
            m matches Some(v) ==> v.cosine() == cosine@,
    {
        if unit_fraction(cosine) {
            Some(MaxSlopeAngle { cosine })
        } else {
            None
        }
    }

    /// The cosine of the limit angle.
    pub fn get_cosine(&self) -> (c: Scalar)
        ensures
            c@ == self.cosine(),
            is_unit_fraction(c@),
    {
        proof {
            use_type_invariant(self);
        }
        self.cosine
    }
}

impl Default for MaxSlopeAngle {
    /// A limit of 81 degrees.
    fn default() -> (m: MaxSlopeAngle)
        ensures
            m.cosine() == DEFAULT_SLOPE_COSINE,
    {
        MaxSlopeAngle { cosine: Scalar { raw: DEFAULT_SLOPE_COSINE } }
    }
}

/// The normal of the ground under a character, as the world sees it: the
/// contact normal negated, so that it points from the ground into the
/// character, and turned by the character's rotation. Both components are
/// in units of `SCALE * SCALE` to the whole.
pub open spec fn ground_normal(rotation: Rotation, normal: Normal) -> (int, int) {
    (
        rotation.cos() * (-normal.x()) - rotation.sin() * (-normal.y()),
        rotation.sin() * (-normal.x()) + rotation.cos() * (-normal.y()),
    )
}

/// Whether the direction `g` deviates from "up" by no more than the angle
/// whose cosine is `cosine / SCALE`.
///
/// The two angles are compared by their cosines: that of the deviation is
/// `g.1 / |g|`. Squares stand in for the length, with the signs looked at
/// first. The zero vector has no direction and is never within a limit.
pub open spec fn within_slope(g: (int, int), cosine: int) -> bool {
    let len2 = g.0 * g.0 + g.1 * g.1;
    let up2 = g.1 * g.1 * (SCALE * SCALE);
    let lim2 = cosine * cosine * len2;
    &&& len2 > 0
    &&& if cosine >= 0 {
        g.1 >= 0 && up2 >= lim2
    } else {
        g.1 >= 0 || up2 <= lim2
    }
}

/// Whether a contact with this normal is ground the character can stand
/// on. Without a limit every contact is.
pub open spec fn is_walkable(rotation: Rotation, normal: Normal, limit: Option<MaxSlopeAngle>) -> bool {
    match limit {
        Some(angle) => within_slope(ground_normal(rotation, normal), angle.cosine()),
        None => true,
    }
}

/// Decides [`is_walkable`].
pub fn walkable(rotation: &Rotation, normal: &Normal, limit: Option<MaxSlopeAngle>) -> (b: bool)
    ensures
        b == is_walkable(*rotation, *normal, limit),
{
    match limit {
        None => true,
        Some(angle) => {
            proof {
                use_type_invariant(rotation);
                use_type_invariant(normal);
                use_type_invariant(&angle);
            }
            let c: i128 = rotation.cos.raw as i128;
            let s: i128 = rotation.sin.raw as i128;
            let nx: i128 = -(normal.x.raw as i128);
            let ny: i128 = -(normal.y.raw as i128);
            let k: i128 = angle.cosine.raw as i128;
            proof {
                lemma_product_bounds(c as int, nx as int, 1_000_000);
                lemma_product_bounds(s as int, ny as int, 1_000_000);
                lemma_product_bounds(s as int, nx as int, 1_000_000);
                lemma_product_bounds(c as int, ny as int, 1_000_000);
            }
            let gx: i128 = c * nx - s * ny;
            let gy: i128 = s * nx + c * ny;
            proof {
                lemma_square_bounds(gx as int, 2_000_000_000_000);
                lemma_square_bounds(gy as int, 2_000_000_000_000);
                lemma_square_bounds(k as int, 1_000_000);
            }
            let gx2: i128 = gx * gx;
            let gy2: i128 = gy * gy;
            let len2: i128 = gx2 + gy2;
            let k2: i128 = k * k;
            proof {
                lemma_product_bounds_nonneg(
                    gy2 as int,
                    1_000_000_000_000,
                    4_000_000_000_000_000_000_000_000,
                    1_000_000_000_000,
                );
                lemma_product_bounds_nonneg(
                    k2 as int,
                    len2 as int,
                    1_000_000_000_000,
                    8_000_000_000_000_000_000_000_000,
                );
            }
            let up2: i128 = gy2 * 1_000_000_000_000;
            let lim2: i128 = k2 * len2;
            assert(up2 == gy * gy * (SCALE * SCALE));
            assert(lim2 == k * k * len2);
            if len2 <= 0 {
                false
            } else if k >= 0 {
                gy >= 0 && up2 >= lim2
            } else {
                gy >= 0 || up2 <= lim2
            }
        },
    }
}

/// A wider limit admits whatever a narrower one admits: the test is
/// monotonic in the limit angle, whose cosine falls as the angle grows.
pub proof fn lemma_wider_limit_admits_more(g: (int, int), narrow: int, wide: int)
    requires
        wide <= narrow,
        within_slope(g, narrow),
    ensures
        within_slope(g, wide),
{
    let len2 = g.0 * g.0 + g.1 * g.1;
    let up2 = g.1 * g.1 * (SCALE * SCALE);
    if wide >= 0 {
        assert(wide * wide * len2 <= narrow * narrow * len2) by (nonlinear_arith)
            requires
                0 <= wide <= narrow,
                len2 > 0,
        {}
    } else if narrow < 0 {
        assert(narrow * narrow * len2 <= wide * wide * len2) by (nonlinear_arith)
            requires
                wide <= narrow < 0,
                len2 > 0,
        {}
    }
}

/// Only the direction of a vector counts, not its length: a positive
/// multiple of a vector is within a limit exactly if the vector is.
pub proof fn lemma_slope_test_ignores_length(g: (int, int), factor: int, cosine: int)
    requires
        factor > 0,
    ensures
        within_slope((factor * g.0, factor * g.1), cosine) == within_slope(g, cosine),
{
    let f2 = factor * factor;
    let len2 = g.0 * g.0 + g.1 * g.1;
    let up2 = g.1 * g.1 * (SCALE * SCALE);
    let lim2 = cosine * cosine * len2;
    let h = (factor * g.0, factor * g.1);
    let hlen2 = h.0 * h.0 + h.1 * h.1;
    let hup2 = h.1 * h.1 * (SCALE * SCALE);
    let hlim2 = cosine * cosine * hlen2;
    assert(f2 > 0) by (nonlinear_arith)
        requires
            f2 == factor * factor,
            factor > 0,
    {}
    assert(hlen2 == f2 * len2) by (nonlinear_arith)
        requires
            hlen2 == (factor * g.0) * (factor * g.0) + (factor * g.1) * (factor * g.1),
            len2 == g.0 * g.0 + g.1 * g.1,
            f2 == factor * factor,
    {}
    assert(hup2 == f2 * up2) by (nonlinear_arith)
        requires
            hup2 == (factor * g.1) * (factor * g.1) * (SCALE * SCALE),
            up2 == g.1 * g.1 * (SCALE * SCALE),
            f2 == factor * factor,
    {}
    assert(hlim2 == f2 * lim2) by (nonlinear_arith)
        requires
            hlim2 == cosine * cosine * hlen2,
            lim2 == cosine * cosine * len2,
            hlen2 == f2 * len2,
    {}
    assert((hlen2 > 0) == (len2 > 0) && (hup2 >= hlim2) == (up2 >= lim2) && (hup2 <= hlim2) == (up2
        <= lim2)) by (nonlinear_arith)
        requires
            f2 > 0,
            hlen2 == f2 * len2,
            hup2 == f2 * up2,
            hlim2 == f2 * lim2,
    {}
    assert((h.1 >= 0) == (g.1 >= 0)) by (nonlinear_arith)
        requires
            h.1 == factor * g.1,
            factor > 0,
    {}
}

/// Straight up is within every limit, and straight down within none but
/// that of a half turn.
pub proof fn lemma_up_and_down(length: int, cosine: int)
    requires
        length > 0,
        is_unit_fraction(cosine),
    ensures
        within_slope((0, length), cosine),
        within_slope((0, -length), cosine) <==> cosine == -SCALE,
{
    let l2 = length * length;
    assert(l2 > 0) by (nonlinear_arith)
        requires
            l2 == length * length,
            length > 0,
    {}
    assert((-length) * (-length) == l2) by (nonlinear_arith)
        requires
            l2 == length * length,
    {}
    assert(0int * 0int == 0);
    let c2 = cosine * cosine;
    let s2 = SCALE * SCALE;
    assert(c2 <= s2 && (c2 == s2 <==> (cosine == SCALE || cosine == -SCALE))) by (nonlinear_arith)
        requires
            c2 == cosine * cosine,
            s2 == SCALE * SCALE,
            -SCALE <= cosine <= SCALE,
            SCALE == 1_000_000,
    {}
    assert(c2 * l2 <= l2 * s2 && (c2 * l2 == l2 * s2 <==> c2 == s2)) by (nonlinear_arith)
        requires
            c2 <= s2,
            l2 > 0,
    {}
    assert(cosine * cosine * (0 + l2) == c2 * l2);
    assert(l2 * (SCALE * SCALE) == l2 * s2);
}

/// A product of two numbers no larger than `m` in magnitude is no larger
/// than `m * m` in magnitude.
proof fn lemma_product_bounds(a: int, b: int, m: int)
    by (nonlinear_arith)
    requires
        -m <= a <= m,
        -m <= b <= m,
    ensures
        -(m * m) <= a * b <= m * m,
        m * m >= 0,
{
}

/// A square is not negative, and no larger than the square of a bound on
/// the magnitude.
proof fn lemma_square_bounds(a: int, m: int)
    by (nonlinear_arith)
    requires
        -m <= a <= m,
    ensures
        0 <= a * a <= m * m,
{
}

/// A product of two bounded numbers that are not negative is bounded by
/// the product of the bounds.
proof fn lemma_product_bounds_nonneg(a: int, b: int, m: int, n: int)
    by (nonlinear_arith)
    requires
        0 <= a <= m,
        0 <= b <= n,
    ensures
        0 <= a * b <= m * n,
{
}

} // verus!
