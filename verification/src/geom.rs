//! Plane geometry over fixed-point coordinates: points, affine transforms,
//! axis-aligned rectangles, and bounding-box accumulation.

use vstd::prelude::*;
use crate::fixed::Fixed;

verus! {

/// A point or direction in the plane.
#[derive(Debug, Clone, Copy, PartialEq, Eq, Structural, Hash)]
pub struct Vec2F {
    pub x: Fixed,
    pub y: Fixed,
}

impl Vec2F {
    pub fn new(x: Fixed, y: Fixed) -> (r: Self)
        ensures
            r.x == x && r.y == y,
    {
        Vec2F { x, y }
    }

    pub fn zero() -> (r: Self)
        ensures
            r.x.micros == 0 && r.y.micros == 0,
    {
        Vec2F { x: Fixed::zero(), y: Fixed::zero() }
    }

    pub fn one() -> (r: Self)
        ensures
            r.x.micros == crate::fixed::FIXED_SCALE && r.y.micros == crate::fixed::FIXED_SCALE,
    {
        Vec2F { x: Fixed::one(), y: Fixed::one() }
    }
}

/// A point with integer coordinates (artboard locations and dimensions).
#[derive(Debug, Clone, Copy, PartialEq, Eq, Structural, Hash)]
pub struct IVec2 {
    pub x: i32,
    pub y: i32,
}

impl IVec2 {
    pub fn new(x: i32, y: i32) -> (r: Self)
        ensures
            r.x == x && r.y == y,
    {
        IVec2 { x, y }
    }

    pub fn zero() -> (r: Self)
        ensures
            r.x == 0 && r.y == 0,
    {
        IVec2 { x: 0, y: 0 }
    }

    /// The point with both coordinates as fixed-point values.
    pub fn as_vec2f(self) -> (r: Vec2F)
        ensures
            r.x.micros == self.x * crate::fixed::FIXED_SCALE,
            r.y.micros == self.y * crate::fixed::FIXED_SCALE,
    {
        Vec2F { x: Fixed::from_int(self.x), y: Fixed::from_int(self.y) }
    }
}

/// An affine transform of the plane.
///
/// The linear part has columns `(a, b)` and `(c, d)`; `(e, f)` is the
/// translation. A point `(x, y)` maps to `(a x + c y + e, b x + d y + f)`.
#[derive(Debug, Clone, Copy, PartialEq, Eq, Structural, Hash)]
pub struct Affine {
    pub a: Fixed,
    pub b: Fixed,
    pub c: Fixed,
    pub d: Fixed,
    pub e: Fixed,
    pub f: Fixed,
}

impl Affine {
    /// Whether the linear part is exactly zero (a degenerate transform that
    /// collapses the whole plane onto one point).
    pub open spec fn linear_is_zero(self) -> bool {
        self.a.micros == 0 && self.b.micros == 0 && self.c.micros == 0 && self.d.micros == 0
    }

    pub fn identity() -> (r: Self)
        ensures
            r.a.micros == crate::fixed::FIXED_SCALE,
            r.b.micros == 0,
            r.c.micros == 0,
            r.d.micros == crate::fixed::FIXED_SCALE,
            r.e.micros == 0,
            r.f.micros == 0,
            !r.linear_is_zero(),
    {
        Affine {
            a: Fixed::one(),
            b: Fixed::zero(),
            c: Fixed::zero(),
            d: Fixed::one(),
            e: Fixed::zero(),
            f: Fixed::zero(),
        }
    }

    pub fn from_translation(t: Vec2F) -> (r: Self)
        ensures
            r.e == t.x && r.f == t.y,
            !r.linear_is_zero(),
    {
        Affine { a: Fixed::one(), b: Fixed::zero(), c: Fixed::zero(), d: Fixed::one(), e: t.x, f: t.y }
    }

    /// Whether the linear part is zero, as an executable test.
    pub fn linear_zero(self) -> (r: bool)
        ensures
            r == self.linear_is_zero(),
    {
        self.a.is_zero() && self.b.is_zero() && self.c.is_zero() && self.d.is_zero()
    }

    /// Composition of `self` after `other`, at the specification level.
    pub open spec fn compose_spec(self, other: Self) -> Self {
        Affine {
            a: self.a.mul_spec(other.a).add_spec(self.c.mul_spec(other.b)),
            b: self.b.mul_spec(other.a).add_spec(self.d.mul_spec(other.b)),
            c: self.a.mul_spec(other.c).add_spec(self.c.mul_spec(other.d)),
            d: self.b.mul_spec(other.c).add_spec(self.d.mul_spec(other.d)),
            e: self.a.mul_spec(other.e).add_spec(self.c.mul_spec(other.f)).add_spec(self.e),
            f: self.b.mul_spec(other.e).add_spec(self.d.mul_spec(other.f)).add_spec(self.f),
        }
    }

    /// Composition: the result applies `other` first, then `self`.
    ///
    /// A zero linear part of `self` forces a zero linear part of the result,
    /// since every product then has a zero factor.
    pub fn compose(self, other: Self) -> (r: Self)
        ensures
            r == self.compose_spec(other),
            self.linear_is_zero() ==> r.linear_is_zero(),
    {
        let r = Affine {
            a: self.a.mul(other.a).add(self.c.mul(other.b)),
            b: self.b.mul(other.a).add(self.d.mul(other.b)),
            c: self.a.mul(other.c).add(self.c.mul(other.d)),
            d: self.b.mul(other.c).add(self.d.mul(other.d)),
            e: self.a.mul(other.e).add(self.c.mul(other.f)).add(self.e),
            f: self.b.mul(other.e).add(self.d.mul(other.f)).add(self.f),
        };
        r
    }

    /// Image of the point `p` under the transform.
    pub fn transform_point(self, p: Vec2F) -> (r: Vec2F)
        ensures
            r == transform_point_spec(self, p),
    {
        Vec2F {
            x: self.a.mul(p.x).add(self.c.mul(p.y)).add(self.e),
            y: self.b.mul(p.x).add(self.d.mul(p.y)).add(self.f),
        }
    }

    /// The six components in column order, as for a markup `matrix(..)` value.
    pub fn components(self) -> (r: [Fixed; 6])
        ensures
            r@ =~= seq![self.a, self.b, self.c, self.d, self.e, self.f],
    {
        [self.a, self.b, self.c, self.d, self.e, self.f]
    }
}

/// The smaller of two fixed-point values.
pub open spec fn fmin(a: Fixed, b: Fixed) -> Fixed {
    if a.micros <= b.micros {
        a
    } else {
        b
    }
}

/// The larger of two fixed-point values.
pub open spec fn fmax(a: Fixed, b: Fixed) -> Fixed {
    if a.micros >= b.micros {
        a
    } else {
        b
    }
}

/// An axis-aligned rectangle, given by its minimum and maximum corners.
#[derive(Debug, Clone, Copy, PartialEq, Eq, Structural, Hash)]
pub struct Rect {
    pub min: Vec2F,
    pub max: Vec2F,
}

/// The smallest rectangle containing both arguments: the component-wise
/// minimum and maximum of the corners.
pub open spec fn combine_bounds_spec(p: Rect, q: Rect) -> Rect {
    Rect {
        min: Vec2F { x: fmin(p.min.x, q.min.x), y: fmin(p.min.y, q.min.y) },
        max: Vec2F { x: fmax(p.max.x, q.max.x), y: fmax(p.max.y, q.max.y) },
    }
}

/// Executable bounding-box union.
pub fn combine_bounds(p: Rect, q: Rect) -> (r: Rect)
    ensures
        r == combine_bounds_spec(p, q),
{
    Rect {
        min: Vec2F { x: p.min.x.min(q.min.x), y: p.min.y.min(q.min.y) },
        max: Vec2F { x: p.max.x.max(q.max.x), y: p.max.y.max(q.max.y) },
    }
}

/// Bounding-box union does not depend on the order of its arguments.
pub proof fn lemma_combine_bounds_commutative(p: Rect, q: Rect)
    ensures
        combine_bounds_spec(p, q) == combine_bounds_spec(q, p),
{
}

/// Bounding-box union of three rectangles does not depend on grouping.
pub proof fn lemma_combine_bounds_associative(p: Rect, q: Rect, r: Rect)
    ensures
        combine_bounds_spec(combine_bounds_spec(p, q), r) == combine_bounds_spec(
            p,
            combine_bounds_spec(q, r),
        ),
{
}

/// The axis-aligned bounding box of the images of the four corners of the
/// rectangle `[min, max]` under `transform`.
pub fn transformed_box_bounds(transform: Affine, min: Vec2F, max: Vec2F) -> (r: Rect)
    ensures
        r == transformed_box_bounds_spec(transform, min, max),
{
    let c0 = transform.transform_point(min);
    let c1 = transform.transform_point(Vec2F { x: max.x, y: min.y });
    let c2 = transform.transform_point(max);
    let c3 = transform.transform_point(Vec2F { x: min.x, y: max.y });
    Rect {
        min: Vec2F {
            x: c0.x.min(c1.x).min(c2.x).min(c3.x),
            y: c0.y.min(c1.y).min(c2.y).min(c3.y),
        },
        max: Vec2F {
            x: c0.x.max(c1.x).max(c2.x).max(c3.x),
            y: c0.y.max(c1.y).max(c2.y).max(c3.y),
        },
    }
}

/// Image of a point under a transform, at the specification level.
pub open spec fn transform_point_spec(t: Affine, p: Vec2F) -> Vec2F {
    Vec2F {
        x: t.a.mul_spec(p.x).add_spec(t.c.mul_spec(p.y)).add_spec(t.e),
        y: t.b.mul_spec(p.x).add_spec(t.d.mul_spec(p.y)).add_spec(t.f),
    }
}

/// Bounding box of the transformed corners, at the specification level.
pub open spec fn transformed_box_bounds_spec(t: Affine, min: Vec2F, max: Vec2F) -> Rect {
    let c0 = transform_point_spec(t, min);
    let c1 = transform_point_spec(t, Vec2F { x: max.x, y: min.y });
    let c2 = transform_point_spec(t, max);
    let c3 = transform_point_spec(t, Vec2F { x: min.x, y: max.y });
    Rect {
        min: Vec2F {
            x: fmin(fmin(fmin(c0.x, c1.x), c2.x), c3.x),
            y: fmin(fmin(fmin(c0.y, c1.y), c2.y), c3.y),
        },
        max: Vec2F {
            x: fmax(fmax(fmax(c0.x, c1.x), c2.x), c3.x),
            y: fmax(fmax(fmax(c0.y, c1.y), c2.y), c3.y),
        },
    }
}

} // verus!
