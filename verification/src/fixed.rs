//! Fixed-point decimal numbers.
//!
//! Every numeric quantity in the document model (slot defaults, transforms,
//! coordinates, colour channels) is a [`Fixed`]: a signed count of millionths.
//! Arithmetic is exact integer arithmetic; products are truncated toward zero
//! and all operations saturate at the representable range instead of wrapping.

use vstd::prelude::*;

verus! {

/// Number of micro-units in one whole unit.
pub const FIXED_SCALE: i64 = 1_000_000;

/// A fixed-point decimal number: `micros` millionths of a unit.
#[derive(Debug, Clone, Copy, PartialEq, Eq, Structural, Hash)]
pub struct Fixed {
    pub micros: i64,
}

/// Clamp a mathematical integer into the range of `i64`.
pub open spec fn sat_i64(x: int) -> int {
    if x > i64::MAX as int {
        i64::MAX as int
    } else if x < i64::MIN as int {
        i64::MIN as int
    } else {
        x
    }
}

/// Product of two fixed-point numbers in micro-units: the exact product is
/// rescaled by one million, truncated toward zero, then saturated.
pub open spec fn fixed_mul_spec(a: int, b: int) -> int {
    let p = a * b;
    let q = if p >= 0 {
        p / (FIXED_SCALE as int)
    } else {
        -((-p) / (FIXED_SCALE as int))
    };
    sat_i64(q)
}

impl Fixed {
    /// The value as a count of millionths.
    pub open spec fn as_micros(self) -> int {
        self.micros as int
    }

    /// Saturating addition, at the specification level.
    pub open spec fn add_spec(self, other: Self) -> Self {
        Fixed { micros: sat_i64(self.micros + other.micros) as i64 }
    }

    /// Saturating subtraction, at the specification level.
    pub open spec fn sub_spec(self, other: Self) -> Self {
        Fixed { micros: sat_i64(self.micros - other.micros) as i64 }
    }

    /// Saturating truncated product, at the specification level.
    pub open spec fn mul_spec(self, other: Self) -> Self {
        Fixed { micros: fixed_mul_spec(self.micros as int, other.micros as int) as i64 }
    }

    pub fn zero() -> (r: Self)
        ensures
            r.micros == 0,
    {
        Fixed { micros: 0 }
    }

    pub fn one() -> (r: Self)
        ensures
            r.micros == FIXED_SCALE,
    {
        Fixed { micros: FIXED_SCALE }
    }

    pub fn from_micros(m: i64) -> (r: Self)
        ensures
            r.micros == m,
    {
        Fixed { micros: m }
    }

    /// The whole number `i` as a fixed-point value.
    pub fn from_int(i: i32) -> (r: Self)
        ensures
            r.micros == i * FIXED_SCALE,
    {
        Fixed { micros: (i as i64) * FIXED_SCALE }
    }

    pub fn is_zero(self) -> (r: bool)
        ensures
            r == (self.micros == 0),
    {
        self.micros == 0
    }

    /// Saturating addition.
    pub fn add(self, other: Self) -> (r: Self)
        ensures
            r.micros == sat_i64(self.micros + other.micros),
            r == self.add_spec(other),
    {
        match self.micros.checked_add(other.micros) {
            Some(v) => Fixed { micros: v },
            None => if self.micros > 0 {
                Fixed { micros: i64::MAX }
            } else {
                Fixed { micros: i64::MIN }
            },
        }
    }

    /// Saturating subtraction.
    pub fn sub(self, other: Self) -> (r: Self)
        ensures
            r.micros == sat_i64(self.micros - other.micros),
            r == self.sub_spec(other),
    {
        match self.micros.checked_sub(other.micros) {
            Some(v) => Fixed { micros: v },
            None => if self.micros >= 0 {
                Fixed { micros: i64::MAX }
            } else {
                Fixed { micros: i64::MIN }
            },
        }
    }

    /// Saturating negation.
    pub fn neg(self) -> (r: Self)
        ensures
            r.micros == sat_i64(-self.micros),
    {
        if self.micros == i64::MIN {
            Fixed { micros: i64::MAX }
        } else {
            Fixed { micros: -self.micros }
        }
    }

    /// Saturating product, truncated toward zero.
    pub fn mul(self, other: Self) -> (r: Self)
        ensures
            r.micros == fixed_mul_spec(self.micros as int, other.micros as int),
            r == self.mul_spec(other),
    {
        let negative: bool = (self.micros < 0) != (other.micros < 0);
        let ma: u64 = abs_u64(self.micros);
        let mb: u64 = abs_u64(other.micros);
        proof {
            assert((ma as int) * (mb as int) <= u128::MAX as int) by (nonlinear_arith)
                requires
                    ma <= u64::MAX && mb <= u64::MAX,
            ;
        }
        let mag: u128 = (ma as u128) * (mb as u128) / (FIXED_SCALE as u128);
        proof {
            lemma_mul_abs(self.micros as int, other.micros as int);
            let a = self.micros as int;
            let b = other.micros as int;
            let p = a * b;
            assert(a == 0 ==> a * b == 0) by (nonlinear_arith);
            assert(b == 0 ==> a * b == 0) by (nonlinear_arith);
            let absp: int = if p >= 0 {
                p
            } else {
                -p
            };
            assert(mag == absp / 1000000);
            if p >= 0 {
                assert(fixed_mul_spec(a, b) == sat_i64(absp / 1000000));
            } else {
                assert(fixed_mul_spec(a, b) == sat_i64(-(absp / 1000000)));
            }
        }
        if negative {
            if mag >= 9223372036854775808u128 {
                Fixed { micros: i64::MIN }
            } else {
                Fixed { micros: -(mag as i64) }
            }
        } else {
            if mag > i64::MAX as u128 {
                Fixed { micros: i64::MAX }
            } else {
                Fixed { micros: mag as i64 }
            }
        }
    }

    /// The smaller operand; on ties the left operand.
    pub fn min(self, other: Self) -> (r: Self)
        ensures
            r.micros == if self.micros <= other.micros {
                self.micros
            } else {
                other.micros
            },
    {
        if self.micros <= other.micros {
            self
        } else {
            other
        }
    }

    /// The larger operand; on ties the left operand.
    pub fn max(self, other: Self) -> (r: Self)
        ensures
            r.micros == if self.micros >= other.micros {
                self.micros
            } else {
                other.micros
            },
    {
        if self.micros >= other.micros {
            self
        } else {
            other
        }
    }
}

/// Magnitude of a signed 64-bit value, as an unsigned value.
pub fn abs_u64(x: i64) -> (r: u64)
    ensures
        r == if x >= 0 {
            x as int
        } else {
            -(x as int)
        },
{
    if x >= 0 {
        x as u64
    } else if x == i64::MIN {
        9223372036854775808u64
    } else {
        (-x) as u64
    }
}

/// The magnitude of a product is the product of the magnitudes.
proof fn lemma_mul_abs(a: int, b: int)
    ensures
        (a >= 0 && b >= 0) ==> a * b >= 0,
        (a >= 0 && b < 0) ==> a * b <= 0,
        (a < 0 && b >= 0) ==> a * b <= 0,
        (a < 0 && b < 0) ==> a * b >= 0,
        (if a * b >= 0 {
            a * b
        } else {
            -(a * b)
        }) == (if a >= 0 {
            a
        } else {
            -a
        }) * (if b >= 0 {
            b
        } else {
            -b
        }),
{
    if a >= 0 && b >= 0 {
        assert(a * b >= 0) by (nonlinear_arith)
            requires
                a >= 0 && b >= 0,
        ;
    } else if a >= 0 && b < 0 {
        assert(a * b <= 0 && -(a * b) == a * (-b)) by (nonlinear_arith)
            requires
                a >= 0 && b < 0,
        ;
    } else if a < 0 && b >= 0 {
        assert(a * b <= 0 && -(a * b) == (-a) * b) by (nonlinear_arith)
            requires
                a < 0 && b >= 0,
        ;
    } else {
        assert(a * b >= 0 && a * b == (-a) * (-b)) by (nonlinear_arith)
            requires
                a < 0 && b < 0,
        ;
    }
}

} // verus!
