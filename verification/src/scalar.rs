//! Decimal fixed-point scalars with the three non-finite values.
//!
//! Every quantity of the procedure (a level in dB, a frequency in Hz, a
//! noisiness in noy) is a [`Scalar`]. Arithmetic is exact up to one rounding
//! per multiplication or division, and total: there is no input on which an
//! operation is undefined.
use vstd::prelude::*;

verus! {

/// Number of quanta in one unit: the finite scalar `Finite(n)` stands for `n / SCALE`.
pub const SCALE: i64 = 1_000_000_000;

/// A real quantity, or one of the three values that are not real numbers.
///
/// `Finite(n)` is the decimal number `n / SCALE`. `Nan` marks what is not a
/// number (an unset band, an undefined result); `PosInf` and `NegInf` are the
/// two infinities. A finite result too large for `i64` becomes the infinity of
/// its sign. The derived `==` is structural: `Nan == Nan` holds, unlike the
/// ordering predicates [`Scalar::lt`] and its kin, which are all false on `Nan`.
#[derive(Clone, Copy, Debug, PartialEq, Eq, Structural)]
pub enum Scalar {
    Nan,
    NegInf,
    Finite(i64),
    PosInf,
}

/// Absolute value of an integer.
#[verifier::inline]
pub open spec fn magnitude(v: int) -> int {
    if v < 0 {
        -v
    } else {
        v
    }
}

/// The quotient `n / d` rounded to the nearest integer, ties away from zero.
#[verifier::inline]
pub open spec fn round_div(n: int, d: int) -> int
    recommends
        d != 0,
{
    let q = (2 * magnitude(n) + magnitude(d)) / (2 * magnitude(d));
    if (n < 0) != (d < 0) {
        -q
    } else {
        q
    }
}

/// [`round_div`] gives an integer nearest to the exact quotient: it is off
/// by half the divisor at most.
pub proof fn lemma_round_div_is_nearest(n: int, d: int)
    requires
        d != 0,
    ensures
        2 * magnitude(n - round_div(n, d) * d) <= magnitude(d),
{
    let a = magnitude(n);
    let b = magnitude(d);
    let q = (2 * a + b) / (2 * b);
    let r = (2 * a + b) % (2 * b);
    assert(2 * a + b == (2 * b) * q + r && 0 <= r < 2 * b) by (nonlinear_arith)
        requires
            b > 0,
            q == (2 * a + b) / (2 * b),
            r == (2 * a + b) % (2 * b),
    ;
    assert(magnitude(n - round_div(n, d) * d) == magnitude(a - q * b)) by (nonlinear_arith)
        requires
            a == magnitude(n),
            b == magnitude(d),
            d != 0,
            round_div(n, d) == (if (n < 0) != (d < 0) {
                -q
            } else {
                q
            }),
    ;
    assert(2 * (a - q * b) == r - b) by (nonlinear_arith)
        requires
            2 * a + b == (2 * b) * q + r,
    ;
}

/// The magnitude and the sign of a product are those of its factors.
proof fn lemma_product_magnitude(a: int, b: int)
    ensures
        magnitude(a * b) == magnitude(a) * magnitude(b),
        (a * b < 0) <==> ((a < 0) != (b < 0) && a != 0 && b != 0),
        a * b == 0 <==> (a == 0 || b == 0),
{
    assert(magnitude(a * b) == magnitude(a) * magnitude(b)) by (nonlinear_arith);
    assert((a * b < 0) <==> ((a < 0) != (b < 0) && a != 0 && b != 0)) by (nonlinear_arith);
    assert(a * b == 0 <==> (a == 0 || b == 0)) by (nonlinear_arith);
}

/// Absolute value, in a type wide enough for that of `i64::MIN`.
fn magnitude_of(v: i64) -> (m: u128)
    ensures
        m == magnitude(v as int),
        m <= 0x8000_0000_0000_0000,
{
    if v < 0 {
        (-(v as i128)) as u128
    } else {
        v as u128
    }
}

impl Scalar {
    /// The scalar for the exact count of quanta `v`: `Finite(v)` where `v`
    /// fits, else the infinity of its sign.
    pub open spec fn saturate(v: int) -> Scalar {
        if v > i64::MAX {
            Scalar::PosInf
        } else if v < i64::MIN {
            Scalar::NegInf
        } else {
            Scalar::Finite(v as i64)
        }
    }

    /// The whole number `n`.
    pub open spec fn from_int_spec(n: int) -> Scalar {
        Scalar::saturate(n * 1_000_000_000)
    }

    /// Whether the scalar is `Nan`.
    pub open spec fn is_nan_spec(self) -> bool {
        self is Nan
    }

    /// Whether the scalar is a real number: neither `Nan` nor an infinity.
    pub open spec fn is_finite_spec(self) -> bool {
        self is Finite
    }

    /// Position on the extended number line, in quanta: the infinities lie
    /// one quantum beyond the finite range. Meaningless for `Nan`.
    pub open spec fn key(self) -> int {
        match self {
            Scalar::Nan => 0,
            Scalar::NegInf => i64::MIN - 1,
            Scalar::Finite(v) => v as int,
            Scalar::PosInf => i64::MAX + 1,
        }
    }

    /// -1, 0 or 1 as the scalar is negative, zero or positive; 0 for `Nan`.
    pub open spec fn sign(self) -> int {
        match self {
            Scalar::Nan => 0,
            Scalar::NegInf => -1,
            Scalar::Finite(v) => if v < 0 {
                -1
            } else if v == 0 {
                0
            } else {
                1
            },
            Scalar::PosInf => 1,
        }
    }

    /// The infinity of the given sign; `Nan` for sign 0.
    pub open spec fn infinity(sign: int) -> Scalar {
        if sign > 0 {
            Scalar::PosInf
        } else if sign < 0 {
            Scalar::NegInf
        } else {
            Scalar::Nan
        }
    }

    /// `self < rhs` on the extended number line; false where either is `Nan`.
    pub open spec fn lt_spec(self, rhs: Scalar) -> bool {
        !(self is Nan) && !(rhs is Nan) && self.key() < rhs.key()
    }

    /// `self <= rhs` on the extended number line; false where either is `Nan`.
    pub open spec fn le_spec(self, rhs: Scalar) -> bool {
        !(self is Nan) && !(rhs is Nan) && self.key() <= rhs.key()
    }

    /// `self > rhs` on the extended number line; false where either is `Nan`.
    pub open spec fn gt_spec(self, rhs: Scalar) -> bool {
        rhs.lt_spec(self)
    }

    /// `self >= rhs` on the extended number line; false where either is `Nan`.
    pub open spec fn ge_spec(self, rhs: Scalar) -> bool {
        rhs.le_spec(self)
    }

    /// The larger of two scalars; a `Nan` operand is ignored, so the result
    /// is `Nan` only where both are.
    pub open spec fn max_spec(self, rhs: Scalar) -> Scalar {
        if self is Nan {
            rhs
        } else if rhs is Nan {
            self
        } else if self.key() >= rhs.key() {
            self
        } else {
            rhs
        }
    }

    /// Absolute value: `PosInf` for either infinity, `Nan` for `Nan`.
    pub open spec fn abs_spec(self) -> Scalar {
        match self {
            Scalar::Nan => Scalar::Nan,
            Scalar::NegInf => Scalar::PosInf,
            Scalar::Finite(v) => Scalar::saturate(magnitude(v as int)),
            Scalar::PosInf => Scalar::PosInf,
        }
    }

    /// Sum. `Nan` is contagious, and so is the sum of the two opposite infinities.
    pub open spec fn add_spec(self, rhs: Scalar) -> Scalar {
        match (self, rhs) {
            (Scalar::Nan, _) | (_, Scalar::Nan) => Scalar::Nan,
            (Scalar::PosInf, Scalar::NegInf) | (Scalar::NegInf, Scalar::PosInf) => Scalar::Nan,
            (Scalar::PosInf, _) | (_, Scalar::PosInf) => Scalar::PosInf,
            (Scalar::NegInf, _) | (_, Scalar::NegInf) => Scalar::NegInf,
            (Scalar::Finite(a), Scalar::Finite(b)) => Scalar::saturate(a + b),
        }
    }

    /// Difference. `Nan` is contagious, and so is the difference of two equal infinities.
    pub open spec fn sub_spec(self, rhs: Scalar) -> Scalar {
        match (self, rhs) {
            (Scalar::Nan, _) | (_, Scalar::Nan) => Scalar::Nan,
            (Scalar::PosInf, Scalar::PosInf) | (Scalar::NegInf, Scalar::NegInf) => Scalar::Nan,
            (Scalar::PosInf, _) | (_, Scalar::NegInf) => Scalar::PosInf,
            (Scalar::NegInf, _) | (_, Scalar::PosInf) => Scalar::NegInf,
            (Scalar::Finite(a), Scalar::Finite(b)) => Scalar::saturate(a - b),
        }
    }

    /// Product, rounded to the nearest quantum. An infinity times zero is `Nan`.
    #[verifier::inline]
    pub open spec fn mul_spec(self, rhs: Scalar) -> Scalar {
        match (self, rhs) {
            (Scalar::Nan, _) | (_, Scalar::Nan) => Scalar::Nan,
            (Scalar::Finite(a), Scalar::Finite(b)) => Scalar::saturate(
                round_div(a * b, 1_000_000_000),
            ),
            _ => Scalar::infinity(self.sign() * rhs.sign()),
        }
    }

    /// Quotient by the whole number `divisor`, rounded to the nearest quantum.
    /// Zero by zero is `Nan`; any other division by zero is the infinity of
    /// the dividend's sign.
    #[verifier::inline]
    pub open spec fn div_int_spec(self, divisor: int) -> Scalar {
        match self {
            Scalar::Nan => Scalar::Nan,
            Scalar::Finite(a) => if divisor == 0 {
                Scalar::infinity(self.sign())
            } else {
                Scalar::saturate(round_div(a as int, divisor))
            },
            _ => Scalar::infinity(
                if divisor < 0 {
                    -self.sign()
                } else {
                    self.sign()
                },
            ),
        }
    }

    fn from_wide(v: i128) -> (r: Scalar)
        ensures
            r == Scalar::saturate(v as int),
    {
        if v > i64::MAX as i128 {
            Scalar::PosInf
        } else if v < i64::MIN as i128 {
            Scalar::NegInf
        } else {
            Scalar::Finite(v as i64)
        }
    }

    fn from_sign_magnitude(negative: bool, m: u128) -> (r: Scalar)
        ensures
            r == Scalar::saturate(
                if negative {
                    -(m as int)
                } else {
                    m as int
                },
            ),
    {
        if negative {
            if m > 0x8000_0000_0000_0000 {
                Scalar::NegInf
            } else {
                Scalar::Finite((-(m as i128)) as i64)
            }
        } else {
            if m > 0x7fff_ffff_ffff_ffff {
                Scalar::PosInf
            } else {
                Scalar::Finite(m as i64)
            }
        }
    }

    fn infinity_of(negative: bool) -> (r: Scalar)
        ensures
            r == Scalar::infinity(
                if negative {
                    -1
                } else {
                    1
                },
            ),
    {
        if negative {
            Scalar::NegInf
        } else {
            Scalar::PosInf
        }
    }

    fn key_of(self) -> (k: i128)
        ensures
            k == self.key(),
    {
        match self {
            Scalar::Nan => 0,
            Scalar::NegInf => i64::MIN as i128 - 1,
            Scalar::Finite(v) => v as i128,
            Scalar::PosInf => i64::MAX as i128 + 1,
        }
    }

    /// The whole number `n`.
    pub fn from_int(n: i32) -> (r: Scalar)
        ensures
            r == Scalar::from_int_spec(n as int),
            r == Scalar::Finite((n * SCALE) as i64),
    {
        assert(i64::MIN <= n * SCALE <= i64::MAX) by (nonlinear_arith)
            requires
                i32::MIN <= n <= i32::MAX,
                SCALE == 1_000_000_000,
        ;
        Scalar::Finite(n as i64 * SCALE)
    }

    /// Whether the scalar is `Nan`.
    pub fn is_nan(self) -> (r: bool)
        ensures
            r == self.is_nan_spec(),
    {
        match self {
            Scalar::Nan => true,
            _ => false,
        }
    }

    /// Whether the scalar is a real number: neither `Nan` nor an infinity.
    pub fn is_finite(self) -> (r: bool)
        ensures
            r == self.is_finite_spec(),
    {
        match self {
            Scalar::Finite(_) => true,
            _ => false,
        }
    }

    /// `self < rhs`; false where either is `Nan`.
    pub fn lt(self, rhs: Scalar) -> (r: bool)
        ensures
            r == self.lt_spec(rhs),
    {
        !self.is_nan() && !rhs.is_nan() && self.key_of() < rhs.key_of()
    }

    /// `self <= rhs`; false where either is `Nan`.
    pub fn le(self, rhs: Scalar) -> (r: bool)
        ensures
            r == self.le_spec(rhs),
    {
        !self.is_nan() && !rhs.is_nan() && self.key_of() <= rhs.key_of()
    }

    /// `self > rhs`; false where either is `Nan`.
    pub fn gt(self, rhs: Scalar) -> (r: bool)
        ensures
            r == self.gt_spec(rhs),
    {
        rhs.lt(self)
    }

    /// `self >= rhs`; false where either is `Nan`.
    pub fn ge(self, rhs: Scalar) -> (r: bool)
        ensures
            r == self.ge_spec(rhs),
    {
        rhs.le(self)
    }

    /// The larger of the two, ignoring a `Nan` operand.
    pub fn max(self, rhs: Scalar) -> (r: Scalar)
        ensures
            r == self.max_spec(rhs),
    {
        if self.is_nan() {
            rhs
        } else if rhs.is_nan() {
            self
        } else if self.key_of() >= rhs.key_of() {
            self
        } else {
            rhs
        }
    }

    /// Absolute value.
    pub fn abs(self) -> (r: Scalar)
        ensures
            r == self.abs_spec(),
    {
        match self {
            Scalar::Nan => Scalar::Nan,
            Scalar::NegInf => Scalar::PosInf,
            Scalar::Finite(v) => Scalar::from_sign_magnitude(false, magnitude_of(v)),
            Scalar::PosInf => Scalar::PosInf,
        }
    }

    /// Sum, exact unless it leaves the finite range.
    pub fn add(self, rhs: Scalar) -> (r: Scalar)
        ensures
            r == self.add_spec(rhs),
    {
        match (self, rhs) {
            (Scalar::Nan, _) | (_, Scalar::Nan) => Scalar::Nan,
            (Scalar::PosInf, Scalar::NegInf) | (Scalar::NegInf, Scalar::PosInf) => Scalar::Nan,
            (Scalar::PosInf, _) | (_, Scalar::PosInf) => Scalar::PosInf,
            (Scalar::NegInf, _) | (_, Scalar::NegInf) => Scalar::NegInf,
            (Scalar::Finite(a), Scalar::Finite(b)) => Scalar::from_wide(a as i128 + b as i128),
        }
    }

    /// Difference, exact unless it leaves the finite range.
    pub fn sub(self, rhs: Scalar) -> (r: Scalar)
        ensures
            r == self.sub_spec(rhs),
    {
        match (self, rhs) {
            (Scalar::Nan, _) | (_, Scalar::Nan) => Scalar::Nan,
            (Scalar::PosInf, Scalar::PosInf) | (Scalar::NegInf, Scalar::NegInf) => Scalar::Nan,
            (Scalar::PosInf, _) | (_, Scalar::NegInf) => Scalar::PosInf,
            (Scalar::NegInf, _) | (_, Scalar::PosInf) => Scalar::NegInf,
            (Scalar::Finite(a), Scalar::Finite(b)) => Scalar::from_wide(a as i128 - b as i128),
        }
    }

    /// Product, rounded to the nearest quantum, ties away from zero.
    pub fn mul(self, rhs: Scalar) -> (r: Scalar)
        ensures
            r == self.mul_spec(rhs),
    {
        match (self, rhs) {
            (Scalar::Nan, _) | (_, Scalar::Nan) => Scalar::Nan,
            (Scalar::Finite(a), Scalar::Finite(b)) => {
                let negative = (a < 0) != (b < 0);
                let ma: u128 = magnitude_of(a);
                let mb: u128 = magnitude_of(b);
                proof {
                    lemma_product_magnitude(a as int, b as int);
                    assert(ma * mb <= 0x8000_0000_0000_0000 * 0x8000_0000_0000_0000)
                        by (nonlinear_arith)
                        requires
                            ma <= 0x8000_0000_0000_0000,
                            mb <= 0x8000_0000_0000_0000,
                    ;
                }
                let m: u128 = ma * mb;
                let q: u128 = (2 * m + 1_000_000_000) / 2_000_000_000;
                Scalar::from_sign_magnitude(negative, q)
            },
            (Scalar::Finite(a), _) => if a == 0 {
                Scalar::Nan
            } else {
                Scalar::infinity_of((a < 0) != matches!(rhs, Scalar::NegInf))
            },
            (_, Scalar::Finite(b)) => if b == 0 {
                Scalar::Nan
            } else {
                Scalar::infinity_of((b < 0) != matches!(self, Scalar::NegInf))
            },
            _ => Scalar::infinity_of(
                matches!(self, Scalar::NegInf) != matches!(rhs, Scalar::NegInf),
            ),
        }
    }

    /// Quotient by a whole number, rounded to the nearest quantum, ties away
    /// from zero.
    pub fn div_int(self, divisor: i64) -> (r: Scalar)
        ensures
            r == self.div_int_spec(divisor as int),
    {
        match self {
            Scalar::Nan => Scalar::Nan,
            Scalar::Finite(a) => {
                if divisor == 0 {
                    if a == 0 {
                        Scalar::Nan
                    } else {
                        Scalar::infinity_of(a < 0)
                    }
                } else {
                    let negative = (a < 0) != (divisor < 0);
                    let n: u128 = magnitude_of(a);
                    let d: u128 = magnitude_of(divisor);
                    let q: u128 = (2 * n + d) / (2 * d);
                    Scalar::from_sign_magnitude(negative, q)
                }
            },
            _ => Scalar::infinity_of((divisor < 0) != matches!(self, Scalar::NegInf)),
        }
    }
}

} // verus!
