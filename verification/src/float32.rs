//! Single-precision numbers as bit patterns.
//!
//! The native library takes and gives single-precision numbers. Here they are
//! carried by their IEEE 754 bit patterns; the few decisions that depend on
//! them compare values exactly, as integers.

use vstd::arithmetic::power2::{
    lemma2_to64, lemma_pow2_adds, lemma_pow2_pos, lemma_pow2_strictly_increases, pow2,
};
use vstd::prelude::*;

verus! {

/// A single-precision number, by its IEEE 754 bit pattern.
#[derive(Clone, Copy, PartialEq, Eq, Debug, Structural)]
pub struct Float32 {
    /// The sign bit, eight exponent bits and 23 fraction bits.
    pub bits: u32,
}

/// The absolute value of the finite number whose bits below the sign are `m`, in
/// units of the smallest positive number (two to the power of -149). Every
/// finite number is a whole number of these.
pub open spec fn abs_units(m: int) -> int {
    let exponent = m / 0x80_0000;
    let fraction = m % 0x80_0000;
    if exponent == 0 {
        fraction
    } else {
        (0x80_0000 + fraction) * pow2((exponent - 1) as nat)
    }
}

/// The number with the given bit pattern.
pub open spec fn from_bits(bits: u32) -> Float32 {
    Float32 { bits }
}

impl Float32 {
    /// The bits below the sign.
    pub open spec fn magnitude(self) -> int {
        self.bits as int % 0x8000_0000
    }

    /// Whether the number is neither infinite nor NaN.
    pub open spec fn is_finite(self) -> bool {
        self.magnitude() < 0x7f80_0000
    }

    /// Whether this is no number at all.
    pub open spec fn is_nan(self) -> bool {
        self.magnitude() > 0x7f80_0000
    }

    /// Whether the sign is minus.
    pub open spec fn has_minus(self) -> bool {
        self.bits >= 0x8000_0000
    }

    /// The value of a finite number, in the units of [`abs_units`].
    pub open spec fn units(self) -> int {
        if self.bits < 0x8000_0000 {
            abs_units(self.magnitude())
        } else {
            -abs_units(self.magnitude())
        }
    }

    /// Whether the number is neither infinite nor NaN.
    pub(crate) fn finite(self) -> (r: bool)
        ensures
            r == self.is_finite(),
    {
        self.bits % 0x8000_0000 < 0x7f80_0000
    }

    /// Whether this is no number at all.
    pub(crate) fn nan(self) -> (r: bool)
        ensures
            r == self.is_nan(),
    {
        self.bits % 0x8000_0000 > 0x7f80_0000
    }

    /// Whether the sign is minus.
    pub(crate) fn minus(self) -> (r: bool)
        ensures
            r == self.has_minus(),
    {
        self.bits >= 0x8000_0000
    }

    /// Whether one finite number is less than another.
    pub(crate) fn less(self, other: Float32) -> (r: bool)
        requires
            self.is_finite(),
            other.is_finite(),
        ensures
            r == (self.units() < other.units()),
    {
        proof {
            let a = self.magnitude();
            let b = other.magnitude();
            lemma_abs_units_nonnegative(a);
            lemma_abs_units_nonnegative(b);
            if a < b {
                lemma_abs_units_increase(a, b);
            }
            if b < a {
                lemma_abs_units_increase(b, a);
            }
            if a > 0 {
                lemma_abs_units_increase(0, a);
            }
            if b > 0 {
                lemma_abs_units_increase(0, b);
            }
        }
        let a = self.rank();
        let b = other.rank();
        a < b
    }

    /// The position of a finite number among all of them, zero at zero.
    fn rank(self) -> (r: i64)
        ensures
            self.bits < 0x8000_0000 ==> r == self.magnitude(),
            self.bits >= 0x8000_0000 ==> r == -self.magnitude(),
    {
        if self.bits < 0x8000_0000 {
            self.bits as i64
        } else {
            -((self.bits - 0x8000_0000) as i64)
        }
    }
}

/// Finite numbers with the sign plus are ordered as their bit patterns are, and none is
/// below zero; those with the sign minus are below zero, but for zero itself.
pub proof fn law_numbers_are_ordered_as_their_bits(a: Float32, b: Float32)
    requires
        a.bits < 0x7f80_0000,
        b.bits < 0x7f80_0000,
    ensures
        a.units() < b.units() <==> a.bits < b.bits,
        0 <= a.units(),
        a.units() == 0 <==> a.bits == 0,
        a.is_finite() && !a.is_nan() && !a.has_minus(),
        from_bits((a.bits + 0x8000_0000) as u32).units() == -a.units(),
        from_bits((a.bits + 0x8000_0000) as u32).is_finite(),
{
    lemma_abs_units_nonnegative(a.bits as int);
    if a.bits > 0 {
        lemma_abs_units_increase(0, a.bits as int);
    }
    if a.bits < b.bits {
        lemma_abs_units_increase(a.bits as int, b.bits as int);
    }
    if b.bits < a.bits {
        lemma_abs_units_increase(b.bits as int, a.bits as int);
    }
}

/// What lies beyond the finite numbers, with either sign, is infinite or no number.
pub proof fn law_what_is_not_finite(a: Float32)
    ensures
        a.is_finite() <==> a.bits < 0x7f80_0000 || 0x8000_0000 <= a.bits < 0xff80_0000,
        a.is_nan() <==> 0x7f80_0000 < a.bits < 0x8000_0000 || 0xff80_0000 < a.bits,
        a.has_minus() <==> 0x8000_0000 <= a.bits,
{
}

proof fn lemma_abs_units_nonnegative(m: int)
    requires
        0 <= m,
    ensures
        0 <= abs_units(m),
        abs_units(0) == 0,
{
    let e = m / 0x80_0000;
    if e != 0 {
        let p = pow2((e - 1) as nat) as int;
        let f = m % 0x80_0000;
        assert(0 <= (0x80_0000 + f) * p) by (nonlinear_arith)
            requires
                0 <= f,
                0 <= p,
        ;
    }
}

/// Finite numbers of the same sign are ordered as their bit patterns are.
proof fn lemma_abs_units_increase(a: int, b: int)
    requires
        0 <= a < b,
    ensures
        abs_units(a) < abs_units(b),
{
    let ea = a / 0x80_0000;
    let eb = b / 0x80_0000;
    let fa = a % 0x80_0000;
    let fb = b % 0x80_0000;
    if eb > 0 {
        let pb = pow2((eb - 1) as nat) as int;
        lemma_pow2_pos((eb - 1) as nat);
        if ea == eb {
            assert((0x80_0000 + fa) * pb < (0x80_0000 + fb) * pb) by (nonlinear_arith)
                requires
                    fa < fb,
                    pb > 0,
            ;
        } else if ea == 0 {
            assert(fa < (0x80_0000 + fb) * pb) by (nonlinear_arith)
                requires
                    fa < 0x80_0000,
                    0 <= fb,
                    pb >= 1,
            ;
        } else {
            let pa = pow2((ea - 1) as nat) as int;
            lemma_pow2_pos((ea - 1) as nat);
            lemma_pow2_adds((ea - 1) as nat, (eb - ea) as nat);
            let step = pow2((eb - ea) as nat) as int;
            assert(step >= 2) by {
                lemma2_to64();
                if eb - ea > 1 {
                    lemma_pow2_strictly_increases(1, (eb - ea) as nat);
                }
            }
            assert(pb == pa * step);
            assert((0x80_0000 + fa) * pa < (0x80_0000 + fb) * pb) by (nonlinear_arith)
                requires
                    fa < 0x80_0000,
                    0 <= fb,
                    pa >= 1,
                    step >= 2,
                    pb == pa * step,
            ;
        }
    }
}

} // verus!
