//! Binary64 numbers in the 64-bit binary format of IEEE 754, held by their bits.
//!
//! The rules of the library ask only whether such a number is finite, positive
//! or below one, and the bits answer that. Arithmetic on them is left to the
//! caller.
use vstd::arithmetic::power2::*;
use vstd::prelude::*;

verus! {

/// A number by its 64 bits: a sign, 11 bits of exponent, 52 bits of fraction.
#[derive(Debug, Clone, Copy, PartialEq, Eq, Structural)]
pub struct Binary64 {
    pub bits: u64,
}

impl Binary64 {
    /// The sign bit is set.
    pub open spec fn negative(self) -> bool {
        self.bits >= 0x8000_0000_0000_0000
    }

    /// The exponent field.
    pub open spec fn exponent(self) -> nat {
        (self.bits as nat / 0x10_0000_0000_0000) % 0x800
    }

    /// The fraction field.
    pub open spec fn fraction(self) -> nat {
        self.bits as nat % 0x10_0000_0000_0000
    }

    /// Neither an infinity nor a NaN.
    pub open spec fn finite(self) -> bool {
        self.exponent() != 0x7ff
    }

    /// The magnitude of a finite number in units of `2^-1074`, the smallest
    /// positive number of the format.
    pub open spec fn magnitude(self) -> nat {
        if self.exponent() == 0 {
            self.fraction()
        } else {
            (0x10_0000_0000_0000 + self.fraction()) * pow2((self.exponent() - 1) as nat)
        }
    }

    /// Finite and greater than zero.
    pub open spec fn positive(self) -> bool {
        self.finite() && !self.negative() && self.magnitude() > 0
    }

    /// Greater than zero and less than one.
    pub open spec fn proper_fraction(self) -> bool {
        self.positive() && self.magnitude() < pow2(1074)
    }

    /// Whether the number is finite and greater than zero.
    pub fn is_positive(&self) -> (yes: bool)
        ensures
            yes == self.positive(),
    {
        proof {
            self.lemma_by_bits();
        }
        0 < self.bits && self.bits < 0x7ff0_0000_0000_0000
    }

    /// Whether the number lies strictly between zero and one.
    pub fn is_proper_fraction(&self) -> (yes: bool)
        ensures
            yes == self.proper_fraction(),
    {
        proof {
            self.lemma_by_bits();
        }
        0 < self.bits && self.bits < 0x3ff0_0000_0000_0000
    }

    /// The bits of positive numbers are ordered as the numbers are: those below
    /// the bits of infinity are finite, those below the bits of one less than one.
    pub proof fn lemma_by_bits(self)
        ensures
            self.positive() <==> 0 < self.bits < 0x7ff0_0000_0000_0000,
            self.proper_fraction() <==> 0 < self.bits < 0x3ff0_0000_0000_0000,
    {
        self.lemma_fields();
        if !self.negative() && self.finite() && self.exponent() > 0 {
            let e = (self.exponent() - 1) as nat;
            let (f, p) = (0x10_0000_0000_0000 + self.fraction(), pow2(e));
            lemma2_to64();
            lemma2_to64_rest();
            lemma_pow2_adds(52, 1022);
            lemma_pow2_adds(53, 1021);
            if self.exponent() >= 0x3ff {
                if e > 1022 {
                    lemma_pow2_strictly_increases(1022, e);
                }
                let q = pow2(1022);
                assert(f * p >= 0x10_0000_0000_0000 * q) by (nonlinear_arith)
                    requires
                        f >= 0x10_0000_0000_0000,
                        p >= q,
                        q >= 0,
                ;
            } else {
                if e < 1021 {
                    lemma_pow2_strictly_increases(e, 1021);
                }
                let q = pow2(1021);
                lemma_pow2_pos(1021);
                assert(f * p < 0x20_0000_0000_0000 * q) by (nonlinear_arith)
                    requires
                        0 <= f < 0x20_0000_0000_0000,
                        0 <= p <= q,
                        q > 0,
                ;
            }
        } else if self.exponent() == 0 {
            lemma2_to64();
            lemma2_to64_rest();
            lemma_pow2_strictly_increases(52, 1074);
        }
    }

    /// The bits of a number that is not negative are its exponent and fraction.
    proof fn lemma_fields(self)
        ensures
            self.fraction() < 0x10_0000_0000_0000,
            !self.negative() ==> self.bits == self.exponent() * 0x10_0000_0000_0000
                + self.fraction(),
            self.exponent() < 0x800,
            self.magnitude() == 0 <==> self.exponent() == 0 && self.fraction() == 0,
    {
        if self.exponent() > 0 {
            let p = pow2((self.exponent() - 1) as nat);
            lemma_pow2_pos((self.exponent() - 1) as nat);
            assert((0x10_0000_0000_0000 + self.fraction()) * p > 0) by (nonlinear_arith)
                requires
                    p > 0,
                    self.fraction() >= 0,
            ;
        }
    }
}

/// A number is positive exactly when some number of units, at least one, makes it
/// up and the sign bit is clear; it lies below one exactly when it is made up of
/// fewer units than one is. Neither an infinity nor a NaN is either.
pub proof fn law_positive_by_units(x: Binary64)
    ensures
        x.bits >= 0x7ff0_0000_0000_0000 ==> !x.positive() && !x.proper_fraction(),
        x.bits == 0 ==> !x.positive() && !x.proper_fraction(),
        0 < x.bits < 0x3ff0_0000_0000_0000 ==> x.positive() && x.proper_fraction()
            && x.magnitude() < pow2(1074),
        0x3ff0_0000_0000_0000 <= x.bits < 0x7ff0_0000_0000_0000 ==> x.positive()
            && !x.proper_fraction() && x.magnitude() >= pow2(1074),
{
    x.lemma_by_bits();
}

} // verus!
