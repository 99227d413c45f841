//! Kromer amounts: decimal numbers held as a mantissa and a scale, the way
//! `rust_decimal` holds them. Their order is decided by `rust_decimal`.

use vstd::prelude::*;

use vstd::arithmetic::power::{lemma_pow0, pow};

use rust_decimal::Decimal;

verus! {

/// The largest mantissa magnitude a decimal can hold (96 bits).
pub const MAX_MANTISSA: i128 = 0xFFFF_FFFF_FFFF_FFFF_FFFF_FFFF;

/// The largest scale a decimal can hold.
pub const MAX_SCALE: u32 = 28;

/// The decimal number `mantissa / 10^scale`.
#[derive(Clone, Copy, Debug, PartialEq, Eq, Structural)]
pub struct Amount {
    pub mantissa: i128,
    pub scale: u32,
}

impl Amount {
    /// The mantissa and scale fit a decimal.
    pub open spec fn wf(&self) -> bool {
        -MAX_MANTISSA <= self.mantissa <= MAX_MANTISSA && self.scale <= MAX_SCALE
    }

    /// The amount `mantissa / 10^scale`, or `None` where the parts do not
    /// fit a decimal.
    pub fn from_parts(mantissa: i128, scale: u32) -> (r: Option<Amount>)
        ensures
            r is Some <==> (-MAX_MANTISSA <= mantissa <= MAX_MANTISSA && scale <= MAX_SCALE),
            r is Some ==> r->Some_0 == (Amount { mantissa, scale }),
    {
        if -MAX_MANTISSA <= mantissa && mantissa <= MAX_MANTISSA && scale <= MAX_SCALE {
            Some(Amount { mantissa, scale })
        } else {
            None
        }
    }

    /// Zero.
    pub fn zero() -> (r: Amount)
        ensures
            r == (Amount { mantissa: 0, scale: 0 }),
            r.wf(),
    {
        Amount { mantissa: 0, scale: 0 }
    }

    /// Whether this amount is smaller than `other`.
    pub fn is_less_than(&self, other: &Amount) -> (r: bool)
        requires
            self.wf(),
            other.wf(),
        ensures
            r == amount_less(*self, *other),
    {
        decimal_less(self, other)
    }

    /// Whether this amount is below zero.
    pub fn is_negative(&self) -> (r: bool)
        requires
            self.wf(),
        ensures
            r == (self.mantissa < 0),
    {
        let zero = Amount::zero();
        let r = decimal_less(self, &zero);
        proof {
            lemma_pow0(10);
        }
        r
    }
}

/// `a < b` as numbers: cross-multiplying by the powers of ten of the scales
/// compares the two fractions exactly.
pub open spec fn amount_less(a: Amount, b: Amount) -> bool {
    a.mantissa * pow(10, b.scale as nat) < b.mantissa * pow(10, a.scale as nat)
}

/// Relies on `Decimal::from_i128_with_scale`, which does not panic on parts
/// that fit, and on `Ord for Decimal`, which orders decimals by value.
#[verifier::external_body]
pub(crate) fn decimal_less(a: &Amount, b: &Amount) -> (r: bool)
    requires
        a.wf(),
        b.wf(),
    ensures
        r == amount_less(*a, *b),
{
    Decimal::from_i128_with_scale(a.mantissa, a.scale) < Decimal::from_i128_with_scale(
        b.mantissa,
        b.scale,
    )
}

} // verus!
