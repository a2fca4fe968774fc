//! Physical quantities as IEEE 754 single-precision values.
//!
//! A quantity is held by its 32-bit encoding, so that equality is equality of
//! encodings and every value, finite or not, can be carried and compared
//! exactly. Arithmetic is done in software by `rustc_apfloat`, rounding to
//! nearest with ties to even. Its results are named here, not defined: the
//! functions below stand for what `rustc_apfloat` returns, and every operation
//! returns for every pair of encodings. Where a result is not a number, its
//! encoding is the one `rustc_apfloat` gives, which need not be the one a
//! processor would give.

use rustc_apfloat::ieee::Single;
use rustc_apfloat::Float;
use vstd::prelude::*;

verus! {

/// Encoding of the sum of the two single-precision values encoded by `a` and
/// `b`, as `rustc_apfloat` computes it.
pub uninterp spec fn single_sum(a: u32, b: u32) -> u32;

/// Encoding of the single-precision value encoded by `a` less the one encoded
/// by `b`, as `rustc_apfloat` computes it.
pub uninterp spec fn single_difference(a: u32, b: u32) -> u32;

/// Encoding of the product of the two single-precision values encoded by `a`
/// and `b`, as `rustc_apfloat` computes it.
pub uninterp spec fn single_product(a: u32, b: u32) -> u32;

/// Encoding of the single-precision value encoded by `a` divided by the one
/// encoded by `b`, as `rustc_apfloat` computes it.
pub uninterp spec fn single_quotient(a: u32, b: u32) -> u32;

/// Encoding of the single-precision value nearest to the integer `n`, as
/// `rustc_apfloat` computes it.
pub uninterp spec fn single_from_integer(n: u32) -> u32;

/// Encoding of negative zero, the value from which sums start.
pub const NEGATIVE_ZERO_BITS: u32 = 0x8000_0000;

/// Encoding of one hundred.
pub const HUNDRED_BITS: u32 = 0x42C8_0000;

/// A single-precision quantity, identified by its encoding.
#[derive(Clone, Copy, Debug, PartialEq, Eq, Structural)]
pub struct Quantity {
    pub bits: u32,
}

impl Quantity {
    /// Negative zero.
    pub open spec fn negative_zero() -> Quantity {
        Quantity { bits: NEGATIVE_ZERO_BITS }
    }

    /// One hundred.
    pub open spec fn hundred() -> Quantity {
        Quantity { bits: HUNDRED_BITS }
    }

    /// The sum of the two quantities.
    pub open spec fn plus(self, other: Quantity) -> Quantity {
        Quantity { bits: single_sum(self.bits, other.bits) }
    }

    /// This quantity less `other`.
    pub open spec fn minus(self, other: Quantity) -> Quantity {
        Quantity { bits: single_difference(self.bits, other.bits) }
    }

    /// The product of the two quantities.
    pub open spec fn times(self, other: Quantity) -> Quantity {
        Quantity { bits: single_product(self.bits, other.bits) }
    }

    /// This quantity divided by `other`.
    pub open spec fn over(self, other: Quantity) -> Quantity {
        Quantity { bits: single_quotient(self.bits, other.bits) }
    }

    /// The quantity nearest to the integer `n`.
    pub open spec fn of_integer(n: u32) -> Quantity {
        Quantity { bits: single_from_integer(n) }
    }

    /// Calls `Add::add` of `rustc_apfloat::ieee::Single`: the operands are
    /// decoded, added with rounding to nearest, ties to even, and the result
    /// is encoded again. The contract only names that result.
    #[verifier::external_body]
    pub(crate) fn sum(self, other: Quantity) -> (q: Quantity)
        ensures
            q.bits == single_sum(self.bits, other.bits),
    {
        let a = Single::from_bits(self.bits as u128);
        let b = Single::from_bits(other.bits as u128);
        Quantity { bits: (a + b).value.to_bits() as u32 }
    }

    /// Calls `Sub::sub` of `rustc_apfloat::ieee::Single`: `other` is taken
    /// from `self`, rounding to nearest, ties to even. The contract only
    /// names the encoded result.
    #[verifier::external_body]
    pub(crate) fn difference(self, other: Quantity) -> (q: Quantity)
        ensures
            q.bits == single_difference(self.bits, other.bits),
    {
        let a = Single::from_bits(self.bits as u128);
        let b = Single::from_bits(other.bits as u128);
        Quantity { bits: (a - b).value.to_bits() as u32 }
    }

    /// Calls `Mul::mul` of `rustc_apfloat::ieee::Single`, rounding to
    /// nearest, ties to even. The contract only names the encoded result.
    #[verifier::external_body]
    pub(crate) fn product(self, other: Quantity) -> (q: Quantity)
        ensures
            q.bits == single_product(self.bits, other.bits),
    {
        let a = Single::from_bits(self.bits as u128);
        let b = Single::from_bits(other.bits as u128);
        Quantity { bits: (a * b).value.to_bits() as u32 }
    }

    /// Calls `Div::div` of `rustc_apfloat::ieee::Single`: `self` is divided
    /// by `other`, rounding to nearest, ties to even. A zero divisor is no
    /// error there: the result is then an infinity or a NaN. The contract
    /// only names the encoded result.
    #[verifier::external_body]
    pub(crate) fn quotient(self, other: Quantity) -> (q: Quantity)
        ensures
            q.bits == single_quotient(self.bits, other.bits),
    {
        let a = Single::from_bits(self.bits as u128);
        let b = Single::from_bits(other.bits as u128);
        Quantity { bits: (a / b).value.to_bits() as u32 }
    }

    /// Calls `Float::from_u128` of `rustc_apfloat::ieee::Single`, which
    /// rounds the integer to the nearest single-precision value, ties to
    /// even. The contract only names the encoded result.
    #[verifier::external_body]
    pub(crate) fn from_integer(n: u32) -> (q: Quantity)
        ensures
            q.bits == single_from_integer(n),
    {
        Quantity { bits: Single::from_u128(n as u128).value.to_bits() as u32 }
    }
}

} // verus!
