//! Unsigned 64-bit fixed-point scalars with 32 fractional bits.
//!
//! A value is held as its raw bits: the number it stands for is
//! `bits / 2^32`. All contracts speak of the raw bits as mathematical
//! integers, so that no rounding is hidden in them.

use vstd::prelude::*;

verus! {

/// Number of fractional bits of a [`Fixed64`].
pub const FRAC_BITS: u32 = 32;

/// Raw bits of the value one.
pub const ONE_BITS: u64 = 0x1_0000_0000;

/// What can go wrong when a fixed-point number is built or divided.
#[derive(Clone, Copy, Debug, PartialEq, Eq, Structural)]
pub enum FixedError {
    /// The text is not a decimal number that fits the type.
    Parse,
    /// The divisor is zero.
    DivisionByZero,
}

/// An unsigned fixed-point number: 32 integer bits, 32 fractional bits.
#[derive(Clone, Copy, Debug, PartialEq, Eq, Structural, PartialOrd, Ord, Hash)]
pub struct Fixed64 {
    pub bits: u64,
}

/// Prices and quantities share one representation.
pub type FixedPrice = Fixed64;

/// See [`FixedPrice`].
pub type FixedQty = Fixed64;

/// The raw value of `v` clamped to what 64 unsigned bits can hold.
pub open spec fn saturate(v: int) -> u64 {
    if v < 0 {
        0u64
    } else if v > u64::MAX {
        u64::MAX
    } else {
        v as u64
    }
}

/// Raw bits of the sum, saturating at the largest value.
pub open spec fn sum_bits(a: u64, b: u64) -> u64 {
    saturate(a + b)
}

/// Raw bits of the difference, saturating at zero.
pub open spec fn difference_bits(a: u64, b: u64) -> u64 {
    saturate(a - b)
}

/// Raw bits of the product: the exact product of the two numbers, rounded
/// down to a multiple of 2^-32, saturating at the largest value.
pub open spec fn product_bits(a: u64, b: u64) -> u64 {
    saturate((a * b) / 0x1_0000_0000)
}

/// Raw bits of the quotient for a non-zero divisor: the exact quotient
/// rounded down to a multiple of 2^-32, saturating at the largest value.
pub open spec fn quotient_bits(a: u64, b: u64) -> u64 {
    saturate((a * 0x1_0000_0000) / (b as int))
}

/// Raw bits of the whole number `n`, saturating at the largest value.
pub open spec fn int_bits(n: u64) -> u64 {
    saturate(n * 0x1_0000_0000)
}

/// The raw bits that `fixed` gives for a decimal text, `None` where it
/// rejects the text.
pub uninterp spec fn fixed_from_decimal(text: Seq<char>) -> Option<u64>;

/// The decimal text that `fixed` prints for the raw bits.
pub uninterp spec fn fixed_to_decimal(bits: u64) -> Seq<char>;

/// `fixed::ParseFixedError`: why `fixed` refused a text.
#[verifier::external_type_specification]
#[verifier::external_body]
pub struct ExParseFixedError(fixed::ParseFixedError);

/// `fixed::types::U32F32::from_str`: parses decimal text, rounding to the
/// nearest representable value. The contract only names the outcome: the
/// same text always gives the same bits or the same refusal.
#[verifier::external_body]
fn parse_decimal(text: &str) -> (r: Result<u64, fixed::ParseFixedError>)
    ensures
        r.is_ok() == fixed_from_decimal(text@).is_some(),
        r.is_ok() ==> Some(r.unwrap()) == fixed_from_decimal(text@),
{
    match fixed::types::U32F32::from_str(text) {
        Ok(value) => Ok(value.to_bits()),
        Err(e) => Err(e),
    }
}

/// `Display` of `fixed::types::U32F32`, through `to_string`. The contract
/// only names the text that is printed for the given bits.
#[verifier::external_body]
fn print_decimal(bits: u64) -> (r: String)
    ensures
        r@ == fixed_to_decimal(bits),
{
    fixed::types::U32F32::from_bits(bits).to_string()
}

impl Fixed64 {
    pub fn zero() -> (r: Fixed64)
        ensures
            r.bits == 0,
    {
        Fixed64 { bits: 0 }
    }

    pub fn one() -> (r: Fixed64)
        ensures
            r.bits == ONE_BITS,
    {
        Fixed64 { bits: ONE_BITS }
    }

    pub fn max_value() -> (r: Fixed64)
        ensures
            r.bits == u64::MAX,
    {
        Fixed64 { bits: u64::MAX }
    }

    pub fn from_bits(bits: u64) -> (r: Fixed64)
        ensures
            r.bits == bits,
    {
        Fixed64 { bits }
    }

    pub fn to_bits(&self) -> (r: u64)
        ensures
            r == self.bits,
    {
        self.bits
    }

    /// The whole number `n`, or the largest value where `n` does not fit
    /// in 32 integer bits.
    pub fn from_int(n: u64) -> (r: Fixed64)
        ensures
            r.bits == int_bits(n),
    {
        if n > 0xffff_ffff {
            Fixed64 { bits: u64::MAX }
        } else {
            Fixed64 { bits: n * 0x1_0000_0000 }
        }
    }

    /// Parses decimal text. The text is accepted exactly where `fixed`
    /// accepts it, and the bits are the ones it gives.
    pub fn from_str(text: &str) -> (r: Result<Fixed64, FixedError>)
        ensures
            r == match fixed_from_decimal(text@) {
                Some(bits) => Ok::<Fixed64, FixedError>(Fixed64 { bits }),
                None => Err::<Fixed64, FixedError>(FixedError::Parse),
            },
    {
        match parse_decimal(text) {
            Ok(bits) => Ok(Fixed64 { bits }),
            Err(_) => Err(FixedError::Parse),
        }
    }

    /// The decimal text of the value, as `fixed` prints it.
    pub fn to_string(&self) -> (r: String)
        ensures
            r@ == fixed_to_decimal(self.bits),
    {
        print_decimal(self.bits)
    }

    pub fn is_zero(&self) -> (r: bool)
        ensures
            r == (self.bits == 0),
    {
        self.bits == 0
    }

    pub fn saturating_add(self, rhs: Fixed64) -> (r: Fixed64)
        ensures
            r.bits == sum_bits(self.bits, rhs.bits),
    {
        if self.bits > u64::MAX - rhs.bits {
            Fixed64 { bits: u64::MAX }
        } else {
            Fixed64 { bits: self.bits + rhs.bits }
        }
    }

    pub fn saturating_sub(self, rhs: Fixed64) -> (r: Fixed64)
        ensures
            r.bits == difference_bits(self.bits, rhs.bits),
    {
        if self.bits < rhs.bits {
            Fixed64 { bits: 0 }
        } else {
            Fixed64 { bits: self.bits - rhs.bits }
        }
    }

    pub fn saturating_mul(self, rhs: Fixed64) -> (r: Fixed64)
        ensures
            r.bits == product_bits(self.bits, rhs.bits),
    {
        let a: u128 = self.bits as u128;
        let b: u128 = rhs.bits as u128;
        assert(a * b <= 0xffff_ffff_ffff_ffff * 0xffff_ffff_ffff_ffff) by (nonlinear_arith)
            requires
                0 <= a <= 0xffff_ffff_ffff_ffff,
                0 <= b <= 0xffff_ffff_ffff_ffff,
        ;
        let wide: u128 = (a * b) / 0x1_0000_0000u128;
        if wide > 0xffff_ffff_ffff_ffffu128 {
            Fixed64 { bits: u64::MAX }
        } else {
            Fixed64 { bits: wide as u64 }
        }
    }

    /// Division. A zero divisor is reported as an error; a quotient that
    /// does not fit saturates.
    pub fn try_div(self, rhs: Fixed64) -> (r: Result<Fixed64, FixedError>)
        ensures
            r == if rhs.bits == 0 {
                Err::<Fixed64, FixedError>(FixedError::DivisionByZero)
            } else {
                Ok::<Fixed64, FixedError>(Fixed64 { bits: quotient_bits(self.bits, rhs.bits) })
            },
    {
        if rhs.bits == 0 {
            return Err(FixedError::DivisionByZero);
        }
        let a: u128 = self.bits as u128;
        let b: u128 = rhs.bits as u128;
        let wide: u128 = (a * 0x1_0000_0000u128) / b;
        if wide > 0xffff_ffff_ffff_ffffu128 {
            Ok(Fixed64 { bits: u64::MAX })
        } else {
            Ok(Fixed64 { bits: wide as u64 })
        }
    }

    /// Half of the value, rounded down to a multiple of 2^-32.
    pub fn half(self) -> (r: Fixed64)
        ensures
            r.bits == self.bits / 2,
    {
        Fixed64 { bits: self.bits / 2 }
    }
}

} // verus!
