//! Numbers as documents hold them.

use vstd::prelude::*;

verus! {

/// A binary64 floating-point number, held by its bit pattern: one sign bit,
/// eleven exponent bits, fifty-two fraction bits.
#[derive(Clone, Copy, Debug, PartialEq, Eq, Structural)]
pub struct Float {
    pub bits: u64,
}

impl Float {
    /// Neither an infinity nor a NaN: the exponent bits are not all ones.
    pub open spec fn finite(self) -> bool {
        (self.bits >> 52) & 0x7ff != 0x7ff
    }

    /// The number with this bit pattern.
    pub fn from_bits(bits: u64) -> (x: Self)
        ensures
            x.bits == bits,
    {
        Float { bits }
    }

    /// The bit pattern of the number.
    pub fn to_bits(self) -> (bits: u64)
        ensures
            bits == self.bits,
    {
        self.bits
    }

    /// Whether the number is neither an infinity nor a NaN.
    pub fn is_finite(self) -> (r: bool)
        ensures
            r == self.finite(),
    {
        (self.bits >> 52) & 0x7ff != 0x7ff
    }
}

/// The bit pattern of the binary64 number that `serde_json::Number::as_f64`
/// gives for an integer.
pub uninterp spec fn integer_as_float(n: int) -> u64;

/// `serde_json::Number::from_i128` and then `Number::as_f64`, with the bit
/// pattern of the result. An integer between `i64::MIN` and `u64::MAX` is a
/// number of a document, and such a number is read as a binary64 number;
/// any other integer is no number of a document.
#[verifier::external_body]
fn float_bits_of(n: i128) -> (r: Option<u64>)
    ensures
        r == if i64::MIN <= n <= u64::MAX {
            Some(integer_as_float(n as int))
        } else {
            None
        },
{
    serde_json::Number::from_i128(n).and_then(|number| number.as_f64()).map(|x| x.to_bits())
}

/// A number of a document: an integer where the document wrote one that
/// fits, else a binary64 value.
#[derive(Clone, Copy, Debug, PartialEq, Eq, Structural)]
pub enum Number {
    /// An integer that is zero or more.
    PosInt(u64),
    /// An integer below zero.
    NegInt(i64),
    /// Any other number.
    Float(Float),
}

impl Number {
    /// The integer that the number is, if it is one.
    pub open spec fn integer(self) -> Option<int> {
        match self {
            Number::PosInt(n) => Some(n as int),
            Number::NegInt(n) => Some(n as int),
            Number::Float(_) => None,
        }
    }

    /// The number as a binary64 number: a float as it is, an integer as the
    /// float that stands for it.
    pub open spec fn as_float(self) -> Float {
        match self {
            Number::PosInt(n) => Float { bits: integer_as_float(n as int) },
            Number::NegInt(n) => Float { bits: integer_as_float(n as int) },
            Number::Float(x) => x,
        }
    }

    /// The number as a binary64 number.
    pub fn to_float(self) -> (x: Float)
        ensures
            x == self.as_float(),
    {
        match self {
            Number::PosInt(n) => Float { bits: float_bits_of(n as i128).unwrap() },
            Number::NegInt(n) => Float { bits: float_bits_of(n as i128).unwrap() },
            Number::Float(x) => x,
        }
    }
}

} // verus!
