//! Exact decimal amounts as plain values: an integer mantissa and a scale
//! (the number of fractional digits), mirroring the representation of the
//! `rust_decimal` crate.  Unit prices are expressed in this type; parsing a
//! price string is the only operation left to `rust_decimal`, behind a
//! trusted wrapper.

use vstd::prelude::*;

verus! {

/// The largest mantissa a decimal amount can carry: 2^96 - 1, the documented
/// limit of `rust_decimal`.
pub open spec fn max_mantissa() -> int {
    0xFFFF_FFFF_FFFF_FFFF_FFFF_FFFF
}

/// An exact decimal amount: `mantissa / 10^scale`.
#[derive(Clone, Copy, PartialEq, Eq, Structural, Debug)]
pub struct Decimal {
    pub mantissa: i128,
    pub scale: u32,
}

impl Decimal {
    /// The bounds every amount handled by this crate lies in: a 96-bit
    /// mantissa and at most 28 fractional digits, as `rust_decimal`
    /// documents for its values.
    pub open spec fn wf(self) -> bool {
        -max_mantissa() <= self.mantissa <= max_mantissa() && self.scale <= 28
    }

    /// Multiply the amount by a whole number of units, exactly.
    ///
    /// The product must stay within the mantissa range, as it would have to
    /// for `rust_decimal`, whose multiplication fails beyond it.
    pub fn times(&self, n: u16) -> (r: Decimal)
        requires
            self.wf(),
            -max_mantissa() <= self.mantissa * n <= max_mantissa(),
        ensures
            r.mantissa == self.mantissa * n,
            r.scale == self.scale,
            r.wf(),
    {
        Decimal { mantissa: self.mantissa * n as i128, scale: self.scale }
    }
}

/// What parsing a string as a decimal amount yields, if anything.  This
/// names the result of the `rust_decimal` parser; nothing in this crate
/// states which strings parse, only that the outcome depends on the string
/// alone.
pub uninterp spec fn decimal_of_str(s: Seq<char>) -> Option<Decimal>;

/// Parse a decimal amount from a string.
///
/// Relies on `str::parse::<rust_decimal::Decimal>`: the result is a function
/// of the string alone, and a parsed value always carries a 96-bit mantissa
/// and a scale of at most 28, the invariant `rust_decimal` documents.
#[verifier::external_body]
pub fn parse_decimal(s: &str) -> (r: Option<Decimal>)
    ensures
        r == decimal_of_str(s@),
        r matches Some(d) ==> d.wf(),
{
    match s.parse::<rust_decimal::Decimal>() {
        Ok(d) => Some(Decimal { mantissa: d.mantissa(), scale: d.scale() }),
        Err(_) => None,
    }
}

} // verus!
