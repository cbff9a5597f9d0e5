//! Calendar dates as plain values: year, month and day, ordered
//! lexicographically.  Price validity ranges and sale dates are expressed in
//! this type.  Obtaining today's date and parsing a date string are the only
//! operations left to the `jiff` crate, behind trusted wrappers.

use vstd::prelude::*;

verus! {

/// A calendar date, as year, month and day of month.
///
/// The ranges mirror the civil dates of the `jiff` crate, where every date
/// that the remote service can deliver comes from.
#[derive(Clone, Copy, PartialEq, Eq, Structural, Debug)]
pub struct Date {
    pub year: i16,
    pub month: i8,
    pub day: i8,
}

impl Date {
    /// The component ranges every date handled by this crate lies in.
    pub open spec fn wf(self) -> bool {
        -9999 <= self.year <= 9999 && 1 <= self.month <= 12 && 1 <= self.day <= 31
    }

    /// `self` is on or before `other`, comparing year, then month, then day.
    pub open spec fn spec_le(self, other: Date) -> bool {
        self.year < other.year || (self.year == other.year && (self.month < other.month || (
        self.month == other.month && self.day <= other.day)))
    }

    /// Decide whether `self` is on or before `other`.
    pub fn le(&self, other: &Date) -> (r: bool)
        ensures
            r == self.spec_le(*other),
    {
        self.year < other.year || (self.year == other.year && (self.month < other.month || (
        self.month == other.month && self.day <= other.day)))
    }
}

/// What parsing a string as a calendar date yields, if anything.  This names
/// the result of the `jiff` date parser; nothing in this crate states which
/// strings parse, only that the outcome depends on the string alone.
pub uninterp spec fn date_of_str(s: Seq<char>) -> Option<Date>;

/// Today's date.
///
/// Relies on `jiff::Zoned::now` and `jiff::civil::Date`: the result depends
/// on the clock and the configured time zone, so nothing is promised beyond
/// the documented component ranges.
#[verifier::external_body]
pub fn today() -> (d: Date)
    ensures
        d.wf(),
{
    let now = jiff::Zoned::now().date();
    Date { year: now.year(), month: now.month(), day: now.day() }
}

/// Parse a date string.
///
/// Relies on `str::parse::<jiff::civil::Date>`: the result is a function of
/// the string alone, and a parsed date always lies within the documented
/// component ranges.
#[verifier::external_body]
pub fn parse_date(s: &str) -> (r: Option<Date>)
    ensures
        r == date_of_str(s@),
        r matches Some(d) ==> d.wf(),
{
    match s.parse::<jiff::civil::Date>() {
        Ok(d) => Some(Date { year: d.year(), month: d.month(), day: d.day() }),
        Err(_) => None,
    }
}

} // verus!
