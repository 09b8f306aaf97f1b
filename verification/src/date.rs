//! Calendar dates of reward events and their rendering through a
//! strftime-style pattern.

use std::fmt::Write;
use vstd::prelude::*;

verus! {

/// The calendar day a reward was earned, as plain year / month / day values.
/// A day carries no time of day, so a pattern that asks for time fields
/// cannot be rendered for it.
#[derive(Debug, Clone, Copy, PartialEq, Eq, Structural)]
pub struct Date {
    /// Calendar year.
    pub year: i32,
    /// Calendar month, 1 to 12.
    pub month: u32,
    /// Day of month, 1 to 31.
    pub day: u32,
}

/// What formatting the given calendar day through the given strftime-style
/// pattern yields: the rendered text, or `None` when the numbers are not a
/// real calendar day, the pattern is malformed, or the pattern asks for
/// fields a bare day does not carry. The outcome depends on these arguments
/// alone.
pub uninterp spec fn date_format_of(year: int, month: int, day: int, pattern: Seq<char>) -> Option<
    Seq<char>,
>;

/// Relies on chrono::NaiveDate::from_ymd_opt and NaiveDate::format: rendering
/// a date through a strftime pattern is a pure function of the numeric date
/// and the pattern, succeeding or failing the same way on the same arguments.
/// chrono reports a malformed pattern (or one needing a time of day) as a
/// fmt::Error, which write! surfaces instead of panicking.
#[verifier::external_body]
pub(crate) fn format_date(year: i32, month: u32, day: u32, pattern: &str) -> (r: Option<String>)
    ensures
        r is Some <==> date_format_of(year as int, month as int, day as int, pattern@) is Some,
        r matches Some(s) ==> Some(s@) == date_format_of(
            year as int,
            month as int,
            day as int,
            pattern@,
        ),
{
    let date = chrono::NaiveDate::from_ymd_opt(year, month, day)?;
    let mut out = String::new();
    write!(out, "{}", date.format(pattern)).ok()?;
    Some(out)
}

impl Date {
    /// The rendering of this date through `pattern`, as `date_format_of`
    /// names it: `None` when it cannot be rendered.
    pub open spec fn spec_format(self, pattern: Seq<char>) -> Option<Seq<char>> {
        date_format_of(self.year as int, self.month as int, self.day as int, pattern)
    }
}

} // verus!
