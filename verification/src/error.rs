//! The errors the export core can report. All of them abort the run; the
//! core never skips a row or recovers locally.

use vstd::prelude::*;

verus! {

/// A fatal condition met while reconciling rewards with prices.
#[derive(Debug, PartialEq, Eq)]
pub enum ExportError {
    /// The requested fiat code is absent from a price snapshot. Carries the
    /// requested code and every code the snapshot actually offers, in
    /// snapshot order, so the caller can self-correct.
    CurrencyNotSupported {
        /// The fiat code that was asked for.
        currency: String,
        /// The codes the snapshot holds, in order.
        available: Vec<String>,
    },
    /// A network name that is none of the accepted spellings.
    UnknownNetwork {
        /// The name as the caller supplied it.
        name: String,
    },
    /// The reward's day could not be rendered: it is not a real calendar
    /// date, the caller-supplied pattern is malformed, or the pattern asks
    /// for fields a bare calendar day does not carry (a time of day, a
    /// time zone).
    InvalidDate {
        /// The date-format pattern in use when rendering failed.
        pattern: String,
    },
}

} // verus!
