//! Reward events, export records, and their semicolon-delimited rendering.
//!
//! The output format is fixed: one header row naming the four fields, then
//! one row per reward, fields separated by ';', each row terminated by a
//! newline and carrying no trailing delimiter.

use vstd::prelude::*;
use crate::amount::{dec_digits, push_dec_digits};
use crate::date::Date;

verus! {

/// One staking-reward payout, as the chain crawler reports it: the block it
/// was paid in, the calendar day it belongs to, and the raw amount in the
/// smallest on-chain unit.
#[derive(Debug, Clone, Copy, PartialEq, Eq, Structural)]
pub struct RewardEvent {
    /// The block the reward was paid in.
    pub block_num: u32,
    /// The calendar day the reward belongs to.
    pub day: Date,
    /// The amount, counted in the smallest on-chain unit.
    pub amount: u128,
}

/// One exportable row: a reward joined with its day's fiat price, every
/// field already rendered as text except the block number.
#[derive(Debug, PartialEq, Eq)]
pub struct ExportRecord {
    /// The block the reward was paid in.
    pub block_num: u32,
    /// The reward's day, rendered through the caller's date pattern.
    pub block_time: String,
    /// The reward amount in the display denomination, as decimal text.
    pub amount: String,
    /// The fiat price of one display unit on that day, as decimal text.
    pub price: String,
}

/// The header row, naming the four fields.
pub open spec fn header_seq() -> Seq<char> {
    "block_num;block_time;amount;price\n"@
}

/// The header row as an executable string.
pub fn csv_header() -> (s: String)
    ensures
        s@ == header_seq(),
{
    String::from_str("block_num;block_time;amount;price\n")
}

impl ExportRecord {
    /// The row this record renders to: the four fields joined by ';',
    /// newline terminated.
    pub open spec fn row_seq(self) -> Seq<char> {
        dec_digits(self.block_num as nat) + ";"@ + self.block_time@ + ";"@ + self.amount@
            + ";"@ + self.price@ + "\n"@
    }

    /// Renders the record as one delimited row.
    pub fn to_csv_row(&self) -> (s: String)
        ensures
            s@ == self.row_seq(),
    {
        let mut s = String::new();
        push_dec_digits(&mut s, self.block_num as u128);
        s.append(";");
        s.append(self.block_time.as_str());
        s.append(";");
        s.append(self.amount.as_str());
        s.append(";");
        s.append(self.price.as_str());
        s.append("\n");
        proof {
            assert(s@ =~= self.row_seq());
        }
        s
    }
}

} // verus!
