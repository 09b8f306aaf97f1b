//! Exact conversion of raw on-chain reward amounts into the network's
//! display denomination, together with decimal rendering.
//!
//! A raw amount is an integer count of the smallest on-chain unit.  Dividing
//! it by the network's base-unit divisor (a power of ten) yields a whole part
//! and a fractional part, both kept as integers, so the conversion is exact.

use vstd::prelude::*;
use vstd::arithmetic::div_mod::{lemma_fundamental_div_mod, lemma_mod_division_less_than_divisor};
use crate::network::Network;

verus! {

/// 10 raised to `e`.
pub open spec fn pow10(e: nat) -> nat
    decreases e,
{
    if e == 0 {
        1
    } else {
        10 * pow10((e - 1) as nat)
    }
}

/// The decimal digit character for `d` (digits above 9 are clamped to '9').
pub open spec fn digit_char(d: nat) -> char {
    if d == 0 {
        '0'
    } else if d == 1 {
        '1'
    } else if d == 2 {
        '2'
    } else if d == 3 {
        '3'
    } else if d == 4 {
        '4'
    } else if d == 5 {
        '5'
    } else if d == 6 {
        '6'
    } else if d == 7 {
        '7'
    } else if d == 8 {
        '8'
    } else {
        '9'
    }
}

/// The usual decimal rendering of `n`, most significant digit first,
/// with no leading zeros (a single '0' for zero).
pub open spec fn dec_digits(n: nat) -> Seq<char>
    decreases n,
{
    if n < 10 {
        seq![digit_char(n)]
    } else {
        dec_digits(n / 10).push(digit_char(n % 10))
    }
}

/// The low `e` decimal digits of `f`, zero padded on the left to exactly
/// `e` characters.
pub open spec fn frac_digits(f: nat, e: nat) -> Seq<char>
    decreases e,
{
    if e == 0 {
        Seq::empty()
    } else {
        frac_digits(f / 10, (e - 1) as nat).push(digit_char(f % 10))
    }
}

/// `s` with trailing '0' characters removed, but never shortened below one
/// character.
pub open spec fn trim_zeros(s: Seq<char>) -> Seq<char>
    decreases s.len(),
{
    if s.len() <= 1 {
        s
    } else if s.last() == '0' {
        trim_zeros(s.drop_last())
    } else {
        s
    }
}

/// A reward amount in the network's display denomination: the exact value is
/// `whole + frac / 10^exp`.
#[derive(Debug, Clone, Copy, PartialEq, Eq, Structural)]
pub struct DisplayAmount {
    /// The integral part of the display amount.
    pub whole: u128,
    /// The fractional part, counted in units of `10^-exp`.
    pub frac: u128,
    /// The number of fractional decimal places carried.
    pub exp: u32,
}

/// The decimal text of a display amount: whole part, a dot, then the
/// fractional digits with trailing zeros dropped (at least one digit kept).
pub open spec fn spec_decimal_seq(whole: nat, frac: nat, exp: nat) -> Seq<char> {
    dec_digits(whole) + "."@ + trim_zeros(frac_digits(frac, exp))
}

impl DisplayAmount {
    /// The fractional part indeed fits in `exp` decimal places.
    pub open spec fn wf(self) -> bool {
        1 <= self.exp <= 12 && (self.frac as nat) < pow10(self.exp as nat)
    }

    /// The decimal text this amount renders to.
    pub open spec fn string_seq(self) -> Seq<char> {
        spec_decimal_seq(self.whole as nat, self.frac as nat, self.exp as nat)
    }
}

/// The exact display amount a raw on-chain amount converts to: quotient and
/// remainder of the division by the network's base-unit divisor.
pub open spec fn spec_display_of(network: Network, raw: u128) -> DisplayAmount {
    DisplayAmount {
        whole: (raw as int / network.spec_divisor() as int) as u128,
        frac: (raw as int % network.spec_divisor() as int) as u128,
        exp: network.spec_divisor_exp() as u32,
    }
}

proof fn lemma_pow10_vals()
    ensures
        pow10(10) == 10_000_000_000,
        pow10(12) == 1_000_000_000_000,
{
    reveal_with_fuel(pow10, 13);
}

/// Divides a raw on-chain amount by the network's base-unit divisor,
/// exactly: `whole` and `frac` are the quotient and the remainder, so
/// the pair represents `raw / divisor` with nothing lost.
pub fn to_display_amount(network: &Network, raw: u128) -> (a: DisplayAmount)
    ensures
        a == spec_display_of(*network, raw),
        a.whole == raw as int / network.spec_divisor() as int,
        a.frac == raw as int % network.spec_divisor() as int,
        a.whole * network.spec_divisor() + a.frac == raw,
        a.exp == network.spec_divisor_exp(),
        a.wf(),
{
    let d = network.divisor();
    proof {
        lemma_pow10_vals();
        lemma_fundamental_div_mod(raw as int, d as int);
        lemma_mod_division_less_than_divisor(raw as int, d as int);
    }
    let exp: u32 = match network {
        Network::Polkadot => 10,
        Network::Kusama => 12,
    };
    DisplayAmount { whole: raw / d, frac: raw % d, exp }
}

/// A single-character string slice for the decimal digit `d`.
fn digit_str(d: u128) -> (s: &'static str)
    requires
        d < 10,
    ensures
        s@ == seq![digit_char(d as nat)],
{
    proof {
        reveal_strlit("0");
        reveal_strlit("1");
        reveal_strlit("2");
        reveal_strlit("3");
        reveal_strlit("4");
        reveal_strlit("5");
        reveal_strlit("6");
        reveal_strlit("7");
        reveal_strlit("8");
        reveal_strlit("9");
    }
    let s: &'static str = if d == 0 {
        "0"
    } else if d == 1 {
        "1"
    } else if d == 2 {
        "2"
    } else if d == 3 {
        "3"
    } else if d == 4 {
        "4"
    } else if d == 5 {
        "5"
    } else if d == 6 {
        "6"
    } else if d == 7 {
        "7"
    } else if d == 8 {
        "8"
    } else {
        "9"
    };
    proof {
        assert(s@ =~= seq![digit_char(d as nat)]);
    }
    s
}

/// Appends the decimal rendering of `n` to `s`.
pub fn push_dec_digits(s: &mut String, n: u128)
    ensures
        final(s)@ == old(s)@ + dec_digits(n as nat),
    decreases n,
{
    let ghost pre = s@;
    if n >= 10 {
        push_dec_digits(s, n / 10);
    }
    s.append(digit_str(n % 10));
    proof {
        if n < 10 {
            assert(final(s)@ =~= pre + dec_digits(n as nat));
        } else {
            assert(dec_digits(n as nat) == dec_digits(n as nat / 10).push(digit_char(n as nat % 10)));
            assert(final(s)@ =~= pre + dec_digits(n as nat));
        }
    }
}

/// Appends the low `e` digits of `f`, zero padded to width `e`, to `s`.
fn push_frac_digits(s: &mut String, f: u128, e: u32)
    requires
        e >= 1,
    ensures
        final(s)@ == old(s)@ + frac_digits(f as nat, e as nat),
    decreases e,
{
    let ghost pre = s@;
    if e > 1 {
        push_frac_digits(s, f / 10, e - 1);
    }
    s.append(digit_str(f % 10));
    proof {
        assert(frac_digits(f as nat, e as nat)
            == frac_digits(f as nat / 10, (e - 1) as nat).push(digit_char(f as nat % 10)));
        if e == 1 {
            assert(frac_digits(f as nat / 10, 0) == Seq::<char>::empty());
        }
        assert(final(s)@ =~= pre + frac_digits(f as nat, e as nat));
    }
}

proof fn lemma_frac_digits_len(f: nat, e: nat)
    ensures
        frac_digits(f, e).len() == e,
    decreases e,
{
    if e > 0 {
        lemma_frac_digits_len(f / 10, (e - 1) as nat);
    }
}

proof fn lemma_trim_step(f: nat, e: nat)
    requires
        e > 1,
        f % 10 == 0,
    ensures
        trim_zeros(frac_digits(f, e)) == trim_zeros(frac_digits(f / 10, (e - 1) as nat)),
{
    let s = frac_digits(f, e);
    lemma_frac_digits_len(f, e);
    assert(s == frac_digits(f / 10, (e - 1) as nat).push(digit_char(0)));
    assert(s.last() == '0');
    assert(s.drop_last() =~= frac_digits(f / 10, (e - 1) as nat));
}

proof fn lemma_trim_done(f: nat, e: nat)
    requires
        e >= 1,
        e == 1 || f % 10 != 0,
    ensures
        trim_zeros(frac_digits(f, e)) == frac_digits(f, e),
{
    let s = frac_digits(f, e);
    lemma_frac_digits_len(f, e);
    if e > 1 {
        assert(s.last() == digit_char(f % 10));
        assert(digit_char(f % 10) != '0');
    }
}

impl DisplayAmount {
    /// Renders the amount as decimal text: the whole part, '.', then the
    /// fractional digits with trailing zeros trimmed down to at least one.
    pub fn to_decimal_string(&self) -> (s: String)
        requires
            self.wf(),
        ensures
            s@ == self.string_seq(),
    {
        let mut s = String::new();
        push_dec_digits(&mut s, self.whole);
        s.append(".");
        let mut f: u128 = self.frac;
        let mut e: u32 = self.exp;
        while e > 1 && f % 10 == 0
            invariant
                1 <= e <= self.exp,
                trim_zeros(frac_digits(f as nat, e as nat))
                    == trim_zeros(frac_digits(self.frac as nat, self.exp as nat)),
            decreases e,
        {
            proof {
                lemma_trim_step(f as nat, e as nat);
            }
            f = f / 10;
            e = e - 1;
        }
        proof {
            lemma_trim_done(f as nat, e as nat);
        }
        push_frac_digits(&mut s, f, e);
        proof {
            assert(s@ =~= self.string_seq());
        }
        s
    }
}

} // verus!
