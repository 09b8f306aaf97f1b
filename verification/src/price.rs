//! Daily price snapshots and the currency resolver: an exact, case-sensitive
//! lookup of a fiat code inside one snapshot's currency-to-price table.

use vstd::prelude::*;
use crate::error::ExportError;

verus! {

/// One currency's quotation inside a snapshot: a fiat code and the price of
/// the network's display unit in that currency. The price is carried as the
/// decimal text the feed supplied; the core never computes with it.
#[derive(Debug, PartialEq, Eq)]
pub struct CurrencyPrice {
    /// The fiat currency code, compared case-sensitively.
    pub code: String,
    /// The quoted price, as decimal text.
    pub price: String,
}

/// The fiat valuation table for one calendar day, one entry per currency,
/// in the order the price feed supplied them.
#[derive(Debug, PartialEq, Eq)]
pub struct PriceSnapshot {
    /// The currency-to-price table of this day.
    pub market_data: Vec<CurrencyPrice>,
}

/// The price stored for `code`: the first entry whose code matches, if any.
pub open spec fn spec_lookup(entries: Seq<CurrencyPrice>, code: Seq<char>) -> Option<Seq<char>>
    decreases entries.len(),
{
    if entries.len() == 0 {
        None
    } else if entries[0].code@ == code {
        Some(entries[0].price@)
    } else {
        spec_lookup(entries.drop_first(), code)
    }
}

/// The codes a snapshot offers, in table order.
pub open spec fn spec_codes(entries: Seq<CurrencyPrice>) -> Seq<Seq<char>> {
    entries.map_values(|cp: CurrencyPrice| cp.code@)
}

impl PriceSnapshot {
    /// The price this snapshot stores for `code`, if any.
    pub open spec fn spec_price_of(self, code: Seq<char>) -> Option<Seq<char>> {
        spec_lookup(self.market_data@, code)
    }

    /// The codes this snapshot offers, in table order.
    pub open spec fn spec_available(self) -> Seq<Seq<char>> {
        spec_codes(self.market_data@)
    }
}

/// Looks `currency` up in the snapshot, case-sensitively. Returns the stored
/// price exactly when the snapshot quotes that code; otherwise fails with
/// `CurrencyNotSupported`, carrying the requested code and every code the
/// snapshot does offer, in order.
pub fn resolve_price(snapshot: &PriceSnapshot, currency: &String) -> (r: Result<
    String,
    ExportError,
>)
    ensures
        r is Ok <==> snapshot.spec_price_of(currency@) is Some,
        r matches Ok(p) ==> snapshot.spec_price_of(currency@) == Some(p@),
        r matches Err(e) ==> (e matches ExportError::CurrencyNotSupported {
            currency: c,
            available: a,
        } && c@ == currency@ && a.deep_view() == snapshot.spec_available()),
{
    let entries = &snapshot.market_data;
    let n = entries.len();
    let ghost all = snapshot.market_data@;
    proof {
        assert(all.skip(0) =~= all);
    }
    for i in 0..n
        invariant
            n == all.len(),
            entries@ == all,
            all == snapshot.market_data@,
            spec_lookup(all, currency@) == spec_lookup(all.skip(i as int), currency@),
    {
        proof {
            assert(all.skip(i as int)[0] == all[i as int]);
        }
        if entries[i].code.eq(currency) {
            proof {
                assert(spec_lookup(all.skip(i as int), currency@) == Some(
                    all[i as int].price@,
                ));
            }
            return Ok(entries[i].price.clone());
        }
        proof {
            assert(all.skip(i as int).drop_first() =~= all.skip(i as int + 1));
        }
    }
    proof {
        assert(all.skip(n as int) =~= Seq::<CurrencyPrice>::empty());
    }
    let mut available: Vec<String> = Vec::new();
    for j in 0..n
        invariant
            n == all.len(),
            entries@ == all,
            available@.len() == j,
            forall|k: int| 0 <= k < j ==> available@[k]@ == all[k].code@,
    {
        available.push(entries[j].code.clone());
    }
    proof {
        assert(available.deep_view() =~= spec_codes(all));
    }
    Err(ExportError::CurrencyNotSupported { currency: currency.clone(), available })
}

} // verus!
