//! The reconciliation pipeline: walks the reward sequence and the price
//! sequence in lock-step, builds one export record per pair, and renders the
//! records as delimited rows, header first.

use vstd::prelude::*;
use crate::amount::{spec_display_of, to_display_amount, dec_digits};
use crate::date::format_date;
use crate::error::ExportError;
use crate::network::Network;
use crate::price::{PriceSnapshot, resolve_price};
use crate::record::{ExportRecord, RewardEvent, csv_header, header_seq};

verus! {

/// Combines one reward with its day's price snapshot into one exportable
/// record: the block number is copied, the day is rendered through the
/// caller's date pattern, the amount is converted to the display
/// denomination, and the price is resolved for the requested currency.
/// A missing currency always surfaces as `CurrencyNotSupported`; `InvalidDate`
/// can only arise once the currency resolved.
pub fn build_record(
    reward: &RewardEvent,
    snapshot: &PriceSnapshot,
    network: &Network,
    currency: &String,
    date_format: &str,
) -> (r: Result<ExportRecord, ExportError>)
    ensures
        r is Ok <==> (snapshot.spec_price_of(currency@) is Some && reward.day.spec_format(
            date_format@,
        ) is Some),
        r matches Ok(rec) ==> {
            &&& rec.block_num == reward.block_num
            &&& Some(rec.block_time@) == reward.day.spec_format(date_format@)
            &&& rec.amount@ == spec_display_of(*network, reward.amount).string_seq()
            &&& Some(rec.price@) == snapshot.spec_price_of(currency@)
        },
        snapshot.spec_price_of(currency@) is None <==> (r matches Err(e)
            && e is CurrencyNotSupported),
        r matches Err(e) ==> (e matches ExportError::CurrencyNotSupported {
            currency: c,
            available: a,
        } ==> c@ == currency@ && a.deep_view() == snapshot.spec_available()),
        r matches Err(e) ==> (e matches ExportError::InvalidDate { pattern } ==> pattern@
            == date_format@ && snapshot.spec_price_of(currency@) is Some
            && reward.day.spec_format(date_format@) is None),
        r matches Err(e) ==> (e is CurrencyNotSupported || e is InvalidDate),
{
    let price = match resolve_price(snapshot, currency) {
        Ok(p) => p,
        Err(e) => {
            return Err(e);
        },
    };
    let amount = to_display_amount(network, reward.amount).to_decimal_string();
    let block_time = match format_date(
        reward.day.year,
        reward.day.month,
        reward.day.day,
        date_format,
    ) {
        Some(s) => s,
        None => {
            return Err(ExportError::InvalidDate { pattern: date_format.to_owned() });
        },
    };
    Ok(ExportRecord { block_num: reward.block_num, block_time, amount, price })
}

/// How many rows a run over these two sequences produces: the shorter
/// sequence's length.
pub open spec fn spec_row_count(rewards: Seq<RewardEvent>, prices: Seq<PriceSnapshot>) -> int {
    if rewards.len() <= prices.len() {
        rewards.len() as int
    } else {
        prices.len() as int
    }
}

/// Whether one reward/snapshot pair can be exported: the snapshot quotes the
/// currency, and the reward's day renders under the pattern.
pub open spec fn spec_pair_ok(
    reward: RewardEvent,
    snapshot: PriceSnapshot,
    currency: Seq<char>,
    pattern: Seq<char>,
) -> bool {
    snapshot.spec_price_of(currency) is Some && reward.day.spec_format(pattern) is Some
}

/// The delimited row one reward/snapshot pair exports to.
pub open spec fn spec_row(
    reward: RewardEvent,
    snapshot: PriceSnapshot,
    network: Network,
    currency: Seq<char>,
    pattern: Seq<char>,
) -> Seq<char> {
    dec_digits(reward.block_num as nat) + ";"@ + reward.day.spec_format(pattern).unwrap() + ";"@
        + spec_display_of(network, reward.amount).string_seq() + ";"@
        + snapshot.spec_price_of(currency).unwrap() + "\n"@
}

/// Walks the two sequences pairwise in index order, stopping at the shorter
/// length, and produces the delimited rows in original order: the header
/// first, then one row per pair. It succeeds exactly when every pair in
/// range is exportable; empty inputs succeed with the header alone. The
/// first failing pair aborts the whole run and decides the error: a missing
/// currency there gives `CurrencyNotSupported`, a day that does not render
/// gives `InvalidDate`.
pub fn run(
    rewards: &Vec<RewardEvent>,
    prices: &Vec<PriceSnapshot>,
    network: &Network,
    currency: &String,
    date_format: &str,
) -> (r: Result<Vec<String>, ExportError>)
    ensures
        r is Ok <==> (forall|i: int|
            0 <= i < spec_row_count(rewards@, prices@) ==> #[trigger] spec_pair_ok(
                rewards@[i],
                prices@[i],
                currency@,
                date_format@,
            )),
        r matches Ok(rows) ==> {
            &&& rows@.len() == spec_row_count(rewards@, prices@) + 1
            &&& rows@[0]@ == header_seq()
            &&& forall|i: int|
                0 <= i < spec_row_count(rewards@, prices@) ==> (#[trigger] rows@[i + 1])@
                    == spec_row(rewards@[i], prices@[i], *network, currency@, date_format@)
        },
        spec_row_count(rewards@, prices@) == 0 ==> r is Ok,
        r matches Err(e) ==> exists|i: int|
            {
                &&& 0 <= i < spec_row_count(rewards@, prices@)
                &&& !#[trigger] spec_pair_ok(rewards@[i], prices@[i], currency@, date_format@)
                &&& forall|j: int|
                    0 <= j < i ==> spec_pair_ok(rewards@[j], prices@[j], currency@, date_format@)
                &&& prices@[i].spec_price_of(currency@) is None ==> (e matches
                    ExportError::CurrencyNotSupported { currency: c, available: a } && c@
                    == currency@ && a.deep_view() == prices@[i].spec_available())
                &&& prices@[i].spec_price_of(currency@) is Some ==> (e matches
                    ExportError::InvalidDate { pattern } && pattern@ == date_format@)
            },
        r matches Err(e) ==> (e is CurrencyNotSupported || e is InvalidDate),
{
    let n = if rewards.len() <= prices.len() {
        rewards.len()
    } else {
        prices.len()
    };
    let mut rows: Vec<String> = Vec::new();
    rows.push(csv_header());
    for i in 0..n
        invariant
            n == spec_row_count(rewards@, prices@),
            rows@.len() == i + 1,
            rows@[0]@ == header_seq(),
            forall|j: int|
                0 <= j < i ==> (#[trigger] rows@[j + 1])@ == spec_row(
                    rewards@[j],
                    prices@[j],
                    *network,
                    currency@,
                    date_format@,
                ),
            forall|j: int|
                0 <= j < i ==> #[trigger] spec_pair_ok(
                    rewards@[j],
                    prices@[j],
                    currency@,
                    date_format@,
                ),
    {
        match build_record(&rewards[i], &prices[i], network, currency, date_format) {
            Ok(rec) => {
                let row = rec.to_csv_row();
                proof {
                    assert(spec_pair_ok(
                        rewards@[i as int],
                        prices@[i as int],
                        currency@,
                        date_format@,
                    ));
                    assert(rec.row_seq() == spec_row(
                        rewards@[i as int],
                        prices@[i as int],
                        *network,
                        currency@,
                        date_format@,
                    ));
                }
                rows.push(row);
            },
            Err(e) => {
                proof {
                    assert(!spec_pair_ok(
                        rewards@[i as int],
                        prices@[i as int],
                        currency@,
                        date_format@,
                    ));
                }
                return Err(e);
            },
        }
    }
    Ok(rows)
}

/// The base name (without extension) for an output file:
/// `{network-id}-{address}-{from-date}-{to-date}-rewards`.
pub open spec fn spec_file_name(
    network: Network,
    address: Seq<char>,
    from_date: Seq<char>,
    to_date: Seq<char>,
) -> Seq<char> {
    network.spec_id() + "-"@ + address + "-"@ + from_date + "-"@ + to_date + "-rewards"@
}

/// Builds the output file's base name from the network identifier, the
/// address, and the two already-rendered boundary dates.
pub fn construct_file_name(
    network: &Network,
    address: &str,
    from_date: &str,
    to_date: &str,
) -> (s: String)
    ensures
        s@ == spec_file_name(*network, address@, from_date@, to_date@),
{
    let mut s = String::from_str(network.id());
    s.append("-");
    s.append(address);
    s.append("-");
    s.append(from_date);
    s.append("-");
    s.append(to_date);
    s.append("-rewards");
    proof {
        assert(s@ =~= spec_file_name(*network, address@, from_date@, to_date@));
    }
    s
}

} // verus!
