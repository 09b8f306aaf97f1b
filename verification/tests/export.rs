use polkadot_rewards::amount::to_display_amount;
use polkadot_rewards::date::Date;
use polkadot_rewards::error::ExportError;
use polkadot_rewards::network::{parse_network, Network};
use polkadot_rewards::pipeline::{build_record, construct_file_name, run};
use polkadot_rewards::price::{CurrencyPrice, PriceSnapshot};
use polkadot_rewards::record::{csv_header, ExportRecord, RewardEvent};

fn snapshot(entries: &[(&str, &str)]) -> PriceSnapshot {
    let market_data = entries
        .iter()
        .map(|(code, price)| CurrencyPrice { code: code.to_string(), price: price.to_string() })
        .collect();
    PriceSnapshot { market_data }
}

#[test]
fn display_amount_divides_exactly_polkadot() {
    let a = to_display_amount(&Network::Polkadot, 50_000_000_000);
    assert_eq!(a.whole, 5);
    assert_eq!(a.frac, 0);
    assert_eq!(a.exp, 10);
}

#[test]
fn display_amount_divides_exactly_kusama() {
    let a = to_display_amount(&Network::Kusama, 50_000_000_000);
    assert_eq!(a.whole, 0);
    assert_eq!(a.frac, 50_000_000_000);
    assert_eq!(a.exp, 12);
}

#[test]
fn display_amount_renders_with_trimmed_fraction() {
    let a = to_display_amount(&Network::Polkadot, 50_500_000_000);
    assert_eq!(a.to_decimal_string(), "5.05");
}

#[test]
fn display_amount_renders_zero() {
    let a = to_display_amount(&Network::Polkadot, 0);
    assert_eq!(a.to_decimal_string(), "0.0");
}

#[test]
fn display_amount_renders_pure_fraction() {
    let a = to_display_amount(&Network::Kusama, 123);
    assert_eq!(a.to_decimal_string(), "0.000000000123");
}

#[test]
fn display_amount_renders_large_value() {
    let a = to_display_amount(&Network::Polkadot, 123_456_789_012_345);
    assert_eq!(a.to_decimal_string(), "12345.6789012345");
}

#[test]
fn display_amount_renders_largest_value() {
    let a = to_display_amount(&Network::Kusama, u128::MAX);
    assert_eq!(a.whole, 340_282_366_920_938_463_463_374_607);
    assert_eq!(a.frac, 431_768_211_455);
    assert_eq!(a.to_decimal_string(), "340282366920938463463374607.431768211455");
}

#[test]
fn resolve_price_first_entry_wins_on_duplicate_codes() {
    let snap = snapshot(&[("USD", "1.0"), ("USD", "2.0")]);
    let r = polkadot_rewards::price::resolve_price(&snap, &"USD".to_string());
    assert_eq!(r.unwrap(), "1.0");
}

#[test]
fn resolve_price_finds_stored_value() {
    let snap = snapshot(&[("USD", "15.23"), ("EUR", "12.50")]);
    let r = polkadot_rewards::price::resolve_price(&snap, &"EUR".to_string());
    assert_eq!(r.unwrap(), "12.50");
}

#[test]
fn resolve_price_missing_code_lists_available() {
    let snap = snapshot(&[("USD", "15.23"), ("EUR", "12.50")]);
    let r = polkadot_rewards::price::resolve_price(&snap, &"JPY".to_string());
    match r {
        Err(ExportError::CurrencyNotSupported { currency, available }) => {
            assert_eq!(currency, "JPY");
            assert_eq!(available, vec!["USD".to_string(), "EUR".to_string()]);
        }
        other => panic!("expected CurrencyNotSupported, got {:?}", other),
    }
}

#[test]
fn network_ids() {
    assert_eq!(Network::Polkadot.id(), "polkdadot");
    assert_eq!(Network::Kusama.id(), "kusama");
}

#[test]
fn network_divisors() {
    assert_eq!(Network::Polkadot.divisor(), 10_000_000_000);
    assert_eq!(Network::Kusama.divisor(), 1_000_000_000_000);
}

#[test]
fn parse_network_accepts_case_variants() {
    assert_eq!(parse_network("Polkadot").unwrap(), Network::Polkadot);
    assert_eq!(parse_network("DOT").unwrap(), Network::Polkadot);
    assert_eq!(parse_network("kusama").unwrap(), Network::Kusama);
    assert_eq!(parse_network("KSM").unwrap(), Network::Kusama);
}

#[test]
fn parse_network_rejects_unknown_name() {
    match parse_network("solana") {
        Err(ExportError::UnknownNetwork { name }) => assert_eq!(name, "solana"),
        other => panic!("expected UnknownNetwork, got {:?}", other),
    }
}

#[test]
fn record_builder_scenario_polkadot_usd() {
    let reward = RewardEvent {
        block_num: 100,
        day: Date { year: 2021, month: 6, day: 1 },
        amount: 50_000_000_000,
    };
    let snap = snapshot(&[("USD", "15.23")]);
    let rec = build_record(&reward, &snap, &Network::Polkadot, &"USD".to_string(), "%Y-%m-%d")
        .unwrap();
    assert_eq!(rec.block_num, 100);
    assert_eq!(rec.block_time, "2021-06-01");
    assert_eq!(rec.amount, "5.0");
    assert_eq!(rec.price, "15.23");
}

#[test]
fn record_builder_missing_currency_fails() {
    let reward = RewardEvent {
        block_num: 100,
        day: Date { year: 2021, month: 6, day: 1 },
        amount: 50_000_000_000,
    };
    let snap = snapshot(&[("USD", "15.23")]);
    let r = build_record(&reward, &snap, &Network::Polkadot, &"JPY".to_string(), "%Y-%m-%d");
    match r {
        Err(ExportError::CurrencyNotSupported { currency, available }) => {
            assert_eq!(currency, "JPY");
            assert_eq!(available, vec!["USD".to_string()]);
        }
        other => panic!("expected CurrencyNotSupported, got {:?}", other),
    }
}

#[test]
fn record_builder_rejects_impossible_date() {
    let reward = RewardEvent {
        block_num: 1,
        day: Date { year: 2021, month: 2, day: 30 },
        amount: 1,
    };
    let snap = snapshot(&[("USD", "1.0")]);
    let r = build_record(&reward, &snap, &Network::Polkadot, &"USD".to_string(), "%Y-%m-%d");
    match r {
        Err(ExportError::InvalidDate { pattern }) => assert_eq!(pattern, "%Y-%m-%d"),
        other => panic!("expected InvalidDate, got {:?}", other),
    }
}

#[test]
fn record_builder_rejects_malformed_pattern() {
    let reward = RewardEvent {
        block_num: 1,
        day: Date { year: 2021, month: 6, day: 1 },
        amount: 1,
    };
    let snap = snapshot(&[("USD", "1.0")]);
    let r = build_record(&reward, &snap, &Network::Polkadot, &"USD".to_string(), "%?");
    match r {
        Err(ExportError::InvalidDate { pattern }) => assert_eq!(pattern, "%?"),
        other => panic!("expected InvalidDate, got {:?}", other),
    }
}

#[test]
fn csv_row_is_semicolon_delimited() {
    let rec = ExportRecord {
        block_num: 100,
        block_time: "2021-06-01".to_string(),
        amount: "5.0".to_string(),
        price: "15.23".to_string(),
    };
    assert_eq!(rec.to_csv_row(), "100;2021-06-01;5.0;15.23\n");
}

#[test]
fn header_names_the_fields() {
    assert_eq!(csv_header(), "block_num;block_time;amount;price\n");
}

#[test]
fn run_produces_one_row_per_pair_in_order() {
    let rewards = vec![
        RewardEvent { block_num: 100, day: Date { year: 2021, month: 6, day: 1 }, amount: 50_000_000_000 },
        RewardEvent { block_num: 101, day: Date { year: 2021, month: 6, day: 2 }, amount: 10_000_000_000 },
    ];
    let prices = vec![snapshot(&[("USD", "15.23")]), snapshot(&[("USD", "16.00")])];
    let rows = run(&rewards, &prices, &Network::Polkadot, &"USD".to_string(), "%Y-%m-%d")
        .unwrap();
    assert_eq!(
        rows,
        vec![
            "block_num;block_time;amount;price\n".to_string(),
            "100;2021-06-01;5.0;15.23\n".to_string(),
            "101;2021-06-02;1.0;16.00\n".to_string(),
        ]
    );
}

#[test]
fn run_with_empty_inputs_yields_header_only() {
    let rewards: Vec<RewardEvent> = Vec::new();
    let prices: Vec<PriceSnapshot> = Vec::new();
    let rows = run(&rewards, &prices, &Network::Polkadot, &"USD".to_string(), "%Y-%m-%d")
        .unwrap();
    assert_eq!(rows, vec!["block_num;block_time;amount;price\n".to_string()]);
}

#[test]
fn run_stops_at_the_shorter_sequence() {
    let rewards = vec![
        RewardEvent { block_num: 100, day: Date { year: 2021, month: 6, day: 1 }, amount: 50_000_000_000 },
        RewardEvent { block_num: 101, day: Date { year: 2021, month: 6, day: 2 }, amount: 10_000_000_000 },
    ];
    let prices = vec![snapshot(&[("USD", "15.23")])];
    let rows = run(&rewards, &prices, &Network::Polkadot, &"USD".to_string(), "%Y-%m-%d")
        .unwrap();
    assert_eq!(rows.len(), 2);
    assert_eq!(rows[1], "100;2021-06-01;5.0;15.23\n");
}

#[test]
fn run_aborts_on_first_missing_currency() {
    let rewards = vec![
        RewardEvent { block_num: 100, day: Date { year: 2021, month: 6, day: 1 }, amount: 1 },
        RewardEvent { block_num: 101, day: Date { year: 2021, month: 6, day: 2 }, amount: 2 },
    ];
    let prices = vec![snapshot(&[("USD", "15.23")]), snapshot(&[("EUR", "13.00")])];
    let r = run(&rewards, &prices, &Network::Polkadot, &"USD".to_string(), "%Y-%m-%d");
    match r {
        Err(ExportError::CurrencyNotSupported { currency, available }) => {
            assert_eq!(currency, "USD");
            assert_eq!(available, vec!["EUR".to_string()]);
        }
        other => panic!("expected CurrencyNotSupported, got {:?}", other),
    }
}

#[test]
fn file_name_follows_the_convention() {
    let name = construct_file_name(&Network::Kusama, "HRkPcB", "2021-06-01", "2021-07-01");
    assert_eq!(name, "kusama-HRkPcB-2021-06-01-2021-07-01-rewards");
}
