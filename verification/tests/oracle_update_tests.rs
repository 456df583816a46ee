use stellarflow::price_oracle::buffer::{truncate_entries, MAX_MEDIAN_ENTRIES};
use stellarflow::price_oracle::state::PriceOracle;
use stellarflow::price_oracle::types::{Ledger, PriceBufferEntry};
use stellarflow::price_oracle::Error;

fn s(x: &str) -> String {
    x.to_string()
}

fn ledger(timestamp: u64, sequence: u32) -> Ledger {
    Ledger { timestamp, sequence, contract_address: s("ORACLE") }
}

fn oracle_with_providers(n: u32) -> PriceOracle {
    let mut o = PriceOracle::new();
    o.initialize(s("A"), vec![]).unwrap();
    o.add_asset(&ledger(1, 1), &s("A"), s("NGN")).unwrap();
    for i in 0..n {
        o.providers.set(format!("P{}", i), i);
    }
    o
}

#[test]
fn buffer_truncation_keeps_highest_weight_providers() {
    let mut o = oracle_with_providers(15);
    let l = ledger(100, 5);
    for i in 0..15u32 {
        let out = o.update_price(&l, format!("P{}", i), s("NGN"), 100 + i as i128, 90, 600).unwrap();
        assert!(out.median > 0);
    }
    assert_eq!(o.get_relayer_count(&l, &s("NGN")), MAX_MEDIAN_ENTRIES);
    let buffer = o.get_price_buffer_data(&l, &s("NGN")).unwrap();
    let mut kept: Vec<String> = buffer.entries.iter().map(|e| e.provider.clone()).collect();
    kept.sort();
    let mut expected: Vec<String> = (4..15).map(|i| format!("P{}", i)).collect();
    expected.sort();
    assert_eq!(kept, expected);
}

#[test]
fn buffer_no_truncation_when_under_limit() {
    let mut o = oracle_with_providers(5);
    let l = ledger(100, 5);
    for i in 0..5u32 {
        o.update_price(&l, format!("P{}", i), s("NGN"), 100, 90, 600).unwrap();
    }
    assert_eq!(o.get_relayer_count(&l, &s("NGN")), 5);
}

#[test]
fn buffer_truncation_with_equal_weights() {
    let entries: Vec<PriceBufferEntry> = (0..13)
        .map(|i| PriceBufferEntry { price: i as i128, provider: format!("P{}", i), timestamp: 1 })
        .collect();
    let weights = vec![7u32; 13];
    let kept = truncate_entries(&entries, &weights);
    // equal weights keep the earliest submissions, in order
    let providers: Vec<String> = kept.iter().map(|e| e.provider.clone()).collect();
    let expected: Vec<String> = (0..11).map(|i| format!("P{}", i)).collect();
    assert_eq!(providers, expected);
}

#[test]
fn truncation_orders_by_weight() {
    let entries: Vec<PriceBufferEntry> = (0..12)
        .map(|i| PriceBufferEntry { price: i as i128, provider: format!("P{}", i), timestamp: 1 })
        .collect();
    let weights: Vec<u32> = vec![1, 9, 1, 9, 5, 5, 5, 5, 5, 5, 5, 5];
    let kept = truncate_entries(&entries, &weights);
    assert_eq!(kept.len(), 11);
    let providers: Vec<String> = kept.iter().map(|e| e.provider.clone()).collect();
    assert_eq!(providers[0], s("P1"));
    assert_eq!(providers[1], s("P3"));
    // of the two lightest, the earlier one stays
    assert!(providers.contains(&s("P0")));
    assert!(!providers.contains(&s("P2")));
}

#[test]
fn median_calculation_after_truncation() {
    let mut o = oracle_with_providers(15);
    let l = ledger(100, 5);
    let mut last = 0;
    for i in 0..15u32 {
        last = o.update_price(&l, format!("P{}", i), s("NGN"), 100 + i as i128, 90, 600).unwrap().median;
    }
    // the kept prices are 104..=114
    assert_eq!(last, 109);
    assert_eq!(o.get_price(&l, &s("NGN"), true).unwrap().price, 109);
}

#[test]
fn one_submission_per_provider_per_ledger() {
    let mut o = oracle_with_providers(2);
    let l = ledger(100, 5);
    o.update_price(&l, s("P0"), s("NGN"), 100, 90, 600).unwrap();
    assert_eq!(o.update_price(&l, s("P0"), s("NGN"), 101, 90, 600).unwrap_err(), Error::AlreadyInitialized);
    // a new ledger starts a new buffer
    assert!(o.update_price(&ledger(105, 6), s("P0"), s("NGN"), 101, 90, 600).is_ok());
    assert_eq!(o.get_relayer_count(&ledger(105, 6), &s("NGN")), 1);
}

#[test]
fn update_rejections() {
    let mut o = oracle_with_providers(2);
    let l = ledger(100, 5);
    assert_eq!(o.update_price(&l, s("P0"), s("ZAR"), 100, 90, 600).unwrap_err(), Error::AssetNotFound);
    assert_eq!(o.update_price(&l, s("P0"), s("NGN"), 0, 90, 600).unwrap_err(), Error::InvalidPrice);
    assert_eq!(o.update_price(&l, s("Q"), s("NGN"), 100, 90, 600).unwrap_err(), Error::NotAuthorized);
}

#[test]
fn flash_crash_is_rejected_unless_bypassed() {
    let mut o = oracle_with_providers(2);
    o.update_price(&ledger(100, 5), s("P0"), s("NGN"), 1_000, 90, 600).unwrap();
    assert_eq!(
        o.update_price(&ledger(110, 6), s("P1"), s("NGN"), 1_200, 90, 600).unwrap_err(),
        Error::FlashCrashDetected
    );
    // a 10% move is still accepted
    assert!(o.update_price(&ledger(110, 6), s("P1"), s("NGN"), 1_100, 90, 600).is_ok());
    o.enable_bypass_safety_checks(&ledger(120, 7), &s("A")).unwrap();
    assert!(o.update_price(&ledger(130, 8), s("P0"), s("NGN"), 5_000, 90, 600).is_ok());
}

#[test]
fn price_bounds_apply_to_updates() {
    let mut o = oracle_with_providers(1);
    o.set_price_bounds(&s("A"), s("NGN"), 10, 20).unwrap();
    assert_eq!(o.update_price(&ledger(100, 5), s("P0"), s("NGN"), 21, 90, 600).unwrap_err(), Error::PriceOutOfBounds);
    assert!(o.update_price(&ledger(100, 5), s("P0"), s("NGN"), 20, 90, 600).is_ok());
}

#[test]
fn anomaly_reported_for_large_moves() {
    let mut o = oracle_with_providers(2);
    let first = o.update_price(&ledger(100, 5), s("P0"), s("NGN"), 1_000, 90, 600).unwrap();
    assert_eq!(first.anomaly_delta, None);
    let second = o.update_price(&ledger(110, 6), s("P1"), s("NGN"), 1_060, 90, 600).unwrap();
    assert_eq!(second.anomaly_delta, Some(60));
}
