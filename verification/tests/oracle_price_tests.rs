use stellarflow::price_oracle::prices::PriceWrite;
use stellarflow::price_oracle::state::PriceOracle;
use stellarflow::price_oracle::types::{AssetWeight, Ledger};
use stellarflow::price_oracle::Error;

fn s(x: &str) -> String {
    x.to_string()
}

fn ledger(timestamp: u64, sequence: u32) -> Ledger {
    Ledger { timestamp, sequence, contract_address: s("ORACLE") }
}

fn oracle() -> PriceOracle {
    let mut o = PriceOracle::new();
    o.initialize(s("A"), vec![]).unwrap();
    o
}

fn oracle_with_pairs() -> PriceOracle {
    let mut o = PriceOracle::new();
    o.initialize(s("A"), vec![s("NGN"), s("KES")]).unwrap();
    o
}

#[test]
fn set_price_then_read_gives_it_back() {
    let mut o = oracle();
    let l = ledger(1_000, 7);
    assert_eq!(o.set_price(&l, s("NGN"), 1_500, 60), Ok(PriceWrite::Added));
    let pd = o.get_price(&l, &s("NGN"), true).unwrap();
    assert_eq!((pd.price, pd.timestamp, pd.decimals, pd.confidence_score, pd.ttl), (1_500, 1_000, 9, 100, 60));
    assert_eq!(pd.provider, s("ORACLE"));
    assert_eq!(o.get_last_price(&l, &s("NGN")), Ok(1_500));
    assert_eq!(o.get_price_safe(&s("NGN")).unwrap().unwrap().price, 1_500);
}

#[test]
fn set_price_kinds_of_write() {
    let mut o = oracle();
    assert_eq!(o.set_price(&ledger(10, 1), s("NGN"), 100, 60), Ok(PriceWrite::Added));
    assert_eq!(o.set_price(&ledger(20, 2), s("NGN"), 100, 90), Ok(PriceWrite::Refreshed));
    let pd = o.get_price_safe(&s("NGN")).unwrap().unwrap();
    // a refresh keeps the stored entry and only moves its timestamp
    assert_eq!((pd.timestamp, pd.ttl), (20, 60));
    assert_eq!(o.set_price(&ledger(30, 3), s("NGN"), 120, 90), Ok(PriceWrite::Updated));
    assert_eq!(o.get_price_safe(&s("NGN")).unwrap().unwrap().ttl, 90);
}

#[test]
fn set_price_rejections() {
    let mut o = oracle();
    assert_eq!(o.set_price(&ledger(10, 1), s("NGN"), 0, 60), Err(Error::InvalidPrice));
    o.set_price_floor(&s("A"), s("NGN"), 50).unwrap();
    assert_eq!(o.set_price(&ledger(10, 1), s("NGN"), 49, 60), Err(Error::PriceOutOfBounds));
    o.price_lock = true;
    assert_eq!(o.set_price(&ledger(10, 1), s("NGN"), 60, 60), Err(Error::ReentrancyDetected));
    o.price_lock = false;
    o.frozen = true;
    assert_eq!(o.set_price(&ledger(10, 1), s("NGN"), 60, 60), Err(Error::ContractFrozen));
}

#[test]
fn new_asset_is_tracked_and_logged() {
    let mut o = oracle_with_pairs();
    o.set_price(&ledger(10, 1), s("GHS"), 5, 60).unwrap();
    assert_eq!(o.get_all_assets(), vec![s("NGN"), s("KES"), s("GHS")]);
    assert_eq!(o.get_asset_count(), 3);
    let events = o.get_last_n_events(5);
    assert_eq!(events.len(), 1);
    assert_eq!((events[0].event_type.as_str(), events[0].asset.as_str(), events[0].price), ("asset_added", "GHS", 5));
}

#[test]
fn stale_and_expired_reads() {
    let mut o = oracle();
    o.set_price(&ledger(1_000, 1), s("NGN"), 100, 60).unwrap();
    // past the time to live the price is not served
    assert_eq!(o.get_price(&ledger(1_060, 2), &s("NGN"), true).unwrap_err(), Error::AssetNotFound);
    let st = o.get_price_with_status(&ledger(1_060, 2), &s("NGN")).unwrap();
    assert!(st.is_stale);
    assert_eq!(st.data.price, 100);
    // past the hard maximum age the read is refused
    o.set_price(&ledger(2_000, 3), s("KES"), 100, 10_000).unwrap();
    assert_eq!(o.get_price(&ledger(2_301, 4), &s("KES"), true).unwrap_err(), Error::StaleRateData);
    assert!(o.get_price(&ledger(2_300, 4), &s("KES"), true).is_ok());
}

#[test]
fn removed_asset_is_not_found() {
    let mut o = oracle_with_pairs();
    o.set_price(&ledger(10, 1), s("NGN"), 100, 60).unwrap();
    assert_eq!(o.remove_asset(&s("X"), &s("NGN")), Err(Error::NotAuthorized));
    assert!(o.remove_asset(&s("A"), &s("NGN")).is_ok());
    assert_eq!(o.get_price(&ledger(10, 1), &s("NGN"), true).unwrap_err(), Error::AssetNotFound);
    assert_eq!(o.get_all_assets(), vec![s("KES")]);
    assert_eq!(o.remove_asset(&s("A"), &s("NGN")), Err(Error::AssetNotFound));
}

#[test]
fn batch_reads() {
    let mut o = oracle();
    o.add_asset(&ledger(1, 1), &s("A"), s("ZAR")).unwrap();
    o.set_price(&ledger(10, 1), s("NGN"), 100, 60).unwrap();
    let r = o.get_prices(&ledger(20, 2), &vec![s("NGN"), s("ZAR")]).unwrap();
    assert_eq!(r.len(), 2);
    let e = r[0].unwrap();
    assert_eq!((e.price, e.timestamp, e.decimals), (100, 10, 9));
    assert!(r[1].is_none());
    let w = o.get_prices_with_status(&ledger(100, 3), &vec![s("NGN"), s("ZAR"), s("GHS")]);
    assert!(w[0].unwrap().is_stale);
    // an added asset holds a zero placeholder price that is already stale
    assert_eq!((w[1].unwrap().price, w[1].unwrap().is_stale), (0, true));
    assert!(w[2].is_none());
}

#[test]
fn community_prices_are_separate() {
    let mut o = oracle_with_pairs();
    assert_eq!(o.submit_community_price(&ledger(5, 1), s("U"), s("ZAR"), 10, 60), Err(Error::InvalidAssetSymbol));
    assert_eq!(o.submit_community_price(&ledger(5, 1), s("U"), s("NGN"), 0, 60), Err(Error::InvalidPrice));
    assert!(o.submit_community_price(&ledger(5, 1), s("U"), s("NGN"), 42, 60).is_ok());
    assert_eq!(o.get_price(&ledger(5, 1), &s("NGN"), false).unwrap().price, 42);
    assert_eq!(o.get_price(&ledger(5, 1), &s("NGN"), true).unwrap_err(), Error::AssetNotFound);
}

#[test]
fn event_log_keeps_five_newest_first() {
    let mut o = oracle();
    for i in 1..=7 {
        o.set_price(&ledger(i as u64, i), s("NGN"), i as i128 * 10, 60).unwrap();
    }
    let all = o.get_last_n_events(10);
    assert_eq!(all.len(), 5);
    let prices: Vec<i128> = all.iter().map(|e| e.price).collect();
    assert_eq!(prices, vec![70, 60, 50, 40, 30]);
    assert_eq!(o.get_last_n_events(2).len(), 2);
}

#[test]
fn twap_averages_last_ten_prices() {
    let mut o = oracle();
    assert_eq!(o.get_twap(&s("NGN")), Ok(None));
    for i in 1..=12 {
        o.set_price(&ledger(i as u64, i), s("NGN"), i as i128 * 10, 60).unwrap();
    }
    // the window holds 30..=120, whose mean is 75
    assert_eq!(o.get_twap(&s("NGN")), Ok(Some(75)));
}

#[test]
fn clear_assets_limits_batch_size() {
    let mut o = oracle();
    let many: Vec<String> = (0..21).map(|i| format!("A{}", i)).collect();
    assert_eq!(o.clear_assets(&many), Err(Error::TooManyAssets));
    assert!(o.clear_assets(&vec![s("NGN")]).is_ok());
}

#[test]
fn asset_metadata_round_trips() {
    let mut o = oracle();
    o.set_asset_decimals(&s("A"), s("NGN"), 7, 2).unwrap();
    let m = o.get_asset_meta(&s("NGN")).unwrap();
    assert_eq!((m.base_decimals, m.quote_decimals), (7, 2));
    o.set_asset_info(&s("A"), s("NGN"), s("Naira"), 7, 2).unwrap();
    assert_eq!(o.get_asset_info(&s("NGN")).unwrap().name, s("Naira"));
    assert_eq!(o.get_asset_description(&s("NGN")), Err(Error::AssetNotFound));
    o.set_asset_description(&s("A"), s("NGN"), s("Nigerian naira")).unwrap();
    assert_eq!(o.get_asset_description(&s("NGN")), Ok(s("Nigerian naira")));
}

#[test]
fn static_information() {
    assert_eq!(PriceOracle::normalize_price(12_345), 12_345);
    assert_eq!(PriceOracle::get_ledger_version(&ledger(1, 99)), 99);
    assert_eq!(PriceOracle::get_contract_name(), s("StellarFlow Africa Oracle"));
    assert_eq!(PriceOracle::ping(), s("PONG"));
}

#[test]
fn index_price_weights_components() {
    let mut o = oracle();
    o.set_price(&ledger(10, 1), s("NGN"), 100, 600).unwrap();
    o.set_price(&ledger(10, 1), s("KES"), 300, 600).unwrap();
    let basket = vec![AssetWeight { asset: s("NGN"), weight: 5_000 }, AssetWeight { asset: s("KES"), weight: 5_000 }];
    assert_eq!(o.get_index_price(&ledger(20, 2), &basket), Ok(200));
}

#[test]
fn index_price_rejections() {
    let mut o = oracle();
    o.set_price(&ledger(10, 1), s("NGN"), 100, 600).unwrap();
    let zero = vec![AssetWeight { asset: s("NGN"), weight: 0 }];
    assert_eq!(o.get_index_price(&ledger(20, 2), &zero), Err(Error::InvalidWeight));
    let unknown = vec![AssetWeight { asset: s("ZAR"), weight: 1 }];
    assert_eq!(o.get_index_price(&ledger(20, 2), &unknown), Err(Error::AssetNotFound));
    assert_eq!(o.get_index_price(&ledger(20, 2), &vec![]), Err(Error::AssetNotFound));
}

#[test]
fn index_price_divides_by_exact_weight_total() {
    let mut o = oracle();
    o.set_price(&ledger(10, 1), s("NGN"), 1, 600).unwrap();
    o.set_price(&ledger(10, 1), s("KES"), 1, 600).unwrap();
    let heavy = vec![
        AssetWeight { asset: s("NGN"), weight: 3_000_000_000 },
        AssetWeight { asset: s("KES"), weight: 3_000_000_000 },
    ];
    assert_eq!(o.get_index_price(&ledger(20, 2), &heavy), Ok(1));
}
