use stellarflow::price_oracle::state::PriceOracle;
use stellarflow::price_oracle::types::Ledger;
use stellarflow::price_oracle::Error;

fn s(x: &str) -> String {
    x.to_string()
}

fn ledger(timestamp: u64) -> Ledger {
    Ledger { timestamp, sequence: 1, contract_address: s("ORACLE") }
}

fn oracle_with_admins(admins: &[&str]) -> PriceOracle {
    let mut o = PriceOracle::new();
    o.initialize(s(admins[0]), vec![s("NGN"), s("KES")]).unwrap();
    o.admins = admins.iter().map(|a| s(a)).collect();
    o
}

#[test]
fn oracle_initialize_only_once() {
    let mut o = PriceOracle::new();
    assert!(o.initialize(s("A"), vec![s("NGN")]).is_ok());
    assert_eq!(o.initialize(s("B"), vec![]), Err(Error::AlreadyInitialized));
    assert_eq!(o.get_admin().unwrap(), s("A"));
    assert_eq!(o.get_admin_count(), 1);
    assert_eq!(o.get_all_assets(), vec![s("NGN")]);
}

#[test]
fn init_admin_on_fresh_contract() {
    let mut o = PriceOracle::new();
    assert_eq!(o.get_admin(), Err(Error::AdminNotSet));
    assert!(o.init_admin(s("A")).is_ok());
    assert!(o.is_admin(&s("A")));
    assert_eq!(o.init_admin(s("B")), Err(Error::AlreadyInitialized));
}

#[test]
fn register_admin_needs_two_distinct_admins() {
    let mut o = oracle_with_admins(&["A", "B"]);
    assert_eq!(o.register_admin(&s("A"), &s("A"), s("C")), Err(Error::MultiSigValidationFailed));
    assert_eq!(o.register_admin(&s("A"), &s("X"), s("C")), Err(Error::NotAuthorized));
    assert!(o.register_admin(&s("A"), &s("B"), s("C")).is_ok());
    assert_eq!(o.get_admin_count(), 3);
    assert_eq!(o.register_admin(&s("A"), &s("B"), s("D")), Err(Error::MaxAdminsReached));
    assert_eq!(o.get_admin_count(), 3);
}

#[test]
fn register_existing_admin_is_not_duplicated() {
    let mut o = oracle_with_admins(&["A", "B"]);
    assert!(o.register_admin(&s("A"), &s("B"), s("B")).is_ok());
    assert_eq!(o.get_admin_count(), 2);
}

#[test]
fn remove_admin_keeps_the_last_one() {
    let mut o = oracle_with_admins(&["A", "B"]);
    assert_eq!(o.remove_admin(&s("A"), &s("B"), &s("Z")), Err(Error::NotAuthorized));
    assert!(o.remove_admin(&s("A"), &s("B"), &s("B")).is_ok());
    assert_eq!(o.get_admin_count(), 1);
    assert!(o.is_admin(&s("A")));
    assert!(!o.is_admin(&s("B")));
    // a single admin can no longer satisfy the two-admin check
    assert_eq!(o.remove_admin(&s("A"), &s("B"), &s("A")), Err(Error::NotAuthorized));
}

#[test]
fn remove_admin_removes_a_signer() {
    let mut o = oracle_with_admins(&["A", "B"]);
    o.admins = vec![s("A"), s("B")];
    assert!(o.remove_admin(&s("A"), &s("B"), &s("A")).is_ok());
    assert_eq!(o.admins, vec![s("B")]);
}

#[test]
fn toggle_pause_twice_restores() {
    let mut o = oracle_with_admins(&["A", "B"]);
    assert!(!o.paused);
    assert_eq!(o.toggle_pause(&s("A"), &s("B")), Ok(true));
    assert!(o.paused);
    assert_eq!(o.toggle_pause(&s("B"), &s("A")), Ok(false));
    assert!(!o.paused);
    assert_eq!(o.toggle_pause(&s("A"), &s("A")), Err(Error::MultiSigValidationFailed));
}

#[test]
fn toggle_pause_refused_when_frozen() {
    let mut o = oracle_with_admins(&["A", "B"]);
    o.frozen = true;
    assert_eq!(o.toggle_pause(&s("A"), &s("B")), Err(Error::ContractFrozen));
}

#[test]
fn admin_transfer_waits_for_timelock() {
    let mut o = oracle_with_admins(&["A"]);
    assert_eq!(o.accept_admin(&ledger(10), &s("N")), Err(Error::PendingAdminNotFound));
    assert_eq!(o.transfer_admin(&ledger(1_000), &s("X"), s("N")), Err(Error::NotAuthorized));
    assert!(o.transfer_admin(&ledger(1_000), &s("A"), s("N")).is_ok());
    assert_eq!(o.accept_admin(&ledger(2_000), &s("M")), Err(Error::NotPendingAdmin));
    assert_eq!(o.accept_admin(&ledger(1_000 + 86_399), &s("N")), Err(Error::AdminTimelockNotExpired));
    assert!(o.accept_admin(&ledger(1_000 + 86_400), &s("N")).is_ok());
    assert_eq!(o.admins, vec![s("N")]);
    assert_eq!(o.pending_admin, None);
    assert_eq!(o.admin_update_timestamp, Some(87_400));
}

#[test]
fn renounce_ownership_locks_out_every_admin() {
    let mut o = oracle_with_admins(&["A"]);
    assert!(o.transfer_admin(&ledger(5), &s("A"), s("N")).is_ok());
    assert!(o.renounce_ownership(&s("A")).is_ok());
    assert_eq!(o.get_admin_count(), 0);
    assert_eq!(o.accept_admin(&ledger(1_000_000), &s("N")), Err(Error::PendingAdminNotFound));
    assert_eq!(o.set_max_deviation_percentage(&s("A"), 500), Err(Error::NotAuthorized));
    assert_eq!(o.renounce_ownership(&s("A")), Err(Error::NotAuthorized));
}

#[test]
fn price_floor_rollback_restores_previous_floor() {
    let mut o = oracle_with_admins(&["A"]);
    assert_eq!(o.rollback_price_floor(&s("A"), &s("NGN")), Err(Error::NoPreviousConfig));
    assert!(o.set_price_floor(&s("A"), s("NGN"), 100).is_ok());
    assert!(o.set_price_floor(&s("A"), s("NGN"), 250).is_ok());
    assert_eq!(o.get_price_floor(&s("NGN")), Some(250));
    assert!(o.rollback_price_floor(&s("A"), &s("NGN")).is_ok());
    assert_eq!(o.get_price_floor(&s("NGN")), Some(100));
    assert_eq!(o.rollback_price_floor(&s("A"), &s("NGN")), Err(Error::NoPreviousConfig));
}

#[test]
fn price_floor_validation() {
    let mut o = oracle_with_admins(&["A"]);
    assert_eq!(o.set_price_floor(&s("A"), s("NGN"), 0), Err(Error::InvalidPriceFloor));
    assert!(o.set_price_bounds(&s("A"), s("NGN"), 10, 500).is_ok());
    assert_eq!(o.set_price_floor(&s("A"), s("NGN"), 501), Err(Error::InvalidPriceFloor));
    assert_eq!(o.set_price_floor(&s("B"), s("NGN"), 50), Err(Error::NotAuthorized));
    assert_eq!(o.get_price_floor(&s("NGN")), None);
}

#[test]
fn price_bounds_rollback_restores_previous_bounds() {
    let mut o = oracle_with_admins(&["A"]);
    assert_eq!(o.set_price_bounds(&s("A"), s("KES"), 5, 4), Err(Error::InvalidPriceBounds));
    assert_eq!(o.set_price_bounds(&s("A"), s("KES"), 0, 4), Err(Error::InvalidPriceBounds));
    assert!(o.set_price_bounds(&s("A"), s("KES"), 10, 20).is_ok());
    assert!(o.set_price_bounds(&s("A"), s("KES"), 15, 30).is_ok());
    let b = o.get_price_bounds(&s("KES")).unwrap();
    assert_eq!((b.min_price, b.max_price), (15, 30));
    assert!(o.rollback_price_bounds(&s("A"), &s("KES")).is_ok());
    let b = o.get_price_bounds(&s("KES")).unwrap();
    assert_eq!((b.min_price, b.max_price), (10, 20));
}

#[test]
fn price_bounds_must_cover_floor() {
    let mut o = oracle_with_admins(&["A"]);
    assert!(o.set_price_floor(&s("A"), s("KES"), 100).is_ok());
    assert_eq!(o.set_price_bounds(&s("A"), s("KES"), 10, 99), Err(Error::InvalidPriceBounds));
}

#[test]
fn max_deviation_default_set_and_rollback() {
    let mut o = oracle_with_admins(&["A"]);
    assert_eq!(o.get_max_deviation_percentage(), 1_000);
    assert_eq!(o.set_max_deviation_percentage(&s("A"), 0), Err(Error::InvalidMaxDeviation));
    assert_eq!(o.set_max_deviation_percentage(&s("A"), 10_001), Err(Error::InvalidMaxDeviation));
    assert!(o.set_max_deviation_percentage(&s("A"), 500).is_ok());
    assert!(o.set_max_deviation_percentage(&s("A"), 700).is_ok());
    assert_eq!(o.get_max_deviation_percentage(), 700);
    assert!(o.rollback_max_deviation_percentage(&s("A")).is_ok());
    assert_eq!(o.get_max_deviation_percentage(), 500);
    assert_eq!(o.rollback_max_deviation_percentage(&s("A")), Err(Error::NoPreviousConfig));
}

#[test]
fn operations_fail_before_initialization() {
    let mut o = PriceOracle::new();
    assert_eq!(o.set_price_floor(&s("A"), s("NGN"), 5), Err(Error::NotInitialized));
}

#[test]
fn self_destruct_wipes_state() {
    let mut o = oracle_with_admins(&["A", "B"]);
    assert!(o.self_destruct(&s("A"), &s("B")).is_ok());
    assert!(o.destroyed);
    assert!(o.admins.is_empty());
    assert_eq!(o.self_destruct(&s("A"), &s("B")), Err(Error::ContractDestroyed));
    assert_eq!(o.init_admin(s("A")), Err(Error::ContractDestroyed));
}

#[test]
fn council_freeze_blocks_admin_writes() {
    let mut o = oracle_with_admins(&["A", "B"]);
    assert!(o.set_council(&ledger(1), &s("A"), s("COUNCIL")).is_ok());
    assert_eq!(o.get_council(), Some(s("COUNCIL")));
    assert_eq!(o.emergency_freeze(&s("A")), Err(Error::NotAuthorized));
    assert!(o.emergency_freeze(&s("COUNCIL")).is_ok());
    assert!(o.is_frozen());
    assert_eq!(o.set_price_floor(&s("A"), s("NGN"), 5), Err(Error::ContractFrozen));
    assert_eq!(o.register_admin(&s("A"), &s("B"), s("C")), Err(Error::ContractFrozen));
}

#[test]
fn emergency_halt_blocks_reads() {
    let mut o = oracle_with_admins(&["A", "B"]);
    assert!(o.set_emergency_halt(&s("A"), &s("B"), true).is_ok());
    assert!(o.is_halted());
    assert_eq!(o.get_price_safe(&s("NGN")).unwrap_err(), Error::EmergencyHalted);
    assert!(o.set_emergency_halt(&s("A"), &s("B"), false).is_ok());
    assert!(!o.is_halted());
    assert!(o.get_price_safe(&s("NGN")).unwrap().is_none());
}

#[test]
fn bypass_window_lasts_an_hour() {
    let mut o = oracle_with_admins(&["A"]);
    assert_eq!(o.get_bypass_safety_checks_expiry(), None);
    assert!(o.enable_bypass_safety_checks(&ledger(1_000), &s("A")).is_ok());
    assert_eq!(o.get_bypass_safety_checks_expiry(), Some(4_600));
    assert!(o.disable_bypass_safety_checks(&ledger(1_100), &s("A")).is_ok());
    assert_eq!(o.get_bypass_safety_checks_expiry(), None);
}

#[test]
fn quorum_threshold_setting() {
    let mut o = oracle_with_admins(&["A"]);
    assert!(o.set_min_quorum_threshold(&s("A"), 2).is_ok());
    assert_eq!(o.get_min_quorum_threshold(), 2);
}

#[test]
fn rescue_tokens_describes_transfer() {
    let o = oracle_with_admins(&["A"]);
    let t = o.rescue_tokens(&ledger(1), &s("A"), s("TOKEN"), s("DEST"), 77).unwrap();
    assert_eq!((t.token, t.from, t.to, t.amount), (s("TOKEN"), s("ORACLE"), s("DEST"), 77));
    assert_eq!(o.rescue_tokens(&ledger(1), &s("X"), s("TOKEN"), s("DEST"), 77).unwrap_err(), Error::NotAuthorized);
}

#[test]
fn upgrade_requires_admin() {
    let o = oracle_with_admins(&["A"]);
    assert!(o.upgrade(&s("A")).is_ok());
    assert_eq!(o.upgrade(&s("B")), Err(Error::NotAuthorized));
}

#[test]
fn pending_admin_without_timestamp_is_refused() {
    let mut o = oracle_with_admins(&["A"]);
    o.pending_admin = Some(s("N"));
    o.pending_admin_timestamp = None;
    assert_eq!(o.accept_admin(&ledger(100), &s("N")), Err(Error::PendingAdminTimestampMissing));
}

#[test]
fn destroyed_contract_refuses_every_write() {
    let mut o = oracle_with_admins(&["A", "B"]);
    o.self_destruct(&s("A"), &s("B")).unwrap();
    assert_eq!(o.initialize(s("A"), vec![s("NGN")]), Err(Error::ContractDestroyed));
    // the multi-signature operations fail with their own errors: no admin is left
    assert_eq!(o.toggle_pause(&s("A"), &s("B")), Err(Error::NotAuthorized));
    assert_eq!(o.register_admin(&s("A"), &s("A"), s("C")), Err(Error::MultiSigValidationFailed));
    assert_eq!(o.remove_admin(&s("A"), &s("B"), &s("A")), Err(Error::NotAuthorized));
    let l = ledger(5);
    assert_eq!(o.submit_community_price(&l, s("U"), s("NGN"), 10, 60), Err(Error::InvalidAssetSymbol));
    assert_eq!(o.subscribe_to_price_updates(s("CB")), Err(Error::ContractDestroyed));
    assert_eq!(o.unsubscribe_from_price_updates(&s("CB")), Err(Error::ContractDestroyed));
    assert_eq!(o.clear_assets(&vec![s("NGN")]), Err(Error::ContractDestroyed));
    assert_eq!(o.emergency_freeze(&s("A")), Err(Error::ContractDestroyed));
    assert!(o.get_all_assets().is_empty());
    assert_eq!(o.get_admin_count(), 0);
}
