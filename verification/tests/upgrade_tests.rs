use stellarflow::upgrade::{nonce_accepted, ContractError, TimeLockedUpgradeContract, UPGRADE_DELAY_SECONDS};

fn s(x: &str) -> String {
    x.to_string()
}

fn contract() -> TimeLockedUpgradeContract {
    let mut c = TimeLockedUpgradeContract::new();
    c.initialize(s("ADMIN")).unwrap();
    c
}

#[test]
fn initialize_once_with_zero_value() {
    let mut c = contract();
    assert_eq!(c.initialize(s("X")), Err(ContractError::AlreadyInitialized));
    let d = c.get_data().unwrap();
    assert_eq!((d.admin, d.value), (s("ADMIN"), 0));
    let fresh = TimeLockedUpgradeContract::new();
    assert_eq!(fresh.get_data().unwrap_err(), ContractError::NotInitialized);
}

#[test]
fn upgrade_waits_for_48_hours() {
    let mut c = contract();
    let hash = [7u8; 32];
    c.propose_upgrade(1_000, hash, s("ADMIN"), 0).unwrap();
    assert_eq!(c.get_coordinator_nonce(&s("ADMIN")), 1);
    assert_eq!(c.get_upgrade_timelock_remaining(1_000), Some(UPGRADE_DELAY_SECONDS));
    assert_eq!(c.get_upgrade_timelock_remaining(1_000 + UPGRADE_DELAY_SECONDS - 1), Some(1));
    assert_eq!(
        c.execute_upgrade(1_000 + UPGRADE_DELAY_SECONDS - 1, &s("ADMIN"), 1),
        Err(ContractError::UpgradeTimelockNotSatisfied)
    );
    assert_eq!(c.get_upgrade_timelock_remaining(1_000 + UPGRADE_DELAY_SECONDS), Some(0));
    assert_eq!(c.execute_upgrade(1_000 + UPGRADE_DELAY_SECONDS, &s("ADMIN"), 1), Ok(hash));
    assert!(c.get_pending_upgrade().is_none());
    assert_eq!(c.get_coordinator_nonce(&s("ADMIN")), 2);
    assert_eq!(c.execute_upgrade(1_000 + UPGRADE_DELAY_SECONDS, &s("ADMIN"), 2), Err(ContractError::NoPendingUpgrade));
}

#[test]
fn only_admin_manages_upgrades() {
    let mut c = contract();
    assert_eq!(c.propose_upgrade(1, [0u8; 32], s("X"), 0), Err(ContractError::NotAdmin));
    assert_eq!(c.cancel_upgrade(&s("ADMIN")), Err(ContractError::NoPendingUpgrade));
    c.propose_upgrade(1, [1u8; 32], s("ADMIN"), 0).unwrap();
    assert_eq!(c.cancel_upgrade(&s("X")), Err(ContractError::NotAdmin));
    c.cancel_upgrade(&s("ADMIN")).unwrap();
    assert_eq!(c.get_upgrade_timelock_remaining(5), None);
}

#[test]
fn set_value_consumes_nonce_and_beats() {
    let mut c = contract();
    c.set_value(500, 42, &s("ADMIN"), 0).unwrap();
    assert_eq!(c.get_data().unwrap().value, 42);
    assert_eq!(c.get_coordinator_nonce(&s("ADMIN")), 1);
    assert_eq!(c.get_last_update_timestamp(&s("VALUE")), Some(500));
    assert!(c.is_data_fresh(800, &s("VALUE")));
    assert!(!c.is_data_fresh(801, &s("VALUE")));
    assert_eq!(c.set_value(500, 1, &s("X"), 0), Err(ContractError::NotAdmin));
}

#[test]
fn consumed_nonce_is_not_expected_again() {
    let mut c = contract();
    assert_eq!(c.get_coordinator_nonce(&s("ADMIN")), 0);
    c.set_value(500, 42, &s("ADMIN"), 0).unwrap();
    c.set_value(600, 43, &s("ADMIN"), 1).unwrap();
    assert_eq!(c.get_coordinator_nonce(&s("ADMIN")), 2);
    assert_eq!(c.get_coordinator_nonce(&s("OTHER")), 0);
}

#[test]
fn heartbeat_freshness_window() {
    let mut c = contract();
    assert!(!c.is_data_fresh(10, &s("XLM")));
    assert_eq!(c.update_heartbeat(10, s("XLM"), &s("X")), Err(ContractError::NotAdmin));
    c.update_heartbeat(1_000, s("XLM"), &s("ADMIN")).unwrap();
    assert!(c.is_data_fresh(1_000, &s("XLM")));
    assert!(c.is_data_fresh(1_300, &s("XLM")));
    assert!(!c.is_data_fresh(1_301, &s("XLM")));
    // time running backwards counts as no time
    assert!(c.is_data_fresh(900, &s("XLM")));
}

#[test]
fn heartbeat_interval_setting() {
    let mut c = contract();
    assert_eq!(c.get_heartbeat_interval(), 300);
    assert_eq!(c.set_heartbeat_interval(0, &s("ADMIN")), Err(ContractError::InvalidHeartbeatInterval));
    c.set_heartbeat_interval(60, &s("ADMIN")).unwrap();
    assert_eq!(c.get_heartbeat_interval(), 60);
    c.update_heartbeat(1_000, s("XLM"), &s("ADMIN")).unwrap();
    assert!(!c.is_data_fresh(1_061, &s("XLM")));
}

#[test]
fn replayed_nonce_is_not_accepted() {
    let mut c = contract();
    assert!(nonce_accepted(&c.nonces, &s("ADMIN"), 0));
    c.set_value(500, 42, &s("ADMIN"), 0).unwrap();
    assert!(!nonce_accepted(&c.nonces, &s("ADMIN"), 0));
    assert!(nonce_accepted(&c.nonces, &s("ADMIN"), 1));
}
