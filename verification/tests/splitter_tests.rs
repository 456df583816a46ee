use stellarflow::reward_splitter::{Error, RewardSplitter};

fn s(x: &str) -> String {
    x.to_string()
}

fn splitter() -> RewardSplitter {
    let mut c = RewardSplitter::new();
    c.initialize(s("ADMIN"), s("TOKEN")).unwrap();
    c
}

#[test]
fn readme_example_distribution() {
    let mut c = splitter();
    c.add_recipient(&s("ADMIN"), s("R1"), 5_000).unwrap();
    c.add_recipient(&s("ADMIN"), s("R2"), 5_000).unwrap();
    assert_eq!(c.get_total_shares(), 10_000);
    let d = c.distribute(&s("SPLITTER"), 1_000, 1_000).unwrap();
    assert_eq!(d.token, s("TOKEN"));
    assert_eq!(d.from, s("SPLITTER"));
    let paid: Vec<(String, i128)> = d.payouts.iter().map(|p| (p.recipient.clone(), p.amount)).collect();
    assert_eq!(paid, vec![(s("R1"), 500), (s("R2"), 500)]);
    c.reset_parameters(&s("ADMIN")).unwrap();
    assert_eq!(c.get_total_shares(), 0);
    assert_eq!(c.get_recipients().len(), 0);
}

#[test]
fn splitter_initialize_only_once() {
    let mut c = splitter();
    assert_eq!(c.initialize(s("X"), s("Y")), Err(Error::AlreadyInitialized));
    assert_eq!(c.get_admin(), s("ADMIN"));
    assert_eq!(c.get_token(), s("TOKEN"));
    assert_eq!(c.get_default_admin(), s("ADMIN"));
    assert_eq!(c.get_default_token(), s("TOKEN"));
}

#[test]
fn share_validation() {
    let mut c = splitter();
    assert_eq!(c.add_recipient(&s("X"), s("R1"), 100), Err(Error::Unauthorized));
    assert_eq!(c.add_recipient(&s("ADMIN"), s("R1"), 0), Err(Error::InvalidShare));
    assert_eq!(c.add_recipient(&s("ADMIN"), s("R1"), 10_001), Err(Error::InvalidShare));
    c.add_recipient(&s("ADMIN"), s("R1"), 6_000).unwrap();
    assert_eq!(c.add_recipient(&s("ADMIN"), s("R2"), 4_001), Err(Error::TotalSharesExceeded));
    assert_eq!(c.get_total_shares(), 6_000);
}

#[test]
fn remove_recipient_returns_its_shares() {
    let mut c = splitter();
    c.add_recipient(&s("ADMIN"), s("R1"), 3_000).unwrap();
    c.add_recipient(&s("ADMIN"), s("R2"), 2_000).unwrap();
    c.remove_recipient(&s("ADMIN"), &s("R1")).unwrap();
    assert_eq!(c.get_total_shares(), 2_000);
    let rs = c.get_recipients();
    assert_eq!(rs.len(), 1);
    assert_eq!((rs[0].address.clone(), rs[0].share), (s("R2"), 2_000));
    // removing an unknown recipient changes nothing
    c.remove_recipient(&s("ADMIN"), &s("R9")).unwrap();
    assert_eq!(c.get_total_shares(), 2_000);
}

#[test]
fn update_recipient_share_adjusts_total() {
    let mut c = splitter();
    c.add_recipient(&s("ADMIN"), s("R1"), 3_000).unwrap();
    c.add_recipient(&s("ADMIN"), s("R2"), 2_000).unwrap();
    c.update_recipient_share(&s("ADMIN"), s("R1"), 8_000).unwrap();
    assert_eq!(c.get_total_shares(), 10_000);
    assert_eq!(c.update_recipient_share(&s("ADMIN"), s("R1"), 8_001), Err(Error::TotalSharesExceeded));
    assert_eq!(c.update_recipient_share(&s("ADMIN"), s("R1"), 0), Err(Error::InvalidShare));
    // an unknown recipient is left alone
    c.update_recipient_share(&s("ADMIN"), s("R7"), 100).unwrap();
    assert_eq!(c.get_total_shares(), 10_000);
    let shares: u32 = c.get_recipients().iter().map(|r| r.share).sum();
    assert_eq!(shares, c.get_total_shares());
}

#[test]
fn distribution_errors() {
    let mut c = splitter();
    assert_eq!(c.distribute(&s("SPLITTER"), 0, 100).unwrap_err(), Error::ZeroAmount);
    assert_eq!(c.distribute(&s("SPLITTER"), 10, 100).unwrap_err(), Error::NoRecipients);
    c.add_recipient(&s("ADMIN"), s("R1"), 5_000).unwrap();
    assert_eq!(c.distribute(&s("SPLITTER"), 1_000, 999).unwrap_err(), Error::InsufficientBalance);
    let mut fresh = RewardSplitter::new();
    assert_eq!(fresh.distribute(&s("SPLITTER"), 10, 100).unwrap_err(), Error::TokenNotSet);
    fresh.initialize(s("ADMIN"), s("TOKEN")).unwrap();
}

#[test]
fn distribution_rounds_down_and_skips_zero_parts() {
    let mut c = splitter();
    c.add_recipient(&s("ADMIN"), s("R1"), 3_333).unwrap();
    c.add_recipient(&s("ADMIN"), s("R2"), 1).unwrap();
    let d = c.distribute(&s("SPLITTER"), 10, 10).unwrap();
    // total shares 3334: R1 gets 10 * 3333 / 3334 = 9, R2 gets 0 and is skipped
    assert_eq!(d.payouts.len(), 1);
    assert_eq!((d.payouts[0].recipient.clone(), d.payouts[0].amount), (s("R1"), 9));
    let paid: i128 = d.payouts.iter().map(|p| p.amount).sum();
    assert!(paid <= 10);
}

#[test]
fn admin_and_token_changes() {
    let mut c = splitter();
    assert_eq!(c.transfer_admin(&s("X"), s("NEW")), Err(Error::Unauthorized));
    c.transfer_admin(&s("ADMIN"), s("NEW")).unwrap();
    assert_eq!(c.get_admin(), s("NEW"));
    assert_eq!(c.update_token(&s("ADMIN"), s("T2")), Err(Error::Unauthorized));
    c.update_token(&s("NEW"), s("T2")).unwrap();
    assert_eq!(c.get_token(), s("T2"));
    c.reset_parameters(&s("NEW")).unwrap();
    assert_eq!(c.get_admin(), s("ADMIN"));
    assert_eq!(c.get_token(), s("TOKEN"));
}

#[test]
fn out_of_range_shares_are_refused_first() {
    let mut c = splitter();
    c.add_recipient(&s("ADMIN"), s("R1"), 3_000).unwrap();
    assert_eq!(c.update_recipient_share(&s("ADMIN"), s("R1"), u32::MAX), Err(Error::InvalidShare));
    assert_eq!(c.add_recipient(&s("ADMIN"), s("R2"), u32::MAX), Err(Error::InvalidShare));
    assert_eq!(c.get_total_shares(), 3_000);
}

#[test]
fn early_distribution_errors_for_any_amount() {
    let mut fresh = RewardSplitter::new();
    assert_eq!(fresh.distribute(&s("SPLITTER"), i128::MAX, 0).unwrap_err(), Error::TokenNotSet);
    fresh.initialize(s("ADMIN"), s("TOKEN")).unwrap();
    fresh.add_recipient(&s("ADMIN"), s("R1"), 5_000).unwrap();
    assert_eq!(fresh.distribute(&s("SPLITTER"), i128::MAX, 0).unwrap_err(), Error::InsufficientBalance);
}
