use stellarflow::price_oracle::governance::Executed;
use stellarflow::price_oracle::reentrancy::{acquire_lock, release_lock};
use stellarflow::price_oracle::staking::parse_slash_amount;
use stellarflow::price_oracle::state::PriceOracle;
use stellarflow::price_oracle::types::{AdminAction, Ledger};
use stellarflow::price_oracle::Error;

fn s(x: &str) -> String {
    x.to_string()
}

fn ledger(timestamp: u64) -> Ledger {
    Ledger { timestamp, sequence: 1, contract_address: s("ORACLE") }
}

fn oracle_with_admins(admins: &[&str]) -> PriceOracle {
    let mut o = PriceOracle::new();
    o.initialize(s(admins[0]), vec![]).unwrap();
    o.admins = admins.iter().map(|a| s(a)).collect();
    o
}

fn staking_oracle() -> PriceOracle {
    let mut o = oracle_with_admins(&["A", "B", "C"]);
    o.set_slash_token(&ledger(1), &s("A"), s("STAKE")).unwrap();
    o.set_insurance_reserve(&ledger(1), &s("A"), s("RESERVE")).unwrap();
    o
}

#[test]
fn proposal_needs_majority_before_execution() {
    let mut o = oracle_with_admins(&["A", "B", "C"]);
    assert_eq!(o.get_required_threshold(), 2);
    let id = o.propose_action(&ledger(10), &s("A"), 0, None, s("")).unwrap();
    assert_eq!(id, 0);
    assert_eq!(o.get_action_voters(0), vec![s("A")]);
    assert_eq!(o.execute_proposed_action(&ledger(11), &s("A"), 0).unwrap_err(), Error::ThresholdNotReached);
    assert_eq!(o.vote_for_action(&ledger(12), &s("B"), 0), Ok(2));
    // a second vote by the same admin adds nothing
    assert_eq!(o.vote_for_action(&ledger(12), &s("B"), 0), Ok(2));
    match o.execute_proposed_action(&ledger(13), &s("C"), 0).unwrap() {
        Executed::TogglePause(p) => assert!(p),
        other => panic!("unexpected {:?}", other),
    }
    assert!(o.paused);
    assert!(o.get_proposed_action(0).unwrap().executed);
    assert_eq!(o.execute_proposed_action(&ledger(14), &s("C"), 0).unwrap_err(), Error::ActionAlreadyExecuted);
}

#[test]
fn proposal_errors() {
    let mut o = oracle_with_admins(&["A", "B"]);
    assert_eq!(o.propose_action(&ledger(1), &s("X"), 0, None, s("")), Err(Error::NotAuthorized));
    assert_eq!(o.propose_action(&ledger(1), &s("A"), 9, None, s("")), Err(Error::InvalidActionType));
    assert_eq!(o.vote_for_action(&ledger(1), &s("A"), 3), Err(Error::ActionNotFound));
    assert!(o.get_proposed_action(3).is_none());
    let id = o.propose_action(&ledger(1), &s("A"), 1, Some(s("N")), s("")).unwrap();
    assert_eq!(o.get_proposed_action(id).unwrap().action_type, AdminAction::RegisterAdmin);
    o.cancel_proposed_action(&ledger(2), &s("B"), id).unwrap();
    assert_eq!(o.vote_for_action(&ledger(3), &s("B"), id), Err(Error::ActionCancelled));
    assert_eq!(o.cancel_proposed_action(&ledger(2), &s("B"), id), Err(Error::ActionCancelled));
}

#[test]
fn register_admin_by_proposal() {
    let mut o = oracle_with_admins(&["A", "B"]);
    let id = o.propose_action(&ledger(1), &s("A"), 1, Some(s("N")), s("")).unwrap();
    o.vote_for_action(&ledger(2), &s("B"), id).unwrap();
    match o.execute_proposed_action(&ledger(3), &s("A"), id).unwrap() {
        Executed::RegisterAdmin(t) => assert_eq!(t, s("N")),
        other => panic!("unexpected {:?}", other),
    }
    assert!(o.is_admin(&s("N")));
}

#[test]
fn quorum_must_be_reached() {
    let mut o = oracle_with_admins(&["A"]);
    o.set_min_quorum_threshold(&s("A"), 2).unwrap();
    let id = o.propose_action(&ledger(1), &s("A"), 0, None, s("")).unwrap();
    assert_eq!(o.execute_proposed_action(&ledger(2), &s("A"), id).unwrap_err(), Error::QuorumNotReached);
}

#[test]
fn delegated_votes_count_for_the_delegate() {
    let mut o = oracle_with_admins(&["A", "B", "C"]);
    assert_eq!(o.delegate_vote(s("B"), s("B")), Err(Error::InvalidDelegate));
    o.delegate_vote(s("B"), s("C")).unwrap();
    assert_eq!(o.get_vote_delegate(&s("B")), Some(s("C")));
    let id = o.propose_action(&ledger(1), &s("A"), 0, None, s("")).unwrap();
    // C casts its own vote and B's
    assert_eq!(o.vote_for_action(&ledger(2), &s("C"), id), Ok(3));
    // B has delegated, so it cannot vote itself
    assert_eq!(o.vote_for_action(&ledger(2), &s("B"), id), Err(Error::NotAuthorized));
    o.clear_vote_delegate(&s("B")).unwrap();
    assert_eq!(o.get_vote_delegate(&s("B")), None);
}

#[test]
fn stake_and_unstake_round_trip() {
    let mut o = staking_oracle();
    let t = o.stake_tokens(&ledger(5), &s("R"), 100).unwrap();
    assert_eq!((t.token, t.from, t.to, t.amount), (s("STAKE"), s("R"), s("ORACLE"), 100));
    assert_eq!(o.get_provider_stake(&s("R")), 100);
    assert_eq!(o.unstake_tokens(&ledger(6), &s("R"), 101).unwrap_err(), Error::InsufficientStake);
    let t = o.unstake_tokens(&ledger(6), &s("R"), 100).unwrap();
    assert_eq!((t.from, t.to, t.amount), (s("ORACLE"), s("R"), 100));
    assert_eq!(o.get_provider_stake(&s("R")), 0);
}

#[test]
fn staking_errors() {
    let mut o = oracle_with_admins(&["A"]);
    assert_eq!(o.stake_tokens(&ledger(5), &s("R"), 100).unwrap_err(), Error::SlashTokenNotSet);
    o.set_slash_token(&ledger(1), &s("A"), s("STAKE")).unwrap();
    assert_eq!(o.stake_tokens(&ledger(5), &s("R"), 0).unwrap_err(), Error::InvalidSlashAmount);
    assert_eq!(o.get_slash_token(), Some(s("STAKE")));
    assert_eq!(o.get_insurance_reserve(), None);
}

#[test]
fn slash_moves_stake_to_reserve() {
    let mut o = staking_oracle();
    o.stake_tokens(&ledger(5), &s("R"), 100).unwrap();
    assert_eq!(o.execute_slash(&ledger(6), &s("X"), &s("R"), 10).unwrap_err(), Error::NotAuthorized);
    assert_eq!(o.execute_slash(&ledger(6), &s("A"), &s("R"), 101).unwrap_err(), Error::InsufficientStake);
    let t = o.execute_slash(&ledger(6), &s("A"), &s("R"), 40).unwrap();
    assert_eq!((t.token, t.from, t.to, t.amount), (s("STAKE"), s("ORACLE"), s("RESERVE"), 40));
    assert_eq!(o.get_provider_stake(&s("R")), 60);
}

#[test]
fn slash_by_proposal_reads_amount_from_data() {
    let mut o = staking_oracle();
    o.stake_tokens(&ledger(5), &s("R"), 100).unwrap();
    let id = o.propose_action(&ledger(6), &s("A"), 5, Some(s("R")), s("25")).unwrap();
    o.vote_for_action(&ledger(7), &s("B"), id).unwrap();
    match o.execute_proposed_action(&ledger(8), &s("C"), id).unwrap() {
        Executed::Slash(t) => assert_eq!(t.amount, 25),
        other => panic!("unexpected {:?}", other),
    }
    assert_eq!(o.get_provider_stake(&s("R")), 75);
}

#[test]
fn slash_amount_parsing() {
    assert_eq!(parse_slash_amount(b"1234"), Ok(1234));
    assert_eq!(parse_slash_amount(b"0"), Ok(0));
    assert_eq!(parse_slash_amount(b""), Err(Error::InvalidSlashAmount));
    assert_eq!(parse_slash_amount(b"12a"), Err(Error::InvalidSlashAmount));
    assert_eq!(parse_slash_amount(b"-5"), Err(Error::InvalidSlashAmount));
    assert_eq!(parse_slash_amount(b"170141183460469231731687303715884105727"), Ok(i128::MAX));
    assert_eq!(parse_slash_amount(b"170141183460469231731687303715884105728"), Err(Error::InvalidSlashAmount));
}

#[test]
fn subscriptions() {
    let mut o = PriceOracle::new();
    o.subscribe_to_price_updates(s("CB")).unwrap();
    assert_eq!(o.subscribe_to_price_updates(s("CB")), Err(Error::AlreadySubscribed));
    assert_eq!(o.get_price_update_subscribers(), vec![s("CB")]);
    o.unsubscribe_from_price_updates(&s("CB")).unwrap();
    assert_eq!(o.unsubscribe_from_price_updates(&s("CB")), Err(Error::SubscriberNotFound));
    assert!(o.get_price_update_subscribers().is_empty());
}

#[test]
fn reentrancy_lock() {
    let mut locked = false;
    assert_eq!(acquire_lock(&mut locked), Ok(()));
    assert!(locked);
    assert_eq!(acquire_lock(&mut locked), Err(Error::ReentrancyDetected));
    release_lock(&mut locked);
    assert!(!locked);
    assert_eq!(acquire_lock(&mut locked), Ok(()));
}

#[test]
fn slash_needs_insurance_reserve() {
    let mut o = oracle_with_admins(&["A"]);
    o.set_slash_token(&ledger(1), &s("A"), s("STAKE")).unwrap();
    o.stake_tokens(&ledger(2), &s("R"), 50).unwrap();
    assert_eq!(o.execute_slash(&ledger(3), &s("A"), &s("R"), 10).unwrap_err(), Error::InsuranceReserveNotSet);
    assert_eq!(o.execute_slash(&ledger(3), &s("A"), &s("R"), 0).unwrap_err(), Error::InvalidSlashAmount);
    assert_eq!(o.get_provider_stake(&s("R")), 50);
}
