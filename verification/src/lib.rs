//! Verified core of the StellarFlow contracts: the price oracle, the fixed
//! reward splitter and the time-locked upgrade contract.
//!
//! Every contract is modelled as a plain-value state machine: each public
//! operation takes the current state and the ledger facts it reads, and
//! returns the next state together with the effects (token transfers,
//! notifications) that the host must carry out. Storage, authorization,
//! events and cross-contract calls belong to the host side.

pub mod keyed;
pub mod price_oracle;
pub mod reward_splitter;
pub mod upgrade;
