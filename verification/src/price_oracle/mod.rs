//! The StellarFlow price oracle.

pub mod math;
pub mod types;
pub mod buffer;
pub mod history;
pub mod state;
pub mod admin;
pub mod prices;
pub mod limits;
pub mod update;
pub mod staking;
pub mod governance;
pub mod reentrancy;
pub mod laws;

pub use types::Error;
