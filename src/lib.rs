//! A staking ledger: accounts deposit native currency, later withdraw their
//! whole balance, and anyone can read who holds a stake and how much.

pub mod account;
pub mod balance_store;
pub mod staker_set;
pub mod model;
pub mod ledger;

pub use ledger::{Ledger, StakingContract};
