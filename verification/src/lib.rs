//! Verified ledger state machines kept in ink! storage collections.

pub mod amounts;
pub mod erc20;
pub mod incrementer;
pub mod ledger;
pub mod storage;
