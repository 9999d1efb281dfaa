//! A ledger of per-creator paid content with sponsorship and fee governance.
//!
//! The crate models three cooperating state machines that share one pool of
//! native-currency balances: an identity and content registry with payment
//! settlement, a one-shot sponsorship gate, and a singleton treasury with
//! admin-gated governance. Every record lives in a store keyed by the data
//! that makes it unique (a username, a creator address, a buyer and content
//! id pair), and creation of a record whose slot is occupied fails: that
//! collision is the sole duplicate-prevention mechanism.

pub mod accounts;
pub mod bank;
pub mod errors;
pub mod laws;
pub mod ledger;
pub mod registry;
pub mod sponsor;
pub mod storage;
pub mod username;
pub mod vault;
