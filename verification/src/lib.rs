//! A non-fungible-token ownership ledger.
//!
//! Every token has at most one owner, at most one delegate who may move it,
//! and every owner may name operators who act on all of the owner's tokens.

pub mod account;
pub mod laws;
pub mod ledger;
pub mod model;
pub mod rules;
pub mod tables;
pub mod types;
