//! A ledger for data listings: a singleton marketplace record that holds the
//! fee rate and running totals, per-listing records that move from active to
//! exactly one terminal state, and the six operations that tie them together.

pub mod types;
pub mod marketplace;
pub mod listing;
pub mod service;
pub mod laws;
