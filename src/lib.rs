//! A quiz-and-reward ledger: questions are stored under increasing ids,
//! callers submit answers, and every correct answer credits the caller
//! with a fixed token reward.

pub mod account;
pub mod ledger;
pub mod laws;
