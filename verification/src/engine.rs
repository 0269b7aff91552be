//! The decisions of the bot, one operation per module.
//!
//! Each operation that talks to the chain is a function from what was observed
//! to what is to be done next. The caller does it, and reports back.
pub mod allowance;
pub mod book;
pub mod close;
pub mod config;
pub mod cycle;
pub mod place;
pub mod receipt;
pub mod reconcile;
pub mod state;
pub mod tree;
