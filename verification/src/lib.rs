//! Market making for the NVDA/USDG book of the Deepstate protocol.
//!
//! The crate holds the decisions of the bot: how an order is packed into a
//! 256-bit word, where the two quotes go, in what sequence an order is closed,
//! how the order tree is searched, and what is remembered between two cycles.
//! It talks to no node, file or clock: a caller performs the actions that the
//! functions here ask for and hands back what it observed. The caller also does
//! the floating-point arithmetic, which turns the reference price and the spread
//! into the target ticks.
pub mod binary64;
pub mod bytes;
pub mod contracts;
pub mod engine;
pub mod error;
pub mod gui;
pub mod number;
pub mod operations;
pub mod order;
pub mod strategy;
pub mod words;
