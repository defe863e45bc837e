//! A single-slot, time-bounded hand-over of ownership.
//!
//! The current owner of a component proposes a candidate, and may withdraw
//! the proposal; the candidate claims the ownership before the proposal's
//! deadline. [`slot`] holds the one pending proposal, [`common`] the three
//! operations on it, [`reply`] what they answer, [`laws`] what holds of them
//! together. [`host`] declares what is taken from `cosmwasm_std`, and
//! [`generator`] the messages of the contract that is owned.

pub mod common;
pub mod generator;
pub mod host;
pub mod laws;
pub mod reply;
pub mod slot;
