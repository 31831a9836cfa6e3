//! Submission-and-verification core of a delayed transaction relay.
//!
//! Clients submit signed transactions addressed to a future block number or
//! a future unix timestamp. The relay verifies each submission against
//! protocol rules and a live chain-state snapshot, holds accepted
//! transactions in a schedule store until due, and then fans each one out to
//! every configured node endpoint, in batch order.

pub mod store;
pub mod submitter;
pub mod types;
pub mod verification;
