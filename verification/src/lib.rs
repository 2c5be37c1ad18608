//! Saga coordination core of an eventually consistent banking ledger.
//!
//! Two services cooperate through an event bus: one owns account identity
//! and opening balances, the other owns sessions and initiates transfers.
//! This crate holds the verified core: the checksummed account-number
//! codec, the balance ledger, the idempotent saga outcome records, the
//! coordinator that turns command events into ledger mutations and
//! outgoing events, and the bounded, strictly ordered outbound queue.

pub mod audit;
pub mod bus;
pub(crate) mod clock;
pub mod codec;
pub mod coordinator;
pub mod events;
pub mod ledger;
pub mod records;
pub mod session;
