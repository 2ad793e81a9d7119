//! The decision core of a node of an oracle pool.
//!
//! Three things are decided here, and each is proved to be decided as its
//! contract says:
//!
//! - whether a configuration is consistent: every address that it names is
//!   decoded, and all of them have to be written for one network
//!   ([`address`], [`contracts`], [`oracle_config`], [`bootstrap`],
//!   [`prepare_update`]);
//! - what the node does next, given the state of the pool on chain and the
//!   current height ([`state`]);
//! - how the node waits for its transactions to be confirmed: which one to
//!   look up next, when to pause, and when to give up ([`confirmation`],
//!   [`explorer_api`]).
//!
//! Nothing here reads a file, sends a request, sleeps or logs. Addresses
//! and service addresses are decoded by the crates that define them; the
//! contracts name what those return and say what is done with it.

pub mod address;
pub mod bootstrap;
pub mod confirmation;
pub mod contracts;
pub mod explorer_api;
pub mod oracle_config;
pub mod prepare_update;
pub mod state;
