//! Propagation check for ACME DNS-01 challenges.
//!
//! Before a certificate authority is asked to validate a DNS-01 challenge, the
//! TXT record has to be visible on every authoritative nameserver of the zone.
//! This crate holds the decisions of that wait: which servers are asked and
//! how, how one answer is classified, how the answers of one round are reduced
//! to a verdict, and when the wait ends. The network exchange itself is left to
//! the caller, who hands in what the servers said as plain values.

pub mod error;
pub mod address;
pub mod challenge;
pub mod round;
pub mod discovery;
pub mod waiter;
pub mod run;
pub mod laws;
