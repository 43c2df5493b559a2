//! Verified core of the LEZ side of an HTLC atomic swap client.
//!
//! The library holds the decisions a LEZ client makes around its network
//! calls: reading a signing key and a sequencer address from configuration,
//! picking this program's HTLC events out of a transaction receipt, deciding
//! whether a receipt confirms a lock, claim or refund, pacing the wait for a
//! receipt, and the step-by-step protocol of the lock, claim and refund
//! operations. Network access, signing and account derivation are performed by
//! the caller, which hands the results back as plain values.

pub mod error;
pub mod config;
pub mod receipt;
pub mod client;
pub mod poll;
pub mod flow;

