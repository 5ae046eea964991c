//! An account-based escrow state machine.
//!
//! The library has two parts: a fixed-width codec that maps an escrow
//! record to and from a raw byte buffer, and a transition engine that
//! validates the caller-supplied accounts and instruction payload,
//! applies the one legal transition (initialize), and writes the new
//! record back through the codec. Every failure leaves the account
//! bytes exactly as they were.

pub mod codec;
pub mod engine;
