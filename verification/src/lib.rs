//! Verified core of a CLI subcommand that invokes a smart-contract method on a
//! TON-style blockchain.
//!
//! The library holds the decision logic of that subcommand: resolving a key
//! specification into a signing keypair, the bounded polling loop that waits
//! for a dispatched call, and the formatting of every status and error line.
//! Network transport, file reading and thread scheduling live outside, in the
//! surrounding binary, which feeds their results to the functions here.

pub mod hexcodec;
pub mod keys;
pub mod poll;
pub mod report;
