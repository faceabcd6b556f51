//! A custodial escrow for one token mint: a depositor funds a vault whose only
//! authority is a program-derived escrow record, and a recorded backend
//! authority releases the funds to any recipient of the same mint.
//!
//! The library holds the escrow's decisions: address derivation, the checks
//! each instruction makes, the bookkeeping of the tracked balance, and the
//! token transfer each instruction asks the host to carry out.

pub mod key;
pub mod address;
pub mod escrow;
pub mod laws;
