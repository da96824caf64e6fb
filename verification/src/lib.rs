//! Conditional-payment primitives for a ledger: a three-party escrow and a
//! time-locked order, each a small verified state machine over custodied value.
//!
//! The engines decide; their surroundings act. Every entrypoint takes the
//! authenticated caller and, where relevant, the current time as plain values,
//! mutates its own record store, and returns the transfer instruction that the
//! host must perform. All authorization, timing and terminal-state rules are
//! stated in the contracts and proved.

pub mod escrow;
pub mod ledger;
pub mod timelock;
