//! A minimal escrow state machine.
//!
//! A depositor (the initializer) places funds in the custody of an escrow
//! record and later either releases them to the recorded recipient or cancels
//! the escrow and reclaims them. This crate holds the lifecycle logic itself:
//! the guards, the atomic balance transfer, and the `released` flag. The host
//! ledger that owns the accounts — allocation, signature verification,
//! storage reclamation — is a collaborator outside this crate; it hands the
//! operations their account balances and the identity that authorized the
//! call, and applies the results.

pub mod escrow;
pub mod laws;
