//! An access-control core for a stateful service: a closed catalog of named
//! roles, a registry binding each role to one identity (or, for multi-holder
//! roles, a list of identities), a time-locked protocol for transferring the
//! most sensitive roles, and a single emergency kill-switch flag.
//!
//! The whole core is a pure state machine: every operation is a function of
//! the current state and its inputs, returning the new state and a result.
//! The host that persists the state, authenticates callers and supplies the
//! ledger clock sits outside this crate and hands in plain values.

pub mod access;
pub mod constants;
pub mod contract;
pub mod emergency;
pub mod errors;
pub mod laws;
pub mod management;
pub mod role;
pub mod transfer;
