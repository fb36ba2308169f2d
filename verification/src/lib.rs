//! Core of a CEP-18 fungible token: the balance, allowance and supply ledgers,
//! the security-badge registry, the event multiplexer and the entry-point
//! state machine, with machine-checked contracts for every operation.
//!
//! Host storage, argument fetching and message emission are left to the
//! embedding program; this crate holds the state transitions and the key
//! derivations that decide what that program reads and writes.

pub mod address;
pub mod allowances;
pub mod balances;
pub mod caller;
pub mod codec;
pub mod constants;
pub mod error;
pub mod events;
pub mod laws;
pub mod security;
pub mod state;
pub mod u256;
