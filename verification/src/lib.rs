//! A shared-bike rental ledger: a fixed pool of bikes whose usage rights are
//! tracked by a deterministic state machine, with an asynchronous reward
//! settlement step paid through a separate fungible-token service.
//!
//! The registry itself ([`registry::Contract`]) owns the authoritative
//! collection of bike states and enforces authorization and transition
//! legality for every local operation.  Returning an inspected bike does not
//! release it synchronously: the registry hands back a
//! [`settlement::SettlementAction`] describing the reward transfer to issue,
//! and the bike stays in `Inspection` until the transfer's outcome is fed
//! back through `callback_return_bike`.  The host environment (which performs
//! the actual cross-contract call) lives outside this crate; every decision
//! it must take is computed here.

pub mod decimal;
pub mod laws;
pub mod registry;
pub mod settlement;
pub mod state;
