//! A registry of contracts instantiated on behalf of an owner.
//!
//! The owner asks the registry to instantiate a contract from a code id and a
//! label. The host creates the contract and answers; the registry then records
//! the new address under `(code id, label)` and starts a metadata entry for it.
//! Everything the registry knows is held in one [`state::State`] value that the
//! handlers read and change.

pub mod contract;
pub mod contracts;
pub mod decimal;
pub mod error;
pub mod execute;
pub mod host;
pub mod laws;
pub mod metadata;
pub mod msg;
pub mod order;
pub mod query;
pub mod reply;
pub mod state;
