//! The operations that change the registry.

pub mod change_owner;
pub mod instantiate_contract;
pub mod set_contract_metadata;
