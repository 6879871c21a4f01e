//! The messages that the registry takes, and what it answers to a query.

use vstd::prelude::*;
use crate::contracts::Contract;
use crate::metadata::{ContractMetadata, RewardsTarget};

verus! {

/// An address as a message names it, with the host's verdict on its form.
#[derive(Clone, Debug, PartialEq, Eq)]
pub struct AddressInput {
    /// The address as written in the message.
    pub text: String,
    /// Whether the host takes `text` for a well-formed address.
    pub well_formed: bool,
}

/// The message that sets the registry up.
#[derive(Clone, Debug, PartialEq, Eq)]
pub struct InstantiateMsg {
    /// The owner to be; the caller where none is named.
    pub owner: Option<AddressInput>,
}

/// The messages that change the registry. All but `Other` are for the admin
/// alone.
#[derive(Clone, Debug, PartialEq, Eq)]
pub enum ExecuteMsg {
    /// Asks the host to instantiate the code `code_id` under `label`, handing
    /// it `instantiate_msg` as it is.
    InstantiateContract { code_id: u64, instantiate_msg: Vec<u8>, label: String },
    /// Makes `new_owner` the admin.
    ChangeOwner { new_owner: AddressInput },
    /// Sets the rewards address of a recorded contract.
    SetContractMetadata { contract_address: String, rewards_address: String },
    /// A message that names no operation of the registry.
    Other { name: String },
}

/// The questions that the registry answers.
#[derive(Clone, Debug, PartialEq, Eq)]
pub enum QueryMsg {
    /// What is the metadata of this contract?
    ContractMetadata { contract_address: String },
    /// Which contracts have rewards to look up? `pagination` is for the source
    /// of the reward amounts and is handed on as it is.
    RewardsRecord { pagination: Option<Vec<u8>> },
    /// Which contracts are recorded?
    ContractsList {},
}

/// The answer to a query.
#[derive(Clone, Debug, PartialEq, Eq)]
pub enum QueryResponse {
    ContractMetadata(ContractMetadata),
    RewardsRecord { targets: Vec<RewardsTarget>, pagination: Option<Vec<u8>> },
    ContractsList(Vec<(String, Contract)>),
}

} // verus!
