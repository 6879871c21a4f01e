//! The metadata of one contract.

use vstd::prelude::*;
use crate::error::{ContractError, Missing};
use crate::metadata::ContractMetadata;
use crate::state::State;

verus! {

/// The metadata stored for `contract_address`; an error where none is.
pub fn query(state: &State, contract_address: String) -> (result: Result<
    ContractMetadata,
    ContractError,
>)
    ensures
        match result {
            Ok(metadata) => state@.metadata.contains_key(contract_address@) && metadata@
                == state@.metadata[contract_address@],
            Err(error) => !state@.metadata.contains_key(contract_address@) && error
                == ContractError::NotFound(Missing::Metadata),
        },
{
    match state.metadata.get(&contract_address) {
        Some(metadata) => Ok(metadata),
        None => Err(ContractError::NotFound(Missing::Metadata)),
    }
}

} // verus!
