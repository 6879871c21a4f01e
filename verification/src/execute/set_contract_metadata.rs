//! Setting the rewards address of a recorded contract.

use vstd::prelude::*;
use vstd::string::*;
use crate::error::{ContractError, Missing};
use crate::host::{MessageInfo, Response, ResponseView};
use crate::metadata::ContractMetadata;
use crate::state::{settles, State, StateView};

verus! {

/// How setting a rewards address ends: the caller must be the admin and the
/// contract must have metadata; then its metadata holds the rewards address and
/// is marked as set, whatever it held before.
pub open spec fn outcome(
    state: StateView,
    sender: Seq<char>,
    contract_address: Seq<char>,
    rewards_address: Seq<char>,
) -> Result<StateView, ContractError> {
    if sender != state.admin {
        Err(ContractError::Unauthorized)
    } else if !state.metadata.contains_key(contract_address) {
        Err(ContractError::NotFound(Missing::Metadata))
    } else {
        Ok(
            StateView {
                admin: state.admin,
                contracts: state.contracts,
                metadata: state.metadata.insert(
                    contract_address,
                    ContractMetadata::set_to(rewards_address),
                ),
                label_cache: state.label_cache,
            },
        )
    }
}

/// The response to setting a rewards address.
pub open spec fn response() -> ResponseView {
    ResponseView::empty().with_attribute("action"@, "set_contract_metadata"@)
}

/// Sets the rewards address of the contract at `contract_address`, for the
/// admin.
pub fn execute(
    state: &mut State,
    info: MessageInfo,
    contract_address: String,
    rewards_address: String,
) -> (result: Result<Response, ContractError>)
    ensures
        settles(
            outcome(old(state)@, info.sender@, contract_address@, rewards_address@),
            response(),
            old(state)@,
            final(state)@,
            result,
        ),
{
    if !(info.sender == state.admin) {
        return Err(ContractError::Unauthorized);
    }
    if state.metadata.get(&contract_address).is_none() {
        return Err(ContractError::NotFound(Missing::Metadata));
    }
    state.metadata.put(
        contract_address,
        ContractMetadata { rewards_address: Some(rewards_address), metadata_set: true },
    );
    Ok(Response::new().add_attribute("action", String::from_str("set_contract_metadata")))
}

} // verus!
