//! The registry's four entry points: setting it up, changing it, asking it,
//! and taking the host's reply.

use vstd::prelude::*;
use vstd::string::*;
use crate::contracts::{is_listing_of, listing_view, ContractStore};
use crate::error::{ContractError, Missing};
use crate::execute::instantiate_contract::INSTANTIATE_REPLY_ID;
use crate::execute::{change_owner, instantiate_contract, set_contract_metadata};
use crate::host::{Env, MessageInfo, Reply, Response, ResponseView};
use crate::metadata::{eligible, targets_view, MetadataStore};
use crate::msg::{ExecuteMsg, InstantiateMsg, QueryMsg, QueryResponse};
use crate::query::{contract_metadata, contracts_list, rewards_record};
use crate::reply::instantiate;
use crate::state::{settles, State, StateView};

verus! {

/// How setting the registry up ends: the owner named in the message becomes the
/// admin if the address is well formed, the caller if the message names none;
/// nothing is recorded and no instantiation is in flight.
pub open spec fn instantiated(sender: Seq<char>, msg: InstantiateMsg) -> Result<
    StateView,
    ContractError,
> {
    match msg.owner {
        None => Ok(StateView::fresh(sender)),
        Some(owner) => if owner.well_formed {
            Ok(StateView::fresh(owner.text@))
        } else {
            Err(ContractError::InvalidAddress)
        },
    }
}

/// The response to setting the registry up.
pub open spec fn instantiate_response() -> ResponseView {
    ResponseView::empty().with_attribute("action"@, "instantiated_contract_manager"@)
}

/// Sets the registry up.
pub fn instantiate(_env: Env, info: MessageInfo, msg: InstantiateMsg) -> (result: Result<
    (State, Response),
    ContractError,
>)
    ensures
        match instantiated(info.sender@, msg) {
            Ok(state) => result is Ok && result->Ok_0.0@ == state && result->Ok_0.1@
                == instantiate_response(),
            Err(error) => result is Err && result->Err_0 == error,
        },
{
    let admin = match msg.owner {
        None => info.sender,
        Some(owner) => {
            if !owner.well_formed {
                return Err(ContractError::InvalidAddress);
            }
            owner.text
        },
    };
    let state = State {
        admin,
        contracts: ContractStore::new(),
        metadata: MetadataStore::new(),
        label_cache: None,
    };
    let response = Response::new().add_attribute(
        "action",
        String::from_str("instantiated_contract_manager"),
    );
    Ok((state, response))
}

/// How a message that changes the registry ends: as the operation that it
/// names ends, and with an error where it names none.
pub open spec fn executed(state: StateView, sender: Seq<char>, msg: ExecuteMsg) -> Result<
    StateView,
    ContractError,
> {
    match msg {
        ExecuteMsg::InstantiateContract { code_id, instantiate_msg, label } => {
            instantiate_contract::outcome(state, sender, label@)
        },
        ExecuteMsg::ChangeOwner { new_owner } => change_owner::outcome(state, sender, new_owner),
        ExecuteMsg::SetContractMetadata { contract_address, rewards_address } => {
            set_contract_metadata::outcome(state, sender, contract_address@, rewards_address@)
        },
        ExecuteMsg::Other { name } => Err(ContractError::Unimplemented),
    }
}

/// The response to a message that changes the registry, where it succeeds.
/// `registry` is the registry's own address.
pub open spec fn execute_response(registry: Seq<char>, msg: ExecuteMsg) -> ResponseView {
    match msg {
        ExecuteMsg::InstantiateContract { code_id, instantiate_msg, label } => {
            instantiate_contract::response(registry, code_id, instantiate_msg@, label@)
        },
        ExecuteMsg::ChangeOwner { new_owner } => change_owner::response(new_owner.text@),
        ExecuteMsg::SetContractMetadata { contract_address, rewards_address } => {
            set_contract_metadata::response()
        },
        ExecuteMsg::Other { name } => ResponseView::empty(),
    }
}

/// Carries out the operation that `msg` names.
pub fn execute(state: &mut State, env: Env, info: MessageInfo, msg: ExecuteMsg) -> (result: Result<
    Response,
    ContractError,
>)
    ensures
        settles(
            executed(old(state)@, info.sender@, msg),
            execute_response(env.contract.address@, msg),
            old(state)@,
            final(state)@,
            result,
        ),
{
    match msg {
        ExecuteMsg::InstantiateContract { code_id, instantiate_msg, label } => {
            instantiate_contract::execute(state, env, info, code_id, instantiate_msg, label)
        },
        ExecuteMsg::ChangeOwner { new_owner } => change_owner::execute(state, info, new_owner),
        ExecuteMsg::SetContractMetadata { contract_address, rewards_address } => {
            set_contract_metadata::execute(state, info, contract_address, rewards_address)
        },
        ExecuteMsg::Other { name } => Err(ContractError::Unimplemented),
    }
}

/// `result` answers the question `msg` about `state`.
pub open spec fn answers(
    state: StateView,
    msg: QueryMsg,
    result: Result<QueryResponse, ContractError>,
) -> bool {
    match msg {
        QueryMsg::ContractMetadata { contract_address } => {
            if state.metadata.contains_key(contract_address@) {
                result matches Ok(QueryResponse::ContractMetadata(metadata)) && metadata@
                    == state.metadata[contract_address@]
            } else {
                result == Err::<QueryResponse, ContractError>(
                    ContractError::NotFound(Missing::Metadata),
                )
            }
        },
        QueryMsg::RewardsRecord { pagination } => {
            &&& result matches Ok(QueryResponse::RewardsRecord { targets, pagination: handed_on })
            &&& targets_view(targets@).to_set() == eligible(state.metadata)
            &&& targets_view(targets@).no_duplicates()
            &&& handed_on == pagination
        },
        QueryMsg::ContractsList {  } => {
            result matches Ok(QueryResponse::ContractsList(list)) && is_listing_of(
                state.contracts,
                listing_view(list@),
            )
        },
    }
}

/// Answers the question `msg`.
pub fn query(state: &State, _env: Env, msg: QueryMsg) -> (result: Result<
    QueryResponse,
    ContractError,
>)
    ensures
        answers(state@, msg, result),
{
    match msg {
        QueryMsg::ContractMetadata { contract_address } => {
            match contract_metadata::query(state, contract_address) {
                Ok(metadata) => Ok(QueryResponse::ContractMetadata(metadata)),
                Err(error) => Err(error),
            }
        },
        QueryMsg::RewardsRecord { pagination } => {
            Ok(QueryResponse::RewardsRecord { targets: rewards_record::query(state), pagination })
        },
        QueryMsg::ContractsList {  } => Ok(
            QueryResponse::ContractsList(contracts_list::query(state)),
        ),
    }
}

/// How a reply ends: as the reply to a request to instantiate where it carries
/// that request's id, and with an error where it carries any other.
pub open spec fn replied(state: StateView, msg: Reply) -> Result<StateView, ContractError> {
    if msg.id == INSTANTIATE_REPLY_ID {
        instantiate::outcome(state, msg)
    } else {
        Err(ContractError::UnknownReplyId(msg.id))
    }
}

/// Takes the host's reply to a sub-request.
pub fn reply(state: &mut State, _env: Env, msg: Reply) -> (result: Result<Response, ContractError>)
    ensures
        settles(
            replied(old(state)@, msg),
            instantiate::response(),
            old(state)@,
            final(state)@,
            result,
        ),
{
    if msg.id == INSTANTIATE_REPLY_ID {
        instantiate::reply(state, msg)
    } else {
        Err(ContractError::UnknownReplyId(msg.id))
    }
}

} // verus!
