//! Recording the contract that the host has instantiated.

use vstd::prelude::*;
use vstd::string::*;
use crate::decimal::{from_decimal, parse_decimal};
use crate::error::{ContractError, HostFailure, Missing};
use crate::host::{
    event_attribute, find_event_attribute, option_text, Event, Reply, Response, ResponseView,
    SubMsgResult,
};
use crate::metadata::ContractMetadata;
use crate::order::ContractKey;
use crate::reply::wire::{decode_instantiate_response, decoded_address};
use crate::state::{settles, State, StateView};

verus! {

/// How recording an instantiated contract ends, given the address decoded
/// from the host's result (`None` where it was malformed) and the text of the
/// code id found among the events (`None` where no attribute names it).
///
/// In this order: the address must have been decoded; the code id must be
/// there and be a number; a label must be cached; and no contract may be
/// recorded yet under that code id and label. Then the address is recorded
/// under them, its metadata starts out unset, and the cache is empty.
pub open spec fn recorded(
    state: StateView,
    address: Option<Seq<char>>,
    code_id: Option<Seq<char>>,
) -> Result<StateView, ContractError> {
    if address is None {
        Err(ContractError::Host(HostFailure::MalformedReply))
    } else if code_id is None {
        Err(ContractError::NotFound(Missing::CodeId))
    } else if parse_decimal(code_id->Some_0) is None {
        Err(ContractError::Host(HostFailure::MalformedCodeId))
    } else if state.label_cache is None {
        Err(ContractError::NotFound(Missing::Label))
    } else {
        let key = ContractKey {
            code_id: parse_decimal(code_id->Some_0)->Some_0,
            label: state.label_cache->Some_0,
        };
        if state.contracts.contains_key(key) {
            Err(ContractError::DuplicateKey)
        } else {
            Ok(
                StateView {
                    admin: state.admin,
                    contracts: state.contracts.insert(key, address->Some_0),
                    metadata: state.metadata.insert(address->Some_0, ContractMetadata::unset()),
                    label_cache: None,
                },
            )
        }
    }
}

/// How the reply to a request to instantiate ends: the sub-request must have
/// succeeded and have left data; the rest is as `recorded` says of the address
/// decoded from that data and of the code id named by the events.
pub open spec fn outcome(state: StateView, msg: Reply) -> Result<StateView, ContractError> {
    match msg.result {
        SubMsgResult::Failure(_) => Err(ContractError::Host(HostFailure::SubMessageFailed)),
        SubMsgResult::Success(response) => match response.data {
            None => Err(ContractError::Host(HostFailure::MalformedReply)),
            Some(data) => recorded(
                state,
                decoded_address(data@),
                event_attribute(response.events@, "code_id"@),
            ),
        },
    }
}

/// The response to a reply.
pub open spec fn response() -> ResponseView {
    ResponseView::empty()
}

/// Records the contract at `address` under the code id that `events` name and
/// the cached label, and empties the cache. `address` is what was decoded from
/// the host's result, `None` where that was malformed.
pub fn record(state: &mut State, address: Option<String>, events: &Vec<Event>) -> (result: Result<
    Response,
    ContractError,
>)
    ensures
        settles(
            recorded(old(state)@, option_text(address), event_attribute(events@, "code_id"@)),
            response(),
            old(state)@,
            final(state)@,
            result,
        ),
{
    let address = match address {
        Some(address) => address,
        None => {
            return Err(ContractError::Host(HostFailure::MalformedReply));
        },
    };
    let wanted = String::from_str("code_id");
    let code_id = match find_event_attribute(events, &wanted) {
        Some(text) => match from_decimal(text.as_str()) {
            Some(code_id) => code_id,
            None => {
                return Err(ContractError::Host(HostFailure::MalformedCodeId));
            },
        },
        None => {
            return Err(ContractError::NotFound(Missing::CodeId));
        },
    };
    let label = match &state.label_cache {
        Some(label) => label.clone(),
        None => {
            return Err(ContractError::NotFound(Missing::Label));
        },
    };
    if !state.contracts.insert(code_id, label, address.clone()) {
        return Err(ContractError::DuplicateKey);
    }
    state.metadata.put(address, ContractMetadata { rewards_address: None, metadata_set: false });
    state.label_cache = None;
    Ok(Response::new())
}

/// Handles the host's reply to a request to instantiate.
pub fn reply(state: &mut State, msg: Reply) -> (result: Result<Response, ContractError>)
    ensures
        settles(outcome(old(state)@, msg), response(), old(state)@, final(state)@, result),
{
    match msg.result {
        SubMsgResult::Failure(_) => Err(ContractError::Host(HostFailure::SubMessageFailed)),
        SubMsgResult::Success(response) => match response.data {
            None => Err(ContractError::Host(HostFailure::MalformedReply)),
            Some(data) => {
                let address = decode_instantiate_response(&data);
                record(state, address, &response.events)
            },
        },
    }
}

} // verus!
