//! What holds of the registry across its operations.

use vstd::prelude::*;
use crate::contract::{executed, instantiated, replied};
use crate::decimal::parse_decimal;
use crate::error::{ContractError, Missing};
use crate::execute::{change_owner, instantiate_contract, set_contract_metadata};
use crate::execute::instantiate_contract::INSTANTIATE_REPLY_ID;
use crate::host::{event_attribute, Reply};
use crate::metadata::ContractMetadata;
use crate::msg::{AddressInput, ExecuteMsg, InstantiateMsg};
use crate::order::ContractKey;
use crate::reply::wire::decoded_address;
use crate::state::{committed, StateView};

verus! {

/// After a change of owner, every operation that is for the admin alone fails
/// as unauthorized for every caller but the new owner.
pub proof fn lemma_only_the_new_owner_is_admin(
    state: StateView,
    sender: Seq<char>,
    new_owner: AddressInput,
    caller: Seq<char>,
    msg: ExecuteMsg,
)
    requires
        change_owner::outcome(state, sender, new_owner) is Ok,
        caller != new_owner.text@,
        !(msg is Other),
    ensures
        executed(change_owner::outcome(state, sender, new_owner)->Ok_0, caller, msg) == Err::<
            StateView,
            ContractError,
        >(ContractError::Unauthorized),
{
}

/// Whoever is not the admin is turned away from every operation that is for
/// the admin alone, whatever else may be wrong with the message.
pub proof fn lemma_admin_alone_changes_the_registry(
    state: StateView,
    caller: Seq<char>,
    msg: ExecuteMsg,
)
    requires
        caller != state.admin,
        !(msg is Other),
    ensures
        executed(state, caller, msg) == Err::<StateView, ContractError>(
            ContractError::Unauthorized,
        ),
{
}

/// A request to instantiate and the reply to it, run as one transaction on a
/// registry with nothing in flight, leave nothing in flight, whether the reply
/// succeeds or fails. Where it succeeds, the registry has exactly one record
/// more, under the code id that the events name and the requested label, for
/// the address decoded from the reply; that address has metadata that is not
/// set; and the admin is who it was.
pub proof fn lemma_request_then_reply(
    state: StateView,
    sender: Seq<char>,
    label: Seq<char>,
    reply: Reply,
)
    requires
        state.label_cache is None,
        instantiate_contract::outcome(state, sender, label) is Ok,
    ensures
        ({
            let requested = instantiate_contract::outcome(state, sender, label)->Ok_0;
            let end = replied(requested, reply);
            &&& committed(state, end).label_cache is None
            &&& end is Ok ==> {
                let result = reply.result->Success_0;
                let address = decoded_address(result.data->Some_0@)->Some_0;
                let code_id = parse_decimal(
                    event_attribute(result.events@, "code_id"@)->Some_0,
                )->Some_0;
                let key = ContractKey { code_id, label };
                &&& !state.contracts.contains_key(key)
                &&& end->Ok_0.contracts == state.contracts.insert(key, address)
                &&& end->Ok_0.contracts.dom() == state.contracts.dom().insert(key)
                &&& end->Ok_0.metadata == state.metadata.insert(address, ContractMetadata::unset())
                &&& end->Ok_0.admin == state.admin
            }
        }),
{
}

/// A second request for a code id and label under which a contract is
/// recorded is accepted like any other; it is the reply that fails, with a
/// duplicate key, once the host has instantiated the contract: given a reply
/// that carries the request's id, data that decode to an address, and events
/// that name the code id.
pub proof fn lemma_duplicate_fails_at_the_reply(
    state: StateView,
    code_id: u64,
    label: Seq<char>,
    reply: Reply,
)
    requires
        state.contracts.contains_key(ContractKey { code_id, label }),
        reply.id == INSTANTIATE_REPLY_ID,
        reply.result is Success,
        reply.result->Success_0.data is Some,
        decoded_address(reply.result->Success_0.data->Some_0@) is Some,
        event_attribute(reply.result->Success_0.events@, "code_id"@) is Some,
        parse_decimal(event_attribute(reply.result->Success_0.events@, "code_id"@)->Some_0)
            == Some(code_id),
    ensures
        instantiate_contract::outcome(state, state.admin, label) is Ok,
        replied(instantiate_contract::outcome(state, state.admin, label)->Ok_0, reply) == Err::<
            StateView,
            ContractError,
        >(ContractError::DuplicateKey),
{
}

/// Setting the rewards address of a contract without metadata fails as not
/// found. Setting it twice is the same as setting it the second time alone:
/// only the last rewards address is kept.
pub proof fn lemma_last_rewards_address_stays(
    state: StateView,
    contract_address: Seq<char>,
    first: Seq<char>,
    second: Seq<char>,
)
    ensures
        !state.metadata.contains_key(contract_address) ==> set_contract_metadata::outcome(
            state,
            state.admin,
            contract_address,
            first,
        ) == Err::<StateView, ContractError>(ContractError::NotFound(Missing::Metadata)),
        state.metadata.contains_key(contract_address) ==> {
            let once = set_contract_metadata::outcome(state, state.admin, contract_address, first);
            let twice = set_contract_metadata::outcome(
                once->Ok_0,
                state.admin,
                contract_address,
                second,
            );
            &&& once is Ok
            &&& twice is Ok
            &&& twice == set_contract_metadata::outcome(
                state,
                state.admin,
                contract_address,
                second,
            )
            &&& twice->Ok_0.metadata[contract_address] == ContractMetadata::set_to(second)
        },
{
    if state.metadata.contains_key(contract_address) {
        let once = set_contract_metadata::outcome(state, state.admin, contract_address, first);
        let twice = set_contract_metadata::outcome(
            once->Ok_0,
            state.admin,
            contract_address,
            second,
        );
        let alone = set_contract_metadata::outcome(state, state.admin, contract_address, second);
        assert(twice->Ok_0.metadata =~= alone->Ok_0.metadata);
    }
}

/// A registry that was just set up has metadata for each recorded contract,
/// having none, and has nothing in flight.
pub proof fn lemma_fresh_registry(sender: Seq<char>, msg: InstantiateMsg)
    requires
        instantiated(sender, msg) is Ok,
    ensures
        instantiated(sender, msg)->Ok_0.each_contract_has_metadata(),
        instantiated(sender, msg)->Ok_0.label_cache is None,
        instantiated(sender, msg)->Ok_0.contracts == Map::<ContractKey, Seq<char>>::empty(),
{
}

/// No message adds, changes or removes a record, and none removes metadata:
/// each recorded contract keeps its metadata entry. Only a change of owner
/// changes the admin.
pub proof fn lemma_execute_keeps_records(state: StateView, sender: Seq<char>, msg: ExecuteMsg)
    requires
        state.each_contract_has_metadata(),
        executed(state, sender, msg) is Ok,
    ensures
        executed(state, sender, msg)->Ok_0.each_contract_has_metadata(),
        executed(state, sender, msg)->Ok_0.contracts == state.contracts,
        forall|address: Seq<char>| #[trigger]
            state.metadata.contains_key(address) ==> executed(
                state,
                sender,
                msg,
            )->Ok_0.metadata.contains_key(address),
        !(msg is ChangeOwner) ==> executed(state, sender, msg)->Ok_0.admin == state.admin,
{
    let after = executed(state, sender, msg)->Ok_0;
    assert forall|key: ContractKey| #[trigger] after.contracts.contains_key(key) implies after.metadata.contains_key(
        after.contracts[key],
    ) by {
        assert(state.contracts.contains_key(key));
    }
}

/// No reply changes or removes a record that was there, none removes
/// metadata, and none changes the admin: each recorded contract, the new one
/// too, has its metadata entry.
pub proof fn lemma_reply_keeps_records(state: StateView, msg: Reply)
    requires
        state.each_contract_has_metadata(),
        replied(state, msg) is Ok,
    ensures
        replied(state, msg)->Ok_0.each_contract_has_metadata(),
        forall|key: ContractKey| #[trigger]
            state.contracts.contains_key(key) ==> replied(state, msg)->Ok_0.contracts.contains_key(
                key,
            ) && replied(state, msg)->Ok_0.contracts[key] == state.contracts[key],
        forall|address: Seq<char>| #[trigger]
            state.metadata.contains_key(address) ==> replied(state, msg)->Ok_0.metadata.contains_key(
                address,
            ),
        replied(state, msg)->Ok_0.admin == state.admin,
{
    let after = replied(state, msg)->Ok_0;
    assert forall|key: ContractKey| #[trigger] after.contracts.contains_key(key) implies after.metadata.contains_key(
        after.contracts[key],
    ) by {
        if state.contracts.contains_key(key) {
            assert(state.metadata.contains_key(state.contracts[key]));
        }
    }
}

} // verus!
