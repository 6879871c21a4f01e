//! Asking the host to instantiate a contract.

use vstd::prelude::*;
use vstd::string::*;
use crate::decimal::{decimal, to_decimal};
use crate::error::ContractError;
use crate::host::{
    Env, InstantiateRequest, InstantiateRequestView, MessageInfo, ReplyOn, Response, ResponseView,
    SubMsg, SubMsgView,
};
use crate::state::{settles, State, StateView};

verus! {

/// The id that tags the request to instantiate, and the host's reply to it.
pub const INSTANTIATE_REPLY_ID: u64 = 1;

/// How a request to instantiate ends: the caller must be the admin; then the
/// label is cached, in place of any label cached before. Whether a contract is
/// already recorded under the code id and label plays no part.
pub open spec fn outcome(state: StateView, sender: Seq<char>, label: Seq<char>) -> Result<
    StateView,
    ContractError,
> {
    if sender != state.admin {
        Err(ContractError::Unauthorized)
    } else {
        Ok(
            StateView {
                admin: state.admin,
                contracts: state.contracts,
                metadata: state.metadata,
                label_cache: Some(label),
            },
        )
    }
}

/// The sub-request that goes to the host: instantiate `code_id` under `label`
/// with `payload`, without funds and with the registry as the new contract's
/// admin, and answer only if that succeeds.
pub open spec fn request(
    registry: Seq<char>,
    code_id: u64,
    payload: Seq<u8>,
    label: Seq<char>,
) -> SubMsgView {
    SubMsgView {
        id: INSTANTIATE_REPLY_ID,
        msg: InstantiateRequestView {
            admin: Some(registry),
            code_id,
            msg: payload,
            funds: Seq::empty(),
            label,
        },
        reply_on: ReplyOn::Success,
    }
}

/// The response to a request to instantiate: the action, the code id and the
/// label as attributes, and the sub-request.
pub open spec fn response(
    registry: Seq<char>,
    code_id: u64,
    payload: Seq<u8>,
    label: Seq<char>,
) -> ResponseView {
    ResponseView::empty().with_attribute("action"@, "instantiate_contract"@).with_attribute(
        "code_id"@,
        decimal(code_id as nat),
    ).with_attribute("label"@, label).with_submessage(request(registry, code_id, payload, label))
}

/// Caches `label` and asks the host to instantiate the code `code_id` under
/// it, for the admin.
pub fn execute(
    state: &mut State,
    env: Env,
    info: MessageInfo,
    code_id: u64,
    instantiate_msg: Vec<u8>,
    label: String,
) -> (result: Result<Response, ContractError>)
    ensures
        settles(
            outcome(old(state)@, info.sender@, label@),
            response(env.contract.address@, code_id, instantiate_msg@, label@),
            old(state)@,
            final(state)@,
            result,
        ),
{
    if !(info.sender == state.admin) {
        return Err(ContractError::Unauthorized);
    }
    state.label_cache = Some(label.clone());
    let message = SubMsg {
        id: INSTANTIATE_REPLY_ID,
        msg: InstantiateRequest {
            admin: Some(env.contract.address),
            code_id,
            msg: instantiate_msg,
            funds: Vec::new(),
            label: label.clone(),
        },
        reply_on: ReplyOn::Success,
    };
    assert(message@.msg.funds =~= Seq::empty());
    Ok(
        Response::new().add_attribute(
            "action",
            String::from_str("instantiate_contract"),
        ).add_attribute("code_id", to_decimal(code_id)).add_attribute("label", label).add_submessage(
            message,
        ),
    )
}

} // verus!
