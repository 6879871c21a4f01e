//! Handing the registry over to a new owner.

use vstd::prelude::*;
use vstd::string::*;
use crate::error::ContractError;
use crate::host::{MessageInfo, Response, ResponseView};
use crate::msg::AddressInput;
use crate::state::{settles, State, StateView};

verus! {

/// How a change of owner ends: the caller must be the admin and the new
/// owner's address well formed; then the new owner is the admin and nothing
/// else has changed.
pub open spec fn outcome(state: StateView, sender: Seq<char>, new_owner: AddressInput) -> Result<
    StateView,
    ContractError,
> {
    if sender != state.admin {
        Err(ContractError::Unauthorized)
    } else if !new_owner.well_formed {
        Err(ContractError::InvalidAddress)
    } else {
        Ok(
            StateView {
                admin: new_owner.text@,
                contracts: state.contracts,
                metadata: state.metadata,
                label_cache: state.label_cache,
            },
        )
    }
}

/// The response to a change of owner.
pub open spec fn response(new_owner: Seq<char>) -> ResponseView {
    ResponseView::empty().with_attribute("action"@, "change_owner"@).with_attribute(
        "new_owner"@,
        new_owner,
    )
}

/// Makes `new_owner` the admin, for the admin.
pub fn execute(state: &mut State, info: MessageInfo, new_owner: AddressInput) -> (result: Result<
    Response,
    ContractError,
>)
    ensures
        settles(
            outcome(old(state)@, info.sender@, new_owner),
            response(new_owner.text@),
            old(state)@,
            final(state)@,
            result,
        ),
{
    if !(info.sender == state.admin) {
        return Err(ContractError::Unauthorized);
    }
    if !new_owner.well_formed {
        return Err(ContractError::InvalidAddress);
    }
    state.admin = new_owner.text.clone();
    Ok(
        Response::new().add_attribute("action", String::from_str("change_owner")).add_attribute(
            "new_owner",
            new_owner.text,
        ),
    )
}

} // verus!
