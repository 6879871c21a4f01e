//! The list of recorded contracts.

use vstd::prelude::*;
use crate::contracts::{is_listing_of, listing_view, Contract};
use crate::state::State;

verus! {

/// The label and the contract of every record, each record once, in
/// descending order of the keys `(code id, label)`.
pub fn query(state: &State) -> (list: Vec<(String, Contract)>)
    ensures
        is_listing_of(state@.contracts, listing_view(list@)),
{
    state.contracts.list()
}

} // verus!
