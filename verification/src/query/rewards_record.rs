//! The contracts whose rewards can be looked up.

use vstd::prelude::*;
use crate::metadata::{eligible, targets_view, RewardsTarget};
use crate::state::State;

verus! {

/// The contracts whose metadata is set, each once, with its rewards address.
/// The amounts come from elsewhere; this is the registry's part of the answer.
pub fn query(state: &State) -> (targets: Vec<RewardsTarget>)
    ensures
        targets_view(targets@).to_set() == eligible(state@.metadata),
        targets_view(targets@).no_duplicates(),
{
    state.metadata.targets()
}

} // verus!
