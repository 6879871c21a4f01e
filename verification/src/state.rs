//! All that the registry keeps between calls.

use vstd::prelude::*;
use crate::contracts::ContractStore;
use crate::error::ContractError;
use crate::host::{Response, ResponseView};
use crate::metadata::{MetadataStore, MetadataView};
use crate::order::ContractKey;

verus! {

/// The registry's state.
#[derive(Clone, Debug, PartialEq, Eq)]
pub struct State {
    /// The one address that may change the registry.
    pub admin: String,
    /// The address of each instantiated contract, under its code id and label.
    pub contracts: ContractStore,
    /// The metadata of each instantiated contract, under its address.
    pub metadata: MetadataStore,
    /// The label of the instantiation that is in flight, if one is.
    pub label_cache: Option<String>,
}

/// The registry's state, as a mathematical value.
pub struct StateView {
    pub admin: Seq<char>,
    pub contracts: Map<ContractKey, Seq<char>>,
    pub metadata: Map<Seq<char>, MetadataView>,
    pub label_cache: Option<Seq<char>>,
}

impl View for State {
    type V = StateView;

    open spec fn view(&self) -> StateView {
        StateView {
            admin: self.admin@,
            contracts: self.contracts@,
            metadata: self.metadata@,
            label_cache: match self.label_cache {
                Some(label) => Some(label@),
                None => None,
            },
        }
    }
}

impl StateView {
    /// The state of a registry that `admin` owns and that has recorded nothing.
    pub open spec fn fresh(admin: Seq<char>) -> StateView {
        StateView {
            admin,
            contracts: Map::empty(),
            metadata: Map::empty(),
            label_cache: None,
        }
    }

    /// Every recorded contract has metadata.
    pub open spec fn each_contract_has_metadata(self) -> bool {
        forall|key: ContractKey| #[trigger]
            self.contracts.contains_key(key) ==> self.metadata.contains_key(self.contracts[key])
    }
}

/// An operation that began in `before` and was to end as `outcome` says has
/// ended so: where `outcome` is a state, the registry is in it and `result` is
/// the response `response`; where it is an error, the registry is as it was and
/// `result` is that error.
pub open spec fn settles(
    outcome: Result<StateView, ContractError>,
    response: ResponseView,
    before: StateView,
    after: StateView,
    result: Result<Response, ContractError>,
) -> bool {
    match outcome {
        Ok(next) => after == next && result is Ok && result->Ok_0@ == response,
        Err(error) => after == before && result == Err::<Response, ContractError>(error),
    }
}

/// The state in which a transaction leaves the registry: the state that its
/// last step reached, or, where that step failed, the state in which the
/// transaction began, since the host undoes a failed transaction as a whole.
pub open spec fn committed(begin: StateView, end: Result<StateView, ContractError>) -> StateView {
    match end {
        Ok(reached) => reached,
        Err(_) => begin,
    }
}

} // verus!
