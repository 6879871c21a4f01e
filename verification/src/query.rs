//! The questions that the registry answers. None of them changes it.

pub mod contract_metadata;
pub mod contracts_list;
pub mod rewards_record;
