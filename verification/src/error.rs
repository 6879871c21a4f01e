//! The failures of the registry's operations.

use vstd::prelude::*;
use vstd::string::*;
use crate::decimal::{decimal, to_decimal};

verus! {

/// What an operation looked for and did not find.
#[derive(Clone, Copy, Debug, PartialEq, Eq, Structural)]
pub enum Missing {
    /// No metadata is stored for the contract address.
    Metadata,
    /// The reply's events hold no attribute that names the code id.
    CodeId,
    /// No label is cached: no instantiation is in flight.
    Label,
}

/// A failure on the host's side, or in what the host handed over.
#[derive(Clone, Copy, Debug, PartialEq, Eq, Structural)]
pub enum HostFailure {
    /// The sub-request itself failed.
    SubMessageFailed,
    /// The result of the instantiation could not be decoded.
    MalformedReply,
    /// The attribute that names the code id does not hold a number.
    MalformedCodeId,
}

/// Why an operation failed.
#[derive(Clone, Copy, Debug, PartialEq, Eq, Structural)]
pub enum ContractError {
    /// The caller is not the admin.
    Unauthorized,
    /// An address in the message is not well formed.
    InvalidAddress,
    /// Something that the operation needs is not there.
    NotFound(Missing),
    /// A contract is already recorded under the code id and label.
    DuplicateKey,
    /// The reply carries an id that no request of the registry was tagged with.
    UnknownReplyId(u64),
    /// The message names an operation that the registry does not offer.
    Unimplemented,
    /// The host failed, or handed over something unusable.
    Host(HostFailure),
}

impl ContractError {
    /// The text of the error.
    pub open spec fn text(self) -> Seq<char> {
        match self {
            ContractError::Unauthorized => "Unauthorized"@,
            ContractError::InvalidAddress => "Invalid address"@,
            ContractError::NotFound(Missing::Metadata) => "Contract metadata not found"@,
            ContractError::NotFound(Missing::CodeId) => "Code id attribute not found"@,
            ContractError::NotFound(Missing::Label) => "No instantiation in flight"@,
            ContractError::DuplicateKey => "Contract already recorded"@,
            ContractError::UnknownReplyId(id) => "Unknown reply id: "@ + decimal(id as nat),
            ContractError::Unimplemented => "Unimplemented"@,
            ContractError::Host(HostFailure::SubMessageFailed) => "Sub-message failed"@,
            ContractError::Host(HostFailure::MalformedReply) => "Malformed instantiation reply"@,
            ContractError::Host(HostFailure::MalformedCodeId) => "Malformed code id"@,
        }
    }

    /// Writes the error out.
    pub fn message(&self) -> (text: String)
        ensures
            text@ == self.text(),
    {
        match self {
            ContractError::Unauthorized => String::from_str("Unauthorized"),
            ContractError::InvalidAddress => String::from_str("Invalid address"),
            ContractError::NotFound(Missing::Metadata) => String::from_str(
                "Contract metadata not found",
            ),
            ContractError::NotFound(Missing::CodeId) => String::from_str(
                "Code id attribute not found",
            ),
            ContractError::NotFound(Missing::Label) => String::from_str(
                "No instantiation in flight",
            ),
            ContractError::DuplicateKey => String::from_str("Contract already recorded"),
            ContractError::UnknownReplyId(id) => {
                let number = to_decimal(*id);
                String::from_str("Unknown reply id: ").concat(number.as_str())
            },
            ContractError::Unimplemented => String::from_str("Unimplemented"),
            ContractError::Host(HostFailure::SubMessageFailed) => String::from_str(
                "Sub-message failed",
            ),
            ContractError::Host(HostFailure::MalformedReply) => String::from_str(
                "Malformed instantiation reply",
            ),
            ContractError::Host(HostFailure::MalformedCodeId) => String::from_str(
                "Malformed code id",
            ),
        }
    }
}

} // verus!
