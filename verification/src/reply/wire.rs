//! Decoding what the host sends back after it has instantiated a contract.

use vstd::prelude::*;
use crate::host::option_text;

verus! {

/// The contract address that `cw_utils::parse_instantiate_response_data` reads
/// out of `data` where `usize` has `usize_bits` bits, or `None` where it turns
/// `data` down. The width is part of it because that function narrows a length
/// that it reads from `data` to `usize`.
pub uninterp spec fn instantiate_response_address(data: Seq<u8>, usize_bits: u32) -> Option<
    Seq<char>,
>;

/// The contract address that the bytes `data` of an instantiation result hold,
/// or `None` where they are malformed.
pub open spec fn decoded_address(data: Seq<u8>) -> Option<Seq<char>> {
    instantiate_response_address(data, usize::BITS)
}

/// Trusted: calls `cw_utils::parse_instantiate_response_data` on `data` and
/// keeps the contract address of what it returns, or `None` for any of its
/// errors. Nothing is proved of the decoding: the contract only gives its
/// result a name.
#[verifier::external_body]
pub(crate) fn decode_instantiate_response(data: &Vec<u8>) -> (address: Option<String>)
    ensures
        option_text(address) == instantiate_response_address(data@, usize::BITS),
{
    match cw_utils::parse_instantiate_response_data(data.as_slice()) {
        Ok(response) => Some(response.contract_address),
        Err(_) => None,
    }
}

} // verus!
