//! The part of a query that follows the exchange with the service: from what
//! the fetch brought back to an address result or a classified failure.

use vstd::prelude::*;

use crate::address::{AddressResult, AddressResultView};
use crate::decode::{address_result_of, is_decoded};
use crate::error::Error;
use crate::json::Json;
use crate::parse::parsed_tree;

verus! {

/// What one request for a URL brought back.
#[derive(Debug, Clone, PartialEq, Eq)]
pub enum Fetched {
    /// The exchange itself failed: no connection, no answer.
    Unreachable,
    /// An answer came, but its body could not be read as text.
    Unreadable,
    /// The body of the answer, whatever its status.
    Body(String),
}

/// The address result that a response body gives: the text must be JSON, and
/// the document must have the shape of an address result.
pub open spec fn decoded(text: Seq<char>) -> Option<AddressResultView> {
    match parsed_tree(text) {
        Some(tree) => address_result_of(tree),
        None => None,
    }
}

/// What a query comes to, given what its fetch brought back. The first stage
/// that fails decides the error; no later stage is looked at.
pub open spec fn outcome(fetched: Fetched) -> Result<AddressResultView, Error> {
    match fetched {
        Fetched::Unreachable => Err(Error::HttpError),
        Fetched::Unreadable => Err(Error::GetTextError),
        Fetched::Body(text) => match decoded(text@) {
            Some(result) => Ok(result),
            None => Err(Error::UnmarshalJsonError),
        },
    }
}

/// Reads an address result from the text of a response body. Whatever is
/// wrong with the text, the error is the decoding error.
pub fn decode(text: &str) -> (result: Result<AddressResult, Error>)
    ensures
        is_decoded(result, decoded(text@)),
{
    match Json::parse(text) {
        Some(json) => AddressResult::from_json(&json),
        None => Err(Error::UnmarshalJsonError),
    }
}

/// The text that a fetch brought back, or the failure of the stage at which
/// it went wrong.
pub fn body(fetched: Fetched) -> (result: Result<String, Error>)
    ensures
        match fetched {
            Fetched::Unreachable => result == Err::<String, Error>(Error::HttpError),
            Fetched::Unreadable => result == Err::<String, Error>(Error::GetTextError),
            Fetched::Body(text) => result == Ok::<String, Error>(text),
        },
{
    match fetched {
        Fetched::Unreachable => Err(Error::HttpError),
        Fetched::Unreadable => Err(Error::GetTextError),
        Fetched::Body(text) => Ok(text),
    }
}

/// Concludes a query from what its fetch brought back: an address result, or
/// the one error that belongs to the stage that failed.
pub fn get_data(fetched: Fetched) -> (result: Result<AddressResult, Error>)
    ensures
        match outcome(fetched) {
            Ok(content) => result is Ok && result->Ok_0@ == content,
            Err(error) => result is Err && result->Err_0 == error,
        },
{
    match body(fetched) {
        Ok(text) => decode(text.as_str()),
        Err(error) => Err(error),
    }
}

} // verus!
