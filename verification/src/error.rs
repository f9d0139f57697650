//! The three ways a query can fail, one per stage of the pipeline.

use vstd::prelude::*;

verus! {

/// Why a query produced no result.
#[derive(Debug, Clone, Copy, PartialEq, Eq, Structural)]
pub enum Error {
    /// The service could not be reached, or the exchange broke off.
    HttpError,
    /// The response arrived, but its body could not be read as text.
    GetTextError,
    /// The body is not JSON, or does not have the shape of an address result.
    UnmarshalJsonError,
}

impl Error {
    /// The message shown for each kind of failure.
    pub open spec fn message(self) -> Seq<char> {
        match self {
            Error::HttpError => "Can't access to http://api-adresse.data.gouv.fr"@,
            Error::GetTextError => "Can't unmarshal data response to text"@,
            Error::UnmarshalJsonError => "Can't unmarshal text response to json"@,
        }
    }

    /// Renders the failure as its message.
    pub fn to_string(&self) -> (text: String)
        ensures
            text@ == self.message(),
    {
        match self {
            Error::HttpError => "Can't access to http://api-adresse.data.gouv.fr".to_owned(),
            Error::GetTextError => "Can't unmarshal data response to text".to_owned(),
            Error::UnmarshalJsonError => "Can't unmarshal text response to json".to_owned(),
        }
    }
}

} // verus!
