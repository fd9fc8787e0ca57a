//! The failures a completion call can end in.

use vstd::prelude::*;

verus! {

/// Why a completion call failed. Every failure propagates directly to the
/// caller: there is no retry, no fallback value.
#[derive(Debug, PartialEq, Eq)]
pub enum DavinciError {
    /// The request never completed: network, DNS, connection or TLS
    /// failure, with the transport's own detail.
    Transport(String),
    /// The response body did not parse as a completion response, with the
    /// parser's own detail.
    MalformedResponse(String),
    /// The response parsed but carried zero choices.
    EmptyChoices,
}

impl DavinciError {
    /// A short description of the failure, for presentation by the caller.
    pub fn describe(&self) -> (r: String)
        ensures
            self matches DavinciError::Transport(d) ==> r@ == "transport failure: "@ + d@,
            self matches DavinciError::MalformedResponse(d) ==> r@ == "malformed response: "@
                + d@,
            self matches DavinciError::EmptyChoices ==> r@ == "the response carried no choices"@,
    {
        match self {
            DavinciError::Transport(d) => {
                let mut s = String::from_str("transport failure: ");
                s.append(d.as_str());
                s
            },
            DavinciError::MalformedResponse(d) => {
                let mut s = String::from_str("malformed response: ");
                s.append(d.as_str());
                s
            },
            DavinciError::EmptyChoices => String::from_str("the response carried no choices"),
        }
    }
}

} // verus!
