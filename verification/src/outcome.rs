//! The decision from the transport and parse results to the caller-visible
//! result of a completion call.

use vstd::prelude::*;
use crate::errors::DavinciError;
use crate::response::{first_choice_text, CompletionResponse};

verus! {

/// What came back from the one HTTP exchange of a call, as plain values:
/// either the transport failed outright, or a body arrived and either
/// parsed into a response or did not.
pub enum FetchOutcome {
    /// The POST never completed; the transport's own detail.
    TransportFailure(String),
    /// The POST completed; the body parsed into a response, or failed to
    /// with the parser's detail.
    Fetched(Result<CompletionResponse, String>),
}

/// The result of one completion call, decided from what the exchange
/// returned: a transport failure and an unparseable body each surface as
/// their own error, a response without choices is an explicit error, and
/// otherwise the text of the first choice is returned unmodified.
pub fn settle(outcome: FetchOutcome) -> (r: Result<String, DavinciError>)
    ensures
        outcome matches FetchOutcome::TransportFailure(d) ==> r == Err::<String, DavinciError>(
            DavinciError::Transport(d),
        ),
        outcome matches FetchOutcome::Fetched(Err(d)) ==> r == Err::<String, DavinciError>(
            DavinciError::MalformedResponse(d),
        ),
        outcome matches FetchOutcome::Fetched(Ok(resp)) && resp.choices@.len() == 0 ==> r == Err::<
            String,
            DavinciError,
        >(DavinciError::EmptyChoices),
        (outcome is Fetched && outcome->Fetched_0 is Ok && outcome->Fetched_0->Ok_0.choices@.len()
            > 0) ==> (r is Ok && r->Ok_0@ == outcome->Fetched_0->Ok_0.choices@[0].text@),
{
    match outcome {
        FetchOutcome::TransportFailure(d) => Err(DavinciError::Transport(d)),
        FetchOutcome::Fetched(Err(d)) => Err(DavinciError::MalformedResponse(d)),
        FetchOutcome::Fetched(Ok(resp)) => first_choice_text(&resp),
    }
}

} // verus!
