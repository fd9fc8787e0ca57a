//! The completion response and the extraction of its first choice.

use vstd::prelude::*;
use crate::errors::DavinciError;

verus! {

/// One generated completion inside a response.
pub struct Choice {
    /// The generated text, passed through to the caller unmodified.
    pub text: String,
    /// The position of this choice in the response.
    pub index: u8,
    /// Log-probability data; carried through, never consumed.
    pub logprobs: Option<i32>,
    /// Why generation stopped for this choice.
    pub finish_reason: String,
}

/// Token accounting reported by the service; carried through, never
/// consumed by the caller-visible result.
pub struct Usage {
    pub prompt_tokens: i32,
    pub completion_tokens: i32,
    pub total_tokens: i32,
}

/// One parsed completion response.
pub struct CompletionResponse {
    pub id: String,
    pub object: String,
    pub created: u64,
    pub model: String,
    /// The generated choices; a response with none yields an explicit error.
    pub choices: Vec<Choice>,
    pub usage: Usage,
}

/// The text of the first choice of a response, exactly as the service sent
/// it; a response without choices is an explicit error, never an
/// out-of-bounds access.
pub fn first_choice_text(resp: &CompletionResponse) -> (r: Result<String, DavinciError>)
    ensures
        resp.choices@.len() == 0 ==> r == Err::<String, DavinciError>(DavinciError::EmptyChoices),
        resp.choices@.len() > 0 ==> (r matches Ok(t) && t@ == resp.choices@[0].text@),
{
    if resp.choices.len() == 0 {
        Err(DavinciError::EmptyChoices)
    } else {
        Ok(resp.choices[0].text.clone())
    }
}

} // verus!
