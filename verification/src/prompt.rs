//! Construction of the prompt and of the authorization header value.

use vstd::prelude::*;

verus! {

/// The prompt sent to the model: the context, then the question, framed as
/// a two-party dialogue so that the completion continues the assistant turn.
pub fn build_prompt(context: &str, question: &str) -> (r: String)
    ensures
        r@ == context@ + ".\nH: "@ + question@ + ".\nIA:"@,
{
    let mut s = context.to_owned();
    s.append(".\nH: ");
    s.append(question);
    s.append(".\nIA:");
    s
}

/// The authorization header value for a bearer credential: the word
/// `Bearer`, a space, and the credential unchanged.
pub fn bearer_header(api_key: &str) -> (r: String)
    ensures
        r@ == "Bearer "@ + api_key@,
{
    let mut s = String::from_str("Bearer ");
    s.append(api_key);
    s
}

} // verus!
