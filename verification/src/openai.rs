//! The completion request and response shapes, and the rendering of a
//! response into the reply text that goes back to the channel.
//!
//! The request's temperature is carried in hundredths (70 stands for 0.70) so
//! that the whole parameter bundle is plain integers and strings; the layer
//! that serialises the outbound call divides by one hundred.

use vstd::prelude::*;
use vstd::string::StrSliceExecFns;
use vstd::string::StringExecFns;
use crate::error::AppError;

verus! {

/// The model identifier sent with every completion request.
pub open spec fn default_model() -> Seq<char> {
    "text-davinci-002"@
}

/// The fixed sampling temperature, in hundredths: 0.70.
pub const DEFAULT_TEMPERATURE_HUNDREDTHS: u32 = 70;

/// The token budget used when the orchestrator asks for a completion.
pub const DEFAULT_MAX_TOKENS: u32 = 50;

/// Parameters of one completion request. Constructed per classified request
/// and not persisted.
#[derive(Debug, Clone, PartialEq, Eq)]
pub struct GPTParameters {
    pub model: String,
    pub prompt: String,
    /// Sampling temperature in hundredths; at most 200 (2.00).
    pub temperature_hundredths: u32,
    /// Upper bound on generated tokens; at least one.
    pub max_tokens: u32,
}

impl GPTParameters {
    /// The parameters' invariant: temperature within [0, 2] and a positive
    /// token budget.
    pub open spec fn well_formed(&self) -> bool {
        &&& self.temperature_hundredths <= 200
        &&& self.max_tokens >= 1
    }

    /// Parameters for one request: the fixed model and temperature, the given
    /// prompt unchanged, and the given token budget.
    pub fn new(prompt: &str, max_tokens: u32) -> (r: GPTParameters)
        requires
            max_tokens >= 1,
        ensures
            r.model@ == default_model(),
            r.prompt@ == prompt@,
            r.temperature_hundredths == DEFAULT_TEMPERATURE_HUNDREDTHS,
            r.max_tokens == max_tokens,
            r.well_formed(),
    {
        GPTParameters {
            model: String::from_str("text-davinci-002"),
            prompt: prompt.to_owned(),
            temperature_hundredths: DEFAULT_TEMPERATURE_HUNDREDTHS,
            max_tokens,
        }
    }
}

/// One candidate text returned by the completion endpoint, ranked by response
/// order.
#[derive(Debug, Clone, PartialEq, Eq)]
pub struct GPTChoice {
    pub text: String,
    pub index: u32,
    pub finish_reason: String,
}

/// Token accounting reported by the completion endpoint.
#[derive(Debug, Clone, Copy, PartialEq, Eq)]
pub struct GPTUsageStats {
    pub prompt_tokens: u32,
    pub completion_tokens: u32,
    pub total_tokens: u32,
}

/// A decoded completion response. The choices sequence may be empty; that is
/// a modeled condition the orchestrator handles, not an invariant violation.
#[derive(Debug, Clone, PartialEq, Eq)]
pub struct GPTResponse {
    pub choices: Vec<GPTChoice>,
    pub usage: GPTUsageStats,
}

/// The fenced code block around a reply body.
pub open spec fn code_block(text: Seq<char>) -> Seq<char> {
    "```"@ + text + "```"@
}

/// Wrap `text` in a fenced code block.
pub fn wrap_code_block(text: &str) -> (r: String)
    ensures
        r@ == code_block(text@),
{
    String::from_str("```").concat(text).concat("```")
}

/// The reply that answers a completion response: the first choice's text in a
/// fenced code block, or `EmptyChoices` exactly when the response holds no
/// choice at all.
pub fn first_choice_reply(response: &GPTResponse) -> (r: Result<String, AppError>)
    ensures
        r is Ok <==> response.choices@.len() > 0,
        r matches Ok(body) ==> body@ == code_block(response.choices@[0].text@),
        r matches Err(e) ==> e == AppError::EmptyChoices,
{
    if response.choices.len() == 0 {
        Err(AppError::EmptyChoices)
    } else {
        Ok(wrap_code_block(response.choices[0].text.as_str()))
    }
}

} // verus!
