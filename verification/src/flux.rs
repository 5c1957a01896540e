//! Image generation as the registry offers it: where the request goes, how it
//! is authorised, and what is made of the answer.

use vstd::prelude::*;
use vstd::string::StringExecFns;

verus! {

/// Where a prediction is asked for.
pub const PREDICTIONS_URL: &'static str =
    "https://api.replicate.com/v1/models/black-forest-labs/flux-schnell/predictions";

/// What stands before the token in the authorisation of a request.
pub const BEARER: &'static str = "Bearer ";

/// What the outcome says when the answer holds no image.
pub const NO_IMAGE: &'static str = "Did not receive image_url from response.";

/// The authorisation of a request by the holder of `token`.
pub fn authorization(token: &str) -> (header: String)
    ensures
        header@ == BEARER@ + token@,
{
    BEARER.to_string().concat(token)
}

/// The outcome of a prediction whose answer lists `output`: the first address
/// listed, or a failure where none is listed.
pub open spec fn image_outcome(output: Seq<Seq<char>>) -> Result<Seq<char>, Seq<char>> {
    if output.len() > 0 {
        Ok(output[0])
    } else {
        Err(NO_IMAGE@)
    }
}

/// The outcome of a prediction, from the addresses that its answer lists.
pub fn image_url(output: &Vec<String>) -> (outcome: Result<String, String>)
    ensures
        crate::dispatch::outcome_view(outcome) == image_outcome(crate::views::seq_view(output@)),
{
    if output.len() > 0 {
        Ok(output[0].clone())
    } else {
        Err(NO_IMAGE.to_string())
    }
}

} // verus!
