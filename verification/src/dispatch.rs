//! The registry of the functions that the model may call, and the two halves of
//! a dispatch: what to run for a call, and what to make of the outcome.
//!
//! Running a function is the caller's part. `resolve` says which function to
//! run and with what, or why none is run; `conclude` turns the outcome into the
//! response that goes downstream.

use vstd::prelude::*;
use crate::error::{DispatchError, DispatchErrorModel};
use crate::gemini::api::{BRAVE_SEARCH, GENERATE_IMAGE};
use crate::proto::message::{FunctionResponseModel, FunctionResponsePb};
use crate::strmap::StringMap;
use crate::text::str_eq;

verus! {

/// A function of the registry.
#[derive(Clone, Copy, Debug, PartialEq, Eq, Structural)]
pub enum FunctionKind {
    GenerateImage,
    WebSearch,
}

/// The argument that `generate_image` requires.
pub const PROMPT: &'static str = "prompt";

/// The argument that `web_search` requires.
pub const QUERY: &'static str = "query";

/// The view of a request to run a function.
pub enum HandlerRequestModel {
    GenerateImage { prompt: Seq<char> },
    WebSearch { query: Seq<char> },
}

/// One function to run, with the argument it requires.
#[derive(Debug, PartialEq, Eq)]
pub enum HandlerRequest {
    /// Request an image for `prompt`; the outcome is the image's URL.
    GenerateImage { prompt: String },
    /// Submit `query` to the search; the outcome is the raw result.
    WebSearch { query: String },
}

impl View for HandlerRequest {
    type V = HandlerRequestModel;

    open spec fn view(&self) -> HandlerRequestModel {
        match *self {
            HandlerRequest::GenerateImage { prompt } => HandlerRequestModel::GenerateImage {
                prompt: prompt@,
            },
            HandlerRequest::WebSearch { query } => HandlerRequestModel::WebSearch { query: query@ },
        }
    }
}

impl Clone for HandlerRequest {
    fn clone(&self) -> (copy: Self)
        ensures
            copy@ == self@,
    {
        match self {
            HandlerRequest::GenerateImage { prompt } => HandlerRequest::GenerateImage {
                prompt: prompt.clone(),
            },
            HandlerRequest::WebSearch { query } => HandlerRequest::WebSearch {
                query: query.clone(),
            },
        }
    }
}

/// The function registered under `name`.
pub open spec fn registered(name: Seq<char>) -> Option<FunctionKind> {
    if name == GENERATE_IMAGE@ {
        Some(FunctionKind::GenerateImage)
    } else if name == BRAVE_SEARCH@ {
        Some(FunctionKind::WebSearch)
    } else {
        None
    }
}

/// The name under which a function is registered.
pub open spec fn name_of(kind: FunctionKind) -> Seq<char> {
    match kind {
        FunctionKind::GenerateImage => GENERATE_IMAGE@,
        FunctionKind::WebSearch => BRAVE_SEARCH@,
    }
}

/// The argument that a function requires.
pub open spec fn required_key(kind: FunctionKind) -> Seq<char> {
    match kind {
        FunctionKind::GenerateImage => PROMPT@,
        FunctionKind::WebSearch => QUERY@,
    }
}

/// The request to run `kind` on `argument`.
pub open spec fn request_for(kind: FunctionKind, argument: Seq<char>) -> HandlerRequestModel {
    match kind {
        FunctionKind::GenerateImage => HandlerRequestModel::GenerateImage { prompt: argument },
        FunctionKind::WebSearch => HandlerRequestModel::WebSearch { query: argument },
    }
}

/// What a call of `name` with `args` leads to: the request to run, or the reason
/// why nothing is run.
pub open spec fn resolution(name: Seq<char>, args: Map<Seq<char>, Seq<char>>) -> Result<
    HandlerRequestModel,
    DispatchErrorModel,
> {
    match registered(name) {
        None => Err(DispatchErrorModel::UnknownFunction),
        Some(kind) => if args.contains_key(required_key(kind)) {
            Ok(request_for(kind, args[required_key(kind)]))
        } else {
            Err(DispatchErrorModel::MissingArgument(required_key(kind)))
        },
    }
}

/// What the outcome of a run leads to: the response to send on, or the failure.
pub open spec fn conclusion(name: Seq<char>, outcome: Result<Seq<char>, Seq<char>>) -> Result<
    FunctionResponseModel,
    DispatchErrorModel,
> {
    match outcome {
        Ok(response) => Ok(FunctionResponseModel { name, response }),
        Err(detail) => Err(DispatchErrorModel::HandlerError(detail)),
    }
}

/// The view of a dispatch result.
pub open spec fn result_view<T: View, E: View>(result: Result<T, E>) -> Result<T::V, E::V> {
    match result {
        Ok(value) => Ok(value@),
        Err(error) => Err(error@),
    }
}

/// The view of an outcome as the caller reports it.
pub open spec fn outcome_view(outcome: Result<String, String>) -> Result<Seq<char>, Seq<char>> {
    match outcome {
        Ok(response) => Ok(response@),
        Err(detail) => Err(detail@),
    }
}

/// The two registered names differ, so each name stands for one function.
pub proof fn lemma_names_distinct()
    ensures
        GENERATE_IMAGE@ != BRAVE_SEARCH@,
        forall|kind: FunctionKind| registered(#[trigger] name_of(kind)) == Some(kind),
{
    reveal_strlit("generate_image");
    reveal_strlit("web_search");
    assert(GENERATE_IMAGE@.len() == 14);
    assert(BRAVE_SEARCH@.len() == 10);
}

/// Looks `name` up in the registry.
pub fn lookup(name: &str) -> (kind: Option<FunctionKind>)
    ensures
        kind == registered(name@),
{
    if str_eq(name, GENERATE_IMAGE) {
        Some(FunctionKind::GenerateImage)
    } else if str_eq(name, BRAVE_SEARCH) {
        Some(FunctionKind::WebSearch)
    } else {
        None
    }
}

/// Decides what a call of `name` with `args` leads to, before anything is run.
/// An unknown name and a missing argument are found here, so for neither is a
/// request made.
pub fn resolve(name: &str, args: &StringMap<String>) -> (resolved: Result<
    HandlerRequest,
    DispatchError,
>)
    ensures
        result_view(resolved) == resolution(name@, args@),
        registered(name@) is None ==> resolved == Err::<HandlerRequest, DispatchError>(
            DispatchError::UnknownFunction,
        ),
{
    match lookup(name) {
        None => Err(DispatchError::UnknownFunction),
        Some(FunctionKind::GenerateImage) => match args.get(PROMPT) {
            Some(prompt) => Ok(HandlerRequest::GenerateImage { prompt: prompt.clone() }),
            None => Err(DispatchError::MissingArgument(PROMPT.to_string())),
        },
        Some(FunctionKind::WebSearch) => match args.get(QUERY) {
            Some(query) => Ok(HandlerRequest::WebSearch { query: query.clone() }),
            None => Err(DispatchError::MissingArgument(QUERY.to_string())),
        },
    }
}

/// Turns the outcome of running the function `name` into the response that goes
/// downstream, or into the failure of the dispatch.
pub fn conclude(name: &str, outcome: Result<String, String>) -> (concluded: Result<
    FunctionResponsePb,
    DispatchError,
>)
    ensures
        result_view(concluded) == conclusion(name@, outcome_view(outcome)),
{
    match outcome {
        Ok(response) => Ok(FunctionResponsePb { name: name.to_string(), response }),
        Err(detail) => Err(DispatchError::HandlerError(detail)),
    }
}

} // verus!
