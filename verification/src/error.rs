//! What can fail, by stage: the ledger, the model's stream, and function
//! dispatch. A run of the relay fails with the failure of the stage that stopped
//! it.

use vstd::prelude::*;
use vstd::string::StringExecFns;

verus! {

/// A write that the ledger refused.
#[derive(Clone, Copy, Debug, PartialEq, Eq, Structural)]
pub enum StorageError {
    /// The session that the write names does not exist.
    UnknownSession,
    /// The identifier of the new row is already taken.
    DuplicateId,
}

impl StorageError {
    /// The failure in words.
    pub fn describe(&self) -> (text: String)
        ensures
            text@ == match *self {
                StorageError::UnknownSession => "The session does not exist."@,
                StorageError::DuplicateId => "The identifier is already in use."@,
            },
    {
        match self {
            StorageError::UnknownSession => "The session does not exist.".to_string(),
            StorageError::DuplicateId => "The identifier is already in use.".to_string(),
        }
    }
}

/// The view of a failure of the stream.
pub enum StreamErrorModel {
    TransportError(Seq<char>),
    DecodeError(Seq<char>),
}

/// Why the model's stream stopped before its end.
#[derive(Debug, PartialEq, Eq)]
pub enum StreamError {
    /// The connection failed, or was refused before the stream began.
    TransportError(String),
    /// A message of the stream was not an event.
    DecodeError(String),
}

impl View for StreamError {
    type V = StreamErrorModel;

    open spec fn view(&self) -> StreamErrorModel {
        match *self {
            StreamError::TransportError(text) => StreamErrorModel::TransportError(text@),
            StreamError::DecodeError(text) => StreamErrorModel::DecodeError(text@),
        }
    }
}

impl Clone for StreamError {
    fn clone(&self) -> (copy: Self)
        ensures
            copy@ == self@,
    {
        match self {
            StreamError::TransportError(text) => StreamError::TransportError(text.clone()),
            StreamError::DecodeError(text) => StreamError::DecodeError(text.clone()),
        }
    }
}

impl StreamError {
    /// The failure in words.
    pub fn describe(&self) -> (text: String)
        ensures
            text@ == match self@ {
                StreamErrorModel::TransportError(detail) => "EventSource: "@ + detail,
                StreamErrorModel::DecodeError(detail) => "GeminiResponse: "@ + detail,
            },
    {
        match self {
            StreamError::TransportError(detail) => "EventSource: ".to_string().concat(
                detail.as_str(),
            ),
            StreamError::DecodeError(detail) => "GeminiResponse: ".to_string().concat(
                detail.as_str(),
            ),
        }
    }
}

/// The view of a failure of dispatch.
pub enum DispatchErrorModel {
    UnknownFunction,
    MissingArgument(Seq<char>),
    HandlerError(Seq<char>),
}

/// Why a function call of the model was not carried out.
#[derive(Debug, PartialEq, Eq)]
pub enum DispatchError {
    /// No function is registered under the name.
    UnknownFunction,
    /// The call lacks the argument of this name, which the function requires.
    MissingArgument(String),
    /// The function was run and failed; the text says how.
    HandlerError(String),
}

impl View for DispatchError {
    type V = DispatchErrorModel;

    open spec fn view(&self) -> DispatchErrorModel {
        match *self {
            DispatchError::UnknownFunction => DispatchErrorModel::UnknownFunction,
            DispatchError::MissingArgument(key) => DispatchErrorModel::MissingArgument(key@),
            DispatchError::HandlerError(text) => DispatchErrorModel::HandlerError(text@),
        }
    }
}

impl Clone for DispatchError {
    fn clone(&self) -> (copy: Self)
        ensures
            copy@ == self@,
    {
        match self {
            DispatchError::UnknownFunction => DispatchError::UnknownFunction,
            DispatchError::MissingArgument(key) => DispatchError::MissingArgument(key.clone()),
            DispatchError::HandlerError(text) => DispatchError::HandlerError(text.clone()),
        }
    }
}

impl DispatchError {
    /// The failure in words.
    pub fn describe(&self) -> (text: String)
        ensures
            text@ == match self@ {
                DispatchErrorModel::UnknownFunction => "Function call not supported."@,
                DispatchErrorModel::MissingArgument(key) => "Argument was not supplied: "@ + key,
                DispatchErrorModel::HandlerError(detail) => detail,
            },
    {
        match self {
            DispatchError::UnknownFunction => "Function call not supported.".to_string(),
            DispatchError::MissingArgument(key) => "Argument was not supplied: ".to_string().concat(
                key.as_str(),
            ),
            DispatchError::HandlerError(detail) => detail.clone(),
        }
    }
}

/// The view of the failure of a run.
pub enum ComposerErrorModel {
    Storage(StorageError),
    Stream(StreamErrorModel),
    FunctionDispatch(DispatchErrorModel),
}

/// Why a run of the relay was aborted: the failure of the stage that stopped it.
#[derive(Debug, PartialEq, Eq)]
pub enum ComposerError {
    Storage(StorageError),
    Stream(StreamError),
    FunctionDispatch(DispatchError),
}

impl View for ComposerError {
    type V = ComposerErrorModel;

    open spec fn view(&self) -> ComposerErrorModel {
        match *self {
            ComposerError::Storage(error) => ComposerErrorModel::Storage(error),
            ComposerError::Stream(error) => ComposerErrorModel::Stream(error@),
            ComposerError::FunctionDispatch(error) => ComposerErrorModel::FunctionDispatch(error@),
        }
    }
}

impl Clone for ComposerError {
    fn clone(&self) -> (copy: Self)
        ensures
            copy@ == self@,
    {
        match self {
            ComposerError::Storage(error) => ComposerError::Storage(*error),
            ComposerError::Stream(error) => ComposerError::Stream(error.clone()),
            ComposerError::FunctionDispatch(error) => ComposerError::FunctionDispatch(
                error.clone(),
            ),
        }
    }
}

impl ComposerError {
    /// The failure in words.
    pub fn describe(&self) -> (text: String)
        ensures
            text@ == match *self {
                ComposerError::Storage(error) => match error {
                    StorageError::UnknownSession => "The session does not exist."@,
                    StorageError::DuplicateId => "The identifier is already in use."@,
                },
                ComposerError::Stream(error) => match error@ {
                    StreamErrorModel::TransportError(detail) => "EventSource: "@ + detail,
                    StreamErrorModel::DecodeError(detail) => "GeminiResponse: "@ + detail,
                },
                ComposerError::FunctionDispatch(error) => match error@ {
                    DispatchErrorModel::UnknownFunction => "Function call not supported."@,
                    DispatchErrorModel::MissingArgument(key) => "Argument was not supplied: "@
                        + key,
                    DispatchErrorModel::HandlerError(detail) => detail,
                },
            },
    {
        match self {
            ComposerError::Storage(error) => error.describe(),
            ComposerError::Stream(error) => error.describe(),
            ComposerError::FunctionDispatch(error) => error.describe(),
        }
    }
}

} // verus!
