//! Conversation content as the engine keeps it: parts, contents, the events of
//! the model's stream, and the request that opens a stream.
//!
//! Each type has a view: a value made of character sequences, sequences and maps,
//! which is what contracts speak of.

use vstd::prelude::*;
use crate::strmap::StringMap;
use crate::views::{clone_all, clone_option, option_view, seq_view};

verus! {

/// A request of the model to run a named function with named arguments.
#[verifier::ext_equal]
pub struct FunctionCallModel {
    pub name: Seq<char>,
    pub args: Map<Seq<char>, Seq<char>>,
}

/// What a function returned.
pub struct FunctionResponseModel {
    pub name: Seq<char>,
    pub response: Seq<char>,
}

/// The one payload that a part carries.
#[verifier::ext_equal]
pub enum Payload {
    Text(Seq<char>),
    FunctionCall(FunctionCallModel),
    FunctionResponse(FunctionResponseModel),
    Nothing,
}

/// The view of a part: the three fields of which one is filled.
#[verifier::ext_equal]
pub struct PartModel {
    pub text: Option<Seq<char>>,
    pub function_call: Option<FunctionCallModel>,
    pub function_response: Option<FunctionResponseModel>,
}

impl PartModel {
    /// The payload of the part. Text comes before a function call and a function
    /// call before a function response, should more than one field be filled.
    pub open spec fn payload(self) -> Payload {
        match self.text {
            Some(text) => Payload::Text(text),
            None => match self.function_call {
                Some(call) => Payload::FunctionCall(call),
                None => match self.function_response {
                    Some(response) => Payload::FunctionResponse(response),
                    None => Payload::Nothing,
                },
            },
        }
    }

    /// Whether exactly one of the three fields is filled.
    pub open spec fn is_single(self) -> bool {
        ||| self.text is Some && self.function_call is None && self.function_response is None
        ||| self.text is None && self.function_call is Some && self.function_response is None
        ||| self.text is None && self.function_call is None && self.function_response is Some
    }

    /// The part that carries `text`.
    pub open spec fn of_text(text: Seq<char>) -> PartModel {
        PartModel { text: Some(text), function_call: None, function_response: None }
    }

    /// The part that carries the function call `call`.
    pub open spec fn of_call(call: FunctionCallModel) -> PartModel {
        PartModel { text: None, function_call: Some(call), function_response: None }
    }

    /// The part that carries the function response `response`.
    pub open spec fn of_response(response: FunctionResponseModel) -> PartModel {
        PartModel { text: None, function_call: None, function_response: Some(response) }
    }
}

/// A part made to carry one thing carries that thing and nothing else.
pub proof fn lemma_made_parts_are_single(
    text: Seq<char>,
    call: FunctionCallModel,
    response: FunctionResponseModel,
)
    ensures
        PartModel::of_text(text).is_single(),
        PartModel::of_text(text).payload() == Payload::Text(text),
        PartModel::of_call(call).is_single(),
        PartModel::of_call(call).payload() == Payload::FunctionCall(call),
        PartModel::of_response(response).is_single(),
        PartModel::of_response(response).payload() == Payload::FunctionResponse(response),
{
}

/// The view of a content.
#[verifier::ext_equal]
pub struct ContentModel {
    pub role: Seq<char>,
    pub parts: Seq<PartModel>,
}

/// The view of a candidate.
#[verifier::ext_equal]
pub struct CandidateModel {
    pub content: Option<ContentModel>,
    pub finish_reason: Option<Seq<char>>,
}

/// The view of an event of the stream.
#[verifier::ext_equal]
pub struct ResponseModel {
    pub candidates: Seq<CandidateModel>,
}

/// The view of a parameter.
pub struct ParameterModel {
    pub kind: Seq<char>,
    pub description: Seq<char>,
}

/// The view of the parameters of a function.
#[verifier::ext_equal]
pub struct ParametersModel {
    pub kind: Seq<char>,
    pub properties: Map<Seq<char>, ParameterModel>,
    pub required: Seq<Seq<char>>,
}

/// The view of the declaration of a function.
#[verifier::ext_equal]
pub struct DeclarationModel {
    pub name: Seq<char>,
    pub description: Seq<char>,
    pub parameters: Option<ParametersModel>,
}

/// The view of a tool.
#[verifier::ext_equal]
pub struct ToolModel {
    pub function_declarations: Seq<DeclarationModel>,
}

/// The view of an instruction.
#[verifier::ext_equal]
pub struct InstructionModel {
    pub parts: Seq<PartModel>,
}

/// The view of a request.
#[verifier::ext_equal]
pub struct RequestModel {
    pub contents: Seq<ContentModel>,
    pub tools: Seq<ToolModel>,
    pub system_instruction: Option<InstructionModel>,
}

impl RequestModel {
    /// Whether every declared function comes with its parameters.
    pub open spec fn is_complete(self) -> bool {
        forall|t: int, d: int|
            0 <= t < self.tools.len() && 0 <= d < self.tools[t].function_declarations.len()
                ==> (#[trigger] self.tools[t].function_declarations[d]).parameters is Some
    }
}

/// The request of the model to run a function.
#[derive(Debug, PartialEq, Eq)]
pub struct FunctionCallPb {
    pub name: String,
    pub args: StringMap<String>,
}

impl View for FunctionCallPb {
    type V = FunctionCallModel;

    open spec fn view(&self) -> FunctionCallModel {
        FunctionCallModel { name: self.name@, args: self.args@ }
    }
}

impl Clone for FunctionCallPb {
    fn clone(&self) -> (copy: Self)
        ensures
            copy@ == self@,
    {
        FunctionCallPb { name: self.name.clone(), args: self.args.duplicate() }
    }
}

/// What a function returned.
#[derive(Debug, PartialEq, Eq)]
pub struct FunctionResponsePb {
    pub name: String,
    pub response: String,
}

impl View for FunctionResponsePb {
    type V = FunctionResponseModel;

    open spec fn view(&self) -> FunctionResponseModel {
        FunctionResponseModel { name: self.name@, response: self.response@ }
    }
}

impl Clone for FunctionResponsePb {
    fn clone(&self) -> (copy: Self)
        ensures
            copy@ == self@,
    {
        FunctionResponsePb { name: self.name.clone(), response: self.response.clone() }
    }
}

/// The smallest unit of what is said: a text, the request to run a function, or
/// what a function returned. One of the three fields is filled.
#[derive(Debug, PartialEq, Eq)]
pub struct PartPb {
    pub text: Option<String>,
    pub function_call: Option<FunctionCallPb>,
    pub function_response: Option<FunctionResponsePb>,
}

impl View for PartPb {
    type V = PartModel;

    open spec fn view(&self) -> PartModel {
        PartModel {
            text: option_view(self.text),
            function_call: option_view(self.function_call),
            function_response: option_view(self.function_response),
        }
    }
}

impl PartPb {
    /// The part that carries `text`.
    pub fn of_text(text: String) -> (part: Self)
        ensures
            part@ == PartModel::of_text(text@),
    {
        PartPb { text: Some(text), function_call: None, function_response: None }
    }

    /// The part that carries the function call `call`.
    pub fn of_call(call: FunctionCallPb) -> (part: Self)
        ensures
            part@ == PartModel::of_call(call@),
    {
        PartPb { text: None, function_call: Some(call), function_response: None }
    }

    /// The part that carries the function response `response`.
    pub fn of_response(response: FunctionResponsePb) -> (part: Self)
        ensures
            part@ == PartModel::of_response(response@),
    {
        PartPb { text: None, function_call: None, function_response: Some(response) }
    }

    /// Whether exactly one of the three fields is filled.
    pub fn is_single(&self) -> (single: bool)
        ensures
            single == self@.is_single(),
    {
        let text = self.text.is_some();
        let call = self.function_call.is_some();
        let response = self.function_response.is_some();
        (text && !call && !response) || (!text && call && !response) || (!text && !call
            && response)
    }
}

impl Clone for PartPb {
    fn clone(&self) -> (copy: Self)
        ensures
            copy@ == self@,
    {
        PartPb {
            text: clone_option(&self.text),
            function_call: clone_option(&self.function_call),
            function_response: clone_option(&self.function_response),
        }
    }
}

/// What one party said: its role and the parts of what it said.
#[derive(Debug, PartialEq, Eq)]
pub struct ContentPb {
    pub role: String,
    pub parts: Vec<PartPb>,
}

impl View for ContentPb {
    type V = ContentModel;

    open spec fn view(&self) -> ContentModel {
        ContentModel { role: self.role@, parts: seq_view(self.parts@) }
    }
}

impl Clone for ContentPb {
    fn clone(&self) -> (copy: Self)
        ensures
            copy@ == self@,
    {
        ContentPb { role: self.role.clone(), parts: clone_all(&self.parts) }
    }
}

/// One answer among those that an event offers.
#[derive(Debug, PartialEq, Eq)]
pub struct CandidatePb {
    pub content: Option<ContentPb>,
    pub finish_reason: Option<String>,
}

impl View for CandidatePb {
    type V = CandidateModel;

    open spec fn view(&self) -> CandidateModel {
        CandidateModel {
            content: option_view(self.content),
            finish_reason: option_view(self.finish_reason),
        }
    }
}

impl Clone for CandidatePb {
    fn clone(&self) -> (copy: Self)
        ensures
            copy@ == self@,
    {
        CandidatePb {
            content: clone_option(&self.content),
            finish_reason: clone_option(&self.finish_reason),
        }
    }
}

/// One event of the model's stream.
#[derive(Debug, PartialEq, Eq)]
pub struct GeminiResponsePb {
    pub candidates: Vec<CandidatePb>,
}

impl View for GeminiResponsePb {
    type V = ResponseModel;

    open spec fn view(&self) -> ResponseModel {
        ResponseModel { candidates: seq_view(self.candidates@) }
    }
}

impl Clone for GeminiResponsePb {
    fn clone(&self) -> (copy: Self)
        ensures
            copy@ == self@,
    {
        GeminiResponsePb { candidates: clone_all(&self.candidates) }
    }
}

/// One parameter of a function: its kind, and what it is for.
#[derive(Debug, PartialEq, Eq)]
pub struct FunctionParameterPb {
    pub kind: String,
    pub description: String,
}

impl View for FunctionParameterPb {
    type V = ParameterModel;

    open spec fn view(&self) -> ParameterModel {
        ParameterModel { kind: self.kind@, description: self.description@ }
    }
}

impl Clone for FunctionParameterPb {
    fn clone(&self) -> (copy: Self)
        ensures
            copy@ == self@,
    {
        FunctionParameterPb { kind: self.kind.clone(), description: self.description.clone() }
    }
}

/// The parameters of a function: their kind, each by name, and the names of those
/// that must be given.
#[derive(Debug, PartialEq, Eq)]
pub struct FunctionParametersPb {
    pub kind: String,
    pub properties: StringMap<FunctionParameterPb>,
    pub required: Vec<String>,
}

impl View for FunctionParametersPb {
    type V = ParametersModel;

    open spec fn view(&self) -> ParametersModel {
        ParametersModel {
            kind: self.kind@,
            properties: self.properties@,
            required: seq_view(self.required@),
        }
    }
}

impl Clone for FunctionParametersPb {
    fn clone(&self) -> (copy: Self)
        ensures
            copy@ == self@,
    {
        FunctionParametersPb {
            kind: self.kind.clone(),
            properties: self.properties.duplicate(),
            required: clone_all(&self.required),
        }
    }
}

/// A function on offer: its name, what it does, and its parameters.
#[derive(Debug, PartialEq, Eq)]
pub struct FunctionDeclarationPb {
    pub name: String,
    pub description: String,
    pub parameters: Option<FunctionParametersPb>,
}

impl View for FunctionDeclarationPb {
    type V = DeclarationModel;

    open spec fn view(&self) -> DeclarationModel {
        DeclarationModel {
            name: self.name@,
            description: self.description@,
            parameters: option_view(self.parameters),
        }
    }
}

impl Clone for FunctionDeclarationPb {
    fn clone(&self) -> (copy: Self)
        ensures
            copy@ == self@,
    {
        FunctionDeclarationPb {
            name: self.name.clone(),
            description: self.description.clone(),
            parameters: clone_option(&self.parameters),
        }
    }
}

/// A set of functions on offer.
#[derive(Debug, PartialEq, Eq)]
pub struct ToolPb {
    pub function_declarations: Vec<FunctionDeclarationPb>,
}

impl View for ToolPb {
    type V = ToolModel;

    open spec fn view(&self) -> ToolModel {
        ToolModel { function_declarations: seq_view(self.function_declarations@) }
    }
}

impl Clone for ToolPb {
    fn clone(&self) -> (copy: Self)
        ensures
            copy@ == self@,
    {
        ToolPb { function_declarations: clone_all(&self.function_declarations) }
    }
}

/// An instruction that stands for the whole conversation.
#[derive(Debug, PartialEq, Eq)]
pub struct SystemInstructionPb {
    pub parts: Vec<PartPb>,
}

impl View for SystemInstructionPb {
    type V = InstructionModel;

    open spec fn view(&self) -> InstructionModel {
        InstructionModel { parts: seq_view(self.parts@) }
    }
}

impl Clone for SystemInstructionPb {
    fn clone(&self) -> (copy: Self)
        ensures
            copy@ == self@,
    {
        SystemInstructionPb { parts: clone_all(&self.parts) }
    }
}

/// What opens a stream: the new content, the tools on offer and the standing
/// instruction.
#[derive(Debug, PartialEq, Eq)]
pub struct GeminiRequestPb {
    pub contents: Vec<ContentPb>,
    pub tools: Vec<ToolPb>,
    pub system_instruction: Option<SystemInstructionPb>,
}

impl View for GeminiRequestPb {
    type V = RequestModel;

    open spec fn view(&self) -> RequestModel {
        RequestModel {
            contents: seq_view(self.contents@),
            tools: seq_view(self.tools@),
            system_instruction: option_view(self.system_instruction),
        }
    }
}

impl Clone for GeminiRequestPb {
    fn clone(&self) -> (copy: Self)
        ensures
            copy@ == self@,
    {
        GeminiRequestPb {
            contents: clone_all(&self.contents),
            tools: clone_all(&self.tools),
            system_instruction: clone_option(&self.system_instruction),
        }
    }
}

} // verus!
