//! The shapes that travel to and from the streaming backend, and the builders
//! of a request for one new turn.

use vstd::prelude::*;
use crate::proto::message::{
    CandidateModel, ContentModel, ContentPb, DeclarationModel, FunctionCallModel,
    FunctionResponseModel, GeminiRequestPb, InstructionModel, ParameterModel, ParametersModel,
    PartModel, PartPb, RequestModel, ResponseModel, SystemInstructionPb, ToolModel,
};
use crate::strmap::StringMap;
use crate::views::{option_view, seq_view};

verus! {

/// The name under which image generation is offered to the model.
pub const GENERATE_IMAGE: &'static str = "generate_image";

/// The name under which web search is offered to the model.
pub const BRAVE_SEARCH: &'static str = "web_search";

/// The standing instruction that every request carries.
pub const SYSTEM_PROMPT: &'static str =
    "You are Solus, an intelligent conversational assistant. Your primary goal is to engage in natural and helpful conversations with users. Do not include any prefix or identifier (like 'Solus:') at the beginning of your responses. Respond directly with the information or answer to the user's question.";

/// What is sent to open a stream: the conversation so far, the tools on offer and
/// the standing instruction.
#[derive(Debug, PartialEq, Eq)]
pub struct GeminiRequest {
    pub contents: Vec<Content>,
    pub tools: Vec<Tool>,
    pub system_instruction: Option<SystemInstruction>,
}

impl View for GeminiRequest {
    type V = RequestModel;

    open spec fn view(&self) -> RequestModel {
        RequestModel {
            contents: seq_view(self.contents@),
            tools: seq_view(self.tools@),
            system_instruction: option_view(self.system_instruction),
        }
    }
}

/// An instruction that stands for the whole conversation.
#[derive(Debug, PartialEq, Eq)]
pub struct SystemInstruction {
    pub parts: Vec<Part>,
}

impl View for SystemInstruction {
    type V = InstructionModel;

    open spec fn view(&self) -> InstructionModel {
        InstructionModel { parts: seq_view(self.parts@) }
    }
}

/// One message of the stream.
#[derive(Debug, PartialEq, Eq)]
pub struct GeminiResponse {
    pub candidates: Vec<Candidate>,
}

impl View for GeminiResponse {
    type V = ResponseModel;

    open spec fn view(&self) -> ResponseModel {
        ResponseModel { candidates: seq_view(self.candidates@) }
    }
}

/// What one party said: its role and the parts of what it said.
#[derive(Debug, PartialEq, Eq)]
pub struct Content {
    pub role: String,
    pub parts: Vec<Part>,
}

impl View for Content {
    type V = ContentModel;

    open spec fn view(&self) -> ContentModel {
        ContentModel { role: self.role@, parts: seq_view(self.parts@) }
    }
}

/// The smallest unit of what is said: a text, the request to run a function, or
/// what a function returned.
#[derive(Debug, PartialEq, Eq)]
pub struct Part {
    pub text: Option<String>,
    pub function_call: Option<FunctionCall>,
    pub function_response: Option<FunctionResponse>,
}

impl View for Part {
    type V = PartModel;

    open spec fn view(&self) -> PartModel {
        PartModel {
            text: option_view(self.text),
            function_call: option_view(self.function_call),
            function_response: option_view(self.function_response),
        }
    }
}

/// The request of the model to run a function.
#[derive(Debug, PartialEq, Eq)]
pub struct FunctionCall {
    pub name: String,
    pub args: StringMap<String>,
}

impl View for FunctionCall {
    type V = FunctionCallModel;

    open spec fn view(&self) -> FunctionCallModel {
        FunctionCallModel { name: self.name@, args: self.args@ }
    }
}

/// What a function returned.
#[derive(Debug, PartialEq, Eq)]
pub struct FunctionResponse {
    pub name: String,
    pub response: String,
}

impl View for FunctionResponse {
    type V = FunctionResponseModel;

    open spec fn view(&self) -> FunctionResponseModel {
        FunctionResponseModel { name: self.name@, response: self.response@ }
    }
}

/// A candidate as the backend sends it: its content is always there.
#[derive(Debug, PartialEq, Eq)]
pub struct Candidate {
    pub content: Content,
    pub finish_reason: Option<String>,
}

impl View for Candidate {
    type V = CandidateModel;

    open spec fn view(&self) -> CandidateModel {
        CandidateModel {
            content: Some(self.content@),
            finish_reason: option_view(self.finish_reason),
        }
    }
}

/// A set of functions on offer.
#[derive(Debug, PartialEq, Eq)]
pub struct Tool {
    pub function_declarations: Vec<FunctionDeclaration>,
}

impl View for Tool {
    type V = ToolModel;

    open spec fn view(&self) -> ToolModel {
        ToolModel { function_declarations: seq_view(self.function_declarations@) }
    }
}

/// A function on offer, as the backend is told of it: its parameters are
/// always there.
#[derive(Debug, PartialEq, Eq)]
pub struct FunctionDeclaration {
    pub name: String,
    pub description: String,
    pub parameters: FunctionParameters,
}

impl View for FunctionDeclaration {
    type V = DeclarationModel;

    open spec fn view(&self) -> DeclarationModel {
        DeclarationModel {
            name: self.name@,
            description: self.description@,
            parameters: Some(self.parameters@),
        }
    }
}

/// The parameters of a function: their kind, each by name, and the names of those
/// that must be given.
#[derive(Debug, PartialEq, Eq)]
pub struct FunctionParameters {
    pub kind: String,
    pub properties: StringMap<FunctionParameter>,
    pub required: Vec<String>,
}

impl View for FunctionParameters {
    type V = ParametersModel;

    open spec fn view(&self) -> ParametersModel {
        ParametersModel {
            kind: self.kind@,
            properties: self.properties@,
            required: seq_view(self.required@),
        }
    }
}

/// One parameter of a function: its kind, and what it is for.
#[derive(Debug, PartialEq, Eq)]
pub struct FunctionParameter {
    pub kind: String,
    pub description: String,
}

impl View for FunctionParameter {
    type V = ParameterModel;

    open spec fn view(&self) -> ParameterModel {
        ParameterModel { kind: self.kind@, description: self.description@ }
    }
}

/// The content of one turn: `text` said by `role`.
pub open spec fn turn(role: Seq<char>, text: Seq<char>) -> ContentModel {
    ContentModel { role, parts: seq![PartModel::of_text(text)] }
}

/// The standing instruction as every request carries it.
pub open spec fn standing_instruction() -> InstructionModel {
    InstructionModel { parts: seq![PartModel::of_text(SYSTEM_PROMPT@)] }
}

/// A content with one text part.
pub fn new_content_pb(role: String, text: String) -> (content: ContentPb)
    ensures
        content@ == turn(role@, text@),
{
    let mut parts: Vec<PartPb> = Vec::new();
    parts.push(PartPb::of_text(text));
    ContentPb { role, parts }
}

/// The request that carries `contents`, the standing instruction and no tools.
pub fn new_gemini_request_pb(contents: Vec<ContentPb>) -> (request: GeminiRequestPb)
    ensures
        request@ == (RequestModel {
            contents: seq_view(contents@),
            tools: Seq::<ToolModel>::empty(),
            system_instruction: Some(standing_instruction()),
        }),
        request@.is_complete(),
{
    let mut parts: Vec<PartPb> = Vec::new();
    parts.push(PartPb::of_text(SYSTEM_PROMPT.to_string()));
    let instruction = SystemInstructionPb { parts };
    GeminiRequestPb {
        contents,
        system_instruction: Some(instruction),
        tools: Vec::new(),
    }
}

} // verus!
