//! The client side of the model's stream: what is sent when a stream is opened
//! and what is made of each thing that comes back.

pub mod api;

use vstd::prelude::*;
use vstd::string::StringExecFns;
use crate::composer::{Signal, SignalModel};
use crate::error::{StreamError, StreamErrorModel};
use crate::gemini::api::{
    Candidate, Content, FunctionCall, FunctionDeclaration, FunctionParameter, FunctionParameters,
    FunctionResponse, GeminiRequest, GeminiResponse, Part, SystemInstruction, Tool,
};
use crate::proto::message::{
    CandidatePb, ContentPb, FunctionCallPb, FunctionDeclarationPb, FunctionParameterPb,
    FunctionParametersPb, FunctionResponsePb, GeminiRequestPb, GeminiResponsePb, PartPb,
    RequestModel, ResponseModel, SystemInstructionPb, ToolPb,
};
use crate::strmap::StringMap;
use crate::views::{clone_all, clone_option, convert_all, option_view, seq_view};

verus! {

/// The instruction as it is sent.
pub fn system_instruction_from_pb(system_instruction_pb: Option<&SystemInstructionPb>) -> (made:
    Option<SystemInstruction>)
    ensures
        option_view(made) == option_view(system_instruction_pb),
{
    match system_instruction_pb {
        None => None,
        Some(system_instruction_pb) => Some(
            SystemInstruction { parts: convert_all(&system_instruction_pb.parts, part_from_pb) },
        ),
    }
}

/// The content as it is sent.
pub fn content_from_pb(content_pb: &ContentPb) -> (content: Content)
    ensures
        content@ == content_pb@,
{
    Content {
        role: content_pb.role.clone(),
        parts: convert_all(&content_pb.parts, part_from_pb),
    }
}

/// The part as it is sent.
pub fn part_from_pb(part_pb: &PartPb) -> (part: Part)
    ensures
        part@ == part_pb@,
{
    Part {
        text: clone_option(&part_pb.text),
        function_call: function_call_from_pb(part_pb.function_call.as_ref()),
        function_response: function_response_from_pb(part_pb.function_response.as_ref()),
    }
}

/// The function call as it is sent.
pub fn function_call_from_pb(function_call_pb: Option<&FunctionCallPb>) -> (made: Option<
    FunctionCall,
>)
    ensures
        option_view(made) == option_view(function_call_pb),
{
    match function_call_pb {
        None => None,
        Some(function_call_pb) => Some(
            FunctionCall {
                name: function_call_pb.name.clone(),
                args: function_call_pb.args.duplicate(),
            },
        ),
    }
}

/// The function response as it is sent.
pub fn function_response_from_pb(function_response_pb: Option<&FunctionResponsePb>) -> (made:
    Option<FunctionResponse>)
    ensures
        option_view(made) == option_view(function_response_pb),
{
    match function_response_pb {
        None => None,
        Some(function_response_pb) => Some(
            FunctionResponse {
                name: function_response_pb.name.clone(),
                response: function_response_pb.response.clone(),
            },
        ),
    }
}

/// Whether each declaration of the tool comes with its parameters.
pub fn tool_is_complete(tool_pb: &ToolPb) -> (complete: bool)
    ensures
        complete == (forall|d: int|
            0 <= d < tool_pb@.function_declarations.len()
                ==> (#[trigger] tool_pb@.function_declarations[d]).parameters is Some),
{
    let mut i: usize = 0;
    while i < tool_pb.function_declarations.len()
        invariant
            i <= tool_pb.function_declarations@.len(),
            forall|d: int|
                0 <= d < i ==> (#[trigger] tool_pb@.function_declarations[d]).parameters is Some,
        decreases tool_pb.function_declarations@.len() - i,
    {
        if tool_pb.function_declarations[i].parameters.is_none() {
            proof {
                assert(tool_pb@.function_declarations[i as int].parameters is None);
            }
            return false;
        }
        i += 1;
    }
    true
}

/// The tool as it is sent. Each of its declarations must come with its
/// parameters.
pub fn tool_from_pb(tool_pb: &ToolPb) -> (tool: Tool)
    requires
        forall|d: int|
            0 <= d < tool_pb@.function_declarations.len()
                ==> (#[trigger] tool_pb@.function_declarations[d]).parameters is Some,
    ensures
        tool@ == tool_pb@,
{
    let mut function_declarations: Vec<FunctionDeclaration> = Vec::new();
    let mut i: usize = 0;
    while i < tool_pb.function_declarations.len()
        invariant
            i <= tool_pb.function_declarations@.len(),
            function_declarations@.len() == i,
            forall|d: int|
                0 <= d < tool_pb@.function_declarations.len()
                    ==> (#[trigger] tool_pb@.function_declarations[d]).parameters is Some,
            forall|j: int|
                0 <= j < i ==> function_declarations@[j]@ == tool_pb.function_declarations@[j]@,
        decreases tool_pb.function_declarations@.len() - i,
    {
        proof {
            assert(tool_pb@.function_declarations[i as int].parameters is Some);
        }
        let declaration = function_declaration_from_pb(&tool_pb.function_declarations[i]);
        function_declarations.push(declaration);
        i += 1;
    }
    Tool { function_declarations }
}

/// The declaration as it is sent. It must come with its parameters.
pub fn function_declaration_from_pb(
    function_declaration_pb: &FunctionDeclarationPb,
) -> (declaration: FunctionDeclaration)
    requires
        function_declaration_pb.parameters is Some,
    ensures
        declaration@ == function_declaration_pb@,
{
    let parameters = function_declaration_pb.parameters.as_ref().unwrap();
    FunctionDeclaration {
        name: function_declaration_pb.name.clone(),
        description: function_declaration_pb.description.clone(),
        parameters: function_parameters_from_pb(parameters),
    }
}

/// The parameters as they are sent.
pub fn function_parameters_from_pb(function_parameters_pb: &FunctionParametersPb) -> (parameters:
    FunctionParameters)
    ensures
        parameters@ == function_parameters_pb@,
{
    FunctionParameters {
        kind: function_parameters_pb.kind.clone(),
        properties: function_parameter_from_pb(&function_parameters_pb.properties),
        required: clone_all(&function_parameters_pb.required),
    }
}

fn parameter_from_pb(parameter_pb: &FunctionParameterPb) -> (parameter: FunctionParameter)
    ensures
        parameter@ == parameter_pb@,
{
    FunctionParameter {
        kind: parameter_pb.kind.clone(),
        description: parameter_pb.description.clone(),
    }
}

/// The parameters by name as they are sent, in the same order.
pub fn function_parameter_from_pb(function_parameter_pb: &StringMap<FunctionParameterPb>) -> (made:
    StringMap<FunctionParameter>)
    ensures
        made@ == function_parameter_pb@,
        made.key_seq() == function_parameter_pb.key_seq(),
{
    function_parameter_pb.convert(parameter_from_pb)
}

/// The event that a message of the stream holds.
pub fn pb_from_gemini_response(gemini_response: &GeminiResponse) -> (event: GeminiResponsePb)
    ensures
        event@ == gemini_response@,
{
    GeminiResponsePb { candidates: convert_all(&gemini_response.candidates, pb_from_candidate) }
}

/// The candidate as the engine keeps it.
pub fn pb_from_candidate(candidate: &Candidate) -> (candidate_pb: CandidatePb)
    ensures
        candidate_pb@ == candidate@,
{
    CandidatePb {
        content: pb_from_content(&candidate.content),
        finish_reason: clone_option(&candidate.finish_reason),
    }
}

/// The content as the engine keeps it.
pub fn pb_from_content(content: &Content) -> (content_pb: Option<ContentPb>)
    ensures
        option_view(content_pb) == Some(content@),
{
    Some(
        ContentPb {
            role: content.role.clone(),
            parts: convert_all(&content.parts, pb_from_part),
        },
    )
}

/// The part as the engine keeps it.
pub fn pb_from_part(part: &Part) -> (part_pb: PartPb)
    ensures
        part_pb@ == part@,
{
    PartPb {
        text: clone_option(&part.text),
        function_call: pb_from_function_call(part.function_call.as_ref()),
        function_response: pb_from_function_response(part.function_response.as_ref()),
    }
}

/// The function call as the engine keeps it.
pub fn pb_from_function_call(function_call: Option<&FunctionCall>) -> (made: Option<FunctionCallPb>)
    ensures
        option_view(made) == option_view(function_call),
{
    match function_call {
        None => None,
        Some(function_call) => Some(
            FunctionCallPb {
                name: function_call.name.clone(),
                args: function_call.args.duplicate(),
            },
        ),
    }
}

/// The function response as the engine keeps it.
pub fn pb_from_function_response(function_response: Option<&FunctionResponse>) -> (made: Option<
    FunctionResponsePb,
>)
    ensures
        option_view(made) == option_view(function_response),
{
    match function_response {
        None => None,
        Some(function_response) => Some(
            FunctionResponsePb {
                name: function_response.name.clone(),
                response: function_response.response.clone(),
            },
        ),
    }
}

/// Whether each declaration of each tool of the request comes with its
/// parameters.
pub fn request_is_complete(request: &GeminiRequestPb) -> (complete: bool)
    ensures
        complete == request@.is_complete(),
{
    let mut t: usize = 0;
    while t < request.tools.len()
        invariant
            t <= request.tools@.len(),
            forall|s: int, d: int|
                0 <= s < t && 0 <= d < request@.tools[s].function_declarations.len() ==> (
                #[trigger] request@.tools[s].function_declarations[d]).parameters is Some,
        decreases request.tools@.len() - t,
    {
        if !tool_is_complete(&request.tools[t]) {
            proof {
                let tool = request@.tools[t as int];
                let d = choose|d: int|
                    0 <= d < tool.function_declarations.len() && !((
                    #[trigger] tool.function_declarations[d]).parameters is Some);
                assert(request@.tools[t as int].function_declarations[d].parameters is None);
            }
            return false;
        }
        t += 1;
    }
    true
}

/// The request that goes to the backend: `history` as its contents, and the
/// tools and the standing instruction of `request`.
pub fn assemble_request(history: &Vec<ContentPb>, request: &GeminiRequestPb) -> (assembled:
    GeminiRequest)
    requires
        request@.is_complete(),
    ensures
        assembled@ == (RequestModel {
            contents: seq_view(history@),
            tools: request@.tools,
            system_instruction: request@.system_instruction,
        }),
{
    let mut tools: Vec<Tool> = Vec::new();
    let mut t: usize = 0;
    while t < request.tools.len()
        invariant
            t <= request.tools@.len(),
            tools@.len() == t,
            request@.is_complete(),
            forall|s: int| 0 <= s < t ==> tools@[s]@ == request.tools@[s]@,
        decreases request.tools@.len() - t,
    {
        proof {
            let tool = request@.tools[t as int];
            assert forall|d: int| 0 <= d < tool.function_declarations.len() implies (
            #[trigger] tool.function_declarations[d]).parameters is Some by {
                assert(request@.tools[t as int].function_declarations[d].parameters is Some);
            }
        }
        let tool = tool_from_pb(&request.tools[t]);
        tools.push(tool);
        t += 1;
    }
    GeminiRequest {
        contents: convert_all(history, content_from_pb),
        tools,
        system_instruction: system_instruction_from_pb(request.system_instruction.as_ref()),
    }
}

/// Where the backend takes requests for a stream: the head of the address.
pub const STREAM_ENDPOINT: &'static str =
    "https://generativelanguage.googleapis.com/v1beta/models/";

/// The action and the parameters that follow the model's name in the address.
pub const STREAM_ACTION: &'static str = ":streamGenerateContent?alt=sse&key=";

/// The model that answers within a session.
pub const SESSION_MODEL: &'static str = "gemini-1.5-flash";

/// The model that answers without a session.
pub const SIMPLE_MODEL: &'static str = "gemini-2.0-flash";

/// The address to which the request for a stream of `model` goes, for the
/// holder of `token`.
pub fn stream_url(model: &str, token: &str) -> (url: String)
    ensures
        url@ == STREAM_ENDPOINT@ + model@ + STREAM_ACTION@ + token@,
{
    STREAM_ENDPOINT.to_string().concat(model).concat(STREAM_ACTION).concat(token)
}

/// The view of a report of the transport.
pub enum StreamInputModel {
    Open,
    Message(Result<ResponseModel, Seq<char>>),
    Ended,
    Fault(Seq<char>),
}

/// What the transport reports of the stream.
#[derive(Debug, PartialEq, Eq)]
pub enum StreamInput {
    /// The connection stands.
    Open,
    /// A message came: the event that it decodes to, or why it does not decode.
    Message(Result<GeminiResponse, String>),
    /// The backend closed the connection in good order.
    Ended,
    /// The connection failed, or was refused.
    Fault(String),
}

impl View for StreamInput {
    type V = StreamInputModel;

    open spec fn view(&self) -> StreamInputModel {
        match *self {
            StreamInput::Open => StreamInputModel::Open,
            StreamInput::Message(decoded) => StreamInputModel::Message(
                match decoded {
                    Ok(response) => Ok(response@),
                    Err(detail) => Err(detail@),
                },
            ),
            StreamInput::Ended => StreamInputModel::Ended,
            StreamInput::Fault(detail) => StreamInputModel::Fault(detail@),
        }
    }
}

/// What the client makes of a report of the transport, and whether the stream
/// goes on after it. A message that decodes is one event. The end of the stream
/// and its failures, a message that does not decode among them, are final: after
/// them the client makes nothing of anything.
pub open spec fn fed(live: bool, input: StreamInputModel) -> (bool, Option<SignalModel>) {
    if !live {
        (false, None)
    } else {
        match input {
            StreamInputModel::Open => (true, None),
            StreamInputModel::Message(Ok(response)) => (true, Some(SignalModel::Event(response))),
            StreamInputModel::Message(Err(detail)) => (
                false,
                Some(SignalModel::Failed(StreamErrorModel::DecodeError(detail))),
            ),
            StreamInputModel::Ended => (false, Some(SignalModel::Closed)),
            StreamInputModel::Fault(detail) => (
                false,
                Some(SignalModel::Failed(StreamErrorModel::TransportError(detail))),
            ),
        }
    }
}

/// What the client makes of the reports `inputs`, taken in order.
pub open spec fn fed_all(live: bool, inputs: Seq<StreamInputModel>) -> Seq<SignalModel>
    decreases inputs.len(),
{
    if inputs.len() == 0 {
        Seq::empty()
    } else {
        let first = fed(live, inputs[0]);
        let rest = fed_all(first.0, inputs.drop_first());
        match first.1 {
            Some(signal) => seq![signal] + rest,
            None => rest,
        }
    }
}

/// After the end of the stream, and after its failure, nothing comes.
pub proof fn lemma_nothing_after_the_end(inputs: Seq<StreamInputModel>)
    ensures
        fed_all(false, inputs) == Seq::<SignalModel>::empty(),
    decreases inputs.len(),
{
    if inputs.len() > 0 {
        lemma_nothing_after_the_end(inputs.drop_first());
    }
}

/// A stream ends once, and at its end: of the signals that the client makes of
/// any reports, all but the last are events, so that nothing follows the end of
/// the stream or its failure.
pub proof fn lemma_stream_ends_once(live: bool, inputs: Seq<StreamInputModel>)
    ensures
        forall|i: int|
            0 <= i < fed_all(live, inputs).len() - 1 ==> #[trigger] fed_all(live, inputs)[i]
                is Event,
    decreases inputs.len(),
{
    if inputs.len() > 0 {
        let first = fed(live, inputs[0]);
        let rest = fed_all(first.0, inputs.drop_first());
        lemma_stream_ends_once(first.0, inputs.drop_first());
        if !first.0 {
            lemma_nothing_after_the_end(inputs.drop_first());
        }
        if first.1 is Some {
            let signals = fed_all(live, inputs);
            assert forall|i: int| 0 <= i < signals.len() - 1 implies #[trigger] signals[i]
                is Event by {
                if i > 0 {
                    assert(signals[i] == rest[i - 1]);
                }
            }
        }
    }
}

/// The client of one stream.
#[derive(Debug)]
pub struct ModelStream {
    live: bool,
}

impl ModelStream {
    /// Whether the stream goes on.
    pub closed spec fn live(&self) -> bool {
        self.live
    }

    /// The client of a stream that has just been opened.
    pub fn new() -> (stream: Self)
        ensures
            stream.live(),
    {
        ModelStream { live: true }
    }

    /// Whether the stream goes on.
    pub fn is_live(&self) -> (live: bool)
        ensures
            live == self.live(),
    {
        self.live
    }

    /// Takes a report of the transport and gives the signal for the relay, if
    /// the report makes one.
    pub fn feed(&mut self, input: StreamInput) -> (signal: Option<Signal>)
        ensures
            (final(self).live(), option_view(signal)) == fed(old(self).live(), input@),
    {
        if !self.live {
            return None;
        }
        match input {
            StreamInput::Open => None,
            StreamInput::Message(Ok(response)) => Some(
                Signal::Event(pb_from_gemini_response(&response)),
            ),
            StreamInput::Message(Err(detail)) => {
                self.live = false;
                Some(Signal::Failed(StreamError::DecodeError(detail)))
            },
            StreamInput::Ended => {
                self.live = false;
                Some(Signal::Closed)
            },
            StreamInput::Fault(detail) => {
                self.live = false;
                Some(Signal::Failed(StreamError::TransportError(detail)))
            },
        }
    }
}

} // verus!
