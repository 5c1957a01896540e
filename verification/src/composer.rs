//! The relay between the model's stream and the consumer downstream.
//!
//! A run is a state machine. The caller hands in what happened outside (an event
//! of the stream, its end, its failure, the outcome of a function that was run)
//! and gets back what to do, in order: forward an event, write a record through
//! to durable storage, open the stream, run a function. The machine itself
//! writes to the ledger, decides on dispatch, and stops at the first failure.
//!
//! `ComposerModel::step` is the whole rule, as a function from state and signal
//! to next state and effects; `Composer::step_with` computes it.

use vstd::prelude::*;
use crate::data::{
    fresh_id, get_content, is_drawn_id, ContentRecord, ConversationStore, RecordModel, StoreModel,
};
use crate::dispatch::{
    conclude, conclusion, outcome_view, resolution, resolve, HandlerRequest, HandlerRequestModel,
};
use crate::error::{
    ComposerError, ComposerErrorModel, DispatchError, StreamError, StreamErrorModel,
};
use crate::gemini::api::GeminiRequest;
use crate::gemini::assemble_request;
use crate::proto::message::{
    CandidateModel, CandidatePb, ContentModel, ContentPb, FunctionCallModel, FunctionCallPb,
    FunctionResponseModel, FunctionResponsePb, GeminiRequestPb, GeminiResponsePb, PartModel,
    PartPb, Payload, RequestModel, ResponseModel,
};
use crate::views::{lemma_seq_view_push, option_view, seq_view};

verus! {

/// Where a run stands.
#[derive(Clone, Copy, Debug, PartialEq, Eq, Structural)]
pub enum Phase {
    /// Nothing has happened yet.
    Idle,
    /// The stream is open; events are relayed as they come.
    Streaming,
    /// The stream ended and everything was relayed.
    Completed,
    /// The run stopped at a failure.
    Aborted,
}

/// The view of a signal.
pub enum SignalModel {
    Event(ResponseModel),
    Closed,
    Failed(StreamErrorModel),
    Outcome(Result<Seq<char>, Seq<char>>),
}

/// What happened outside.
#[derive(Debug, PartialEq, Eq)]
pub enum Signal {
    /// The stream delivered an event.
    Event(GeminiResponsePb),
    /// The stream ended in good order.
    Closed,
    /// The stream failed.
    Failed(StreamError),
    /// The function that was to be run has been run: its result, or how it
    /// failed.
    Outcome(Result<String, String>),
}

impl View for Signal {
    type V = SignalModel;

    open spec fn view(&self) -> SignalModel {
        match *self {
            Signal::Event(event) => SignalModel::Event(event@),
            Signal::Closed => SignalModel::Closed,
            Signal::Failed(error) => SignalModel::Failed(error@),
            Signal::Outcome(outcome) => SignalModel::Outcome(outcome_view(outcome)),
        }
    }
}

/// The view of an effect.
#[verifier::ext_equal]
pub enum EffectModel {
    Persist(RecordModel),
    Invoke(RequestModel),
    Forward(ResponseModel),
    Call(HandlerRequestModel),
}

/// What the caller is to do.
#[derive(Debug, PartialEq, Eq)]
pub enum Effect {
    /// The record was written to the ledger; write it through to durable storage.
    Persist(ContentRecord),
    /// Open the stream with this request.
    Invoke(GeminiRequest),
    /// Hand the event to the consumer downstream.
    Forward(GeminiResponsePb),
    /// Run the function and come back with its outcome.
    Call(HandlerRequest),
}

impl View for Effect {
    type V = EffectModel;

    open spec fn view(&self) -> EffectModel {
        match *self {
            Effect::Persist(record) => EffectModel::Persist(record@),
            Effect::Invoke(request) => EffectModel::Invoke(request@),
            Effect::Forward(event) => EffectModel::Forward(event@),
            Effect::Call(request) => EffectModel::Call(request@),
        }
    }
}

/// The content of the first candidate of an event, if the event has one.
pub open spec fn primary_content(event: ResponseModel) -> Option<ContentModel> {
    if event.candidates.len() > 0 {
        event.candidates[0].content
    } else {
        None
    }
}

/// Whether a content is nothing but one empty text. Such a content is not
/// written to the ledger; every other content is.
pub open spec fn is_trivial(content: ContentModel) -> bool {
    content.parts.len() == 1 && content.parts[0].payload() == Payload::Text(Seq::<char>::empty())
}

/// The function calls among `parts`, in their order.
pub open spec fn calls_of(parts: Seq<PartModel>) -> Seq<FunctionCallModel>
    decreases parts.len(),
{
    if parts.len() == 0 {
        Seq::empty()
    } else {
        let earlier = calls_of(parts.drop_last());
        match parts.last().payload() {
            Payload::FunctionCall(call) => earlier.push(call),
            _ => earlier,
        }
    }
}

/// The role under which the relay speaks.
pub const MODEL_ROLE: &'static str = "model";

/// The event that carries the response of a function downstream.
pub open spec fn response_event(response: FunctionResponseModel) -> ResponseModel {
    ResponseModel {
        candidates: seq![
            CandidateModel {
                content: Some(
                    ContentModel {
                        role: MODEL_ROLE@,
                        parts: seq![PartModel::of_response(response)],
                    },
                ),
                finish_reason: None,
            },
        ],
    }
}

/// The view of a machine: what a run knows between two steps.
#[verifier::ext_equal]
pub struct ComposerModel {
    pub phase: Phase,
    pub session: Seq<char>,
    /// The function calls of the event at hand that are not concluded yet. The
    /// first of them is being run.
    pub pending: Seq<FunctionCallModel>,
    pub failure: Option<ComposerErrorModel>,
}

/// A machine, the ledger and the effects so far: what one step leads to.
#[verifier::ext_equal]
pub struct Step {
    pub composer: ComposerModel,
    pub store: StoreModel,
    pub effects: Seq<EffectModel>,
}

impl ComposerModel {
    /// The machine of a new run on `session`.
    pub open spec fn fresh(session: Seq<char>) -> ComposerModel {
        ComposerModel { phase: Phase::Idle, session, pending: Seq::empty(), failure: None }
    }

    /// Whether the machine waits for the outcome of a function.
    pub open spec fn awaits_outcome(self) -> bool {
        self.phase == Phase::Streaming && self.pending.len() > 0
    }

    /// Whether the machine waits for the stream.
    pub open spec fn awaits_stream(self) -> bool {
        self.phase == Phase::Streaming && self.pending.len() == 0
    }

    /// The machine stopped at `error`: nothing is pending any more.
    pub open spec fn aborted(self, error: ComposerErrorModel) -> ComposerModel {
        ComposerModel {
            phase: Phase::Aborted,
            session: self.session,
            pending: Seq::empty(),
            failure: Some(error),
        }
    }

    /// The machine with `pending` as its pending calls.
    pub open spec fn with_pending(self, pending: Seq<FunctionCallModel>) -> ComposerModel {
        ComposerModel { pending, ..self }
    }

    /// The machine in the phase `phase`.
    pub open spec fn with_phase(self, phase: Phase) -> ComposerModel {
        ComposerModel { phase, ..self }
    }

    /// Decides on the first pending call, having `effects` so far: the function
    /// to run is added to the effects, or the run is aborted because none is to
    /// be run. With no call pending nothing changes.
    pub open spec fn advance(self, effects: Seq<EffectModel>) -> (ComposerModel, Seq<EffectModel>) {
        if self.pending.len() == 0 {
            (self, effects)
        } else {
            match resolution(self.pending[0].name, self.pending[0].args) {
                Ok(request) => (self, effects.push(EffectModel::Call(request))),
                Err(error) => (self.aborted(ComposerErrorModel::FunctionDispatch(error)), effects),
            }
        }
    }

    /// The start of a run: the new turn, which is the first content of
    /// `request`, is written to the ledger under `record_id`, and the stream is
    /// to be opened with the whole history of the session. Where the write is
    /// refused the run is aborted and nothing is to be done.
    pub open spec fn begin(
        self,
        store: StoreModel,
        request: RequestModel,
        record_id: Seq<char>,
    ) -> Step {
        if self.phase != Phase::Idle || request.contents.len() == 0 {
            Step { composer: self, store, effects: Seq::empty() }
        } else {
            match store.insert_content(record_id, self.session, request.contents[0]) {
                (after, Ok(_)) => Step {
                    composer: self.with_phase(Phase::Streaming),
                    store: after,
                    effects: seq![
                        EffectModel::Persist(
                            RecordModel {
                                id: record_id,
                                session_id: self.session,
                                content: request.contents[0],
                            },
                        ),
                        EffectModel::Invoke(
                            RequestModel {
                                contents: after.history(self.session),
                                tools: request.tools,
                                system_instruction: request.system_instruction,
                            },
                        ),
                    ],
                },
                (_, Err(error)) => Step {
                    composer: self.aborted(ComposerErrorModel::Storage(error)),
                    store,
                    effects: Seq::empty(),
                },
            }
        }
    }

    /// An event of the stream, for a machine that waits for the stream. The event
    /// is forwarded as it is. Its primary content, unless it is trivial, is
    /// written to the ledger under `record_id`, and its function calls become
    /// pending; the first of them is decided on at once.
    pub open spec fn on_event(
        self,
        store: StoreModel,
        event: ResponseModel,
        record_id: Seq<char>,
    ) -> Step {
        let forwarded = seq![EffectModel::Forward(event)];
        match primary_content(event) {
            None => Step { composer: self, store, effects: forwarded },
            Some(content) => if is_trivial(content) {
                Step { composer: self, store, effects: forwarded }
            } else {
                match store.insert_content(record_id, self.session, content) {
                    (after, Ok(_)) => {
                        let record = RecordModel {
                            id: record_id,
                            session_id: self.session,
                            content,
                        };
                        let decided = self.with_pending(calls_of(content.parts)).advance(
                            forwarded.push(EffectModel::Persist(record)),
                        );
                        Step { composer: decided.0, store: after, effects: decided.1 }
                    },
                    (_, Err(error)) => Step {
                        composer: self.aborted(ComposerErrorModel::Storage(error)),
                        store,
                        effects: forwarded,
                    },
                }
            },
        }
    }

    /// The outcome of the function that is being run, for a machine that waits
    /// for it. A result is forwarded as an event of its own, and the next
    /// pending call is decided on; a failure aborts the run.
    pub open spec fn on_outcome(
        self,
        store: StoreModel,
        outcome: Result<Seq<char>, Seq<char>>,
    ) -> Step {
        match conclusion(self.pending[0].name, outcome) {
            Ok(response) => {
                let decided = self.with_pending(self.pending.drop_first()).advance(
                    seq![EffectModel::Forward(response_event(response))],
                );
                Step { composer: decided.0, store, effects: decided.1 }
            },
            Err(error) => Step {
                composer: self.aborted(ComposerErrorModel::FunctionDispatch(error)),
                store,
                effects: Seq::empty(),
            },
        }
    }

    /// Whether the machine waits for a signal of this kind: for the outcome of a
    /// function while one is being run, and for the stream otherwise, as long as
    /// the run streams.
    pub open spec fn accepts(self, signal: SignalModel) -> bool {
        if self.awaits_outcome() {
            signal is Outcome
        } else {
            self.awaits_stream() && !(signal is Outcome)
        }
    }

    /// One step of a run. A signal that the machine does not wait for changes
    /// nothing: an outcome when no function is being run, anything else while one
    /// is, and any signal before the start or after the end.
    pub open spec fn step(
        self,
        store: StoreModel,
        signal: SignalModel,
        record_id: Seq<char>,
    ) -> Step {
        if !self.accepts(signal) {
            Step { composer: self, store, effects: Seq::empty() }
        } else {
            match signal {
                SignalModel::Outcome(outcome) => self.on_outcome(store, outcome),
                SignalModel::Event(event) => self.on_event(store, event, record_id),
                SignalModel::Closed => Step {
                    composer: self.with_phase(Phase::Completed),
                    store,
                    effects: Seq::empty(),
                },
                SignalModel::Failed(error) => Step {
                    composer: self.aborted(ComposerErrorModel::Stream(error)),
                    store,
                    effects: Seq::empty(),
                },
            }
        }
    }
}

/// The content of the first candidate of an event, if the event has one.
pub fn primary_of(event: &GeminiResponsePb) -> (content: Option<&ContentPb>)
    ensures
        option_view(content) == primary_content(event@),
{
    if event.candidates.len() > 0 {
        event.candidates[0].content.as_ref()
    } else {
        None
    }
}

/// Whether a content is nothing but one empty text.
pub fn content_is_trivial(content: &ContentPb) -> (trivial: bool)
    ensures
        trivial == is_trivial(content@),
{
    if content.parts.len() != 1 {
        return false;
    }
    match &content.parts[0].text {
        Some(text) => {
            let empty = text.as_str().is_empty();
            proof {
                if empty {
                    assert(text@ =~= Seq::<char>::empty());
                }
            }
            empty
        },
        None => false,
    }
}

/// The function calls of a content, in the order of its parts.
pub fn function_calls(content: &ContentPb) -> (calls: Vec<FunctionCallPb>)
    ensures
        seq_view(calls@) == calls_of(content@.parts),
{
    let mut calls: Vec<FunctionCallPb> = Vec::new();
    let mut i: usize = 0;
    while i < content.parts.len()
        invariant
            i <= content.parts@.len(),
            content@.parts.len() == content.parts@.len(),
            seq_view(calls@) == calls_of(content@.parts.take(i as int)),
        decreases content.parts@.len() - i,
    {
        proof {
            let parts = content@.parts;
            assert(parts.take(i + 1).drop_last() =~= parts.take(i as int));
        }
        let part = &content.parts[i];
        if part.text.is_none() {
            match &part.function_call {
                Some(call) => {
                    let ghost earlier = calls@;
                    let call = call.clone();
                    calls.push(call);
                    proof {
                        lemma_seq_view_push(earlier, call);
                    }
                },
                None => {},
            }
        }
        i += 1;
    }
    proof {
        assert(content@.parts.take(i as int) =~= content@.parts);
    }
    calls
}

/// The event that carries the response of a function downstream.
pub fn function_response_event(response: FunctionResponsePb) -> (event: GeminiResponsePb)
    ensures
        event@ == response_event(response@),
{
    let mut parts: Vec<PartPb> = Vec::new();
    parts.push(PartPb::of_response(response));
    let content = ContentPb { role: MODEL_ROLE.to_string(), parts };
    proof {
        assert(content@.parts =~= seq![PartModel::of_response(response@)]);
    }
    let mut candidates: Vec<CandidatePb> = Vec::new();
    candidates.push(CandidatePb { content: Some(content), finish_reason: None });
    GeminiResponsePb { candidates }
}

/// What a function call of the model leads to, before anything is run: the
/// function to run and its argument, or the reason why none is run.
pub fn handle_function_call(function_call: &FunctionCallPb) -> (resolved: Result<
    HandlerRequest,
    DispatchError,
>)
    ensures
        crate::dispatch::result_view(resolved) == resolution(
            function_call@.name,
            function_call@.args,
        ),
{
    resolve(function_call.name.as_str(), &function_call.args)
}

fn nothing_to_do() -> (effects: Vec<Effect>)
    ensures
        effects@.len() == 0,
        seq_view(effects@) == Seq::<EffectModel>::empty(),
{
    Vec::new()
}

/// The machine of one run.
#[derive(Debug)]
pub struct Composer {
    phase: Phase,
    session_id: String,
    pending: Vec<FunctionCallPb>,
    failure: Option<ComposerError>,
}

impl View for Composer {
    type V = ComposerModel;

    closed spec fn view(&self) -> ComposerModel {
        ComposerModel {
            phase: self.phase,
            session: self.session_id@,
            pending: seq_view(self.pending@),
            failure: option_view(self.failure),
        }
    }
}

impl Composer {
    /// The machine of a new run on the session `session_id`.
    pub fn new(session_id: String) -> (composer: Self)
        ensures
            composer@ == ComposerModel::fresh(session_id@),
    {
        Composer {
            phase: Phase::Idle,
            session_id,
            pending: Vec::new(),
            failure: None,
        }
    }

    /// Where the run stands.
    pub fn phase(&self) -> (phase: Phase)
        ensures
            phase == self@.phase,
    {
        self.phase
    }

    /// The session of the run.
    pub fn session_id(&self) -> (session_id: &String)
        ensures
            session_id@ == self@.session,
    {
        &self.session_id
    }

    /// The failure at which the run stopped.
    pub fn failure(&self) -> (failure: Option<ComposerError>)
        ensures
            option_view(failure) == self@.failure,
    {
        match &self.failure {
            Some(error) => Some(error.clone()),
            None => None,
        }
    }

    /// Whether the machine waits for the outcome of a function.
    pub fn awaits_outcome(&self) -> (waiting: bool)
        ensures
            waiting == self@.awaits_outcome(),
    {
        matches!(self.phase, Phase::Streaming) && self.pending.len() > 0
    }

    /// Whether the machine waits for the stream.
    pub fn awaits_stream(&self) -> (waiting: bool)
        ensures
            waiting == self@.awaits_stream(),
    {
        matches!(self.phase, Phase::Streaming) && self.pending.len() == 0
    }

    /// Whether the machine waits for a signal of this kind. A step on any other
    /// signal changes nothing.
    pub fn accepts(&self, signal: &Signal) -> (accepted: bool)
        ensures
            accepted == self@.accepts(signal@),
    {
        let outcome = matches!(signal, Signal::Outcome(_));
        if self.awaits_outcome() {
            outcome
        } else {
            self.awaits_stream() && !outcome
        }
    }

    fn abort(&mut self, error: ComposerError)
        ensures
            final(self)@ == old(self)@.aborted(error@),
    {
        self.phase = Phase::Aborted;
        self.pending = Vec::new();
        self.failure = Some(error);
    }

    fn advance(&mut self, effects: &mut Vec<Effect>)
        ensures
            (final(self)@, seq_view(final(effects)@)) == old(self)@.advance(
                seq_view(old(effects)@),
            ),
    {
        if self.pending.len() > 0 {
            match handle_function_call(&self.pending[0]) {
                Ok(request) => {
                    proof {
                        lemma_seq_view_push(effects@, Effect::Call(request));
                    }
                    effects.push(Effect::Call(request));
                },
                Err(error) => {
                    self.abort(ComposerError::FunctionDispatch(error));
                },
            }
        }
    }

    /// Starts the run: writes the new turn, the first content of `request`, to
    /// the ledger under `record_id` and asks for the stream to be opened with the
    /// whole history of the session.
    pub fn begin_with(
        &mut self,
        store: &mut ConversationStore,
        request: &GeminiRequestPb,
        record_id: String,
    ) -> (effects: Vec<Effect>)
        requires
            request@.contents.len() > 0,
            request@.is_complete(),
        ensures
            (Step {
                composer: final(self)@,
                store: final(store)@,
                effects: seq_view(effects@),
            }) == old(self)@.begin(old(store)@, request@, record_id@),
            final(store)@.well_formed(),
    {
        let mut effects = nothing_to_do();
        if !matches!(self.phase, Phase::Idle) {
            proof {
                use_type_invariant(&*store);
            }
            return effects;
        }
        let kept_id = record_id.clone();
        let turn = request.contents[0].clone();
        match store.insert_content(record_id, self.session_id.as_str(), turn) {
            Ok(()) => {
                self.phase = Phase::Streaming;
                let history = get_content(store, self.session_id.as_str());
                let assembled = assemble_request(&history, request);
                let record = ContentRecord {
                    id: kept_id,
                    session_id: self.session_id.clone(),
                    content: request.contents[0].clone(),
                };
                effects.push(Effect::Persist(record));
                effects.push(Effect::Invoke(assembled));
            },
            Err(error) => {
                self.abort(ComposerError::Storage(error));
            },
        }
        effects
    }

    /// Starts the run, with the identifier of the new record drawn at random.
    /// On a machine that is not idle nothing happens.
    pub fn begin(&mut self, store: &mut ConversationStore, request: &GeminiRequestPb) -> (effects:
        Vec<Effect>)
        requires
            request@.contents.len() > 0,
            request@.is_complete(),
        ensures
            final(store)@.well_formed(),
            exists|drawn: Seq<char>|
                is_drawn_id(drawn) && (Step {
                    composer: final(self)@,
                    store: final(store)@,
                    effects: seq_view(effects@),
                }) == #[trigger] old(self)@.begin(old(store)@, request@, drawn),
    {
        let drawn = fresh_id();
        self.begin_with(store, request, drawn)
    }

    fn on_event(
        &mut self,
        store: &mut ConversationStore,
        event: GeminiResponsePb,
        record_id: String,
    ) -> (effects: Vec<Effect>)
        ensures
            (Step {
                composer: final(self)@,
                store: final(store)@,
                effects: seq_view(effects@),
            }) == old(self)@.on_event(old(store)@, event@, record_id@),
            final(store)@.well_formed(),
    {
        let mut effects: Vec<Effect> = Vec::new();
        let written: Option<ContentPb> = match primary_of(&event) {
            Some(content) => if content_is_trivial(content) {
                None
            } else {
                Some(content.clone())
            },
            None => None,
        };
        effects.push(Effect::Forward(event));
        match written {
            None => {
                proof {
                    use_type_invariant(&*store);
                }
            },
            Some(content) => {
                let calls = function_calls(&content);
                let kept_id = record_id.clone();
                match store.insert_content(record_id, self.session_id.as_str(), content.clone()) {
                    Ok(()) => {
                        let record = ContentRecord {
                            id: kept_id,
                            session_id: self.session_id.clone(),
                            content,
                        };
                        proof {
                            lemma_seq_view_push(effects@, Effect::Persist(record));
                        }
                        effects.push(Effect::Persist(record));
                        self.pending = calls;
                        self.advance(&mut effects);
                    },
                    Err(error) => {
                        self.abort(ComposerError::Storage(error));
                    },
                }
            },
        }
        effects
    }

    fn on_outcome(&mut self, outcome: Result<String, String>) -> (effects: Vec<Effect>)
        requires
            old(self)@.pending.len() > 0,
        ensures
            forall|store: StoreModel|
                (Step { composer: final(self)@, store, effects: seq_view(effects@) })
                    == #[trigger] old(self)@.on_outcome(store, outcome_view(outcome)),
    {
        let mut effects: Vec<Effect> = Vec::new();
        let call = self.pending.remove(0);
        match conclude(call.name.as_str(), outcome) {
            Ok(response) => {
                effects.push(Effect::Forward(function_response_event(response)));
                self.advance(&mut effects);
            },
            Err(error) => {
                self.abort(ComposerError::FunctionDispatch(error));
            },
        }
        effects
    }

    /// One step of the run, where `record_id` is the identifier on offer for a
    /// record that the step may write.
    pub fn step_with(
        &mut self,
        store: &mut ConversationStore,
        signal: Signal,
        record_id: String,
    ) -> (effects: Vec<Effect>)
        ensures
            (Step {
                composer: final(self)@,
                store: final(store)@,
                effects: seq_view(effects@),
            }) == old(self)@.step(old(store)@, signal@, record_id@),
            final(store)@.well_formed(),
    {
        proof {
            use_type_invariant(&*store);
        }
        if !self.accepts(&signal) {
            return nothing_to_do();
        }
        match signal {
            Signal::Outcome(outcome) => self.on_outcome(outcome),
            Signal::Event(event) => self.on_event(store, event, record_id),
            Signal::Closed => {
                self.phase = Phase::Completed;
                nothing_to_do()
            },
            Signal::Failed(error) => {
                self.abort(ComposerError::Stream(error));
                nothing_to_do()
            },
        }
    }

    /// One step of the run. The identifier of the record that an event may leave
    /// is drawn at random.
    pub fn step(&mut self, store: &mut ConversationStore, signal: Signal) -> (effects: Vec<Effect>)
        ensures
            final(store)@.well_formed(),
            exists|drawn: Seq<char>|
                is_drawn_id(drawn) && (Step {
                    composer: final(self)@,
                    store: final(store)@,
                    effects: seq_view(effects@),
                }) == #[trigger] old(self)@.step(old(store)@, signal@, drawn),
    {
        let ghost before = (self@, store@);
        let ghost occurred = signal@;
        match &signal {
            Signal::Event(_) => {
                let drawn = fresh_id();
                self.step_with(store, signal, drawn)
            },
            _ => {
                let effects = self.step_with(store, signal, String::new());
                proof {
                    // The step takes no event, so it writes nothing, and any
                    // identifier of the right shape bears it out.
                    let any = Seq::new(
                        36,
                        |i: int|
                            if i == 8 || i == 13 || i == 18 || i == 23 {
                                '-'
                            } else {
                                '4'
                            },
                    );
                    assert((Step { composer: self@, store: store@, effects: seq_view(effects@) })
                        == before.0.step(before.1, occurred, any));
                }
                effects
            },
        }
    }
}

} // verus!
