//! Whole runs of the relay: the machine taken through a sequence of signals,
//! what it hands downstream, what it writes, which functions it has run, and
//! what holds of all that.

use vstd::prelude::*;
use crate::composer::{
    calls_of, is_trivial, primary_content, response_event, ComposerModel, EffectModel, Phase,
    SignalModel, Step,
};
use crate::data::{
    contents_of, lemma_extends_is_transitive, lemma_history_push, RecordModel, StoreModel,
};
use crate::dispatch::{registered, required_key, resolution, HandlerRequestModel};
use crate::error::{ComposerErrorModel, DispatchErrorModel};
use crate::proto::message::{
    ContentModel, FunctionCallModel, FunctionResponseModel, PartModel, RequestModel, ResponseModel,
};

verus! {

/// A signal together with the identifier on offer for a record that the step
/// may write.
pub struct Offer {
    pub signal: SignalModel,
    pub record_id: Seq<char>,
}

/// The machine and the ledger after the signals `offers`, taken in order, with
/// the effects of all the steps, in order.
pub open spec fn run(composer: ComposerModel, store: StoreModel, offers: Seq<Offer>) -> Step
    decreases offers.len(),
{
    if offers.len() == 0 {
        Step { composer, store, effects: Seq::empty() }
    } else {
        let first = composer.step(store, offers[0].signal, offers[0].record_id);
        let rest = run(first.composer, first.store, offers.drop_first());
        Step { composer: rest.composer, store: rest.store, effects: first.effects + rest.effects }
    }
}

/// The events handed downstream, in order.
pub open spec fn forwarded(effects: Seq<EffectModel>) -> Seq<ResponseModel>
    decreases effects.len(),
{
    if effects.len() == 0 {
        Seq::empty()
    } else {
        let earlier = forwarded(effects.drop_last());
        match effects.last() {
            EffectModel::Forward(event) => earlier.push(event),
            _ => earlier,
        }
    }
}

/// The records written, in order.
pub open spec fn persisted(effects: Seq<EffectModel>) -> Seq<RecordModel>
    decreases effects.len(),
{
    if effects.len() == 0 {
        Seq::empty()
    } else {
        let earlier = persisted(effects.drop_last());
        match effects.last() {
            EffectModel::Persist(record) => earlier.push(record),
            _ => earlier,
        }
    }
}

/// The functions that were to be run, in order.
pub open spec fn called(effects: Seq<EffectModel>) -> Seq<HandlerRequestModel>
    decreases effects.len(),
{
    if effects.len() == 0 {
        Seq::empty()
    } else {
        let earlier = called(effects.drop_last());
        match effects.last() {
            EffectModel::Call(request) => earlier.push(request),
            _ => earlier,
        }
    }
}

/// The requests with which the stream was to be opened, in order.
pub open spec fn invoked(effects: Seq<EffectModel>) -> Seq<RequestModel>
    decreases effects.len(),
{
    if effects.len() == 0 {
        Seq::empty()
    } else {
        let earlier = invoked(effects.drop_last());
        match effects.last() {
            EffectModel::Invoke(request) => earlier.push(request),
            _ => earlier,
        }
    }
}

/// What is read off two runs of effects, one after the other, is what is read
/// off the first followed by what is read off the second.
pub proof fn lemma_effects_concat(left: Seq<EffectModel>, right: Seq<EffectModel>)
    ensures
        forwarded(left + right) == forwarded(left) + forwarded(right),
        persisted(left + right) == persisted(left) + persisted(right),
        called(left + right) == called(left) + called(right),
        invoked(left + right) == invoked(left) + invoked(right),
    decreases right.len(),
{
    if right.len() > 0 {
        lemma_effects_concat(left, right.drop_last());
        assert((left + right).drop_last() =~= left + right.drop_last());
    }
}

/// What is read off no effects, off one effect and off two.
pub proof fn lemma_effects_small(first: EffectModel, second: EffectModel)
    ensures
        forwarded(Seq::empty()) == Seq::<ResponseModel>::empty(),
        forwarded(seq![first]) == match first {
            EffectModel::Forward(event) => seq![event],
            _ => Seq::empty(),
        },
        persisted(seq![first]) == match first {
            EffectModel::Persist(record) => seq![record],
            _ => Seq::empty(),
        },
        called(seq![first]) == match first {
            EffectModel::Call(request) => seq![request],
            _ => Seq::empty(),
        },
        invoked(seq![first]) == match first {
            EffectModel::Invoke(request) => seq![request],
            _ => Seq::empty(),
        },
        forwarded(seq![first, second]) == forwarded(seq![first]) + forwarded(seq![second]),
        persisted(seq![first, second]) == persisted(seq![first]) + persisted(seq![second]),
        called(seq![first, second]) == called(seq![first]) + called(seq![second]),
        invoked(seq![first, second]) == invoked(seq![first]) + invoked(seq![second]),
{
    let one = seq![first];
    let none = Seq::<EffectModel>::empty();
    assert(one.drop_last() =~= none);
    assert(forwarded(none) =~= Seq::empty());
    assert(persisted(none) =~= Seq::empty());
    assert(called(none) =~= Seq::empty());
    assert(invoked(none) =~= Seq::empty());
    assert(seq![first, second] =~= seq![first] + seq![second]);
    lemma_effects_concat(seq![first], seq![second]);
}

/// Whether no part of the primary content of an event is a function call.
pub open spec fn is_call_free(event: ResponseModel) -> bool {
    match primary_content(event) {
        Some(content) => forall|p: int|
            0 <= p < content.parts.len() ==> !((#[trigger] content.parts[p]).payload()
                is FunctionCall),
        None => true,
    }
}

/// Parts without a function call among them hold no function calls.
pub proof fn lemma_no_calls(parts: Seq<PartModel>)
    requires
        forall|p: int| 0 <= p < parts.len() ==> !((#[trigger] parts[p]).payload() is FunctionCall),
    ensures
        calls_of(parts) == Seq::<FunctionCallModel>::empty(),
    decreases parts.len(),
{
    if parts.len() > 0 {
        lemma_no_calls(parts.drop_last());
    }
}

/// The content that an event leaves in the ledger: its primary content, unless
/// the event has none or it is trivial.
pub open spec fn significant(event: ResponseModel) -> Seq<ContentModel> {
    match primary_content(event) {
        Some(content) => if is_trivial(content) {
            Seq::empty()
        } else {
            seq![content]
        },
        None => Seq::empty(),
    }
}

/// The contents that the events `events` leave in the ledger, in order.
pub open spec fn significant_of(events: Seq<ResponseModel>) -> Seq<ContentModel>
    decreases events.len(),
{
    if events.len() == 0 {
        Seq::empty()
    } else {
        significant(events[0]) + significant_of(events.drop_first())
    }
}

/// The events `events` as signals, the event at index `i` with the identifier
/// `ids[i]` on offer.
pub open spec fn event_offers(events: Seq<ResponseModel>, ids: Seq<Seq<char>>) -> Seq<Offer> {
    Seq::new(
        events.len(),
        |i: int| Offer { signal: SignalModel::Event(events[i]), record_id: ids[i] },
    )
}

/// Whether the identifiers `ids` differ from each other and from those of the
/// records of `store`.
pub open spec fn are_unused(store: StoreModel, ids: Seq<Seq<char>>) -> bool {
    &&& forall|i: int| 0 <= i < ids.len() ==> !store.has_record(#[trigger] ids[i])
    &&& forall|i: int, j: int|
        0 <= i < ids.len() && 0 <= j < ids.len() && i != j ==> ids[i] != ids[j]
}

/// One event without function calls, taken by a machine that waits for the
/// stream: the event goes downstream as it is, its content is written unless it
/// is trivial, and the machine waits for the stream again.
pub proof fn lemma_call_free_event(
    composer: ComposerModel,
    store: StoreModel,
    event: ResponseModel,
    record_id: Seq<char>,
)
    requires
        composer.awaits_stream(),
        store.has_session(composer.session),
        !store.has_record(record_id),
        is_call_free(event),
    ensures
        ({
            let after = composer.step(store, SignalModel::Event(event), record_id);
            &&& after.composer == composer
            &&& forwarded(after.effects) == seq![event]
            &&& contents_of(persisted(after.effects)) == significant(event)
            &&& called(after.effects) == Seq::<HandlerRequestModel>::empty()
            &&& after.store.sessions == store.sessions
            &&& after.store.history(composer.session) == store.history(composer.session)
                + significant(event)
            &&& forall|id: Seq<char>|
                id != record_id && !store.has_record(id) ==> !after.store.has_record(id)
        }),
{
    let after = composer.step(store, SignalModel::Event(event), record_id);
    let forward = EffectModel::Forward(event);
    match primary_content(event) {
        None => {
            lemma_effects_small(forward, forward);
        },
        Some(content) => {
            if is_trivial(content) {
                lemma_effects_small(forward, forward);
            } else {
                lemma_no_calls(content.parts);
                let record = RecordModel {
                    id: record_id,
                    session_id: composer.session,
                    content,
                };
                let persist = EffectModel::Persist(record);
                assert(after.effects =~= seq![forward, persist]);
                lemma_effects_small(forward, persist);
                lemma_effects_small(persist, persist);
                lemma_history_push(store, record, composer.session);
                assert forall|id: Seq<char>| id != record_id && !store.has_record(id) implies
                    !after.store.has_record(id) by {
                    // a record of that identifier would be one of the old ones
                    if after.store.has_record(id) {
                        let i = choose|i: int|
                            0 <= i < after.store.records.len() && (
                            #[trigger] after.store.records[i]).id == id;
                        assert(store.records[i].id == id);
                    }
                }
            }
        },
    }
}

/// The relay is the identity on events without function calls: what goes
/// downstream is the sequence of events that came in, each as it came, and the
/// ledger gains one record for each event whose content is not trivial, in the
/// order of the events. The identifiers on offer are taken to be unused, since a
/// write under a used identifier is refused and stops the run.
pub proof fn lemma_relay_is_identity(
    composer: ComposerModel,
    store: StoreModel,
    events: Seq<ResponseModel>,
    ids: Seq<Seq<char>>,
)
    requires
        composer.awaits_stream(),
        store.has_session(composer.session),
        ids.len() == events.len(),
        are_unused(store, ids),
        forall|i: int| 0 <= i < events.len() ==> is_call_free(#[trigger] events[i]),
    ensures
        ({
            let after = run(composer, store, event_offers(events, ids));
            &&& after.composer == composer
            &&& forwarded(after.effects) == events
            &&& contents_of(persisted(after.effects)) == significant_of(events)
            &&& called(after.effects) == Seq::<HandlerRequestModel>::empty()
            &&& after.store.history(composer.session) == store.history(composer.session)
                + significant_of(events)
        }),
    decreases events.len(),
{
    let offers = event_offers(events, ids);
    if events.len() > 0 {
        let first = composer.step(store, offers[0].signal, offers[0].record_id);
        lemma_call_free_event(composer, store, events[0], ids[0]);
        let later_events = events.drop_first();
        let later_ids = ids.drop_first();
        assert(offers.drop_first() =~= event_offers(later_events, later_ids));
        assert(are_unused(first.store, later_ids));
        lemma_relay_is_identity(composer, first.store, later_events, later_ids);
        let rest = run(first.composer, first.store, offers.drop_first());
        lemma_effects_concat(first.effects, rest.effects);
    }
}

/// The results `results` as the outcomes of functions that were run, each as a
/// signal, with the identifier `ids[i]` on offer beside the one at index `i`.
pub open spec fn result_offers(results: Seq<Seq<char>>, ids: Seq<Seq<char>>) -> Seq<Offer> {
    Seq::new(
        results.len(),
        |i: int| Offer { signal: SignalModel::Outcome(Ok(results[i])), record_id: ids[i] },
    )
}

/// Whether each of `calls` names a registered function and carries the argument
/// that it requires.
pub open spec fn all_resolve(calls: Seq<FunctionCallModel>) -> bool {
    forall|i: int|
        0 <= i < calls.len() ==> resolution((#[trigger] calls[i]).name, calls[i].args) is Ok
}

/// What is to be run for each of `calls`, in order.
pub open spec fn requests_of(calls: Seq<FunctionCallModel>) -> Seq<HandlerRequestModel> {
    Seq::new(calls.len(), |i: int| resolution(calls[i].name, calls[i].args)->Ok_0)
}

/// The events that carry the results `results` of `calls` downstream, in order.
pub open spec fn answers_of(calls: Seq<FunctionCallModel>, results: Seq<Seq<char>>) -> Seq<
    ResponseModel,
> {
    Seq::new(
        calls.len(),
        |i: int|
            response_event(FunctionResponseModel { name: calls[i].name, response: results[i] }),
    )
}

/// Pending calls are answered in their order. A machine that waits for the
/// outcome of the first of its pending calls, all of which can be resolved, and
/// is given a result for each, hands the responses downstream in the order of the
/// calls, asks for each later call to be run after the response to the one before
/// it, writes nothing, and then waits for the stream.
pub proof fn lemma_pending_calls_are_answered_in_order(
    composer: ComposerModel,
    store: StoreModel,
    results: Seq<Seq<char>>,
    ids: Seq<Seq<char>>,
)
    requires
        composer.awaits_outcome(),
        all_resolve(composer.pending),
        results.len() == composer.pending.len(),
        ids.len() == results.len(),
    ensures
        ({
            let after = run(composer, store, result_offers(results, ids));
            &&& after.composer == composer.with_pending(Seq::empty())
            &&& after.store == store
            &&& forwarded(after.effects) == answers_of(composer.pending, results)
            &&& called(after.effects) == requests_of(composer.pending.drop_first())
            &&& persisted(after.effects) == Seq::<RecordModel>::empty()
        }),
    decreases composer.pending.len(),
{
    let calls = composer.pending;
    let offers = result_offers(results, ids);
    let first = composer.step(store, offers[0].signal, offers[0].record_id);
    let response = FunctionResponseModel { name: calls[0].name, response: results[0] };
    let answer = EffectModel::Forward(response_event(response));
    let rest_calls = calls.drop_first();
    let rest = run(first.composer, first.store, offers.drop_first());
    lemma_effects_small(answer, answer);
    if rest_calls.len() > 0 {
        let request = resolution(rest_calls[0].name, rest_calls[0].args)->Ok_0;
        let run_it = EffectModel::Call(request);
        assert(first.effects =~= seq![answer, run_it]);
        lemma_effects_small(answer, run_it);
        lemma_effects_small(run_it, run_it);
        assert(all_resolve(rest_calls));
        assert(offers.drop_first() =~= result_offers(results.drop_first(), ids.drop_first()));
        lemma_pending_calls_are_answered_in_order(
            first.composer,
            first.store,
            results.drop_first(),
            ids.drop_first(),
        );
        lemma_effects_concat(first.effects, rest.effects);
    }
}

/// Function calls are answered in place, whatever their number. For an event
/// whose function calls can all be resolved, each function is to be run once, in
/// the order of the calls; and when each has given its result, what has gone
/// downstream is the event, followed at once by the responses in that order, the
/// ledger has gained the content of the event and nothing else, and the machine
/// waits for the stream again.
pub proof fn lemma_calls_are_answered_in_place(
    composer: ComposerModel,
    store: StoreModel,
    event: ResponseModel,
    record_id: Seq<char>,
    results: Seq<Seq<char>>,
    ids: Seq<Seq<char>>,
)
    requires
        composer.awaits_stream(),
        store.has_session(composer.session),
        !store.has_record(record_id),
        primary_content(event) is Some,
        calls_of(primary_content(event)->0.parts).len() > 0,
        all_resolve(calls_of(primary_content(event)->0.parts)),
        results.len() == calls_of(primary_content(event)->0.parts).len(),
        ids.len() == results.len(),
    ensures
        ({
            let content = primary_content(event)->0;
            let calls = calls_of(content.parts);
            let offers = seq![Offer { signal: SignalModel::Event(event), record_id }]
                + result_offers(results, ids);
            let after = run(composer, store, offers);
            &&& after.composer == composer
            &&& forwarded(after.effects) == seq![event] + answers_of(calls, results)
            &&& called(after.effects) == requests_of(calls)
            &&& contents_of(persisted(after.effects)) == seq![content]
            &&& after.store.history(composer.session) == store.history(composer.session).push(
                content,
            )
        }),
{
    let content = primary_content(event)->0;
    let calls = calls_of(content.parts);
    let head = Offer { signal: SignalModel::Event(event), record_id };
    let offers = seq![head] + result_offers(results, ids);
    let first = composer.step(store, SignalModel::Event(event), record_id);
    assert(!is_trivial(content)) by {
        if is_trivial(content) {
            assert(calls_of(content.parts.drop_last()) =~= Seq::<FunctionCallModel>::empty());
        }
    }
    let record = RecordModel { id: record_id, session_id: composer.session, content };
    let forward = EffectModel::Forward(event);
    let persist = EffectModel::Persist(record);
    let request = resolution(calls[0].name, calls[0].args)->Ok_0;
    let run_it = EffectModel::Call(request);
    assert(first.effects =~= seq![forward, persist] + seq![run_it]);
    lemma_effects_small(forward, persist);
    lemma_effects_small(persist, persist);
    lemma_effects_small(run_it, run_it);
    lemma_effects_concat(seq![forward, persist], seq![run_it]);
    assert(offers.drop_first() =~= result_offers(results, ids));
    lemma_pending_calls_are_answered_in_order(first.composer, first.store, results, ids);
    let rest = run(first.composer, first.store, result_offers(results, ids));
    lemma_effects_concat(first.effects, rest.effects);
    lemma_history_push(store, record, composer.session);
}

/// A call of a registered function that lacks the argument the function
/// requires is refused with `MissingArgument`, and names the argument.
pub proof fn lemma_missing_argument(name: Seq<char>, args: Map<Seq<char>, Seq<char>>)
    requires
        registered(name) is Some,
        !args.contains_key(required_key(registered(name)->0)),
    ensures
        resolution(name, args) == Err::<HandlerRequestModel, DispatchErrorModel>(
            DispatchErrorModel::MissingArgument(required_key(registered(name)->0)),
        ),
{
}

/// A function call that cannot be resolved is never run: the step that meets it
/// asks for no function to be run and aborts the run, with the reason why the
/// call was not resolved unless the write of the event was refused before; and
/// no step after it does anything.
pub proof fn lemma_unresolved_call_is_not_run(
    composer: ComposerModel,
    store: StoreModel,
    event: ResponseModel,
    record_id: Seq<char>,
    later: Seq<Offer>,
)
    requires
        composer.awaits_stream(),
        primary_content(event) is Some,
        calls_of(primary_content(event)->0.parts).len() > 0,
        resolution(
            calls_of(primary_content(event)->0.parts)[0].name,
            calls_of(primary_content(event)->0.parts)[0].args,
        ) is Err,
    ensures
        ({
            let first = composer.step(store, SignalModel::Event(event), record_id);
            let rest = run(first.composer, first.store, later);
            &&& first.composer.phase == Phase::Aborted
            &&& called(first.effects) == Seq::<HandlerRequestModel>::empty()
            &&& rest.effects == Seq::<EffectModel>::empty()
            &&& rest.composer == first.composer
            &&& store.insert_content(record_id, composer.session, primary_content(event)->0).1
                is Ok ==> first.composer.failure == Some(
                ComposerErrorModel::FunctionDispatch(
                    resolution(
                        calls_of(primary_content(event)->0.parts)[0].name,
                        calls_of(primary_content(event)->0.parts)[0].args,
                    )->Err_0,
                ),
            )
        }),
{
    let content = primary_content(event)->0;
    let first = composer.step(store, SignalModel::Event(event), record_id);
    assert(!is_trivial(content)) by {
        if is_trivial(content) {
            assert(calls_of(content.parts.drop_last()) =~= Seq::<FunctionCallModel>::empty());
        }
    }
    let forward = EffectModel::Forward(event);
    let record = RecordModel { id: record_id, session_id: composer.session, content };
    let persist = EffectModel::Persist(record);
    lemma_effects_small(forward, persist);
    lemma_effects_small(persist, persist);
    if store.insert_content(record_id, composer.session, content).1 is Ok {
        assert(first.effects =~= seq![forward, persist]);
    }
    lemma_finished_run_stays(first.composer, first.store, later);
}

/// No resumption: a run that is completed or aborted stays as it is, whatever
/// comes in, and nothing more is to be done.
pub proof fn lemma_finished_run_stays(
    composer: ComposerModel,
    store: StoreModel,
    offers: Seq<Offer>,
)
    requires
        composer.phase == Phase::Completed || composer.phase == Phase::Aborted,
    ensures
        run(composer, store, offers) == (Step { composer, store, effects: Seq::empty() }),
    decreases offers.len(),
{
    if offers.len() > 0 {
        lemma_finished_run_stays(composer, store, offers.drop_first());
    }
}

/// The stream is opened at the start of a run and never again: no step asks for
/// the stream to be opened, so the response of a function is not sent back to
/// the model.
pub proof fn lemma_stream_is_opened_once(
    composer: ComposerModel,
    store: StoreModel,
    request: RequestModel,
    record_id: Seq<char>,
    offers: Seq<Offer>,
)
    ensures
        invoked(composer.begin(store, request, record_id).effects).len() <= 1,
        invoked(run(composer, store, offers).effects) == Seq::<RequestModel>::empty(),
    decreases offers.len(),
{
    let start = composer.begin(store, request, record_id);
    if start.effects.len() > 0 {
        lemma_effects_small(start.effects[0], start.effects[1]);
        lemma_effects_small(start.effects[1], start.effects[1]);
    }
    if offers.len() > 0 {
        let first = composer.step(store, offers[0].signal, offers[0].record_id);
        lemma_step_does_not_invoke(composer, store, offers[0].signal, offers[0].record_id);
        lemma_stream_is_opened_once(
            first.composer,
            first.store,
            request,
            record_id,
            offers.drop_first(),
        );
        let rest = run(first.composer, first.store, offers.drop_first());
        lemma_effects_concat(first.effects, rest.effects);
    }
}

/// No step asks for the stream to be opened.
pub proof fn lemma_step_does_not_invoke(
    composer: ComposerModel,
    store: StoreModel,
    signal: SignalModel,
    record_id: Seq<char>,
)
    ensures
        invoked(composer.step(store, signal, record_id).effects) == Seq::<RequestModel>::empty(),
{
    lemma_none_invoked(composer.step(store, signal, record_id).effects);
}

/// Effects without a request among them open no stream.
pub proof fn lemma_none_invoked(effects: Seq<EffectModel>)
    requires
        forall|i: int| 0 <= i < effects.len() ==> !(#[trigger] effects[i] is Invoke),
    ensures
        invoked(effects) == Seq::<RequestModel>::empty(),
    decreases effects.len(),
{
    if effects.len() > 0 {
        lemma_none_invoked(effects.drop_last());
    }
}

/// Whether a run may pass from the phase `before` to the phase `after`: it
/// stays where it is, or starts, or ends.
pub open spec fn may_follow(before: Phase, after: Phase) -> bool {
    ||| after == before
    ||| before == Phase::Idle && (after == Phase::Streaming || after == Phase::Aborted)
    ||| before == Phase::Streaming && (after == Phase::Completed || after == Phase::Aborted)
}

/// Whether a machine holds what belongs together: a failure exactly when it is
/// aborted, and pending calls only while it streams.
pub open spec fn is_consistent(composer: ComposerModel) -> bool {
    &&& composer.failure is Some <==> composer.phase == Phase::Aborted
    &&& composer.pending.len() > 0 ==> composer.phase == Phase::Streaming
}

/// A run moves from idle to streaming and from there to its end, and in no
/// other way: only the start leaves the idle phase, every step keeps or advances
/// the phase, and the session of the run never changes.
pub proof fn lemma_phases_move_forward(
    composer: ComposerModel,
    store: StoreModel,
    request: RequestModel,
    signal: SignalModel,
    record_id: Seq<char>,
)
    ensures
        may_follow(composer.phase, composer.begin(store, request, record_id).composer.phase),
        may_follow(composer.phase, composer.step(store, signal, record_id).composer.phase),
        composer.phase == Phase::Idle ==> composer.step(store, signal, record_id).composer
            == composer,
        composer.begin(store, request, record_id).composer.session == composer.session,
        composer.step(store, signal, record_id).composer.session == composer.session,
        is_consistent(ComposerModel::fresh(composer.session)),
        is_consistent(composer) ==> is_consistent(
            composer.begin(store, request, record_id).composer,
        ),
        is_consistent(composer) ==> is_consistent(composer.step(store, signal, record_id).composer),
{
}

/// A run only adds to the ledger: the sessions and the records that the store
/// held before a step, or before any number of steps, are still there
/// afterwards, unchanged and in their places.
pub proof fn lemma_run_only_grows_the_ledger(
    composer: ComposerModel,
    store: StoreModel,
    request: RequestModel,
    record_id: Seq<char>,
    offers: Seq<Offer>,
)
    ensures
        composer.begin(store, request, record_id).store.extends(store),
        run(composer, store, offers).store.extends(store),
    decreases offers.len(),
{
    if offers.len() > 0 {
        let first = composer.step(store, offers[0].signal, offers[0].record_id);
        lemma_run_only_grows_the_ledger(
            first.composer,
            first.store,
            request,
            record_id,
            offers.drop_first(),
        );
        lemma_extends_is_transitive(
            store,
            first.store,
            run(first.composer, first.store, offers.drop_first()).store,
        );
    }
}

} // verus!
