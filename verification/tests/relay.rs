use solus_rust_lib::composer::{
    content_is_trivial, function_calls, function_response_event, primary_of, Composer, Effect,
    Phase, Signal,
};
use solus_rust_lib::data::{get_content, ContentRecord, ConversationStore};
use solus_rust_lib::dispatch::HandlerRequest;
use solus_rust_lib::error::{ComposerError, DispatchError, StorageError, StreamError};
use solus_rust_lib::gemini::api::{new_content_pb, new_gemini_request_pb};
use solus_rust_lib::gemini::content_from_pb;
use solus_rust_lib::proto::message::{
    CandidatePb, ContentPb, FunctionCallPb, FunctionResponsePb, GeminiResponsePb, PartPb,
};
use solus_rust_lib::strmap::StringMap;

fn text(value: &str) -> PartPb {
    PartPb { text: Some(value.to_string()), function_call: None, function_response: None }
}

fn call(name: &str, pairs: &[(&str, &str)]) -> PartPb {
    let mut args = StringMap::new();
    for (key, value) in pairs {
        args.insert(key.to_string(), value.to_string());
    }
    PartPb {
        text: None,
        function_call: Some(FunctionCallPb { name: name.to_string(), args }),
        function_response: None,
    }
}

fn response(name: &str, value: &str) -> PartPb {
    PartPb {
        text: None,
        function_call: None,
        function_response: Some(FunctionResponsePb {
            name: name.to_string(),
            response: value.to_string(),
        }),
    }
}

fn model_says(parts: Vec<PartPb>) -> ContentPb {
    ContentPb { role: "model".to_string(), parts }
}

fn event(parts: Vec<PartPb>) -> GeminiResponsePb {
    GeminiResponsePb {
        candidates: vec![CandidatePb { content: Some(model_says(parts)), finish_reason: None }],
    }
}

fn session_with(store: &mut ConversationStore, id: &str) {
    assert_eq!(store.insert_session(id.to_string(), None), Ok(()));
}

/// A store with the session `s`, and a machine on it that has begun with the
/// user saying `said`.
fn begun(said: &str) -> (ConversationStore, Composer) {
    let mut store = ConversationStore::new();
    session_with(&mut store, "s");
    let mut composer = Composer::new("s".to_string());
    let request = new_gemini_request_pb(vec![new_content_pb("user".to_string(), said.to_string())]);
    let effects = composer.begin_with(&mut store, &request, "turn-0".to_string());
    assert_eq!(effects.len(), 2);
    assert_eq!(composer.phase(), Phase::Streaming);
    (store, composer)
}

fn forwards(effects: &[Effect]) -> Vec<GeminiResponsePb> {
    let mut events = Vec::new();
    for effect in effects {
        if let Effect::Forward(event) = effect {
            events.push(event.clone());
        }
    }
    events
}

fn invocations(effects: &[Effect]) -> usize {
    effects.iter().filter(|effect| matches!(effect, Effect::Invoke(_))).count()
}

#[test]
fn a_new_machine_is_idle() {
    let composer = Composer::new("s".to_string());
    assert_eq!(composer.phase(), Phase::Idle);
    assert_eq!(composer.session_id(), "s");
    assert_eq!(composer.failure(), None);
    assert!(!composer.awaits_outcome());
    assert!(!composer.awaits_stream());
}

#[test]
fn the_start_writes_the_turn_and_opens_the_stream_with_the_history() {
    let mut store = ConversationStore::new();
    session_with(&mut store, "s");
    assert_eq!(
        store.insert_content(
            "old-1".to_string(),
            "s",
            new_content_pb("user".to_string(), "before".to_string())
        ),
        Ok(())
    );
    assert_eq!(
        store.insert_content(
            "old-2".to_string(),
            "s",
            new_content_pb("model".to_string(), "earlier answer".to_string())
        ),
        Ok(())
    );
    let mut composer = Composer::new("s".to_string());
    let turn = new_content_pb("user".to_string(), "hi".to_string());
    let request = new_gemini_request_pb(vec![turn.clone()]);
    let effects = composer.begin_with(&mut store, &request, "turn-0".to_string());
    assert_eq!(composer.phase(), Phase::Streaming);
    assert!(composer.awaits_stream());
    assert_eq!(effects.len(), 2);
    assert_eq!(
        effects[0],
        Effect::Persist(ContentRecord {
            id: "turn-0".to_string(),
            session_id: "s".to_string(),
            content: turn.clone(),
        })
    );
    match &effects[1] {
        Effect::Invoke(sent) => {
            assert_eq!(
                sent.contents,
                vec![
                    content_from_pb(&new_content_pb("user".to_string(), "before".to_string())),
                    content_from_pb(&new_content_pb(
                        "model".to_string(),
                        "earlier answer".to_string()
                    )),
                    content_from_pb(&turn),
                ]
            );
            assert!(sent.tools.is_empty());
            assert_eq!(
                sent.system_instruction.as_ref().map(|instruction| instruction.parts.len()),
                Some(1)
            );
        }
        other => panic!("expected an invocation, got {:?}", other),
    }
    assert_eq!(get_content(&store, "s").len(), 3);
}

#[test]
fn the_start_on_an_unknown_session_aborts() {
    let mut store = ConversationStore::new();
    let mut composer = Composer::new("nowhere".to_string());
    let request =
        new_gemini_request_pb(vec![new_content_pb("user".to_string(), "hi".to_string())]);
    let effects = composer.begin(&mut store, &request);
    assert!(effects.is_empty());
    assert_eq!(composer.phase(), Phase::Aborted);
    assert_eq!(composer.failure(), Some(ComposerError::Storage(StorageError::UnknownSession)));
    assert_eq!(store.record_count(), 0);
}

#[test]
fn the_start_under_a_used_identifier_aborts() {
    let mut store = ConversationStore::new();
    session_with(&mut store, "s");
    assert_eq!(
        store.insert_content(
            "turn-0".to_string(),
            "s",
            new_content_pb("user".to_string(), "before".to_string())
        ),
        Ok(())
    );
    let mut composer = Composer::new("s".to_string());
    let request =
        new_gemini_request_pb(vec![new_content_pb("user".to_string(), "hi".to_string())]);
    let effects = composer.begin_with(&mut store, &request, "turn-0".to_string());
    assert!(effects.is_empty());
    assert_eq!(composer.failure(), Some(ComposerError::Storage(StorageError::DuplicateId)));
    assert_eq!(store.record_count(), 1);
}

#[test]
fn a_second_start_does_nothing() {
    let (mut store, mut composer) = begun("hi");
    let request =
        new_gemini_request_pb(vec![new_content_pb("user".to_string(), "again".to_string())]);
    let effects = composer.begin_with(&mut store, &request, "turn-1".to_string());
    assert!(effects.is_empty());
    assert_eq!(composer.phase(), Phase::Streaming);
    assert_eq!(store.record_count(), 1);
}

#[test]
fn one_text_event_is_forwarded_and_written() {
    let (mut store, mut composer) = begun("hi");
    let hello = event(vec![text("hello")]);
    let mut effects =
        composer.step_with(&mut store, Signal::Event(hello.clone()), "m-1".to_string());
    effects.extend(composer.step_with(&mut store, Signal::Closed, "m-2".to_string()));
    assert_eq!(forwards(&effects), vec![hello]);
    assert_eq!(composer.phase(), Phase::Completed);
    assert_eq!(composer.failure(), None);
    assert_eq!(
        get_content(&store, "s"),
        vec![
            new_content_pb("user".to_string(), "hi".to_string()),
            new_content_pb("model".to_string(), "hello".to_string()),
        ]
    );
}

#[test]
fn an_event_of_one_empty_text_is_not_written() {
    let (mut store, mut composer) = begun("hi");
    let empty = event(vec![text("")]);
    let effects = composer.step_with(&mut store, Signal::Event(empty.clone()), "m-1".to_string());
    assert_eq!(effects, vec![Effect::Forward(empty)]);
    assert_eq!(store.record_count(), 1);
    assert!(composer.awaits_stream());
}

#[test]
fn events_without_calls_pass_as_they_came() {
    let (mut store, mut composer) = begun("hi");
    let events = vec![
        event(vec![text("Hel")]),
        event(vec![text("")]),
        event(vec![text("lo"), text(" there")]),
        event(vec![response("generate_image", "https://images.example/1.png")]),
        GeminiResponsePb { candidates: vec![] },
        GeminiResponsePb {
            candidates: vec![CandidatePb {
                content: None,
                finish_reason: Some("STOP".to_string()),
            }],
        },
    ];
    let mut effects = Vec::new();
    for (index, event) in events.iter().enumerate() {
        effects.extend(composer.step(&mut store, Signal::Event(event.clone())));
        assert!(composer.awaits_stream(), "after event {}", index);
    }
    assert_eq!(forwards(&effects), events);
    assert_eq!(
        get_content(&store, "s"),
        vec![
            new_content_pb("user".to_string(), "hi".to_string()),
            model_says(vec![text("Hel")]),
            model_says(vec![text("lo"), text(" there")]),
            model_says(vec![response("generate_image", "https://images.example/1.png")]),
        ]
    );
    let writes = effects.iter().filter(|effect| matches!(effect, Effect::Persist(_))).count();
    assert_eq!(writes, 3);
    assert!(effects.iter().all(|effect| !matches!(effect, Effect::Call(_))));
}

#[test]
fn an_empty_text_beside_another_part_is_written() {
    let (mut store, mut composer) = begun("hi");
    let mixed = event(vec![text(""), text("x")]);
    let effects = composer.step_with(&mut store, Signal::Event(mixed.clone()), "m-1".to_string());
    assert_eq!(effects.len(), 2);
    assert_eq!(store.record_count(), 2);
    assert_eq!(get_content(&store, "s")[1], model_says(vec![text(""), text("x")]));
}

#[test]
fn a_function_call_is_answered_right_after_its_event() {
    let (mut store, mut composer) = begun("draw a cat");
    let asking = event(vec![call("generate_image", &[("prompt", "cat")])]);
    let first = composer.step_with(&mut store, Signal::Event(asking.clone()), "m-1".to_string());
    assert_eq!(
        first,
        vec![
            Effect::Forward(asking.clone()),
            Effect::Persist(ContentRecord {
                id: "m-1".to_string(),
                session_id: "s".to_string(),
                content: model_says(vec![call("generate_image", &[("prompt", "cat")])]),
            }),
            Effect::Call(HandlerRequest::GenerateImage { prompt: "cat".to_string() }),
        ]
    );
    assert!(composer.awaits_outcome());
    let second = composer.step_with(
        &mut store,
        Signal::Outcome(Ok("u".to_string())),
        "m-2".to_string(),
    );
    let answer = event(vec![response("generate_image", "u")]);
    assert_eq!(second, vec![Effect::Forward(answer.clone())]);
    assert!(composer.awaits_stream());
    let mut all = first;
    all.extend(second);
    all.extend(composer.step_with(
        &mut store,
        Signal::Event(event(vec![text("done")])),
        "m-3".to_string(),
    ));
    all.extend(composer.step_with(&mut store, Signal::Closed, "m-4".to_string()));
    assert_eq!(forwards(&all), vec![asking, answer, event(vec![text("done")])]);
    assert_eq!(invocations(&all), 0);
    assert_eq!(composer.phase(), Phase::Completed);
    assert_eq!(
        get_content(&store, "s"),
        vec![
            new_content_pb("user".to_string(), "draw a cat".to_string()),
            model_says(vec![call("generate_image", &[("prompt", "cat")])]),
            model_says(vec![text("done")]),
        ]
    );
}

#[test]
fn the_response_event_speaks_as_the_model() {
    let made = function_response_event(FunctionResponsePb {
        name: "generate_image".to_string(),
        response: "u".to_string(),
    });
    assert_eq!(
        made,
        GeminiResponsePb {
            candidates: vec![CandidatePb {
                content: Some(ContentPb {
                    role: "model".to_string(),
                    parts: vec![PartPb {
                        text: None,
                        function_call: None,
                        function_response: Some(FunctionResponsePb {
                            name: "generate_image".to_string(),
                            response: "u".to_string(),
                        }),
                    }],
                }),
                finish_reason: None,
            }],
        }
    );
}

#[test]
fn two_calls_in_one_event_are_run_in_order() {
    let (mut store, mut composer) = begun("both");
    let asking = event(vec![
        call("web_search", &[("query", "cats")]),
        text("meanwhile"),
        call("generate_image", &[("prompt", "cat")]),
    ]);
    let first = composer.step_with(&mut store, Signal::Event(asking.clone()), "m-1".to_string());
    assert_eq!(
        first.last(),
        Some(&Effect::Call(HandlerRequest::WebSearch { query: "cats".to_string() }))
    );
    let second = composer.step_with(
        &mut store,
        Signal::Outcome(Ok("results".to_string())),
        "m-2".to_string(),
    );
    assert_eq!(
        second,
        vec![
            Effect::Forward(event(vec![response("web_search", "results")])),
            Effect::Call(HandlerRequest::GenerateImage { prompt: "cat".to_string() }),
        ]
    );
    assert!(composer.awaits_outcome());
    let third = composer.step_with(
        &mut store,
        Signal::Outcome(Ok("u".to_string())),
        "m-3".to_string(),
    );
    assert_eq!(third, vec![Effect::Forward(event(vec![response("generate_image", "u")]))]);
    assert!(composer.awaits_stream());
    assert_eq!(store.record_count(), 2);
}

#[test]
fn a_call_with_a_missing_argument_is_not_run() {
    let (mut store, mut composer) = begun("draw");
    let asking = event(vec![call("generate_image", &[])]);
    let effects = composer.step_with(&mut store, Signal::Event(asking.clone()), "m-1".to_string());
    assert!(effects.iter().all(|effect| !matches!(effect, Effect::Call(_))));
    assert_eq!(forwards(&effects), vec![asking]);
    assert_eq!(composer.phase(), Phase::Aborted);
    assert_eq!(
        composer.failure(),
        Some(ComposerError::FunctionDispatch(DispatchError::MissingArgument(
            "prompt".to_string()
        )))
    );
    assert_eq!(store.record_count(), 2);
}

#[test]
fn a_call_of_an_unknown_function_aborts_the_run() {
    let (mut store, mut composer) = begun("fly");
    let asking = event(vec![call("launch_rocket", &[("prompt", "cat")])]);
    let effects = composer.step_with(&mut store, Signal::Event(asking), "m-1".to_string());
    assert!(effects.iter().all(|effect| !matches!(effect, Effect::Call(_))));
    assert_eq!(
        composer.failure(),
        Some(ComposerError::FunctionDispatch(DispatchError::UnknownFunction))
    );
}

#[test]
fn a_failed_function_aborts_the_run_and_nothing_more_is_relayed() {
    let (mut store, mut composer) = begun("search");
    let asking = event(vec![call("web_search", &[("query", "cats")])]);
    composer.step_with(&mut store, Signal::Event(asking), "m-1".to_string());
    let failed = composer.step_with(
        &mut store,
        Signal::Outcome(Err("status 500".to_string())),
        "m-2".to_string(),
    );
    assert!(failed.is_empty());
    assert_eq!(composer.phase(), Phase::Aborted);
    assert_eq!(
        composer.failure(),
        Some(ComposerError::FunctionDispatch(DispatchError::HandlerError(
            "status 500".to_string()
        )))
    );
    let later =
        composer.step_with(&mut store, Signal::Event(event(vec![text("late")])), "m-3".to_string());
    assert!(later.is_empty());
    assert!(composer.step(&mut store, Signal::Closed).is_empty());
    assert_eq!(composer.phase(), Phase::Aborted);
    assert_eq!(store.record_count(), 2);
}

#[test]
fn a_failure_of_the_stream_aborts_the_run() {
    let (mut store, mut composer) = begun("hi");
    let effects = composer.step_with(
        &mut store,
        Signal::Failed(StreamError::TransportError("connection reset".to_string())),
        "m-1".to_string(),
    );
    assert!(effects.is_empty());
    assert_eq!(composer.phase(), Phase::Aborted);
    assert_eq!(
        composer.failure(),
        Some(ComposerError::Stream(StreamError::TransportError("connection reset".to_string())))
    );
    assert_eq!(
        composer.failure().map(|failure| failure.describe()),
        Some("EventSource: connection reset".to_string())
    );
}

#[test]
fn a_write_under_a_used_identifier_aborts_the_run() {
    let (mut store, mut composer) = begun("hi");
    let hello = event(vec![text("hello")]);
    let effects =
        composer.step_with(&mut store, Signal::Event(hello.clone()), "turn-0".to_string());
    assert_eq!(effects, vec![Effect::Forward(hello)]);
    assert_eq!(composer.failure(), Some(ComposerError::Storage(StorageError::DuplicateId)));
    assert_eq!(composer.failure().map(|failure| failure.describe()),
        Some("The identifier is already in use.".to_string()));
    assert_eq!(store.record_count(), 1);
}

#[test]
fn signals_that_are_not_awaited_change_nothing() {
    let mut store = ConversationStore::new();
    session_with(&mut store, "s");
    let mut idle = Composer::new("s".to_string());
    assert!(idle.step(&mut store, Signal::Event(event(vec![text("early")]))).is_empty());
    assert!(idle.step(&mut store, Signal::Closed).is_empty());
    assert_eq!(idle.phase(), Phase::Idle);
    assert_eq!(store.record_count(), 0);

    let (mut store, mut composer) = begun("hi");
    assert!(composer.step(&mut store, Signal::Outcome(Ok("stray".to_string()))).is_empty());
    assert!(composer.awaits_stream());
    composer.step(&mut store, Signal::Event(event(vec![call("web_search", &[("query", "q")])])));
    assert!(composer.awaits_outcome());
    assert!(composer.step(&mut store, Signal::Event(event(vec![text("too soon")]))).is_empty());
    assert!(composer.step(&mut store, Signal::Closed).is_empty());
    assert!(composer.awaits_outcome());
    assert_eq!(store.record_count(), 2);

    let (mut store, mut done) = begun("hi");
    done.step(&mut store, Signal::Closed);
    assert_eq!(done.phase(), Phase::Completed);
    assert!(done.step(&mut store, Signal::Event(event(vec![text("late")]))).is_empty());
    assert_eq!(done.phase(), Phase::Completed);
}

#[test]
fn the_primary_content_is_that_of_the_first_candidate() {
    let two = GeminiResponsePb {
        candidates: vec![
            CandidatePb { content: Some(model_says(vec![text("first")])), finish_reason: None },
            CandidatePb { content: Some(model_says(vec![text("second")])), finish_reason: None },
        ],
    };
    assert_eq!(primary_of(&two), Some(&model_says(vec![text("first")])));
    assert_eq!(primary_of(&GeminiResponsePb { candidates: vec![] }), None);
    assert_eq!(
        primary_of(&GeminiResponsePb {
            candidates: vec![CandidatePb { content: None, finish_reason: None }],
        }),
        None
    );
}

#[test]
fn only_one_empty_text_is_trivial() {
    assert!(content_is_trivial(&model_says(vec![text("")])));
    assert!(!content_is_trivial(&model_says(vec![text("a")])));
    assert!(!content_is_trivial(&model_says(vec![text(""), text("")])));
    assert!(!content_is_trivial(&model_says(vec![])));
    assert!(!content_is_trivial(&model_says(vec![call("web_search", &[])])));
    assert!(!content_is_trivial(&model_says(vec![response("web_search", "")])));
}

#[test]
fn the_calls_of_a_content_come_in_the_order_of_its_parts() {
    let content = model_says(vec![
        text("a"),
        call("web_search", &[("query", "1")]),
        response("web_search", "r"),
        call("generate_image", &[("prompt", "2")]),
    ]);
    let calls = function_calls(&content);
    assert_eq!(calls.len(), 2);
    assert_eq!(calls[0].name, "web_search");
    assert_eq!(calls[1].name, "generate_image");
    assert_eq!(function_calls(&model_says(vec![text("a")])), vec![]);
}

#[test]
fn a_part_with_text_and_a_call_counts_as_text() {
    let mut both = call("web_search", &[("query", "1")]);
    both.text = Some("said".to_string());
    assert_eq!(function_calls(&model_says(vec![both])), vec![]);
}

#[test]
fn the_machine_says_which_signals_it_waits_for() {
    let idle = Composer::new("s".to_string());
    assert!(!idle.accepts(&Signal::Closed));
    assert!(!idle.accepts(&Signal::Outcome(Ok("u".to_string()))));
    let (mut store, mut composer) = begun("hi");
    assert!(composer.accepts(&Signal::Event(event(vec![text("x")]))));
    assert!(composer.accepts(&Signal::Closed));
    assert!(composer
        .accepts(&Signal::Failed(StreamError::DecodeError("bad".to_string()))));
    assert!(!composer.accepts(&Signal::Outcome(Ok("u".to_string()))));
    composer.step(&mut store, Signal::Event(event(vec![call("web_search", &[("query", "q")])])));
    assert!(composer.accepts(&Signal::Outcome(Err("no".to_string()))));
    assert!(!composer.accepts(&Signal::Event(event(vec![text("x")]))));
    assert!(!composer.accepts(&Signal::Closed));
    composer.step(&mut store, Signal::Outcome(Err("no".to_string())));
    assert!(!composer.accepts(&Signal::Closed));
    assert!(!composer.accepts(&Signal::Outcome(Ok("u".to_string()))));
}
