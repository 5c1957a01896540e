use solus_rust_lib::context::{attribute, channel_contents, content_of, ChannelMessage};
use solus_rust_lib::display::{absorb, absorb_text, can_show, describe_call, show, Entry};
use solus_rust_lib::gemini::api::new_content_pb;
use solus_rust_lib::proto::message::{
    CandidatePb, ContentPb, FunctionCallPb, FunctionResponsePb, GeminiResponsePb, PartPb,
};
use solus_rust_lib::strmap::StringMap;
use solus_rust_lib::transcript::{append_text, terminal_text};

fn said(value: &str) -> PartPb {
    PartPb { text: Some(value.to_string()), function_call: None, function_response: None }
}

fn asked(name: &str, key: &str, value: &str) -> PartPb {
    let mut args = StringMap::new();
    args.insert(key.to_string(), value.to_string());
    PartPb {
        text: None,
        function_call: Some(FunctionCallPb { name: name.to_string(), args }),
        function_response: None,
    }
}

fn answered(name: &str, value: &str) -> PartPb {
    PartPb {
        text: None,
        function_call: None,
        function_response: Some(FunctionResponsePb {
            name: name.to_string(),
            response: value.to_string(),
        }),
    }
}

fn nothing() -> PartPb {
    PartPb { text: None, function_call: None, function_response: None }
}

fn carrying(parts: Vec<PartPb>) -> GeminiResponsePb {
    GeminiResponsePb {
        candidates: vec![CandidatePb {
            content: Some(ContentPb { role: "model".to_string(), parts }),
            finish_reason: None,
        }],
    }
}

#[test]
fn texts_that_follow_one_another_become_one_entry() {
    let mut entries = Vec::new();
    assert!(show(&mut entries, &carrying(vec![said("Hel")])));
    assert!(show(&mut entries, &carrying(vec![said("")])));
    assert!(show(&mut entries, &carrying(vec![said("lo"), said(" there")])));
    assert_eq!(entries, vec![Entry::Text("Hello there".to_string())]);
}

#[test]
fn a_call_and_its_image_stand_between_texts() {
    let mut entries = Vec::new();
    let events = vec![
        carrying(vec![said("Drawing.")]),
        carrying(vec![asked("generate_image", "prompt", "cat")]),
        carrying(vec![answered("generate_image", "https://images.example/cat.png")]),
        carrying(vec![said("Here"), said(" it is.")]),
    ];
    for event in &events {
        assert!(show(&mut entries, event));
    }
    let mut args = StringMap::new();
    args.insert("prompt".to_string(), "cat".to_string());
    assert_eq!(
        entries,
        vec![
            Entry::Text("Drawing.".to_string()),
            Entry::FunctionCall(FunctionCallPb { name: "generate_image".to_string(), args }),
            Entry::Image("https://images.example/cat.png".to_string()),
            Entry::Text("Here it is.".to_string()),
        ]
    );
    assert_eq!(terminal_text(&events), "Drawing.Here it is.");
}

#[test]
fn the_response_of_another_function_is_not_shown() {
    let mut entries = vec![Entry::Text("a".to_string())];
    assert!(absorb(&mut entries, &answered("web_search", "{}")));
    assert_eq!(entries, vec![Entry::Text("a".to_string())]);
}

#[test]
fn an_event_with_a_part_that_carries_nothing_is_refused() {
    let mut entries = vec![Entry::Text("a".to_string())];
    let broken = carrying(vec![said("b"), nothing(), said("c")]);
    assert!(!can_show(&broken));
    assert!(!show(&mut entries, &broken));
    assert_eq!(entries, vec![Entry::Text("a".to_string())]);
    assert!(!absorb(&mut entries, &nothing()));
    assert_eq!(entries, vec![Entry::Text("a".to_string())]);
}

#[test]
fn an_event_without_content_shows_nothing() {
    let mut entries = Vec::new();
    assert!(can_show(&GeminiResponsePb { candidates: vec![] }));
    assert!(show(&mut entries, &GeminiResponsePb { candidates: vec![] }));
    assert!(show(
        &mut entries,
        &GeminiResponsePb { candidates: vec![CandidatePb { content: None, finish_reason: None }] }
    ));
    assert_eq!(entries, vec![]);
}

#[test]
fn a_text_after_an_image_is_an_entry_of_its_own() {
    let mut entries = vec![Entry::Image("u".to_string())];
    absorb_text(&mut entries, "seen");
    absorb_text(&mut entries, "");
    absorb_text(&mut entries, " it");
    assert_eq!(
        entries,
        vec![Entry::Image("u".to_string()), Entry::Text("seen it".to_string())]
    );
}

#[test]
fn the_text_of_a_run_is_the_texts_of_its_events() {
    let events = vec![
        carrying(vec![said("Hel"), said("lo")]),
        carrying(vec![asked("web_search", "query", "cats")]),
        GeminiResponsePb { candidates: vec![] },
        carrying(vec![said(", "), answered("web_search", "{}"), said("world")]),
    ];
    assert_eq!(terminal_text(&events), "Hello, world");
    assert_eq!(terminal_text(&vec![]), "");
    let mut text = "So far: ".to_string();
    append_text(&mut text, &events[0]);
    assert_eq!(text, "So far: Hello");
    append_text(&mut text, &events[1]);
    assert_eq!(text, "So far: Hello");
}

fn wrote(author: &str, from_bot: bool, content: &str) -> ChannelMessage {
    ChannelMessage { author: author.to_string(), from_bot, content: content.to_string() }
}

#[test]
fn what_a_user_wrote_carries_the_name() {
    assert_eq!(attribute("ada", "hello"), "USER ada: \"hello\"");
    assert_eq!(attribute("", ""), "USER : \"\"");
    assert_eq!(
        content_of(&wrote("ada", false, "hello")),
        new_content_pb("user".to_string(), "USER ada: \"hello\"".to_string())
    );
    assert_eq!(
        content_of(&wrote("solus", true, "hi there")),
        new_content_pb("model".to_string(), "hi there".to_string())
    );
}

#[test]
fn a_channel_is_told_oldest_first_and_the_latest_last() {
    let earlier = vec![
        wrote("solus", true, "third"),
        wrote("bob", false, "second"),
        wrote("ada", false, "first"),
    ];
    let latest = wrote("ada", false, "and now?");
    assert_eq!(
        channel_contents(&earlier, &latest),
        vec![
            new_content_pb("user".to_string(), "USER ada: \"first\"".to_string()),
            new_content_pb("user".to_string(), "USER bob: \"second\"".to_string()),
            new_content_pb("model".to_string(), "third".to_string()),
            new_content_pb("user".to_string(), "USER ada: \"and now?\"".to_string()),
        ]
    );
    assert_eq!(
        channel_contents(&vec![], &latest),
        vec![new_content_pb("user".to_string(), "USER ada: \"and now?\"".to_string())]
    );
}

#[test]
fn a_call_is_shown_with_its_arguments_in_order() {
    let mut args = StringMap::new();
    assert_eq!(
        describe_call(&FunctionCallPb { name: "web_search".to_string(), args: StringMap::new() }),
        "```web_search()```"
    );
    args.insert("prompt".to_string(), "cat".to_string());
    assert_eq!(
        describe_call(&FunctionCallPb {
            name: "generate_image".to_string(),
            args: args.duplicate(),
        }),
        "```generate_image(prompt=\"cat\")```"
    );
    args.insert("style".to_string(), "oil".to_string());
    args.insert("size".to_string(), "2".to_string());
    assert_eq!(
        describe_call(&FunctionCallPb { name: "generate_image".to_string(), args }),
        "```generate_image(prompt=\"cat\", style=\"oil\", size=\"2\")```"
    );
}
