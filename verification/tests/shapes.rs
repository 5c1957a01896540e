use solus_rust_lib::proto::message::{
    CandidatePb, ContentPb, FunctionCallPb, FunctionResponsePb, GeminiRequestPb, GeminiResponsePb,
    PartPb, SystemInstructionPb, ToolPb,
};
use solus_rust_lib::strmap::StringMap;
use solus_rust_lib::text::str_eq;
use solus_rust_lib::views::{clone_all, clone_option, convert_all};

#[test]
fn strings_are_compared_by_their_characters() {
    assert!(str_eq("", ""));
    assert!(str_eq("prompt", "prompt"));
    assert!(!str_eq("prompt", "prompts"));
    assert!(!str_eq("prompt", "prompT"));
    assert!(!str_eq("", "a"));
    assert!(str_eq("caf\u{e9} \u{1f408}", "caf\u{e9} \u{1f408}"));
    assert!(!str_eq("caf\u{e9}", "cafe\u{301}"));
}

#[test]
fn a_new_map_is_empty() {
    let map: StringMap<String> = StringMap::new();
    assert_eq!(map.len(), 0);
    assert_eq!(map.get("a"), None);
    assert!(!map.contains_key("a"));
    assert_eq!(map.find("a"), None);
}

#[test]
fn a_map_keeps_its_entries_in_the_order_of_insertion() {
    let mut map = StringMap::new();
    map.insert("b".to_string(), 2u32);
    map.insert("a".to_string(), 1u32);
    map.insert("c".to_string(), 3u32);
    assert_eq!(map.len(), 3);
    assert_eq!(map.key(0), "b");
    assert_eq!(map.key(1), "a");
    assert_eq!(map.key(2), "c");
    assert_eq!(*map.value(0), 2);
    assert_eq!(*map.value(1), 1);
    assert_eq!(*map.value(2), 3);
    assert_eq!(map.find("a"), Some(1));
    assert_eq!(map.get("c"), Some(&3));
    assert!(map.contains_key("b"));
    assert!(!map.contains_key("d"));
}

#[test]
fn a_key_that_is_bound_again_keeps_its_place() {
    let mut map = StringMap::new();
    map.insert("a".to_string(), "1".to_string());
    map.insert("b".to_string(), "2".to_string());
    map.insert("a".to_string(), "3".to_string());
    assert_eq!(map.len(), 2);
    assert_eq!(map.key(0), "a");
    assert_eq!(map.value(0), "3");
    assert_eq!(map.get("a"), Some(&"3".to_string()));
    assert_eq!(map.get("b"), Some(&"2".to_string()));
}

#[test]
fn a_copy_of_a_map_has_the_same_entries() {
    let mut map = StringMap::new();
    map.insert("a".to_string(), "1".to_string());
    map.insert("b".to_string(), "2".to_string());
    let copy = map.duplicate();
    assert_eq!(copy, map);
    let lengths = map.convert(|value: &String| value.clone() + "!");
    assert_eq!(lengths.key(1), "b");
    assert_eq!(lengths.value(1), "2!");
}

#[test]
fn copies_of_vectors_and_options_hold_the_same() {
    let words = vec!["a".to_string(), "b".to_string()];
    assert_eq!(clone_all(&words), words);
    assert_eq!(clone_all(&Vec::<String>::new()), Vec::<String>::new());
    assert_eq!(clone_option(&Some("a".to_string())), Some("a".to_string()));
    assert_eq!(clone_option(&None::<String>), None);
    assert_eq!(convert_all(&words, |word: &String| word.clone()), words);
}

#[test]
fn copies_of_messages_are_equal_to_them() {
    let mut args = StringMap::new();
    args.insert("prompt".to_string(), "cat".to_string());
    let event = GeminiResponsePb {
        candidates: vec![CandidatePb {
            content: Some(ContentPb {
                role: "model".to_string(),
                parts: vec![
                    PartPb {
                        text: Some("x".to_string()),
                        function_call: None,
                        function_response: None,
                    },
                    PartPb {
                        text: None,
                        function_call: Some(FunctionCallPb {
                            name: "generate_image".to_string(),
                            args,
                        }),
                        function_response: None,
                    },
                ],
            }),
            finish_reason: Some("STOP".to_string()),
        }],
    };
    assert_eq!(event.clone(), event);
    let request = GeminiRequestPb {
        contents: vec![event.candidates[0].content.clone().expect("a content")],
        tools: vec![ToolPb { function_declarations: vec![] }],
        system_instruction: Some(SystemInstructionPb { parts: vec![] }),
    };
    assert_eq!(request.clone(), request);
}

#[test]
fn a_part_made_for_one_thing_carries_that_thing_alone() {
    let text = PartPb::of_text("hi".to_string());
    assert_eq!(
        text,
        PartPb { text: Some("hi".to_string()), function_call: None, function_response: None }
    );
    assert!(text.is_single());
    let call = FunctionCallPb { name: "web_search".to_string(), args: StringMap::new() };
    let asking = PartPb::of_call(call.clone());
    assert_eq!(
        asking,
        PartPb { text: None, function_call: Some(call.clone()), function_response: None }
    );
    assert!(asking.is_single());
    let response =
        FunctionResponsePb { name: "web_search".to_string(), response: "{}".to_string() };
    let answering = PartPb::of_response(response.clone());
    assert_eq!(
        answering,
        PartPb { text: None, function_call: None, function_response: Some(response.clone()) }
    );
    assert!(answering.is_single());
    assert!(!PartPb { text: None, function_call: None, function_response: None }.is_single());
    assert!(!PartPb {
        text: Some("hi".to_string()),
        function_call: Some(call.clone()),
        function_response: None,
    }
    .is_single());
    assert!(!PartPb {
        text: None,
        function_call: Some(call),
        function_response: Some(response),
    }
    .is_single());
}
