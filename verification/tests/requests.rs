use solus_rust_lib::gemini::api::{new_content_pb, new_gemini_request_pb, SYSTEM_PROMPT};
use solus_rust_lib::proto::message::PartPb;

#[test]
fn content_has_one_text_part() {
    let content = new_content_pb("user".to_string(), "hi".to_string());
    assert_eq!(content.role, "user");
    assert_eq!(
        content.parts,
        vec![PartPb { text: Some("hi".to_string()), function_call: None, function_response: None }]
    );
}

#[test]
fn request_carries_the_standing_instruction_and_no_tools() {
    let content = new_content_pb("user".to_string(), "hi".to_string());
    let request = new_gemini_request_pb(vec![content.clone()]);
    assert_eq!(request.contents, vec![content]);
    assert!(request.tools.is_empty());
    let instruction = request.system_instruction.expect("an instruction");
    assert_eq!(instruction.parts.len(), 1);
    assert_eq!(instruction.parts[0].text.as_deref(), Some(SYSTEM_PROMPT));
    assert!(SYSTEM_PROMPT.starts_with("You are Solus, an intelligent conversational assistant."));
}
