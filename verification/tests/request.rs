use sse_relay::frame::{classify_line, decode_payload, trim_bytes, LineClass};
use sse_relay::request::{
    anthropic_version, api_url, build_messages, check_api_key, extract_content, request_max_tokens,
    system_prompt, AnthropicContent, AnthropicResponse,
};

#[test]
fn missing_credential_is_a_synchronous_configuration_error() {
    let r = check_api_key(None);
    assert_eq!(r, Err("ANTHROPIC_API_KEY environment variable is required".to_string()));
}

#[test]
fn present_credential_passes_through() {
    let r = check_api_key(Some("configured-key".to_string()));
    assert_eq!(r, Ok("configured-key".to_string()));
}

#[test]
fn messages_carry_prompt_and_seeded_prefix() {
    let msgs = build_messages("draw a clock".to_string());
    assert_eq!(msgs.len(), 2);
    assert_eq!(msgs[0].role, "user");
    assert_eq!(msgs[0].content.len(), 1);
    assert_eq!(msgs[0].content[0].content_type, "text");
    assert_eq!(msgs[0].content[0].text, "draw a clock");
    assert_eq!(msgs[1].role, "assistant");
    assert_eq!(msgs[1].content.len(), 1);
    assert_eq!(msgs[1].content[0].content_type, "text");
    assert_eq!(msgs[1].content[0].text, "<");
}

#[test]
fn request_constants_match_the_upstream_contract() {
    assert_eq!(api_url(), "https://api.anthropic.com/v1/messages");
    assert_eq!(anthropic_version(), "2023-06-01");
    assert_eq!(request_max_tokens(), 4096);
    assert!(system_prompt().starts_with("You are an HTML App Generator"));
    assert_eq!(system_prompt(), system_prompt());
}

#[test]
fn extract_content_takes_the_last_block() {
    let resp = AnthropicResponse {
        content: Some(vec![
            AnthropicContent { text: "a".to_string(), content_type: "text".to_string() },
            AnthropicContent { text: "b".to_string(), content_type: "text".to_string() },
        ]),
    };
    let c = extract_content(resp).unwrap();
    assert_eq!(c.text, "b");
    assert!(extract_content(AnthropicResponse { content: None }).is_none());
    assert!(extract_content(AnthropicResponse { content: Some(vec![]) }).is_none());
}

#[test]
fn trim_strips_surrounding_whitespace_only() {
    assert_eq!(trim_bytes(b"  data: x \r\n"), b"data: x".to_vec());
    assert_eq!(trim_bytes(b"\t\r \n"), Vec::<u8>::new());
    assert_eq!(trim_bytes(b"inner  space"), b"inner  space".to_vec());
}

#[test]
fn classification_follows_the_framing_convention() {
    assert!(matches!(classify_line(b"   "), LineClass::Ignored));
    assert!(matches!(classify_line(b"event: ping"), LineClass::Ignored));
    assert!(matches!(classify_line(b"data: [DONE]"), LineClass::Done));
    assert!(matches!(classify_line(b"  data: [DONE]\r"), LineClass::Done));
    match classify_line(b"data: {\"type\":\"ping\"}") {
        LineClass::Payload(p) => assert_eq!(p, b"{\"type\":\"ping\"}".to_vec()),
        _ => panic!("expected a payload"),
    }
}

#[test]
fn decode_extracts_type_and_delta_text() {
    let ev = decode_payload(
        b"{\"type\":\"content_block_delta\",\"delta\":{\"type\":\"text_delta\",\"text\":\"hi\"}}",
    )
    .unwrap();
    assert_eq!(ev.event_type, "content_block_delta");
    let delta = ev.delta.unwrap();
    assert_eq!(delta.delta_type.as_deref(), Some("text_delta"));
    assert_eq!(delta.text.as_deref(), Some("hi"));
    assert!(decode_payload(b"{not valid}").is_none());
    assert!(decode_payload(b"{\"delta\":{}}").is_none());
}

#[test]
fn chat_page_is_served_as_static_html() {
    let page = sse_relay::templates::chat_interface();
    assert!(page.contains("<!DOCTYPE html>"));
    assert!(page.contains("/generate/stream"));
}
