use chat_relay::digits::decimal_text;
use chat_relay::message::{build_request, ChatRequest, Message, Role};
use chat_relay::wire::{
    authorization_value, endpoint, frame_body, frame_message, literal_of, prepare_call,
    render_body,
};

fn parsed(body: &str) -> serde_json::Value {
    serde_json::from_str(body).expect("the body is JSON")
}

#[test]
fn roles_are_spelled_as_the_endpoint_expects() {
    assert_eq!(Role::System.as_str(), "system");
    assert_eq!(Role::User.as_str(), "user");
}

#[test]
fn message_constructors_keep_the_text_verbatim() {
    let system = Message::system("  be terse\n");
    assert_eq!(system.role, Role::System);
    assert_eq!(system.content, "  be terse\n");
    let user = Message::user("");
    assert_eq!(user.role, Role::User);
    assert_eq!(user.content, "");
}

#[test]
fn built_request_has_system_then_user() {
    let request = build_request("Analyze the following data:", "{\"key\": \"value\"}");
    assert_eq!(request.model, "gpt-4");
    assert_eq!(
        request.messages,
        vec![
            Message { role: Role::System, content: "Analyze the following data:".to_string() },
            Message { role: Role::User, content: "{\"key\": \"value\"}".to_string() },
        ]
    );
}

#[test]
fn built_request_does_not_swap_equal_looking_texts() {
    let request = build_request("user", "system");
    assert_eq!(request.messages.len(), 2);
    assert_eq!(request.messages[0].role, Role::System);
    assert_eq!(request.messages[0].content, "user");
    assert_eq!(request.messages[1].role, Role::User);
    assert_eq!(request.messages[1].content, "system");
}

#[test]
fn body_of_the_sample_request_is_exact() {
    let request = build_request("Analyze the following data:", "{\"key\": \"value\"}");
    assert_eq!(
        render_body(&request),
        "{\"model\":\"gpt-4\",\"messages\":[{\"role\":\"system\",\"content\":\"Analyze the following data:\"},{\"role\":\"user\",\"content\":\"{\\\"key\\\": \\\"value\\\"}\"}]}"
    );
}

#[test]
fn body_reads_back_as_the_two_messages_in_order() {
    let instructions = "Line one\nline \"two\"\t\\ end \u{1}\u{1f} caf\u{e9} \u{1F600}";
    let user_text = "{\"a\": [1, 2, {\"b\": \"c\\d\"}]}\r\n/slash/";
    let body = render_body(&build_request(instructions, user_text));
    let value = parsed(&body);
    let object = value.as_object().expect("an object");
    assert_eq!(object.len(), 2);
    assert_eq!(value["model"].as_str(), Some("gpt-4"));
    let messages = value["messages"].as_array().expect("an array");
    assert_eq!(messages.len(), 2);
    assert_eq!(messages[0].as_object().map(|m| m.len()), Some(2));
    assert_eq!(messages[0]["role"].as_str(), Some("system"));
    assert_eq!(messages[0]["content"].as_str(), Some(instructions));
    assert_eq!(messages[1].as_object().map(|m| m.len()), Some(2));
    assert_eq!(messages[1]["role"].as_str(), Some("user"));
    assert_eq!(messages[1]["content"].as_str(), Some(user_text));
}

#[test]
fn body_with_empty_texts_still_has_both_messages() {
    let body = render_body(&build_request("", ""));
    assert_eq!(
        body,
        "{\"model\":\"gpt-4\",\"messages\":[{\"role\":\"system\",\"content\":\"\"},{\"role\":\"user\",\"content\":\"\"}]}"
    );
}

#[test]
fn literal_escapes_what_json_reserves() {
    assert_eq!(literal_of("plain"), "\"plain\"");
    assert_eq!(literal_of(""), "\"\"");
    assert_eq!(literal_of("say \"hi\""), "\"say \\\"hi\\\"\"");
    assert_eq!(literal_of("a\\b"), "\"a\\\\b\"");
    assert_eq!(literal_of("a\nb\tc\r"), "\"a\\nb\\tc\\r\"");
    assert_eq!(literal_of("\u{8}\u{c}"), "\"\\b\\f\"");
    assert_eq!(literal_of("\u{0}\u{1f}"), "\"\\u0000\\u001f\"");
    assert_eq!(literal_of("caf\u{e9}/"), "\"caf\u{e9}/\"");
}

#[test]
fn literal_is_never_the_text_itself() {
    for text in ["", "x", "\"", "already \"quoted\""] {
        assert_ne!(literal_of(text), text);
    }
}

#[test]
fn message_object_puts_role_before_content() {
    assert_eq!(frame_message(Role::System, "\"s\""), "{\"role\":\"system\",\"content\":\"s\"}");
    assert_eq!(frame_message(Role::User, "\"u\""), "{\"role\":\"user\",\"content\":\"u\"}");
}

#[test]
fn body_frame_joins_objects_with_single_commas() {
    let none: Vec<String> = Vec::new();
    assert_eq!(frame_body("\"m\"", &none), "{\"model\":\"m\",\"messages\":[]}");
    let one = vec!["{}".to_string()];
    assert_eq!(frame_body("\"m\"", &one), "{\"model\":\"m\",\"messages\":[{}]}");
    let three = vec!["1".to_string(), "2".to_string(), "3".to_string()];
    assert_eq!(frame_body("\"m\"", &three), "{\"model\":\"m\",\"messages\":[1,2,3]}");
}

#[test]
fn render_body_follows_any_message_list() {
    let empty = ChatRequest { model: "other".to_string(), messages: Vec::new() };
    assert_eq!(render_body(&empty), "{\"model\":\"other\",\"messages\":[]}");
    let three = ChatRequest {
        model: "m\"1".to_string(),
        messages: vec![Message::user("a"), Message::system("b"), Message::user("c")],
    };
    assert_eq!(
        render_body(&three),
        "{\"model\":\"m\\\"1\",\"messages\":[{\"role\":\"user\",\"content\":\"a\"},{\"role\":\"system\",\"content\":\"b\"},{\"role\":\"user\",\"content\":\"c\"}]}"
    );
}

#[test]
fn endpoint_is_the_chat_completions_address() {
    assert_eq!(endpoint(), "https://api.openai.com/v1/chat/completions");
}

#[test]
fn authorization_is_bearer_space_key() {
    assert_eq!(authorization_value("mock_api_key"), "Bearer mock_api_key");
    assert_eq!(authorization_value(""), "Bearer ");
    assert_eq!(authorization_value("a b"), "Bearer a b");
}

#[test]
fn prepared_call_carries_address_headers_and_body() {
    let call = prepare_call("mock_api_key", "Analyze the following data:", "{\"key\": \"value\"}");
    assert_eq!(call.method, "POST");
    assert_eq!(call.url, "https://api.openai.com/v1/chat/completions");
    assert_eq!(call.headers.len(), 2);
    assert_eq!(call.headers[0].name, "Authorization");
    assert_eq!(call.headers[0].value, "Bearer mock_api_key");
    assert_eq!(call.headers[1].name, "Content-Type");
    assert_eq!(call.headers[1].value, "application/json");
    assert_eq!(
        call.body,
        render_body(&build_request("Analyze the following data:", "{\"key\": \"value\"}"))
    );
}

#[test]
fn decimal_text_has_no_leading_zeros() {
    assert_eq!(decimal_text(0), "0");
    assert_eq!(decimal_text(7), "7");
    assert_eq!(decimal_text(10), "10");
    assert_eq!(decimal_text(404), "404");
    assert_eq!(decimal_text(1000), "1000");
    assert_eq!(decimal_text(65535), "65535");
}

#[test]
fn decimal_text_agrees_with_the_standard_formatter() {
    let mut n: u16 = 0;
    loop {
        assert_eq!(decimal_text(n), format!("{}", n));
        if n == u16::MAX {
            break;
        }
        n += 1;
    }
}
