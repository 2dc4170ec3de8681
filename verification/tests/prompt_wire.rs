use artificial_app::encode::{encode_request_json, endpoint_url};
use artificial_app::prompt::build_prompt;
use artificial_app::transcript::{Role, Turn};

fn turn(role: Role, text: &str) -> Turn {
    Turn { role, text: text.to_string() }
}

#[test]
fn prompt_holds_fixed_parameters_and_exact_history() {
    let snapshot = vec![turn(Role::User, "hello"), turn(Role::Model, "<p>page</p>")];
    let req = build_prompt("be a browser", snapshot);
    assert_eq!(req.system_instructions, "be a browser");
    assert_eq!(req.history.len(), 2);
    assert_eq!(req.history[0].text, "hello");
    assert_eq!(req.history[1].text, "<p>page</p>");
    assert_eq!(req.safety_settings.len(), 1);
    assert_eq!(req.safety_settings[0].category, "HARM_CATEGORY_DANGEROUS_CONTENT");
    assert_eq!(req.safety_settings[0].threshold, "BLOCK_ONLY_HIGH");
    assert_eq!(req.generation_config.stop_sequences, vec!["Title".to_string()]);
    assert_eq!(req.generation_config.temperature_tenths, 10);
    assert_eq!(req.generation_config.max_output_tokens, 800);
    assert_eq!(req.generation_config.top_p_tenths, 8);
    assert_eq!(req.generation_config.top_k, 10);
}

#[test]
fn prompt_builder_is_referentially_transparent() {
    let snap1 = vec![turn(Role::User, "a"), turn(Role::Model, "b")];
    let snap2 = vec![turn(Role::User, "a"), turn(Role::Model, "b")];
    let r1 = build_prompt("sys", snap1);
    let r2 = build_prompt("sys", snap2);
    assert_eq!(encode_request_json(&r1), encode_request_json(&r2));
}

#[test]
fn encoded_request_is_exactly_the_wire_object() {
    let req = build_prompt("sys", vec![turn(Role::User, "click")]);
    let expected = "{\"systemInstruction\":{\"parts\":[{\"text\":\"sys\"}]},\
\"contents\":[{\"parts\":[{\"text\":\"click\"}],\"role\":\"user\"}],\
\"safetySettings\":[{\"category\":\"HARM_CATEGORY_DANGEROUS_CONTENT\",\
\"threshold\":\"BLOCK_ONLY_HIGH\"}],\
\"generationConfig\":{\"stopSequences\":[\"Title\"],\"temperature\":1.0,\
\"maxOutputTokens\":800,\"topP\":0.8,\"topK\":10}}";
    assert_eq!(encode_request_json(&req), expected);
}

#[test]
fn encoded_request_parses_as_json_with_escaping() {
    let tricky = "a \"quoted\" line\nwith \\ backslash\tand tab";
    let req = build_prompt("sys \"x\"", vec![turn(Role::Model, tricky)]);
    let body = encode_request_json(&req);
    let value: serde_json::Value = serde_json::from_str(&body).expect("wire body must be JSON");
    assert_eq!(value["systemInstruction"]["parts"][0]["text"], "sys \"x\"");
    assert_eq!(value["contents"][0]["parts"][0]["text"], tricky);
    assert_eq!(value["contents"][0]["role"], "model");
    assert_eq!(value["generationConfig"]["temperature"], 1.0);
    assert_eq!(value["generationConfig"]["topP"], 0.8);
    assert_eq!(value["generationConfig"]["topK"], 10);
    assert_eq!(value["generationConfig"]["maxOutputTokens"], 800);
    assert_eq!(value["generationConfig"]["stopSequences"][0], "Title");
    assert_eq!(value["safetySettings"][0]["category"], "HARM_CATEGORY_DANGEROUS_CONTENT");
    assert_eq!(value["safetySettings"][0]["threshold"], "BLOCK_ONLY_HIGH");
}

#[test]
fn control_characters_are_hex_escaped() {
    let req = build_prompt("s", vec![turn(Role::User, "a\u{1}b")]);
    let body = encode_request_json(&req);
    assert!(body.contains("a\\u0001b"));
    let value: serde_json::Value = serde_json::from_str(&body).expect("wire body must be JSON");
    assert_eq!(value["contents"][0]["parts"][0]["text"], "a\u{1}b");
}

#[test]
fn empty_history_encodes_an_empty_contents_array() {
    let req = build_prompt("s", vec![]);
    let body = encode_request_json(&req);
    assert!(body.contains("\"contents\":[]"));
    let value: serde_json::Value = serde_json::from_str(&body).expect("wire body must be JSON");
    assert_eq!(value["contents"].as_array().map(|a| a.len()), Some(0));
}

#[test]
fn endpoint_url_appends_only_the_key() {
    let url = endpoint_url("SECRET-REDACTED");
    assert_eq!(
        url,
        "https://generativelanguage.googleapis.com/v1beta/models/\
gemini-2.0-flash:generateContent?key=SECRET-REDACTED"
    );
}
