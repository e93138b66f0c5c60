use gemini_rs::client::{accept_response, is_success, status_error};
use gemini_rs::text::{json_payload, trim};
use gemini_rs::types::{Candidate, InlineData, SafetySetting};
use gemini_rs::{
    Client, Content, Error, GenerateContentResponse, GenerationConfig, Model, Part,
    SafetySettings,
};

fn reply(text: &str) -> GenerateContentResponse {
    GenerateContentResponse {
        candidates: Some(vec![Candidate {
            content: Some(Content::model(text)),
            finish_reason: Some("STOP".to_string()),
            safety_ratings: None,
        }]),
        prompt_feedback: None,
    }
}

fn first_text(content: &Content) -> String {
    match &content.parts[0] {
        Part::Text { text } => text.clone(),
        Part::InlineData { .. } => String::new(),
    }
}

#[test]
fn model_identifiers_round_trip() {
    let all = [
        Model::Gemini25Flash,
        Model::Gemini20Flash,
        Model::Gemini15Pro,
        Model::Gemini15Flash,
        Model::Gemini15Flash8B,
        Model::Gemini10Pro,
    ];
    for m in all {
        assert_eq!(Model::from(m.as_str()), m);
    }
    assert_eq!(Model::from("gemini-1.5-flash-8b"), Model::Gemini15Flash8B);
    assert_eq!(Model::from("gemini-1.0-pro"), Model::Gemini10Pro);
    assert_eq!(Model::from(""), Model::Gemini25Flash);
    assert_eq!(Model::from("GEMINI-1.5-PRO"), Model::Gemini25Flash);
    assert_eq!(Model::default(), Model::Gemini25Flash);
}

#[test]
fn fenced_reply_parses_like_bare_payload() {
    let bare = "{\"message\": \"Hello from Gemini\"}";
    let tagged = format!("```json\n{}\n```", bare);
    let untagged = format!("```\n{}\n```", bare);
    assert_eq!(json_payload(&tagged), bare);
    assert_eq!(json_payload(&untagged), bare);
    assert_eq!(json_payload(bare), bare);
    let a: serde_json::Value = serde_json::from_str(&json_payload(&tagged)).unwrap();
    let b: serde_json::Value = serde_json::from_str(&json_payload(bare)).unwrap();
    assert_eq!(a, b);
    assert_eq!(a["message"], "Hello from Gemini");
}

#[test]
fn fence_stripping_edge_cases() {
    assert_eq!(json_payload("  \n```json{\"a\":1}```\n "), "{\"a\":1}");
    assert_eq!(json_payload("``````[1, 2]``````"), "[1, 2]");
    assert_eq!(json_payload("``````json [1] "), "json [1]");
    assert_eq!(json_payload(""), "");
    assert_eq!(json_payload("   "), "");
    assert_eq!(trim("\u{3000}\t x y \u{2028}"), "x y");
}

#[test]
fn chat_history_grows_by_two_per_answered_message() {
    let client = Client::new("key").unwrap();
    let mut chat = client.model(Model::Gemini25Flash).start_chat();
    assert!(chat.history().is_empty());
    for (i, msg) in ["one", "two", "three"].iter().enumerate() {
        let turns = chat.begin_message(msg);
        assert_eq!(turns.len(), 2 * i + 1);
        let r = chat.finish_message(accept_response(reply("ok")));
        assert!(r.is_ok());
    }
    assert_eq!(chat.history().len(), 6);
    assert_eq!(chat.history()[4].role, Some("user".to_string()));
    assert_eq!(first_text(&chat.history()[4]), "three");
    assert_eq!(chat.history()[5].role, Some("model".to_string()));
}

#[test]
fn failed_message_keeps_user_turn() {
    let client = Client::new("key").unwrap();
    let mut chat = client.model(Model::Gemini25Flash).start_chat();
    chat.begin_message("hello");
    let r = chat.finish_message(Err(Error::NoResponse));
    assert!(matches!(r, Err(Error::NoResponse)));
    assert_eq!(chat.history().len(), 1);
    let turns = chat.begin_message("hello");
    assert_eq!(turns.len(), 2);
}

#[test]
fn cleared_chat_sends_only_the_new_turn() {
    let client = Client::new("key").unwrap();
    let mut chat = client.model(Model::Gemini25Flash).start_chat();
    chat.begin_message("first");
    chat.finish_message(accept_response(reply("answer"))).unwrap();
    assert_eq!(chat.history().len(), 2);
    chat.clear_history();
    assert!(chat.history().is_empty());
    let turns = chat.begin_message("second");
    assert_eq!(turns.len(), 1);
    assert_eq!(turns[0].role, Some("user".to_string()));
    assert_eq!(first_text(&turns[0]), "second");
}

#[test]
fn new_config_has_no_fields_set() {
    let c = GenerationConfig::new();
    assert_eq!(c.temperature, None);
    assert_eq!(c.top_p, None);
    assert_eq!(c.top_k, None);
    assert_eq!(c.max_output_tokens, None);
    assert!(c.stop_sequences.is_none());
    assert_eq!(c.response_mime_type, None);
    let d = GenerationConfig::default();
    assert!(d.temperature.is_none() && d.response_mime_type.is_none());
}

#[test]
fn success_without_candidates_is_no_response() {
    let absent = GenerateContentResponse { candidates: None, prompt_feedback: None };
    assert!(matches!(accept_response(absent), Err(Error::NoResponse)));
    let empty = GenerateContentResponse { candidates: Some(vec![]), prompt_feedback: None };
    assert!(matches!(accept_response(empty), Err(Error::NoResponse)));
    assert!(accept_response(reply("x")).is_ok());
}

#[test]
fn generate_hello_scenario() {
    let client = Client::new("test-key").unwrap();
    let model = client.model(Model::Gemini25Flash);
    let request = model.request(vec![Content::text("Say 'Hello' and nothing else")]);
    assert_eq!(request.contents.len(), 1);
    assert_eq!(request.contents[0].role, None);
    assert!(request.generation_config.is_none());
    assert!(request.safety_settings.is_none());
    assert!(request.system_instruction.is_none());
    let response = accept_response(reply("Hello")).unwrap();
    assert_eq!(response.text(), "Hello");
}

#[test]
fn derived_configurations_stay_independent() {
    let base = GenerationConfig::new().max_tokens(100);
    let cool = base.clone().temperature(0.3f32.to_bits());
    let warm = base.clone().temperature(1.5f32.to_bits());
    assert_eq!(cool.temperature.map(f32::from_bits), Some(0.3));
    assert_eq!(warm.temperature.map(f32::from_bits), Some(1.5));
    assert_eq!(base.temperature, None);

    let client = Client::new("key").unwrap();
    let root = client.model(Model::Gemini15Pro);
    let a = root.clone().with_config(cool);
    let b = root.clone().with_config(warm);
    let ra = a.request(vec![]);
    let rb = b.request(vec![]);
    assert_eq!(ra.generation_config.unwrap().temperature.map(f32::from_bits), Some(0.3));
    assert_eq!(rb.generation_config.unwrap().temperature.map(f32::from_bits), Some(1.5));
    assert!(root.request(vec![]).generation_config.is_none());
}

#[test]
fn endpoint_carries_model_and_key() {
    let client = Client::new("abc123").unwrap();
    let model = client.model(Model::Gemini15Flash8B);
    assert_eq!(
        model.endpoint(),
        "https://generativelanguage.googleapis.com/v1beta/models/gemini-1.5-flash-8b:generateContent?key=abc123"
    );
}

#[test]
fn json_mode_overrides_mime_type_and_keeps_the_rest() {
    let client = Client::new("key").unwrap();
    let mut config = GenerationConfig::new().top_k(5);
    config.response_mime_type = Some("text/plain".to_string());
    let model = client.model(Model::Gemini25Flash).with_config(config);
    let json = model.with_json_mode();
    let c = json.request(vec![]).generation_config.unwrap();
    assert_eq!(c.response_mime_type, Some("application/json".to_string()));
    assert_eq!(c.top_k, Some(5));
    let unchanged = model.request(vec![]).generation_config.unwrap();
    assert_eq!(unchanged.response_mime_type, Some("text/plain".to_string()));
    let bare = client.model(Model::Gemini25Flash).with_json_mode();
    let c = bare.request(vec![]).generation_config.unwrap();
    assert_eq!(c.response_mime_type, Some("application/json".to_string()));
    assert_eq!(c.temperature, None);
}

#[test]
fn system_instruction_and_safety_reach_the_request() {
    let client = Client::new("key").unwrap();
    let model = client
        .model(Model::Gemini25Flash)
        .with_system_instruction("Be concise.")
        .with_safety(SafetySettings::block_none());
    let r = model.request(vec![Content::user("hi")]);
    let si = r.system_instruction.unwrap();
    assert_eq!(si.role, None);
    assert_eq!(first_text(&si), "Be concise.");
    let s: Vec<SafetySetting> = r.safety_settings.unwrap();
    assert_eq!(s.len(), 4);
}

#[test]
fn block_none_lists_four_categories() {
    let s = SafetySettings::block_none();
    let cats: Vec<&str> = s.iter().map(|x| x.category.as_str()).collect();
    assert_eq!(
        cats,
        vec![
            "HARM_CATEGORY_HARASSMENT",
            "HARM_CATEGORY_HATE_SPEECH",
            "HARM_CATEGORY_SEXUALLY_EXPLICIT",
            "HARM_CATEGORY_DANGEROUS_CONTENT"
        ]
    );
    assert!(s.iter().all(|x| x.threshold == "BLOCK_NONE"));
}

#[test]
fn status_errors_carry_code_and_body() {
    match status_error(404, Some("not here".to_string())) {
        Error::ApiError { message, code } => {
            assert_eq!(message, "HTTP 404 Not Found: not here");
            assert_eq!(code, Some(404));
        }
        _ => panic!("expected an API error"),
    }
    match status_error(429, None) {
        Error::ApiError { message, code } => {
            assert_eq!(message, "HTTP 429 Too Many Requests: ");
            assert_eq!(code, Some(429));
        }
        _ => panic!("expected an API error"),
    }
    match status_error(599, Some("x".to_string())) {
        Error::ApiError { message, .. } => {
            assert_eq!(message, "HTTP 599 <unknown status code>: x");
        }
        _ => panic!("expected an API error"),
    }
}

#[test]
fn success_range_is_two_hundreds() {
    assert!(!is_success(199));
    assert!(is_success(200));
    assert!(is_success(299));
    assert!(!is_success(300));
    assert!(!is_success(500));
}

#[test]
fn content_constructors_and_response_text() {
    assert_eq!(Content::text("a").role, None);
    assert_eq!(Content::user("a").role, Some("user".to_string()));
    assert_eq!(Content::model("a").role, Some("model".to_string()));
    let inline = GenerateContentResponse {
        candidates: Some(vec![Candidate {
            content: Some(Content {
                parts: vec![
                    Part::InlineData {
                        inline_data: InlineData {
                            mime_type: "image/png".to_string(),
                            data: "AAAA".to_string(),
                        },
                    },
                    Part::Text { text: "later".to_string() },
                ],
                role: Some("model".to_string()),
            }),
            finish_reason: None,
            safety_ratings: None,
        }]),
        prompt_feedback: None,
    };
    assert_eq!(inline.text(), "");
    let no_content = GenerateContentResponse {
        candidates: Some(vec![Candidate { content: None, finish_reason: None, safety_ratings: None }]),
        prompt_feedback: None,
    };
    assert_eq!(no_content.text(), "");
    assert_eq!(reply("first").text(), "first");
}

#[test]
fn reply_without_role_is_recorded_as_model_turn() {
    let client = Client::new("key").unwrap();
    let mut chat = client.model(Model::Gemini25Flash).start_chat();
    chat.begin_message("hi");
    let bare = GenerateContentResponse {
        candidates: Some(vec![Candidate {
            content: Some(Content::text("hello there")),
            finish_reason: None,
            safety_ratings: None,
        }]),
        prompt_feedback: None,
    };
    chat.finish_message(accept_response(bare)).unwrap();
    assert_eq!(chat.history().len(), 2);
    assert_eq!(chat.history()[1].role, Some("model".to_string()));
    assert_eq!(first_text(&chat.history()[1]), "hello there");
    assert!(chat.history().iter().all(|t| t.role.is_some()));
}

#[test]
fn fenced_reply_with_surrounding_whitespace() {
    assert_eq!(json_payload("\n\t ```json\n[1, 2]\n```  \n"), "[1, 2]");
    assert_eq!(json_payload("  ```\n{}\n```"), "{}");
}

#[test]
fn fenced_reply_with_other_language_tags() {
    assert_eq!(json_payload("```JSON\n{\"a\": 1}\n```"), "{\"a\": 1}");
    assert_eq!(json_payload("```jsonc\n[true]\n```"), "[true]");
    assert_eq!(json_payload("```javascript\r\n{}\r\n```"), "{}");
    assert_eq!(json_payload("```123```"), "123");
    assert_eq!(json_payload("```json{\"a\":1}```"), "{\"a\":1}");
    assert_eq!(json_payload("true\nfalse"), "true\nfalse");
}
