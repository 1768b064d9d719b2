use agent::contract::{ChatRole, OutputMode, ReasoningEffort, ThinkingMode};
use agent::json::JsonValue;
use agent::provider::{
    response_outcome, ChatCompletionChoice, ChatCompletionRequest, ChatCompletionResponse, ChatCompletionUsage,
    FixtureProvider, ProviderApiKey, ProviderAuthorization, ProviderCall, ProviderCompletion, ProviderFailure,
    ProviderMessage, NOTA_OUTPUT_INSTRUCTION,
};

fn call(model: &str, output_mode: OutputMode, key: Option<&str>) -> ProviderCall {
    let authorization = match key {
        Some(k) => ProviderAuthorization::bearer(ProviderApiKey::new(k.to_owned())),
        None => ProviderAuthorization::none(),
    };
    ProviderCall::new(
        "mimo".to_owned(),
        "https://api.mimo.example/v1/".to_owned(),
        model.to_owned(),
        authorization,
        Some("You classify one record.".to_owned()),
        vec![
            ProviderMessage::new(ChatRole::User, "first".to_owned()),
            ProviderMessage::new(ChatRole::Assistant, "reply".to_owned()),
            ProviderMessage::new(ChatRole::User, "Return (Verdict accepted)".to_owned()),
        ],
        output_mode,
        Some(700),
        Some(64),
        Some(ReasoningEffort::High),
        Some(ThinkingMode::Enabled),
    )
}

fn member<'a>(value: &'a JsonValue, key: &str) -> Option<&'a JsonValue> {
    match value {
        JsonValue::Object(members) => members.iter().find(|(k, _)| k == key).map(|(_, v)| v),
        _ => None,
    }
}

fn text(value: &str) -> JsonValue {
    JsonValue::Text(value.to_owned())
}

#[test]
fn api_key_trims_secret_output() {
    let key = ProviderApiKey::from_secret_output("sk-test\r\n\n".to_owned());
    assert_eq!(key.as_str(), "sk-test");
    assert!(!key.is_empty());
    assert!(ProviderApiKey::from_secret_output("\n".to_owned()).is_empty());
    assert_eq!(ProviderApiKey::new("raw\n".to_owned()).as_str(), "raw\n");
}

#[test]
fn authorization_labels_and_tokens() {
    let bearer = ProviderAuthorization::bearer(ProviderApiKey::new("k".to_owned()));
    assert_eq!(bearer.log_label(), "bearer");
    assert_eq!(bearer.bearer_token().map(|key| key.as_str()), Some("k"));
    let none = ProviderAuthorization::none();
    assert_eq!(none.log_label(), "none");
    assert!(none.bearer_token().is_none());
}

#[test]
fn call_accessors() {
    let c = call("mimo-7b", OutputMode::Nota, Some("k"));
    assert_eq!(c.chat_completions_url(), "https://api.mimo.example/v1/chat/completions");
    assert!(c.is_nota());
    assert_eq!(c.temperature_milli(), Some(700));
    assert_eq!(c.maximum_output_tokens(), Some(64));
    assert_eq!(c.reasoning_effort(), Some("high"));
    assert_eq!(c.thinking_directive(), Some("enabled"));
    assert_eq!(c.messages()[1].role_name(), "assistant");
    assert_eq!(c.output_mode(), OutputMode::Nota);
}

#[test]
fn nota_instruction_is_appended_to_the_system_message() {
    let c = call("mimo-7b", OutputMode::Nota, None).with_nota_instruction();
    assert_eq!(c.system(), Some(format!("You classify one record.\n\n{NOTA_OUTPUT_INSTRUCTION}").as_str()));
}

#[test]
fn fixture_answers_by_output_mode() {
    let nota = FixtureProvider::fixture_completion(&call("mimo-7b", OutputMode::Nota, None));
    assert_eq!(nota.text, "(FixtureCompletion ok)");
    assert_eq!(nota.stop_reason, "stop");
    let free = FixtureProvider::fixture_completion(&call("mimo-7b", OutputMode::FreeText, None));
    assert_eq!(free.text, "fixture completion for: Return (Verdict accepted)");
}

#[test]
fn request_body_puts_system_message_first() {
    let request = ChatCompletionRequest::from_call(&call("mimo-7b", OutputMode::FreeText, None));
    let roles: Vec<&str> = request.messages.iter().map(|m| m.role.as_str()).collect();
    assert_eq!(roles, vec!["system", "user", "assistant", "user"]);
    assert_eq!(request.messages[0].content, "You classify one record.");
    assert_eq!(request.model, "mimo-7b");
    assert_eq!(request.temperature_milli, Some(700));
    assert_eq!(request.max_tokens, Some(64));
    assert_eq!(request.reasoning_effort.as_deref(), Some("high"));
    assert_eq!(request.thinking.as_deref(), Some("enabled"));
}

#[test]
fn openai_compatible_provider_keeps_temperature_for_standard_models() {
    let request = ChatCompletionRequest::from_call(&call("mimo-7b", OutputMode::FreeText, None));
    let body = request.to_json();
    assert_eq!(member(&body, "model"), Some(&text("mimo-7b")));
    assert_eq!(member(&body, "temperature"), Some(&JsonValue::Number("0.7".to_owned())));
}

#[test]
fn gpt5_models_omit_temperature() {
    let request = ChatCompletionRequest::from_call(&call("gpt-5.4-mini", OutputMode::FreeText, None));
    assert_eq!(request.temperature_milli, None);
    let body = request.to_json();
    assert_eq!(member(&body, "temperature"), None);
    assert_eq!(member(&body, "tools"), None);
    assert_eq!(member(&body, "tool_choice"), None);
    let messages = member(&body, "messages").expect("messages");
    match messages {
        JsonValue::Array(items) => {
            assert_eq!(member(&items[0], "role"), Some(&text("system")));
            assert_eq!(member(&items[1], "role"), Some(&text("user")));
        }
        other => panic!("messages is not an array: {other:?}"),
    }
}

#[test]
fn request_json_numbers_and_directives() {
    let body = ChatCompletionRequest::from_call(&call("mimo-7b", OutputMode::FreeText, None)).to_json();
    assert_eq!(member(&body, "max_tokens"), Some(&JsonValue::Number("64".to_owned())));
    assert_eq!(member(&body, "reasoning_effort"), Some(&text("high")));
    assert_eq!(
        member(&body, "thinking"),
        Some(&JsonValue::Object(vec![("type".to_owned(), text("enabled"))]))
    );
}

fn response(choices: Vec<ChatCompletionChoice>, usage: Option<ChatCompletionUsage>) -> ChatCompletionResponse {
    ChatCompletionResponse { choices, usage }
}

#[test]
fn response_takes_the_first_choice() {
    let r = response(
        vec![
            ChatCompletionChoice { content: "(Verdict accepted)".to_owned(), finish_reason: None },
            ChatCompletionChoice { content: "other".to_owned(), finish_reason: Some("length".to_owned()) },
        ],
        Some(ChatCompletionUsage { prompt_tokens: Some(1), completion_tokens: Some(1) }),
    );
    match r.into_provider_completion() {
        Ok(c) => {
            assert_eq!(c.text, "(Verdict accepted)");
            assert_eq!(c.stop_reason, "stop");
            assert_eq!(c.prompt_tokens, Some(1));
            assert_eq!(c.completion_tokens, Some(1));
        }
        Err(e) => panic!("unexpected failure {e:?}"),
    }
}

#[test]
fn response_without_choices_is_rejected() {
    assert_eq!(
        response(vec![], None).into_provider_completion(),
        Err(ProviderFailure::ProviderRejected {
            detail: "response carried no choices".to_owned(),
            response_status: None,
            response_body: None,
        })
    );
}

#[test]
fn http_outcomes() {
    let body = "{\"choices\":[]}".to_owned();
    assert_eq!(
        response_outcome(404, "404 Not Found", "missing".to_owned(), Err("ignored".to_owned())),
        Err(ProviderFailure::ProviderRejected {
            detail: "status 404 Not Found: missing".to_owned(),
            response_status: Some(404),
            response_body: Some("missing".to_owned()),
        })
    );
    assert_eq!(
        response_outcome(200, "200 OK", "garbage".to_owned(), Err("expected value".to_owned())),
        Err(ProviderFailure::ProviderRejected {
            detail: "expected value".to_owned(),
            response_status: Some(200),
            response_body: Some("garbage".to_owned()),
        })
    );
    assert_eq!(
        response_outcome(200, "200 OK", body.clone(), Ok(response(vec![], None))),
        Err(ProviderFailure::ProviderRejected {
            detail: "response carried no choices".to_owned(),
            response_status: Some(200),
            response_body: Some(body),
        })
    );
    let ok = response_outcome(
        200,
        "200 OK",
        "b".to_owned(),
        Ok(response(vec![ChatCompletionChoice { content: "hi".to_owned(), finish_reason: Some("stop".to_owned()) }], None)),
    );
    let expected = ProviderCompletion {
        text: "hi".to_owned(),
        stop_reason: "stop".to_owned(),
        prompt_tokens: None,
        completion_tokens: None,
        response_status: Some(200),
        response_body: Some("b".to_owned()),
    };
    assert_eq!(ok, Ok(expected));
}
