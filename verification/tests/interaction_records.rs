use agent::config::ProviderInteractionLogging;
use agent::contract::{CallRejection, CallRejectionReason, ChatRole, OutputMode};
use agent::interaction_log::{
    rejection_reason_name, ProviderDaemonOutcomeLog, ProviderInteractionLog, ProviderInteractionLogError,
    ProviderInteractionRecord, ProviderResponseLog, ProviderResultLog, ProviderValidationLog, ProviderValidationOutcome, ResponseBodyLog,
};
use agent::json::JsonValue;
use agent::provider::{ProviderApiKey, ProviderAuthorization, ProviderCall, ProviderCompletion, ProviderFailure, ProviderMessage};
use agent::redact::SecretRedactor;

fn text(value: &str) -> JsonValue {
    JsonValue::Text(value.to_owned())
}

fn call(key: Option<&str>) -> ProviderCall {
    let authorization = match key {
        Some(k) => ProviderAuthorization::bearer(ProviderApiKey::new(k.to_owned())),
        None => ProviderAuthorization::none(),
    };
    ProviderCall::new(
        "deepseek".to_owned(),
        "https://api.deepseek.com/v1?api_key=sk-live&region=eu".to_owned(),
        "deepseek-v4-flash".to_owned(),
        authorization,
        None,
        vec![ProviderMessage::new(ChatRole::User, "hello".to_owned())],
        OutputMode::FreeText,
        None,
        Some(64),
        None,
        None,
    )
}

fn completion(body: Option<&str>) -> ProviderCompletion {
    ProviderCompletion {
        text: "hi".to_owned(),
        stop_reason: "stop".to_owned(),
        prompt_tokens: Some(5),
        completion_tokens: Some(1),
        response_status: body.map(|_| 200),
        response_body: body.map(|b| b.to_owned()),
    }
}

fn member<'a>(value: &'a JsonValue, key: &str) -> Option<&'a JsonValue> {
    match value {
        JsonValue::Object(members) => members.iter().find(|(k, _)| k == key).map(|(_, v)| v),
        _ => None,
    }
}

#[test]
fn credential_keys() {
    assert!(SecretRedactor::credential_bearing_key("Authorization"));
    assert!(SecretRedactor::credential_bearing_key("X-API_KEY"));
    assert!(SecretRedactor::credential_bearing_key("apiKey"));
    assert!(SecretRedactor::credential_bearing_key("refresh_token"));
    assert!(SecretRedactor::credential_bearing_key("client_secret"));
    assert!(SecretRedactor::credential_bearing_key("Password"));
    assert!(SecretRedactor::credential_bearing_key("credentials"));
    assert!(SecretRedactor::credential_bearing_key("Bearer"));
    assert!(!SecretRedactor::credential_bearing_key("model"));
    assert!(!SecretRedactor::credential_bearing_key(""));
}

#[test]
fn metadata_redaction() {
    assert_eq!(SecretRedactor::metadata("deepseek"), "deepseek");
    assert_eq!(SecretRedactor::metadata("my-secret-provider"), "<redacted>");
}

#[test]
fn url_query_redaction() {
    assert_eq!(SecretRedactor::url("https://a.example/v1"), "https://a.example/v1");
    assert_eq!(
        SecretRedactor::url("https://a.example/v1?api_key=sk&region=eu&Token=t&flag"),
        "https://a.example/v1?api_key=<redacted>&region=eu&Token=<redacted>&flag"
    );
    assert_eq!(SecretRedactor::url("https://a.example/v1?"), "https://a.example/v1?");
    assert_eq!(SecretRedactor::url("https://a.example/v1?password"), "https://a.example/v1?password");
}

#[test]
fn json_redaction_reaches_nested_members() {
    let value = JsonValue::Object(vec![
        ("model".to_owned(), text("m")),
        ("api_key".to_owned(), JsonValue::Object(vec![("inner".to_owned(), text("sk"))])),
        (
            "items".to_owned(),
            JsonValue::Array(vec![JsonValue::Object(vec![
                ("access_token".to_owned(), JsonValue::Number("12".to_owned())),
                ("count".to_owned(), JsonValue::Number("3".to_owned())),
            ])]),
        ),
        ("flag".to_owned(), JsonValue::Bool(true)),
        ("nothing".to_owned(), JsonValue::Null),
    ]);
    let expected = JsonValue::Object(vec![
        ("model".to_owned(), text("m")),
        ("api_key".to_owned(), text("<redacted>")),
        (
            "items".to_owned(),
            JsonValue::Array(vec![JsonValue::Object(vec![
                ("access_token".to_owned(), text("<redacted>")),
                ("count".to_owned(), JsonValue::Number("3".to_owned())),
            ])]),
        ),
        ("flag".to_owned(), JsonValue::Bool(true)),
        ("nothing".to_owned(), JsonValue::Null),
    ]);
    let redacted = SecretRedactor::json_value(&value);
    assert_eq!(redacted, expected);
    assert_eq!(SecretRedactor::json_value(&redacted), expected);
}

#[test]
fn log_destinations() {
    assert!(ProviderInteractionLog::disabled().is_disabled());
    assert!(ProviderInteractionLog::default().is_disabled());
    let log = ProviderInteractionLog::json_lines_at("/var/log/agent/interactions.jsonl".to_owned());
    assert!(!log.is_disabled());
    assert_eq!(log.json_lines_path(), Some("/var/log/agent/interactions.jsonl"));
    assert_eq!(ProviderInteractionLog::disabled().json_lines_path(), None);
}

#[test]
fn log_from_configuration() {
    let database = "/var/lib/agent/agent.redb";
    assert_eq!(
        ProviderInteractionLog::from_configuration(database, &ProviderInteractionLogging::disabled()),
        Ok(ProviderInteractionLog::disabled())
    );
    assert_eq!(
        ProviderInteractionLog::from_configuration(
            database,
            &ProviderInteractionLogging::json_lines("/var/log/agent/interactions.jsonl".to_owned())
        ),
        Ok(ProviderInteractionLog::json_lines_at("/var/log/agent/interactions.jsonl".to_owned()))
    );
    let refused = ProviderInteractionLog::from_configuration(
        database,
        &ProviderInteractionLogging::json_lines(database.to_owned()),
    );
    assert_eq!(
        refused,
        Err(ProviderInteractionLogError::MainDatabasePath { path: database.to_owned() })
    );
    let also_refused = ProviderInteractionLog::from_configuration(
        database,
        &ProviderInteractionLogging::json_lines("/var/lib/agent//agent.redb".to_owned()),
    );
    assert!(also_refused.is_err());
}

#[test]
fn log_error_messages() {
    assert_eq!(
        ProviderInteractionLogError::MainDatabasePath { path: "/db".to_owned() }.message(),
        "provider interaction log path must not be the agent database path: /db"
    );
    assert_eq!(ProviderInteractionLogError::Io("x".to_owned()).message(), "provider interaction log io failed: x");
    assert_eq!(ProviderInteractionLogError::Encode("x".to_owned()).message(), "provider interaction log encode failed: x");
    assert_eq!(ProviderInteractionLogError::Join("x".to_owned()).message(), "provider interaction log writer task failed: x");
}

#[test]
fn validation_outcomes() {
    assert_eq!(ProviderValidationOutcome::not_required(), ProviderValidationOutcome::NotRequired);
    assert_eq!(ProviderValidationOutcome::valid_nota(), ProviderValidationOutcome::ValidNota);
    assert_eq!(
        ProviderValidationOutcome::invalid_nota("bad".to_owned()),
        ProviderValidationOutcome::InvalidNota { error: "bad".to_owned() }
    );
}

#[test]
fn completed_record_keeps_credentials_out() {
    let record = ProviderInteractionRecord::completed_at(
        1_700_000_000_000,
        &call(Some("sk-live")),
        &completion(Some("{\"id\":\"cmpl-1\",\"session_token\":\"abc\"}")),
        ProviderValidationOutcome::not_required(),
    );
    assert_eq!(record.timestamp_unix_millis, 1_700_000_000_000);
    assert_eq!(record.provider.provider, "deepseek");
    assert_eq!(record.provider.endpoint, "https://api.deepseek.com/v1?api_key=<redacted>&region=eu");
    assert_eq!(record.provider.authorization, "bearer");
    assert_eq!(
        record.request.url,
        "https://api.deepseek.com/v1?api_key=<redacted>&region=eu/chat/completions"
    );
    assert_eq!(record.request.headers, vec![("authorization".to_owned(), "<redacted>".to_owned())]);
    assert_eq!(member(&record.request.body, "max_tokens"), Some(&text("<redacted>")));
    assert_eq!(member(&record.request.body, "model"), Some(&text("deepseek-v4-flash")));
    let response = record.response.as_ref().expect("response part");
    assert_eq!(response.status, Some(200));
    match &response.body {
        Some(ResponseBodyLog::Json(json)) => {
            assert_eq!(member(json, "session_token"), Some(&text("<redacted>")));
            assert_eq!(member(json, "id"), Some(&text("cmpl-1")));
        }
        _ => panic!("expected a JSON body"),
    }
    assert!(matches!(record.provider_result, ProviderResultLog::Completed { .. }));
    assert!(matches!(record.validation, ProviderValidationLog::NotRequired));
    assert!(matches!(record.daemon_outcome, ProviderDaemonOutcomeLog::Completed));
}

#[test]
fn completed_record_without_response_details() {
    let record = ProviderInteractionRecord::completed(
        &call(None),
        &completion(None),
        ProviderValidationOutcome::valid_nota(),
    );
    assert!(record.response.is_none());
    assert!(record.request.headers.is_empty());
    assert_eq!(record.provider.authorization, "none");
    assert!(matches!(record.validation, ProviderValidationLog::ValidNota));
}

#[test]
fn rejected_record_names_the_failure() {
    let failure = ProviderFailure::ProviderRejected {
        detail: "status 401 Unauthorized".to_owned(),
        response_status: Some(401),
        response_body: Some("not json".to_owned()),
    };
    let rejection = CallRejection {
        reason: CallRejectionReason::ProviderRejected,
        detail: "status 401 Unauthorized".to_owned(),
    };
    let record = ProviderInteractionRecord::rejected_at(7, &call(Some("k")), &failure, &rejection);
    let response = record.response.as_ref().expect("response part");
    assert_eq!(response.status, Some(401));
    assert!(matches!(&response.body, Some(ResponseBodyLog::Text(t)) if t == "not json"));
    match &record.provider_result {
        ProviderResultLog::Failed { failure_kind, detail } => {
            assert_eq!(failure_kind, "provider_rejected");
            assert_eq!(detail, "status 401 Unauthorized");
        }
        _ => panic!("expected a failure"),
    }
    assert!(matches!(record.validation, ProviderValidationLog::NotReached));
    match &record.daemon_outcome {
        ProviderDaemonOutcomeLog::Rejected { reason, detail } => {
            assert_eq!(reason, "ProviderRejected");
            assert_eq!(detail, "status 401 Unauthorized");
        }
        _ => panic!("expected a rejection"),
    }
}

#[test]
fn unreachable_failure_has_no_response_part() {
    let rejection = CallRejection {
        reason: CallRejectionReason::ProviderUnreachable,
        detail: "bad token".to_owned(),
    };
    let record = ProviderInteractionRecord::rejected(
        &call(None),
        &ProviderFailure::Unreachable("bad token".to_owned()),
        &rejection,
    );
    assert!(record.response.is_none());
    match &record.provider_result {
        ProviderResultLog::Failed { failure_kind, detail } => {
            assert_eq!(failure_kind, "unreachable");
            assert_eq!(detail, "<redacted>");
        }
        _ => panic!("expected a failure"),
    }
    match &record.daemon_outcome {
        ProviderDaemonOutcomeLog::Rejected { reason, detail } => {
            assert_eq!(reason, "ProviderUnreachable");
            assert_eq!(detail, "<redacted>");
        }
        _ => panic!("expected a rejection"),
    }
}

#[test]
fn validation_rejected_record_carries_the_error() {
    let rejection = CallRejection {
        reason: CallRejectionReason::InvalidNotaOutput,
        detail: "expected exactly one".to_owned(),
    };
    let record = ProviderInteractionRecord::validation_rejected_at(
        9,
        &call(None),
        &completion(Some("plain")),
        "expected exactly one DOTOS root object, found 2",
        &rejection,
    );
    assert!(matches!(
        &record.validation,
        ProviderValidationLog::InvalidNota { error } if error == "expected exactly one DOTOS root object, found 2"
    ));
    let response = record.response.as_ref().expect("response part");
    assert!(matches!(&response.body, Some(ResponseBodyLog::Text(t)) if t == "plain"));
}

#[test]
fn rejection_reason_names() {
    assert_eq!(rejection_reason_name(CallRejectionReason::NoProviderConfigured), "NoProviderConfigured");
    assert_eq!(rejection_reason_name(CallRejectionReason::DaemonUnconfigured), "DaemonUnconfigured");
    assert_eq!(rejection_reason_name(CallRejectionReason::OutputModeUnsupported), "OutputModeUnsupported");
    assert_eq!(rejection_reason_name(CallRejectionReason::InvalidNotaOutput), "InvalidNotaOutput");
}

#[test]
fn records_do_not_depend_on_the_key() {
    let first = ProviderInteractionRecord::completed_at(
        1,
        &call(Some("sk-first")),
        &completion(None),
        ProviderValidationOutcome::not_required(),
    );
    let second = ProviderInteractionRecord::completed_at(
        1,
        &call(Some("sk-second")),
        &completion(None),
        ProviderValidationOutcome::not_required(),
    );
    assert_eq!(first.provider.authorization, second.provider.authorization);
    assert_eq!(first.request.url, second.request.url);
    assert_eq!(first.request.headers, second.request.headers);
    assert_eq!(first.request.body, second.request.body);
}

#[test]
fn logs_compare_by_path() {
    assert_eq!(
        ProviderInteractionLog::json_lines_at("/var/log/agent/interactions.jsonl".to_owned()),
        ProviderInteractionLog::json_lines_at("/var/log//agent/interactions.jsonl".to_owned())
    );
    assert_ne!(
        ProviderInteractionLog::json_lines_at("/var/log/agent/a.jsonl".to_owned()),
        ProviderInteractionLog::json_lines_at("/var/log/agent/b.jsonl".to_owned())
    );
    assert_ne!(
        ProviderInteractionLog::json_lines_at("/var/log/agent/a.jsonl".to_owned()),
        ProviderInteractionLog::disabled()
    );
    assert_eq!(ProviderInteractionLog::disabled(), ProviderInteractionLog::default());
}

#[test]
fn response_bodies_are_read_as_json_when_they_are_json() {
    let body = ProviderResponseLog::body_text("{\"usage\":{\"total_tokens\":12},\"choices\":[{\"x\":1.50}]}");
    let expected = JsonValue::Object(vec![
        (
            "choices".to_owned(),
            JsonValue::Array(vec![JsonValue::Object(vec![("x".to_owned(), JsonValue::Number("1.5".to_owned()))])]),
        ),
        ("usage".to_owned(), JsonValue::Object(vec![("total_tokens".to_owned(), text("<redacted>"))])),
    ]);
    assert!(matches!(body, ResponseBodyLog::Json(json) if json == expected));
    assert!(matches!(ProviderResponseLog::body_text("not json"), ResponseBodyLog::Text(t) if t == "not json"));
}
