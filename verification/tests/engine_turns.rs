use agent::config::{AgentDaemonConfiguration, ProviderSeed};
use agent::contract::{
    AgentInput, AgentOperation, AgentOutput, CallRejectionReason, ChatMessage, ChatRole, OutputMode, Prompt,
    PromptOptions, TokenUsage, UnimplementedReason,
};
use agent::engine::{AgentEngine, TurnStep, NOTA_OUTPUT_ATTEMPTS};
use agent::provider::{FixtureProvider, ProviderApiKey, ProviderCall, ProviderCompletion, ProviderFailure};
use agent::registry::{KeyResolutionError, ProviderEntry, ProviderRegistry, SecretSource};

const DEEPSEEK_PROVIDER: &str = "deepseek";
const DEEPSEEK_ENDPOINT: &str = "https://api.deepseek.com/v1";
const DEEPSEEK_MODEL: &str = "deepseek-v4-flash";
const DEEPSEEK_KEY_HANDLE: &str = "DEEPSEEK_API_KEY";

/// Counts the top-level parenthesised forms of a text; an unbalanced text is
/// a parse error.
fn count_roots(text: &str) -> Result<usize, String> {
    let mut depth: i64 = 0;
    let mut roots = 0;
    let mut in_token = false;
    for c in text.chars() {
        let starts_token = depth == 0 && !in_token && c != '(' && c != ')' && !c.is_whitespace();
        in_token = depth == 0 && c != '(' && c != ')' && !c.is_whitespace();
        if starts_token {
            roots += 1;
        }
        match c {
            '(' => {
                if depth == 0 {
                    roots += 1;
                }
                depth += 1;
            }
            ')' => {
                depth -= 1;
                if depth < 0 {
                    return Err("unbalanced closing bracket".to_owned());
                }
            }
            _ => {}
        }
    }
    if depth != 0 {
        return Err("unclosed bracket".to_owned());
    }
    Ok(roots)
}

/// Runs one request to its reply, answering every effect: the key is the
/// literal `test-key`, the provider answers with `answer(call)`.
fn drive(
    engine: &AgentEngine,
    input: AgentInput,
    answer: &dyn Fn(&ProviderCall) -> Result<ProviderCompletion, ProviderFailure>,
    calls: &mut Vec<ProviderCall>,
) -> AgentOutput {
    let mut step = engine.start(input);
    loop {
        step = match step {
            TurnStep::Reply(output) => return output,
            TurnStep::ResolveSecret(pending, _source) => pending.resume(Ok(ProviderApiKey::new("test-key".to_owned()))),
            TurnStep::CallProvider(pending, call) => {
                let result = answer(&call);
                calls.push(call);
                pending.resume(result)
            }
            TurnStep::CheckNota(pending, text) => {
                assert_eq!(pending.completion().text, text);
                assert!(pending.call().is_nota());
                pending.resume(count_roots(&text))
            }
        };
    }
}

fn fixture(call: &ProviderCall) -> Result<ProviderCompletion, ProviderFailure> {
    Ok(FixtureProvider::fixture_completion(call))
}

fn engine_with_deepseek() -> AgentEngine {
    let mut registry = ProviderRegistry::new();
    registry.configure(ProviderEntry::new(
        DEEPSEEK_PROVIDER.to_owned(),
        DEEPSEEK_ENDPOINT.to_owned(),
        DEEPSEEK_MODEL.to_owned(),
        SecretSource::environment(DEEPSEEK_KEY_HANDLE.to_owned()),
    ));
    AgentEngine::new(registry)
}

fn guardian_prompt(provider: Option<&str>, output_mode: OutputMode) -> Prompt {
    Prompt {
        system: Some("You judge intent.".to_owned()),
        chat_transcript: vec![ChatMessage {
            chat_role: ChatRole::User,
            user_text: "Reply exactly with this NOTA expression: (Verdict accepted)".to_owned(),
        }],
        options: PromptOptions {
            model: Some(DEEPSEEK_MODEL.to_owned()),
            provider: provider.map(|name| name.to_owned()),
            temperature_milli: Some(0),
            maximum_output_tokens: Some(64),
            output_mode,
            reasoning_effort: None,
            thinking_mode: None,
        },
    }
}

fn static_text(text: &'static str) -> impl Fn(&ProviderCall) -> Result<ProviderCompletion, ProviderFailure> {
    move |_call| Ok(ProviderCompletion::new(text.to_owned(), "stop".to_owned(), None, None))
}

#[test]
fn fixture_provider_completes_a_call_offline() {
    let engine = engine_with_deepseek();
    let mut calls = Vec::new();
    let output = drive(
        &engine,
        AgentInput::Call(guardian_prompt(Some(DEEPSEEK_PROVIDER), OutputMode::Nota)),
        &fixture,
        &mut calls,
    );
    match output {
        AgentOutput::Completed(completion) => {
            assert_eq!(completion.text, "(FixtureCompletion ok)");
            assert_eq!(completion.stop_reason, "stop");
            assert_eq!(completion.usage, TokenUsage { prompt_tokens: None, completion_tokens: None });
        }
        other => panic!("expected a completion, got {other:?}"),
    }
    assert_eq!(calls.len(), 1);
    assert_eq!(calls[0].api_key().map(|key| key.as_str()), Some("test-key"));
}

#[test]
fn call_with_no_configured_provider_is_rejected() {
    let engine = AgentEngine::new(ProviderRegistry::new());
    let mut calls = Vec::new();
    let output = drive(&engine, AgentInput::Call(guardian_prompt(None, OutputMode::Nota)), &fixture, &mut calls);
    match output {
        AgentOutput::CallRejected(rejection) => {
            assert_eq!(rejection.reason, CallRejectionReason::NoProviderConfigured);
            assert_eq!(rejection.detail, "no provider configured and prompt named none");
        }
        other => panic!("expected a rejection, got {other:?}"),
    }
    assert!(calls.is_empty());
}

#[test]
fn default_provider_is_used_when_prompt_names_none() {
    let engine = engine_with_deepseek();
    let mut calls = Vec::new();
    let output = drive(&engine, AgentInput::Call(guardian_prompt(None, OutputMode::Nota)), &fixture, &mut calls);
    assert!(matches!(output, AgentOutput::Completed(_)));
    assert_eq!(calls[0].provider_name(), DEEPSEEK_PROVIDER);
    assert_eq!(calls[0].endpoint(), DEEPSEEK_ENDPOINT);
}

#[test]
fn free_text_completion_echoes_last_user_turn() {
    let engine = engine_with_deepseek();
    let mut calls = Vec::new();
    let output = drive(&engine, AgentInput::Call(guardian_prompt(None, OutputMode::FreeText)), &fixture, &mut calls);
    match output {
        AgentOutput::Completed(completion) => assert_eq!(
            completion.text,
            "fixture completion for: Reply exactly with this NOTA expression: (Verdict accepted)"
        ),
        other => panic!("expected a completion, got {other:?}"),
    }
    assert_eq!(calls[0].system(), Some("You judge intent."));
}

#[test]
fn nota_call_carries_the_output_instruction() {
    let engine = engine_with_deepseek();
    let mut calls = Vec::new();
    drive(&engine, AgentInput::Call(guardian_prompt(None, OutputMode::Nota)), &fixture, &mut calls);
    let system = calls[0].system().expect("system message");
    assert!(system.starts_with("You judge intent.\n\nRespond with exactly one valid NOTA s-expression"));
}

#[test]
fn dotos_output_rejects_empty_document() {
    let engine = engine_with_deepseek();
    let mut calls = Vec::new();
    let output = drive(
        &engine,
        AgentInput::Call(guardian_prompt(Some(DEEPSEEK_PROVIDER), OutputMode::Nota)),
        &static_text(""),
        &mut calls,
    );
    match output {
        AgentOutput::CallRejected(rejection) => {
            assert_eq!(rejection.reason, CallRejectionReason::InvalidNotaOutput);
            assert!(
                rejection.detail.contains("expected exactly one"),
                "unexpected rejection detail: {:?}",
                rejection.detail
            );
        }
        other => panic!("expected InvalidNotaOutput rejection, got {other:?}"),
    }
    assert_eq!(calls.len(), NOTA_OUTPUT_ATTEMPTS);
}

#[test]
fn dotos_output_rejects_multiple_root_objects() {
    let engine = engine_with_deepseek();
    let mut calls = Vec::new();
    let output = drive(
        &engine,
        AgentInput::Call(guardian_prompt(Some(DEEPSEEK_PROVIDER), OutputMode::Nota)),
        &static_text("Accept Accept"),
        &mut calls,
    );
    match output {
        AgentOutput::CallRejected(rejection) => {
            assert_eq!(rejection.reason, CallRejectionReason::InvalidNotaOutput);
            assert_eq!(
                rejection.detail,
                "model did not produce valid DOTOS after 2 attempts: expected exactly one DOTOS root object, found 2"
            );
        }
        other => panic!("expected InvalidNotaOutput rejection, got {other:?}"),
    }
}

#[test]
fn invalid_nota_is_corrected_once() {
    let engine = engine_with_deepseek();
    let mut calls = Vec::new();
    let answer = |call: &ProviderCall| -> Result<ProviderCompletion, ProviderFailure> {
        let text = if call.messages().len() > 1 { "(Verdict accepted)" } else { "Accept Accept" };
        Ok(ProviderCompletion::new(text.to_owned(), "stop".to_owned(), Some(3), Some(4)))
    };
    let output = drive(&engine, AgentInput::Call(guardian_prompt(None, OutputMode::Nota)), &answer, &mut calls);
    match output {
        AgentOutput::Completed(completion) => {
            assert_eq!(completion.text, "(Verdict accepted)");
            assert_eq!(completion.usage, TokenUsage { prompt_tokens: Some(3), completion_tokens: Some(4) });
        }
        other => panic!("expected a completion, got {other:?}"),
    }
    assert_eq!(calls.len(), 2);
    let second = calls[1].messages();
    assert_eq!(second.len(), 3);
    assert_eq!(second[1].role(), ChatRole::Assistant);
    assert_eq!(second[1].content(), "Accept Accept");
    assert_eq!(second[2].role(), ChatRole::User);
    assert_eq!(
        second[2].content(),
        "That response was not valid NOTA (expected exactly one DOTOS root object, found 2). Reply with exactly one valid NOTA expression and nothing else."
    );
}

#[test]
fn provider_failures_become_rejections() {
    let engine = engine_with_deepseek();
    let cases = [
        (ProviderFailure::Unreachable("connection refused".to_owned()), CallRejectionReason::ProviderUnreachable, "connection refused"),
        (
            ProviderFailure::ProviderRejected {
                detail: "status 429 Too Many Requests: slow down".to_owned(),
                response_status: Some(429),
                response_body: Some("slow down".to_owned()),
            },
            CallRejectionReason::ProviderRejected,
            "status 429 Too Many Requests: slow down",
        ),
        (
            ProviderFailure::OutputModeUnsupported,
            CallRejectionReason::OutputModeUnsupported,
            "provider does not support the requested output mode",
        ),
    ];
    for (failure, reason, detail) in cases {
        let step = match engine.start(AgentInput::Call(guardian_prompt(None, OutputMode::FreeText))) {
            TurnStep::ResolveSecret(pending, _) => pending.resume(Ok(ProviderApiKey::new("test-key".to_owned()))),
            other => other,
        };
        let output = match step {
            TurnStep::CallProvider(pending, _) => match pending.resume(Err(failure)) {
                TurnStep::Reply(output) => output,
                _ => panic!("expected a reply"),
            },
            _ => panic!("expected a provider call"),
        };
        match output {
            AgentOutput::CallRejected(rejection) => {
                assert_eq!(rejection.reason, reason);
                assert_eq!(rejection.detail, detail);
            }
            other => panic!("expected a rejection, got {other:?}"),
        }
    }
}

#[test]
fn unavailable_secret_rejects_the_call() {
    let engine = engine_with_deepseek();
    let output = match engine.start(AgentInput::Call(guardian_prompt(None, OutputMode::Nota))) {
        TurnStep::ResolveSecret(pending, source) => {
            assert_eq!(source, SecretSource::environment(DEEPSEEK_KEY_HANDLE.to_owned()));
            match pending.resume(Err(KeyResolutionError::EnvironmentUnset(DEEPSEEK_KEY_HANDLE.to_owned()))) {
                TurnStep::Reply(output) => output,
                _ => panic!("expected a reply"),
            }
        }
        _ => panic!("expected a secret request"),
    };
    match output {
        AgentOutput::CallRejected(rejection) => {
            assert_eq!(rejection.reason, CallRejectionReason::DaemonUnconfigured);
            assert_eq!(rejection.detail, "secret unavailable: environment variable is unset: DEEPSEEK_API_KEY");
        }
        other => panic!("expected a rejection, got {other:?}"),
    }
}

#[test]
fn unknown_provider_is_rejected() {
    let engine = engine_with_deepseek();
    let mut calls = Vec::new();
    let output = drive(&engine, AgentInput::Call(guardian_prompt(Some("kimi"), OutputMode::Nota)), &fixture, &mut calls);
    match output {
        AgentOutput::CallRejected(rejection) => {
            assert_eq!(rejection.reason, CallRejectionReason::NoProviderConfigured);
            assert_eq!(rejection.detail, "provider not in registry: kimi");
        }
        other => panic!("expected a rejection, got {other:?}"),
    }
}

#[test]
fn streaming_requests_are_unimplemented() {
    let engine = engine_with_deepseek();
    let mut calls = Vec::new();
    assert_eq!(
        drive(&engine, AgentInput::StreamCall, &fixture, &mut calls),
        AgentOutput::RequestUnimplemented(AgentOperation::StreamCall, UnimplementedReason::NotYetImplemented)
    );
    assert_eq!(
        drive(&engine, AgentInput::CancelStream, &fixture, &mut calls),
        AgentOutput::RequestUnimplemented(AgentOperation::CancelStream, UnimplementedReason::NotYetImplemented)
    );
    assert!(calls.is_empty());
}

#[test]
fn engine_starts_from_configuration_seeds() {
    let configuration = AgentDaemonConfiguration::new(
        "/run/agent.sock".to_owned(),
        "/run/agent-meta.sock".to_owned(),
        0o600,
        "/var/lib/agent/agent.redb".to_owned(),
        vec![
            ProviderSeed::new(
                "mimo".to_owned(),
                "https://api.mimo.example/v1".to_owned(),
                "mimo-7b".to_owned(),
                SecretSource::no_secret(),
            ),
            ProviderSeed::new(
                "deepseek".to_owned(),
                DEEPSEEK_ENDPOINT.to_owned(),
                DEEPSEEK_MODEL.to_owned(),
                SecretSource::environment(DEEPSEEK_KEY_HANDLE.to_owned()),
            ),
        ],
    );
    let engine = AgentEngine::from_configuration(&configuration);
    assert_eq!(engine.registry().default_provider(), Some("mimo"));
    let mut calls = Vec::new();
    let output = drive(&engine, AgentInput::Call(guardian_prompt(Some("deepseek"), OutputMode::Nota)), &fixture, &mut calls);
    assert!(matches!(output, AgentOutput::Completed(_)));
    assert_eq!(calls[0].endpoint(), DEEPSEEK_ENDPOINT);
}

#[test]
fn engine_registry_changes() {
    let mut engine = engine_with_deepseek();
    engine.configure_provider(ProviderEntry::new(
        "mimo".to_owned(),
        "https://api.mimo.example/v1".to_owned(),
        "mimo-7b".to_owned(),
        SecretSource::no_secret(),
    ));
    assert!(engine.set_default_provider("mimo"));
    assert_eq!(engine.registry().default_provider(), Some("mimo"));
    assert!(engine.retire_provider("mimo"));
    assert_eq!(engine.registry().default_provider(), None);
    assert!(!engine.retire_provider("mimo"));
}
