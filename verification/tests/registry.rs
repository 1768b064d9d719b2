use agent::contract::{ChatMessage, ChatRole, OutputMode, Prompt, PromptOptions};
use agent::provider::{ProviderApiKey, ProviderAuthorization};
use agent::registry::{
    KeyResolutionError, KeySource, ProviderEntry, ProviderRegistry, ResolveError, SecretSource,
    SystemKeySource,
};

const DEEPSEEK_MODEL: &str = "deepseek-v4-flash";

struct LiteralKeySource;

impl KeySource for LiteralKeySource {
    fn resolve(&self, _source: SecretSource) -> Result<ProviderApiKey, KeyResolutionError> {
        Ok(ProviderApiKey::new("test-key".to_owned()))
    }
}

struct MissingKeySource;

impl KeySource for MissingKeySource {
    fn resolve(&self, source: SecretSource) -> Result<ProviderApiKey, KeyResolutionError> {
        Err(KeyResolutionError::EnvironmentUnset(match source {
            SecretSource::Environment(variable) => variable.as_str().to_owned(),
            _ => String::new(),
        }))
    }
}

fn resolve_error(result: Result<agent::provider::ProviderCall, ResolveError>) -> ResolveError {
    match result {
        Err(error) => error,
        Ok(_) => panic!("expected a resolve error"),
    }
}

fn entry(name: &str, endpoint: &str, model: &str, source: SecretSource) -> ProviderEntry {
    ProviderEntry::new(name.to_owned(), endpoint.to_owned(), model.to_owned(), source)
}

fn prompt(provider: Option<&str>, model: Option<&str>) -> Prompt {
    Prompt {
        system: Some("You judge intent.".to_owned()),
        chat_transcript: vec![ChatMessage {
            chat_role: ChatRole::User,
            user_text: "Reply exactly with this NOTA expression: (Verdict accepted)".to_owned(),
        }],
        options: PromptOptions {
            model: model.map(|m| m.to_owned()),
            provider: provider.map(|p| p.to_owned()),
            temperature_milli: Some(0),
            maximum_output_tokens: Some(64),
            output_mode: OutputMode::Nota,
            reasoning_effort: None,
            thinking_mode: None,
        },
    }
}

#[test]
fn registry_resolves_prompt_to_a_provider_call() {
    let mut registry = ProviderRegistry::new();
    registry.configure(entry(
        "mimo",
        "https://api.mimo.example/v1",
        "mimo-7b",
        SecretSource::environment("MIMO_API_KEY".to_owned()),
    ));
    let call = registry
        .resolve(&prompt(Some("mimo"), Some(DEEPSEEK_MODEL)), &LiteralKeySource)
        .unwrap_or_else(|_| panic!("resolve"));
    assert_eq!(call.endpoint(), "https://api.mimo.example/v1");
    // The prompt named a DeepSeek model; that overrides the provider's
    // default model.
    assert_eq!(call.model(), DEEPSEEK_MODEL);
    assert!(call.is_nota());
}

#[test]
fn resolved_call_carries_the_key_and_provider_name() {
    let mut registry = ProviderRegistry::new();
    registry.configure(entry(
        "mimo",
        "https://api.mimo.example/v1",
        "mimo-7b",
        SecretSource::environment("MIMO_API_KEY".to_owned()),
    ));
    let call = registry
        .resolve(&prompt(Some("mimo"), None), &LiteralKeySource)
        .unwrap_or_else(|_| panic!("resolve"));
    assert_eq!(call.model(), "mimo-7b");
    assert_eq!(call.api_key().map(|key| key.as_str()), Some("test-key"));
    assert_eq!(call.provider_name(), "mimo");
}

#[test]
fn prompt_model_overrides_the_default_model() {
    let mut registry = ProviderRegistry::new();
    registry.configure(entry("mimo", "https://api.mimo.example/v1", "mimo-7b", SecretSource::no_secret()));
    let call = registry
        .resolve(&prompt(None, Some("mimo-13b")), &LiteralKeySource)
        .unwrap_or_else(|_| panic!("resolve"));
    assert_eq!(call.model(), "mimo-13b");
}

#[test]
fn no_secret_source_resolves_without_authorization() {
    let mut registry = ProviderRegistry::new();
    registry.configure(entry("local", "http://127.0.0.1:8080/v1", "small", SecretSource::no_secret()));
    let call = registry.resolve(&prompt(None, None), &MissingKeySource).unwrap_or_else(|_| panic!("resolve"));
    assert!(call.api_key().is_none());
    assert!(matches!(call.authorization(), ProviderAuthorization::Anonymous));
    assert_eq!(call.authorization().log_label(), "none");
}

#[test]
fn missing_secret_is_a_resolve_error() {
    let mut registry = ProviderRegistry::new();
    registry.configure(entry(
        "mimo",
        "https://api.mimo.example/v1",
        "mimo-7b",
        SecretSource::environment("MIMO_API_KEY".to_owned()),
    ));
    let error = resolve_error(registry.resolve(&prompt(None, None), &MissingKeySource));
    assert_eq!(
        error,
        ResolveError::SecretUnavailable(KeyResolutionError::EnvironmentUnset("MIMO_API_KEY".to_owned()))
    );
}

#[test]
fn empty_registry_rejects_unnamed_prompt() {
    let registry = ProviderRegistry::new();
    let error = resolve_error(registry.resolve(&prompt(None, None), &LiteralKeySource));
    assert_eq!(error, ResolveError::NoProviderConfigured);
}

#[test]
fn unknown_named_provider_is_a_resolve_error() {
    let mut registry = ProviderRegistry::new();
    registry.configure(entry("mimo", "https://api.mimo.example/v1", "mimo-7b", SecretSource::no_secret()));
    let error = resolve_error(registry.resolve(&prompt(Some("kimi"), None), &LiteralKeySource));
    assert_eq!(error, ResolveError::ProviderUnknown("kimi".to_owned()));
}

#[test]
fn first_configured_provider_becomes_default() {
    let mut registry = ProviderRegistry::new();
    assert_eq!(registry.default_provider(), None);
    registry.configure(entry("deepseek", "https://api.deepseek.com/v1", "deepseek-v4-flash", SecretSource::no_secret()));
    registry.configure(entry("mimo", "https://api.mimo.example/v1", "mimo-7b", SecretSource::no_secret()));
    assert_eq!(registry.default_provider(), Some("deepseek"));
}

#[test]
fn configuring_a_known_name_replaces_its_entry() {
    let mut registry = ProviderRegistry::new();
    registry.configure(entry("mimo", "https://old.example/v1", "mimo-7b", SecretSource::no_secret()));
    registry.configure(entry("mimo", "https://new.example/v1", "mimo-13b", SecretSource::no_secret()));
    let call = registry.resolve(&prompt(Some("mimo"), None), &LiteralKeySource).unwrap_or_else(|_| panic!("resolve"));
    assert_eq!(call.endpoint(), "https://new.example/v1");
    assert_eq!(call.model(), "mimo-13b");
}

#[test]
fn set_default_only_names_configured_providers() {
    let mut registry = ProviderRegistry::new();
    registry.configure(entry("deepseek", "https://api.deepseek.com/v1", "deepseek-v4-flash", SecretSource::no_secret()));
    registry.configure(entry("mimo", "https://api.mimo.example/v1", "mimo-7b", SecretSource::no_secret()));
    assert!(!registry.set_default("kimi"));
    assert_eq!(registry.default_provider(), Some("deepseek"));
    assert!(registry.set_default("mimo"));
    assert_eq!(registry.default_provider(), Some("mimo"));
}

#[test]
fn retiring_the_default_clears_it() {
    let mut registry = ProviderRegistry::new();
    registry.configure(entry("deepseek", "https://api.deepseek.com/v1", "deepseek-v4-flash", SecretSource::no_secret()));
    registry.configure(entry("mimo", "https://api.mimo.example/v1", "mimo-7b", SecretSource::no_secret()));
    assert!(registry.retire("deepseek"));
    assert_eq!(registry.default_provider(), None);
    assert!(!registry.retire("deepseek"));
    assert_eq!(
        resolve_error(registry.resolve(&prompt(None, None), &LiteralKeySource)),
        ResolveError::NoProviderConfigured
    );
    assert!(registry.resolve(&prompt(Some("mimo"), None), &LiteralKeySource).is_ok());
    registry.configure(entry("kimi", "https://api.kimi.example/v1", "kimi-k2", SecretSource::no_secret()));
    assert_eq!(registry.default_provider(), Some("kimi"));
}

#[test]
fn retiring_another_provider_keeps_the_default() {
    let mut registry = ProviderRegistry::new();
    registry.configure(entry("deepseek", "https://api.deepseek.com/v1", "deepseek-v4-flash", SecretSource::no_secret()));
    registry.configure(entry("mimo", "https://api.mimo.example/v1", "mimo-7b", SecretSource::no_secret()));
    assert!(registry.retire("mimo"));
    assert_eq!(registry.default_provider(), Some("deepseek"));
}

#[test]
fn retiring_an_unknown_provider_changes_nothing() {
    let mut registry = ProviderRegistry::new();
    registry.configure(entry("mimo", "https://api.mimo.example/v1", "mimo-7b", SecretSource::no_secret()));
    assert!(!registry.retire("kimi"));
    assert_eq!(registry.default_provider(), Some("mimo"));
    assert!(registry.resolve(&prompt(Some("mimo"), None), &LiteralKeySource).is_ok());
}

#[test]
fn system_key_source_reads_secret_file_without_trailing_newline() {
    let source = SecretSource::file("provider.key".to_owned());
    let key = SystemKeySource::key_from_output(&source, "file-secret\n".to_owned()).unwrap_or_else(|_| panic!("resolve file secret"));
    assert_eq!(key.as_str(), "file-secret");
}

#[test]
fn empty_secret_output_is_refused() {
    let source = SecretSource::gopass("platform.deepseek.com/api-key".to_owned());
    let error = match SystemKeySource::key_from_output(&source, "\r\n".to_owned()) {
        Err(error) => error,
        Ok(_) => panic!("expected an empty secret"),
    };
    assert_eq!(error, KeyResolutionError::EmptySecret("gopass:platform.deepseek.com/api-key".to_owned()));
    assert_eq!(
        error.message(),
        "secret source returned an empty secret: gopass:platform.deepseek.com/api-key"
    );
}

#[test]
fn secret_source_descriptions() {
    assert_eq!(SecretSource::environment("DEEPSEEK_API_KEY".to_owned()).description(), "environment:DEEPSEEK_API_KEY");
    assert_eq!(SecretSource::gopass("a/b".to_owned()).description(), "gopass:a/b");
    assert_eq!(SecretSource::file("/run/key".to_owned()).description(), "file:/run/key");
    assert_eq!(SecretSource::no_secret().description(), "no-secret");
    assert!(SecretSource::file("/run/key".to_owned()).requires_secret_resolution());
    assert!(!SecretSource::no_secret().requires_secret_resolution());
}

#[test]
fn key_resolution_error_messages() {
    assert_eq!(
        KeyResolutionError::EnvironmentUnset("X".to_owned()).message(),
        "environment variable is unset: X"
    );
    assert_eq!(
        KeyResolutionError::GopassUnavailable { path: "p".to_owned(), detail: "d".to_owned() }.message(),
        "gopass secret unavailable at p: d"
    );
    assert_eq!(
        KeyResolutionError::FileUnavailable { path: "p".to_owned(), detail: "d".to_owned() }.message(),
        "secret file unavailable at p: d"
    );
}

#[test]
fn provider_entry_getters() {
    let e = entry("mimo", "https://api.mimo.example/v1", "mimo-7b", SecretSource::environment("MIMO_API_KEY".to_owned()));
    assert_eq!(e.name(), "mimo");
    assert_eq!(e.endpoint(), "https://api.mimo.example/v1");
    assert_eq!(e.default_model(), "mimo-7b");
    assert_eq!(e.secret_source(), &SecretSource::environment("MIMO_API_KEY".to_owned()));
}

#[test]
fn gopass_runs_become_secrets_or_errors() {
    let path = agent::registry::GopassPath::new("platform.deepseek.com/api-key".to_owned());
    match SystemKeySource::gopass_secret(&path, true, "sk-live\n".to_owned(), "") {
        Ok(secret) => assert_eq!(secret, "sk-live\n"),
        Err(error) => panic!("unexpected {error:?}"),
    }
    assert_eq!(
        SystemKeySource::gopass_secret(&path, false, String::new(), "  entry not found \n"),
        Err(KeyResolutionError::GopassUnavailable {
            path: "platform.deepseek.com/api-key".to_owned(),
            detail: "entry not found".to_owned(),
        })
    );
    assert_eq!(
        SystemKeySource::gopass_secret(&path, false, String::new(), "\u{3000}\tno key\u{a0}\u{2028}"),
        Err(KeyResolutionError::GopassUnavailable {
            path: "platform.deepseek.com/api-key".to_owned(),
            detail: "no key".to_owned(),
        })
    );
}

#[test]
fn secret_file_path_names_the_file() {
    let path = agent::registry::SecretFilePath::new("/run/agent/provider.key".to_owned());
    assert_eq!(path.as_path(), "/run/agent/provider.key");
    assert_eq!(path.as_str(), "/run/agent/provider.key");
}
