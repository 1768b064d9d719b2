use agent::client::{AgentSocket, ClientError, ExchangeIdentifier, ExchangeLane, ExchangeReply, ReplyFrame, reply_output};
use agent::config::{AgentDaemonConfiguration, ProviderInteractionLogging, ProviderSeed};
use agent::contract::{AgentOperation, AgentOutput, UnimplementedReason};
use agent::registry::SecretSource;
use agent::text::{decimal, milli_text};
use agent::writer::{
    AgentConfigurationWriteRequest, AgentConfigurationWriteRequestWithProviderInteractionLogging,
    AgentConfigurationWriterInput, ConfigurationWriterEndpoint, ConfigurationWriterModelName, ConfigurationWriterPath,
    ConfigurationWriterProviderInteractionLogging, ConfigurationWriterProviderName, ConfigurationWriterProviderSeed,
    ConfigurationWriterSocketMode,
};

fn path(p: &str) -> ConfigurationWriterPath {
    ConfigurationWriterPath(p.to_owned())
}

fn writer_seed() -> ConfigurationWriterProviderSeed {
    ConfigurationWriterProviderSeed(
        ConfigurationWriterProviderName("deepseek".to_owned()),
        ConfigurationWriterEndpoint("https://api.deepseek.com/v1".to_owned()),
        ConfigurationWriterModelName("deepseek-v4-flash".to_owned()),
        SecretSource::gopass("platform.deepseek.com/api-key".to_owned()),
    )
}

fn runtime_seed() -> ProviderSeed {
    ProviderSeed::new(
        "deepseek".to_owned(),
        "https://api.deepseek.com/v1".to_owned(),
        "deepseek-v4-flash".to_owned(),
        SecretSource::gopass("platform.deepseek.com/api-key".to_owned()),
    )
}

#[test]
fn legacy_write_request_disables_interaction_logging() {
    let input = AgentConfigurationWriterInput::AgentConfigurationWriteRequest(AgentConfigurationWriteRequest {
        ordinary_socket_path: path("/run/criomos-local/agent.sock"),
        meta_socket_path: path("/run/criomos-local/agent-meta.sock"),
        meta_socket_mode: ConfigurationWriterSocketMode(0o600),
        database_path: path("/var/lib/agent/agent.redb"),
        bootstrap_providers: vec![writer_seed()],
        output_path: path("/etc/agent/daemon.rkyv"),
    });
    let command = input.into_request();
    assert_eq!(command.output_path, path("/etc/agent/daemon.rkyv"));
    assert_eq!(command.provider_interaction_logging, ConfigurationWriterProviderInteractionLogging::Disabled);
    let configuration = command.configuration();
    assert_eq!(
        configuration,
        AgentDaemonConfiguration::new(
            "/run/criomos-local/agent.sock".to_owned(),
            "/run/criomos-local/agent-meta.sock".to_owned(),
            0o600,
            "/var/lib/agent/agent.redb".to_owned(),
            vec![runtime_seed()],
        )
    );
    assert_eq!(configuration.socket_path(), "/run/criomos-local/agent.sock");
    assert_eq!(configuration.meta_socket_path(), "/run/criomos-local/agent-meta.sock");
    assert_eq!(configuration.meta_socket_mode(), 0o600);
    assert_eq!(configuration.database_path(), "/var/lib/agent/agent.redb");
    assert_eq!(configuration.bootstrap_providers(), &[runtime_seed()]);
    assert_eq!(configuration.provider_interaction_logging(), &ProviderInteractionLogging::Disabled);
}

#[test]
fn write_request_with_logging_carries_the_log_path() {
    let input = AgentConfigurationWriterInput::AgentConfigurationWriteRequestWithProviderInteractionLogging(
        AgentConfigurationWriteRequestWithProviderInteractionLogging {
            ordinary_socket_path: path("/run/agent.sock"),
            meta_socket_path: path("/run/agent-meta.sock"),
            meta_socket_mode: ConfigurationWriterSocketMode(0o660),
            database_path: path("/var/lib/agent/agent.redb"),
            bootstrap_providers: vec![],
            provider_interaction_logging: ConfigurationWriterProviderInteractionLogging::JsonLines(path(
                "/var/log/agent/interactions.jsonl",
            )),
            output_path: path("/etc/agent/daemon.rkyv"),
        },
    );
    let configuration = input.into_request().configuration();
    assert_eq!(
        configuration.provider_interaction_logging(),
        &ProviderInteractionLogging::JsonLines("/var/log/agent/interactions.jsonl".to_owned())
    );
    assert_eq!(configuration.meta_socket_mode(), 0o660);
    assert!(configuration.bootstrap_providers().is_empty());
}

#[test]
fn writer_pieces_convert() {
    assert_eq!(path("/a").as_path(), "/a");
    assert_eq!(path("/a").into_string(), "/a");
    assert_eq!(ConfigurationWriterSocketMode(0o600).into_mode(), 0o600);
    assert_eq!(writer_seed().into_runtime_provider_seed(), runtime_seed());
    assert_eq!(
        ConfigurationWriterProviderInteractionLogging::Disabled.into_runtime(),
        ProviderInteractionLogging::disabled()
    );
}

#[test]
fn seed_becomes_registry_entry() {
    let entry = runtime_seed().into_entry();
    assert_eq!(entry.name(), "deepseek");
    assert_eq!(entry.default_model(), "deepseek-v4-flash");
}

#[test]
fn decimal_and_thousandths_text() {
    assert_eq!(decimal(0), "0");
    assert_eq!(decimal(1024), "1024");
    assert_eq!(decimal(u64::MAX), "18446744073709551615");
    assert_eq!(milli_text(0), "0.0");
    assert_eq!(milli_text(700), "0.7");
    assert_eq!(milli_text(1000), "1.0");
    assert_eq!(milli_text(1250), "1.25");
    assert_eq!(milli_text(33), "0.033");
}

fn sent() -> ExchangeIdentifier {
    ExchangeIdentifier { session_epoch: 0, lane: ExchangeLane::Connector, sequence: 1 }
}

fn unimplemented_output() -> AgentOutput {
    AgentOutput::RequestUnimplemented(AgentOperation::StreamCall, UnimplementedReason::NotYetImplemented)
}

#[test]
fn client_reads_its_own_reply() {
    let socket = AgentSocket::from_path("/run/agent.sock".to_owned());
    assert_eq!(socket.path(), "/run/agent.sock");
    let frame = ReplyFrame::Reply { exchange: sent(), reply: ExchangeReply::Accepted { head: Some(unimplemented_output()) } };
    assert_eq!(reply_output(sent(), frame), Ok(unimplemented_output()));
}

#[test]
fn client_refuses_other_replies() {
    let other = ExchangeIdentifier { sequence: 2, ..sent() };
    let cases = [
        (ReplyFrame::Reply { exchange: other, reply: ExchangeReply::Accepted { head: Some(unimplemented_output()) } }, ClientError::ExchangeMismatch),
        (ReplyFrame::Reply { exchange: sent(), reply: ExchangeReply::Accepted { head: None } }, ClientError::DidNotCommit),
        (ReplyFrame::Reply { exchange: sent(), reply: ExchangeReply::Rejected }, ClientError::Rejected),
        (ReplyFrame::Other, ClientError::NotAReply),
    ];
    for (frame, error) in cases {
        assert_eq!(reply_output(sent(), frame), Err(error));
    }
    assert_eq!(ClientError::DidNotCommit.message(), "agent request did not commit");
    assert_eq!(ClientError::Rejected.message(), "agent request was rejected");
    assert_eq!(ClientError::ExchangeMismatch.message(), "agent reply exchange mismatch");
    assert_eq!(ClientError::NotAReply.message(), "agent reply was not a reply frame");
}
