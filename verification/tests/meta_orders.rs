use agent::engine::AgentEngine;
use agent::meta::{
    AgentMetaHandler, LifecycleState, MetaInput, MetaOutput, OrderRejection, OrderRejectionReason,
    ProviderConfiguration,
};
use agent::registry::{ProviderRegistry, SecretSource};

fn configure(name: &str) -> MetaInput {
    MetaInput::ConfigureProvider(ProviderConfiguration {
        name: name.to_owned(),
        endpoint: format!("https://api.{name}.example/v1"),
        default_model: format!("{name}-model"),
        secret_source: SecretSource::environment(format!("{}_API_KEY", name.to_uppercase())),
    })
}

fn unknown() -> MetaOutput {
    MetaOutput::OrderRejected(OrderRejection {
        reason: OrderRejectionReason::ProviderUnknown,
        detail: "no such provider".to_owned(),
    })
}

#[test]
fn configure_order_adds_a_provider() {
    let mut engine = AgentEngine::new(ProviderRegistry::new());
    let reply = AgentMetaHandler::handle(&mut engine, configure("mimo"));
    assert_eq!(reply, MetaOutput::ProviderConfigured("mimo".to_owned()));
    assert_eq!(engine.registry().default_provider(), Some("mimo"));
}

#[test]
fn retire_and_default_orders_on_unknown_providers_are_refused() {
    let mut engine = AgentEngine::new(ProviderRegistry::new());
    AgentMetaHandler::handle(&mut engine, configure("mimo"));
    assert_eq!(AgentMetaHandler::handle(&mut engine, MetaInput::RetireProvider("kimi".to_owned())), unknown());
    assert_eq!(AgentMetaHandler::handle(&mut engine, MetaInput::SetDefaultProvider("kimi".to_owned())), unknown());
    assert_eq!(engine.registry().default_provider(), Some("mimo"));
}

#[test]
fn retire_and_default_orders_on_known_providers() {
    let mut engine = AgentEngine::new(ProviderRegistry::new());
    AgentMetaHandler::handle(&mut engine, configure("mimo"));
    AgentMetaHandler::handle(&mut engine, configure("kimi"));
    assert_eq!(
        AgentMetaHandler::handle(&mut engine, MetaInput::SetDefaultProvider("kimi".to_owned())),
        MetaOutput::DefaultProviderSet("kimi".to_owned())
    );
    assert_eq!(engine.registry().default_provider(), Some("kimi"));
    assert_eq!(
        AgentMetaHandler::handle(&mut engine, MetaInput::RetireProvider("kimi".to_owned())),
        MetaOutput::ProviderRetired("kimi".to_owned())
    );
    assert_eq!(engine.registry().default_provider(), None);
}

#[test]
fn lifecycle_orders_report_their_state() {
    let mut engine = AgentEngine::new(ProviderRegistry::new());
    assert_eq!(AgentMetaHandler::handle(&mut engine, MetaInput::Start), MetaOutput::Started(LifecycleState::Started));
    assert_eq!(AgentMetaHandler::handle(&mut engine, MetaInput::Stop), MetaOutput::Stopped(LifecycleState::Stopped));
    assert_eq!(engine.registry().default_provider(), None);
}
