//! The meta tier: provider configuration and lifecycle orders, applied to the
//! engine's registry.

use vstd::prelude::*;
use crate::engine::AgentEngine;
use crate::registry::{
    ProviderEntry, ProviderEntryView, RegistryView, SecretSource, configured, has_name,
    registry_well_formed, retired, with_default,
};

verus! {

/// A provider configuration order's payload.
#[derive(Debug, PartialEq, Eq)]
pub struct ProviderConfiguration {
    pub name: String,
    pub endpoint: String,
    pub default_model: String,
    pub secret_source: SecretSource,
}

impl View for ProviderConfiguration {
    type V = ProviderEntryView;

    open spec fn view(&self) -> ProviderEntryView {
        ProviderEntryView {
            name: self.name@,
            endpoint: self.endpoint@,
            default_model: self.default_model@,
            secret_source: self.secret_source@,
        }
    }
}

/// The orders of the meta tier.
#[derive(Debug, PartialEq, Eq)]
pub enum MetaInput {
    ConfigureProvider(ProviderConfiguration),
    RetireProvider(String),
    SetDefaultProvider(String),
    Start,
    Stop,
}

pub enum MetaInputView {
    ConfigureProvider(ProviderEntryView),
    RetireProvider(Seq<char>),
    SetDefaultProvider(Seq<char>),
    Start,
    Stop,
}

impl View for MetaInput {
    type V = MetaInputView;

    open spec fn view(&self) -> MetaInputView {
        match self {
            MetaInput::ConfigureProvider(c) => MetaInputView::ConfigureProvider(c@),
            MetaInput::RetireProvider(n) => MetaInputView::RetireProvider(n@),
            MetaInput::SetDefaultProvider(n) => MetaInputView::SetDefaultProvider(n@),
            MetaInput::Start => MetaInputView::Start,
            MetaInput::Stop => MetaInputView::Stop,
        }
    }
}

/// The lifecycle state a lifecycle order reports.
#[derive(Debug, PartialEq, Eq, Structural, Clone, Copy)]
pub enum LifecycleState {
    Started,
    Stopped,
}

/// Why an order was refused.
#[derive(Debug, PartialEq, Eq, Structural, Clone, Copy)]
pub enum OrderRejectionReason {
    ProviderUnknown,
}

/// A refused order.
#[derive(Debug, PartialEq, Eq)]
pub struct OrderRejection {
    pub reason: OrderRejectionReason,
    pub detail: String,
}

/// The replies of the meta tier.
#[derive(Debug, PartialEq, Eq)]
pub enum MetaOutput {
    ProviderConfigured(String),
    ProviderRetired(String),
    DefaultProviderSet(String),
    Started(LifecycleState),
    Stopped(LifecycleState),
    OrderRejected(OrderRejection),
}

pub enum MetaOutputView {
    ProviderConfigured(Seq<char>),
    ProviderRetired(Seq<char>),
    DefaultProviderSet(Seq<char>),
    Started(LifecycleState),
    Stopped(LifecycleState),
    OrderRejected(OrderRejectionReason, Seq<char>),
}

impl View for MetaOutput {
    type V = MetaOutputView;

    open spec fn view(&self) -> MetaOutputView {
        match self {
            MetaOutput::ProviderConfigured(n) => MetaOutputView::ProviderConfigured(n@),
            MetaOutput::ProviderRetired(n) => MetaOutputView::ProviderRetired(n@),
            MetaOutput::DefaultProviderSet(n) => MetaOutputView::DefaultProviderSet(n@),
            MetaOutput::Started(s) => MetaOutputView::Started(*s),
            MetaOutput::Stopped(s) => MetaOutputView::Stopped(*s),
            MetaOutput::OrderRejected(r) => MetaOutputView::OrderRejected(r.reason, r.detail@),
        }
    }
}

/// The registry after an order, and the order's reply.
pub open spec fn meta_step(v: RegistryView, input: MetaInputView) -> (RegistryView, MetaOutputView) {
    match input {
        MetaInputView::ConfigureProvider(e) => (configured(v, e), MetaOutputView::ProviderConfigured(e.name)),
        MetaInputView::RetireProvider(n) => if has_name(v.entries, n) {
            (retired(v, n), MetaOutputView::ProviderRetired(n))
        } else {
            (v, MetaOutputView::OrderRejected(OrderRejectionReason::ProviderUnknown, "no such provider"@))
        },
        MetaInputView::SetDefaultProvider(n) => if has_name(v.entries, n) {
            (with_default(v, n), MetaOutputView::DefaultProviderSet(n))
        } else {
            (v, MetaOutputView::OrderRejected(OrderRejectionReason::ProviderUnknown, "no such provider"@))
        },
        MetaInputView::Start => (v, MetaOutputView::Started(LifecycleState::Started)),
        MetaInputView::Stop => (v, MetaOutputView::Stopped(LifecycleState::Stopped)),
    }
}

fn rejected(detail: &str) -> (o: MetaOutput)
    ensures
        o@ == MetaOutputView::OrderRejected(OrderRejectionReason::ProviderUnknown, detail@),
{
    MetaOutput::OrderRejected(OrderRejection { reason: OrderRejectionReason::ProviderUnknown, detail: detail.to_owned() })
}

/// Lowers one meta order to a registry change and its reply.
pub struct AgentMetaHandler;

impl AgentMetaHandler {
    /// Apply one order to the engine's registry and answer it.
    pub fn handle(engine: &mut AgentEngine, input: MetaInput) -> (o: MetaOutput)
        requires
            old(engine).wf(),
        ensures
            final(engine).wf(),
            (final(engine)@, o@) == meta_step(old(engine)@, input@),
    {
        match input {
            MetaInput::ConfigureProvider(configuration) => {
                let name = configuration.name.clone();
                engine.configure_provider(ProviderEntry::new(
                    configuration.name,
                    configuration.endpoint,
                    configuration.default_model,
                    configuration.secret_source,
                ));
                MetaOutput::ProviderConfigured(name)
            },
            MetaInput::RetireProvider(name) => {
                if engine.retire_provider(name.as_str()) {
                    MetaOutput::ProviderRetired(name)
                } else {
                    proof {
                        crate::registry::law_retire_unknown_is_noop(old(engine)@, name@);
                    }
                    rejected("no such provider")
                }
            },
            MetaInput::SetDefaultProvider(name) => {
                if engine.set_default_provider(name.as_str()) {
                    MetaOutput::DefaultProviderSet(name)
                } else {
                    rejected("no such provider")
                }
            },
            MetaInput::Start => MetaOutput::Started(LifecycleState::Started),
            MetaInput::Stop => MetaOutput::Stopped(LifecycleState::Stopped),
        }
    }
}

/// A refused meta order leaves the registry exactly as it was, and lifecycle
/// orders never touch it.
pub proof fn law_refused_order_changes_nothing(v: RegistryView, input: MetaInputView)
    requires
        registry_well_formed(v),
    ensures
        meta_step(v, input).1 is OrderRejected ==> meta_step(v, input).0 == v,
        input is Start || input is Stop ==> meta_step(v, input).0 == v,
        registry_well_formed(meta_step(v, input).0),
{
    match input {
        MetaInputView::ConfigureProvider(e) => {
            crate::registry::law_configure_then_lookup(v, e);
        },
        MetaInputView::RetireProvider(n) => {
            if has_name(v.entries, n) {
                crate::registry::law_retire_keeps_invariant(v, n);
            }
        },
        MetaInputView::SetDefaultProvider(n) => {
        },
        _ => {},
    }
}

} // verus!
