//! The daemon's startup configuration: socket paths, the database path,
//! provider seeds and the provider interaction logging choice.

use vstd::prelude::*;
use crate::registry::{ProviderEntry, ProviderEntryView, SecretSource, SecretSourceView};

verus! {

/// `std::io::Error`, carried through as an opaque value.
#[verifier::external_type_specification]
#[verifier::external_body]
pub struct ExIoError(std::io::Error);

/// A provider seed carried in the startup configuration: the four facts a
/// provider configuration carries.
#[derive(Debug, PartialEq, Eq)]
pub struct ProviderSeed {
    pub name: String,
    pub endpoint: String,
    pub default_model: String,
    pub secret_source: SecretSource,
}

impl View for ProviderSeed {
    type V = ProviderEntryView;

    open spec fn view(&self) -> ProviderEntryView {
        ProviderEntryView {
            name: self.name@,
            endpoint: self.endpoint@,
            default_model: self.default_model@,
            secret_source: self.secret_source@,
        }
    }
}

impl Clone for ProviderSeed {
    fn clone(&self) -> (r: Self)
        ensures
            r@ == self@,
    {
        ProviderSeed {
            name: self.name.clone(),
            endpoint: self.endpoint.clone(),
            default_model: self.default_model.clone(),
            secret_source: self.secret_source.clone(),
        }
    }
}

impl ProviderSeed {
    pub fn new(name: String, endpoint: String, default_model: String, secret_source: SecretSource) -> (s: Self)
        ensures
            s@ == (ProviderEntryView {
                name: name@,
                endpoint: endpoint@,
                default_model: default_model@,
                secret_source: secret_source@,
            }),
    {
        ProviderSeed { name, endpoint, default_model, secret_source }
    }

    /// The registry entry this seed configures.
    pub fn into_entry(self) -> (e: ProviderEntry)
        ensures
            e@ == self@,
    {
        ProviderEntry::new(self.name, self.endpoint, self.default_model, self.secret_source)
    }
}

/// Whether and where provider interactions are logged.
#[derive(Debug, PartialEq, Eq)]
pub enum ProviderInteractionLogging {
    Disabled,
    JsonLines(String),
}

pub enum ProviderInteractionLoggingView {
    Disabled,
    JsonLines(Seq<char>),
}

impl View for ProviderInteractionLogging {
    type V = ProviderInteractionLoggingView;

    open spec fn view(&self) -> ProviderInteractionLoggingView {
        match self {
            ProviderInteractionLogging::Disabled => ProviderInteractionLoggingView::Disabled,
            ProviderInteractionLogging::JsonLines(p) => ProviderInteractionLoggingView::JsonLines(p@),
        }
    }
}

impl ProviderInteractionLogging {
    pub fn disabled() -> (l: Self)
        ensures
            l@ == ProviderInteractionLoggingView::Disabled,
    {
        ProviderInteractionLogging::Disabled
    }

    pub fn json_lines(path: String) -> (l: Self)
        ensures
            l@ == ProviderInteractionLoggingView::JsonLines(path@),
    {
        ProviderInteractionLogging::JsonLines(path)
    }
}

/// The startup configuration of the daemon.
#[derive(Debug, PartialEq, Eq)]
pub struct AgentDaemonConfiguration {
    ordinary_socket_path: String,
    meta_socket_path: String,
    meta_socket_mode: u32,
    database_path: String,
    bootstrap_providers: Vec<ProviderSeed>,
    provider_interaction_logging: ProviderInteractionLogging,
}

pub struct AgentDaemonConfigurationView {
    pub ordinary_socket_path: Seq<char>,
    pub meta_socket_path: Seq<char>,
    pub meta_socket_mode: u32,
    pub database_path: Seq<char>,
    pub bootstrap_providers: Seq<ProviderEntryView>,
    pub provider_interaction_logging: ProviderInteractionLoggingView,
}

impl View for AgentDaemonConfiguration {
    type V = AgentDaemonConfigurationView;

    closed spec fn view(&self) -> AgentDaemonConfigurationView {
        AgentDaemonConfigurationView {
            ordinary_socket_path: self.ordinary_socket_path@,
            meta_socket_path: self.meta_socket_path@,
            meta_socket_mode: self.meta_socket_mode,
            database_path: self.database_path@,
            bootstrap_providers: self.bootstrap_providers@.map_values(|s: ProviderSeed| s@),
            provider_interaction_logging: self.provider_interaction_logging@,
        }
    }
}

impl AgentDaemonConfiguration {
    /// A configuration with provider interaction logging disabled.
    pub fn new(
        ordinary_socket_path: String,
        meta_socket_path: String,
        meta_socket_mode: u32,
        database_path: String,
        bootstrap_providers: Vec<ProviderSeed>,
    ) -> (c: Self)
        ensures
            c@ == (AgentDaemonConfigurationView {
                ordinary_socket_path: ordinary_socket_path@,
                meta_socket_path: meta_socket_path@,
                meta_socket_mode,
                database_path: database_path@,
                bootstrap_providers: bootstrap_providers@.map_values(|s: ProviderSeed| s@),
                provider_interaction_logging: ProviderInteractionLoggingView::Disabled,
            }),
    {
        AgentDaemonConfiguration {
            ordinary_socket_path,
            meta_socket_path,
            meta_socket_mode,
            database_path,
            bootstrap_providers,
            provider_interaction_logging: ProviderInteractionLogging::Disabled,
        }
    }

    pub fn new_with_provider_interaction_logging(
        ordinary_socket_path: String,
        meta_socket_path: String,
        meta_socket_mode: u32,
        database_path: String,
        bootstrap_providers: Vec<ProviderSeed>,
        provider_interaction_logging: ProviderInteractionLogging,
    ) -> (c: Self)
        ensures
            c@ == (AgentDaemonConfigurationView {
                ordinary_socket_path: ordinary_socket_path@,
                meta_socket_path: meta_socket_path@,
                meta_socket_mode,
                database_path: database_path@,
                bootstrap_providers: bootstrap_providers@.map_values(|s: ProviderSeed| s@),
                provider_interaction_logging: provider_interaction_logging@,
            }),
    {
        AgentDaemonConfiguration {
            ordinary_socket_path,
            meta_socket_path,
            meta_socket_mode,
            database_path,
            bootstrap_providers,
            provider_interaction_logging,
        }
    }

    pub fn bootstrap_providers(&self) -> (s: &[ProviderSeed])
        ensures
            s@.map_values(|p: ProviderSeed| p@) == self@.bootstrap_providers,
    {
        self.bootstrap_providers.as_slice()
    }

    pub fn provider_interaction_logging(&self) -> (l: &ProviderInteractionLogging)
        ensures
            l@ == self@.provider_interaction_logging,
    {
        &self.provider_interaction_logging
    }

    pub fn socket_path(&self) -> (p: &str)
        ensures
            p@ == self@.ordinary_socket_path,
    {
        self.ordinary_socket_path.as_str()
    }

    pub fn meta_socket_path(&self) -> (p: &str)
        ensures
            p@ == self@.meta_socket_path,
    {
        self.meta_socket_path.as_str()
    }

    pub fn meta_socket_mode(&self) -> (m: u32)
        ensures
            m == self@.meta_socket_mode,
    {
        self.meta_socket_mode
    }

    pub fn database_path(&self) -> (p: &str)
        ensures
            p@ == self@.database_path,
    {
        self.database_path.as_str()
    }
}

/// Why the binary configuration could not be read or written.
#[derive(Debug)]
pub enum ConfigurationError {
    Read(std::io::Error),
    Write(std::io::Error),
    ArchiveEncode,
    ArchiveDecode,
}

} // verus!
