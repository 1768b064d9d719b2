//! The configuration writer's requests: the typed text a deploy tool writes,
//! turned into the daemon's startup configuration.

use vstd::prelude::*;
use crate::config::{
    AgentDaemonConfiguration, AgentDaemonConfigurationView, ProviderInteractionLogging,
    ProviderInteractionLoggingView, ProviderSeed,
};
use crate::registry::{ProviderEntryView, SecretSource};

verus! {

/// A filesystem path in a writer request.
#[derive(Debug, PartialEq, Eq)]
pub struct ConfigurationWriterPath(pub String);

impl View for ConfigurationWriterPath {
    type V = Seq<char>;

    open spec fn view(&self) -> Seq<char> {
        self.0@
    }
}

impl ConfigurationWriterPath {
    pub fn as_path(&self) -> (p: &str)
        ensures
            p@ == self@,
    {
        self.0.as_str()
    }

    pub fn into_string(self) -> (s: String)
        ensures
            s@ == self@,
    {
        self.0
    }
}

/// The permission bits of the meta socket.
#[derive(Debug, PartialEq, Eq)]
pub struct ConfigurationWriterSocketMode(pub u32);

impl ConfigurationWriterSocketMode {
    pub fn into_mode(self) -> (m: u32)
        ensures
            m == self.0,
    {
        self.0
    }
}

/// A provider name in a writer request.
#[derive(Debug, PartialEq, Eq)]
pub struct ConfigurationWriterProviderName(pub String);

/// A provider endpoint in a writer request.
#[derive(Debug, PartialEq, Eq)]
pub struct ConfigurationWriterEndpoint(pub String);

/// A model name in a writer request.
#[derive(Debug, PartialEq, Eq)]
pub struct ConfigurationWriterModelName(pub String);

impl ConfigurationWriterProviderName {
    pub fn into_string(self) -> (s: String)
        ensures
            s@ == self.0@,
    {
        self.0
    }
}

impl ConfigurationWriterEndpoint {
    pub fn into_string(self) -> (s: String)
        ensures
            s@ == self.0@,
    {
        self.0
    }
}

impl ConfigurationWriterModelName {
    pub fn into_string(self) -> (s: String)
        ensures
            s@ == self.0@,
    {
        self.0
    }
}

/// A provider seed in a writer request.
#[derive(Debug, PartialEq, Eq)]
pub struct ConfigurationWriterProviderSeed(
    pub ConfigurationWriterProviderName,
    pub ConfigurationWriterEndpoint,
    pub ConfigurationWriterModelName,
    pub SecretSource,
);

impl View for ConfigurationWriterProviderSeed {
    type V = ProviderEntryView;

    open spec fn view(&self) -> ProviderEntryView {
        ProviderEntryView {
            name: self.0.0@,
            endpoint: self.1.0@,
            default_model: self.2.0@,
            secret_source: self.3@,
        }
    }
}

impl ConfigurationWriterProviderSeed {
    /// The startup-configuration seed carrying the same four facts.
    pub fn into_runtime_provider_seed(self) -> (s: ProviderSeed)
        ensures
            s@ == self@,
    {
        let ConfigurationWriterProviderSeed(name, endpoint, default_model, secret_source) = self;
        ProviderSeed::new(name.into_string(), endpoint.into_string(), default_model.into_string(), secret_source)
    }
}

/// The logging choice in a writer request.
#[derive(Debug, PartialEq, Eq)]
pub enum ConfigurationWriterProviderInteractionLogging {
    Disabled,
    JsonLines(ConfigurationWriterPath),
}

impl View for ConfigurationWriterProviderInteractionLogging {
    type V = ProviderInteractionLoggingView;

    open spec fn view(&self) -> ProviderInteractionLoggingView {
        match self {
            ConfigurationWriterProviderInteractionLogging::Disabled => ProviderInteractionLoggingView::Disabled,
            ConfigurationWriterProviderInteractionLogging::JsonLines(p) => ProviderInteractionLoggingView::JsonLines(p@),
        }
    }
}

impl ConfigurationWriterProviderInteractionLogging {
    pub fn into_runtime(self) -> (l: ProviderInteractionLogging)
        ensures
            l@ == self@,
    {
        match self {
            ConfigurationWriterProviderInteractionLogging::Disabled => ProviderInteractionLogging::disabled(),
            ConfigurationWriterProviderInteractionLogging::JsonLines(path) =>
                ProviderInteractionLogging::json_lines(path.into_string()),
        }
    }
}

/// The legacy request shape, which leaves interaction logging disabled.
#[derive(Debug, PartialEq, Eq)]
pub struct AgentConfigurationWriteRequest {
    pub ordinary_socket_path: ConfigurationWriterPath,
    pub meta_socket_path: ConfigurationWriterPath,
    pub meta_socket_mode: ConfigurationWriterSocketMode,
    pub database_path: ConfigurationWriterPath,
    pub bootstrap_providers: Vec<ConfigurationWriterProviderSeed>,
    pub output_path: ConfigurationWriterPath,
}

/// The request shape that also chooses interaction logging.
#[derive(Debug, PartialEq, Eq)]
pub struct AgentConfigurationWriteRequestWithProviderInteractionLogging {
    pub ordinary_socket_path: ConfigurationWriterPath,
    pub meta_socket_path: ConfigurationWriterPath,
    pub meta_socket_mode: ConfigurationWriterSocketMode,
    pub database_path: ConfigurationWriterPath,
    pub bootstrap_providers: Vec<ConfigurationWriterProviderSeed>,
    pub provider_interaction_logging: ConfigurationWriterProviderInteractionLogging,
    pub output_path: ConfigurationWriterPath,
}

/// Either request shape.
#[derive(Debug, PartialEq, Eq)]
pub enum AgentConfigurationWriterInput {
    AgentConfigurationWriteRequest(AgentConfigurationWriteRequest),
    AgentConfigurationWriteRequestWithProviderInteractionLogging(
        AgentConfigurationWriteRequestWithProviderInteractionLogging,
    ),
}

/// What the writer does: the configuration to write and where.
#[derive(Debug, PartialEq, Eq)]
pub struct AgentConfigurationWriteCommand {
    pub ordinary_socket_path: ConfigurationWriterPath,
    pub meta_socket_path: ConfigurationWriterPath,
    pub meta_socket_mode: ConfigurationWriterSocketMode,
    pub database_path: ConfigurationWriterPath,
    pub bootstrap_providers: Vec<ConfigurationWriterProviderSeed>,
    pub provider_interaction_logging: ConfigurationWriterProviderInteractionLogging,
    pub output_path: ConfigurationWriterPath,
}

pub struct WriteCommandView {
    pub ordinary_socket_path: Seq<char>,
    pub meta_socket_path: Seq<char>,
    pub meta_socket_mode: u32,
    pub database_path: Seq<char>,
    pub bootstrap_providers: Seq<ProviderEntryView>,
    pub provider_interaction_logging: ProviderInteractionLoggingView,
    pub output_path: Seq<char>,
}

pub open spec fn seeds_view(s: Seq<ConfigurationWriterProviderSeed>) -> Seq<ProviderEntryView> {
    s.map_values(|p: ConfigurationWriterProviderSeed| p@)
}

impl View for AgentConfigurationWriteCommand {
    type V = WriteCommandView;

    open spec fn view(&self) -> WriteCommandView {
        WriteCommandView {
            ordinary_socket_path: self.ordinary_socket_path@,
            meta_socket_path: self.meta_socket_path@,
            meta_socket_mode: self.meta_socket_mode.0,
            database_path: self.database_path@,
            bootstrap_providers: seeds_view(self.bootstrap_providers@),
            provider_interaction_logging: self.provider_interaction_logging@,
            output_path: self.output_path@,
        }
    }
}

/// The command a request asks for: the legacy shape leaves logging
/// disabled, the other carries its own choice.
pub open spec fn requested_command(input: AgentConfigurationWriterInput) -> WriteCommandView {
    match input {
        AgentConfigurationWriterInput::AgentConfigurationWriteRequest(r) => WriteCommandView {
            ordinary_socket_path: r.ordinary_socket_path@,
            meta_socket_path: r.meta_socket_path@,
            meta_socket_mode: r.meta_socket_mode.0,
            database_path: r.database_path@,
            bootstrap_providers: seeds_view(r.bootstrap_providers@),
            provider_interaction_logging: ProviderInteractionLoggingView::Disabled,
            output_path: r.output_path@,
        },
        AgentConfigurationWriterInput::AgentConfigurationWriteRequestWithProviderInteractionLogging(r) => WriteCommandView {
            ordinary_socket_path: r.ordinary_socket_path@,
            meta_socket_path: r.meta_socket_path@,
            meta_socket_mode: r.meta_socket_mode.0,
            database_path: r.database_path@,
            bootstrap_providers: seeds_view(r.bootstrap_providers@),
            provider_interaction_logging: r.provider_interaction_logging@,
            output_path: r.output_path@,
        },
    }
}

impl AgentConfigurationWriteRequest {
    pub fn into_write_command(self) -> (c: AgentConfigurationWriteCommand)
        ensures
            c@ == requested_command(AgentConfigurationWriterInput::AgentConfigurationWriteRequest(self)),
    {
        AgentConfigurationWriteCommand {
            ordinary_socket_path: self.ordinary_socket_path,
            meta_socket_path: self.meta_socket_path,
            meta_socket_mode: self.meta_socket_mode,
            database_path: self.database_path,
            bootstrap_providers: self.bootstrap_providers,
            provider_interaction_logging: ConfigurationWriterProviderInteractionLogging::Disabled,
            output_path: self.output_path,
        }
    }
}

impl AgentConfigurationWriteRequestWithProviderInteractionLogging {
    pub fn into_write_command(self) -> (c: AgentConfigurationWriteCommand)
        ensures
            c@ == requested_command(
                AgentConfigurationWriterInput::AgentConfigurationWriteRequestWithProviderInteractionLogging(self),
            ),
    {
        AgentConfigurationWriteCommand {
            ordinary_socket_path: self.ordinary_socket_path,
            meta_socket_path: self.meta_socket_path,
            meta_socket_mode: self.meta_socket_mode,
            database_path: self.database_path,
            bootstrap_providers: self.bootstrap_providers,
            provider_interaction_logging: self.provider_interaction_logging,
            output_path: self.output_path,
        }
    }
}

impl AgentConfigurationWriterInput {
    pub fn into_request(self) -> (c: AgentConfigurationWriteCommand)
        ensures
            c@ == requested_command(self),
    {
        match self {
            AgentConfigurationWriterInput::AgentConfigurationWriteRequest(request) => request.into_write_command(),
            AgentConfigurationWriterInput::AgentConfigurationWriteRequestWithProviderInteractionLogging(request) =>
                request.into_write_command(),
        }
    }
}

/// The startup configuration a write command describes.
pub open spec fn command_configuration(c: WriteCommandView) -> AgentDaemonConfigurationView {
    AgentDaemonConfigurationView {
        ordinary_socket_path: c.ordinary_socket_path,
        meta_socket_path: c.meta_socket_path,
        meta_socket_mode: c.meta_socket_mode,
        database_path: c.database_path,
        bootstrap_providers: c.bootstrap_providers,
        provider_interaction_logging: c.provider_interaction_logging,
    }
}

impl AgentConfigurationWriteCommand {
    /// The startup configuration to write.
    pub fn configuration(self) -> (c: AgentDaemonConfiguration)
        ensures
            c@ == command_configuration(self@),
    {
        let ghost v = self@;
        let AgentConfigurationWriteCommand {
            ordinary_socket_path,
            meta_socket_path,
            meta_socket_mode,
            database_path,
            bootstrap_providers,
            provider_interaction_logging,
            output_path: _,
        } = self;
        let mut seeds: Vec<ProviderSeed> = Vec::new();
        let mut i: usize = 0;
        while i < bootstrap_providers.len()
            invariant
                i <= bootstrap_providers.len(),
                seeds.len() == i,
                forall|k: int| 0 <= k < i ==> #[trigger] seeds@[k]@ == bootstrap_providers@[k]@,
            decreases bootstrap_providers.len() - i,
        {
            let p = &bootstrap_providers[i];
            seeds.push(ProviderSeed::new(p.0.0.clone(), p.1.0.clone(), p.2.0.clone(), p.3.clone()));
            i = i + 1;
        }
        proof {
            assert(seeds@.map_values(|s: ProviderSeed| s@) =~= seeds_view(bootstrap_providers@));
        }
        AgentDaemonConfiguration::new_with_provider_interaction_logging(
            ordinary_socket_path.into_string(),
            meta_socket_path.into_string(),
            meta_socket_mode.into_mode(),
            database_path.into_string(),
            seeds,
            provider_interaction_logging.into_runtime(),
        )
    }
}

/// A request in the legacy shape never turns interaction logging on, and
/// the configuration written for any request carries the request's seeds, in
/// order, and its logging choice.
pub proof fn law_written_configuration_follows_request(input: AgentConfigurationWriterInput)
    ensures
        input is AgentConfigurationWriteRequest ==>
            requested_command(input).provider_interaction_logging is Disabled,
        command_configuration(requested_command(input)).bootstrap_providers == requested_command(input).bootstrap_providers,
        command_configuration(requested_command(input)).provider_interaction_logging
            == requested_command(input).provider_interaction_logging,
{
}

/// The written configuration takes each socket path, the socket mode, the
/// database path and the seeds from the request's own field of that name,
/// for both request shapes; the output path is the request's.
pub proof fn law_written_configuration_keeps_request_fields(input: AgentConfigurationWriterInput)
    ensures
        input matches AgentConfigurationWriterInput::AgentConfigurationWriteRequest(r) ==> {
            let c = command_configuration(requested_command(input));
            &&& c.ordinary_socket_path == r.ordinary_socket_path@
            &&& c.meta_socket_path == r.meta_socket_path@
            &&& c.meta_socket_mode == r.meta_socket_mode.0
            &&& c.database_path == r.database_path@
            &&& c.bootstrap_providers == r.bootstrap_providers@.map_values(|s: ConfigurationWriterProviderSeed| s@)
            &&& requested_command(input).output_path == r.output_path@
        },
        input matches AgentConfigurationWriterInput::AgentConfigurationWriteRequestWithProviderInteractionLogging(r) ==> {
            let c = command_configuration(requested_command(input));
            &&& c.ordinary_socket_path == r.ordinary_socket_path@
            &&& c.meta_socket_path == r.meta_socket_path@
            &&& c.meta_socket_mode == r.meta_socket_mode.0
            &&& c.database_path == r.database_path@
            &&& c.bootstrap_providers == r.bootstrap_providers@.map_values(|s: ConfigurationWriterProviderSeed| s@)
            &&& c.provider_interaction_logging == r.provider_interaction_logging@
            &&& requested_command(input).output_path == r.output_path@
        },
{
}
} // verus!
