//! Provider interaction logging, disabled unless configured: one JSON line per
//! provider call, carrying the request and the response for later prompt and
//! schema repair, with credentials kept out of the record.

use vstd::prelude::*;
use crate::config::{ProviderInteractionLogging, ProviderInteractionLoggingView};
use crate::contract::{CallRejection, CallRejectionReason, CallRejectionView};
use crate::json::{JsonValue, JsonTree, json_text_tree, parse_json};
use crate::provider::{
    ProviderCall, ProviderCallView, ProviderCompletion, ProviderCompletionView, ProviderFailure,
    ProviderFailureView, AuthorizationView, ChatCompletionRequest, authorization_label,
    chat_completions_url_spec, request_json, request_of_call, opt_text,
};
use crate::redact::{
    SecretRedactor, redacted_metadata, redacted_url, redacted_tree, credentials_hidden, credential_bearing, query_hidden,
    law_redaction_hides_credentials, law_url_redaction_hides_credentials,
};

verus! {

/// Whether two paths name the same location as `std::path::Path` compares
/// them, component by component.
pub uninterp spec fn same_path(a: Seq<char>, b: Seq<char>) -> bool;

/// Compares two paths with `std::path::Path`'s `==`. Equal texts are equal
/// paths; beyond that, the comparison is what `Path` says.
#[verifier::external_body]
fn paths_equal(a: &str, b: &str) -> (r: bool)
    ensures
        r == same_path(a@, b@),
        a@ == b@ ==> r,
{
    std::path::Path::new(a) == std::path::Path::new(b)
}

/// Where interactions are written.
#[derive(Debug)]
enum LogDestination {
    Disabled,
    JsonLines(String),
}

/// The interaction log: disabled, or a JSON-lines file. Two logs are equal
/// when both are disabled, or both write to the same path as `Path` compares
/// paths.
#[derive(Debug)]
pub struct ProviderInteractionLog {
    destination: LogDestination,
}

pub enum InteractionLogView {
    Disabled,
    JsonLines(Seq<char>),
}

impl View for ProviderInteractionLog {
    type V = InteractionLogView;

    closed spec fn view(&self) -> InteractionLogView {
        match self.destination {
            LogDestination::Disabled => InteractionLogView::Disabled,
            LogDestination::JsonLines(p) => InteractionLogView::JsonLines(p@),
        }
    }
}

/// Whether two logs are the same log: both disabled, or both writing to the
/// same path.
pub open spec fn same_log(a: InteractionLogView, b: InteractionLogView) -> bool {
    match (a, b) {
        (InteractionLogView::Disabled, InteractionLogView::Disabled) => true,
        (InteractionLogView::JsonLines(p), InteractionLogView::JsonLines(q)) => same_path(p, q),
        _ => false,
    }
}

impl PartialEq for ProviderInteractionLog {
    fn eq(&self, other: &Self) -> (r: bool) {
        match (&self.destination, &other.destination) {
            (LogDestination::Disabled, LogDestination::Disabled) => true,
            (LogDestination::JsonLines(a), LogDestination::JsonLines(b)) => paths_equal(a.as_str(), b.as_str()),
            _ => false,
        }
    }
}

impl vstd::std_specs::cmp::PartialEqSpecImpl for ProviderInteractionLog {
    open spec fn obeys_eq_spec() -> bool {
        true
    }

    open spec fn eq_spec(&self, other: &ProviderInteractionLog) -> bool {
        same_log(self@, other@)
    }
}

/// Two JSON-lines logs are equal exactly when their paths name the same
/// location; a JSON-lines log never equals the disabled log.
pub proof fn law_log_equality_is_path_equality(p: Seq<char>, q: Seq<char>)
    ensures
        same_log(InteractionLogView::JsonLines(p), InteractionLogView::JsonLines(q)) == same_path(p, q),
        !same_log(InteractionLogView::JsonLines(p), InteractionLogView::Disabled),
        same_log(InteractionLogView::Disabled, InteractionLogView::Disabled),
{
}

/// Why an interaction could not be logged, or the log not opened.
#[derive(Debug, PartialEq, Eq)]
pub enum ProviderInteractionLogError {
    /// The configured log path is the agent database path.
    MainDatabasePath { path: String },
    Io(String),
    Encode(String),
    Join(String),
}

pub enum InteractionLogErrorView {
    MainDatabasePath { path: Seq<char> },
    Io(Seq<char>),
    Encode(Seq<char>),
    Join(Seq<char>),
}

impl View for ProviderInteractionLogError {
    type V = InteractionLogErrorView;

    open spec fn view(&self) -> InteractionLogErrorView {
        match self {
            ProviderInteractionLogError::MainDatabasePath { path } => InteractionLogErrorView::MainDatabasePath { path: path@ },
            ProviderInteractionLogError::Io(m) => InteractionLogErrorView::Io(m@),
            ProviderInteractionLogError::Encode(m) => InteractionLogErrorView::Encode(m@),
            ProviderInteractionLogError::Join(m) => InteractionLogErrorView::Join(m@),
        }
    }
}

/// The message of a log error.
pub open spec fn log_error_message(e: InteractionLogErrorView) -> Seq<char> {
    match e {
        InteractionLogErrorView::MainDatabasePath { path } =>
            "provider interaction log path must not be the agent database path: "@ + path,
        InteractionLogErrorView::Io(m) => "provider interaction log io failed: "@ + m,
        InteractionLogErrorView::Encode(m) => "provider interaction log encode failed: "@ + m,
        InteractionLogErrorView::Join(m) => "provider interaction log writer task failed: "@ + m,
    }
}

impl ProviderInteractionLogError {
    /// The human-readable message.
    pub fn message(&self) -> (m: String)
        ensures
            m@ == log_error_message(self@),
    {
        let (mut m, detail) = match self {
            ProviderInteractionLogError::MainDatabasePath { path } =>
                ("provider interaction log path must not be the agent database path: ".to_owned(), path),
            ProviderInteractionLogError::Io(d) => ("provider interaction log io failed: ".to_owned(), d),
            ProviderInteractionLogError::Encode(d) => ("provider interaction log encode failed: ".to_owned(), d),
            ProviderInteractionLogError::Join(d) => ("provider interaction log writer task failed: ".to_owned(), d),
        };
        m.append(detail.as_str());
        m
    }
}

/// The log a configuration asks for, given the agent database path: a
/// JSON-lines log may not be written over the database.
pub open spec fn configured_log(database_path: Seq<char>, logging: ProviderInteractionLoggingView) -> Result<InteractionLogView, InteractionLogErrorView> {
    match logging {
        ProviderInteractionLoggingView::Disabled => Ok(InteractionLogView::Disabled),
        ProviderInteractionLoggingView::JsonLines(p) => if same_path(p, database_path) {
            Err(InteractionLogErrorView::MainDatabasePath { path: p })
        } else {
            Ok(InteractionLogView::JsonLines(p))
        },
    }
}

impl ProviderInteractionLog {
    pub fn disabled() -> (l: Self)
        ensures
            l@ == InteractionLogView::Disabled,
    {
        ProviderInteractionLog { destination: LogDestination::Disabled }
    }

    pub fn json_lines_at(path: String) -> (l: Self)
        ensures
            l@ == InteractionLogView::JsonLines(path@),
    {
        ProviderInteractionLog { destination: LogDestination::JsonLines(path) }
    }

    /// The log the daemon configuration selects.
    pub fn from_configuration(database_path: &str, logging: &ProviderInteractionLogging) -> (r: Result<Self, ProviderInteractionLogError>)
        ensures
            r matches Ok(l) ==> configured_log(database_path@, logging@) == Ok::<InteractionLogView, InteractionLogErrorView>(l@),
            r matches Err(e) ==> configured_log(database_path@, logging@) == Err::<InteractionLogView, InteractionLogErrorView>(e@),
    {
        match logging {
            ProviderInteractionLogging::Disabled => Ok(Self::disabled()),
            ProviderInteractionLogging::JsonLines(path) => {
                if paths_equal(path.as_str(), database_path) {
                    Err(ProviderInteractionLogError::MainDatabasePath { path: path.clone() })
                } else {
                    Ok(Self::json_lines_at(path.clone()))
                }
            },
        }
    }

    pub fn is_disabled(&self) -> (b: bool)
        ensures
            b == (self@ is Disabled),
    {
        match self.destination {
            LogDestination::Disabled => true,
            LogDestination::JsonLines(_) => false,
        }
    }

    /// The file the log appends to, when it is enabled.
    pub fn json_lines_path(&self) -> (p: Option<&str>)
        ensures
            match self@ {
                InteractionLogView::Disabled => p is None,
                InteractionLogView::JsonLines(path) => p is Some && p->0@ == path,
            },
    {
        match &self.destination {
            LogDestination::Disabled => None,
            LogDestination::JsonLines(path) => Some(path.as_str()),
        }
    }
}

impl Default for ProviderInteractionLog {
    fn default() -> (l: Self)
        ensures
            l@ == InteractionLogView::Disabled,
    {
        Self::disabled()
    }
}

/// The structured-output validation a completion went through.
#[derive(Debug, PartialEq, Eq)]
pub enum ProviderValidationOutcome {
    NotRequired,
    ValidNota,
    InvalidNota { error: String },
}

impl ProviderValidationOutcome {
    pub fn not_required() -> (o: Self)
        ensures
            o == ProviderValidationOutcome::NotRequired,
    {
        ProviderValidationOutcome::NotRequired
    }

    pub fn valid_nota() -> (o: Self)
        ensures
            o == ProviderValidationOutcome::ValidNota,
    {
        ProviderValidationOutcome::ValidNota
    }

    pub fn invalid_nota(error: String) -> (o: Self)
        ensures
            o matches ProviderValidationOutcome::InvalidNota { error: e } && e@ == error@,
    {
        ProviderValidationOutcome::InvalidNota { error }
    }
}

/// What the record says of the provider: its name, endpoint and model with
/// credential-looking values redacted, and the kind of authorization used.
pub struct ProviderMetadataLog {
    pub provider: String,
    pub endpoint: String,
    pub model: String,
    pub authorization: String,
}

pub struct MetadataLogView {
    pub provider: Seq<char>,
    pub endpoint: Seq<char>,
    pub model: Seq<char>,
    pub authorization: Seq<char>,
}

impl View for ProviderMetadataLog {
    type V = MetadataLogView;

    open spec fn view(&self) -> MetadataLogView {
        MetadataLogView {
            provider: self.provider@,
            endpoint: self.endpoint@,
            model: self.model@,
            authorization: self.authorization@,
        }
    }
}

pub open spec fn metadata_log(call: ProviderCallView) -> MetadataLogView {
    MetadataLogView {
        provider: redacted_metadata(call.provider_name),
        endpoint: redacted_url(call.endpoint),
        model: redacted_metadata(call.model),
        authorization: authorization_label(call.authorization),
    }
}

impl ProviderMetadataLog {
    pub fn from_call(call: &ProviderCall) -> (m: Self)
        ensures
            m@ == metadata_log(call@),
    {
        ProviderMetadataLog {
            provider: SecretRedactor::metadata(call.provider_name()),
            endpoint: SecretRedactor::url(call.endpoint()),
            model: SecretRedactor::metadata(call.model()),
            authorization: call.authorization().log_label().to_owned(),
        }
    }
}

/// What the record says of the request: the URL, the headers (a bearer
/// token shows only as `<redacted>`) and the JSON body, redacted.
pub struct ProviderRequestLog {
    pub url: String,
    pub headers: Vec<(String, String)>,
    pub body: JsonValue,
}

pub struct RequestLogView {
    pub url: Seq<char>,
    pub headers: Seq<(Seq<char>, Seq<char>)>,
    pub body: JsonTree,
}

impl View for ProviderRequestLog {
    type V = RequestLogView;

    open spec fn view(&self) -> RequestLogView {
        RequestLogView {
            url: self.url@,
            headers: self.headers@.map_values(|h: (String, String)| (h.0@, h.1@)),
            body: self.body@,
        }
    }
}

/// The headers as recorded.
pub open spec fn request_headers(a: AuthorizationView) -> Seq<(Seq<char>, Seq<char>)> {
    match a {
        AuthorizationView::Bearer(_) => seq![("authorization"@, "<redacted>"@)],
        AuthorizationView::Anonymous => Seq::empty(),
    }
}

pub open spec fn request_log(call: ProviderCallView) -> RequestLogView {
    RequestLogView {
        url: redacted_url(chat_completions_url_spec(call.endpoint)),
        headers: request_headers(call.authorization),
        body: redacted_tree(request_json(request_of_call(call))),
    }
}

impl ProviderRequestLog {
    pub fn from_call(call: &ProviderCall) -> (r: Self)
        ensures
            r@ == request_log(call@),
    {
        let mut headers: Vec<(String, String)> = Vec::new();
        if call.authorization().bearer_token().is_some() {
            headers.push(("authorization".to_owned(), "<redacted>".to_owned()));
        }
        let url = SecretRedactor::url(call.chat_completions_url().as_str());
        let body = SecretRedactor::json_value(&ChatCompletionRequest::from_call(call).to_json());
        let r = ProviderRequestLog { url, headers, body };
        proof {
            assert(r@.headers =~= request_headers(call@.authorization));
        }
        r
    }
}

/// A response body as recorded: a JSON body redacted, any other text as is.
pub enum ResponseBodyLog {
    Json(JsonValue),
    Text(String),
}

pub enum ResponseBodyView {
    Json(JsonTree),
    Text(Seq<char>),
}

impl View for ResponseBodyLog {
    type V = ResponseBodyView;

    open spec fn view(&self) -> ResponseBodyView {
        match self {
            ResponseBodyLog::Json(j) => ResponseBodyView::Json(j@),
            ResponseBodyLog::Text(t) => ResponseBodyView::Text(t@),
        }
    }
}

/// What the record says of the provider's HTTP response.
pub struct ProviderResponseLog {
    pub status: Option<u16>,
    pub body: Option<ResponseBodyLog>,
}

pub struct ResponseLogView {
    pub status: Option<u16>,
    pub body: Option<ResponseBodyView>,
}

impl View for ProviderResponseLog {
    type V = ResponseLogView;

    open spec fn view(&self) -> ResponseLogView {
        ResponseLogView {
            status: self.status,
            body: match self.body {
                Some(b) => Some(b@),
                None => None,
            },
        }
    }
}

/// A body as recorded: the JSON document it holds, redacted, or the text as
/// is when it is not JSON.
pub open spec fn body_log(body: Seq<char>) -> ResponseBodyView {
    match json_text_tree(body) {
        Some(j) => ResponseBodyView::Json(redacted_tree(j)),
        None => ResponseBodyView::Text(body),
    }
}

/// The response part of a record: absent when neither a status nor a body
/// came back.
pub open spec fn response_log(status: Option<u16>, body: Option<Seq<char>>) -> Option<ResponseLogView> {
    if status is None && body is None {
        None
    } else {
        Some(ResponseLogView {
            status,
            body: match body {
                Some(b) => Some(body_log(b)),
                None => None,
            },
        })
    }
}

/// The response part of a record for a failed call.
pub open spec fn failure_response_log(f: ProviderFailureView) -> Option<ResponseLogView> {
    match f {
        ProviderFailureView::ProviderRejected { response_status, response_body, .. } =>
            response_log(response_status, response_body),
        _ => None,
    }
}

impl ProviderResponseLog {
    /// A body as recorded.
    pub fn body_text(body: &str) -> (b: ResponseBodyLog)
        ensures
            b@ == body_log(body@),
    {
        match parse_json(body) {
            Some(j) => ResponseBodyLog::Json(SecretRedactor::json_value(&j)),
            None => ResponseBodyLog::Text(body.to_owned()),
        }
    }

    fn from_parts(status: Option<u16>, body: &Option<String>) -> (r: Option<Self>)
        ensures
            match r {
                Some(l) => response_log(status, opt_text(*body)) == Some(l@),
                None => response_log(status, opt_text(*body)) is None,
            },
    {
        if status.is_none() && body.is_none() {
            None
        } else {
            let body = match body {
                Some(b) => Some(Self::body_text(b.as_str())),
                None => None,
            };
            Some(ProviderResponseLog { status, body })
        }
    }

    /// The response part for a completed call.
    pub fn from_completion(completion: &ProviderCompletion) -> (r: Option<Self>)
        ensures
            match r {
                Some(l) => response_log(completion@.response_status, completion@.response_body) == Some(l@),
                None => response_log(completion@.response_status, completion@.response_body) is None,
            },
    {
        Self::from_parts(completion.response_status, &completion.response_body)
    }

    /// The response part for a failed call.
    pub fn from_failure(failure: &ProviderFailure) -> (r: Option<Self>)
        ensures
            match r {
                Some(l) => failure_response_log(failure@) == Some(l@),
                None => failure_response_log(failure@) is None,
            },
    {
        match failure {
            ProviderFailure::ProviderRejected { response_status, response_body, .. } =>
                Self::from_parts(*response_status, response_body),
            ProviderFailure::Unreachable(_) => None,
            ProviderFailure::OutputModeUnsupported => None,
        }
    }
}

/// What the provider returned, as recorded.
pub enum ProviderResultLog {
    Completed {
        completion_text: String,
        stop_reason: String,
        prompt_tokens: Option<u64>,
        completion_tokens: Option<u64>,
    },
    Failed { failure_kind: String, detail: String },
}

pub enum ResultLogView {
    Completed {
        completion_text: Seq<char>,
        stop_reason: Seq<char>,
        prompt_tokens: Option<u64>,
        completion_tokens: Option<u64>,
    },
    Failed { failure_kind: Seq<char>, detail: Seq<char> },
}

impl View for ProviderResultLog {
    type V = ResultLogView;

    open spec fn view(&self) -> ResultLogView {
        match self {
            ProviderResultLog::Completed { completion_text, stop_reason, prompt_tokens, completion_tokens } =>
                ResultLogView::Completed {
                    completion_text: completion_text@,
                    stop_reason: stop_reason@,
                    prompt_tokens: *prompt_tokens,
                    completion_tokens: *completion_tokens,
                },
            ProviderResultLog::Failed { failure_kind, detail } =>
                ResultLogView::Failed { failure_kind: failure_kind@, detail: detail@ },
        }
    }
}

pub open spec fn completed_result(c: ProviderCompletionView) -> ResultLogView {
    ResultLogView::Completed {
        completion_text: c.text,
        stop_reason: c.stop_reason,
        prompt_tokens: c.prompt_tokens,
        completion_tokens: c.completion_tokens,
    }
}

/// A failure as recorded: its kind and its detail, redacted.
pub open spec fn failed_result(f: ProviderFailureView) -> ResultLogView {
    match f {
        ProviderFailureView::Unreachable(d) =>
            ResultLogView::Failed { failure_kind: "unreachable"@, detail: redacted_metadata(d) },
        ProviderFailureView::ProviderRejected { detail, .. } =>
            ResultLogView::Failed { failure_kind: "provider_rejected"@, detail: redacted_metadata(detail) },
        ProviderFailureView::OutputModeUnsupported => ResultLogView::Failed {
            failure_kind: "output_mode_unsupported"@,
            detail: "provider does not support the requested output mode"@,
        },
    }
}

impl ProviderResultLog {
    pub fn completed(completion: &ProviderCompletion) -> (r: Self)
        ensures
            r@ == completed_result(completion@),
    {
        ProviderResultLog::Completed {
            completion_text: completion.text.clone(),
            stop_reason: completion.stop_reason.clone(),
            prompt_tokens: completion.prompt_tokens,
            completion_tokens: completion.completion_tokens,
        }
    }

    pub fn failed(failure: &ProviderFailure) -> (r: Self)
        ensures
            r@ == failed_result(failure@),
    {
        match failure {
            ProviderFailure::Unreachable(detail) => ProviderResultLog::Failed {
                failure_kind: "unreachable".to_owned(),
                detail: SecretRedactor::metadata(detail.as_str()),
            },
            ProviderFailure::ProviderRejected { detail, .. } => ProviderResultLog::Failed {
                failure_kind: "provider_rejected".to_owned(),
                detail: SecretRedactor::metadata(detail.as_str()),
            },
            ProviderFailure::OutputModeUnsupported => ProviderResultLog::Failed {
                failure_kind: "output_mode_unsupported".to_owned(),
                detail: "provider does not support the requested output mode".to_owned(),
            },
        }
    }
}

/// The validation step as recorded.
pub enum ProviderValidationLog {
    NotRequired,
    ValidNota,
    InvalidNota { error: String },
    NotReached,
}

pub enum ValidationLogView {
    NotRequired,
    ValidNota,
    InvalidNota { error: Seq<char> },
    NotReached,
}

impl View for ProviderValidationLog {
    type V = ValidationLogView;

    open spec fn view(&self) -> ValidationLogView {
        match self {
            ProviderValidationLog::NotRequired => ValidationLogView::NotRequired,
            ProviderValidationLog::ValidNota => ValidationLogView::ValidNota,
            ProviderValidationLog::InvalidNota { error } => ValidationLogView::InvalidNota { error: error@ },
            ProviderValidationLog::NotReached => ValidationLogView::NotReached,
        }
    }
}

pub open spec fn validation_log(o: ProviderValidationOutcome) -> ValidationLogView {
    match o {
        ProviderValidationOutcome::NotRequired => ValidationLogView::NotRequired,
        ProviderValidationOutcome::ValidNota => ValidationLogView::ValidNota,
        ProviderValidationOutcome::InvalidNota { error } => ValidationLogView::InvalidNota { error: error@ },
    }
}

impl ProviderValidationLog {
    pub fn from_outcome(outcome: ProviderValidationOutcome) -> (r: Self)
        ensures
            r@ == validation_log(outcome),
    {
        match outcome {
            ProviderValidationOutcome::NotRequired => ProviderValidationLog::NotRequired,
            ProviderValidationOutcome::ValidNota => ProviderValidationLog::ValidNota,
            ProviderValidationOutcome::InvalidNota { error } => ProviderValidationLog::InvalidNota { error },
        }
    }
}

/// What the daemon answered the caller, as recorded.
pub enum ProviderDaemonOutcomeLog {
    Completed,
    Rejected { reason: String, detail: String },
}

pub enum DaemonOutcomeView {
    Completed,
    Rejected { reason: Seq<char>, detail: Seq<char> },
}

impl View for ProviderDaemonOutcomeLog {
    type V = DaemonOutcomeView;

    open spec fn view(&self) -> DaemonOutcomeView {
        match self {
            ProviderDaemonOutcomeLog::Completed => DaemonOutcomeView::Completed,
            ProviderDaemonOutcomeLog::Rejected { reason, detail } =>
                DaemonOutcomeView::Rejected { reason: reason@, detail: detail@ },
        }
    }
}

/// The name of a rejection reason.
pub open spec fn rejection_reason_name_spec(r: CallRejectionReason) -> Seq<char> {
    match r {
        CallRejectionReason::NoProviderConfigured => "NoProviderConfigured"@,
        CallRejectionReason::DaemonUnconfigured => "DaemonUnconfigured"@,
        CallRejectionReason::ProviderUnreachable => "ProviderUnreachable"@,
        CallRejectionReason::ProviderRejected => "ProviderRejected"@,
        CallRejectionReason::OutputModeUnsupported => "OutputModeUnsupported"@,
        CallRejectionReason::InvalidNotaOutput => "InvalidNotaOutput"@,
    }
}

/// The name of a rejection reason.
pub fn rejection_reason_name(r: CallRejectionReason) -> (n: &'static str)
    ensures
        n@ == rejection_reason_name_spec(r),
{
    match r {
        CallRejectionReason::NoProviderConfigured => "NoProviderConfigured",
        CallRejectionReason::DaemonUnconfigured => "DaemonUnconfigured",
        CallRejectionReason::ProviderUnreachable => "ProviderUnreachable",
        CallRejectionReason::ProviderRejected => "ProviderRejected",
        CallRejectionReason::OutputModeUnsupported => "OutputModeUnsupported",
        CallRejectionReason::InvalidNotaOutput => "InvalidNotaOutput",
    }
}

pub open spec fn rejected_outcome(r: CallRejectionView) -> DaemonOutcomeView {
    DaemonOutcomeView::Rejected {
        reason: rejection_reason_name_spec(r.reason),
        detail: redacted_metadata(r.detail),
    }
}

impl ProviderDaemonOutcomeLog {
    pub fn rejected(rejection: &CallRejection) -> (r: Self)
        ensures
            r@ == rejected_outcome(rejection@),
    {
        ProviderDaemonOutcomeLog::Rejected {
            reason: rejection_reason_name(rejection.reason).to_owned(),
            detail: SecretRedactor::metadata(rejection.detail.as_str()),
        }
    }
}

/// `std::time::SystemTime`, carried through as an opaque value.
#[verifier::external_type_specification]
#[verifier::external_body]
pub struct ExSystemTime(std::time::SystemTime);

/// `std::time::SystemTimeError`, carried through as an opaque value.
#[verifier::external_type_specification]
#[verifier::external_body]
pub struct ExSystemTimeError(std::time::SystemTimeError);

/// Calls `SystemTime::now`: the system clock's reading, of which nothing is
/// promised.
#[verifier::external_body]
fn system_time_now() -> (t: std::time::SystemTime) {
    std::time::SystemTime::now()
}

/// Calls `SystemTime::duration_since` with the Unix epoch: the time elapsed
/// since the epoch, or an error for a reading before it.
#[verifier::external_body]
fn since_unix_epoch(t: &std::time::SystemTime) -> (d: Result<core::time::Duration, std::time::SystemTimeError>) {
    t.duration_since(std::time::UNIX_EPOCH)
}

/// Calls `Duration::as_millis`: the whole milliseconds of a duration.
#[verifier::external_body]
fn whole_millis(d: &core::time::Duration) -> (m: u128) {
    d.as_millis()
}

/// The current time in milliseconds since the Unix epoch; a clock set
/// before the epoch reads 0.
fn now_unix_millis() -> (t: u128) {
    match since_unix_epoch(&system_time_now()) {
        Ok(d) => whole_millis(&d),
        Err(_) => 0,
    }
}

/// One logged provider interaction.
pub struct ProviderInteractionRecord {
    pub timestamp_unix_millis: u128,
    pub provider: ProviderMetadataLog,
    pub request: ProviderRequestLog,
    pub response: Option<ProviderResponseLog>,
    pub provider_result: ProviderResultLog,
    pub validation: ProviderValidationLog,
    pub daemon_outcome: ProviderDaemonOutcomeLog,
}

pub struct InteractionRecordView {
    pub timestamp_unix_millis: u128,
    pub provider: MetadataLogView,
    pub request: RequestLogView,
    pub response: Option<ResponseLogView>,
    pub provider_result: ResultLogView,
    pub validation: ValidationLogView,
    pub daemon_outcome: DaemonOutcomeView,
}

impl View for ProviderInteractionRecord {
    type V = InteractionRecordView;

    open spec fn view(&self) -> InteractionRecordView {
        InteractionRecordView {
            timestamp_unix_millis: self.timestamp_unix_millis,
            provider: self.provider@,
            request: self.request@,
            response: match self.response {
                Some(r) => Some(r@),
                None => None,
            },
            provider_result: self.provider_result@,
            validation: self.validation@,
            daemon_outcome: self.daemon_outcome@,
        }
    }
}

/// A record of a call whose completion the daemon returned.
pub open spec fn completed_record(
    timestamp: u128,
    call: ProviderCallView,
    completion: ProviderCompletionView,
    validation: ProviderValidationOutcome,
) -> InteractionRecordView {
    InteractionRecordView {
        timestamp_unix_millis: timestamp,
        provider: metadata_log(call),
        request: request_log(call),
        response: response_log(completion.response_status, completion.response_body),
        provider_result: completed_result(completion),
        validation: validation_log(validation),
        daemon_outcome: DaemonOutcomeView::Completed,
    }
}

/// A record of a call the provider failed.
pub open spec fn rejected_record(
    timestamp: u128,
    call: ProviderCallView,
    failure: ProviderFailureView,
    rejection: CallRejectionView,
) -> InteractionRecordView {
    InteractionRecordView {
        timestamp_unix_millis: timestamp,
        provider: metadata_log(call),
        request: request_log(call),
        response: failure_response_log(failure),
        provider_result: failed_result(failure),
        validation: ValidationLogView::NotReached,
        daemon_outcome: rejected_outcome(rejection),
    }
}

/// A record of a call whose completion failed validation.
pub open spec fn validation_rejected_record(
    timestamp: u128,
    call: ProviderCallView,
    completion: ProviderCompletionView,
    validation_error: Seq<char>,
    rejection: CallRejectionView,
) -> InteractionRecordView {
    InteractionRecordView {
        timestamp_unix_millis: timestamp,
        provider: metadata_log(call),
        request: request_log(call),
        response: response_log(completion.response_status, completion.response_body),
        provider_result: completed_result(completion),
        validation: ValidationLogView::InvalidNota { error: validation_error },
        daemon_outcome: rejected_outcome(rejection),
    }
}

impl ProviderInteractionRecord {
    /// The record, at the given time, of a call whose completion the daemon
    /// returned.
    pub fn completed_at(
        timestamp_unix_millis: u128,
        call: &ProviderCall,
        completion: &ProviderCompletion,
        validation: ProviderValidationOutcome,
    ) -> (r: Self)
        ensures
            r@ == completed_record(timestamp_unix_millis, call@, completion@, validation),
    {
        ProviderInteractionRecord {
            timestamp_unix_millis,
            provider: ProviderMetadataLog::from_call(call),
            request: ProviderRequestLog::from_call(call),
            response: ProviderResponseLog::from_completion(completion),
            provider_result: ProviderResultLog::completed(completion),
            validation: ProviderValidationLog::from_outcome(validation),
            daemon_outcome: ProviderDaemonOutcomeLog::Completed,
        }
    }

    /// The record, stamped with the current time, of a call whose completion
    /// the daemon returned.
    pub fn completed(
        call: &ProviderCall,
        completion: &ProviderCompletion,
        validation: ProviderValidationOutcome,
    ) -> (r: Self)
        ensures
            r@ == completed_record(r@.timestamp_unix_millis, call@, completion@, validation),
    {
        Self::completed_at(now_unix_millis(), call, completion, validation)
    }

    /// The record, at the given time, of a call the provider failed.
    pub fn rejected_at(
        timestamp_unix_millis: u128,
        call: &ProviderCall,
        failure: &ProviderFailure,
        rejection: &CallRejection,
    ) -> (r: Self)
        ensures
            r@ == rejected_record(timestamp_unix_millis, call@, failure@, rejection@),
    {
        ProviderInteractionRecord {
            timestamp_unix_millis,
            provider: ProviderMetadataLog::from_call(call),
            request: ProviderRequestLog::from_call(call),
            response: ProviderResponseLog::from_failure(failure),
            provider_result: ProviderResultLog::failed(failure),
            validation: ProviderValidationLog::NotReached,
            daemon_outcome: ProviderDaemonOutcomeLog::rejected(rejection),
        }
    }

    /// The record, stamped with the current time, of a call the provider
    /// failed.
    pub fn rejected(
        call: &ProviderCall,
        failure: &ProviderFailure,
        rejection: &CallRejection,
    ) -> (r: Self)
        ensures
            r@ == rejected_record(r@.timestamp_unix_millis, call@, failure@, rejection@),
    {
        Self::rejected_at(now_unix_millis(), call, failure, rejection)
    }

    /// The record, at the given time, of a call whose completion failed
    /// structured-output validation.
    pub fn validation_rejected_at(
        timestamp_unix_millis: u128,
        call: &ProviderCall,
        completion: &ProviderCompletion,
        validation_error: &str,
        rejection: &CallRejection,
    ) -> (r: Self)
        ensures
            r@ == validation_rejected_record(
                timestamp_unix_millis, call@, completion@, validation_error@, rejection@),
    {
        ProviderInteractionRecord {
            timestamp_unix_millis,
            provider: ProviderMetadataLog::from_call(call),
            request: ProviderRequestLog::from_call(call),
            response: ProviderResponseLog::from_completion(completion),
            provider_result: ProviderResultLog::completed(completion),
            validation: ProviderValidationLog::InvalidNota { error: validation_error.to_owned() },
            daemon_outcome: ProviderDaemonOutcomeLog::rejected(rejection),
        }
    }

    /// The record, stamped with the current time, of a call whose completion
    /// failed structured-output validation.
    pub fn validation_rejected(
        call: &ProviderCall,
        completion: &ProviderCompletion,
        validation_error: &str,
        rejection: &CallRejection,
    ) -> (r: Self)
        ensures
            r@ == validation_rejected_record(
                r@.timestamp_unix_millis, call@, completion@, validation_error@, rejection@),
    {
        Self::validation_rejected_at(now_unix_millis(), call, completion, validation_error, rejection)
    }
}

/// A configured interaction log is never written over the agent database: a
/// JSON-lines log is opened only at a path that is not the database path.
pub proof fn law_log_never_targets_database(database_path: Seq<char>, logging: ProviderInteractionLoggingView)
    ensures
        configured_log(database_path, logging) matches Ok(InteractionLogView::JsonLines(p)) ==> !same_path(p, database_path),
        logging matches ProviderInteractionLoggingView::JsonLines(p) ==>
            (same_path(p, database_path) <==> configured_log(database_path, logging) is Err),
{
}

/// Whether a URL's query, after its first `?`, shows no value under a
/// credential-looking key.
pub open spec fn url_hidden(u: Seq<char>) -> bool {
    u.index_of_first('?') matches Some(i) ==> query_hidden(u.skip(i + 1))
}

/// Whether a metadata value is redacted or does not look like a credential.
pub open spec fn metadata_hidden(v: Seq<char>) -> bool {
    v == "<redacted>"@ || !credential_bearing(v)
}

/// What a record shows of credentials: provider and model names that look
/// like credentials are redacted, no URL query shows a credential, request
/// headers carry no token, and neither the request body nor a JSON response
/// body shows a value under a credential-looking key.
pub open spec fn record_hides_credentials(r: InteractionRecordView) -> bool {
    &&& metadata_hidden(r.provider.provider)
    &&& metadata_hidden(r.provider.model)
    &&& url_hidden(r.provider.endpoint)
    &&& url_hidden(r.request.url)
    &&& forall|i: int| 0 <= i < r.request.headers.len() ==> #[trigger] r.request.headers[i].1 == "<redacted>"@
    &&& credentials_hidden(r.request.body)
    &&& (r.response matches Some(resp) ==> (resp.body matches Some(ResponseBodyView::Json(j)) ==> credentials_hidden(j)))
}

proof fn lemma_url_hidden(u: Seq<char>)
    ensures
        url_hidden(redacted_url(u)),
{
    law_url_redaction_hides_credentials(u);
}

proof fn lemma_response_hides(status: Option<u16>, body: Option<Seq<char>>)
    ensures
        response_log(status, body) matches Some(resp) ==> (resp.body matches Some(ResponseBodyView::Json(j)) ==> credentials_hidden(j)),
{
    if let Some(b) = body {
        if let Some(j) = json_text_tree(b) {
            law_redaction_hides_credentials(j);
        }
    }
}

proof fn lemma_request_hides(call: ProviderCallView)
    ensures
        forall|i: int| 0 <= i < request_log(call).headers.len() ==> #[trigger] request_log(call).headers[i].1 == "<redacted>"@,
        credentials_hidden(request_log(call).body),
        url_hidden(request_log(call).url),
        url_hidden(metadata_log(call).endpoint),
{
    law_redaction_hides_credentials(request_json(request_of_call(call)));
    lemma_url_hidden(call.endpoint);
    lemma_url_hidden(chat_completions_url_spec(call.endpoint));
}

/// Every interaction record, whatever the call and the provider's answer,
/// keeps credentials out: credential-looking names are redacted, no URL
/// query shows a credential, no bearer token is in the headers, and no value
/// under a credential-looking key is in the request body or a JSON response
/// body.
pub proof fn law_records_hide_credentials(
    timestamp: u128,
    call: ProviderCallView,
    completion: ProviderCompletionView,
    failure: ProviderFailureView,
    validation: ProviderValidationOutcome,
    validation_error: Seq<char>,
    rejection: CallRejectionView,
)
    ensures
        record_hides_credentials(completed_record(timestamp, call, completion, validation)),
        record_hides_credentials(rejected_record(timestamp, call, failure, rejection)),
        record_hides_credentials(
            validation_rejected_record(timestamp, call, completion, validation_error, rejection),
        ),
{
    lemma_request_hides(call);
    lemma_response_hides(completion.response_status, completion.response_body);
    match failure {
        ProviderFailureView::ProviderRejected { response_status, response_body, .. } => {
            lemma_response_hides(response_status, response_body);
        },
        _ => {},
    }
}

/// The API key never reaches a record: two calls that differ only in their
/// bearer key are recorded alike.
pub proof fn law_records_independent_of_key(
    timestamp: u128,
    call: ProviderCallView,
    first_key: Seq<char>,
    second_key: Seq<char>,
    completion: ProviderCompletionView,
    failure: ProviderFailureView,
    validation: ProviderValidationOutcome,
    validation_error: Seq<char>,
    rejection: CallRejectionView,
)
    ensures
        ({
            let one = ProviderCallView { authorization: AuthorizationView::Bearer(first_key), ..call };
            let other = ProviderCallView { authorization: AuthorizationView::Bearer(second_key), ..call };
            &&& completed_record(timestamp, one, completion, validation)
                == completed_record(timestamp, other, completion, validation)
            &&& rejected_record(timestamp, one, failure, rejection)
                == rejected_record(timestamp, other, failure, rejection)
            &&& validation_rejected_record(timestamp, one, completion, validation_error, rejection)
                == validation_rejected_record(timestamp, other, completion, validation_error, rejection)
        }),
{
    let one = ProviderCallView { authorization: AuthorizationView::Bearer(first_key), ..call };
    let other = ProviderCallView { authorization: AuthorizationView::Bearer(second_key), ..call };
    assert(request_of_call(one) == request_of_call(other));
    assert(request_log(one) == request_log(other));
    assert(metadata_log(one) == metadata_log(other));
}

} // verus!
