//! The provider-call plane: the fully resolved call handed to an
//! OpenAI-compatible `/chat/completions` endpoint, and what comes back.

use vstd::prelude::*;
use crate::contract::{ChatRole, OutputMode, ReasoningEffort, ThinkingMode};
use crate::text::{trim_trailing_newlines, trim_trailing_newlines_spec, decimal, decimal_spec, milli_text, milli_text_spec, has_prefix};
use crate::json::{JsonValue, JsonTree, json_trees, json_members, lemma_json_trees, lemma_json_members};

verus! {

/// The instruction folded into the system message for structured output: the
/// model must emit exactly one NOTA expression.
pub const NOTA_OUTPUT_INSTRUCTION: &'static str = "Respond with exactly one valid NOTA s-expression and nothing else. NOTA uses bracket forms: parenthesised records like (Head field ...), bracketed strings like [free text], and bare camelCase or kebab-case tokens. Do not use quotation marks, markdown fences, or any prose outside the expression.";

/// A resolved secret API key, held only for the duration of one call.
pub struct ProviderApiKey(String);

impl View for ProviderApiKey {
    type V = Seq<char>;

    closed spec fn view(&self) -> Seq<char> {
        self.0@
    }
}

impl Clone for ProviderApiKey {
    fn clone(&self) -> (r: Self)
        ensures
            r@ == self@,
    {
        ProviderApiKey(self.0.clone())
    }
}

impl ProviderApiKey {
    pub fn new(value: String) -> (k: Self)
        ensures
            k@ == value@,
    {
        ProviderApiKey(value)
    }

    /// The key a secret backend printed, without its trailing line breaks.
    pub fn from_secret_output(value: String) -> (k: Self)
        ensures
            k@ == trim_trailing_newlines_spec(value@),
    {
        ProviderApiKey(trim_trailing_newlines(value.as_str()))
    }

    pub fn as_str(&self) -> (s: &str)
        ensures
            s@ == self@,
    {
        self.0.as_str()
    }

    pub fn is_empty(&self) -> (b: bool)
        ensures
            b == (self@.len() == 0),
    {
        self.0.as_str().unicode_len() == 0
    }
}

/// How a call authorizes itself: a bearer token, or no header at all.
pub enum ProviderAuthorization {
    Bearer(ProviderApiKey),
    Anonymous,
}

pub enum AuthorizationView {
    Bearer(Seq<char>),
    Anonymous,
}

impl View for ProviderAuthorization {
    type V = AuthorizationView;

    open spec fn view(&self) -> AuthorizationView {
        match self {
            ProviderAuthorization::Bearer(k) => AuthorizationView::Bearer(k@),
            ProviderAuthorization::Anonymous => AuthorizationView::Anonymous,
        }
    }
}

impl Clone for ProviderAuthorization {
    fn clone(&self) -> (r: Self)
        ensures
            r@ == self@,
    {
        match self {
            ProviderAuthorization::Bearer(k) => ProviderAuthorization::Bearer(k.clone()),
            ProviderAuthorization::Anonymous => ProviderAuthorization::Anonymous,
        }
    }
}

impl ProviderAuthorization {
    pub fn bearer(key: ProviderApiKey) -> (a: Self)
        ensures
            a@ == AuthorizationView::Bearer(key@),
    {
        ProviderAuthorization::Bearer(key)
    }

    pub fn none() -> (a: Self)
        ensures
            a@ == AuthorizationView::Anonymous,
    {
        ProviderAuthorization::Anonymous
    }

    /// The bearer token, when there is one.
    pub fn bearer_token(&self) -> (t: Option<&ProviderApiKey>)
        ensures
            match self@ {
                AuthorizationView::Bearer(k) => t is Some && t->0@ == k,
                AuthorizationView::Anonymous => t is None,
            },
    {
        match self {
            ProviderAuthorization::Bearer(k) => Some(k),
            ProviderAuthorization::Anonymous => None,
        }
    }

    /// The label an interaction record shows in place of the credential.
    pub fn log_label(&self) -> (l: &'static str)
        ensures
            l@ == authorization_label(self@),
    {
        match self {
            ProviderAuthorization::Bearer(_) => "bearer",
            ProviderAuthorization::Anonymous => "none",
        }
    }
}

pub open spec fn authorization_label(a: AuthorizationView) -> Seq<char> {
    match a {
        AuthorizationView::Bearer(_) => "bearer"@,
        AuthorizationView::Anonymous => "none"@,
    }
}

/// One chat turn handed to a provider.
pub struct ProviderMessage {
    role: ChatRole,
    content: String,
}

pub struct ProviderMessageView {
    pub role: ChatRole,
    pub content: Seq<char>,
}

impl View for ProviderMessage {
    type V = ProviderMessageView;

    closed spec fn view(&self) -> ProviderMessageView {
        ProviderMessageView { role: self.role, content: self.content@ }
    }
}

impl Clone for ProviderMessage {
    fn clone(&self) -> (r: Self)
        ensures
            r@ == self@,
    {
        ProviderMessage { role: self.role, content: self.content.clone() }
    }
}

/// The wire name of a chat role.
pub open spec fn role_name_spec(role: ChatRole) -> Seq<char> {
    match role {
        ChatRole::System => "system"@,
        ChatRole::User => "user"@,
        ChatRole::Assistant => "assistant"@,
    }
}

impl ProviderMessage {
    pub fn new(role: ChatRole, content: String) -> (m: Self)
        ensures
            m@ == (ProviderMessageView { role, content: content@ }),
    {
        ProviderMessage { role, content }
    }

    pub fn role(&self) -> (r: ChatRole)
        ensures
            r == self@.role,
    {
        self.role
    }

    pub fn role_name(&self) -> (n: &'static str)
        ensures
            n@ == role_name_spec(self@.role),
    {
        match self.role {
            ChatRole::System => "system",
            ChatRole::User => "user",
            ChatRole::Assistant => "assistant",
        }
    }

    pub fn content(&self) -> (c: &str)
        ensures
            c@ == self@.content,
    {
        self.content.as_str()
    }
}


/// One fully resolved provider call: endpoint, model, authorization and the
/// chat messages, plus the sampling options the prompt asked for.
pub struct ProviderCall {
    provider_name: String,
    endpoint: String,
    model: String,
    authorization: ProviderAuthorization,
    system: Option<String>,
    messages: Vec<ProviderMessage>,
    output_mode: OutputMode,
    temperature_milli: Option<u64>,
    maximum_output_tokens: Option<u64>,
    reasoning_effort: Option<ReasoningEffort>,
    thinking_mode: Option<ThinkingMode>,
}

pub struct ProviderCallView {
    pub provider_name: Seq<char>,
    pub endpoint: Seq<char>,
    pub model: Seq<char>,
    pub authorization: AuthorizationView,
    pub system: Option<Seq<char>>,
    pub messages: Seq<ProviderMessageView>,
    pub output_mode: OutputMode,
    pub temperature_milli: Option<u64>,
    pub maximum_output_tokens: Option<u64>,
    pub reasoning_effort: Option<ReasoningEffort>,
    pub thinking_mode: Option<ThinkingMode>,
}

pub open spec fn messages_view(ms: Seq<ProviderMessage>) -> Seq<ProviderMessageView> {
    ms.map_values(|m: ProviderMessage| m@)
}

pub open spec fn opt_text(o: Option<String>) -> Option<Seq<char>> {
    match o {
        Some(s) => Some(s@),
        None => None,
    }
}

impl View for ProviderCall {
    type V = ProviderCallView;

    closed spec fn view(&self) -> ProviderCallView {
        ProviderCallView {
            provider_name: self.provider_name@,
            endpoint: self.endpoint@,
            model: self.model@,
            authorization: self.authorization@,
            system: opt_text(self.system),
            messages: messages_view(self.messages@),
            output_mode: self.output_mode,
            temperature_milli: self.temperature_milli,
            maximum_output_tokens: self.maximum_output_tokens,
            reasoning_effort: self.reasoning_effort,
            thinking_mode: self.thinking_mode,
        }
    }
}

/// The `reasoning_effort` wire value for a typed effort.
pub open spec fn reasoning_effort_name(e: ReasoningEffort) -> Seq<char> {
    match e {
        ReasoningEffort::Low => "low"@,
        ReasoningEffort::Medium => "medium"@,
        ReasoningEffort::High => "high"@,
    }
}

/// The `thinking.type` wire value for a typed thinking toggle.
pub open spec fn thinking_name(t: ThinkingMode) -> Seq<char> {
    match t {
        ThinkingMode::Enabled => "enabled"@,
        ThinkingMode::Disabled => "disabled"@,
    }
}

/// The system message with the structured-output instruction folded in.
pub open spec fn system_with_instruction(system: Option<Seq<char>>) -> Seq<char> {
    match system {
        Some(existing) => existing + "\n\n"@ + NOTA_OUTPUT_INSTRUCTION@,
        None => NOTA_OUTPUT_INSTRUCTION@,
    }
}

/// The correction turn asking the model to repair an invalid answer.
pub open spec fn correction_text(parse_error: Seq<char>) -> Seq<char> {
    "That response was not valid NOTA ("@ + parse_error
        + "). Reply with exactly one valid NOTA expression and nothing else."@
}

/// The chat-completions URL under an endpoint: trailing slashes dropped.
pub open spec fn chat_completions_url_spec(endpoint: Seq<char>) -> Seq<char> {
    crate::text::trim_trailing_spec(endpoint, '/') + "/chat/completions"@
}

impl Clone for ProviderCall {
    fn clone(&self) -> (r: Self)
        ensures
            r@ == self@,
    {
        let messages = self.messages.clone();
        proof {
            assert forall|i: int| 0 <= i < messages@.len() implies messages@[i]@ == self.messages@[i]@ by {
                assert(cloned::<ProviderMessage>(self.messages[i], messages[i]));
            }
            assert(messages_view(messages@) =~= messages_view(self.messages@));
        }
        ProviderCall {
            provider_name: self.provider_name.clone(),
            endpoint: self.endpoint.clone(),
            model: self.model.clone(),
            authorization: self.authorization.clone(),
            system: clone_opt_text(&self.system),
            messages,
            output_mode: self.output_mode,
            temperature_milli: self.temperature_milli,
            maximum_output_tokens: self.maximum_output_tokens,
            reasoning_effort: self.reasoning_effort,
            thinking_mode: self.thinking_mode,
        }
    }
}

fn clone_opt_text(o: &Option<String>) -> (r: Option<String>)
    ensures
        opt_text(r) == opt_text(*o),
{
    match o {
        Some(s) => Some(s.clone()),
        None => None,
    }
}

impl ProviderCall {
    pub fn new(
        provider_name: String,
        endpoint: String,
        model: String,
        authorization: ProviderAuthorization,
        system: Option<String>,
        messages: Vec<ProviderMessage>,
        output_mode: OutputMode,
        temperature_milli: Option<u64>,
        maximum_output_tokens: Option<u64>,
        reasoning_effort: Option<ReasoningEffort>,
        thinking_mode: Option<ThinkingMode>,
    ) -> (c: Self)
        ensures
            c@ == (ProviderCallView {
                provider_name: provider_name@,
                endpoint: endpoint@,
                model: model@,
                authorization: authorization@,
                system: opt_text(system),
                messages: messages_view(messages@),
                output_mode,
                temperature_milli,
                maximum_output_tokens,
                reasoning_effort,
                thinking_mode,
            }),
    {
        ProviderCall {
            provider_name,
            endpoint,
            model,
            authorization,
            system,
            messages,
            output_mode,
            temperature_milli,
            maximum_output_tokens,
            reasoning_effort,
            thinking_mode,
        }
    }

    pub fn provider_name(&self) -> (s: &str)
        ensures
            s@ == self@.provider_name,
    {
        self.provider_name.as_str()
    }

    pub fn endpoint(&self) -> (s: &str)
        ensures
            s@ == self@.endpoint,
    {
        self.endpoint.as_str()
    }

    pub fn model(&self) -> (s: &str)
        ensures
            s@ == self@.model,
    {
        self.model.as_str()
    }

    pub fn authorization(&self) -> (a: &ProviderAuthorization)
        ensures
            a@ == self@.authorization,
    {
        &self.authorization
    }

    /// The bearer key of this call, when it carries one.
    pub fn api_key(&self) -> (k: Option<&ProviderApiKey>)
        ensures
            match self@.authorization {
                AuthorizationView::Bearer(key) => k is Some && k->0@ == key,
                AuthorizationView::Anonymous => k is None,
            },
    {
        self.authorization.bearer_token()
    }

    pub fn system(&self) -> (s: Option<&str>)
        ensures
            match self@.system {
                Some(t) => s is Some && s->0@ == t,
                None => s is None,
            },
    {
        match &self.system {
            Some(t) => Some(t.as_str()),
            None => None,
        }
    }

    pub fn messages(&self) -> (m: &[ProviderMessage])
        ensures
            messages_view(m@) == self@.messages,
    {
        self.messages.as_slice()
    }

    pub fn output_mode(&self) -> (m: OutputMode)
        ensures
            m == self@.output_mode,
    {
        self.output_mode
    }

    pub fn is_nota(&self) -> (b: bool)
        ensures
            b == (self@.output_mode == OutputMode::Nota),
    {
        match self.output_mode {
            OutputMode::Nota => true,
            OutputMode::FreeText => false,
        }
    }

    /// The temperature in thousandths, as the prompt gave it.
    pub fn temperature_milli(&self) -> (t: Option<u64>)
        ensures
            t == self@.temperature_milli,
    {
        self.temperature_milli
    }

    pub fn maximum_output_tokens(&self) -> (t: Option<u64>)
        ensures
            t == self@.maximum_output_tokens,
    {
        self.maximum_output_tokens
    }

    /// The OpenAI-compatible `reasoning_effort` string (`low`/`medium`/`high`).
    pub fn reasoning_effort(&self) -> (r: Option<&'static str>)
        ensures
            match self@.reasoning_effort {
                Some(e) => r is Some && r->0@ == reasoning_effort_name(e),
                None => r is None,
            },
    {
        match self.reasoning_effort {
            Some(ReasoningEffort::Low) => Some("low"),
            Some(ReasoningEffort::Medium) => Some("medium"),
            Some(ReasoningEffort::High) => Some("high"),
            None => None,
        }
    }

    /// The thinking toggle value (`enabled`/`disabled`).
    pub fn thinking_directive(&self) -> (r: Option<&'static str>)
        ensures
            match self@.thinking_mode {
                Some(t) => r is Some && r->0@ == thinking_name(t),
                None => r is None,
            },
    {
        match self.thinking_mode {
            Some(ThinkingMode::Enabled) => Some("enabled"),
            Some(ThinkingMode::Disabled) => Some("disabled"),
            None => None,
        }
    }

    /// The URL the call is posted to.
    pub fn chat_completions_url(&self) -> (u: String)
        ensures
            u@ == chat_completions_url_spec(self@.endpoint),
    {
        let mut u = crate::text::trim_trailing(self.endpoint.as_str(), '/');
        u.append("/chat/completions");
        u
    }

    /// A copy of this call with the structured-output instruction folded into
    /// the system message.
    pub fn with_nota_instruction(&self) -> (c: Self)
        ensures
            c@ == (ProviderCallView { system: Some(system_with_instruction(self@.system)), ..self@ }),
    {
        let system = match &self.system {
            Some(existing) => {
                let mut s = existing.clone();
                s.append("\n\n");
                s.append(NOTA_OUTPUT_INSTRUCTION);
                s
            },
            None => NOTA_OUTPUT_INSTRUCTION.to_owned(),
        };
        let mut c = self.clone();
        c.system = Some(system);
        c
    }

    /// A copy of this call extended with the model's invalid previous answer and
    /// a correction turn.
    pub fn with_nota_correction(&self, previous: &str, parse_error: &str) -> (c: Self)
        ensures
            c@ == (ProviderCallView {
                messages: self@.messages.push(
                    ProviderMessageView { role: ChatRole::Assistant, content: previous@ },
                ).push(ProviderMessageView { role: ChatRole::User, content: correction_text(parse_error@) }),
                ..self@
            }),
    {
        let mut correction = "That response was not valid NOTA (".to_owned();
        correction.append(parse_error);
        correction.append("). Reply with exactly one valid NOTA expression and nothing else.");
        let mut c = self.clone();
        c.messages.push(ProviderMessage::new(ChatRole::Assistant, previous.to_owned()));
        c.messages.push(ProviderMessage::new(ChatRole::User, correction));
        proof {
            assert(messages_view(c.messages@) =~= self@.messages.push(
                ProviderMessageView { role: ChatRole::Assistant, content: previous@ },
            ).push(ProviderMessageView { role: ChatRole::User, content: correction_text(parse_error@) }));
        }
        c
    }
}


/// The successful provider result.
#[derive(Debug, PartialEq, Eq)]
pub struct ProviderCompletion {
    pub text: String,
    pub stop_reason: String,
    pub prompt_tokens: Option<u64>,
    pub completion_tokens: Option<u64>,
    pub response_status: Option<u16>,
    pub response_body: Option<String>,
}

pub struct ProviderCompletionView {
    pub text: Seq<char>,
    pub stop_reason: Seq<char>,
    pub prompt_tokens: Option<u64>,
    pub completion_tokens: Option<u64>,
    pub response_status: Option<u16>,
    pub response_body: Option<Seq<char>>,
}

impl View for ProviderCompletion {
    type V = ProviderCompletionView;

    open spec fn view(&self) -> ProviderCompletionView {
        ProviderCompletionView {
            text: self.text@,
            stop_reason: self.stop_reason@,
            prompt_tokens: self.prompt_tokens,
            completion_tokens: self.completion_tokens,
            response_status: self.response_status,
            response_body: opt_text(self.response_body),
        }
    }
}

impl Clone for ProviderCompletion {
    fn clone(&self) -> (r: Self)
        ensures
            r@ == self@,
    {
        ProviderCompletion {
            text: self.text.clone(),
            stop_reason: self.stop_reason.clone(),
            prompt_tokens: self.prompt_tokens,
            completion_tokens: self.completion_tokens,
            response_status: self.response_status,
            response_body: clone_opt_text(&self.response_body),
        }
    }
}

impl ProviderCompletion {
    /// A completion as a provider reports it, without the raw HTTP exchange.
    pub fn new(text: String, stop_reason: String, prompt_tokens: Option<u64>, completion_tokens: Option<u64>) -> (c: Self)
        ensures
            c@ == (ProviderCompletionView {
                text: text@,
                stop_reason: stop_reason@,
                prompt_tokens,
                completion_tokens,
                response_status: None,
                response_body: None,
            }),
    {
        ProviderCompletion { text, stop_reason, prompt_tokens, completion_tokens, response_status: None, response_body: None }
    }
}

/// A typed provider-call failure.
#[derive(Debug, PartialEq, Eq, Clone)]
pub enum ProviderFailure {
    Unreachable(String),
    ProviderRejected { detail: String, response_status: Option<u16>, response_body: Option<String> },
    OutputModeUnsupported,
}

pub enum ProviderFailureView {
    Unreachable(Seq<char>),
    ProviderRejected { detail: Seq<char>, response_status: Option<u16>, response_body: Option<Seq<char>> },
    OutputModeUnsupported,
}

impl View for ProviderFailure {
    type V = ProviderFailureView;

    open spec fn view(&self) -> ProviderFailureView {
        match self {
            ProviderFailure::Unreachable(d) => ProviderFailureView::Unreachable(d@),
            ProviderFailure::ProviderRejected { detail, response_status, response_body } =>
                ProviderFailureView::ProviderRejected {
                    detail: detail@,
                    response_status: *response_status,
                    response_body: opt_text(*response_body),
                },
            ProviderFailure::OutputModeUnsupported => ProviderFailureView::OutputModeUnsupported,
        }
    }
}

/// The text the fixture answers a call with: a fixed NOTA expression for
/// structured output, an echo of the last user turn otherwise.
pub open spec fn fixture_text(call: ProviderCallView) -> Seq<char> {
    match call.output_mode {
        OutputMode::Nota => "(FixtureCompletion ok)"@,
        OutputMode::FreeText => "fixture completion for: "@ + last_user_content(call.messages),
    }
}

/// The content of the last user turn, or the empty text when there is none.
pub open spec fn last_user_content(ms: Seq<ProviderMessageView>) -> Seq<char>
    decreases ms.len(),
{
    if ms.len() == 0 {
        Seq::empty()
    } else if ms.last().role == ChatRole::User {
        ms.last().content
    } else {
        last_user_content(ms.drop_last())
    }
}

/// A deterministic offline provider: no network, no key.
#[derive(Debug, Default, Clone, Copy)]
pub struct FixtureProvider;

impl FixtureProvider {
    pub fn new() -> (p: Self) {
        FixtureProvider
    }

    /// The fixture's answer to a call.
    pub fn fixture_completion(call: &ProviderCall) -> (c: ProviderCompletion)
        ensures
            c@ == (ProviderCompletionView {
                text: fixture_text(call@),
                stop_reason: "stop"@,
                prompt_tokens: None,
                completion_tokens: None,
                response_status: None,
                response_body: None,
            }),
    {
        let text = match call.output_mode {
            OutputMode::Nota => "(FixtureCompletion ok)".to_owned(),
            OutputMode::FreeText => {
                let mut t = "fixture completion for: ".to_owned();
                t.append(last_user_message(&call.messages));
                t
            },
        };
        ProviderCompletion::new(text, "stop".to_owned(), None, None)
    }
}

fn last_user_message(ms: &Vec<ProviderMessage>) -> (s: &str)
    ensures
        s@ == last_user_content(messages_view(ms@)),
{
    let mut i = ms.len();
    assert(messages_view(ms@).take(i as int) =~= messages_view(ms@));
    while i > 0
        invariant
            i <= ms.len(),
            last_user_content(messages_view(ms@)) == last_user_content(messages_view(ms@).take(i as int)),
        decreases i,
    {
        let ghost t = messages_view(ms@).take(i as int);
        proof {
            assert(t.last() == ms@[i - 1]@);
            assert(t.drop_last() =~= messages_view(ms@).take(i - 1));
        }
        if ms[i - 1].role == ChatRole::User {
            return ms[i - 1].content.as_str();
        }
        i = i - 1;
    }
    proof {
        reveal_strlit("");
        assert(messages_view(ms@).take(0) =~= Seq::<ProviderMessageView>::empty());
    }
    ""
}

/// One chat message as sent on the wire.
pub struct ChatCompletionMessage {
    pub role: String,
    pub content: String,
}

impl View for ChatCompletionMessage {
    type V = (Seq<char>, Seq<char>);

    open spec fn view(&self) -> (Seq<char>, Seq<char>) {
        (self.role@, self.content@)
    }
}

/// The body of a chat-completions request.
pub struct ChatCompletionRequest {
    pub model: String,
    pub messages: Vec<ChatCompletionMessage>,
    /// The sampling temperature in thousandths.
    pub temperature_milli: Option<u64>,
    pub max_tokens: Option<u64>,
    pub reasoning_effort: Option<String>,
    /// The `type` of the `thinking` toggle object.
    pub thinking: Option<String>,
}

pub struct ChatCompletionRequestView {
    pub model: Seq<char>,
    pub messages: Seq<(Seq<char>, Seq<char>)>,
    pub temperature_milli: Option<u64>,
    pub max_tokens: Option<u64>,
    pub reasoning_effort: Option<Seq<char>>,
    pub thinking: Option<Seq<char>>,
}

impl View for ChatCompletionRequest {
    type V = ChatCompletionRequestView;

    open spec fn view(&self) -> ChatCompletionRequestView {
        ChatCompletionRequestView {
            model: self.model@,
            messages: self.messages@.map_values(|m: ChatCompletionMessage| m@),
            temperature_milli: self.temperature_milli,
            max_tokens: self.max_tokens,
            reasoning_effort: opt_text(self.reasoning_effort),
            thinking: opt_text(self.thinking),
        }
    }
}

/// The wire messages of a call: the system message first, when there is one,
/// then each chat turn with its role name.
pub open spec fn wire_messages(system: Option<Seq<char>>, ms: Seq<ProviderMessageView>) -> Seq<(Seq<char>, Seq<char>)> {
    let turns = ms.map_values(|m: ProviderMessageView| (role_name_spec(m.role), m.content));
    match system {
        Some(s) => seq![("system"@, s)] + turns,
        None => turns,
    }
}

/// Whether a model takes a sampling temperature: the `gpt-5` family only
/// runs at its default one.
pub open spec fn takes_temperature(model: Seq<char>) -> bool {
    !"gpt-5"@.is_prefix_of(model)
}

/// The request body for a call.
pub open spec fn request_of_call(c: ProviderCallView) -> ChatCompletionRequestView {
    ChatCompletionRequestView {
        model: c.model,
        messages: wire_messages(c.system, c.messages),
        temperature_milli: if takes_temperature(c.model) { c.temperature_milli } else { None },
        max_tokens: c.maximum_output_tokens,
        reasoning_effort: match c.reasoning_effort {
            Some(e) => Some(reasoning_effort_name(e)),
            None => None,
        },
        thinking: match c.thinking_mode {
            Some(t) => Some(thinking_name(t)),
            None => None,
        },
    }
}

/// The JSON object of one wire message.
pub open spec fn message_json(m: (Seq<char>, Seq<char>)) -> JsonTree {
    JsonTree::Object(seq![("role"@, JsonTree::Text(m.0)), ("content"@, JsonTree::Text(m.1))])
}

/// A member that is present only when its value is.
pub open spec fn optional_member(key: Seq<char>, value: Option<JsonTree>) -> Seq<(Seq<char>, JsonTree)> {
    match value {
        Some(v) => seq![(key, v)],
        None => Seq::empty(),
    }
}

/// The JSON document of a request body; absent options are left out.
pub open spec fn request_json(r: ChatCompletionRequestView) -> JsonTree {
    JsonTree::Object(
        seq![
            ("model"@, JsonTree::Text(r.model)),
            ("messages"@, JsonTree::Array(r.messages.map_values(|m: (Seq<char>, Seq<char>)| message_json(m)))),
        ]
        + optional_member("temperature"@, match r.temperature_milli {
            Some(t) => Some(JsonTree::Number(milli_text_spec(t as nat))),
            None => None,
        })
        + optional_member("max_tokens"@, match r.max_tokens {
            Some(n) => Some(JsonTree::Number(decimal_spec(n as nat))),
            None => None,
        })
        + optional_member("reasoning_effort"@, match r.reasoning_effort {
            Some(e) => Some(JsonTree::Text(e)),
            None => None,
        })
        + optional_member("thinking"@, match r.thinking {
            Some(k) => Some(JsonTree::Object(seq![("type"@, JsonTree::Text(k))])),
            None => None,
        }),
    )
}

fn push_member(members: &mut Vec<(String, JsonValue)>, key: &str, value: JsonValue)
    ensures
        final(members)@.len() == old(members)@.len() + 1,
        json_members(final(members)@) == json_members(old(members)@).push((key@, value@)),
{
    let ghost before = members@;
    members.push((key.to_owned(), value));
    proof {
        assert(members@.drop_last() =~= before);
    }
}

impl ChatCompletionRequest {
    /// The request body for a call.
    pub fn from_call(call: &ProviderCall) -> (r: Self)
        ensures
            r@ == request_of_call(call@),
    {
        let mut messages: Vec<ChatCompletionMessage> = Vec::new();
        if let Some(system) = call.system() {
            messages.push(ChatCompletionMessage { role: "system".to_owned(), content: system.to_owned() });
        }
        let ghost head = messages@.map_values(|m: ChatCompletionMessage| m@);
        let ghost turns = call@.messages.map_values(|m: ProviderMessageView| (role_name_spec(m.role), m.content));
        proof {
            reveal_strlit("system");
            assert(head == match call@.system {
                Some(s) => seq![("system"@, s)],
                None => Seq::<(Seq<char>, Seq<char>)>::empty(),
            });
        }
        let ms = call.messages();
        let hl: usize = messages.len();
        let mut i: usize = 0;
        while i < ms.len()
            invariant
                i <= ms.len(),
                hl == head.len(),
                messages_view(ms@) == call@.messages,
                turns == call@.messages.map_values(|m: ProviderMessageView| (role_name_spec(m.role), m.content)),
                messages.len() == hl + i,
                forall|k: int| 0 <= k < hl ==> #[trigger] messages@[k]@ == head[k],
                forall|k: int| 0 <= k < i ==> #[trigger] messages@[hl + k]@ == turns[k],
            decreases ms.len() - i,
        {
            let m = &ms[i];
            messages.push(ChatCompletionMessage { role: m.role_name().to_owned(), content: m.content().to_owned() });
            proof {
                assert(messages_view(ms@)[i as int] == ms@[i as int]@);
                assert(messages@[hl + i as int]@ == turns[i as int]);
            }
            i = i + 1;
        }
        proof {
            assert(messages_view(ms@).len() == ms@.len());
            let mapped = messages@.map_values(|m: ChatCompletionMessage| m@);
            assert forall|k: int| 0 <= k < messages.len() implies #[trigger] mapped[k]
                == (head + turns)[k] by {
                if k >= hl {
                    assert(messages@[hl + (k - hl)]@ == turns[k - hl]);
                }
            }
            assert(mapped =~= head + turns);
        }
        let temperature_milli = if has_prefix(call.model(), "gpt-5") {
            None
        } else {
            call.temperature_milli()
        };
        let reasoning_effort = match call.reasoning_effort() {
            Some(e) => Some(e.to_owned()),
            None => None,
        };
        let thinking = match call.thinking_directive() {
            Some(k) => Some(k.to_owned()),
            None => None,
        };
        let r = ChatCompletionRequest {
            model: call.model().to_owned(),
            messages,
            temperature_milli,
            max_tokens: call.maximum_output_tokens(),
            reasoning_effort,
            thinking,
        };
        proof {
            assert(r@.messages =~= wire_messages(call@.system, call@.messages));
        }
        r
    }

    /// The request body as a JSON document.
    pub fn to_json(&self) -> (j: JsonValue)
        ensures
            j@ == request_json(self@),
    {
        let mut items: Vec<JsonValue> = Vec::new();
        let mut i: usize = 0;
        while i < self.messages.len()
            invariant
                i <= self.messages.len(),
                items.len() == i,
                forall|k: int| 0 <= k < i ==> #[trigger] items@[k]@ == message_json(self.messages@[k]@),
            decreases self.messages.len() - i,
        {
            let m = &self.messages[i];
            let mut fields: Vec<(String, JsonValue)> = Vec::new();
            push_member(&mut fields, "role", JsonValue::Text(m.role.clone()));
            push_member(&mut fields, "content", JsonValue::Text(m.content.clone()));
            proof {
                reveal_strlit("role");
                reveal_strlit("content");
                assert(json_members(fields@) =~= seq![("role"@, JsonTree::Text(m.role@)), ("content"@, JsonTree::Text(m.content@))]) by {
                    reveal_with_fuel(json_members, 3);
                }
            }
            items.push(JsonValue::Object(fields));
            i = i + 1;
        }
        proof {
            lemma_json_trees(items@);
            assert forall|k: int| 0 <= k < items.len() implies #[trigger] json_trees(items@)[k]
                == self@.messages.map_values(|m: (Seq<char>, Seq<char>)| message_json(m))[k] by {
                assert(items@[k]@ == message_json(self.messages@[k]@));
            }
            assert(json_trees(items@) =~= self@.messages.map_values(|m: (Seq<char>, Seq<char>)| message_json(m)));
        }
        let mut members: Vec<(String, JsonValue)> = Vec::new();
        push_member(&mut members, "model", JsonValue::Text(self.model.clone()));
        push_member(&mut members, "messages", JsonValue::Array(items));
        let ghost base = json_members(members@);
        proof {
            reveal_strlit("model");
            reveal_strlit("messages");
            assert(json_members(Seq::<(String, JsonValue)>::empty()) =~= Seq::<(Seq<char>, JsonTree)>::empty());
            assert(base =~= seq![
                ("model"@, JsonTree::Text(self@.model)),
                ("messages"@, JsonTree::Array(self@.messages.map_values(|m: (Seq<char>, Seq<char>)| message_json(m)))),
            ]);
        }
        if let Some(t) = self.temperature_milli {
            push_member(&mut members, "temperature", JsonValue::Number(milli_text(t)));
        }
        let ghost after_temperature = json_members(members@);
        if let Some(n) = self.max_tokens {
            push_member(&mut members, "max_tokens", JsonValue::Number(decimal(n)));
        }
        let ghost after_tokens = json_members(members@);
        if let Some(e) = &self.reasoning_effort {
            push_member(&mut members, "reasoning_effort", JsonValue::Text(e.clone()));
        }
        let ghost after_effort = json_members(members@);
        if let Some(k) = &self.thinking {
            let mut directive: Vec<(String, JsonValue)> = Vec::new();
            push_member(&mut directive, "type", JsonValue::Text(k.clone()));
            proof {
                reveal_strlit("type");
                assert(json_members(directive@) =~= seq![("type"@, JsonTree::Text(k@))]) by {
                    reveal_with_fuel(json_members, 2);
                }
            }
            push_member(&mut members, "thinking", JsonValue::Object(directive));
        }
        proof {
            reveal_strlit("temperature");
            reveal_strlit("max_tokens");
            reveal_strlit("reasoning_effort");
            reveal_strlit("thinking");
            let r = self@;
            let t1 = optional_member("temperature"@, match r.temperature_milli {
                Some(t) => Some(JsonTree::Number(milli_text_spec(t as nat))),
                None => None,
            });
            let t2 = optional_member("max_tokens"@, match r.max_tokens {
                Some(n) => Some(JsonTree::Number(decimal_spec(n as nat))),
                None => None,
            });
            let t3 = optional_member("reasoning_effort"@, match r.reasoning_effort {
                Some(e) => Some(JsonTree::Text(e)),
                None => None,
            });
            let t4 = optional_member("thinking"@, match r.thinking {
                Some(k) => Some(JsonTree::Object(seq![("type"@, JsonTree::Text(k))])),
                None => None,
            });
            assert(after_temperature =~= base + t1);
            assert(after_tokens =~= base + t1 + t2);
            assert(after_effort =~= base + t1 + t2 + t3);
            assert(json_members(members@) =~= base + t1 + t2 + t3 + t4);
        }
        JsonValue::Object(members)
    }
}

/// What a chat-completions response body says, as plain values.
pub struct ChatCompletionResponse {
    pub choices: Vec<ChatCompletionChoice>,
    pub usage: Option<ChatCompletionUsage>,
}

/// One choice of a chat-completions response.
pub struct ChatCompletionChoice {
    pub content: String,
    pub finish_reason: Option<String>,
}

/// The token usage a chat-completions response reports.
#[derive(Clone, Copy)]
pub struct ChatCompletionUsage {
    pub prompt_tokens: Option<u64>,
    pub completion_tokens: Option<u64>,
}

impl ChatCompletionResponse {
    /// The completion of the first choice; a response without choices is a
    /// provider rejection.
    pub fn into_provider_completion(self) -> (r: Result<ProviderCompletion, ProviderFailure>)
        ensures
            self.choices.len() == 0 ==> r is Err && r->Err_0@ == (ProviderFailureView::ProviderRejected {
                detail: "response carried no choices"@,
                response_status: None,
                response_body: None,
            }),
            self.choices.len() > 0 ==> r is Ok && r->Ok_0@ == (ProviderCompletionView {
                text: self.choices[0].content@,
                stop_reason: match self.choices[0].finish_reason {
                    Some(f) => f@,
                    None => "stop"@,
                },
                prompt_tokens: match self.usage {
                    Some(u) => u.prompt_tokens,
                    None => None,
                },
                completion_tokens: match self.usage {
                    Some(u) => u.completion_tokens,
                    None => None,
                },
                response_status: None,
                response_body: None,
            }),
    {
        let usage = self.usage;
        let mut choices = self.choices;
        if choices.len() == 0 {
            return Err(ProviderFailure::ProviderRejected {
                detail: "response carried no choices".to_owned(),
                response_status: None,
                response_body: None,
            });
        }
        let choice = choices.swap_remove(0);
        let stop_reason = match choice.finish_reason {
            Some(f) => f,
            None => "stop".to_owned(),
        };
        let (prompt_tokens, completion_tokens) = match usage {
            Some(u) => (u.prompt_tokens, u.completion_tokens),
            None => (None, None),
        };
        Ok(ProviderCompletion::new(choice.content, stop_reason, prompt_tokens, completion_tokens))
    }
}

/// Whether an HTTP status is a success (`2xx`).
pub open spec fn status_success(status: u16) -> bool {
    200 <= status < 300
}

/// What a provider call yields from the HTTP exchange: the status code, its
/// display line (`404 Not Found`), the response body, and the body decoded as
/// a chat-completions response or the decoder's error message.
pub open spec fn response_outcome_spec(
    status: u16,
    status_line: Seq<char>,
    body: Seq<char>,
    decoded: Result<ChatCompletionResponse, Seq<char>>,
) -> Result<ProviderCompletionView, ProviderFailureView> {
    let rejected = |detail: Seq<char>| ProviderFailureView::ProviderRejected {
        detail,
        response_status: Some(status),
        response_body: Some(body),
    };
    if !status_success(status) {
        Err(rejected("status "@ + status_line + ": "@ + body))
    } else {
        match decoded {
            Err(e) => Err(rejected(e)),
            Ok(r) => if r.choices.len() == 0 {
                Err(rejected("response carried no choices"@))
            } else {
                Ok(ProviderCompletionView {
                    text: r.choices[0].content@,
                    stop_reason: match r.choices[0].finish_reason {
                        Some(f) => f@,
                        None => "stop"@,
                    },
                    prompt_tokens: match r.usage {
                        Some(u) => u.prompt_tokens,
                        None => None,
                    },
                    completion_tokens: match r.usage {
                        Some(u) => u.completion_tokens,
                        None => None,
                    },
                    response_status: Some(status),
                    response_body: Some(body),
                })
            },
        }
    }
}

/// The result of a provider call from its HTTP exchange: a non-success
/// status, an undecodable body and a response without choices are provider
/// rejections carrying the status and body; otherwise the first choice.
pub fn response_outcome(
    status: u16,
    status_line: &str,
    body: String,
    decoded: Result<ChatCompletionResponse, String>,
) -> (r: Result<ProviderCompletion, ProviderFailure>)
    ensures
        r matches Ok(c) ==> response_outcome_spec(status, status_line@, body@, match decoded {
            Ok(d) => Ok(d),
            Err(e) => Err(e@),
        }) == Ok::<ProviderCompletionView, ProviderFailureView>(c@),
        r matches Err(f) ==> response_outcome_spec(status, status_line@, body@, match decoded {
            Ok(d) => Ok(d),
            Err(e) => Err(e@),
        }) == Err::<ProviderCompletionView, ProviderFailureView>(f@),
{
    if status < 200 || status >= 300 {
        let mut detail = "status ".to_owned();
        detail.append(status_line);
        detail.append(": ");
        detail.append(body.as_str());
        return Err(ProviderFailure::ProviderRejected { detail, response_status: Some(status), response_body: Some(body) });
    }
    match decoded {
        Err(e) => Err(ProviderFailure::ProviderRejected { detail: e, response_status: Some(status), response_body: Some(body) }),
        Ok(response) => match response.into_provider_completion() {
            Ok(c) => Ok(ProviderCompletion {
                text: c.text,
                stop_reason: c.stop_reason,
                prompt_tokens: c.prompt_tokens,
                completion_tokens: c.completion_tokens,
                response_status: Some(status),
                response_body: Some(body),
            }),
            Err(ProviderFailure::ProviderRejected { detail, .. }) =>
                Err(ProviderFailure::ProviderRejected { detail, response_status: Some(status), response_body: Some(body) }),
            Err(other) => Err(other),
        },
    }
}

/// The request body keeps the call's sampling temperature for every model
/// outside the `gpt-5` family and leaves it out for that family alone; the
/// model, token limit and the chat turns' number (one more with a system
/// message) are the call's.
pub proof fn law_request_keeps_call_options(c: ProviderCallView)
    ensures
        !"gpt-5"@.is_prefix_of(c.model) ==> request_of_call(c).temperature_milli == c.temperature_milli,
        "gpt-5"@.is_prefix_of(c.model) ==> request_of_call(c).temperature_milli is None,
        request_of_call(c).model == c.model,
        request_of_call(c).max_tokens == c.maximum_output_tokens,
        request_of_call(c).messages.len() == c.messages.len() + (if c.system is Some { 1int } else { 0int }),
{
}

/// A successful HTTP answer with a choice becomes a completion that carries
/// the first choice's text, its finish reason (`stop` when none is given),
/// the reported prompt and completion token counts each in its own place, and
/// the status and body; the first choice of any other answer is never used.
pub proof fn law_response_carries_first_choice(
    status: u16,
    status_line: Seq<char>,
    body: Seq<char>,
    r: ChatCompletionResponse,
)
    ensures
        200 <= status < 300 && r.choices.len() > 0 ==> (response_outcome_spec(status, status_line, body, Ok(r))
            matches Ok(c) && c.text == r.choices[0].content@
            && (r.choices[0].finish_reason matches Some(f) ==> c.stop_reason == f@)
            && (r.choices[0].finish_reason is None ==> c.stop_reason == "stop"@)
            && (r.usage matches Some(u) ==> c.prompt_tokens == u.prompt_tokens && c.completion_tokens == u.completion_tokens)
            && (r.usage is None ==> c.prompt_tokens is None && c.completion_tokens is None)
            && c.response_status == Some(status) && c.response_body == Some(body)),
        !(200 <= status < 300) || r.choices.len() == 0 ==> response_outcome_spec(status, status_line, body, Ok(r)) is Err,
{
}
} // verus!
