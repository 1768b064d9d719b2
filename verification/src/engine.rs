//! The agent engine: one ordinary request in, at most one provider effect at a
//! time out, one reply at the end.
//!
//! A call turn is a small state machine. `AgentEngine::start` takes the
//! request and answers with the next `TurnStep`: a reply, or an effect to
//! perform (resolve a secret, call the provider, check a NOTA answer) together
//! with the pending state that takes the effect's result. The process edge
//! performs each effect and hands its outcome back.

use vstd::prelude::*;
use crate::contract::{
    AgentInput, AgentOperation, AgentOutput, AgentOutputView, CallRejection, CallRejectionReason,
    CallRejectionView, ChatRole, Completion, CompletionView, OutputMode, Prompt, PromptView,
    TokenUsage, UnimplementedReason,
};
use crate::provider::{
    AuthorizationView, ProviderApiKey, ProviderCall, ProviderCallView, ProviderCompletion,
    ProviderCompletionView, ProviderFailure, ProviderFailureView, ProviderMessageView,
    correction_text, system_with_instruction,
};
use crate::registry::{
    CallPlan, KeyResolutionError, KeyResolutionErrorView, ProviderEntry, ProviderEntryView,
    ProviderRegistry, RegistryView, ResolveError, ResolveErrorView, SecretSource, SecretSourceView,
    call_for, configured, entry_named, has_name, key_error_text, needs_secret, plan_outcome, registry_well_formed,
    retired, with_default,
};
use crate::text::{decimal, decimal_spec};
use crate::config::{AgentDaemonConfiguration, ProviderSeed};

verus! {

/// How many answers a structured-output call may take before it is rejected.
pub const NOTA_OUTPUT_ATTEMPTS: usize = 2;

/// The requests of the ordinary tier, as values.
pub enum AgentInputView {
    Call(PromptView),
    StreamCall,
    CancelStream,
}

impl View for AgentInput {
    type V = AgentInputView;

    open spec fn view(&self) -> AgentInputView {
        match self {
            AgentInput::Call(p) => AgentInputView::Call(p@),
            AgentInput::StreamCall => AgentInputView::StreamCall,
            AgentInput::CancelStream => AgentInputView::CancelStream,
        }
    }
}

/// Provider policy: the registry the engine resolves calls against.
pub struct AgentEngine {
    registry: ProviderRegistry,
}

impl View for AgentEngine {
    type V = RegistryView;

    closed spec fn view(&self) -> RegistryView {
        self.registry@
    }
}

/// A call waiting for its provider's secret.
pub struct AwaitingSecret {
    prompt: Prompt,
    plan: CallPlan,
}

/// A provider call in flight: the exact call sent and which structured-output
/// attempt it is.
pub struct AwaitingCompletion {
    call: ProviderCall,
    attempt: usize,
}

/// A structured-output answer waiting for its NOTA check.
pub struct AwaitingNotaCheck {
    call: ProviderCall,
    completion: ProviderCompletion,
    attempt: usize,
}

pub struct AwaitingSecretView {
    pub prompt: PromptView,
    pub entry: ProviderEntryView,
}

pub struct AwaitingCompletionView {
    pub call: ProviderCallView,
    pub attempt: nat,
}

pub struct AwaitingNotaCheckView {
    pub call: ProviderCallView,
    pub completion: ProviderCompletionView,
    pub attempt: nat,
}

impl View for AwaitingSecret {
    type V = AwaitingSecretView;

    closed spec fn view(&self) -> AwaitingSecretView {
        AwaitingSecretView { prompt: self.prompt@, entry: self.plan@ }
    }
}

impl View for AwaitingCompletion {
    type V = AwaitingCompletionView;

    closed spec fn view(&self) -> AwaitingCompletionView {
        AwaitingCompletionView { call: self.call@, attempt: self.attempt as nat }
    }
}

impl View for AwaitingNotaCheck {
    type V = AwaitingNotaCheckView;

    closed spec fn view(&self) -> AwaitingNotaCheckView {
        AwaitingNotaCheckView { call: self.call@, completion: self.completion@, attempt: self.attempt as nat }
    }
}

/// The next thing a call turn needs.
pub enum TurnStep {
    /// The turn is over; send this reply.
    Reply(AgentOutput),
    /// Resolve this secret source, then resume the pending state.
    ResolveSecret(AwaitingSecret, SecretSource),
    /// Send this call to the provider, then resume the pending state.
    CallProvider(AwaitingCompletion, ProviderCall),
    /// Check that this text is exactly one NOTA expression, then resume.
    CheckNota(AwaitingNotaCheck, String),
}

pub enum TurnStepView {
    Reply(AgentOutputView),
    ResolveSecret(AwaitingSecretView, SecretSourceView),
    CallProvider(AwaitingCompletionView, ProviderCallView),
    CheckNota(AwaitingNotaCheckView, Seq<char>),
}

impl View for TurnStep {
    type V = TurnStepView;

    open spec fn view(&self) -> TurnStepView {
        match self {
            TurnStep::Reply(o) => TurnStepView::Reply(o@),
            TurnStep::ResolveSecret(p, s) => TurnStepView::ResolveSecret(p@, s@),
            TurnStep::CallProvider(p, c) => TurnStepView::CallProvider(p@, c@),
            TurnStep::CheckNota(p, t) => TurnStepView::CheckNota(p@, t@),
        }
    }
}

/// A rejection reply.
pub open spec fn rejection_reply(reason: CallRejectionReason, detail: Seq<char>) -> AgentOutputView {
    AgentOutputView::CallRejected(CallRejectionView { reason, detail })
}

/// The reply to a prompt that could not be resolved into a call.
pub open spec fn resolve_rejection(e: ResolveErrorView) -> AgentOutputView {
    match e {
        ResolveErrorView::NoProviderConfigured => rejection_reply(
            CallRejectionReason::NoProviderConfigured,
            "no provider configured and prompt named none"@,
        ),
        ResolveErrorView::ProviderUnknown(n) => rejection_reply(
            CallRejectionReason::NoProviderConfigured,
            "provider not in registry: "@ + n,
        ),
        ResolveErrorView::SecretUnavailable(k) => rejection_reply(
            CallRejectionReason::DaemonUnconfigured,
            "secret unavailable: "@ + key_error_text(k),
        ),
    }
}

/// The reply to a failed provider call.
pub open spec fn failure_rejection(f: ProviderFailureView) -> AgentOutputView {
    match f {
        ProviderFailureView::Unreachable(d) => rejection_reply(CallRejectionReason::ProviderUnreachable, d),
        ProviderFailureView::ProviderRejected { detail, .. } => rejection_reply(CallRejectionReason::ProviderRejected, detail),
        ProviderFailureView::OutputModeUnsupported => rejection_reply(
            CallRejectionReason::OutputModeUnsupported,
            "provider does not support the requested output mode"@,
        ),
    }
}

/// The reply to a completed call.
pub open spec fn completion_reply(c: ProviderCompletionView) -> AgentOutputView {
    AgentOutputView::Completed(CompletionView {
        text: c.text,
        stop_reason: c.stop_reason,
        usage: TokenUsage { prompt_tokens: c.prompt_tokens, completion_tokens: c.completion_tokens },
    })
}

/// The call with the structured-output instruction folded into its system
/// message.
pub open spec fn instructed(c: ProviderCallView) -> ProviderCallView {
    ProviderCallView { system: Some(system_with_instruction(c.system)), ..c }
}

/// The call extended with an invalid answer and the correction turn.
pub open spec fn corrected(c: ProviderCallView, previous: Seq<char>, parse_error: Seq<char>) -> ProviderCallView {
    ProviderCallView {
        messages: c.messages.push(ProviderMessageView { role: ChatRole::Assistant, content: previous }).push(
            ProviderMessageView { role: ChatRole::User, content: correction_text(parse_error) },
        ),
        ..c
    }
}

/// The first provider call of a resolved call: as is for free text, with the
/// structured-output instruction for NOTA.
pub open spec fn call_started(c: ProviderCallView) -> TurnStepView {
    let sent = if c.output_mode == OutputMode::Nota { instructed(c) } else { c };
    TurnStepView::CallProvider(AwaitingCompletionView { call: sent, attempt: 0 }, sent)
}

/// The step that answers a request.
pub open spec fn start_step(v: RegistryView, input: AgentInputView) -> TurnStepView {
    match input {
        AgentInputView::StreamCall => TurnStepView::Reply(
            AgentOutputView::RequestUnimplemented(AgentOperation::StreamCall, UnimplementedReason::NotYetImplemented),
        ),
        AgentInputView::CancelStream => TurnStepView::Reply(
            AgentOutputView::RequestUnimplemented(AgentOperation::CancelStream, UnimplementedReason::NotYetImplemented),
        ),
        AgentInputView::Call(p) => match plan_outcome(v, p) {
            Err(e) => TurnStepView::Reply(resolve_rejection(e)),
            Ok(e) => if needs_secret(e.secret_source) {
                TurnStepView::ResolveSecret(AwaitingSecretView { prompt: p, entry: e }, e.secret_source)
            } else {
                call_started(call_for(p, e, AuthorizationView::Anonymous))
            },
        },
    }
}

/// The step after the secret came back.
pub open spec fn secret_step(w: AwaitingSecretView, key: Result<Seq<char>, KeyResolutionErrorView>) -> TurnStepView {
    match key {
        Ok(k) => call_started(call_for(w.prompt, w.entry, AuthorizationView::Bearer(k))),
        Err(e) => TurnStepView::Reply(resolve_rejection(ResolveErrorView::SecretUnavailable(e))),
    }
}

/// The step after the provider answered.
pub open spec fn completion_step(
    w: AwaitingCompletionView,
    r: Result<ProviderCompletionView, ProviderFailureView>,
) -> TurnStepView {
    match r {
        Err(f) => TurnStepView::Reply(failure_rejection(f)),
        Ok(c) => if w.call.output_mode == OutputMode::Nota {
            TurnStepView::CheckNota(AwaitingNotaCheckView { call: w.call, completion: c, attempt: w.attempt }, c.text)
        } else {
            TurnStepView::Reply(completion_reply(c))
        },
    }
}

/// What a NOTA check found, as accepted or refused with a reason: a parse
/// error, or a count of root objects other than one.
pub open spec fn nota_verdict_spec(check: Result<usize, Seq<char>>) -> Result<(), Seq<char>> {
    match check {
        Ok(n) => if n == 1 {
            Ok(())
        } else {
            Err("expected exactly one DOTOS root object, found "@ + decimal_spec(n as nat))
        },
        Err(e) => Err(e),
    }
}

/// The detail of the rejection after every attempt failed the check.
pub open spec fn invalid_nota_detail(last_error: Seq<char>) -> Seq<char> {
    "model did not produce valid DOTOS after "@ + decimal_spec(NOTA_OUTPUT_ATTEMPTS as nat) + " attempts: "@
        + last_error
}

/// The step after the NOTA check came back.
pub open spec fn check_step(w: AwaitingNotaCheckView, check: Result<usize, Seq<char>>) -> TurnStepView {
    match nota_verdict_spec(check) {
        Ok(_) => TurnStepView::Reply(completion_reply(w.completion)),
        Err(e) => if w.attempt + 1 < NOTA_OUTPUT_ATTEMPTS {
            let next = corrected(w.call, w.completion.text, e);
            TurnStepView::CallProvider(AwaitingCompletionView { call: next, attempt: w.attempt + 1 }, next)
        } else {
            TurnStepView::Reply(rejection_reply(CallRejectionReason::InvalidNotaOutput, invalid_nota_detail(e)))
        },
    }
}

pub open spec fn check_view(check: Result<usize, String>) -> Result<usize, Seq<char>> {
    match check {
        Ok(n) => Ok(n),
        Err(e) => Err(e@),
    }
}

/// Accept a NOTA check that found exactly one root object; refuse any other
/// outcome with its reason.
pub fn nota_verdict(check: Result<usize, String>) -> (r: Result<(), String>)
    ensures
        match nota_verdict_spec(check_view(check)) {
            Ok(_) => r is Ok,
            Err(e) => r is Err && r->Err_0@ == e,
        },
{
    match check {
        Ok(n) => if n == 1 {
            Ok(())
        } else {
            let mut m = "expected exactly one DOTOS root object, found ".to_owned();
            let d = decimal(n as u64);
            m.append(d.as_str());
            Err(m)
        },
        Err(e) => Err(e),
    }
}

fn rejection(reason: CallRejectionReason, detail: String) -> (o: AgentOutput)
    ensures
        o@ == rejection_reply(reason, detail@),
{
    AgentOutput::CallRejected(CallRejection { reason, detail })
}

/// The reply to a prompt that could not be resolved.
pub fn resolve_rejection_of(error: ResolveError) -> (o: AgentOutput)
    ensures
        o@ == resolve_rejection(error@),
{
    match error {
        ResolveError::NoProviderConfigured => rejection(
            CallRejectionReason::NoProviderConfigured,
            "no provider configured and prompt named none".to_owned(),
        ),
        ResolveError::ProviderUnknown(name) => {
            let mut d = "provider not in registry: ".to_owned();
            d.append(name.as_str());
            rejection(CallRejectionReason::NoProviderConfigured, d)
        },
        ResolveError::SecretUnavailable(e) => {
            let mut d = "secret unavailable: ".to_owned();
            let m = e.message();
            d.append(m.as_str());
            rejection(CallRejectionReason::DaemonUnconfigured, d)
        },
    }
}

/// The reply to a failed provider call.
pub fn failure_rejection_of(failure: ProviderFailure) -> (o: AgentOutput)
    ensures
        o@ == failure_rejection(failure@),
{
    match failure {
        ProviderFailure::Unreachable(detail) => rejection(CallRejectionReason::ProviderUnreachable, detail),
        ProviderFailure::ProviderRejected { detail, .. } => rejection(CallRejectionReason::ProviderRejected, detail),
        ProviderFailure::OutputModeUnsupported => rejection(
            CallRejectionReason::OutputModeUnsupported,
            "provider does not support the requested output mode".to_owned(),
        ),
    }
}

/// The reply to a completed call.
pub fn completion_of(c: ProviderCompletion) -> (o: AgentOutput)
    ensures
        o@ == completion_reply(c@),
{
    AgentOutput::Completed(Completion {
        text: c.text,
        stop_reason: c.stop_reason,
        usage: TokenUsage { prompt_tokens: c.prompt_tokens, completion_tokens: c.completion_tokens },
    })
}

fn start_call(call: ProviderCall) -> (s: TurnStep)
    ensures
        s@ == call_started(call@),
{
    let sent = if call.is_nota() { call.with_nota_instruction() } else { call };
    let pending = AwaitingCompletion { call: sent.clone(), attempt: 0 };
    TurnStep::CallProvider(pending, sent)
}

impl AwaitingSecret {
    #[verifier::type_invariant]
    spec fn needs_its_secret(self) -> bool {
        needs_secret(self.plan@.secret_source)
    }

    /// Resume with the secret backend's answer.
    pub fn resume(self, key: Result<ProviderApiKey, KeyResolutionError>) -> (s: TurnStep)
        ensures
            s@ == secret_step(self@, match key {
                Ok(k) => Ok(k@),
                Err(e) => Err(e@),
            }),
    {
        proof {
            use_type_invariant(&self);
        }
        let ghost w = self@;
        let AwaitingSecret { prompt, plan } = self;
        match plan.finish(&prompt, Some(key)) {
            Ok(call) => start_call(call),
            Err(e) => TurnStep::Reply(resolve_rejection_of(e)),
        }
    }
}

impl AwaitingCompletion {
    #[verifier::type_invariant]
    spec fn attempt_in_range(self) -> bool {
        &&& self.attempt < NOTA_OUTPUT_ATTEMPTS
        &&& self.attempt > 0 ==> self.call@.output_mode == OutputMode::Nota
    }

    /// The call that was sent.
    pub fn call(&self) -> (c: &ProviderCall)
        ensures
            c@ == self@.call,
    {
        &self.call
    }

    /// Resume with the provider's answer.
    pub fn resume(self, result: Result<ProviderCompletion, ProviderFailure>) -> (s: TurnStep)
        ensures
            s@ == completion_step(self@, match result {
                Ok(c) => Ok(c@),
                Err(f) => Err(f@),
            }),
    {
        proof {
            use_type_invariant(&self);
        }
        match result {
            Err(f) => TurnStep::Reply(failure_rejection_of(f)),
            Ok(c) => if self.call.is_nota() {
                let text = c.text.clone();
                let pending = AwaitingNotaCheck { call: self.call, completion: c, attempt: self.attempt };
                TurnStep::CheckNota(pending, text)
            } else {
                TurnStep::Reply(completion_of(c))
            },
        }
    }
}

impl AwaitingNotaCheck {
    #[verifier::type_invariant]
    spec fn checks_structured_output(self) -> bool {
        &&& self.attempt < NOTA_OUTPUT_ATTEMPTS
        &&& self.call@.output_mode == OutputMode::Nota
    }

    /// The call that produced the answer.
    pub fn call(&self) -> (c: &ProviderCall)
        ensures
            c@ == self@.call,
    {
        &self.call
    }

    /// The answer being checked.
    pub fn completion(&self) -> (c: &ProviderCompletion)
        ensures
            c@ == self@.completion,
    {
        &self.completion
    }

    /// Resume with the check's outcome: the number of root objects the
    /// answer holds, or why it does not parse.
    pub fn resume(self, check: Result<usize, String>) -> (s: TurnStep)
        ensures
            s@ == check_step(self@, check_view(check)),
    {
        proof {
            use_type_invariant(&self);
        }
        match nota_verdict(check) {
            Ok(()) => TurnStep::Reply(completion_of(self.completion)),
            Err(e) => if self.attempt + 1 < NOTA_OUTPUT_ATTEMPTS {
                let next = self.call.with_nota_correction(self.completion.text.as_str(), e.as_str());
                let pending = AwaitingCompletion { call: next.clone(), attempt: self.attempt + 1 };
                TurnStep::CallProvider(pending, next)
            } else {
                let mut d = "model did not produce valid DOTOS after ".to_owned();
                let n = decimal(NOTA_OUTPUT_ATTEMPTS as u64);
                d.append(n.as_str());
                d.append(" attempts: ");
                d.append(e.as_str());
                TurnStep::Reply(rejection(CallRejectionReason::InvalidNotaOutput, d))
            },
        }
    }
}

impl AgentEngine {
    /// The engine invariant: its registry is well formed.
    pub open spec fn wf(&self) -> bool {
        registry_well_formed(self@)
    }

    pub fn new(registry: ProviderRegistry) -> (e: Self)
        requires
            registry.wf(),
        ensures
            e@ == registry@,
            e.wf(),
    {
        AgentEngine { registry }
    }

    pub fn registry(&self) -> (r: &ProviderRegistry)
        ensures
            r@ == self@,
    {
        &self.registry
    }

    pub fn configure_provider(&mut self, entry: ProviderEntry)
        requires
            old(self).wf(),
        ensures
            final(self).wf(),
            final(self)@ == configured(old(self)@, entry@),
    {
        self.registry.configure(entry);
    }

    pub fn retire_provider(&mut self, name: &str) -> (removed: bool)
        requires
            old(self).wf(),
        ensures
            final(self).wf(),
            final(self)@ == retired(old(self)@, name@),
            removed == has_name(old(self)@.entries, name@),
    {
        self.registry.retire(name)
    }

    pub fn set_default_provider(&mut self, name: &str) -> (present: bool)
        requires
            old(self).wf(),
        ensures
            final(self).wf(),
            final(self)@ == with_default(old(self)@, name@),
            present == has_name(old(self)@.entries, name@),
    {
        self.registry.set_default(name)
    }

    /// The engine a daemon starts with: an empty registry with every bootstrap
    /// provider seed configured in order.
    pub fn from_configuration(configuration: &AgentDaemonConfiguration) -> (e: Self)
        ensures
            e.wf(),
            e@ == seeded(empty_registry(), configuration@.bootstrap_providers),
    {
        let seeds = configuration.bootstrap_providers();
        let ghost sv = configuration@.bootstrap_providers;
        let mut engine = AgentEngine::new(ProviderRegistry::new());
        proof {
            assert(engine@ =~= empty_registry());
        }
        let mut i: usize = 0;
        while i < seeds.len()
            invariant
                i <= seeds.len(),
                sv == seeds@.map_values(|p: ProviderSeed| p@),
                engine.wf(),
                engine@ == seeded(empty_registry(), sv.take(i as int)),
            decreases seeds.len() - i,
        {
            let entry = seeds[i].clone().into_entry();
            proof {
                assert(sv.take(i + 1).drop_last() =~= sv.take(i as int));
                assert(entry@ == sv[i as int]);
            }
            engine.configure_provider(entry);
            i = i + 1;
        }
        proof {
            assert(sv.take(seeds.len() as int) =~= sv);
        }
        engine
    }

    /// Answer an ordinary request: the reply, or the first effect it needs.
    pub fn start(&self, input: AgentInput) -> (s: TurnStep)
        requires
            self.wf(),
        ensures
            s@ == start_step(self@, input@),
    {
        let prompt = match input {
            AgentInput::Call(p) => p,
            AgentInput::StreamCall => {
                return TurnStep::Reply(
                    AgentOutput::RequestUnimplemented(AgentOperation::StreamCall, UnimplementedReason::NotYetImplemented),
                );
            },
            AgentInput::CancelStream => {
                return TurnStep::Reply(
                    AgentOutput::RequestUnimplemented(AgentOperation::CancelStream, UnimplementedReason::NotYetImplemented),
                );
            },
        };
        match self.registry.plan(&prompt) {
            Err(e) => TurnStep::Reply(resolve_rejection_of(e)),
            Ok(plan) => match plan.secret_request() {
                Some(source) => TurnStep::ResolveSecret(AwaitingSecret { prompt, plan }, source),
                None => match plan.finish(&prompt, None) {
                    Ok(call) => start_call(call),
                    Err(e) => TurnStep::Reply(resolve_rejection_of(e)),
                },
            },
        }
    }
}


/// The registry with nothing configured.
pub open spec fn empty_registry() -> RegistryView {
    RegistryView { entries: Seq::empty(), default_provider: None }
}

/// The registry after configuring each seed in order.
pub open spec fn seeded(v: RegistryView, seeds: Seq<ProviderEntryView>) -> RegistryView
    decreases seeds.len(),
{
    if seeds.len() == 0 {
        v
    } else {
        configured(seeded(v, seeds.drop_last()), seeds.last())
    }
}

/// After bootstrapping, every seeded provider is configured, the last seed of
/// each name is the one in force, and the first seed is the default.
pub proof fn law_bootstrap_configures_every_seed(seeds: Seq<ProviderEntryView>)
    ensures
        registry_well_formed(seeded(empty_registry(), seeds)),
        forall|k: int| 0 <= k < seeds.len() ==> has_name(seeded(empty_registry(), seeds).entries, #[trigger] seeds[k].name),
        forall|k: int| 0 <= k < seeds.len() && (forall|j: int| k < j < seeds.len() ==> seeds[j].name != seeds[k].name)
            ==> entry_named(seeded(empty_registry(), seeds).entries, #[trigger] seeds[k].name) == seeds[k],
        seeds.len() > 0 ==> seeded(empty_registry(), seeds).default_provider == Some(seeds[0].name),
    decreases seeds.len(),
{
    if seeds.len() > 0 {
        let r = seeds.drop_last();
        law_bootstrap_configures_every_seed(r);
        let v = seeded(empty_registry(), r);
        let e = seeds.last();
        crate::registry::law_configure_then_lookup(v, e);
        assert forall|k: int| 0 <= k < seeds.len() implies has_name(seeded(empty_registry(), seeds).entries, #[trigger] seeds[k].name) by {
            if k < r.len() {
                assert(r[k] == seeds[k]);
                if seeds[k].name != e.name {
                    crate::registry::law_configure_keeps_others(v, e, seeds[k].name);
                }
            }
        }
        assert forall|k: int| 0 <= k < seeds.len() && (forall|j: int| k < j < seeds.len() ==> seeds[j].name != seeds[k].name)
            implies entry_named(seeded(empty_registry(), seeds).entries, #[trigger] seeds[k].name) == seeds[k] by {
            if k < r.len() {
                assert(r[k] == seeds[k]);
                assert(seeds[seeds.len() - 1].name != seeds[k].name);
                crate::registry::law_configure_keeps_others(v, e, seeds[k].name);
                assert forall|j: int| k < j < r.len() implies r[j].name != r[k].name by {
                    assert(r[j] == seeds[j]);
                }
            }
        }
        if r.len() == 0 {
            assert(v == empty_registry());
        } else {
            assert(r[0] == seeds[0]);
        }
    }
}

/// A structured-output call is answered `Completed` only after a check found
/// exactly one NOTA root object in the answer, and then with that answer.
pub proof fn law_nota_completed_only_when_single_root(w: AwaitingNotaCheckView, check: Result<usize, Seq<char>>)
    ensures
        check_step(w, check) matches TurnStepView::Reply(AgentOutputView::Completed(c))
            ==> check == Ok::<usize, Seq<char>>(1usize) && c == completion_reply(w.completion)->Completed_0,
{
}

/// A structured-output call asks the provider at most `NOTA_OUTPUT_ATTEMPTS`
/// times: a failed check on the last attempt is a rejection, and an earlier
/// failed check asks again with the next attempt number.
pub proof fn law_nota_attempts_bounded(w: AwaitingNotaCheckView, check: Result<usize, Seq<char>>)
    requires
        w.attempt < NOTA_OUTPUT_ATTEMPTS,
    ensures
        check_step(w, check) matches TurnStepView::CallProvider(next, _)
            ==> next.attempt == w.attempt + 1 && next.attempt < NOTA_OUTPUT_ATTEMPTS,
        w.attempt + 1 == NOTA_OUTPUT_ATTEMPTS && check != Ok::<usize, Seq<char>>(1usize)
            ==> (check_step(w, check) matches TurnStepView::Reply(AgentOutputView::CallRejected(r))
                && r.reason == CallRejectionReason::InvalidNotaOutput),
{
}

/// Every turn begins its provider calls at the first attempt.
pub proof fn law_turn_starts_at_first_attempt(v: RegistryView, input: AgentInputView, w: AwaitingSecretView, key: Result<Seq<char>, KeyResolutionErrorView>)
    ensures
        start_step(v, input) matches TurnStepView::CallProvider(p, _) ==> p.attempt == 0,
        secret_step(w, key) matches TurnStepView::CallProvider(p, _) ==> p.attempt == 0,
{
}

/// A free-text answer is the reply as the provider gave it; a structured
/// answer is always checked first.
pub proof fn law_free_text_answered_directly(w: AwaitingCompletionView, c: ProviderCompletionView)
    ensures
        w.call.output_mode == OutputMode::FreeText ==> completion_step(w, Ok(c)) == TurnStepView::Reply(completion_reply(c)),
        w.call.output_mode == OutputMode::Nota ==> (completion_step(w, Ok(c)) matches TurnStepView::CheckNota(_, t) && t == c.text),
{
}

/// A call to a registry with no provider, or a call naming no provider when
/// no default is set, is rejected as `NoProviderConfigured` before any
/// effect.
pub proof fn law_unconfigured_call_rejected(v: RegistryView, p: PromptView)
    requires
        registry_well_formed(v),
        v.entries.len() == 0 || (v.default_provider is None && p.options.provider is None),
    ensures
        (start_step(v, AgentInputView::Call(p)) matches TurnStepView::Reply(AgentOutputView::CallRejected(r))
            && r.reason == CallRejectionReason::NoProviderConfigured),
{
    if let Some(n) = p.options.provider {
        assert(!has_name(v.entries, n));
    }
}

/// A prompt naming no provider is served by the registry default; the effects
/// it leads to all address the default provider.
pub proof fn law_default_provider_serves_unnamed_prompt(v: RegistryView, p: PromptView)
    requires
        registry_well_formed(v),
        v.default_provider is Some,
        p.options.provider is None,
    ensures
        start_step(v, AgentInputView::Call(p)) matches TurnStepView::ResolveSecret(w, _)
            ==> Some(w.entry.name) == v.default_provider,
        start_step(v, AgentInputView::Call(p)) matches TurnStepView::CallProvider(_, c)
            ==> Some(c.provider_name) == v.default_provider,
        !(start_step(v, AgentInputView::Call(p)) is Reply),
{
    crate::registry::law_prompt_provider_wins(v, p);
}

/// Streaming requests are answered as not implemented, whatever the registry.
pub proof fn law_streaming_unimplemented(v: RegistryView)
    ensures
        start_step(v, AgentInputView::StreamCall) == TurnStepView::Reply(
            AgentOutputView::RequestUnimplemented(AgentOperation::StreamCall, UnimplementedReason::NotYetImplemented),
        ),
        start_step(v, AgentInputView::CancelStream) == TurnStepView::Reply(
            AgentOutputView::RequestUnimplemented(AgentOperation::CancelStream, UnimplementedReason::NotYetImplemented),
        ),
{
}

/// Authorization follows the provider's secret source: a call made without
/// a secret lookup carries no authorization, a lookup is asked only for a
/// source that holds a secret, and a call made after the lookup carries the
/// secret that came back as its bearer token.
pub proof fn law_authorization_follows_secret_source(
    v: RegistryView,
    input: AgentInputView,
    w: AwaitingSecretView,
    key: Result<Seq<char>, KeyResolutionErrorView>,
)
    ensures
        start_step(v, input) matches TurnStepView::CallProvider(_, c) ==> c.authorization == AuthorizationView::Anonymous,
        start_step(v, input) matches TurnStepView::ResolveSecret(pending, s)
            ==> needs_secret(s) && s == pending.entry.secret_source,
        secret_step(w, key) matches TurnStepView::CallProvider(_, c)
            ==> (key matches Ok(k) && c.authorization == AuthorizationView::Bearer(k)),
{
}

/// A completed turn hands back the provider's answer as it came: its text,
/// its stop reason (a truncated answer stays marked as truncated) and its
/// token counts, for a free-text answer and for a structured answer the check
/// accepted.
pub proof fn law_completion_passes_answer_through(
    w: AwaitingCompletionView,
    n: AwaitingNotaCheckView,
    c: ProviderCompletionView,
)
    ensures
        w.call.output_mode == OutputMode::FreeText ==> (completion_step(w, Ok(c)) matches TurnStepView::Reply(
            AgentOutputView::Completed(x),
        ) && x.text == c.text && x.stop_reason == c.stop_reason && x.usage.prompt_tokens == c.prompt_tokens
            && x.usage.completion_tokens == c.completion_tokens),
        (check_step(n, Ok(1usize)) matches TurnStepView::Reply(AgentOutputView::Completed(x))
            && x.text == n.completion.text && x.stop_reason == n.completion.stop_reason
            && x.usage.prompt_tokens == n.completion.prompt_tokens
            && x.usage.completion_tokens == n.completion.completion_tokens),
{
}

/// Every provider call a turn makes carries the prompt's options unchanged:
/// its token limit, temperature, reasoning effort, thinking toggle and
/// output mode, whether or not a secret was looked up first.
pub proof fn law_call_keeps_prompt_options(
    v: RegistryView,
    p: PromptView,
    w: AwaitingSecretView,
    key: Result<Seq<char>, KeyResolutionErrorView>,
)
    ensures
        start_step(v, AgentInputView::Call(p)) matches TurnStepView::CallProvider(_, c) ==> {
            &&& c.maximum_output_tokens == p.options.maximum_output_tokens
            &&& c.temperature_milli == p.options.temperature_milli
            &&& c.reasoning_effort == p.options.reasoning_effort
            &&& c.thinking_mode == p.options.thinking_mode
            &&& c.output_mode == p.options.output_mode
        },
        secret_step(w, key) matches TurnStepView::CallProvider(_, c) ==> {
            &&& c.maximum_output_tokens == w.prompt.options.maximum_output_tokens
            &&& c.temperature_milli == w.prompt.options.temperature_milli
            &&& c.reasoning_effort == w.prompt.options.reasoning_effort
            &&& c.thinking_mode == w.prompt.options.thinking_mode
            &&& c.output_mode == w.prompt.options.output_mode
        },
{
}
} // verus!
