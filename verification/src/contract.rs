//! The ordinary call contract as plain values: a prompt, its options, the
//! request kinds the daemon accepts and the replies it gives.

use vstd::prelude::*;

verus! {

/// Who spoke one chat turn.
#[derive(Debug, PartialEq, Eq, Structural, Clone, Copy)]
pub enum ChatRole {
    System,
    User,
    Assistant,
}

/// The shape the caller wants the completion text in.
#[derive(Debug, PartialEq, Eq, Structural, Clone, Copy)]
pub enum OutputMode {
    FreeText,
    Nota,
}

/// The typed reasoning-effort hint.
#[derive(Debug, PartialEq, Eq, Structural, Clone, Copy)]
pub enum ReasoningEffort {
    Low,
    Medium,
    High,
}

/// The typed thinking toggle.
#[derive(Debug, PartialEq, Eq, Structural, Clone, Copy)]
pub enum ThinkingMode {
    Enabled,
    Disabled,
}

/// One turn of the caller's chat transcript.
#[derive(Debug)]
pub struct ChatMessage {
    pub chat_role: ChatRole,
    pub user_text: String,
}

pub struct ChatMessageView {
    pub chat_role: ChatRole,
    pub user_text: Seq<char>,
}

impl View for ChatMessage {
    type V = ChatMessageView;

    open spec fn view(&self) -> ChatMessageView {
        ChatMessageView { chat_role: self.chat_role, user_text: self.user_text@ }
    }
}

/// The options a prompt carries: which provider and model, sampling limits and
/// the requested output shape.
#[derive(Debug)]
pub struct PromptOptions {
    pub model: Option<String>,
    pub provider: Option<String>,
    pub temperature_milli: Option<u64>,
    pub maximum_output_tokens: Option<u64>,
    pub output_mode: OutputMode,
    pub reasoning_effort: Option<ReasoningEffort>,
    pub thinking_mode: Option<ThinkingMode>,
}

pub struct PromptOptionsView {
    pub model: Option<Seq<char>>,
    pub provider: Option<Seq<char>>,
    pub temperature_milli: Option<u64>,
    pub maximum_output_tokens: Option<u64>,
    pub output_mode: OutputMode,
    pub reasoning_effort: Option<ReasoningEffort>,
    pub thinking_mode: Option<ThinkingMode>,
}

pub open spec fn option_text_view(o: Option<String>) -> Option<Seq<char>> {
    match o {
        Some(s) => Some(s@),
        None => None,
    }
}

impl View for PromptOptions {
    type V = PromptOptionsView;

    open spec fn view(&self) -> PromptOptionsView {
        PromptOptionsView {
            model: option_text_view(self.model),
            provider: option_text_view(self.provider),
            temperature_milli: self.temperature_milli,
            maximum_output_tokens: self.maximum_output_tokens,
            output_mode: self.output_mode,
            reasoning_effort: self.reasoning_effort,
            thinking_mode: self.thinking_mode,
        }
    }
}

/// One call request: an optional system instruction, the chat transcript and
/// the prompt options.
#[derive(Debug)]
pub struct Prompt {
    pub system: Option<String>,
    pub chat_transcript: Vec<ChatMessage>,
    pub options: PromptOptions,
}

pub struct PromptView {
    pub system: Option<Seq<char>>,
    pub chat_transcript: Seq<ChatMessageView>,
    pub options: PromptOptionsView,
}

impl View for Prompt {
    type V = PromptView;

    open spec fn view(&self) -> PromptView {
        PromptView {
            system: option_text_view(self.system),
            chat_transcript: self.chat_transcript@.map_values(|m: ChatMessage| m@),
            options: self.options@,
        }
    }
}

/// The requests of the ordinary tier.
#[derive(Debug)]
pub enum AgentInput {
    Call(Prompt),
    StreamCall,
    CancelStream,
}

/// Which ordinary operation a reply speaks of.
#[derive(Debug, PartialEq, Eq, Structural, Clone, Copy)]
pub enum AgentOperation {
    StreamCall,
    CancelStream,
}

/// Why an operation was not performed.
#[derive(Debug, PartialEq, Eq, Structural, Clone, Copy)]
pub enum UnimplementedReason {
    NotYetImplemented,
}

/// The token counts a provider reported.
#[derive(Debug, PartialEq, Eq, Structural, Clone, Copy)]
pub struct TokenUsage {
    pub prompt_tokens: Option<u64>,
    pub completion_tokens: Option<u64>,
}

/// A completed call as the caller sees it.
#[derive(Debug, PartialEq, Eq)]
pub struct Completion {
    pub text: String,
    pub stop_reason: String,
    pub usage: TokenUsage,
}

/// Why a call was rejected.
#[derive(Debug, PartialEq, Eq, Structural, Clone, Copy)]
pub enum CallRejectionReason {
    NoProviderConfigured,
    DaemonUnconfigured,
    ProviderUnreachable,
    ProviderRejected,
    OutputModeUnsupported,
    InvalidNotaOutput,
}

/// A rejected call: the reason and a human-readable detail.
#[derive(Debug, PartialEq, Eq)]
pub struct CallRejection {
    pub reason: CallRejectionReason,
    pub detail: String,
}

/// The replies of the ordinary tier.
#[derive(Debug, PartialEq, Eq)]
pub enum AgentOutput {
    Completed(Completion),
    CallRejected(CallRejection),
    RequestUnimplemented(AgentOperation, UnimplementedReason),
}

pub struct CompletionView {
    pub text: Seq<char>,
    pub stop_reason: Seq<char>,
    pub usage: TokenUsage,
}

pub struct CallRejectionView {
    pub reason: CallRejectionReason,
    pub detail: Seq<char>,
}

pub enum AgentOutputView {
    Completed(CompletionView),
    CallRejected(CallRejectionView),
    RequestUnimplemented(AgentOperation, UnimplementedReason),
}

impl View for Completion {
    type V = CompletionView;

    open spec fn view(&self) -> CompletionView {
        CompletionView { text: self.text@, stop_reason: self.stop_reason@, usage: self.usage }
    }
}

impl View for CallRejection {
    type V = CallRejectionView;

    open spec fn view(&self) -> CallRejectionView {
        CallRejectionView { reason: self.reason, detail: self.detail@ }
    }
}

impl View for AgentOutput {
    type V = AgentOutputView;

    open spec fn view(&self) -> AgentOutputView {
        match self {
            AgentOutput::Completed(c) => AgentOutputView::Completed(c@),
            AgentOutput::CallRejected(r) => AgentOutputView::CallRejected(r@),
            AgentOutput::RequestUnimplemented(o, r) => AgentOutputView::RequestUnimplemented(*o, *r),
        }
    }
}

} // verus!
