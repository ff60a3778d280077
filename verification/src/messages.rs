//! Payloads of the protocol v1 messages.
use vstd::prelude::*;

verus! {

/// The payload of a `system.error` envelope.
#[derive(Debug, Clone, PartialEq, Eq)]
pub struct ErrorPayload {
    pub code: String,
    pub message: String,
}

/// What the desktop overlay shows the assistant doing.
#[derive(Debug, Clone, PartialEq, Eq)]
pub enum HudState {
    Listening,
    Thinking,
    Responding,
    Executing,
    Error,
}

/// An event for the desktop overlay.
#[derive(Debug, Clone, PartialEq)]
pub enum HudEvent {
    Status { state: HudState, message: Option<String> },
    Text { content: String, ttl_ms: u64 },
    Image { src: String, alt: Option<String>, ttl_ms: u64 },
    Hide,
}

/// A question for the assistant.
#[derive(Debug, Clone, PartialEq)]
pub struct AskRequest {
    pub text: String,
    pub locale: Option<String>,
    pub show_hud: bool,
}

/// The value an absent boolean flag such as `show_hud` takes.
pub fn default_true() -> (b: bool)
    ensures
        b,
{
    true
}

/// The assistant's answer.
#[derive(Debug, Clone, PartialEq)]
pub struct AskResponse {
    pub text: String,
}

/// Something the assistant is asked to remember.
#[derive(Debug, Clone, PartialEq, Eq)]
pub struct AssistantRememberRequest {
    pub text: String,
}

/// The id of a created record.
#[derive(Debug, Clone, PartialEq, Eq)]
pub struct IdResponse {
    pub id: String,
}

/// What a memory record is about.
#[derive(Debug, Clone, PartialEq, Eq, Hash)]
pub enum MemoryKind {
    UserPreference,
    ProjectRule,
    ArchitectureDecision,
    TechnicalFact,
    WorkingPattern,
    FailedApproach,
    OpenIssue,
    ProjectState,
    Episodic,
    PersonalFact,
    Routine,
}

/// How sensitive a memory record is, from least to most restricted.
#[derive(Debug, Clone, Copy, PartialEq, Eq, PartialOrd, Ord)]
pub enum Sensitivity {
    Public,
    Personal,
    Private,
    Secret,
    Ephemeral,
}

/// Where a memory record applies.
#[derive(Debug, Clone, Copy, PartialEq, Eq)]
pub enum MemoryScope {
    Global,
    Workspace,
    Conversation,
}

/// A recall query against shared memory.
#[derive(Debug, Clone, PartialEq)]
pub struct MemoryRecallRequest {
    pub namespace: String,
    pub workspace_id: String,
    pub query: String,
    pub limit: usize,
    pub allow_private: bool,
    pub allow_secret: bool,
}

/// The number of records a recall returns when the request names no limit.
pub fn default_memory_limit() -> (n: usize)
    ensures
        n == 6,
{
    6
}

/// A request to forget one memory record.
#[derive(Debug, Clone, PartialEq, Eq)]
pub struct MemoryForgetRequest {
    pub id: String,
}

/// Whether a record was deleted.
#[derive(Debug, Clone, PartialEq, Eq)]
pub struct DeleteResponse {
    pub deleted: bool,
}

/// An image for the desktop overlay.
#[derive(Debug, Clone, PartialEq, Eq)]
pub struct HudImageRequest {
    pub src: String,
    pub alt: Option<String>,
}

/// Whether something was shown.
#[derive(Debug, Clone, PartialEq, Eq)]
pub struct ShownResponse {
    pub shown: bool,
}

/// A status report.
#[derive(Debug, Clone, PartialEq, Eq)]
pub struct StatusResponse {
    pub status: String,
}

/// A request to run a worker capability.
#[derive(Debug, Clone, PartialEq)]
pub struct WorkerExecuteRequest {
    pub capability: String,
    /// The worker's input as JSON text.
    pub payload: String,
}

/// A worker's result.
#[derive(Debug, Clone, PartialEq)]
pub struct WorkerExecuteResponse {
    /// The worker's output as JSON text.
    pub payload: String,
}

} // verus!
