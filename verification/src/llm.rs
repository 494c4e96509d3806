//! The data that flows between the library and a language-model backend:
//! messages, tool calls, stream chunks and classified errors, each with a
//! mathematical view that the contracts speak of.
use vstd::prelude::*;
use crate::json::Json;

verus! {

/// One tool call: its id, the tool's name and the JSON text of its arguments.
#[derive(Debug, Clone, PartialEq, Eq)]
pub struct ToolCallArgs {
    pub id: String,
    pub name: String,
    pub arguments: String,
}

/// The view of a tool call.
pub struct CallModel {
    pub id: Seq<char>,
    pub name: Seq<char>,
    pub arguments: Seq<char>,
}

impl View for ToolCallArgs {
    type V = CallModel;

    open spec fn view(&self) -> CallModel {
        CallModel { id: self.id@, name: self.name@, arguments: self.arguments@ }
    }
}

/// Token counts of one model round.
#[derive(Debug, Clone, Copy, PartialEq, Eq)]
pub struct UsageCounts {
    pub prompt_tokens: i64,
    pub completion_tokens: i64,
    pub total_tokens: i64,
    pub prompt_cache_hit_tokens: i64,
    pub prompt_cache_miss_tokens: i64,
    pub reasoning_tokens: i64,
}

/// One piece of a streamed model reply.
#[derive(Debug, Clone, PartialEq, Eq)]
pub enum LlmStreamChunk {
    Token(String),
    Reasoning(String),
    ToolCall(ToolCallArgs),
    Usage(UsageCounts),
    Finish { reason: String },
}

/// The view of a stream chunk.
pub enum ChunkModel {
    Token(Seq<char>),
    Reasoning(Seq<char>),
    ToolCall(CallModel),
    Usage(UsageCounts),
    Finish(Seq<char>),
}

impl View for LlmStreamChunk {
    type V = ChunkModel;

    open spec fn view(&self) -> ChunkModel {
        match self {
            LlmStreamChunk::Token(t) => ChunkModel::Token(t@),
            LlmStreamChunk::Reasoning(t) => ChunkModel::Reasoning(t@),
            LlmStreamChunk::ToolCall(c) => ChunkModel::ToolCall(c@),
            LlmStreamChunk::Usage(u) => ChunkModel::Usage(*u),
            LlmStreamChunk::Finish { reason } => ChunkModel::Finish(reason@),
        }
    }
}

/// The views of a sequence of chunks.
pub open spec fn chunks_view(v: Seq<LlmStreamChunk>) -> Seq<ChunkModel> {
    v.map_values(|c: LlmStreamChunk| c@)
}

/// How a model request failed; decides the error code and whether a retry may help.
#[derive(Debug, Clone, Copy, PartialEq, Eq, Structural)]
pub enum LlmErrorKind {
    Timeout,
    RateLimited,
    AuthFailed,
    Upstream,
    Generation,
}

/// How a request failed below HTTP: it timed out, could not connect, broke
/// while reading the body, could not be sent, or otherwise.
#[derive(Debug, Clone, Copy, PartialEq, Eq, Structural)]
pub enum TransportFailure {
    Timeout,
    Connect,
    Body,
    Request,
    Other,
}

/// The error kind of a transport failure: a timeout is a timeout, every
/// other failure an upstream failure (retryable alike).
pub open spec fn transport_kind_of(f: TransportFailure) -> LlmErrorKind {
    match f {
        TransportFailure::Timeout => LlmErrorKind::Timeout,
        _ => LlmErrorKind::Upstream,
    }
}

/// The error kind of a transport failure (see `transport_kind_of`).
pub fn transport_kind(f: TransportFailure) -> (r: LlmErrorKind)
    ensures
        r == transport_kind_of(f),
{
    match f {
        TransportFailure::Timeout => LlmErrorKind::Timeout,
        _ => LlmErrorKind::Upstream,
    }
}

/// A classified model error with its user-facing message.
#[derive(Debug, Clone, PartialEq, Eq)]
pub struct LlmError {
    pub kind: LlmErrorKind,
    pub message: String,
}

/// The view of an error.
pub struct ErrorModel {
    pub kind: LlmErrorKind,
    pub message: Seq<char>,
}

impl View for LlmError {
    type V = ErrorModel;

    open spec fn view(&self) -> ErrorModel {
        ErrorModel { kind: self.kind, message: self.message@ }
    }
}

impl LlmError {
    /// An error of the given kind.
    pub fn new(kind: LlmErrorKind, message: String) -> (r: Self)
        ensures
            r.kind == kind,
            r.message@ == message@,
    {
        LlmError { kind, message }
    }

    /// A failure of the generation itself (bad stream, refused tool call, abort).
    pub fn generation(message: String) -> (r: Self)
        ensures
            r.kind == LlmErrorKind::Generation,
            r.message@ == message@,
    {
        LlmError { kind: LlmErrorKind::Generation, message }
    }

    /// A request that ran out of time.
    pub fn timeout(message: String) -> (r: Self)
        ensures
            r.kind == LlmErrorKind::Timeout,
            r.message@ == message@,
    {
        LlmError { kind: LlmErrorKind::Timeout, message }
    }
}

/// A chat message as sent to a model.
#[derive(Debug, Clone)]
pub struct LlmMessage {
    pub role: String,
    pub content: String,
    pub reasoning_content: Option<String>,
    pub tool_calls: Option<Vec<ToolCallArgs>>,
    pub tool_call_id: Option<String>,
}

impl LlmMessage {
    /// A message with only a role and content.
    pub fn plain(role: &str, content: &str) -> (r: Self)
        ensures
            r.role@ == role@,
            r.content@ == content@,
            r.reasoning_content is None,
            r.tool_calls is None,
            r.tool_call_id is None,
    {
        LlmMessage {
            role: role.to_owned(),
            content: content.to_owned(),
            reasoning_content: None,
            tool_calls: None,
            tool_call_id: None,
        }
    }
}

/// A tool offered to the model.
pub struct ToolDefinition {
    pub name: String,
    pub description: String,
    pub parameters: Json,
}

/// How the model may use the offered tools.
#[derive(Debug, Clone, PartialEq, Eq)]
pub enum ToolChoice {
    Auto,
    Disabled,
    Required,
    Function(String),
}

/// The integer and structural generation settings of one request (sampling
/// temperatures are floating point and are kept by the caller).
pub struct GenerationParams {
    pub max_tokens: u32,
    pub stop: Option<Vec<String>>,
    pub tools: Vec<ToolDefinition>,
    pub max_tool_rounds: Option<u32>,
    pub tool_choice: ToolChoice,
    pub parallel_tool_calls: Option<bool>,
}

} // verus!
