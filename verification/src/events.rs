//! The event vocabulary of the streaming protocol.
//!
//! `StreamEvent` is the internal event decoded from the wire: one event
//! per meaningful server-sent-event frame. `CoreEvent` is the smaller,
//! user-facing vocabulary that crosses the boundary to a renderer.
//! Each type has a view struct over `Seq<char>` so contracts can speak
//! about it mathematically.

use vstd::prelude::*;

use crate::text::dec_str;

verus! {

/// An error of the streaming client.
#[derive(Debug, Clone)]
pub enum ApiError {
    /// Transport failure issuing a request or reading its body.
    NetworkError(String),
    /// A response with a non-2xx status.
    HttpError { status: u16, message: String },
    /// Malformed JSON or invalid UTF-8 in the stream.
    ParseError(String),
    /// Failure reading the underlying byte source mid-stream.
    StreamError(String),
    /// An explicit error event reported by the server.
    Api(String),
}

/// The mathematical image of an [`ApiError`].
#[verifier::ext_equal]
pub enum ApiErrorShape {
    NetworkError(Seq<char>),
    HttpError { status: u16, message: Seq<char> },
    ParseError(Seq<char>),
    StreamError(Seq<char>),
    Api(Seq<char>),
}

impl View for ApiError {
    type V = ApiErrorShape;

    open spec fn view(&self) -> ApiErrorShape {
        match self {
            ApiError::NetworkError(m) => ApiErrorShape::NetworkError(m@),
            ApiError::HttpError { status, message } => ApiErrorShape::HttpError {
                status: *status,
                message: message@,
            },
            ApiError::ParseError(m) => ApiErrorShape::ParseError(m@),
            ApiError::StreamError(m) => ApiErrorShape::StreamError(m@),
            ApiError::Api(m) => ApiErrorShape::Api(m@),
        }
    }
}

/// The text that describes an error to the user.
pub open spec fn api_error_text(e: ApiErrorShape) -> Seq<char> {
    match e {
        ApiErrorShape::NetworkError(m) => "Network error: "@ + m,
        ApiErrorShape::HttpError { status, message } => "HTTP error "@ + dec_str(status as nat)
            + ": "@ + message,
        ApiErrorShape::ParseError(m) => "Parse error: "@ + m,
        ApiErrorShape::StreamError(m) => "Stream error: "@ + m,
        ApiErrorShape::Api(m) => "API error: "@ + m,
    }
}

impl ApiError {
    /// Render the error as the line shown to the user.
    pub fn display_string(&self) -> (r: String)
        ensures
            r@ == api_error_text(self@),
    {
        match self {
            ApiError::NetworkError(m) => {
                let mut s: String = "Network error: ".to_owned();
                s.append(m.as_str());
                s
            },
            ApiError::HttpError { status, message } => {
                let mut s: String = "HTTP error ".to_owned();
                let num: String = crate::text::u64_to_string(*status as u64);
                s.append(num.as_str());
                s.append(": ");
                s.append(message.as_str());
                proof {
                    assert(s@ =~= api_error_text(self@));
                }
                s
            },
            ApiError::ParseError(m) => {
                let mut s: String = "Parse error: ".to_owned();
                s.append(m.as_str());
                s
            },
            ApiError::StreamError(m) => {
                let mut s: String = "Stream error: ".to_owned();
                s.append(m.as_str());
                s
            },
            ApiError::Api(m) => {
                let mut s: String = "API error: ".to_owned();
                s.append(m.as_str());
                s
            },
        }
    }
}

/// One unit of model output inside a message.
///
/// `Text` and `ToolUse` blocks arrive from the stream; `ToolResult`
/// blocks are appended to the conversation history after a tool ran.
/// The `input` of a tool use holds the raw JSON text of its arguments.
#[derive(Debug, Clone)]
pub enum ContentBlock {
    Text { text: String },
    ToolUse { id: String, name: String, input: String },
    ToolResult { tool_use_id: String, content: String },
}

/// The mathematical image of a [`ContentBlock`].
#[verifier::ext_equal]
pub enum BlockShape {
    Text { text: Seq<char> },
    ToolUse { id: Seq<char>, name: Seq<char>, input: Seq<char> },
    ToolResult { tool_use_id: Seq<char>, content: Seq<char> },
}

impl View for ContentBlock {
    type V = BlockShape;

    open spec fn view(&self) -> BlockShape {
        match self {
            ContentBlock::Text { text } => BlockShape::Text { text: text@ },
            ContentBlock::ToolUse { id, name, input } => BlockShape::ToolUse {
                id: id@,
                name: name@,
                input: input@,
            },
            ContentBlock::ToolResult { tool_use_id, content } => BlockShape::ToolResult {
                tool_use_id: tool_use_id@,
                content: content@,
            },
        }
    }
}

/// An incremental fragment of a content block.
#[derive(Debug, Clone)]
pub enum Delta {
    /// New text for a text block.
    Text { text: String },
    /// A partial piece of the JSON arguments of a tool-use block.
    InputJson { partial_json: String },
}

/// The mathematical image of a [`Delta`].
#[verifier::ext_equal]
pub enum DeltaShape {
    Text { text: Seq<char> },
    InputJson { partial_json: Seq<char> },
}

impl View for Delta {
    type V = DeltaShape;

    open spec fn view(&self) -> DeltaShape {
        match self {
            Delta::Text { text } => DeltaShape::Text { text: text@ },
            Delta::InputJson { partial_json } => DeltaShape::InputJson {
                partial_json: partial_json@,
            },
        }
    }
}

/// An internal event decoded from the response stream.
#[derive(Debug, Clone)]
pub enum StreamEvent {
    MessageStart,
    ContentBlockStart { index: u32, content_block: ContentBlock },
    ContentBlockDelta { index: u32, delta: Delta },
    ContentBlockStop { index: u32 },
    MessageDelta,
    MessageStop,
    Error { error: ApiError },
}

/// The mathematical image of a [`StreamEvent`].
#[verifier::ext_equal]
pub enum EventShape {
    MessageStart,
    ContentBlockStart { index: u32, content_block: BlockShape },
    ContentBlockDelta { index: u32, delta: DeltaShape },
    ContentBlockStop { index: u32 },
    MessageDelta,
    MessageStop,
    Error { error: ApiErrorShape },
}

impl View for StreamEvent {
    type V = EventShape;

    open spec fn view(&self) -> EventShape {
        match self {
            StreamEvent::MessageStart => EventShape::MessageStart,
            StreamEvent::ContentBlockStart { index, content_block } => {
                EventShape::ContentBlockStart { index: *index, content_block: content_block@ }
            },
            StreamEvent::ContentBlockDelta { index, delta } => EventShape::ContentBlockDelta {
                index: *index,
                delta: delta@,
            },
            StreamEvent::ContentBlockStop { index } => EventShape::ContentBlockStop {
                index: *index,
            },
            StreamEvent::MessageDelta => EventShape::MessageDelta,
            StreamEvent::MessageStop => EventShape::MessageStop,
            StreamEvent::Error { error } => EventShape::Error { error: error@ },
        }
    }
}

/// A user-facing notification, the only vocabulary a renderer sees.
#[derive(Debug, Clone)]
pub enum CoreEvent {
    /// Incremental text output.
    TextDelta(String),
    /// A tool call was announced in the stream.
    ToolCallStart { id: String, name: String },
    /// A tool is about to run.
    ToolExecuting { name: String },
    /// A tool finished and produced this result.
    ToolResult { name: String, result: String },
    /// An error to show to the user.
    Error(String),
    /// A new request / response cycle begins.
    MessageStart,
    /// The current response is fully drained.
    MessageStop,
}

/// The mathematical image of a [`CoreEvent`].
#[verifier::ext_equal]
pub enum CoreEventShape {
    TextDelta(Seq<char>),
    ToolCallStart { id: Seq<char>, name: Seq<char> },
    ToolExecuting { name: Seq<char> },
    ToolResult { name: Seq<char>, result: Seq<char> },
    Error(Seq<char>),
    MessageStart,
    MessageStop,
}

impl View for CoreEvent {
    type V = CoreEventShape;

    open spec fn view(&self) -> CoreEventShape {
        match self {
            CoreEvent::TextDelta(t) => CoreEventShape::TextDelta(t@),
            CoreEvent::ToolCallStart { id, name } => CoreEventShape::ToolCallStart {
                id: id@,
                name: name@,
            },
            CoreEvent::ToolExecuting { name } => CoreEventShape::ToolExecuting { name: name@ },
            CoreEvent::ToolResult { name, result } => CoreEventShape::ToolResult {
                name: name@,
                result: result@,
            },
            CoreEvent::Error(t) => CoreEventShape::Error(t@),
            CoreEvent::MessageStart => CoreEventShape::MessageStart,
            CoreEvent::MessageStop => CoreEventShape::MessageStop,
        }
    }
}

} // verus!
