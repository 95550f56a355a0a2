//! The event model and the typed responses, each with its mathematical view.

use vstd::prelude::*;
use vstd::string::*;
use crate::outside::{debug_quoted, quote_debug};

verus! {

/// The transport an event arrived on.
#[derive(Debug, Clone, Copy, PartialEq, Eq, Structural, Hash)]
pub enum MessageChannel {
    Websocket,
    HttpApi,
    Internal,
    External,
    Timer,
    Terminal,
}

/// What kind of event was seen; `Other` carries a caller-chosen tag.
#[derive(Debug, Clone, PartialEq, Eq, Hash)]
pub enum MessageType {
    WebsocketOpen,
    WebsocketClose,
    WebsocketPushA,
    WebsocketPushB,
    HttpGet,
    HttpPost,
    TimerTick,
    LocalRequest,
    RemoteRequest,
    ResponseReceived,
    TerminalCommand,
    Other(String),
}

impl MessageChannel {
    /// The display name of the channel: the name of the variant.
    pub open spec fn name_spec(self) -> Seq<char> {
        match self {
            MessageChannel::Websocket => "Websocket"@,
            MessageChannel::HttpApi => "HttpApi"@,
            MessageChannel::Internal => "Internal"@,
            MessageChannel::External => "External"@,
            MessageChannel::Timer => "Timer"@,
            MessageChannel::Terminal => "Terminal"@,
        }
    }

    pub fn name(&self) -> (r: String)
        ensures
            r@ == self.name_spec(),
    {
        match self {
            MessageChannel::Websocket => String::from_str("Websocket"),
            MessageChannel::HttpApi => String::from_str("HttpApi"),
            MessageChannel::Internal => String::from_str("Internal"),
            MessageChannel::External => String::from_str("External"),
            MessageChannel::Timer => String::from_str("Timer"),
            MessageChannel::Terminal => String::from_str("Terminal"),
        }
    }
}

/// The display name of an event type with a caller-chosen tag: the tag in
/// debug quotes, between round brackets after the word `Other`.
pub open spec fn other_name(tag: Seq<char>) -> Seq<char> {
    "Other("@ + debug_quoted(tag) + ")"@
}

impl MessageType {
    /// The display name of the event type: the name of the variant, and for
    /// `Other` the tag in debug quotes between round brackets after it.
    pub open spec fn name_spec(self) -> Seq<char> {
        match self {
            MessageType::WebsocketOpen => "WebsocketOpen"@,
            MessageType::WebsocketClose => "WebsocketClose"@,
            MessageType::WebsocketPushA => "WebsocketPushA"@,
            MessageType::WebsocketPushB => "WebsocketPushB"@,
            MessageType::HttpGet => "HttpGet"@,
            MessageType::HttpPost => "HttpPost"@,
            MessageType::TimerTick => "TimerTick"@,
            MessageType::LocalRequest => "LocalRequest"@,
            MessageType::RemoteRequest => "RemoteRequest"@,
            MessageType::ResponseReceived => "ResponseReceived"@,
            MessageType::TerminalCommand => "TerminalCommand"@,
            MessageType::Other(tag) => other_name(tag@),
        }
    }

    pub fn name(&self) -> (r: String)
        ensures
            r@ == self.name_spec(),
    {
        match self {
            MessageType::WebsocketOpen => String::from_str("WebsocketOpen"),
            MessageType::WebsocketClose => String::from_str("WebsocketClose"),
            MessageType::WebsocketPushA => String::from_str("WebsocketPushA"),
            MessageType::WebsocketPushB => String::from_str("WebsocketPushB"),
            MessageType::HttpGet => String::from_str("HttpGet"),
            MessageType::HttpPost => String::from_str("HttpPost"),
            MessageType::TimerTick => String::from_str("TimerTick"),
            MessageType::LocalRequest => String::from_str("LocalRequest"),
            MessageType::RemoteRequest => String::from_str("RemoteRequest"),
            MessageType::ResponseReceived => String::from_str("ResponseReceived"),
            MessageType::TerminalCommand => String::from_str("TerminalCommand"),
            MessageType::Other(tag) => {
                let quoted = quote_debug(tag.as_str());
                String::from_str("Other(").concat(quoted.as_str()).concat(")")
            },
        }
    }
}

/// The characters of an optional string.
pub open spec fn opt_text(o: Option<String>) -> Option<Seq<char>> {
    match o {
        Some(s) => Some(s@),
        None => None,
    }
}

/// One line of the history, as written: every field is text or a number.
#[derive(Debug)]
pub struct LogEntry {
    pub source: String,
    pub channel: String,
    pub event_type: String,
    pub content: Option<String>,
    pub timestamp: u64,
}

pub ghost struct LogEntryView {
    pub source: Seq<char>,
    pub channel: Seq<char>,
    pub event_type: Seq<char>,
    pub content: Option<Seq<char>>,
    pub timestamp: u64,
}

impl View for LogEntry {
    type V = LogEntryView;

    open spec fn view(&self) -> LogEntryView {
        LogEntryView {
            source: self.source@,
            channel: self.channel@,
            event_type: self.event_type@,
            content: opt_text(self.content),
            timestamp: self.timestamp,
        }
    }
}

impl Clone for LogEntry {
    fn clone(&self) -> (r: Self)
        ensures
            r@ == self@,
    {
        let content = match &self.content {
            Some(s) => Some(s.clone()),
            None => None,
        };
        LogEntry {
            source: self.source.clone(),
            channel: self.channel.clone(),
            event_type: self.event_type.clone(),
            content,
            timestamp: self.timestamp,
        }
    }
}

/// The views of a run of history lines.
pub open spec fn entries_view(v: Seq<LogEntry>) -> Seq<LogEntryView> {
    v.map_values(|e: LogEntry| e@)
}

/// The point-in-time summary of the service.
#[derive(Debug)]
pub struct StatusResponse {
    pub client_count: u64,
    pub message_count: u64,
    pub channel_stats: Vec<(String, u64)>,
}

pub ghost struct StatusView {
    pub client_count: u64,
    pub message_count: u64,
    pub channel_stats: Seq<(Seq<char>, u64)>,
}

impl View for StatusResponse {
    type V = StatusView;

    open spec fn view(&self) -> StatusView {
        StatusView {
            client_count: self.client_count,
            message_count: self.message_count,
            channel_stats: self.channel_stats@.map_values(|p: (String, u64)| (p.0@, p.1)),
        }
    }
}

/// The whole retained history, oldest line first.
#[derive(Debug)]
pub struct HistoryResponse {
    pub entries: Vec<LogEntry>,
}

impl View for HistoryResponse {
    type V = Seq<LogEntryView>;

    open spec fn view(&self) -> Seq<LogEntryView> {
        entries_view(self.entries@)
    }
}

/// The answer to a request that was carried out.
#[derive(Debug)]
pub struct SuccessResponse {
    pub success: bool,
    pub message: String,
}

pub ghost struct SuccessView {
    pub success: bool,
    pub message: Seq<char>,
}

impl View for SuccessResponse {
    type V = SuccessView;

    open spec fn view(&self) -> SuccessView {
        SuccessView { success: self.success, message: self.message@ }
    }
}

/// The answer to a request that was refused.
#[derive(Debug)]
pub struct ErrorResponse {
    pub success: bool,
    pub code: u32,
    pub message: String,
}

pub ghost struct ErrorView {
    pub success: bool,
    pub code: u32,
    pub message: Seq<char>,
}

impl View for ErrorResponse {
    type V = ErrorView;

    open spec fn view(&self) -> ErrorView {
        ErrorView { success: self.success, code: self.code, message: self.message@ }
    }
}

} // verus!
