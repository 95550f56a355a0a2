//! The entry points of the transports: each records the call it serves, does
//! what was asked, and hands back a typed answer for the caller to send.

use vstd::prelude::*;
use vstd::string::*;
use vstd::utf8::*;
use crate::types::{
    MessageChannel, MessageType, StatusResponse, HistoryResponse, SuccessResponse, ErrorResponse,
    StatusView, SuccessView, ErrorView, LogEntryView, other_name,
};
use crate::model::{
    AppStateView, cleared, distinct_channels, has_room, records, status_of, well_formed,
};
use crate::state::{AppState, AppConfig, log_message};
use crate::outside::{json_string_member, read_string_member, utf8_text};

verus! {

/// What a WebSocket command is answered with.
#[derive(Debug)]
pub enum WsReply {
    Status(StatusResponse),
    History(HistoryResponse),
    Success(SuccessResponse),
    Error(ErrorResponse),
}

pub ghost enum WsReplyView {
    Status(StatusView),
    History(Seq<LogEntryView>),
    Success(SuccessView),
    Error(ErrorView),
}

impl View for WsReply {
    type V = WsReplyView;

    open spec fn view(&self) -> WsReplyView {
        match self {
            WsReply::Status(r) => WsReplyView::Status(r@),
            WsReply::History(r) => WsReplyView::History(r@),
            WsReply::Success(r) => WsReplyView::Success(r@),
            WsReply::Error(r) => WsReplyView::Error(r@),
        }
    }
}

/// A reply together with the WebSocket channel it is to be pushed to.
#[derive(Debug)]
pub struct WsPush {
    pub channel_id: u32,
    pub reply: WsReply,
}

/// The reply of an optional push.
pub open spec fn pushed_reply(o: Option<WsPush>) -> Option<WsReplyView> {
    match o {
        Some(p) => Some(p.reply@),
        None => None,
    }
}

/// The view of an optional reply.
pub open spec fn opt_reply(o: Option<WsReply>) -> Option<WsReplyView> {
    match o {
        Some(r) => Some(r@),
        None => None,
    }
}

/// What a timer tick produces: the status to push, and the clients to push
/// it to, in the order they registered.
#[derive(Debug)]
pub struct TimerBroadcast {
    pub status: StatusResponse,
    pub recipients: Vec<u32>,
}

/// The state with another configuration.
pub open spec fn configured(s: AppStateView, config: AppConfig) -> AppStateView {
    AppStateView { history: s.history, counts: s.counts, config, clients: s.clients }
}

/// A positive answer with the given message.
pub open spec fn success_with(message: Seq<char>) -> SuccessView {
    SuccessView { success: true, message }
}

/// The answer to a command that the service does not know.
pub open spec fn unknown_command(command: Seq<char>) -> ErrorView {
    ErrorView { success: false, code: 400, message: "Unknown command: "@ + command }
}

/// The content line of a custom message that came over the WebSocket.
pub open spec fn custom_content(message_type: Seq<char>, content: Seq<char>) -> Seq<char> {
    "Type: "@ + message_type + ", Content: "@ + content
}

/// How a WebSocket command with its two optional fields takes the state from
/// `pre` to `post`, and what is answered.
pub open spec fn command_step(
    pre: AppStateView,
    post: AppStateView,
    reply: Option<WsReplyView>,
    command: Seq<char>,
    message_type: Option<Seq<char>>,
    content: Option<Seq<char>>,
) -> bool {
    if command == "get_status"@ {
        &&& records(
            pre,
            post,
            "WebSocket:GetStatus"@,
            MessageChannel::Websocket,
            "WebsocketPushA"@,
            Some("Status requested"@),
        )
        &&& reply == Some(WsReplyView::Status(status_of(post)))
    } else if command == "get_history"@ {
        &&& records(
            pre,
            post,
            "WebSocket:GetHistory"@,
            MessageChannel::Websocket,
            "WebsocketPushA"@,
            Some("History requested"@),
        )
        &&& reply == Some(WsReplyView::History(post.history))
    } else if command == "clear_history"@ {
        &&& records(
            cleared(pre),
            post,
            "WebSocket:Clear"@,
            MessageChannel::Websocket,
            "WebsocketPushA"@,
            Some("History cleared"@),
        )
        &&& reply == Some(WsReplyView::Success(success_with("History cleared successfully"@)))
    } else if command == "log_message"@ {
        match (message_type, content) {
            (Some(t), Some(c)) => {
                &&& records(
                    pre,
                    post,
                    "WebSocket:Custom"@,
                    MessageChannel::Websocket,
                    "WebsocketPushB"@,
                    Some(custom_content(t, c)),
                )
                &&& reply == Some(
                    WsReplyView::Success(success_with("Custom message logged successfully"@)),
                )
            },
            _ => post == pre && reply.is_none(),
        }
    } else {
        post == pre && reply == Some(WsReplyView::Error(unknown_command(command)))
    }
}

/// How a WebSocket frame takes the state from `pre` to `post`, and what is
/// answered: bytes that are no UTF-8 text, or text without a string member
/// `command`, change nothing and get no answer.
pub open spec fn frame_step(
    pre: AppStateView,
    post: AppStateView,
    reply: Option<WsReplyView>,
    payload: Seq<u8>,
) -> bool {
    if !valid_utf8(payload) {
        post == pre && reply.is_none()
    } else {
        let text = decode_utf8(payload);
        match json_string_member(text, "command"@) {
            None => post == pre && reply.is_none(),
            Some(command) => command_step(
                pre,
                post,
                reply,
                command,
                json_string_member(text, "message_type"@),
                json_string_member(text, "content"@),
            ),
        }
    }
}

/// Whether two texts hold the same characters.
fn same_text(a: &str, b: &str) -> (r: bool)
    ensures
        r == (a@ == b@),
{
    String::from_str(a) == String::from_str(b)
}

fn success(message: &str) -> (r: SuccessResponse)
    ensures
        r@ == success_with(message@),
{
    SuccessResponse { success: true, message: String::from_str(message) }
}

impl AppState {
    /// Sets the default configuration and records the start of the service.
    pub fn initialize(&mut self)
        requires
            has_room(old(self)@.counts, MessageChannel::Internal),
        ensures
            records(
                configured(old(self)@, AppConfig { max_history: 100, log_content: true }),
                final(self)@,
                "System"@,
                MessageChannel::Internal,
                other_name("Initialization"@),
                Some("Application started"@),
            ),
            old(self)@.history.len() <= 100 && distinct_channels(old(self)@.counts) ==> well_formed(
                final(self)@,
            ),
    {
        self.config = AppConfig { max_history: 100, log_content: true };
        log_message(
            self,
            String::from_str("System"),
            MessageChannel::Internal,
            MessageType::Other(String::from_str("Initialization")),
            Some(String::from_str("Application started")),
        );
    }

    /// Serves a status request over HTTP.
    pub fn get_status(&mut self) -> (r: StatusResponse)
        requires
            has_room(old(self)@.counts, MessageChannel::HttpApi),
        ensures
            records(
                old(self)@,
                final(self)@,
                "HTTP:GET"@,
                MessageChannel::HttpApi,
                "HttpGet"@,
                Some("Status request"@),
            ),
            r@ == status_of(final(self)@),
            well_formed(old(self)@) ==> well_formed(final(self)@),
    {
        log_message(
            self,
            String::from_str("HTTP:GET"),
            MessageChannel::HttpApi,
            MessageType::HttpGet,
            Some(String::from_str("Status request")),
        );
        self.get_status_response()
    }

    /// Serves a history request over HTTP.
    pub fn get_history(&mut self) -> (r: HistoryResponse)
        requires
            has_room(old(self)@.counts, MessageChannel::HttpApi),
        ensures
            records(
                old(self)@,
                final(self)@,
                "HTTP:GET"@,
                MessageChannel::HttpApi,
                "HttpGet"@,
                Some("History request"@),
            ),
            r@ == final(self)@.history,
            well_formed(old(self)@) ==> well_formed(final(self)@),
    {
        log_message(
            self,
            String::from_str("HTTP:GET"),
            MessageChannel::HttpApi,
            MessageType::HttpGet,
            Some(String::from_str("History request")),
        );
        self.get_history_response()
    }

    /// Empties history and counters on a request over HTTP, and records the
    /// request in the emptied state.
    pub fn clear_history(&mut self) -> (r: SuccessResponse)
        ensures
            records(
                cleared(old(self)@),
                final(self)@,
                "HTTP:POST"@,
                MessageChannel::HttpApi,
                "HttpPost"@,
                Some("History cleared"@),
            ),
            r@ == success_with("History cleared successfully"@),
            well_formed(old(self)@) ==> well_formed(final(self)@),
    {
        self.clear();
        log_message(
            self,
            String::from_str("HTTP:POST"),
            MessageChannel::HttpApi,
            MessageType::HttpPost,
            Some(String::from_str("History cleared")),
        );
        success("History cleared successfully")
    }

    /// Records a message of the caller's own type that came over HTTP.
    pub fn log_custom_message(
        &mut self,
        message_type: String,
        content: String,
    ) -> (r: SuccessResponse)
        requires
            has_room(old(self)@.counts, MessageChannel::HttpApi),
        ensures
            records(
                old(self)@,
                final(self)@,
                "HTTP:Custom"@,
                MessageChannel::HttpApi,
                other_name(message_type@),
                Some(content@),
            ),
            r@ == success_with("Custom message logged successfully"@),
            well_formed(old(self)@) ==> well_formed(final(self)@),
    {
        log_message(
            self,
            String::from_str("HTTP:Custom"),
            MessageChannel::HttpApi,
            MessageType::Other(message_type),
            Some(content),
        );
        success("Custom message logged successfully")
    }

    /// Serves a WebSocket command whose fields were read from its frame.
    pub fn handle_command(
        &mut self,
        command: &str,
        message_type: Option<String>,
        content: Option<String>,
    ) -> (r: Option<WsReply>)
        requires
            has_room(old(self)@.counts, MessageChannel::Websocket),
        ensures
            command_step(
                old(self)@,
                final(self)@,
                opt_reply(r),
                command@,
                crate::types::opt_text(message_type),
                crate::types::opt_text(content),
            ),
            well_formed(old(self)@) ==> well_formed(final(self)@),
    {
        if same_text(command, "get_status") {
            log_message(
                self,
                String::from_str("WebSocket:GetStatus"),
                MessageChannel::Websocket,
                MessageType::WebsocketPushA,
                Some(String::from_str("Status requested")),
            );
            Some(WsReply::Status(self.get_status_response()))
        } else if same_text(command, "get_history") {
            log_message(
                self,
                String::from_str("WebSocket:GetHistory"),
                MessageChannel::Websocket,
                MessageType::WebsocketPushA,
                Some(String::from_str("History requested")),
            );
            Some(WsReply::History(self.get_history_response()))
        } else if same_text(command, "clear_history") {
            self.clear();
            log_message(
                self,
                String::from_str("WebSocket:Clear"),
                MessageChannel::Websocket,
                MessageType::WebsocketPushA,
                Some(String::from_str("History cleared")),
            );
            Some(WsReply::Success(success("History cleared successfully")))
        } else if same_text(command, "log_message") {
            match (message_type, content) {
                (Some(t), Some(c)) => {
                    let line = String::from_str("Type: ").concat(t.as_str()).concat(
                        ", Content: ",
                    ).concat(c.as_str());
                    log_message(
                        self,
                        String::from_str("WebSocket:Custom"),
                        MessageChannel::Websocket,
                        MessageType::WebsocketPushB,
                        Some(line),
                    );
                    Some(WsReply::Success(success("Custom message logged successfully")))
                },
                _ => None,
            }
        } else {
            let message = String::from_str("Unknown command: ").concat(command);
            Some(WsReply::Error(ErrorResponse { success: false, code: 400, message }))
        }
    }

    /// Serves a WebSocket frame that came over the channel `channel_id`:
    /// reads the command and its fields from the JSON text of the frame,
    /// serves the command, and addresses the reply to that channel.
    pub fn handle_websocket(&mut self, channel_id: u32, payload: &[u8]) -> (r: Option<WsPush>)
        requires
            has_room(old(self)@.counts, MessageChannel::Websocket),
        ensures
            frame_step(old(self)@, final(self)@, pushed_reply(r), payload@),
            r matches Some(p) ==> p.channel_id == channel_id,
            well_formed(old(self)@) ==> well_formed(final(self)@),
    {
        match utf8_text(payload) {
            None => None,
            Some(text) => {
                proof {
                    encode_utf8_decode_utf8(text@);
                }
                match read_string_member(text, "command") {
                    None => None,
                    Some(command) => {
                        let message_type = read_string_member(text, "message_type");
                        let content = read_string_member(text, "content");
                        match self.handle_command(command.as_str(), message_type, content) {
                            Some(reply) => Some(WsPush { channel_id, reply }),
                            None => None,
                        }
                    },
                }
            },
        }
    }

    /// Serves a status request from another process.
    pub fn external_get_status(&mut self) -> (r: StatusResponse)
        requires
            has_room(old(self)@.counts, MessageChannel::External),
        ensures
            records(
                old(self)@,
                final(self)@,
                "External:GetStatus"@,
                MessageChannel::External,
                "ResponseReceived"@,
                Some("Status requested externally"@),
            ),
            r@ == status_of(final(self)@),
            well_formed(old(self)@) ==> well_formed(final(self)@),
    {
        log_message(
            self,
            String::from_str("External:GetStatus"),
            MessageChannel::External,
            MessageType::ResponseReceived,
            Some(String::from_str("Status requested externally")),
        );
        self.get_status_response()
    }

    /// Serves a history request from another process.
    pub fn external_get_history(&mut self) -> (r: HistoryResponse)
        requires
            has_room(old(self)@.counts, MessageChannel::External),
        ensures
            records(
                old(self)@,
                final(self)@,
                "External:GetHistory"@,
                MessageChannel::External,
                "ResponseReceived"@,
                Some("History requested externally"@),
            ),
            r@ == final(self)@.history,
            well_formed(old(self)@) ==> well_formed(final(self)@),
    {
        log_message(
            self,
            String::from_str("External:GetHistory"),
            MessageChannel::External,
            MessageType::ResponseReceived,
            Some(String::from_str("History requested externally")),
        );
        self.get_history_response()
    }

    /// Empties history and counters on the request of another process, and
    /// records the request in the emptied state.
    pub fn external_clear_history(&mut self) -> (r: SuccessResponse)
        ensures
            records(
                cleared(old(self)@),
                final(self)@,
                "External:ClearHistory"@,
                MessageChannel::External,
                "ResponseReceived"@,
                Some("History cleared externally"@),
            ),
            r@ == success_with("History cleared successfully"@),
            well_formed(old(self)@) ==> well_formed(final(self)@),
    {
        self.clear();
        log_message(
            self,
            String::from_str("External:ClearHistory"),
            MessageChannel::External,
            MessageType::ResponseReceived,
            Some(String::from_str("History cleared externally")),
        );
        success("History cleared successfully")
    }

    /// Records a message that the process at `source_address` sent.
    pub fn log_external_message(
        &mut self,
        source_address: &str,
        message_type: String,
        content: String,
    ) -> (r: SuccessResponse)
        requires
            has_room(old(self)@.counts, MessageChannel::External),
        ensures
            records(
                old(self)@,
                final(self)@,
                "External:"@ + source_address@,
                MessageChannel::External,
                other_name(message_type@),
                Some(content@),
            ),
            r@ == success_with("Message logged successfully"@),
            well_formed(old(self)@) ==> well_formed(final(self)@),
    {
        log_message(
            self,
            String::from_str("External:").concat(source_address),
            MessageChannel::External,
            MessageType::Other(message_type),
            Some(content),
        );
        success("Message logged successfully")
    }

    /// Records a timer tick and says which clients are owed the new status.
    pub fn handle_timer(&mut self) -> (r: TimerBroadcast)
        requires
            has_room(old(self)@.counts, MessageChannel::Timer),
        ensures
            records(
                old(self)@,
                final(self)@,
                "Timer"@,
                MessageChannel::Timer,
                "TimerTick"@,
                Some("Timer event received"@),
            ),
            r.status@ == status_of(final(self)@),
            r.recipients@ == final(self)@.clients.map_values(|p: (u32, Seq<char>)| p.0),
            well_formed(old(self)@) ==> well_formed(final(self)@),
    {
        log_message(
            self,
            String::from_str("Timer"),
            MessageChannel::Timer,
            MessageType::TimerTick,
            Some(String::from_str("Timer event received")),
        );
        let status = self.get_status_response();
        let mut recipients: Vec<u32> = Vec::new();
        let n = self.connected_clients.len();
        let mut i: usize = 0;
        while i < n
            invariant
                i <= n,
                n == self.connected_clients@.len(),
                recipients@.len() == i,
                forall|k: int| 0 <= k < i ==> recipients@[k] == self.connected_clients@[k].0,
            decreases n - i,
        {
            recipients.push(self.connected_clients[i].0);
            i += 1;
        }
        assert(recipients@ =~= self@.clients.map_values(|p: (u32, Seq<char>)| p.0));
        TimerBroadcast { status, recipients }
    }
}

} // verus!
