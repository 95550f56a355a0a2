use message_log_app::handlers::{TimerBroadcast, WsPush, WsReply};
use message_log_app::state::{get_timestamp, seconds_or_zero};
use message_log_app::state::{log_message, record_entry, AppConfig, AppState};
use message_log_app::types::{MessageChannel, MessageType};

fn state_with(max_history: usize, log_content: bool) -> AppState {
    let mut state = AppState::default();
    state.config = AppConfig { max_history, log_content };
    state
}

fn record(state: &mut AppState, source: &str, channel: MessageChannel, ts: u64) {
    record_entry(
        state,
        source.to_string(),
        channel,
        MessageType::HttpGet,
        Some(format!("content of {}", source)),
        ts,
    );
}

#[test]
fn default_config_keeps_100_lines_with_content() {
    let config = AppConfig::default();
    assert_eq!(config.max_history, 100);
    assert!(config.log_content);
    let state = AppState::default();
    assert_eq!(state.config.max_history, 100);
    assert!(state.config.log_content);
    assert!(state.message_history.is_empty());
    assert!(state.message_counts.is_empty());
    assert!(state.connected_clients.is_empty());
}

#[test]
fn channel_names_are_the_variant_names() {
    assert_eq!(MessageChannel::Websocket.name(), "Websocket");
    assert_eq!(MessageChannel::HttpApi.name(), "HttpApi");
    assert_eq!(MessageChannel::Internal.name(), "Internal");
    assert_eq!(MessageChannel::External.name(), "External");
    assert_eq!(MessageChannel::Timer.name(), "Timer");
    assert_eq!(MessageChannel::Terminal.name(), "Terminal");
}

#[test]
fn type_names_are_the_variant_names() {
    assert_eq!(MessageType::WebsocketOpen.name(), "WebsocketOpen");
    assert_eq!(MessageType::WebsocketClose.name(), "WebsocketClose");
    assert_eq!(MessageType::WebsocketPushA.name(), "WebsocketPushA");
    assert_eq!(MessageType::WebsocketPushB.name(), "WebsocketPushB");
    assert_eq!(MessageType::HttpGet.name(), "HttpGet");
    assert_eq!(MessageType::HttpPost.name(), "HttpPost");
    assert_eq!(MessageType::TimerTick.name(), "TimerTick");
    assert_eq!(MessageType::LocalRequest.name(), "LocalRequest");
    assert_eq!(MessageType::RemoteRequest.name(), "RemoteRequest");
    assert_eq!(MessageType::ResponseReceived.name(), "ResponseReceived");
    assert_eq!(MessageType::TerminalCommand.name(), "TerminalCommand");
}

#[test]
fn other_type_name_quotes_its_tag() {
    assert_eq!(MessageType::Other("Initialization".to_string()).name(), "Other(\"Initialization\")");
    assert_eq!(MessageType::Other(String::new()).name(), "Other(\"\")");
    assert_eq!(MessageType::Other("a\"b\n".to_string()).name(), "Other(\"a\\\"b\\n\")");
}

#[test]
fn names_agree_with_debug_formatting() {
    assert_eq!(MessageChannel::HttpApi.name(), format!("{:?}", MessageChannel::HttpApi));
    let other = MessageType::Other("x y".to_string());
    assert_eq!(other.name(), format!("{:?}", other));
    assert_eq!(MessageType::TimerTick.name(), format!("{:?}", MessageType::TimerTick));
}

#[test]
fn record_entry_writes_every_field() {
    let mut state = AppState::default();
    record_entry(
        &mut state,
        "src".to_string(),
        MessageChannel::Terminal,
        MessageType::TerminalCommand,
        Some("body".to_string()),
        42,
    );
    assert_eq!(state.message_history.len(), 1);
    let line = &state.message_history[0];
    assert_eq!(line.source, "src");
    assert_eq!(line.channel, "Terminal");
    assert_eq!(line.event_type, "TerminalCommand");
    assert_eq!(line.content, Some("body".to_string()));
    assert_eq!(line.timestamp, 42);
    assert_eq!(state.message_counts, vec![(MessageChannel::Terminal, 1)]);
}

#[test]
fn history_holds_the_last_lines_in_call_order() {
    let mut state = state_with(3, true);
    for n in 0..5u64 {
        record(&mut state, &format!("s{}", n), MessageChannel::HttpApi, n);
        let expected = if n + 1 < 3 { n + 1 } else { 3 };
        assert_eq!(state.message_history.len() as u64, expected);
    }
    let stamps: Vec<u64> = state.message_history.iter().map(|e| e.timestamp).collect();
    assert_eq!(stamps, vec![2, 3, 4]);
    let sources: Vec<String> = state.message_history.iter().map(|e| e.source.clone()).collect();
    assert_eq!(sources, vec!["s2".to_string(), "s3".to_string(), "s4".to_string()]);
}

#[test]
fn history_shorter_than_the_limit_keeps_all() {
    let mut state = state_with(10, true);
    for n in 0..4u64 {
        record(&mut state, "s", MessageChannel::Timer, n);
    }
    let stamps: Vec<u64> = state.message_history.iter().map(|e| e.timestamp).collect();
    assert_eq!(stamps, vec![0, 1, 2, 3]);
}

#[test]
fn limit_zero_keeps_no_line_but_counts() {
    let mut state = state_with(0, true);
    record(&mut state, "s", MessageChannel::Timer, 1);
    record(&mut state, "s", MessageChannel::Timer, 2);
    assert!(state.message_history.is_empty());
    assert_eq!(state.message_counts, vec![(MessageChannel::Timer, 2)]);
}

#[test]
fn limit_one_keeps_the_newest_line() {
    let mut state = state_with(1, true);
    record(&mut state, "a", MessageChannel::Timer, 1);
    record(&mut state, "b", MessageChannel::Timer, 2);
    assert_eq!(state.message_history.len(), 1);
    assert_eq!(state.message_history[0].source, "b");
}

#[test]
fn counts_are_per_channel_in_first_seen_order() {
    let mut state = AppState::default();
    let order = [
        MessageChannel::Timer,
        MessageChannel::HttpApi,
        MessageChannel::Timer,
        MessageChannel::Websocket,
        MessageChannel::HttpApi,
        MessageChannel::Timer,
    ];
    for (n, ch) in order.iter().enumerate() {
        record(&mut state, "s", *ch, n as u64);
    }
    assert_eq!(
        state.message_counts,
        vec![(MessageChannel::Timer, 3), (MessageChannel::HttpApi, 2), (MessageChannel::Websocket, 1)]
    );
    let status = state.get_status_response();
    assert_eq!(
        status.channel_stats,
        vec![("Timer".to_string(), 3), ("HttpApi".to_string(), 2), ("Websocket".to_string(), 1)]
    );
    let sum: u64 = status.channel_stats.iter().map(|p| p.1).sum();
    assert_eq!(sum, 6);
    assert_eq!(status.message_count, 6);
    assert_eq!(status.client_count, 0);
}

#[test]
fn increment_channel_count_adds_then_raises() {
    let mut state = AppState::default();
    state.increment_channel_count(MessageChannel::External);
    assert_eq!(state.message_counts, vec![(MessageChannel::External, 1)]);
    state.increment_channel_count(MessageChannel::Internal);
    state.increment_channel_count(MessageChannel::External);
    assert_eq!(
        state.message_counts,
        vec![(MessageChannel::External, 2), (MessageChannel::Internal, 1)]
    );
    assert!(state.message_history.is_empty());
}

#[test]
fn increment_raises_only_the_first_row_of_a_channel() {
    let mut state = AppState::default();
    state.message_counts = vec![(MessageChannel::Timer, 4), (MessageChannel::Timer, 9)];
    state.increment_channel_count(MessageChannel::Timer);
    assert_eq!(state.message_counts, vec![(MessageChannel::Timer, 5), (MessageChannel::Timer, 9)]);
}

#[test]
fn clear_counts_leaves_the_history() {
    let mut state = AppState::default();
    record(&mut state, "s", MessageChannel::Timer, 1);
    state.clear_counts();
    assert!(state.message_counts.is_empty());
    assert_eq!(state.message_history.len(), 1);
}

#[test]
fn clear_empties_history_and_counts_only() {
    let mut state = state_with(7, false);
    state.add_client(3, "/ws".to_string());
    record(&mut state, "s", MessageChannel::Timer, 1);
    state.clear();
    assert!(state.message_history.is_empty());
    assert!(state.message_counts.is_empty());
    assert_eq!(state.connected_clients, vec![(3, "/ws".to_string())]);
    assert_eq!(state.config.max_history, 7);
    assert!(!state.config.log_content);
}

#[test]
fn redaction_drops_new_content_and_leaves_old_lines() {
    let mut state = AppState::default();
    record(&mut state, "before", MessageChannel::Timer, 1);
    state.config.log_content = false;
    record(&mut state, "after", MessageChannel::Timer, 2);
    assert_eq!(state.message_history[0].content, Some("content of before".to_string()));
    assert_eq!(state.message_history[1].content, None);
    assert_eq!(state.message_history[1].source, "after");
}

#[test]
fn log_message_records_at_the_clock() {
    let mut state = AppState::default();
    log_message(
        &mut state,
        "clocked".to_string(),
        MessageChannel::Internal,
        MessageType::LocalRequest,
        None,
    );
    assert_eq!(state.message_history.len(), 1);
    assert_eq!(state.message_history[0].source, "clocked");
    assert_eq!(state.message_history[0].channel, "Internal");
    assert_eq!(state.message_history[0].event_type, "LocalRequest");
    assert_eq!(state.message_history[0].content, None);
    assert_eq!(state.message_counts, vec![(MessageChannel::Internal, 1)]);
}

#[test]
fn clients_register_find_and_leave() {
    let mut state = AppState::default();
    state.add_client(1, "/a".to_string());
    state.add_client(2, "/b".to_string());
    state.add_client(1, "/c".to_string());
    assert_eq!(state.connected_clients.len(), 3);
    assert_eq!(state.get_client_path(1), Some("/a"));
    assert_eq!(state.get_client_path(2), Some("/b"));
    assert_eq!(state.get_client_path(9), None);
    state.remove_client(1);
    assert_eq!(state.connected_clients, vec![(2, "/b".to_string())]);
    assert_eq!(state.get_client_path(1), None);
    state.remove_client(7);
    assert_eq!(state.connected_clients, vec![(2, "/b".to_string())]);
}

#[test]
fn reads_are_repeatable() {
    let mut state = AppState::default();
    state.add_client(1, "/".to_string());
    record(&mut state, "s", MessageChannel::Timer, 5);
    record(&mut state, "t", MessageChannel::HttpApi, 6);
    let a = state.get_status_response();
    let b = state.get_status_response();
    assert_eq!(a.client_count, b.client_count);
    assert_eq!(a.message_count, b.message_count);
    assert_eq!(a.channel_stats, b.channel_stats);
    let h1 = state.get_history_response();
    let h2 = state.get_history_response();
    assert_eq!(h1.entries.len(), 2);
    assert_eq!(h1.entries.len(), h2.entries.len());
    for (x, y) in h1.entries.iter().zip(h2.entries.iter()) {
        assert_eq!(x.source, y.source);
        assert_eq!(x.channel, y.channel);
        assert_eq!(x.event_type, y.event_type);
        assert_eq!(x.content, y.content);
        assert_eq!(x.timestamp, y.timestamp);
    }
    assert_eq!(h1.entries[0].source, "s");
    assert_eq!(h1.entries[1].source, "t");
    assert_eq!(state.message_history.len(), 2);
}

#[test]
fn initialize_sets_defaults_and_logs_the_start() {
    let mut state = state_with(5, false);
    state.initialize();
    assert_eq!(state.config.max_history, 100);
    assert!(state.config.log_content);
    assert_eq!(state.message_history.len(), 1);
    let line = &state.message_history[0];
    assert_eq!(line.source, "System");
    assert_eq!(line.channel, "Internal");
    assert_eq!(line.event_type, "Other(\"Initialization\")");
    assert_eq!(line.content, Some("Application started".to_string()));
    assert_eq!(state.message_counts, vec![(MessageChannel::Internal, 1)]);
}

#[test]
fn hundred_and_one_get_requests_fill_the_history() {
    let mut state = AppState::default();
    for n in 0..101u64 {
        record(&mut state, &format!("HTTP:GET {}", n), MessageChannel::HttpApi, n);
    }
    assert_eq!(state.message_history.len(), 100);
    assert_eq!(state.message_history[0].source, "HTTP:GET 1");
    assert_eq!(state.message_history[0].timestamp, 1);
    assert_eq!(state.message_history[99].timestamp, 100);
    let status = state.get_status_response();
    assert_eq!(status.message_count, 100);
    assert_eq!(status.channel_stats, vec![("HttpApi".to_string(), 101)]);
}

#[test]
fn hundred_and_one_status_calls_after_initialize() {
    let mut state = AppState::default();
    state.initialize();
    let mut last = state.get_status();
    for _ in 1..101 {
        last = state.get_status();
    }
    assert_eq!(state.message_history.len(), 100);
    assert_eq!(state.message_history[0].source, "HTTP:GET");
    assert_eq!(last.message_count, 100);
    assert_eq!(
        last.channel_stats,
        vec![("Internal".to_string(), 1), ("HttpApi".to_string(), 101)]
    );
}

#[test]
fn http_status_logs_itself_first() {
    let mut state = AppState::default();
    let status = state.get_status();
    assert_eq!(status.message_count, 1);
    assert_eq!(status.client_count, 0);
    assert_eq!(status.channel_stats, vec![("HttpApi".to_string(), 1)]);
    let line = &state.message_history[0];
    assert_eq!(line.source, "HTTP:GET");
    assert_eq!(line.channel, "HttpApi");
    assert_eq!(line.event_type, "HttpGet");
    assert_eq!(line.content, Some("Status request".to_string()));
}

#[test]
fn http_history_holds_its_own_request() {
    let mut state = AppState::default();
    let history = state.get_history();
    assert_eq!(history.entries.len(), 1);
    assert_eq!(history.entries[0].source, "HTTP:GET");
    assert_eq!(history.entries[0].event_type, "HttpGet");
    assert_eq!(history.entries[0].content, Some("History request".to_string()));
}

#[test]
fn http_clear_leaves_only_its_own_line() {
    let mut state = AppState::default();
    record(&mut state, "s", MessageChannel::Timer, 1);
    record(&mut state, "s", MessageChannel::Websocket, 2);
    let answer = state.clear_history();
    assert!(answer.success);
    assert_eq!(answer.message, "History cleared successfully");
    assert_eq!(state.message_history.len(), 1);
    assert_eq!(state.message_history[0].source, "HTTP:POST");
    assert_eq!(state.message_history[0].event_type, "HttpPost");
    assert_eq!(state.message_history[0].content, Some("History cleared".to_string()));
    assert_eq!(state.message_counts, vec![(MessageChannel::HttpApi, 1)]);
}

#[test]
fn http_custom_message_is_logged_under_its_type() {
    let mut state = AppState::default();
    let answer = state.log_custom_message("alert".to_string(), "disk full".to_string());
    assert!(answer.success);
    assert_eq!(answer.message, "Custom message logged successfully");
    let line = &state.message_history[0];
    assert_eq!(line.source, "HTTP:Custom");
    assert_eq!(line.channel, "HttpApi");
    assert_eq!(line.event_type, "Other(\"alert\")");
    assert_eq!(line.content, Some("disk full".to_string()));
}

#[test]
fn external_calls_are_logged_on_the_external_channel() {
    let mut state = AppState::default();
    let status = state.external_get_status();
    assert_eq!(status.channel_stats, vec![("External".to_string(), 1)]);
    assert_eq!(state.message_history[0].source, "External:GetStatus");
    assert_eq!(state.message_history[0].event_type, "ResponseReceived");
    assert_eq!(state.message_history[0].content, Some("Status requested externally".to_string()));
    let history = state.external_get_history();
    assert_eq!(history.entries.len(), 2);
    assert_eq!(history.entries[1].source, "External:GetHistory");
    assert_eq!(history.entries[1].content, Some("History requested externally".to_string()));
    let answer = state.external_clear_history();
    assert!(answer.success);
    assert_eq!(answer.message, "History cleared successfully");
    assert_eq!(state.message_history.len(), 1);
    assert_eq!(state.message_history[0].source, "External:ClearHistory");
    assert_eq!(state.message_history[0].content, Some("History cleared externally".to_string()));
    assert_eq!(state.message_counts, vec![(MessageChannel::External, 1)]);
}

#[test]
fn external_message_names_its_sender() {
    let mut state = AppState::default();
    let answer =
        state.log_external_message("node.os@app:pkg:pub.os", "note".to_string(), "hi".to_string());
    assert!(answer.success);
    assert_eq!(answer.message, "Message logged successfully");
    let line = &state.message_history[0];
    assert_eq!(line.source, "External:node.os@app:pkg:pub.os");
    assert_eq!(line.channel, "External");
    assert_eq!(line.event_type, "Other(\"note\")");
    assert_eq!(line.content, Some("hi".to_string()));
}

#[test]
fn timer_tick_goes_to_every_client_with_one_status() {
    let mut state = AppState::default();
    state.add_client(1, "/".to_string());
    state.add_client(2, "/".to_string());
    let TimerBroadcast { status, recipients } = state.handle_timer();
    assert_eq!(recipients, vec![1, 2]);
    assert_eq!(status.client_count, 2);
    assert_eq!(status.message_count, 1);
    assert_eq!(status.channel_stats, vec![("Timer".to_string(), 1)]);
    assert_eq!(state.message_history[0].source, "Timer");
    assert_eq!(state.message_history[0].event_type, "TimerTick");
    assert_eq!(state.message_history[0].content, Some("Timer event received".to_string()));
}

#[test]
fn timer_tick_without_clients_has_no_recipient() {
    let mut state = AppState::default();
    let broadcast = state.handle_timer();
    assert!(broadcast.recipients.is_empty());
    assert_eq!(broadcast.status.client_count, 0);
}

#[test]
fn websocket_unknown_command_is_answered_with_an_error() {
    let mut state = AppState::default();
    let reply = state.handle_websocket(11, b"{\"command\":\"bogus\"}");
    match reply {
        Some(WsPush { channel_id: 11, reply: WsReply::Error(e) }) => {
            assert!(!e.success);
            assert_eq!(e.code, 400);
            assert_eq!(e.message, "Unknown command: bogus");
        },
        _ => panic!("an error reply was expected"),
    }
    assert!(state.message_history.is_empty());
    assert!(state.message_counts.is_empty());
}

#[test]
fn websocket_get_status_reads_the_command_member() {
    let mut state = AppState::default();
    state.add_client(4, "/".to_string());
    let reply = state.handle_websocket(11, b"  { \"other\": 1, \"command\" : \"get_status\" } ");
    match reply {
        Some(WsPush { channel_id: 11, reply: WsReply::Status(s) }) => {
            assert_eq!(s.client_count, 1);
            assert_eq!(s.message_count, 1);
            assert_eq!(s.channel_stats, vec![("Websocket".to_string(), 1)]);
        },
        _ => panic!("a status reply was expected"),
    }
    let line = &state.message_history[0];
    assert_eq!(line.source, "WebSocket:GetStatus");
    assert_eq!(line.event_type, "WebsocketPushA");
    assert_eq!(line.content, Some("Status requested".to_string()));
}

#[test]
fn websocket_get_history_returns_the_lines() {
    let mut state = AppState::default();
    record(&mut state, "old", MessageChannel::Timer, 1);
    match state.handle_websocket(11, b"{\"command\":\"get_history\"}") {
        Some(WsPush { channel_id: 11, reply: WsReply::History(h) }) => {
            assert_eq!(h.entries.len(), 2);
            assert_eq!(h.entries[0].source, "old");
            assert_eq!(h.entries[1].source, "WebSocket:GetHistory");
            assert_eq!(h.entries[1].content, Some("History requested".to_string()));
        },
        _ => panic!("a history reply was expected"),
    }
}

#[test]
fn websocket_clear_history_leaves_its_own_line() {
    let mut state = AppState::default();
    record(&mut state, "old", MessageChannel::Timer, 1);
    match state.handle_websocket(11, b"{\"command\":\"clear_history\"}") {
        Some(WsPush { channel_id: 11, reply: WsReply::Success(s) }) => {
            assert!(s.success);
            assert_eq!(s.message, "History cleared successfully");
        },
        _ => panic!("a success reply was expected"),
    }
    assert_eq!(state.message_history.len(), 1);
    assert_eq!(state.message_history[0].source, "WebSocket:Clear");
    assert_eq!(state.message_counts, vec![(MessageChannel::Websocket, 1)]);
}

#[test]
fn websocket_log_message_joins_type_and_content() {
    let mut state = AppState::default();
    let frame = b"{\"command\":\"log_message\",\"message_type\":\"warn\",\"content\":\"a \\\"b\\\"\"}";
    match state.handle_websocket(11, frame) {
        Some(WsPush { channel_id: 11, reply: WsReply::Success(s) }) => {
            assert!(s.success);
            assert_eq!(s.message, "Custom message logged successfully");
        },
        _ => panic!("a success reply was expected"),
    }
    let line = &state.message_history[0];
    assert_eq!(line.source, "WebSocket:Custom");
    assert_eq!(line.channel, "Websocket");
    assert_eq!(line.event_type, "WebsocketPushB");
    assert_eq!(line.content, Some("Type: warn, Content: a \"b\"".to_string()));
}

#[test]
fn websocket_log_message_without_its_fields_is_ignored() {
    let mut state = AppState::default();
    assert!(state.handle_websocket(11, b"{\"command\":\"log_message\"}").is_none());
    assert!(state
        .handle_websocket(11, b"{\"command\":\"log_message\",\"message_type\":\"x\"}")
        .is_none());
    assert!(state
        .handle_websocket(11, b"{\"command\":\"log_message\",\"message_type\":\"x\",\"content\":5}")
        .is_none());
    assert!(state.message_history.is_empty());
    assert!(state.message_counts.is_empty());
}

#[test]
fn websocket_malformed_frames_are_dropped() {
    let mut state = AppState::default();
    assert!(state.handle_websocket(11, &[0xff, 0xfe, 0x00]).is_none());
    assert!(state.handle_websocket(11, b"not json").is_none());
    assert!(state.handle_websocket(11, b"{\"command\":\"get_status\"").is_none());
    assert!(state.handle_websocket(11, b"[\"get_status\"]").is_none());
    assert!(state.handle_websocket(11, b"{\"command\":17}").is_none());
    assert!(state.handle_websocket(11, b"{\"cmd\":\"get_status\"}").is_none());
    assert!(state.handle_websocket(11, b"").is_none());
    assert!(state.message_history.is_empty());
}

#[test]
fn handle_command_takes_the_fields_as_values() {
    let mut state = AppState::default();
    let reply = state.handle_command("log_message", Some("t".to_string()), Some("c".to_string()));
    assert!(matches!(reply, Some(WsReply::Success(_))));
    assert_eq!(state.message_history[0].content, Some("Type: t, Content: c".to_string()));
    let reply = state.handle_command("log_message", None, Some("c".to_string()));
    assert!(reply.is_none());
    let reply = state.handle_command("", None, None);
    match reply {
        Some(WsReply::Error(e)) => assert_eq!(e.message, "Unknown command: "),
        _ => panic!("an error reply was expected"),
    }
    assert_eq!(state.message_history.len(), 1);
}

#[test]
fn cloned_line_equals_the_line() {
    let mut state = AppState::default();
    record(&mut state, "s", MessageChannel::Timer, 77);
    let copy = state.message_history[0].clone();
    assert_eq!(copy.source, "s");
    assert_eq!(copy.channel, "Timer");
    assert_eq!(copy.event_type, "HttpGet");
    assert_eq!(copy.content, Some("content of s".to_string()));
    assert_eq!(copy.timestamp, 77);
}

#[test]
fn timestamp_is_past_the_year_2020() {
    assert!(get_timestamp() > 1_577_836_800);
}

#[test]
fn can_count_until_the_counter_is_full() {
    let mut state = AppState::default();
    assert!(state.can_count(MessageChannel::Timer));
    state.message_counts = vec![(MessageChannel::Timer, usize::MAX), (MessageChannel::HttpApi, 3)];
    assert!(!state.can_count(MessageChannel::Timer));
    assert!(state.can_count(MessageChannel::HttpApi));
    assert!(state.can_count(MessageChannel::External));
}

#[test]
fn websocket_reply_is_addressed_to_the_sender() {
    let mut state = AppState::default();
    let push = state.handle_websocket(42, b"{\"command\":\"get_status\"}");
    assert_eq!(push.map(|p| p.channel_id), Some(42));
}

#[test]
fn failed_clock_reading_gives_zero() {
    assert_eq!(seconds_or_zero(None), 0);
}

#[test]
fn clock_reading_gives_its_whole_seconds() {
    assert_eq!(seconds_or_zero(Some(std::time::Duration::from_millis(5_999))), 5);
    assert_eq!(seconds_or_zero(Some(std::time::Duration::from_secs(1_700_000_000))), 1_700_000_000);
    assert_eq!(seconds_or_zero(Some(std::time::Duration::from_nanos(1))), 0);
}
