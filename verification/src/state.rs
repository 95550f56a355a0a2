//! The state of the service and the operations that change it.

use vstd::prelude::*;
use crate::types::{
    MessageChannel, MessageType, LogEntry, StatusResponse, HistoryResponse, entries_view,
    opt_text,
};
use crate::model::{
    AppStateView, bump, cleared, count_of, has_room, initial_state, path_of, recorded, records,
    stamped, status_of, well_formed, without_client,
};
use crate::outside::{clock_now, since_epoch, whole_seconds};
use crate::laws::law_well_formed_kept;

verus! {

/// Configuration of the service.
#[derive(Debug, Clone, Copy)]
pub struct AppConfig {
    /// Maximum number of messages to keep in history
    pub max_history: usize,
    /// Whether to log message content
    pub log_content: bool,
}

impl Default for AppConfig {
    fn default() -> (r: Self)
        ensures
            r.max_history == 100,
            r.log_content,
    {
        AppConfig { max_history: 100, log_content: true }
    }
}

/// The state of the service.
#[derive(Debug, Clone)]
pub struct AppState {
    /// Message history for all channels, oldest first
    pub message_history: Vec<LogEntry>,
    /// Message counts by channel, in the order the channels were first seen
    pub message_counts: Vec<(MessageChannel, usize)>,
    /// Configuration settings
    pub config: AppConfig,
    /// Connected WebSocket clients (channel_id -> path)
    pub connected_clients: Vec<(u32, String)>,
}

/// The registry as plain values.
pub open spec fn clients_view(v: Seq<(u32, String)>) -> Seq<(u32, Seq<char>)> {
    v.map_values(|p: (u32, String)| (p.0, p.1@))
}

impl View for AppState {
    type V = AppStateView;

    open spec fn view(&self) -> AppStateView {
        AppStateView {
            history: entries_view(self.message_history@),
            counts: self.message_counts@,
            config: self.config,
            clients: clients_view(self.connected_clients@),
        }
    }
}

impl Default for AppState {
    fn default() -> (r: Self)
        ensures
            r@ == initial_state(),
            well_formed(r@),
    {
        let r = AppState {
            message_history: Vec::new(),
            message_counts: Vec::new(),
            config: AppConfig::default(),
            connected_clients: Vec::new(),
        };
        assert(r@.history =~= Seq::empty());
        assert(r@.clients =~= Seq::empty());
        r
    }
}

/// The seconds since the epoch that the system clock shows, zero where it
/// shows a time before the epoch.
pub fn get_timestamp() -> u64 {
    seconds_or_zero(since_epoch(&clock_now()))
}

/// The timestamp that a reading of the clock gives: the whole seconds of the
/// time elapsed since the epoch, zero where the reading failed.
pub fn seconds_or_zero(elapsed: Option<core::time::Duration>) -> (r: u64)
    ensures
        r == (match elapsed {
            Some(d) => whole_seconds(d),
            None => 0,
        }),
{
    match elapsed {
        Some(d) => d.as_secs(),
        None => 0,
    }
}

/// Records an event seen at `timestamp`: appends its line to the history,
/// counts it for its channel, and drops the oldest line where the history
/// has outgrown its limit.
pub fn record_entry(
    state: &mut AppState,
    source: String,
    channel: MessageChannel,
    message_type: MessageType,
    content: Option<String>,
    timestamp: u64,
)
    requires
        has_room(old(state)@.counts, channel),
    ensures
        final(state)@ == recorded(
            old(state)@,
            stamped(source@, channel, message_type.name_spec(), opt_text(content), timestamp),
        ),
        well_formed(old(state)@) ==> well_formed(final(state)@),
{
    let ghost before = state@;
    proof {
        if well_formed(before) {
            law_well_formed_kept(
                before,
                stamped(source@, channel, message_type.name_spec(), opt_text(content), timestamp),
            );
        }
    }
    let entry = LogEntry {
        source,
        channel: channel.name(),
        event_type: message_type.name(),
        content: if state.config.log_content { content } else { None },
        timestamp,
    };
    let ghost line = entry@;
    state.message_history.push(entry);
    assert(entries_view(state.message_history@) =~= before.history.push(line));
    state.increment_channel_count(channel);
    if state.message_history.len() > state.config.max_history {
        state.message_history.remove(0);
        assert(entries_view(state.message_history@) =~= before.history.push(line).remove(0));
    }
}

/// Records an event at the time the clock shows.
pub fn log_message(
    state: &mut AppState,
    source: String,
    channel: MessageChannel,
    message_type: MessageType,
    content: Option<String>,
)
    requires
        has_room(old(state)@.counts, channel),
    ensures
        records(
            old(state)@,
            final(state)@,
            source@,
            channel,
            message_type.name_spec(),
            opt_text(content),
        ),
        well_formed(old(state)@) ==> well_formed(final(state)@),
{
    let timestamp = get_timestamp();
    record_entry(state, source, channel, message_type, content, timestamp);
}

impl AppState {
    /// Increment count for a channel
    pub fn increment_channel_count(&mut self, channel: MessageChannel)
        requires
            has_room(old(self).message_counts@, channel),
        ensures
            final(self).message_counts@ == bump(old(self).message_counts@, channel),
            final(self).message_history == old(self).message_history,
            final(self).config == old(self).config,
            final(self).connected_clients == old(self).connected_clients,
    {
        let ghost counts = self.message_counts@;
        let n = self.message_counts.len();
        let mut i: usize = 0;
        assert(counts.skip(0) =~= counts);
        assert(counts.take(0) + bump(counts, channel) =~= bump(counts, channel));
        while i < n
            invariant
                i <= n,
                n == counts.len(),
                counts == old(self).message_counts@,
                self.message_counts@ == counts,
                self.message_history == old(self).message_history,
                self.config == old(self).config,
                self.connected_clients == old(self).connected_clients,
                bump(counts, channel) == counts.take(i as int) + bump(counts.skip(i as int), channel),
                count_of(counts, channel) == count_of(counts.skip(i as int), channel),
                count_of(counts, channel) < usize::MAX,
            decreases n - i,
        {
            let (ch, c) = self.message_counts[i];
            let ghost rest = counts.skip(i as int);
            assert(rest[0] == counts[i as int]);
            if ch == channel {
                assert(count_of(rest, channel) == c);
                assert(bump(rest, channel) == rest.update(0, (ch, (c + 1) as usize)));
                self.message_counts[i] = (ch, c + 1);
                assert(self.message_counts@ =~= counts.take(i as int) + rest.update(
                    0,
                    (ch, (c + 1) as usize),
                ));
                return ;
            }
            proof {
                assert(rest.drop_first() =~= counts.skip(i + 1));
                assert(counts.take(i as int) + (seq![counts[i as int]] + bump(
                    counts.skip(i + 1),
                    channel,
                )) =~= counts.take(i + 1) + bump(counts.skip(i + 1), channel));
            }
            i += 1;
        }
        assert(counts.skip(n as int) =~= Seq::empty());
        self.message_counts.push((channel, 1));
        assert(self.message_counts@ =~= counts.take(n as int) + seq![(channel, 1usize)]);
    }

    /// Whether the counter of a channel can still grow, as recording an
    /// event on the channel asks.
    pub fn can_count(&self, channel: MessageChannel) -> (r: bool)
        ensures
            r == has_room(self@.counts, channel),
    {
        let ghost counts = self.message_counts@;
        let n = self.message_counts.len();
        let mut i: usize = 0;
        assert(counts.skip(0) =~= counts);
        while i < n
            invariant
                i <= n,
                n == counts.len(),
                counts == self.message_counts@,
                count_of(counts, channel) == count_of(counts.skip(i as int), channel),
            decreases n - i,
        {
            let (ch, c) = self.message_counts[i];
            assert(counts.skip(i as int)[0] == counts[i as int]);
            if ch == channel {
                return c < usize::MAX;
            }
            assert(counts.skip(i as int).drop_first() =~= counts.skip(i + 1));
            i += 1;
        }
        true
    }

    /// Add a client connection
    pub fn add_client(&mut self, channel_id: u32, path: String)
        ensures
            final(self)@.clients == old(self)@.clients.push((channel_id, path@)),
            final(self)@.history == old(self)@.history,
            final(self)@.counts == old(self)@.counts,
            final(self)@.config == old(self)@.config,
    {
        self.connected_clients.push((channel_id, path));
        assert(clients_view(self.connected_clients@) =~= clients_view(
            old(self).connected_clients@,
        ).push((channel_id, path@)));
    }

    /// Remove a client connection: every registration under the id leaves.
    pub fn remove_client(&mut self, channel_id: u32)
        ensures
            final(self)@.clients == without_client(old(self)@.clients, channel_id),
            final(self)@.history == old(self)@.history,
            final(self)@.counts == old(self)@.counts,
            final(self)@.config == old(self)@.config,
    {
        let ghost clients = self@.clients;
        let mut kept: Vec<(u32, String)> = Vec::new();
        let n = self.connected_clients.len();
        let mut i: usize = 0;
        assert(clients.take(0) =~= Seq::empty());
        assert(clients_view(kept@) =~= Seq::empty());
        assert(without_client(clients.take(0), channel_id) =~= Seq::empty()) by {
            reveal(Seq::filter);
        }
        while i < n
            invariant
                i <= n,
                n == self.connected_clients@.len(),
                *self == *old(self),
                clients == clients_view(self.connected_clients@),
                clients_view(kept@) == without_client(clients.take(i as int), channel_id),
            decreases n - i,
        {
            let id = self.connected_clients[i].0;
            let ghost before = clients_view(kept@);
            if id != channel_id {
                let path = self.connected_clients[i].1.clone();
                kept.push((id, path));
                assert(clients_view(kept@) =~= before.push(clients[i as int]));
            }
            proof {
                reveal(Seq::filter);
                assert(clients.take(i + 1).drop_last() =~= clients.take(i as int));
                assert(clients.take(i + 1).last() == clients[i as int]);
            }
            i += 1;
        }
        assert(clients.take(n as int) =~= clients);
        self.connected_clients = kept;
    }

    /// Get client path: that of the first registration under the id.
    pub fn get_client_path(&self, channel_id: u32) -> (r: Option<&str>)
        ensures
            (match r {
                Some(p) => Some(p@),
                None => None,
            }) == path_of(self@.clients, channel_id),
    {
        let ghost clients = self@.clients;
        let n = self.connected_clients.len();
        let mut i: usize = 0;
        assert(clients.skip(0) =~= clients);
        while i < n
            invariant
                i <= n,
                n == self.connected_clients@.len(),
                clients == clients_view(self.connected_clients@),
                path_of(clients, channel_id) == path_of(clients.skip(i as int), channel_id),
            decreases n - i,
        {
            assert(clients.skip(i as int)[0] == clients[i as int]);
            if self.connected_clients[i].0 == channel_id {
                return Some(self.connected_clients[i].1.as_str());
            }
            assert(clients.skip(i as int).drop_first() =~= clients.skip(i + 1));
            i += 1;
        }
        None
    }

    /// Clear message counts
    pub fn clear_counts(&mut self)
        ensures
            final(self)@.counts == Seq::<(MessageChannel, usize)>::empty(),
            final(self)@.history == old(self)@.history,
            final(self)@.config == old(self)@.config,
            final(self)@.clients == old(self)@.clients,
    {
        self.message_counts.clear();
    }

    /// Empties the history and the counters; configuration and clients stay.
    pub fn clear(&mut self)
        ensures
            final(self)@ == cleared(old(self)@),
            well_formed(old(self)@) ==> well_formed(final(self)@),
    {
        self.message_history.clear();
        self.clear_counts();
        assert(self@.history =~= Seq::empty());
    }

    /// Get status response
    pub fn get_status_response(&self) -> (r: StatusResponse)
        ensures
            r@ == status_of(self@),
    {
        let mut channel_stats: Vec<(String, u64)> = Vec::new();
        let n = self.message_counts.len();
        let mut i: usize = 0;
        while i < n
            invariant
                i <= n,
                n == self.message_counts@.len(),
                channel_stats@.len() == i,
                forall|k: int|
                    0 <= k < i ==> (#[trigger] channel_stats@[k]).0@
                        == self.message_counts@[k].0.name_spec() && channel_stats@[k].1
                        == self.message_counts@[k].1 as u64,
            decreases n - i,
        {
            let (ch, c) = self.message_counts[i];
            channel_stats.push((ch.name(), c as u64));
            i += 1;
        }
        let r = StatusResponse {
            client_count: self.connected_clients.len() as u64,
            message_count: self.message_history.len() as u64,
            channel_stats,
        };
        assert(r@.channel_stats =~= status_of(self@).channel_stats);
        r
    }

    /// Get history response
    pub fn get_history_response(&self) -> (r: HistoryResponse)
        ensures
            r@ == self@.history,
    {
        let mut entries: Vec<LogEntry> = Vec::new();
        let n = self.message_history.len();
        let mut i: usize = 0;
        while i < n
            invariant
                i <= n,
                n == self.message_history@.len(),
                entries@.len() == i,
                forall|k: int| 0 <= k < i ==> (#[trigger] entries@[k])@ == self.message_history@[k]@,
            decreases n - i,
        {
            entries.push(self.message_history[i].clone());
            i += 1;
        }
        assert(entries_view(entries@) =~= entries_view(self.message_history@));
        HistoryResponse { entries }
    }
}

} // verus!
