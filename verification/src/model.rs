//! The mathematical model of the service: what recording an event, clearing
//! and summarising mean on sequences of plain values.

use vstd::prelude::*;
use crate::types::{MessageChannel, LogEntryView, StatusView};
use crate::state::AppConfig;

verus! {

/// An event as it is handed to the dispatcher, with the time it was seen at.
pub ghost struct Event {
    pub source: Seq<char>,
    pub channel: MessageChannel,
    pub event_type: Seq<char>,
    pub content: Option<Seq<char>>,
    pub timestamp: u64,
}

/// The state of the service as sequences of plain values.
pub ghost struct AppStateView {
    pub history: Seq<LogEntryView>,
    pub counts: Seq<(MessageChannel, usize)>,
    pub config: AppConfig,
    pub clients: Seq<(u32, Seq<char>)>,
}

/// The state a service starts from: nothing recorded, nobody connected, a
/// history of up to 100 lines with their content.
pub open spec fn initial_state() -> AppStateView {
    AppStateView {
        history: Seq::empty(),
        counts: Seq::empty(),
        config: AppConfig { max_history: 100, log_content: true },
        clients: Seq::empty(),
    }
}

pub open spec fn stamped(
    source: Seq<char>,
    channel: MessageChannel,
    event_type: Seq<char>,
    content: Option<Seq<char>>,
    timestamp: u64,
) -> Event {
    Event { source, channel, event_type, content, timestamp }
}

/// The history line that an event becomes: the content is kept only where the
/// configuration asks for it.
pub open spec fn entry_of(config: AppConfig, ev: Event) -> LogEntryView {
    LogEntryView {
        source: ev.source,
        channel: ev.channel.name_spec(),
        event_type: ev.event_type,
        content: if config.log_content { ev.content } else { None },
        timestamp: ev.timestamp,
    }
}

/// The count that the table holds for a channel: that of its first row, zero
/// where it has none.
pub open spec fn count_of(counts: Seq<(MessageChannel, usize)>, ch: MessageChannel) -> nat
    decreases counts.len(),
{
    if counts.len() == 0 {
        0
    } else if counts[0].0 == ch {
        counts[0].1 as nat
    } else {
        count_of(counts.drop_first(), ch)
    }
}

/// The table after one more event on a channel: its first row counts one
/// more, or a new last row counts one.
pub open spec fn bump(counts: Seq<(MessageChannel, usize)>, ch: MessageChannel) -> Seq<
    (MessageChannel, usize),
>
    decreases counts.len(),
{
    if counts.len() == 0 {
        seq![(ch, 1usize)]
    } else if counts[0].0 == ch {
        counts.update(0, (ch, (counts[0].1 + 1) as usize))
    } else {
        seq![counts[0]] + bump(counts.drop_first(), ch)
    }
}

/// The counter of a channel can still grow.
pub open spec fn has_room(counts: Seq<(MessageChannel, usize)>, ch: MessageChannel) -> bool {
    count_of(counts, ch) < usize::MAX
}

/// The sum of all counts of the table.
pub open spec fn total(counts: Seq<(MessageChannel, usize)>) -> nat
    decreases counts.len(),
{
    if counts.len() == 0 {
        0
    } else {
        counts[0].1 as nat + total(counts.drop_first())
    }
}

/// The table has a row for a channel.
pub open spec fn listed(counts: Seq<(MessageChannel, usize)>, ch: MessageChannel) -> bool {
    exists|i: int| 0 <= i < counts.len() && (#[trigger] counts[i]).0 == ch
}

/// No channel has two rows.
pub open spec fn distinct_channels(counts: Seq<(MessageChannel, usize)>) -> bool {
    forall|i: int, j: int|
        0 <= i < j < counts.len() ==> (#[trigger] counts[i]).0 != (#[trigger] counts[j]).0
}

/// A history cut back to a limit it exceeds by one: the oldest line leaves.
pub open spec fn trimmed(history: Seq<LogEntryView>, max: usize) -> Seq<LogEntryView> {
    if history.len() > max {
        history.remove(0)
    } else {
        history
    }
}

/// The state after an event was recorded.
pub open spec fn recorded(s: AppStateView, ev: Event) -> AppStateView {
    AppStateView {
        history: trimmed(s.history.push(entry_of(s.config, ev)), s.config.max_history),
        counts: bump(s.counts, ev.channel),
        config: s.config,
        clients: s.clients,
    }
}

/// `post` is `pre` with the given event recorded at some time.
pub open spec fn records(
    pre: AppStateView,
    post: AppStateView,
    source: Seq<char>,
    channel: MessageChannel,
    event_type: Seq<char>,
    content: Option<Seq<char>>,
) -> bool {
    exists|ts: u64|
        post == #[trigger] recorded(pre, stamped(source, channel, event_type, content, ts))
}

/// The state with history and counters emptied.
pub open spec fn cleared(s: AppStateView) -> AppStateView {
    AppStateView { history: Seq::empty(), counts: Seq::empty(), config: s.config, clients: s.clients }
}

/// The summary of a state.
pub open spec fn status_of(s: AppStateView) -> StatusView {
    StatusView {
        client_count: s.clients.len() as u64,
        message_count: s.history.len() as u64,
        channel_stats: s.counts.map_values(
            |p: (MessageChannel, usize)| (p.0.name_spec(), p.1 as u64),
        ),
    }
}

/// The path of the first client registered under an id.
pub open spec fn path_of(clients: Seq<(u32, Seq<char>)>, id: u32) -> Option<Seq<char>>
    decreases clients.len(),
{
    if clients.len() == 0 {
        None
    } else if clients[0].0 == id {
        Some(clients[0].1)
    } else {
        path_of(clients.drop_first(), id)
    }
}

/// The registry without the clients registered under an id.
pub open spec fn without_client(clients: Seq<(u32, Seq<char>)>, id: u32) -> Seq<
    (u32, Seq<char>),
> {
    clients.filter(|p: (u32, Seq<char>)| p.0 != id)
}

/// The state is one that the service's own operations produce: the history
/// is within its limit and no channel is counted twice.
pub open spec fn well_formed(s: AppStateView) -> bool {
    &&& s.history.len() <= s.config.max_history
    &&& distinct_channels(s.counts)
}

} // verus!
