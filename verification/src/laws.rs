//! What holds of the service over whole runs of events, proved from the
//! model that the operations' contracts are stated in.

use vstd::prelude::*;
use crate::types::{MessageChannel, LogEntryView, StatusResponse, HistoryResponse};
use crate::model::{
    AppStateView, Event, bump, cleared, count_of, distinct_channels, entry_of, initial_state,
    listed, recorded, status_of, total, well_formed,
};
use crate::state::AppState;

verus! {

/// The state after a run of events was recorded, one after the other.
pub open spec fn replay(s: AppStateView, events: Seq<Event>) -> AppStateView
    decreases events.len(),
{
    if events.len() == 0 {
        s
    } else {
        recorded(replay(s, events.drop_last()), events.last())
    }
}

/// The history lines that a run of events becomes under a configuration.
pub open spec fn entries_of(s: AppStateView, events: Seq<Event>) -> Seq<LogEntryView> {
    events.map_values(|ev: Event| entry_of(s.config, ev))
}

/// The last `max` lines of a history, all of it where it has no more.
pub open spec fn window(history: Seq<LogEntryView>, max: usize) -> Seq<LogEntryView> {
    if history.len() <= max {
        history
    } else {
        history.skip(history.len() - max)
    }
}

/// The number of events of a run that came over a channel.
pub open spec fn events_on(events: Seq<Event>, ch: MessageChannel) -> nat
    decreases events.len(),
{
    if events.len() == 0 {
        0
    } else {
        events_on(events.drop_last(), ch) + (if events.last().channel == ch {
            1nat
        } else {
            0nat
        })
    }
}

/// The sum of the counts of a list of channel statistics.
pub open spec fn stats_total(stats: Seq<(Seq<char>, u64)>) -> nat
    decreases stats.len(),
{
    if stats.len() == 0 {
        0
    } else {
        stats[0].1 as nat + stats_total(stats.drop_first())
    }
}

/// After a run of events the history holds the last `max_history` of the
/// lines it held before followed by the lines of the run, in call order; from
/// an empty history its length is the smaller of the run's length and the
/// limit. Configuration and clients are untouched.
pub proof fn law_history_window(s: AppStateView, events: Seq<Event>)
    requires
        s.history.len() <= s.config.max_history,
    ensures
        replay(s, events).history == window(
            s.history + entries_of(s, events),
            s.config.max_history,
        ),
        replay(s, events).history.len() <= s.config.max_history,
        s.history.len() == 0 ==> replay(s, events).history.len() == (if events.len()
            <= s.config.max_history {
            events.len()
        } else {
            s.config.max_history as nat
        }),
        replay(s, events).config == s.config,
        replay(s, events).clients == s.clients,
    decreases events.len(),
{
    let max = s.config.max_history;
    if events.len() == 0 {
        assert(s.history + entries_of(s, events) =~= s.history);
    } else {
        let earlier = events.drop_last();
        law_history_window(s, earlier);
        let all_before = s.history + entries_of(s, earlier);
        let line = entry_of(s.config, events.last());
        assert(s.history + entries_of(s, events) =~= all_before.push(line));
        assert(replay(s, events).history =~= window(all_before.push(line), max));
    }
}

/// A counter is no more than the sum of all counters.
pub proof fn lemma_count_within_total(counts: Seq<(MessageChannel, usize)>, ch: MessageChannel)
    ensures
        count_of(counts, ch) <= total(counts),
    decreases counts.len(),
{
    if counts.len() > 0 {
        lemma_count_within_total(counts.drop_first(), ch);
    }
}

/// Counting one more event on a channel with room raises the sum by one.
pub proof fn lemma_bump_total(counts: Seq<(MessageChannel, usize)>, ch: MessageChannel)
    requires
        count_of(counts, ch) < usize::MAX,
    ensures
        total(bump(counts, ch)) == total(counts) + 1,
    decreases counts.len(),
{
    let after = bump(counts, ch);
    if counts.len() == 0 {
        assert(after.drop_first() =~= Seq::empty());
        assert(total(after.drop_first()) == 0);
    } else if counts[0].0 == ch {
        assert(after.drop_first() =~= counts.drop_first());
    } else {
        lemma_bump_total(counts.drop_first(), ch);
        assert(after.drop_first() =~= bump(counts.drop_first(), ch));
    }
}

/// Counting one more event on a channel with room raises the count of that
/// channel by one and leaves the count of every other channel.
pub proof fn lemma_bump_count(
    counts: Seq<(MessageChannel, usize)>,
    ch: MessageChannel,
    other: MessageChannel,
)
    requires
        count_of(counts, ch) < usize::MAX,
    ensures
        count_of(bump(counts, ch), other) == count_of(counts, other) + (if other == ch {
            1nat
        } else {
            0nat
        }),
    decreases counts.len(),
{
    let after = bump(counts, ch);
    if counts.len() == 0 {
        assert(after.drop_first() =~= Seq::empty());
        assert(count_of(after.drop_first(), other) == 0);
    } else if counts[0].0 == ch {
        assert(after.drop_first() =~= counts.drop_first());
    } else {
        lemma_bump_count(counts.drop_first(), ch, other);
        assert(after.drop_first() =~= bump(counts.drop_first(), ch));
    }
}

/// Counting one more event keeps every row's channel in place, and adds a
/// last row only for a channel that had none.
pub proof fn lemma_bump_rows(counts: Seq<(MessageChannel, usize)>, ch: MessageChannel)
    ensures
        bump(counts, ch).len() == counts.len() || bump(counts, ch).len() == counts.len() + 1,
        forall|i: int| 0 <= i < counts.len() ==> (#[trigger] bump(counts, ch)[i]).0 == counts[i].0,
        bump(counts, ch).len() == counts.len() + 1 ==> bump(counts, ch).last().0 == ch
            && forall|i: int| 0 <= i < counts.len() ==> (#[trigger] counts[i]).0 != ch,
    decreases counts.len(),
{
    let after = bump(counts, ch);
    if counts.len() == 0 {
    } else if counts[0].0 == ch {
    } else {
        let rest = counts.drop_first();
        lemma_bump_rows(rest, ch);
        let tail = bump(rest, ch);
        assert forall|i: int| 0 <= i < counts.len() implies (#[trigger] after[i]).0
            == counts[i].0 by {
            if i > 0 {
                assert(after[i] == tail[i - 1]);
                assert(rest[i - 1] == counts[i]);
            }
        }
        if after.len() == counts.len() + 1 {
            assert(after.last() == tail.last());
            assert forall|i: int| 0 <= i < counts.len() implies (#[trigger] counts[i]).0
                != ch by {
                if i > 0 {
                    assert(rest[i - 1] == counts[i]);
                }
            }
        }
    }
}

/// After one more event on a channel the table lists that channel and the
/// channels it listed before, and no other.
pub proof fn lemma_bump_listed(
    counts: Seq<(MessageChannel, usize)>,
    ch: MessageChannel,
    other: MessageChannel,
)
    ensures
        listed(bump(counts, ch), other) <==> listed(counts, other) || other == ch,
    decreases counts.len(),
{
    let after = bump(counts, ch);
    lemma_bump_rows(counts, ch);
    if counts.len() == 0 {
        assert(after[0].0 == ch);
    } else if counts[0].0 == ch {
        assert(after[0].0 == ch);
        assert(counts[0].0 == ch);
    } else {
        let rest = counts.drop_first();
        lemma_bump_listed(rest, ch, ch);
        let i = choose|i: int| 0 <= i < bump(rest, ch).len() && (#[trigger] bump(rest, ch)[i]).0 == ch;
        assert(after[i + 1] == bump(rest, ch)[i]);
    }
    assert(listed(after, ch));
    if listed(counts, other) {
        let i = choose|i: int| 0 <= i < counts.len() && (#[trigger] counts[i]).0 == other;
        assert(after[i].0 == other);
    }
    if listed(after, other) && other != ch {
        let i = choose|i: int| 0 <= i < after.len() && (#[trigger] after[i]).0 == other;
        assert(counts[i].0 == other);
    }
}

/// After a run of events the table lists the channels it listed before and
/// the channels of the events of the run, and no other.
pub proof fn law_channels_listed(s: AppStateView, events: Seq<Event>, ch: MessageChannel)
    ensures
        listed(replay(s, events).counts, ch) <==> listed(s.counts, ch) || events_on(events, ch) > 0,
    decreases events.len(),
{
    if events.len() > 0 {
        law_channels_listed(s, events.drop_last(), ch);
        lemma_bump_listed(replay(s, events.drop_last()).counts, events.last().channel, ch);
    }
}

/// Counting one more event never gives a channel a second row.
pub proof fn lemma_bump_distinct(counts: Seq<(MessageChannel, usize)>, ch: MessageChannel)
    requires
        distinct_channels(counts),
    ensures
        distinct_channels(bump(counts, ch)),
{
    lemma_bump_rows(counts, ch);
    let after = bump(counts, ch);
    assert forall|i: int, j: int| 0 <= i < j < after.len() implies (#[trigger] after[i]).0 != (
    #[trigger] after[j]).0 by {
        if j < counts.len() {
            assert(counts[i].0 != counts[j].0);
        } else {
            assert(counts[i].0 != ch);
        }
    }
}

/// A run of events keeps the channels of the counter table distinct, and
/// raises the sum of the counters by the length of the run, as long as the
/// sum fits the machine's word.
pub proof fn law_counts_follow_events(s: AppStateView, events: Seq<Event>)
    requires
        distinct_channels(s.counts),
        total(s.counts) + events.len() <= usize::MAX,
    ensures
        distinct_channels(replay(s, events).counts),
        total(replay(s, events).counts) == total(s.counts) + events.len(),
    decreases events.len(),
{
    if events.len() > 0 {
        law_counts_follow_events(s, events.drop_last());
        let before = replay(s, events.drop_last()).counts;
        let ch = events.last().channel;
        lemma_count_within_total(before, ch);
        lemma_bump_total(before, ch);
        lemma_bump_distinct(before, ch);
    }
}

/// The count of a channel after a run of events is its count before plus the
/// number of events of the run on that channel, as long as the sum of the
/// counters fits the machine's word: counts only grow.
pub proof fn law_channel_count(s: AppStateView, events: Seq<Event>, ch: MessageChannel)
    requires
        total(s.counts) + events.len() <= usize::MAX,
    ensures
        count_of(replay(s, events).counts, ch) == count_of(s.counts, ch) + events_on(events, ch),
        total(replay(s, events).counts) == total(s.counts) + events.len(),
    decreases events.len(),
{
    if events.len() > 0 {
        law_channel_count(s, events.drop_last(), ch);
        let before = replay(s, events.drop_last()).counts;
        let on = events.last().channel;
        lemma_count_within_total(before, on);
        lemma_bump_total(before, on);
        lemma_bump_count(before, on, ch);
    }
}

/// Since the last clear the counters sum to the number of events recorded.
pub proof fn law_counts_since_clear(s: AppStateView, events: Seq<Event>)
    requires
        events.len() <= usize::MAX,
    ensures
        distinct_channels(replay(cleared(s), events).counts),
        total(replay(cleared(s), events).counts) == events.len(),
{
    law_counts_follow_events(cleared(s), events);
}

/// Two channels with the same display name are the same channel.
pub proof fn lemma_channel_names_differ(a: MessageChannel, b: MessageChannel)
    requires
        a.name_spec() == b.name_spec(),
    ensures
        a == b,
{
    reveal_strlit("Websocket");
    reveal_strlit("HttpApi");
    reveal_strlit("Internal");
    reveal_strlit("External");
    reveal_strlit("Timer");
    reveal_strlit("Terminal");
    assert("Websocket"@.len() == 9 && "HttpApi"@.len() == 7 && "Timer"@.len() == 5);
    assert("Internal"@.len() == 8 && "Internal"@[0] == 'I');
    assert("External"@.len() == 8 && "External"@[0] == 'E');
    assert("Terminal"@.len() == 8 && "Terminal"@[0] == 'T');
}

/// The statistics of a status name no channel twice where the counter table
/// has none twice, and their counts sum to the sum of the counters.
pub proof fn law_status_statistics(s: AppStateView)
    requires
        distinct_channels(s.counts),
    ensures
        forall|i: int, j: int|
            0 <= i < j < status_of(s).channel_stats.len() ==> (
            #[trigger] status_of(s).channel_stats[i]).0 != (
            #[trigger] status_of(s).channel_stats[j]).0,
        stats_total(status_of(s).channel_stats) == total(s.counts),
        status_of(s).channel_stats.len() == s.counts.len(),
{
    let stats = status_of(s).channel_stats;
    assert forall|i: int, j: int| 0 <= i < j < stats.len() implies (#[trigger] stats[i]).0 != (
    #[trigger] stats[j]).0 by {
        assert(s.counts[i].0 != s.counts[j].0);
        if stats[i].0 == stats[j].0 {
            lemma_channel_names_differ(s.counts[i].0, s.counts[j].0);
        }
    }
    lemma_stats_total(s.counts);
}

proof fn lemma_stats_total(counts: Seq<(MessageChannel, usize)>)
    ensures
        stats_total(
            counts.map_values(|p: (MessageChannel, usize)| (p.0.name_spec(), p.1 as u64)),
        ) == total(counts),
    decreases counts.len(),
{
    let render = |p: (MessageChannel, usize)| (p.0.name_spec(), p.1 as u64);
    if counts.len() > 0 {
        lemma_stats_total(counts.drop_first());
        assert(counts.map_values(render).drop_first() =~= counts.drop_first().map_values(render));
    }
}

/// A cleared state has no history and no counters; the event recorded right
/// after is the only line of the history, unless the limit is zero, and the
/// only counter, with count one for its channel.
pub proof fn law_clear_then_record(s: AppStateView, ev: Event)
    ensures
        cleared(s).history.len() == 0,
        cleared(s).counts.len() == 0,
        cleared(s).config == s.config,
        cleared(s).clients == s.clients,
        recorded(cleared(s), ev).counts == seq![(ev.channel, 1usize)],
        recorded(cleared(s), ev).history == (if s.config.max_history > 0 {
            seq![entry_of(s.config, ev)]
        } else {
            Seq::empty()
        }),
{
    let line = entry_of(s.config, ev);
    assert(Seq::<LogEntryView>::empty().push(line) =~= seq![line]);
    assert(seq![line].remove(0) =~= Seq::empty());
}

/// Reading the status reads the state and nothing else: two reads of one
/// state give the same status.
pub proof fn law_status_read_twice(state: AppState, first: StatusResponse, second: StatusResponse)
    requires
        first@ == status_of(state@),
        second@ == status_of(state@),
    ensures
        first@ == second@,
{
}

/// Reading the history reads the state and nothing else: two reads of one
/// state give the same lines.
pub proof fn law_history_read_twice(
    state: AppState,
    first: HistoryResponse,
    second: HistoryResponse,
)
    requires
        first@ == state@.history,
        second@ == state@.history,
    ensures
        first@ == second@,
{
}

/// Where the configuration does not log content, the line of a new event has
/// none, whatever was handed in; the lines that stay in the history are the
/// ones that were there, unchanged and in their order.
pub proof fn law_redaction(s: AppStateView, ev: Event)
    ensures
        !s.config.log_content ==> entry_of(s.config, ev).content.is_none(),
        s.config.log_content ==> entry_of(s.config, ev).content == ev.content,
        s.history.len() < s.config.max_history ==> recorded(s, ev).history == s.history.push(
            entry_of(s.config, ev),
        ),
        s.history.len() >= s.config.max_history ==> recorded(s, ev).history
            == s.history.drop_first().push(entry_of(s.config, ev)) || (s.history.len() == 0
            && recorded(s, ev).history.len() == 0),
{
    let line = entry_of(s.config, ev);
    if s.history.len() >= s.config.max_history {
        if s.history.len() > 0 {
            assert(s.history.push(line).remove(0) =~= s.history.drop_first().push(line));
        } else {
            assert(s.history.push(line).remove(0) =~= Seq::empty());
        }
    }
}

/// The initial state is well formed.
pub proof fn law_initial_state_well_formed()
    ensures
        well_formed(initial_state()),
{
}

/// Recording an event and clearing keep a state well formed.
pub proof fn law_well_formed_kept(s: AppStateView, ev: Event)
    requires
        well_formed(s),
    ensures
        well_formed(recorded(s, ev)),
        well_formed(cleared(s)),
{
    lemma_bump_distinct(s.counts, ev.channel);
}

} // verus!
