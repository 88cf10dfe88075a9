//! Poller for per-block statistics: remembers the latest height received
//! from the chain-state stream and fetches statistics for it on each tick.
//!
//! Two independent event sources race: an incoming chain-state message
//! overwrites the remembered height unconditionally (later values always
//! win; monotonicity is already guaranteed upstream), and an interval tick
//! asks for statistics for the remembered height. Before any height has
//! been received a tick does nothing. A failed stats fetch is skipped
//! silently; a successful one is published as-is.

use vstd::prelude::*;
use crate::types::{BlockStats, ChainState};

verus! {

/// One event observed by the stats poller: a chain-state message arrived,
/// or the fetch interval ticked.
#[derive(Clone, Copy, PartialEq, Eq, Structural, Debug)]
pub enum StatsEvent {
    Received(ChainState),
    Tick,
}

/// State of the stats poller: the latest height received so far, if any.
#[derive(Clone, Copy, PartialEq, Eq, Structural, Debug)]
pub struct BlockStatsPoller {
    pub latest: Option<u64>,
}

/// The remembered height after a sequence of events: the height of the
/// last chain-state message in the sequence, or the initial value when the
/// sequence holds none.
pub open spec fn spec_latest(init: Option<u64>, events: Seq<StatsEvent>) -> Option<u64>
    decreases events.len(),
{
    if events.len() == 0 {
        init
    } else {
        match events.last() {
            StatsEvent::Received(cs) => Option::Some(cs.height),
            StatsEvent::Tick => spec_latest(init, events.drop_last()),
        }
    }
}

/// What a tick fetches, given the state the poller holds at that instant:
/// the remembered height, or nothing when no height was ever received.
pub open spec fn spec_tick_fetch(init: Option<u64>, events: Seq<StatsEvent>, i: int) -> Option<
    u64,
> {
    spec_latest(init, events.take(i))
}

impl BlockStatsPoller {
    /// A fresh poller that has not yet received any height.
    pub fn new() -> (p: Self)
        ensures
            p.latest == Option::<u64>::None,
    {
        BlockStatsPoller { latest: Option::None }
    }

    /// A chain-state message arrived: overwrite the remembered height with
    /// the new one, unconditionally.
    pub fn on_chain_state(&mut self, cs: ChainState)
        ensures
            final(self).latest == Option::Some(cs.height),
    {
        self.latest = Option::Some(cs.height);
    }

    /// The interval ticked: the height to fetch statistics for, or nothing
    /// when no height has been received yet. The state does not change.
    pub fn on_tick(&self) -> (fetch: Option<u64>)
        ensures
            fetch == self.latest,
    {
        self.latest
    }

    /// Outcome of a stats fetch: a success is published as-is, a failure
    /// is skipped with nothing surfaced.
    pub fn on_stats_fetched(&self, outcome: Option<BlockStats>) -> (publish: Option<BlockStats>)
        ensures
            publish == outcome,
    {
        outcome
    }

    /// Process a sequence of events in order. The result holds one entry
    /// per event: for a tick, the height fetched at that instant (the most
    /// recently received height as of the tick, or nothing when none was
    /// ever received); for a received message, no fetch.
    pub fn run(&mut self, events: &Vec<StatsEvent>) -> (fetches: Vec<Option<u64>>)
        ensures
            fetches@.len() == events@.len(),
            forall|i: int|
                0 <= i < events@.len() ==> fetches@[i] == (match events@[i] {
                    StatsEvent::Received(_) => Option::<u64>::None,
                    StatsEvent::Tick => spec_tick_fetch(old(self).latest, events@, i),
                }),
            final(self).latest == spec_latest(old(self).latest, events@),
    {
        let ghost init = self.latest;
        let mut fetches: Vec<Option<u64>> = Vec::new();
        for i in 0..events.len()
            invariant
                fetches@.len() == i,
                self.latest == spec_latest(init, events@.take(i as int)),
                forall|j: int|
                    0 <= j < i ==> fetches@[j] == (match events@[j] {
                        StatsEvent::Received(_) => Option::<u64>::None,
                        StatsEvent::Tick => spec_tick_fetch(init, events@, j),
                    }),
        {
            proof {
                assert(events@.take(i as int + 1).last() == events@[i as int]);
                assert(events@.take(i as int + 1).drop_last() =~= events@.take(i as int));
            }
            match events[i] {
                StatsEvent::Received(cs) => {
                    self.on_chain_state(cs);
                    fetches.push(Option::None);
                },
                StatsEvent::Tick => {
                    let fetch = self.on_tick();
                    fetches.push(fetch);
                },
            }
        }
        proof {
            assert(events@.take(events@.len() as int) =~= events@);
        }
        fetches
    }
}

/// If no chain-state message is ever received, no height is ever known:
/// every tick fetches nothing, so no stats fetch is ever issued.
pub proof fn lemma_never_received_never_fetches(events: Seq<StatsEvent>)
    requires
        forall|i: int| 0 <= i < events.len() ==> events[i] is Tick,
    ensures
        spec_latest(Option::<u64>::None, events) == Option::<u64>::None,
        forall|i: int|
            0 <= i < events.len() ==> spec_tick_fetch(Option::<u64>::None, events, i)
                == Option::<u64>::None,
    decreases events.len(),
{
    if events.len() > 0 {
        lemma_never_received_never_fetches(events.drop_last());
        assert forall|i: int| 0 <= i < events.len() implies spec_tick_fetch(
            Option::<u64>::None,
            events,
            i,
        ) == Option::<u64>::None by {
            assert(events.take(i) =~= events.drop_last().take(i));
            if i < events.len() - 1 {
                assert(spec_tick_fetch(Option::<u64>::None, events.drop_last(), i)
                    == Option::<u64>::None);
            } else {
                assert(events.drop_last().take(i) =~= events.drop_last());
            }
        }
    }
}

/// The height a chain-state message carries, or nothing for a tick.
pub open spec fn received_height(e: StatsEvent) -> Option<u64> {
    match e {
        StatsEvent::Received(cs) => Option::Some(cs.height),
        StatsEvent::Tick => Option::<u64>::None,
    }
}

/// The stats poller invents no heights: starting with none, any height it
/// would fetch was carried by some chain-state message it received. With
/// the chain poller upstream, that makes every fetched height a published
/// one.
pub proof fn lemma_fetch_heights_were_received(events: Seq<StatsEvent>, h: u64)
    requires
        spec_latest(Option::<u64>::None, events) == Option::Some(h),
    ensures
        exists|j: int| 0 <= j < events.len() && received_height(#[trigger] events[j])
            == Option::Some(h),
    decreases events.len(),
{
    match events.last() {
        StatsEvent::Received(cs) => {
            assert(received_height(events[events.len() - 1]) == Option::Some(h));
        },
        StatsEvent::Tick => {
            lemma_fetch_heights_were_received(events.drop_last(), h);
            let j = choose|j: int|
                0 <= j < events.drop_last().len() && received_height(#[trigger] events.drop_last()[j])
                    == Option::Some(h);
            assert(received_height(events[j]) == Option::Some(h));
        },
    }
}

/// A tick always fetches the most recently received height as of the tick
/// instant: whenever the message at position `j` is the last one received
/// before tick `i`, the tick fetches exactly that message's height.
pub proof fn lemma_tick_uses_most_recent(
    init: Option<u64>,
    events: Seq<StatsEvent>,
    i: int,
    j: int,
)
    requires
        0 <= j < i <= events.len(),
        events[j] is Received,
        forall|k: int| j < k < i ==> events[k] is Tick,
    ensures
        spec_tick_fetch(init, events, i) == (match events[j] {
            StatsEvent::Received(cs) => Option::Some(cs.height),
            StatsEvent::Tick => Option::<u64>::None,
        }),
    decreases i - j,
{
    if i == j + 1 {
        assert(events.take(i).last() == events[j]);
    } else {
        assert(events.take(i).last() == events[i - 1]);
        assert(events.take(i).drop_last() =~= events.take(i - 1));
        lemma_tick_uses_most_recent(init, events, i - 1, j);
    }
}

} // verus!
