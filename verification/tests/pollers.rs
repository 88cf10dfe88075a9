use brc20::chain_poller::{ChainStatePoller, HeightMark};
use brc20::stats_poller::{BlockStatsPoller, StatsEvent};
use brc20::types::{ChainState, RecommendedFee};
use brc20::channel::FanoutQueue;
use brc20::fee_poller::{fee_tick_publish, run_fee_ticks};

fn chain(height: u64) -> ChainState {
    ChainState { height, verification_progress_ppm: 999_000 }
}

fn tiers() -> RecommendedFee {
    RecommendedFee {
        fastest_fee: 10,
        half_hour_fee: 5,
        hour_fee: 3,
        economy_fee: 1,
        minimum_fee: 1,
    }
}

#[test]
fn chain_poller_publishes_strictly_increasing_subsequence() {
    // Fetch sequence: 100, 100 (repeat), 101, error, 103.
    // Expected publishes: 100 (baseline), 101, 103.
    let mut poller = ChainStatePoller::new();
    let fetches = vec![
        Some(chain(100)),
        Some(chain(100)),
        Some(chain(101)),
        None,
        Some(chain(103)),
    ];
    let published = poller.run(&fetches);
    let heights: Vec<u64> = published.iter().map(|cs| cs.height).collect();
    assert_eq!(heights, vec![100, 101, 103]);
    assert_eq!(poller.last, HeightMark::Seen(103));
}

#[test]
fn chain_poller_first_value_is_baseline_even_at_height_zero() {
    let mut poller = ChainStatePoller::new();
    let publish = poller.on_fetch(Some(chain(0)));
    assert_eq!(publish, Some(chain(0)));
    assert_eq!(poller.last, HeightMark::Seen(0));
}

#[test]
fn chain_poller_discards_stale_and_equal_heights() {
    let mut poller = ChainStatePoller::new();
    assert_eq!(poller.on_fetch(Some(chain(50))), Some(chain(50)));
    assert_eq!(poller.on_fetch(Some(chain(50))), None);
    assert_eq!(poller.on_fetch(Some(chain(49))), None);
    assert_eq!(poller.last, HeightMark::Seen(50));
    assert_eq!(poller.on_fetch(Some(chain(51))), Some(chain(51)));
}

#[test]
fn chain_poller_failed_fetch_changes_nothing() {
    let mut poller = ChainStatePoller::new();
    assert_eq!(poller.on_fetch(None), None);
    assert_eq!(poller.last, HeightMark::Unseen);
    assert_eq!(poller.on_fetch(Some(chain(7))), Some(chain(7)));
    assert_eq!(poller.on_fetch(None), None);
    assert_eq!(poller.last, HeightMark::Seen(7));
}

#[test]
fn stats_poller_without_height_never_fetches() {
    // Five ticks, no chain state ever received: zero fetches issued.
    let mut poller = BlockStatsPoller::new();
    let events = vec![
        StatsEvent::Tick,
        StatsEvent::Tick,
        StatsEvent::Tick,
        StatsEvent::Tick,
        StatsEvent::Tick,
    ];
    let fetches = poller.run(&events);
    assert_eq!(fetches.len(), 5);
    assert!(fetches.iter().all(|f| f.is_none()));
    assert_eq!(poller.latest, None);
}

#[test]
fn stats_poller_fetches_most_recent_height() {
    let mut poller = BlockStatsPoller::new();
    let events = vec![
        StatsEvent::Tick,
        StatsEvent::Received(chain(100)),
        StatsEvent::Tick,
        StatsEvent::Received(chain(101)),
        StatsEvent::Received(chain(102)),
        StatsEvent::Tick,
        StatsEvent::Tick,
    ];
    let fetches = poller.run(&events);
    assert_eq!(
        fetches,
        vec![None, None, Some(100), None, None, Some(102), Some(102)]
    );
    assert_eq!(poller.latest, Some(102));
}

#[test]
fn stats_poller_later_height_always_wins() {
    let mut poller = BlockStatsPoller::new();
    poller.on_chain_state(chain(200));
    assert_eq!(poller.on_tick(), Some(200));
    poller.on_chain_state(chain(150));
    assert_eq!(poller.on_tick(), Some(150));
}

#[test]
fn fee_poller_failure_does_not_block_next_tick() {
    let mut queue: FanoutQueue<RecommendedFee> = FanoutQueue::new();
    let outcomes = vec![None, Some(tiers())];
    run_fee_ticks(&outcomes, &mut queue);
    assert_eq!(queue.len(), 1);
    assert_eq!(queue.pop_front(), Some(tiers()));
}

#[test]
fn fee_poller_steady_fetches_queue_one_value_per_tick() {
    // Every tick returns the same tiers; with no consumer draining, the
    // queue after 5 ticks holds exactly 5 identical values.
    let mut queue: FanoutQueue<RecommendedFee> = FanoutQueue::new();
    let outcomes = vec![
        Some(tiers()),
        Some(tiers()),
        Some(tiers()),
        Some(tiers()),
        Some(tiers()),
    ];
    run_fee_ticks(&outcomes, &mut queue);
    assert_eq!(queue.len(), 5);
    for _ in 0..5 {
        assert_eq!(queue.pop_front(), Some(tiers()));
    }
    assert_eq!(queue.pop_front(), None);
}

#[test]
fn empty_runs_publish_nothing_and_change_nothing() {
    let mut chain_poller = ChainStatePoller::new();
    let published = chain_poller.run(&Vec::new());
    assert!(published.is_empty());
    assert_eq!(chain_poller.last, HeightMark::Unseen);

    let mut stats_poller = BlockStatsPoller::new();
    let fetches = stats_poller.run(&Vec::new());
    assert!(fetches.is_empty());
    assert_eq!(stats_poller.latest, None);

    let mut queue: FanoutQueue<RecommendedFee> = FanoutQueue::new();
    run_fee_ticks(&Vec::new(), &mut queue);
    assert_eq!(queue.len(), 0);
}

#[test]
fn fee_tick_publish_passes_outcome_through() {
    assert_eq!(fee_tick_publish(None), None);
    assert_eq!(fee_tick_publish(Some(tiers())), Some(tiers()));
}
