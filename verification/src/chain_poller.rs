//! Poller for the node's chain state: fetch on a fixed interval, apply
//! change detection, publish what survives it.
//!
//! Policy: the first successfully fetched value is always published and
//! recorded as the baseline; afterwards a value is published only when its
//! height strictly exceeds the recorded one, which then advances. A fetch
//! failure, or a value at or below the recorded height, is discarded with
//! no state change. The baseline is a tagged state, not a sentinel, so a
//! legitimate height of zero is handled like any other.

use vstd::prelude::*;
use crate::types::ChainState;

verus! {

/// Whether this poller has recorded a baseline height yet.
#[derive(Clone, Copy, PartialEq, Eq, Structural, Debug)]
pub enum HeightMark {
    Unseen,
    Seen(u64),
}

/// State of the chain-state poller: the last height it published, if any.
#[derive(Clone, Copy, PartialEq, Eq, Structural, Debug)]
pub struct ChainStatePoller {
    pub last: HeightMark,
}

/// Change detection: a fetched state is published exactly when no baseline
/// exists yet, or its height strictly exceeds the recorded one.
pub open spec fn spec_accepts(last: HeightMark, cs: ChainState) -> bool {
    match last {
        HeightMark::Unseen => true,
        HeightMark::Seen(h) => cs.height > h,
    }
}

/// The poller state after one fetch outcome is processed.
pub open spec fn spec_step(p: ChainStatePoller, fetched: Option<ChainState>) -> ChainStatePoller {
    match fetched {
        Option::None => p,
        Option::Some(cs) => if spec_accepts(p.last, cs) {
            ChainStatePoller { last: HeightMark::Seen(cs.height) }
        } else {
            p
        },
    }
}

/// The values published while a sequence of fetch outcomes is processed,
/// in order: exactly those that the change detection accepts.
pub open spec fn spec_published(p: ChainStatePoller, fetches: Seq<Option<ChainState>>) -> Seq<
    ChainState,
>
    decreases fetches.len(),
{
    if fetches.len() == 0 {
        Seq::empty()
    } else {
        let rest = spec_published(spec_step(p, fetches[0]), fetches.skip(1));
        match fetches[0] {
            Option::None => rest,
            Option::Some(cs) => if spec_accepts(p.last, cs) {
                seq![cs] + rest
            } else {
                rest
            },
        }
    }
}

impl ChainStatePoller {
    /// A fresh poller with no baseline.
    pub fn new() -> (p: Self)
        ensures
            p.last == HeightMark::Unseen,
    {
        ChainStatePoller { last: HeightMark::Unseen }
    }

    /// Process the outcome of one tick's fetch. Returns the value to
    /// publish, if any. A failed fetch, or a stale height, changes nothing
    /// and publishes nothing; an accepted value advances the recorded
    /// height and is published.
    pub fn on_fetch(&mut self, fetched: Option<ChainState>) -> (publish: Option<ChainState>)
        ensures
            *final(self) == spec_step(*old(self), fetched),
            publish == (match fetched {
                Option::None => Option::<ChainState>::None,
                Option::Some(cs) => if spec_accepts(old(self).last, cs) {
                    Option::Some(cs)
                } else {
                    Option::<ChainState>::None
                },
            }),
    {
        match fetched {
            Option::None => Option::None,
            Option::Some(cs) => {
                match self.last {
                    HeightMark::Unseen => {
                        self.last = HeightMark::Seen(cs.height);
                        Option::Some(cs)
                    },
                    HeightMark::Seen(h) => {
                        if cs.height > h {
                            self.last = HeightMark::Seen(cs.height);
                            Option::Some(cs)
                        } else {
                            Option::None
                        }
                    },
                }
            },
        }
    }

    /// Process a whole sequence of fetch outcomes, one per tick, and return
    /// the published values in publish order.
    pub fn run(&mut self, fetches: &Vec<Option<ChainState>>) -> (published: Vec<ChainState>)
        ensures
            published@ == spec_published(*old(self), fetches@),
            *final(self) == spec_run(*old(self), fetches@),
    {
        let mut published: Vec<ChainState> = Vec::new();
        let ghost p0 = *self;
        proof {
            assert(fetches@.skip(0) =~= fetches@);
            assert(published@ + spec_published(p0, fetches@) =~= spec_published(p0, fetches@));
        }
        for i in 0..fetches.len()
            invariant
                published@ + spec_published(*self, fetches@.skip(i as int)) == spec_published(
                    p0,
                    fetches@,
                ),
                spec_run(*self, fetches@.skip(i as int)) == spec_run(p0, fetches@),
        {
            let ghost pub_pre = published@;
            proof {
                assert(fetches@.skip(i as int)[0] == fetches@[i as int]);
                assert(fetches@.skip(i as int).skip(1) =~= fetches@.skip(i as int + 1));
            }
            if let Option::Some(cs) = self.on_fetch(fetches[i]) {
                published.push(cs);
                proof {
                    let rest = spec_published(*self, fetches@.skip(i as int + 1));
                    assert(pub_pre.push(cs) + rest =~= pub_pre + (seq![cs] + rest));
                }
            }
        }
        proof {
            assert(fetches@.skip(fetches@.len() as int) =~= Seq::<Option<ChainState>>::empty());
            assert(published@ + Seq::<ChainState>::empty() =~= published@);
        }
        published
    }
}

/// The poller state after a sequence of fetch outcomes is processed.
pub open spec fn spec_run(p: ChainStatePoller, fetches: Seq<Option<ChainState>>) -> ChainStatePoller
    decreases fetches.len(),
{
    if fetches.len() == 0 {
        p
    } else {
        spec_run(spec_step(p, fetches[0]), fetches.skip(1))
    }
}

/// Every published height strictly exceeds the mark the poller held when
/// the run began.
pub proof fn lemma_published_above_start(p: ChainStatePoller, fetches: Seq<Option<ChainState>>)
    ensures
        forall|i: int|
            0 <= i < spec_published(p, fetches).len() ==> spec_accepts(
                p.last,
                #[trigger] spec_published(p, fetches)[i],
            ),
    decreases fetches.len(),
{
    if fetches.len() > 0 {
        let p1 = spec_step(p, fetches[0]);
        lemma_published_above_start(p1, fetches.skip(1));
        assert forall|i: int| 0 <= i < spec_published(p1, fetches.skip(1)).len() implies
            spec_accepts(p.last, #[trigger] spec_published(p1, fetches.skip(1))[i]) by {
            lemma_mark_monotone(p, fetches[0]);
        }
    }
}

/// Stepping never moves the mark down: whatever the old mark accepted less
/// than, the new mark still rejects no lower height into acceptance.
pub proof fn lemma_mark_monotone(p: ChainStatePoller, f: Option<ChainState>)
    ensures
        forall|cs: ChainState|
            spec_accepts(spec_step(p, f).last, cs) ==> spec_accepts(p.last, cs),
{
}

/// The baseline rule: however many fetches fail first, the first
/// successfully fetched value is always published, and it is published
/// first, whatever its height.
pub proof fn lemma_first_success_is_baseline(fetches: Seq<Option<ChainState>>, i: int)
    requires
        0 <= i < fetches.len(),
        fetches[i] is Some,
        forall|k: int| 0 <= k < i ==> fetches[k] is None,
    ensures
        spec_published(ChainStatePoller { last: HeightMark::Unseen }, fetches).len() > 0,
        spec_published(ChainStatePoller { last: HeightMark::Unseen }, fetches)[0] == fetches[i]->0,
    decreases i,
{
    let p = ChainStatePoller { last: HeightMark::Unseen };
    if i == 0 {
    } else {
        assert(fetches.skip(1)[i - 1] == fetches[i]);
        assert(forall|k: int| 0 <= k < i - 1 ==> fetches.skip(1)[k] == fetches[k + 1]);
        lemma_first_success_is_baseline(fetches.skip(1), i - 1);
    }
}

/// Nothing is invented: every published value is one of the successfully
/// fetched values.
pub proof fn lemma_published_were_fetched(p: ChainStatePoller, fetches: Seq<Option<ChainState>>)
    ensures
        forall|i: int|
            0 <= i < spec_published(p, fetches).len() ==> exists|j: int|
                0 <= j < fetches.len() && fetches[j] == Option::Some(
                    #[trigger] spec_published(p, fetches)[i],
                ),
    decreases fetches.len(),
{
    if fetches.len() > 0 {
        let p1 = spec_step(p, fetches[0]);
        let published = spec_published(p, fetches);
        let rest = spec_published(p1, fetches.skip(1));
        lemma_published_were_fetched(p1, fetches.skip(1));
        assert forall|i: int| 0 <= i < published.len() implies exists|j: int|
            0 <= j < fetches.len() && fetches[j] == Option::Some(#[trigger] published[i]) by {
            let head_kept = match fetches[0] {
                Option::None => false,
                Option::Some(cs) => spec_accepts(p.last, cs),
            };
            if head_kept && i == 0 {
                assert(fetches[0] == Option::Some(published[0]));
            } else {
                let r = if head_kept { i - 1 } else { i };
                assert(published[i] == rest[r]);
                let j = choose|j: int|
                    0 <= j < fetches.skip(1).len() && fetches.skip(1)[j] == Option::Some(rest[r]);
                assert(fetches[j + 1] == Option::Some(published[i]));
            }
        }
    }
}

/// The published sequence is strictly increasing in height: no repeats and
/// no out-of-order publishes, whatever the fetched sequence held.
pub proof fn lemma_published_strictly_increasing(
    p: ChainStatePoller,
    fetches: Seq<Option<ChainState>>,
)
    ensures
        forall|i: int, j: int|
            0 <= i < j < spec_published(p, fetches).len() ==> spec_published(p, fetches)[i].height
                < spec_published(p, fetches)[j].height,
    decreases fetches.len(),
{
    if fetches.len() > 0 {
        let p1 = spec_step(p, fetches[0]);
        let rest = spec_published(p1, fetches.skip(1));
        lemma_published_strictly_increasing(p1, fetches.skip(1));
        lemma_published_above_start(p1, fetches.skip(1));
        match fetches[0] {
            Option::None => {},
            Option::Some(cs) => {
                if spec_accepts(p.last, cs) {
                    let full = seq![cs] + rest;
                    assert(spec_published(p, fetches) == full);
                    assert forall|i: int, j: int| 0 <= i < j < full.len() implies full[i].height
                        < full[j].height by {
                        if i == 0 {
                            assert(full[j] == rest[j - 1]);
                            assert(spec_accepts(p1.last, rest[j - 1]));
                        } else {
                            assert(full[i] == rest[i - 1]);
                            assert(full[j] == rest[j - 1]);
                        }
                    }
                }
            },
        }
    }
}

} // verus!
