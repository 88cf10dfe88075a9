//! Poller for recommended fee tiers: fetch on a fixed interval and push
//! every successful result onto the fan-out queue.
//!
//! The poller keeps no state of its own: each tick stands alone, so a
//! failed fetch is skipped silently and has no effect on any later tick.

use vstd::prelude::*;
use crate::channel::FanoutQueue;
use crate::types::RecommendedFee;

verus! {

/// The values published for a sequence of tick outcomes, in order: exactly
/// the successful fetches, each exactly once.
pub open spec fn spec_fees_published(outcomes: Seq<Option<RecommendedFee>>) -> Seq<RecommendedFee>
    decreases outcomes.len(),
{
    if outcomes.len() == 0 {
        Seq::empty()
    } else {
        let rest = spec_fees_published(outcomes.skip(1));
        match outcomes[0] {
            Option::None => rest,
            Option::Some(fee) => seq![fee] + rest,
        }
    }
}

/// Decide one tick from its fetch outcome: a success is published as-is, a
/// failure publishes nothing.
pub fn fee_tick_publish(outcome: Option<RecommendedFee>) -> (publish: Option<RecommendedFee>)
    ensures
        publish == outcome,
{
    outcome
}

/// Run a sequence of ticks, pushing every successful fetch onto the queue
/// in tick order. Failed ticks leave the queue untouched.
pub fn run_fee_ticks(outcomes: &Vec<Option<RecommendedFee>>, queue: &mut FanoutQueue<
    RecommendedFee,
>)
    ensures
        final(queue).view() == old(queue).view() + spec_fees_published(outcomes@),
{
    let ghost q0 = queue.view();
    proof {
        assert(outcomes@.skip(0) =~= outcomes@);
    }
    for i in 0..outcomes.len()
        invariant
            queue.view() + spec_fees_published(outcomes@.skip(i as int)) =~= q0
                + spec_fees_published(outcomes@),
    {
        proof {
            assert(outcomes@.skip(i as int)[0] == outcomes@[i as int]);
            assert(outcomes@.skip(i as int).skip(1) =~= outcomes@.skip(i as int + 1));
        }
        if let Option::Some(fee) = fee_tick_publish(outcomes[i]) {
            let ghost q_pre = queue.view();
            queue.push(fee);
            proof {
                let rest = spec_fees_published(outcomes@.skip(i as int + 1));
                assert(q_pre.push(fee) + rest =~= q_pre + (seq![fee] + rest));
            }
        }
    }
    proof {
        assert(outcomes@.skip(outcomes@.len() as int)
            =~= Seq::<Option<RecommendedFee>>::empty());
        assert(queue.view() + Seq::<RecommendedFee>::empty() =~= queue.view());
    }
}

/// Every successful tick is published, whatever happened on any other
/// tick: in particular a failure on one tick never prevents the publish of
/// a success on the next.
pub proof fn lemma_success_always_published(outcomes: Seq<Option<RecommendedFee>>, i: int)
    requires
        0 <= i < outcomes.len(),
        outcomes[i] is Some,
    ensures
        spec_fees_published(outcomes).contains(outcomes[i]->0),
    decreases outcomes.len(),
{
    let published = spec_fees_published(outcomes);
    let rest = spec_fees_published(outcomes.skip(1));
    if i == 0 {
        assert(published[0] == outcomes[0]->0);
    } else {
        lemma_success_always_published(outcomes.skip(1), i - 1);
        let w = choose|k: int| 0 <= k < rest.len() && rest[k] == outcomes.skip(1)[i - 1]->0;
        match outcomes[0] {
            Option::None => {
                assert(published[w] == outcomes[i]->0);
            },
            Option::Some(fee) => {
                assert(published[w + 1] == outcomes[i]->0);
            },
        }
    }
}

/// When every tick fetches the same tiers successfully, one identical
/// value is published per tick: the queue grows by exactly the number of
/// ticks and holds nothing else.
pub proof fn lemma_steady_fees(outcomes: Seq<Option<RecommendedFee>>, fee: RecommendedFee)
    requires
        forall|i: int| 0 <= i < outcomes.len() ==> outcomes[i] == Option::Some(fee),
    ensures
        spec_fees_published(outcomes).len() == outcomes.len(),
        forall|j: int|
            0 <= j < outcomes.len() ==> spec_fees_published(outcomes)[j] == fee,
    decreases outcomes.len(),
{
    if outcomes.len() > 0 {
        lemma_steady_fees(outcomes.skip(1), fee);
    }
}

} // verus!
