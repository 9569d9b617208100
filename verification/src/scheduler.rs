//! Turning the endpoint registry into staggered one-shot probe tasks.

use vstd::prelude::*;
use vstd::arithmetic::mul::{lemma_mul_inequality, lemma_mul_strict_inequality};
use crate::types::EndpointConfig;

verus! {

/// The fixed stagger interval between consecutive probe starts, in seconds.
pub const STAGGER_SECS: u64 = 10;

/// One armed task: run the probe for `config` once, `delay_secs` after
/// process start.
pub struct ScheduledProbe {
    pub delay_secs: u64,
    pub config: EndpointConfig,
}

/// Lay out one one-shot task per registry entry, in registry order, with
/// the entry at position `i` starting `i * stagger_secs` after process
/// start: the start times are exactly `0, W, 2W, ...`, one per entry.
pub fn schedule(registry: Vec<EndpointConfig>, stagger_secs: u64) -> (plan: Vec<ScheduledProbe>)
    requires
        registry@.len() == 0 || (registry@.len() - 1) * stagger_secs <= u64::MAX,
    ensures
        plan@.len() == registry@.len(),
        forall|i: int|
            0 <= i < plan@.len() ==> (#[trigger] plan@[i]).config == registry@[i],
        forall|i: int|
            0 <= i < plan@.len() ==> (#[trigger] plan@[i]).delay_secs == i * stagger_secs,
{
    let ghost orig = registry@;
    let mut remaining = registry;
    let mut plan: Vec<ScheduledProbe> = Vec::new();
    let mut i: usize = 0;
    while remaining.len() > 0
        invariant
            plan@.len() == i,
            i + remaining@.len() == orig.len(),
            remaining@ == orig.subrange(i as int, orig.len() as int),
            orig.len() == 0 || (orig.len() - 1) * stagger_secs <= u64::MAX,
            forall|j: int| 0 <= j < i ==> (#[trigger] plan@[j]).config == orig[j],
            forall|j: int| 0 <= j < i ==> (#[trigger] plan@[j]).delay_secs == j * stagger_secs,
        decreases remaining@.len(),
    {
        let config = remaining.remove(0);
        proof {
            assert(config == orig[i as int]);
            lemma_mul_inequality(i as int, orig.len() - 1, stagger_secs as int);
            assert(remaining@ =~= orig.subrange(i + 1 as int, orig.len() as int));
        }
        let delay: u64 = (i as u64) * stagger_secs;
        plan.push(ScheduledProbe { delay_secs: delay, config });
        i = plan.len();
    }
    plan
}

/// With a positive stagger interval, no two registry positions share a
/// start time: later entries start strictly later.
pub proof fn lemma_stagger_spreads(w: int, i: int, j: int)
    requires
        1 <= w,
        0 <= i < j,
    ensures
        i * w < j * w,
{
    lemma_mul_strict_inequality(i, j, w);
}

} // verus!
