//! Append-only, size-bounded, insertion-ordered record of log entries.

use vstd::prelude::*;
use crate::types::LogEntry;

verus! {

/// What one append does to the retained entries: a store below its cap
/// grows by one at the back; a full store also drops its oldest entry.
pub open spec fn append_step(log: Seq<LogEntry>, cap: int, e: LogEntry) -> Seq<LogEntry> {
    if log.len() < cap {
        log.push(e)
    } else {
        log.drop_first().push(e)
    }
}

/// The retained entries after a whole sequence of appends, oldest first.
pub open spec fn append_all(log: Seq<LogEntry>, cap: int, es: Seq<LogEntry>) -> Seq<LogEntry>
    decreases es.len(),
{
    if es.len() == 0 {
        log
    } else {
        append_all(append_step(log, cap, es.first()), cap, es.drop_first())
    }
}

/// Any run of appends retains exactly the newest entries that fit under
/// the cap, in insertion order: the store after appending `es` holds the
/// last `min(cap, total)` elements of `log + es`.
pub proof fn lemma_append_all_window(log: Seq<LogEntry>, cap: int, es: Seq<LogEntry>)
    requires
        1 <= cap,
        log.len() <= cap,
    ensures
        ({
            let all = log + es;
            let kept: int = if all.len() <= cap {
                all.len() as int
            } else {
                cap
            };
            append_all(log, cap, es) == all.skip(all.len() - kept)
        }),
    decreases es.len(),
{
    let all = log + es;
    let kept: int = if all.len() <= cap {
        all.len() as int
    } else {
        cap
    };
    if es.len() == 0 {
        assert(all =~= log);
        assert(all.skip(0) =~= all);
    } else {
        let step = append_step(log, cap, es.first());
        let rest = es.drop_first();
        lemma_append_all_window(step, cap, rest);
        let all2 = step + rest;
        let kept2: int = if all2.len() <= cap {
            all2.len() as int
        } else {
            cap
        };
        if log.len() < cap {
            assert(all2 =~= all);
            assert(append_all(log, cap, es) == all2.skip(all2.len() - kept2));
            assert(all2.skip(all2.len() - kept2) == all.skip(all.len() - kept));
        } else {
            assert(all2 =~= all.skip(1));
            assert(kept2 == cap && kept == cap);
            assert(all2.skip(all2.len() - kept2) =~= all.skip(all.len() - kept));
        }
    }
}

/// With the cap never reached, appends neither drop nor reorder anything:
/// every appended entry appears exactly once, after all older entries.
pub proof fn lemma_append_all_no_eviction(log: Seq<LogEntry>, cap: int, es: Seq<LogEntry>)
    requires
        1 <= cap,
        log.len() + es.len() <= cap,
    ensures
        append_all(log, cap, es) == log + es,
{
    lemma_append_all_window(log, cap, es);
    assert((log + es).skip(0) =~= log + es);
}

/// Reading the store twice with no append in between yields the same
/// sequence: each read returns exactly the retained entries of the
/// unchanged store.
pub proof fn lemma_reads_idempotent(s: LogStore, r1: Seq<LogEntry>, r2: Seq<LogEntry>)
    requires
        r1 == s.log(),
        r2 == s.log(),
    ensures
        r1 == r2,
{
}

/// The bounded in-memory log. Entries are never mutated after insertion;
/// they are only appended at the back and evicted oldest-first once the
/// cap is reached.
pub struct LogStore {
    entries: Vec<LogEntry>,
    cap: usize,
}

impl LogStore {
    /// The retained entries, oldest first.
    pub closed spec fn log(self) -> Seq<LogEntry> {
        self.entries@
    }

    /// The maximum number of retained entries.
    pub closed spec fn cap(self) -> int {
        self.cap as int
    }

    pub open spec fn wf(self) -> bool {
        &&& 1 <= self.cap()
        &&& self.log().len() <= self.cap()
    }

    /// An empty store that will retain at most `cap` entries.
    pub fn new(cap: usize) -> (s: Self)
        requires
            1 <= cap,
        ensures
            s.wf(),
            s.cap() == cap as int,
            s.log() == Seq::<LogEntry>::empty(),
    {
        LogStore { entries: Vec::new(), cap }
    }

    /// Whether the store's internal bound holds; true for every store
    /// built by `new` and grown by `append`.
    pub fn is_well_formed(&self) -> (b: bool)
        ensures
            b == self.wf(),
    {
        1 <= self.cap && self.entries.len() <= self.cap
    }

    /// Add one entry at the back, evicting the oldest entry first if the
    /// store is full.
    pub fn append(&mut self, e: LogEntry)
        requires
            old(self).wf(),
        ensures
            final(self).wf(),
            final(self).cap() == old(self).cap(),
            final(self).log() == append_step(old(self).log(), old(self).cap(), e),
    {
        if self.entries.len() >= self.cap {
            self.entries.remove(0);
        }
        self.entries.push(e);
    }

    /// How many entries are currently retained.
    pub fn len(&self) -> (n: usize)
        ensures
            n == self.log().len(),
    {
        self.entries.len()
    }

    /// A snapshot of all retained entries, oldest first.
    pub fn logs(&self) -> (r: Vec<LogEntry>)
        ensures
            r@ == self.log(),
    {
        let mut out: Vec<LogEntry> = Vec::new();
        let mut i: usize = 0;
        while i < self.entries.len()
            invariant
                i <= self.entries@.len(),
                out@ == self.entries@.subrange(0, i as int),
            decreases self.entries@.len() - i,
        {
            out.push(self.entries[i].clone());
            proof {
                assert(out@ =~= self.entries@.subrange(0, i + 1 as int));
            }
            i = i + 1;
        }
        proof {
            assert(out@ =~= self.entries@);
        }
        out
    }
}

} // verus!
