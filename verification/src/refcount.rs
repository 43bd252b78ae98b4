//! The reference-count discipline of the shared heap branch.
//!
//! The dataflow engine's worker threads clone and drop erased cells
//! concurrently, so the shared allocation's count is updated atomically with
//! no other synchronization.  This module states the discipline itself over
//! an explicit counter: cloning a handle raises the live count by exactly
//! one and never destroys; dropping lowers it by one; destruction happens
//! exactly once, at the moment the count reaches zero, whatever the
//! interleaving of clones and drops.

use vstd::prelude::*;

verus! {

/// The life of one shared allocation: how many references are live and
/// whether the value has been destroyed.
pub struct RefCounter {
    live: u64,
    destroyed: bool,
}

impl RefCounter {
    /// The number of live references.
    pub closed spec fn live_count(&self) -> u64 {
        self.live
    }

    /// Whether the value has been destroyed.
    pub closed spec fn is_destroyed(&self) -> bool {
        self.destroyed
    }

    /// The counter's invariant: the value is destroyed exactly when no
    /// reference is live.
    pub open spec fn wf(&self) -> bool {
        self.is_destroyed() <==> self.live_count() == 0
    }

    /// A fresh allocation: one live reference, value alive.
    pub fn new() -> (r: RefCounter)
        ensures
            r.wf(),
            r.live_count() == 1,
            !r.is_destroyed(),
    {
        RefCounter { live: 1, destroyed: false }
    }

    /// Cloning a handle: the live count rises by exactly one and the value
    /// is not destroyed.
    pub fn acquire(&mut self)
        requires
            old(self).wf(),
            1 <= old(self).live_count() < u64::MAX,
        ensures
            final(self).wf(),
            final(self).live_count() == old(self).live_count() + 1,
            !final(self).is_destroyed(),
    {
        self.live = self.live + 1;
    }

    /// Dropping a handle: the live count falls by exactly one, and the
    /// value is destroyed now exactly when the count reached zero.
    pub fn release(&mut self) -> (destroyed_now: bool)
        requires
            old(self).wf(),
            old(self).live_count() >= 1,
        ensures
            final(self).wf(),
            final(self).live_count() == old(self).live_count() - 1,
            destroyed_now == (final(self).live_count() == 0),
            final(self).is_destroyed() == destroyed_now,
    {
        self.live = self.live - 1;
        if self.live == 0 {
            self.destroyed = true;
            true
        } else {
            false
        }
    }
}

/// Whether an interleaving of clones (`true`) and drops (`false`) is
/// possible from `live` outstanding references: every operation happens
/// while a reference is still live.
pub open spec fn trace_valid(live: int, ops: Seq<bool>) -> bool
    decreases ops.len(),
{
    ops.len() == 0 || (live >= 1 && (if ops[0] {
        trace_valid(live + 1, ops.subrange(1, ops.len() as int))
    } else {
        trace_valid(live - 1, ops.subrange(1, ops.len() as int))
    }))
}

/// How many destruction events the interleaving triggers: one whenever a
/// drop takes the live count to zero.
pub open spec fn destructions(live: int, ops: Seq<bool>) -> int
    decreases ops.len(),
{
    if ops.len() == 0 {
        0
    } else if ops[0] {
        destructions(live + 1, ops.subrange(1, ops.len() as int))
    } else {
        (if live == 1 {
            1int
        } else {
            0int
        }) + destructions(live - 1, ops.subrange(1, ops.len() as int))
    }
}

/// The live count left after the interleaving.
pub open spec fn remaining(live: int, ops: Seq<bool>) -> int
    decreases ops.len(),
{
    if ops.len() == 0 {
        live
    } else if ops[0] {
        remaining(live + 1, ops.subrange(1, ops.len() as int))
    } else {
        remaining(live - 1, ops.subrange(1, ops.len() as int))
    }
}

/// Destruction occurs exactly once, when the count reaches zero, and not
/// at all while references remain, regardless of how clones and drops
/// interleave.
pub proof fn lemma_destruction_once(live: int, ops: Seq<bool>)
    requires
        live >= 1,
        trace_valid(live, ops),
    ensures
        destructions(live, ops) == if remaining(live, ops) == 0 {
            1int
        } else {
            0int
        },
    decreases ops.len(),
{
    if ops.len() > 0 {
        let rest = ops.subrange(1, ops.len() as int);
        if ops[0] {
            lemma_destruction_once(live + 1, rest);
        } else {
            if live == 1 {
                lemma_no_ops_from_zero(rest);
            } else {
                lemma_destruction_once(live - 1, rest);
            }
        }
    }
}

/// A trace never destroys a negative number of times.
pub proof fn lemma_destructions_nonneg(live: int, ops: Seq<bool>)
    ensures
        destructions(live, ops) >= 0,
    decreases ops.len(),
{
    if ops.len() > 0 {
        let rest = ops.subrange(1, ops.len() as int);
        if ops[0] {
            lemma_destructions_nonneg(live + 1, rest);
        } else {
            lemma_destructions_nonneg(live - 1, rest);
        }
    }
}

/// Run a counter through an interleaving of clones (`true`) and drops
/// (`false`), starting from one fresh reference, and count the destruction
/// events.  The counter follows the trace model exactly: the events seen
/// are the destructions the model predicts, and an interleaving that drops
/// every reference destroys exactly once.
pub fn run_interleaving(ops: &Vec<bool>) -> (destroyed_events: u64)
    requires
        trace_valid(1, ops@),
        ops@.len() < 0xffffffffffffff,
    ensures
        destroyed_events == destructions(1, ops@),
        remaining(1, ops@) == 0 ==> destroyed_events == 1,
        remaining(1, ops@) != 0 ==> destroyed_events == 0,
{
    proof {
        lemma_destruction_once(1, ops@);
        assert(ops@.subrange(0, ops@.len() as int) =~= ops@);
    }
    let mut c = RefCounter::new();
    let mut events: u64 = 0;
    let mut i: usize = 0;
    while i < ops.len()
        invariant
            i <= ops@.len(),
            ops@.len() < 0xffffffffffffff,
            c.wf(),
            c.live_count() <= 1 + i,
            events <= 1,
            trace_valid(c.live_count() as int, ops@.subrange(i as int, ops@.len() as int)),
            events + destructions(
                c.live_count() as int,
                ops@.subrange(i as int, ops@.len() as int),
            ) == destructions(1, ops@),
            remaining(c.live_count() as int, ops@.subrange(i as int, ops@.len() as int))
                == remaining(1, ops@),
            destructions(1, ops@) == if remaining(1, ops@) == 0 {
                1int
            } else {
                0int
            },
        decreases ops@.len() - i,
    {
        let ghost suffix = ops@.subrange(i as int, ops@.len() as int);
        let ghost tail = ops@.subrange(i as int + 1, ops@.len() as int);
        proof {
            assert(suffix[0] == ops@[i as int]);
            assert(suffix.subrange(1, suffix.len() as int) =~= tail);
        }
        if ops[i] {
            c.acquire();
        } else {
            let destroyed_now = c.release();
            if destroyed_now {
                proof {
                    lemma_destructions_nonneg(c.live_count() as int, tail);
                }
                events = events + 1;
            }
        }
        i = i + 1;
    }
    proof {
        let rest = ops@.subrange(i as int, ops@.len() as int);
        assert(rest =~= Seq::<bool>::empty());
    }
    events
}

/// Once no reference is live, a valid interleaving performs no further
/// operation: the count stays at zero and nothing is destroyed again.
pub proof fn lemma_no_ops_from_zero(ops: Seq<bool>)
    requires
        trace_valid(0, ops),
    ensures
        ops.len() == 0,
        remaining(0, ops) == 0,
        destructions(0, ops) == 0,
{
}

} // verus!
