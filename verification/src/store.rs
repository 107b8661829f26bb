//! The single slot through which the jobs hand readings to each other.

use crate::reading::Reading;
use vstd::prelude::*;

verus! {

/// Holds the most recent reading, and nothing else: no queue, no history.
///
/// A write replaces both numbers at once and a read copies both at once, so a
/// reader never sees the temperature of one write beside the humidity of
/// another. Callers that share a store between jobs keep each call inside
/// their critical section and never suspend within it.
pub struct SharedReading {
    slot: Reading,
}

/// One access to a store: a write of a whole reading, or a read.
pub enum Access {
    Write(Reading),
    Read,
}

impl SharedReading {
    /// The reading that a read returns now.
    pub closed spec fn view(&self) -> Reading {
        self.slot
    }

    /// A store that holds the zero reading.
    pub fn new() -> (store: SharedReading)
        ensures
            store@ == Reading::zero(),
    {
        SharedReading { slot: Reading::new() }
    }

    /// Overwrites the stored reading.
    pub fn set(&mut self, reading: Reading)
        ensures
            final(self)@ == reading,
    {
        self.slot = reading;
    }

    /// A copy of the stored reading.
    pub fn get(&self) -> (reading: Reading)
        ensures
            reading == self@,
    {
        self.slot
    }
}

/// What a store that held `initial` holds after the accesses of `trace`, in order.
pub open spec fn replay(initial: Reading, trace: Seq<Access>) -> Reading
    decreases trace.len(),
{
    if trace.len() == 0 {
        initial
    } else {
        match trace.last() {
            Access::Write(reading) => reading,
            Access::Read => replay(initial, trace.drop_last()),
        }
    }
}

/// What the access at position `at` of `trace` observes: the store as the
/// accesses before it left it.
pub open spec fn observed(initial: Reading, trace: Seq<Access>, at: int) -> Reading {
    replay(initial, trace.take(at))
}

/// The position of the last write of `trace` before position `at`, or -1
/// where nothing was written before it.
pub open spec fn latest_write(trace: Seq<Access>, at: int) -> int
    decreases at,
{
    if at <= 0 {
        -1
    } else if trace[at - 1] is Write {
        at - 1
    } else {
        latest_write(trace, at - 1)
    }
}

/// `latest_write` names a write before `at` with only reads between it and
/// `at`, or -1 where only reads come before `at`.
pub proof fn lemma_latest_write(trace: Seq<Access>, at: int)
    requires
        0 <= at <= trace.len(),
    ensures
        -1 <= latest_write(trace, at) < at,
        latest_write(trace, at) >= 0 ==> trace[latest_write(trace, at)] is Write,
        forall|k: int| latest_write(trace, at) < k < at ==> #[trigger] trace[k] is Read,
    decreases at,
{
    if at > 0 && !(trace[at - 1] is Write) {
        lemma_latest_write(trace, at - 1);
    }
}

/// Reads are never torn. Whatever the interleaving of writes and reads, a
/// read observes the initial reading if nothing was written before it, and
/// otherwise both numbers of one single earlier write: the latest.
pub proof fn lemma_reads_observe_whole_writes(initial: Reading, trace: Seq<Access>, at: int)
    requires
        0 <= at <= trace.len(),
    ensures
        latest_write(trace, at) < 0 ==> observed(initial, trace, at) == initial,
        latest_write(trace, at) >= 0 ==> trace[latest_write(trace, at)] == Access::Write(
            observed(initial, trace, at),
        ),
    decreases at,
{
    if at > 0 {
        let prefix = trace.take(at);
        assert(prefix.last() == trace[at - 1]);
        assert(prefix.drop_last() =~= trace.take(at - 1));
        if !(trace[at - 1] is Write) {
            lemma_reads_observe_whole_writes(initial, trace, at - 1);
        }
    }
}

} // verus!
