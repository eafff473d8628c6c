//! Collecting what a scan finds and handing it out in batches.
//!
//! A scan may meet hundreds of thousands of entries. The batcher keeps the
//! running count and the entries found since the last report, and lets a
//! report go out only when enough time has passed since the one before.

use vstd::prelude::*;
use crate::classify::{long_paths, LongPath, OverLimit};

verus! {

/// The time that must have passed since the last report before `maybe_flush`
/// lets the next one go out: 100 milliseconds, in nanoseconds.
pub const FLUSH_INTERVAL: u64 = 100_000_000;

/// A progress report, as a mathematical value.
pub struct Snapshot {
    /// Entries scanned since the scan began.
    pub scanned_count: nat,
    /// Entries found over the limit since the report before.
    pub new_entries: Seq<LongPath>,
}

/// A progress report: the count so far and what was found since the report
/// before this one.
#[derive(Debug)]
pub struct ProgressSnapshot {
    /// Entries scanned since the scan began.
    pub scanned_count: u64,
    /// Entries found over the limit since the report before.
    pub new_entries: Vec<OverLimit>,
}

impl View for ProgressSnapshot {
    type V = Snapshot;

    open spec fn view(&self) -> Snapshot {
        Snapshot {
            scanned_count: self.scanned_count as nat,
            new_entries: long_paths(self.new_entries@),
        }
    }
}

/// The state of a batcher, as a mathematical value.
pub struct Batch {
    /// Entries recorded since the last report.
    pub pending: Seq<LongPath>,
    /// Entries counted since the batcher was made.
    pub scanned: nat,
    /// When the last throttled report went out, or when the batcher was made.
    pub last_flush: nat,
}

impl Batch {
    /// A batcher made at time `now`: nothing counted, nothing pending.
    pub open spec fn start(now: nat) -> Batch {
        Batch { pending: Seq::empty(), scanned: 0, last_flush: now }
    }

    /// After `entry` has been recorded.
    pub open spec fn record(self, entry: LongPath) -> Batch {
        Batch { pending: self.pending.push(entry), ..self }
    }

    /// After one more entry has been counted.
    pub open spec fn tick(self) -> Batch {
        Batch { scanned: self.scanned + 1, ..self }
    }

    /// Whether a throttled report may go out at time `now`: more than
    /// `FLUSH_INTERVAL` has passed since the last one.
    pub open spec fn due(self, now: nat) -> bool {
        now - self.last_flush > FLUSH_INTERVAL
    }

    /// The report that would go out now.
    pub open spec fn snapshot(self) -> Snapshot {
        Snapshot { scanned_count: self.scanned, new_entries: self.pending }
    }

    /// After a report has gone out without regard to time: nothing is
    /// pending, the count and the time of the last throttled report stay.
    pub open spec fn drained(self) -> Batch {
        Batch { pending: Seq::empty(), ..self }
    }

    /// After a throttled report has gone out at time `now`.
    pub open spec fn flushed(self, now: nat) -> Batch {
        Batch { pending: Seq::empty(), last_flush: now, ..self }
    }
}

/// Accumulates the count of scanned entries and the entries found over the
/// limit, and decides when a report goes out.
pub struct ProgressBatcher {
    pending: Vec<OverLimit>,
    scanned: u64,
    last_flush: u64,
}

impl View for ProgressBatcher {
    type V = Batch;

    closed spec fn view(&self) -> Batch {
        Batch {
            pending: long_paths(self.pending@),
            scanned: self.scanned as nat,
            last_flush: self.last_flush as nat,
        }
    }
}

impl ProgressBatcher {
    /// A batcher made at time `now`, in nanoseconds on the caller's clock.
    pub fn new(now: u64) -> (batcher: ProgressBatcher)
        ensures
            batcher@ == Batch::start(now as nat),
    {
        let batcher = ProgressBatcher { pending: Vec::new(), scanned: 0, last_flush: now };
        assert(long_paths(batcher.pending@) =~= Seq::empty());
        batcher
    }

    /// The number of entries counted so far.
    pub fn scanned(&self) -> (count: u64)
        ensures
            count == self@.scanned,
    {
        self.scanned
    }

    /// The number of entries recorded since the last report.
    pub fn pending_len(&self) -> (count: usize)
        ensures
            count == self@.pending.len(),
    {
        self.pending.len()
    }

    /// Keeps `entry` for the next report.
    pub fn record(&mut self, entry: OverLimit)
        ensures
            final(self)@ == old(self)@.record(entry@),
    {
        self.pending.push(entry);
        assert(long_paths(self.pending@) =~= long_paths(old(self).pending@).push(entry@));
    }

    /// Counts one more scanned entry.
    pub fn tick(&mut self)
        requires
            old(self)@.scanned < u64::MAX,
        ensures
            final(self)@ == old(self)@.tick(),
    {
        self.scanned = self.scanned + 1;
    }

    /// Hands out a report if more than `FLUSH_INTERVAL` has passed between
    /// the last throttled report and `now`, and keeps everything otherwise.
    pub fn maybe_flush(&mut self, now: u64) -> (report: Option<ProgressSnapshot>)
        ensures
            old(self)@.due(now as nat) ==> report is Some && report->0@ == old(self)@.snapshot()
                && final(self)@ == old(self)@.flushed(now as nat),
            !old(self)@.due(now as nat) ==> report is None && final(self)@ == old(self)@,
    {
        if now > self.last_flush && now - self.last_flush > FLUSH_INTERVAL {
            let snapshot = self.force_flush();
            self.last_flush = now;
            Some(snapshot)
        } else {
            None
        }
    }

    /// Hands out a report whatever the time, even an empty one: the last
    /// report of a scan carries its final count.
    pub fn force_flush(&mut self) -> (report: ProgressSnapshot)
        ensures
            report@ == old(self)@.snapshot(),
            final(self)@ == old(self)@.drained(),
    {
        let mut new_entries: Vec<OverLimit> = Vec::new();
        std::mem::swap(&mut self.pending, &mut new_entries);
        assert(long_paths(self.pending@) =~= Seq::empty());
        ProgressSnapshot { scanned_count: self.scanned, new_entries }
    }
}

} // verus!
