//! Change tracking: how many writes an allocation has seen, and what a handle has read of them.

use vstd::prelude::*;
use crate::time::{TimeSpan, elapsed_between};

verus! {

/// The write count after one more write lock: the shared counter is a `u64` that wraps around.
pub open spec fn next_write_count(total_writes: u64) -> u64 {
    if total_writes == u64::MAX {
        0
    } else {
        (total_writes + 1) as u64
    }
}

/// What one handle remembers of its reads: the allocation's write count when it last read, and
/// the time at which the data it read was written. A fresh handle has read nothing: its count is
/// `0`, below the count of any allocation, since the initial value already counts as one write.
pub struct ReadTracker {
    last_read_count: u64,
    last_read_time: Option<TimeSpan>,
}

impl ReadTracker {
    /// The allocation's write count at this handle's last read, `0` before any read.
    pub closed spec fn read_count(self) -> u64 {
        self.last_read_count
    }

    /// When the data of this handle's last read was written, `None` before any read.
    pub closed spec fn read_time(self) -> Option<TimeSpan> {
        self.last_read_time
    }

    /// The allocation has been written to since this handle last read it.
    pub open spec fn changed(self, total_writes: u64) -> bool {
        total_writes > self.read_count()
    }

    /// The staleness that a handle reports at `now`.
    pub open spec fn staleness_at(self, now: TimeSpan, r: Option<TimeSpan>) -> bool {
        match self.read_time() {
            None => r is None,
            Some(written) => elapsed_between(written, now, r),
        }
    }

    /// The tracker of a handle that has not read yet.
    pub fn new() -> (t: ReadTracker)
        ensures
            t.read_count() == 0,
            t.read_time() is None,
    {
        ReadTracker { last_read_count: 0, last_read_time: None }
    }

    /// `true` if the allocation, now at `total_writes` writes, has been written to since this
    /// handle last read it. This says nothing of whether the data itself differs.
    pub fn has_changed(&self, total_writes: u64) -> (b: bool)
        ensures
            b == self.changed(total_writes),
            b == (total_writes > self.read_count()),
    {
        total_writes > self.last_read_count
    }

    /// Records a read of data written at `written_at`, made while the allocation stood at
    /// `total_writes` writes.
    pub fn record_read(&mut self, total_writes: u64, written_at: TimeSpan)
        ensures
            final(self).read_count() == total_writes,
            final(self).read_time() == Some(written_at),
    {
        self.last_read_time = Some(written_at);
        self.last_read_count = total_writes;
    }

    /// The time between the writing of the data this handle last read and `now`; `None` before
    /// any read, or when that write lies after `now`.
    pub fn staleness(&self, now: &TimeSpan) -> (r: Option<TimeSpan>)
        ensures
            self.staleness_at(*now, r),
    {
        match &self.last_read_time {
            None => None,
            Some(written) => now.duration_since(written),
        }
    }

    /// The allocation's write count at this handle's last read.
    pub fn last_read_count(&self) -> (c: u64)
        ensures
            c == self.read_count(),
    {
        self.last_read_count
    }
}

/// A handle reports a change exactly when the allocation's write count has moved past the count
/// its last read saw, however many writes that takes: one write or many.
pub proof fn lemma_change_means_written_since_read(tracker: ReadTracker, total_writes: u64)
    ensures
        tracker.changed(total_writes) <==> total_writes > tracker.read_count(),
{
}

/// After a read at count `c`, every later count `c + k` with `k >= 1` is a change, and the count
/// `c` itself, or any earlier one, is not.
pub proof fn lemma_any_number_of_writes_is_change(tracker: ReadTracker, k: u64, j: u64)
    requires
        k >= 1,
        tracker.read_count() + k <= u64::MAX,
        j <= tracker.read_count(),
    ensures
        tracker.changed((tracker.read_count() + k) as u64),
        !tracker.changed(j),
{
}

/// A handle that has not read yet reports no staleness, whatever the time.
pub proof fn lemma_no_staleness_before_read(tracker: ReadTracker, now: TimeSpan, r: Option<TimeSpan>)
    requires
        tracker.read_time() is None,
        tracker.staleness_at(now, r),
    ensures
        r is None,
{
}

/// The shared write counter moves up by one per write lock, wrapping around at the end of `u64`.
pub proof fn lemma_write_count_steps_by_one(total_writes: u64)
    ensures
        next_write_count(total_writes) as int == (total_writes as int + 1) % 0x1_0000_0000_0000_0000int,
{
}

/// A handle that has not read yet sees a change in any allocation that holds a value: creating an
/// allocation writes its initial value under the write lock, so its count is at least one.
pub proof fn lemma_unread_allocation_has_changed(tracker: ReadTracker, total_writes: u64)
    requires
        tracker.read_count() == 0,
        total_writes >= next_write_count(0),
    ensures
        tracker.changed(total_writes),
{
}

/// Reading clears the change: right after a read at `total_writes` writes, the handle sees no
/// change until the count moves on.
pub proof fn lemma_read_clears_change(
    after: ReadTracker,
    total_writes: u64,
    written_at: TimeSpan,
)
    requires
        after.read_count() == total_writes,
        after.read_time() == Some(written_at),
    ensures
        !after.changed(total_writes),
{
}

/// A write after a read is seen as a change, as long as the shared counter does not wrap around.
pub proof fn lemma_write_after_read_is_change(tracker: ReadTracker, total_writes: u64)
    requires
        tracker.read_count() == total_writes,
        total_writes < u64::MAX,
    ensures
        tracker.changed(next_write_count(total_writes)),
{
}

/// Staleness is measured from the write that produced the last read, and is zero when measured
/// at that very moment.
pub proof fn lemma_staleness_from_last_read(tracker: ReadTracker, written_at: TimeSpan, now: TimeSpan, r: Option<TimeSpan>)
    requires
        tracker.read_time() == Some(written_at),
        tracker.staleness_at(now, r),
    ensures
        now.as_nanos() >= written_at.as_nanos() ==> (r matches Some(d) && d.as_nanos() == now.as_nanos() - written_at.as_nanos()),
        now.as_nanos() < written_at.as_nanos() ==> r is None,
        now.as_nanos() == written_at.as_nanos() ==> (r matches Some(d) && d.as_nanos() == 0),
{
}

} // verus!
