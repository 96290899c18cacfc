use vstd::prelude::*;

use core::time::Duration;
use std::time::Instant;
use watch::WatchReceiver;

use crate::admission::{boundaries, lemma_boundaries_well_formed};
use crate::broadcast::latest;
use crate::unit::Unit;

verus! {

/// Counters of what crossed a stream: bytes, line feeds and NUL bytes.
#[derive(Debug, Clone, Copy, PartialEq, Eq, Structural, PartialOrd, Ord)]
pub struct TransferProgress {
    pub bytes_transferred: usize,
    pub lines_transferred: usize,
    pub nulls_transferred: usize,
}

/// The sum of the lengths of `writes`.
pub open spec fn total_bytes(writes: Seq<Seq<u8>>) -> int
    decreases writes.len(),
{
    if writes.len() == 0 {
        0
    } else {
        total_bytes(writes.drop_last()) + writes.last().len()
    }
}

/// The number of units of `unit` that `writes` close, all together.
pub open spec fn total_units(writes: Seq<Seq<u8>>, unit: Unit) -> int
    decreases writes.len(),
{
    if writes.len() == 0 {
        0
    } else {
        total_units(writes.drop_last(), unit) + boundaries(writes.last(), unit).len()
    }
}

/// No slice closes more units than it holds bytes.
pub proof fn lemma_units_within_bytes(writes: Seq<Seq<u8>>, unit: Unit)
    ensures
        0 <= total_units(writes, unit) <= total_bytes(writes),
    decreases writes.len(),
{
    if writes.len() > 0 {
        lemma_units_within_bytes(writes.drop_last(), unit);
        lemma_boundaries_well_formed(writes.last(), unit);
    }
}

/// The counters in `p` add up exactly what `writes` hold.
pub open spec fn counts(p: TransferProgress, writes: Seq<Seq<u8>>) -> bool {
    &&& p.bytes_transferred == total_bytes(writes)
    &&& p.lines_transferred == total_units(writes, Unit::Line)
    &&& p.nulls_transferred == total_units(writes, Unit::Null)
}

/// Adds `a` and `b`, or gives the largest `usize` where the sum exceeds it.
pub open spec fn saturating_sum(a: usize, b: usize) -> usize {
    if a + b > usize::MAX {
        usize::MAX
    } else {
        (a + b) as usize
    }
}

/// The counters of `a` and `b` added one by one, each held at the largest
/// `usize`.
pub open spec fn sum_of(a: TransferProgress, b: TransferProgress) -> TransferProgress {
    TransferProgress {
        bytes_transferred: saturating_sum(a.bytes_transferred, b.bytes_transferred),
        lines_transferred: saturating_sum(a.lines_transferred, b.lines_transferred),
        nulls_transferred: saturating_sum(a.nulls_transferred, b.nulls_transferred),
    }
}

impl TransferProgress {
    /// All counters at zero.
    pub open spec fn spec_zero() -> Self {
        TransferProgress { bytes_transferred: 0, lines_transferred: 0, nulls_transferred: 0 }
    }

    /// All counters at zero.
    pub fn new() -> (r: Self)
        ensures
            r == (TransferProgress {
                bytes_transferred: 0,
                lines_transferred: 0,
                nulls_transferred: 0,
            }),
    {
        TransferProgress { bytes_transferred: 0, lines_transferred: 0, nulls_transferred: 0 }
    }

    /// Counts `n` more bytes.
    pub fn add_bytes(&mut self, n: usize)
        requires
            old(self).bytes_transferred + n <= usize::MAX,
        ensures
            *final(self) == (TransferProgress {
                bytes_transferred: (old(self).bytes_transferred + n) as usize,
                ..*old(self)
            }),
    {
        self.bytes_transferred = self.bytes_transferred + n;
    }

    /// Counts `n` more line feeds.
    pub fn add_lines(&mut self, n: usize)
        requires
            old(self).lines_transferred + n <= usize::MAX,
        ensures
            *final(self) == (TransferProgress {
                lines_transferred: (old(self).lines_transferred + n) as usize,
                ..*old(self)
            }),
    {
        self.lines_transferred = self.lines_transferred + n;
    }

    /// Counts `n` more NUL bytes.
    pub fn add_nulls(&mut self, n: usize)
        requires
            old(self).nulls_transferred + n <= usize::MAX,
        ensures
            *final(self) == (TransferProgress {
                nulls_transferred: (old(self).nulls_transferred + n) as usize,
                ..*old(self)
            }),
    {
        self.nulls_transferred = self.nulls_transferred + n;
    }
}

impl Default for TransferProgress {
    fn default() -> (r: Self)
        ensures
            r == (TransferProgress {
                bytes_transferred: 0,
                lines_transferred: 0,
                nulls_transferred: 0,
            }),
    {
        TransferProgress::new()
    }
}

impl core::ops::Add for TransferProgress {
    type Output = Self;

    /// Adds the counters one by one; a sum beyond the largest `usize` is held
    /// there.
    fn add(self, other: Self) -> (r: Self) {
        TransferProgress {
            bytes_transferred: self.bytes_transferred.saturating_add(other.bytes_transferred),
            lines_transferred: self.lines_transferred.saturating_add(other.lines_transferred),
            nulls_transferred: self.nulls_transferred.saturating_add(other.nulls_transferred),
        }
    }
}

impl vstd::std_specs::ops::AddSpecImpl for TransferProgress {
    open spec fn obeys_add_spec() -> bool {
        true
    }

    open spec fn add_req(self, other: Self) -> bool {
        true
    }

    open spec fn add_spec(self, other: Self) -> Self {
        sum_of(self, other)
    }
}

impl core::ops::Div<usize> for TransferProgress {
    type Output = Self;

    /// Divides every counter by `rhs`, rounding down.
    fn div(self, rhs: usize) -> (r: Self) {
        TransferProgress {
            bytes_transferred: self.bytes_transferred / rhs,
            lines_transferred: self.lines_transferred / rhs,
            nulls_transferred: self.nulls_transferred / rhs,
        }
    }
}

impl vstd::std_specs::ops::DivSpecImpl<usize> for TransferProgress {
    open spec fn obeys_div_spec() -> bool {
        true
    }

    open spec fn div_req(self, rhs: usize) -> bool {
        rhs != 0
    }

    open spec fn div_spec(self, rhs: usize) -> Self {
        TransferProgress {
            bytes_transferred: (self.bytes_transferred / rhs) as usize,
            lines_transferred: (self.lines_transferred / rhs) as usize,
            nulls_transferred: (self.nulls_transferred / rhs) as usize,
        }
    }
}

/// A reader of the progress that a writer publishes.
pub struct TransferProgressMonitor(WatchReceiver<TransferProgress>);

impl TransferProgressMonitor {
    /// A monitor reading from `rx`.
    pub fn new(rx: WatchReceiver<TransferProgress>) -> Self {
        TransferProgressMonitor(rx)
    }

    /// The latest progress published.
    pub fn get(&mut self) -> TransferProgress {
        latest(&mut self.0)
    }
}

#[verifier::external_type_specification]
#[verifier::external_body]
pub struct ExInstant(Instant);

/// Relies on std's `Instant::elapsed`: the time since `start`, which depends on
/// the clock, so nothing is promised of it.
#[verifier::external_body]
fn elapsed_since(start: &Instant) -> Duration {
    start.elapsed()
}

/// Progress since a start time.
#[derive(Clone, Copy)]
pub struct CumulativeTransferProgress {
    pub start_time: Instant,
    pub progress: TransferProgress,
}

impl CumulativeTransferProgress {
    /// The time since the transfer started.
    pub fn elapsed(&self) -> Duration {
        elapsed_since(&self.start_time)
    }
}

} // verus!
