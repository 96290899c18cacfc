use vstd::prelude::*;
use vstd::multiset::*;

use core::time::Duration;
use sum_queue::SumQueue;
use watch::WatchSender;

use crate::admission::{boundaries, count_bytes, count_lines, count_nulls};
use crate::broadcast::{channel, send, subscribe};
use crate::progress::{sum_of, TransferProgress, TransferProgressMonitor};
use crate::unit::Unit;

verus! {

#[verifier::external_type_specification]
#[verifier::external_body]
#[verifier::reject_recursive_types(T)]
pub struct ExSumQueue<T>(SumQueue<T>);

/// The samples that a window holds.
pub uninterp spec fn window_samples(q: SumQueue<TransferProgress>) -> Multiset<TransferProgress>;

/// The counters of the samples in `m`, added field by field, each held at
/// the largest `usize`.
pub open spec fn window_sum(m: Multiset<TransferProgress>) -> TransferProgress
    decreases m.len(),
    via window_sum_decreases
{
    if m.len() == 0 {
        TransferProgress::spec_zero()
    } else {
        let x = m.choose();
        sum_of(window_sum(m.remove(x)), x)
    }
}

#[via_fn]
proof fn window_sum_decreases(m: Multiset<TransferProgress>) {
    broadcast use group_multiset_axioms;

    if m.len() != 0 {
        lemma_multiset_empty_len(m);
        let x = m.choose();
        assert(m.count(x) > 0);
        assert(m.remove(x).len() == m.len() - 1);
    }
}

/// Relies on sum_queue's `SumQueue::new`: an empty window whose samples leave
/// once older than `window_ms` milliseconds.
#[verifier::external_body]
fn new_window(window_ms: u64) -> (r: SumQueue<TransferProgress>)
    ensures
        window_samples(r) == Multiset::<TransferProgress>::empty(),
{
    SumQueue::new(Duration::from_millis(window_ms))
}

/// Relies on sum_queue's `SumQueue::push_and_stats`: the samples that have
/// grown too old leave, `sample` joins, and the sum is the fold with `+` of
/// the samples held then.
#[verifier::external_body]
fn push_and_sum(q: &mut SumQueue<TransferProgress>, sample: TransferProgress) -> (r: Option<
    TransferProgress,
>)
    ensures
        exists|kept: Multiset<TransferProgress>|
            kept.subset_of(window_samples(*old(q))) && window_samples(*final(q)) == kept.insert(
                sample,
            ),
        r == Some(window_sum(window_samples(*final(q)))),
{
    q.push_and_stats(sample).sum
}

/// `count` per `window_ms` milliseconds, as a count per second rounded down
/// and held at the largest `usize`.
pub open spec fn rate_of(count: usize, window_ms: u64) -> usize {
    if count * 1000 / (window_ms as int) > usize::MAX {
        usize::MAX
    } else {
        (count * 1000 / (window_ms as int)) as usize
    }
}

/// The rate per second of each counter of `sum`, gathered over `window_ms`
/// milliseconds; nothing gathered is a rate of zero.
pub open spec fn mean_of(sum: Option<TransferProgress>, window_ms: u64) -> TransferProgress {
    match sum {
        Some(s) => TransferProgress {
            bytes_transferred: rate_of(s.bytes_transferred, window_ms),
            lines_transferred: rate_of(s.lines_transferred, window_ms),
            nulls_transferred: rate_of(s.nulls_transferred, window_ms),
        },
        None => TransferProgress::spec_zero(),
    }
}

fn rate(count: usize, window_ms: u64) -> (r: usize)
    requires
        window_ms >= 1,
    ensures
        r == rate_of(count, window_ms),
{
    let scaled: u128 = (count as u128) * 1000;
    let per_second: u128 = scaled / (window_ms as u128);
    if per_second > usize::MAX as u128 {
        usize::MAX
    } else {
        per_second as usize
    }
}

/// The rate per second of each counter of `sum`, gathered over `window_ms`
/// milliseconds.
pub fn mean(sum: Option<TransferProgress>, window_ms: u64) -> (r: TransferProgress)
    requires
        window_ms >= 1,
    ensures
        r == mean_of(sum, window_ms),
{
    match sum {
        Some(s) => TransferProgress {
            bytes_transferred: rate(s.bytes_transferred, window_ms),
            lines_transferred: rate(s.lines_transferred, window_ms),
            nulls_transferred: rate(s.nulls_transferred, window_ms),
        },
        None => TransferProgress::new(),
    }
}

/// The counters of one slice: its bytes, line feeds and NUL bytes.
pub open spec fn sample_of(s: Seq<u8>) -> TransferProgress {
    TransferProgress {
        bytes_transferred: s.len() as usize,
        lines_transferred: boundaries(s, Unit::Line).len() as usize,
        nulls_transferred: boundaries(s, Unit::Null).len() as usize,
    }
}

/// A window holding the single sample `b` gives the rate of `b` over the
/// window's span, and an empty window, once every sample has aged out,
/// gives zero.
pub proof fn lemma_windowed_mean_boundary(b: TransferProgress, window_ms: u64)
    requires
        window_ms >= 1,
    ensures
        window_sum(Multiset::<TransferProgress>::empty().insert(b)) == b,
        mean_of(Some(window_sum(Multiset::<TransferProgress>::empty().insert(b))), window_ms)
            == (TransferProgress {
            bytes_transferred: rate_of(b.bytes_transferred, window_ms),
            lines_transferred: rate_of(b.lines_transferred, window_ms),
            nulls_transferred: rate_of(b.nulls_transferred, window_ms),
        }),
        window_sum(Multiset::<TransferProgress>::empty()) == TransferProgress::spec_zero(),
        mean_of(Some(window_sum(Multiset::<TransferProgress>::empty())), window_ms)
            == TransferProgress::spec_zero(),
{
    broadcast use group_multiset_axioms;

    let m = Multiset::<TransferProgress>::empty().insert(b);
    assert(m.len() == 1);
    let x = m.choose();
    assert(m.count(x) > 0);
    assert(x == b);
    assert(Multiset::<TransferProgress>::empty().len() == 0);
    assert(window_sum(Multiset::<TransferProgress>::empty()) == TransferProgress::spec_zero());
    assert(m.remove(x) =~= Multiset::<TransferProgress>::empty());
    assert(window_sum(m) == sum_of(window_sum(m.remove(x)), x));
    assert(sum_of(TransferProgress::spec_zero(), b) == b);
    assert(window_sum(m) == b);
    assert(rate_of(0, window_ms) == 0) by (nonlinear_arith)
        requires
            window_ms >= 1,
    ;
}

/// The state of a writer that publishes the rate of what its sink took over
/// a trailing window of fixed span.
pub struct InstantaneousProgressWriter {
    tx: WatchSender<TransferProgress>,
    q: SumQueue<TransferProgress>,
    window_ms: u64,
}

impl InstantaneousProgressWriter {
    /// The samples that the window holds now.
    pub closed spec fn samples(&self) -> Multiset<TransferProgress> {
        window_samples(self.q)
    }

    /// The span of the window, in milliseconds.
    pub closed spec fn span(&self) -> u64 {
        self.window_ms
    }

    /// A writer with an empty window spanning `window_ms` milliseconds.
    pub fn new(window_ms: u64) -> (r: Self)
        requires
            window_ms >= 1,
        ensures
            r.samples() == Multiset::<TransferProgress>::empty(),
            r.span() == window_ms,
    {
        let (tx, _rx) = channel(TransferProgress::new());
        InstantaneousProgressWriter { tx, q: new_window(window_ms), window_ms }
    }

    /// The span of the window, in milliseconds.
    pub fn window_ms(&self) -> (r: u64)
        ensures
            r == self.span(),
    {
        self.window_ms
    }

    /// Adds the counters of `written`, the slice the sink took, to the window
    /// and publishes the rate over the window; returns that rate. Samples
    /// older than the span leave first. Into an empty window, the rate is
    /// that of `written` alone.
    pub fn update(&mut self, written: &[u8]) -> (r: TransferProgress)
        requires
            old(self).span() >= 1,
        ensures
            final(self).span() == old(self).span(),
            exists|kept: Multiset<TransferProgress>|
                kept.subset_of(old(self).samples()) && final(self).samples() == kept.insert(
                    sample_of(written@),
                ),
            r == mean_of(Some(window_sum(final(self).samples())), old(self).span()),
            old(self).samples().len() == 0 ==> r == mean_of(
                Some(sample_of(written@)),
                old(self).span(),
            ),
    {
        let sample = TransferProgress {
            bytes_transferred: count_bytes(written),
            lines_transferred: count_lines(written),
            nulls_transferred: count_nulls(written),
        };
        assert(sample == sample_of(written@));
        let ghost before = window_samples(self.q);
        let sum = push_and_sum(&mut self.q, sample);
        let r = mean(sum, self.window_ms);
        proof {
            broadcast use group_multiset_axioms;

            if before.len() == 0 {
                let kept = choose|kept: Multiset<TransferProgress>|
                    kept.subset_of(before) && window_samples(self.q) == kept.insert(sample);
                lemma_multiset_empty_len(before);
                assert(kept =~= Multiset::<TransferProgress>::empty());
                lemma_windowed_mean_boundary(sample, self.window_ms);
            }
        }
        send(&self.tx, r);
        r
    }

    /// A reader of the rates this writer publishes.
    pub fn transfer_progress(&mut self) -> (r: TransferProgressMonitor)
        ensures
            final(self).samples() == old(self).samples(),
            final(self).span() == old(self).span(),
    {
        TransferProgressMonitor::new(subscribe(&self.tx))
    }
}

} // verus!
