use vstd::prelude::*;

use core::time::Duration;
use watch::WatchSender;

use crate::admission::{
    admitted_end,
    admitted_len,
    annotate,
    boundaries,
    buffer_cost,
    cost_of,
    count_lines,
    count_nulls,
};
use crate::broadcast::{channel, send, subscribe};
use crate::config::{Config, ConfigMonitor, LatchMonitor};
use crate::limiter::{effective_limit, DynamicRateLimiter, RequestStep, MAX_METERED_RATE};
use crate::progress::{
    counts,
    lemma_units_within_bytes,
    total_bytes,
    total_units,
    TransferProgress,
    TransferProgressMonitor,
};
use crate::unit::Unit;

verus! {

/// How long a paused writer sleeps between two looks at the pause latch, in
/// milliseconds.
pub const PAUSE_POLL_MS: u64 = 500;

/// What a rate-limited writer does next with a buffer.
#[derive(Debug, Clone, Copy)]
pub enum Admission {
    /// Forward this many leading bytes of the buffer.
    Forward(usize),
    /// Wait this long, then ask for one token to forward this many bytes.
    Wait(Duration, usize),
}

/// Whether `end` is where a prefix admitted under `unit` may end in `s` with
/// the limit `installed`: after the last of some grant of boundaries that the
/// limit allows, or at the end of a buffer without a boundary.
pub open spec fn admissible(s: Seq<u8>, unit: Unit, end: int, installed: Option<u32>) -> bool {
    let b = boundaries(s, unit);
    if b.len() == 0 {
        end == s.len()
    } else {
        exists|g: int|
            1 <= g <= b.len() && within_limit(g, installed) && end == #[trigger] admitted_len(
                s,
                unit,
                g,
            )
    }
}

/// Whether a grant of `g` tokens respects the installed limit: no grant
/// exceeds a limit that a bucket meters.
pub open spec fn within_limit(g: int, installed: Option<u32>) -> bool {
    match installed {
        Some(l) => l > MAX_METERED_RATE || g <= l,
        None => true,
    }
}

/// The limit that a configuration update installs, or `None` where the
/// installed limit stays.
pub open spec fn limit_update(installed: Option<u32>, update: Option<Config>) -> Option<
    Option<u32>,
> {
    match update {
        Some(c) => if c.limit.applied() != installed {
            Some(c.limit.applied())
        } else {
            None
        },
        None => None,
    }
}

/// Whether `after` keeps the limit and bucket of `before`, or has a new
/// bucket for a new limit.
pub open spec fn kept_or_rebuilt(before: RateLimitedWriter, after: RateLimitedWriter) -> bool {
    ||| after.installed() == before.installed() && after.requests() == before.requests()
    ||| after.installed() != before.installed() && after.is_fresh()
}

/// Whether `after` took a configuration as `kept_or_rebuilt` says, then
/// asked its bucket for at most one amount of tokens.
pub open spec fn polled_then_asked(before: RateLimitedWriter, after: RateLimitedWriter) -> bool {
    ||| after.installed() == before.installed() && (after.requests() == before.requests() || (
    after.requests().len() == before.requests().len() + 1 && after.requests().drop_last()
        == before.requests()))
    ||| after.installed() != before.installed() && after.requests().len() <= 1
}

/// The admission state of a writer whose throughput is limited by a
/// configuration that can change while it runs.
pub struct RateLimitedWriter {
    config: ConfigMonitor,
    rate_limiter: DynamicRateLimiter,
}

impl RateLimitedWriter {
    /// The limiter is well formed.
    pub closed spec fn wf(&self) -> bool {
        self.rate_limiter.wf()
    }

    /// The limit installed now, in units per second.
    pub closed spec fn installed(&self) -> Option<u32> {
        self.rate_limiter.installed()
    }

    /// No token has been asked of the installed bucket since it was built.
    pub closed spec fn is_fresh(&self) -> bool {
        self.rate_limiter.is_fresh()
    }

    /// The amounts of tokens asked of the installed bucket since it was
    /// built, in order.
    pub closed spec fn requests(&self) -> Seq<u32> {
        self.rate_limiter.requests()
    }

    /// A limited writer following `config`, starting from its latest limit.
    pub fn writer_with_config(config: ConfigMonitor) -> (r: Self)
        ensures
            r.wf(),
            r.is_fresh(),
    {
        let mut config = config;
        let limit = config.limit();
        RateLimitedWriter { rate_limiter: DynamicRateLimiter::new(limit), config }
    }

    /// The limit installed now.
    pub fn limit(&self) -> (r: Option<u32>)
        ensures
            r == self.installed(),
    {
        self.rate_limiter.limit()
    }

    /// Takes a configuration seen for the first time: where its limit
    /// differs from the installed one, a new bucket is built for it, so no
    /// balance of the old rate carries over; otherwise nothing changes.
    pub fn apply_config(&mut self, update: Option<Config>)
        requires
            old(self).wf(),
        ensures
            final(self).wf(),
            match limit_update(old(self).installed(), update) {
                Some(l) => final(self).installed() == l && final(self).is_fresh(),
                None => {
                    &&& final(self).installed() == old(self).installed()
                    &&& final(self).requests() == old(self).requests()
                },
            },
    {
        if let Some(config) = update {
            let limit = config.limit();
            if limit != self.rate_limiter.limit() {
                self.set_rate(limit);
            }
        }
    }

    fn set_rate(&mut self, limit: Option<u32>)
        requires
            old(self).wf(),
            limit matches Some(l) ==> l >= 1,
        ensures
            final(self).wf(),
            final(self).installed() == limit,
            final(self).is_fresh(),
    {
        self.rate_limiter.swapout(limit);
        assert(effective_limit(limit) == limit);
    }

    /// Looks for a configuration not seen before and takes it: the limit
    /// stays as it was, or a new bucket is built for the new one.
    pub fn poll_for_config_update(&mut self)
        requires
            old(self).wf(),
        ensures
            final(self).wf(),
            kept_or_rebuilt(*old(self), *final(self)),
    {
        let update = self.config.config_if_new();
        self.apply_config(update);
    }

    /// Decides how much of `buf` may go on under `unit`: one token is asked
    /// per boundary, and the prefix up to the last boundary granted goes on.
    /// A buffer without a boundary goes on whole. Without a limit every
    /// boundary is granted.
    pub fn admit_in(&mut self, buf: &[u8], unit: Unit) -> (r: Admission)
        requires
            old(self).wf(),
        ensures
            final(self).wf(),
            final(self).installed() == old(self).installed(),
            boundaries(buf@, unit).len() == 0 ==> r == Admission::Forward(buf@.len() as usize),
            final(self).requests() == (if boundaries(buf@, unit).len() > 0 && old(
                self,
            ).installed() is Some {
                old(self).requests().push(cost_of(boundaries(buf@, unit).len() as int) as u32)
            } else {
                old(self).requests()
            }),
            old(self).installed() is None ==> r == Admission::Forward(
                admitted_len(buf@, unit, cost_of(boundaries(buf@, unit).len() as int)) as usize,
            ),
            r matches Admission::Forward(e) ==> e <= buf@.len() && ((exists|g: int|
                1 <= g <= cost_of(boundaries(buf@, unit).len() as int) && within_limit(
                    g,
                    old(self).installed(),
                ) && e == #[trigger] admitted_len(buf@, unit, g)) || (boundaries(buf@, unit).len()
                == 0 && e == buf@.len())),
            r matches Admission::Wait(_, e) ==> boundaries(buf@, unit).len() > 0 && e
                == admitted_len(buf@, unit, 1),
    {
        let points = annotate(buf, unit);
        let cost = buffer_cost(points.len());
        if cost < 1 {
            return Admission::Forward(buf.len());
        }
        match self.rate_limiter.request_step(cost) {
            RequestStep::Granted(granted) => {
                let end = admitted_end(buf, unit, &points, granted);
                Admission::Forward(end)
            },
            RequestStep::Wait(delay) => {
                let end = admitted_end(buf, unit, &points, 1);
                Admission::Wait(delay, end)
            },
        }
    }

    /// Decides how much of `buf` may go on: takes any new configuration, then
    /// admits under the latest unit. The prefix admitted ends right after a
    /// boundary of that unit, or is the whole buffer when it has none.
    pub fn get_largest_slice(&mut self, buf: &[u8]) -> (r: Admission)
        requires
            old(self).wf(),
        ensures
            final(self).wf(),
            polled_then_asked(*old(self), *final(self)),
            r matches Admission::Forward(e) ==> e <= buf@.len() && exists|u: Unit|
                admissible(buf@, u, e as int, final(self).installed()),
            r matches Admission::Wait(_, e) ==> exists|u: Unit|
                boundaries(buf@, u).len() > 0 && e == admitted_len(buf@, u, 1),
    {
        self.poll_for_config_update();
        let unit = self.config.unit();
        let ghost installed = self.installed();
        let ghost polled = *self;
        let r = self.admit_in(buf, unit);
        proof {
            if let Admission::Forward(e) = r {
                if boundaries(buf@, unit).len() > 0 {
                    let g = choose|g: int|
                        1 <= g <= cost_of(boundaries(buf@, unit).len() as int) && within_limit(
                            g,
                            installed,
                        ) && e == #[trigger] admitted_len(buf@, unit, g);
                    assert(1 <= g <= boundaries(buf@, unit).len());
                    assert(admissible(buf@, unit, e as int, installed));
                }
                assert(admissible(buf@, unit, e as int, installed));
            }
            assert(polled_then_asked(*old(self), *self)) by {
                if self.requests() != polled.requests() {
                    assert(self.requests().drop_last() =~= polled.requests());
                }
            }
            if let Admission::Wait(_, e) = r {
                assert(boundaries(buf@, unit).len() > 0 && e == admitted_len(buf@, unit, 1));
            }
        }
        r
    }

    /// Asks again for one token after a wait, to forward `end` bytes.
    pub fn resume(&mut self, end: usize) -> (r: Admission)
        requires
            old(self).wf(),
        ensures
            final(self).wf(),
            final(self).installed() == old(self).installed(),
            r matches Admission::Forward(e) ==> e == end,
            r matches Admission::Wait(_, e) ==> e == end,
            final(self).requests() == (if old(self).installed() is Some {
                old(self).requests().push(1)
            } else {
                old(self).requests()
            }),
            old(self).installed() is None ==> r == Admission::Forward(end),
    {
        match self.rate_limiter.request_step(1) {
            RequestStep::Granted(_) => Admission::Forward(end),
            RequestStep::Wait(delay) => Admission::Wait(delay, end),
        }
    }
}

/// Whether a writer should flush after its sink took `written` of the
/// `admitted` bytes it was handed: it should when the sink took fewer.
pub fn needs_flush(written: usize, admitted: usize) -> (r: bool)
    ensures
        r == (written < admitted),
{
    written < admitted
}

/// What a paused writer does next, given whether the pause latch is on:
/// sleep for the poll interval, or forward the whole buffer of `len` bytes.
pub fn pause_step(paused: bool, len: usize) -> (r: Result<usize, u64>)
    ensures
        paused ==> r == Err::<usize, u64>(PAUSE_POLL_MS),
        !paused ==> r == Ok::<usize, u64>(len),
{
    if paused {
        Err(PAUSE_POLL_MS)
    } else {
        Ok(len)
    }
}

/// The state of a writer that can be paused and resumed.
pub struct PauseableWriter {
    paused: LatchMonitor,
}

impl PauseableWriter {
    /// A writer paused while `paused` is on.
    pub fn new(paused: LatchMonitor) -> Self {
        PauseableWriter { paused }
    }

    /// Whether the pause latch is on now.
    pub fn paused(&mut self) -> bool {
        self.paused.active()
    }

    /// Looks at the latch once and decides: while paused, sleep for the
    /// poll interval and nothing goes on; else the whole buffer of `len`
    /// bytes goes on, never a part.
    pub fn step(&mut self, len: usize) -> (r: Result<usize, u64>)
        ensures
            r == Err::<usize, u64>(PAUSE_POLL_MS) || r == Ok::<usize, u64>(len),
    {
        let paused = self.paused();
        pause_step(paused, len)
    }
}

/// Whether a writer has seen its cancel latch on, given whether it had before
/// and what it reads now.
pub open spec fn observe_spec(seen: bool, latch_on: bool) -> bool {
    seen || latch_on
}

/// Whether a writer has seen its cancel latch on, given whether it had before
/// and what it reads now.
pub fn observe(seen: bool, latch_on: bool) -> (r: bool)
    ensures
        r == observe_spec(seen, latch_on),
{
    seen || latch_on
}

/// Whether a writer has seen its cancel latch on after reading `readings`
/// one by one.
pub open spec fn seen_after(seen: bool, readings: Seq<bool>) -> bool
    decreases readings.len(),
{
    if readings.len() == 0 {
        seen
    } else {
        observe_spec(seen_after(seen, readings.drop_last()), readings.last())
    }
}

/// Once a writer has seen its cancel latch on, it stays cancelled whatever
/// it reads later: a latch turned off again does not undo a cancellation.
pub proof fn lemma_cancellation_final(seen: bool, readings: Seq<bool>, i: int, j: int)
    requires
        0 <= i <= j <= readings.len(),
        seen_after(seen, readings.take(i)),
    ensures
        seen_after(seen, readings.take(j)),
    decreases j - i,
{
    if j > i {
        lemma_cancellation_final(seen, readings, i, j - 1);
        assert(readings.take(j).drop_last() =~= readings.take(j - 1));
    }
}

/// The error of a write on a cancelled writer.
#[derive(Debug, Clone, Copy, PartialEq, Eq, Structural)]
pub struct Cancelled;

/// The state of a writer that can be cancelled, for good.
pub struct CancellableWriter {
    cancelled: LatchMonitor,
    seen: bool,
}

impl CancellableWriter {
    /// Whether this writer has seen its cancel latch on.
    pub closed spec fn is_cancelled(&self) -> bool {
        self.seen
    }

    /// A writer cancelled once `cancelled` is seen on.
    pub fn new(cancelled: LatchMonitor) -> (r: Self)
        ensures
            !r.is_cancelled(),
    {
        CancellableWriter { cancelled, seen: false }
    }

    /// Whether this writer is cancelled: it is once it has seen the latch
    /// on, and stays so.
    pub fn cancelled(&mut self) -> (r: bool)
        ensures
            r == final(self).is_cancelled(),
            old(self).is_cancelled() ==> r,
    {
        if self.seen {
            return true;
        }
        let on = self.cancelled.active();
        self.seen = observe(self.seen, on);
        self.seen
    }

    /// Decides whether a write may go on: it fails with `Cancelled` once the
    /// writer is cancelled, and then forwards nothing.
    pub fn check(&mut self) -> (r: Result<(), Cancelled>)
        ensures
            r is Err <==> final(self).is_cancelled(),
            old(self).is_cancelled() ==> r == Err::<(), Cancelled>(Cancelled),
    {
        if self.cancelled() {
            Err(Cancelled)
        } else {
            Ok(())
        }
    }
}

/// The state of a writer that counts what its sink took and publishes the
/// counts.
pub struct ProgressWriter {
    transfer_progress: TransferProgress,
    tx: WatchSender<TransferProgress>,
    history: Ghost<Seq<Seq<u8>>>,
}

impl ProgressWriter {
    /// Every slice that the sink took, in order.
    pub closed spec fn forwarded(&self) -> Seq<Seq<u8>> {
        self.history@
    }

    /// The counters published now.
    pub closed spec fn counters(&self) -> TransferProgress {
        self.transfer_progress
    }

    /// The counters add up exactly what the sink took.
    pub closed spec fn wf(&self) -> bool {
        counts(self.transfer_progress, self.history@)
    }

    /// A writer that has counted nothing.
    pub fn new() -> (r: Self)
        ensures
            r.wf(),
            r.forwarded() == Seq::<Seq<u8>>::empty(),
            r.counters() == TransferProgress::spec_zero(),
    {
        let transfer_progress = TransferProgress::new();
        let (tx, _rx) = channel(transfer_progress);
        ProgressWriter { transfer_progress, tx, history: Ghost(Seq::empty()) }
    }

    /// A reader of the counters this writer publishes.
    pub fn transfer_progress(&mut self) -> (r: TransferProgressMonitor)
        ensures
            final(self).forwarded() == old(self).forwarded(),
            final(self).counters() == old(self).counters(),
            final(self).wf() == old(self).wf(),
    {
        TransferProgressMonitor::new(subscribe(&self.tx))
    }

    /// The counters now.
    pub fn progress(&self) -> (r: TransferProgress)
        ensures
            r == self.counters(),
    {
        self.transfer_progress
    }

    /// Whether `n` more bytes can be counted without overflow.
    pub fn can_record(&self, n: usize) -> (r: bool)
        ensures
            r == (self.counters().bytes_transferred + n <= usize::MAX),
    {
        n <= usize::MAX - self.transfer_progress.bytes_transferred
    }

    /// Counts `written`, the slice the sink took, and publishes the counters.
    pub fn record(&mut self, written: &[u8])
        requires
            old(self).wf(),
            old(self).counters().bytes_transferred + written@.len() <= usize::MAX,
        ensures
            final(self).wf(),
            final(self).forwarded() == old(self).forwarded().push(written@),
    {
        let ghost h = self.history@.push(written@);
        proof {
            assert(h.drop_last() =~= self.history@);
            lemma_units_within_bytes(h, Unit::Line);
            lemma_units_within_bytes(h, Unit::Null);
        }
        self.transfer_progress.add_bytes(written.len());
        self.transfer_progress.add_lines(count_lines(written));
        self.transfer_progress.add_nulls(count_nulls(written));
        self.history = Ghost(h);
        send(&self.tx, self.transfer_progress);
    }
}

/// The counters of a progress writer add up exactly what its sink took: the
/// bytes counted are the bytes forwarded, never the bytes asked to be written.
pub proof fn lemma_progress_conservation(w: &ProgressWriter)
    requires
        w.wf(),
    ensures
        w.counters().bytes_transferred == total_bytes(w.forwarded()),
        w.counters().lines_transferred == total_units(w.forwarded(), Unit::Line),
        w.counters().nulls_transferred == total_units(w.forwarded(), Unit::Null),
{
}

} // verus!
