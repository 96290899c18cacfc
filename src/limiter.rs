use vstd::prelude::*;

use core::time::Duration;
use governor::clock::Clock as _;
use governor::clock::DefaultClock;
use governor::middleware::NoOpMiddleware;
use governor::state::{InMemoryState, NotKeyed};
use governor::{NegativeMultiDecision, Quota};

verus! {

/// A token bucket of the governor crate on its default clock, kept opaque:
/// what it grants depends on the time of each request.
#[verifier::external_body]
pub struct TokenBucket {
    governor: governor::RateLimiter<NotKeyed, InMemoryState, DefaultClock, NoOpMiddleware>,
}

/// The number of tokens a bucket holds at most.
pub uninterp spec fn bucket_size(b: TokenBucket) -> nat;

/// The largest rate, in tokens per second, at which a bucket still refuses
/// batches beyond its size: above it the refill interval rounds down to zero
/// nanoseconds.
pub const MAX_METERED_RATE: u32 = 1_000_000_000;

/// What a limiter answers to a request for a batch of tokens.
#[derive(Debug, Clone, Copy, PartialEq, Eq, Structural)]
pub enum Verdict {
    /// The whole batch was granted.
    Conforming,
    /// The batch fits the bucket, but not yet.
    NonConforming,
    /// The batch can never fit; the bucket holds at most this many tokens.
    OverCapacity(u32),
}

/// Relies on governor's `Quota::per_second` and `RateLimiter::direct`: a
/// bucket that refills `limit` tokens per second and holds at most `limit`.
#[verifier::external_body]
fn build_governor(limit: u32) -> (r: TokenBucket)
    requires
        limit >= 1,
    ensures
        bucket_size(r) == limit,
{
    TokenBucket {
        governor: governor::RateLimiter::direct(
            Quota::per_second(std::num::NonZeroU32::new(limit).unwrap()),
        ),
    }
}

/// Relies on governor's `RateLimiter::check_n`: a batch larger than the
/// bucket is refused with the bucket's size, which is at least one token and
/// smaller than the batch; a batch that fits is never refused so. At rates
/// above `MAX_METERED_RATE` no batch is refused for its size.
#[verifier::external_body]
fn check_batch(g: &TokenBucket, n: u32) -> (r: Verdict)
    requires
        n >= 1,
        bucket_size(*g) >= 1,
    ensures
        r matches Verdict::OverCapacity(c) ==> 1 <= c < n && c == bucket_size(*g),
        n <= bucket_size(*g) ==> !(r is OverCapacity),
        n > bucket_size(*g) && bucket_size(*g) <= MAX_METERED_RATE ==> r is OverCapacity,
{
    match g.governor.check_n(std::num::NonZeroU32::new(n).unwrap()) {
        Ok(_) => Verdict::Conforming,
        Err(NegativeMultiDecision::BatchNonConforming(_, _)) => Verdict::NonConforming,
        Err(NegativeMultiDecision::InsufficientCapacity(c)) => Verdict::OverCapacity(c),
    }
}

/// Relies on governor's `RateLimiter::check` and `NotUntil::wait_time_from`:
/// one token is granted now, or the wait until the bucket may hold one is
/// handed back, measured from a moment taken just before the check.
#[verifier::external_body]
fn check_one(g: &TokenBucket) -> (r: Result<(), Duration>) {
    let now = DefaultClock::default().now();
    match g.governor.check() {
        Ok(_) => Ok(()),
        Err(not_until) => Err(not_until.wait_time_from(now)),
    }
}

/// One step of the search for the largest batch that a bucket grants now.
#[derive(Debug, Clone, Copy, PartialEq, Eq, Structural)]
pub enum SearchStep {
    /// This many tokens were granted.
    Done(u32),
    /// Ask again for this many tokens.
    Retry(u32),
}

/// The step that follows the verdict on a request for `goal` tokens: a
/// granted batch ends the search, a batch beyond the bucket's size is asked
/// again at that size, and a batch that does not fit yet is halved.
pub fn search_step(goal: u32, verdict: Verdict) -> (r: SearchStep)
    ensures
        r == (match verdict {
            Verdict::Conforming => SearchStep::Done(goal),
            Verdict::OverCapacity(c) => SearchStep::Retry(c),
            Verdict::NonConforming => SearchStep::Retry((goal / 2) as u32),
        }),
{
    match verdict {
        Verdict::Conforming => SearchStep::Done(goal),
        Verdict::OverCapacity(c) => SearchStep::Retry(c),
        Verdict::NonConforming => SearchStep::Retry(goal / 2),
    }
}

/// The outcome of a request for tokens that does not block.
#[derive(Debug, Clone, Copy)]
pub enum RequestStep {
    /// This many tokens were granted.
    Granted(u32),
    /// No token is available yet: wait this long, then ask for one token.
    Wait(Duration),
}

/// Requests up to `goal` tokens from `g`. Small goals take a single token;
/// larger ones are searched down from `goal` until a batch is granted.
fn wait_for_at_most(g: &TokenBucket, tokens: u32) -> (r: RequestStep)
    requires
        tokens >= 1,
        bucket_size(*g) >= 1,
    ensures
        r matches RequestStep::Granted(n) ==> 1 <= n <= tokens,
        r matches RequestStep::Granted(n) ==> (bucket_size(*g) <= MAX_METERED_RATE ==> n
            <= bucket_size(*g)),
{
    let mut goal = tokens;
    loop
        invariant
            1 <= goal <= tokens,
            bucket_size(*g) >= 1,
        decreases goal,
    {
        if goal <= 2 {
            return match check_one(g) {
                Ok(()) => RequestStep::Granted(1),
                Err(delay) => RequestStep::Wait(delay),
            };
        }
        match search_step(goal, check_batch(g, goal)) {
            SearchStep::Done(n) => {
                return RequestStep::Granted(n);
            },
            SearchStep::Retry(n) => {
                goal = n;
            },
        }
    }
}

/// The limit that a requested limit installs: zero means no limit.
pub open spec fn effective_limit(limit: Option<u32>) -> Option<u32> {
    match limit {
        Some(l) => if l >= 1 {
            Some(l)
        } else {
            None
        },
        None => None,
    }
}

/// The sum of the amounts in `asked`.
pub open spec fn total_asked(asked: Seq<u32>) -> int
    decreases asked.len(),
{
    if asked.len() == 0 {
        0
    } else {
        total_asked(asked.drop_last()) + asked.last()
    }
}

/// A token-bucket limiter that is either off, granting every request in
/// full, or refills `limit` tokens per second into a bucket of `limit` tokens.
/// Changing the limit builds a new bucket, so no balance from the old rate is
/// carried over.
pub struct DynamicRateLimiter {
    limit: Option<u32>,
    limiter: Option<TokenBucket>,
    asked: Ghost<Seq<u32>>,
    granted: Ghost<int>,
}

impl DynamicRateLimiter {
    /// The installed limit, in tokens per second; `None` when off.
    pub closed spec fn installed(&self) -> Option<u32> {
        self.limit
    }

    /// The installed limit is positive and has a bucket of its size exactly
    /// when present.
    pub closed spec fn wf(&self) -> bool {
        &&& (self.limit is Some <==> self.limiter is Some)
        &&& (self.limit matches Some(l) ==> l >= 1)
        &&& (self.limiter matches Some(b) ==> self.limit matches Some(l) && bucket_size(b) == l)
        &&& 0 <= self.granted@ <= total_asked(self.asked@)
    }

    /// No token has been asked of the installed bucket since it was built.
    pub open spec fn is_fresh(&self) -> bool {
        self.requests().len() == 0
    }

    /// The amounts of tokens asked of the installed bucket since it was
    /// built, in order.
    pub closed spec fn requests(&self) -> Seq<u32> {
        self.asked@
    }

    /// The number of tokens the installed bucket has granted since it was
    /// built.
    pub closed spec fn granted_total(&self) -> int {
        self.granted@
    }

    /// A limiter for `limit` tokens per second, off for `None` or zero, with
    /// a new bucket.
    pub fn new(limit: Option<u32>) -> (r: Self)
        ensures
            r.wf(),
            r.installed() == effective_limit(limit),
            r.is_fresh(),
            r.granted_total() == 0,
    {
        let limit = match limit {
            Some(l) => if l >= 1 {
                Some(l)
            } else {
                None
            },
            None => None,
        };
        DynamicRateLimiter { limit, limiter: Self::limiter(limit), asked: Ghost(Seq::empty()), granted: Ghost(0) }
    }

    /// Replaces the bucket by a new one for `limit`, so that no balance of
    /// the old bucket carries over.
    pub fn swapout(&mut self, limit: Option<u32>)
        ensures
            final(self).wf(),
            final(self).installed() == effective_limit(limit),
            final(self).is_fresh(),
            final(self).granted_total() == 0,
    {
        *self = Self::new(limit);
    }

    fn limiter(limit: Option<u32>) -> (r: Option<TokenBucket>)
        requires
            limit matches Some(l) ==> l >= 1,
        ensures
            r is Some <==> limit is Some,
            r matches Some(b) ==> limit matches Some(l) && bucket_size(b) == l,
    {
        match limit {
            Some(l) => Some(build_governor(l)),
            None => None,
        }
    }

    /// The installed limit, in tokens per second; `None` when off.
    pub fn limit(&self) -> (r: Option<u32>)
        ensures
            r == self.installed(),
    {
        self.limit
    }

    /// Requests `tokens` tokens without blocking. A request for at least one
    /// token is asked of the installed bucket, if any, and is counted. No
    /// request is granted more than it asked for, and a request for at least one token is granted at
    /// least one; without a limit every request is granted in full. Where no
    /// token is available yet, the wait is handed back: after it, ask for one
    /// token.
    pub fn request_step(&mut self, tokens: u32) -> (r: RequestStep)
        requires
            old(self).wf(),
        ensures
            final(self).wf(),
            final(self).installed() == old(self).installed(),
            final(self).requests() == (if tokens >= 1 && old(self).installed() is Some {
                old(self).requests().push(tokens)
            } else {
                old(self).requests()
            }),
            final(self).granted_total() == (match r {
                RequestStep::Granted(n) => if tokens >= 1 && old(self).installed() is Some {
                    old(self).granted_total() + n
                } else {
                    old(self).granted_total()
                },
                RequestStep::Wait(_) => old(self).granted_total(),
            }),
            tokens == 0 ==> r == RequestStep::Granted(0),
            old(self).installed() is None ==> r == RequestStep::Granted(tokens),
            r matches RequestStep::Granted(n) ==> n <= tokens && (tokens >= 1 ==> n >= 1),
            r matches RequestStep::Granted(n) ==> (old(self).installed() matches Some(l) ==> (l
                <= MAX_METERED_RATE ==> n <= l)),
            r is Wait ==> tokens >= 1 && old(self).installed() is Some,
    {
        if tokens < 1 {
            return RequestStep::Granted(0);
        }
        match &self.limiter {
            Some(limiter) => {
                let r = wait_for_at_most(limiter, tokens);
                let ghost asked = self.asked@.push(tokens);
                proof {
                    assert(asked.drop_last() =~= self.asked@);
                }
                self.asked = Ghost(asked);
                if let RequestStep::Granted(n) = r {
                    self.granted = Ghost(self.granted@ + n);
                }
                r
            },
            None => RequestStep::Granted(tokens),
        }
    }
}

/// No bucket has granted more tokens than were asked of it.
pub proof fn lemma_token_conservation(l: &DynamicRateLimiter)
    requires
        l.wf(),
    ensures
        0 <= l.granted_total() <= total_asked(l.requests()),
{
}

} // verus!
