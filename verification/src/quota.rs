//! The quota tracker: one token bucket per key, shared by all requests.

use governor::clock::{Clock, DefaultClock};
use governor::middleware::StateInformationMiddleware;
use governor::state::keyed::DefaultKeyedStateStore;
use governor::{Quota, RateLimiter};
use std::num::NonZeroU32;
use std::time::Duration;
use vstd::prelude::*;

verus! {

/// The keyed limiter that tracks one bucket per key: `governor`'s
/// `RateLimiter` over its default keyed store and clock.
#[verifier::external_body]
pub struct KeyedLimiter {
    inner: RateLimiter<
        Vec<u8>,
        DefaultKeyedStateStore<Vec<u8>>,
        DefaultClock,
        StateInformationMiddleware,
    >,
}

/// The burst size that a limiter was made with.
pub uninterp spec fn limiter_burst_size(limiter: KeyedLimiter) -> u32;

/// The longest time, in nanoseconds, that a full bucket may take to refill.
pub const MAX_WINDOW_NANOS: u64 = 4_611_686_018_427_387_904;

/// What the tracker decided for one request.
#[derive(Clone, Copy, Debug, PartialEq, Eq, Structural)]
pub enum Decision {
    /// A token was consumed; `remaining` tokens were left at that moment.
    Admit { burst_size: u32, remaining: u32 },
    /// No token was available; the next one comes after `retry_after` seconds.
    Deny { retry_after: u64, burst_size: u32 },
}

impl Decision {
    /// The burst size that the decision was made under.
    pub open spec fn burst_size(self) -> u32 {
        match self {
            Decision::Admit { burst_size, .. } => burst_size,
            Decision::Deny { burst_size, .. } => burst_size,
        }
    }

    /// A decision that a tracker can produce: the burst size is positive and
    /// no more tokens remain than the bucket holds.
    pub open spec fn well_formed(self) -> bool {
        match self {
            Decision::Admit { burst_size, remaining } => 1 <= burst_size && remaining <= burst_size,
            Decision::Deny { burst_size, .. } => 1 <= burst_size,
        }
    }
}

/// `RateLimiter::keyed` on a quota of one token per `period_nanos`
/// (`Quota::with_period`) and a bucket of `burst_size` tokens
/// (`Quota::allow_burst`), reporting its state (`with_middleware`).
#[verifier::external_body]
fn new_limiter(burst_size: u32, period_nanos: u64) -> (limiter: KeyedLimiter)
    requires
        1 <= burst_size,
        1 <= period_nanos,
        burst_size * period_nanos <= MAX_WINDOW_NANOS,
    ensures
        limiter_burst_size(limiter) == burst_size,
{
    let quota = Quota::with_period(Duration::from_nanos(period_nanos)).unwrap();
    let quota = quota.allow_burst(NonZeroU32::new(burst_size).unwrap());
    KeyedLimiter { inner: RateLimiter::keyed(quota).with_middleware::<StateInformationMiddleware>() }
}

/// `RateLimiter::check_key`, read out as plain values. An admitted request
/// reports the limiter's burst size (`StateSnapshot::quota`) and a remaining
/// capacity (`StateSnapshot::remaining_burst_capacity`) that does not exceed
/// it. A denied request reports the same burst size (`NotUntil::quota`) and
/// the whole seconds from now to the next token (`NotUntil::wait_time_from`).
/// Which of the two comes back depends on the clock and on earlier calls.
#[verifier::external_body]
fn check_key(limiter: &KeyedLimiter, key: &Vec<u8>) -> (decision: Decision)
    ensures
        decision.well_formed(),
        decision.burst_size() == limiter_burst_size(*limiter),
{
    match limiter.inner.check_key(key) {
        Ok(snapshot) => Decision::Admit {
            burst_size: snapshot.quota().burst_size().get(),
            remaining: snapshot.remaining_burst_capacity(),
        },
        Err(denial) => Decision::Deny {
            retry_after: denial.wait_time_from(DefaultClock::default().now()).as_secs(),
            burst_size: denial.quota().burst_size().get(),
        },
    }
}

/// The quota tracker: the keyed limiter together with the burst size that it
/// was configured with.
pub struct QuotaTracker {
    limiter: KeyedLimiter,
    burst_size: u32,
    period_nanos: u64,
}

/// Whether a burst size and a refill period make a quota: both positive, and
/// a full bucket refills within `MAX_WINDOW_NANOS`.
pub open spec fn is_quota(burst_size: u32, period_nanos: u64) -> bool {
    &&& 1 <= burst_size
    &&& 1 <= period_nanos
    &&& burst_size * period_nanos <= MAX_WINDOW_NANOS
}

impl QuotaTracker {
    #[verifier::type_invariant]
    spec fn consistent(self) -> bool {
        &&& is_quota(self.burst_size, self.period_nanos)
        &&& limiter_burst_size(self.limiter) == self.burst_size
    }

    /// The configured burst size: the most tokens that a bucket holds.
    pub closed spec fn spec_burst_size(self) -> u32 {
        self.burst_size
    }

    /// The configured refill period: the nanoseconds in which one token comes
    /// back.
    pub closed spec fn spec_period_nanos(self) -> u64 {
        self.period_nanos
    }

    /// A tracker with no key seen yet, or `None` where the two numbers make
    /// no quota.
    pub fn new(burst_size: u32, period_nanos: u64) -> (tracker: Option<QuotaTracker>)
        ensures
            tracker is Some <==> is_quota(burst_size, period_nanos),
            tracker is Some ==> tracker->0.spec_burst_size() == burst_size
                && tracker->0.spec_period_nanos() == period_nanos,
    {
        if burst_size == 0 || period_nanos == 0 {
            return None;
        }
        assert(burst_size * period_nanos <= 0xffff_ffff * 0xffff_ffff_ffff_ffff) by (nonlinear_arith)
            requires
                burst_size <= 0xffff_ffff,
                period_nanos <= 0xffff_ffff_ffff_ffff,
        ;
        let window: u128 = (burst_size as u128) * (period_nanos as u128);
        if window > MAX_WINDOW_NANOS as u128 {
            return None;
        }
        Some(QuotaTracker { limiter: new_limiter(burst_size, period_nanos), burst_size, period_nanos })
    }

    /// The configured burst size.
    pub fn burst_size(&self) -> (burst_size: u32)
        ensures
            burst_size == self.spec_burst_size(),
            1 <= burst_size,
    {
        proof {
            use_type_invariant(self);
        }
        self.burst_size
    }

    /// The configured refill period in nanoseconds.
    pub fn period_nanos(&self) -> (period_nanos: u64)
        ensures
            period_nanos == self.spec_period_nanos(),
            is_quota(self.spec_burst_size(), period_nanos),
    {
        proof {
            use_type_invariant(self);
        }
        self.period_nanos
    }

    /// Consumes one token for `key` if one is available. Whether one is
    /// depends on the clock and on the requests seen before, so the outcome
    /// is not fixed by the arguments; whatever it is, it is well formed and
    /// carries the configured burst size.
    pub fn decide(&self, key: &Vec<u8>) -> (decision: Decision)
        ensures
            decision.well_formed(),
            decision.burst_size() == self.spec_burst_size(),
    {
        proof {
            use_type_invariant(self);
        }
        check_key(&self.limiter, key)
    }
}

} // verus!
