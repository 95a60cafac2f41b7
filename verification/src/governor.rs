//! The admission middleware: method filter, key extraction and quota
//! decision, in that order.

use crate::future::{Kind, KindView, ResponseFuture};
use crate::key_extractor::{KeyExtractor, Request, RequestView};
use crate::method::{configured_names, is_limited, passes, Method};
use crate::quota::{is_quota, Decision, QuotaTracker};
use crate::response::{extraction_failure, fail_extraction, reject, rejection, Middleware};
use std::sync::Arc;
use vstd::prelude::*;

verus! {

/// The configuration of the middleware, made once and shared by every
/// request: the key extractor, the quota tracker with its burst size and
/// refill period, the method allow-list, and whether quota state is reported.
pub struct GovernorConfig<K: KeyExtractor> {
    pub key_extractor: K,
    pub tracker: QuotaTracker,
    pub methods: Option<Vec<Method>>,
    pub middleware: Middleware,
}

impl<K: KeyExtractor> GovernorConfig<K> {
    /// A configuration with a fresh tracker, or `None` where burst size and
    /// refill period make no quota.
    pub fn new(
        key_extractor: K,
        burst_size: u32,
        period_nanos: u64,
        methods: Option<Vec<Method>>,
        middleware: Middleware,
    ) -> (config: Option<GovernorConfig<K>>)
        ensures
            config is Some <==> is_quota(burst_size, period_nanos),
            config is Some ==> {
                &&& config->0.key_extractor == key_extractor
                &&& config->0.tracker.spec_burst_size() == burst_size
                &&& config->0.tracker.spec_period_nanos() == period_nanos
                &&& config->0.methods == methods
                &&& config->0.middleware == middleware
            },
    {
        match QuotaTracker::new(burst_size, period_nanos) {
            Some(tracker) => Some(GovernorConfig { key_extractor, tracker, methods, middleware }),
            None => None,
        }
    }

    /// Whether a request with this method is subject to limiting.
    pub open spec fn limits(self, method: Seq<char>) -> bool {
        is_limited(method, configured_names(self.methods))
    }
}

/// The completion of a request that bypasses limiting.
pub open spec fn bypass(middleware: Middleware) -> KindView {
    match middleware {
        Middleware::NoOp => KindView::Passthrough,
        Middleware::StateInformation => KindView::WhitelistedHeader,
    }
}

/// The completion of a request for which the tracker has decided.
pub open spec fn decided(middleware: Middleware, decision: Decision) -> KindView {
    match decision {
        Decision::Admit { burst_size, remaining } => match middleware {
            Middleware::NoOp => KindView::Passthrough,
            Middleware::StateInformation => KindView::RateLimitHeader {
                burst_size,
                remaining_burst_capacity: remaining,
            },
        },
        Decision::Deny { retry_after, burst_size } => KindView::Error {
            error_response: Some(rejection(middleware, retry_after, burst_size)),
        },
    }
}

/// The completion of a request from which no key could be extracted.
pub open spec fn failed(reason: Seq<char>) -> KindView {
    KindView::Error { error_response: Some(extraction_failure(reason)) }
}

/// The completion of a request that bypasses limiting: the handler's
/// response is returned, marked where quota state is reported.
pub fn whitelist(middleware: Middleware) -> (future: ResponseFuture)
    ensures
        future@ == bypass(middleware),
{
    match middleware {
        Middleware::NoOp => ResponseFuture { inner: Kind::Passthrough },
        Middleware::StateInformation => ResponseFuture { inner: Kind::WhitelistedHeader },
    }
}

/// The completion of a request for which the tracker has decided: an
/// admitted request is forwarded, with the quota state of that moment where
/// it is reported; a denied one is answered with the rejection.
pub fn settle(middleware: Middleware, decision: Decision) -> (future: ResponseFuture)
    ensures
        future@ == decided(middleware, decision),
{
    match decision {
        Decision::Admit { burst_size, remaining } => match middleware {
            Middleware::NoOp => ResponseFuture { inner: Kind::Passthrough },
            Middleware::StateInformation => ResponseFuture {
                inner: Kind::RateLimitHeader { burst_size, remaining_burst_capacity: remaining },
            },
        },
        Decision::Deny { retry_after, burst_size } => ResponseFuture {
            inner: Kind::Error { error_response: Some(reject(middleware, retry_after, burst_size)) },
        },
    }
}

/// The middleware in front of one downstream handler.
pub struct Governor<K: KeyExtractor> {
    pub config: Arc<GovernorConfig<K>>,
}

impl<K: KeyExtractor> Governor<K> {
    /// The middleware under a configuration.
    pub fn new(config: &Arc<GovernorConfig<K>>) -> (governor: Governor<K>)
        ensures
            governor.config == *config,
    {
        Governor { config: share(config) }
    }

    /// Decides what becomes of a request.
    ///
    /// A request whose method is not limited bypasses the tracker. Else the
    /// key is extracted; a request without a key is answered with the
    /// extraction error and never reaches the tracker or the handler. Else
    /// the tracker decides, once, and the completion is the one that
    /// `settle` gives for its decision.
    pub fn call(&self, request: &Request<'_>) -> (future: ResponseFuture)
        ensures
            !self.config.limits(request@.method) ==> future@ == bypass(self.config.middleware),
            self.config.limits(request@.method) ==> match self.config.key_extractor.key_of(
                request@,
            ) {
                Err(reason) => future@ == failed(reason),
                Ok(key) => exists|decision: Decision|
                    {
                        &&& decision.well_formed()
                        &&& decision.burst_size() == self.config.tracker.spec_burst_size()
                        &&& future@ == #[trigger] decided(self.config.middleware, decision)
                    },
            },
    {
        if !passes(request.method, &self.config.methods) {
            return whitelist(self.config.middleware);
        }
        match self.config.key_extractor.extract(request) {
            Ok(key) => {
                let decision = self.config.tracker.decide(&key);
                settle(self.config.middleware, decision)
            },
            Err(error) => ResponseFuture {
                inner: Kind::Error { error_response: Some(fail_extraction(&error)) },
            },
        }
    }
}

/// `Arc::clone`: another handle to the same value.
#[verifier::external_body]
fn share<T>(handle: &Arc<T>) -> (shared: Arc<T>)
    ensures
        shared == *handle,
{
    Arc::clone(handle)
}

/// The layer that puts a `Governor` in front of a handler.
pub struct GovernorLayer<K: KeyExtractor> {
    pub config: Arc<GovernorConfig<K>>,
}

impl<K: KeyExtractor> GovernorLayer<K> {
    /// The middleware under the layer's configuration.
    pub fn layer(&self) -> (governor: Governor<K>)
        ensures
            governor.config == self.config,
    {
        Governor::new(&self.config)
    }
}

impl<K: KeyExtractor> Clone for GovernorLayer<K> {
    fn clone(&self) -> (copy: GovernorLayer<K>)
        ensures
            copy.config == self.config,
    {
        GovernorLayer { config: share(&self.config) }
    }
}

} // verus!
