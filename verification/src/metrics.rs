//! Request counters: exact hits, semantic hits, misses, and the tokens they saved or cost.
//!
//! Each request ends in exactly one of three record calls, and each call moves its
//! counters together. Counters are 64 bits wide and wrap around when they pass
//! `u64::MAX`; until then the total is the sum of the three outcomes and no
//! counter ever goes down.

use vstd::prelude::*;

verus! {

/// The number of values a counter can take.
pub open spec fn counter_range() -> int {
    0x1_0000_0000_0000_0000
}

/// A counter after `amount` was added to it, wrapping around past `u64::MAX`.
pub open spec fn advanced(counter: u64, amount: u64) -> u64 {
    if counter + amount > u64::MAX {
        (counter + amount - counter_range()) as u64
    } else {
        (counter + amount) as u64
    }
}

/// The six counters read at one moment.
#[derive(Debug, Clone, Copy, PartialEq, Eq, Structural)]
pub struct MetricsSnapshot {
    pub exact_hits: u64,
    pub semantic_hits: u64,
    pub misses: u64,
    pub total_requests: u64,
    pub tokens_saved: u64,
    pub tokens_used: u64,
}

/// One of the three ways a request is accounted for.
#[derive(Debug, Clone, Copy, PartialEq, Eq, Structural)]
pub enum RecordCall {
    /// Served from the exact tier.
    ExactHit,
    /// Served from the semantic tier; the argument is the number of tokens saved.
    SemanticHit(u64),
    /// Served by the provider; the argument is the number of tokens used.
    Miss(u64),
}

impl MetricsSnapshot {
    /// All counters at zero.
    pub open spec fn zero() -> Self {
        MetricsSnapshot {
            exact_hits: 0,
            semantic_hits: 0,
            misses: 0,
            total_requests: 0,
            tokens_saved: 0,
            tokens_used: 0,
        }
    }

    /// The counters after one more exact hit.
    pub open spec fn with_exact_hit(self) -> Self {
        MetricsSnapshot {
            exact_hits: advanced(self.exact_hits, 1),
            total_requests: advanced(self.total_requests, 1),
            ..self
        }
    }

    /// The counters after one more semantic hit that saved `tokens` tokens.
    pub open spec fn with_semantic_hit(self, tokens: u64) -> Self {
        MetricsSnapshot {
            semantic_hits: advanced(self.semantic_hits, 1),
            total_requests: advanced(self.total_requests, 1),
            tokens_saved: advanced(self.tokens_saved, tokens),
            ..self
        }
    }

    /// The counters after one more miss that used `tokens` tokens.
    pub open spec fn with_miss(self, tokens: u64) -> Self {
        MetricsSnapshot {
            misses: advanced(self.misses, 1),
            total_requests: advanced(self.total_requests, 1),
            tokens_used: advanced(self.tokens_used, tokens),
            ..self
        }
    }

    /// The counters after one record call.
    pub open spec fn with_call(self, call: RecordCall) -> Self {
        match call {
            RecordCall::ExactHit => self.with_exact_hit(),
            RecordCall::SemanticHit(tokens) => self.with_semantic_hit(tokens),
            RecordCall::Miss(tokens) => self.with_miss(tokens),
        }
    }

    /// The counters after a series of record calls, first call first.
    pub open spec fn with_calls(self, calls: Seq<RecordCall>) -> Self
        decreases calls.len(),
    {
        if calls.len() == 0 {
            self
        } else {
            self.with_calls(calls.drop_last()).with_call(calls.last())
        }
    }

    /// The total agrees with the three outcomes, up to the wrap-around of the counters.
    pub open spec fn balanced(self) -> bool {
        self.total_requests as int == (self.exact_hits + self.semantic_hits + self.misses)
            % counter_range()
    }

    /// The total is the sum of the three outcomes.
    pub open spec fn exact_balance(self) -> bool {
        self.total_requests == self.exact_hits + self.semantic_hits + self.misses
    }

    /// No counter of `self` is below the same counter of `earlier`.
    pub open spec fn not_below(self, earlier: Self) -> bool {
        &&& self.exact_hits >= earlier.exact_hits
        &&& self.semantic_hits >= earlier.semantic_hits
        &&& self.misses >= earlier.misses
        &&& self.total_requests >= earlier.total_requests
        &&& self.tokens_saved >= earlier.tokens_saved
        &&& self.tokens_used >= earlier.tokens_used
    }

    /// True when `call` would carry one of the counters it moves past `u64::MAX`.
    pub open spec fn wraps_on(self, call: RecordCall) -> bool {
        ||| self.total_requests == u64::MAX
        ||| match call {
            RecordCall::ExactHit => self.exact_hits == u64::MAX,
            RecordCall::SemanticHit(tokens) => self.semantic_hits == u64::MAX || self.tokens_saved
                + tokens > u64::MAX,
            RecordCall::Miss(tokens) => self.misses == u64::MAX || self.tokens_used + tokens
                > u64::MAX,
        }
    }

    /// Hits of both tiers together.
    pub open spec fn hits(self) -> int {
        self.exact_hits + self.semantic_hits
    }

    /// The share of requests served from cache, in hundredths of a percent, rounded down;
    /// 0 when no request was counted.
    pub open spec fn hit_rate(self) -> int {
        if self.total_requests == 0 {
            0
        } else {
            self.hits() * 10000 / (self.total_requests as int)
        }
    }

    /// The number of requests served from either cache tier.
    pub fn total_hits(&self) -> (hits: u128)
        ensures
            hits == self.hits(),
    {
        self.exact_hits as u128 + self.semantic_hits as u128
    }

    /// The tokens that would have been used without any cache.
    pub fn tokens_without_cache(&self) -> (tokens: u128)
        ensures
            tokens == self.tokens_saved + self.tokens_used,
    {
        self.tokens_saved as u128 + self.tokens_used as u128
    }

    /// The cache hit rate in basis points: `hits / total_requests * 100`, in hundredths
    /// of a percent and rounded down, or 0 before the first request.
    pub fn hit_rate_basis_points(&self) -> (rate: u128)
        ensures
            rate == self.hit_rate(),
            self.exact_balance() ==> rate <= 10000,
    {
        if self.total_requests == 0 {
            return 0;
        }
        let hits: u128 = self.total_hits();
        let rate: u128 = hits * 10000 / (self.total_requests as u128);
        proof {
            if self.exact_balance() {
                let t = self.total_requests as int;
                assert(hits as int * 10000 <= t * 10000);
                assert(t * 10000 / t == 10000) by (nonlinear_arith)
                    requires
                        t > 0,
                ;
                assert(hits as int * 10000 / t <= t * 10000 / t) by (nonlinear_arith)
                    requires
                        hits as int * 10000 <= t * 10000,
                        t > 0,
                ;
            }
        }
        rate
    }
}

/// The counters of one proxy.
#[derive(Debug, PartialEq, Eq)]
pub struct Metrics {
    pub exact_hits: u64,
    pub semantic_hits: u64,
    pub misses: u64,
    pub total_requests: u64,
    pub tokens_saved: u64,
    pub tokens_used: u64,
}

impl View for Metrics {
    type V = MetricsSnapshot;

    open spec fn view(&self) -> MetricsSnapshot {
        MetricsSnapshot {
            exact_hits: self.exact_hits,
            semantic_hits: self.semantic_hits,
            misses: self.misses,
            total_requests: self.total_requests,
            tokens_saved: self.tokens_saved,
            tokens_used: self.tokens_used,
        }
    }
}

impl Default for Metrics {
    fn default() -> (metrics: Self)
        ensures
            metrics@ == MetricsSnapshot::zero(),
    {
        Metrics {
            exact_hits: 0,
            semantic_hits: 0,
            misses: 0,
            total_requests: 0,
            tokens_saved: 0,
            tokens_used: 0,
        }
    }
}

impl Metrics {
    /// Counters that have seen no request.
    pub fn new() -> (metrics: Self)
        ensures
            metrics@ == MetricsSnapshot::zero(),
            metrics@.exact_balance(),
    {
        Metrics {
            exact_hits: 0,
            semantic_hits: 0,
            misses: 0,
            total_requests: 0,
            tokens_saved: 0,
            tokens_used: 0,
        }
    }

    /// Counts a request served from the exact tier.
    pub fn record_exact_hit(&mut self)
        ensures
            final(self)@ == old(self)@.with_exact_hit(),
            old(self)@.balanced() ==> final(self)@.balanced(),
            !old(self)@.wraps_on(RecordCall::ExactHit) ==> final(self)@.not_below(old(self)@),
    {
        proof {
            if self@.balanced() {
                law_call_keeps_balance(self@, RecordCall::ExactHit);
            }
            if !self@.wraps_on(RecordCall::ExactHit) {
                law_counters_never_decrease(self@, RecordCall::ExactHit);
            }
        }
        self.exact_hits = self.exact_hits.wrapping_add(1);
        self.total_requests = self.total_requests.wrapping_add(1);
    }

    /// Counts a request served from the semantic tier, which saved `tokens_saved` tokens.
    pub fn record_semantic_hit(&mut self, tokens_saved: u64)
        ensures
            final(self)@ == old(self)@.with_semantic_hit(tokens_saved),
            old(self)@.balanced() ==> final(self)@.balanced(),
            !old(self)@.wraps_on(RecordCall::SemanticHit(tokens_saved)) ==> final(self)@.not_below(
                old(self)@,
            ),
    {
        proof {
            if self@.balanced() {
                law_call_keeps_balance(self@, RecordCall::SemanticHit(tokens_saved));
            }
            if !self@.wraps_on(RecordCall::SemanticHit(tokens_saved)) {
                law_counters_never_decrease(self@, RecordCall::SemanticHit(tokens_saved));
            }
        }
        self.semantic_hits = self.semantic_hits.wrapping_add(1);
        self.total_requests = self.total_requests.wrapping_add(1);
        self.tokens_saved = self.tokens_saved.wrapping_add(tokens_saved);
    }

    /// Counts a request served by the provider, which used `tokens_used` tokens.
    pub fn record_miss(&mut self, tokens_used: u64)
        ensures
            final(self)@ == old(self)@.with_miss(tokens_used),
            old(self)@.balanced() ==> final(self)@.balanced(),
            !old(self)@.wraps_on(RecordCall::Miss(tokens_used)) ==> final(self)@.not_below(
                old(self)@,
            ),
    {
        proof {
            if self@.balanced() {
                law_call_keeps_balance(self@, RecordCall::Miss(tokens_used));
            }
            if !self@.wraps_on(RecordCall::Miss(tokens_used)) {
                law_counters_never_decrease(self@, RecordCall::Miss(tokens_used));
            }
        }
        self.misses = self.misses.wrapping_add(1);
        self.total_requests = self.total_requests.wrapping_add(1);
        self.tokens_used = self.tokens_used.wrapping_add(tokens_used);
    }

    /// Applies one record call given as a value.
    pub fn record(&mut self, call: &RecordCall)
        ensures
            final(self)@ == old(self)@.with_call(*call),
    {
        match call {
            RecordCall::ExactHit => self.record_exact_hit(),
            RecordCall::SemanticHit(tokens) => self.record_semantic_hit(*tokens),
            RecordCall::Miss(tokens) => self.record_miss(*tokens),
        }
    }

    /// Reads all six counters.
    pub fn snapshot(&self) -> (snapshot: MetricsSnapshot)
        ensures
            snapshot == self@,
    {
        MetricsSnapshot {
            exact_hits: self.exact_hits,
            semantic_hits: self.semantic_hits,
            misses: self.misses,
            total_requests: self.total_requests,
            tokens_saved: self.tokens_saved,
            tokens_used: self.tokens_used,
        }
    }
}

/// A record call keeps the total in step with the three outcomes, wrap-around included.
pub proof fn law_call_keeps_balance(before: MetricsSnapshot, call: RecordCall)
    requires
        before.balanced(),
    ensures
        before.with_call(call).balanced(),
{
    let after = before.with_call(call);
    let r = counter_range();
    let s = before.exact_hits + before.semantic_hits + before.misses;
    let s2 = after.exact_hits + after.semantic_hits + after.misses;
    assert(s2 == s + 1 || s2 == s + 1 - r);
    assert(after.total_requests == before.total_requests + 1 || after.total_requests
        == before.total_requests + 1 - r);
    assert((s + 1) % r == (s % r + 1) % r) by (nonlinear_arith)
        requires
            r > 0,
    ;
    assert((s + 1 - r) % r == (s + 1) % r) by (nonlinear_arith)
        requires
            r > 0,
    ;
    let t = before.total_requests as int;
    assert((t + 1) % r == after.total_requests as int) by {
        if t + 1 == r {
            assert(r % r == 0) by (nonlinear_arith)
                requires
                    r > 0,
            ;
        } else {
            assert((t + 1) % r == t + 1) by (nonlinear_arith)
                requires
                    0 <= t + 1 < r,
            ;
        }
    }
}

/// A record call that carries no counter past `u64::MAX` lowers none.
pub proof fn law_counters_never_decrease(before: MetricsSnapshot, call: RecordCall)
    requires
        !before.wraps_on(call),
    ensures
        before.with_call(call).not_below(before),
{
}

/// After any series of record calls on fresh counters, the total agrees with the three
/// outcomes up to wrap-around; and while fewer than 2^64 calls were made, the total is
/// their exact sum and is the number of calls.
pub proof fn law_total_is_sum_of_outcomes(calls: Seq<RecordCall>)
    ensures
        MetricsSnapshot::zero().with_calls(calls).balanced(),
        calls.len() <= u64::MAX ==> MetricsSnapshot::zero().with_calls(calls).exact_balance(),
        calls.len() <= u64::MAX ==> MetricsSnapshot::zero().with_calls(calls).total_requests
            == calls.len(),
    decreases calls.len(),
{
    let zero = MetricsSnapshot::zero();
    if calls.len() == 0 {
        assert(0int % counter_range() == 0) by (nonlinear_arith);
    } else {
        law_total_is_sum_of_outcomes(calls.drop_last());
        law_call_keeps_balance(zero.with_calls(calls.drop_last()), calls.last());
    }
}

/// Along a series of record calls in which no counter wraps around, every counter
/// is at least what it was at any earlier point.
pub proof fn law_counters_monotone(start: MetricsSnapshot, calls: Seq<RecordCall>, k: int)
    requires
        0 <= k <= calls.len(),
        forall|i: int|
            0 <= i < calls.len() ==> !(#[trigger] start.with_calls(calls.take(i))).wraps_on(
                calls[i],
            ),
    ensures
        start.with_calls(calls).not_below(start.with_calls(calls.take(k))),
    decreases calls.len() - k,
{
    if k == calls.len() {
        assert(calls.take(k) == calls);
    } else {
        law_counters_monotone(start, calls, k + 1);
        let upto = calls.take(k + 1);
        assert(upto.drop_last() == calls.take(k));
        assert(upto.last() == calls[k]);
        assert(!start.with_calls(calls.take(k)).wraps_on(calls[k]));
    }
}

} // verus!
