use llm_cache_proxy::metrics::{Metrics, MetricsSnapshot, RecordCall};

fn balanced(s: &MetricsSnapshot) -> bool {
    s.total_requests == s.exact_hits + s.semantic_hits + s.misses
}

#[test]
fn new_counters_are_zero() {
    let m = Metrics::new();
    let s = m.snapshot();
    assert_eq!(
        s,
        MetricsSnapshot {
            exact_hits: 0,
            semantic_hits: 0,
            misses: 0,
            total_requests: 0,
            tokens_saved: 0,
            tokens_used: 0
        }
    );
    assert_eq!(Metrics::default().snapshot(), s);
}

#[test]
fn exact_hit_moves_two_counters() {
    let mut m = Metrics::new();
    m.record_exact_hit();
    let s = m.snapshot();
    assert_eq!(s.exact_hits, 1);
    assert_eq!(s.total_requests, 1);
    assert_eq!(s.semantic_hits + s.misses + s.tokens_saved + s.tokens_used, 0);
}

#[test]
fn semantic_hit_saves_tokens() {
    let mut m = Metrics::new();
    m.record_semantic_hit(5);
    m.record_semantic_hit(7);
    let s = m.snapshot();
    assert_eq!(s.semantic_hits, 2);
    assert_eq!(s.total_requests, 2);
    assert_eq!(s.tokens_saved, 12);
    assert_eq!(s.tokens_used, 0);
    assert_eq!(s.exact_hits + s.misses, 0);
}

#[test]
fn miss_uses_tokens() {
    let mut m = Metrics::new();
    m.record_miss(5);
    let s = m.snapshot();
    assert_eq!(s.misses, 1);
    assert_eq!(s.total_requests, 1);
    assert_eq!(s.tokens_used, 5);
    assert_eq!(s.tokens_saved, 0);
}

#[test]
fn total_is_the_sum_after_interleaved_calls() {
    let mut m = Metrics::new();
    let mut previous = m.snapshot();
    for i in 0..1000u64 {
        match (i * 7 + i / 3) % 3 {
            0 => m.record_exact_hit(),
            1 => m.record_semantic_hit(i),
            _ => m.record_miss(2 * i),
        }
        let s = m.snapshot();
        assert!(balanced(&s));
        assert_eq!(s.total_requests, i + 1);
        assert!(s.exact_hits >= previous.exact_hits);
        assert!(s.semantic_hits >= previous.semantic_hits);
        assert!(s.misses >= previous.misses);
        assert!(s.total_requests > previous.total_requests);
        assert!(s.tokens_saved >= previous.tokens_saved);
        assert!(s.tokens_used >= previous.tokens_used);
        previous = s;
    }
}

#[test]
fn record_by_value_is_the_same_call() {
    let mut a = Metrics::new();
    let mut b = Metrics::new();
    a.record(&RecordCall::ExactHit);
    a.record(&RecordCall::SemanticHit(3));
    a.record(&RecordCall::Miss(4));
    b.record_exact_hit();
    b.record_semantic_hit(3);
    b.record_miss(4);
    assert_eq!(a.snapshot(), b.snapshot());
}

#[test]
fn counters_wrap_around() {
    let mut m = Metrics::new();
    m.tokens_saved = u64::MAX;
    m.record_semantic_hit(2);
    assert_eq!(m.snapshot().tokens_saved, 1);
    let mut m = Metrics::new();
    m.total_requests = u64::MAX;
    m.misses = u64::MAX;
    m.record_miss(0);
    let s = m.snapshot();
    assert_eq!(s.total_requests, 0);
    assert_eq!(s.misses, 0);
}

#[test]
fn hit_rate_is_zero_before_the_first_request() {
    let s = Metrics::new().snapshot();
    assert_eq!(s.hit_rate_basis_points(), 0);
    assert_eq!(s.total_hits(), 0);
}

#[test]
fn hit_rate_in_basis_points() {
    let mut m = Metrics::new();
    m.record_exact_hit();
    m.record_semantic_hit(10);
    m.record_miss(10);
    m.record_miss(10);
    let s = m.snapshot();
    assert_eq!(s.total_hits(), 2);
    assert_eq!(s.hit_rate_basis_points(), 5000);
    m.record_miss(1);
    m.record_miss(1);
    assert_eq!(m.snapshot().hit_rate_basis_points(), 3333);
    let all = MetricsSnapshot {
        exact_hits: 3,
        semantic_hits: 0,
        misses: 0,
        total_requests: 3,
        tokens_saved: 0,
        tokens_used: 0,
    };
    assert_eq!(all.hit_rate_basis_points(), 10000);
}

#[test]
fn tokens_without_cache_adds_both() {
    let s = MetricsSnapshot {
        exact_hits: 0,
        semantic_hits: 1,
        misses: 1,
        total_requests: 2,
        tokens_saved: u64::MAX,
        tokens_used: u64::MAX,
    };
    assert_eq!(s.tokens_without_cache(), 2 * (u64::MAX as u128));
}
