use chrono::DateTime;
use llm_cache_proxy::admin::{
    clear_report, health_check, health_report, state_text, stats_report, ClearReport, Services,
};
use llm_cache_proxy::client::{
    bearer_authorization, completions_url, status_is_success, UPSTREAM_TIMEOUT_SECONDS,
};
use llm_cache_proxy::metrics::{Metrics, MetricsSnapshot};
use llm_cache_proxy::pricing::{
    calculate_cost, cost_at, cost_report, get_listed_pricing, get_groq_model_pricing,
    supported_models, ModelPricing, DEFAULT_MODEL, PICODOLLARS_PER_DOLLAR,
};
use llm_cache_proxy::semantic::{
    cached_response, new_point, point_payload, point_with_id, Embedding, FoundPoint,
    PayloadValue, COLLECTION_NAME, EMBEDDING_DIMENSION,
};
use uuid::{Uuid, Version};

#[test]
fn health_aggregation() {
    let services = Services { redis: false, qdrant: true, embeddings: true };
    let report = health_report(services, "2024-01-01T00:00:00+00:00".to_string());
    assert!(!report.healthy);
    assert_eq!(report.status(), 503);
    assert_eq!(report.status_text(), "unhealthy");
    assert_eq!(state_text(report.services.redis), "down");
    assert_eq!(state_text(report.services.qdrant), "up");
    assert_eq!(state_text(report.services.embeddings), "up");
    assert_eq!(report.timestamp, "2024-01-01T00:00:00+00:00");
}

#[test]
fn healthy_only_when_all_three_are_up() {
    for redis in [false, true] {
        for qdrant in [false, true] {
            for embeddings in [false, true] {
                let report =
                    health_report(Services { redis, qdrant, embeddings }, String::new());
                let all = redis && qdrant && embeddings;
                assert_eq!(report.healthy, all);
                assert_eq!(report.status(), if all { 200 } else { 503 });
                assert_eq!(report.status_text(), if all { "healthy" } else { "unhealthy" });
            }
        }
    }
}

#[test]
fn stats_carry_counters_and_services() {
    let mut m = Metrics::new();
    m.record_exact_hit();
    m.record_miss(10);
    m.record_miss(10);
    let services = Services { redis: true, qdrant: false, embeddings: true };
    let report = stats_report(m.snapshot(), services);
    assert_eq!(report.counters, m.snapshot());
    assert_eq!(report.hit_rate_basis_points, 3333);
    assert_eq!(report.services, services);
}

#[test]
fn clear_reports_success_and_failure() {
    assert_eq!(
        clear_report(Ok(())),
        ClearReport { status: 200, cleared: true, message: "Redis cache cleared".to_string() }
    );
    assert_eq!(
        clear_report(Err("connection refused".to_string())),
        ClearReport {
            status: 500,
            cleared: false,
            message: "Failed to flush Redis: connection refused".to_string()
        }
    );
}

#[test]
fn price_list() {
    let expected = [
        ("llama-3.3-70b-versatile", 590, 790),
        ("llama-3.1-8b-instant", 50, 80),
        ("llama-4-scout", 110, 340),
        ("llama-4-maverick", 200, 600),
        ("qwen3-32b", 290, 590),
        ("kimi-k2-0905-1t", 1000, 3000),
        ("gpt-oss-20b", 75, 300),
        ("gpt-oss-safeguard-20b", 75, 300),
        ("gpt-oss-120b", 150, 600),
    ];
    let models = supported_models();
    assert_eq!(models.len(), expected.len());
    for (i, (model, input, output)) in expected.iter().enumerate() {
        assert_eq!(&models[i], model);
        let pricing = ModelPricing { input: *input, output: *output };
        assert_eq!(get_listed_pricing(model), Some(pricing));
        assert_eq!(get_groq_model_pricing(model), (pricing, true));
    }
    assert_eq!(DEFAULT_MODEL, "llama-3.3-70b-versatile");
}

#[test]
fn unknown_model_is_charged_as_the_default() {
    for model in ["gpt-4", "", "LLAMA-3.3-70B-VERSATILE", "llama-4-scout "] {
        assert_eq!(get_listed_pricing(model), None);
        assert_eq!(get_groq_model_pricing(model), (ModelPricing { input: 590, output: 790 }, false));
        assert_eq!(calculate_cost(model, 1000), calculate_cost(DEFAULT_MODEL, 1000));
    }
}

#[test]
fn cost_is_tokens_times_the_mean_price() {
    assert_eq!(calculate_cost("llama-3.3-70b-versatile", 1_000_000), 690_000_000_000);
    assert_eq!(calculate_cost("llama-3.3-70b-versatile", 1_000_000) * 100 / PICODOLLARS_PER_DOLLAR, 69);
    assert_eq!(calculate_cost("gpt-oss-20b", 1), 187_500);
    assert_eq!(calculate_cost("kimi-k2-0905-1t", 5), 10_000_000);
    assert_eq!(calculate_cost("llama-3.1-8b-instant", 0), 0);
    assert_eq!(
        calculate_cost("kimi-k2-0905-1t", u64::MAX),
        (u64::MAX as u128) * 4000 * 500
    );
    assert_eq!(cost_at(ModelPricing { input: 1, output: 2 }, 7), 10_500);
    assert_eq!(
        cost_at(ModelPricing { input: u32::MAX, output: u32::MAX }, u64::MAX),
        (u64::MAX as u128) * 2 * (u32::MAX as u128) * 500
    );
    let dollars = calculate_cost("qwen3-32b", 2_000_000) as f64 / PICODOLLARS_PER_DOLLAR as f64;
    assert!((dollars - 0.88).abs() < 1e-9);
}

#[test]
fn cost_report_of_counters() {
    let s = MetricsSnapshot {
        exact_hits: 2,
        semantic_hits: 1,
        misses: 1,
        total_requests: 4,
        tokens_saved: 3_000_000,
        tokens_used: 1_000_000,
    };
    let r = cost_report(&s);
    assert_eq!(r.pricing, ModelPricing { input: 590, output: 790 });
    assert_eq!(r.total_hits, 3);
    assert_eq!(r.hit_rate_basis_points, 7500);
    assert_eq!(r.tokens_without_cache, 4_000_000);
    assert_eq!(r.cost_saved, 2_070_000_000_000);
    assert_eq!(r.cost_spent, 690_000_000_000);
    assert_eq!(r.cost_without_cache, 2_760_000_000_000);
    assert_eq!(r.savings_basis_points, 7500);
}

#[test]
fn cost_report_of_fresh_counters() {
    let r = cost_report(&Metrics::new().snapshot());
    assert_eq!(r.total_hits, 0);
    assert_eq!(r.hit_rate_basis_points, 0);
    assert_eq!(r.cost_saved + r.cost_spent + r.cost_without_cache, 0);
    assert_eq!(r.savings_basis_points, 0);
}

#[test]
fn cost_report_of_full_counters() {
    let s = MetricsSnapshot {
        exact_hits: 0,
        semantic_hits: u64::MAX,
        misses: 0,
        total_requests: u64::MAX,
        tokens_saved: u64::MAX,
        tokens_used: u64::MAX,
    };
    let r = cost_report(&s);
    assert_eq!(r.cost_saved, r.cost_spent);
    assert_eq!(r.cost_without_cache, 2 * r.cost_saved);
    assert_eq!(r.savings_basis_points, 5000);
    assert_eq!(r.hit_rate_basis_points, 10000);
}

#[test]
fn upstream_call_is_described() {
    assert_eq!(completions_url(), "https://api.groq.com/openai/v1/chat/completions");
    assert_eq!(bearer_authorization("SECRET"), "Bearer SECRET");
    assert_eq!(bearer_authorization(""), "Bearer ");
    assert_eq!(UPSTREAM_TIMEOUT_SECONDS, 60);
}

#[test]
fn only_2xx_is_an_answer() {
    for status in [200u16, 201, 204, 299] {
        assert!(status_is_success(status));
    }
    for status in [0u16, 100, 199, 300, 301, 400, 404, 429, 500, 502, 503, 599, 999] {
        assert!(!status_is_success(status));
    }
}

#[test]
fn semantic_tier_constants() {
    assert_eq!(EMBEDDING_DIMENSION, 384);
    assert_eq!(COLLECTION_NAME, "llm_cache");
}

#[test]
fn payload_holds_key_and_response() {
    assert_eq!(
        point_payload("test_key_1", "Rust is a programming language"),
        vec![
            ("cache_key".to_string(), "test_key_1".to_string()),
            ("response".to_string(), "Rust is a programming language".to_string())
        ]
    );
}

#[test]
fn response_is_read_from_the_nearest_point() {
    let text = |s: &str| FoundPoint { response: Some(PayloadValue::Text(s.to_string())) };
    assert_eq!(cached_response(vec![]), None);
    assert_eq!(
        cached_response(vec![text("Rust is a programming language")]),
        Some("Rust is a programming language".to_string())
    );
    assert_eq!(cached_response(vec![text("near"), text("far")]), Some("near".to_string()));
    assert_eq!(cached_response(vec![FoundPoint { response: None }, text("far")]), None);
    assert_eq!(
        cached_response(vec![FoundPoint { response: Some(PayloadValue::Other) }, text("far")]),
        None
    );
}

#[test]
fn health_check_stamps_the_report_with_the_time() {
    let services = Services { redis: true, qdrant: true, embeddings: true };
    let report = health_check(services);
    assert!(report.healthy);
    assert_eq!(report.status(), 200);
    assert_eq!(report.services, services);
    let stamp = DateTime::parse_from_rfc3339(&report.timestamp).expect("an RFC 3339 text");
    assert_eq!(stamp.offset().local_minus_utc(), 0);
    assert!(stamp.timestamp() > 1_500_000_000);
    let down = health_check(Services { redis: false, qdrant: true, embeddings: true });
    assert_eq!(down.status(), 503);
}

#[test]
fn point_carries_embedding_and_payload() {
    let embedding = Embedding::from_components((0..384).collect()).unwrap();
    let point = point_with_id("id-1".to_string(), "key", embedding.clone(), "answer");
    assert_eq!(point.id, "id-1");
    assert_eq!(point.embedding, embedding);
    assert_eq!(
        point.payload,
        vec![
            ("cache_key".to_string(), "key".to_string()),
            ("response".to_string(), "answer".to_string())
        ]
    );
}

#[test]
fn new_points_have_fresh_random_identifiers() {
    let embedding = Embedding::from_components(vec![7; 384]).unwrap();
    let a = new_point("key", embedding.clone(), "answer");
    let b = new_point("key", embedding.clone(), "answer");
    assert_ne!(a.id, b.id);
    assert_eq!(a.embedding, embedding);
    assert_eq!(a.payload, b.payload);
    assert_eq!(a.payload, point_payload("key", "answer"));
    for id in [&a.id, &b.id] {
        let parsed = Uuid::parse_str(id).expect("a UUID");
        assert_eq!(parsed.get_version(), Some(Version::Random));
        assert_eq!(id.len(), 36);
    }
}
