use llm_cache_proxy::binary32::is_greater;
use llm_cache_proxy::models::Temperature;
use llm_cache_proxy::options::{
    choose_ttl, RequestOptions, BYPASS_HEADER, CREATIVE_THRESHOLD_BITS, TTL_HEADER,
};
use llm_cache_proxy::semantic::SIMILARITY_THRESHOLD_BITS;

fn temp(t: f32) -> Option<Temperature> {
    Some(Temperature::new(t.to_bits(), t.to_string()))
}

#[test]
fn header_names() {
    assert_eq!(BYPASS_HEADER, "x-bypass-cache");
    assert_eq!(TTL_HEADER, "x-cache-ttl");
}

#[test]
fn thresholds_are_the_numbers_they_stand_for() {
    assert_eq!(f32::from_bits(CREATIVE_THRESHOLD_BITS), 0.7f32);
    assert_eq!(f32::from_bits(SIMILARITY_THRESHOLD_BITS), 0.90f32);
}

#[test]
fn no_headers_no_options() {
    let o = RequestOptions::from_headers(None, None);
    assert_eq!(o, RequestOptions { bypass_cache: false, custom_ttl: None });
    assert_eq!(o, RequestOptions::none());
}

#[test]
fn bypass_is_true_in_any_letter_case() {
    for v in ["true", "TRUE", "True", "tRuE"] {
        assert!(RequestOptions::from_headers(Some(v), None).bypass_cache, "{}", v);
    }
    for v in ["", "1", "yes", "false", " true", "true ", "truee"] {
        assert!(!RequestOptions::from_headers(Some(v), None).bypass_cache, "{:?}", v);
    }
}

#[test]
fn ttl_header_is_read_as_a_number() {
    assert_eq!(RequestOptions::from_headers(None, Some("42")).custom_ttl, Some(42));
    assert_eq!(RequestOptions::from_headers(None, Some("0")).custom_ttl, Some(0));
    assert_eq!(RequestOptions::from_headers(None, Some("+10")).custom_ttl, Some(10));
    assert_eq!(RequestOptions::from_headers(None, Some("-1")).custom_ttl, None);
    assert_eq!(RequestOptions::from_headers(None, Some("1h")).custom_ttl, None);
    assert_eq!(RequestOptions::from_headers(None, Some("")).custom_ttl, None);
    assert_eq!(RequestOptions::from_headers(None, Some(" 42")).custom_ttl, None);
}

#[test]
fn custom_ttl_wins_whatever_the_temperature() {
    assert_eq!(choose_ttl(Some(42), &None), 42);
    assert_eq!(choose_ttl(Some(42), &temp(0.0)), 42);
    assert_eq!(choose_ttl(Some(42), &temp(0.9)), 42);
    assert_eq!(choose_ttl(Some(42), &temp(2.0)), 42);
    assert_eq!(choose_ttl(Some(0), &temp(2.0)), 0);
}

#[test]
fn creative_requests_live_an_hour() {
    assert_eq!(choose_ttl(None, &temp(0.71)), 3600);
    assert_eq!(choose_ttl(None, &temp(0.70000005)), 3600);
    assert_eq!(choose_ttl(None, &temp(1.0)), 3600);
    assert_eq!(choose_ttl(None, &temp(2.0)), 3600);
    assert_eq!(choose_ttl(None, &temp(f32::INFINITY)), 3600);
}

#[test]
fn other_requests_live_a_day() {
    assert_eq!(choose_ttl(None, &None), 86400);
    assert_eq!(choose_ttl(None, &temp(0.7)), 86400);
    assert_eq!(choose_ttl(None, &temp(0.0)), 86400);
    assert_eq!(choose_ttl(None, &temp(-0.0)), 86400);
    assert_eq!(choose_ttl(None, &temp(-1.0)), 86400);
    assert_eq!(choose_ttl(None, &temp(0.69999)), 86400);
    assert_eq!(choose_ttl(None, &temp(f32::NAN)), 86400);
    assert_eq!(choose_ttl(None, &temp(f32::NEG_INFINITY)), 86400);
}

#[test]
fn order_of_bit_patterns_is_the_order_of_the_numbers() {
    let values = [
        0.0f32,
        -0.0,
        0.7,
        0.70000005,
        0.69999995,
        0.9,
        1.0,
        -1.0,
        -0.7,
        1e-40,
        -1e-40,
        f32::MIN_POSITIVE,
        f32::MAX,
        f32::MIN,
        f32::INFINITY,
        f32::NEG_INFINITY,
        f32::NAN,
        -f32::NAN,
        f32::EPSILON,
        123456.79,
    ];
    for a in values {
        for b in values {
            assert_eq!(is_greater(a.to_bits(), b.to_bits()), a > b, "{} > {}", a, b);
        }
    }
}
