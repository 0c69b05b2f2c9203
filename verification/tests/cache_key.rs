use llm_cache_proxy::cache::{generate_cache_key, owns_key, KEY_PREFIX};
use llm_cache_proxy::models::{LLMRequest, Message, Temperature};
use sha2::{Digest, Sha256};

fn temp(t: f32) -> Temperature {
    Temperature::new(t.to_bits(), t.to_string())
}

fn message(role: &str, content: &str) -> Message {
    Message { role: role.to_string(), content: content.to_string() }
}

fn request(
    messages: Vec<Message>,
    model: &str,
    temperature: Option<f32>,
    max_tokens: Option<u32>,
) -> LLMRequest {
    LLMRequest {
        messages,
        model: model.to_string(),
        temperature: temperature.map(temp),
        max_tokens,
    }
}

fn is_lower_hex(c: char) -> bool {
    c.is_ascii_digit() || ('a'..='f').contains(&c)
}

fn is_model_char(c: char) -> bool {
    c.is_ascii_lowercase() || c.is_ascii_digit() || c == '.' || c == '-'
}

fn matches_pattern(key: &str) -> bool {
    let chars: Vec<char> = key.chars().collect();
    chars.len() > 77
        && key.starts_with("cache:exact:")
        && chars[12..76].iter().all(|c| is_lower_hex(*c))
        && chars[76] == ':'
        && chars[77..].iter().all(|c| is_model_char(*c))
}

#[test]
fn test_same_prompts_same_key() {
    let req1 = LLMRequest {
        messages: vec![Message { role: "user".to_string(), content: "What is Rust?".to_string() }],
        model: "gpt-4".to_string(),
        temperature: Some(temp(0.7)),
        max_tokens: None,
    };

    let req2 = LLMRequest {
        messages: vec![Message {
            role: "user".to_string(),
            content: "   what is Rust?     ".to_string(),
        }],
        model: "gpt-4".to_string(),
        temperature: Some(temp(0.7)),
        max_tokens: None,
    };

    let key1 = generate_cache_key(&req1);
    let key2 = generate_cache_key(&req2);

    assert_eq!(key1, key2, "Normalized prompts should generate same key");
}

#[test]
fn key_ignores_case_of_role_content_and_model() {
    let a = request(vec![message("user", "What is Rust?")], "gpt-4", Some(0.7), None);
    let b = request(vec![message("USER", "   what is Rust?   ")], "GPT-4", Some(0.7), None);
    assert_eq!(generate_cache_key(&a), generate_cache_key(&b));
}

#[test]
fn key_ignores_white_space_around_the_model() {
    let a = request(vec![message("user", "hi")], "gpt-4", None, None);
    let b = request(vec![message("user", "\t hi \n")], " \u{a0}gpt-4\r\n", None, None);
    assert_eq!(generate_cache_key(&a), generate_cache_key(&b));
}

#[test]
fn key_keeps_white_space_around_the_role() {
    let a = request(vec![message("user", "hi")], "gpt-4", None, None);
    let b = request(vec![message(" user", "hi")], "gpt-4", None, None);
    assert_ne!(generate_cache_key(&a), generate_cache_key(&b));
}

#[test]
fn key_keeps_white_space_inside_a_content() {
    let a = request(vec![message("user", "what is rust?")], "gpt-4", None, None);
    let b = request(vec![message("user", "what  is rust?")], "gpt-4", None, None);
    assert_ne!(generate_cache_key(&a), generate_cache_key(&b));
}

#[test]
fn key_is_the_digest_of_the_canonical_text() {
    let r = request(vec![message("user", "What is Rust?")], "gpt-4", Some(0.7), None);
    assert_eq!(
        generate_cache_key(&r),
        "cache:exact:622e61c757227083c4e4659186b3363d8f2623790701e1889dd2a53be9d66ea2:gpt-4"
    );
}

#[test]
fn key_of_a_zero_temperature() {
    let r = request(vec![message("user", "ping")], "gpt-4", Some(0.0), None);
    assert_eq!(
        generate_cache_key(&r),
        "cache:exact:f00b0acf2d93385604e00e631685ebbba30bbac80ace9c330abffe9caa736832:gpt-4"
    );
}

#[test]
fn key_of_several_messages_and_a_token_cap() {
    let r = request(
        vec![message("System", "Be brief. "), message("user", " Hi")],
        " Llama-3.3-70B-Versatile ",
        None,
        Some(256),
    );
    assert_eq!(
        generate_cache_key(&r),
        "cache:exact:15187200ec3fc53fd6fcf19e08a1f2f0e5564e65f1a2132de1d30516cd0fbc73:llama-3.3-70b-versatile"
    );
}

#[test]
fn key_of_an_empty_request() {
    let r = request(vec![], "", None, None);
    assert_eq!(
        generate_cache_key(&r),
        "cache:exact:f3ddca515a169415abe402d30666c3d8d6172b401061d5fcefabbfe7b47c831e:"
    );
}

#[test]
fn key_agrees_with_the_hasher_on_text_that_is_not_ascii() {
    let r = request(vec![message("Ünïcode", "  Größe ΣΑΣ  ")], "Modèle-1", Some(1.5), Some(7));
    let text = format!(
        "{}:{}|model:{}|temp:1.5|tokens:7",
        "Ünïcode".to_lowercase(),
        "Größe ΣΑΣ".to_lowercase(),
        "Modèle-1".to_lowercase()
    );
    let expected = format!(
        "cache:exact:{:x}:{}",
        Sha256::digest(text.as_bytes()),
        "Modèle-1".to_lowercase()
    );
    assert_eq!(generate_cache_key(&r), expected);
}

#[test]
fn key_matches_the_pattern() {
    let r = request(vec![message("user", "What is Rust?")], "GPT-4", Some(0.7), Some(100));
    let key = generate_cache_key(&r);
    assert!(matches_pattern(&key), "{}", key);
    assert_eq!(key.len(), 77 + "gpt-4".len());
    let r = request(vec![message("user", "x")], "llama-3.1-8b-instant", None, None);
    assert!(matches_pattern(&generate_cache_key(&r)));
}

#[test]
fn key_of_a_model_outside_the_alphabet_keeps_the_frame_only() {
    let r = request(vec![message("user", "x")], "my model", None, None);
    let key = generate_cache_key(&r);
    assert!(!matches_pattern(&key));
    assert!(key.starts_with("cache:exact:"));
    assert!(key.ends_with(":my model"));
    assert_eq!(key.chars().count(), 77 + 8);
}

#[test]
fn key_changes_with_the_order_of_messages() {
    let a = request(vec![message("user", "one"), message("user", "two")], "gpt-4", None, None);
    let b = request(vec![message("user", "two"), message("user", "one")], "gpt-4", None, None);
    assert_ne!(generate_cache_key(&a), generate_cache_key(&b));
}

#[test]
fn key_changes_with_the_model() {
    let a = request(vec![message("user", "one")], "gpt-4", None, None);
    let b = request(vec![message("user", "one")], "gpt-4o", None, None);
    assert_ne!(generate_cache_key(&a), generate_cache_key(&b));
}

#[test]
fn key_changes_with_the_temperature() {
    let a = request(vec![message("user", "one")], "gpt-4", Some(0.7), None);
    let b = request(vec![message("user", "one")], "gpt-4", Some(0.8), None);
    let c = request(vec![message("user", "one")], "gpt-4", None, None);
    assert_ne!(generate_cache_key(&a), generate_cache_key(&b));
    assert_ne!(generate_cache_key(&a), generate_cache_key(&c));
}

#[test]
fn key_changes_with_the_token_cap() {
    let a = request(vec![message("user", "one")], "gpt-4", None, Some(100));
    let b = request(vec![message("user", "one")], "gpt-4", None, Some(101));
    let c = request(vec![message("user", "one")], "gpt-4", None, None);
    assert_ne!(generate_cache_key(&a), generate_cache_key(&b));
    assert_ne!(generate_cache_key(&a), generate_cache_key(&c));
}

#[test]
fn key_does_not_tell_a_bar_in_a_content_from_a_second_message() {
    let a = request(vec![message("u", "x|u:x"), message("u", "x")], "m", None, None);
    let b = request(vec![message("u", "x"), message("u", "x|u:x")], "m", None, None);
    assert_eq!(generate_cache_key(&a), generate_cache_key(&b));
}

#[test]
fn keys_of_the_library_are_owned() {
    assert_eq!(KEY_PREFIX, "cache:exact:");
    let key = generate_cache_key(&request(vec![message("user", "x")], "gpt-4", None, None));
    assert!(owns_key(&key));
    assert!(owns_key("cache:exact:"));
    assert!(!owns_key("cache:exact"));
    assert!(!owns_key("Cache:exact:abc"));
    assert!(!owns_key("session:42"));
    assert!(!owns_key(""));
}
