use llm_cache_proxy::models::{
    clone_choices, clone_messages, Choice, LLMRequest, LLMResponse, Message, Temperature, Usage,
};

fn response() -> LLMResponse {
    LLMResponse {
        id: "chatcmpl-1".to_string(),
        object: "chat.completion".to_string(),
        created: -5,
        model: "gpt-4".to_string(),
        choices: vec![
            Choice {
                message: Message { role: "assistant".to_string(), content: "a".to_string() },
                index: 0,
                finish_reason: Some("stop".to_string()),
            },
            Choice {
                message: Message { role: "assistant".to_string(), content: "b".to_string() },
                index: -1,
                finish_reason: None,
            },
        ],
        usage: Usage { prompt_tokens: 1, completion_tokens: 4, total_tokens: 5 },
    }
}

#[test]
fn clone_of_a_response_is_equal() {
    let r = response();
    assert_eq!(r.clone(), r);
    assert_eq!(clone_choices(&r.choices), r.choices);
    assert_eq!(clone_choices(&vec![]), vec![]);
}

#[test]
fn clone_of_a_request_is_equal() {
    let r = LLMRequest {
        messages: vec![
            Message { role: "system".to_string(), content: "x".to_string() },
            Message { role: "user".to_string(), content: "y".to_string() },
        ],
        model: "m".to_string(),
        temperature: Some(Temperature::new(0.5f32.to_bits(), "0.5".to_string())),
        max_tokens: Some(9),
    };
    assert_eq!(r.clone(), r);
    assert_eq!(clone_messages(&r.messages), r.messages);
    let bare = LLMRequest { messages: vec![], model: String::new(), temperature: None, max_tokens: None };
    assert_eq!(bare.clone(), bare);
}

#[test]
fn temperature_holds_pattern_and_notation() {
    let t = Temperature::new(0.7f32.to_bits(), 0.7f32.to_string());
    assert_eq!(t.bits, 0x3f33_3333);
    assert_eq!(t.text, "0.7");
    assert_eq!(t.clone(), t);
}

#[test]
fn total_tokens_of_a_response() {
    assert_eq!(response().total_tokens(), 5);
    let mut r = response();
    r.usage.total_tokens = u32::MAX;
    assert_eq!(r.total_tokens(), 4294967295);
}
