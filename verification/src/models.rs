//! The chat-completion request and response, and their mathematical views.

use vstd::prelude::*;

verus! {

/// One message of a conversation.
#[derive(Debug, PartialEq, Eq)]
pub struct Message {
    pub role: String,
    pub content: String,
}

/// A message as two texts.
pub ghost struct MessageView {
    pub role: Seq<char>,
    pub content: Seq<char>,
}

impl View for Message {
    type V = MessageView;

    open spec fn view(&self) -> MessageView {
        MessageView { role: self.role@, content: self.content@ }
    }
}

impl Clone for Message {
    fn clone(&self) -> (copy: Self)
        ensures
            copy@ == self@,
    {
        Message { role: self.role.clone(), content: self.content.clone() }
    }
}

/// A sampling temperature.
///
/// `bits` is the bit pattern of the single-precision number; `text` is the number
/// written out in decimal, as it enters the fingerprint. The library orders
/// temperatures by `bits` and copies `text`; it derives neither from the other.
#[derive(Debug, PartialEq, Eq)]
pub struct Temperature {
    pub bits: u32,
    pub text: String,
}

/// A temperature as a bit pattern and a text.
pub ghost struct TemperatureView {
    pub bits: u32,
    pub text: Seq<char>,
}

impl View for Temperature {
    type V = TemperatureView;

    open spec fn view(&self) -> TemperatureView {
        TemperatureView { bits: self.bits, text: self.text@ }
    }
}

impl Temperature {
    /// A temperature from its bit pattern and its decimal notation.
    pub fn new(bits: u32, text: String) -> (t: Self)
        ensures
            t@ == (TemperatureView { bits, text: text@ }),
    {
        Temperature { bits, text }
    }
}

impl Clone for Temperature {
    fn clone(&self) -> (copy: Self)
        ensures
            copy@ == self@,
    {
        Temperature { bits: self.bits, text: self.text.clone() }
    }
}

/// A chat-completion request. The order of `messages` is significant.
#[derive(Debug, PartialEq, Eq)]
pub struct LLMRequest {
    pub messages: Vec<Message>,
    pub model: String,
    pub temperature: Option<Temperature>,
    pub max_tokens: Option<u32>,
}

/// A request as plain mathematical values.
pub ghost struct RequestView {
    pub messages: Seq<MessageView>,
    pub model: Seq<char>,
    pub temperature: Option<TemperatureView>,
    pub max_tokens: Option<u32>,
}

/// The views of a list of messages, in order.
pub open spec fn message_views(messages: Seq<Message>) -> Seq<MessageView> {
    Seq::new(messages.len(), |i: int| messages[i]@)
}

/// The view of an optional temperature.
pub open spec fn temperature_view(t: Option<Temperature>) -> Option<TemperatureView> {
    match t {
        Some(t) => Some(t@),
        None => None,
    }
}

impl View for LLMRequest {
    type V = RequestView;

    open spec fn view(&self) -> RequestView {
        RequestView {
            messages: message_views(self.messages@),
            model: self.model@,
            temperature: temperature_view(self.temperature),
            max_tokens: self.max_tokens,
        }
    }
}

/// A copy of a list of messages.
pub fn clone_messages(messages: &Vec<Message>) -> (copy: Vec<Message>)
    ensures
        message_views(copy@) == message_views(messages@),
{
    let mut copy: Vec<Message> = Vec::new();
    let mut i: usize = 0;
    while i < messages.len()
        invariant
            i <= messages.len(),
            copy.len() == i,
            forall|k: int| 0 <= k < i ==> (#[trigger] copy@[k])@ == messages@[k]@,
        decreases messages.len() - i,
    {
        copy.push(messages[i].clone());
        i += 1;
    }
    assert(message_views(copy@) =~= message_views(messages@));
    copy
}

impl Clone for LLMRequest {
    fn clone(&self) -> (copy: Self)
        ensures
            copy@ == self@,
    {
        let temperature = match &self.temperature {
            Some(t) => Some(t.clone()),
            None => None,
        };
        LLMRequest {
            messages: clone_messages(&self.messages),
            model: self.model.clone(),
            temperature,
            max_tokens: self.max_tokens,
        }
    }
}

/// Token counts that the provider reports for one completion.
#[derive(Debug, Clone, Copy, PartialEq, Eq, Structural)]
pub struct Usage {
    pub prompt_tokens: u32,
    pub completion_tokens: u32,
    pub total_tokens: u32,
}

/// One alternative answer.
#[derive(Debug, PartialEq, Eq)]
pub struct Choice {
    pub message: Message,
    pub index: i32,
    pub finish_reason: Option<String>,
}

/// A choice as plain mathematical values.
pub ghost struct ChoiceView {
    pub message: MessageView,
    pub index: i32,
    pub finish_reason: Option<Seq<char>>,
}

/// The view of an optional text.
pub open spec fn text_view(t: Option<String>) -> Option<Seq<char>> {
    match t {
        Some(t) => Some(t@),
        None => None,
    }
}

impl View for Choice {
    type V = ChoiceView;

    open spec fn view(&self) -> ChoiceView {
        ChoiceView {
            message: self.message@,
            index: self.index,
            finish_reason: text_view(self.finish_reason),
        }
    }
}

impl Clone for Choice {
    fn clone(&self) -> (copy: Self)
        ensures
            copy@ == self@,
    {
        let finish_reason = match &self.finish_reason {
            Some(t) => Some(t.clone()),
            None => None,
        };
        Choice { message: self.message.clone(), index: self.index, finish_reason }
    }
}

/// A chat-completion response. Only `usage.total_tokens` is read by the library;
/// the rest is carried unchanged.
#[derive(Debug, PartialEq, Eq)]
pub struct LLMResponse {
    pub id: String,
    pub object: String,
    pub created: i64,
    pub model: String,
    pub choices: Vec<Choice>,
    pub usage: Usage,
}

/// A response as plain mathematical values.
pub ghost struct ResponseView {
    pub id: Seq<char>,
    pub object: Seq<char>,
    pub created: i64,
    pub model: Seq<char>,
    pub choices: Seq<ChoiceView>,
    pub usage: Usage,
}

/// The views of a list of choices, in order.
pub open spec fn choice_views(choices: Seq<Choice>) -> Seq<ChoiceView> {
    Seq::new(choices.len(), |i: int| choices[i]@)
}

impl View for LLMResponse {
    type V = ResponseView;

    open spec fn view(&self) -> ResponseView {
        ResponseView {
            id: self.id@,
            object: self.object@,
            created: self.created,
            model: self.model@,
            choices: choice_views(self.choices@),
            usage: self.usage,
        }
    }
}

/// A copy of a list of choices.
pub fn clone_choices(choices: &Vec<Choice>) -> (copy: Vec<Choice>)
    ensures
        choice_views(copy@) == choice_views(choices@),
{
    let mut copy: Vec<Choice> = Vec::new();
    let mut i: usize = 0;
    while i < choices.len()
        invariant
            i <= choices.len(),
            copy.len() == i,
            forall|k: int| 0 <= k < i ==> (#[trigger] copy@[k])@ == choices@[k]@,
        decreases choices.len() - i,
    {
        copy.push(choices[i].clone());
        i += 1;
    }
    assert(choice_views(copy@) =~= choice_views(choices@));
    copy
}

impl Clone for LLMResponse {
    fn clone(&self) -> (copy: Self)
        ensures
            copy@ == self@,
    {
        LLMResponse {
            id: self.id.clone(),
            object: self.object.clone(),
            created: self.created,
            model: self.model.clone(),
            choices: clone_choices(&self.choices),
            usage: self.usage,
        }
    }
}

impl LLMResponse {
    /// The number of tokens that the completion cost, as the counters take it.
    pub fn total_tokens(&self) -> (tokens: u64)
        ensures
            tokens == self@.usage.total_tokens,
    {
        self.usage.total_tokens as u64
    }
}

} // verus!
