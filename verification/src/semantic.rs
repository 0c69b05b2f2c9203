//! The semantic tier as the library sees it: the text that is embedded, the
//! embedding itself, what a stored point carries and what a search hands back.

use uuid::Uuid;
use vstd::prelude::*;
use vstd::string::StringExecFns;
use crate::models::{LLMRequest, Message, MessageView, message_views};

verus! {

/// The number of components of every embedding.
pub const EMBEDDING_DIMENSION: usize = 384;

/// The bit pattern of the single-precision number 0.90: the least similarity score at
/// which a stored answer is reused.
pub const SIMILARITY_THRESHOLD_BITS: u32 = 0x3f66_6666;

/// The collection that holds the points.
pub const COLLECTION_NAME: &'static str = "llm_cache";

/// The payload field that holds the exact-match key of the request answered.
pub const KEY_FIELD: &'static str = "cache_key";

/// The payload field that holds the serialized answer.
pub const RESPONSE_FIELD: &'static str = "response";

/// One message as it is embedded: `role: content`, verbatim.
pub open spec fn prompt_line(m: MessageView) -> Seq<char> {
    m.role + seq![':', ' '] + m.content
}

/// The text that is embedded: the messages, one per line, in their order.
pub open spec fn prompt_of(messages: Seq<MessageView>) -> Seq<char>
    decreases messages.len(),
{
    if messages.len() == 0 {
        Seq::empty()
    } else if messages.len() == 1 {
        prompt_line(messages[0])
    } else {
        prompt_of(messages.drop_last()) + seq!['\n'] + prompt_line(messages.last())
    }
}

/// Builds the text that is sent to the embedding service for a request.
pub fn prompt_text(request: &LLMRequest) -> (text: String)
    ensures
        text@ == prompt_of(request@.messages),
{
    let ghost views = message_views(request.messages@);
    let mut text = String::new();
    let mut i: usize = 0;
    while i < request.messages.len()
        invariant
            i <= request.messages.len(),
            views == message_views(request.messages@),
            text@ == prompt_of(views.take(i as int)),
        decreases request.messages.len() - i,
    {
        let ghost before = text@;
        if i > 0 {
            text.push('\n');
        }
        let message: &Message = &request.messages[i];
        text.append(message.role.as_str());
        text.push(':');
        text.push(' ');
        text.append(message.content.as_str());
        proof {
            let upto = views.take(i + 1);
            assert(upto.drop_last() == views.take(i as int));
            assert(upto.last() == message@);
            if i == 0 {
                assert(before == Seq::<char>::empty());
                assert(upto[0] == upto.last());
                assert(text@ == prompt_line(upto[0]));
            } else {
                assert(text@ == before + seq!['\n'] + prompt_line(upto.last()));
            }
        }
        i += 1;
    }
    assert(views.take(request.messages.len() as int) == views);
    text
}

/// The components that make an embedding: there are exactly 384 of them.
pub open spec fn usable_components(components: Option<Seq<u32>>) -> Option<Seq<u32>> {
    match components {
        Some(c) => if c.len() == EMBEDDING_DIMENSION {
            Some(c)
        } else {
            None
        },
        None => None,
    }
}

/// A point of the embedding space: 384 single-precision numbers, each by its bit pattern.
#[derive(Debug, PartialEq, Eq)]
pub struct Embedding {
    components: Vec<u32>,
}

impl View for Embedding {
    type V = Seq<u32>;

    closed spec fn view(&self) -> Seq<u32> {
        self.components@
    }
}

impl Embedding {
    #[verifier::type_invariant]
    spec fn well_formed(self) -> bool {
        self.components@.len() == EMBEDDING_DIMENSION
    }

    /// An embedding from its components; none unless there are exactly 384.
    pub fn from_components(components: Vec<u32>) -> (embedding: Option<Self>)
        ensures
            embedding is Some <==> components@.len() == EMBEDDING_DIMENSION,
            embedding is Some ==> embedding->0@ == components@,
    {
        if components.len() == EMBEDDING_DIMENSION {
            Some(Embedding { components })
        } else {
            None
        }
    }

    /// The components, in order.
    pub fn components(&self) -> (components: &Vec<u32>)
        ensures
            components@ == self@,
            components@.len() == EMBEDDING_DIMENSION,
    {
        proof {
            use_type_invariant(self);
        }
        &self.components
    }

    /// Gives the components up.
    pub fn into_components(self) -> (components: Vec<u32>)
        ensures
            components@ == self@,
            components@.len() == EMBEDDING_DIMENSION,
    {
        proof {
            use_type_invariant(&self);
        }
        self.components
    }
}

impl Clone for Embedding {
    fn clone(&self) -> (copy: Self)
        ensures
            copy@ == self@,
    {
        proof {
            use_type_invariant(self);
        }
        let mut components: Vec<u32> = Vec::new();
        let mut i: usize = 0;
        while i < self.components.len()
            invariant
                i <= self.components.len(),
                components@ == self.components@.take(i as int),
            decreases self.components.len() - i,
        {
            components.push(self.components[i]);
            assert(self.components@.take(i + 1) == self.components@.take(i as int).push(
                self.components@[i as int],
            ));
            i += 1;
        }
        assert(self.components@.take(self.components.len() as int) == self.components@);
        Embedding { components }
    }
}

/// What a payload field of a stored point holds.
#[derive(Debug, PartialEq, Eq)]
pub enum PayloadValue {
    /// A text.
    Text(String),
    /// Anything that is not a text.
    Other,
}

/// A point that a search found, by what it carries under the response field.
#[derive(Debug, PartialEq, Eq)]
pub struct FoundPoint {
    pub response: Option<PayloadValue>,
}

/// The answer that a search result stands for: the text under the response field
/// of its first point.
pub open spec fn found_response(points: Seq<FoundPoint>) -> Option<Seq<char>> {
    if points.len() == 0 {
        None
    } else {
        match points[0].response {
            Some(PayloadValue::Text(t)) => Some(t@),
            _ => None,
        }
    }
}

/// Picks the serialized answer out of a search result, nearest point first.
/// There is none when nothing was found, or when the nearest point carries no text
/// under the response field.
pub fn cached_response(points: Vec<FoundPoint>) -> (response: Option<String>)
    ensures
        response is Some <==> found_response(points@) is Some,
        response is Some ==> response->0@ == found_response(points@)->0,
{
    let mut points = points;
    if points.len() == 0 {
        return None;
    }
    let ghost all = points@;
    let first = points.swap_remove(0);
    assert(first == all[0]);
    match first.response {
        Some(PayloadValue::Text(t)) => Some(t),
        _ => None,
    }
}

/// What is stored with a point: the two payload fields, by name and text.
pub fn point_payload(cache_key: &str, response: &str) -> (payload: Vec<(String, String)>)
    ensures
        payload@.len() == 2,
        payload@[0].0@ == KEY_FIELD@,
        payload@[0].1@ == cache_key@,
        payload@[1].0@ == RESPONSE_FIELD@,
        payload@[1].1@ == response@,
{
    let mut payload: Vec<(String, String)> = Vec::new();
    payload.push((String::from_str(KEY_FIELD), String::from_str(cache_key)));
    payload.push((String::from_str(RESPONSE_FIELD), String::from_str(response)));
    payload
}

/// A point as it is handed to the semantic tier.
#[derive(Debug, PartialEq, Eq)]
pub struct SemanticPoint {
    /// The identifier of the point. It is arbitrary; points are never looked up by it.
    pub id: String,
    pub embedding: Embedding,
    /// The payload fields, by name and text.
    pub payload: Vec<(String, String)>,
}

/// The payload of the point that stores `response` for the request with `cache_key`.
pub open spec fn payload_of(cache_key: Seq<char>, response: Seq<char>) -> Seq<(Seq<char>, Seq<char>)> {
    seq![(KEY_FIELD@, cache_key), (RESPONSE_FIELD@, response)]
}

impl SemanticPoint {
    /// The payload as pairs of texts.
    pub open spec fn payload_view(self) -> Seq<(Seq<char>, Seq<char>)> {
        Seq::new(self.payload@.len(), |i: int| (self.payload@[i].0@, self.payload@[i].1@))
    }
}

/// `Uuid::new_v4` of the crate uuid, written out by its `Display`: a new random
/// identifier. Nothing is promised of the text: it is drawn from the operating
/// system's random numbers, and two calls give two identifiers.
#[verifier::external_body]
fn fresh_point_id() -> (id: String) {
    Uuid::new_v4().to_string()
}

/// The point with a given identifier that stores `response` for the request with
/// `cache_key` at `embedding`.
pub fn point_with_id(id: String, cache_key: &str, embedding: Embedding, response: &str) -> (point:
    SemanticPoint)
    ensures
        point.id@ == id@,
        point.embedding@ == embedding@,
        point.payload_view() == payload_of(cache_key@, response@),
{
    let payload = point_payload(cache_key, response);
    let point = SemanticPoint { id, embedding, payload };
    assert(point.payload_view() =~= payload_of(cache_key@, response@));
    point
}

/// A new point that stores `response` for the request with `cache_key` at
/// `embedding`. Its identifier is fresh; a second point for the same key is a second
/// point, not a replacement.
pub fn new_point(cache_key: &str, embedding: Embedding, response: &str) -> (point: SemanticPoint)
    ensures
        point.embedding@ == embedding@,
        point.payload_view() == payload_of(cache_key@, response@),
{
    point_with_id(fresh_point_id(), cache_key, embedding, response)
}

} // verus!
