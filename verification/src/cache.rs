//! The exact-match key of a request.
//!
//! A request is brought to a canonical text (roles and contents lowercased,
//! contents and model trimmed), the text is hashed with SHA-256, and the key is
//! `cache:exact:<digest in hex>:<model>`.

use sha2::{Digest, Sha256};
use vstd::prelude::*;
use vstd::string::StringExecFns;
use vstd::utf8::encode_utf8;
use crate::digits::{decimal_text, hex_text, is_lower_hex, to_decimal, to_hex};
use crate::models::{LLMRequest, Message, MessageView, RequestView, TemperatureView, message_views};
use crate::text::{chars_of, lowercased, same_text, text_of, trim, trimmed};

verus! {

/// Number of seconds an exact-tier entry lives when a write names no other lifetime.
pub const CACHE_TTL_SECONDS: u64 = 86400;

/// What every key of the exact tier starts with.
pub const KEY_PREFIX: &'static str = "cache:exact:";

/// The SHA-256 digest of a byte string.
pub uninterp spec fn sha256(data: Seq<u8>) -> Seq<u8>;

/// `Sha256::digest` of the crate sha2: the SHA-256 digest of `data`, which has 32 bytes.
#[verifier::external_body]
fn sha256_digest(data: &[u8]) -> (digest: Vec<u8>)
    ensures
        digest@ == sha256(data@),
        digest@.len() == 32,
{
    Sha256::digest(data).to_vec()
}

/// One message in canonical form: `role:content`, both lowercased, the content trimmed first.
pub open spec fn canonical_message(m: MessageView) -> Seq<char> {
    lowercased(m.role) + seq![':'] + lowercased(trimmed(m.content))
}

/// The canonical messages joined by `|`, in their order.
pub open spec fn canonical_messages(messages: Seq<MessageView>) -> Seq<char>
    decreases messages.len(),
{
    if messages.len() == 0 {
        Seq::empty()
    } else if messages.len() == 1 {
        canonical_message(messages[0])
    } else {
        canonical_messages(messages.drop_last()) + seq!['|'] + canonical_message(messages.last())
    }
}

/// The model identifier in canonical form: trimmed, then lowercased.
pub open spec fn canonical_model(model: Seq<char>) -> Seq<char> {
    lowercased(trimmed(model))
}

/// The temperature as it enters the canonical text: its decimal notation, or `none`.
pub open spec fn temperature_value(t: Option<TemperatureView>) -> Seq<char> {
    match t {
        Some(t) => t.text,
        None => "none"@,
    }
}

/// The token cap as it enters the canonical text: in decimal, or `none`.
pub open spec fn tokens_value(cap: Option<u32>) -> Seq<char> {
    match cap {
        Some(n) => decimal_text(n as nat),
        None => "none"@,
    }
}

/// The two sampling settings as they close the canonical text.
pub open spec fn settings_text(t: Option<TemperatureView>, cap: Option<u32>) -> Seq<char> {
    "temp:"@ + temperature_value(t) + seq!['|'] + "tokens:"@ + tokens_value(cap)
}

/// The text that is hashed: `<messages>|model:<model>|temp:<t>|tokens:<n>`.
pub open spec fn canonical_text(r: RequestView) -> Seq<char> {
    canonical_messages(r.messages) + "|model:"@ + canonical_model(r.model) + seq!['|']
        + settings_text(r.temperature, r.max_tokens)
}

/// The digest of the canonical text, in lowercase hexadecimal.
pub open spec fn fingerprint(r: RequestView) -> Seq<char> {
    hex_text(sha256(encode_utf8(canonical_text(r))))
}

/// A key from its two variable parts.
pub open spec fn key_of(fingerprint: Seq<char>, model: Seq<char>) -> Seq<char> {
    "cache:exact:"@ + fingerprint + seq![':'] + model
}

/// The exact-match key of a request.
pub open spec fn cache_key(r: RequestView) -> Seq<char> {
    key_of(fingerprint(r), canonical_model(r.model))
}

/// True for the characters that a model identifier is expected to be made of:
/// `a-z`, `0-9`, `.` and `-`.
pub open spec fn is_model_char(c: char) -> bool {
    ('a' <= c <= 'z') || ('0' <= c <= '9') || c == '.' || c == '-'
}

/// The fixed frame of every key: `cache:exact:`, sixty-four lowercase hexadecimal
/// digits, and a colon.
pub open spec fn has_key_frame(key: Seq<char>) -> bool {
    &&& key.len() >= 77
    &&& key.take(12) == "cache:exact:"@
    &&& forall|i: int| 12 <= i < 76 ==> is_lower_hex(#[trigger] key[i])
    &&& key[76] == ':'
}

/// The full pattern of a key: the frame, then one or more model characters.
pub open spec fn matches_key_pattern(key: Seq<char>) -> bool {
    &&& has_key_frame(key)
    &&& key.len() > 77
    &&& forall|i: int| 77 <= i < key.len() ==> is_model_char(#[trigger] key[i])
}

/// True for the keys that this library makes: those that start with `cache:exact:`.
pub open spec fn is_owned_key(key: Seq<char>) -> bool {
    key.len() >= 12 && key.take(12) == KEY_PREFIX@
}

/// Whether a key of the exact tier belongs to this proxy. An administrative flush
/// drops the keys for which this holds, and no others.
pub fn owns_key(key: &str) -> (owned: bool)
    ensures
        owned == is_owned_key(key@),
{
    let chars = chars_of(key);
    if chars.len() < 12 {
        return false;
    }
    let head = text_of(&chars, 0, 12);
    assert(chars@.subrange(0, 12) == key@.take(12));
    same_text(head.as_str(), KEY_PREFIX)
}

fn push_canonical_message(out: &mut String, message: &Message)
    ensures
        final(out)@ == old(out)@ + canonical_message(message@),
{
    let role = message.role.as_str().to_lowercase();
    let content = trim(message.content.as_str()).as_str().to_lowercase();
    out.append(role.as_str());
    out.push(':');
    out.append(content.as_str());
    assert(out@ == old(out)@ + canonical_message(message@));
}

fn canonical_messages_text(messages: &Vec<Message>) -> (out: String)
    ensures
        out@ == canonical_messages(message_views(messages@)),
{
    let ghost views = message_views(messages@);
    let mut out = String::new();
    let mut i: usize = 0;
    while i < messages.len()
        invariant
            i <= messages.len(),
            views == message_views(messages@),
            out@ == canonical_messages(views.take(i as int)),
        decreases messages.len() - i,
    {
        let ghost before = out@;
        if i > 0 {
            out.push('|');
        }
        push_canonical_message(&mut out, &messages[i]);
        proof {
            let upto = views.take(i + 1);
            assert(upto.drop_last() == views.take(i as int));
            assert(upto.last() == messages@[i as int]@);
            if i == 0 {
                assert(before == Seq::<char>::empty());
                assert(upto[0] == upto.last());
                assert(out@ == canonical_message(upto[0]));
            } else {
                assert(out@ == before + seq!['|'] + canonical_message(upto.last()));
            }
        }
        i += 1;
    }
    assert(views.take(messages.len() as int) == views);
    out
}

/// The exact-match key of `request`.
///
/// Requests that differ only in letter case, or in white space around a content or
/// around the model, have the same key. The key always has the frame
/// `cache:exact:<64 hex digits>:`; what follows is the canonical model.
pub fn generate_cache_key(request: &LLMRequest) -> (key: String)
    ensures
        key@ == cache_key(request@),
        has_key_frame(key@),
        is_owned_key(key@),
        key@.skip(77) == canonical_model(request@.model),
        canonical_model(request@.model).len() > 0 && (forall|i: int|
            0 <= i < canonical_model(request@.model).len() ==> is_model_char(
                #[trigger] canonical_model(request@.model)[i],
            )) ==> matches_key_pattern(key@),
{
    let mut text = canonical_messages_text(&request.messages);
    let model = trim(request.model.as_str()).as_str().to_lowercase();
    text.append("|model:");
    text.append(model.as_str());
    text.push('|');
    text.append("temp:");
    match &request.temperature {
        Some(t) => text.append(t.text.as_str()),
        None => text.append("none"),
    }
    text.push('|');
    text.append("tokens:");
    match request.max_tokens {
        Some(n) => {
            let cap = to_decimal(n as u64);
            text.append(cap.as_str());
        },
        None => text.append("none"),
    }
    assert(text@ == canonical_text(request@));
    let digest = sha256_digest(text.as_str().as_bytes());
    let hex = to_hex(digest.as_slice());
    let mut key = String::from_str(KEY_PREFIX);
    key.append(hex.as_str());
    key.push(':');
    key.append(model.as_str());
    proof {
        reveal_strlit("cache:exact:");
        let m = canonical_model(request@.model);
        assert(key@ == key_of(hex@, m));
        assert(key@.take(12) == "cache:exact:"@);
        assert forall|i: int| 12 <= i < 76 implies is_lower_hex(#[trigger] key@[i]) by {
            assert(key@[i] == hex@[i - 12]);
        }
        assert(key@.skip(77) == m);
        assert forall|i: int| 77 <= i < key@.len() && is_model_char(m[i - 77]) implies is_model_char(
            #[trigger] key@[i],
        ) by {
            assert(key@[i] == m[i - 77]);
        }
    }
    key
}

} // verus!
