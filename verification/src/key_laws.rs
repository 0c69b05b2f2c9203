//! What holds of the exact-match key for all requests.

use vstd::prelude::*;
use vstd::utf8::{encode_utf8, encode_utf8_decode_utf8};
use crate::cache::{
    cache_key, canonical_message, canonical_messages, canonical_model, canonical_text,
    fingerprint, key_of, settings_text, temperature_value, tokens_value,
};
use crate::digits::{
    decimal_text, hex_digit, hex_text, is_decimal_digit, is_lower_hex, lemma_decimal_text,
    lemma_decimal_text_injective,
};
use crate::models::{MessageView, RequestView};
use crate::text::{all_whitespace, lemma_trim_padding, lowercased, trimmed};

verus! {

/// True when `c` does not occur in `s`.
pub open spec fn free_of(s: Seq<char>, c: char) -> bool {
    forall|i: int| 0 <= i < s.len() ==> #[trigger] s[i] != c
}

/// Two requests are the same up to letter case and surrounding white space:
/// message by message the lowercased roles agree and the trimmed, lowercased contents
/// agree; the trimmed, lowercased models agree; temperature and token cap are written
/// the same.
pub open spec fn same_canonical_form(a: RequestView, b: RequestView) -> bool {
    &&& a.messages.len() == b.messages.len()
    &&& forall|i: int|
        0 <= i < a.messages.len() ==> canonical_message(#[trigger] a.messages[i])
            == canonical_message(b.messages[i])
    &&& canonical_model(a.model) == canonical_model(b.model)
    &&& temperature_value(a.temperature) == temperature_value(b.temperature)
    &&& a.max_tokens == b.max_tokens
}

proof fn lemma_same_messages(a: Seq<MessageView>, b: Seq<MessageView>)
    requires
        a.len() == b.len(),
        forall|i: int| 0 <= i < a.len() ==> canonical_message(#[trigger] a[i]) == canonical_message(
            b[i],
        ),
    ensures
        canonical_messages(a) == canonical_messages(b),
    decreases a.len(),
{
    if a.len() >= 1 {
        assert(canonical_message(a[0]) == canonical_message(b[0]));
        assert(canonical_message(a.last()) == canonical_message(b.last()));
        if a.len() >= 2 {
            assert forall|i: int| 0 <= i < a.drop_last().len() implies canonical_message(
                #[trigger] a.drop_last()[i],
            ) == canonical_message(b.drop_last()[i]) by {
                assert(a.drop_last()[i] == a[i]);
                assert(b.drop_last()[i] == b[i]);
            }
            lemma_same_messages(a.drop_last(), b.drop_last());
        }
    }
}

/// Requests that are the same up to letter case and surrounding white space have the
/// same key.
pub proof fn law_same_canonical_form_same_key(a: RequestView, b: RequestView)
    requires
        same_canonical_form(a, b),
    ensures
        canonical_text(a) == canonical_text(b),
        cache_key(a) == cache_key(b),
{
    lemma_same_messages(a.messages, b.messages);
}

/// A request with white space put around its contents and its model: `content_pads[i]`
/// is what goes before and after the content of message `i`.
pub open spec fn with_padding(
    r: RequestView,
    content_pads: Seq<(Seq<char>, Seq<char>)>,
    model_pad: (Seq<char>, Seq<char>),
) -> RequestView {
    RequestView {
        messages: Seq::new(
            r.messages.len(),
            |i: int|
                MessageView {
                    role: r.messages[i].role,
                    content: content_pads[i].0 + r.messages[i].content + content_pads[i].1,
                },
        ),
        model: model_pad.0 + r.model + model_pad.1,
        temperature: r.temperature,
        max_tokens: r.max_tokens,
    }
}

/// White space around a content or around the model does not change the key.
pub proof fn law_key_ignores_surrounding_whitespace(
    r: RequestView,
    content_pads: Seq<(Seq<char>, Seq<char>)>,
    model_pad: (Seq<char>, Seq<char>),
)
    requires
        content_pads.len() == r.messages.len(),
        forall|i: int|
            0 <= i < content_pads.len() ==> all_whitespace((#[trigger] content_pads[i]).0)
                && all_whitespace(content_pads[i].1),
        all_whitespace(model_pad.0),
        all_whitespace(model_pad.1),
    ensures
        cache_key(with_padding(r, content_pads, model_pad)) == cache_key(r),
{
    let p = with_padding(r, content_pads, model_pad);
    assert forall|i: int| 0 <= i < p.messages.len() implies canonical_message(
        #[trigger] p.messages[i],
    ) == canonical_message(r.messages[i]) by {
        assert(all_whitespace(content_pads[i].0) && all_whitespace(content_pads[i].1));
        lemma_trim_padding(content_pads[i].0, r.messages[i].content, content_pads[i].1);
    }
    lemma_trim_padding(model_pad.0, r.model, model_pad.1);
    law_same_canonical_form_same_key(p, r);
}

/// Changing the letter case of a role, a content or the model, in whatever way leaves
/// the lowercased text the same, does not change the key.
pub proof fn law_key_ignores_letter_case(a: RequestView, b: RequestView)
    requires
        a.messages.len() == b.messages.len(),
        forall|i: int|
            0 <= i < a.messages.len() ==> lowercased((#[trigger] a.messages[i]).role) == lowercased(
                b.messages[i].role,
            ) && lowercased(trimmed(a.messages[i].content)) == lowercased(
                trimmed(b.messages[i].content),
            ),
        lowercased(trimmed(a.model)) == lowercased(trimmed(b.model)),
        a.temperature == b.temperature,
        a.max_tokens == b.max_tokens,
    ensures
        cache_key(a) == cache_key(b),
{
    assert forall|i: int| 0 <= i < a.messages.len() implies canonical_message(
        #[trigger] a.messages[i],
    ) == canonical_message(b.messages[i]) by {
        assert(lowercased(a.messages[i].role) == lowercased(b.messages[i].role));
    }
    law_same_canonical_form_same_key(a, b);
}

proof fn lemma_split_at_first(
    a1: Seq<char>,
    b1: Seq<char>,
    a2: Seq<char>,
    b2: Seq<char>,
    sep: char,
)
    requires
        a1 + seq![sep] + b1 == a2 + seq![sep] + b2,
        free_of(a1, sep),
        free_of(a2, sep),
    ensures
        a1 == a2,
        b1 == b2,
{
    let l = a1 + seq![sep] + b1;
    let r = a2 + seq![sep] + b2;
    assert(l[a1.len() as int] == sep);
    assert(r[a2.len() as int] == sep);
    if a1.len() < a2.len() {
        assert(r[a1.len() as int] == a2[a1.len() as int]);
        assert(false);
    }
    if a2.len() < a1.len() {
        assert(l[a2.len() as int] == a1[a2.len() as int]);
        assert(false);
    }
    assert(l.len() == a1.len() + 1 + b1.len());
    assert(r.len() == a2.len() + 1 + b2.len());
    assert forall|i: int| 0 <= i < a1.len() implies a1[i] == a2[i] by {
        assert(l[i] == a1[i]);
        assert(r[i] == a2[i]);
    }
    assert(a1 =~= a2);
    assert forall|i: int| 0 <= i < b1.len() implies b1[i] == b2[i] by {
        assert(l[a1.len() + 1 + i] == b1[i]);
        assert(r[a2.len() + 1 + i] == b2[i]);
    }
    assert(b1 =~= b2);
}

proof fn lemma_split_at_last(
    a1: Seq<char>,
    b1: Seq<char>,
    a2: Seq<char>,
    b2: Seq<char>,
    sep: char,
)
    requires
        a1 + seq![sep] + b1 == a2 + seq![sep] + b2,
        free_of(b1, sep),
        free_of(b2, sep),
    ensures
        a1 == a2,
        b1 == b2,
{
    let l = a1 + seq![sep] + b1;
    let r = a2 + seq![sep] + b2;
    assert(l.len() == a1.len() + 1 + b1.len());
    assert(r.len() == a2.len() + 1 + b2.len());
    assert(l[a1.len() as int] == sep);
    assert(r[a2.len() as int] == sep);
    if a1.len() < a2.len() {
        assert(l[a2.len() as int] == b1[a2.len() - a1.len() - 1]);
        assert(false);
    }
    if a2.len() < a1.len() {
        assert(r[a1.len() as int] == b2[a1.len() - a2.len() - 1]);
        assert(false);
    }
    assert forall|i: int| 0 <= i < a1.len() implies a1[i] == a2[i] by {
        assert(l[i] == a1[i]);
        assert(r[i] == a2[i]);
    }
    assert(a1 =~= a2);
    assert forall|i: int| 0 <= i < b1.len() implies b1[i] == b2[i] by {
        assert(l[a1.len() + 1 + i] == b1[i]);
        assert(r[a2.len() + 1 + i] == b2[i]);
    }
    assert(b1 =~= b2);
}

proof fn lemma_same_prefix(p: Seq<char>, x: Seq<char>, y: Seq<char>)
    requires
        p + x == p + y,
    ensures
        x == y,
{
    assert((p + x).len() == p.len() + x.len());
    assert((p + y).len() == p.len() + y.len());
    assert forall|i: int| 0 <= i < x.len() implies x[i] == y[i] by {
        assert((p + x)[p.len() + i] == x[i]);
        assert((p + y)[p.len() + i] == y[i]);
    }
    assert(x =~= y);
}

/// Hexadecimal notation is made of the digits `0-9` and `a-f`.
pub proof fn lemma_hex_text_is_hex(bytes: Seq<u8>)
    ensures
        hex_text(bytes).len() == 2 * bytes.len(),
        forall|i: int| 0 <= i < hex_text(bytes).len() ==> is_lower_hex(#[trigger] hex_text(bytes)[i]),
{
    assert forall|i: int| 0 <= i < hex_text(bytes).len() implies is_lower_hex(
        #[trigger] hex_text(bytes)[i],
    ) by {
        let b = bytes[i / 2] as int;
        assert(0 <= b / 16 < 16);
        assert(0 <= b % 16 < 16);
        assert forall|n: int| 0 <= n < 16 implies is_lower_hex(#[trigger] hex_digit(n)) by {}
    }
}

/// A key determines both parts it was made from, as long as the first part holds no colon.
pub proof fn law_key_determines_its_parts(
    fingerprint_a: Seq<char>,
    model_a: Seq<char>,
    fingerprint_b: Seq<char>,
    model_b: Seq<char>,
)
    requires
        free_of(fingerprint_a, ':'),
        free_of(fingerprint_b, ':'),
        key_of(fingerprint_a, model_a) == key_of(fingerprint_b, model_b),
    ensures
        fingerprint_a == fingerprint_b,
        model_a == model_b,
{
    let p = "cache:exact:"@;
    let ta = fingerprint_a + seq![':'] + model_a;
    let tb = fingerprint_b + seq![':'] + model_b;
    assert(key_of(fingerprint_a, model_a) == p + ta);
    assert(key_of(fingerprint_b, model_b) == p + tb);
    lemma_same_prefix(p, ta, tb);
    lemma_split_at_first(fingerprint_a, model_a, fingerprint_b, model_b, ':');
}

/// Two requests have the same key exactly when their canonical texts have the same
/// digest and their canonical models are the same. In particular, requests whose
/// canonical models differ never share a key.
pub proof fn law_key_separates_models_and_digests(a: RequestView, b: RequestView)
    ensures
        cache_key(a) == cache_key(b) <==> fingerprint(a) == fingerprint(b) && canonical_model(
            a.model,
        ) == canonical_model(b.model),
        canonical_model(a.model) != canonical_model(b.model) ==> cache_key(a) != cache_key(b),
{
    if cache_key(a) == cache_key(b) {
        lemma_hex_text_is_hex(sha256_of(a));
        lemma_hex_text_is_hex(sha256_of(b));
        law_key_determines_its_parts(
            fingerprint(a),
            canonical_model(a.model),
            fingerprint(b),
            canonical_model(b.model),
        );
    }
}

/// The digest that the fingerprint of a request writes out.
pub open spec fn sha256_of(r: RequestView) -> Seq<u8> {
    crate::cache::sha256(encode_utf8(canonical_text(r)))
}

proof fn lemma_tokens_value(cap: Option<u32>)
    ensures
        free_of("tokens:"@ + tokens_value(cap), '|'),
        cap is Some ==> is_decimal_digit(tokens_value(cap)[0]),
        cap is None ==> tokens_value(cap)[0] == 'n',
{
    reveal_strlit("tokens:");
    reveal_strlit("none");
    let t = "tokens:"@ + tokens_value(cap);
    match cap {
        Some(n) => {
            lemma_decimal_text(n as nat);
            assert forall|i: int| 0 <= i < t.len() implies #[trigger] t[i] != '|' by {
                if i >= 7 {
                    assert(t[i] == decimal_text(n as nat)[i - 7]);
                    assert(is_decimal_digit(decimal_text(n as nat)[i - 7]));
                }
            }
            assert(is_decimal_digit(decimal_text(n as nat)[0]));
        },
        None => {
            assert forall|i: int| 0 <= i < t.len() implies #[trigger] t[i] != '|' by {}
        },
    }
}

/// Between two requests with the same canonical messages and model, a change of the
/// temperature's notation or of the token cap changes the text that is hashed, and so
/// the bytes that are hashed.
pub proof fn law_settings_change_hashed_text(a: RequestView, b: RequestView)
    requires
        canonical_messages(a.messages) == canonical_messages(b.messages),
        canonical_model(a.model) == canonical_model(b.model),
        temperature_value(a.temperature) != temperature_value(b.temperature) || a.max_tokens
            != b.max_tokens,
    ensures
        canonical_text(a) != canonical_text(b),
        encode_utf8(canonical_text(a)) != encode_utf8(canonical_text(b)),
{
    if canonical_text(a) == canonical_text(b) {
        let head = canonical_messages(a.messages) + "|model:"@ + canonical_model(a.model) + seq![
            '|',
        ];
        let sa = settings_text(a.temperature, a.max_tokens);
        let sb = settings_text(b.temperature, b.max_tokens);
        assert(canonical_text(a) == head + sa);
        assert(canonical_text(b) == head + sb);
        lemma_same_prefix(head, sa, sb);
        let xa = "temp:"@ + temperature_value(a.temperature);
        let xb = "temp:"@ + temperature_value(b.temperature);
        let ya = "tokens:"@ + tokens_value(a.max_tokens);
        let yb = "tokens:"@ + tokens_value(b.max_tokens);
        assert(sa == xa + seq!['|'] + ya);
        assert(sb == xb + seq!['|'] + yb);
        lemma_tokens_value(a.max_tokens);
        lemma_tokens_value(b.max_tokens);
        lemma_split_at_last(xa, ya, xb, yb, '|');
        lemma_same_prefix("temp:"@, temperature_value(a.temperature), temperature_value(b.temperature));
        lemma_same_prefix("tokens:"@, tokens_value(a.max_tokens), tokens_value(b.max_tokens));
        match (a.max_tokens, b.max_tokens) {
            (Some(m), Some(n)) => {
                lemma_decimal_text_injective(m as nat, n as nat);
            },
            _ => {},
        }
        assert(false);
    }
    encode_utf8_decode_utf8(canonical_text(a));
    encode_utf8_decode_utf8(canonical_text(b));
}

/// True when no canonical part of a request holds the bar that separates the parts:
/// no canonical message, nor the canonical model, nor the temperature as written.
pub open spec fn bar_free(r: RequestView) -> bool {
    &&& forall|i: int|
        0 <= i < r.messages.len() ==> free_of(canonical_message(#[trigger] r.messages[i]), '|')
    &&& free_of(canonical_model(r.model), '|')
    &&& free_of(temperature_value(r.temperature), '|')
}

proof fn lemma_messages_not_empty(messages: Seq<MessageView>)
    requires
        messages.len() >= 1,
    ensures
        canonical_messages(messages).len() >= 1,
    decreases messages.len(),
{
    if messages.len() == 1 {
        assert(canonical_message(messages[0]).len() >= 1);
    }
}

proof fn lemma_messages_determined(a: Seq<MessageView>, b: Seq<MessageView>)
    requires
        forall|i: int| 0 <= i < a.len() ==> free_of(canonical_message(#[trigger] a[i]), '|'),
        forall|i: int| 0 <= i < b.len() ==> free_of(canonical_message(#[trigger] b[i]), '|'),
        canonical_messages(a) == canonical_messages(b),
    ensures
        a.len() == b.len(),
        forall|i: int| 0 <= i < a.len() ==> canonical_message(#[trigger] a[i]) == canonical_message(
            b[i],
        ),
    decreases a.len(),
{
    let ma = canonical_messages(a);
    let mb = canonical_messages(b);
    if a.len() >= 1 {
        lemma_messages_not_empty(a);
    }
    if b.len() >= 1 {
        lemma_messages_not_empty(b);
    }
    if a.len() >= 2 {
        let head = canonical_messages(a.drop_last());
        assert(ma == head + seq!['|'] + canonical_message(a.last()));
        assert(ma[head.len() as int] == '|');
        assert(free_of(canonical_message(a.last()), '|'));
    }
    if b.len() >= 2 {
        let head = canonical_messages(b.drop_last());
        assert(mb == head + seq!['|'] + canonical_message(b.last()));
        assert(mb[head.len() as int] == '|');
        assert(free_of(canonical_message(b.last()), '|'));
    }
    if a.len() == 1 {
        assert(free_of(canonical_message(a[0]), '|'));
    }
    if b.len() == 1 {
        assert(free_of(canonical_message(b[0]), '|'));
    }
    if a.len() >= 2 && b.len() >= 2 {
        lemma_split_at_last(
            canonical_messages(a.drop_last()),
            canonical_message(a.last()),
            canonical_messages(b.drop_last()),
            canonical_message(b.last()),
            '|',
        );
        assert forall|i: int| 0 <= i < a.drop_last().len() implies free_of(
            canonical_message(#[trigger] a.drop_last()[i]),
            '|',
        ) by {
            assert(a.drop_last()[i] == a[i]);
        }
        assert forall|i: int| 0 <= i < b.drop_last().len() implies free_of(
            canonical_message(#[trigger] b.drop_last()[i]),
            '|',
        ) by {
            assert(b.drop_last()[i] == b[i]);
        }
        lemma_messages_determined(a.drop_last(), b.drop_last());
        assert forall|i: int| 0 <= i < a.len() implies canonical_message(#[trigger] a[i])
            == canonical_message(b[i]) by {
            if i < a.len() - 1 {
                assert(a.drop_last()[i] == a[i]);
                assert(b.drop_last()[i] == b[i]);
                assert(canonical_message(a.drop_last()[i]) == canonical_message(b.drop_last()[i]));
            }
        }
    }
}

proof fn lemma_labelled_bar_free(label: Seq<char>, value: Seq<char>)
    requires
        free_of(label, '|'),
        free_of(value, '|'),
    ensures
        free_of(label + value, '|'),
{
    assert forall|i: int| 0 <= i < (label + value).len() implies #[trigger] (label + value)[i]
        != '|' by {
        if i < label.len() {
            assert((label + value)[i] == label[i]);
        } else {
            assert((label + value)[i] == value[i - label.len()]);
        }
    }
}

/// The canonical model with its label.
pub open spec fn model_part(r: RequestView) -> Seq<char> {
    "model:"@ + canonical_model(r.model)
}

/// The temperature with its label.
pub open spec fn temperature_part(r: RequestView) -> Seq<char> {
    "temp:"@ + temperature_value(r.temperature)
}

/// The token cap with its label.
pub open spec fn tokens_part(r: RequestView) -> Seq<char> {
    "tokens:"@ + tokens_value(r.max_tokens)
}

proof fn lemma_text_in_parts(r: RequestView)
    requires
        bar_free(r),
    ensures
        canonical_text(r) == ((canonical_messages(r.messages) + seq!['|'] + model_part(r)) + seq![
            '|',
        ] + temperature_part(r)) + seq!['|'] + tokens_part(r),
        free_of(model_part(r), '|'),
        free_of(temperature_part(r), '|'),
        free_of(tokens_part(r), '|'),
{
    reveal_strlit("temp:");
    reveal_strlit("model:");
    reveal_strlit("|model:");
    let bar = seq!['|'];
    assert("|model:"@ =~= bar + "model:"@);
    assert(free_of("temp:"@, '|'));
    assert(free_of("model:"@, '|'));
    lemma_labelled_bar_free("temp:"@, temperature_value(r.temperature));
    lemma_labelled_bar_free("model:"@, canonical_model(r.model));
    lemma_tokens_value(r.max_tokens);
    let m = canonical_messages(r.messages);
    let settings = settings_text(r.temperature, r.max_tokens);
    assert(settings =~= temperature_part(r) + bar + tokens_part(r));
    assert(m + "|model:"@ + canonical_model(r.model) =~= m + bar + model_part(r));
    assert(canonical_text(r) =~= ((m + bar + model_part(r)) + bar + temperature_part(r)) + bar
        + tokens_part(r));
}

/// Among requests whose canonical parts hold no bar, the text that is hashed tells
/// apart any two that are not the same up to letter case and surrounding white
/// space: a change of the order of the messages, of the model, of the temperature as
/// written or of the token cap changes the hashed text, and so the hashed bytes.
pub proof fn law_changes_change_hashed_text(a: RequestView, b: RequestView)
    requires
        bar_free(a),
        bar_free(b),
        !same_canonical_form(a, b),
    ensures
        canonical_text(a) != canonical_text(b),
        encode_utf8(canonical_text(a)) != encode_utf8(canonical_text(b)),
{
    if canonical_text(a) == canonical_text(b) {
        let ma = canonical_messages(a.messages);
        let mb = canonical_messages(b.messages);
        lemma_text_in_parts(a);
        lemma_text_in_parts(b);
        lemma_split_at_last(
            (ma + seq!['|'] + model_part(a)) + seq!['|'] + temperature_part(a),
            tokens_part(a),
            (mb + seq!['|'] + model_part(b)) + seq!['|'] + temperature_part(b),
            tokens_part(b),
            '|',
        );
        lemma_split_at_last(
            ma + seq!['|'] + model_part(a),
            temperature_part(a),
            mb + seq!['|'] + model_part(b),
            temperature_part(b),
            '|',
        );
        lemma_split_at_last(ma, model_part(a), mb, model_part(b), '|');
        lemma_same_prefix("model:"@, canonical_model(a.model), canonical_model(b.model));
        lemma_same_prefix(
            "temp:"@,
            temperature_value(a.temperature),
            temperature_value(b.temperature),
        );
        lemma_same_prefix("tokens:"@, tokens_value(a.max_tokens), tokens_value(b.max_tokens));
        lemma_tokens_value(a.max_tokens);
        lemma_tokens_value(b.max_tokens);
        match (a.max_tokens, b.max_tokens) {
            (Some(m), Some(n)) => {
                lemma_decimal_text_injective(m as nat, n as nat);
            },
            _ => {},
        }
        lemma_messages_determined(a.messages, b.messages);
        assert(false);
    }
    encode_utf8_decode_utf8(canonical_text(a));
    encode_utf8_decode_utf8(canonical_text(b));
}

} // verus!
