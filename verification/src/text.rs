//! Text primitives that the rest of the library is stated over: what std does to a
//! string (lowercasing, the white-space test, appending a character), and verified
//! routines for trimming and for comparing texts.

use vstd::prelude::*;

verus! {

/// What `str::to_lowercase` of std returns for a text.
pub uninterp spec fn lowercased(text: Seq<char>) -> Seq<char>;

/// `str::to_lowercase` of std: the lowercase equivalent of a text, as a new `String`.
/// Unicode lowercasing is not written out here; the result only has a name.
pub assume_specification[ str::to_lowercase ](s: &str) -> (lower: String)
    ensures
        lower@ == lowercased(s@),
;

/// Whether std counts a character as white space (`char::is_whitespace`).
pub uninterp spec fn is_whitespace(c: char) -> bool;

/// `char::is_whitespace` of std: true for characters with the Unicode property White_Space.
pub assume_specification[ char::is_whitespace ](c: char) -> (b: bool)
    ensures
        b == is_whitespace(c),
;

/// `String::push` of std appends one character to the end of the string.
pub assume_specification[ String::push ](s: &mut String, c: char)
    ensures
        final(s)@ == old(s)@.push(c),
;

/// True when every character of `s` is white space.
pub open spec fn all_whitespace(s: Seq<char>) -> bool {
    forall|i: int| 0 <= i < s.len() ==> is_whitespace(#[trigger] s[i])
}

/// `s` without the white space it starts with.
pub open spec fn without_leading_whitespace(s: Seq<char>) -> Seq<char>
    decreases s.len(),
{
    if s.len() > 0 && is_whitespace(s[0]) {
        without_leading_whitespace(s.drop_first())
    } else {
        s
    }
}

/// `s` without the white space it ends with.
pub open spec fn without_trailing_whitespace(s: Seq<char>) -> Seq<char>
    decreases s.len(),
{
    if s.len() > 0 && is_whitespace(s.last()) {
        without_trailing_whitespace(s.drop_last())
    } else {
        s
    }
}

/// `s` with leading and trailing white space removed.
pub open spec fn trimmed(s: Seq<char>) -> Seq<char> {
    without_trailing_whitespace(without_leading_whitespace(s))
}

/// The characters of a text, in order.
pub fn chars_of(s: &str) -> (chars: Vec<char>)
    ensures
        chars@ == s@,
{
    let mut chars: Vec<char> = Vec::new();
    for c in it: s.chars()
        invariant
            chars@ == it.seq().take(it.index() as int),
            it.seq() == s@,
    {
        chars.push(c);
    }
    chars
}

/// The text made of `chars[from..to]`.
pub(crate) fn text_of(chars: &Vec<char>, from: usize, to: usize) -> (text: String)
    requires
        from <= to <= chars.len(),
    ensures
        text@ == chars@.subrange(from as int, to as int),
{
    let mut text = String::new();
    let mut i: usize = from;
    while i < to
        invariant
            from <= i <= to <= chars.len(),
            text@ == chars@.subrange(from as int, i as int),
        decreases to - i,
    {
        text.push(chars[i]);
        i += 1;
    }
    text
}

/// Removes leading and trailing white space, as `str::trim` does.
pub fn trim(s: &str) -> (out: String)
    ensures
        out@ == trimmed(s@),
{
    let chars = chars_of(s);
    let len: usize = chars.len();
    let mut start: usize = 0;
    assert(chars@.skip(0) == chars@);
    while start < len && chars[start].is_whitespace()
        invariant
            start <= len == chars.len(),
            without_leading_whitespace(chars@) == without_leading_whitespace(
                chars@.skip(start as int),
            ),
        decreases len - start,
    {
        assert(chars@.skip(start as int).drop_first() == chars@.skip(start + 1));
        start += 1;
    }
    let ghost rest = chars@.skip(start as int);
    assert(without_leading_whitespace(chars@) == rest);
    assert(rest == chars@.subrange(start as int, len as int));
    let mut end: usize = len;
    while end > start && chars[end - 1].is_whitespace()
        invariant
            start <= end <= len == chars.len(),
            without_trailing_whitespace(rest) == without_trailing_whitespace(
                chars@.subrange(start as int, end as int),
            ),
        decreases end - start,
    {
        assert(chars@.subrange(start as int, end as int).drop_last() == chars@.subrange(
            start as int,
            end - 1,
        ));
        end -= 1;
    }
    text_of(&chars, start, end)
}

/// Text that is all white space trims to nothing from the left.
pub proof fn lemma_leading_all_whitespace(s: Seq<char>)
    requires
        all_whitespace(s),
    ensures
        without_leading_whitespace(s) == Seq::<char>::empty(),
    decreases s.len(),
{
    if s.len() > 0 {
        assert(is_whitespace(s[0]));
        lemma_leading_all_whitespace(s.drop_first());
    }
}

/// White space put in front of a text is removed with the text's own.
pub proof fn lemma_leading_padding(pad: Seq<char>, s: Seq<char>)
    requires
        all_whitespace(pad),
    ensures
        without_leading_whitespace(pad + s) == without_leading_whitespace(s),
    decreases pad.len(),
{
    if pad.len() > 0 {
        assert(is_whitespace(pad[0]));
        assert((pad + s).drop_first() == pad.drop_first() + s);
        lemma_leading_padding(pad.drop_first(), s);
    } else {
        assert(pad + s == s);
    }
}

/// White space put behind a text is removed with the text's own.
pub proof fn lemma_trailing_padding(s: Seq<char>, pad: Seq<char>)
    requires
        all_whitespace(pad),
    ensures
        without_trailing_whitespace(s + pad) == without_trailing_whitespace(s),
    decreases pad.len(),
{
    if pad.len() > 0 {
        assert(is_whitespace(pad.last()));
        assert((s + pad).drop_last() == s + pad.drop_last());
        lemma_trailing_padding(s, pad.drop_last());
    } else {
        assert(s + pad == s);
    }
}

/// Trimming does not see white space added on either side.
pub proof fn lemma_trim_padding(before: Seq<char>, s: Seq<char>, after: Seq<char>)
    requires
        all_whitespace(before),
        all_whitespace(after),
    ensures
        trimmed(before + s + after) == trimmed(s),
{
    assert(before + s + after == before + (s + after));
    lemma_leading_padding(before, s + after);
    lemma_trim_tail(s, after);
}

proof fn lemma_trim_tail(s: Seq<char>, after: Seq<char>)
    requires
        all_whitespace(after),
    ensures
        trimmed(s + after) == trimmed(s),
    decreases s.len(),
{
    if s.len() == 0 {
        assert(s + after == after);
        lemma_leading_all_whitespace(after);
    } else if is_whitespace(s[0]) {
        assert((s + after).drop_first() == s.drop_first() + after);
        lemma_trim_tail(s.drop_first(), after);
    } else {
        lemma_trailing_padding(s, after);
    }
}

/// Whether two texts hold the same characters.
pub fn same_text(a: &str, b: &str) -> (same: bool)
    ensures
        same == (a@ == b@),
{
    let x = chars_of(a);
    let y = chars_of(b);
    if x.len() != y.len() {
        return false;
    }
    let mut i: usize = 0;
    while i < x.len()
        invariant
            i <= x.len() == y.len(),
            x@ == a@,
            y@ == b@,
            x@.take(i as int) == y@.take(i as int),
        decreases x.len() - i,
    {
        if x[i] != y[i] {
            assert(a@[i as int] != b@[i as int]);
            return false;
        }
        assert(x@.take(i + 1) == x@.take(i as int).push(x@[i as int]));
        assert(y@.take(i + 1) == y@.take(i as int).push(y@[i as int]));
        i += 1;
    }
    assert(x@ == x@.take(x.len() as int));
    assert(y@ == y@.take(y.len() as int));
    true
}

} // verus!
