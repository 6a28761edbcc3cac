//! Reading the `data-layout` field out of a printed target description.
//!
//! The text is a JSON document whose shape differs between toolchain
//! versions, and only one of its fields is wanted. So the text is not parsed:
//! it is scanned for the field's name followed by an opening quote, and from
//! there for the quote that closes the string. What stands between the two is
//! the field, exactly as it was printed. A document that holds the marker
//! inside another string is misread; that is the price of taking any document
//! that holds the field.

use crate::error::{text_view, Error};
use vstd::prelude::*;
use vstd::string::StrSliceExecFns;

verus! {

/// The marker as text: the field's name in quotes, a colon, a space and the
/// quote that opens the field's value.
pub const MARKER: &'static str = "\"data-layout\": \"";

/// The marker, character by character.
pub open spec fn marker() -> Seq<char> {
    seq!['"', 'd', 'a', 't', 'a', '-', 'l', 'a', 'y', 'o', 'u', 't', '"', ':', ' ', '"']
}

/// [`MARKER`] holds the characters of [`marker`].
pub proof fn lemma_marker_text()
    ensures
        MARKER@ == marker(),
{
    reveal_strlit("\"data-layout\": \"");
    assert(MARKER@ =~= marker());
}

/// `pattern` stands in `text` at index `i`.
pub open spec fn occurs_at(text: Seq<char>, pattern: Seq<char>, i: int) -> bool {
    &&& 0 <= i
    &&& i + pattern.len() <= text.len()
    &&& text.subrange(i, i + pattern.len()) =~= pattern
}

/// `i` is the first index at which `pattern` stands in `text`.
pub open spec fn first_occurrence(text: Seq<char>, pattern: Seq<char>, i: int) -> bool {
    &&& occurs_at(text, pattern, i)
    &&& forall|k: int| 0 <= k < i ==> !occurs_at(text, pattern, k)
}

/// In a string that opens at index `from`, the character at index `k` is
/// escaped: the character before it is a backslash that is not escaped
/// itself. The character at `from` never is.
pub open spec fn escaped(text: Seq<char>, from: int, k: int) -> bool
    decreases k - from,
{
    from < k <= text.len() && text[k - 1] == '\\' && !escaped(text, from, k - 1)
}

/// In a string that opens at index `from`, index `j` holds a quote that
/// closes it: a quote that is not escaped.
pub open spec fn closing_quote(text: Seq<char>, from: int, j: int) -> bool {
    &&& 0 <= from <= j < text.len()
    &&& text[j] == '"'
    &&& !escaped(text, from, j)
}

/// `j` is the first index at which a string that opens at `from` is closed.
pub open spec fn first_closing_quote(text: Seq<char>, from: int, j: int) -> bool {
    &&& closing_quote(text, from, j)
    &&& forall|k: int| from <= k < j ==> !closing_quote(text, from, k)
}

/// The field's value stands in `text` from index `start` up to, not
/// including, index `end`: the first marker ends just before `start`, and the
/// first quote that closes the string opened there is at `end`.
pub open spec fn field_at(text: Seq<char>, start: int, end: int) -> bool {
    &&& first_occurrence(text, marker(), start - marker().len())
    &&& first_closing_quote(text, start, end)
}

/// The value of the `data-layout` field of `text`, or `None` where the text
/// has none: no marker, or no closing quote after the first marker.
pub open spec fn data_layout_field(text: Seq<char>) -> Option<Seq<char>> {
    if exists|start: int, end: int| field_at(text, start, end) {
        let (start, end) = choose|start: int, end: int| field_at(text, start, end);
        Some(text.subrange(start, end))
    } else {
        None
    }
}

/// What [`extract`] makes of a text: the value of its field, or
/// [`Error::FieldNotFound`] where it has none.
pub open spec fn extracted(text: Seq<char>) -> Result<Seq<char>, Error> {
    match data_layout_field(text) {
        Some(value) => Ok(value),
        None => Err(Error::FieldNotFound),
    }
}

/// A text has at most one place where its field stands.
pub proof fn lemma_field_unique(text: Seq<char>, start: int, end: int, start2: int, end2: int)
    requires
        field_at(text, start, end),
        field_at(text, start2, end2),
    ensures
        start == start2,
        end == end2,
{
    let m = marker().len() as int;
    if start - m < start2 - m {
        assert(!occurs_at(text, marker(), start - m));
    }
    if start2 - m < start - m {
        assert(!occurs_at(text, marker(), start2 - m));
    }
    if end < end2 {
        assert(!closing_quote(text, start, end));
    }
    if end2 < end {
        assert(!closing_quote(text, start, end2));
    }
}

/// Where the field stands from `start` to `end`, the field's value is the
/// text between the two.
pub proof fn lemma_field_value(text: Seq<char>, start: int, end: int)
    requires
        field_at(text, start, end),
    ensures
        data_layout_field(text) == Some(text.subrange(start, end)),
{
    let (s, e) = choose|s: int, e: int| field_at(text, s, e);
    lemma_field_unique(text, start, end, s, e);
}

/// Whether the character at `k` is escaped depends only on the string's own
/// characters, not on where in a longer text the string stands.
pub proof fn lemma_escaped_in_context(
    before: Seq<char>,
    body: Seq<char>,
    after: Seq<char>,
    k: int,
)
    requires
        0 <= k <= body.len(),
    ensures
        escaped(before + body + after, before.len() as int, before.len() + k) == escaped(
            body,
            0,
            k,
        ),
    decreases k,
{
    if k > 0 {
        lemma_escaped_in_context(before, body, after, k - 1);
        assert((before + body + after)[before.len() + k - 1] == body[k - 1]);
    }
}

/// A text that holds the marker nowhere has no field: extraction fails with
/// [`Error::FieldNotFound`].
pub proof fn lemma_no_marker(text: Seq<char>)
    requires
        forall|i: int| !occurs_at(text, marker(), i),
    ensures
        extracted(text) == Err::<Seq<char>, Error>(Error::FieldNotFound),
{
    assert forall|start: int, end: int| !field_at(text, start, end) by {
        assert(!occurs_at(text, marker(), start - marker().len()));
    }
}

/// A text whose first marker opens a string that is never closed has no
/// field: extraction fails with [`Error::FieldNotFound`], and no part of the
/// unfinished string is taken for the value. `start` is the index just
/// behind the first marker.
pub proof fn lemma_unterminated(text: Seq<char>, start: int)
    requires
        first_occurrence(text, marker(), start - marker().len()),
        forall|j: int| !closing_quote(text, start, j),
    ensures
        extracted(text) == Err::<Seq<char>, Error>(Error::FieldNotFound),
{
    assert forall|start2: int, end2: int| !field_at(text, start2, end2) by {
        if field_at(text, start2, end2) {
            if start2 < start {
                assert(!occurs_at(text, marker(), start2 - marker().len()));
            }
            if start < start2 {
                assert(!occurs_at(text, marker(), start - marker().len()));
            }
            assert(closing_quote(text, start, end2));
        }
    }
}

/// From a text that holds the marker, a value and a quote, with no marker
/// further to the left, extraction gives that value, character for
/// character, whatever stands before and after, and also where the value is
/// empty. The value must be one that the quote behind it closes: it holds no
/// unescaped quote of its own and does not end in a backslash that would
/// escape the one behind it.
pub proof fn lemma_embedded_field(before: Seq<char>, value: Seq<char>, after: Seq<char>)
    requires
        forall|i: int|
            0 <= i < before.len() ==> !occurs_at(
                before + marker() + value.push('"') + after,
                marker(),
                i,
            ),
        first_closing_quote(value.push('"'), 0, value.len() as int),
    ensures
        extracted(before + marker() + value.push('"') + after) == Ok::<Seq<char>, Error>(value),
{
    let text = before + marker() + value.push('"') + after;
    let head = before + marker();
    let body = value.push('"');
    let start = head.len() as int;
    let end = start + value.len();
    assert(text.subrange(before.len() as int, start) =~= marker());
    assert(first_occurrence(text, marker(), start - marker().len()));
    assert forall|k: int| start <= k <= end implies escaped(text, start, k) == escaped(
        body,
        0,
        k - start,
    ) by {
        lemma_escaped_in_context(head, body, after, k - start);
    }
    assert forall|k: int| start <= k <= end implies text[k] == body[k - start] by {}
    assert(closing_quote(body, 0, value.len() as int));
    assert(closing_quote(text, start, end));
    assert forall|k: int| start <= k < end implies !closing_quote(text, start, k) by {
        assert(!closing_quote(body, 0, k - start));
    }
    assert(field_at(text, start, end));
    lemma_field_value(text, start, end);
    assert(text.subrange(start, end) =~= value);
}

/// The characters of a text, one by one.
fn chars_of(text: &str) -> (chars: Vec<char>)
    ensures
        chars@ == text@,
{
    let mut chars: Vec<char> = Vec::new();
    for c in it: text.chars()
        invariant
            chars@ == it.seq().take(it.index()),
            it.seq() == text@,
    {
        chars.push(c);
    }
    chars
}

/// Whether `pattern` stands in `text` at index `i`.
fn matches_at(text: &Vec<char>, pattern: &Vec<char>, i: usize) -> (found: bool)
    requires
        i + pattern.len() <= text.len(),
    ensures
        found == occurs_at(text@, pattern@, i as int),
{
    let mut k: usize = 0;
    while k < pattern.len()
        invariant
            k <= pattern.len(),
            i + pattern.len() <= text.len(),
            forall|j: int| 0 <= j < k ==> text@[i + j] == pattern@[j],
        decreases pattern.len() - k,
    {
        if text[i + k] != pattern[k] {
            assert(text@.subrange(i as int, i + pattern.len())[k as int] != pattern@[k as int]);
            return false;
        }
        k += 1;
    }
    true
}

/// The first index at which `pattern` stands in `text`.
fn find(text: &Vec<char>, pattern: &Vec<char>) -> (found: Option<usize>)
    ensures
        match found {
            Some(i) => first_occurrence(text@, pattern@, i as int),
            None => forall|i: int| !occurs_at(text@, pattern@, i),
        },
{
    if pattern.len() > text.len() {
        return None;
    }
    let last: usize = text.len() - pattern.len();
    let mut i: usize = 0;
    while i <= last
        invariant
            last == text.len() - pattern.len(),
            i <= last + 1,
            forall|k: int| 0 <= k < i ==> !occurs_at(text@, pattern@, k),
        decreases last + 1 - i,
    {
        if matches_at(text, pattern, i) {
            return Some(i);
        }
        i += 1;
    }
    None
}

/// The first index at which the string that opens at `from` is closed.
fn find_closing_quote(text: &Vec<char>, from: usize) -> (found: Option<usize>)
    requires
        from <= text.len(),
    ensures
        match found {
            Some(j) => first_closing_quote(text@, from as int, j as int),
            None => forall|j: int| !closing_quote(text@, from as int, j),
        },
{
    let mut k: usize = from;
    let mut after_backslash = false;
    while k < text.len()
        invariant
            from <= k <= text.len(),
            after_backslash == escaped(text@, from as int, k as int),
            forall|j: int| from <= j < k ==> !closing_quote(text@, from as int, j),
        decreases text.len() - k,
    {
        let c = text[k];
        if c == '"' && !after_backslash {
            return Some(k);
        }
        after_backslash = c == '\\' && !after_backslash;
        k += 1;
    }
    None
}

/// Takes the value of the `data-layout` field out of `output`, verbatim:
/// nothing in it is unescaped, and nothing around it is looked at. Fails
/// with [`Error::FieldNotFound`] where the text has no marker, or where the
/// string after the first marker is never closed.
pub fn extract(output: &str) -> (layout: Result<String, Error>)
    ensures
        text_view(layout) == extracted(output@),
{
    let text = chars_of(output);
    let pattern = chars_of(MARKER);
    proof {
        lemma_marker_text();
    }
    match find(&text, &pattern) {
        None => {
            proof {
                lemma_no_marker(text@);
            }
            Err(Error::FieldNotFound)
        },
        Some(i) => {
            assert(i + pattern.len() <= text.len());
            let start: usize = i + pattern.len();
            match find_closing_quote(&text, start) {
                None => {
                    proof {
                        lemma_unterminated(text@, start as int);
                    }
                    Err(Error::FieldNotFound)
                },
                Some(end) => {
                    proof {
                        lemma_field_value(text@, start as int, end as int);
                    }
                    Ok(output.substring_char(start, end).to_owned())
                },
            }
        },
    }
}

} // verus!
