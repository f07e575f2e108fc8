//! Change detection: whether a text that was read just now differs, in a way
//! that matters, from the text that was seen before.
//!
//! Two texts differ when they are unequal after the whitespace at both ends of
//! each has been taken off. Whitespace inside a text counts.

use vstd::prelude::*;

verus! {

/// Whether `c` is whitespace: whether it has the Unicode property
/// `White_Space`. These are the tab, the line feed, the vertical tab, the form
/// feed, the carriage return, the space, the next-line control, the no-break
/// space, the Ogham space mark, the spaces of fixed width from U+2000 to
/// U+200A, the line and the paragraph separator, the narrow no-break space,
/// the medium mathematical space and the ideographic space.
pub open spec fn is_whitespace(c: char) -> bool {
    let code = c as u32;
    ||| 0x0009 <= code <= 0x000D
    ||| code == 0x0020
    ||| code == 0x0085
    ||| code == 0x00A0
    ||| code == 0x1680
    ||| 0x2000 <= code <= 0x200A
    ||| code == 0x2028
    ||| code == 0x2029
    ||| code == 0x202F
    ||| code == 0x205F
    ||| code == 0x3000
}

/// `char::is_whitespace`, which std documents to tell whether a character has
/// the Unicode property `White_Space`. The contract states which characters
/// have it.
pub assume_specification[ char::is_whitespace ](c: char) -> (whitespace: bool)
    ensures
        whitespace == is_whitespace(c),
;

/// `s` without the whitespace at its front.
pub open spec fn without_leading_whitespace(s: Seq<char>) -> Seq<char>
    decreases s.len(),
{
    if s.len() > 0 && is_whitespace(s.first()) {
        without_leading_whitespace(s.drop_first())
    } else {
        s
    }
}

/// `s` without the whitespace at its end.
pub open spec fn without_trailing_whitespace(s: Seq<char>) -> Seq<char>
    decreases s.len(),
{
    if s.len() > 0 && is_whitespace(s.last()) {
        without_trailing_whitespace(s.drop_last())
    } else {
        s
    }
}

/// `s` without the whitespace at either end.
pub open spec fn trimmed(s: Seq<char>) -> Seq<char> {
    without_trailing_whitespace(without_leading_whitespace(s))
}

/// Whether `current` is a change from `previous`.
pub open spec fn differs(previous: Seq<char>, current: Seq<char>) -> bool {
    trimmed(previous) != trimmed(current)
}

/// The characters of `text`, one by one.
fn characters(text: &str) -> (chars: Vec<char>)
    ensures
        chars@ == text@,
{
    let mut chars: Vec<char> = Vec::new();
    for c in it: text.chars()
        invariant
            it.seq() == text@,
            chars@ == it.seq().take(it.index() as int),
    {
        chars.push(c);
        assert(it.seq().take(it.index() + 1) =~= it.seq().take(it.index() as int).push(c));
    }
    assert(text@.take(text@.len() as int) =~= text@);
    chars
}

/// Where in `chars` the part begins and ends that is left when the
/// whitespace at both ends is taken off.
fn trimmed_range(chars: &Vec<char>) -> (range: (usize, usize))
    ensures
        range.0 <= range.1 <= chars.len(),
        chars@.subrange(range.0 as int, range.1 as int) == trimmed(chars@),
{
    let len = chars.len();
    let mut start: usize = 0;
    assert(chars@.subrange(0, len as int) =~= chars@);
    while start < len && chars[start].is_whitespace()
        invariant
            len == chars.len(),
            start <= len,
            without_leading_whitespace(chars@) == without_leading_whitespace(
                chars@.subrange(start as int, len as int),
            ),
        decreases len - start,
    {
        assert(chars@.subrange(start as int, len as int).drop_first() =~= chars@.subrange(
            start + 1,
            len as int,
        ));
        start += 1;
    }
    let mut end: usize = len;
    while end > start && chars[end - 1].is_whitespace()
        invariant
            len == chars.len(),
            start <= end <= len,
            without_leading_whitespace(chars@) == chars@.subrange(start as int, len as int),
            without_trailing_whitespace(chars@.subrange(start as int, len as int))
                == without_trailing_whitespace(chars@.subrange(start as int, end as int)),
        decreases end,
    {
        assert(chars@.subrange(start as int, end as int).drop_last() =~= chars@.subrange(
            start as int,
            end - 1,
        ));
        end -= 1;
    }
    (start, end)
}

/// Tells whether `current` differs from `previous` once the whitespace at the
/// ends of both is ignored. A text never differs from itself.
pub fn has_changed(previous: &str, current: &str) -> (changed: bool)
    ensures
        changed == differs(previous@, current@),
        previous@ == current@ ==> !changed,
{
    let before = characters(previous);
    let after = characters(current);
    let (from, to) = trimmed_range(&before);
    let (start, end) = trimmed_range(&after);
    if to - from != end - start {
        assert(trimmed(previous@).len() != trimmed(current@).len());
        return true;
    }
    let mut i: usize = 0;
    while i < to - from
        invariant
            from <= to <= before.len(),
            start <= end <= after.len(),
            to - from == end - start,
            i <= to - from,
            before@.subrange(from as int, to as int) == trimmed(previous@),
            after@.subrange(start as int, end as int) == trimmed(current@),
            forall|j: int| 0 <= j < i ==> trimmed(previous@)[j] == trimmed(current@)[j],
        decreases to - from - i,
    {
        assert(trimmed(previous@)[i as int] == before@[from + i]);
        assert(trimmed(current@)[i as int] == after@[start + i]);
        if before[from + i] != after[start + i] {
            return true;
        }
        i += 1;
    }
    assert(trimmed(previous@) =~= trimmed(current@));
    false
}

/// Tells whether `text` holds nothing but whitespace.
pub fn is_blank(text: &str) -> (blank: bool)
    ensures
        blank == (trimmed(text@).len() == 0),
{
    let chars = characters(text);
    let (start, end) = trimmed_range(&chars);
    start == end
}

/// No text is a change from itself.
pub proof fn lemma_text_never_differs_from_itself(a: Seq<char>)
    ensures
        !differs(a, a),
{
}

} // verus!
