//! Splitting and trimming of text, with contracts over sequences of characters.
use vstd::prelude::*;

verus! {

/// `text` is `before`, `delimiter` and `after` in a row, and the delimiter is the first one.
pub open spec fn splits_at_first(
    text: Seq<char>,
    delimiter: char,
    before: Seq<char>,
    after: Seq<char>,
) -> bool {
    &&& text == before + seq![delimiter] + after
    &&& !before.contains(delimiter)
}

/// The text before and the text after the first `delimiter`, if there is one.
pub open spec fn split_at_first(text: Seq<char>, delimiter: char) -> Option<(Seq<char>, Seq<char>)> {
    match text.index_of_first(delimiter) {
        Some(i) => Some((text.take(i), text.skip(i + 1))),
        None => None,
    }
}

/// The two parts around the first delimiter are the only ones that fit, and they exist exactly
/// when the delimiter occurs.
pub proof fn lemma_split_at_first(
    text: Seq<char>,
    delimiter: char,
    before: Seq<char>,
    after: Seq<char>,
)
    ensures
        split_at_first(text, delimiter) is Some <==> text.contains(delimiter),
        split_at_first(text, delimiter) == Some((before, after)) <==> splits_at_first(
            text,
            delimiter,
            before,
            after,
        ),
{
    text.index_of_first_ensures(delimiter);
    if splits_at_first(text, delimiter, before, after) {
        let i = before.len() as int;
        assert(text[i] == delimiter);
        assert(text.contains(delimiter));
        let first = text.index_of_first(delimiter).unwrap();
        assert(forall|j: int| 0 <= j < i ==> text[j] == before[j]);
        assert(first == i) by {
            if first < i {
                assert(before.contains(before[first]));
            }
        }
        assert(text.take(i) =~= before);
        assert(text.skip(i + 1) =~= after);
    }
    if split_at_first(text, delimiter) == Some((before, after)) {
        let first = text.index_of_first(delimiter).unwrap();
        assert(before + seq![delimiter] + after =~= text);
        assert forall|j: int| 0 <= j < before.len() implies before[j] != delimiter by {
            assert(before[j] == text[j]);
        }
    }
}

/// Cuts `text` at the first `delimiter`.
pub fn split_once<'a>(text: &'a str, delimiter: char) -> (parts: Option<(&'a str, &'a str)>)
    ensures
        match parts {
            Some((before, after)) => {
                &&& split_at_first(text@, delimiter) == Some((before@, after@))
                &&& splits_at_first(text@, delimiter, before@, after@)
            },
            None => split_at_first(text@, delimiter) is None && !text@.contains(delimiter),
        },
{
    let len: usize = text.unicode_len();
    let mut at: usize = 0;
    for c in it: text.chars()
        invariant
            at == it.index(),
            it.seq() == text@,
            len == text@.len(),
            forall|j: int| 0 <= j < at ==> text@[j] != delimiter,
    {
        if c == delimiter {
            let before = text.substring_char(0, at);
            let after = text.substring_char(at + 1, len);
            proof {
                assert(text@ =~= before@ + seq![delimiter] + after@);
                lemma_split_at_first(text@, delimiter, before@, after@);
            }
            return Some((before, after));
        }
        at += 1;
    }
    proof {
        text@.index_of_first_ensures(delimiter);
    }
    None
}

/// The characters with the Unicode property `White_Space`.
pub open spec fn is_whitespace(c: char) -> bool {
    ||| '\u{9}' <= c <= '\u{d}'
    ||| c == '\u{20}'
    ||| c == '\u{85}'
    ||| c == '\u{a0}'
    ||| c == '\u{1680}'
    ||| '\u{2000}' <= c <= '\u{200a}'
    ||| c == '\u{2028}'
    ||| c == '\u{2029}'
    ||| c == '\u{202f}'
    ||| c == '\u{205f}'
    ||| c == '\u{3000}'
}

/// Whether `c` has the Unicode property `White_Space`.
pub fn whitespace(c: char) -> (found: bool)
    ensures
        found == is_whitespace(c),
{
    ('\u{9}' <= c && c <= '\u{d}') || c == '\u{20}' || c == '\u{85}' || c == '\u{a0}' || c
        == '\u{1680}' || ('\u{2000}' <= c && c <= '\u{200a}') || c == '\u{2028}' || c == '\u{2029}'
        || c == '\u{202f}' || c == '\u{205f}' || c == '\u{3000}'
}

/// `text` without the whitespace at its two ends.
pub open spec fn trimmed(text: Seq<char>) -> Seq<char>
    decreases text.len(),
{
    if text.len() == 0 {
        text
    } else if is_whitespace(text.first()) {
        trimmed(text.drop_first())
    } else if is_whitespace(text.last()) {
        trimmed(text.drop_last())
    } else {
        text
    }
}

/// Every character of `text` is whitespace.
pub open spec fn all_whitespace(text: Seq<char>) -> bool {
    forall|i: int| 0 <= i < text.len() ==> is_whitespace(#[trigger] text[i])
}

/// Trimming takes whitespace off both ends, and nothing else: what is left neither begins nor
/// ends with whitespace, and it is the only part of the text of which that can be said.
pub proof fn lemma_trimmed(text: Seq<char>, lead: Seq<char>, core: Seq<char>, tail: Seq<char>)
    requires
        text == lead + core + tail,
        all_whitespace(lead),
        all_whitespace(tail),
        core.len() > 0 ==> !is_whitespace(core.first()) && !is_whitespace(core.last()),
    ensures
        trimmed(text) == core,
    decreases text.len(),
{
    if lead.len() > 0 {
        assert(text.first() == lead[0]);
        assert(text.drop_first() =~= lead.drop_first() + core + tail);
        lemma_trimmed(text.drop_first(), lead.drop_first(), core, tail);
    } else if core.len() == 0 {
        assert(text =~= tail);
        if tail.len() > 0 {
            assert(text.first() == tail[0]);
            assert(text.drop_first() =~= lead + core + tail.drop_first());
            lemma_trimmed(text.drop_first(), lead, core, tail.drop_first());
        } else {
            assert(text =~= core);
        }
    } else {
        assert(text.first() == core.first());
        if tail.len() > 0 {
            assert(text.last() == tail.last());
            assert(text.drop_last() =~= lead + core + tail.drop_last());
            lemma_trimmed(text.drop_last(), lead, core, tail.drop_last());
        } else {
            assert(text =~= core);
        }
    }
}

/// Takes the whitespace off both ends of `text`.
pub fn trim<'a>(text: &'a str) -> (core: &'a str)
    ensures
        core@ == trimmed(text@),
{
    let len: usize = text.unicode_len();
    let mut at: usize = 0;
    let mut start: usize = 0;
    let mut end: usize = 0;
    for c in it: text.chars()
        invariant
            at == it.index(),
            it.seq() == text@,
            len == text@.len(),
            end == 0 ==> start == at,
            end <= at,
            forall|j: int| 0 <= j < start ==> is_whitespace(#[trigger] text@[j]),
            forall|j: int| end <= j < at ==> is_whitespace(#[trigger] text@[j]),
            end > 0 ==> start < end && !is_whitespace(text@[start as int]) && !is_whitespace(
                text@[end - 1],
            ),
    {
        if whitespace(c) {
            if end == 0 {
                start = at + 1;
            }
        } else {
            end = at + 1;
        }
        at += 1;
    }
    if end == 0 {
        let core = text.substring_char(0, 0);
        proof {
            assert(text@ =~= text@ + core@ + core@);
            lemma_trimmed(text@, text@, core@, core@);
        }
        core
    } else {
        let core = text.substring_char(start, end);
        proof {
            let lead = text@.take(start as int);
            let tail = text@.skip(end as int);
            assert(text@ =~= lead + core@ + tail);
            lemma_trimmed(text@, lead, core@, tail);
        }
        core
    }
}

/// `first` and `second` in a row.
pub fn joined(first: &str, second: &str) -> (text: String)
    ensures
        text@ == first@ + second@,
{
    first.to_owned().concat(second)
}

/// A text that is cut is the two parts around the delimiter, with none in the first part; a text
/// that is not cut has no delimiter.
pub proof fn law_cut_at_the_first_delimiter(
    text: &str,
    delimiter: char,
    parts: Option<(&str, &str)>,
)
    requires
        call_ensures(split_once, (text, delimiter), parts),
    ensures
        match parts {
            Some((before, after)) => {
                &&& text@ == before@.push(delimiter) + after@
                &&& forall|i: int| 0 <= i < before@.len() ==> #[trigger] before@[i] != delimiter
            },
            None => forall|i: int| 0 <= i < text@.len() ==> #[trigger] text@[i] != delimiter,
        },
{
    match parts {
        Some((before, after)) => {
            assert(text@ =~= before@.push(delimiter) + after@);
            assert forall|i: int| 0 <= i < before@.len() implies #[trigger] before@[i]
                != delimiter by {
                assert(before@.contains(before@[i]));
            }
        },
        None => {
            assert forall|i: int| 0 <= i < text@.len() implies #[trigger] text@[i] != delimiter by {
                assert(text@.contains(text@[i]));
            }
        },
    }
}

/// Trimming keeps everything from the first character that is not whitespace to the last one.
pub proof fn law_trimming_keeps_what_is_between(text: &str, core: &str, first: int, last: int)
    requires
        call_ensures(trim, (text,), core),
        0 <= first <= last < text@.len(),
        !is_whitespace(text@[first]),
        !is_whitespace(text@[last]),
        forall|i: int| 0 <= i < first ==> is_whitespace(#[trigger] text@[i]),
        forall|i: int| last < i < text@.len() ==> is_whitespace(#[trigger] text@[i]),
    ensures
        core@ == text@.subrange(first, last + 1),
{
    let lead = text@.take(first);
    let kept = text@.subrange(first, last + 1);
    let tail = text@.skip(last + 1);
    assert(text@ =~= lead + kept + tail);
    lemma_trimmed(text@, lead, kept, tail);
}

/// Trimming leaves nothing of a text that is all whitespace.
pub proof fn law_trimming_leaves_no_whitespace(text: &str, core: &str)
    requires
        call_ensures(trim, (text,), core),
        forall|i: int| 0 <= i < text@.len() ==> is_whitespace(#[trigger] text@[i]),
    ensures
        core@ == Seq::<char>::empty(),
{
    let none = Seq::<char>::empty();
    assert(text@ =~= text@ + none + none);
    lemma_trimmed(text@, text@, none, none);
}

} // verus!
